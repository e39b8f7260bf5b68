//! Stellar assets named as `native`, `xlm` or `CODE:ISSUER`, and the id of
//! their Stellar Asset Contract, derived offline.

use vstd::prelude::*;

use sha2::Digest;
use stellar_xdr as x;
use stellar_xdr::WriteXdr;
use vstd::utf8::encode_utf8;

use crate::prefixed::find_char_from;
use crate::strkey::{encode_contract, strkey_contract_text};
use crate::text::{chars_of, exec_is_ascii_alnum, is_ascii_alnum, str_eq};

verus! {

/// An asset code as the XDR stores it: up to 4 bytes, or 5 to 12, padded
/// with zero bytes.
pub enum AssetCode {
    Alphanum4([u8; 4]),
    Alphanum12([u8; 12]),
}

/// A Stellar asset: the native lumen, or a credit asset with its code and the
/// 32-byte ed25519 key of its issuer.
#[derive(Debug, PartialEq, Eq)]
#[allow(inconsistent_fields)]
pub enum Asset {
    Native,
    CreditAlphanum4 { code: [u8; 4], issuer: [u8; 32] },
    CreditAlphanum12 { code: [u8; 12], issuer: [u8; 32] },
}

/// An [`Asset`] with its byte arrays as sequences.
#[allow(inconsistent_fields)]
pub enum AssetView {
    Native,
    CreditAlphanum4 { code: Seq<u8>, issuer: Seq<u8> },
    CreditAlphanum12 { code: Seq<u8>, issuer: Seq<u8> },
}

impl View for Asset {
    type V = AssetView;

    open spec fn view(&self) -> AssetView {
        match self {
            Asset::Native => AssetView::Native,
            Asset::CreditAlphanum4 { code, issuer } => AssetView::CreditAlphanum4 {
                code: code@,
                issuer: issuer@,
            },
            Asset::CreditAlphanum12 { code, issuer } => AssetView::CreditAlphanum12 {
                code: code@,
                issuer: issuer@,
            },
        }
    }
}

/// The bytes of an ASCII `code`, padded with zero bytes to `n`.
pub open spec fn padded_code(code: Seq<char>, n: nat) -> Seq<u8> {
    Seq::new(n, |i: int| if i < code.len() { code[i] as u8 } else { 0u8 })
}

/// A code of 1 to 12 ASCII letters or digits.
pub open spec fn valid_asset_code(code: Seq<char>) -> bool {
    1 <= code.len() <= 12 && forall|i: int| 0 <= i < code.len() ==> #[trigger] is_ascii_alnum(code[i])
}

/// The credit asset with a valid `code` and the issuer key `issuer`.
pub open spec fn credit_asset(code: Seq<char>, issuer: Seq<u8>) -> AssetView {
    if code.len() <= 4 {
        AssetView::CreditAlphanum4 { code: padded_code(code, 4), issuer }
    } else {
        AssetView::CreditAlphanum12 { code: padded_code(code, 12), issuer }
    }
}

/// What `stellar_xdr::AccountId::from_str` reads from a text: the issuer's
/// 32-byte ed25519 key, or, where the text is not a `G…` account strkey,
/// the text (`Display`) of the error it returns.
pub uninterp spec fn xdr_account_id_parse(text: Seq<char>) -> Result<Seq<u8>, Seq<char>>;

/// What `WriteXdr::to_xdr` writes (with no limits) for the
/// `HashIdPreimage::ContractId` of an asset's contract on the network whose
/// id is `network_id`.
pub uninterp spec fn xdr_asset_id_preimage(network_id: Seq<u8>, asset: AssetView) -> Seq<u8>;

/// What `sha2::Sha256::digest` gives for `data`.
pub uninterp spec fn sha256_digest(data: Seq<u8>) -> Seq<u8>;

/// `stellar_xdr::AccountId::from_str`: reads a `G…` account strkey. The key,
/// or the error's text, is `xdr_account_id_parse(text)`.
#[verifier::external_body]
fn parse_account_id(text: &str) -> (r: Result<[u8; 32], String>)
    ensures
        match r {
            Ok(k) => xdr_account_id_parse(text@) == Ok::<Seq<u8>, Seq<char>>(k@),
            Err(e) => xdr_account_id_parse(text@) == Err::<Seq<u8>, Seq<char>>(e@),
        },
{
    match text.parse::<stellar_xdr::AccountId>() {
        Ok(stellar_xdr::AccountId(stellar_xdr::PublicKey::PublicKeyTypeEd25519(k))) => Ok(k.0),
        Err(e) => Err(e.to_string()),
    }
}

/// `stellar_xdr::AssetCode::from_str` on a code of 1 to 12 ASCII letters or
/// digits. Its source unescapes the bytes (which copies such a code as it is)
/// into 12 zeroed bytes, and picks the 4-byte form for up to 4 bytes, the
/// 12-byte form above; so it succeeds on every such code.
#[verifier::external_body]
fn parse_asset_code(code: &str) -> (r: Result<AssetCode, String>)
    requires
        valid_asset_code(code@),
    ensures
        match r {
            Ok(AssetCode::Alphanum4(b)) => code@.len() <= 4 && b@ == padded_code(code@, 4),
            Ok(AssetCode::Alphanum12(b)) => code@.len() > 4 && b@ == padded_code(code@, 12),
            Err(_) => false,
        },
{
    match code.parse::<stellar_xdr::AssetCode>() {
        Ok(stellar_xdr::AssetCode::CreditAlphanum4(c)) => Ok(AssetCode::Alphanum4(c.0)),
        Ok(stellar_xdr::AssetCode::CreditAlphanum12(c)) => Ok(AssetCode::Alphanum12(c.0)),
        Err(e) => Err(e.to_string()),
    }
}

/// `WriteXdr::to_xdr` (with `Limits::none()`) of the contract-id preimage of
/// `asset` on the network `network_id`: the bytes are
/// `xdr_asset_id_preimage(network_id, asset)`. The preimage holds only
/// fixed-size arrays and the writer is a `Vec` with no depth or length limit,
/// so the source gives no way for it to fail.
#[verifier::external_body]
fn asset_id_preimage_xdr(network_id: [u8; 32], asset: &Asset) -> (r: Result<Vec<u8>, String>)
    ensures
        r is Ok,
        r matches Ok(b) ==> b@ == xdr_asset_id_preimage(network_id@, asset@),
{
    let account = |k: &[u8; 32]| x::AccountId(x::PublicKey::PublicKeyTypeEd25519(x::Uint256(*k)));
    let asset = match asset {
        Asset::Native => x::Asset::Native,
        Asset::CreditAlphanum4 { code, issuer } => x::Asset::CreditAlphanum4(x::AlphaNum4 { asset_code: x::AssetCode4(*code), issuer: account(issuer) }),
        Asset::CreditAlphanum12 { code, issuer } => x::Asset::CreditAlphanum12(x::AlphaNum12 { asset_code: x::AssetCode12(*code), issuer: account(issuer) }),
    };
    let preimage = x::HashIdPreimage::ContractId(x::HashIdPreimageContractId { network_id: x::Hash(network_id), contract_id_preimage: x::ContractIdPreimage::Asset(asset) });
    preimage.to_xdr(x::Limits::none()).map_err(|e| e.to_string())
}

/// `sha2::Sha256::digest`. The hash is `sha256_digest(data)`.
#[verifier::external_body]
fn sha256(data: &[u8]) -> (r: [u8; 32])
    ensures
        r@ == sha256_digest(data@),
{
    sha2::Sha256::digest(data).into()
}

/// The id of a network: the SHA-256 hash of its passphrase's UTF-8 bytes.
pub open spec fn network_id_of(network: Network) -> Seq<u8> {
    sha256_digest(encode_utf8(network_passphrase(network)))
}

/// A Stellar network the build can target.
#[derive(Clone, Copy, Debug, PartialEq, Eq)]
pub enum Network {
    Local,
    Testnet,
    Futurenet,
    Mainnet,
}

/// The passphrase of each network.
pub open spec fn network_passphrase(network: Network) -> Seq<char> {
    match network {
        Network::Local => "Standalone Network ; February 2017"@,
        Network::Testnet => "Test SDF Network ; September 2015"@,
        Network::Futurenet => "Test SDF Future Network ; October 2022"@,
        Network::Mainnet => "Public Global Stellar Network ; September 2015"@,
    }
}

/// `stellar_build::Network::id`: the network id, which its source computes
/// as `sha2::Sha256::digest` of the network's passphrase.
#[verifier::external_body]
fn network_id(network: Network) -> (r: [u8; 32])
    ensures
        r@ == network_id_of(network),
{
    match network {
        Network::Local => stellar_build::Network::Local.id(),
        Network::Testnet => stellar_build::Network::Testnet.id(),
        Network::Futurenet => stellar_build::Network::Futurenet.id(),
        Network::Mainnet => stellar_build::Network::Mainnet.id(),
    }
}

/// `native` or `xlm`: the native asset.
pub open spec fn is_native_name(s: Seq<char>) -> bool {
    s == "native"@ || s == "xlm"@
}

/// The index of the first `:` of `s` (meaningful when `s` holds one).
pub open spec fn colon_index(s: Seq<char>) -> int {
    choose|i: int| 0 <= i < s.len() && s[i] == ':' && forall|j: int| 0 <= j < i ==> s[j] != ':'
}

/// The refusal of an asset that is neither native nor `CODE:ISSUER`.
pub open spec fn spec_not_an_asset(s: Seq<char>) -> Seq<char> {
    "invalid asset `"@ + s + "`: expected `native`, `xlm`, or `CODE:ISSUER`"@
}

/// The refusal of an asset code that is not 1 to 12 ASCII letters or digits.
pub open spec fn spec_bad_code(code: Seq<char>, s: Seq<char>) -> Seq<char> {
    "invalid asset code `"@ + code + "` in `"@ + s + "`: expected 1-12 ASCII letters or digits"@
}

/// The refusal of an issuer that is not an account strkey, ending with the
/// text of stellar-xdr's error.
pub open spec fn spec_bad_issuer(s: Seq<char>, error: Seq<char>) -> Seq<char> {
    "invalid issuer account in `"@ + s + "`: "@ + error
}

/// What reading `native`, `xlm` or `CODE:ISSUER` gives: the asset and its
/// bare code, or the refusal.
pub open spec fn spec_parse_asset(s: Seq<char>) -> Result<(AssetView, Seq<char>), Seq<char>> {
    if is_native_name(s) {
        Ok((AssetView::Native, s))
    } else if !s.contains(':') {
        Err(spec_not_an_asset(s))
    } else {
        let k = colon_index(s);
        let code = s.take(k);
        let issuer = s.skip(k + 1);
        if !valid_asset_code(code) {
            Err(spec_bad_code(code, s))
        } else {
            match xdr_account_id_parse(issuer) {
                Ok(key) => Ok((credit_asset(code, key), code)),
                Err(e) => Err(spec_bad_issuer(s, e)),
            }
        }
    }
}

/// Law: `native` and `xlm` both read as the native asset, under their own
/// text, and `import_contract!` takes both as assets.
pub proof fn law_native_names(raw: Seq<char>)
    requires
        raw == "native"@ || raw == "xlm"@,
    ensures
        spec_parse_asset(raw) == Ok::<(AssetView, Seq<char>), Seq<char>>((AssetView::Native, raw)),
        is_asset_form(raw),
{
}

/// Law: every text that reads as an asset is taken as one by
/// `import_contract!` (never looked up as a registry name), and every text it
/// leaves to the registry is refused as an asset.
pub proof fn law_assets_are_imported(raw: Seq<char>)
    ensures
        spec_parse_asset(raw) is Ok ==> is_asset_form(raw),
        !is_asset_form(raw) ==> spec_parse_asset(raw) == Err::<(AssetView, Seq<char>), Seq<char>>(
            spec_not_an_asset(raw),
        ),
{
}

/// Law: `CODE:ISSUER` (the code holding no `:`) reads as a credit asset
/// exactly when the code is 1 to 12 ASCII letters or digits and the issuer is
/// an account strkey; a code of up to 4 chars gives an `AlphaNum4` asset, a
/// longer one an `AlphaNum12` asset, each with the code's bytes zero-padded.
pub proof fn law_credit_asset_read(code: Seq<char>, issuer: Seq<char>)
    requires
        forall|i: int| 0 <= i < code.len() ==> code[i] != ':',
    ensures
        ({
            let s = code + seq![':'] + issuer;
            let code_ok = 1 <= code.len() <= 12 && forall|i: int|
                0 <= i < code.len() ==> {
                    let c = #[trigger] code[i];
                    ('0' <= c && c <= '9') || ('a' <= c && c <= 'z') || ('A' <= c && c <= 'Z')
                };
            &&& !code_ok ==> spec_parse_asset(s) == Err::<(AssetView, Seq<char>), Seq<char>>(
                spec_bad_code(code, s),
            )
            &&& code_ok ==> match xdr_account_id_parse(issuer) {
                Ok(key) => spec_parse_asset(s) == Ok::<(AssetView, Seq<char>), Seq<char>>(
                    (
                        if code.len() <= 4 {
                            AssetView::CreditAlphanum4 { code: padded_code(code, 4), issuer: key }
                        } else {
                            AssetView::CreditAlphanum12 { code: padded_code(code, 12), issuer: key }
                        },
                        code,
                    ),
                ),
                Err(e) => spec_parse_asset(s) == Err::<(AssetView, Seq<char>), Seq<char>>(
                    spec_bad_issuer(s, e),
                ),
            }
        }),
{
    let s = code + seq![':'] + issuer;
    let k = code.len() as int;
    reveal_strlit("native");
    reveal_strlit("xlm");
    assert(s[k] == ':');
    assert(s.contains(':'));
    assert(!is_native_name(s)) by {
        if s == "native"@ || s == "xlm"@ {
            assert(forall|j: int| 0 <= j < s.len() ==> s[j] != ':');
        }
    }
    assert forall|j: int| 0 <= j < k implies s[j] != ':' by {
        assert(s[j] == code[j]);
    }
    let w = colon_index(s);
    assert(0 <= k < s.len() && s[k] == ':' && forall|j: int| 0 <= j < k ==> s[j] != ':');
    assert(w == k) by {
        assert(0 <= w < s.len() && s[w] == ':' && forall|j: int| 0 <= j < w ==> s[j] != ':');
        if w < k {
        } else if k < w {
        }
    }
    assert(s.take(k) =~= code);
    assert(s.skip(k + 1) =~= issuer);
    let code_ok = 1 <= code.len() <= 12 && forall|i: int|
        0 <= i < code.len() ==> {
            let c = #[trigger] code[i];
            ('0' <= c && c <= '9') || ('a' <= c && c <= 'z') || ('A' <= c && c <= 'Z')
        };
    if valid_asset_code(code) {
        assert forall|i: int| 0 <= i < code.len() implies {
            let c = #[trigger] code[i];
            ('0' <= c && c <= '9') || ('a' <= c && c <= 'z') || ('A' <= c && c <= 'Z')
        } by {
            assert(is_ascii_alnum(code[i]));
        }
    }
    if code_ok {
        assert forall|i: int| 0 <= i < code.len() implies #[trigger] is_ascii_alnum(code[i]) by {
            let c = code[i];
        }
    }
    assert(valid_asset_code(code) == code_ok);
}

/// The result of reading an asset, its texts as char sequences.
pub open spec fn parsed_asset_view(r: Result<(Asset, String), String>) -> Result<(AssetView, Seq<char>), Seq<char>> {
    match r {
        Ok((a, c)) => Ok((a@, c@)),
        Err(m) => Err(m@),
    }
}

fn code_is_valid(code: &str) -> (r: bool)
    ensures
        r == valid_asset_code(code@),
{
    let v = chars_of(code);
    if v.len() == 0 || v.len() > 12 {
        return false;
    }
    let mut i: usize = 0;
    while i < v.len()
        invariant
            v@ == code@,
            i <= v.len(),
            forall|j: int| 0 <= j < i ==> #[trigger] is_ascii_alnum(code@[j]),
        decreases v.len() - i,
    {
        if !exec_is_ascii_alnum(v[i]) {
            return false;
        }
        i = i + 1;
    }
    true
}

/// Parse `"native"`, `"xlm"`, or `"CODE:ISSUER"` into an asset plus the bare
/// code (used as the generated module name).
pub fn parse_asset(s: &str) -> (r: Result<(Asset, String), String>)
    ensures
        parsed_asset_view(r) == spec_parse_asset(s@),
{
    if str_eq(s, "native") || str_eq(s, "xlm") {
        return Ok((Asset::Native, s.to_owned()));
    }
    let v = chars_of(s);
    let k = match find_char_from(&v, 0, ':') {
        Some(k) => k,
        None => {
            let mut msg = String::from_str("invalid asset `");
            msg.append(s);
            msg.append("`: expected `native`, `xlm`, or `CODE:ISSUER`");
            return Err(msg);
        },
    };
    assert(s@.contains(':'));
    let ghost kk = colon_index(s@);
    assert(kk == k) by {
        let w = choose|i: int| 0 <= i < s@.len() && s@[i] == ':' && forall|j: int| 0 <= j < i ==> s@[j] != ':';
        assert(0 <= w < s@.len() && s@[w] == ':' && forall|j: int| 0 <= j < w ==> s@[j] != ':');
        if w < k {
        } else if k < w {
        }
    }
    let code = s.substring_char(0, k);
    let issuer = s.substring_char(k + 1, v.len());
    if !code_is_valid(code) {
        let mut msg = String::from_str("invalid asset code `");
        msg.append(code);
        msg.append("` in `");
        msg.append(s);
        msg.append("`: expected 1-12 ASCII letters or digits");
        return Err(msg);
    }
    let key = match parse_account_id(issuer) {
        Ok(key) => key,
        Err(e) => {
            let mut msg = String::from_str("invalid issuer account in `");
            msg.append(s);
            msg.append("`: ");
            msg.append(e.as_str());
            return Err(msg);
        },
    };
    let asset = match parse_asset_code(code) {
        Ok(AssetCode::Alphanum4(c)) => Asset::CreditAlphanum4 { code: c, issuer: key },
        Ok(AssetCode::Alphanum12(c)) => Asset::CreditAlphanum12 { code: c, issuer: key },
        Err(e) => {
            let mut msg = String::from_str("invalid asset code `");
            msg.append(code);
            msg.append("` in `");
            msg.append(s);
            msg.append("`: ");
            msg.append(e.as_str());
            return Err(msg);
        },
    };
    Ok((asset, code.to_owned()))
}

/// The Stellar Asset Contract hash of an asset on a network: the SHA-256
/// hash of the XDR of its contract-id preimage.
pub open spec fn spec_asset_contract_hash(network: Network, asset: AssetView) -> Seq<u8> {
    sha256_digest(xdr_asset_id_preimage(network_id_of(network), asset))
}

/// What deriving an asset's contract id gives: the contract hash and the
/// asset's bare code, or the refusal of the asset.
pub open spec fn spec_generate_asset_id(asset: Seq<char>, network: Network) -> Result<(Seq<u8>, Seq<char>), Seq<char>> {
    match spec_parse_asset(asset) {
        Ok((a, code)) => Ok((spec_asset_contract_hash(network, a), code)),
        Err(m) => Err(m),
    }
}

/// The Stellar Asset Contract id for `asset` on `network`, derived offline
/// from the contract-id preimage (no network call), with the asset's bare
/// code.
pub fn generate_asset_id(asset: &str, network: Network) -> (r: Result<([u8; 32], String), String>)
    ensures
        match r {
            Ok((id, c)) => spec_generate_asset_id(asset@, network) == Ok::<(Seq<u8>, Seq<char>), Seq<char>>((id@, c@)),
            Err(m) => spec_generate_asset_id(asset@, network) == Err::<(Seq<u8>, Seq<char>), Seq<char>>(m@),
        },
{
    let (parsed, code) = match parse_asset(asset) {
        Ok(pc) => pc,
        Err(m) => return Err(m),
    };
    match asset_id_preimage_xdr(network_id(network), &parsed) {
        Ok(bytes) => Ok((sha256(bytes.as_slice()), code)),
        Err(e) => {
            let mut msg = String::from_str("failed to encode the contract id preimage: ");
            msg.append(e.as_str());
            Err(msg)
        },
    }
}

/// Whether `syn::parse_str::<syn::Ident>` accepts a text as a Rust identifier.
pub uninterp spec fn syn_ident_accepts(text: Seq<char>) -> bool;

/// `syn::parse_str::<syn::Ident>`: whether `text` reads as a Rust identifier.
/// The answer is `syn_ident_accepts(text)`.
#[verifier::external_body]
pub(crate) fn parses_as_ident(text: &str) -> (r: bool)
    ensures
        r == syn_ident_accepts(text@),
{
    syn::parse_str::<syn::Ident>(text).is_ok()
}

/// The refusal of an asset code that cannot name a Rust module.
pub open spec fn spec_bad_module_name(code: Seq<char>) -> Seq<char> {
    "cannot use asset code `"@ + code + "` as a Rust module name"@
}

/// What the generated asset module is made of: the asset contract's `C…`
/// id and the module name (the asset code), or why there is none.
pub open spec fn spec_asset_module(asset: Seq<char>, network: Network) -> Result<(Seq<char>, Seq<char>), Seq<char>> {
    match spec_parse_asset(asset) {
        Err(m) => Err(m),
        Ok((a, code)) => if syn_ident_accepts(code) {
            Ok((strkey_contract_text(spec_asset_contract_hash(network, a)), code))
        } else {
            Err(spec_bad_module_name(code))
        },
    }
}

/// What the generated asset module is made of: the asset contract's `C…` id
/// and the module name (the asset code), or why there is none.
pub fn asset_module(asset: &str, network: Network) -> (r: Result<(String, String), String>)
    ensures
        match r {
            Ok((id, c)) => spec_asset_module(asset@, network) == Ok::<(Seq<char>, Seq<char>), Seq<char>>((id@, c@)),
            Err(m) => spec_asset_module(asset@, network) == Err::<(Seq<char>, Seq<char>), Seq<char>>(m@),
        },
{
    let (hash, code) = generate_asset_id(asset, network)?;
    if !parses_as_ident(code.as_str()) {
        let mut msg = String::from_str("cannot use asset code `");
        msg.append(code.as_str());
        msg.append("` as a Rust module name");
        return Err(msg);
    }
    let id = encode_contract(hash);
    Ok((id, code))
}

/// A name that `import_contract!` reads as an asset: `native`, `xlm`, or one
/// with a `:` (`CODE:ISSUER`, which no registry name can hold).
pub open spec fn is_asset_form(raw: Seq<char>) -> bool {
    is_native_name(raw) || raw.contains(':')
}

/// What `import_contract!` binds an asset name to: the `C…` id of its Stellar
/// Asset Contract on the network, or the refusal of the asset.
pub open spec fn spec_asset_contract_id(raw: Seq<char>, network: Network) -> Result<Seq<char>, Seq<char>> {
    match spec_parse_asset(raw) {
        Ok((a, _)) => Ok(strkey_contract_text(spec_asset_contract_hash(network, a))),
        Err(m) => Err(m),
    }
}

/// Asset names (`xlm`, `native`, `"CODE:ISSUER"`) given to `import_contract!`
/// resolve their Stellar Asset Contract id offline, with no registry lookup
/// and no cache; any other name is left to the registry (`None`).
pub fn asset_import(raw: &str, network: Network) -> (r: Option<Result<String, String>>)
    ensures
        r is Some <==> is_asset_form(raw@),
        r matches Some(res) ==> match res {
            Ok(id) => spec_asset_contract_id(raw@, network) == Ok::<Seq<char>, Seq<char>>(id@),
            Err(m) => spec_asset_contract_id(raw@, network) == Err::<Seq<char>, Seq<char>>(m@),
        },
{
    let v = chars_of(raw);
    let native = str_eq(raw, "native") || str_eq(raw, "xlm");
    let colon = find_char_from(&v, 0, ':');
    if !native && colon.is_none() {
        return None;
    }
    proof {
        if let Some(k) = colon {
            assert(raw@[k as int] == ':');
        }
    }
    match generate_asset_id(raw, network) {
        Ok((hash, _)) => Some(Ok(encode_contract(hash))),
        Err(m) => Some(Err(m)),
    }
}

} // verus!
