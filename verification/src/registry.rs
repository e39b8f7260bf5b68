//! The decisions that talking to the on-chain registry makes: which
//! (sub)registry a channel names, how a fetched id is read, and when a
//! contract counts as flagged.

use vstd::prelude::*;

use stellar_xdr as x;
use stellar_xdr::WriteXdr;
use stellar_xdr::{ContractDataDurability as Lifetime, ScVal};
use vstd::string::StringSliceAdditionalSpecFns;
use vstd::utf8::encode_utf8;

use crate::common::{canonicalize, spec_canonicalize};
use crate::prefixed::{prefixed_text, Prefixed};
use crate::strkey::{decode_contract, strkey_contract_decode};
use crate::text::chars_of;

verus! {

/// `s` without any leading or trailing `"` (`str::trim_matches('"')`).
pub open spec fn strip_quotes(s: Seq<char>) -> Seq<char>
    decreases s.len(),
{
    if s.len() > 0 && s[0] == '"' {
        strip_quotes(s.skip(1))
    } else if s.len() > 0 && s[s.len() - 1] == '"' {
        strip_quotes(s.drop_last())
    } else {
        s
    }
}

proof fn lemma_strip_quotes(s: Seq<char>, a: int, b: int)
    requires
        0 <= a <= b <= s.len(),
        forall|j: int| 0 <= j < a ==> s[j] == '"',
        forall|j: int| b <= j < s.len() ==> s[j] == '"',
        a < b ==> s[a] != '"' && s[b - 1] != '"',
        a == b ==> a == s.len(),
    ensures
        strip_quotes(s) == s.subrange(a, b),
    decreases s.len(),
{
    if s.len() > 0 && s[0] == '"' {
        let t = s.skip(1);
        if a == 0 {
            assert(a < b);
        }
        assert forall|j: int| 0 <= j < a - 1 implies t[j] == '"' by {
            assert(t[j] == s[j + 1]);
        }
        assert forall|j: int| b - 1 <= j < t.len() implies t[j] == '"' by {
            assert(t[j] == s[j + 1]);
        }
        if a - 1 < b - 1 {
            assert(t[a - 1] == s[a]);
            assert(t[b - 2] == s[b - 1]);
        }
        lemma_strip_quotes(t, a - 1, b - 1);
        assert(t.subrange(a - 1, b - 1) =~= s.subrange(a, b));
    } else if s.len() > 0 && s[s.len() - 1] == '"' {
        let t = s.drop_last();
        if b == s.len() {
            assert(a < b);
        }
        assert forall|j: int| 0 <= j < a implies t[j] == '"' by {
            assert(t[j] == s[j]);
        }
        assert forall|j: int| b <= j < t.len() implies t[j] == '"' by {
            assert(t[j] == s[j]);
        }
        lemma_strip_quotes(t, a, b);
        assert(t.subrange(a, b) =~= s.subrange(a, b));
    } else {
        if a > 0 {
            assert(s[0] == '"');
        }
        if b < s.len() {
            assert(s[s.len() - 1] == '"');
        }
        assert(s.subrange(a, b) =~= s);
    }
}

/// What reading the text that `fetch_contract_id` returned gives: the
/// contract hash of the text without its quotes, or the raw text as the id
/// that is not one.
pub open spec fn spec_read_contract_id(raw: Seq<char>) -> Result<Seq<u8>, Seq<char>> {
    match strkey_contract_decode(strip_quotes(raw)) {
        Some(h) => Ok(h),
        None => Err(raw),
    }
}

/// Reads the contract id that the registry's `fetch_contract_id` returned
/// (a JSON string, so quoted); on failure the raw text is handed back as
/// the invalid id.
pub fn read_contract_id(raw: &str) -> (r: Result<[u8; 32], String>)
    ensures
        match r {
            Ok(h) => spec_read_contract_id(raw@) == Ok::<Seq<u8>, Seq<char>>(h@),
            Err(e) => spec_read_contract_id(raw@) == Err::<Seq<u8>, Seq<char>>(e@),
        },
{
    let v = chars_of(raw);
    let n = v.len();
    let mut a: usize = 0;
    while a < n && v[a] == '"'
        invariant
            v@ == raw@,
            n == v.len(),
            a <= n,
            forall|j: int| 0 <= j < a ==> raw@[j] == '"',
        decreases n - a,
    {
        a = a + 1;
    }
    let mut b: usize = n;
    while b > a && v[b - 1] == '"'
        invariant
            v@ == raw@,
            n == v.len(),
            a <= b <= n,
            forall|j: int| b <= j < n ==> raw@[j] == '"',
        decreases b - a,
    {
        b = b - 1;
    }
    proof {
        if a == b && a < n {
            assert(raw@[a as int] != '"');
            assert(raw@[b as int] == '"');
        }
        lemma_strip_quotes(raw@, a as int, b as int);
    }
    let inner = raw.substring_char(a, b);
    match decode_contract(inner) {
        Some(h) => Ok(h),
        None => Err(raw.to_owned()),
    }
}

/// Which registry a channel names.
pub enum RegistryChoice {
    /// No channel: the verified root registry.
    Verified,
    /// The channel is itself a contract id: that contract.
    ById([u8; 32]),
    /// Any other channel: the subregistry the root registry lists under that name.
    ByName(String),
}

/// The (sub)registry of a channel: none means the verified registry; a channel
/// that reads as a contract id is that contract; any other channel is looked
/// up by name in the verified registry.
pub fn registry_for_channel(channel: Option<&str>) -> (r: RegistryChoice)
    ensures
        match r {
            RegistryChoice::Verified => channel is None,
            RegistryChoice::ById(h) => channel matches Some(c) && strkey_contract_decode(c@) == Some(
                h@,
            ),
            RegistryChoice::ByName(n) => channel matches Some(c) && strkey_contract_decode(c@) is None
                && n@ == c@,
        },
{
    match channel {
        None => RegistryChoice::Verified,
        Some(c) => match decode_contract(c) {
            Some(h) => RegistryChoice::ById(h),
            None => RegistryChoice::ByName(c.to_owned()),
        },
    }
}

/// A contract's entry in the registry's storage, as far as the flag goes:
/// `Some(n)` for contract data holding a vector of `n` values, `None` for
/// anything else.
pub open spec fn entry_is_flagged(entry: Option<usize>) -> bool {
    entry == Some(3usize)
}

/// A contract entry is stored as a 2-vector when unflagged and a 3-vector
/// (with a trailing `Void`) when flagged: the vector's length carries the flag.
pub fn any_flagged(entries: &Vec<Option<usize>>) -> (r: bool)
    ensures
        r == exists|i: int| 0 <= i < entries.len() && entry_is_flagged(#[trigger] entries@[i]),
{
    let mut i: usize = 0;
    while i < entries.len()
        invariant
            i <= entries.len(),
            forall|j: int| 0 <= j < i ==> !entry_is_flagged(#[trigger] entries@[j]),
        decreases entries.len() - i,
    {
        if entries[i] == Some(3usize) {
            assert(entry_is_flagged(entries@[i as int]));
            return true;
        }
        i = i + 1;
    }
    false
}

/// The refusal of a flagged contract, naming it as the user wrote it.
pub open spec fn spec_flagged_message(name: Seq<char>) -> Seq<char> {
    "contract `"@ + name
        + "` is flagged as compromised in the registry; pass --force to fetch its id anyway"@
}

/// The message when `fetch-contract-id` refuses a flagged contract.
pub fn flagged_message(contract_name: &Prefixed) -> (r: String)
    ensures
        r@ == spec_flagged_message(prefixed_text(contract_name@)),
{
    let mut msg = String::from_str("contract `");
    let t = contract_name.to_string();
    msg.append(t.as_str());
    msg.append("` is flagged as compromised in the registry; pass --force to fetch its id anyway");
    msg
}

/// How long a contract-data entry lives in the ledger.
#[derive(Clone, Copy, Debug, PartialEq, Eq)]
pub enum Durability {
    Temporary,
    Persistent,
}

/// One part of a vector key in a contract's storage: a symbol or a string.
pub enum KeyPart {
    Symbol(String),
    Text(String),
}

/// A [`KeyPart`] with its text as a char sequence.
pub enum KeyPartView {
    Symbol(Seq<char>),
    Text(Seq<char>),
}

impl View for KeyPart {
    type V = KeyPartView;

    open spec fn view(&self) -> KeyPartView {
        match self {
            KeyPart::Symbol(s) => KeyPartView::Symbol(s@),
            KeyPart::Text(s) => KeyPartView::Text(s@),
        }
    }
}

/// A key part that stellar-xdr can hold: a symbol of at most 32 bytes, a
/// string of at most `u32::MAX` bytes.
pub open spec fn key_part_fits(part: KeyPartView) -> bool {
    match part {
        KeyPartView::Symbol(s) => encode_utf8(s).len() <= 32,
        KeyPartView::Text(s) => encode_utf8(s).len() <= u32::MAX,
    }
}

/// What `WriteXdr::to_xdr` (with `Limits::none()`) writes for the
/// `LedgerKey::ContractData` of the contract `registry`, with the given
/// durability, whose key is the vector of `parts` (`ScVal::Symbol` and
/// `ScVal::String`, in order).
pub uninterp spec fn xdr_contract_data_key(
    registry: Seq<u8>,
    parts: Seq<KeyPartView>,
    durability: Durability,
) -> Seq<u8>;

/// Builds with stellar-xdr, and writes as XDR, the ledger key of `registry`'s
/// storage under the vector key `parts` with `durability`. The conversions
/// refuse only a symbol over 32 bytes, a string or vector over `u32::MAX`
/// items, and writing into a `Vec` with no limits does not fail.
#[verifier::external_body]
fn contract_data_key_xdr(registry: [u8; 32], parts: &Vec<KeyPart>, durability: Durability) -> (r: Result<Vec<u8>, x::Error>)
    ensures
        parts@.len() <= u32::MAX && (forall|i: int| 0 <= i < parts@.len() ==> key_part_fits(#[trigger] parts@[i]@)) ==> r is Ok,
        r matches Ok(b) ==> b@ == xdr_contract_data_key(registry@, parts@.map_values(|p: KeyPart| p@), durability),
{
    let mut vals = Vec::new();
    for p in parts {
        vals.push(match p {
            KeyPart::Symbol(s) => ScVal::Symbol(x::ScSymbol(s.as_str().try_into()?)),
            KeyPart::Text(s) => ScVal::String(x::ScString(s.as_str().try_into()?)),
        });
    }
    let durability = match durability {
        Durability::Temporary => Lifetime::Temporary,
        Durability::Persistent => Lifetime::Persistent,
    };
    let contract = x::ScAddress::Contract(x::ContractId(x::Hash(registry)));
    let key = ScVal::Vec(Some(x::ScVec(vals.try_into()?)));
    x::LedgerKey::ContractData(x::LedgerKeyContractData { contract, key, durability }).to_xdr(x::Limits::none())
}

/// The XDR ledger key under which `registry` stores a contract's entry: the
/// vector `(Symbol("CR"), String(<canonical name>))`, persistent (the
/// registry contract's `ContractKey`).
pub open spec fn spec_contract_entry_key(registry: Seq<u8>, name: Seq<char>) -> Seq<u8> {
    xdr_contract_data_key(
        registry,
        seq![KeyPartView::Symbol("CR"@), KeyPartView::Text(spec_canonicalize(name))],
        Durability::Persistent,
    )
}

/// The ledger key, as XDR, of the contract entry that says whether `name` is
/// flagged in the (sub)registry `registry`. The key is keyed by the canonical
/// name, so names of one canonical form share it. A name over `u32::MAX`
/// bytes cannot be written and is refused.
pub fn contract_entry_key(registry: [u8; 32], name: &str) -> (r: Result<Vec<u8>, x::Error>)
    ensures
        name.spec_bytes().len() <= u32::MAX ==> r is Ok,
        r matches Ok(b) ==> b@ == spec_contract_entry_key(registry@, name@),
{
    let canonical = canonicalize(name);
    let ghost cv = canonical@;
    let mut parts: Vec<KeyPart> = Vec::new();
    parts.push(KeyPart::Symbol(String::from_str("CR")));
    parts.push(KeyPart::Text(canonical));
    proof {
        reveal_strlit("CR");
        crate::common::lemma_canonical_bytes(name@);
        assert(encode_utf8("CR"@).len() == 2) by {
            let t = "CR"@;
            assert(t =~= seq!['C', 'R']);
            let u = t.drop_first();
            assert(u =~= seq!['R']);
            assert(u.drop_first() =~= Seq::<char>::empty());
            assert(encode_utf8(u.drop_first()).len() == 0);
            assert(encode_utf8(u).len() == 1);
            assert(encode_utf8(t).len() == 2);
        }
        assert(parts@.map_values(|p: KeyPart| p@) =~= seq![
            KeyPartView::Symbol("CR"@),
            KeyPartView::Text(spec_canonicalize(name@)),
        ]);
        assert(name.spec_bytes().len() <= u32::MAX ==> forall|i: int|
            0 <= i < parts@.len() ==> key_part_fits(#[trigger] parts@[i]@));
    }
    contract_data_key_xdr(registry, &parts, Durability::Persistent)
}

/// Law: names with the same canonical form (`Guess_The_Number` and
/// `guess-the-number`) are looked up under the same key, so they get the
/// same answer on whether they are flagged.
pub proof fn law_same_canonical_same_key(registry: Seq<u8>, a: Seq<char>, b: Seq<char>)
    requires
        spec_canonicalize(a) == spec_canonicalize(b),
    ensures
        spec_contract_entry_key(registry, a) == spec_contract_entry_key(registry, b),
{
}

/// `fetch-contract-id` refuses a contract flagged as compromised unless
/// `--force` is given; with `--force` the flag is not consulted at all.
pub fn flag_gate(force: bool, flagged: bool, contract_name: &Prefixed) -> (r: Result<(), String>)
    ensures
        r is Ok <==> (force || !flagged),
        r matches Err(m) ==> m@ == spec_flagged_message(prefixed_text(contract_name@)),
{
    if !force && flagged {
        Err(flagged_message(contract_name))
    } else {
        Ok(())
    }
}

} // verus!
