//! Resolving a deployed, registry-named contract at build time: where its id
//! and wasm are cached, when the cache is trusted, and what each failure says.

use vstd::prelude::*;

use crate::common::{canonical_char, spec_canonicalize};
use crate::prefixed::{module_char, prefixed_text, spec_mod_name, Prefixed, PrefixedView};
use crate::strkey::{decode_contract, strkey_contract_decode};
use crate::text::{
    contains_str, debug_quoted, debug_text, has_infix, join_path, path_join, str_eq, trim, trimmed,
};

verus! {

/// Cache file stem of a deployed contract: `<channel>__<mod_name>`, or
/// `<mod_name>` without a channel. The channel is part of the key, so
/// `unverified/foo` and `foo` never share cache files. (The module name turns
/// `-` into `_`, so a bare name that spells `<channel>--<name>` does share the
/// stem of `<channel>/<name>`.)
pub open spec fn spec_cache_stem(p: PrefixedView) -> Seq<char> {
    match p.channel {
        Some(c) => c + "__"@ + spec_mod_name(p.name),
        None => spec_mod_name(p.name),
    }
}

/// `<target_dir>/deployed/<stem>.<ext>`.
pub open spec fn spec_cache_path(target_dir: Seq<char>, p: PrefixedView, ext: Seq<char>) -> Seq<char> {
    path_join(path_join(target_dir, "deployed"@), spec_cache_stem(p)) + seq!['.'] + ext
}

/// What checking a contract id gives: the trimmed text where it is a `C…`
/// strkey, else the message that it is not.
pub open spec fn spec_validate_contract_id(s: Seq<char>) -> Result<Seq<char>, Seq<char>> {
    let t = trimmed(s);
    if strkey_contract_decode(t) is Some {
        Ok(t)
    } else {
        Err("not a valid contract id (C… strkey): "@ + debug_text(t))
    }
}

/// A `Result` of strings, seen as char sequences.
pub open spec fn result_text(r: Result<String, String>) -> Result<Seq<char>, Seq<char>> {
    match r {
        Ok(s) => Ok(s@),
        Err(e) => Err(e@),
    }
}

/// Cache file stem for a deployed-contract import.
pub fn cache_stem(contract: &Prefixed) -> (r: String)
    ensures
        r@ == spec_cache_stem(contract@),
{
    match contract.channel() {
        Some(channel) => {
            let mut out = channel.to_owned();
            out.append("__");
            let m = contract.mod_name();
            out.append(m.as_str());
            out
        },
        None => contract.mod_name(),
    }
}

fn cache_path(target_dir: &str, contract: &Prefixed, ext: &str) -> (r: String)
    ensures
        r@ == spec_cache_path(target_dir@, contract@, ext@),
{
    let dir = join_path(target_dir, "deployed");
    let stem = cache_stem(contract);
    let mut out = join_path(dir.as_str(), stem.as_str());
    out.push('.');
    out.append(ext);
    out
}

/// `<target_dir>/deployed/<stem>.id`: the cached deployed address.
pub fn cache_id_path(target_dir: &str, contract: &Prefixed) -> (r: String)
    ensures
        r@ == spec_cache_path(target_dir@, contract@, "id"@),
{
    cache_path(target_dir, contract, "id")
}

/// `<target_dir>/deployed/<stem>.wasm`: the deployed contract's own wasm.
pub fn cache_wasm_path(target_dir: &str, contract: &Prefixed) -> (r: String)
    ensures
        r@ == spec_cache_path(target_dir@, contract@, "wasm"@),
{
    cache_path(target_dir, contract, "wasm")
}

/// Validate a `C…` contract strkey; return it trimmed.
pub fn validate_contract_id(s: &str) -> (r: Result<String, String>)
    ensures
        result_text(r) == spec_validate_contract_id(s@),
{
    let t = trim(s);
    match decode_contract(t) {
        Some(_) => Ok(t.to_owned()),
        None => {
            let mut msg = String::from_str("not a valid contract id (C… strkey): ");
            let q = debug_quoted(t);
            msg.append(q.as_str());
            Err(msg)
        },
    }
}

/// The cached wasm belongs to one deployment. Online, it is stale unless the
/// previously cached id (trimmed) is the freshly resolved address; offline
/// the cache is trusted as it is.
pub fn wasm_is_stale(previously_cached_id: Option<&str>, address: &str, no_registry: bool) -> (r:
    bool)
    ensures
        r == (!no_registry && match previously_cached_id {
            Some(p) => trimmed(p@) != address@,
            None => true,
        }),
{
    if no_registry {
        return false;
    }
    match previously_cached_id {
        Some(p) => !str_eq(trim(p), address),
        None => true,
    }
}

/// The "things to try" text for resolution failures.
pub open spec fn spec_resolution_help(
    lookup: PrefixedView,
    id_path: Seq<char>,
    wasm_path: Seq<char>,
    explorer: Option<Seq<char>>,
) -> Seq<char> {
    let name_check = match explorer {
        Some(url) => "- Check that you got the name right: "@ + url + "/contracts\n"@,
        None => Seq::empty(),
    };
    name_check + "- Run `stellar registry fetch-contract-id "@ + prefixed_text(lookup)
        + "` yourself and make sure the name and network match your expectations.\n- Set STELLAR_NO_REGISTRY=1 to prevent network calls. You will need to create "@
        + id_path + " and "@ + wasm_path
        + " yourself, perhaps using `stellar registry fetch-contract-id` for the id and `stellar contract fetch` for the wasm."@
}

/// The "things to try" footer for resolution failures: a name-check link when
/// the network has an explorer (`explorer`), a manual repro command, and the
/// offline escape hatch with the exact cache paths this build expects.
pub fn resolution_help(
    lookup: &Prefixed,
    id_path: &str,
    wasm_path: &str,
    explorer: Option<&str>,
) -> (r: String)
    ensures
        r@ == spec_resolution_help(
            lookup@,
            id_path@,
            wasm_path@,
            match explorer {
                Some(u) => Some(u@),
                None => None,
            },
        ),
{
    let mut out = String::new();
    if let Some(url) = explorer {
        out.append("- Check that you got the name right: ");
        out.append(url);
        out.append("/contracts\n");
    }
    out.append("- Run `stellar registry fetch-contract-id ");
    let l = lookup.to_string();
    out.append(l.as_str());
    out.append(
        "` yourself and make sure the name and network match your expectations.\n- Set STELLAR_NO_REGISTRY=1 to prevent network calls. You will need to create ",
    );
    out.append(id_path);
    out.append(" and ");
    out.append(wasm_path);
    out.append(
        " yourself, perhaps using `stellar registry fetch-contract-id` for the id and `stellar contract fetch` for the wasm.",
    );
    out
}

/// The refusal when offline and no contract id is cached.
pub open spec fn spec_offline_no_cache(offline_help: Seq<char>) -> Seq<char> {
    "STELLAR_NO_REGISTRY=1 but no cached contract id. Things to try:\n\n"@ + offline_help
}

/// An optional string, seen as an optional char sequence.
pub open spec fn opt_string(o: Option<String>) -> Option<Seq<char>> {
    match o {
        Some(s) => Some(s@),
        None => None,
    }
}

/// Offline resolution: the cached id, checked, or the refusal without one.
pub open spec fn spec_offline_resolution(cache: Option<Seq<char>>, offline_help: Seq<char>) -> Result<Seq<char>, Seq<char>> {
    match cache {
        Some(c) => spec_validate_contract_id(c),
        None => Err(spec_offline_no_cache(offline_help)),
    }
}

/// Online resolution: what the lookup returned, checked, or its failure.
pub open spec fn spec_online_resolution(fetched: Result<Seq<char>, Seq<char>>) -> Result<Seq<char>, Seq<char>> {
    match fetched {
        Ok(a) => spec_validate_contract_id(a),
        Err(e) => Err(e),
    }
}

/// Resolve the deployed address. Offline (`no_registry`) the cached id is
/// required and `fetch` is never run. Online the cache is deliberately not
/// consulted: `fetch` runs every time, and what it returns is checked.
pub fn resolve_address<F: FnOnce() -> Result<String, String>>(
    cache: Option<String>,
    no_registry: bool,
    offline_help: &str,
    fetch: F,
) -> (r: Result<String, String>)
    requires
        !no_registry ==> call_requires(fetch, ()),
    ensures
        no_registry ==> result_text(r) == spec_offline_resolution(opt_string(cache), offline_help@),
        !no_registry ==> exists|fetched: Result<String, String>|
            call_ensures(fetch, (), fetched) && result_text(r) == spec_online_resolution(
                result_text(fetched),
            ),
{
    if no_registry {
        return match cache {
            Some(c) => validate_contract_id(c.as_str()),
            None => {
                let mut msg = String::from_str(
                    "STELLAR_NO_REGISTRY=1 but no cached contract id. Things to try:\n\n",
                );
                msg.append(offline_help);
                Err(msg)
            },
        };
    }
    let fetched = fetch();
    let ghost seen = fetched;
    let r = match fetched {
        Ok(a) => validate_contract_id(a.as_str()),
        Err(e) => Err(e),
    };
    assert(call_ensures(fetch, (), seen) && result_text(r) == spec_online_resolution(result_text(seen)));
    r
}

/// What `stellar registry fetch-contract-id` said, read: the trimmed stdout
/// on success; otherwise the most specific message its stderr allows.
pub open spec fn spec_read_fetch_output(
    success: bool,
    stdout: Seq<char>,
    stderr: Seq<char>,
    lookup: PrefixedView,
    network: Seq<char>,
    help: Seq<char>,
) -> Result<Seq<char>, Seq<char>> {
    if success {
        Ok(trimmed(stdout))
    } else if has_infix(stderr, "unexpected argument"@) || (has_infix(
        stderr,
        "unrecognized subcommand"@,
    ) && has_infix(stderr, "fetch-contract-id"@)) {
        Err(
            "the installed `stellar registry` plugin is too old for import_contract!. Upgrade it with `cargo install stellar-registry-cli --force`.\n\nstderr:\n"@
                + stderr,
        )
    } else if has_infix(stderr, "unrecognized subcommand"@) || has_infix(stderr, "no such command"@) {
        Err(
            "the `stellar registry` plugin is not installed. Install it with `cargo install stellar-registry-cli`.\n\nstderr:\n"@
                + stderr,
        )
    } else if has_infix(stderr, "flagged as compromised"@) {
        Err(
            "contract `"@ + prefixed_text(lookup)
                + "` is flagged as compromised in the registry; refusing to import it."@,
        )
    } else {
        Err(
            "Could not resolve a contract id for `"@ + prefixed_text(lookup) + "` on "@ + network
                + ". Things to try:\n\n"@ + help
                + "\n\nstderr from `stellar registry fetch-contract-id`:\n"@ + stderr,
        )
    }
}

/// Reads what `stellar registry fetch-contract-id <lookup>` printed. A current
/// plugin refuses flagged contracts, so their failure is reported as such; an
/// installed-but-outdated plugin is told apart from a missing one before the
/// generic failure.
pub fn read_fetch_output(
    success: bool,
    stdout: &str,
    stderr: &str,
    lookup: &Prefixed,
    network: &str,
    help: &str,
) -> (r: Result<String, String>)
    ensures
        result_text(r) == spec_read_fetch_output(success, stdout@, stderr@, lookup@, network@, help@),
{
    if success {
        return Ok(trim(stdout).to_owned());
    }
    if contains_str(stderr, "unexpected argument") || (contains_str(stderr, "unrecognized subcommand")
        && contains_str(stderr, "fetch-contract-id")) {
        let mut msg = String::from_str(
            "the installed `stellar registry` plugin is too old for import_contract!. Upgrade it with `cargo install stellar-registry-cli --force`.\n\nstderr:\n",
        );
        msg.append(stderr);
        return Err(msg);
    }
    if contains_str(stderr, "unrecognized subcommand") || contains_str(stderr, "no such command") {
        let mut msg = String::from_str(
            "the `stellar registry` plugin is not installed. Install it with `cargo install stellar-registry-cli`.\n\nstderr:\n",
        );
        msg.append(stderr);
        return Err(msg);
    }
    let name = lookup.to_string();
    if contains_str(stderr, "flagged as compromised") {
        let mut msg = String::from_str("contract `");
        msg.append(name.as_str());
        msg.append("` is flagged as compromised in the registry; refusing to import it.");
        return Err(msg);
    }
    let mut msg = String::from_str("Could not resolve a contract id for `");
    msg.append(name.as_str());
    msg.append("` on ");
    msg.append(network);
    msg.append(". Things to try:\n\n");
    msg.append(help);
    msg.append("\n\nstderr from `stellar registry fetch-contract-id`:\n");
    msg.append(stderr);
    Err(msg)
}

/// The refusal of a versioned name where a deployed contract is meant.
pub open spec fn spec_version_refusal(raw: Seq<char>) -> Option<Seq<char>> {
    if raw.contains('@') {
        Some(
            "import_contract! does not take a version — a deployed contract has no version (got "@
                + debug_text(raw)
                + "). Use just the contract name, e.g. `import_contract!(env, our_dao)`."@,
        )
    } else {
        None
    }
}

/// A deployed contract has no version: a name with `@` gets its own message
/// before it is parsed (parsing also refuses it, generically).
pub fn version_refusal(raw: &str) -> (r: Option<String>)
    ensures
        match r {
            Some(m) => spec_version_refusal(raw@) == Some(m@),
            None => spec_version_refusal(raw@) is None,
        },
{
    let chars = crate::text::chars_of(raw);
    match crate::prefixed::find_char_from(&chars, 0, '@') {
        Some(_) => {
            let mut msg = String::from_str(
                "import_contract! does not take a version — a deployed contract has no version (got ",
            );
            let q = debug_quoted(raw);
            msg.append(q.as_str());
            msg.append("). Use just the contract name, e.g. `import_contract!(env, our_dao)`.");
            Some(msg)
        },
        None => None,
    }
}

/// What to do about the deployed contract's wasm once its address is known.
pub enum WasmStep {
    /// The cached wasm belongs to this address: use it.
    Cached,
    /// Fetch the wasm by address (none cached, or cached for another deployment).
    Fetch,
    /// Offline with no cached wasm: refuse, with this message.
    Missing(String),
}

/// The refusal when offline and no wasm is cached.
pub open spec fn spec_missing_wasm(wasm_path: Seq<char>, address: Seq<char>) -> Seq<char> {
    "STELLAR_NO_REGISTRY=1 but no cached wasm at "@ + wasm_path
        + ". Build online once (which fetches it), or run `stellar contract fetch --id "@ + address
        + " --out-file "@ + wasm_path + "` yourself."@
}

/// The wasm must be on disk for the client types, and refetched when the
/// name resolved to a different deployment than the cached wasm came from;
/// offline nothing can be fetched.
pub fn deployed_wasm_step(
    wasm_exists: bool,
    cached_id: Option<&str>,
    address: &str,
    no_registry: bool,
    wasm_path: &str,
) -> (r: WasmStep)
    ensures
        ({
            let stale = !no_registry && match cached_id {
                Some(p) => trimmed(p@) != address@,
                None => true,
            };
            match r {
                WasmStep::Cached => wasm_exists && !stale,
                WasmStep::Fetch => (!wasm_exists || stale) && !no_registry,
                WasmStep::Missing(m) => (!wasm_exists || stale) && no_registry && m@
                    == spec_missing_wasm(wasm_path@, address@),
            }
        }),
{
    if !wasm_exists || wasm_is_stale(cached_id, address, no_registry) {
        if no_registry {
            let mut msg = String::from_str("STELLAR_NO_REGISTRY=1 but no cached wasm at ");
            msg.append(wasm_path);
            msg.append(". Build online once (which fetches it), or run `stellar contract fetch --id ");
            msg.append(address);
            msg.append(" --out-file ");
            msg.append(wasm_path);
            msg.append("` yourself.");
            return WasmStep::Missing(msg);
        }
        return WasmStep::Fetch;
    }
    WasmStep::Cached
}

/// What `stellar contract fetch --id <address>` failing says.
pub open spec fn spec_fetch_wasm_failure(address: Seq<char>, stderr: Seq<char>) -> Seq<char> {
    "`stellar contract fetch --id "@ + address + "` failed:\n"@ + stderr
}

/// Reads how `stellar contract fetch --id <address>` ended.
pub fn read_fetch_wasm_output(success: bool, address: &str, stderr: &str) -> (r: Result<(), String>)
    ensures
        match r {
            Ok(()) => success,
            Err(m) => !success && m@ == spec_fetch_wasm_failure(address@, stderr@),
        },
{
    if success {
        Ok(())
    } else {
        let mut msg = String::from_str("`stellar contract fetch --id ");
        msg.append(address);
        msg.append("` failed:\n");
        msg.append(stderr);
        Err(msg)
    }
}

/// Law: a channel-prefixed contract never shares cache files with the same
/// name without a channel (`unverified/foo` and `foo` differ).
pub proof fn law_channel_separates_cache(channel: Seq<char>, name: Seq<char>)
    requires
        channel.len() > 0,
    ensures
        spec_cache_stem(PrefixedView { channel: Some(channel), name })
            != spec_cache_stem(PrefixedView { channel: None, name }),
{
    reveal_strlit("__");
    let a = spec_cache_stem(PrefixedView { channel: Some(channel), name });
    let b = spec_cache_stem(PrefixedView { channel: None, name });
    assert(a.len() == channel.len() + 2 + b.len());
}

/// Two chars give the same module-name char exactly when they give the same
/// canonical char.
proof fn lemma_module_char_matches_canonical(x: char, y: char)
    ensures
        (module_char(x) == module_char(y)) <==> (canonical_char(x) == canonical_char(y)),
{
}

/// Law: within one channel (or among names without one), two names share
/// cache files exactly when they have the same canonical form, that is when
/// the registry knows them as the same contract (`Our_Dao` and `our-dao`).
pub proof fn law_cache_stem_within_channel(channel: Option<Seq<char>>, a: Seq<char>, b: Seq<char>)
    ensures
        (spec_cache_stem(PrefixedView { channel, name: a }) == spec_cache_stem(
            PrefixedView { channel, name: b },
        )) <==> (spec_canonicalize(a) == spec_canonicalize(b)),
{
    let ma = spec_mod_name(a);
    let mb = spec_mod_name(b);
    let ca = spec_canonicalize(a);
    let cb = spec_canonicalize(b);
    if ma == mb {
        assert(ma.len() == a.len() && mb.len() == b.len());
        assert forall|i: int| 0 <= i < a.len() implies ca[i] == cb[i] by {
            assert(ma[i] == mb[i]);
            lemma_module_char_matches_canonical(a[i], b[i]);
        }
        assert(ca =~= cb);
    }
    if ca == cb {
        assert(ca.len() == a.len() && cb.len() == b.len());
        assert forall|i: int| 0 <= i < a.len() implies ma[i] == mb[i] by {
            assert(ca[i] == cb[i]);
            lemma_module_char_matches_canonical(a[i], b[i]);
        }
        assert(ma =~= mb);
    }
    match channel {
        Some(c) => {
            let pre = c + "__"@;
            let sa = pre + ma;
            let sb = pre + mb;
            if sa == sb {
                assert(ma =~= sa.skip(pre.len() as int));
                assert(mb =~= sb.skip(pre.len() as int));
            }
        },
        None => {},
    }
}

/// What the decisions of `import_contract!` give once the address is
/// resolved: the address and whether the deployed wasm must be (re)fetched,
/// or the refusal. `fetched` is what the lookup returned, where it ran.
pub open spec fn spec_import_plan(
    cache: Option<Seq<char>>,
    no_registry: bool,
    offline_help: Seq<char>,
    wasm_exists: bool,
    wasm_path: Seq<char>,
    fetched: Result<Seq<char>, Seq<char>>,
) -> Result<(Seq<char>, bool), Seq<char>> {
    let resolved = if no_registry {
        spec_offline_resolution(cache, offline_help)
    } else {
        spec_online_resolution(fetched)
    };
    match resolved {
        Err(m) => Err(m),
        Ok(a) => {
            let stale = !no_registry && match cache {
                Some(c) => trimmed(c) != a,
                None => true,
            };
            if !wasm_exists || stale {
                if no_registry {
                    Err(spec_missing_wasm(wasm_path, a))
                } else {
                    Ok((a, true))
                }
            } else {
                Ok((a, false))
            }
        },
    }
}

/// A plan, its texts as char sequences.
pub open spec fn plan_text(r: Result<(String, bool), String>) -> Result<(Seq<char>, bool), Seq<char>> {
    match r {
        Ok((a, f)) => Ok((a@, f)),
        Err(m) => Err(m@),
    }
}

/// The decisions of `import_contract!` for a deployed contract: resolve the
/// address (offline from the cache, online by `fetch` every time), then say
/// whether its wasm must be fetched (`true`: none cached, or cached for
/// another deployment), refusing offline without a cached wasm.
pub fn plan_deployed_import<F: FnOnce() -> Result<String, String>>(
    cache: Option<String>,
    no_registry: bool,
    offline_help: &str,
    wasm_exists: bool,
    wasm_path: &str,
    fetch: F,
) -> (r: Result<(String, bool), String>)
    requires
        !no_registry ==> call_requires(fetch, ()),
    ensures
        no_registry ==> plan_text(r) == spec_import_plan(
            opt_string(cache),
            true,
            offline_help@,
            wasm_exists,
            wasm_path@,
            Err(Seq::empty()),
        ),
        !no_registry ==> exists|fetched: Result<String, String>|
            call_ensures(fetch, (), fetched) && plan_text(r) == spec_import_plan(
                opt_string(cache),
                false,
                offline_help@,
                wasm_exists,
                wasm_path@,
                result_text(fetched),
            ),
{
    let cached = cache.clone();
    let address = match resolve_address(cache, no_registry, offline_help, fetch) {
        Ok(a) => a,
        Err(m) => return Err(m),
    };
    let cached_id: Option<&str> = match &cached {
        Some(c) => Some(c.as_str()),
        None => None,
    };
    match deployed_wasm_step(wasm_exists, cached_id, address.as_str(), no_registry, wasm_path) {
        WasmStep::Cached => Ok((address, false)),
        WasmStep::Fetch => Ok((address, true)),
        WasmStep::Missing(m) => Err(m),
    }
}

/// Law: an accepted contract id is the trimmed text, a `C…` strkey, and
/// already its own trimmed form, so checking it again accepts it unchanged;
/// a refusal says it is not a valid contract id.
pub proof fn law_validated_id_is_fixed(s: Seq<char>)
    ensures
        match spec_validate_contract_id(s) {
            Ok(t) => t == trimmed(s) && trimmed(t) == t && strkey_contract_decode(t) is Some
                && spec_validate_contract_id(t) == Ok::<Seq<char>, Seq<char>>(t),
            Err(m) => has_infix(m, "not a valid contract id"@),
        },
{
    crate::text::law_trim_idempotent(s);
    if let Ok(t) = spec_validate_contract_id(s) {
        assert(trimmed(t) == t);
        assert(spec_validate_contract_id(t) == Ok::<Seq<char>, Seq<char>>(t));
    }
    if let Err(m) = spec_validate_contract_id(s) {
        reveal_strlit("not a valid contract id");
        reveal_strlit("not a valid contract id (C… strkey): ");
        let needle = "not a valid contract id"@;
        assert(m.subrange(0int, 0int + needle.len()) =~= needle);
    }
}

/// Law: the import protocol. Offline, the lookup's answer plays no part, the
/// wasm is never refetched, and success needs a cached id (which becomes the
/// trimmed address) and a cached wasm. Online, the address is always the
/// lookup's trimmed answer, whatever is cached, and the wasm is refetched
/// exactly when none is cached or the cached id differs from it.
pub proof fn law_import_protocol(
    cache: Option<Seq<char>>,
    offline_help: Seq<char>,
    wasm_exists: bool,
    wasm_path: Seq<char>,
    fetched: Result<Seq<char>, Seq<char>>,
    other: Result<Seq<char>, Seq<char>>,
)
    ensures
        spec_import_plan(cache, true, offline_help, wasm_exists, wasm_path, fetched)
            == spec_import_plan(cache, true, offline_help, wasm_exists, wasm_path, other),
        spec_import_plan(cache, true, offline_help, wasm_exists, wasm_path, fetched) matches Ok(
            (a, refetch),
        ) ==> (!refetch && wasm_exists && (cache matches Some(c) && a == trimmed(c))
            && strkey_contract_decode(a) is Some),
        spec_import_plan(cache, false, offline_help, wasm_exists, wasm_path, fetched) matches Ok(
            (a, refetch),
        ) ==> ((fetched matches Ok(f) && a == trimmed(f)) && strkey_contract_decode(a) is Some
            && refetch == (!wasm_exists || match cache {
            Some(c) => trimmed(c) != a,
            None => true,
        })),
{
    if let Some(c) = cache {
        law_validated_id_is_fixed(c);
    }
    if let Ok(f) = fetched {
        law_validated_id_is_fixed(f);
    }
}

/// Whether `text` reads as a Rust identifier (see [`crate::asset::syn_ident_accepts`]).
pub open spec fn spec_module_name(contract: PrefixedView) -> Result<Seq<char>, Seq<char>> {
    let m = spec_mod_name(contract.name);
    if crate::asset::syn_ident_accepts(m) {
        Ok(m)
    } else {
        Err("cannot use `"@ + m + "` as a Rust module name"@)
    }
}

/// The generated module's name for a contract: its module name, where that
/// reads as a Rust identifier (a keyword such as `type` does not).
pub fn module_name(contract: &Prefixed) -> (r: Result<String, String>)
    ensures
        result_text(r) == spec_module_name(contract@),
{
    let m = contract.mod_name();
    if crate::asset::parses_as_ident(m.as_str()) {
        Ok(m)
    } else {
        let mut msg = String::from_str("cannot use `");
        msg.append(m.as_str());
        msg.append("` as a Rust module name");
        Err(msg)
    }
}

/// Law: the cache paths sit in `<target_dir>/deployed/`, named by the stem
/// and an extension; the id and the wasm differ only in that extension, and
/// the stem of a parsed name holds no `/`, so `deployed/` is their parent.
pub proof fn law_cache_path_shape(target_dir: Seq<char>, p: PrefixedView)
    requires
        crate::prefixed::valid_prefixed(p),
    ensures
        spec_cache_path(target_dir, p, "wasm"@) == path_join(path_join(target_dir, "deployed"@), spec_cache_stem(p) + ".wasm"@),
        spec_cache_path(target_dir, p, "id"@) == path_join(path_join(target_dir, "deployed"@), spec_cache_stem(p) + ".id"@),
        !spec_cache_stem(p).contains('/'),
{
    reveal_strlit(".wasm");
    reveal_strlit("wasm");
    reveal_strlit(".id");
    reveal_strlit("id");
    reveal_strlit("deployed");
    reveal_strlit("__");
    let d = path_join(target_dir, "deployed"@);
    let stem = spec_cache_stem(p);
    assert(d.len() > 0 && d[d.len() - 1] != '/');
    assert(path_join(d, stem) + seq!['.'] + "wasm"@ =~= path_join(d, stem + ".wasm"@));
    assert(path_join(d, stem) + seq!['.'] + "id"@ =~= path_join(d, stem + ".id"@));
    let m = spec_mod_name(p.name);
    assert(!m.contains('/')) by {
        if m.contains('/') {
            let i = m.index_of('/');
            assert(crate::prefixed::is_name_char(p.name[i]));
        }
    }
    if stem.contains('/') {
        let i = stem.index_of('/');
        match p.channel {
            Some(c) => {
                if i < c.len() {
                    assert(stem[i] == c[i]);
                    assert(crate::prefixed::is_name_char(c[i]));
                } else if i < c.len() + 2 {
                    assert(stem[i] == '_');
                } else {
                    assert(stem[i] == m[i - c.len() - 2]);
                }
            },
            None => {},
        }
    }
}

/// The arguments of `stellar registry fetch-contract-id <lookup>`.
pub open spec fn spec_fetch_contract_id_args(lookup: PrefixedView) -> Seq<Seq<char>> {
    seq!["registry"@, "fetch-contract-id"@, prefixed_text(lookup)]
}

/// `registry fetch-contract-id <lookup>`, the name written as the user did.
pub fn fetch_contract_id_args(lookup: &Prefixed) -> (r: Vec<String>)
    ensures
        r@.map_values(|a: String| a@) == spec_fetch_contract_id_args(lookup@),
{
    let mut args: Vec<String> = Vec::new();
    args.push(String::from_str("registry"));
    args.push(String::from_str("fetch-contract-id"));
    args.push(lookup.to_string());
    assert(args@.map_values(|a: String| a@) =~= spec_fetch_contract_id_args(lookup@));
    args
}

/// The arguments of `stellar contract fetch` for a deployed contract's wasm.
pub open spec fn spec_fetch_wasm_args(address: Seq<char>, out_path: Seq<char>) -> Seq<Seq<char>> {
    seq!["contract"@, "fetch"@, "--id"@, address, "--out-file"@, out_path]
}

/// `contract fetch --id <address> --out-file <out_path>`: the deployed
/// contract's own wasm, by address.
pub fn fetch_wasm_args(address: &str, out_path: &str) -> (r: Vec<String>)
    ensures
        r@.map_values(|a: String| a@) == spec_fetch_wasm_args(address@, out_path@),
{
    let mut args: Vec<String> = Vec::new();
    args.push(String::from_str("contract"));
    args.push(String::from_str("fetch"));
    args.push(String::from_str("--id"));
    args.push(address.to_owned());
    args.push(String::from_str("--out-file"));
    args.push(out_path.to_owned());
    assert(args@.map_values(|a: String| a@) =~= spec_fetch_wasm_args(address@, out_path@));
    args
}

} // verus!
