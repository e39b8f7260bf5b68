use stellar_registry::deployed::module_name;
use stellar_registry::deployed::{fetch_contract_id_args, fetch_wasm_args};
use stellar_registry::deployed::plan_deployed_import;
use stellar_registry::deployed::{
    cache_id_path, cache_stem, cache_wasm_path, deployed_wasm_step, read_fetch_output,
    read_fetch_wasm_output, resolution_help, resolve_address, validate_contract_id,
    version_refusal, wasm_is_stale, WasmStep,
};
use stellar_registry::prefixed::Prefixed;

// A real, valid contract strkey (from soroban-sdk docs).
const VALID: &str = "CBESJIMX7J53SWJGJ7WQ6QTLJI4S5LPPJNC2BNVD63GIKAYCDTDOO322";
const A: &str = "CBESJIMX7J53SWJGJ7WQ6QTLJI4S5LPPJNC2BNVD63GIKAYCDTDOO322";
const B: &str = "CDLZFC3SYJYDZT7K67VZ75HPJVIEUVNIXF47ZG2FB2RMQQVU2HHGCYSC";

fn prefixed(s: &str) -> Prefixed {
    s.parse().unwrap()
}

fn no_fetch() -> Result<String, String> {
    Err("fetch should not run".into())
}

#[test]
fn validate_contract_id_trims_and_checks() {
    assert_eq!(validate_contract_id(&format!("  {VALID}\n")).unwrap(), VALID);
    assert!(validate_contract_id("not-an-address").is_err());
    assert!(validate_contract_id("").is_err());
}

#[test]
fn cache_paths_are_namespaced_under_deployed() {
    assert_eq!(
        cache_id_path("target", &prefixed("our-dao")),
        "target/deployed/our_dao.id"
    );
    assert_eq!(
        cache_wasm_path("target", &prefixed("our-dao")),
        "target/deployed/our_dao.wasm"
    );
}

#[test]
fn cache_paths_include_the_channel() {
    assert_eq!(
        cache_wasm_path("target", &prefixed("unverified/foo")),
        "target/deployed/unverified__foo.wasm"
    );
    assert_ne!(
        cache_wasm_path("target", &prefixed("unverified/foo")),
        cache_wasm_path("target", &prefixed("foo")),
    );
}

#[test]
fn wasm_staleness_tracks_address_changes_online_only() {
    const OTHER: &str = "CDLZFC3SYJYDZT7K67VZ75HPJVIEUVNIXF47ZG2FB2RMQQVU2HHGCYSC";
    assert!(wasm_is_stale(None, VALID, false));
    assert!(wasm_is_stale(Some(OTHER), VALID, false));
    assert!(!wasm_is_stale(Some(VALID), VALID, false));
    assert!(!wasm_is_stale(Some(&format!("{VALID}\n")), VALID, false));
    assert!(!wasm_is_stale(None, VALID, true));
    assert!(!wasm_is_stale(Some(OTHER), VALID, true));
}

#[test]
fn resolution_help_lists_repro_and_offline_paths() {
    let lookup: Prefixed = "unverified/our-dao".parse().unwrap();
    let help = resolution_help(
        &lookup,
        "target/deployed/unverified__our_dao.id",
        "target/deployed/unverified__our_dao.wasm",
        None,
    );
    assert!(help.contains("stellar registry fetch-contract-id unverified/our-dao"));
    assert!(help.contains("STELLAR_NO_REGISTRY=1"));
    assert!(help.contains("target/deployed/unverified__our_dao.id"));
    assert!(help.contains("target/deployed/unverified__our_dao.wasm"));
}

#[test]
fn resolution_help_links_the_explorer_when_known() {
    let lookup: Prefixed = "foo".parse().unwrap();
    let help = resolution_help(&lookup, "i", "w", Some("https://example.org"));
    assert!(help.starts_with("- Check that you got the name right: https://example.org/contracts\n- Run"));
}

#[test]
fn offline_uses_cache() {
    let got = resolve_address(Some(B.to_string()), true, "help", no_fetch);
    assert_eq!(got.unwrap(), B);
}

#[test]
fn offline_errors_without_cache() {
    let got = resolve_address(None, true, "try this instead", no_fetch);
    let msg = got.unwrap_err();
    assert!(msg.contains("STELLAR_NO_REGISTRY"), "{msg}");
    assert!(msg.contains("try this instead"), "{msg}");
}

#[test]
fn online_fetches_and_ignores_stale_cache() {
    let got = resolve_address(Some(B.to_string()), false, "help", || Ok(A.to_string()));
    assert_eq!(got.unwrap(), A);
}

#[test]
fn online_validates_fetched_id() {
    let got = resolve_address(None, false, "help", || Ok("garbage".to_string()));
    assert!(got.unwrap_err().contains("not a valid contract id"));
}

#[test]
fn online_passes_fetch_errors_through() {
    let got = resolve_address(None, false, "help", || Err("boom".to_string()));
    assert_eq!(got.unwrap_err(), "boom");
}

#[test]
fn cache_stem_keys() {
    assert_eq!(cache_stem(&prefixed("Our-DAO")), "our_dao");
    assert_eq!(cache_stem(&prefixed("unverified/our-dao")), "unverified__our_dao");
    assert_eq!(cache_id_path("target/", &prefixed("x")), "target/deployed/x.id");
}

#[test]
fn fetch_output_is_read_most_specific_first() {
    let lookup = prefixed("unverified/our-dao");
    assert_eq!(
        read_fetch_output(true, &format!(" {A}\n"), "", &lookup, "testnet", "help").unwrap(),
        A
    );
    let old = read_fetch_output(false, "", "error: unexpected argument '--x'", &lookup, "testnet", "help");
    assert!(old.unwrap_err().contains("too old"));
    let old2 = read_fetch_output(false, "", "unrecognized subcommand 'fetch-contract-id'", &lookup, "n", "h");
    assert!(old2.unwrap_err().contains("too old"));
    let missing = read_fetch_output(false, "", "error: unrecognized subcommand 'registry'", &lookup, "n", "h");
    assert!(missing.unwrap_err().contains("not installed"));
    let flagged = read_fetch_output(false, "", "contract is flagged as compromised", &lookup, "n", "h");
    assert_eq!(
        flagged.unwrap_err(),
        "contract `unverified/our-dao` is flagged as compromised in the registry; refusing to import it."
    );
    let other = read_fetch_output(false, "", "boom", &lookup, "testnet", "HELP").unwrap_err();
    assert!(other.starts_with("Could not resolve a contract id for `unverified/our-dao` on testnet."));
    assert!(other.contains("HELP"));
    assert!(other.ends_with("boom"));
}

#[test]
fn version_is_refused_before_parsing() {
    let msg = version_refusal("our_dao@1.0.0").unwrap();
    assert!(msg.contains("does not take a version"), "{msg}");
    assert!(msg.contains("\"our_dao@1.0.0\""), "{msg}");
    assert!(version_refusal("our_dao").is_none());
}

#[test]
fn wasm_step_follows_the_cache() {
    assert!(matches!(deployed_wasm_step(true, Some(A), A, false, "w"), WasmStep::Cached));
    assert!(matches!(deployed_wasm_step(true, Some(B), A, false, "w"), WasmStep::Fetch));
    assert!(matches!(deployed_wasm_step(false, Some(A), A, false, "w"), WasmStep::Fetch));
    assert!(matches!(deployed_wasm_step(true, Some(B), A, true, "w"), WasmStep::Cached));
    match deployed_wasm_step(false, None, A, true, "t/x.wasm") {
        WasmStep::Missing(m) => {
            assert!(m.starts_with("STELLAR_NO_REGISTRY=1 but no cached wasm at t/x.wasm."));
            assert!(m.contains(&format!("--id {A} --out-file t/x.wasm")));
        }
        _ => panic!("expected a refusal"),
    }
    assert!(read_fetch_wasm_output(true, A, "").is_ok());
    assert_eq!(
        read_fetch_wasm_output(false, A, "nope").unwrap_err(),
        format!("`stellar contract fetch --id {A}` failed:\nnope")
    );
}

#[test]
fn contract_ids_are_trimmed_of_unicode_whitespace() {
    let padded = format!("\u{3000}\t{VALID}\u{a0}\u{2028}");
    assert_eq!(validate_contract_id(&padded).unwrap(), VALID);
    assert!(wasm_is_stale(Some("\u{85}"), VALID, false));
}

#[test]
fn cache_keys_of_channel_and_doubled_hyphen_meet() {
    // The module name turns `-` into `_`, so a bare name with `--` has the
    // same stem as the channel-prefixed name it spells.
    assert_eq!(cache_stem(&prefixed("a/b")), cache_stem(&prefixed("a--b")));
}

#[test]
fn import_plan_offline_and_online() {
    // Offline: the cache is used, nothing is fetched.
    assert_eq!(
        plan_deployed_import(Some(format!("{A}\n")), true, "h", true, "w", no_fetch).unwrap(),
        (A.to_string(), false)
    );
    assert!(plan_deployed_import(Some(A.to_string()), true, "h", false, "w", no_fetch)
        .unwrap_err()
        .starts_with("STELLAR_NO_REGISTRY=1 but no cached wasm at w."));
    assert!(plan_deployed_import(None, true, "h", true, "w", no_fetch).is_err());
    // Online: always fetched; the wasm is refetched when the address moved.
    assert_eq!(
        plan_deployed_import(Some(B.to_string()), false, "h", true, "w", || Ok(A.to_string()))
            .unwrap(),
        (A.to_string(), true)
    );
    assert_eq!(
        plan_deployed_import(Some(A.to_string()), false, "h", true, "w", || Ok(A.to_string()))
            .unwrap(),
        (A.to_string(), false)
    );
    assert_eq!(
        plan_deployed_import(None, false, "h", false, "w", || Err("boom".to_string())).unwrap_err(),
        "boom"
    );
}

#[test]
fn module_names_must_be_identifiers() {
    assert_eq!(module_name(&prefixed("unverified/our-dao")).unwrap(), "our_dao");
    assert_eq!(
        module_name(&prefixed("type")).unwrap_err(),
        "cannot use `type` as a Rust module name"
    );
}

#[test]
fn fetch_commands_take_their_arguments_in_order() {
    assert_eq!(
        fetch_contract_id_args(&prefixed("unverified/hello")),
        vec!["registry", "fetch-contract-id", "unverified/hello"]
    );
    assert_eq!(fetch_contract_id_args(&prefixed("Hello")), vec!["registry", "fetch-contract-id", "Hello"]);
    assert_eq!(
        fetch_wasm_args(A, "/t/deployed/hello.wasm"),
        vec!["contract", "fetch", "--id", A, "--out-file", "/t/deployed/hello.wasm"]
    );
}

#[test]
fn one_contract_one_cache_within_a_channel() {
    assert_eq!(cache_stem(&prefixed("Our_Dao")), cache_stem(&prefixed("our-dao")));
    assert_eq!(
        cache_stem(&prefixed("unverified/Our_Dao")),
        cache_stem(&prefixed("unverified/our-dao"))
    );
    assert_ne!(cache_stem(&prefixed("our-dao")), cache_stem(&prefixed("our-dai")));
    assert_ne!(cache_stem(&prefixed("our-dao")), cache_stem(&prefixed("ourdao")));
}
