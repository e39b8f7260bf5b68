use stellar_registry::deployed::cache_wasm_path;
use stellar_registry::prefixed::Prefixed;
use stellar_registry::wasm::{
    build_local_wasm_path, choose_wasm_source, download_args, read_download_output,
    wasm_file_stem, WasmSource,
};

#[test]
fn includes_underscore_delimited_version() {
    let path = build_local_wasm_path("target", None, "a", Some("1.0.0"));
    assert_eq!(path, "target/a_1_0_0.wasm");
}

#[test]
fn no_version() {
    let path = build_local_wasm_path("target", None, "registry", None);
    assert_eq!(path, "target/registry.wasm");
}

#[test]
fn prerelease_version() {
    let path = build_local_wasm_path("target", None, "foo", Some("1.0.0-rc.1"));
    assert_eq!(path, "target/foo_1_0_0-rc_1.wasm");
}

#[test]
fn channel_is_part_of_the_stem() {
    let channeled = build_local_wasm_path("target", Some("unverified"), "foo", None);
    assert_eq!(channeled, "target/unverified__foo.wasm");
    assert_ne!(channeled, build_local_wasm_path("target", None, "foo", None));
    assert_eq!(
        build_local_wasm_path("target", Some("unverified"), "foo", Some("1.0.0")),
        "target/unverified__foo_1_0_0.wasm"
    );
}

#[test]
fn stem_shapes() {
    assert_eq!(wasm_file_stem(None, "foo", None), "foo");
    assert_eq!(wasm_file_stem(Some("c"), "foo", Some("2.0.1")), "c__foo_2_0_1");
    assert_eq!(build_local_wasm_path("/abs/target/", None, "foo", None), "/abs/target/foo.wasm");
}

#[test]
fn local_wasm_wins_then_registry() {
    assert!(matches!(choose_wasm_source(true, true, "foo"), WasmSource::Local));
    assert!(matches!(choose_wasm_source(false, false, "foo"), WasmSource::Download));
    match choose_wasm_source(false, true, "unverified/foo@1.0.0") {
        WasmSource::Refused(m) => assert!(m.ends_with(
            "Download manually with `stellar registry download \"unverified/foo@1.0.0\"`"
        )),
        _ => panic!("expected a refusal"),
    }
}

#[test]
fn download_arguments() {
    assert_eq!(
        download_args("foo", "t/foo.wasm", None),
        vec!["registry", "download", "foo", "--out-file", "t/foo.wasm"]
    );
    assert_eq!(
        download_args("c/foo", "t/c__foo_1_0_0.wasm", Some("1.0.0")),
        vec!["registry", "download", "c/foo", "--out-file", "t/c__foo_1_0_0.wasm", "--version", "1.0.0"]
    );
}

#[test]
fn download_failures_are_explained() {
    assert!(read_download_output(true, true, "", "foo", "testnet", None, "p").is_ok());
    let not_written = read_download_output(true, false, "", "foo", "testnet", None, "p").unwrap_err();
    assert!(not_written.starts_with("Could not find Wasm `foo` on testnet."));
    assert!(not_written.contains("\n1. check the name & network and try again"));
    let old = read_download_output(false, false, "unrecognized subcommand 'download'", "foo", "n", None, "p");
    assert!(old.unwrap_err().contains("too old for import_contract_client!"));
    let missing = read_download_output(false, false, "no such command: registry", "foo", "n", None, "p");
    assert!(missing.unwrap_err().contains("not installed"));
    let linked = read_download_output(false, false, "x", "foo", "n", Some("https://e.org"), "p");
    assert!(linked.unwrap_err().contains("\n1. check that you got the name right: https://e.org/wasms"));
}

#[test]
fn deployed_cache_never_collides_with_wasms() {
    let p: Prefixed = "foo".parse().unwrap();
    assert_eq!(cache_wasm_path("target", &p), "target/deployed/foo.wasm");
    assert_eq!(build_local_wasm_path("target", None, "foo", None), "target/foo.wasm");
    assert_ne!(
        cache_wasm_path("target", &p),
        build_local_wasm_path("target", Some("deployed"), "foo", None)
    );
}
