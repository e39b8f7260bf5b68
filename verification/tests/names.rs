use stellar_registry::common::canonicalize;
use stellar_registry::error::NameError;
use stellar_registry::prefixed::Prefixed;
use stellar_registry::version::Version;
use stellar_registry::versioned::Versioned;

#[test]
fn canonicalize_lowercases_and_hyphenates() {
    assert_eq!(canonicalize("Guess_The_Number"), "guess-the-number");
    assert_eq!(canonicalize("registry"), "registry");
}

#[test]
fn bare_name() {
    let p: Prefixed = "registry".parse().unwrap();
    assert_eq!(p.name(), "registry");
    assert_eq!(p.channel(), None);
    assert_eq!(p.to_string(), "registry");
}

#[test]
fn channel_prefixed_hyphenated() {
    let p: Prefixed = "unverified/guess-the-number".parse().unwrap();
    assert_eq!(p.channel(), Some("unverified"));
    assert_eq!(p.name(), "guess-the-number");
    assert_eq!(p.mod_name(), "guess_the_number");
    assert_eq!(p.to_string(), "unverified/guess-the-number");
}

#[test]
fn underscored_name() {
    let p: Prefixed = "my_contract".parse().unwrap();
    assert_eq!(p.name(), "my_contract");
    assert_eq!(p.mod_name(), "my_contract");
    assert_eq!(p.canonical_name(), "my-contract");
}

#[test]
fn rejects_empty() {
    assert!(matches!("".parse::<Prefixed>().unwrap_err(), NameError::Empty));
}

#[test]
fn rejects_leading_and_trailing_slash() {
    assert!(matches!(
        "/guess-the-number".parse::<Prefixed>().unwrap_err(),
        NameError::LeadingOrTrailingSlash(_)
    ));
    assert!(matches!(
        "unverified/".parse::<Prefixed>().unwrap_err(),
        NameError::LeadingOrTrailingSlash(_)
    ));
}

#[test]
fn rejects_multiple_slashes() {
    assert!(matches!(
        "a/b/c".parse::<Prefixed>().unwrap_err(),
        NameError::TooManySlashes(_)
    ));
    assert!(matches!(
        "a//b".parse::<Prefixed>().unwrap_err(),
        NameError::TooManySlashes(_)
    ));
}

#[test]
fn rejects_version_suffix() {
    assert!(matches!(
        "our_dao@1.0.0".parse::<Prefixed>().unwrap_err(),
        NameError::UnexpectedVersion(_)
    ));
}

#[test]
fn rejects_invalid_characters() {
    assert!(matches!(
        "hello world".parse::<Prefixed>().unwrap_err(),
        NameError::InvalidCharacter(_, ' ')
    ));
    assert!(matches!(
        "name!".parse::<Prefixed>().unwrap_err(),
        NameError::InvalidCharacter(_, '!')
    ));
}

#[test]
fn version_suffix_is_rejected_by_the_type() {
    let err = "our_dao@1.0.0".parse::<Prefixed>().unwrap_err();
    assert!(err.to_string().contains("version"), "{}", err.to_string());
}

#[test]
fn checks_run_in_order() {
    // `@` is reported before a slash problem, slashes before characters.
    assert!(matches!(
        "/a@b".parse::<Prefixed>().unwrap_err(),
        NameError::UnexpectedVersion(_)
    ));
    assert!(matches!(
        "a/b/c d".parse::<Prefixed>().unwrap_err(),
        NameError::TooManySlashes(_)
    ));
    // the first offending char is the one reported, channel first.
    assert!(matches!(
        "a.b/c d".parse::<Prefixed>().unwrap_err(),
        NameError::InvalidCharacter(_, '.')
    ));
    // non-ASCII letters are refused.
    assert!(matches!(
        "caf\u{e9}".parse::<Prefixed>().unwrap_err(),
        NameError::InvalidCharacter(_, '\u{e9}')
    ));
}

#[test]
fn error_texts_carry_the_input() {
    match "a/b/c".parse::<Prefixed>().unwrap_err() {
        NameError::TooManySlashes(s) => assert_eq!(s, "a/b/c"),
        e => panic!("unexpected {e:?}"),
    }
    assert_eq!(NameError::Empty.to_string(), "registry name cannot be empty");
    assert_eq!(
        "name!".parse::<Prefixed>().unwrap_err().to_string(),
        "invalid character `!` in registry name `name!`; expected ASCII letters, digits, `-` or `_`"
    );
}

#[test]
fn parse_then_text_round_trips() {
    for s in ["a", "registry", "unverified/our-dao", "A_b-9/x_Y"] {
        let p: Prefixed = s.parse().unwrap();
        assert_eq!(p.to_string(), s);
        let again: Prefixed = p.to_string().parse().unwrap();
        assert_eq!(again, p);
    }
}

#[test]
fn mod_name_and_canonical_name() {
    let p: Prefixed = "chan/Our-Big_DAO".parse().unwrap();
    assert_eq!(p.mod_name(), "our_big_dao");
    assert_eq!(p.canonical_name(), "our-big-dao");
    assert_eq!(canonicalize(&canonicalize("Our_Big-DAO")), canonicalize("Our_Big-DAO"));
}

#[test]
fn versioned_without_version() {
    let v: Versioned = "unverified/foo".parse().unwrap();
    assert_eq!(v.name().to_string(), "unverified/foo");
    assert!(v.version().is_none());
    assert_eq!(v.to_string(), "unverified/foo");
}

#[test]
fn versioned_with_version() {
    let v: Versioned = "registry@1.2.3".parse().unwrap();
    assert_eq!(v.name().name(), "registry");
    let ver: &Version = v.version().unwrap();
    assert_eq!((ver.major, ver.minor, ver.patch), (1, 2, 3));
    assert_eq!(v.to_string(), "registry@1.2.3");
}

#[test]
fn versioned_tolerates_leading_v() {
    let v: Versioned = "registry@v1.0.0-rc.1+build.5".parse().unwrap();
    let ver = v.version().unwrap();
    assert_eq!(ver.pre, "rc.1");
    assert_eq!(ver.build, "build.5");
    assert_eq!(ver.to_string(), "1.0.0-rc.1+build.5");
    assert_eq!(v.to_string(), "registry@1.0.0-rc.1+build.5");
}

#[test]
fn versioned_refuses_malformed_version() {
    match "registry@latest".parse::<Versioned>().unwrap_err() {
        NameError::InvalidVersion { input, version, .. } => {
            assert_eq!(input, "registry@latest");
            assert_eq!(version, "latest");
        }
        e => panic!("unexpected {e:?}"),
    }
    assert!(matches!(
        "registry@".parse::<Versioned>().unwrap_err(),
        NameError::InvalidVersion { .. }
    ));
    assert!(matches!(
        "bad name@1.0.0".parse::<Versioned>().unwrap_err(),
        NameError::InvalidCharacter(_, ' ')
    ));
    let msg = "registry@x".parse::<Versioned>().unwrap_err().to_string();
    assert!(msg.starts_with("invalid version `x` in `registry@x`: "), "{msg}");
}

#[test]
fn refused_version_message_ends_with_the_semver_reason() {
    let reason = semver::Version::parse("latest").unwrap_err().to_string();
    let msg = "registry@latest".parse::<Versioned>().unwrap_err().to_string();
    assert_eq!(msg, format!("invalid version `latest` in `registry@latest`: {reason}"));
    let reason_v = semver::Version::parse("1.x").unwrap_err().to_string();
    let msg_v = "registry@v1.x".parse::<Versioned>().unwrap_err().to_string();
    assert_eq!(msg_v, format!("invalid version `v1.x` in `registry@v1.x`: {reason_v}"));
}

#[test]
fn version_text_of_large_numbers() {
    let v = Version::parse("18446744073709551615.0.10").unwrap();
    assert_eq!(v.major, u64::MAX);
    assert_eq!(v.to_string(), "18446744073709551615.0.10");
    assert!(Version::parse("01.0.0").is_err());
}

#[test]
fn leading_v_reads_as_without() {
    let a: Versioned = "unverified/foo@v2.0.1".parse().unwrap();
    let b: Versioned = "unverified/foo@2.0.1".parse().unwrap();
    assert_eq!(a.to_string(), b.to_string());
    assert_eq!(a.version().unwrap().to_string(), "2.0.1");
}

#[test]
fn module_names_are_lowercase_identifiers() {
    let p: Prefixed = "Guess-The_Number9".parse().unwrap();
    let m = p.mod_name();
    assert_eq!(m, "guess_the_number9");
    assert!(m.chars().all(|c| c.is_ascii_lowercase() || c.is_ascii_digit() || c == '_'));
}
