use stellar_xdr::ReadXdr;
use stellar_registry::registry::contract_entry_key;
use stellar_registry::prefixed::Prefixed;
use stellar_registry::registry::{
    any_flagged, flag_gate, flagged_message, read_contract_id, registry_for_channel, RegistryChoice,
};

const ID: &str = "CBESJIMX7J53SWJGJ7WQ6QTLJI4S5LPPJNC2BNVD63GIKAYCDTDOO322";

#[test]
fn fetched_id_is_read_without_quotes() {
    let plain = read_contract_id(ID).unwrap();
    assert_eq!(read_contract_id(&format!("\"{ID}\"")).unwrap(), plain);
    assert_eq!(stellar_strkey::Contract(plain).to_string().as_str(), ID);
    assert_eq!(read_contract_id("\"nope\"").unwrap_err(), "\"nope\"");
    assert_eq!(read_contract_id("\"\"").unwrap_err(), "\"\"");
}

#[test]
fn channel_picks_the_registry() {
    assert!(matches!(registry_for_channel(None), RegistryChoice::Verified));
    assert!(matches!(registry_for_channel(Some(ID)), RegistryChoice::ById(_)));
    match registry_for_channel(Some("unverified")) {
        RegistryChoice::ByName(n) => assert_eq!(n, "unverified"),
        _ => panic!("expected a lookup by name"),
    }
}

#[test]
fn three_vector_entries_are_flagged() {
    assert!(!any_flagged(&vec![]));
    assert!(!any_flagged(&vec![Some(2), None]));
    assert!(any_flagged(&vec![None, Some(3)]));
}

#[test]
fn flagged_message_names_the_contract() {
    let p: Prefixed = "unverified/hello".parse().unwrap();
    let msg = flagged_message(&p);
    assert!(msg.contains("flagged"));
    assert!(msg.starts_with("contract `unverified/hello` is flagged"));
}

#[test]
fn contract_entry_key_is_keyed_by_the_canonical_name() {
    let registry = [7u8; 32];
    let a = contract_entry_key(registry, "Guess_The_Number").unwrap();
    let b = contract_entry_key(registry, "guess-the-number").unwrap();
    assert_eq!(a, b);
    assert_ne!(a, contract_entry_key([8u8; 32], "guess-the-number").unwrap());
    let key = stellar_xdr::LedgerKey::from_xdr(a, stellar_xdr::Limits::none()).unwrap();
    match key {
        stellar_xdr::LedgerKey::ContractData(cd) => {
            assert_eq!(cd.durability, stellar_xdr::ContractDataDurability::Persistent);
            match cd.key {
                stellar_xdr::ScVal::Vec(Some(v)) => {
                    assert_eq!(v.len(), 2);
                    assert_eq!(v[0], stellar_xdr::ScVal::Symbol(stellar_xdr::ScSymbol("CR".try_into().unwrap())));
                    assert_eq!(
                        v[1],
                        stellar_xdr::ScVal::String(stellar_xdr::ScString("guess-the-number".try_into().unwrap()))
                    );
                }
                k => panic!("unexpected key {k:?}"),
            }
        }
        k => panic!("unexpected ledger key {k:?}"),
    }
}

#[test]
fn flagged_contracts_need_force() {
    let p: Prefixed = "unverified/hello".parse().unwrap();
    assert_eq!(flag_gate(false, false, &p), Ok(()));
    assert_eq!(flag_gate(true, false, &p), Ok(()));
    assert_eq!(flag_gate(true, true, &p), Ok(()));
    assert_eq!(flag_gate(false, true, &p), Err(flagged_message(&p)));
    assert_eq!(
        flag_gate(false, true, &p).unwrap_err(),
        "contract `unverified/hello` is flagged as compromised in the registry; pass --force to fetch its id anyway"
    );
}

#[test]
fn contract_entry_key_of_a_channel_name_drops_no_part() {
    let registry = [1u8; 32];
    let a = contract_entry_key(registry, "hello").unwrap();
    let b = contract_entry_key(registry, "Hello").unwrap();
    let c = contract_entry_key(registry, "hellp").unwrap();
    assert_eq!(a, b);
    assert_ne!(a, c);
}
