use stellar_registry::asset::{asset_module, generate_asset_id, parse_asset, Asset, Network};

const NETWORKS: [Network; 4] = [
    Network::Local,
    Network::Testnet,
    Network::Futurenet,
    Network::Mainnet,
];

const USDC: &str = "USDC:GA5ZSEJYB37JRC5AVCIA5MOP4RHTM335X2KGX3IHOJAPP5RE34K4KZVN";

fn id_text(asset: &str, network: Network) -> String {
    let (hash, _) = generate_asset_id(asset, network).unwrap();
    stellar_strkey::Contract(hash).to_string().as_str().to_string()
}

#[test]
fn parse_native() {
    let (asset, code) = parse_asset("native").unwrap();
    assert_eq!(asset, Asset::Native);
    assert_eq!(code, "native");
    let (asset, code) = parse_asset("xlm").unwrap();
    assert_eq!(asset, Asset::Native);
    assert_eq!(code, "xlm");
    for network in &NETWORKS {
        match (*network, id_text("native", *network).as_str()) {
            (Network::Local, "CDMLFMKMMD7MWZP3FKUBZPVHTUEDLSX4BYGYKH4GCESXYHS3IHQ4EIG4")
            | (Network::Testnet, "CDLZFC3SYJYDZT7K67VZ75HPJVIEUVNIXF47ZG2FB2RMQQVU2HHGCYSC")
            | (Network::Futurenet, "CB64D3G7SM2RTH6JSGG34DDTFTQ5CFDKVDZJZSODMCX4NJ2HV2KN7OHT")
            | (Network::Mainnet, "CAS3J7GYLGXMF6TDJBBYYSE3HQ6BBSMLNUQ34T6TZMYMW2EVH34XOWMA") => {}
            (x, s) => panic!("Unexpected network {x:?} with asset {s}"),
        }
    }
}

#[test]
fn parse_usdc() {
    for network in &NETWORKS {
        match (*network, id_text(USDC, *network).as_str()) {
            (Network::Local, "CB5SYISL2JCNQQRPFS5H4EFEESWUSNTDYMUNQX7TWZE45MYWYEYWCHAU")
            | (Network::Testnet, "CA2E53VHFZ6YSWQIEIPBXJQGT6VW3VKWWZO555XKRQXYJ63GEBJJGHY7")
            | (Network::Futurenet, "CBYZIQLTWJKSC34FJSCOGEQ63BR4YQWAKUDZDBMKIPUBBEMPRUMB5Z24")
            | (Network::Mainnet, "CCW67TSZV3SSS2HXMBQ5JFGCKJNXKZM7UQUWUZPUTHXSTZLEO7SJMI75") => {}
            (x, s) => panic!("Unexpected network {x:?} with asset {s}"),
        }
    }
}

#[test]
fn native_client() {
    let (id, module) = asset_module("native", Network::Testnet).unwrap();
    assert_eq!(id, "CDLZFC3SYJYDZT7K67VZ75HPJVIEUVNIXF47ZG2FB2RMQQVU2HHGCYSC");
    assert_eq!(module, "native");
}

#[test]
fn xlm_client() {
    let (id, module) = asset_module("xlm", Network::Testnet).unwrap();
    assert_eq!(id, "CDLZFC3SYJYDZT7K67VZ75HPJVIEUVNIXF47ZG2FB2RMQQVU2HHGCYSC");
    assert_eq!(module, "xlm");
}

#[test]
fn usdc_client() {
    let (id, module) = asset_module(USDC, Network::Testnet).unwrap();
    assert_eq!(id, "CA2E53VHFZ6YSWQIEIPBXJQGT6VW3VKWWZO555XKRQXYJ63GEBJJGHY7");
    assert_eq!(module, "USDC");
}

#[test]
fn errors_are_compile_errors_not_panics() {
    let cases = [
        "",
        "USDC",
        "USDC:not-a-key",
        "toolongcodehere:GA5ZSEJYB37JRC5AVCIA5MOP4RHTM335X2KGX3IHOJAPP5RE34K4KZVN",
        "US-DC:GA5ZSEJYB37JRC5AVCIA5MOP4RHTM335X2KGX3IHOJAPP5RE34K4KZVN",
    ];
    for case in cases {
        assert!(
            asset_module(case, Network::Testnet).is_err(),
            "`{case}` should be rejected"
        );
    }
}

#[test]
fn digit_leading_code_is_a_module_name_error() {
    let err = asset_module(
        "1INCH:GA5ZSEJYB37JRC5AVCIA5MOP4RHTM335X2KGX3IHOJAPP5RE34K4KZVN",
        Network::Testnet,
    )
    .unwrap_err();
    assert!(err.contains("module name"), "{err}");
}

#[test]
fn asset_errors_name_the_problem() {
    assert_eq!(
        parse_asset("USDC").unwrap_err(),
        "invalid asset `USDC`: expected `native`, `xlm`, or `CODE:ISSUER`"
    );
    assert_eq!(
        parse_asset("US-DC:G").unwrap_err(),
        "invalid asset code `US-DC` in `US-DC:G`: expected 1-12 ASCII letters or digits"
    );
    assert!(parse_asset("USDC:not-a-key")
        .unwrap_err()
        .starts_with("invalid issuer account in `USDC:not-a-key`: "));
}

#[test]
fn asset_code_widths() {
    let issuer = "GA5ZSEJYB37JRC5AVCIA5MOP4RHTM335X2KGX3IHOJAPP5RE34K4KZVN";
    match parse_asset(&format!("AB:{issuer}")).unwrap().0 {
        Asset::CreditAlphanum4 { code, .. } => assert_eq!(code, *b"AB\0\0"),
        a => panic!("unexpected {a:?}"),
    }
    match parse_asset(&format!("ABCDE:{issuer}")).unwrap().0 {
        Asset::CreditAlphanum12 { code, .. } => assert_eq!(&code[..6], b"ABCDE\0"),
        a => panic!("unexpected {a:?}"),
    }
}

#[test]
fn asset_names_import_offline() {
    assert_eq!(
        stellar_registry::asset::asset_import("xlm", Network::Testnet).unwrap().unwrap(),
        "CDLZFC3SYJYDZT7K67VZ75HPJVIEUVNIXF47ZG2FB2RMQQVU2HHGCYSC"
    );
    assert_eq!(
        stellar_registry::asset::asset_import(USDC, Network::Mainnet).unwrap().unwrap(),
        "CCW67TSZV3SSS2HXMBQ5JFGCKJNXKZM7UQUWUZPUTHXSTZLEO7SJMI75"
    );
    assert!(stellar_registry::asset::asset_import("our_dao", Network::Testnet).is_none());
    assert!(stellar_registry::asset::asset_import("unverified/foo", Network::Testnet).is_none());
    assert!(stellar_registry::asset::asset_import("USDC:bad", Network::Testnet)
        .unwrap()
        .is_err());
}

#[test]
fn generated_ids_depend_on_the_network() {
    let t = generate_asset_id("native", Network::Testnet).unwrap();
    let m = generate_asset_id("native", Network::Mainnet).unwrap();
    assert_ne!(t.0, m.0);
    assert_eq!(t.1, "native");
}
