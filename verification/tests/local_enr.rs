use contower::local_enr::{
    decode_hex_value, enr_fields, generate_enr, get_eth2_value, get_local_peer_info,
    EnrSetupError, IdentityFields, PeerInfoError,
};
use discv5::enr::{CombinedKey, Enr, EnrBuilder, EnrKey};
use std::str::FromStr;

fn all_fields() -> IdentityFields {
    IdentityFields {
        peer_id: Some("16Uiu2HAm".to_string()),
        enr: Some("enr:-abc".to_string()),
        p2p_address: Some("/ip4/1.2.3.4/tcp/9000".to_string()),
        discovery_address: Some("/ip4/1.2.3.4/udp/9000".to_string()),
        attnets: Some("0x0000000000000000".to_string()),
        syncnets: Some("0x00".to_string()),
    }
}

#[test]
fn eth2_value_is_found_between_its_quotes() {
    let text = r#"Enr { id: Some("v4"), Other Pairs: [("eth2", "b5303f2a0400"), ("syncnets", "00")] }"#;
    assert_eq!(get_eth2_value(text), Some("b5303f2a0400".to_string()));
}

#[test]
fn eth2_value_takes_first_entry_and_first_close() {
    let text = r#"[("eth2", "aa"), ("eth2", "bb")]"#;
    assert_eq!(get_eth2_value(text), Some("aa".to_string()));
    let empty = r#"("eth2", "")"#;
    assert_eq!(get_eth2_value(empty), Some(String::new()));
}

#[test]
fn eth2_value_missing() {
    assert_eq!(get_eth2_value(r#"("attnets", "00")"#), None);
    assert_eq!(get_eth2_value(r#"("eth2", "unterminated"#), None);
    assert_eq!(get_eth2_value(""), None);
}

#[test]
fn eth2_value_after_non_ascii_text() {
    let text = "é→ (\"eth2\", \"0c0d\") ü";
    assert_eq!(get_eth2_value(text), Some("0c0d".to_string()));
}

#[test]
fn hex_value_decodes_with_or_without_prefix() {
    assert_eq!(decode_hex_value("0x0a1B").unwrap(), vec![0x0a, 0x1b]);
    assert_eq!(decode_hex_value("0a1B").unwrap(), vec![0x0a, 0x1b]);
    assert_eq!(decode_hex_value("").unwrap(), Vec::<u8>::new());
    assert_eq!(decode_hex_value("0x").unwrap(), Vec::<u8>::new());
}

#[test]
fn hex_value_drops_every_0x() {
    assert_eq!(decode_hex_value("ff0xee").unwrap(), vec![0xff, 0xee]);
    assert_eq!(decode_hex_value("0x0x01").unwrap(), vec![0x01]);
    // "00xx" loses the "0x" in its middle and leaves "0x", which is not hex.
    assert!(matches!(decode_hex_value("00xx"), Err(EnrSetupError::InvalidHex)));
}

#[test]
fn hex_value_rejects_bad_text() {
    assert!(matches!(decode_hex_value("0x123"), Err(EnrSetupError::InvalidHex)));
    assert!(matches!(decode_hex_value("zz"), Err(EnrSetupError::InvalidHex)));
    assert!(matches!(decode_hex_value("0xé1"), Err(EnrSetupError::InvalidHex)));
}

#[test]
fn peer_info_collects_all_fields() {
    let info = get_local_peer_info(all_fields()).unwrap();
    assert_eq!(info.0, "16Uiu2HAm");
    assert_eq!(info.1, "enr:-abc");
    assert_eq!(info.2, "/ip4/1.2.3.4/tcp/9000");
    assert_eq!(info.3, "/ip4/1.2.3.4/udp/9000");
    assert_eq!(info.4, "0x0000000000000000");
    assert_eq!(info.5, "0x00");
}

#[test]
fn peer_info_reports_first_missing_field() {
    let mut f = all_fields();
    f.peer_id = None;
    f.syncnets = None;
    assert!(matches!(get_local_peer_info(f), Err(PeerInfoError::PeerIdNotFound)));
    let mut f = all_fields();
    f.enr = None;
    assert!(matches!(get_local_peer_info(f), Err(PeerInfoError::EnrNotFound)));
    let mut f = all_fields();
    f.p2p_address = None;
    assert!(matches!(get_local_peer_info(f), Err(PeerInfoError::P2pAddressNotFound)));
    let mut f = all_fields();
    f.discovery_address = None;
    assert!(matches!(get_local_peer_info(f), Err(PeerInfoError::DiscoveryAddressNotFound)));
    let mut f = all_fields();
    f.attnets = None;
    f.syncnets = None;
    assert!(matches!(get_local_peer_info(f), Err(PeerInfoError::AttnetsNotFound)));
    let mut f = all_fields();
    f.syncnets = None;
    assert!(matches!(get_local_peer_info(f), Err(PeerInfoError::SyncnetsNotFound)));
}

#[test]
fn enr_fields_follow_the_decoding_order() {
    let debug = Ok(r#"("eth2", "c3010203")"#.to_string());
    let fields = enr_fields("0x0f", "0xff00", debug).unwrap();
    assert_eq!(fields.ip4, [0, 0, 0, 0]);
    assert_eq!(fields.tcp4, 7777);
    assert_eq!(fields.udp4, 7777);
    assert_eq!(fields.syncnets, vec![0x0f]);
    assert_eq!(fields.attnets, vec![0xff, 0x00]);
    assert_eq!(fields.eth2, vec![0xc3, 0x01, 0x02, 0x03]);

    let bad_enr = Err("Invalid ENR string".to_string());
    assert!(matches!(enr_fields("zz", "00", bad_enr.clone()), Err(EnrSetupError::InvalidHex)));
    assert!(matches!(enr_fields("00", "zz", bad_enr.clone()), Err(EnrSetupError::InvalidHex)));
    match enr_fields("00", "00", bad_enr) {
        Err(EnrSetupError::InvalidEnr(m)) => assert_eq!(m, "Invalid ENR string"),
        other => panic!("unexpected {:?}", other),
    }
    assert!(matches!(
        enr_fields("00", "00", Ok("no entry".to_string())),
        Err(EnrSetupError::MissingEth2)
    ));
    assert!(matches!(
        enr_fields("00", "00", Ok(r#"("eth2", "abc")"#.to_string())),
        Err(EnrSetupError::InvalidHex)
    ));
}

fn node_enr_text(eth2: &[u8]) -> String {
    let key = CombinedKey::generate_secp256k1();
    let enr: Enr<CombinedKey> = EnrBuilder::new("v4")
        .ip4([10, 0, 0, 1].into())
        .udp4(9000)
        .add_value("eth2", &eth2.to_vec())
        .build(&key)
        .unwrap();
    enr.to_base64()
}

#[test]
fn generate_enr_carries_the_node_entries() {
    let eth2 = [0xb5, 0x30, 0x3f, 0x2a, 0x04, 0x00];
    let node_text = node_enr_text(&eth2);
    let node = Enr::<CombinedKey>::from_str(&node_text).unwrap();
    let info = (
        "peer".to_string(),
        node_text,
        String::new(),
        String::new(),
        "0xffff".to_string(),
        "0x0f".to_string(),
    );
    let (text, mut secret) = generate_enr(&info).unwrap();
    assert!(text.starts_with("enr:"));
    assert_eq!(secret.len(), 32);
    let fresh = Enr::<CombinedKey>::from_str(&text).unwrap();
    let key = CombinedKey::secp256k1_from_bytes(&mut secret).unwrap();
    assert_eq!(fresh.public_key(), key.public());
    assert_eq!(fresh.id(), Some("v4".to_string()));
    assert!(fresh.verify());
    assert_eq!(fresh.ip4(), Some([0, 0, 0, 0].into()));
    assert_eq!(fresh.udp4(), Some(7777));
    assert_eq!(fresh.tcp4(), Some(7777));
    assert_eq!(fresh.get("eth2"), node.get("eth2"));
    assert_eq!(fresh.get("eth2"), Some(&eth2[..]));
    assert_eq!(fresh.get("syncnets"), Some(&[0x0f][..]));
    assert_eq!(fresh.get("attnets"), Some(&[0xff, 0xff][..]));
}

#[test]
fn generate_enr_rejects_bad_inputs() {
    let bad_text = (
        String::new(),
        "not an enr".to_string(),
        String::new(),
        String::new(),
        "00".to_string(),
        "00".to_string(),
    );
    assert!(matches!(generate_enr(&bad_text), Err(EnrSetupError::InvalidEnr(_))));

    let key = CombinedKey::generate_secp256k1();
    let plain: Enr<CombinedKey> = EnrBuilder::new("v4").udp4(9000).build(&key).unwrap();
    let no_eth2 = (
        String::new(),
        plain.to_base64(),
        String::new(),
        String::new(),
        "00".to_string(),
        "00".to_string(),
    );
    assert!(matches!(generate_enr(&no_eth2), Err(EnrSetupError::MissingEth2)));

    let bad_hex = (
        String::new(),
        plain.to_base64(),
        String::new(),
        String::new(),
        "0".to_string(),
        "00".to_string(),
    );
    assert!(matches!(generate_enr(&bad_hex), Err(EnrSetupError::InvalidHex)));
}

#[test]
fn hex_round_trip() {
    for bytes in [vec![], vec![0u8], vec![0xde, 0xad, 0xbe, 0xef], (0..=255u8).collect::<Vec<u8>>()] {
        assert_eq!(decode_hex_value(&hex::encode(&bytes)).unwrap(), bytes);
        assert_eq!(decode_hex_value(&format!("0x{}", hex::encode(&bytes))).unwrap(), bytes);
    }
}
