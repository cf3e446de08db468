use contower::local_enr::{local_peer_info_from_body, PeerInfoError};
use contower::peers::{reply_outcome, PeerOutcome};

#[test]
fn reply_with_error_member_is_a_failure() {
    match reply_outcome(r#"{"jsonrpc":"2.0","id":1,"error":{"code":-32601}}"#) {
        Ok(PeerOutcome::Failed(e)) => assert_eq!(e, r#"Some(Object {"code": Number(-32601)})"#),
        other => panic!("unexpected {:?}", other),
    }
}

#[test]
fn reply_without_error_is_a_success() {
    match reply_outcome(r#"{"jsonrpc":"2.0","id":1,"result":true}"#) {
        Ok(PeerOutcome::Succeeded(r)) => {
            assert!(r.starts_with("Object {"));
            assert!(r.contains("Bool(true)"));
        }
        other => panic!("unexpected {:?}", other),
    }
}

#[test]
fn reply_that_is_no_json() {
    assert!(matches!(reply_outcome("not json"), Err(_)));
}

#[test]
fn identity_body_gives_the_peer_info() {
    let body = r#"{"data":{"peer_id":"16Uiu2","enr":"enr:-x","p2p_addresses":["/ip4/1.2.3.4/tcp/9000","/x"],
        "discovery_addresses":["/ip4/1.2.3.4/udp/9000"],"metadata":{"attnets":"0x00","syncnets":"0x0f"}}}"#;
    let info = local_peer_info_from_body(body).unwrap();
    assert_eq!(info.0, "16Uiu2");
    assert_eq!(info.1, "enr:-x");
    assert_eq!(info.2, "/ip4/1.2.3.4/tcp/9000");
    assert_eq!(info.3, "/ip4/1.2.3.4/udp/9000");
    assert_eq!(info.4, "0x00");
    assert_eq!(info.5, "0x0f");
}

#[test]
fn identity_body_with_missing_or_mistyped_fields() {
    let body = r#"{"data":{"peer_id":"p","enr":"e","p2p_addresses":[],"metadata":{}}}"#;
    assert!(matches!(local_peer_info_from_body(body), Err(PeerInfoError::P2pAddressNotFound)));
    let body = r#"{"data":{"peer_id":7}}"#;
    assert!(matches!(local_peer_info_from_body(body), Err(PeerInfoError::PeerIdNotFound)));
    assert!(matches!(local_peer_info_from_body("{"), Err(PeerInfoError::InvalidJson(_))));
}

#[test]
fn identity_index_reads_arrays_only() {
    let body = r#"{"data":{"peer_id":"p","enr":"e","p2p_addresses":{"0":"/ip4/1.2.3.4"}}}"#;
    assert!(matches!(local_peer_info_from_body(body), Err(PeerInfoError::P2pAddressNotFound)));
}
