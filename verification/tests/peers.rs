use contower::log_entry::LogLevel;
use contower::peers::{peer_report, peer_request, PeerAction, PeerOutcome};

#[test]
fn requests_name_the_admin_method() {
    let add = peer_request(PeerAction::Add, "enode://abc@1.2.3.4:30303");
    assert_eq!(add.jsonrpc, "2.0");
    assert_eq!(add.id, 1);
    assert_eq!(add.method, "admin_addPeer");
    assert_eq!(add.params, vec!["enode://abc@1.2.3.4:30303".to_string()]);
    let remove = peer_request(PeerAction::Remove, "enode://x");
    assert_eq!(remove.method, "admin_removePeer");
    assert_eq!(remove.params, vec!["enode://x".to_string()]);
}

#[test]
fn reports_for_failure_and_success() {
    let failed = peer_report(PeerAction::Add, "enode://a", &PeerOutcome::Failed("Some(Object {})".to_string()));
    assert_eq!(failed[0], (LogLevel::Error, "Failed to add static node: enode://a".to_string()));
    assert_eq!(failed[1], (LogLevel::Error, "Error: Some(Object {})".to_string()));
    let removed = peer_report(PeerAction::Remove, "enode://b", &PeerOutcome::Succeeded("{}".to_string()));
    assert_eq!(removed[0], (LogLevel::Info, "Removed static node: enode://b".to_string()));
    assert_eq!(removed[1], (LogLevel::Info, "Response: {}".to_string()));
    let not_removed = peer_report(PeerAction::Remove, "enode://c", &PeerOutcome::Failed("e".to_string()));
    assert_eq!(not_removed[0].1, "Failed to remove static node: enode://c");
    let added = peer_report(PeerAction::Add, "enode://d", &PeerOutcome::Succeeded("r".to_string()));
    assert_eq!(added[0].1, "Added static node: enode://d");
}
