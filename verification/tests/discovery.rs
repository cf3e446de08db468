use contower::discovery::{
    discovery_settings, event_message, select_listen_ip, swarm_discovery_settings,
    swarm_listen_address, DiscoveryEvent, IpFamily, ListenIp,
};

#[test]
fn discovery_settings_values() {
    let s = discovery_settings(ListenIp::V4Unspecified, 7777);
    assert_eq!(s.listen_ip, ListenIp::V4Unspecified);
    assert_eq!(s.listen_port, 7777);
    assert_eq!(s.ban_duration_secs, Some(60));
    assert_eq!(s.query_timeout_secs, Some(10));
    assert_eq!(s.request_retries, Some(1));
    assert_eq!(s.request_timeout_secs, Some(1));
    assert_eq!(s.query_parallelism, Some(3));
    assert_eq!(s.query_peer_timeout_secs, Some(3));
    assert_eq!(s.ping_interval_secs, Some(300));
    assert!(!s.enable_packet_filter);
    assert_eq!(s.filter_rate_limiter, None);
    assert_eq!(s.session_cache_capacity, None);
}

#[test]
fn event_messages() {
    assert_eq!(event_message(DiscoveryEvent::SocketUpdated), "Socket Updated");
    assert_eq!(event_message(DiscoveryEvent::Discovered), "Discovered");
    assert_eq!(event_message(DiscoveryEvent::NodeInserted), "Node Inserted");
    assert_eq!(event_message(DiscoveryEvent::EnrAdded), "Enr Added");
    assert_eq!(event_message(DiscoveryEvent::SessionEstablished), "Session Established");
    assert_eq!(event_message(DiscoveryEvent::TalkRequest), "Talk Request Received");
    assert_eq!(event_message(DiscoveryEvent::NoEvent), "No events");
}

#[test]
fn listen_ip_prefers_ipv4() {
    assert_eq!(select_listen_ip(&vec![IpFamily::V6, IpFamily::V4, IpFamily::V6]), Some(ListenIp::V4Unspecified));
    assert_eq!(select_listen_ip(&vec![IpFamily::V6, IpFamily::V6]), Some(ListenIp::V6Unspecified));
    assert_eq!(select_listen_ip(&vec![IpFamily::V4]), Some(ListenIp::V4Unspecified));
    assert_eq!(select_listen_ip(&vec![]), None);
}

#[test]
fn swarm_settings_need_an_address() {
    assert_eq!(swarm_discovery_settings(&vec![], 7777), None);
    let s = swarm_discovery_settings(&vec![IpFamily::V6], 7777).unwrap();
    assert_eq!(s, discovery_settings(ListenIp::V6Unspecified, 7777));
}

#[test]
fn swarm_address_names_the_peer() {
    assert_eq!(
        swarm_listen_address("12D3KooWabc"),
        "/ip4/0.0.0.0/tcp/8888/p2p/12D3KooWabc"
    );
}
