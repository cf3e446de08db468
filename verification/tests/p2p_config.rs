use contower::discovery::{ListenIp, Quota};
use contower::p2p_config::{gossip_max_size, Config, GossipsubConfigParams};

#[test]
fn gossip_size_after_merge_is_unchanged() {
    assert_eq!(gossip_max_size(true, 10_485_760), 10_485_760);
    assert_eq!(gossip_max_size(true, 0), 0);
}

#[test]
fn gossip_size_before_merge_is_a_tenth() {
    assert_eq!(gossip_max_size(false, 10_485_760), 1_048_576);
    assert_eq!(gossip_max_size(false, 19), 1);
    assert_eq!(gossip_max_size(false, 9), 0);
    assert_eq!(gossip_max_size(false, usize::MAX), usize::MAX / 10);
}

#[test]
fn gossipsub_params_hold_their_values() {
    let params = GossipsubConfigParams {
        message_domain_valid_snappy: [1, 0, 0, 0],
        gossip_max_size: gossip_max_size(false, 1000),
    };
    assert_eq!(params.gossip_max_size, 100);
    assert_eq!(params.message_domain_valid_snappy, [1, 0, 0, 0]);
}

#[test]
fn default_config_values() {
    let config = Config::default();
    assert_eq!(config.listen_addresses.addr, [0, 0, 0, 0]);
    assert_eq!(config.listen_addresses.disc_port, 9000);
    assert_eq!(config.listen_addresses.quic_port, 9001);
    assert_eq!(config.listen_addresses.tcp_port, 9000);
    let d = config.discv5_config;
    assert_eq!(d.listen_ip, ListenIp::V4Unspecified);
    assert_eq!(d.listen_port, 9000);
    assert!(d.enable_packet_filter);
    assert_eq!(d.session_cache_capacity, Some(5000));
    assert_eq!(d.request_timeout_secs, Some(1));
    assert_eq!(d.query_peer_timeout_secs, Some(2));
    assert_eq!(d.query_timeout_secs, Some(30));
    assert_eq!(d.request_retries, Some(1));
    assert_eq!(d.enr_peer_update_min, Some(10));
    assert_eq!(d.query_parallelism, Some(5));
    assert!(d.disable_report_discovered_peers);
    let rl = d.filter_rate_limiter.unwrap();
    assert_eq!(rl.total, Quota { max_tokens: 10, period_secs: 1 });
    assert_eq!(rl.ip, Some(Quota { max_tokens: 9, period_secs: 1 }));
    assert_eq!(rl.node, Some(Quota { max_tokens: 8, period_secs: 1 }));
    assert_eq!(d.filter_max_bans_per_ip, Some(5));
    assert_eq!(d.filter_max_nodes_per_ip, Some(10));
    assert_eq!(d.ban_duration_secs, Some(3600));
    assert_eq!(d.ping_interval_secs, Some(300));
    assert!(config.boot_nodes_enr.is_empty());
    assert!(config.boot_nodes_multiaddr.is_empty());
    assert!(config.libp2p_nodes.is_empty());
    assert!(config.topics.is_empty());
}
