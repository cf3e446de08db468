use vstd::prelude::*;

use crate::discovery::{Discv5Settings, ListenIp, Quota, RateLimiterSettings};

verus! {

/// The gossip size limit in force: the configured limit once the merge is
/// enabled, a tenth of it before.
pub open spec fn spec_gossip_max_size(is_merge_enabled: bool, gossip_max_size: nat) -> nat {
    if is_merge_enabled {
        gossip_max_size
    } else {
        gossip_max_size / 10
    }
}

/// Maximum gossip message size: unchanged when the merge is enabled,
/// divided by ten (rounded down) otherwise.
pub fn gossip_max_size(is_merge_enabled: bool, max_size: usize) -> (size: usize)
    ensures
        size == spec_gossip_max_size(is_merge_enabled, max_size as nat),
{
    if is_merge_enabled {
        max_size
    } else {
        max_size / 10
    }
}

/// Parameters that shape the gossipsub configuration.
#[derive(Debug)]
pub struct GossipsubConfigParams {
    pub message_domain_valid_snappy: [u8; 4],
    pub gossip_max_size: usize,
}

/// The gossip limit never exceeds the configured one, equals it once the
/// merge is enabled, and before the merge is a tenth of it, rounded down.
pub proof fn lemma_gossip_max_size_bounds(is_merge_enabled: bool, max_size: nat)
    ensures
        spec_gossip_max_size(is_merge_enabled, max_size) <= max_size,
        is_merge_enabled ==> spec_gossip_max_size(is_merge_enabled, max_size) == max_size,
        !is_merge_enabled ==> 10 * spec_gossip_max_size(is_merge_enabled, max_size) <= max_size
            < 10 * spec_gossip_max_size(is_merge_enabled, max_size) + 10,
{
}

/// Raising the configured limit never lowers the limit in force.
pub proof fn lemma_gossip_max_size_monotone(is_merge_enabled: bool, a: nat, b: nat)
    requires
        a <= b,
    ensures
        spec_gossip_max_size(is_merge_enabled, a) <= spec_gossip_max_size(is_merge_enabled, b),
{
    if !is_merge_enabled {
        vstd::arithmetic::div_mod::lemma_div_is_ordered(a as int, b as int, 10);
    }
}

/// An IPv4 listening address with the ports for discovery, QUIC and TCP.
#[derive(Clone, Copy, Debug)]
pub struct ListenAddr {
    pub addr: [u8; 4],
    pub disc_port: u16,
    pub quic_port: u16,
    pub tcp_port: u16,
}

/// The network configuration.
#[derive(Debug)]
pub struct Config {
    pub listen_addresses: ListenAddr,
    pub discv5_config: Discv5Settings,
    /// ENRs of the boot nodes, in text form.
    pub boot_nodes_enr: Vec<String>,
    /// Multiaddresses of the boot nodes, in text form.
    pub boot_nodes_multiaddr: Vec<String>,
    /// Multiaddresses of libp2p nodes to connect to, in text form.
    pub libp2p_nodes: Vec<String>,
    pub topics: Vec<String>,
}

/// The default discovery configuration: listen on 0.0.0.0:9000 with the
/// packet filter on (10 packets a second in total, 9 per IP, 8 per node,
/// at most 5 bans and 10 nodes per IP, bans of an hour), a session cache of
/// 5000, 1 s requests, 2 s per queried peer, 30 s queries, one retry, an
/// ENR update after 10 peers agree, five parallel queries, discovered peers
/// not reported, and a ping every five minutes.
pub open spec fn spec_default_discv5_settings() -> Discv5Settings {
    Discv5Settings {
        listen_ip: ListenIp::V4Unspecified,
        listen_port: 9000,
        enable_packet_filter: true,
        session_cache_capacity: Some(5000),
        request_timeout_secs: Some(1),
        query_peer_timeout_secs: Some(2),
        query_timeout_secs: Some(30),
        request_retries: Some(1),
        enr_peer_update_min: Some(10),
        query_parallelism: Some(5),
        disable_report_discovered_peers: true,
        filter_rate_limiter: Some(
            RateLimiterSettings {
                total: Quota { max_tokens: 10, period_secs: 1 },
                ip: Some(Quota { max_tokens: 9, period_secs: 1 }),
                node: Some(Quota { max_tokens: 8, period_secs: 1 }),
            },
        ),
        filter_max_bans_per_ip: Some(5),
        filter_max_nodes_per_ip: Some(10),
        ban_duration_secs: Some(3600),
        ping_interval_secs: Some(300),
    }
}

/// The default listening address: 0.0.0.0, discovery and TCP on 9000,
/// QUIC on 9001.
pub open spec fn spec_default_listen_addr() -> ListenAddr {
    ListenAddr { addr: [0u8, 0u8, 0u8, 0u8], disc_port: 9000, quic_port: 9001, tcp_port: 9000 }
}

impl Config {
    /// The default configuration: the default listening address and
    /// discovery settings, no boot nodes, no libp2p nodes, no topics.
    pub fn default() -> (config: Self)
        ensures
            config.listen_addresses == spec_default_listen_addr(),
            config.discv5_config == spec_default_discv5_settings(),
            config.boot_nodes_enr@.len() == 0,
            config.boot_nodes_multiaddr@.len() == 0,
            config.libp2p_nodes@.len() == 0,
            config.topics@.len() == 0,
    {
        let filter_rate_limiter = Some(
            RateLimiterSettings {
                total: Quota { max_tokens: 10, period_secs: 1 },
                ip: Some(Quota { max_tokens: 9, period_secs: 1 }),
                node: Some(Quota { max_tokens: 8, period_secs: 1 }),
            },
        );
        let listen_addresses = ListenAddr {
            addr: [0u8, 0u8, 0u8, 0u8],
            disc_port: 9000,
            quic_port: 9001,
            tcp_port: 9000,
        };
        let discv5_config = Discv5Settings {
            listen_ip: ListenIp::V4Unspecified,
            listen_port: 9000,
            enable_packet_filter: true,
            session_cache_capacity: Some(5000),
            request_timeout_secs: Some(1),
            query_peer_timeout_secs: Some(2),
            query_timeout_secs: Some(30),
            request_retries: Some(1),
            enr_peer_update_min: Some(10),
            query_parallelism: Some(5),
            disable_report_discovered_peers: true,
            filter_rate_limiter,
            filter_max_bans_per_ip: Some(5),
            filter_max_nodes_per_ip: Some(10),
            ban_duration_secs: Some(3600),
            ping_interval_secs: Some(300),
        };
        Config {
            listen_addresses,
            discv5_config,
            boot_nodes_enr: Vec::new(),
            boot_nodes_multiaddr: Vec::new(),
            libp2p_nodes: Vec::new(),
            topics: Vec::new(),
        }
    }
}

} // verus!
