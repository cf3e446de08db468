use vstd::prelude::*;
use vstd::string::*;

verus! {

/// The unspecified address that discovery listens on.
#[derive(Clone, Copy, Debug, PartialEq, Eq, Structural)]
pub enum ListenIp {
    /// 0.0.0.0
    V4Unspecified,
    /// ::
    V6Unspecified,
}

/// A token bucket: `max_tokens` requests every `period_secs` seconds.
#[derive(Clone, Copy, Debug, PartialEq, Eq, Structural)]
pub struct Quota {
    pub max_tokens: u64,
    pub period_secs: u64,
}

/// The packet filter's rate limits: a total one, and optional ones per IP
/// and per node.
#[derive(Clone, Copy, Debug, PartialEq, Eq, Structural)]
pub struct RateLimiterSettings {
    pub total: Quota,
    pub ip: Option<Quota>,
    pub node: Option<Quota>,
}

/// A discv5 configuration, as the builder calls that make it: each `Some`
/// (or `true`) field is one call, every other setting keeps the builder's
/// default.
#[derive(Clone, Copy, Debug, PartialEq, Eq, Structural)]
pub struct Discv5Settings {
    pub listen_ip: ListenIp,
    pub listen_port: u16,
    pub enable_packet_filter: bool,
    pub session_cache_capacity: Option<usize>,
    pub request_timeout_secs: Option<u64>,
    pub query_peer_timeout_secs: Option<u64>,
    pub query_timeout_secs: Option<u64>,
    pub request_retries: Option<u8>,
    pub enr_peer_update_min: Option<usize>,
    pub query_parallelism: Option<usize>,
    pub disable_report_discovered_peers: bool,
    pub filter_rate_limiter: Option<RateLimiterSettings>,
    pub filter_max_bans_per_ip: Option<usize>,
    pub filter_max_nodes_per_ip: Option<usize>,
    /// Ban duration in seconds.
    pub ban_duration_secs: Option<u64>,
    pub ping_interval_secs: Option<u64>,
}

/// The discovery configuration that the client starts discv5 with: bans of
/// a minute, 10 s queries, one retry, 1 s requests, three parallel queries,
/// 3 s per queried peer and a ping every five minutes.
pub open spec fn spec_discovery_settings(listen_ip: ListenIp, listen_port: u16) -> Discv5Settings {
    Discv5Settings {
        listen_ip,
        listen_port,
        enable_packet_filter: false,
        session_cache_capacity: None,
        request_timeout_secs: Some(1),
        query_peer_timeout_secs: Some(3),
        query_timeout_secs: Some(10),
        request_retries: Some(1),
        enr_peer_update_min: None,
        query_parallelism: Some(3),
        disable_report_discovered_peers: false,
        filter_rate_limiter: None,
        filter_max_bans_per_ip: None,
        filter_max_nodes_per_ip: None,
        ban_duration_secs: Some(60),
        ping_interval_secs: Some(300),
    }
}

/// The discovery configuration sets exactly what the client's builder
/// chain sets (bans of 60 s, 10 s queries, one retry, 1 s requests, three
/// parallel queries, 3 s per queried peer, a ping every 300 s) and leaves
/// every other setting at the builder's default: no packet filter, and
/// discovered peers still reported, so the event loop sees them.
pub proof fn lemma_discovery_settings_values(listen_ip: ListenIp, listen_port: u16)
    ensures
        ({
            let settings = spec_discovery_settings(listen_ip, listen_port);
            &&& settings.listen_ip == listen_ip
            &&& settings.listen_port == listen_port
            &&& settings.enable_packet_filter == false
            &&& settings.session_cache_capacity is None
            &&& settings.request_timeout_secs == Some(1u64)
            &&& settings.query_peer_timeout_secs == Some(3u64)
            &&& settings.query_timeout_secs == Some(10u64)
            &&& settings.request_retries == Some(1u8)
            &&& settings.enr_peer_update_min is None
            &&& settings.query_parallelism == Some(3usize)
            &&& settings.disable_report_discovered_peers == false
            &&& settings.filter_rate_limiter is None
            &&& settings.filter_max_bans_per_ip is None
            &&& settings.filter_max_nodes_per_ip is None
            &&& settings.ban_duration_secs == Some(60u64)
            &&& settings.ping_interval_secs == Some(300u64)
        }),
{
}

/// The discovery configuration for listening on `listen_ip` at `listen_port`.
pub fn discovery_settings(listen_ip: ListenIp, listen_port: u16) -> (settings: Discv5Settings)
    ensures
        settings == spec_discovery_settings(listen_ip, listen_port),
        settings.listen_ip == listen_ip,
        settings.listen_port == listen_port,
        settings.enable_packet_filter == false,
        settings.session_cache_capacity is None,
        settings.request_timeout_secs == Some(1u64),
        settings.query_peer_timeout_secs == Some(3u64),
        settings.query_timeout_secs == Some(10u64),
        settings.request_retries == Some(1u8),
        settings.enr_peer_update_min is None,
        settings.query_parallelism == Some(3usize),
        settings.disable_report_discovered_peers == false,
        settings.filter_rate_limiter is None,
        settings.filter_max_bans_per_ip is None,
        settings.filter_max_nodes_per_ip is None,
        settings.ban_duration_secs == Some(60u64),
        settings.ping_interval_secs == Some(300u64),
{
    Discv5Settings {
        listen_ip,
        listen_port,
        enable_packet_filter: false,
        session_cache_capacity: None,
        request_timeout_secs: Some(1),
        query_peer_timeout_secs: Some(3),
        query_timeout_secs: Some(10),
        request_retries: Some(1),
        enr_peer_update_min: None,
        query_parallelism: Some(3),
        disable_report_discovered_peers: false,
        filter_rate_limiter: None,
        filter_max_bans_per_ip: None,
        filter_max_nodes_per_ip: None,
        ban_duration_secs: Some(60),
        ping_interval_secs: Some(300),
    }
}

/// What discovery reported, without its payload.
#[derive(Clone, Copy, Debug, PartialEq, Eq, Structural)]
pub enum DiscoveryEvent {
    SocketUpdated,
    Discovered,
    NodeInserted,
    EnrAdded,
    SessionEstablished,
    TalkRequest,
    /// The event stream yielded nothing.
    NoEvent,
}

/// The debug message logged for a discovery event.
pub open spec fn spec_event_message(event: DiscoveryEvent) -> Seq<char> {
    match event {
        DiscoveryEvent::SocketUpdated => "Socket Updated"@,
        DiscoveryEvent::Discovered => "Discovered"@,
        DiscoveryEvent::NodeInserted => "Node Inserted"@,
        DiscoveryEvent::EnrAdded => "Enr Added"@,
        DiscoveryEvent::SessionEstablished => "Session Established"@,
        DiscoveryEvent::TalkRequest => "Talk Request Received"@,
        DiscoveryEvent::NoEvent => "No events"@,
    }
}

/// The debug message logged for a discovery event; the loop that receives
/// events logs this and waits for the next one.
pub fn event_message(event: DiscoveryEvent) -> (message: &'static str)
    ensures
        message@ == spec_event_message(event),
{
    match event {
        DiscoveryEvent::SocketUpdated => "Socket Updated",
        DiscoveryEvent::Discovered => "Discovered",
        DiscoveryEvent::NodeInserted => "Node Inserted",
        DiscoveryEvent::EnrAdded => "Enr Added",
        DiscoveryEvent::SessionEstablished => "Session Established",
        DiscoveryEvent::TalkRequest => "Talk Request Received",
        DiscoveryEvent::NoEvent => "No events",
    }
}

/// The family of an address of a network interface.
#[derive(Clone, Copy, Debug, PartialEq, Eq, Structural)]
pub enum IpFamily {
    V4,
    V6,
}

/// Where the swarm's discovery listens, given the families of the
/// machine's interface addresses: IPv4 when any address is IPv4, else IPv6
/// when any is IPv6, else nowhere.
pub open spec fn spec_select_listen_ip(families: Seq<IpFamily>) -> Option<ListenIp> {
    if families.contains(IpFamily::V4) {
        Some(ListenIp::V4Unspecified)
    } else if families.contains(IpFamily::V6) {
        Some(ListenIp::V6Unspecified)
    } else {
        None
    }
}

/// Chooses where the swarm's discovery listens; none means that no valid
/// IP address was found.
pub fn select_listen_ip(families: &Vec<IpFamily>) -> (ip: Option<ListenIp>)
    ensures
        ip == spec_select_listen_ip(families@),
{
    let mut has_v4 = false;
    let mut has_v6 = false;
    let mut i: usize = 0;
    while i < families.len()
        invariant
            i <= families@.len(),
            has_v4 <==> families@.take(i as int).contains(IpFamily::V4),
            has_v6 <==> families@.take(i as int).contains(IpFamily::V6),
        decreases families@.len() - i,
    {
        let ghost before = families@.take(i as int);
        assert(families@.take(i + 1) =~= before.push(families@[i as int]));
        match families[i] {
            IpFamily::V4 => {
                has_v4 = true;
            },
            IpFamily::V6 => {
                has_v6 = true;
            },
        }
        proof {
            let after = families@.take(i + 1);
            assert(after[i as int] == families@[i as int]);
            if before.contains(IpFamily::V4) {
                let k = choose|k: int| 0 <= k < before.len() && before[k] == IpFamily::V4;
                assert(after[k] == IpFamily::V4);
            }
            if before.contains(IpFamily::V6) {
                let k = choose|k: int| 0 <= k < before.len() && before[k] == IpFamily::V6;
                assert(after[k] == IpFamily::V6);
            }
            if after.contains(IpFamily::V4) && families@[i as int] != IpFamily::V4 {
                let k = choose|k: int| 0 <= k < after.len() && after[k] == IpFamily::V4;
                assert(before[k] == IpFamily::V4);
            }
            if after.contains(IpFamily::V6) && families@[i as int] != IpFamily::V6 {
                let k = choose|k: int| 0 <= k < after.len() && after[k] == IpFamily::V6;
                assert(before[k] == IpFamily::V6);
            }
        }
        i = i + 1;
    }
    assert(families@.take(i as int) =~= families@);
    if has_v4 {
        Some(ListenIp::V4Unspecified)
    } else if has_v6 {
        Some(ListenIp::V6Unspecified)
    } else {
        None
    }
}

/// The address the swarm listens on: TCP port 8888 on every IPv4
/// interface, for the local peer.
pub fn swarm_listen_address(peer_id: &str) -> (address: String)
    ensures
        address@ == "/ip4/0.0.0.0/tcp/8888/p2p/"@ + peer_id@,
{
    let mut address = "/ip4/0.0.0.0/tcp/8888/p2p/".to_owned();
    address.append(peer_id);
    address
}

/// Everything the swarm's set-up decides: where discovery listens and with
/// which configuration. Fails (none) when the machine has no IP address.
pub fn swarm_discovery_settings(families: &Vec<IpFamily>, listen_port: u16) -> (settings: Option<
    Discv5Settings,
>)
    ensures
        match spec_select_listen_ip(families@) {
            Some(ip) => settings == Some(spec_discovery_settings(ip, listen_port)),
            None => settings is None,
        },
{
    match select_listen_ip(families) {
        Some(ip) => Some(discovery_settings(ip, listen_port)),
        None => None,
    }
}

} // verus!
