//! Verified core of the ConTower networking client: configuration values,
//! log-level selection, ENR field handling, peer selection and the small
//! decisions of the discovery and swarm set-up.

pub mod p2p_config;
pub mod text;
pub mod local_enr;
pub mod logging;
pub mod version;
pub mod nodes;
pub mod log_entry;
pub mod peers;
pub mod discovery;
pub mod execution_payload;
pub mod blocks;
