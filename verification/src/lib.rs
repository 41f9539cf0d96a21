//! Moonbox: the verified core of a desktop client for frp.

pub mod text;
pub mod types;
pub mod config;
pub mod frpc_state;
pub mod frpc_update;
pub mod latency;
pub mod prefs;
pub mod process;
pub mod proxy_health;
pub mod proxy_relay;
pub mod scheduler;
