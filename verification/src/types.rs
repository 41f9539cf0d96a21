//! Launch parameters and proxy rules shared by every module.

use vstd::prelude::*;
use crate::text::{chars_eq, chars_of};

verus! {

/// Launch parameters: how to reach the provider, plus a set of proxy rules.
///
/// The `Option<String>` fields decide whether the matching TOML line is written
/// (see `config::build_toml`).
#[derive(Clone, Debug)]
pub struct StartArgs {
    /// Built-in provider id (`"builtin:..."`) or `"custom"`.
    pub provider_id: Option<String>,
    /// Display name of a custom provider.
    pub custom_name: Option<String>,
    /// Address of the frps server, e.g. `frp.example.com`.
    pub server_addr: String,
    /// Port of the frps server, e.g. 7000.
    pub server_port: u16,
    /// Authentication token presented to frps.
    pub token: Option<String>,
    /// Client identity, unique on the server.
    pub user: Option<String>,
    /// The proxy rules to expose.
    pub proxies: Vec<ProxyConfig>,
}

/// One proxy rule.
#[derive(Clone, Debug)]
pub struct ProxyConfig {
    /// Proxy name, unique.
    pub name: String,
    /// Proxy type: `tcp` / `udp` / `http` / `https`.
    pub proxy_type: String,
    /// Address of the local service.
    pub local_ip: String,
    /// Port of the local service.
    pub local_port: u16,
    /// Public port.
    pub remote_port: u16,
}

/// The proxy types this client supports: `tcp`, `udp`, `http` and `https`.
pub open spec fn supported_proxy_type(t: Seq<char>) -> bool {
    ||| t == "tcp"@
    ||| t == "udp"@
    ||| t == "http"@
    ||| t == "https"@
}

/// Whether `t` names a supported proxy type.
///
/// `config::build_toml` refuses unknown types before writing a configuration,
/// and the health probe skips them; both go by this one list.
pub fn is_supported_proxy_type(t: &str) -> (r: bool)
    ensures
        r == supported_proxy_type(t@),
{
    let c = chars_of(t);
    chars_eq(c.as_slice(), chars_of("tcp").as_slice())
        || chars_eq(c.as_slice(), chars_of("udp").as_slice())
        || chars_eq(c.as_slice(), chars_of("http").as_slice())
        || chars_eq(c.as_slice(), chars_of("https").as_slice())
}

} // verus!
