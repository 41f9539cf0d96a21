//! Reachability of the local ports behind the proxy rules.

use vstd::prelude::*;
use crate::text::{push_str, str_eq};

verus! {

/// The health dot of one proxy rule.
#[derive(Clone, Debug)]
pub struct ProxyHealth {
    /// Position of the rule in the list that was checked.
    pub index: usize,
    /// Whether the local port is reachable.
    pub ok: bool,
    /// Status text for the user.
    pub message: String,
}

/// How a rule's local port is probed.
#[derive(Clone, Copy, PartialEq, Eq, Structural, Debug)]
pub enum ProbeKind {
    /// TCP connect, any resolved address (tcp, http, https).
    Tcp,
    /// UDP send to the first resolved address (the link is writable; nobody
    /// need be listening).
    Udp,
    /// Not probed: marked "未检测".
    Skip,
}

/// The probe for a proxy type.
pub open spec fn probe_kind_for(t: Seq<char>) -> ProbeKind {
    if t == "tcp"@ || t == "http"@ || t == "https"@ {
        ProbeKind::Tcp
    } else if t == "udp"@ {
        ProbeKind::Udp
    } else {
        ProbeKind::Skip
    }
}

/// Chooses the probe for a proxy type.
pub fn probe_kind(proxy_type: &str) -> (r: ProbeKind)
    ensures
        r == probe_kind_for(proxy_type@),
{
    if str_eq(proxy_type, "tcp") || str_eq(proxy_type, "http") || str_eq(proxy_type, "https") {
        ProbeKind::Tcp
    } else if str_eq(proxy_type, "udp") {
        ProbeKind::Udp
    } else {
        ProbeKind::Skip
    }
}

/// What probing one rule observed.
pub enum ProbeObservation {
    /// Address resolution failed with this error text.
    ResolveError(String),
    /// The address resolved to nothing.
    NoAddress,
    /// The type is not probed.
    Skipped,
    /// Some resolved address accepted a TCP connection.
    TcpReached,
    /// No resolved address accepted a TCP connection.
    TcpUnreachable,
    /// The empty UDP datagram was sent.
    UdpSent,
    /// The UDP write timeout could not be set.
    UdpTimeoutFailed,
    /// Sending failed with this error text.
    UdpSendError(String),
    /// The UDP socket could not be opened, with this error text.
    UdpSocketError(String),
}

/// The `(ok, message)` shown for an observation.
pub open spec fn observation_report(o: ProbeObservation) -> (bool, Seq<char>) {
    match o {
        ProbeObservation::ResolveError(e) => (false, "地址解析失败："@ + e@),
        ProbeObservation::NoAddress => (false, "无法解析地址"@),
        ProbeObservation::Skipped => (true, "未检测"@),
        ProbeObservation::TcpReached => (true, "本地端口可达"@),
        ProbeObservation::TcpUnreachable => (false, "无法连接到本地端口"@),
        ProbeObservation::UdpSent => (true, "UDP 探测已发送"@),
        ProbeObservation::UdpTimeoutFailed => (false, "UDP 设置超时失败"@),
        ProbeObservation::UdpSendError(e) => (false, "UDP 发送失败："@ + e@),
        ProbeObservation::UdpSocketError(e) => (false, "UDP 套接字错误："@ + e@),
    }
}

fn message_with(prefix: &str, detail: &String) -> (r: String)
    ensures
        r@ == prefix@ + detail@,
{
    let mut m = String::from_str(prefix);
    push_str(&mut m, detail.as_str());
    m
}

/// The reachability and status text for an observation.
pub fn probe_report(o: &ProbeObservation) -> (r: (bool, String))
    ensures
        (r.0, r.1@) == observation_report(*o),
{
    match o {
        ProbeObservation::ResolveError(e) => (false, message_with("地址解析失败：", e)),
        ProbeObservation::NoAddress => (false, String::from_str("无法解析地址")),
        ProbeObservation::Skipped => (true, String::from_str("未检测")),
        ProbeObservation::TcpReached => (true, String::from_str("本地端口可达")),
        ProbeObservation::TcpUnreachable => (false, String::from_str("无法连接到本地端口")),
        ProbeObservation::UdpSent => (true, String::from_str("UDP 探测已发送")),
        ProbeObservation::UdpTimeoutFailed => (false, String::from_str("UDP 设置超时失败")),
        ProbeObservation::UdpSendError(e) => (false, message_with("UDP 发送失败：", e)),
        ProbeObservation::UdpSocketError(e) => (false, message_with("UDP 套接字错误：", e)),
    }
}

/// The health list for the observations of rules `0, 1, …`, in index order.
pub fn assemble_health(observations: &Vec<ProbeObservation>) -> (r: Vec<ProxyHealth>)
    ensures
        r@.len() == observations@.len(),
        forall|i: int| 0 <= i < r@.len() ==> (#[trigger] r@[i]).index == i && (r@[i].ok, r@[i].message@)
            == observation_report(observations@[i]),
{
    let mut out: Vec<ProxyHealth> = Vec::new();
    let mut i: usize = 0;
    while i < observations.len()
        invariant
            0 <= i <= observations@.len(),
            out@.len() == i,
            forall|j: int| 0 <= j < i ==> (#[trigger] out@[j]).index == j && (out@[j].ok, out@[j].message@)
                == observation_report(observations@[j]),
        decreases observations@.len() - i,
    {
        let (ok, message) = probe_report(&observations[i]);
        out.push(ProxyHealth { index: i, ok, message });
        i = i + 1;
    }
    out
}

} // verus!
