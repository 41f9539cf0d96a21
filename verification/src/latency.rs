//! Server reachability and latency: one TCP handshake to
//! `server_addr:server_port`, reported in milliseconds.

use vstd::prelude::*;

verus! {

/// The result shown next to the "test" button. `error_kind` is a key that the
/// front end translates: `resolve`, `timeout`, `refused` or `unreachable`.
#[derive(Clone, Debug)]
pub struct LatencyResult {
    /// Whether the handshake succeeded.
    pub ok: bool,
    /// Milliseconds taken on success, 0 on failure.
    pub latency_ms: u64,
    /// Failure class; `None` on success.
    pub error_kind: Option<String>,
}

/// What one probe observed: the first resolved address only is tried, so that
/// the 3 s timeout is not multiplied by the number of addresses.
pub enum ProbeOutcome {
    /// The address did not resolve, or resolved to nothing.
    Unresolved,
    /// The handshake succeeded after `elapsed_ms` milliseconds.
    Connected { elapsed_ms: u64 },
    /// The handshake timed out.
    TimedOut,
    /// The connection was refused.
    Refused,
    /// Any other connection error.
    Unreachable,
}

/// The failure key of an outcome, if it is a failure.
pub open spec fn failure_key(o: ProbeOutcome) -> Option<Seq<char>> {
    match o {
        ProbeOutcome::Unresolved => Some("resolve"@),
        ProbeOutcome::Connected { .. } => None,
        ProbeOutcome::TimedOut => Some("timeout"@),
        ProbeOutcome::Refused => Some("refused"@),
        ProbeOutcome::Unreachable => Some("unreachable"@),
    }
}

/// The result reported for a probe outcome.
pub fn latency_result(outcome: ProbeOutcome) -> (r: LatencyResult)
    ensures
        r.ok == (outcome is Connected),
        r.latency_ms == (match outcome {
            ProbeOutcome::Connected { elapsed_ms } => elapsed_ms,
            _ => 0,
        }),
        match failure_key(outcome) {
            Some(k) => r.error_kind matches Some(e) && e@ == k,
            None => r.error_kind is None,
        },
{
    match outcome {
        ProbeOutcome::Connected { elapsed_ms } => LatencyResult { ok: true, latency_ms: elapsed_ms, error_kind: None },
        ProbeOutcome::Unresolved => LatencyResult { ok: false, latency_ms: 0, error_kind: Some(String::from_str("resolve")) },
        ProbeOutcome::TimedOut => LatencyResult { ok: false, latency_ms: 0, error_kind: Some(String::from_str("timeout")) },
        ProbeOutcome::Refused => LatencyResult { ok: false, latency_ms: 0, error_kind: Some(String::from_str("refused")) },
        ProbeOutcome::Unreachable => LatencyResult { ok: false, latency_ms: 0, error_kind: Some(String::from_str("unreachable")) },
    }
}

} // verus!
