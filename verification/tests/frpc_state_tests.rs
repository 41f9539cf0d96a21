use moonbox::frpc_state::{
    has_running_proxy, mark_connecting, push_log, reset_to_stopped, ConnTracker, FrpcConnState, LogBuffer,
    CONNECT_TIMEOUT_NS, LOG_BUFFER_LIMIT,
};

const TIMEOUT_MSG: &str = "frpc 启动 30 秒内未连接到服务端，请检查地址 / 端口 / Token";
const SEC: u64 = 1_000_000_000;

#[test]
fn state_names() {
    assert_eq!(FrpcConnState::Stopped.as_str(), "stopped");
    assert_eq!(FrpcConnState::Connecting.as_str(), "connecting");
    assert_eq!(FrpcConnState::Connected.as_str(), "connected");
    assert_eq!(FrpcConnState::Error.as_str(), "error");
    assert!(FrpcConnState::default() == FrpcConnState::Stopped);
}

#[test]
fn log_buffer_keeps_last_500_in_order() {
    let mut buf = LogBuffer::new();
    for i in 0..(LOG_BUFFER_LIMIT + 20) {
        push_log(&mut buf, format!("line {i}"), if i % 2 == 0 { "stdout" } else { "stderr" });
        assert!(buf.len() <= LOG_BUFFER_LIMIT);
    }
    let all = buf.snapshot();
    assert_eq!(all.len(), 500);
    assert_eq!(all[0].line, "line 20");
    assert_eq!(all[0].stream, "stdout");
    assert_eq!(all[499].line, "line 519");
    assert_eq!(all[499].stream, "stderr");
}

#[test]
fn log_buffer_small() {
    let mut buf = LogBuffer::new();
    assert_eq!(buf.snapshot().len(), 0);
    push_log(&mut buf, "hello".to_string(), "system");
    let all = buf.snapshot();
    assert_eq!(all.len(), 1);
    assert_eq!(all[0].line, "hello");
    assert_eq!(all[0].stream, "system");
}

#[test]
fn start_connect_and_stop() {
    let mut t = ConnTracker::new();
    assert!(t.conn == FrpcConnState::Stopped && t.error_msg.is_none() && t.poll_gen == 0);
    mark_connecting(&mut t, 5 * SEC);
    assert!(t.conn == FrpcConnState::Connecting);
    assert_eq!(t.started_at, Some(5 * SEC));
    assert_eq!(t.poll_gen, 1);
    let changed = t.apply_poll(true, 8 * SEC);
    assert!(changed && t.conn == FrpcConnState::Connected && t.error_msg.is_none());
    assert!(!t.apply_poll(true, 11 * SEC));
    reset_to_stopped(&mut t);
    assert!(t.conn == FrpcConnState::Stopped && t.error_msg.is_none() && t.started_at.is_none());
    assert_eq!(t.poll_gen, 1);
    let p = t.status_payload();
    assert_eq!(p.status, "stopped");
    assert!(p.error.is_none());
}

#[test]
fn start_grace_period_then_error() {
    let mut t = ConnTracker::new();
    mark_connecting(&mut t, 0);
    assert!(!t.apply_poll(false, 30 * SEC));
    assert!(t.conn == FrpcConnState::Connecting);
    assert!(t.apply_poll(false, 30 * SEC + 1));
    assert!(t.conn == FrpcConnState::Error);
    assert_eq!(t.error_msg.as_deref(), Some(TIMEOUT_MSG));
    let p = t.status_payload();
    assert_eq!(p.status, "error");
    assert_eq!(p.error.as_deref(), Some(TIMEOUT_MSG));
    // still no proxy: stays in Error, nothing to broadcast
    assert!(!t.apply_poll(false, 40 * SEC));
    // recovery clears the error
    assert!(t.apply_poll(true, 41 * SEC));
    assert!(t.conn == FrpcConnState::Connected && t.error_msg.is_none());
    assert_eq!(CONNECT_TIMEOUT_NS, 30 * SEC);
}

#[test]
fn lost_connection_gets_fresh_grace() {
    let mut t = ConnTracker::new();
    mark_connecting(&mut t, 0);
    t.apply_poll(true, 3 * SEC);
    assert!(t.apply_poll(false, 100 * SEC));
    assert!(t.conn == FrpcConnState::Connecting);
    assert_eq!(t.started_at, Some(100 * SEC));
    assert!(!t.apply_poll(false, 129 * SEC));
    assert!(t.conn == FrpcConnState::Connecting);
    assert!(t.apply_poll(false, 131 * SEC));
    assert!(t.conn == FrpcConnState::Error);
}

#[test]
fn new_round_takes_over() {
    let mut t = ConnTracker::new();
    mark_connecting(&mut t, 0);
    let my_gen = t.poll_gen;
    assert!(t.poll_continues(my_gen, true));
    assert!(!t.poll_continues(my_gen, false));
    mark_connecting(&mut t, SEC);
    assert!(!t.poll_continues(my_gen, true));
    let mut w = ConnTracker::new();
    w.poll_gen = u64::MAX;
    mark_connecting(&mut w, 0);
    assert_eq!(w.poll_gen, 0);
}

#[test]
fn poll_before_any_start_time_counts_zero() {
    let mut t = ConnTracker::new();
    assert!(t.apply_poll(false, 1000 * SEC));
    assert!(t.conn == FrpcConnState::Connecting);
    assert!(t.error_msg.is_none());
}

#[test]
fn running_proxy_detection() {
    let s = |x: &str| Some(x.to_string());
    assert!(!has_running_proxy(&None));
    assert!(!has_running_proxy(&Some(vec![])));
    assert!(!has_running_proxy(&Some(vec![None, Some(vec![s("start error"), None])])));
    assert!(has_running_proxy(&Some(vec![Some(vec![s("wait start")]), Some(vec![None, s("running")])])));
    assert!(!has_running_proxy(&Some(vec![Some(vec![s("Running"), s("running ")])])));
}
