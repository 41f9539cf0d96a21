use moonbox::latency::{latency_result, ProbeOutcome};
use moonbox::proxy_health::{assemble_health, probe_kind, probe_report, ProbeKind, ProbeObservation};

#[test]
fn latency_results() {
    let ok = latency_result(ProbeOutcome::Connected { elapsed_ms: 42 });
    assert!(ok.ok && ok.latency_ms == 42 && ok.error_kind.is_none());
    for (o, k) in [
        (ProbeOutcome::Unresolved, "resolve"),
        (ProbeOutcome::TimedOut, "timeout"),
        (ProbeOutcome::Refused, "refused"),
        (ProbeOutcome::Unreachable, "unreachable"),
    ] {
        let r = latency_result(o);
        assert!(!r.ok);
        assert_eq!(r.latency_ms, 0);
        assert_eq!(r.error_kind.as_deref(), Some(k));
    }
}

#[test]
fn probe_kinds() {
    assert_eq!(probe_kind("tcp"), ProbeKind::Tcp);
    assert_eq!(probe_kind("http"), ProbeKind::Tcp);
    assert_eq!(probe_kind("https"), ProbeKind::Tcp);
    assert_eq!(probe_kind("udp"), ProbeKind::Udp);
    assert_eq!(probe_kind("stcp"), ProbeKind::Skip);
}

#[test]
fn probe_reports() {
    assert_eq!(probe_report(&ProbeObservation::Skipped), (true, "未检测".to_string()));
    assert_eq!(probe_report(&ProbeObservation::TcpReached), (true, "本地端口可达".to_string()));
    assert_eq!(probe_report(&ProbeObservation::TcpUnreachable), (false, "无法连接到本地端口".to_string()));
    assert_eq!(probe_report(&ProbeObservation::NoAddress), (false, "无法解析地址".to_string()));
    assert_eq!(probe_report(&ProbeObservation::UdpSent), (true, "UDP 探测已发送".to_string()));
    assert_eq!(probe_report(&ProbeObservation::UdpTimeoutFailed), (false, "UDP 设置超时失败".to_string()));
    assert_eq!(
        probe_report(&ProbeObservation::ResolveError("bad".to_string())),
        (false, "地址解析失败：bad".to_string())
    );
    assert_eq!(
        probe_report(&ProbeObservation::UdpSendError("e1".to_string())),
        (false, "UDP 发送失败：e1".to_string())
    );
    assert_eq!(
        probe_report(&ProbeObservation::UdpSocketError("e2".to_string())),
        (false, "UDP 套接字错误：e2".to_string())
    );
}

#[test]
fn health_list_in_index_order() {
    let h = assemble_health(&vec![ProbeObservation::TcpReached, ProbeObservation::Skipped, ProbeObservation::TcpUnreachable]);
    assert_eq!(h.len(), 3);
    for (i, item) in h.iter().enumerate() {
        assert_eq!(item.index, i);
    }
    assert!(h[0].ok && h[1].ok && !h[2].ok);
    assert_eq!(h[1].message, "未检测");
}
