use moonbox::proxy_relay::{relay_rewrite, sample, RelayCounters, TrafficMeter, TrafficPayload};
use moonbox::types::{ProxyConfig, StartArgs};

fn proxy(name: &str, ty: &str, ip: &str, lp: u16) -> ProxyConfig {
    ProxyConfig { name: name.to_string(), proxy_type: ty.to_string(), local_ip: ip.to_string(), local_port: lp, remote_port: lp + 1 }
}

#[test]
fn traffic_samples() {
    let d = TrafficPayload::default();
    assert_eq!((d.total_in_bytes, d.total_out_bytes, d.in_rate, d.out_rate, d.connections), (0, 0, 0, 0, 0));
    let mut meter = TrafficMeter { last_in_bytes: 0, last_out_bytes: 0 };
    let first = vec![
        RelayCounters { in_bytes: 100, out_bytes: 10, connections: 2 },
        RelayCounters { in_bytes: 50, out_bytes: 5, connections: 1 },
    ];
    let p1 = sample(&mut meter, &first);
    assert_eq!((p1.total_in_bytes, p1.total_out_bytes, p1.in_rate, p1.out_rate, p1.connections), (150, 15, 150, 15, 3));
    let second = vec![
        RelayCounters { in_bytes: 180, out_bytes: 10, connections: 1 },
        RelayCounters { in_bytes: 70, out_bytes: 25, connections: 0 },
    ];
    let p2 = sample(&mut meter, &second);
    assert_eq!((p2.total_in_bytes, p2.total_out_bytes, p2.in_rate, p2.out_rate, p2.connections), (250, 35, 100, 20, 1));
    assert_eq!(p1.in_rate + p2.in_rate, 250);
    let p3 = sample(&mut meter, &vec![]);
    assert_eq!((p3.in_rate, p3.out_rate), (0, 0));
    assert_eq!((meter.last_in_bytes, meter.last_out_bytes), (0, 0));
}

#[test]
fn rewrite_for_relay() {
    let args = StartArgs {
        provider_id: Some("builtin:x".to_string()),
        custom_name: None,
        server_addr: "frp.example.com".to_string(),
        server_port: 7000,
        token: Some("t".to_string()),
        user: None,
        proxies: vec![
            proxy("ssh", "tcp", "192.168.1.5", 22),
            proxy("dns", "udp", "127.0.0.1", 53),
            proxy("web", "https", "localhost", 443),
            proxy("down", "http", "10.0.0.1", 80),
        ],
    };
    let (out, targets) = relay_rewrite(&args, &vec![Some(40001), Some(40002), Some(40003), None]);
    assert_eq!(out.server_addr, "frp.example.com");
    assert_eq!(out.provider_id.as_deref(), Some("builtin:x"));
    assert_eq!(out.token.as_deref(), Some("t"));
    assert_eq!((out.proxies[0].local_ip.as_str(), out.proxies[0].local_port), ("127.0.0.1", 40001));
    assert_eq!((out.proxies[1].local_ip.as_str(), out.proxies[1].local_port), ("127.0.0.1", 53));
    assert_eq!((out.proxies[2].local_ip.as_str(), out.proxies[2].local_port), ("127.0.0.1", 40003));
    assert_eq!((out.proxies[3].local_ip.as_str(), out.proxies[3].local_port), ("10.0.0.1", 80));
    assert_eq!(out.proxies[2].remote_port, 444);
    assert_eq!(targets.len(), 2);
    assert_eq!((targets[0].name.as_str(), targets[0].upstream.as_str()), ("ssh", "192.168.1.5:22"));
    assert_eq!((targets[1].name.as_str(), targets[1].upstream.as_str()), ("web", "localhost:443"));
}

#[test]
fn relay_keeps_config_validity() {
    let good = StartArgs {
        provider_id: None,
        custom_name: None,
        server_addr: "h".to_string(),
        server_port: 7000,
        token: None,
        user: None,
        proxies: vec![proxy("a", "tcp", "10.0.0.2", 22), proxy("b", "udp", "10.0.0.3", 53)],
    };
    let (out, _) = relay_rewrite(&good, &vec![Some(41000), Some(41001)]);
    let text = moonbox::config::build_toml(&out).unwrap();
    assert!(text.contains("localIP = \"127.0.0.1\"\nlocalPort = 41000\n"));
    assert!(text.contains("localIP = \"10.0.0.3\"\nlocalPort = 53\n"));
    let bad = StartArgs { proxies: vec![proxy("", "tcp", "x", 1)], ..good };
    let (out_bad, _) = relay_rewrite(&bad, &vec![Some(41002)]);
    assert_eq!(moonbox::config::build_toml(&out_bad).unwrap_err(), moonbox::config::build_toml(&bad).unwrap_err());
}
