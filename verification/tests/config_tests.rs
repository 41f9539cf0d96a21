use moonbox::config::{build_toml, escape_toml};
use moonbox::types::{is_supported_proxy_type, ProxyConfig, StartArgs};

fn proxy(name: &str, ty: &str, ip: &str, lp: u16, rp: u16) -> ProxyConfig {
    ProxyConfig {
        name: name.to_string(),
        proxy_type: ty.to_string(),
        local_ip: ip.to_string(),
        local_port: lp,
        remote_port: rp,
    }
}

fn args(addr: &str, port: u16, token: Option<&str>, user: Option<&str>, proxies: Vec<ProxyConfig>) -> StartArgs {
    StartArgs {
        provider_id: None,
        custom_name: None,
        server_addr: addr.to_string(),
        server_port: port,
        token: token.map(|t| t.to_string()),
        user: user.map(|u| u.to_string()),
        proxies,
    }
}

const HEADER: &str = "loginFailExit = false\ntransport.dialServerTimeout = 30\ntransport.heartbeatInterval = 30\ntransport.heartbeatTimeout = 90\nwebServer.addr = \"127.0.0.1\"\nwebServer.port = 7400\nwebServer.user = \"admin\"\nwebServer.password = \"admin\"\n";

#[test]
fn build_toml_full_document() {
    let a = args(
        "frp.example.com",
        7000,
        Some("s3cret"),
        Some("alice"),
        vec![proxy("ssh", "tcp", "127.0.0.1", 22, 6000), proxy("web", "http", "192.168.1.2", 8080, 8081)],
    );
    let expected = format!(
        "serverAddr = \"frp.example.com\"\nserverPort = 7000\n{}auth.token = \"s3cret\"\n\nuser = \"alice\"\n\n\
[[proxies]]\nname = \"ssh\"\ntype = \"tcp\"\nlocalIP = \"127.0.0.1\"\nlocalPort = 22\nremotePort = 6000\n\n\
[[proxies]]\nname = \"web\"\ntype = \"http\"\nlocalIP = \"192.168.1.2\"\nlocalPort = 8080\nremotePort = 8081\n\n\n",
        HEADER
    );
    assert_eq!(build_toml(&a).unwrap(), expected);
}

#[test]
fn build_toml_without_token_and_user() {
    let a = args("1.2.3.4", 65535, None, None, vec![proxy("game", "udp", "127.0.0.1", 25565, 25565)]);
    let expected = format!(
        "serverAddr = \"1.2.3.4\"\nserverPort = 65535\n{}\n\n[[proxies]]\nname = \"game\"\ntype = \"udp\"\nlocalIP = \"127.0.0.1\"\nlocalPort = 25565\nremotePort = 25565\n\n\n",
        HEADER
    );
    assert_eq!(build_toml(&a).unwrap(), expected);
}

#[test]
fn build_toml_web_server_precedes_proxies() {
    let a = args("h", 1, None, None, vec![proxy("p", "https", "::1", 443, 8443)]);
    let text = build_toml(&a).unwrap();
    assert!(text.find("webServer.port").unwrap() < text.find("[[proxies]]").unwrap());
}

#[test]
fn build_toml_rejects_missing_server() {
    let p = vec![proxy("ssh", "tcp", "127.0.0.1", 22, 6000)];
    assert_eq!(build_toml(&args("", 7000, None, None, p.clone_rules())).unwrap_err(), "请填写正确的服务商地址与端口");
    assert_eq!(build_toml(&args("h", 0, None, None, p)).unwrap_err(), "请填写正确的服务商地址与端口");
}

trait CloneRules {
    fn clone_rules(&self) -> Vec<ProxyConfig>;
}

impl CloneRules for Vec<ProxyConfig> {
    fn clone_rules(&self) -> Vec<ProxyConfig> {
        self.iter().map(|p| proxy(&p.name, &p.proxy_type, &p.local_ip, p.local_port, p.remote_port)).collect()
    }
}

#[test]
fn build_toml_rejects_no_proxies() {
    assert_eq!(build_toml(&args("h", 7000, None, None, vec![])).unwrap_err(), "请至少添加一条代理规则");
}

#[test]
fn build_toml_rejects_empty_fields() {
    let a = args("h", 7000, None, None, vec![proxy("", "tcp", "127.0.0.1", 22, 6000)]);
    assert_eq!(build_toml(&a).unwrap_err(), "代理配置中存在空字段");
    let b = args("h", 7000, None, None, vec![proxy("x", "", "127.0.0.1", 22, 6000)]);
    assert_eq!(build_toml(&b).unwrap_err(), "代理配置中存在空字段");
}

#[test]
fn build_toml_rejects_unknown_type_first_fault_wins() {
    let a = args(
        "h",
        7000,
        None,
        None,
        vec![proxy("ok", "tcp", "127.0.0.1", 1, 2), proxy("bad", "stcp", "127.0.0.1", 1, 2), proxy("", "tcp", "a", 1, 2)],
    );
    assert_eq!(build_toml(&a).unwrap_err(), "不支持的代理类型：stcp（仅支持 tcp/udp/http/https）");
}

#[test]
fn build_toml_escapes_values() {
    let a = args("h\"x", 7000, Some("a\\b"), None, vec![proxy("line\nbreak", "tcp", "127.0.0.1", 1, 2)]);
    let text = build_toml(&a).unwrap();
    assert!(text.starts_with("serverAddr = \"h\\\"x\"\n"));
    assert!(text.contains("auth.token = \"a\\\\b\"\n"));
    assert!(text.contains("name = \"line break\"\n"));
}

#[test]
fn escape_toml_cases() {
    assert_eq!(escape_toml("plain"), "plain");
    assert_eq!(escape_toml("a\r\n\tb"), "a   b");
    assert_eq!(escape_toml("q\"q"), "q\\\"q");
    assert_eq!(escape_toml("back\\slash"), "back\\\\slash");
    assert_eq!(escape_toml("中文\n"), "中文 ");
    assert_eq!(escape_toml(""), "");
}

#[test]
fn escaped_text_has_no_line_break_and_escaped_quotes() {
    let e = escape_toml("x\"\ny\t\"z\r");
    assert!(!e.contains('\n') && !e.contains('\r') && !e.contains('\t'));
    let chars: Vec<char> = e.chars().collect();
    for (i, c) in chars.iter().enumerate() {
        if *c == '"' {
            assert!(i > 0 && chars[i - 1] == '\\');
        }
    }
}

#[test]
fn supported_proxy_types() {
    for t in ["tcp", "udp", "http", "https"] {
        assert!(is_supported_proxy_type(t));
    }
    for t in ["", "TCP", "stcp", "xtcp", "tcp ", "http2"] {
        assert!(!is_supported_proxy_type(t));
    }
}

/// Reads the content of a TOML basic string (the escapes that escaping can
/// produce, plus the other simple ones), refusing raw control characters.
fn read_basic_string(s: &str) -> Option<String> {
    let mut out = String::new();
    let mut it = s.chars();
    while let Some(c) = it.next() {
        match c {
            '\\' => out.push(match it.next()? {
                'b' => '\u{8}',
                't' => '\t',
                'n' => '\n',
                'f' => '\u{c}',
                'r' => '\r',
                '"' => '"',
                '\\' => '\\',
                _ => return None,
            }),
            '"' => return None,
            c if (c < ' ' && c != '\t') || c == '\u{7f}' => return None,
            c => out.push(c),
        }
    }
    Some(out)
}

#[test]
fn escape_toml_round_trip() {
    for s in ["plain", "a\r\n\tb", "q\"q", "back\\slash", "\\\"", "中文\n", "", "x\\n"] {
        let expected = s.replace(['\r', '\n', '\t'], " ");
        assert_eq!(read_basic_string(&escape_toml(s)).as_deref(), Some(expected.as_str()));
    }
    assert_eq!(read_basic_string(&escape_toml("bell\u{7}")), None);
}
