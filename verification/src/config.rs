//! Generation of the frpc configuration text (TOML).

use vstd::prelude::*;
use crate::text::{chars_of, decimal, push_char, push_decimal, push_str};
use crate::types::{is_supported_proxy_type, supported_proxy_type, ProxyConfig, StartArgs};

verus! {

/// How one character is written inside a TOML string value: line breaks and
/// tabs become a space, a backslash and a double quote are escaped.
pub open spec fn escape_char(c: char) -> Seq<char> {
    if c == '\r' || c == '\n' || c == '\t' {
        seq![' ']
    } else if c == '\\' {
        seq!['\\', '\\']
    } else if c == '"' {
        seq!['\\', '"']
    } else {
        seq![c]
    }
}

/// The escaped form of a whole string value.
pub open spec fn escaped(s: Seq<char>) -> Seq<char>
    decreases s.len(),
{
    if s.len() == 0 {
        seq![]
    } else {
        escaped(s.drop_last()) + escape_char(s.last())
    }
}

/// Escapes a TOML string value: `\r`, `\n` and `\t` become a space, so that a
/// pasted line break cannot break the file; `\` and `"` are escaped.
pub fn escape_toml(s: &str) -> (r: String)
    ensures
        r@ == escaped(s@),
{
    let cs = chars_of(s);
    let mut out = String::new();
    let mut i: usize = 0;
    while i < cs.len()
        invariant
            0 <= i <= cs@.len(),
            cs@ == s@,
            out@ == escaped(cs@.take(i as int)),
        decreases cs@.len() - i,
    {
        let c = cs[i];
        if c == '\r' || c == '\n' || c == '\t' {
            push_char(&mut out, ' ');
        } else if c == '\\' {
            push_char(&mut out, '\\');
            push_char(&mut out, '\\');
        } else if c == '"' {
            push_char(&mut out, '\\');
            push_char(&mut out, '"');
        } else {
            push_char(&mut out, c);
        }
        assert(cs@.take(i + 1).drop_last() == cs@.take(i as int));
        i = i + 1;
    }
    assert(cs@.take(cs@.len() as int) == cs@);
    out
}

/// The text block of one proxy rule.
pub open spec fn proxy_block(p: ProxyConfig) -> Seq<char> {
    "[[proxies]]\nname = \""@ + escaped(p.name@) + "\"\ntype = \""@ + escaped(p.proxy_type@)
        + "\"\nlocalIP = \""@ + escaped(p.local_ip@) + "\"\nlocalPort = "@ + decimal(
        p.local_port as nat,
    ) + "\nremotePort = "@ + decimal(p.remote_port as nat) + "\n\n"@
}

/// The message for a proxy rule with an empty name or type.
pub open spec fn empty_field_message() -> Seq<char> {
    "代理配置中存在空字段"@
}

/// The message for a proxy rule of an unsupported type.
pub open spec fn unsupported_type_message(t: Seq<char>) -> Seq<char> {
    "不支持的代理类型："@ + t + "（仅支持 tcp/udp/http/https）"@
}

/// What is wrong with a proxy rule, if anything.
pub open spec fn proxy_problem(p: ProxyConfig) -> Option<Seq<char>> {
    if p.name@.len() == 0 || p.proxy_type@.len() == 0 {
        Some(empty_field_message())
    } else if !supported_proxy_type(p.proxy_type@) {
        Some(unsupported_type_message(p.proxy_type@))
    } else {
        None
    }
}

/// The proxy section: the blocks of all rules in order, or the problem of the
/// first faulty rule.
pub open spec fn proxies_section(ps: Seq<ProxyConfig>) -> Result<Seq<char>, Seq<char>>
    decreases ps.len(),
{
    if ps.len() == 0 {
        Ok(seq![])
    } else {
        match proxies_section(ps.drop_last()) {
            Err(e) => Err(e),
            Ok(t) => match proxy_problem(ps.last()) {
                Some(e) => Err(e),
                None => Ok(t + proxy_block(ps.last())),
            },
        }
    }
}

/// The server part of the configuration; the `webServer.*` keys come before
/// any `[[proxies]]` table, as TOML requires.
pub open spec fn server_section(args: StartArgs) -> Seq<char> {
    "serverAddr = \""@ + escaped(args.server_addr@) + "\"\nserverPort = "@ + decimal(
        args.server_port as nat,
    )
        + "\nloginFailExit = false\ntransport.dialServerTimeout = 30\ntransport.heartbeatInterval = 30\ntransport.heartbeatTimeout = 90\nwebServer.addr = \"127.0.0.1\"\nwebServer.port = 7400\nwebServer.user = \"admin\"\nwebServer.password = \"admin\"\n"@
}

/// The `auth.token` line, present when a token is given.
pub open spec fn token_line(token: Option<String>) -> Seq<char> {
    match token {
        Some(t) => "auth.token = \""@ + escaped(t@) + "\"\n"@,
        None => seq![],
    }
}

/// The `user` line, present when a user is given.
pub open spec fn user_line(user: Option<String>) -> Seq<char> {
    match user {
        Some(u) => "user = \""@ + escaped(u@) + "\"\n"@,
        None => seq![],
    }
}

/// The message for a missing server address or port.
pub open spec fn server_message() -> Seq<char> {
    "请填写正确的服务商地址与端口"@
}

/// The message for a configuration without proxy rules.
pub open spec fn no_proxy_message() -> Seq<char> {
    "请至少添加一条代理规则"@
}

/// The frpc configuration for `args`, or the message that explains why there is none.
pub open spec fn frpc_toml(args: StartArgs) -> Result<Seq<char>, Seq<char>> {
    if args.server_addr@.len() == 0 || args.server_port == 0 {
        Err(server_message())
    } else if args.proxies@.len() == 0 {
        Err(no_proxy_message())
    } else {
        match proxies_section(args.proxies@) {
            Err(e) => Err(e),
            Ok(t) => Ok(
                server_section(args) + token_line(args.token) + "\n"@ + user_line(args.user) + "\n"@
                    + t + "\n"@,
            ),
        }
    }
}

/// The view of a `Result` of strings.
pub open spec fn text_result(r: Result<String, String>) -> Result<Seq<char>, Seq<char>> {
    match r {
        Ok(s) => Ok(s@),
        Err(e) => Err(e@),
    }
}

proof fn lemma_section_error_persists(ps: Seq<ProxyConfig>, k: int, j: int)
    requires
        0 <= k <= j <= ps.len(),
        proxies_section(ps.take(k)) is Err,
    ensures
        proxies_section(ps.take(j)) == proxies_section(ps.take(k)),
    decreases j - k,
{
    if j > k {
        lemma_section_error_persists(ps, k, j - 1);
        assert(ps.take(j).drop_last() == ps.take(j - 1));
    }
}

fn string_of(s: &str) -> (r: String)
    ensures
        r@ == s@,
{
    String::from_str(s)
}

fn push_escaped(out: &mut String, s: &str)
    ensures
        final(out)@ == old(out)@ + escaped(s@),
{
    let e = escape_toml(s);
    push_str(out, e.as_str());
}

fn proxy_text(p: &ProxyConfig) -> (r: String)
    ensures
        r@ == proxy_block(*p),
{
    let mut s = String::new();
    push_str(&mut s, "[[proxies]]\nname = \"");
    push_escaped(&mut s, p.name.as_str());
    push_str(&mut s, "\"\ntype = \"");
    push_escaped(&mut s, p.proxy_type.as_str());
    push_str(&mut s, "\"\nlocalIP = \"");
    push_escaped(&mut s, p.local_ip.as_str());
    push_str(&mut s, "\"\nlocalPort = ");
    push_decimal(&mut s, p.local_port as u64);
    push_str(&mut s, "\nremotePort = ");
    push_decimal(&mut s, p.remote_port as u64);
    push_str(&mut s, "\n\n");
    s
}

fn check_proxy(p: &ProxyConfig) -> (r: Result<(), String>)
    ensures
        match r {
            Ok(()) => proxy_problem(*p) is None,
            Err(e) => proxy_problem(*p) == Some(e@),
        },
{
    if p.name.as_str().is_empty() || p.proxy_type.as_str().is_empty() {
        return Err(string_of("代理配置中存在空字段"));
    }
    if !is_supported_proxy_type(p.proxy_type.as_str()) {
        let mut m = string_of("不支持的代理类型：");
        push_str(&mut m, p.proxy_type.as_str());
        push_str(&mut m, "（仅支持 tcp/udp/http/https）");
        return Err(m);
    }
    Ok(())
}

/// Renders `args` as the text of `frpc.toml`, after checking the fields.
///
/// The address must be non-empty and the port non-zero, there must be at least
/// one proxy rule, and every rule needs a name and a supported type; the first
/// failed check gives the error. `webServer.*` precedes `[[proxies]]`, else frpc
/// reports `unknown field "webServer"`.
pub fn build_toml(args: &StartArgs) -> (r: Result<String, String>)
    ensures
        text_result(r) == frpc_toml(*args),
{
    if args.server_addr.as_str().is_empty() || args.server_port == 0 {
        return Err(string_of("请填写正确的服务商地址与端口"));
    }
    if args.proxies.len() == 0 {
        return Err(string_of("请至少添加一条代理规则"));
    }
    let ghost ps = args.proxies@;
    let mut section = String::new();
    let mut i: usize = 0;
    assert(ps.take(0) =~= Seq::<ProxyConfig>::empty());
    while i < args.proxies.len()
        invariant
            0 <= i <= ps.len(),
            ps == args.proxies@,
            args.server_addr@.len() > 0,
            args.server_port != 0,
            ps.len() > 0,
            proxies_section(ps.take(i as int)) == Ok::<Seq<char>, Seq<char>>(section@),
        decreases ps.len() - i,
    {
        let p = &args.proxies[i];
        assert(ps.take(i + 1).drop_last() == ps.take(i as int));
        assert(ps.take(i + 1).last() == ps[i as int]);
        match check_proxy(p) {
            Err(e) => {
                assert(proxies_section(ps.take(i + 1)) == Err::<Seq<char>, Seq<char>>(e@));
                proof {
                    lemma_section_error_persists(ps, i + 1, ps.len() as int);
                    assert(ps.take(ps.len() as int) == ps);
                }
                return Err(e);
            },
            Ok(()) => {},
        }
        let block = proxy_text(p);
        push_str(&mut section, block.as_str());
        i = i + 1;
    }
    assert(ps.take(ps.len() as int) == ps);
    let mut out = String::new();
    push_str(&mut out, "serverAddr = \"");
    push_escaped(&mut out, args.server_addr.as_str());
    push_str(&mut out, "\"\nserverPort = ");
    push_decimal(&mut out, args.server_port as u64);
    push_str(
        &mut out,
        "\nloginFailExit = false\ntransport.dialServerTimeout = 30\ntransport.heartbeatInterval = 30\ntransport.heartbeatTimeout = 90\nwebServer.addr = \"127.0.0.1\"\nwebServer.port = 7400\nwebServer.user = \"admin\"\nwebServer.password = \"admin\"\n",
    );
    assert(out@ == server_section(*args));
    match &args.token {
        Some(t) => {
            push_str(&mut out, "auth.token = \"");
            push_escaped(&mut out, t.as_str());
            push_str(&mut out, "\"\n");
        },
        None => {},
    }
    assert(out@ == server_section(*args) + token_line(args.token));
    push_str(&mut out, "\n");
    match &args.user {
        Some(u) => {
            push_str(&mut out, "user = \"");
            push_escaped(&mut out, u.as_str());
            push_str(&mut out, "\"\n");
        },
        None => {},
    }
    assert(out@ == server_section(*args) + token_line(args.token) + "\n"@ + user_line(args.user));
    push_str(&mut out, "\n");
    push_str(&mut out, section.as_str());
    push_str(&mut out, "\n");
    assert(out@ == server_section(*args) + token_line(args.token) + "\n"@ + user_line(args.user)
        + "\n"@ + section@ + "\n"@);
    Ok(out)
}

} // verus!

verus! {

proof fn lemma_section_ok(ps: Seq<ProxyConfig>)
    requires
        proxies_section(ps) is Ok,
    ensures
        forall|i: int| 0 <= i < ps.len() ==> (#[trigger] proxy_problem(ps[i])) is None,
    decreases ps.len(),
{
    if ps.len() > 0 {
        lemma_section_ok(ps.drop_last());
        assert forall|i: int| 0 <= i < ps.len() implies (#[trigger] proxy_problem(ps[i])) is None by {
            if i < ps.len() - 1 {
                assert(ps[i] == ps.drop_last()[i]);
            }
        }
    }
}

/// Law: a configuration is written only for valid launch parameters: a server
/// address, a non-zero port, at least one rule, and every rule named and of a
/// supported type.
pub proof fn law_config_only_for_valid_args(args: StartArgs)
    requires
        frpc_toml(args) is Ok,
    ensures
        args.server_addr@.len() > 0,
        args.server_port != 0,
        args.proxies@.len() > 0,
        forall|i: int| 0 <= i < args.proxies@.len() ==> (#[trigger] args.proxies@[i]).name@.len() > 0
            && supported_proxy_type(args.proxies@[i].proxy_type@),
{
    lemma_section_ok(args.proxies@);
    assert forall|i: int| 0 <= i < args.proxies@.len() implies (#[trigger] args.proxies@[i]).name@.len() > 0
        && supported_proxy_type(args.proxies@[i].proxy_type@) by {
        assert(proxy_problem(args.proxies@[i]) is None);
    }
}

/// Law: an escaped value holds no line break or tab, so a value cannot end its
/// TOML line early.
pub proof fn law_escaped_has_no_line_break(s: Seq<char>)
    ensures
        forall|i: int| 0 <= i < escaped(s).len() ==> #[trigger] escaped(s)[i] != '\n' && escaped(s)[i] != '\r'
            && escaped(s)[i] != '\t',
    decreases s.len(),
{
    if s.len() > 0 {
        law_escaped_has_no_line_break(s.drop_last());
        let prefix = escaped(s.drop_last());
        let tail = escape_char(s.last());
        assert forall|i: int| 0 <= i < escaped(s).len() implies #[trigger] escaped(s)[i] != '\n'
            && escaped(s)[i] != '\r' && escaped(s)[i] != '\t' by {
            if i < prefix.len() {
                assert(escaped(s)[i] == prefix[i]);
            } else {
                assert(escaped(s)[i] == tail[i - prefix.len()]);
            }
        }
    }
}

/// Law: in an escaped value every double quote is preceded by a backslash, so a
/// value cannot close its TOML string early.
pub proof fn law_escaped_quotes(s: Seq<char>)
    ensures
        forall|i: int| 0 <= i < escaped(s).len() && #[trigger] escaped(s)[i] == '"' ==> i > 0 && escaped(s)[i - 1] == '\\',
    decreases s.len(),
{
    if s.len() > 0 {
        law_escaped_quotes(s.drop_last());
        let prefix = escaped(s.drop_last());
        let tail = escape_char(s.last());
        assert forall|i: int| 0 <= i < escaped(s).len() && #[trigger] escaped(s)[i] == '"' implies i > 0
            && escaped(s)[i - 1] == '\\' by {
            if i < prefix.len() {
                assert(escaped(s)[i] == prefix[i]);
                assert(escaped(s)[i - 1] == prefix[i - 1]);
            } else {
                assert(escaped(s)[i] == tail[i - prefix.len()]);
                assert(escaped(s)[i - 1] == tail[i - 1 - prefix.len()]);
            }
        }
    }
}

} // verus!

verus! {

/// Whether TOML forbids the character unescaped inside a basic string: the
/// control characters other than tab (U+0000 to U+0008, U+000A to U+001F,
/// U+007F).
pub open spec fn toml_control(c: char) -> bool {
    let n = c as int;
    (n < 0x20 && n != 0x09) || n == 0x7f
}

/// The character written by a TOML escape `\x` other than `\u` and `\U`.
pub open spec fn toml_simple_escape(x: char) -> Option<char> {
    if x == 'b' {
        Some('\x08')
    } else if x == 't' {
        Some('\t')
    } else if x == 'n' {
        Some('\n')
    } else if x == 'f' {
        Some('\x0c')
    } else if x == 'r' {
        Some('\r')
    } else if x == '"' {
        Some('"')
    } else if x == '\\' {
        Some('\\')
    } else {
        None
    }
}

/// The value of a hexadecimal digit.
pub open spec fn hex_digit_value(c: char) -> Option<int> {
    if '0' <= c && c <= '9' {
        Some(c as int - '0' as int)
    } else if 'a' <= c && c <= 'f' {
        Some(c as int - 'a' as int + 10)
    } else if 'A' <= c && c <= 'F' {
        Some(c as int - 'A' as int + 10)
    } else {
        None
    }
}

/// The number written by a run of hexadecimal digits.
pub open spec fn hex_value(s: Seq<char>) -> Option<int>
    decreases s.len(),
{
    if s.len() == 0 {
        Some(0)
    } else {
        match (hex_value(s.drop_last()), hex_digit_value(s.last())) {
            (Some(a), Some(d)) => Some(a * 16 + d),
            _ => None,
        }
    }
}

/// Whether `n` is a Unicode scalar value (what a `\u` or `\U` escape may name).
pub open spec fn unicode_scalar(n: int) -> bool {
    (0 <= n <= 0xd7ff) || (0xe000 <= n <= 0x10ffff)
}

/// `c` in front of a decoded rest, if the rest decodes.
pub open spec fn prepend(c: char, rest: Option<Seq<char>>) -> Option<Seq<char>> {
    match rest {
        Some(r) => Some(seq![c] + r),
        None => None,
    }
}

/// The value of the text `s` written between the quotes of a TOML basic string,
/// or `None` where TOML rejects it (an unescaped `"`, a forbidden control
/// character, an unknown escape, a `\u`/`\U` escape that names no Unicode
/// scalar value).
pub open spec fn toml_basic_unescape(s: Seq<char>) -> Option<Seq<char>>
    decreases s.len(),
{
    if s.len() == 0 {
        Some(seq![])
    } else if s[0] == '\\' {
        if s.len() < 2 {
            None
        } else if s[1] == 'u' || s[1] == 'U' {
            let k: int = if s[1] == 'u' { 4 } else { 8 };
            if s.len() < 2 + k {
                None
            } else {
                match hex_value(s.subrange(2, 2 + k)) {
                    Some(n) => if unicode_scalar(n) {
                        prepend(n as char, toml_basic_unescape(s.skip(2 + k)))
                    } else {
                        None
                    },
                    None => None,
                }
            }
        } else {
            match toml_simple_escape(s[1]) {
                Some(d) => prepend(d, toml_basic_unescape(s.skip(2))),
                None => None,
            }
        }
    } else if s[0] == '"' || toml_control(s[0]) {
        None
    } else {
        prepend(s[0], toml_basic_unescape(s.drop_first()))
    }
}

/// `s` with each carriage return, line feed and tab turned into a space.
pub open spec fn blank_controls(s: Seq<char>) -> Seq<char> {
    s.map_values(|c: char| if c == '\r' || c == '\n' || c == '\t' { ' ' } else { c })
}

proof fn lemma_escaped_front(s: Seq<char>)
    requires
        s.len() > 0,
    ensures
        escaped(s) == escape_char(s[0]) + escaped(s.drop_first()),
    decreases s.len(),
{
    if s.len() == 1 {
        assert(s.drop_last() =~= Seq::<char>::empty());
        assert(s.drop_first() =~= Seq::<char>::empty());
        assert(escaped(s.drop_first()) == Seq::<char>::empty());
        assert(escape_char(s[0]) + Seq::<char>::empty() =~= escape_char(s[0]));
    } else {
        let d = s.drop_last();
        lemma_escaped_front(d);
        assert(d[0] == s[0]);
        assert(d.drop_first() =~= s.drop_first().drop_last());
        assert(s.drop_first().last() == s.last());
        assert(escaped(s.drop_first()) == escaped(s.drop_first().drop_last()) + escape_char(s.last()));
        assert(escape_char(s[0]) + escaped(d.drop_first()) + escape_char(s.last()) =~= escape_char(s[0])
            + (escaped(d.drop_first()) + escape_char(s.last())));
    }
}

/// Law: an escaped value, read back as the content of a TOML basic string,
/// gives the original text with carriage returns, line feeds and tabs turned
/// into spaces. Other control characters are written as they are, and TOML
/// rejects those, so the law is stated for texts without them.
pub proof fn law_escape_round_trip(s: Seq<char>)
    requires
        forall|i: int| 0 <= i < s.len() ==> !toml_control(#[trigger] s[i]) || s[i] == '\n' || s[i] == '\r',
    ensures
        toml_basic_unescape(escaped(s)) == Some(blank_controls(s)),
    decreases s.len(),
{
    if s.len() == 0 {
        assert(escaped(s) == Seq::<char>::empty());
        assert(blank_controls(s) =~= Seq::<char>::empty());
    } else {
        let c = s[0];
        let t = s.drop_first();
        assert forall|i: int| 0 <= i < t.len() implies !toml_control(#[trigger] t[i]) || t[i] == '\n'
            || t[i] == '\r' by {
            assert(t[i] == s[i + 1]);
        }
        lemma_escaped_front(s);
        law_escape_round_trip(t);
        let rest = escaped(t);
        let e = escape_char(c) + rest;
        assert(blank_controls(s) =~= seq![blank_controls(s)[0]] + blank_controls(t));
        if c == '\\' || c == '"' {
            assert(e.skip(2) =~= rest);
        } else {
            assert(e.drop_first() =~= rest);
        }
    }
}

} // verus!

verus! {

/// Whether `line` stands in `t` as a whole line: right after a line break, and
/// ending with its own.
pub open spec fn has_line(t: Seq<char>, line: Seq<char>) -> bool {
    exists|k: int|
        0 < k && k + line.len() <= t.len() && t[k - 1] == '\n' && #[trigger] t.subrange(k, k + line.len())
            == line
}

/// Law: a written configuration logs in as given: it holds the line
/// `auth.token = "<token>"` whenever a token is given, and the line
/// `user = "<user>"` whenever a user is given, each independently of the other.
pub proof fn law_login_lines(args: StartArgs)
    ensures
        match frpc_toml(args) {
            Ok(t) => {
                &&& (args.token matches Some(tok) ==> has_line(t, "auth.token = \""@ + escaped(tok@) + "\"\n"@))
                &&& (args.user matches Some(u) ==> has_line(t, "user = \""@ + escaped(u@) + "\"\n"@))
            },
            Err(_) => true,
        },
{
    match frpc_toml(args) {
        Ok(t) => {
            let sec = proxies_section(args.proxies@)->Ok_0;
            let a = server_section(args);
            let tl = token_line(args.token);
            let ul = user_line(args.user);
            let tail = "\n"@ + sec + "\n"@;
            assert(t == a + tl + "\n"@ + ul + tail);
            let head = "\nloginFailExit = false\ntransport.dialServerTimeout = 30\ntransport.heartbeatInterval = 30\ntransport.heartbeatTimeout = 90\nwebServer.addr = \"127.0.0.1\"\nwebServer.port = 7400\nwebServer.user = \"admin\"\nwebServer.password = \"admin\"\n"@;
            reveal_strlit("\nloginFailExit = false\ntransport.dialServerTimeout = 30\ntransport.heartbeatInterval = 30\ntransport.heartbeatTimeout = 90\nwebServer.addr = \"127.0.0.1\"\nwebServer.port = 7400\nwebServer.user = \"admin\"\nwebServer.password = \"admin\"\n");
            reveal_strlit("\n");
            assert(head.last() == '\n');
            assert(a.last() == head.last());
            assert(a.last() == '\n');
            if args.token is Some {
                let k = a.len() as int;
                assert(t =~= a + tl + ("\n"@ + ul + tail));
                assert(t[k - 1] == a[k - 1]);
                assert(t.subrange(k, k + tl.len()) =~= tl);
            }
            if args.user is Some {
                let b = a + tl + "\n"@;
                let k = b.len() as int;
                assert(t =~= b + ul + tail);
                assert(b[k - 1] == '\n');
                assert(t[k - 1] == b[k - 1]);
                assert(t.subrange(k, k + ul.len()) =~= ul);
            }
        },
        Err(_) => {},
    }
}

/// Where the block of rule `i` stands in the proxy section.
proof fn lemma_block_in_section(ps: Seq<ProxyConfig>, i: int)
    requires
        proxies_section(ps) is Ok,
        0 <= i < ps.len(),
    ensures
        ({
            let sec = proxies_section(ps)->Ok_0;
            exists|k: int|
                0 <= k && k + proxy_block(ps[i]).len() <= sec.len() && (k == 0 || sec[k - 1] == '\n')
                    && #[trigger] sec.subrange(k, k + proxy_block(ps[i]).len()) == proxy_block(ps[i])
        }),
    decreases ps.len(),
{
    let n = ps.len() - 1;
    let prev = proxies_section(ps.drop_last())->Ok_0;
    let b = proxy_block(ps.last());
    let sec = prev + b;
    assert(proxies_section(ps) == Ok::<Seq<char>, Seq<char>>(sec));
    if i == n {
        let k = prev.len() as int;
        assert(ps.last() == ps[i]);
        assert(sec.subrange(k, k + b.len()) =~= b);
        if k > 0 {
            lemma_section_ends_with_break(ps.drop_last());
            assert(sec[k - 1] == prev[k - 1]);
        }
        let s2 = proxies_section(ps)->Ok_0;
        assert(s2.subrange(k, k + proxy_block(ps[i]).len()) == proxy_block(ps[i]));
    } else {
        assert(ps.drop_last()[i] == ps[i]);
        lemma_block_in_section(ps.drop_last(), i);
        let bi = proxy_block(ps[i]);
        let k = choose|k: int|
            0 <= k && k + bi.len() <= prev.len() && (k == 0 || prev[k - 1] == '\n')
                && #[trigger] prev.subrange(k, k + bi.len()) == bi;
        assert(sec.subrange(k, k + bi.len()) =~= prev.subrange(k, k + bi.len()));
        if k > 0 {
            assert(sec[k - 1] == prev[k - 1]);
        }
        let s2 = proxies_section(ps)->Ok_0;
        assert(s2.subrange(k, k + proxy_block(ps[i]).len()) == proxy_block(ps[i]));
    }
}

/// A non-empty proxy section ends with a line break.
proof fn lemma_section_ends_with_break(ps: Seq<ProxyConfig>)
    requires
        proxies_section(ps) is Ok,
    ensures
        proxies_section(ps)->Ok_0.len() == 0 || proxies_section(ps)->Ok_0.last() == '\n',
{
    if ps.len() > 0 {
        reveal_strlit("\n\n");
        let b = proxy_block(ps.last());
        assert(b.last() == "\n\n"@.last());
    }
}

/// Law: a written configuration carries every rule, in full: for each rule the
/// lines `[[proxies]]`, `name = "…"`, `type = "…"`, `localIP = "…"`,
/// `localPort = …` and `remotePort = …`, with its own values, one after the
/// other.
pub proof fn law_config_lists_rules(args: StartArgs, i: int)
    requires
        0 <= i < args.proxies@.len(),
    ensures
        match frpc_toml(args) {
            Ok(t) => {
                let p = args.proxies@[i];
                has_line(
                    t,
                    "[[proxies]]\nname = \""@ + escaped(p.name@) + "\"\ntype = \""@ + escaped(p.proxy_type@)
                        + "\"\nlocalIP = \""@ + escaped(p.local_ip@) + "\"\nlocalPort = "@ + decimal(
                        p.local_port as nat,
                    ) + "\nremotePort = "@ + decimal(p.remote_port as nat) + "\n\n"@,
                )
            },
            Err(_) => true,
        },
{
    match frpc_toml(args) {
        Ok(t) => {
            let sec = proxies_section(args.proxies@)->Ok_0;
            let head = server_section(args) + token_line(args.token) + "\n"@ + user_line(args.user) + "\n"@;
            reveal_strlit("\n");
            assert(head.last() == '\n');
            assert(t =~= head + sec + "\n"@);
            lemma_block_in_section(args.proxies@, i);
            let bi = proxy_block(args.proxies@[i]);
            let k = choose|k: int|
                0 <= k && k + bi.len() <= sec.len() && (k == 0 || sec[k - 1] == '\n')
                    && #[trigger] sec.subrange(k, k + bi.len()) == bi;
            let m = head.len() + k;
            assert(t.subrange(m, m + bi.len()) =~= sec.subrange(k, k + bi.len()));
            if k == 0 {
                assert(t[m - 1] == head[head.len() - 1]);
            } else {
                assert(t[m - 1] == sec[k - 1]);
            }
            assert(t.subrange(m, m + bi.len()) == bi);
        },
        Err(_) => {},
    }
}

/// Law: a written configuration starts with the server address line and holds
/// the server port line, both with the given values.
pub proof fn law_config_server_lines(args: StartArgs)
    ensures
        match frpc_toml(args) {
            Ok(t) => {
                let first = "serverAddr = \""@ + escaped(args.server_addr@) + "\"\n"@;
                &&& first.len() <= t.len()
                &&& t.take(first.len() as int) == first
                &&& has_line(t, "serverPort = "@ + decimal(args.server_port as nat) + "\n"@)
            },
            Err(_) => true,
        },
{
    match frpc_toml(args) {
        Ok(t) => {
            let first = "serverAddr = \""@ + escaped(args.server_addr@) + "\"\n"@;
            let port_line = "serverPort = "@ + decimal(args.server_port as nat) + "\n"@;
            let long = "\nloginFailExit = false\ntransport.dialServerTimeout = 30\ntransport.heartbeatInterval = 30\ntransport.heartbeatTimeout = 90\nwebServer.addr = \"127.0.0.1\"\nwebServer.port = 7400\nwebServer.user = \"admin\"\nwebServer.password = \"admin\"\n"@;
            reveal_strlit("\nloginFailExit = false\ntransport.dialServerTimeout = 30\ntransport.heartbeatInterval = 30\ntransport.heartbeatTimeout = 90\nwebServer.addr = \"127.0.0.1\"\nwebServer.port = 7400\nwebServer.user = \"admin\"\nwebServer.password = \"admin\"\n");
            reveal_strlit("\"\nserverPort = ");
            reveal_strlit("\"\n");
            reveal_strlit("serverPort = ");
            reveal_strlit("\n");
            let addr_part = "serverAddr = \""@ + escaped(args.server_addr@);
            let rest = long.drop_first() + token_line(args.token) + "\n"@ + user_line(args.user) + "\n"@
                + proxies_section(args.proxies@)->Ok_0 + "\n"@;
            assert("\"\nserverPort = "@ =~= "\"\n"@ + "serverPort = "@);
            assert(long =~= "\n"@ + long.drop_first());
            assert(t =~= first + port_line + rest);
            assert(t.take(first.len() as int) =~= first);
            let k = first.len() as int;
            assert(t.subrange(k, k + port_line.len()) =~= port_line);
            assert(t[k - 1] == first[k - 1]);
        },
        Err(_) => {},
    }
}

} // verus!
