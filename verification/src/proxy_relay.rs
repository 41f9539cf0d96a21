//! The TCP relay between frpc and the user's local services, which counts the
//! bytes in each direction so that throughput can be shown.
//!
//! Every TCP-like rule (tcp, http, https) is relayed: frpc connects to a port
//! that the application opened on 127.0.0.1, and the relay copies bytes to the
//! real local service. UDP rules are not relayed.

use vstd::prelude::*;
use crate::text::{decimal, push_decimal, push_str, str_eq};
use crate::config::{frpc_toml, proxies_section, proxy_problem};
use crate::types::{ProxyConfig, StartArgs};

verus! {

/// The payload of the `frpc://traffic` event.
#[derive(Clone, Debug)]
pub struct TrafficPayload {
    pub total_in_bytes: u64,
    pub total_out_bytes: u64,
    pub in_rate: u64,
    pub out_rate: u64,
    pub connections: i64,
}

impl Default for TrafficPayload {
    /// All zero.
    fn default() -> (r: Self)
        ensures
            r.total_in_bytes == 0 && r.total_out_bytes == 0 && r.in_rate == 0 && r.out_rate == 0
                && r.connections == 0,
    {
        TrafficPayload { total_in_bytes: 0, total_out_bytes: 0, in_rate: 0, out_rate: 0, connections: 0 }
    }
}

/// The counters of one relayed rule: bytes from the local service to frpc
/// (upload, `in`), bytes from frpc to the local service (download, `out`), and
/// open connections.
#[derive(Clone, Debug)]
pub struct RelayCounters {
    pub in_bytes: u64,
    pub out_bytes: u64,
    pub connections: i64,
}

/// The totals seen at the previous sample, from which rates are derived.
#[derive(Clone, Debug)]
pub struct TrafficMeter {
    pub last_in_bytes: u64,
    pub last_out_bytes: u64,
}

/// Sum of the `in` counters.
pub open spec fn total_in(cs: Seq<RelayCounters>) -> int
    decreases cs.len(),
{
    if cs.len() == 0 { 0 } else { total_in(cs.drop_last()) + cs.last().in_bytes }
}

/// Sum of the `out` counters.
pub open spec fn total_out(cs: Seq<RelayCounters>) -> int
    decreases cs.len(),
{
    if cs.len() == 0 { 0 } else { total_out(cs.drop_last()) + cs.last().out_bytes }
}

/// Sum of the open connections.
pub open spec fn total_connections(cs: Seq<RelayCounters>) -> int
    decreases cs.len(),
{
    if cs.len() == 0 { 0 } else { total_connections(cs.drop_last()) + cs.last().connections }
}

/// `a - b`, or 0 when `b > a`.
pub open spec fn saturating_diff(a: int, b: int) -> int {
    if a >= b { a - b } else { 0 }
}

proof fn lemma_totals_monotone(cs: Seq<RelayCounters>, k: int)
    requires
        0 <= k <= cs.len(),
        forall|i: int| 0 <= i < cs.len() ==> (#[trigger] cs[i]).connections >= 0,
    ensures
        0 <= total_in(cs.take(k)) <= total_in(cs),
        0 <= total_out(cs.take(k)) <= total_out(cs),
        0 <= total_connections(cs.take(k)) <= total_connections(cs),
    decreases cs.len(),
{
    if k < cs.len() {
        lemma_totals_monotone(cs.drop_last(), k);
        assert(cs.drop_last().take(k) == cs.take(k));
    } else {
        assert(cs.take(k) == cs);
    }
    if cs.len() > 0 {
        lemma_totals_monotone(cs.drop_last(), cs.len() - 1);
        assert(cs.drop_last().take(cs.len() - 1) == cs.drop_last());
    }
}

/// Takes one traffic sample: sums the counters of all relayed rules, derives
/// the rates as the growth since the previous sample (0 if the totals went
/// down), and remembers the totals for the next sample.
pub fn sample(meter: &mut TrafficMeter, counters: &Vec<RelayCounters>) -> (r: TrafficPayload)
    requires
        forall|i: int| 0 <= i < counters@.len() ==> (#[trigger] counters@[i]).connections >= 0,
        total_in(counters@) <= u64::MAX,
        total_out(counters@) <= u64::MAX,
        total_connections(counters@) <= i64::MAX,
    ensures
        r.total_in_bytes == total_in(counters@),
        r.total_out_bytes == total_out(counters@),
        r.connections == total_connections(counters@),
        r.in_rate == saturating_diff(total_in(counters@), old(meter).last_in_bytes as int),
        r.out_rate == saturating_diff(total_out(counters@), old(meter).last_out_bytes as int),
        final(meter).last_in_bytes == r.total_in_bytes,
        final(meter).last_out_bytes == r.total_out_bytes,
{
    let mut sum_in: u64 = 0;
    let mut sum_out: u64 = 0;
    let mut conns: i64 = 0;
    let mut i: usize = 0;
    let ghost cs = counters@;
    assert(cs.take(0) == Seq::<RelayCounters>::empty());
    while i < counters.len()
        invariant
            0 <= i <= cs.len(),
            cs == counters@,
            forall|j: int| 0 <= j < cs.len() ==> (#[trigger] cs[j]).connections >= 0,
            total_in(cs) <= u64::MAX,
            total_out(cs) <= u64::MAX,
            total_connections(cs) <= i64::MAX,
            sum_in == total_in(cs.take(i as int)),
            sum_out == total_out(cs.take(i as int)),
            conns == total_connections(cs.take(i as int)),
        decreases cs.len() - i,
    {
        proof {
            lemma_totals_monotone(cs, i + 1);
            assert(cs.take(i + 1).drop_last() == cs.take(i as int));
        }
        sum_in = sum_in + counters[i].in_bytes;
        sum_out = sum_out + counters[i].out_bytes;
        conns = conns + counters[i].connections;
        i = i + 1;
    }
    assert(cs.take(cs.len() as int) == cs);
    let in_rate = sum_in.saturating_sub(meter.last_in_bytes);
    let out_rate = sum_out.saturating_sub(meter.last_out_bytes);
    meter.last_in_bytes = sum_in;
    meter.last_out_bytes = sum_out;
    TrafficPayload { total_in_bytes: sum_in, total_out_bytes: sum_out, in_rate, out_rate, connections: conns }
}

/// Law: with counters that only grow, the rates of consecutive samples add up
/// to the growth of the totals between them.
pub proof fn law_rates_add_up(first: Seq<RelayCounters>, second: Seq<RelayCounters>, last_in: u64)
    requires
        last_in <= total_in(first) <= total_in(second),
    ensures
        saturating_diff(total_in(first), last_in as int) + saturating_diff(total_in(second), total_in(first))
            == total_in(second) - last_in,
{
}

} // verus!

verus! {

/// Whether rules of this type are relayed (TCP-like: tcp, http, https).
pub open spec fn relayed_type(t: Seq<char>) -> bool {
    t == "tcp"@ || t == "http"@ || t == "https"@
}

/// A relayed rule: its name and the real local service (`ip:port`) that the
/// relay forwards to.
#[derive(Clone, Debug)]
pub struct RelayTarget {
    pub name: String,
    pub upstream: String,
}

/// The fields of a rule, as text and numbers.
pub open spec fn rule_view(p: ProxyConfig) -> (Seq<char>, Seq<char>, Seq<char>, u16, u16) {
    (p.name@, p.proxy_type@, p.local_ip@, p.local_port, p.remote_port)
}

/// Whether rule `p` is relayed, given the port opened for it (`None` when no
/// port could be opened, or none was tried).
pub open spec fn is_relayed(p: ProxyConfig, port: Option<u16>) -> bool {
    relayed_type(p.proxy_type@) && port is Some
}

/// The rule as handed to frpc: a relayed rule points at the relay port on
/// 127.0.0.1, any other rule is unchanged.
pub open spec fn rewritten_rule(p: ProxyConfig, port: Option<u16>) -> (Seq<char>, Seq<char>, Seq<char>, u16, u16) {
    if is_relayed(p, port) {
        (p.name@, p.proxy_type@, "127.0.0.1"@, port->0, p.remote_port)
    } else {
        rule_view(p)
    }
}

/// The relay targets, in rule order: name and original `ip:port` of each
/// relayed rule.
pub open spec fn relay_targets(ps: Seq<ProxyConfig>, ports: Seq<Option<u16>>) -> Seq<(Seq<char>, Seq<char>)>
    decreases ps.len(),
{
    if ps.len() == 0 {
        seq![]
    } else {
        let rest = relay_targets(ps.drop_last(), ports.take(ps.len() - 1));
        let p = ps.last();
        if is_relayed(p, ports[ps.len() - 1]) {
            rest.push((p.name@, p.local_ip@ + ":"@ + decimal(p.local_port as nat)))
        } else {
            rest
        }
    }
}

fn copy_text(o: &Option<String>) -> (r: Option<String>)
    ensures
        r == *o,
{
    match o {
        Some(s) => Some(s.clone()),
        None => None,
    }
}

fn is_relayed_type(t: &str) -> (r: bool)
    ensures
        r == relayed_type(t@),
{
    str_eq(t, "tcp") || str_eq(t, "http") || str_eq(t, "https")
}

/// Rewrites the launch parameters for the relay: each TCP-like rule for which a
/// relay port was opened now points at `127.0.0.1:<port>`; UDP rules and rules
/// without a port are kept. Also returns the relay targets (name and original
/// `ip:port`), in rule order.
pub fn relay_rewrite(args: &StartArgs, relay_ports: &Vec<Option<u16>>) -> (r: (StartArgs, Vec<RelayTarget>))
    requires
        relay_ports@.len() == args.proxies@.len(),
    ensures
        r.0.provider_id == args.provider_id,
        r.0.custom_name == args.custom_name,
        r.0.server_addr == args.server_addr,
        r.0.server_port == args.server_port,
        r.0.token == args.token,
        r.0.user == args.user,
        r.0.proxies@.len() == args.proxies@.len(),
        forall|i: int| 0 <= i < args.proxies@.len() ==> rule_view(#[trigger] r.0.proxies@[i])
            == rewritten_rule(args.proxies@[i], relay_ports@[i]),
        r.1@.map_values(|t: RelayTarget| (t.name@, t.upstream@)) == relay_targets(args.proxies@, relay_ports@),
{
    let ghost ps = args.proxies@;
    let ghost ports = relay_ports@;
    let mut proxies: Vec<ProxyConfig> = Vec::new();
    let mut targets: Vec<RelayTarget> = Vec::new();
    let mut i: usize = 0;
    assert(ps.take(0) == Seq::<ProxyConfig>::empty());
    while i < args.proxies.len()
        invariant
            0 <= i <= ps.len(),
            ps == args.proxies@,
            ports == relay_ports@,
            ports.len() == ps.len(),
            proxies@.len() == i,
            forall|j: int| 0 <= j < i ==> rule_view(#[trigger] proxies@[j]) == rewritten_rule(ps[j], ports[j]),
            targets@.map_values(|t: RelayTarget| (t.name@, t.upstream@)) == relay_targets(ps.take(i as int), ports.take(i as int)),
        decreases ps.len() - i,
    {
        let p = &args.proxies[i];
        let ghost before = targets@.map_values(|t: RelayTarget| (t.name@, t.upstream@));
        assert(ps.take(i + 1).drop_last() == ps.take(i as int));
        assert(ports.take(i + 1).take(i as int) == ports.take(i as int));
        assert(ps.take(i + 1).last() == ps[i as int]);
        assert(ports.take(i + 1)[i as int] == ports[i as int]);
        let relayed_port = if is_relayed_type(p.proxy_type.as_str()) { relay_ports[i] } else { None };
        match relayed_port {
            Some(port) => {
                let mut upstream = p.local_ip.clone();
                push_str(&mut upstream, ":");
                push_decimal(&mut upstream, p.local_port as u64);
                targets.push(RelayTarget { name: p.name.clone(), upstream });
                proxies.push(ProxyConfig {
                    name: p.name.clone(),
                    proxy_type: p.proxy_type.clone(),
                    local_ip: String::from_str("127.0.0.1"),
                    local_port: port,
                    remote_port: p.remote_port,
                });
                assert(targets@.map_values(|t: RelayTarget| (t.name@, t.upstream@)) == before.push(
                    (p.name@, p.local_ip@ + ":"@ + decimal(p.local_port as nat)),
                ));
            },
            None => {
                proxies.push(ProxyConfig {
                    name: p.name.clone(),
                    proxy_type: p.proxy_type.clone(),
                    local_ip: p.local_ip.clone(),
                    local_port: p.local_port,
                    remote_port: p.remote_port,
                });
                assert(targets@.map_values(|t: RelayTarget| (t.name@, t.upstream@)) == before);
            },
        }
        i = i + 1;
    }
    assert(ps.take(ps.len() as int) == ps);
    assert(ports.take(ps.len() as int) == ports);
    let rewritten = StartArgs {
        provider_id: copy_text(&args.provider_id),
        custom_name: copy_text(&args.custom_name),
        server_addr: args.server_addr.clone(),
        server_port: args.server_port,
        token: copy_text(&args.token),
        user: copy_text(&args.user),
        proxies,
    };
    (rewritten, targets)
}

} // verus!

verus! {

proof fn lemma_same_problems(a: Seq<ProxyConfig>, b: Seq<ProxyConfig>)
    requires
        a.len() == b.len(),
        forall|i: int| 0 <= i < a.len() ==> (#[trigger] a[i]).name@ == b[i].name@ && a[i].proxy_type@
            == b[i].proxy_type@,
    ensures
        proxies_section(a) is Err <==> proxies_section(b) is Err,
        proxies_section(a) is Err ==> proxies_section(a) == proxies_section(b),
    decreases a.len(),
{
    if a.len() > 0 {
        lemma_same_problems(a.drop_last(), b.drop_last());
        assert(a.last() == a[a.len() - 1]);
        assert(b.last() == b[b.len() - 1]);
        assert(proxy_problem(a.last()) == proxy_problem(b.last()));
    }
}

/// Law: relaying never changes whether a configuration can be written, nor the
/// reason why not: it keeps every rule's name and type, which are all that is
/// checked.
pub proof fn law_relay_keeps_config_validity(args: StartArgs, out: StartArgs, ports: Seq<Option<u16>>)
    requires
        ports.len() == args.proxies@.len(),
        out.server_addr == args.server_addr,
        out.server_port == args.server_port,
        out.proxies@.len() == args.proxies@.len(),
        forall|i: int| 0 <= i < args.proxies@.len() ==> rule_view(#[trigger] out.proxies@[i])
            == rewritten_rule(args.proxies@[i], ports[i]),
    ensures
        frpc_toml(out) is Ok <==> frpc_toml(args) is Ok,
        frpc_toml(args) is Err ==> frpc_toml(out) == frpc_toml(args),
{
    assert forall|i: int| 0 <= i < args.proxies@.len() implies (#[trigger] out.proxies@[i]).name@
        == args.proxies@[i].name@ && out.proxies@[i].proxy_type@ == args.proxies@[i].proxy_type@ by {
        assert(rule_view(out.proxies@[i]) == rewritten_rule(args.proxies@[i], ports[i]));
    }
    lemma_same_problems(out.proxies@, args.proxies@);
}

} // verus!

verus! {

proof fn lemma_target_listed(ps: Seq<ProxyConfig>, ports: Seq<Option<u16>>, i: int)
    requires
        ports.len() == ps.len(),
        0 <= i < ps.len(),
        is_relayed(ps[i], ports[i]),
    ensures
        relay_targets(ps, ports).contains((ps[i].name@, ps[i].local_ip@ + ":"@ + decimal(ps[i].local_port as nat))),
    decreases ps.len(),
{
    let x = (ps[i].name@, ps[i].local_ip@ + ":"@ + decimal(ps[i].local_port as nat));
    let n = ps.len() - 1;
    let rest = relay_targets(ps.drop_last(), ports.take(n));
    if i == n {
        assert(ps.last() == ps[i]);
        assert(relay_targets(ps, ports) == rest.push(x));
        assert(rest.push(x)[rest.len() as int] == x);
    } else {
        assert(ps.drop_last()[i] == ps[i]);
        assert(ports.take(n)[i] == ports[i]);
        lemma_target_listed(ps.drop_last(), ports.take(n), i);
        let j = choose|j: int| 0 <= j < rest.len() && rest[j] == x;
        if is_relayed(ps.last(), ports[n]) {
            let p = ps.last();
            let y = (p.name@, p.local_ip@ + ":"@ + decimal(p.local_port as nat));
            assert(rest.push(y)[j] == x);
        }
    }
}

/// Law: every TCP-like rule (`tcp`, `http` or `https`) for which a relay port
/// was opened is handed to frpc as that port on 127.0.0.1, keeping its name,
/// type and remote port, and its real `ip:port` is among the relay targets;
/// a UDP rule, or a rule without a port, is handed over unchanged.
pub proof fn law_relay_covers_tcp_like(ps: Seq<ProxyConfig>, ports: Seq<Option<u16>>, i: int)
    requires
        ports.len() == ps.len(),
        0 <= i < ps.len(),
    ensures
        (ps[i].proxy_type@ == "tcp"@ || ps[i].proxy_type@ == "http"@ || ps[i].proxy_type@ == "https"@)
            && ports[i] is Some ==> {
            &&& rewritten_rule(ps[i], ports[i]) == (
                ps[i].name@,
                ps[i].proxy_type@,
                "127.0.0.1"@,
                ports[i]->0,
                ps[i].remote_port,
            )
            &&& relay_targets(ps, ports).contains(
                (ps[i].name@, ps[i].local_ip@ + ":"@ + decimal(ps[i].local_port as nat)),
            )
        },
        ps[i].proxy_type@ == "udp"@ || ports[i] is None ==> rewritten_rule(ps[i], ports[i]) == (
            ps[i].name@,
            ps[i].proxy_type@,
            ps[i].local_ip@,
            ps[i].local_port,
            ps[i].remote_port,
        ),
{
    reveal_strlit("udp");
    reveal_strlit("tcp");
    reveal_strlit("http");
    reveal_strlit("https");
    if ps[i].proxy_type@ == "udp"@ {
        assert(ps[i].proxy_type@[0] == 'u');
        assert(ps[i].proxy_type@.len() == 3);
        assert(!relayed_type(ps[i].proxy_type@));
    }
    if relayed_type(ps[i].proxy_type@) && ports[i] is Some {
        lemma_target_listed(ps, ports, i);
    }
}

/// Law: every relay target comes from a TCP-like rule (`tcp`, `http` or
/// `https`) for which a relay port was opened: it is that rule's name and real
/// `ip:port`.
pub proof fn law_relay_targets_from_tcp_like(ps: Seq<ProxyConfig>, ports: Seq<Option<u16>>, j: int)
    requires
        ports.len() == ps.len(),
        0 <= j < relay_targets(ps, ports).len(),
    ensures
        exists|i: int|
            0 <= i < ps.len() && (ps[i].proxy_type@ == "tcp"@ || ps[i].proxy_type@ == "http"@
                || ps[i].proxy_type@ == "https"@) && ports[i] is Some && #[trigger] relay_targets(ps, ports)[j]
                == (ps[i].name@, ps[i].local_ip@ + ":"@ + decimal(ps[i].local_port as nat)),
    decreases ps.len(),
{
    let n = ps.len() - 1;
    let rest = relay_targets(ps.drop_last(), ports.take(n));
    if j < rest.len() {
        law_relay_targets_from_tcp_like(ps.drop_last(), ports.take(n), j);
        let i = choose|i: int|
            0 <= i < ps.drop_last().len() && (ps.drop_last()[i].proxy_type@ == "tcp"@
                || ps.drop_last()[i].proxy_type@ == "http"@ || ps.drop_last()[i].proxy_type@ == "https"@)
                && ports.take(n)[i] is Some && #[trigger] relay_targets(ps.drop_last(), ports.take(n))[j] == (
                ps.drop_last()[i].name@,
                ps.drop_last()[i].local_ip@ + ":"@ + decimal(ps.drop_last()[i].local_port as nat),
            );
        assert(ps.drop_last()[i] == ps[i]);
        assert(ports.take(n)[i] == ports[i]);
        if is_relayed(ps.last(), ports[n]) {
            let p = ps.last();
            assert(rest.push((p.name@, p.local_ip@ + ":"@ + decimal(p.local_port as nat)))[j] == rest[j]);
        }
        assert(relay_targets(ps, ports)[j] == rest[j]);
    } else {
        assert(is_relayed(ps.last(), ports[n]));
        assert(ps.last() == ps[n]);
    }
}

} // verus!
