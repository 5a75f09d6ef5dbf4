//! Decides how traffic leaves the machine (system tunnel, local proxy, or
//! direct) from what the caller observed, and which local ports to probe
//! for a SOCKS proxy.
use vstd::prelude::*;
use crate::text::{begins_with, chars_of, contains, decimal, has, is_space, is_space_exec, lines, lines_of, lines_view, lower_of, lowercase, push_decimal, starts_with, string_of};
use crate::download::{opt_text, texts, push_proxy_args, proxy_args};

verus! {

/// How traffic leaves the machine.
#[derive(Debug, Clone, Copy, PartialEq, Eq, Structural)]
pub enum NetworkMode {
    Direct,
    Proxy,
    Vpn,
}

impl NetworkMode {
    pub open spec fn name(self) -> Seq<char> {
        match self {
            NetworkMode::Direct => "direct"@,
            NetworkMode::Proxy => "proxy"@,
            NetworkMode::Vpn => "vpn"@,
        }
    }

    /// "direct", "proxy" or "vpn".
    pub fn as_str(&self) -> (r: &'static str)
        ensures
            r@ == self.name(),
    {
        match self {
            NetworkMode::Direct => "direct",
            NetworkMode::Proxy => "proxy",
            NetworkMode::Vpn => "vpn",
        }
    }
}

/// An interface listing shows a tunnel: a line starting with "utun" followed,
/// within its next three lines, by an address in 172.19.0.x.
pub open spec fn tunnel_in(ls: Seq<Seq<char>>) -> bool {
    exists|i: int, j: int| 0 <= i && 1 <= j <= 3 && i + j < ls.len() && starts_with(#[trigger] ls[i], "utun"@)
        && contains(#[trigger] ls[i + j], "172.19.0"@)
}

/// Whether the interface listing `ifconfig_output` shows an active tunnel.
pub fn tunnel_active(ifconfig_output: &str) -> (r: bool)
    ensures
        r == tunnel_in(lines_of(ifconfig_output@)),
{
    let text = chars_of(ifconfig_output);
    let ls = lines(&text);
    let ghost lv = lines_view(ls@);
    let mut i: usize = 0;
    while i < ls.len()
        invariant
            lv == lines_view(ls@),
            lv == lines_of(ifconfig_output@),
            i <= ls@.len(),
            forall|a: int, b: int| 0 <= a < i && 1 <= b <= 3 && a + b < lv.len()
                ==> !(starts_with(#[trigger] lv[a], "utun"@) && contains(#[trigger] lv[a + b], "172.19.0"@)),
        decreases ls@.len() - i,
    {
        assert(lv[i as int] == ls@[i as int]@);
        if crate::text::begins_with(&ls[i], "utun") {
            let mut j: usize = 1;
            while j <= 3
                invariant
                    lv == lines_view(ls@),
                    lv == lines_of(ifconfig_output@),
                    i < ls@.len(),
                    1 <= j <= 4,
                    starts_with(lv[i as int], "utun"@),
                    forall|b: int| 1 <= b < j && i + b < lv.len() ==> !contains(#[trigger] lv[i + b], "172.19.0"@),
                decreases 4 - j,
            {
                if j < ls.len() - i {
                    assert(lv[i + j] == ls@[i + j]@);
                    if has(&ls[i + j], "172.19.0") {
                        assert(starts_with(lv[i as int], "utun"@) && contains(lv[i + j], "172.19.0"@));
                        return true;
                    }
                }
                j = j + 1;
            }
        }
        i = i + 1;
    }
    false
}

/// Whether a local proxy engine serves: its process runs and the socket
/// listing `lsof_output` shows a listening socket.
pub fn proxy_listening(process_running: bool, lsof_output: &str) -> (r: bool)
    ensures
        r == (process_running && contains(lsof_output@, "LISTEN"@)),
{
    if !process_running {
        return false;
    }
    let t = chars_of(lsof_output);
    has(&t, "LISTEN")
}

/// The mode, the proxy to use, and the proxy for the external-address check.
#[derive(Debug, Clone)]
pub struct ModeDecision {
    pub mode: NetworkMode,
    pub proxy: Option<String>,
    pub ip_check_proxy: Option<String>,
}

/// A tunnel first; else a listening local proxy; else direct.
pub open spec fn mode_of(tunnel: bool, proxy_serving: bool) -> NetworkMode {
    if tunnel {
        NetworkMode::Vpn
    } else if proxy_serving {
        NetworkMode::Proxy
    } else {
        NetworkMode::Direct
    }
}

/// No proxy under a tunnel; else the caller's proxy, or the detected one.
pub open spec fn proxy_choice(tunnel: bool, user_proxy: Option<Seq<char>>, detected: Option<Seq<char>>) -> Option<Seq<char>> {
    if tunnel {
        None
    } else if user_proxy is Some {
        user_proxy
    } else {
        detected
    }
}

/// Decides the mode and the proxy. In proxy mode the address check goes
/// through the chosen proxy; otherwise it goes direct.
pub fn decide_mode(tunnel: bool, proxy_serving: bool, user_proxy: Option<String>, detected: Option<String>) -> (r: ModeDecision)
    ensures
        r.mode == mode_of(tunnel, proxy_serving),
        opt_text(r.proxy) == proxy_choice(tunnel, opt_text(user_proxy), opt_text(detected)),
        opt_text(r.ip_check_proxy) == (if r.mode == NetworkMode::Proxy { opt_text(r.proxy) } else { None }),
{
    if tunnel {
        return ModeDecision { mode: NetworkMode::Vpn, proxy: None, ip_check_proxy: None };
    }
    let chosen = match user_proxy {
        Some(p) => Some(p),
        None => detected,
    };
    if proxy_serving {
        let again = match &chosen {
            Some(p) => Some(p.clone()),
            None => None,
        };
        ModeDecision { mode: NetworkMode::Proxy, proxy: chosen, ip_check_proxy: again }
    } else {
        ModeDecision { mode: NetworkMode::Direct, proxy: chosen, ip_check_proxy: None }
    }
}

/// With a tunnel present the mode is the tunnel and no proxy is needed,
/// whether or not a local proxy is also listening, and whatever proxy the
/// caller gave or detection found.
pub proof fn tunnel_takes_precedence(proxy_serving: bool, user_proxy: Option<Seq<char>>, detected: Option<Seq<char>>)
    ensures
        mode_of(true, proxy_serving) == NetworkMode::Vpn,
        proxy_choice(true, user_proxy, detected) is None,
{
}

/// Common local SOCKS ports, in the order they are tried.
pub open spec fn common_ports() -> Seq<u16> {
    seq![2080u16, 1080, 7890, 7891, 10808, 10809, 1081, 52838, 52864, 9050, 9150]
}

/// Further ports scanned as a last resort.
pub open spec fn extra_ports() -> Seq<u16> {
    seq![2081u16, 2082, 8080, 8118, 3128, 20170, 20171, 51837]
}

/// `acc` followed by the elements of `xs` that are not yet in it, in order.
pub open spec fn append_new(acc: Seq<u16>, xs: Seq<u16>) -> Seq<u16>
    decreases xs.len(),
{
    if xs.len() == 0 {
        acc
    } else if acc.contains(xs[0]) {
        append_new(acc, xs.drop_first())
    } else {
        append_new(acc.push(xs[0]), xs.drop_first())
    }
}

fn append_new_exec(acc: &mut Vec<u16>, xs: &Vec<u16>)
    ensures
        final(acc)@ == append_new(old(acc)@, xs@),
{
    let mut i: usize = 0;
    assert(xs@.subrange(0, xs@.len() as int) =~= xs@);
    while i < xs.len()
        invariant
            i <= xs@.len(),
            append_new(acc@, xs@.subrange(i as int, xs@.len() as int)) == append_new(old(acc)@, xs@),
        decreases xs@.len() - i,
    {
        let x = xs[i];
        let mut found = false;
        let mut k: usize = 0;
        while k < acc.len()
            invariant
                k <= acc@.len(),
                found == (exists|m: int| 0 <= m < k && acc@[m] == x),
            decreases acc@.len() - k,
        {
            if acc[k] == x {
                found = true;
            }
            k = k + 1;
        }
        assert(found == acc@.contains(x));
        let ghost rest = xs@.subrange(i as int, xs@.len() as int);
        assert(rest.drop_first() =~= xs@.subrange(i + 1, xs@.len() as int));
        if !found {
            acc.push(x);
        }
        i = i + 1;
    }
}

/// The ports to probe for a local SOCKS proxy, in order: those found in proxy
/// configuration files, those a proxy engine listens on, the common ports,
/// then the last-resort ones; each port once.
pub fn probe_order(config_ports: &Vec<u16>, engine_ports: &Vec<u16>) -> (r: Vec<u16>)
    ensures
        r@ == append_new(append_new(append_new(config_ports@, engine_ports@), common_ports()), extra_ports()),
{
    let mut acc = config_ports.clone();
    assert(acc@ == config_ports@);
    append_new_exec(&mut acc, engine_ports);
    let common: Vec<u16> = vec![2080u16, 1080, 7890, 7891, 10808, 10809, 1081, 52838, 52864, 9050, 9150];
    assert(common@ =~= common_ports());
    append_new_exec(&mut acc, &common);
    let extra: Vec<u16> = vec![2081u16, 2082, 8080, 8118, 3128, 20170, 20171, 51837];
    assert(extra@ =~= extra_ports());
    append_new_exec(&mut acc, &extra);
    acc
}

/// The proxy URL for a local SOCKS port; "socks5h" resolves names through the proxy.
pub fn socks_url(port: u16) -> (r: String)
    ensures
        r@ == "socks5h://127.0.0.1:"@ + decimal(port as nat),
{
    let mut s = "socks5h://127.0.0.1:".to_string();
    push_decimal(&mut s, port as u64);
    s
}

/// Network settings handed to a backend.
#[derive(Debug, Clone)]
pub struct NetworkConfig {
    pub proxy: Option<String>,
    pub timeout: Option<u32>,
}

impl NetworkConfig {
    /// No proxy, 30 s timeout.
    pub fn new() -> (r: Self)
        ensures
            r.proxy is None,
            r.timeout == Some(30u32),
    {
        NetworkConfig { proxy: None, timeout: Some(30) }
    }
}

/// `--proxy URL` when a proxy is configured.
pub fn get_proxy_args(config: &NetworkConfig) -> (r: Vec<String>)
    ensures
        texts(r@) == proxy_args(opt_text(config.proxy)),
{
    let mut a: Vec<String> = Vec::new();
    assert(texts(a@) =~= seq![]);
    push_proxy_args(&mut a, &config.proxy);
    a
}

/// `--socket-timeout N` when a timeout is configured.
pub fn get_timeout_args(config: &NetworkConfig) -> (r: Vec<String>)
    ensures
        texts(r@) == match config.timeout {
            Some(t) => seq!["--socket-timeout"@, decimal(t as nat)],
            None => seq![],
        },
{
    let mut a: Vec<String> = Vec::new();
    match config.timeout {
        Some(t) => {
            a.push("--socket-timeout".to_string());
            let mut n = String::new();
            push_decimal(&mut n, t as u64);
            a.push(n);
        },
        None => {},
    }
    assert(texts(a@) =~= match config.timeout {
        Some(t) => seq!["--socket-timeout"@, decimal(t as nat)],
        None => seq![],
    });
    a
}

/// Network status for display.
#[derive(Debug, Clone)]
pub struct NetworkStatus {
    pub proxy: Option<String>,
    pub mode: String,
    pub external_ip: Option<String>,
    pub proxy_reachable: bool,
    pub proxy_message: Option<String>,
    pub ytdlp_version: Option<String>,
    pub ytdlp_status: String,
    pub ytdlp_hint: Option<String>,
}

/// Number of leading non-space characters of `s`.
pub open spec fn word_len(s: Seq<char>) -> nat
    decreases s.len(),
{
    if s.len() == 0 || is_space(s[0]) { 0 } else { 1 + word_len(s.drop_first()) }
}

/// Number of leading space characters of `s`.
pub open spec fn gap_len(s: Seq<char>) -> nat
    decreases s.len(),
{
    if s.len() > 0 && is_space(s[0]) { 1 + gap_len(s.drop_first()) } else { 0 }
}

proof fn lemma_word_len(s: Seq<char>)
    ensures
        word_len(s) <= s.len(),
    decreases s.len(),
{
    if s.len() > 0 && !is_space(s[0]) {
        lemma_word_len(s.drop_first());
    }
}

proof fn lemma_gap_len(s: Seq<char>)
    ensures
        gap_len(s) <= s.len(),
    decreases s.len(),
{
    if s.len() > 0 && is_space(s[0]) {
        lemma_gap_len(s.drop_first());
    }
}

/// The white-space separated words of `s`, as `str::split_whitespace` gives them.
pub open spec fn words_of(s: Seq<char>) -> Seq<Seq<char>>
    decreases s.len(),
{
    let g = gap_len(s) as int;
    if g >= s.len() {
        seq![]
    } else {
        let t = s.subrange(g, s.len() as int);
        let w = word_len(t) as int;
        if w == 0 || w > t.len() {
            seq![]
        } else {
            seq![t.subrange(0, w)] + words_of(t.subrange(w, t.len() as int))
        }
    }
}

/// Splits `s` into its white-space separated words.
pub fn words(s: &Vec<char>) -> (r: Vec<Vec<char>>)
    ensures
        lines_view(r@) == words_of(s@),
{
    let mut out: Vec<Vec<char>> = Vec::new();
    let mut i: usize = 0;
    assert(s@.subrange(0, s@.len() as int) =~= s@);
    while i < s.len()
        invariant
            i <= s@.len(),
            lines_view(out@) + words_of(s@.subrange(i as int, s@.len() as int)) == words_of(s@),
        decreases s@.len() - i,
    {
        let ghost rest = s@.subrange(i as int, s@.len() as int);
        let mut g: usize = i;
        while g < s.len() && is_space_exec(s[g])
            invariant
                i <= g <= s@.len(),
                rest == s@.subrange(i as int, s@.len() as int),
                gap_len(rest) == (g - i) + gap_len(s@.subrange(g as int, s@.len() as int)),
            decreases s@.len() - g,
        {
            assert(s@.subrange(g as int, s@.len() as int).drop_first() =~= s@.subrange(g + 1, s@.len() as int));
            g = g + 1;
        }
        assert(gap_len(s@.subrange(g as int, s@.len() as int)) == 0);
        if g == s.len() {
            assert(s@.subrange(g as int, s@.len() as int) =~= Seq::<char>::empty());
            assert(words_of(rest) =~= seq![]);
            i = g;
        } else {
            let ghost t = s@.subrange(g as int, s@.len() as int);
            assert(rest.subrange((g - i) as int, rest.len() as int) =~= t);
            let mut e: usize = g;
            while e < s.len() && !is_space_exec(s[e])
                invariant
                    g <= e <= s@.len(),
                    t == s@.subrange(g as int, s@.len() as int),
                    word_len(t) == (e - g) + word_len(s@.subrange(e as int, s@.len() as int)),
                decreases s@.len() - e,
            {
                assert(s@.subrange(e as int, s@.len() as int).drop_first() =~= s@.subrange(e + 1, s@.len() as int));
                e = e + 1;
            }
            assert(word_len(s@.subrange(e as int, s@.len() as int)) == 0);
            assert(e > g);
            let mut w: Vec<char> = Vec::new();
            let mut k: usize = g;
            while k < e
                invariant
                    g <= k <= e <= s@.len(),
                    w@ == s@.subrange(g as int, k as int),
                decreases e - k,
            {
                w.push(s[k]);
                k = k + 1;
                assert(w@ =~= s@.subrange(g as int, k as int));
            }
            assert(w@ =~= t.subrange(0, (e - g) as int));
            assert(t.subrange((e - g) as int, t.len() as int) =~= s@.subrange(e as int, s@.len() as int));
            let ghost before = out@;
            out.push(w);
            assert(lines_view(out@) =~= lines_view(before) + seq![t.subrange(0, (e - g) as int)]);
            i = e;
        }
    }
    assert(s@.subrange(i as int, s@.len() as int) =~= Seq::<char>::empty());
    assert(lines_view(out@) =~= words_of(s@));
    out
}

/// `s` without any number of trailing "(LISTEN)".
pub open spec fn strip_listen(s: Seq<char>) -> Seq<char>
    decreases s.len(),
{
    if s.len() >= 8 && s.subrange(s.len() - 8, s.len() as int) == "(LISTEN)"@ {
        strip_listen(s.subrange(0, s.len() - 8))
    } else {
        s
    }
}

/// What `str::parse::<u16>` accepts: an optional '+', then decimal digits
/// whose value fits in 16 bits.
pub open spec fn u16_of(s: Seq<char>) -> Option<u16> {
    let d = if s.len() > 0 && s[0] == '+' { s.drop_first() } else { s };
    if d.len() == 0 || !crate::progress::all_digits(d) || crate::progress::number(d) > 65535 {
        None
    } else {
        Some(crate::progress::number(d) as u16)
    }
}

/// Position just after the last ':' of `s`, 0 if none.
pub open spec fn after_colon(s: Seq<char>) -> int
    decreases s.len(),
{
    if s.len() == 0 { 0 } else if s.last() == ':' { s.len() as int } else { after_colon(s.drop_last()) }
}

/// A word naming a local listening address.
pub open spec fn local_address(w: Seq<char>) -> bool {
    contains(w, ":"@) && (starts_with(w, "127.0.0.1:"@) || starts_with(w, "*:"@) || starts_with(w, "localhost:"@))
}

/// The port of the first local address among the words, if it reads as one.
pub open spec fn port_in_words(ws: Seq<Seq<char>>) -> Option<u16>
    decreases ws.len(),
{
    if ws.len() == 0 {
        None
    } else if local_address(ws[0]) {
        u16_of(strip_listen(ws[0].subrange(after_colon(ws[0]), ws[0].len() as int)))
    } else {
        port_in_words(ws.drop_first())
    }
}

proof fn lemma_number_grows(s: Seq<char>, k: int)
    requires
        0 <= k <= s.len(),
    ensures
        crate::progress::number(s) >= crate::progress::number(s.subrange(0, k)),
    decreases s.len() - k,
{
    if k < s.len() {
        lemma_number_grows(s.drop_last(), k);
        assert(s.drop_last().subrange(0, k) =~= s.subrange(0, k));
    } else {
        assert(s.subrange(0, k) =~= s);
    }
}

/// Reads a port number as `str::parse::<u16>` does.
pub fn parse_u16(s: &Vec<char>) -> (r: Option<u16>)
    ensures
        r == u16_of(s@),
{
    let start: usize = if s.len() > 0 && s[0] == '+' { 1 } else { 0 };
    let ghost d = if s@.len() > 0 && s@[0] == '+' { s@.drop_first() } else { s@ };
    assert(d =~= s@.subrange(start as int, s@.len() as int));
    if start == s.len() {
        return None;
    }
    let mut n: u64 = 0;
    let mut i: usize = start;
    while i < s.len()
        invariant
            start <= i <= s@.len(),
            d == s@.subrange(start as int, s@.len() as int),
            d == (if s@.len() > 0 && s@[0] == '+' { s@.drop_first() } else { s@ }),
            crate::progress::all_digits(s@.subrange(start as int, i as int)),
            n == crate::progress::number(s@.subrange(start as int, i as int)),
            n <= 65535,
        decreases s@.len() - i,
    {
        let c = s[i];
        if !('0' <= c && c <= '9') {
            assert(d[i - start] == c);
            assert(!crate::progress::is_digit(d[i - start]));
            assert(!crate::progress::all_digits(d));
            return None;
        }
        let v = (c as u32 - '0' as u32) as u64;
        assert(s@.subrange(start as int, i + 1).drop_last() =~= s@.subrange(start as int, i as int));
        assert(s@.subrange(start as int, i + 1).last() == c);
        if n * 10 + v > 65535 {
            proof {
                lemma_number_grows(d, (i + 1 - start) as int);
                assert(d.subrange(0, (i + 1 - start) as int) =~= s@.subrange(start as int, i + 1));
                assert(crate::progress::number(s@.subrange(start as int, i + 1)) == n * 10 + v);
                assert(crate::progress::number(d) > 65535);
            }
            return None;
        }
        n = n * 10 + v;
        i = i + 1;
        assert(crate::progress::all_digits(s@.subrange(start as int, i as int))) by {
            assert forall|j: int| 0 <= j < s@.subrange(start as int, i as int).len() implies
                crate::progress::is_digit(#[trigger] s@.subrange(start as int, i as int)[j]) by {
                if j < i - 1 - start {
                    assert(s@.subrange(start as int, i as int)[j] == s@.subrange(start as int, i - 1)[j]);
                }
            }
        }
    }
    Some(n as u16)
}

fn strip_listen_exec(v: &Vec<char>) -> (r: Vec<char>)
    ensures
        r@ == strip_listen(v@),
{
    let pat = chars_of("(LISTEN)");
    let mut end: usize = v.len();
    assert(v@.subrange(0, v@.len() as int) =~= v@);
    loop
        invariant
            pat@ == "(LISTEN)"@,
            end <= v@.len(),
            strip_listen(v@) == strip_listen(v@.subrange(0, end as int)),
        decreases end,
    {
        proof { reveal_strlit("(LISTEN)"); }
        let prefix = crate::text::copy_prefix(v, end);
        if end >= 8 && crate::text::occurs_at_exec(&prefix, &pat, end - 8) {
            assert(prefix@.subrange(end - 8, end as int) == "(LISTEN)"@);
            assert(prefix@.subrange(0, end - 8) =~= v@.subrange(0, end - 8));
            end = end - 8;
        } else {
            proof {
                if end >= 8 {
                    assert(!crate::text::occurs_at(prefix@, pat@, end - 8));
                }
            }
            return prefix;
        }
    }
}

fn after_colon_exec(v: &Vec<char>) -> (r: usize)
    ensures
        r as int == after_colon(v@),
        r <= v@.len(),
{
    let mut j: usize = v.len();
    assert(v@.subrange(0, v@.len() as int) =~= v@);
    while j > 0 && v[j - 1] != ':'
        invariant
            j <= v@.len(),
            after_colon(v@) == after_colon(v@.subrange(0, j as int)),
        decreases j,
    {
        assert(v@.subrange(0, j as int).drop_last() =~= v@.subrange(0, j - 1));
        j = j - 1;
    }
    j
}

/// The port of the first local listening address in a socket-listing line,
/// e.g. "127.0.0.1:2080 (LISTEN)".
pub fn extract_port_from_lsof_line(line: &str) -> (r: Option<u16>)
    ensures
        r == port_in_words(words_of(line@)),
{
    let c = chars_of(line);
    let ws = words(&c);
    let ghost wv = lines_view(ws@);
    let mut i: usize = 0;
    assert(wv.subrange(0, wv.len() as int) =~= wv);
    while i < ws.len()
        invariant
            wv == lines_view(ws@),
            wv == words_of(line@),
            i <= ws@.len(),
            port_in_words(wv) == port_in_words(wv.subrange(i as int, wv.len() as int)),
        decreases ws@.len() - i,
    {
        let w = &ws[i];
        assert(wv[i as int] == w@);
        let ghost tail = wv.subrange(i as int, wv.len() as int);
        assert(tail[0] == w@);
        assert(tail.drop_first() =~= wv.subrange(i + 1, wv.len() as int));
        if crate::text::has(w, ":") && (begins_with(w, "127.0.0.1:") || begins_with(w, "*:") || begins_with(w, "localhost:")) {
            let k = after_colon_exec(w);
            let tailw = crate::text::copy_suffix(w, k);
            let stripped = strip_listen_exec(&tailw);
            return parse_u16(&stripped);
        }
        i = i + 1;
    }
    assert(wv.subrange(i as int, wv.len() as int) =~= Seq::<Seq<char>>::empty());
    None
}

/// A socket-listing line of a proxy engine that listens.
pub open spec fn engine_listen_line(l: Seq<char>) -> bool {
    let low = lower_of(l);
    (contains(low, "sing-box"@) || contains(low, "singbox"@) || contains(low, "xray"@) || contains(low, "v2ray"@))
        && contains(low, "listen"@)
}

/// The ports, in order and each once, read from the engine lines among the first `n`.
pub open spec fn engine_ports_upto(ls: Seq<Seq<char>>, n: int) -> Seq<u16>
    decreases n,
{
    if n <= 0 {
        seq![]
    } else {
        let acc = engine_ports_upto(ls, n - 1);
        if engine_listen_line(ls[n - 1]) {
            match port_in_words(words_of(ls[n - 1])) {
                Some(p) => if acc.contains(p) { acc } else { acc.push(p) },
                None => acc,
            }
        } else {
            acc
        }
    }
}

/// The ports proxy engines listen on, from a socket listing; `None` if there
/// is none.
pub fn engine_ports(lsof_output: &str) -> (r: Option<Vec<u16>>)
    ensures
        match r {
            Some(v) => v@ == engine_ports_upto(lines_of(lsof_output@), lines_of(lsof_output@).len() as int) && v@.len() > 0,
            None => engine_ports_upto(lines_of(lsof_output@), lines_of(lsof_output@).len() as int).len() == 0,
        },
{
    let c = chars_of(lsof_output);
    let ls = lines(&c);
    let ghost lv = lines_view(ls@);
    let mut ports: Vec<u16> = Vec::new();
    let mut i: usize = 0;
    while i < ls.len()
        invariant
            lv == lines_view(ls@),
            lv == lines_of(lsof_output@),
            i <= ls@.len(),
            ports@ == engine_ports_upto(lv, i as int),
        decreases ls@.len() - i,
    {
        assert(lv[i as int] == ls@[i as int]@);
        let line = string_of(&ls[i]);
        let low = lowercase(line.as_str());
        let lc = chars_of(low.as_str());
        if (has(&lc, "sing-box") || has(&lc, "singbox") || has(&lc, "xray") || has(&lc, "v2ray")) && has(&lc, "listen") {
            match extract_port_from_lsof_line(line.as_str()) {
                Some(p) => {
                    let mut found = false;
                    let mut k: usize = 0;
                    while k < ports.len()
                        invariant
                            k <= ports@.len(),
                            found == (exists|m: int| 0 <= m < k && ports@[m] == p),
                        decreases ports@.len() - k,
                    {
                        if ports[k] == p {
                            found = true;
                        }
                        k = k + 1;
                    }
                    assert(found == ports@.contains(p));
                    if !found {
                        ports.push(p);
                    }
                },
                None => {},
            }
        }
        i = i + 1;
    }
    if ports.len() == 0 { None } else { Some(ports) }
}

/// The SOCKS port an inbound of a proxy configuration declares, if any.
pub open spec fn socks_port_of(protocol: Option<String>, port: Option<u64>) -> Option<u16> {
    if protocol matches Some(p) && p@ == "socks"@ && port is Some && port->0 <= 65535 {
        Some(port->0 as u16)
    } else {
        None
    }
}

/// The SOCKS ports declared by the first `n` inbounds, in order.
pub open spec fn socks_ports_upto(v: Seq<crate::backends::Inbound>, n: int) -> Seq<u16>
    decreases n,
{
    if n <= 0 {
        seq![]
    } else {
        match socks_port_of(v[n - 1].protocol, v[n - 1].port) {
            Some(p) => socks_ports_upto(v, n - 1).push(p),
            None => socks_ports_upto(v, n - 1),
        }
    }
}

/// Adds, in order, the SOCKS ports declared by a configuration's inbounds
/// that are not in `ports` yet.
pub fn add_socks_ports(ports: &mut Vec<u16>, inbounds: &Vec<crate::backends::Inbound>)
    ensures
        final(ports)@ == append_new(old(ports)@, socks_ports_upto(inbounds@, inbounds@.len() as int)),
{
    let mut found: Vec<u16> = Vec::new();
    let mut i: usize = 0;
    while i < inbounds.len()
        invariant
            i <= inbounds@.len(),
            found@ == socks_ports_upto(inbounds@, i as int),
        decreases inbounds@.len() - i,
    {
        let b = &inbounds[i];
        let socks = match &b.protocol {
            Some(p) => crate::download::same_text(p.as_str(), "socks"),
            None => false,
        };
        match b.port {
            Some(x) => {
                if socks && x <= 65535 {
                    found.push(x as u16);
                }
            },
            None => {},
        }
        i = i + 1;
    }
    append_new_exec(ports, &found);
}

/// `s` with every occurrence of `p` removed, scanning left to right, as
/// `str::replace(p, "")` does for a non-empty `p`.
pub open spec fn remove_all(s: Seq<char>, p: Seq<char>) -> Seq<char>
    decreases s.len(),
{
    if s.len() == 0 || p.len() == 0 {
        s
    } else if crate::text::occurs_at(s, p, 0) {
        remove_all(s.subrange(p.len() as int, s.len() as int), p)
    } else {
        seq![s[0]] + remove_all(s.drop_first(), p)
    }
}

fn remove_all_exec(s: &Vec<char>, p: &str) -> (r: Vec<char>)
    ensures
        r@ == remove_all(s@, p@),
{
    let pc = chars_of(p);
    if pc.len() == 0 {
        return crate::text::copy_suffix(s, 0);
    }
    let mut out: Vec<char> = Vec::new();
    let mut i: usize = 0;
    assert(s@.subrange(0, s@.len() as int) =~= s@);
    while i < s.len()
        invariant
            pc@ == p@,
            pc@.len() > 0,
            i <= s@.len(),
            out@ + remove_all(s@.subrange(i as int, s@.len() as int), p@) == remove_all(s@, p@),
        decreases s@.len() - i,
    {
        let ghost rest = s@.subrange(i as int, s@.len() as int);
        if crate::text::occurs_at_exec(s, &pc, i) {
            assert(crate::text::occurs_at(rest, p@, 0)) by {
                assert(rest.subrange(0, p@.len() as int) =~= s@.subrange(i as int, i + p@.len()));
            }
            assert(rest.subrange(p@.len() as int, rest.len() as int) =~= s@.subrange(i + pc@.len(), s@.len() as int));
            i = i + pc.len();
        } else {
            assert(!crate::text::occurs_at(rest, p@, 0)) by {
                if rest.len() >= p@.len() {
                    assert(rest.subrange(0, p@.len() as int) =~= s@.subrange(i as int, i + p@.len()));
                }
            }
            let ghost before = out@;
            out.push(s[i]);
            assert(rest.drop_first() =~= s@.subrange(i + 1, s@.len() as int));
            assert(out@ =~= before + seq![rest[0]]);
            i = i + 1;
        }
    }
    assert(s@.subrange(i as int, s@.len() as int) =~= Seq::<char>::empty());
    assert(out@ =~= remove_all(s@, p@));
    out
}

/// Position of the first ':' of `s`, or its length.
pub open spec fn colon_pos(s: Seq<char>) -> nat
    decreases s.len(),
{
    if s.len() == 0 || s[0] == ':' { 0 } else { 1 + colon_pos(s.drop_first()) }
}

proof fn lemma_colon_pos(s: Seq<char>)
    ensures
        colon_pos(s) <= s.len(),
    decreases s.len(),
{
    if s.len() > 0 && s[0] != ':' {
        lemma_colon_pos(s.drop_first());
    }
}

/// The port of a proxy URL: scheme prefixes removed, the part between the
/// first and the second ':' read as a port number.
pub open spec fn port_of_proxy(proxy: Seq<char>) -> Option<u16> {
    let c = remove_all(remove_all(remove_all(remove_all(proxy, "socks5h://"@), "socks5://"@), "http://"@), "https://"@);
    let k = colon_pos(c) as int;
    if k >= c.len() {
        None
    } else {
        let rest = c.subrange(k + 1, c.len() as int);
        u16_of(rest.subrange(0, colon_pos(rest) as int))
    }
}

fn colon_exec(s: &Vec<char>, from: usize) -> (r: usize)
    requires
        from <= s@.len(),
    ensures
        r - from == colon_pos(s@.subrange(from as int, s@.len() as int)),
        from <= r <= s@.len(),
{
    let mut k: usize = from;
    proof { lemma_colon_pos(s@.subrange(from as int, s@.len() as int)); }
    while k < s.len() && s[k] != ':'
        invariant
            from <= k <= s@.len(),
            colon_pos(s@.subrange(from as int, s@.len() as int)) == (k - from) + colon_pos(s@.subrange(k as int, s@.len() as int)),
        decreases s@.len() - k,
    {
        assert(s@.subrange(k as int, s@.len() as int).drop_first() =~= s@.subrange(k + 1, s@.len() as int));
        k = k + 1;
    }
    k
}

/// The port of a proxy URL such as "socks5h://127.0.0.1:1080".
pub fn parse_port(proxy: &str) -> (r: Option<u16>)
    ensures
        r == port_of_proxy(proxy@),
{
    let a = chars_of(proxy);
    let b = remove_all_exec(&a, "socks5h://");
    let c = remove_all_exec(&b, "socks5://");
    let d = remove_all_exec(&c, "http://");
    let e = remove_all_exec(&d, "https://");
    let k = colon_exec(&e, 0);
    assert(e@.subrange(0, e@.len() as int) =~= e@);
    if k >= e.len() {
        return None;
    }
    let j = colon_exec(&e, k + 1);
    let part = crate::text::copy_prefix(&crate::text::copy_suffix(&e, k + 1), j - (k + 1));
    assert(part@ =~= e@.subrange(k + 1, e@.len() as int).subrange(0, colon_pos(e@.subrange(k + 1, e@.len() as int)) as int));
    parse_u16(&part)
}

/// How an external address is shown: with the country code, else the
/// country, in parentheses when one is known.
pub open spec fn ip_text(ip: Seq<char>, country_code: Option<Seq<char>>, country: Option<Seq<char>>) -> Seq<char> {
    match (if country_code is Some { country_code } else { country }) {
        Some(c) => ip + " ("@ + c + ")"@,
        None => ip,
    }
}

/// Describes an external address as an address-echo service reported it.
pub fn describe_ip(ip: &str, country_code: Option<String>, country: Option<String>) -> (r: String)
    ensures
        r@ == ip_text(ip@, opt_text(country_code), opt_text(country)),
{
    let place = match country_code {
        Some(c) => Some(c),
        None => country,
    };
    match place {
        Some(c) => {
            let mut s = ip.to_string();
            crate::text::push_str(&mut s, " (");
            crate::text::push_str(&mut s, c.as_str());
            crate::text::push_str(&mut s, ")");
            s
        },
        None => ip.to_string(),
    }
}

} // verus!
