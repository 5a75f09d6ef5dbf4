//! Reads the tool's line-oriented download output into progress events.
use vstd::prelude::*;
use crate::text::{chars_of, decimal, digit, push_char, push_decimal, push_str};
use crate::download::{ProgressEvent, event_view, opt_text};

verus! {

/// What a regular-expression search for `pattern` finds in `text`: `None`
/// when nothing matches (or the pattern is invalid), else every group's match.
pub uninterp spec fn captures_of(pattern: Seq<char>, text: Seq<char>) -> Option<Seq<Option<Seq<char>>>>;

pub open spec fn caps_view(c: Option<Vec<Option<String>>>) -> Option<Seq<Option<Seq<char>>>> {
    match c {
        Some(v) => Some(v@.map_values(|m: Option<String>| opt_text(m))),
        None => None,
    }
}

/// Relies on `regex::Regex::new` and `regex::Regex::captures`: the leftmost
/// match of `pattern` in `text`, with the text of each capture group.
#[verifier::external_body]
fn regex_captures(pattern: &str, text: &str) -> (r: Option<Vec<Option<String>>>)
    ensures
        caps_view(r) == captures_of(pattern@, text@),
{
    let re = regex::Regex::new(pattern).ok()?;
    let caps = re.captures(text)?;
    Some(caps.iter().map(|m| m.map(|m| m.as_str().to_string())).collect())
}

pub const PROGRESS_PATTERN: &'static str = r"\[download\]\s+(\d+\.?\d*)%\s+of\s+~?\s*(\d+\.?\d*\s*\w+)\s+at\s+(\d+\.?\d*\s*\w+/s)(?:\s+ETA\s+(\S+))?(?:\s+\(frag\s+(\d+)/(\d+)\))?";
pub const DEST_PATTERN: &'static str = r"\[download\]\s+Destination:\s+(.+)";
pub const MERGE_PATTERN: &'static str = r"\[Merger?\]\s+Merging";
pub const ALREADY_PATTERN: &'static str = r"has already been downloaded";

pub open spec fn is_digit(c: char) -> bool {
    '0' <= c && c <= '9'
}

pub open spec fn digit_value(c: char) -> nat {
    (c as u32 - '0' as u32) as nat
}

/// The number written by the digits `s`.
pub open spec fn number(s: Seq<char>) -> nat
    decreases s.len(),
{
    if s.len() == 0 { 0 } else { number(s.drop_last()) * 10 + digit_value(s.last()) }
}

pub open spec fn all_digits(s: Seq<char>) -> bool {
    forall|i: int| 0 <= i < s.len() ==> is_digit(#[trigger] s[i])
}

/// Position of the first '.' in `s`, or its length.
pub open spec fn point_pos(s: Seq<char>) -> int {
    crate::format_selector::dot_pos(s) as int
}

/// A percentage written as digits with an optional fraction, in tenths,
/// rounded half up on the second decimal. At most eight integer digits.
pub open spec fn percent_tenths(p: Seq<char>) -> Option<nat> {
    let k = point_pos(p);
    let ip = p.subrange(0, k);
    let fp = if k < p.len() { p.subrange(k + 1, p.len() as int) } else { seq![] };
    if ip.len() == 0 || ip.len() > 8 || !all_digits(ip) || !all_digits(fp) {
        None
    } else {
        let d1 = if fp.len() > 0 { digit_value(fp[0]) } else { 0 };
        let d2 = if fp.len() > 1 { digit_value(fp[1]) } else { 0 };
        Some(number(ip) * 10 + d1 + if d2 >= 5 { 1nat } else { 0 })
    }
}

pub open spec fn tenths_text(t: nat) -> Seq<char> {
    decimal(t / 10) + seq!['.', digit(t % 10)]
}

pub open spec fn group(c: Seq<Option<Seq<char>>>, i: int) -> Option<Seq<char>> {
    if 0 <= i < c.len() { c[i] } else { None }
}

pub open spec fn group_or(c: Seq<Option<Seq<char>>>, i: int, d: Seq<char>) -> Seq<char> {
    match group(c, i) { Some(t) => t, None => d }
}

pub const DOWN: &'static str = "\u{2B07}\u{FE0F} ";

/// Status text of a progress line's groups, for `t` tenths of a percent.
pub open spec fn download_status(c: Seq<Option<Seq<char>>>, t: nat) -> Seq<char> {
    let base = DOWN@ + tenths_text(t) + "% of "@ + group_or(c, 2, "?"@) + " @ "@ + group_or(c, 3, "?"@);
    let eta = group_or(c, 4, ""@);
    if group(c, 5) is Some && group(c, 6) is Some {
        base + " ETA "@ + eta + " (frag "@ + group(c, 5)->0 + "/"@ + group(c, 6)->0 + ")"@
    } else if eta.len() > 0 {
        base + " ETA "@ + eta
    } else {
        base
    }
}

/// Position just after the last '/' of `s`, 0 if there is none.
pub open spec fn after_slash(s: Seq<char>) -> int
    decreases s.len(),
{
    if s.len() == 0 {
        0
    } else if s.last() == '/' {
        s.len() as int
    } else {
        after_slash(s.drop_last())
    }
}

/// The last path segment of `s`, cut to 50 characters.
pub open spec fn short_name(s: Seq<char>) -> Seq<char> {
    let seg = s.subrange(after_slash(s), s.len() as int);
    if seg.len() > 50 { seg.subrange(0, 50) } else { seg }
}

/// The event for a line, given the search results for the four line shapes:
/// a progress line (percent, size, speed, optional ETA and fragments), a
/// destination line, a merge notice, an already-downloaded notice.
pub open spec fn progress_event(
    progress: Option<Seq<Option<Seq<char>>>>,
    dest: Option<Seq<Option<Seq<char>>>>,
    merging: bool,
    already: bool,
) -> Option<(u32, Seq<char>)> {
    match progress {
        Some(c) => match group(c, 1) {
            None => None,
            Some(p) => match percent_tenths(p) {
                None => None,
                Some(t) => Some((t as u32, download_status(c, t))),
            },
        },
        None => match dest {
            Some(d) => Some((0u32, "\u{1F4E5} Starting: "@ + short_name(group_or(d, 1, "file"@)) + "..."@)),
            None => if merging {
                Some((990u32, "\u{1F504} Merging video and audio..."@))
            } else if already {
                Some((1000u32, "\u{2705} File already downloaded"@))
            } else {
                None
            },
        },
    }
}

pub open spec fn event_opt_view(e: Option<ProgressEvent>) -> Option<(u32, Seq<char>)> {
    match e {
        Some(x) => Some(event_view(x)),
        None => None,
    }
}

fn group_exec(c: &Vec<Option<String>>, i: usize) -> (r: Option<String>)
    ensures
        opt_text(r) == group(c@.map_values(|m: Option<String>| opt_text(m)), i as int),
{
    if i < c.len() {
        match &c[i] {
            Some(s) => Some(s.clone()),
            None => None,
        }
    } else {
        None
    }
}

fn digit_of(c: char) -> (r: u64)
    requires
        is_digit(c),
    ensures
        r == digit_value(c),
{
    (c as u32 - '0' as u32) as u64
}

fn is_digit_exec(c: char) -> (r: bool)
    ensures
        r == is_digit(c),
{
    '0' <= c && c <= '9'
}

pub open spec fn pow10(n: nat) -> nat
    decreases n,
{
    if n == 0 { 1 } else { 10 * pow10((n - 1) as nat) }
}

proof fn lemma_pow10_mono(a: nat, b: nat)
    requires
        a <= b,
    ensures
        pow10(a) <= pow10(b),
    decreases b - a,
{
    if a < b {
        lemma_pow10_mono(a, (b - 1) as nat);
    }
}

/// The characters of `s` from `a` to `b`.
fn slice_chars(s: &Vec<char>, a: usize, b: usize) -> (r: Vec<char>)
    requires
        a <= b <= s@.len(),
    ensures
        r@ == s@.subrange(a as int, b as int),
{
    let mut v: Vec<char> = Vec::new();
    let mut i: usize = a;
    while i < b
        invariant
            a <= i <= b <= s@.len(),
            v@ == s@.subrange(a as int, i as int),
        decreases b - i,
    {
        v.push(s[i]);
        i = i + 1;
        assert(v@ =~= s@.subrange(a as int, i as int));
    }
    v
}

/// The number written by `v`, if it is digits only; at most nine of them.
fn digits_number(v: &Vec<char>) -> (r: Option<u64>)
    requires
        v@.len() <= 9,
    ensures
        match r { Some(x) => all_digits(v@) && x == number(v@) && x < 1000000000, None => !all_digits(v@) },
{
    let mut n: u64 = 0;
    let mut i: usize = 0;
    proof {
        lemma_pow10_mono(v@.len(), 9);
        reveal_with_fuel(pow10, 10);
        assert(pow10(9) == 1000000000);
    }
    while i < v.len()
        invariant
            v@.len() <= 9,
            i <= v@.len(),
            pow10(v@.len()) <= 1000000000,
            all_digits(v@.subrange(0, i as int)),
            n == number(v@.subrange(0, i as int)),
            n < pow10(i as nat),
        decreases v@.len() - i,
    {
        if !is_digit_exec(v[i]) {
            assert(!is_digit(v@[i as int]));
            return None;
        }
        let d = digit_of(v[i]);
        assert(v@.subrange(0, i + 1).drop_last() =~= v@.subrange(0, i as int));
        proof {
            lemma_pow10_mono((i + 1) as nat, v@.len());
            assert(n * 10 + d < pow10((i + 1) as nat)) by (nonlinear_arith)
                requires n < pow10(i as nat), d < 10, pow10((i + 1) as nat) == 10 * pow10(i as nat);
        }
        n = n * 10 + d;
        i = i + 1;
        assert(all_digits(v@.subrange(0, i as int))) by {
            assert forall|j: int| 0 <= j < i implies is_digit(#[trigger] v@.subrange(0, i as int)[j]) by {
                if j < i - 1 {
                    assert(v@.subrange(0, i as int)[j] == v@.subrange(0, i - 1)[j]);
                }
            }
        }
    }
    assert(v@.subrange(0, v@.len() as int) =~= v@);
    proof { lemma_pow10_mono(v@.len(), 9); }
    Some(n)
}

/// Reads a percentage in tenths.
pub fn parse_percent(p: &str) -> (r: Option<u64>)
    ensures
        match r { Some(x) => Some(x as nat), None => None } == percent_tenths(p@),
{
    let s = chars_of(p);
    let mut k: usize = 0;
    proof { crate::format_selector::lemma_dot_pos_bound_pub(s@); }
    assert(s@.subrange(0, s@.len() as int) =~= s@);
    while k < s.len() && s[k] != '.'
        invariant
            s@ == p@,
            k <= s@.len(),
            crate::format_selector::dot_pos(s@) == k + crate::format_selector::dot_pos(s@.subrange(k as int, s@.len() as int)),
        decreases s@.len() - k,
    {
        assert(s@.subrange(k as int, s@.len() as int).drop_first() =~= s@.subrange(k + 1, s@.len() as int));
        k = k + 1;
    }
    if k == 0 || k > 8 {
        return None;
    }
    let ip = slice_chars(&s, 0, k);
    let fp = if k < s.len() { slice_chars(&s, k + 1, s.len()) } else { Vec::new() };
    assert(fp@ =~= (if (k as int) < p@.len() { p@.subrange(k + 1, p@.len() as int) } else { seq![] }));
    assert(ip@ =~= p@.subrange(0, k as int));
    let n = match digits_number(&ip) {
        Some(x) => x,
        None => return None,
    };
    proof { lemma_number_bound(ip@); lemma_pow10_mono(ip@.len(), 8); reveal_with_fuel(pow10, 9); }
    let mut j: usize = 0;
    while j < fp.len()
        invariant
            j <= fp@.len(),
            forall|m: int| 0 <= m < j ==> is_digit(#[trigger] fp@[m]),
            fp@ =~= (if (k as int) < p@.len() { p@.subrange(k + 1, p@.len() as int) } else { seq![] }),
            ip@ == p@.subrange(0, k as int),
            s@ == p@,
            k == crate::format_selector::dot_pos(p@),
            all_digits(ip@),
            0 < k <= 8,
            n < 100000000,
        decreases fp@.len() - j,
    {
        if !is_digit_exec(fp[j]) {
            assert(!is_digit(fp@[j as int]));
            assert(!all_digits(fp@));
            return None;
        }
        j = j + 1;
    }
    let d1: u64 = if fp.len() > 0 { digit_of(fp[0]) } else { 0 };
    let d2: u64 = if fp.len() > 1 { digit_of(fp[1]) } else { 0 };
    Some(n * 10 + d1 + if d2 >= 5 { 1 } else { 0 })
}

proof fn lemma_number_bound(v: Seq<char>)
    requires
        all_digits(v),
    ensures
        number(v) < pow10(v.len()),
    decreases v.len(),
{
    if v.len() > 0 {
        let w = v.drop_last();
        assert(all_digits(w)) by {
            assert forall|i: int| 0 <= i < w.len() implies is_digit(#[trigger] w[i]) by {
                assert(w[i] == v[i]);
            }
        }
        lemma_number_bound(w);
        assert(is_digit(v[v.len() - 1]));
        assert(digit_value(v.last()) < 10);
        assert(number(v) < pow10(v.len())) by (nonlinear_arith)
            requires number(v) == number(w) * 10 + digit_value(v.last()), number(w) < pow10(w.len()),
                digit_value(v.last()) < 10, pow10(v.len()) == 10 * pow10(w.len());
    }
}

fn short_name_exec(s: &str) -> (r: String)
    ensures
        r@ == short_name(s@),
{
    let c = chars_of(s);
    let mut j: usize = c.len();
    assert(c@.subrange(0, c@.len() as int) =~= c@);
    while j > 0 && c[j - 1] != '/'
        invariant
            c@ == s@,
            j <= c@.len(),
            after_slash(c@) == after_slash(c@.subrange(0, j as int)),
        decreases j,
    {
        assert(c@.subrange(0, j as int).drop_last() =~= c@.subrange(0, j - 1));
        j = j - 1;
    }
    assert(after_slash(c@.subrange(0, j as int)) == j);
    let end: usize = if c.len() - j > 50 { j + 50 } else { c.len() };
    let mut out = String::new();
    let mut i: usize = j;
    while i < end
        invariant
            c@ == s@,
            j <= i <= end <= c@.len(),
            out@ == c@.subrange(j as int, i as int),
        decreases end - i,
    {
        push_char(&mut out, c[i]);
        i = i + 1;
        assert(out@ =~= c@.subrange(j as int, i as int));
    }
    assert(out@ =~= short_name(s@));
    out
}

fn push_tenths(s: &mut String, t: u64)
    ensures
        final(s)@ == old(s)@ + tenths_text(t as nat),
{
    push_decimal(s, t / 10);
    push_char(s, '.');
    let d = t % 10;
    let c: char = if d == 0 { '0' } else if d == 1 { '1' } else if d == 2 { '2' } else if d == 3 { '3' }
        else if d == 4 { '4' } else if d == 5 { '5' } else if d == 6 { '6' } else if d == 7 { '7' }
        else if d == 8 { '8' } else { '9' };
    push_char(s, c);
    assert(final(s)@ =~= old(s)@ + tenths_text(t as nat));
}

fn group_or_exec(c: &Vec<Option<String>>, i: usize, d: &str) -> (r: String)
    ensures
        r@ == group_or(c@.map_values(|m: Option<String>| opt_text(m)), i as int, d@),
{
    match group_exec(c, i) {
        Some(x) => x,
        None => d.to_string(),
    }
}

/// The event for a line, given the search results for its four shapes.
pub fn progress_from_matches(
    progress: &Option<Vec<Option<String>>>,
    dest: &Option<Vec<Option<String>>>,
    merging: bool,
    already: bool,
) -> (r: Option<ProgressEvent>)
    ensures
        event_opt_view(r) == progress_event(caps_view(*progress), caps_view(*dest), merging, already),
{
    match progress {
        Some(c) => {
            let ghost cv = c@.map_values(|m: Option<String>| opt_text(m));
            let p = match group_exec(c, 1) {
                Some(p) => p,
                None => return None,
            };
            let t = match parse_percent(p.as_str()) {
                Some(t) => t,
                None => return None,
            };
            proof {
                let ps = p@;
                let k = point_pos(ps);
                lemma_number_bound(ps.subrange(0, k));
                lemma_pow10_mono(ps.subrange(0, k).len(), 8);
                reveal_with_fuel(pow10, 9);
            }
            let mut s = DOWN.to_string();
            push_tenths(&mut s, t);
            push_str(&mut s, "% of ");
            push_str(&mut s, group_or_exec(c, 2, "?").as_str());
            push_str(&mut s, " @ ");
            push_str(&mut s, group_or_exec(c, 3, "?").as_str());
            let eta = group_or_exec(c, 4, "");
            let f5 = group_exec(c, 5);
            let f6 = group_exec(c, 6);
            let ghost base = s@;
            if f5.is_some() && f6.is_some() {
                let a = f5.unwrap();
                let b = f6.unwrap();
                push_str(&mut s, " ETA ");
                push_str(&mut s, eta.as_str());
                push_str(&mut s, " (frag ");
                push_str(&mut s, a.as_str());
                push_str(&mut s, "/");
                push_str(&mut s, b.as_str());
                push_str(&mut s, ")");
            } else {
                if !eta.as_str().is_empty() {
                    push_str(&mut s, " ETA ");
                    push_str(&mut s, eta.as_str());
                }
            }
            assert(s@ =~= download_status(cv, t as nat));
            Some(ProgressEvent { percent_tenths: t as u32, status: s })
        },
        None => match dest {
            Some(d) => {
                let name = group_or_exec(d, 1, "file");
                let mut s = "\u{1F4E5} Starting: ".to_string();
                push_str(&mut s, short_name_exec(name.as_str()).as_str());
                push_str(&mut s, "...");
                Some(ProgressEvent { percent_tenths: 0, status: s })
            },
            None => {
                if merging {
                    Some(ProgressEvent { percent_tenths: 990, status: "\u{1F504} Merging video and audio...".to_string() })
                } else if already {
                    Some(ProgressEvent { percent_tenths: 1000, status: "\u{2705} File already downloaded".to_string() })
                } else {
                    None
                }
            },
        },
    }
}

/// Reads one output line of the tool into a progress event, if it is one.
pub fn parse_ytdlp_progress(line: &str) -> (r: Option<ProgressEvent>)
    ensures
        event_opt_view(r) == progress_event(
            captures_of(PROGRESS_PATTERN@, line@),
            captures_of(DEST_PATTERN@, line@),
            captures_of(MERGE_PATTERN@, line@) is Some,
            captures_of(ALREADY_PATTERN@, line@) is Some,
        ),
{
    let p = regex_captures(PROGRESS_PATTERN, line);
    let d = regex_captures(DEST_PATTERN, line);
    let m = regex_captures(MERGE_PATTERN, line).is_some();
    let a = regex_captures(ALREADY_PATTERN, line).is_some();
    progress_from_matches(&p, &d, m, a)
}

} // verus!
