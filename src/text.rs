//! Character-level helpers on strings, with their specifications.
use vstd::prelude::*;

verus! {

/// `k` occurs in `s` starting at position `i`.
pub open spec fn occurs_at(s: Seq<char>, k: Seq<char>, i: int) -> bool {
    0 <= i && i + k.len() <= s.len() && s.subrange(i, i + k.len()) == k
}

/// `k` occurs somewhere in `s`.
pub open spec fn contains(s: Seq<char>, k: Seq<char>) -> bool {
    exists|i: int| occurs_at(s, k, i)
}

/// `s` begins with `k`.
pub open spec fn starts_with(s: Seq<char>, k: Seq<char>) -> bool {
    occurs_at(s, k, 0)
}

/// The result of lower-casing a string, as the standard library does it.
pub uninterp spec fn lower_of(s: Seq<char>) -> Seq<char>;

/// Relies on `str::to_lowercase`: the result depends on the characters alone,
/// and an empty string stays empty.
#[verifier::external_body]
pub(crate) fn lowercase(s: &str) -> (r: String)
    ensures
        r@ == lower_of(s@),
        s@.len() == 0 ==> r@.len() == 0,
{
    s.to_lowercase()
}

/// Relies on `String::push`: appends one character.
#[verifier::external_body]
pub(crate) fn push_char(s: &mut String, c: char)
    ensures
        final(s)@ == old(s)@.push(c),
{
    s.push(c)
}

/// The characters of `s`, in order.
pub fn chars_of(s: &str) -> (r: Vec<char>)
    ensures
        r@ == s@,
{
    let mut v: Vec<char> = Vec::new();
    for c in it: s.chars()
        invariant
            v@ == it.seq().subrange(0, it.index() as int),
    {
        v.push(c);
    }
    v
}


/// A `String` holding the characters of `v`.
pub fn string_of(v: &Vec<char>) -> (r: String)
    ensures
        r@ == v@,
{
    let mut s = String::new();
    let mut i: usize = 0;
    while i < v.len()
        invariant
            i <= v.len(),
            s@ == v@.subrange(0, i as int),
        decreases v.len() - i,
    {
        push_char(&mut s, v[i]);
        i = i + 1;
        assert(s@ =~= v@.subrange(0, i as int));
    }
    assert(v@.subrange(0, v.len() as int) =~= v@);
    s
}

/// Appends the characters of `t` to `s`.
pub fn push_str(s: &mut String, t: &str)
    ensures
        final(s)@ == old(s)@ + t@,
{
    let v = chars_of(t);
    let ghost start = s@;
    let mut i: usize = 0;
    while i < v.len()
        invariant
            i <= v.len(),
            v@ == t@,
            s@ == start + v@.subrange(0, i as int),
        decreases v.len() - i,
    {
        push_char(s, v[i]);
        i = i + 1;
        assert(s@ =~= start + v@.subrange(0, i as int));
    }
    assert(v@.subrange(0, v.len() as int) =~= v@);
}

/// The concatenation of `a` and `b` as a new `String`.
pub fn concat(a: &str, b: &str) -> (r: String)
    ensures
        r@ == a@ + b@,
{
    let mut s = a.to_string();
    push_str(&mut s, b);
    s
}

/// Whether `k` occurs in `s` at position `i`.
pub fn occurs_at_exec(s: &Vec<char>, k: &Vec<char>, i: usize) -> (r: bool)
    ensures
        r == occurs_at(s@, k@, i as int),
{
    if i > s.len() || k.len() > s.len() - i {
        return false;
    }
    let mut j: usize = 0;
    while j < k.len()
        invariant
            i + k.len() <= s.len(),
            j <= k.len(),
            forall|m: int| 0 <= m < j ==> s@[i + m] == k@[m],
        decreases k.len() - j,
    {
        if s[i + j] != k[j] {
            assert(s@.subrange(i as int, i + k.len())[j as int] != k@[j as int]);
            return false;
        }
        j = j + 1;
    }
    assert(s@.subrange(i as int, i + k.len()) =~= k@);
    true
}

/// Whether `k` occurs anywhere in `s`.
pub fn contains_chars(s: &Vec<char>, k: &Vec<char>) -> (r: bool)
    ensures
        r == contains(s@, k@),
{
    if k.len() > s.len() {
        return false;
    }
    let last = s.len() - k.len();
    let mut i: usize = 0;
    loop
        invariant
            last == s.len() - k.len(),
            i <= last,
            forall|m: int| 0 <= m < i ==> !occurs_at(s@, k@, m),
        decreases last - i,
    {
        if occurs_at_exec(s, k, i) {
            return true;
        }
        if i == last {
            return false;
        }
        i = i + 1;
    }
}

/// Whether the literal `k` occurs anywhere in `s`.
pub fn has(s: &Vec<char>, k: &str) -> (r: bool)
    ensures
        r == contains(s@, k@),
{
    let kc = chars_of(k);
    contains_chars(s, &kc)
}

/// Whether `s` begins with the literal `k`.
pub fn begins_with(s: &Vec<char>, k: &str) -> (r: bool)
    ensures
        r == starts_with(s@, k@),
{
    let kc = chars_of(k);
    occurs_at_exec(s, &kc, 0)
}

/// The white-space characters that `str::trim` removes.
pub open spec fn is_space(c: char) -> bool {
    c == '\t' || c == '\n' || c == '\u{0B}' || c == '\u{0C}' || c == '\r' || c == ' '
        || c == '\u{85}' || c == '\u{A0}' || c == '\u{1680}'
        || ('\u{2000}' <= c && c <= '\u{200A}') || c == '\u{2028}' || c == '\u{2029}'
        || c == '\u{202F}' || c == '\u{205F}' || c == '\u{3000}'
}

pub fn is_space_exec(c: char) -> (r: bool)
    ensures
        r == is_space(c),
{
    c == '\t' || c == '\n' || c == '\u{0B}' || c == '\u{0C}' || c == '\r' || c == ' '
        || c == '\u{85}' || c == '\u{A0}' || c == '\u{1680}'
        || ('\u{2000}' <= c && c <= '\u{200A}') || c == '\u{2028}' || c == '\u{2029}'
        || c == '\u{202F}' || c == '\u{205F}' || c == '\u{3000}'
}

/// Number of leading white-space characters of `s`.
pub open spec fn lead_len(s: Seq<char>) -> nat
    decreases s.len(),
{
    if s.len() > 0 && is_space(s[0]) {
        1 + lead_len(s.drop_first())
    } else {
        0
    }
}

/// Number of trailing white-space characters of `s`.
pub open spec fn trail_len(s: Seq<char>) -> nat
    decreases s.len(),
{
    if s.len() > 0 && is_space(s.last()) {
        1 + trail_len(s.drop_last())
    } else {
        0
    }
}

/// `s` without leading and trailing white space.
pub open spec fn trimmed(s: Seq<char>) -> Seq<char> {
    let a = lead_len(s) as int;
    let t = s.subrange(a, s.len() as int);
    t.subrange(0, t.len() - trail_len(t))
}

proof fn lemma_lead_len_bound(s: Seq<char>)
    ensures
        lead_len(s) <= s.len(),
    decreases s.len(),
{
    if s.len() > 0 && is_space(s[0]) {
        lemma_lead_len_bound(s.drop_first());
    }
}

proof fn lemma_trail_len_bound(s: Seq<char>)
    ensures
        trail_len(s) <= s.len(),
    decreases s.len(),
{
    if s.len() > 0 && is_space(s.last()) {
        lemma_trail_len_bound(s.drop_last());
    }
}

/// `s` without leading and trailing white space.
pub fn trim_chars(s: &Vec<char>) -> (r: Vec<char>)
    ensures
        r@ == trimmed(s@),
{
    let mut a: usize = 0;
    assert(s@.subrange(0, s.len() as int) =~= s@);
    while a < s.len() && is_space_exec(s[a])
        invariant
            a <= s.len(),
            lead_len(s@) == a + lead_len(s@.subrange(a as int, s.len() as int)),
        decreases s.len() - a,
    {
        assert(s@.subrange(a as int, s.len() as int).drop_first() =~= s@.subrange(
            a + 1,
            s.len() as int,
        ));
        a = a + 1;
    }
    assert(lead_len(s@.subrange(a as int, s.len() as int)) == 0);
    let ghost t = s@.subrange(a as int, s.len() as int);
    let mut b: usize = s.len();
    while b > a && is_space_exec(s[b - 1])
        invariant
            a <= b <= s.len(),
            t == s@.subrange(a as int, s.len() as int),
            trail_len(t) == (s.len() - b) + trail_len(s@.subrange(a as int, b as int)),
        decreases b,
    {
        assert(s@.subrange(a as int, b as int).drop_last() =~= s@.subrange(
            a as int,
            b - 1,
        ));
        b = b - 1;
    }
    assert(trail_len(s@.subrange(a as int, b as int)) == 0);
    let mut r: Vec<char> = Vec::new();
    let mut i: usize = a;
    while i < b
        invariant
            a <= i <= b <= s.len(),
            r@ == s@.subrange(a as int, i as int),
        decreases b - i,
    {
        r.push(s[i]);
        i = i + 1;
        assert(r@ =~= s@.subrange(a as int, i as int));
    }
    assert(r@ =~= t.subrange(0, t.len() - trail_len(t)));
    r
}

/// The digit character for `d < 10`.
pub open spec fn digit(d: nat) -> char {
    if d == 0 { '0' } else if d == 1 { '1' } else if d == 2 { '2' } else if d == 3 { '3' }
    else if d == 4 { '4' } else if d == 5 { '5' } else if d == 6 { '6' } else if d == 7 { '7' }
    else if d == 8 { '8' } else { '9' }
}

/// The decimal text of `n`, without leading zeros.
pub open spec fn decimal(n: nat) -> Seq<char>
    decreases n,
{
    if n < 10 {
        seq![digit(n)]
    } else {
        decimal(n / 10).push(digit(n % 10))
    }
}

fn digit_exec(d: u64) -> (r: char)
    requires
        d < 10,
    ensures
        r == digit(d as nat),
{
    if d == 0 { '0' } else if d == 1 { '1' } else if d == 2 { '2' } else if d == 3 { '3' }
    else if d == 4 { '4' } else if d == 5 { '5' } else if d == 6 { '6' } else if d == 7 { '7' }
    else if d == 8 { '8' } else { '9' }
}

/// Appends the decimal text of `n` to `s`.
pub fn push_decimal(s: &mut String, n: u64)
    ensures
        final(s)@ == old(s)@ + decimal(n as nat),
    decreases n,
{
    if n >= 10 {
        push_decimal(s, n / 10);
    }
    push_char(s, digit_exec(n % 10));
    assert(final(s)@ =~= old(s)@ + decimal(n as nat));
}

/// The decimal text of `n`.
pub fn decimal_string(n: u64) -> (r: String)
    ensures
        r@ == decimal(n as nat),
{
    let mut s = String::new();
    push_decimal(&mut s, n);
    assert(s@ =~= decimal(n as nat));
    s
}

/// Position of the first '\n' of `s`, or its length.
pub open spec fn newline_pos(s: Seq<char>) -> nat
    decreases s.len(),
{
    if s.len() == 0 {
        0
    } else if s[0] == '\n' {
        0
    } else {
        1 + newline_pos(s.drop_first())
    }
}

proof fn lemma_newline_pos(s: Seq<char>)
    ensures
        newline_pos(s) <= s.len(),
        newline_pos(s) < s.len() ==> s[newline_pos(s) as int] == '\n',
        forall|i: int| 0 <= i < newline_pos(s) ==> s[i] != '\n',
    decreases s.len(),
{
    if s.len() > 0 && s[0] != '\n' {
        lemma_newline_pos(s.drop_first());
        assert forall|i: int| 0 <= i < newline_pos(s) implies s[i] != '\n' by {
            if i > 0 {
                assert(s[i] == s.drop_first()[i - 1]);
            }
        }
    }
}

/// A line without its terminating "\r", if it had one before the "\n".
pub open spec fn strip_cr(l: Seq<char>) -> Seq<char> {
    if l.len() > 0 && l.last() == '\r' { l.drop_last() } else { l }
}

/// The lines of `s` as `str::lines` yields them: split at "\n", a "\r"
/// before the "\n" dropped, no empty line after a final "\n".
pub open spec fn lines_of(s: Seq<char>) -> Seq<Seq<char>>
    decreases s.len(),
{
    if s.len() == 0 {
        seq![]
    } else {
        let k = newline_pos(s) as int;
        if k >= s.len() {
            seq![s]
        } else {
            seq![strip_cr(s.subrange(0, k))] + lines_of(s.subrange(k + 1, s.len() as int))
        }
    }
}

pub open spec fn lines_view(v: Seq<Vec<char>>) -> Seq<Seq<char>> {
    v.map_values(|l: Vec<char>| l@)
}

fn copy_range(s: &Vec<char>, a: usize, b: usize) -> (r: Vec<char>)
    requires
        a <= b <= s@.len(),
    ensures
        r@ == s@.subrange(a as int, b as int),
{
    let mut v: Vec<char> = Vec::new();
    let mut i: usize = a;
    while i < b
        invariant
            a <= i <= b <= s@.len(),
            v@ == s@.subrange(a as int, i as int),
        decreases b - i,
    {
        v.push(s[i]);
        i = i + 1;
        assert(v@ =~= s@.subrange(a as int, i as int));
    }
    v
}

/// The lines of `s`.
pub fn lines(s: &Vec<char>) -> (r: Vec<Vec<char>>)
    ensures
        lines_view(r@) == lines_of(s@),
{
    let mut out: Vec<Vec<char>> = Vec::new();
    let mut start: usize = 0;
    assert(s@.subrange(0, s@.len() as int) =~= s@);
    while start < s.len()
        invariant
            start <= s@.len(),
            lines_view(out@) + lines_of(s@.subrange(start as int, s@.len() as int)) == lines_of(s@),
        decreases s@.len() - start,
    {
        let ghost rest = s@.subrange(start as int, s@.len() as int);
        proof { lemma_newline_pos(rest); }
        let mut k: usize = start;
        while k < s.len() && s[k] != '\n'
            invariant
                start <= k <= s@.len(),
                rest == s@.subrange(start as int, s@.len() as int),
                forall|i: int| start <= i < k ==> s@[i] != '\n',
            decreases s@.len() - k,
        {
            k = k + 1;
        }
        proof {
            if newline_pos(rest) < k - start {
                assert(rest[newline_pos(rest) as int] == s@[start + newline_pos(rest)]);
            }
            if k < s@.len() {
                assert(rest[k - start] == '\n');
            }
            assert(newline_pos(rest) == k - start);
        }
        let ghost before = out@;
        if k == s.len() {
            out.push(copy_range(s, start, k));
            assert(rest.subrange(0, rest.len() as int) =~= rest);
            assert(lines_view(out@) =~= lines_view(before) + seq![rest]);
            assert(s@.subrange(k as int, s@.len() as int) =~= Seq::<char>::empty());
            start = k;
        } else {
            let end: usize = if k > start && s[k - 1] == '\r' { k - 1 } else { k };
            let line = copy_range(s, start, end);
            assert(line@ =~= strip_cr(rest.subrange(0, (k - start) as int)));
            out.push(line);
            assert(lines_view(out@) =~= lines_view(before) + seq![strip_cr(rest.subrange(0, (k - start) as int))]);
            assert(rest.subrange((k - start) + 1, rest.len() as int) =~= s@.subrange(k + 1, s@.len() as int));
            start = k + 1;
        }
    }
    assert(s@.subrange(start as int, s@.len() as int) =~= Seq::<char>::empty());
    assert(lines_view(out@) =~= lines_of(s@));
    out
}

/// The first `n` characters of `s`.
pub fn copy_prefix(s: &Vec<char>, n: usize) -> (r: Vec<char>)
    requires
        n <= s@.len(),
    ensures
        r@ == s@.subrange(0, n as int),
{
    copy_range(s, 0, n)
}

/// The characters of `s` from `k` on.
pub fn copy_suffix(s: &Vec<char>, k: usize) -> (r: Vec<char>)
    requires
        k <= s@.len(),
    ensures
        r@ == s@.subrange(k as int, s@.len() as int),
{
    copy_range(s, k, s.len())
}

} // verus!
