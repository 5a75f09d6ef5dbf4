//! Turns the raw format list of a video into the quality options offered to
//! the user: a best option, standard resolutions, and audio only.
use vstd::prelude::*;
use crate::text::{begins_with, chars_of, decimal, digit, push_char, push_decimal, push_str, starts_with};

verus! {

/// One format of a video as the tool lists it. Rates (`fps`, `tbr`, `abr`,
/// `vbr`) are kept in hundredths of their unit.
#[derive(Debug, Clone)]
pub struct ExtendedFormat {
    pub format_id: String,
    pub ext: String,
    pub resolution: Option<String>,
    pub width: Option<u32>,
    pub height: Option<u32>,
    pub fps: Option<u32>,
    pub vcodec: Option<String>,
    pub acodec: Option<String>,
    pub filesize: Option<u64>,
    pub filesize_approx: Option<u64>,
    pub tbr: Option<u32>,
    pub abr: Option<u32>,
    pub vbr: Option<u32>,
    pub format_note: Option<String>,
    pub video_only: bool,
    pub audio_only: bool,
}

pub open spec fn codec_starts(c: Option<String>, p: Seq<char>) -> bool {
    match c {
        Some(v) => starts_with(v@, p),
        None => false,
    }
}

pub open spec fn size_of(f: ExtendedFormat) -> Option<u64> {
    match f.filesize {
        Some(s) => Some(s),
        None => f.filesize_approx,
    }
}

pub open spec fn h264(f: ExtendedFormat) -> bool {
    codec_starts(f.vcodec, "avc1"@)
}

pub open spec fn height_key(f: ExtendedFormat) -> int {
    match f.height { Some(h) => h as int, None => 0 }
}

pub open spec fn size_key(f: ExtendedFormat) -> int {
    match size_of(f) { Some(s) => s as int, None => 0 }
}

pub open spec fn abr_key(f: ExtendedFormat) -> int {
    match f.abr { Some(b) => b as int, None => 0 }
}

fn codec_begins(c: &Option<String>, p: &str) -> (r: bool)
    ensures
        r == codec_starts(*c, p@),
{
    match c {
        Some(v) => {
            let t = chars_of(v.as_str());
            begins_with(&t, p)
        },
        None => false,
    }
}

impl ExtendedFormat {
    /// The exact size if known, else the approximate one.
    pub fn effective_size(&self) -> (r: Option<u64>)
        ensures
            r == size_of(*self),
    {
        match self.filesize {
            Some(s) => Some(s),
            None => self.filesize_approx,
        }
    }

    /// Whether the video codec is H.264.
    pub fn is_h264(&self) -> (r: bool)
        ensures
            r == h264(*self),
    {
        codec_begins(&self.vcodec, "avc1")
    }

    /// Whether the video codec is VP9.
    pub fn is_vp9(&self) -> (r: bool)
        ensures
            r == codec_starts(self.vcodec, "vp9"@),
    {
        codec_begins(&self.vcodec, "vp9")
    }

    /// Whether the video codec is AV1.
    pub fn is_av1(&self) -> (r: bool)
        ensures
            r == codec_starts(self.vcodec, "av01"@),
    {
        codec_begins(&self.vcodec, "av01")
    }

    /// Whether the audio codec is AAC.
    pub fn is_aac(&self) -> (r: bool)
        ensures
            r == codec_starts(self.acodec, "mp4a"@),
    {
        codec_begins(&self.acodec, "mp4a")
    }
}

/// Index of the last element among the first `n` that satisfies `keep` and
/// has the largest `key`, or -1 if none does.
pub open spec fn last_max(
    s: Seq<ExtendedFormat>,
    keep: spec_fn(ExtendedFormat) -> bool,
    key: spec_fn(ExtendedFormat) -> int,
    n: int,
) -> int
    decreases n,
{
    if n <= 0 {
        -1
    } else {
        let b = last_max(s, keep, key, n - 1);
        if !keep(s[n - 1]) {
            b
        } else if b < 0 || key(s[n - 1]) >= key(s[b]) {
            n - 1
        } else {
            b
        }
    }
}

proof fn lemma_last_max_range(s: Seq<ExtendedFormat>, keep: spec_fn(ExtendedFormat) -> bool, key: spec_fn(ExtendedFormat) -> int, n: int)
    ensures
        -1 <= last_max(s, keep, key, n) < (if n < 0 { 0 } else { n }),
        last_max(s, keep, key, n) >= 0 ==> keep(s[last_max(s, keep, key, n)]),
    decreases n,
{
    if n > 0 {
        lemma_last_max_range(s, keep, key, n - 1);
    }
}

pub open spec fn pick<'a>(s: Seq<&'a ExtendedFormat>, i: int) -> Option<&'a ExtendedFormat> {
    if i < 0 { None } else { Some(s[i]) }
}

/// The formats that a sequence of references points at.
pub open spec fn derefs(s: Seq<&ExtendedFormat>) -> Seq<ExtendedFormat> {
    s.map_values(|r: &ExtendedFormat| *r)
}

pub open spec fn aac(f: ExtendedFormat) -> bool {
    codec_starts(f.acodec, "mp4a"@)
}

/// A height within ten percent of `t`.
pub open spec fn in_band(f: ExtendedFormat, t: u32) -> bool {
    match f.height {
        Some(h) => t as int * 9 / 10 <= h && h <= t as int * 11 / 10,
        None => false,
    }
}

/// Which formats a search keeps: 1 H.264 only, 3 AAC only, 5 those in the
/// band of `t`, 6 the H.264 ones in that band, others all.
pub open spec fn keep_of(k: u8, t: u32) -> spec_fn(ExtendedFormat) -> bool {
    |f: ExtendedFormat| if k == 1 { h264(f) } else if k == 3 { aac(f) } else if k == 5 { in_band(f, t) }
        else if k == 6 { in_band(f, t) && h264(f) } else { true }
}

/// What a search maximises: 0 and 1 height, 2 and 3 audio rate, others size.
pub open spec fn key_of(k: u8) -> spec_fn(ExtendedFormat) -> int {
    |f: ExtendedFormat| if k <= 1 { height_key(f) } else if k <= 3 { abr_key(f) } else { size_key(f) }
}

fn in_band_exec(f: &ExtendedFormat, t: u32) -> (r: bool)
    ensures
        r == in_band(*f, t),
{
    match f.height {
        Some(h) => (t as u64) * 9 / 10 <= h as u64 && h as u64 <= (t as u64) * 11 / 10,
        None => false,
    }
}

fn keep_exec(f: &ExtendedFormat, k: u8, t: u32) -> (r: bool)
    ensures
        r == keep_of(k, t)(*f),
{
    if k == 1 { f.is_h264() } else if k == 3 { f.is_aac() } else if k == 5 { in_band_exec(f, t) }
    else if k == 6 { in_band_exec(f, t) && f.is_h264() } else { true }
}

fn key_exec(f: &ExtendedFormat, k: u8) -> (r: u64)
    ensures
        r as int == key_of(k)(*f),
{
    if k <= 1 {
        match f.height { Some(h) => h as u64, None => 0 }
    } else if k <= 3 {
        match f.abr { Some(b) => b as u64, None => 0 }
    } else {
        match f.effective_size() { Some(x) => x, None => 0 }
    }
}

/// Index of the last kept format with the largest key.
fn last_max_exec(formats: &[&ExtendedFormat], k: u8, t: u32) -> (r: Option<usize>)
    ensures
        match r { Some(b) => b as int, None => -1int } == last_max(derefs(formats@), keep_of(k, t), key_of(k), formats@.len() as int),
{
    let mut best: Option<usize> = None;
    let mut i: usize = 0;
    while i < formats.len()
        invariant
            i <= formats@.len(),
            match best { Some(b) => b as int, None => -1int } == last_max(derefs(formats@), keep_of(k, t), key_of(k), i as int),
        decreases formats@.len() - i,
    {
        proof {
            lemma_last_max_range(derefs(formats@), keep_of(k, t), key_of(k), i as int);
        }
        let f: &ExtendedFormat = formats[i];
        if keep_exec(f, k, t) {
            match best {
                None => {
                    best = Some(i);
                },
                Some(b) => {
                    if key_exec(f, k) >= key_exec(formats[b], k) {
                        best = Some(i);
                    }
                },
            }
        }
        i = i + 1;
    }
    best
}

/// Index of the best video format: the highest H.264 one, unless another
/// codec offers more than half again its height; with no H.264 format, the
/// highest of all. Among equal heights the later format wins.
pub open spec fn best_video_index(s: Seq<ExtendedFormat>) -> int {
    let h = last_max(s, keep_of(1, 0), key_of(1), s.len() as int);
    let a = last_max(s, keep_of(0, 0), key_of(0), s.len() as int);
    if h >= 0 {
        if height_key(s[a]) > height_key(s[h]) * 3 / 2 { a } else { h }
    } else {
        a
    }
}

/// Finds the best video format, preferring H.264 for compatibility.
pub fn find_best_video<'a>(formats: &[&'a ExtendedFormat]) -> (r: Option<&'a ExtendedFormat>)
    ensures
        r == pick(formats@, best_video_index(derefs(formats@))),
{
    let a = last_max_exec(formats, 0, 0);
    proof {
        lemma_last_max_range(derefs(formats@), keep_of(0, 0), key_of(0), formats@.len() as int);
        lemma_last_max_range(derefs(formats@), keep_of(1, 0), key_of(1), formats@.len() as int);
    }
    match last_max_exec(formats, 1, 0) {
        Some(h) => {
            proof {
                lemma_last_max_all_exists(derefs(formats@), h as int);
            }
            let ai = match a { Some(x) => x, None => h };
            let hh: u64 = key_exec(formats[h], 1);
            let ah: u64 = key_exec(formats[ai], 0);
            if ah > hh * 3 / 2 {
                Some(formats[ai])
            } else {
                Some(formats[h])
            }
        },
        None => match a {
            Some(x) => Some(formats[x]),
            None => None,
        },
    }
}

proof fn lemma_last_max_all_exists(s: Seq<ExtendedFormat>, i: int)
    requires
        0 <= i < s.len(),
    ensures
        last_max(s, keep_of(0, 0), key_of(0), s.len() as int) >= 0,
{
    lemma_last_max_all_prefix(s, i + 1);
    lemma_last_max_grows(s, i + 1, s.len() as int);
}

proof fn lemma_last_max_all_prefix(s: Seq<ExtendedFormat>, n: int)
    requires
        1 <= n <= s.len(),
    ensures
        last_max(s, keep_of(0, 0), key_of(0), n) >= 0,
{
    lemma_last_max_range(s, keep_of(0, 0), key_of(0), n - 1);
}

proof fn lemma_last_max_grows(s: Seq<ExtendedFormat>, m: int, n: int)
    requires
        1 <= m <= n <= s.len(),
        last_max(s, keep_of(0, 0), key_of(0), m) >= 0,
    ensures
        last_max(s, keep_of(0, 0), key_of(0), n) >= 0,
    decreases n - m,
{
    if m < n {
        lemma_last_max_range(s, keep_of(0, 0), key_of(0), m);
        lemma_last_max_grows(s, m + 1, n);
    }
}

/// Index of the format for the band around `t`: the largest H.264 one in
/// the band, else the largest in the band; the later one among equals.
pub open spec fn by_height_index(s: Seq<ExtendedFormat>, t: u32) -> int {
    let i = last_max(s, keep_of(6, t), key_of(6), s.len() as int);
    if i >= 0 { i } else { last_max(s, keep_of(5, t), key_of(5), s.len() as int) }
}

/// Finds the format for the band within ten percent of `target_height`,
/// preferring the largest H.264 one.
pub fn find_by_height<'a>(formats: &[&'a ExtendedFormat], target_height: u32) -> (r: Option<&'a ExtendedFormat>)
    ensures
        r == pick(formats@, by_height_index(derefs(formats@), target_height)),
        r matches Some(f) ==> in_band(*f, target_height),
{
    proof {
        lemma_last_max_range(derefs(formats@), keep_of(6, target_height), key_of(6), formats@.len() as int);
        lemma_last_max_range(derefs(formats@), keep_of(5, target_height), key_of(5), formats@.len() as int);
    }
    match last_max_exec(formats, 6, target_height) {
        Some(i) => Some(formats[i]),
        None => match last_max_exec(formats, 5, target_height) {
            Some(i) => Some(formats[i]),
            None => None,
        },
    }
}

/// Index of the best audio format: the AAC one with the highest rate, else
/// the highest rate of all (the later one among equals).
pub open spec fn best_audio_index(s: Seq<ExtendedFormat>) -> int {
    let a = last_max(s, keep_of(3, 0), key_of(3), s.len() as int);
    if a >= 0 { a } else { last_max(s, keep_of(2, 0), key_of(2), s.len() as int) }
}

/// Finds the best audio format, preferring AAC for compatibility.
pub fn find_best_audio<'a>(formats: &[&'a ExtendedFormat]) -> (r: Option<&'a ExtendedFormat>)
    ensures
        r == pick(formats@, best_audio_index(derefs(formats@))),
{
    proof {
        lemma_last_max_range(derefs(formats@), keep_of(3, 0), key_of(3), formats@.len() as int);
        lemma_last_max_range(derefs(formats@), keep_of(2, 0), key_of(2), formats@.len() as int);
    }
    match last_max_exec(formats, 3, 0) {
        Some(i) => Some(formats[i]),
        None => match last_max_exec(formats, 2, 0) {
            Some(i) => Some(formats[i]),
            None => None,
        },
    }
}

/// `n / d` rounded to the nearest integer, ties to the even one.
pub open spec fn round_even(n: nat, d: nat) -> nat
    recommends
        d > 0,
{
    let q = n / d;
    let r = n % d;
    if 2 * r > d || (2 * r == d && q % 2 == 1) { q + 1 } else { q }
}

pub const MIB: u64 = 1048576;
pub const GIB: u64 = 1073741824;

/// Display text of a size in bytes: tenths of a GiB from 1 GiB up, else
/// whole MiB.
pub open spec fn size_text(b: nat) -> Seq<char> {
    if b >= GIB {
        let t = round_even(b * 10, GIB as nat);
        decimal(t / 10) + seq!['.', digit(t % 10)] + " GB"@
    } else {
        decimal(round_even(b, MIB as nat)) + " MB"@
    }
}

pub open spec fn opt_size_text(b: Option<u64>) -> Option<Seq<char>> {
    match b {
        Some(x) => Some(size_text(x as nat)),
        None => None,
    }
}

fn round_even_exec(n: u128, d: u128) -> (r: u128)
    requires
        0 < d <= u64::MAX,
        n / d < u128::MAX,
    ensures
        r == round_even(n as nat, d as nat),
{
    let q = n / d;
    let r = n % d;
    if 2 * r > d || (2 * r == d && q % 2 == 1) { q + 1 } else { q }
}

/// Formats a size for display.
pub fn format_size(bytes: Option<u64>) -> (r: Option<String>)
    ensures
        match r { Some(x) => Some(x@), None => None } == opt_size_text(bytes),
{
    match bytes {
        None => None,
        Some(b) => {
            let mut s = String::new();
            if b >= GIB {
                let t = round_even_exec(b as u128 * 10, GIB as u128);
                assert(t <= 200000000000u128) by (nonlinear_arith) requires t == round_even(b as nat * 10, GIB as nat), b <= u64::MAX, GIB == 1073741824;
                push_decimal(&mut s, (t / 10) as u64);
                push_char(&mut s, '.');
                let d = (t % 10) as u64;
                let c: char = if d == 0 { '0' } else if d == 1 { '1' } else if d == 2 { '2' } else if d == 3 { '3' }
                    else if d == 4 { '4' } else if d == 5 { '5' } else if d == 6 { '6' } else if d == 7 { '7' }
                    else if d == 8 { '8' } else { '9' };
                push_char(&mut s, c);
                push_str(&mut s, " GB");
                assert(s@ =~= size_text(b as nat));
            } else {
                let t = round_even_exec(b as u128, MIB as u128);
                push_decimal(&mut s, t as u64);
                push_str(&mut s, " MB");
                assert(s@ =~= size_text(b as nat));
            }
            Some(s)
        },
    }
}

/// Position of the first '.' in `v`, or its length if there is none.
pub open spec fn dot_pos(v: Seq<char>) -> nat
    decreases v.len(),
{
    if v.len() == 0 {
        0
    } else if v[0] == '.' {
        0
    } else {
        1 + dot_pos(v.drop_first())
    }
}

pub proof fn lemma_dot_pos_bound_pub(v: Seq<char>)
    ensures
        dot_pos(v) <= v.len(),
    decreases v.len(),
{
    if v.len() > 0 && v[0] != '.' {
        lemma_dot_pos_bound_pub(v.drop_first());
    }
}

/// Readable codec name of a format.
pub open spec fn codec_label(f: ExtendedFormat) -> Seq<char> {
    if h264(f) {
        "H.264"@
    } else if codec_starts(f.vcodec, "vp9"@) {
        "VP9"@
    } else if codec_starts(f.vcodec, "av01"@) {
        "AV1"@
    } else {
        match f.vcodec {
            Some(v) => v@.subrange(0, dot_pos(v@) as int),
            None => "Unknown"@,
        }
    }
}

fn before_dot(v: &str) -> (r: String)
    ensures
        r@ == v@.subrange(0, dot_pos(v@) as int),
{
    let c = chars_of(v);
    let mut i: usize = 0;
    proof { lemma_dot_pos_bound_pub(v@); }
    assert(c@.subrange(0, c@.len() as int) =~= c@);
    while i < c.len() && c[i] != '.'
        invariant
            c@ == v@,
            i <= c@.len(),
            dot_pos(v@) == i + dot_pos(c@.subrange(i as int, c@.len() as int)),
        decreases c@.len() - i,
    {
        assert(c@.subrange(i as int, c@.len() as int).drop_first() =~= c@.subrange(i + 1, c@.len() as int));
        i = i + 1;
    }
    let mut out = String::new();
    let mut j: usize = 0;
    while j < i
        invariant
            c@ == v@,
            j <= i <= c@.len(),
            out@ == c@.subrange(0, j as int),
        decreases i - j,
    {
        push_char(&mut out, c[j]);
        j = j + 1;
        assert(out@ =~= c@.subrange(0, j as int));
    }
    out
}

/// Readable codec name of a format.
pub fn get_codec_label(format: &ExtendedFormat) -> (r: String)
    ensures
        r@ == codec_label(*format),
{
    if format.is_h264() {
        "H.264".to_string()
    } else if format.is_vp9() {
        "VP9".to_string()
    } else if format.is_av1() {
        "AV1".to_string()
    } else {
        match &format.vcodec {
            Some(v) => before_dot(v.as_str()),
            None => "Unknown".to_string(),
        }
    }
}

pub open spec fn video_kind(f: ExtendedFormat) -> bool {
    match f.vcodec {
        Some(v) => v@ != "none"@ && v@.len() > 0,
        None => false,
    }
}

pub open spec fn audio_kind(f: ExtendedFormat) -> bool {
    (match f.vcodec { Some(v) => v@ == "none"@, None => true })
        && match f.acodec {
            Some(a) => a@ != "none"@ && a@.len() > 0,
            None => false,
        }
}

/// The formats among the first `n` that `keep` keeps, in order.
pub open spec fn kept(s: Seq<ExtendedFormat>, keep: spec_fn(ExtendedFormat) -> bool, n: int) -> Seq<ExtendedFormat>
    decreases n,
{
    if n <= 0 {
        seq![]
    } else if keep(s[n - 1]) {
        kept(s, keep, n - 1).push(s[n - 1])
    } else {
        kept(s, keep, n - 1)
    }
}

fn text_is(v: &String, t: &str) -> (r: bool)
    ensures
        r == (v@ == t@),
{
    crate::download::same_text(v.as_str(), t)
}

fn video_exec(f: &ExtendedFormat) -> (r: bool)
    ensures
        r == video_kind(*f),
{
    match &f.vcodec {
        Some(v) => !text_is(v, "none") && !v.as_str().is_empty(),
        None => false,
    }
}

fn audio_exec(f: &ExtendedFormat) -> (r: bool)
    ensures
        r == audio_kind(*f),
{
    let no_video = match &f.vcodec {
        Some(v) => text_is(v, "none"),
        None => true,
    };
    no_video && match &f.acodec {
        Some(a) => !text_is(a, "none") && !a.as_str().is_empty(),
        None => false,
    }
}

/// The video formats (`video == true`) or the audio-only formats, in order.
fn split_formats<'a>(formats: &'a [ExtendedFormat], video: bool) -> (r: Vec<&'a ExtendedFormat>)
    ensures
        derefs(r@) == kept(formats@, if video { video_keep() } else { audio_keep() }, formats@.len() as int),
{
    let ghost keep = if video { video_keep() } else { audio_keep() };
    let mut out: Vec<&'a ExtendedFormat> = Vec::new();
    let mut i: usize = 0;
    while i < formats.len()
        invariant
            i <= formats@.len(),
            derefs(out@) == kept(formats@, keep, i as int),
            keep == (if video { video_keep() } else { audio_keep() }),
        decreases formats@.len() - i,
    {
        let f: &'a ExtendedFormat = &formats[i];
        let k = if video { video_exec(f) } else { audio_exec(f) };
        let ghost before = out@;
        if k {
            out.push(f);
            assert(derefs(out@) =~= derefs(before).push(*f));
        }
        i = i + 1;
    }
    out
}

pub open spec fn video_keep() -> spec_fn(ExtendedFormat) -> bool {
    |f: ExtendedFormat| video_kind(f)
}

pub open spec fn audio_keep() -> spec_fn(ExtendedFormat) -> bool {
    |f: ExtendedFormat| audio_kind(f)
}

/// A quality option for the user. `bitrate` is in hundredths of kbit/s.
#[derive(Debug, Clone)]
pub struct QualityOption {
    pub label: String,
    pub value: String,
    pub format_spec: String,
    pub estimated_size: Option<String>,
    pub codec_info: Option<String>,
    pub height: Option<u32>,
    pub bitrate: Option<u32>,
    pub is_audio: bool,
    pub is_recommended: bool,
}

/// The content of a `QualityOption`.
pub ghost struct OptionView {
    pub label: Seq<char>,
    pub value: Seq<char>,
    pub format_spec: Seq<char>,
    pub estimated_size: Option<Seq<char>>,
    pub codec_info: Option<Seq<char>>,
    pub height: Option<u32>,
    pub bitrate: Option<u32>,
    pub is_audio: bool,
    pub is_recommended: bool,
}

pub open spec fn otext(o: Option<String>) -> Option<Seq<char>> {
    match o {
        Some(s) => Some(s@),
        None => None,
    }
}

pub open spec fn option_view(o: QualityOption) -> OptionView {
    OptionView {
        label: o.label@,
        value: o.value@,
        format_spec: o.format_spec@,
        estimated_size: otext(o.estimated_size),
        codec_info: otext(o.codec_info),
        height: o.height,
        bitrate: o.bitrate,
        is_audio: o.is_audio,
        is_recommended: o.is_recommended,
    }
}

pub open spec fn options_view(v: Seq<QualityOption>) -> Seq<OptionView> {
    v.map_values(|o: QualityOption| option_view(o))
}

pub const BEST_SPEC: &'static str = "bv*+ba/best";
pub const AUDIO_SPEC: &'static str = "ba/b";
pub const AUDIO_LABEL: &'static str = "Audio Only (MP3)";

/// A sum of sizes, capped at the largest `u64`.
pub open spec fn capped_sum(a: int, b: int) -> nat {
    if a + b > u64::MAX { u64::MAX as nat } else { (a + b) as nat }
}

pub open spec fn dims(w: Option<u32>, h: Option<u32>) -> Seq<char> {
    "("@ + decimal(match w { Some(x) => x as nat, None => 0 }) + "x"@
        + decimal(match h { Some(x) => x as nat, None => 0 }) + ")"@
}

pub open spec fn best_view(f: ExtendedFormat, audio_size: int) -> OptionView {
    OptionView {
        label: "Best Quality "@ + dims(f.width, f.height),
        value: "best"@,
        format_spec: BEST_SPEC@,
        estimated_size: Some(size_text(capped_sum(size_key(f), audio_size))),
        codec_info: Some(codec_label(f)),
        height: f.height,
        bitrate: f.tbr,
        is_audio: false,
        is_recommended: h264(f),
    }
}

pub open spec fn no_video_view() -> OptionView {
    OptionView {
        label: "Best Quality"@,
        value: "best"@,
        format_spec: BEST_SPEC@,
        estimated_size: None,
        codec_info: None,
        height: None,
        bitrate: None,
        is_audio: false,
        is_recommended: true,
    }
}

pub open spec fn height_spec(t: u32) -> Seq<char> {
    "bv*[height<="@ + decimal(t as nat) + "]+ba/b[height<="@ + decimal(t as nat) + "]/bv*+ba/best"@
}

pub open spec fn resolution_view(f: ExtendedFormat, label: Seq<char>, t: u32, audio_size: int) -> OptionView {
    OptionView {
        label: label + " "@ + dims(f.width, f.height),
        value: label,
        format_spec: height_spec(t),
        estimated_size: Some(size_text(capped_sum(size_key(f), audio_size))),
        codec_info: Some(codec_label(f)),
        height: f.height,
        bitrate: f.tbr,
        is_audio: false,
        is_recommended: h264(f),
    }
}

/// The option for the band around `t`, unless there is no format in the band
/// or it has the same height as the best option.
pub open spec fn resolution_part(v: Seq<ExtendedFormat>, label: Seq<char>, t: u32, first_height: Option<u32>, audio_size: int) -> Seq<OptionView> {
    let i = by_height_index(v, t);
    if i < 0 || first_height == v[i].height {
        seq![]
    } else {
        seq![resolution_view(v[i], label, t, audio_size)]
    }
}

pub open spec fn audio_view(a: Option<ExtendedFormat>) -> OptionView {
    match a {
        Some(f) => OptionView {
            label: AUDIO_LABEL@,
            value: "audio"@,
            format_spec: AUDIO_SPEC@,
            estimated_size: opt_size_text(size_of(f)),
            codec_info: otext(f.acodec),
            height: None,
            bitrate: f.abr,
            is_audio: true,
            is_recommended: false,
        },
        None => OptionView {
            label: AUDIO_LABEL@,
            value: "audio"@,
            format_spec: AUDIO_SPEC@,
            estimated_size: None,
            codec_info: None,
            height: None,
            bitrate: None,
            is_audio: true,
            is_recommended: false,
        },
    }
}

/// The options offered for a format list: the best option, one option per
/// standard resolution present (1080p, 720p, 480p, 360p) whose height differs
/// from the best one, and audio only. Sizes of video options include the best
/// audio format's size.
pub open spec fn quality_options(s: Seq<ExtendedFormat>) -> Seq<OptionView> {
    let v = kept(s, video_keep(), s.len() as int);
    let a = kept(s, audio_keep(), s.len() as int);
    let ai = best_audio_index(a);
    let audio_size = if ai >= 0 { size_key(a[ai]) } else { 0 };
    let vi = best_video_index(v);
    let first = if vi >= 0 { best_view(v[vi], audio_size) } else { no_video_view() };
    seq![first]
        + resolution_part(v, "1080p"@, 1080, first.height, audio_size)
        + resolution_part(v, "720p"@, 720, first.height, audio_size)
        + resolution_part(v, "480p"@, 480, first.height, audio_size)
        + resolution_part(v, "360p"@, 360, first.height, audio_size)
        + seq![audio_view(if ai >= 0 { Some(a[ai]) } else { None })]
}

fn push_dims(s: &mut String, w: Option<u32>, h: Option<u32>)
    ensures
        final(s)@ == old(s)@ + dims(w, h),
{
    push_str(s, "(");
    push_decimal(s, match w { Some(x) => x as u64, None => 0 });
    push_str(s, "x");
    push_decimal(s, match h { Some(x) => x as u64, None => 0 });
    push_str(s, ")");
    assert(final(s)@ =~= old(s)@ + dims(w, h));
}

fn capped_add(a: u64, b: u64) -> (r: u64)
    ensures
        r == capped_sum(a as int, b as int),
{
    if a > u64::MAX - b { u64::MAX } else { a + b }
}

fn size_or_zero(f: &ExtendedFormat) -> (r: u64)
    ensures
        r == size_key(*f),
{
    match f.effective_size() {
        Some(x) => x,
        None => 0,
    }
}

fn best_option(f: &ExtendedFormat, audio_size: u64) -> (o: QualityOption)
    ensures
        option_view(o) == best_view(*f, audio_size as int),
{
    let mut label = "Best Quality ".to_string();
    push_dims(&mut label, f.width, f.height);
    let size = format_size(Some(capped_add(size_or_zero(f), audio_size)));
    QualityOption {
        label,
        value: "best".to_string(),
        format_spec: BEST_SPEC.to_string(),
        estimated_size: size,
        codec_info: Some(get_codec_label(f)),
        height: f.height,
        bitrate: f.tbr,
        is_audio: false,
        is_recommended: f.is_h264(),
    }
}

fn no_video_option() -> (o: QualityOption)
    ensures
        option_view(o) == no_video_view(),
{
    QualityOption {
        label: "Best Quality".to_string(),
        value: "best".to_string(),
        format_spec: BEST_SPEC.to_string(),
        estimated_size: None,
        codec_info: None,
        height: None,
        bitrate: None,
        is_audio: false,
        is_recommended: true,
    }
}

fn push_option(v: &mut Vec<QualityOption>, o: QualityOption)
    ensures
        options_view(final(v)@) == options_view(old(v)@).push(option_view(o)),
{
    let ghost before = v@;
    v.push(o);
    assert(options_view(v@) =~= options_view(before).push(option_view(o)));
}

fn push_resolution(
    options: &mut Vec<QualityOption>,
    video: &[&ExtendedFormat],
    label: &str,
    t: u32,
    first_height: Option<u32>,
    audio_size: u64,
)
    ensures
        options_view(final(options)@) == options_view(old(options)@)
            + resolution_part(derefs(video@), label@, t, first_height, audio_size as int),
{
    let ghost before = options_view(options@);
    proof {
        lemma_last_max_range(derefs(video@), keep_of(6, t), key_of(6), video@.len() as int);
        lemma_last_max_range(derefs(video@), keep_of(5, t), key_of(5), video@.len() as int);
    }
    let ghost i = by_height_index(derefs(video@), t);
    match find_by_height(video, t) {
        Some(f) => {
            assert(derefs(video@)[i] == *f);
            if first_height != f.height {
                let mut l = label.to_string();
                push_str(&mut l, " ");
                push_dims(&mut l, f.width, f.height);
                let mut spec = "bv*[height<=".to_string();
                push_decimal(&mut spec, t as u64);
                push_str(&mut spec, "]+ba/b[height<=");
                push_decimal(&mut spec, t as u64);
                push_str(&mut spec, "]/bv*+ba/best");
                assert(spec@ =~= height_spec(t));
                let size = format_size(Some(capped_add(size_or_zero(f), audio_size)));
                let o = QualityOption {
                    label: l,
                    value: label.to_string(),
                    format_spec: spec,
                    estimated_size: size,
                    codec_info: Some(get_codec_label(f)),
                    height: f.height,
                    bitrate: f.tbr,
                    is_audio: false,
                    is_recommended: f.is_h264(),
                };
                push_option(options, o);
                assert(options_view(options@) =~= before + resolution_part(derefs(video@), label@, t, first_height, audio_size as int));
            } else {
                assert(options_view(options@) =~= before + resolution_part(derefs(video@), label@, t, first_height, audio_size as int));
            }
        },
        None => {
            assert(options_view(options@) =~= before + resolution_part(derefs(video@), label@, t, first_height, audio_size as int));
        },
    }
}

fn audio_option(a: Option<&ExtendedFormat>) -> (o: QualityOption)
    ensures
        option_view(o) == audio_view(match a { Some(f) => Some(*f), None => None }),
{
    match a {
        Some(f) => QualityOption {
            label: AUDIO_LABEL.to_string(),
            value: "audio".to_string(),
            format_spec: AUDIO_SPEC.to_string(),
            estimated_size: format_size(f.effective_size()),
            codec_info: f.acodec.clone(),
            height: None,
            bitrate: f.abr,
            is_audio: true,
            is_recommended: false,
        },
        None => QualityOption {
            label: AUDIO_LABEL.to_string(),
            value: "audio".to_string(),
            format_spec: AUDIO_SPEC.to_string(),
            estimated_size: None,
            codec_info: None,
            height: None,
            bitrate: None,
            is_audio: true,
            is_recommended: false,
        },
    }
}

/// Format selection: builds the quality options for a format list.
pub struct FormatSelector;

impl FormatSelector {
    /// Builds the quality options offered for `formats`.
    pub fn build_quality_options(formats: &[ExtendedFormat]) -> (r: Vec<QualityOption>)
        ensures
            options_view(r@) == quality_options(formats@),
    {
        let video = split_formats(formats, true);
        let audio = split_formats(formats, false);
        let best_audio = find_best_audio(audio.as_slice());
        let audio_size: u64 = match best_audio {
            Some(a) => size_or_zero(a),
            None => 0,
        };
        proof {
            lemma_last_max_range(derefs(audio@), keep_of(3, 0), key_of(3), audio@.len() as int);
            lemma_last_max_range(derefs(audio@), keep_of(2, 0), key_of(2), audio@.len() as int);
        }
        let mut options: Vec<QualityOption> = Vec::new();
        let first_height: Option<u32> = match find_best_video(video.as_slice()) {
            Some(b) => {
                push_option(&mut options, best_option(b, audio_size));
                b.height
            },
            None => {
                push_option(&mut options, no_video_option());
                None
            },
        };
        push_resolution(&mut options, video.as_slice(), "1080p", 1080, first_height, audio_size);
        push_resolution(&mut options, video.as_slice(), "720p", 720, first_height, audio_size);
        push_resolution(&mut options, video.as_slice(), "480p", 480, first_height, audio_size);
        push_resolution(&mut options, video.as_slice(), "360p", 360, first_height, audio_size);
        push_option(&mut options, audio_option(best_audio));
        proof {
            let v = kept(formats@, video_keep(), formats@.len() as int);
            let vi = best_video_index(v);
            lemma_last_max_range(v, keep_of(0, 0), key_of(0), v.len() as int);
            lemma_last_max_range(v, keep_of(1, 0), key_of(1), v.len() as int);
            assert(options_view(options@) =~= quality_options(formats@));
        }
        options
    }

    /// Finds the best video format, preferring H.264 for compatibility.
    pub fn find_best_video<'a>(formats: &[&'a ExtendedFormat]) -> (r: Option<&'a ExtendedFormat>)
        ensures
            r == pick(formats@, best_video_index(derefs(formats@))),
    {
        find_best_video(formats)
    }

    /// The tool's format selector for a quality value.
    pub fn get_format_spec(quality: &str) -> (r: String)
        ensures
            r@ == format_spec_for(quality@),
    {
        let q = quality;
        if crate::download::same_text(q, "best") {
            BEST_SPEC.to_string()
        } else if crate::download::same_text(q, "1080p") {
            "bv*[height<=1080]+ba/b[height<=1080]/bv*+ba/best".to_string()
        } else if crate::download::same_text(q, "720p") {
            "bv*[height<=720]+ba/b[height<=720]/bv*+ba/best".to_string()
        } else if crate::download::same_text(q, "480p") {
            "bv*[height<=480]+ba/b[height<=480]/bv*+ba/best".to_string()
        } else if crate::download::same_text(q, "360p") {
            "bv*[height<=360]+ba/b[height<=360]/bv*+ba/best".to_string()
        } else if crate::download::same_text(q, "audio") {
            AUDIO_SPEC.to_string()
        } else {
            BEST_SPEC.to_string()
        }
    }

    /// The quality to suggest: the highest standard resolution not above the
    /// tallest format (1080p, 720p or 480p), else best.
    pub fn recommend_quality(formats: &[ExtendedFormat]) -> (r: &'static str)
        ensures
            r@ == recommended_for(max_height(formats@, formats@.len() as int)),
    {
        let mut m: u32 = 0;
        let mut i: usize = 0;
        while i < formats.len()
            invariant
                i <= formats@.len(),
                m as int == max_height(formats@, i as int),
            decreases formats@.len() - i,
        {
            match formats[i].height {
                Some(h) => {
                    if h > m {
                        m = h;
                    }
                },
                None => {},
            }
            i = i + 1;
        }
        if m >= 1080 {
            "1080p"
        } else if m >= 720 {
            "720p"
        } else if m >= 480 {
            "480p"
        } else {
            "best"
        }
    }
}

pub open spec fn format_spec_for(q: Seq<char>) -> Seq<char> {
    if q == "best"@ {
        BEST_SPEC@
    } else if q == "1080p"@ {
        "bv*[height<=1080]+ba/b[height<=1080]/bv*+ba/best"@
    } else if q == "720p"@ {
        "bv*[height<=720]+ba/b[height<=720]/bv*+ba/best"@
    } else if q == "480p"@ {
        "bv*[height<=480]+ba/b[height<=480]/bv*+ba/best"@
    } else if q == "360p"@ {
        "bv*[height<=360]+ba/b[height<=360]/bv*+ba/best"@
    } else if q == "audio"@ {
        AUDIO_SPEC@
    } else {
        BEST_SPEC@
    }
}

/// The largest known height among the first `n` formats, 0 if none.
pub open spec fn max_height(s: Seq<ExtendedFormat>, n: int) -> int
    decreases n,
{
    if n <= 0 {
        0
    } else {
        let m = max_height(s, n - 1);
        match s[n - 1].height {
            Some(h) => if h > m { h as int } else { m },
            None => m,
        }
    }
}

pub open spec fn recommended_for(m: int) -> Seq<char> {
    if m >= 1080 { "1080p"@ } else if m >= 720 { "720p"@ } else if m >= 480 { "480p"@ } else { "best"@ }
}

/// Building the options twice from the same list gives the same options:
/// the result is a function of the list alone.
pub proof fn quality_options_are_deterministic(formats: Seq<ExtendedFormat>, r1: Seq<QualityOption>, r2: Seq<QualityOption>)
    requires
        options_view(r1) == quality_options(formats),
        options_view(r2) == quality_options(formats),
    ensures
        options_view(r1) == options_view(r2),
{
}

} // verus!
