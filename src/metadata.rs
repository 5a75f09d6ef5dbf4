//! What the library reads from the tool's metadata document, held as plain
//! values, and what it derives from it: the restriction notice, the format
//! options and the video record.
use vstd::prelude::*;
use crate::text::{chars_of, contains, decimal, has, lower_of, lowercase, push_decimal, push_str};
use crate::download::{opt_text, same_text, texts};
use crate::format_selector::{capped_sum, format_size, size_text};

verus! {

/// One entry of the document's format list.
#[derive(Debug, Clone)]
pub struct RawFormat {
    pub vcodec: Option<String>,
    pub acodec: Option<String>,
    pub width: Option<u64>,
    pub height: Option<u64>,
    pub filesize: Option<u64>,
    pub filesize_approx: Option<u64>,
    pub protocol: Option<String>,
    pub url: Option<String>,
    /// `drm` is the boolean true.
    pub drm: bool,
    /// `has_drm` is the boolean true.
    pub has_drm: bool,
    /// A `_drm_scheme` field is present.
    pub drm_scheme: bool,
}

/// The fields of the metadata document that the library reads. A flag is
/// true when the field holds the boolean true.
#[derive(Debug, Clone)]
pub struct VideoJson {
    pub title: Option<String>,
    pub uploader: Option<String>,
    pub thumbnail: Option<String>,
    pub duration_secs: u64,
    pub availability: Option<String>,
    pub age_limit: Option<u64>,
    pub categories: Vec<String>,
    pub description: Option<String>,
    pub extractor: Option<String>,
    pub is_paid_video: bool,
    pub requires_payment: bool,
    pub paid_content: bool,
    pub is_premium: bool,
    pub requires_premium: bool,
    pub subscriber_only: bool,
    pub is_member_only: bool,
    pub formats: Option<Vec<RawFormat>>,
}

/// Content restriction notice for the user.
#[derive(Debug, Clone)]
pub struct RestrictionInfo {
    /// One of "none", "drm", "premium", "members_only", "paid", "age_restricted".
    pub restriction_type: String,
    pub is_downloadable: bool,
    pub message: String,
    pub suggestions: Vec<String>,
}

pub ghost struct RestrictionView {
    pub kind: Seq<char>,
    pub downloadable: bool,
    pub message: Seq<char>,
    pub suggestions: Seq<Seq<char>>,
}

pub open spec fn restriction_view(r: RestrictionInfo) -> RestrictionView {
    RestrictionView {
        kind: r.restriction_type@,
        downloadable: r.is_downloadable,
        message: r.message@,
        suggestions: texts(r.suggestions@),
    }
}

pub open spec fn drm_notice(content: Seq<char>) -> RestrictionView {
    RestrictionView {
        kind: "drm"@,
        downloadable: false,
        message: "\u{1F512} This "@ + content + " is DRM-protected and cannot be downloaded."@,
        suggestions: seq!["\u{2714} Available offline in YouTube app (with Premium)"@,
            "\u{2714} Can be screen-recorded"@, "\u{2716} Cannot be downloaded as a file"@],
    }
}

pub open spec fn premium_notice() -> RestrictionView {
    RestrictionView {
        kind: "premium"@,
        downloadable: false,
        message: "\u{1F512} This content requires YouTube Premium."@,
        suggestions: seq!["\u{2714} Available offline in YouTube app (Premium subscription)"@,
            "\u{2716} Cannot be downloaded as a file"@],
    }
}

pub open spec fn members_notice() -> RestrictionView {
    RestrictionView {
        kind: "members_only"@,
        downloadable: true,
        message: "\u{1F3AB} This video requires channel membership."@,
        suggestions: seq!["\u{2714} Use cookies from a browser where you're a member"@,
            "\u{2716} Cannot be downloaded without membership"@],
    }
}

pub open spec fn paid_notice() -> RestrictionView {
    RestrictionView {
        kind: "paid"@,
        downloadable: false,
        message: "\u{1F4B3} This content requires purchase or rental."@,
        suggestions: seq!["This is paid content (movie/rental)"@,
            "\u{2716} Cannot be downloaded - DRM protection"@],
    }
}

pub open spec fn age_notice() -> RestrictionView {
    RestrictionView {
        kind: "age_restricted"@,
        downloadable: true,
        message: "\u{1F51E} This video is age-restricted."@,
        suggestions: seq!["\u{2714} Use cookies from a logged-in browser"@, "Your account must be 18+"@],
    }
}

pub open spec fn no_notice() -> RestrictionView {
    RestrictionView { kind: "none"@, downloadable: true, message: seq![], suggestions: seq![] }
}

fn texts_of(items: &[&str]) -> (r: Vec<String>)
    ensures
        texts(r@) == items@.map_values(|s: &str| s@),
{
    let mut v: Vec<String> = Vec::new();
    let mut i: usize = 0;
    while i < items.len()
        invariant
            i <= items@.len(),
            texts(v@) == items@.subrange(0, i as int).map_values(|s: &str| s@),
        decreases items@.len() - i,
    {
        let ghost before = v@;
        let t: String = items[i].to_string();
        assert(t@ == items@[i as int]@);
        v.push(t);
        assert(texts(v@) =~= texts(before).push(items@[i as int]@));
        assert(items@.subrange(0, i + 1).map_values(|s: &str| s@) =~= items@.subrange(0, i as int).map_values(|s: &str| s@).push(items@[i as int]@));
        i = i + 1;
        assert(texts(v@) =~= items@.subrange(0, i as int).map_values(|s: &str| s@));
    }
    assert(items@.subrange(0, items@.len() as int) =~= items@);
    v
}

impl RestrictionInfo {
    /// No restriction.
    pub fn none() -> (r: Self)
        ensures
            restriction_view(r) == no_notice(),
    {
        let r = RestrictionInfo {
            restriction_type: "none".to_string(),
            is_downloadable: true,
            message: String::new(),
            suggestions: Vec::new(),
        };
        assert(texts(r.suggestions@) =~= seq![]);
        r
    }

    /// DRM-protected content of the given kind.
    pub fn drm(content_type: &str) -> (r: Self)
        ensures
            restriction_view(r) == drm_notice(content_type@),
    {
        let mut m = "\u{1F512} This ".to_string();
        push_str(&mut m, content_type);
        push_str(&mut m, " is DRM-protected and cannot be downloaded.");
        let items: [&str; 3] = ["\u{2714} Available offline in YouTube app (with Premium)",
            "\u{2714} Can be screen-recorded", "\u{2716} Cannot be downloaded as a file"];
        let s = texts_of(&items);
        let r = RestrictionInfo { restriction_type: "drm".to_string(), is_downloadable: false, message: m, suggestions: s };
        assert(texts(r.suggestions@) =~= drm_notice(content_type@).suggestions);
        r
    }

    /// Content for Premium subscribers.
    pub fn premium() -> (r: Self)
        ensures
            restriction_view(r) == premium_notice(),
    {
        let items: [&str; 2] = ["\u{2714} Available offline in YouTube app (Premium subscription)",
            "\u{2716} Cannot be downloaded as a file"];
        let s = texts_of(&items);
        let r = RestrictionInfo {
            restriction_type: "premium".to_string(),
            is_downloadable: false,
            message: "\u{1F512} This content requires YouTube Premium.".to_string(),
            suggestions: s,
        };
        assert(texts(r.suggestions@) =~= premium_notice().suggestions);
        r
    }

    /// Content for channel members; downloadable with the right cookies.
    pub fn members_only() -> (r: Self)
        ensures
            restriction_view(r) == members_notice(),
    {
        let items: [&str; 2] = ["\u{2714} Use cookies from a browser where you're a member",
            "\u{2716} Cannot be downloaded without membership"];
        let s = texts_of(&items);
        let r = RestrictionInfo {
            restriction_type: "members_only".to_string(),
            is_downloadable: true,
            message: "\u{1F3AB} This video requires channel membership.".to_string(),
            suggestions: s,
        };
        assert(texts(r.suggestions@) =~= members_notice().suggestions);
        r
    }

    /// Paid content (purchase or rental).
    pub fn paid() -> (r: Self)
        ensures
            restriction_view(r) == paid_notice(),
    {
        let items: [&str; 2] = ["This is paid content (movie/rental)",
            "\u{2716} Cannot be downloaded - DRM protection"];
        let s = texts_of(&items);
        let r = RestrictionInfo {
            restriction_type: "paid".to_string(),
            is_downloadable: false,
            message: "\u{1F4B3} This content requires purchase or rental.".to_string(),
            suggestions: s,
        };
        assert(texts(r.suggestions@) =~= paid_notice().suggestions);
        r
    }

    /// Age-restricted content; downloadable with a login.
    pub fn age_restricted() -> (r: Self)
        ensures
            restriction_view(r) == age_notice(),
    {
        let items: [&str; 2] = ["\u{2714} Use cookies from a logged-in browser", "Your account must be 18+"];
        let s = texts_of(&items);
        let r = RestrictionInfo {
            restriction_type: "age_restricted".to_string(),
            is_downloadable: true,
            message: "\u{1F51E} This video is age-restricted.".to_string(),
            suggestions: s,
        };
        assert(texts(r.suggestions@) =~= age_notice().suggestions);
        r
    }
}

pub open spec fn text_or_empty(o: Option<String>) -> Seq<char> {
    match o {
        Some(s) => s@,
        None => seq![],
    }
}

pub open spec fn format_has_drm(f: RawFormat) -> bool {
    f.drm || f.has_drm || f.drm_scheme || match f.protocol {
        Some(p) => contains(p@, "drm"@),
        None => false,
    }
}

/// A format that is only a manifest, with no direct URL.
pub open spec fn manifest_only(f: RawFormat) -> bool {
    (text_or_empty(f.protocol) == "m3u8_native"@ || text_or_empty(f.protocol) == "http_dash_segments"@)
        && text_or_empty(f.url).len() == 0
}

pub open spec fn any_drm(fs: Option<Vec<RawFormat>>) -> bool {
    match fs {
        Some(v) => exists|i: int| 0 <= i < v@.len() && format_has_drm(#[trigger] v@[i]),
        None => false,
    }
}

/// No format can be downloaded directly (or there is no format list).
pub open spec fn nothing_direct(fs: Option<Vec<RawFormat>>) -> bool {
    match fs {
        Some(v) => forall|i: int| 0 <= i < v@.len() ==> manifest_only(#[trigger] v@[i]),
        None => true,
    }
}

pub open spec fn movie_category(cats: Seq<String>) -> bool {
    exists|i: int| 0 <= i < cats.len() && contains(lower_of(#[trigger] cats[i]@), "movie"@)
}

pub open spec fn premium_marks(j: VideoJson) -> bool {
    j.is_premium || j.requires_premium || contains(lower_of(text_or_empty(j.description)), "youtube premium"@)
        || contains(lower_of(text_or_empty(j.title)), "premium"@)
}

pub open spec fn music_premium(j: VideoJson) -> bool {
    (match j.extractor {
        Some(e) => contains(e@, "music"@) || e@ == "youtube:music"@,
        None => false,
    }) && premium_marks(j)
}

pub open spec fn paid_marks(j: VideoJson) -> bool {
    j.is_paid_video || j.requires_payment || j.paid_content || text_or_empty(j.availability) == "premium_only"@
        || movie_category(j.categories@)
}

pub open spec fn member_marks(j: VideoJson) -> bool {
    text_or_empty(j.availability) == "subscriber_only"@ || j.subscriber_only || j.is_member_only
        || contains(lower_of(text_or_empty(j.description)), "members only"@)
        || contains(lower_of(text_or_empty(j.description)), "members-only"@)
}

/// The restriction read from the document: age first, then DRM (a DRM flag
/// on a format, or no directly downloadable format), then paid, Premium and
/// members-only content.
pub open spec fn restriction_of(j: VideoJson) -> RestrictionView {
    if (match j.age_limit { Some(a) => a >= 18, None => false }) || text_or_empty(j.availability) == "needs_auth"@ {
        age_notice()
    } else if any_drm(j.formats) || nothing_direct(j.formats) {
        drm_notice(if music_premium(j) {
            "YouTube Music track"@
        } else if movie_category(j.categories@) {
            "movie"@
        } else {
            "video"@
        })
    } else if paid_marks(j) {
        paid_notice()
    } else if premium_marks(j) || music_premium(j) {
        premium_notice()
    } else if member_marks(j) {
        members_notice()
    } else {
        no_notice()
    }
}

fn opt_is(o: &Option<String>, t: &str) -> (r: bool)
    ensures
        r == (text_or_empty(*o) == t@),
{
    match o {
        Some(s) => {
            assert(text_or_empty(*o) == s@);
            same_text(s.as_str(), t)
        },
        None => {
            let c = chars_of(t);
            assert(c@.len() == 0 ==> c@ =~= Seq::<char>::empty());
            c.len() == 0
        },
    }
}

fn lower_has(o: &Option<String>, k: &str) -> (r: bool)
    ensures
        r == contains(lower_of(text_or_empty(*o)), k@),
{
    let l = match o {
        Some(s) => {
            assert(text_or_empty(*o) == s@);
            lowercase(s.as_str())
        },
        None => {
            let e = String::new();
            lowercase(e.as_str())
        },
    };
    let c = chars_of(l.as_str());
    has(&c, k)
}

fn format_drm_exec(f: &RawFormat) -> (r: bool)
    ensures
        r == format_has_drm(*f),
{
    f.drm || f.has_drm || f.drm_scheme || match &f.protocol {
        Some(p) => {
            let c = chars_of(p.as_str());
            has(&c, "drm")
        },
        None => false,
    }
}

fn manifest_exec(f: &RawFormat) -> (r: bool)
    ensures
        r == manifest_only(*f),
{
    let url_empty = match &f.url {
        Some(u) => u.as_str().is_empty(),
        None => true,
    };
    (opt_is(&f.protocol, "m3u8_native") || opt_is(&f.protocol, "http_dash_segments")) && url_empty
}

fn any_drm_exec(fs: &Option<Vec<RawFormat>>) -> (r: bool)
    ensures
        r == any_drm(*fs),
{
    match fs {
        Some(v) => {
            let mut i: usize = 0;
            while i < v.len()
                invariant
                    i <= v@.len(),
                    fs is Some && fs->0@ == v@,
                    forall|k: int| 0 <= k < i ==> !format_has_drm(#[trigger] v@[k]),
                decreases v@.len() - i,
            {
                if format_drm_exec(&v[i]) {
                    assert(format_has_drm(v@[i as int]));
                    assert(fs->0@ == v@);
                    assert(any_drm(*fs));
                    return true;
                }
                i = i + 1;
            }
            false
        },
        None => false,
    }
}

fn nothing_direct_exec(fs: &Option<Vec<RawFormat>>) -> (r: bool)
    ensures
        r == nothing_direct(*fs),
{
    match fs {
        Some(v) => {
            let mut i: usize = 0;
            while i < v.len()
                invariant
                    i <= v@.len(),
                    fs is Some && fs->0@ == v@,
                    forall|k: int| 0 <= k < i ==> manifest_only(#[trigger] v@[k]),
                decreases v@.len() - i,
            {
                if !manifest_exec(&v[i]) {
                    assert(!manifest_only(v@[i as int]));
                    assert(fs->0@ == v@);
                    assert(!nothing_direct(*fs));
                    return false;
                }
                i = i + 1;
            }
            true
        },
        None => true,
    }
}

fn movie_exec(cats: &Vec<String>) -> (r: bool)
    ensures
        r == movie_category(cats@),
{
    let mut i: usize = 0;
    while i < cats.len()
        invariant
            i <= cats@.len(),
            forall|k: int| 0 <= k < i ==> !contains(lower_of(#[trigger] cats@[k]@), "movie"@),
        decreases cats@.len() - i,
    {
        let l = lowercase(cats[i].as_str());
        let c = chars_of(l.as_str());
        if has(&c, "movie") {
            return true;
        }
        i = i + 1;
    }
    false
}

/// Reads the content restriction from the metadata document.
pub fn detect_restriction(j: &VideoJson) -> (r: RestrictionInfo)
    ensures
        restriction_view(r) == restriction_of(*j),
{
    let aged = match j.age_limit {
        Some(a) => a >= 18,
        None => false,
    };
    if aged || opt_is(&j.availability, "needs_auth") {
        return RestrictionInfo::age_restricted();
    }
    let movie = movie_exec(&j.categories);
    let premium = j.is_premium || j.requires_premium || lower_has(&j.description, "youtube premium")
        || lower_has(&j.title, "premium");
    let music = match &j.extractor {
        Some(e) => {
            let c = chars_of(e.as_str());
            has(&c, "music") || same_text(e.as_str(), "youtube:music")
        },
        None => false,
    } && premium;
    if any_drm_exec(&j.formats) || nothing_direct_exec(&j.formats) {
        let kind: &str = if music { "YouTube Music track" } else if movie { "movie" } else { "video" };
        return RestrictionInfo::drm(kind);
    }
    let paid = j.is_paid_video || j.requires_payment || j.paid_content || opt_is(&j.availability, "premium_only") || movie;
    if paid {
        return RestrictionInfo::paid();
    }
    if premium || music {
        return RestrictionInfo::premium();
    }
    let members = opt_is(&j.availability, "subscriber_only") || j.subscriber_only || j.is_member_only
        || lower_has(&j.description, "members only") || lower_has(&j.description, "members-only");
    if members {
        return RestrictionInfo::members_only();
    }
    RestrictionInfo::none()
}

/// An option of the quality menu.
#[derive(Debug, Clone)]
pub struct FormatOption {
    pub label: String,
    pub value: String,
    pub size: Option<String>,
}

pub open spec fn fo_view(o: FormatOption) -> (Seq<char>, Seq<char>, Option<Seq<char>>) {
    (o.label@, o.value@, opt_text(o.size))
}

pub open spec fn fos_view(v: Seq<FormatOption>) -> Seq<(Seq<char>, Seq<char>, Option<Seq<char>>)> {
    v.map_values(|o: FormatOption| fo_view(o))
}

pub open spec fn raw_size(f: RawFormat) -> nat {
    match f.filesize {
        Some(x) => x as nat,
        None => match f.filesize_approx {
            Some(x) => x as nat,
            None => 0,
        },
    }
}

pub open spec fn raw_height(f: RawFormat) -> nat {
    match f.height { Some(h) => h as nat, None => 0 }
}

pub open spec fn raw_width(f: RawFormat) -> nat {
    match f.width { Some(w) => w as nat, None => 0 }
}

pub open spec fn codec_is(c: Option<String>, t: Seq<char>) -> bool {
    match c { Some(v) => v@ == t, None => false }
}

pub open spec fn raw_video(f: RawFormat) -> bool {
    match f.vcodec { Some(v) => v@ != "none"@, None => false }
}

/// Largest size among the audio-only formats of the first `n`, 0 if none.
pub open spec fn audio_size_upto(s: Seq<RawFormat>, n: int) -> nat
    decreases n,
{
    if n <= 0 {
        0
    } else {
        let m = audio_size_upto(s, n - 1);
        if codec_is(s[n - 1].vcodec, "none"@) && raw_size(s[n - 1]) > m { raw_size(s[n - 1]) } else { m }
    }
}

pub open spec fn raw_h264(f: RawFormat) -> bool {
    match f.vcodec { Some(v) => crate::text::starts_with(v@, "avc1"@), None => false }
}

/// Index of the tallest video format of the first `n`, H.264 ones only when
/// `only_h264` (larger size among equal heights, the later one among full
/// ties), or -1.
pub open spec fn tallest_upto(s: Seq<RawFormat>, only_h264: bool, n: int) -> int
    decreases n,
{
    if n <= 0 {
        -1
    } else {
        let b = tallest_upto(s, only_h264, n - 1);
        let f = s[n - 1];
        if !raw_video(f) || (only_h264 && !raw_h264(f)) {
            b
        } else if b < 0 || raw_height(f) > raw_height(s[b])
            || (raw_height(f) == raw_height(s[b]) && raw_size(f) >= raw_size(s[b])) {
            n - 1
        } else {
            b
        }
    }
}

pub open spec fn raw_in_band(f: RawFormat, t: nat) -> bool {
    t * 9 / 10 <= raw_height(f) && raw_height(f) <= t * 11 / 10
}

/// Index of the largest format of the first `n` whose height is within ten
/// percent of `t`, H.264 ones only when `only_h264` (the later one among
/// equals), or -1.
pub open spec fn band_upto(s: Seq<RawFormat>, t: nat, only_h264: bool, n: int) -> int
    decreases n,
{
    if n <= 0 {
        -1
    } else {
        let b = band_upto(s, t, only_h264, n - 1);
        if !raw_in_band(s[n - 1], t) || (only_h264 && !raw_h264(s[n - 1])) {
            b
        } else if b < 0 || raw_size(s[n - 1]) >= raw_size(s[b]) {
            n - 1
        } else {
            b
        }
    }
}

proof fn lemma_tallest_range(s: Seq<RawFormat>, only_h264: bool, n: int)
    ensures
        -1 <= tallest_upto(s, only_h264, n) < (if n < 0 { 0 } else { n }),
        tallest_upto(s, true, n) >= 0 ==> tallest_upto(s, false, n) >= 0,
    decreases n,
{
    if n > 0 {
        lemma_tallest_range(s, only_h264, n - 1);
        lemma_tallest_range(s, !only_h264, n - 1);
    }
}

proof fn lemma_band_range(s: Seq<RawFormat>, t: nat, only_h264: bool, n: int)
    ensures
        -1 <= band_upto(s, t, only_h264, n) < (if n < 0 { 0 } else { n }),
    decreases n,
{
    if n > 0 {
        lemma_band_range(s, t, only_h264, n - 1);
    }
}

/// Index of the format for the best option: the tallest H.264 one, unless
/// another codec offers more than half again its height; with no H.264
/// format, the tallest of all.
pub open spec fn best_raw_index(s: Seq<RawFormat>) -> int {
    let h = tallest_upto(s, true, s.len() as int);
    let a = tallest_upto(s, false, s.len() as int);
    if h >= 0 {
        if raw_height(s[a]) > raw_height(s[h]) * 3 / 2 { a } else { h }
    } else {
        a
    }
}

/// Index of the format for a bucket around `t`: the largest H.264 one in the
/// band, else the largest in the band.
pub open spec fn bucket_index(s: Seq<RawFormat>, t: nat) -> int {
    let h = band_upto(s, t, true, s.len() as int);
    if h >= 0 { h } else { band_upto(s, t, false, s.len() as int) }
}

/// Size text, or nothing for an unknown (zero) size.
pub open spec fn known_size(b: nat) -> Option<Seq<char>> {
    if b == 0 { None } else { Some(size_text(b)) }
}

pub open spec fn wxh(w: nat, h: nat) -> Seq<char> {
    "("@ + decimal(w) + "x"@ + decimal(h) + ")"@
}

pub open spec fn best_format_option(s: Seq<RawFormat>, audio: nat) -> (Seq<char>, Seq<char>, Option<Seq<char>>) {
    let i = best_raw_index(s);
    if i < 0 {
        ("Best Quality"@, "best"@, None)
    } else {
        let f = s[i];
        let size = raw_size(f);
        let total = if codec_is(f.acodec, "none"@) && size > 0 { capped_sum(size as int, audio as int) } else { size };
        let label = if raw_width(f) > 0 && raw_height(f) > 0 {
            "Best Quality"@ + " "@ + wxh(raw_width(f), raw_height(f))
        } else {
            "Best Quality"@
        };
        (label, "best"@, known_size(total))
    }
}

pub open spec fn bucket_option(s: Seq<RawFormat>, base: Seq<char>, t: nat, audio: nat) -> Seq<(Seq<char>, Seq<char>, Option<Seq<char>>)> {
    let i = bucket_index(s, t);
    if i < 0 {
        seq![]
    } else {
        let f = s[i];
        let size = raw_size(f);
        let total = if size > 0 { capped_sum(size as int, audio as int) } else { 0 };
        let label = if raw_width(f) > 0 && raw_height(f) > 0 { base + " "@ + wxh(raw_width(f), raw_height(f)) } else { base };
        seq![(label, base, known_size(total))]
    }
}

/// The quality menu for a format list: the best option, one option for each
/// of 1080p, 720p, 480p and 360p that some format lies within ten percent of,
/// and audio only; H.264 formats are preferred for compatibility. No format
/// list gives no menu.
pub open spec fn format_options_of(fs: Option<Vec<RawFormat>>) -> Seq<(Seq<char>, Seq<char>, Option<Seq<char>>)> {
    match fs {
        None => seq![],
        Some(v) => {
            let s = v@;
            let audio = audio_size_upto(s, s.len() as int);
            seq![best_format_option(s, audio)]
                + bucket_option(s, "1080p"@, 1080, audio)
                + bucket_option(s, "720p"@, 720, audio)
                + bucket_option(s, "480p"@, 480, audio)
                + bucket_option(s, "360p"@, 360, audio)
                + seq![(AUDIO_OPTION@, "audio"@, known_size(audio))]
        },
    }
}

pub const AUDIO_OPTION: &'static str = "Audio Only (MP3)";

fn raw_size_exec(f: &RawFormat) -> (r: u64)
    ensures
        r == raw_size(*f),
{
    match f.filesize {
        Some(x) => x,
        None => match f.filesize_approx {
            Some(x) => x,
            None => 0,
        },
    }
}

fn raw_height_exec(f: &RawFormat) -> (r: u64)
    ensures
        r == raw_height(*f),
{
    match f.height { Some(h) => h, None => 0 }
}

fn raw_width_exec(f: &RawFormat) -> (r: u64)
    ensures
        r == raw_width(*f),
{
    match f.width { Some(w) => w, None => 0 }
}

fn codec_is_exec(c: &Option<String>, t: &str) -> (r: bool)
    ensures
        r == codec_is(*c, t@),
{
    match c {
        Some(v) => same_text(v.as_str(), t),
        None => false,
    }
}

fn known_size_exec(b: u64) -> (r: Option<String>)
    ensures
        opt_text(r) == known_size(b as nat),
{
    if b == 0 {
        None
    } else {
        let r = format_size(Some(b));
        r
    }
}

fn capped(a: u64, b: u64) -> (r: u64)
    ensures
        r == capped_sum(a as int, b as int),
{
    if a > u64::MAX - b { u64::MAX } else { a + b }
}

fn push_fo(v: &mut Vec<FormatOption>, o: FormatOption)
    ensures
        fos_view(final(v)@) == fos_view(old(v)@).push(fo_view(o)),
{
    let ghost before = v@;
    v.push(o);
    assert(fos_view(v@) =~= fos_view(before).push(fo_view(o)));
}

fn label_with_dims(base: &str, w: u64, h: u64) -> (r: String)
    ensures
        r@ == (if w > 0 && h > 0 { base@ + " "@ + wxh(w as nat, h as nat) } else { base@ }),
{
    let mut l = base.to_string();
    if w > 0 && h > 0 {
        push_str(&mut l, " ");
        push_str(&mut l, "(");
        push_decimal(&mut l, w);
        push_str(&mut l, "x");
        push_decimal(&mut l, h);
        push_str(&mut l, ")");
        assert(l@ =~= base@ + " "@ + wxh(w as nat, h as nat));
    }
    l
}

fn raw_h264_exec(f: &RawFormat) -> (r: bool)
    ensures
        r == raw_h264(*f),
{
    match &f.vcodec {
        Some(v) => crate::text::begins_with(&chars_of(v.as_str()), "avc1"),
        None => false,
    }
}

fn band_index(s: &Vec<RawFormat>, t: u64, only_h264: bool) -> (r: Option<usize>)
    requires
        t <= 1080,
    ensures
        match r { Some(b) => b as int, None => -1int } == band_upto(s@, t as nat, only_h264, s@.len() as int),
{
    let lo = t * 9 / 10;
    let hi = t * 11 / 10;
    let mut best: Option<usize> = None;
    let mut i: usize = 0;
    while i < s.len()
        invariant
            i <= s@.len(),
            lo == t * 9 / 10,
            hi == t * 11 / 10,
            match best { Some(b) => b as int, None => -1int } == band_upto(s@, t as nat, only_h264, i as int),
        decreases s@.len() - i,
    {
        proof { lemma_band_range(s@, t as nat, only_h264, i as int); }
        let h = raw_height_exec(&s[i]);
        if lo <= h && h <= hi && (!only_h264 || raw_h264_exec(&s[i])) {
            match best {
                None => { best = Some(i); },
                Some(b) => {
                    if raw_size_exec(&s[i]) >= raw_size_exec(&s[b]) {
                        best = Some(i);
                    }
                },
            }
        }
        i = i + 1;
    }
    best
}

fn push_bucket(out: &mut Vec<FormatOption>, s: &Vec<RawFormat>, base: &str, t: u64, audio: u64)
    requires
        t <= 1080,
    ensures
        fos_view(final(out)@) == fos_view(old(out)@) + bucket_option(s@, base@, t as nat, audio as nat),
{
    let ghost before = fos_view(out@);
    proof {
        lemma_band_range(s@, t as nat, true, s@.len() as int);
        lemma_band_range(s@, t as nat, false, s@.len() as int);
    }
    let best = match band_index(s, t, true) {
        Some(b) => Some(b),
        None => band_index(s, t, false),
    };
    match best {
        None => {
            assert(fos_view(out@) =~= before + bucket_option(s@, base@, t as nat, audio as nat));
        },
        Some(b) => {
            let f = &s[b];
            let size = raw_size_exec(f);
            let total = if size > 0 { capped(size, audio) } else { 0 };
            let label = label_with_dims(base, raw_width_exec(f), raw_height_exec(f));
            push_fo(out, FormatOption { label, value: base.to_string(), size: known_size_exec(total) });
            assert(fos_view(out@) =~= before + bucket_option(s@, base@, t as nat, audio as nat));
        },
    }
}

fn tallest_index(s: &Vec<RawFormat>, only_h264: bool) -> (r: Option<usize>)
    ensures
        match r { Some(b) => b as int, None => -1int } == tallest_upto(s@, only_h264, s@.len() as int),
{
    let mut best: Option<usize> = None;
    let mut i: usize = 0;
    while i < s.len()
        invariant
            i <= s@.len(),
            match best { Some(b) => b as int, None => -1int } == tallest_upto(s@, only_h264, i as int),
        decreases s@.len() - i,
    {
        proof { lemma_tallest_range(s@, only_h264, i as int); }
        let f = &s[i];
        let video = match &f.vcodec {
            Some(v) => !same_text(v.as_str(), "none"),
            None => false,
        };
        if video && (!only_h264 || raw_h264_exec(f)) {
            match best {
                None => { best = Some(i); },
                Some(b) => {
                    let hf = raw_height_exec(f);
                    let hb = raw_height_exec(&s[b]);
                    if hf > hb || (hf == hb && raw_size_exec(f) >= raw_size_exec(&s[b])) {
                        best = Some(i);
                    }
                },
            }
        }
        i = i + 1;
    }
    best
}

fn best_fo(s: &Vec<RawFormat>, audio: u64) -> (r: FormatOption)
    ensures
        fo_view(r) == best_format_option(s@, audio as nat),
{
    proof {
        lemma_tallest_range(s@, true, s@.len() as int);
        lemma_tallest_range(s@, false, s@.len() as int);
    }
    let any = tallest_index(s, false);
    let pick: Option<usize> = match tallest_index(s, true) {
        Some(h) => {
            let a = match any { Some(x) => x, None => h };
            if raw_height_exec(&s[a]) as u128 > (raw_height_exec(&s[h]) as u128) * 3 / 2 { Some(a) } else { Some(h) }
        },
        None => any,
    };
    match pick {
        None => FormatOption { label: "Best Quality".to_string(), value: "best".to_string(), size: None },
        Some(b) => {
            let f = &s[b];
            let size = raw_size_exec(f);
            let total = if codec_is_exec(&f.acodec, "none") && size > 0 { capped(size, audio) } else { size };
            let label = label_with_dims("Best Quality", raw_width_exec(f), raw_height_exec(f));
            FormatOption { label, value: "best".to_string(), size: known_size_exec(total) }
        },
    }
}

fn audio_size_exec(s: &Vec<RawFormat>) -> (r: u64)
    ensures
        r == audio_size_upto(s@, s@.len() as int),
{
    let mut m: u64 = 0;
    let mut i: usize = 0;
    while i < s.len()
        invariant
            i <= s@.len(),
            m == audio_size_upto(s@, i as int),
        decreases s@.len() - i,
    {
        let z = raw_size_exec(&s[i]);
        if codec_is_exec(&s[i].vcodec, "none") && z > m {
            m = z;
        }
        i = i + 1;
    }
    m
}

/// Builds the quality menu from the document's format list.
pub fn extract_format_options(formats: &Option<Vec<RawFormat>>) -> (r: Vec<FormatOption>)
    ensures
        fos_view(r@) == format_options_of(*formats),
{
    let mut out: Vec<FormatOption> = Vec::new();
    match formats {
        None => {
            assert(fos_view(out@) =~= seq![]);
            out
        },
        Some(s) => {
            let audio = audio_size_exec(s);
            push_fo(&mut out, best_fo(s, audio));
            push_bucket(&mut out, s, "1080p", 1080, audio);
            push_bucket(&mut out, s, "720p", 720, audio);
            push_bucket(&mut out, s, "480p", 480, audio);
            push_bucket(&mut out, s, "360p", 360, audio);
            push_fo(&mut out, FormatOption { label: AUDIO_OPTION.to_string(), value: "audio".to_string(), size: known_size_exec(audio) });
            assert(fos_view(out@) =~= format_options_of(*formats));
            out
        },
    }
}

} // verus!
