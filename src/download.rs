//! The multi-phase download strategy of the extraction tool, as a state
//! machine: the caller runs each attempt it is handed and reports back.
use vstd::prelude::*;
use crate::text::{begins_with, chars_of, concat, contains, decimal, has, lines, lines_of, lines_view, lower_of, lowercase, push_decimal, push_str, starts_with, trim_chars, trimmed};
use crate::info::{join_three, joined};
use crate::diagnostics::{diagnose_error, reason_of};
use crate::advice::{get_blocking_suggestion, suggestion_text};

verus! {

/// Whether a lower-cased URL names the video platform.
pub open spec fn youtube_text(lower: Seq<char>) -> bool {
    contains(lower, "youtube.com"@) || contains(lower, "youtu.be"@)
}

/// Whether `url` points at the video platform, ignoring case.
pub fn is_youtube(url: &str) -> (r: bool)
    ensures
        r == youtube_text(lower_of(url@)),
{
    let lower = lowercase(url);
    let t = chars_of(lower.as_str());
    has(&t, "youtube.com") || has(&t, "youtu.be")
}

/// The tool's format selector for a quality and a codec choice.
pub open spec fn format_for(quality: Seq<char>, codec: Seq<char>) -> Seq<char> {
    if codec == "h264"@ {
        if quality == "best"@ {
            "bv*[vcodec^=avc1]+ba[acodec^=mp4a]/bv*[vcodec^=avc]+ba/bv*+ba/best"@
        } else if quality == "1080p"@ {
            "bv*[height<=1080][vcodec^=avc1]+ba[acodec^=mp4a]/bv*[height<=1080]+ba/best"@
        } else if quality == "720p"@ {
            "bv*[height<=720][vcodec^=avc1]+ba[acodec^=mp4a]/bv*[height<=720]+ba/best"@
        } else if quality == "480p"@ {
            "bv*[height<=480][vcodec^=avc1]+ba[acodec^=mp4a]/bv*[height<=480]+ba/best"@
        } else if quality == "audio"@ {
            "ba[acodec^=mp4a]/ba/b"@
        } else {
            "bv*[vcodec^=avc1]+ba[acodec^=mp4a]/bv*+ba/best"@
        }
    } else {
        if quality == "best"@ {
            "bv*+ba/best"@
        } else if quality == "1080p"@ {
            "bv*[height<=1080]+ba/best"@
        } else if quality == "720p"@ {
            "bv*[height<=720]+ba/best"@
        } else if quality == "480p"@ {
            "bv*[height<=480]+ba/best"@
        } else if quality == "audio"@ {
            "ba/b"@
        } else {
            "bv*+ba/best"@
        }
    }
}

/// Whether two strings hold the same characters.
pub fn same_text(a: &str, b: &str) -> (r: bool)
    ensures
        r == (a@ == b@),
{
    let x = chars_of(a);
    let y = chars_of(b);
    if x.len() != y.len() {
        return false;
    }
    let mut i: usize = 0;
    while i < x.len()
        invariant
            x@ == a@,
            y@ == b@,
            x.len() == y.len(),
            i <= x.len(),
            forall|j: int| 0 <= j < i ==> x@[j] == y@[j],
        decreases x.len() - i,
    {
        if x[i] != y[i] {
            return false;
        }
        i = i + 1;
    }
    assert(x@ =~= y@);
    true
}

/// The tool's format selector for a quality and a codec choice.
pub fn format_arg(quality: &str, codec: &str) -> (r: &'static str)
    ensures
        r@ == format_for(quality@, codec@),
{
    if same_text(codec, "h264") {
        if same_text(quality, "best") {
            "bv*[vcodec^=avc1]+ba[acodec^=mp4a]/bv*[vcodec^=avc]+ba/bv*+ba/best"
        } else if same_text(quality, "1080p") {
            "bv*[height<=1080][vcodec^=avc1]+ba[acodec^=mp4a]/bv*[height<=1080]+ba/best"
        } else if same_text(quality, "720p") {
            "bv*[height<=720][vcodec^=avc1]+ba[acodec^=mp4a]/bv*[height<=720]+ba/best"
        } else if same_text(quality, "480p") {
            "bv*[height<=480][vcodec^=avc1]+ba[acodec^=mp4a]/bv*[height<=480]+ba/best"
        } else if same_text(quality, "audio") {
            "ba[acodec^=mp4a]/ba/b"
        } else {
            "bv*[vcodec^=avc1]+ba[acodec^=mp4a]/bv*+ba/best"
        }
    } else {
        if same_text(quality, "best") {
            "bv*+ba/best"
        } else if same_text(quality, "1080p") {
            "bv*[height<=1080]+ba/best"
        } else if same_text(quality, "720p") {
            "bv*[height<=720]+ba/best"
        } else if same_text(quality, "480p") {
            "bv*[height<=480]+ba/best"
        } else if same_text(quality, "audio") {
            "ba/b"
        } else {
            "bv*+ba/best"
        }
    }
}

/// What the caller asked to download, and how.
#[derive(Debug, Clone)]
pub struct DownloadRequest {
    pub url: String,
    pub quality: String,
    pub codec: String,
    pub output_path: String,
    pub proxy: Option<String>,
    pub cookies_from_browser: bool,
    pub cookies_path: Option<String>,
    pub allow_fallback: bool,
}

pub open spec fn opt_text(o: Option<String>) -> Option<Seq<char>> {
    match o {
        Some(s) => Some(s@),
        None => None,
    }
}

/// The text views of a list of strings.
pub open spec fn texts(v: Seq<String>) -> Seq<Seq<char>> {
    v.map_values(|s: String| s@)
}

/// The fixed leading arguments of a download attempt.
pub open spec fn download_head(format: Seq<char>, output: Seq<char>) -> Seq<Seq<char>> {
    seq!["-f"@, format, "--no-playlist"@, "--newline"@, "--no-update"@, "--socket-timeout"@,
        "30"@, "--retries"@, "5"@, "--fragment-retries"@, "50"@, "--file-access-retries"@,
        "10"@, "--skip-unavailable-fragments"@, "--hls-prefer-native"@, "-P"@, output, "-o"@,
        "%(title)s.%(ext)s"@, "--no-check-certificates"@, "--user-agent"@,
        "Mozilla/5.0 (Macintosh; Intel Mac OS X 10_15_7) AppleWebKit/537.36"@]
}

/// Cookie arguments: an explicit cookie file wins over browser cookies.
pub open spec fn cookie_args(path: Option<Seq<char>>, from_browser: bool) -> Seq<Seq<char>> {
    match path {
        Some(p) => seq!["--cookies"@, p],
        None => if from_browser {
            seq!["--cookies-from-browser"@, "chrome"@]
        } else {
            seq![]
        },
    }
}

/// Arguments that only the video platform gets.
pub open spec fn platform_args(client: Seq<char>) -> Seq<Seq<char>> {
    seq!["--force-ipv4"@, "--merge-output-format"@, "mp4"@, "--extractor-args"@,
        "youtube:player_client="@ + client, "--ppa"@,
        "Merger+ffmpeg:-c copy -movflags +faststart"@]
}

pub open spec fn proxy_args(proxy: Option<Seq<char>>) -> Seq<Seq<char>> {
    match proxy {
        Some(p) => seq!["--proxy"@, p],
        None => seq![],
    }
}

/// The full argument list of one download attempt.
pub open spec fn download_args(
    req: DownloadRequest,
    youtube: bool,
    client: Seq<char>,
    format: Seq<char>,
    use_cookies: bool,
    force_audio: bool,
) -> Seq<Seq<char>> {
    download_head(format, req.output_path@)
        + (if use_cookies { cookie_args(opt_text(req.cookies_path), req.cookies_from_browser) } else { seq![] })
        + (if youtube { platform_args(client) } else { seq![] })
        + proxy_args(opt_text(req.proxy))
        + (if req.quality@ == "audio"@ || force_audio { seq!["-x"@, "--audio-format"@, "mp3"@] } else { seq![] })
        + seq![req.url@]
}

fn push_arg(args: &mut Vec<String>, a: &str)
    ensures
        texts(final(args)@) == texts(old(args)@).push(a@),
{
    let ghost before = args@;
    args.push(a.to_string());
    assert(texts(args@) =~= texts(before).push(a@));
}

fn push_owned(args: &mut Vec<String>, a: String)
    ensures
        texts(final(args)@) == texts(old(args)@).push(a@),
{
    let ghost before = args@;
    let ghost t = a@;
    args.push(a);
    assert(texts(args@) =~= texts(before).push(t));
}

fn head_args(format: &str, output: &str) -> (r: Vec<String>)
    ensures
        texts(r@) == download_head(format@, output@),
{
    let mut a: Vec<String> = Vec::new();
    push_arg(&mut a, "-f");
    push_arg(&mut a, format);
    push_arg(&mut a, "--no-playlist");
    push_arg(&mut a, "--newline");
    push_arg(&mut a, "--no-update");
    push_arg(&mut a, "--socket-timeout");
    push_arg(&mut a, "30");
    push_arg(&mut a, "--retries");
    push_arg(&mut a, "5");
    push_arg(&mut a, "--fragment-retries");
    push_arg(&mut a, "50");
    push_arg(&mut a, "--file-access-retries");
    push_arg(&mut a, "10");
    push_arg(&mut a, "--skip-unavailable-fragments");
    push_arg(&mut a, "--hls-prefer-native");
    push_arg(&mut a, "-P");
    push_arg(&mut a, output);
    push_arg(&mut a, "-o");
    push_arg(&mut a, "%(title)s.%(ext)s");
    push_arg(&mut a, "--no-check-certificates");
    push_arg(&mut a, "--user-agent");
    push_arg(&mut a, "Mozilla/5.0 (Macintosh; Intel Mac OS X 10_15_7) AppleWebKit/537.36");
    assert(texts(a@) =~= download_head(format@, output@));
    a
}

/// Appends the cookie arguments: an explicit file wins over browser cookies.
pub fn push_cookie_args(a: &mut Vec<String>, path: &Option<String>, from_browser: bool)
    ensures
        texts(final(a)@) == texts(old(a)@) + cookie_args(opt_text(*path), from_browser),
{
    let ghost before = texts(a@);
    match path {
        Some(p) => {
            push_arg(a, "--cookies");
            push_arg(a, p.as_str());
        },
        None => {
            if from_browser {
                push_arg(a, "--cookies-from-browser");
                push_arg(a, "chrome");
            }
        },
    }
    assert(texts(a@) =~= before + cookie_args(opt_text(*path), from_browser));
}

/// Appends `--proxy` and the proxy URL, if there is one.
pub fn push_proxy_args(a: &mut Vec<String>, proxy: &Option<String>)
    ensures
        texts(final(a)@) == texts(old(a)@) + proxy_args(opt_text(*proxy)),
{
    let ghost before = texts(a@);
    match proxy {
        Some(p) => {
            push_arg(a, "--proxy");
            push_arg(a, p.as_str());
        },
        None => {},
    }
    assert(texts(a@) =~= before + proxy_args(opt_text(*proxy)));
}

fn push_platform_args(a: &mut Vec<String>, client: &str)
    ensures
        texts(final(a)@) == texts(old(a)@) + platform_args(client@),
{
    let ghost before = texts(a@);
    push_arg(a, "--force-ipv4");
    push_arg(a, "--merge-output-format");
    push_arg(a, "mp4");
    push_arg(a, "--extractor-args");
    push_owned(a, concat("youtube:player_client=", client));
    push_arg(a, "--ppa");
    push_arg(a, "Merger+ffmpeg:-c copy -movflags +faststart");
    assert(texts(a@) =~= before + platform_args(client@));
}

/// Builds the argument list of one download attempt.
pub fn build_download_args(
    req: &DownloadRequest,
    youtube: bool,
    client: &str,
    format: &str,
    use_cookies: bool,
    force_audio: bool,
) -> (r: Vec<String>)
    ensures
        texts(r@) == download_args(*req, youtube, client@, format@, use_cookies, force_audio),
{
    let mut a = head_args(format, req.output_path.as_str());
    let ghost head = texts(a@);
    if use_cookies {
        push_cookie_args(&mut a, &req.cookies_path, req.cookies_from_browser);
    }
    let ghost c = texts(a@);
    assert(c =~= head + (if use_cookies { cookie_args(opt_text(req.cookies_path), req.cookies_from_browser) } else { seq![] }));
    if youtube {
        push_platform_args(&mut a, client);
    }
    let ghost y = texts(a@);
    assert(y =~= c + (if youtube { platform_args(client@) } else { seq![] }));
    push_proxy_args(&mut a, &req.proxy);
    let ghost q = texts(a@);
    let audio = same_text(req.quality.as_str(), "audio") || force_audio;
    if audio {
        push_arg(&mut a, "-x");
        push_arg(&mut a, "--audio-format");
        push_arg(&mut a, "mp3");
    }
    let ghost x = texts(a@);
    assert(x =~= q + (if req.quality@ == "audio"@ || force_audio { seq!["-x"@, "--audio-format"@, "mp3"@] } else { seq![] }));
    push_arg(&mut a, req.url.as_str());
    assert(texts(a@) =~= x + seq![req.url@]);
    a
}

/// One progress notice for the caller; `percent_tenths` is tenths of a percent.
#[derive(Debug, Clone)]
pub struct ProgressEvent {
    pub percent_tenths: u32,
    pub status: String,
}

pub open spec fn event_view(e: ProgressEvent) -> (u32, Seq<char>) {
    (e.percent_tenths, e.status@)
}

pub open spec fn events_view(v: Seq<ProgressEvent>) -> Seq<(u32, Seq<char>)> {
    v.map_values(|e: ProgressEvent| event_view(e))
}

/// One stage of the strategy: the player clients tried in turn, and the
/// cookie and audio-only settings shared by its attempts.
#[derive(Debug, Clone)]
pub struct Phase {
    pub clients: Vec<String>,
    pub use_cookies: bool,
    pub force_audio: bool,
    pub banner: String,
}

pub open spec fn phase_view(p: Phase) -> (Seq<Seq<char>>, bool, bool, Seq<char>) {
    (texts(p.clients@), p.use_cookies, p.force_audio, p.banner@)
}

pub const MULTI_CLIENT: &'static str = "web,web_safari,ios";
pub const COOKIE_CLIENTS: &'static str = "web,web_safari";
pub const BANNER_SINGLE: &'static str = "Single attempt: yt-dlp (web+web_safari+ios)";
pub const BANNER_MULTI: &'static str = "\u{1F310} Strategy 1: Multi-client (web+web_safari+ios)";
pub const BANNER_COOKIES: &'static str = "\u{1F36A} Strategy 2: With cookies (web+web_safari)";
pub const BANNER_FALLBACK: &'static str = "\u{1F504} Strategy 3: Single client fallback";
pub const BANNER_AUDIO: &'static str = "\u{1F3B5} Strategy 4: Audio-only fallback";

pub open spec fn primary_clients(youtube: bool) -> Seq<Seq<char>> {
    if youtube { seq![MULTI_CLIENT@] } else { seq!["web"@] }
}

pub open spec fn fallback_clients(youtube: bool) -> Seq<Seq<char>> {
    if youtube { seq!["android"@, "tv"@, "web"@] } else { seq!["web"@] }
}

pub open spec fn audio_clients(youtube: bool) -> Seq<Seq<char>> {
    if youtube { seq![COOKIE_CLIENTS@, "web"@] } else { seq!["web"@] }
}

/// The phases, in the order they are tried. Without fallback there is a single
/// attempt with the caller's cookie and audio choice. With fallback: several
/// clients at once without cookies; then, if cookies are configured, the
/// cookie-compatible clients with cookies; then single clients one by one;
/// then, unless audio was asked for already, audio only.
pub open spec fn plan(youtube: bool, cookies: bool, audio_quality: bool, fallback: bool) -> Seq<(Seq<Seq<char>>, bool, bool, Seq<char>)> {
    if !fallback {
        seq![(primary_clients(youtube), cookies, audio_quality, BANNER_SINGLE@)]
    } else {
        seq![(primary_clients(youtube), false, false, BANNER_MULTI@)]
            + (if cookies { seq![(seq![COOKIE_CLIENTS@], true, false, BANNER_COOKIES@)] } else { seq![] })
            + seq![(fallback_clients(youtube), cookies, false, BANNER_FALLBACK@)]
            + (if !audio_quality { seq![(audio_clients(youtube), cookies, true, BANNER_AUDIO@)] } else { seq![] })
    }
}

proof fn lemma_plan_clients(youtube: bool, cookies: bool, audio_quality: bool, fallback: bool)
    ensures
        plan(youtube, cookies, audio_quality, fallback).len() >= 1,
        forall|i: int| 0 <= i < plan(youtube, cookies, audio_quality, fallback).len()
            ==> #[trigger] plan(youtube, cookies, audio_quality, fallback)[i].0.len() > 0,
{
    let p = plan(youtube, cookies, audio_quality, fallback);
    if fallback {
        let a = seq![(primary_clients(youtube), false, false, BANNER_MULTI@)];
        let b: Seq<(Seq<Seq<char>>, bool, bool, Seq<char>)> = if cookies { seq![(seq![COOKIE_CLIENTS@], true, false, BANNER_COOKIES@)] } else { seq![] };
        let c = seq![(fallback_clients(youtube), cookies, false, BANNER_FALLBACK@)];
        let d: Seq<(Seq<Seq<char>>, bool, bool, Seq<char>)> = if !audio_quality { seq![(audio_clients(youtube), cookies, true, BANNER_AUDIO@)] } else { seq![] };
        assert(p == a + b + c + d);
        assert forall|i: int| 0 <= i < p.len() implies #[trigger] p[i].0.len() > 0 by {
            if i < a.len() {
                assert(p[i] == a[i]);
            } else if i < a.len() + b.len() {
                assert(p[i] == b[i - a.len()]);
            } else if i < a.len() + b.len() + c.len() {
                assert(p[i] == c[i - a.len() - b.len()]);
            } else {
                assert(p[i] == d[i - a.len() - b.len() - c.len()]);
            }
        }
    }
}

fn strings(a: &str, b: &str, c: &str, n: usize) -> (r: Vec<String>)
    requires
        1 <= n <= 3,
    ensures
        texts(r@) == (if n == 1 { seq![a@] } else if n == 2 { seq![a@, b@] } else { seq![a@, b@, c@] }),
{
    let mut v: Vec<String> = Vec::new();
    push_arg(&mut v, a);
    if n >= 2 {
        push_arg(&mut v, b);
    }
    if n == 3 {
        push_arg(&mut v, c);
    }
    proof {
        if n == 1 { assert(texts(v@) =~= seq![a@]); }
        else if n == 2 { assert(texts(v@) =~= seq![a@, b@]); }
        else { assert(texts(v@) =~= seq![a@, b@, c@]); }
    }
    v
}

fn make_phase(clients: Vec<String>, use_cookies: bool, force_audio: bool, banner: &str) -> (p: Phase)
    ensures
        phase_view(p) == (texts(clients@), use_cookies, force_audio, banner@),
{
    Phase { clients, use_cookies, force_audio, banner: banner.to_string() }
}

fn push_phase(v: &mut Vec<Phase>, p: Phase)
    ensures
        final(v)@.map_values(|q: Phase| phase_view(q)) == old(v)@.map_values(|q: Phase| phase_view(q)).push(phase_view(p)),
{
    let ghost before = v@;
    v.push(p);
    assert(v@.map_values(|q: Phase| phase_view(q)) =~= before.map_values(|q: Phase| phase_view(q)).push(phase_view(p)));
}

/// Builds the phases of a download, in order.
pub fn build_plan(youtube: bool, cookies: bool, audio_quality: bool, fallback: bool) -> (r: Vec<Phase>)
    ensures
        r@.map_values(|q: Phase| phase_view(q)) == plan(youtube, cookies, audio_quality, fallback),
{
    let mut v: Vec<Phase> = Vec::new();
    let primary = if youtube { strings(MULTI_CLIENT, "", "", 1) } else { strings("web", "", "", 1) };
    if !fallback {
        push_phase(&mut v, make_phase(primary, cookies, audio_quality, BANNER_SINGLE));
        assert(v@.map_values(|q: Phase| phase_view(q)) =~= plan(youtube, cookies, audio_quality, fallback));
        return v;
    }
    push_phase(&mut v, make_phase(primary, false, false, BANNER_MULTI));
    let ghost a = v@.map_values(|q: Phase| phase_view(q));
    if cookies {
        push_phase(&mut v, make_phase(strings(COOKIE_CLIENTS, "", "", 1), true, false, BANNER_COOKIES));
    }
    let ghost b = v@.map_values(|q: Phase| phase_view(q));
    assert(b =~= a + (if cookies { seq![(seq![COOKIE_CLIENTS@], true, false, BANNER_COOKIES@)] } else { seq![] }));
    let single = if youtube { strings("android", "tv", "web", 3) } else { strings("web", "", "", 1) };
    push_phase(&mut v, make_phase(single, cookies, false, BANNER_FALLBACK));
    let ghost c = v@.map_values(|q: Phase| phase_view(q));
    if !audio_quality {
        let audio = if youtube { strings(COOKIE_CLIENTS, "web", "", 2) } else { strings("web", "", "", 1) };
        push_phase(&mut v, make_phase(audio, cookies, true, BANNER_AUDIO));
    }
    assert(v@.map_values(|q: Phase| phase_view(q)) =~= c + (if !audio_quality { seq![(audio_clients(youtube), cookies, true, BANNER_AUDIO@)] } else { seq![] }));
    assert(v@.map_values(|q: Phase| phase_view(q)) =~= plan(youtube, cookies, audio_quality, fallback));
    v
}

pub const FORMAT_UNAVAILABLE: &'static str = "Requested format is not available";
pub const QUALITY_FALLBACK: &'static str = "\u{26A0}\u{FE0F} Quality not available. Trying best...";
pub const BEST_FORMAT: &'static str = "bv*+ba/best";
pub const SUCCESS_PREFIX: &'static str = "Download completed successfully with yt-dlp! client=";
pub const FAILED_FALLBACK_OFF: &'static str = "yt-dlp failed (fallback off): ";
pub const FAILED_ALL: &'static str = "yt-dlp download failed after multiple strategies (cookies/no-cookies/audio fallback).\n";

pub open spec fn mode_emoji(audio: bool) -> Seq<char> {
    if audio { "\u{1F3B5}"@ } else { "\u{1F3AC}"@ }
}

pub open spec fn cookie_emoji(cookies: bool) -> Seq<char> {
    if cookies { "\u{1F36A}"@ } else { "\u{1F513}"@ }
}

/// Notice that an attempt starts: mode, cookies, client, and its number.
pub open spec fn attempt_text(audio: bool, cookies: bool, client: Seq<char>, i: nat, n: nat) -> Seq<char> {
    mode_emoji(audio) + " "@ + cookie_emoji(cookies) + " client="@ + client + " | attempt "@
        + decimal(i + 1) + "/"@ + decimal(n)
}

/// Notice that an attempt succeeded.
pub open spec fn success_text(client: Seq<char>, cookies: bool, audio: bool) -> Seq<char> {
    "\u{2705} Success! client="@ + client + ", "@ + cookie_emoji(cookies) + ", "@
        + (if audio { "\u{1F3B5} audio"@ } else { "\u{1F3AC} video"@ })
}

/// Notice that an attempt failed, with the diagnosed reason if there is one.
pub open spec fn diag_text(err: Seq<char>, client: Seq<char>) -> Seq<char> {
    match reason_of(lower_of(err), err.len() == 0) {
        Some(r) => "\u{26A0}\u{FE0F} "@ + r.description_text() + " | client="@ + client,
        None => "\u{274C} client="@ + client + " failed"@,
    }
}

/// A failure after which the next client of the same phase is worth trying.
pub open spec fn retryable_failure(youtube: bool, err: Seq<char>) -> bool {
    youtube && (contains(err, "HTTP Error 403"@) || contains(err, "Forbidden"@)
        || contains(err, "SABR"@) || contains(err, FORMAT_UNAVAILABLE@))
}

/// Where a session stands: an attempt to run, or nothing left to try.
#[derive(Debug, Clone, Copy, PartialEq, Eq, Structural)]
pub enum Position {
    Try { phase: usize, attempt: usize, best: bool },
    Exhausted,
}

/// What the caller does next.
#[derive(Debug)]
pub enum Step {
    /// Run the tool once with these settings and report the outcome.
    Run(Attempt),
    /// The download is over: a success message, or the failure message.
    Finished(Result<String, String>),
}

/// One run of the tool.
#[derive(Debug, Clone)]
pub struct Attempt {
    pub client: String,
    pub use_cookies: bool,
    pub force_audio: bool,
    pub args: Vec<String>,
}

/// Events to emit, in order, then the next step.
#[derive(Debug)]
pub struct Advance {
    pub events: Vec<ProgressEvent>,
    pub step: Step,
}

/// The lead of a failed download's message: the diagnosed reason with its
/// advice, if there is a reason.
pub open spec fn diagnosis_text(detail: Seq<char>, proxy: Option<Seq<char>>) -> Seq<char> {
    match reason_of(lower_of(detail), detail.len() == 0) {
        Some(r) => "\n\n\u{26A0}\u{FE0F} Detected: "@ + r.description_text() + "\n"@ + suggestion_text(r, proxy),
        None => seq![],
    }
}

/// A line of error output worth keeping in a short report: trimmed, it
/// starts with "ERROR:" or mentions an HTTP error, a refusal, the streaming
/// protection or a missing format.
pub open spec fn telling_error_line(l: Seq<char>) -> bool {
    let t = trimmed(l);
    starts_with(t, "ERROR:"@) || contains(t, "HTTP Error"@) || contains(t, "Forbidden"@)
        || contains(t, "SABR"@) || contains(t, FORMAT_UNAVAILABLE@)
}

/// The telling lines among the first `n`, trimmed, in order.
pub open spec fn telling_lines(ls: Seq<Seq<char>>, n: int) -> Seq<Seq<char>>
    decreases n,
{
    if n <= 0 {
        seq![]
    } else if telling_error_line(ls[n - 1]) {
        telling_lines(ls, n - 1).push(trimmed(ls[n - 1]))
    } else {
        telling_lines(ls, n - 1)
    }
}

/// A short report of error output: its first three telling lines, or, when
/// none is telling, its first three lines; joined with " | ".
pub open spec fn short_detail(err: Seq<char>) -> Seq<char> {
    let ls = lines_of(err);
    let t = telling_lines(ls, ls.len() as int);
    if t.len() > 0 { joined(t, 3) } else { joined(ls, 3) }
}

/// The short report of error output `err`.
pub fn short_detail_of(err: &str) -> (r: String)
    ensures
        r@ == short_detail(err@),
{
    let c = chars_of(err);
    let ls = lines(&c);
    let ghost lv = lines_view(ls@);
    let mut kept: Vec<Vec<char>> = Vec::new();
    let mut i: usize = 0;
    while i < ls.len()
        invariant
            lv == lines_view(ls@),
            lv == lines_of(err@),
            i <= ls@.len(),
            lines_view(kept@) == telling_lines(lv, i as int),
        decreases ls@.len() - i,
    {
        assert(lv[i as int] == ls@[i as int]@);
        let t = trim_chars(&ls[i]);
        if begins_with(&t, "ERROR:") || has(&t, "HTTP Error") || has(&t, "Forbidden") || has(&t, "SABR")
            || has(&t, FORMAT_UNAVAILABLE) {
            let ghost before = kept@;
            kept.push(t);
            assert(lines_view(kept@) =~= lines_view(before).push(trimmed(lv[i as int])));
        }
        i = i + 1;
    }
    if kept.len() > 0 {
        join_three(&kept)
    } else {
        join_three(&ls)
    }
}

/// The message of a failed download: the diagnosis of the whole error
/// output (after `prefix`) with its advice, then a short report of it.
pub open spec fn failure_text(prefix: Seq<char>, err: Seq<char>, proxy: Option<Seq<char>>) -> Seq<char> {
    "yt-dlp download failed."@ + diagnosis_text(prefix + err, proxy) + "\n\nDetails:\n"@ + prefix + short_detail(err)
}

/// The message of a failed download.
pub fn failure_message(prefix: &str, err: &str, proxy: &Option<String>) -> (r: String)
    ensures
        r@ == failure_text(prefix@, err@, opt_text(*proxy)),
{
    let whole = concat(prefix, err);
    let mut s = "yt-dlp download failed.".to_string();
    match diagnose_error(whole.as_str()) {
        Some(reason) => {
            push_str(&mut s, "\n\n\u{26A0}\u{FE0F} Detected: ");
            push_str(&mut s, reason.description());
            push_str(&mut s, "\n");
            let p: Option<&str> = match proxy {
                Some(x) => Some(x.as_str()),
                None => None,
            };
            let adv = get_blocking_suggestion(&reason, p);
            push_str(&mut s, adv.as_str());
        },
        None => {},
    }
    push_str(&mut s, "\n\nDetails:\n");
    push_str(&mut s, prefix);
    push_str(&mut s, short_detail_of(err).as_str());
    assert(s@ =~= failure_text(prefix@, err@, opt_text(*proxy)));
    s
}

/// Notice that an attempt with `client` failed with `err`.
pub fn diag_event(err: &str, client: &str) -> (e: ProgressEvent)
    ensures
        event_view(e) == (0u32, diag_text(err@, client@)),
{
    let mut s = String::new();
    match diagnose_error(err) {
        Some(reason) => {
            push_str(&mut s, "\u{26A0}\u{FE0F} ");
            push_str(&mut s, reason.description());
            push_str(&mut s, " | client=");
            push_str(&mut s, client);
        },
        None => {
            push_str(&mut s, "\u{274C} client=");
            push_str(&mut s, client);
            push_str(&mut s, " failed");
        },
    }
    assert(s@ =~= diag_text(err@, client@));
    ProgressEvent { percent_tenths: 0, status: s }
}

/// The progress of one download through its phases.
#[derive(Debug, Clone)]
pub struct DownloadSession {
    pub request: DownloadRequest,
    pub youtube: bool,
    pub format: String,
    pub phases: Vec<Phase>,
    pub phase: usize,
    pub attempt: usize,
    pub best_retry: bool,
    pub last_error: String,
    pub done: bool,
}

pub open spec fn cookies_enabled(req: DownloadRequest) -> bool {
    req.cookies_path is Some || req.cookies_from_browser
}

impl DownloadSession {
    pub open spec fn clients(self, i: int) -> Seq<Seq<char>> {
        texts(self.phases@[i].clients@)
    }

    pub open spec fn wf(self) -> bool {
        &&& self.phases@.map_values(|q: Phase| phase_view(q)) == plan(
            self.youtube,
            cookies_enabled(self.request),
            self.request.quality@ == "audio"@,
            self.request.allow_fallback,
        )
        &&& self.youtube == youtube_text(lower_of(self.request.url@))
        &&& self.format@ == format_for(self.request.quality@, self.request.codec@)
        &&& self.phase < self.phases@.len()
        &&& self.attempt < self.clients(self.phase as int).len()
        &&& forall|i: int| 0 <= i < self.phases@.len() ==> #[trigger] self.clients(i).len() > 0
    }

    /// The client of the attempt at hand.
    pub open spec fn client(self) -> Seq<char> {
        if self.best_retry { COOKIE_CLIENTS@ } else { self.clients(self.phase as int)[self.attempt as int] }
    }

    pub open spec fn cookies_now(self) -> bool {
        self.phases@[self.phase as int].use_cookies
    }

    pub open spec fn audio_now(self) -> bool {
        !self.best_retry && self.phases@[self.phase as int].force_audio
    }

    /// `a` is the attempt at hand.
    pub open spec fn runs(self, a: Attempt) -> bool {
        &&& a.client@ == self.client()
        &&& a.use_cookies == self.cookies_now()
        &&& a.force_audio == self.audio_now()
        &&& texts(a.args@) == download_args(self.request, self.youtube, self.client(),
            if self.best_retry { BEST_FORMAT@ } else { self.format@ }, self.cookies_now(), self.audio_now())
    }

    /// Whether a failure at this point means the requested quality is missing,
    /// so that one try at the best quality is due.
    pub open spec fn best_due(self, err: Seq<char>) -> bool {
        contains(err, FORMAT_UNAVAILABLE@) && self.request.quality@ != "best"@
            && !self.phases@[self.phase as int].force_audio
    }

    /// Where the session goes after the attempt at hand failed with `err`.
    pub open spec fn next_position(self, err: Seq<char>) -> Position {
        if !self.best_retry && retryable_failure(self.youtube, err)
            && self.attempt + 1 < self.clients(self.phase as int).len() {
            Position::Try { phase: self.phase, attempt: (self.attempt + 1) as usize, best: false }
        } else if !self.best_retry && self.best_due(err) {
            Position::Try { phase: self.phase, attempt: self.attempt, best: true }
        } else if self.phase + 1 < self.phases@.len() {
            Position::Try { phase: (self.phase + 1) as usize, attempt: 0, best: false }
        } else {
            Position::Exhausted
        }
    }

    pub open spec fn start_notice(self, phase: int, attempt: int) -> (u32, Seq<char>) {
        (0, attempt_text(self.phases@[phase].force_audio, self.phases@[phase].use_cookies,
            self.clients(phase)[attempt], attempt as nat, self.clients(phase).len()))
    }

    /// The notices emitted after the attempt at hand failed with `err`.
    pub open spec fn failure_events(self, err: Seq<char>) -> Seq<(u32, Seq<char>)> {
        let head = if self.best_retry { seq![] } else { seq![(0u32, diag_text(err, self.client()))] };
        match self.next_position(err) {
            Position::Try { phase, attempt, best } => if best {
                head.push((0u32, QUALITY_FALLBACK@))
            } else if phase == self.phase {
                head.push(self.start_notice(phase as int, attempt as int))
            } else {
                head + seq![(0u32, self.phases@[phase as int].banner@), self.start_notice(phase as int, 0)]
            },
            Position::Exhausted => head,
        }
    }

    /// The lead of a final failure's report.
    pub open spec fn failure_prefix(self) -> Seq<char> {
        if self.request.allow_fallback { FAILED_ALL@ } else { FAILED_FALLBACK_OFF@ }
    }

    /// Starts a download session; `new` does not run anything.
    pub fn new(request: DownloadRequest) -> (r: Self)
        ensures
            r.wf(),
            r.request == request,
            r.phase == 0 && r.attempt == 0 && !r.best_retry && !r.done,
    {
        let youtube = is_youtube(request.url.as_str());
        let format = format_arg(request.quality.as_str(), request.codec.as_str()).to_string();
        let cookies = request.cookies_path.is_some() || request.cookies_from_browser;
        let audio = same_text(request.quality.as_str(), "audio");
        let phases = build_plan(youtube, cookies, audio, request.allow_fallback);
        proof {
            let pv = phases@.map_values(|q: Phase| phase_view(q));
            let pl = plan(youtube, cookies, audio, request.allow_fallback);
            assert(pl[0].0.len() == 1);
            assert(pv.len() == phases@.len());
            assert(pv[0] == phase_view(phases@[0]));
            lemma_plan_clients(youtube, cookies, audio, request.allow_fallback);
            assert forall|i: int| 0 <= i < phases@.len() implies texts(phases@[i].clients@).len() > 0 by {
                assert(pv[i] == phase_view(phases@[i]));
            }
        }
        DownloadSession {
            request,
            youtube,
            format,
            phases,
            phase: 0,
            attempt: 0,
            best_retry: false,
            last_error: String::new(),
            done: false,
        }
    }

    fn phase_clients_len(&self, i: usize) -> (n: usize)
        requires
            i < self.phases@.len(),
        ensures
            n == self.clients(i as int).len(),
    {
        self.phases[i].clients.len()
    }

    /// The attempt at hand.
    pub fn current_attempt(&self) -> (a: Attempt)
        requires
            self.wf(),
        ensures
            self.runs(a),
    {
        let p = &self.phases[self.phase];
        let client: String = if self.best_retry {
            COOKIE_CLIENTS.to_string()
        } else {
            p.clients[self.attempt].clone()
        };
        proof {
            if !self.best_retry {
                assert(texts(p.clients@)[self.attempt as int] == p.clients@[self.attempt as int]@);
            }
        }
        let audio = !self.best_retry && p.force_audio;
        let format: &str = if self.best_retry { BEST_FORMAT } else { self.format.as_str() };
        let args = build_download_args(&self.request, self.youtube, client.as_str(), format, p.use_cookies, audio);
        Attempt { client, use_cookies: p.use_cookies, force_audio: audio, args }
    }

    /// Notice that the attempt at hand starts.
    fn start_event(&self) -> (e: ProgressEvent)
        requires
            self.wf(),
            !self.best_retry,
        ensures
            event_view(e) == self.start_notice(self.phase as int, self.attempt as int),
    {
        let p = &self.phases[self.phase];
        proof {
            assert(texts(p.clients@)[self.attempt as int] == p.clients@[self.attempt as int]@);
        }
        let mut s = String::new();
        push_str(&mut s, if p.force_audio { "\u{1F3B5}" } else { "\u{1F3AC}" });
        push_str(&mut s, " ");
        push_str(&mut s, if p.use_cookies { "\u{1F36A}" } else { "\u{1F513}" });
        push_str(&mut s, " client=");
        push_str(&mut s, p.clients[self.attempt].as_str());
        push_str(&mut s, " | attempt ");
        assert(*p == self.phases@[self.phase as int]);
        assert(texts(p.clients@).len() == p.clients@.len());
        let n: usize = p.clients.len();
        assert(self.attempt < n);
        let k: usize = self.attempt + 1;
        push_decimal(&mut s, k as u64);
        push_str(&mut s, "/");
        push_decimal(&mut s, p.clients.len() as u64);
        assert(s@ =~= attempt_text(p.force_audio, p.use_cookies, self.clients(self.phase as int)[self.attempt as int],
            self.attempt as nat, self.clients(self.phase as int).len()));
        ProgressEvent { percent_tenths: 0, status: s }
    }

    /// Notices that the first phase begins and its first attempt starts,
    /// then that attempt.
    pub fn start(&self) -> (r: Advance)
        requires
            self.wf(),
            self.phase == 0 && self.attempt == 0 && !self.best_retry,
        ensures
            events_view(r.events@) == seq![(0u32, self.phases@[0].banner@), self.start_notice(0, 0)],
            r.step is Run && self.runs(r.step->Run_0),
    {
        let mut events: Vec<ProgressEvent> = Vec::new();
        events.push(ProgressEvent { percent_tenths: 0, status: self.phases[0].banner.clone() });
        events.push(self.start_event());
        assert(events_view(events@) =~= seq![(0u32, self.phases@[0].banner@), self.start_notice(0, 0)]);
        Advance { events, step: Step::Run(self.current_attempt()) }
    }

    fn current_client(&self) -> (c: String)
        requires
            self.wf(),
        ensures
            c@ == self.client(),
    {
        if self.best_retry {
            COOKIE_CLIENTS.to_string()
        } else {
            let p = &self.phases[self.phase];
            assert(texts(p.clients@)[self.attempt as int] == p.clients@[self.attempt as int]@);
            p.clients[self.attempt].clone()
        }
    }

    /// The attempt at hand failed with `err`. Emits the failure notice (none
    /// for the retry at best quality), then moves to the next client of the
    /// phase when the failure is one a client change may fix, or to one try
    /// at best quality when the quality is missing, or to the next phase; when
    /// none is left, the download fails with the diagnosed last error.
    pub fn on_failure(&mut self, err: String) -> (r: Advance)
        requires
            old(self).wf(),
        ensures
            events_view(r.events@) == old(self).failure_events(err@),
            final(self).request == old(self).request,
            final(self).youtube == old(self).youtube,
            final(self).format == old(self).format,
            final(self).phases == old(self).phases,
            final(self).last_error@ == (if old(self).best_retry { old(self).last_error@ } else { err@ }),
            match old(self).next_position(err@) {
                Position::Try { phase, attempt, best } => {
                    &&& final(self).wf()
                    &&& final(self).phase == phase
                    &&& final(self).attempt == attempt
                    &&& final(self).best_retry == best
                    &&& final(self).done == old(self).done
                    &&& r.step is Run
                    &&& final(self).runs(r.step->Run_0)
                },
                Position::Exhausted => {
                    &&& final(self).done
                    &&& r.step matches Step::Finished(Err(m))
                    &&& m@ == failure_text(final(self).failure_prefix(), final(self).last_error@, opt_text(final(self).request.proxy))
                },
            },
    {
        let ghost o = *self;
        let mut events: Vec<ProgressEvent> = Vec::new();
        if !self.best_retry {
            let client = self.current_client();
            events.push(diag_event(err.as_str(), client.as_str()));
        }
        let ghost head = events_view(events@);
        assert(head =~= (if o.best_retry { seq![] } else { seq![(0u32, diag_text(err@, o.client()))] }));
        let n = self.phase_clients_len(self.phase);
        let e = chars_of(err.as_str());
        let retry = !self.best_retry && self.youtube && (has(&e, "HTTP Error 403") || has(&e, "Forbidden")
            || has(&e, "SABR") || has(&e, FORMAT_UNAVAILABLE)) && self.attempt + 1 < n;
        let best = !self.best_retry && has(&e, FORMAT_UNAVAILABLE)
            && !same_text(self.request.quality.as_str(), "best") && !self.phases[self.phase].force_audio;
        if !self.best_retry {
            self.last_error = err;
        }
        proof {
            assert forall|i: int| 0 <= i < self.phases@.len() implies #[trigger] self.clients(i).len() > 0 by {
                assert(o.clients(i).len() > 0);
            }
        }
        let np: usize = self.phases.len();
        if retry {
            self.attempt = self.attempt + 1;
            proof {
                assert forall|i: int| 0 <= i < self.phases@.len() implies #[trigger] self.clients(i).len() > 0 by {
                    assert(o.clients(i).len() > 0);
                }
            }
            let ev = self.start_event();
            events.push(ev);
            assert(events_view(events@) =~= head.push(event_view(ev)));
            return Advance { events, step: Step::Run(self.current_attempt()) };
        }
        if best {
            self.best_retry = true;
            proof {
                assert forall|i: int| 0 <= i < self.phases@.len() implies #[trigger] self.clients(i).len() > 0 by {
                    assert(o.clients(i).len() > 0);
                }
            }
            events.push(ProgressEvent { percent_tenths: 0, status: QUALITY_FALLBACK.to_string() });
            assert(events_view(events@) =~= head.push((0u32, QUALITY_FALLBACK@)));
            return Advance { events, step: Step::Run(self.current_attempt()) };
        }
        if self.phase + 1 < np {
            self.phase = self.phase + 1;
            self.attempt = 0;
            self.best_retry = false;
            proof {
                assert forall|i: int| 0 <= i < self.phases@.len() implies #[trigger] self.clients(i).len() > 0 by {
                    assert(o.clients(i).len() > 0);
                }
                assert(o.clients(self.phase as int).len() > 0);
            }
            let b = ProgressEvent { percent_tenths: 0, status: self.phases[self.phase].banner.clone() };
            let ev = self.start_event();
            events.push(b);
            events.push(ev);
            assert(events_view(events@) =~= head + seq![(0u32, self.phases@[self.phase as int].banner@), self.start_notice(self.phase as int, 0)]);
            return Advance { events, step: Step::Run(self.current_attempt()) };
        }
        self.done = true;
        let prefix: &str = if self.request.allow_fallback { FAILED_ALL } else { FAILED_FALLBACK_OFF };
        let msg = failure_message(prefix, self.last_error.as_str(), &self.request.proxy);
        Advance { events, step: Step::Finished(Err(msg)) }
    }

    /// The attempt at hand succeeded: one notice at 100 percent, and the
    /// success message naming the client.
    pub fn on_success(&mut self) -> (r: Advance)
        requires
            old(self).wf(),
        ensures
            events_view(r.events@) == seq![(1000u32, success_text(old(self).client(), old(self).cookies_now(), old(self).audio_now()))],
            r.step matches Step::Finished(Ok(m)) && m@ == SUCCESS_PREFIX@ + old(self).client(),
            final(self).done,
    {
        let p = &self.phases[self.phase];
        let client: String = if self.best_retry {
            COOKIE_CLIENTS.to_string()
        } else {
            p.clients[self.attempt].clone()
        };
        proof {
            if !self.best_retry {
                assert(texts(p.clients@)[self.attempt as int] == p.clients@[self.attempt as int]@);
            }
        }
        let audio = !self.best_retry && p.force_audio;
        let mut s = String::new();
        push_str(&mut s, "\u{2705} Success! client=");
        push_str(&mut s, client.as_str());
        push_str(&mut s, ", ");
        push_str(&mut s, if p.use_cookies { "\u{1F36A}" } else { "\u{1F513}" });
        push_str(&mut s, ", ");
        push_str(&mut s, if audio { "\u{1F3B5} audio" } else { "\u{1F3AC} video" });
        assert(s@ =~= success_text(self.client(), self.cookies_now(), self.audio_now()));
        let msg = concat(SUCCESS_PREFIX, client.as_str());
        let mut events: Vec<ProgressEvent> = Vec::new();
        events.push(ProgressEvent { percent_tenths: 1000, status: s });
        assert(events_view(events@) =~= seq![(1000u32, success_text(self.client(), self.cookies_now(), self.audio_now()))]);
        self.done = true;
        Advance { events, step: Step::Finished(Ok(msg)) }
    }
}

/// `next` is where `on_failure` leaves `prev` after a failure with `err`.
pub open spec fn moved_on(prev: DownloadSession, next: DownloadSession, err: Seq<char>) -> bool {
    &&& next.request == prev.request
    &&& next.youtube == prev.youtube
    &&& next.phases == prev.phases
    &&& match prev.next_position(err) {
        Position::Try { phase, attempt, best } => next.phase == phase && next.attempt == attempt && next.best_retry == best,
        Position::Exhausted => true,
    }
}

/// On the video platform with cookies configured and fallback allowed, a
/// failure that a client change may fix (and that is not a missing format)
/// in the multi-client phase leads to the cookie phase, and the same failure
/// there leads to the single-client phase, whose first client is android.
/// The notices come in this order: the failure of the first phase, the start
/// of the cookie phase, the failure there, the start of the single-client
/// phase, and on success one notice at 100 percent naming android.
pub proof fn fallback_reaches_android(s0: DownloadSession, s1: DownloadSession, s2: DownloadSession, err: Seq<char>)
    requires
        s0.wf(),
        s0.phase == 0 && s0.attempt == 0 && !s0.best_retry,
        s0.youtube,
        cookies_enabled(s0.request),
        s0.request.allow_fallback,
        retryable_failure(true, err),
        !contains(err, FORMAT_UNAVAILABLE@),
        moved_on(s0, s1, err),
        moved_on(s1, s2, err),
    ensures
        s0.next_position(err) == (Position::Try { phase: 1, attempt: 0, best: false }),
        s1.next_position(err) == (Position::Try { phase: 2, attempt: 0, best: false }),
        s0.failure_events(err) == seq![(0u32, diag_text(err, MULTI_CLIENT@)), (0u32, BANNER_COOKIES@), s1.start_notice(1, 0)],
        s1.failure_events(err) == seq![(0u32, diag_text(err, COOKIE_CLIENTS@)), (0u32, BANNER_FALLBACK@), s2.start_notice(2, 0)],
        s2.client() == "android"@,
        success_text(s2.client(), s2.cookies_now(), s2.audio_now()) == success_text("android"@, true, false),
        SUCCESS_PREFIX@ + s2.client() == SUCCESS_PREFIX@ + "android"@,
{
    let pl = plan(true, true, s0.request.quality@ == "audio"@, true);
    let pv = s0.phases@.map_values(|q: Phase| phase_view(q));
    assert(pv == pl);
    assert(pl.len() >= 3);
    assert(pl[0] == (seq![MULTI_CLIENT@], false, false, BANNER_MULTI@));
    assert(pl[1] == (seq![COOKIE_CLIENTS@], true, false, BANNER_COOKIES@));
    assert(pl[2] == (seq!["android"@, "tv"@, "web"@], true, false, BANNER_FALLBACK@));
    assert(pv[0] == phase_view(s0.phases@[0]));
    assert(pv[1] == phase_view(s0.phases@[1]));
    assert(pv[2] == phase_view(s0.phases@[2]));
    assert(s0.clients(0) == seq![MULTI_CLIENT@]);
    assert(s0.clients(1) == seq![COOKIE_CLIENTS@]);
    assert(s0.clients(2) == seq!["android"@, "tv"@, "web"@]);
    assert(s1.clients(1) == s0.clients(1));
    assert(s2.clients(2) == s0.clients(2));
    assert(s0.failure_events(err) =~= seq![(0u32, diag_text(err, MULTI_CLIENT@)), (0u32, BANNER_COOKIES@), s1.start_notice(1, 0)]);
    assert(s1.failure_events(err) =~= seq![(0u32, diag_text(err, COOKIE_CLIENTS@)), (0u32, BANNER_FALLBACK@), s2.start_notice(2, 0)]);
}

} // verus!
