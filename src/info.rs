//! The metadata request: the strategies tried in turn, their arguments,
//! the video record built from the document, and the failure message.
use vstd::prelude::*;
use crate::text::{chars_of, concat, decimal, digit, lines, lines_of, lines_view, lower_of, push_char, push_decimal, push_str, string_of};
use crate::download::{cookie_args, is_youtube, opt_text, proxy_args, push_cookie_args, push_proxy_args, texts, youtube_text};
use crate::diagnostics::{diagnose_error, reason_of};
use crate::advice::{get_blocking_suggestion, suggestion_text};
use crate::extractors::USER_AGENT;
use crate::metadata::{FormatOption, RestrictionInfo, VideoJson, detect_restriction, extract_format_options, fos_view,
    format_options_of, restriction_of, restriction_view};

verus! {

/// The video record shown to the user.
#[derive(Debug, Clone)]
pub struct VideoInfo {
    pub title: String,
    pub duration: String,
    pub thumbnail: String,
    pub uploader: String,
    pub formats: Vec<FormatOption>,
    pub restriction: RestrictionInfo,
}

/// "m:ss" for a duration in seconds.
pub open spec fn duration_text(d: nat) -> Seq<char> {
    let s = d % 60;
    decimal(d / 60) + ":"@ + (if s < 10 { seq!['0', digit(s)] } else { decimal(s) })
}

pub open spec fn or_text(o: Option<String>, d: Seq<char>) -> Seq<char> {
    match o {
        Some(s) => s@,
        None => d,
    }
}

fn or_string(o: &Option<String>, d: &str) -> (r: String)
    ensures
        r@ == or_text(*o, d@),
{
    match o {
        Some(s) => s.clone(),
        None => d.to_string(),
    }
}

/// Formats a duration in seconds as "m:ss".
pub fn format_duration(d: u64) -> (r: String)
    ensures
        r@ == duration_text(d as nat),
{
    let mut s = String::new();
    push_decimal(&mut s, d / 60);
    push_str(&mut s, ":");
    let sec = d % 60;
    if sec < 10 {
        push_char(&mut s, '0');
    }
    push_decimal(&mut s, sec);
    proof {
        if sec < 10 {
            assert(decimal(sec as nat) == seq![digit(sec as nat)]);
        }
    }
    assert(s@ =~= duration_text(d as nat));
    s
}

/// Builds the video record from the document: missing title and uploader
/// read "Unknown", a missing thumbnail is empty.
pub fn build_video_info(j: &VideoJson) -> (r: VideoInfo)
    ensures
        r.title@ == or_text(j.title, "Unknown"@),
        r.uploader@ == or_text(j.uploader, "Unknown"@),
        r.thumbnail@ == or_text(j.thumbnail, ""@),
        r.duration@ == duration_text(j.duration_secs as nat),
        fos_view(r.formats@) == format_options_of(j.formats),
        restriction_view(r.restriction) == restriction_of(*j),
{
    VideoInfo {
        title: or_string(&j.title, "Unknown"),
        duration: format_duration(j.duration_secs),
        thumbnail: or_string(&j.thumbnail, ""),
        uploader: or_string(&j.uploader, "Unknown"),
        formats: extract_format_options(&j.formats),
        restriction: detect_restriction(j),
    }
}

/// One metadata attempt: player clients, and whether cookies may be used.
pub open spec fn info_strategies(youtube: bool) -> Seq<(Seq<char>, bool)> {
    if youtube {
        seq![("web,web_safari,ios"@, false), ("web,web_safari"@, true), ("web"@, true)]
    } else {
        seq![("web"@, true)]
    }
}

/// The metadata attempts for `url`, in order: on the platform several clients
/// at once without cookies, then the cookie-compatible ones with cookies,
/// then the web client; elsewhere the web client.
pub fn info_strategy_list(url: &str) -> (r: Vec<(String, bool)>)
    ensures
        r@.map_values(|p: (String, bool)| (p.0@, p.1)) == info_strategies(youtube_text(lower_of(url@))),
{
    let mut v: Vec<(String, bool)> = Vec::new();
    let y = is_youtube(url);
    if y {
        v.push(("web,web_safari,ios".to_string(), false));
        v.push(("web,web_safari".to_string(), true));
    }
    v.push(("web".to_string(), true));
    assert(v@.map_values(|p: (String, bool)| (p.0@, p.1)) =~= info_strategies(y));
    v
}

/// Arguments of one metadata attempt of the program.
pub open spec fn info_args(url: Seq<char>, client: Seq<char>, cookies: Seq<Seq<char>>, proxy: Option<Seq<char>>) -> Seq<Seq<char>> {
    seq!["--dump-json"@, "--no-playlist"@, "--no-warnings"@, "--socket-timeout"@, "15"@, "--retries"@,
        "2"@, "--user-agent"@, USER_AGENT@, "--extractor-args"@, "youtube:player_client="@ + client, url]
        + cookies + proxy_args(proxy)
}

fn push_text(a: &mut Vec<String>, s: String)
    ensures
        texts(final(a)@) == texts(old(a)@).push(s@),
{
    let ghost before = a@;
    let ghost t = s@;
    a.push(s);
    assert(texts(a@) =~= texts(before).push(t));
}

/// Builds the arguments of one metadata attempt; cookies only where the
/// strategy allows them (an explicit file wins over browser cookies).
pub fn build_info_args(
    url: &str,
    client: &str,
    allow_cookies: bool,
    cookies_path: &Option<String>,
    cookies_from_browser: bool,
    proxy: &Option<String>,
) -> (r: Vec<String>)
    ensures
        texts(r@) == info_args(url@, client@,
            if allow_cookies { cookie_args(opt_text(*cookies_path), cookies_from_browser) } else { seq![] },
            opt_text(*proxy)),
{
    let mut a: Vec<String> = Vec::new();
    push_text(&mut a, "--dump-json".to_string());
    push_text(&mut a, "--no-playlist".to_string());
    push_text(&mut a, "--no-warnings".to_string());
    push_text(&mut a, "--socket-timeout".to_string());
    push_text(&mut a, "15".to_string());
    push_text(&mut a, "--retries".to_string());
    push_text(&mut a, "2".to_string());
    push_text(&mut a, "--user-agent".to_string());
    push_text(&mut a, USER_AGENT.to_string());
    push_text(&mut a, "--extractor-args".to_string());
    push_text(&mut a, concat("youtube:player_client=", client));
    push_text(&mut a, url.to_string());
    let ghost head = texts(a@);
    if allow_cookies {
        push_cookie_args(&mut a, cookies_path, cookies_from_browser);
    }
    let ghost c = texts(a@);
    assert(c =~= head + (if allow_cookies { cookie_args(opt_text(*cookies_path), cookies_from_browser) } else { seq![] }));
    push_proxy_args(&mut a, proxy);
    assert(texts(a@) =~= info_args(url@, client@,
        if allow_cookies { cookie_args(opt_text(*cookies_path), cookies_from_browser) } else { seq![] },
        opt_text(*proxy)));
    a
}

/// The first `n` lines (at most) joined with " | ".
pub open spec fn joined(ls: Seq<Seq<char>>, n: int) -> Seq<char>
    decreases n,
{
    if n <= 0 || ls.len() == 0 {
        seq![]
    } else if n == 1 {
        ls[0]
    } else {
        joined(ls, n - 1) + (if n - 1 < ls.len() { " | "@ + ls[n - 1] } else { seq![] })
    }
}

/// The first three lines of `s` joined with " | ".
pub fn first_lines(s: &str) -> (r: String)
    ensures
        r@ == joined(lines_of(s@), 3),
{
    let c = chars_of(s);
    let ls = lines(&c);
    join_three(&ls)
}

/// The first three of `ls` (at most) joined with " | ".
pub fn join_three(ls: &Vec<Vec<char>>) -> (r: String)
    ensures
        r@ == joined(lines_view(ls@), 3),
{
    let ghost lv = lines_view(ls@);
    let mut out = String::new();
    if ls.len() == 0 {
        return out;
    }
    assert(lv[0] == ls@[0]@);
    push_str(&mut out, string_of(&ls[0]).as_str());
    assert(out@ == joined(lv, 1));
    if ls.len() > 1 {
        assert(lv[1] == ls@[1]@);
        push_str(&mut out, " | ");
        push_str(&mut out, string_of(&ls[1]).as_str());
    }
    assert(out@ =~= joined(lv, 2));
    if ls.len() > 2 {
        assert(lv[2] == ls@[2]@);
        push_str(&mut out, " | ");
        push_str(&mut out, string_of(&ls[2]).as_str());
    }
    assert(out@ =~= joined(lv, 3));
    out
}

/// The message when every metadata attempt failed: the diagnosed reason,
/// its advice and the first lines of the last error.
pub open spec fn info_failure_text(err: Seq<char>, proxy: Option<Seq<char>>) -> Seq<char> {
    match reason_of(lower_of(err), err.len() == 0) {
        Some(r) => r.description_text() + "\n\n"@ + suggestion_text(r, proxy) + "\n\nDetails: "@ + joined(lines_of(err), 3),
        None => "yt-dlp info failed: "@ + err,
    }
}

/// Builds the message for a failed metadata request.
pub fn info_failure_message(last_error: &str, proxy: &Option<String>) -> (r: String)
    ensures
        r@ == info_failure_text(last_error@, opt_text(*proxy)),
{
    match diagnose_error(last_error) {
        Some(reason) => {
            let mut s = reason.description().to_string();
            push_str(&mut s, "\n\n");
            let p: Option<&str> = match proxy {
                Some(x) => Some(x.as_str()),
                None => None,
            };
            push_str(&mut s, get_blocking_suggestion(&reason, p).as_str());
            push_str(&mut s, "\n\nDetails: ");
            push_str(&mut s, first_lines(last_error).as_str());
            s
        },
        None => concat("yt-dlp info failed: ", last_error),
    }
}

/// An entry of the simplified format list.
#[derive(Debug, Clone)]
pub struct FormatInfo {
    pub format_id: String,
    pub quality: String,
    pub ext: String,
}

pub open spec fn format_info_view(f: FormatInfo) -> (Seq<char>, Seq<char>, Seq<char>) {
    (f.format_id@, f.quality@, f.ext@)
}

/// The simplified format list offered once the tool has answered.
pub open spec fn standard_format_list() -> Seq<(Seq<char>, Seq<char>, Seq<char>)> {
    seq![("best"@, "Best Quality"@, "mp4"@), ("1080p"@, "1080p"@, "mp4"@), ("720p"@, "720p"@, "mp4"@),
        ("480p"@, "480p"@, "mp4"@), ("audio"@, "Audio Only (MP3)"@, "mp3"@)]
}

fn fi(a: &str, b: &str, c: &str) -> (r: FormatInfo)
    ensures
        format_info_view(r) == (a@, b@, c@),
{
    FormatInfo { format_id: a.to_string(), quality: b.to_string(), ext: c.to_string() }
}

/// The simplified format list.
pub fn standard_formats() -> (r: Vec<FormatInfo>)
    ensures
        r@.map_values(|f: FormatInfo| format_info_view(f)) == standard_format_list(),
{
    let mut v: Vec<FormatInfo> = Vec::new();
    v.push(fi("best", "Best Quality", "mp4"));
    v.push(fi("1080p", "1080p", "mp4"));
    v.push(fi("720p", "720p", "mp4"));
    v.push(fi("480p", "480p", "mp4"));
    v.push(fi("audio", "Audio Only (MP3)", "mp3"));
    assert(v@.map_values(|f: FormatInfo| format_info_view(f)) =~= standard_format_list());
    v
}

/// Arguments of a metadata run of the Python module, several clients at once.
pub open spec fn module_info_args(url: Seq<char>, cookies: Seq<Seq<char>>, proxy: Option<Seq<char>>) -> Seq<Seq<char>> {
    seq!["-m"@, "yt_dlp"@, "--dump-json"@, "--no-playlist"@, "--no-warnings"@, "--socket-timeout"@,
        "15"@, "--retries"@, "2"@, "--extractor-args"@, "youtube:player_client=web,web_safari,ios"@, url]
        + cookies + proxy_args(proxy)
}

/// Builds the arguments of a metadata run of the Python module; browser
/// cookies only when asked for, an explicit cookie file first.
pub fn module_info_arguments(
    url: &str,
    proxy: &Option<String>,
    cookies_from_browser: bool,
    cookies_path: &Option<String>,
) -> (r: Vec<String>)
    ensures
        texts(r@) == module_info_args(url@, cookie_args(opt_text(*cookies_path), cookies_from_browser), opt_text(*proxy)),
{
    let mut a: Vec<String> = Vec::new();
    push_text(&mut a, "-m".to_string());
    push_text(&mut a, "yt_dlp".to_string());
    push_text(&mut a, "--dump-json".to_string());
    push_text(&mut a, "--no-playlist".to_string());
    push_text(&mut a, "--no-warnings".to_string());
    push_text(&mut a, "--socket-timeout".to_string());
    push_text(&mut a, "15".to_string());
    push_text(&mut a, "--retries".to_string());
    push_text(&mut a, "2".to_string());
    push_text(&mut a, "--extractor-args".to_string());
    push_text(&mut a, "youtube:player_client=web,web_safari,ios".to_string());
    push_text(&mut a, url.to_string());
    push_cookie_args(&mut a, cookies_path, cookies_from_browser);
    push_proxy_args(&mut a, proxy);
    assert(texts(a@) =~= module_info_args(url@, cookie_args(opt_text(*cookies_path), cookies_from_browser), opt_text(*proxy)));
    a
}

/// Arguments of the run that lists a video's formats.
pub fn list_formats_args(url: &str) -> (r: Vec<String>)
    ensures
        texts(r@) == seq!["--list-formats"@, "--cookies-from-browser"@, "chrome"@, url@],
{
    let mut a: Vec<String> = Vec::new();
    push_text(&mut a, "--list-formats".to_string());
    push_text(&mut a, "--cookies-from-browser".to_string());
    push_text(&mut a, "chrome".to_string());
    push_text(&mut a, url.to_string());
    assert(texts(a@) =~= seq!["--list-formats"@, "--cookies-from-browser"@, "chrome"@, url@]);
    a
}

/// The format list once the listing run has ended: the simplified list if
/// it succeeded, else its error output.
pub fn formats_outcome(succeeded: bool, stderr: &str) -> (r: Result<Vec<FormatInfo>, String>)
    ensures
        succeeded ==> (r matches Ok(v) && v@.map_values(|f: FormatInfo| format_info_view(f)) == standard_format_list()),
        !succeeded ==> (r matches Err(m) && m@ == "yt-dlp error: "@ + stderr@),
{
    if succeeded {
        Ok(standard_formats())
    } else {
        Err(concat("yt-dlp error: ", stderr))
    }
}

} // verus!
