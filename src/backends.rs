//! The alternative download tools: their argument lists and how their error
//! text maps onto the error taxonomy.
use vstd::prelude::*;
use crate::text::{chars_of, contains, decimal, has, push_decimal, push_str};
use crate::download::{opt_text, same_text, texts};
use crate::errors::{DownloadError, ErrorView};

verus! {

/// Whether `url` names the video platform (case as written).
pub open spec fn platform_url(url: Seq<char>) -> bool {
    contains(url, "youtube.com"@) || contains(url, "youtu.be"@)
}

fn platform_url_exec(url: &str) -> (r: bool)
    ensures
        r == platform_url(url@),
{
    let u = chars_of(url);
    has(&u, "youtube.com") || has(&u, "youtu.be")
}

/// An entry of a proxy engine's configuration.
#[derive(Debug, Clone)]
pub struct Inbound {
    pub protocol: Option<String>,
    pub listen: Option<String>,
    pub port: Option<u64>,
}

pub open spec fn is_http_inbound(i: Inbound) -> bool {
    i.protocol matches Some(p) && p@ == "http"@ && i.listen is Some && i.port is Some
}

/// The first index among the first `n` of an HTTP inbound with an address
/// and a port, or -1.
pub open spec fn first_http(v: Seq<Inbound>, n: int) -> int
    decreases n,
{
    if n <= 0 {
        -1
    } else {
        let b = first_http(v, n - 1);
        if b >= 0 { b } else if is_http_inbound(v[n - 1]) { n - 1 } else { -1 }
    }
}

/// The address of the first HTTP inbound, "listen:port", with a scheme
/// prefix when `with_scheme`.
pub open spec fn http_proxy_of(v: Seq<Inbound>, with_scheme: bool) -> Option<Seq<char>> {
    let i = first_http(v, v.len() as int);
    if i < 0 {
        None
    } else {
        Some((if with_scheme { "http://"@ } else { seq![] }) + v[i].listen->0@ + ":"@ + decimal(v[i].port->0 as nat))
    }
}

proof fn lemma_first_http_stays(v: Seq<Inbound>, m: int, n: int)
    requires
        1 <= m <= n,
        first_http(v, m) >= 0,
    ensures
        first_http(v, n) == first_http(v, m),
    decreases n - m,
{
    if m < n {
        lemma_first_http_stays(v, m + 1, n);
    }
}

/// The HTTP proxy declared by a proxy engine's configuration, if any.
pub fn http_proxy_from(inbounds: &Vec<Inbound>, with_scheme: bool) -> (r: Option<String>)
    ensures
        opt_text(r) == http_proxy_of(inbounds@, with_scheme),
{
    let mut i: usize = 0;
    while i < inbounds.len()
        invariant
            i <= inbounds@.len(),
            first_http(inbounds@, i as int) == -1,
        decreases inbounds@.len() - i,
    {
        let b = &inbounds[i];
        let http = match &b.protocol {
            Some(p) => same_text(p.as_str(), "http"),
            None => false,
        };
        if http && b.listen.is_some() && b.port.is_some() {
            proof { lemma_first_http_stays(inbounds@, i + 1, inbounds@.len() as int); }
            let mut s = if with_scheme { "http://".to_string() } else { String::new() };
            match (&b.listen, b.port) {
                (Some(l), Some(p)) => {
                    push_str(&mut s, l.as_str());
                    push_str(&mut s, ":");
                    push_decimal(&mut s, p);
                },
                _ => {},
            }
            proof {
                let pre: Seq<char> = if with_scheme { "http://"@ } else { seq![] };
                assert(s@ =~= pre + b.listen->0@ + ":"@ + decimal(b.port->0 as nat));
            }
            return Some(s);
        }
        i = i + 1;
    }
    None
}

/// The lux tool.
#[derive(Debug, Clone)]
pub struct LuxBackend {
    pub binary_path: String,
    pub http_proxy: Option<String>,
}

pub const LUX_CIPHER: &'static str = "Lux cannot decode YouTube cipher (v0.24.1 is outdated).\nYouTube changes encryption frequently.\nSolution: Use yt-dlp instead \u{2014} it's actively maintained.";
pub const LUX_TIMEOUT: &'static str = "Network timeout. YouTube may be blocked. Use VPN/proxy.";
pub const ACCESS_DENIED: &'static str = "Access denied (403). Try yt-dlp instead.";
pub const LUX_UNSUPPORTED: &'static str = "This URL is not supported by lux. Try yt-dlp.";

/// How lux error text maps onto the taxonomy: a cipher failure means the
/// tool cannot handle the platform at all.
pub open spec fn lux_error(e: Seq<char>, url: Seq<char>) -> ErrorView {
    if contains(e, "cipher not found"@) || contains(e, "cipher"@) {
        ErrorView::UnsupportedUrl(LUX_CIPHER@)
    } else if contains(e, "operation timed out"@) || contains(e, "timeout"@) || contains(e, "timed out"@) {
        if platform_url(url) { ErrorView::NetworkError(LUX_TIMEOUT@) } else { ErrorView::NetworkTimeout }
    } else if contains(e, "403"@) || contains(e, "Forbidden"@) {
        ErrorView::NetworkError(ACCESS_DENIED@)
    } else if contains(e, "not support"@) || contains(e, "unsupported"@) {
        ErrorView::UnsupportedUrl(LUX_UNSUPPORTED@)
    } else {
        ErrorView::Unknown(e)
    }
}

impl LuxBackend {
    /// A lux backend running `binary_path`, passing `http_proxy` through the environment.
    pub fn new(binary_path: String, http_proxy: Option<String>) -> (r: Self)
        ensures
            r.binary_path == binary_path && r.http_proxy == http_proxy,
    {
        LuxBackend { binary_path, http_proxy }
    }

    /// Whether `url` names the video platform.
    pub fn is_youtube_url(url: &str) -> (r: bool)
        ensures
            r == platform_url(url@),
    {
        platform_url_exec(url)
    }

    /// Maps lux error text onto the taxonomy.
    pub fn parse_lux_error(error: &str, url: &str) -> (r: DownloadError)
        ensures
            r.view_of() == lux_error(error@, url@),
    {
        let e = chars_of(error);
        if has(&e, "cipher not found") || has(&e, "cipher") {
            return DownloadError::UnsupportedUrl(LUX_CIPHER.to_string());
        }
        if has(&e, "operation timed out") || has(&e, "timeout") || has(&e, "timed out") {
            if platform_url_exec(url) {
                return DownloadError::NetworkError(LUX_TIMEOUT.to_string());
            }
            return DownloadError::NetworkTimeout;
        }
        if has(&e, "403") || has(&e, "Forbidden") {
            return DownloadError::NetworkError(ACCESS_DENIED.to_string());
        }
        if has(&e, "not support") || has(&e, "unsupported") {
            return DownloadError::UnsupportedUrl(LUX_UNSUPPORTED.to_string());
        }
        DownloadError::Unknown(error.to_string())
    }

    /// Arguments of a download: output directory, audio only if asked, URL.
    pub fn download_args(output_path: &str, audio_only: bool, url: &str) -> (r: Vec<String>)
        ensures
            texts(r@) == seq!["-o"@, output_path@] + (if audio_only { seq!["--audio-only"@] } else { seq![] }) + seq![url@],
    {
        let mut v: Vec<String> = Vec::new();
        v.push("-o".to_string());
        v.push(output_path.to_string());
        if audio_only {
            v.push("--audio-only".to_string());
        }
        v.push(url.to_string());
        assert(texts(v@) =~= seq!["-o"@, output_path@] + (if audio_only { seq!["--audio-only"@] } else { seq![] }) + seq![url@]);
        v
    }
}

/// The you-get tool.
#[derive(Debug, Clone)]
pub struct YouGetBackend {
    pub binary_path: String,
    pub http_proxy: Option<String>,
}

pub const YOUGET_BLOCKED: &'static str = "Network error. YouTube may be blocked.\nYou-get has issues with proxy for HTTPS.\nSolution: Use yt-dlp instead.";
pub const YOUGET_REFUSED: &'static str = "Connection refused. Check your network or proxy settings.";
pub const YOUGET_PLATFORM: &'static str = "You-get failed for YouTube.\nYou-get has limited YouTube support.\nSolution: Use yt-dlp instead \u{2014} it's actively maintained.";
pub const YOUGET_OOPS: &'static str = "You-get encountered an error. Try updating: pipx upgrade you-get";

/// How you-get error text maps onto the taxonomy.
pub open spec fn youget_error(e: Seq<char>, url: Seq<char>) -> ErrorView {
    if contains(e, "Connection refused"@) || contains(e, "urlopen error"@) {
        if platform_url(url) { ErrorView::NetworkError(YOUGET_BLOCKED@) } else { ErrorView::NetworkError(YOUGET_REFUSED@) }
    } else if contains(e, "oops, something went wrong"@) {
        if platform_url(url) { ErrorView::UnsupportedUrl(YOUGET_PLATFORM@) } else { ErrorView::Unknown(YOUGET_OOPS@) }
    } else if contains(e, "timed out"@) || contains(e, "timeout"@) {
        ErrorView::NetworkTimeout
    } else if contains(e, "403"@) || contains(e, "Forbidden"@) {
        ErrorView::NetworkError(ACCESS_DENIED@)
    } else {
        ErrorView::Unknown(e)
    }
}

impl YouGetBackend {
    /// A you-get backend running `binary_path`, with `-x` for `http_proxy`.
    pub fn new(binary_path: String, http_proxy: Option<String>) -> (r: Self)
        ensures
            r.binary_path == binary_path && r.http_proxy == http_proxy,
    {
        YouGetBackend { binary_path, http_proxy }
    }

    /// Whether `url` names the video platform.
    pub fn is_youtube_url(url: &str) -> (r: bool)
        ensures
            r == platform_url(url@),
    {
        platform_url_exec(url)
    }

    /// `-x PROXY` when a proxy is set.
    pub fn get_proxy_args(&self) -> (r: Vec<String>)
        ensures
            texts(r@) == match self.http_proxy { Some(p) => seq!["-x"@, p@], None => seq![] },
    {
        let mut v: Vec<String> = Vec::new();
        match &self.http_proxy {
            Some(p) => {
                v.push("-x".to_string());
                v.push(p.clone());
            },
            None => {},
        }
        assert(texts(v@) =~= match self.http_proxy { Some(p) => seq!["-x"@, p@], None => seq![] });
        v
    }

    /// Maps you-get error text onto the taxonomy.
    pub fn parse_youget_error(error: &str, url: &str) -> (r: DownloadError)
        ensures
            r.view_of() == youget_error(error@, url@),
    {
        let e = chars_of(error);
        if has(&e, "Connection refused") || has(&e, "urlopen error") {
            if platform_url_exec(url) {
                return DownloadError::NetworkError(YOUGET_BLOCKED.to_string());
            }
            return DownloadError::NetworkError(YOUGET_REFUSED.to_string());
        }
        if has(&e, "oops, something went wrong") {
            if platform_url_exec(url) {
                return DownloadError::UnsupportedUrl(YOUGET_PLATFORM.to_string());
            }
            return DownloadError::Unknown(YOUGET_OOPS.to_string());
        }
        if has(&e, "timed out") || has(&e, "timeout") {
            return DownloadError::NetworkTimeout;
        }
        if has(&e, "403") || has(&e, "Forbidden") {
            return DownloadError::NetworkError(ACCESS_DENIED.to_string());
        }
        DownloadError::Unknown(error.to_string())
    }
}

/// The tool run as a program, without the multi-phase strategy.
#[derive(Debug, Clone)]
pub struct PythonYtDlp {
    pub ytdlp_bin: String,
}

/// Format selector of the plain backend for a quality.
pub open spec fn plain_format(q: Seq<char>) -> Seq<char> {
    if q == "best"@ { "bestvideo+bestaudio/best"@ }
    else if q == "1080p"@ { "bestvideo[height<=1080]+bestaudio/best[height<=1080]"@ }
    else if q == "720p"@ { "bestvideo[height<=720]+bestaudio/best[height<=720]"@ }
    else if q == "480p"@ { "bestvideo[height<=480]+bestaudio/best[height<=480]"@ }
    else if q == "audio"@ { "bestaudio/best"@ }
    else { "best"@ }
}

impl PythonYtDlp {
    /// A backend running the program at `ytdlp_bin`.
    pub fn new(ytdlp_bin: String) -> (r: Self)
        ensures
            r.ytdlp_bin == ytdlp_bin,
    {
        PythonYtDlp { ytdlp_bin }
    }

    /// Format selector for a quality.
    pub fn format_for(quality: &str) -> (r: &'static str)
        ensures
            r@ == plain_format(quality@),
    {
        if same_text(quality, "best") { "bestvideo+bestaudio/best" }
        else if same_text(quality, "1080p") { "bestvideo[height<=1080]+bestaudio/best[height<=1080]" }
        else if same_text(quality, "720p") { "bestvideo[height<=720]+bestaudio/best[height<=720]" }
        else if same_text(quality, "480p") { "bestvideo[height<=480]+bestaudio/best[height<=480]" }
        else if same_text(quality, "audio") { "bestaudio/best" }
        else { "best" }
    }
}

} // verus!
