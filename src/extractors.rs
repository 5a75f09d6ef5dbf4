//! Metadata extraction through the tool, either as a program or as a Python
//! module: configuration, argument lists, and which backend to try first.
use vstd::prelude::*;
use crate::text::{concat, decimal, lower_of, push_decimal};
use crate::download::{cookie_args, is_youtube, opt_text, proxy_args, push_cookie_args, push_proxy_args, texts, youtube_text};
use crate::diagnostics::{BlockingReason, diagnose_error, reason_of};
use crate::errors::{DownloadError, ErrorView, message_of};

verus! {

/// Which extraction backend to use.
#[derive(Debug, Clone, Copy, PartialEq, Eq, Structural)]
pub enum ExtractorMode {
    /// The Python module (better against blocking).
    Python,
    /// The program (faster).
    Cli,
    /// Choose by site, with fallback.
    Auto,
}

impl ExtractorMode {
    pub open spec fn name(self) -> Seq<char> {
        match self {
            ExtractorMode::Python => "python"@,
            ExtractorMode::Cli => "cli"@,
            ExtractorMode::Auto => "auto"@,
        }
    }

    /// "python", "cli" or "auto".
    pub fn as_str(&self) -> (r: &'static str)
        ensures
            r@ == self.name(),
    {
        match self {
            ExtractorMode::Python => "python",
            ExtractorMode::Cli => "cli",
            ExtractorMode::Auto => "auto",
        }
    }
}

/// Settings of an extraction.
#[derive(Debug, Clone)]
pub struct ExtractorConfig {
    pub mode: ExtractorMode,
    pub proxy: Option<String>,
    pub cookies_path: Option<String>,
    pub cookies_from_browser: bool,
    pub timeout_seconds: u32,
    pub player_client: Option<String>,
}

impl ExtractorConfig {
    /// The defaults: automatic mode, browser cookies, 30 s timeout.
    pub fn new() -> (r: Self)
        ensures
            r.mode == ExtractorMode::Auto,
            r.proxy is None,
            r.cookies_path is None,
            r.cookies_from_browser,
            r.timeout_seconds == 30,
            r.player_client is None,
    {
        ExtractorConfig { mode: ExtractorMode::Auto, proxy: None, cookies_path: None, cookies_from_browser: true, timeout_seconds: 30, player_client: None }
    }

    pub fn with_proxy(self, proxy: Option<String>) -> (r: Self)
        ensures
            r == (ExtractorConfig { proxy, ..self }),
    {
        ExtractorConfig { proxy, ..self }
    }

    pub fn with_cookies_path(self, path: Option<String>) -> (r: Self)
        ensures
            r == (ExtractorConfig { cookies_path: path, ..self }),
    {
        ExtractorConfig { cookies_path: path, ..self }
    }

    pub fn with_cookies_from_browser(self, enabled: bool) -> (r: Self)
        ensures
            r == (ExtractorConfig { cookies_from_browser: enabled, ..self }),
    {
        ExtractorConfig { cookies_from_browser: enabled, ..self }
    }

    pub fn with_mode(self, mode: ExtractorMode) -> (r: Self)
        ensures
            r == (ExtractorConfig { mode, ..self }),
    {
        ExtractorConfig { mode, ..self }
    }

    pub fn with_timeout(self, seconds: u32) -> (r: Self)
        ensures
            r == (ExtractorConfig { timeout_seconds: seconds, ..self }),
    {
        ExtractorConfig { timeout_seconds: seconds, ..self }
    }

    pub fn with_player_client(self, client: Option<String>) -> (r: Self)
        ensures
            r == (ExtractorConfig { player_client: client, ..self }),
    {
        ExtractorConfig { player_client: client, ..self }
    }
}

pub const USER_AGENT: &'static str = "Mozilla/5.0 (Macintosh; Intel Mac OS X 10_15_7) AppleWebKit/537.36 (KHTML, like Gecko) Chrome/121.0.0.0 Safari/537.36";

/// Arguments of a metadata run of the program.
pub open spec fn cli_args(url: Seq<char>, youtube: bool, c: ExtractorConfig, client: Seq<char>) -> Seq<Seq<char>> {
    seq!["--dump-json"@, "--no-playlist"@, "--no-warnings"@, "--socket-timeout"@,
        decimal(c.timeout_seconds as nat), "--retries"@, "2"@, "--user-agent"@, USER_AGENT@]
        + (if youtube { seq!["--extractor-args"@, "youtube:player_client="@ + client] } else { seq![] })
        + cookie_args(opt_text(c.cookies_path), c.cookies_from_browser)
        + proxy_args(opt_text(c.proxy))
        + seq![url]
}

/// Arguments of a metadata run of the Python module.
pub open spec fn python_args(url: Seq<char>, c: ExtractorConfig) -> Seq<Seq<char>> {
    seq!["-m"@, "yt_dlp"@, "--dump-json"@, "--no-playlist"@, "--no-warnings"@, "--socket-timeout"@,
        decimal(c.timeout_seconds as nat), "--retries"@, "2"@, "--extractor-args"@,
        "youtube:player_client="@ + match c.player_client { Some(p) => p@, None => "web"@ }]
        + cookie_args(opt_text(c.cookies_path), c.cookies_from_browser)
        + proxy_args(opt_text(c.proxy))
        + seq![url]
}

fn push_text(a: &mut Vec<String>, s: String)
    ensures
        texts(final(a)@) == texts(old(a)@).push(s@),
{
    let ghost before = a@;
    let ghost t = s@;
    a.push(s);
    assert(texts(a@) =~= texts(before).push(t));
}

fn decimal_text(n: u32) -> (r: String)
    ensures
        r@ == decimal(n as nat),
{
    let mut s = String::new();
    push_decimal(&mut s, n as u64);
    s
}

/// Extraction through the program.
#[derive(Debug, Clone)]
pub struct CliInfoExtractor {
    pub ytdlp_path: String,
}

impl CliInfoExtractor {
    /// An extractor running the program at `ytdlp_path`.
    pub fn new(ytdlp_path: String) -> (r: Self)
        ensures
            r.ytdlp_path == ytdlp_path,
    {
        CliInfoExtractor { ytdlp_path }
    }

    /// The arguments of a metadata run with player client `client`.
    pub fn build_args(&self, url: &str, config: &ExtractorConfig, client: &str) -> (r: Vec<String>)
        ensures
            texts(r@) == cli_args(url@, youtube_text(lower_of(url@)), *config, client@),
    {
        let mut a: Vec<String> = Vec::new();
        push_text(&mut a, "--dump-json".to_string());
        push_text(&mut a, "--no-playlist".to_string());
        push_text(&mut a, "--no-warnings".to_string());
        push_text(&mut a, "--socket-timeout".to_string());
        push_text(&mut a, decimal_text(config.timeout_seconds));
        push_text(&mut a, "--retries".to_string());
        push_text(&mut a, "2".to_string());
        push_text(&mut a, "--user-agent".to_string());
        push_text(&mut a, USER_AGENT.to_string());
        let ghost head = texts(a@);
        let youtube = is_youtube(url);
        if youtube {
            push_text(&mut a, "--extractor-args".to_string());
            push_text(&mut a, concat("youtube:player_client=", client));
        }
        let ghost y = texts(a@);
        push_cookie_args(&mut a, &config.cookies_path, config.cookies_from_browser);
        push_proxy_args(&mut a, &config.proxy);
        let ghost q = texts(a@);
        push_text(&mut a, url.to_string());
        assert(texts(a@) =~= cli_args(url@, youtube, *config, client@));
        a
    }

    /// The player clients tried in turn: on the video platform, a web client
    /// first when cookies are configured, else clients that are blocked less
    /// often; one web client elsewhere.
    pub fn clients_for(url: &str, config: &ExtractorConfig) -> (r: Vec<String>)
        ensures
            texts(r@) == (if youtube_text(lower_of(url@)) {
                if config.cookies_path is Some || config.cookies_from_browser { seq!["web"@, "android"@] }
                else { seq!["android"@, "tv"@, "web"@] }
            } else {
                seq!["web"@]
            }),
    {
        let mut a: Vec<String> = Vec::new();
        if is_youtube(url) {
            if config.cookies_path.is_some() || config.cookies_from_browser {
                push_text(&mut a, "web".to_string());
                push_text(&mut a, "android".to_string());
            } else {
                push_text(&mut a, "android".to_string());
                push_text(&mut a, "tv".to_string());
                push_text(&mut a, "web".to_string());
            }
        } else {
            push_text(&mut a, "web".to_string());
        }
        proof {
            if youtube_text(lower_of(url@)) {
                if config.cookies_path is Some || config.cookies_from_browser {
                    assert(texts(a@) =~= seq!["web"@, "android"@]);
                } else {
                    assert(texts(a@) =~= seq!["android"@, "tv"@, "web"@]);
                }
            } else {
                assert(texts(a@) =~= seq!["web"@]);
            }
        }
        a
    }
}

/// Extraction through the Python module.
#[derive(Debug, Clone)]
pub struct PythonInfoExtractor {
    pub python_cmd: String,
}

impl PythonInfoExtractor {
    /// An extractor running the module with interpreter `python_cmd`.
    pub fn new(python_cmd: String) -> (r: Self)
        ensures
            r.python_cmd == python_cmd,
    {
        PythonInfoExtractor { python_cmd }
    }

    /// The arguments of a metadata run.
    pub fn build_args(&self, url: &str, config: &ExtractorConfig) -> (r: Vec<String>)
        ensures
            texts(r@) == python_args(url@, *config),
    {
        let mut a: Vec<String> = Vec::new();
        push_text(&mut a, "-m".to_string());
        push_text(&mut a, "yt_dlp".to_string());
        push_text(&mut a, "--dump-json".to_string());
        push_text(&mut a, "--no-playlist".to_string());
        push_text(&mut a, "--no-warnings".to_string());
        push_text(&mut a, "--socket-timeout".to_string());
        push_text(&mut a, decimal_text(config.timeout_seconds));
        push_text(&mut a, "--retries".to_string());
        push_text(&mut a, "2".to_string());
        push_text(&mut a, "--extractor-args".to_string());
        let client = match &config.player_client {
            Some(p) => concat("youtube:player_client=", p.as_str()),
            None => concat("youtube:player_client=", "web"),
        };
        push_text(&mut a, client);
        push_cookie_args(&mut a, &config.cookies_path, config.cookies_from_browser);
        push_proxy_args(&mut a, &config.proxy);
        push_text(&mut a, url.to_string());
        assert(texts(a@) =~= python_args(url@, *config));
        a
    }
}

/// Availability of the two backends and the mode recommended for the platform.
#[derive(Debug, Clone)]
pub struct OrchestratorStatus {
    pub python_available: bool,
    pub cli_available: bool,
    pub recommended_mode: ExtractorMode,
}

/// Chooses between the two backends; what is installed is observed by the caller.
#[derive(Debug, Clone)]
pub struct InfoExtractorOrchestrator {
    pub python: PythonInfoExtractor,
    pub cli: CliInfoExtractor,
    pub python_available: bool,
    pub cli_available: bool,
}

/// The platform prefers the module when it is installed; other sites the
/// program when it is installed.
pub open spec fn mode_for(youtube: bool, python_available: bool, cli_available: bool) -> ExtractorMode {
    if youtube {
        if python_available { ExtractorMode::Python } else { ExtractorMode::Cli }
    } else {
        if cli_available { ExtractorMode::Cli } else { ExtractorMode::Python }
    }
}

impl InfoExtractorOrchestrator {
    pub fn new(python: PythonInfoExtractor, cli: CliInfoExtractor, python_available: bool, cli_available: bool) -> (r: Self)
        ensures
            r.python == python && r.cli == cli,
            r.python_available == python_available && r.cli_available == cli_available,
    {
        InfoExtractorOrchestrator { python, cli, python_available, cli_available }
    }

    /// The backend to use for `url`.
    pub fn recommend_mode(&self, url: &str) -> (r: ExtractorMode)
        ensures
            r == mode_for(youtube_text(lower_of(url@)), self.python_available, self.cli_available),
    {
        if is_youtube(url) {
            if self.python_available { ExtractorMode::Python } else { ExtractorMode::Cli }
        } else {
            if self.cli_available { ExtractorMode::Cli } else { ExtractorMode::Python }
        }
    }

    /// Availability, and the mode recommended for the video platform.
    pub fn get_status(&self) -> (r: OrchestratorStatus)
        ensures
            r.python_available == self.python_available,
            r.cli_available == self.cli_available,
            r.recommended_mode == mode_for(true, self.python_available, self.cli_available),
    {
        OrchestratorStatus {
            python_available: self.python_available,
            cli_available: self.cli_available,
            recommended_mode: if self.python_available { ExtractorMode::Python } else { ExtractorMode::Cli },
        }
    }

    /// The order of automatic mode: module first on the platform, program
    /// first elsewhere, the other one as fallback.
    pub fn auto_order(url: &str) -> (r: (ExtractorMode, ExtractorMode))
        ensures
            r == (if youtube_text(lower_of(url@)) { (ExtractorMode::Python, ExtractorMode::Cli) } else { (ExtractorMode::Cli, ExtractorMode::Python) }),
    {
        if is_youtube(url) { (ExtractorMode::Python, ExtractorMode::Cli) } else { (ExtractorMode::Cli, ExtractorMode::Python) }
    }

    /// Advice for a diagnosed reason.
    pub fn suggest_for_reason(&self, reason: &Option<BlockingReason>) -> (r: Option<String>)
        ensures
            opt_text(r) == reason_advice(*reason),
    {
        match reason {
            Some(BlockingReason::Http403Forbidden) => Some(SUGGEST_403.to_string()),
            Some(BlockingReason::SabrStreaming) => Some(SUGGEST_SABR.to_string()),
            Some(BlockingReason::PoTokenRequired) => Some(SUGGEST_PO_TOKEN.to_string()),
            Some(BlockingReason::AgeRestricted) => Some(SUGGEST_AGE.to_string()),
            Some(BlockingReason::GeoBlocked) => Some(SUGGEST_GEO.to_string()),
            Some(BlockingReason::NetworkTimeout) => Some(SUGGEST_TIMEOUT.to_string()),
            Some(BlockingReason::RateLimited) => Some(SUGGEST_RATE.to_string()),
            Some(BlockingReason::BotDetection) => Some(SUGGEST_BOT.to_string()),
            Some(BlockingReason::PrivateVideo) => Some(SUGGEST_PRIVATE.to_string()),
            Some(BlockingReason::VideoUnavailable) => Some(SUGGEST_UNAVAILABLE.to_string()),
            Some(BlockingReason::Unknown) => Some(SUGGEST_UNKNOWN.to_string()),
            Some(BlockingReason::DrmProtected) => None,
            Some(BlockingReason::MembersOnly) => None,
            None => None,
        }
    }
}

pub const SUGGEST_403: &'static str = "YouTube returned 403 Forbidden. Try:\n1) Use a VPN/Proxy\n2) Update cookies (re-login to YouTube)\n3) Wait and try again later";
pub const SUGGEST_SABR: &'static str = "YouTube is using SABR streaming protection. Try:\n1) Use Python mode with cookies\n2) Try audio-only download\n3) Use a proxy/VPN";
pub const SUGGEST_PO_TOKEN: &'static str = "YouTube requires PO Token. Try:\n1) Use cookies from logged-in browser\n2) See: https://github.com/yt-dlp/yt-dlp/wiki/PO-Token-Guide";
pub const SUGGEST_AGE: &'static str = "Video is age-restricted. Try:\n1) Use cookies from a logged-in account\n2) Enable 'Chrome (logged-in)' in Tools \u{2192} Cookies";
pub const SUGGEST_GEO: &'static str = "Video is not available in your country. Try:\n1) Use a VPN with a different country\n2) Use a proxy server in allowed region";
pub const SUGGEST_TIMEOUT: &'static str = "Network timeout. Try:\n1) Check your internet connection\n2) Use a proxy/VPN\n3) Try again later";
pub const SUGGEST_RATE: &'static str = "YouTube is rate-limiting requests. Try:\n1) Wait 10-15 minutes\n2) Use a different IP (VPN/proxy)";
pub const SUGGEST_BOT: &'static str = "YouTube detected automated access. Try:\n1) Use Python mode with cookies\n2) Use a fresh proxy/VPN";
pub const SUGGEST_PRIVATE: &'static str = "Video is private. You need:\n1) Cookies from an authorized account\n2) Access permission from the uploader";
pub const SUGGEST_UNAVAILABLE: &'static str = "Video is unavailable. It may have been:\n1) Deleted by the uploader\n2) Removed for copyright violation\n3) Made private";
pub const SUGGEST_UNKNOWN: &'static str = "Unknown error occurred. Try:\n1) Check the video URL\n2) Try again later\n3) Use a VPN/proxy";

/// Advice per reason; DRM and membership restrictions get none here.
pub open spec fn reason_advice(r: Option<BlockingReason>) -> Option<Seq<char>> {
    match r {
        Some(BlockingReason::Http403Forbidden) => Some(SUGGEST_403@),
        Some(BlockingReason::SabrStreaming) => Some(SUGGEST_SABR@),
        Some(BlockingReason::PoTokenRequired) => Some(SUGGEST_PO_TOKEN@),
        Some(BlockingReason::AgeRestricted) => Some(SUGGEST_AGE@),
        Some(BlockingReason::GeoBlocked) => Some(SUGGEST_GEO@),
        Some(BlockingReason::NetworkTimeout) => Some(SUGGEST_TIMEOUT@),
        Some(BlockingReason::RateLimited) => Some(SUGGEST_RATE@),
        Some(BlockingReason::BotDetection) => Some(SUGGEST_BOT@),
        Some(BlockingReason::PrivateVideo) => Some(SUGGEST_PRIVATE@),
        Some(BlockingReason::VideoUnavailable) => Some(SUGGEST_UNAVAILABLE@),
        Some(BlockingReason::Unknown) => Some(SUGGEST_UNKNOWN@),
        _ => None,
    }
}

/// A failed extraction with its diagnosis.
#[derive(Debug, Clone)]
pub struct ExtractorResult {
    pub error: DownloadError,
    pub blocking_reason: Option<BlockingReason>,
    pub used_mode: ExtractorMode,
    pub tried_fallback: bool,
    pub suggestion: Option<String>,
}

/// Whether a format is video only and whether it is audio only, from its codecs.
pub open spec fn stream_kinds_of(vcodec: Option<Seq<char>>, acodec: Option<Seq<char>>) -> (bool, bool) {
    let has_video = match vcodec { Some(v) => v != "none"@, None => false };
    let has_audio = match acodec { Some(a) => a != "none"@, None => false };
    let no_video = match vcodec { Some(v) => v == "none"@, None => true };
    let no_audio = match acodec { Some(a) => a == "none"@, None => true };
    (has_video && no_audio, has_audio && no_video)
}

/// Whether a format is video only and whether it is audio only.
pub fn stream_kinds(vcodec: &Option<String>, acodec: &Option<String>) -> (r: (bool, bool))
    ensures
        r == stream_kinds_of(opt_text(*vcodec), opt_text(*acodec)),
{
    let v_none = match vcodec { Some(v) => crate::download::same_text(v.as_str(), "none"), None => true };
    let a_none = match acodec { Some(a) => crate::download::same_text(a.as_str(), "none"), None => true };
    let has_video = vcodec.is_some() && !v_none;
    let has_audio = acodec.is_some() && !a_none;
    (has_video && a_none, has_audio && v_none)
}

/// Video information with the full format list.
#[derive(Debug, Clone)]
pub struct ExtendedVideoInfo {
    pub id: String,
    pub title: String,
    pub uploader: String,
    pub duration_seconds: u64,
    pub thumbnail: String,
    pub webpage_url: String,
    pub formats: Vec<crate::format_selector::ExtendedFormat>,
}

fn text_or(o: Option<String>, d: &str) -> (r: String)
    ensures
        r@ == match o { Some(s) => s@, None => d@ },
{
    match o {
        Some(s) => s,
        None => d.to_string(),
    }
}

impl ExtendedVideoInfo {
    /// The record from the document's fields: a missing id reads "unknown",
    /// missing title and uploader "Unknown", other missing texts are empty.
    pub fn from_fields(
        id: Option<String>,
        title: Option<String>,
        uploader: Option<String>,
        duration_seconds: u64,
        thumbnail: Option<String>,
        webpage_url: Option<String>,
        formats: Vec<crate::format_selector::ExtendedFormat>,
    ) -> (r: Self)
        ensures
            r.id@ == match id { Some(s) => s@, None => "unknown"@ },
            r.title@ == match title { Some(s) => s@, None => "Unknown"@ },
            r.uploader@ == match uploader { Some(s) => s@, None => "Unknown"@ },
            r.duration_seconds == duration_seconds,
            r.thumbnail@ == match thumbnail { Some(s) => s@, None => ""@ },
            r.webpage_url@ == match webpage_url { Some(s) => s@, None => ""@ },
            r.formats@ == formats@,
    {
        ExtendedVideoInfo {
            id: text_or(id, "unknown"),
            title: text_or(title, "Unknown"),
            uploader: text_or(uploader, "Unknown"),
            duration_seconds,
            thumbnail: text_or(thumbnail, ""),
            webpage_url: text_or(webpage_url, ""),
            formats,
        }
    }
}

/// What is missing for a mode, and how to install it.
pub open spec fn missing_text(mode: ExtractorMode) -> (Seq<char>, Seq<char>) {
    match mode {
        ExtractorMode::Python => ("Python yt_dlp module not installed"@, "Install yt-dlp: pip3 install yt-dlp"@),
        ExtractorMode::Cli => ("yt-dlp binary not found"@, "Install yt-dlp: brew install yt-dlp"@),
        ExtractorMode::Auto => ("Neither Python yt_dlp nor yt-dlp binary available"@, "Install yt-dlp: brew install yt-dlp OR pip3 install yt-dlp"@),
    }
}

impl InfoExtractorOrchestrator {
    /// The failure report of a backend: the error's text diagnosed, and the
    /// advice for the reason found.
    pub fn failure_result(&self, error: DownloadError, used_mode: ExtractorMode, tried_fallback: bool) -> (r: ExtractorResult)
        ensures
            r.error == error,
            r.used_mode == used_mode,
            r.tried_fallback == tried_fallback,
            r.blocking_reason == reason_of(lower_of(message_of(error.view_of())), message_of(error.view_of()).len() == 0),
            opt_text(r.suggestion) == reason_advice(r.blocking_reason),
    {
        let text = error.message();
        let reason = diagnose_error(text.as_str());
        let suggestion = self.suggest_for_reason(&reason);
        ExtractorResult { error, blocking_reason: reason, used_mode, tried_fallback, suggestion }
    }

    /// The report when the chosen backend is not installed.
    pub fn missing_result(mode: ExtractorMode) -> (r: ExtractorResult)
        ensures
            r.used_mode == mode,
            r.blocking_reason is None,
            !r.tried_fallback,
            r.error.view_of() == ErrorView::ToolNotFound(missing_text(mode).0),
            opt_text(r.suggestion) == Some(missing_text(mode).1),
    {
        let (what, hint): (&str, &str) = match mode {
            ExtractorMode::Python => ("Python yt_dlp module not installed", "Install yt-dlp: pip3 install yt-dlp"),
            ExtractorMode::Cli => ("yt-dlp binary not found", "Install yt-dlp: brew install yt-dlp"),
            ExtractorMode::Auto => ("Neither Python yt_dlp nor yt-dlp binary available", "Install yt-dlp: brew install yt-dlp OR pip3 install yt-dlp"),
        };
        ExtractorResult {
            error: DownloadError::ToolNotFound(what.to_string()),
            blocking_reason: None,
            used_mode: mode,
            tried_fallback: false,
            suggestion: Some(hint.to_string()),
        }
    }
}

/// How far an extraction has got.
#[derive(Debug, Clone, Copy, PartialEq, Eq, Structural)]
pub enum ExtractStage {
    /// Nothing has run yet.
    Start,
    /// The first backend ran, with this outcome.
    RanFirst { succeeded: bool },
    /// The fallback backend ran, with this outcome.
    RanFallback { succeeded: bool },
}

/// What the caller does next in an extraction.
#[derive(Debug, Clone, Copy, PartialEq, Eq, Structural)]
pub enum ExtractAction {
    /// Run this backend and report the outcome.
    Run(ExtractorMode),
    /// The last run succeeded: its result is the answer.
    Done,
    /// Report the last run's failure (`failure_result`) with these settings.
    ReportFailure { mode: ExtractorMode, tried_fallback: bool },
    /// Report that the backend is not installed (`missing_result`).
    ReportMissing(ExtractorMode),
}

impl InfoExtractorOrchestrator {
    pub open spec fn available(self, m: ExtractorMode) -> bool {
        match m {
            ExtractorMode::Python => self.python_available,
            ExtractorMode::Cli => self.cli_available,
            ExtractorMode::Auto => false,
        }
    }

    /// The next action of an extraction in `mode`. A fixed mode runs its
    /// backend if installed and reports its failure. Automatic mode runs the
    /// preferred backend for the site if installed; when that is missing or
    /// fails, the other one if installed, whose failure is reported as a tried
    /// fallback; with neither left, the "not installed" report.
    pub open spec fn next_action(self, youtube: bool, mode: ExtractorMode, stage: ExtractStage) -> ExtractAction {
        let (first, second) = if youtube { (ExtractorMode::Python, ExtractorMode::Cli) } else { (ExtractorMode::Cli, ExtractorMode::Python) };
        match mode {
            ExtractorMode::Auto => match stage {
                ExtractStage::Start => if self.available(first) {
                    ExtractAction::Run(first)
                } else if self.available(second) {
                    ExtractAction::Run(second)
                } else {
                    ExtractAction::ReportMissing(ExtractorMode::Auto)
                },
                ExtractStage::RanFirst { succeeded } => if succeeded {
                    ExtractAction::Done
                } else if self.available(second) {
                    ExtractAction::Run(second)
                } else {
                    ExtractAction::ReportMissing(ExtractorMode::Auto)
                },
                ExtractStage::RanFallback { succeeded } => if succeeded {
                    ExtractAction::Done
                } else {
                    ExtractAction::ReportFailure { mode: second, tried_fallback: true }
                },
            },
            _ => match stage {
                ExtractStage::Start => if self.available(mode) {
                    ExtractAction::Run(mode)
                } else {
                    ExtractAction::ReportMissing(mode)
                },
                ExtractStage::RanFirst { succeeded } | ExtractStage::RanFallback { succeeded } => if succeeded {
                    ExtractAction::Done
                } else {
                    ExtractAction::ReportFailure { mode, tried_fallback: false }
                },
            },
        }
    }

    fn available_exec(&self, m: ExtractorMode) -> (r: bool)
        ensures
            r == self.available(m),
    {
        match m {
            ExtractorMode::Python => self.python_available,
            ExtractorMode::Cli => self.cli_available,
            ExtractorMode::Auto => false,
        }
    }

    /// The next action of an extraction of `url` in `mode`.
    pub fn extract_step(&self, url: &str, mode: ExtractorMode, stage: ExtractStage) -> (r: ExtractAction)
        ensures
            r == self.next_action(youtube_text(lower_of(url@)), mode, stage),
    {
        let (first, second) = InfoExtractorOrchestrator::auto_order(url);
        match mode {
            ExtractorMode::Auto => match stage {
                ExtractStage::Start => if self.available_exec(first) {
                    ExtractAction::Run(first)
                } else if self.available_exec(second) {
                    ExtractAction::Run(second)
                } else {
                    ExtractAction::ReportMissing(ExtractorMode::Auto)
                },
                ExtractStage::RanFirst { succeeded } => if succeeded {
                    ExtractAction::Done
                } else if self.available_exec(second) {
                    ExtractAction::Run(second)
                } else {
                    ExtractAction::ReportMissing(ExtractorMode::Auto)
                },
                ExtractStage::RanFallback { succeeded } => if succeeded {
                    ExtractAction::Done
                } else {
                    ExtractAction::ReportFailure { mode: second, tried_fallback: true }
                },
            },
            _ => match stage {
                ExtractStage::Start => if self.available_exec(mode) {
                    ExtractAction::Run(mode)
                } else {
                    ExtractAction::ReportMissing(mode)
                },
                ExtractStage::RanFirst { succeeded } | ExtractStage::RanFallback { succeeded } => if succeeded {
                    ExtractAction::Done
                } else {
                    ExtractAction::ReportFailure { mode, tried_fallback: false }
                },
            },
        }
    }
}

} // verus!
