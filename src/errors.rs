//! The caller-visible error taxonomy, and how raw tool text maps onto it.
use vstd::prelude::*;
use crate::text::{chars_of, concat, contains, has, lower_of, lowercase};
use crate::diagnostics::members_text;

verus! {

/// A failure reported to the caller.
#[derive(Debug, Clone)]
pub enum DownloadError {
    /// The platform did not answer in time.
    NetworkTimeout,
    /// The platform is throttling or blocking requests.
    BlockedByYouTube,
    /// The tool is not installed.
    ToolNotFound(String),
    /// The URL is malformed.
    InvalidUrl(String),
    /// The tool does not support the URL.
    UnsupportedUrl(String),
    /// Connection, proxy or similar failure.
    NetworkError(String),
    /// The tool's output could not be read.
    ParseError(String),
    /// Running the tool failed.
    ExecutionError(String),
    /// DRM-protected content; the payload names the kind of content.
    DrmProtected(String),
    /// Content for channel members; the payload names the channel.
    MembersOnly(String),
    /// Anything else.
    Unknown(String),
}

/// The kind of a `DownloadError` and the text it carries.
pub ghost enum ErrorView {
    NetworkTimeout,
    BlockedByYouTube,
    ToolNotFound(Seq<char>),
    InvalidUrl(Seq<char>),
    UnsupportedUrl(Seq<char>),
    NetworkError(Seq<char>),
    ParseError(Seq<char>),
    ExecutionError(Seq<char>),
    DrmProtected(Seq<char>),
    MembersOnly(Seq<char>),
    Unknown(Seq<char>),
}

impl DownloadError {
    pub open spec fn view_of(self) -> ErrorView {
        match self {
            DownloadError::NetworkTimeout => ErrorView::NetworkTimeout,
            DownloadError::BlockedByYouTube => ErrorView::BlockedByYouTube,
            DownloadError::ToolNotFound(s) => ErrorView::ToolNotFound(s@),
            DownloadError::InvalidUrl(s) => ErrorView::InvalidUrl(s@),
            DownloadError::UnsupportedUrl(s) => ErrorView::UnsupportedUrl(s@),
            DownloadError::NetworkError(s) => ErrorView::NetworkError(s@),
            DownloadError::ParseError(s) => ErrorView::ParseError(s@),
            DownloadError::ExecutionError(s) => ErrorView::ExecutionError(s@),
            DownloadError::DrmProtected(s) => ErrorView::DrmProtected(s@),
            DownloadError::MembersOnly(s) => ErrorView::MembersOnly(s@),
            DownloadError::Unknown(s) => ErrorView::Unknown(s@),
        }
    }
}

/// DRM markers in lower-cased tool text.
pub open spec fn drm_error_text(t: Seq<char>) -> bool {
    contains(t, "drm"@) || contains(t, "widevine"@) || contains(t, "playready"@)
        || contains(t, "fairplay"@) || contains(t, "encrypted media"@)
        || contains(t, "content is protected"@) || contains(t, "requires purchase"@)
        || contains(t, "rental"@) || contains(t, "pay to watch"@)
        || contains(t, "this video requires payment"@)
}

/// The kind of DRM-protected content named by lower-cased text.
pub open spec fn content_kind(t: Seq<char>) -> Seq<char> {
    if contains(t, "music"@) {
        "YouTube Music track"@
    } else if contains(t, "movie"@) || contains(t, "film"@) {
        "movie/film"@
    } else if contains(t, "premium"@) {
        "YouTube Premium content"@
    } else {
        "video"@
    }
}

pub open spec fn timeout_words(s: Seq<char>) -> bool {
    contains(s, "timeout"@) || contains(s, "timed out"@)
}

/// How raw text `s`, whose lower-cased form is `lower`, is classified.
/// DRM and membership markers come first; a timeout that mentions the
/// platform's domain is a block by the platform, not a plain timeout.
pub open spec fn classify(s: Seq<char>, lower: Seq<char>) -> ErrorView {
    if drm_error_text(lower) {
        ErrorView::DrmProtected(content_kind(lower))
    } else if members_text(lower) {
        ErrorView::MembersOnly("a"@)
    } else if timeout_words(s) && contains(s, "youtube.com"@) {
        ErrorView::BlockedByYouTube
    } else if timeout_words(s) {
        ErrorView::NetworkTimeout
    } else if contains(s, "429"@) || contains(lower, "bot"@) || contains(lower, "blocked"@) {
        ErrorView::BlockedByYouTube
    } else if contains(s, "connection"@) || contains(s, "Connection"@) || contains(s, "network"@)
        || contains(s, "Network"@) || contains(s, "tcp"@) || contains(s, "socket"@) {
        ErrorView::NetworkError(s)
    } else if contains(s, "not found"@) || contains(s, "No such file"@)
        || contains(s, "command not found"@) {
        ErrorView::ToolNotFound(s)
    } else if contains(s, "parse"@) || contains(s, "JSON"@) || contains(s, "Invalid JSON"@) {
        ErrorView::ParseError(s)
    } else if contains(s, "not support"@) || contains(s, "unsupported"@) {
        ErrorView::UnsupportedUrl(s)
    } else if contains(s, "Invalid URL"@) || contains(s, "Unsupported URL"@) {
        ErrorView::InvalidUrl(s)
    } else {
        ErrorView::Unknown(s)
    }
}

/// Whether the lower-cased text `t` holds a membership marker.
fn members_exec(t: &Vec<char>) -> (r: bool)
    ensures
        r == members_text(t@),
{
    has(t, "members only") || has(t, "members-only") || has(t, "join this channel")
        || has(t, "membership required") || has(t, "available to members")
}

impl DownloadError {
    /// Classifies text whose lower-cased form `lower` is given.
    pub fn from_lowercase(s: String, lower: &str) -> (r: DownloadError)
        ensures
            r.view_of() == classify(s@, lower@),
    {
        let t = chars_of(lower);
        let c = chars_of(s.as_str());
        if has(&t, "drm") || has(&t, "widevine") || has(&t, "playready") || has(&t, "fairplay")
            || has(&t, "encrypted media") || has(&t, "content is protected")
            || has(&t, "requires purchase") || has(&t, "rental") || has(&t, "pay to watch")
            || has(&t, "this video requires payment") {
            let kind: &str = if has(&t, "music") {
                "YouTube Music track"
            } else if has(&t, "movie") || has(&t, "film") {
                "movie/film"
            } else if has(&t, "premium") {
                "YouTube Premium content"
            } else {
                "video"
            };
            return DownloadError::DrmProtected(kind.to_string());
        }
        if members_exec(&t) {
            return DownloadError::MembersOnly("a".to_string());
        }
        let timeout = has(&c, "timeout") || has(&c, "timed out");
        if timeout && has(&c, "youtube.com") {
            return DownloadError::BlockedByYouTube;
        }
        if timeout {
            return DownloadError::NetworkTimeout;
        }
        if has(&c, "429") || has(&t, "bot") || has(&t, "blocked") {
            return DownloadError::BlockedByYouTube;
        }
        if has(&c, "connection") || has(&c, "Connection") || has(&c, "network") || has(&c, "Network")
            || has(&c, "tcp") || has(&c, "socket") {
            return DownloadError::NetworkError(s);
        }
        if has(&c, "not found") || has(&c, "No such file") || has(&c, "command not found") {
            return DownloadError::ToolNotFound(s);
        }
        if has(&c, "parse") || has(&c, "JSON") || has(&c, "Invalid JSON") {
            return DownloadError::ParseError(s);
        }
        if has(&c, "not support") || has(&c, "unsupported") {
            return DownloadError::UnsupportedUrl(s);
        }
        if has(&c, "Invalid URL") || has(&c, "Unsupported URL") {
            return DownloadError::InvalidUrl(s);
        }
        DownloadError::Unknown(s)
    }

    /// Classifies raw tool text into the caller-visible taxonomy.
    pub fn from_text(s: String) -> (r: DownloadError)
        ensures
            r.view_of() == classify(s@, lower_of(s@)),
    {
        let lower = lowercase(s.as_str());
        DownloadError::from_lowercase(s, lower.as_str())
    }
}

/// A timeout that mentions the platform's domain is classified as a block by
/// the platform, never as a plain network timeout, unless a DRM or membership
/// marker (which take precedence) is present.
pub proof fn platform_timeout_is_a_block(s: Seq<char>, lower: Seq<char>)
    requires
        contains(s, "timeout"@),
        contains(s, "youtube.com"@),
        !drm_error_text(lower),
        !members_text(lower),
    ensures
        classify(s, lower) == ErrorView::BlockedByYouTube,
        classify(s, lower) != ErrorView::NetworkTimeout,
{
}

pub const THROTTLED: &'static str = "YouTube is temporarily throttling requests from your IP address.\nThis is normal and usually resolves on its own in 6\u{2013}24 hours.\n\nWhat you can do:\n1) Wait and try again later\n2) Enable Proxy/VPN\n3) Try a different network\n\nMore details: see YOUTUBE_BLOCKING.md";

/// The user-facing text of an error.
pub open spec fn message_of(e: ErrorView) -> Seq<char> {
    match e {
        ErrorView::NetworkTimeout => "Network timeout: YouTube is not responding"@,
        ErrorView::BlockedByYouTube => THROTTLED@,
        ErrorView::ToolNotFound(s) => "Tool not found: "@ + s,
        ErrorView::InvalidUrl(s) => "Invalid URL: "@ + s,
        ErrorView::UnsupportedUrl(s) => "URL not supported: "@ + s,
        ErrorView::NetworkError(s) => "Network error: "@ + s,
        ErrorView::ParseError(s) => "Parse error: "@ + s,
        ErrorView::ExecutionError(s) => "Execution error: "@ + s,
        ErrorView::DrmProtected(s) => DRM_HEAD@ + s + DRM_TAIL@,
        ErrorView::MembersOnly(s) => MEMBERS_HEAD@ + s + MEMBERS_TAIL@,
        ErrorView::Unknown(s) => "Unknown error: "@ + s,
    }
}

pub const DRM_HEAD: &'static str = "\u{1F512} DRM-Protected Content\n\nThis ";
pub const DRM_TAIL: &'static str = " is protected by DRM and cannot be downloaded.\n\n\u{2714} Available offline in YouTube app (with Premium)\n\u{2714} Can be screen-recorded\n\u{2716} Cannot be downloaded as a file\n\nThis is a content protection measure, not an error.\nDirect download is blocked by DRM encryption.";
pub const MEMBERS_TAIL: &'static str = " channel membership.\n\n\u{2714} Available if you're a member\n\u{2716} Cannot be downloaded without membership\n\nTry using cookies from a browser where you're logged in as a member.";

pub const MEMBERS_HEAD: &'static str = "\u{1F3AB} Members-Only Content\n\nThis video requires ";

impl DownloadError {
    /// The user-facing text of the error.
    pub fn message(&self) -> (r: String)
        ensures
            r@ == message_of(self.view_of()),
    {
        match self {
            DownloadError::NetworkTimeout => "Network timeout: YouTube is not responding".to_string(),
            DownloadError::BlockedByYouTube => THROTTLED.to_string(),
            DownloadError::ToolNotFound(s) => concat("Tool not found: ", s.as_str()),
            DownloadError::InvalidUrl(s) => concat("Invalid URL: ", s.as_str()),
            DownloadError::UnsupportedUrl(s) => concat("URL not supported: ", s.as_str()),
            DownloadError::NetworkError(s) => concat("Network error: ", s.as_str()),
            DownloadError::ParseError(s) => concat("Parse error: ", s.as_str()),
            DownloadError::ExecutionError(s) => concat("Execution error: ", s.as_str()),
            DownloadError::DrmProtected(s) => {
                let mut m = concat(DRM_HEAD, s.as_str());
                crate::text::push_str(&mut m, DRM_TAIL);
                m
            },
            DownloadError::MembersOnly(s) => {
                let mut m = concat(MEMBERS_HEAD, s.as_str());
                crate::text::push_str(&mut m, MEMBERS_TAIL);
                m
            },
            DownloadError::Unknown(s) => concat("Unknown error: ", s.as_str()),
        }
    }
}

} // verus!
