//! Maps raw failure text of the extraction tool to a closed set of blocking
//! reasons, each with fixed capability flags and advice.
use vstd::prelude::*;
use crate::text::{begins_with, chars_of, contains, has, lines, lines_of, lines_view, lowercase, lower_of, starts_with, string_of, trim_chars, trimmed};
use crate::download::{opt_text, texts};

verus! {

/// Why a request to the video platform was refused.
#[derive(Debug, Clone, Copy, PartialEq, Eq, Structural)]
pub enum BlockingReason {
    /// HTTP 403: access denied.
    Http403Forbidden,
    /// Segmented streaming protection that hides formats.
    SabrStreaming,
    /// A proof-of-origin token is required.
    PoTokenRequired,
    /// Age-restricted content that needs a login.
    AgeRestricted,
    /// Geographic restriction.
    GeoBlocked,
    /// Network timeout (a soft block of the address).
    NetworkTimeout,
    /// Too many requests.
    RateLimited,
    /// Automated access was detected.
    BotDetection,
    /// Private video.
    PrivateVideo,
    /// Deleted or unavailable video.
    VideoUnavailable,
    /// DRM-protected content: a permanent restriction.
    DrmProtected,
    /// Content for channel members.
    MembersOnly,
    /// Anything else.
    Unknown,
}

impl BlockingReason {
    pub open spec fn retryable(self) -> bool {
        matches!(self, BlockingReason::Http403Forbidden | BlockingReason::SabrStreaming
            | BlockingReason::PoTokenRequired | BlockingReason::NetworkTimeout
            | BlockingReason::RateLimited | BlockingReason::BotDetection)
    }

    pub open spec fn cookies_help(self) -> bool {
        matches!(self, BlockingReason::Http403Forbidden | BlockingReason::SabrStreaming
            | BlockingReason::PoTokenRequired | BlockingReason::AgeRestricted
            | BlockingReason::BotDetection | BlockingReason::PrivateVideo
            | BlockingReason::MembersOnly)
    }

    pub open spec fn proxy_helps(self) -> bool {
        matches!(self, BlockingReason::Http403Forbidden | BlockingReason::GeoBlocked
            | BlockingReason::NetworkTimeout | BlockingReason::RateLimited
            | BlockingReason::BotDetection)
    }

    pub open spec fn audio_helps(self) -> bool {
        matches!(self, BlockingReason::SabrStreaming | BlockingReason::Http403Forbidden)
    }

    pub open spec fn permanent(self) -> bool {
        matches!(self, BlockingReason::DrmProtected | BlockingReason::VideoUnavailable)
    }

    /// Severity from 1 (mild) to 5 (no workaround).
    pub open spec fn severity_of(self) -> u8 {
        match self {
            BlockingReason::DrmProtected => 5,
            BlockingReason::VideoUnavailable => 5,
            BlockingReason::PrivateVideo => 4,
            BlockingReason::GeoBlocked => 4,
            BlockingReason::MembersOnly => 4,
            BlockingReason::AgeRestricted => 3,
            BlockingReason::PoTokenRequired => 3,
            BlockingReason::SabrStreaming => 3,
            BlockingReason::Http403Forbidden => 2,
            BlockingReason::BotDetection => 2,
            BlockingReason::RateLimited => 2,
            BlockingReason::NetworkTimeout => 1,
            BlockingReason::Unknown => 1,
        }
    }

    pub open spec fn description_text(self) -> Seq<char> {
        match self {
            BlockingReason::Http403Forbidden => "Access denied (HTTP 403)"@,
            BlockingReason::SabrStreaming => "SABR streaming protection active"@,
            BlockingReason::PoTokenRequired => "Proof of Origin token required"@,
            BlockingReason::AgeRestricted => "Age-restricted content"@,
            BlockingReason::GeoBlocked => "Geographic restriction"@,
            BlockingReason::NetworkTimeout => "Network timeout (possible IP throttling)"@,
            BlockingReason::RateLimited => "Rate limited by YouTube"@,
            BlockingReason::BotDetection => "Bot detection triggered"@,
            BlockingReason::PrivateVideo => "Private video"@,
            BlockingReason::VideoUnavailable => "Video unavailable"@,
            BlockingReason::DrmProtected => "DRM-protected content"@,
            BlockingReason::MembersOnly => "Members-only content"@,
            BlockingReason::Unknown => "Unknown blocking reason"@,
        }
    }

    pub open spec fn explanation(self) -> Option<Seq<char>> {
        match self {
            BlockingReason::DrmProtected => Some(DRM_EXPLANATION@),
            BlockingReason::MembersOnly => Some(MEMBERS_EXPLANATION@),
            BlockingReason::VideoUnavailable => Some(UNAVAILABLE_EXPLANATION@),
            _ => None,
        }
    }

    /// Whether retrying with other settings may help.
    pub fn is_retryable(&self) -> (r: bool)
        ensures
            r == self.retryable(),
    {
        matches!(self, BlockingReason::Http403Forbidden | BlockingReason::SabrStreaming
            | BlockingReason::PoTokenRequired | BlockingReason::NetworkTimeout
            | BlockingReason::RateLimited | BlockingReason::BotDetection)
    }

    /// Whether cookies may help.
    pub fn cookies_might_help(&self) -> (r: bool)
        ensures
            r == self.cookies_help(),
    {
        matches!(self, BlockingReason::Http403Forbidden | BlockingReason::SabrStreaming
            | BlockingReason::PoTokenRequired | BlockingReason::AgeRestricted
            | BlockingReason::BotDetection | BlockingReason::PrivateVideo
            | BlockingReason::MembersOnly)
    }

    /// Whether a proxy may help.
    pub fn proxy_might_help(&self) -> (r: bool)
        ensures
            r == self.proxy_helps(),
    {
        matches!(self, BlockingReason::Http403Forbidden | BlockingReason::GeoBlocked
            | BlockingReason::NetworkTimeout | BlockingReason::RateLimited
            | BlockingReason::BotDetection)
    }

    /// Whether an audio-only download may still work.
    pub fn audio_fallback_might_work(&self) -> (r: bool)
        ensures
            r == self.audio_helps(),
    {
        matches!(self, BlockingReason::SabrStreaming | BlockingReason::Http403Forbidden)
    }

    /// Whether no workaround exists.
    pub fn is_permanent(&self) -> (r: bool)
        ensures
            r == self.permanent(),
    {
        matches!(self, BlockingReason::DrmProtected | BlockingReason::VideoUnavailable)
    }

    /// Whether this is DRM protection.
    pub fn is_drm(&self) -> (r: bool)
        ensures
            r == (*self == BlockingReason::DrmProtected),
    {
        matches!(self, BlockingReason::DrmProtected)
    }

    /// Severity from 1 (mild) to 5 (no workaround).
    pub fn severity(&self) -> (r: u8)
        ensures
            r == self.severity_of(),
            1 <= r <= 5,
    {
        match self {
            BlockingReason::DrmProtected => 5,
            BlockingReason::VideoUnavailable => 5,
            BlockingReason::PrivateVideo => 4,
            BlockingReason::GeoBlocked => 4,
            BlockingReason::MembersOnly => 4,
            BlockingReason::AgeRestricted => 3,
            BlockingReason::PoTokenRequired => 3,
            BlockingReason::SabrStreaming => 3,
            BlockingReason::Http403Forbidden => 2,
            BlockingReason::BotDetection => 2,
            BlockingReason::RateLimited => 2,
            BlockingReason::NetworkTimeout => 1,
            BlockingReason::Unknown => 1,
        }
    }

    /// Short human-readable description.
    pub fn description(&self) -> (r: &'static str)
        ensures
            r@ == self.description_text(),
    {
        match self {
            BlockingReason::Http403Forbidden => "Access denied (HTTP 403)",
            BlockingReason::SabrStreaming => "SABR streaming protection active",
            BlockingReason::PoTokenRequired => "Proof of Origin token required",
            BlockingReason::AgeRestricted => "Age-restricted content",
            BlockingReason::GeoBlocked => "Geographic restriction",
            BlockingReason::NetworkTimeout => "Network timeout (possible IP throttling)",
            BlockingReason::RateLimited => "Rate limited by YouTube",
            BlockingReason::BotDetection => "Bot detection triggered",
            BlockingReason::PrivateVideo => "Private video",
            BlockingReason::VideoUnavailable => "Video unavailable",
            BlockingReason::DrmProtected => "DRM-protected content",
            BlockingReason::MembersOnly => "Members-only content",
            BlockingReason::Unknown => "Unknown blocking reason",
        }
    }

    /// Longer explanation for permanent or membership restrictions.
    pub fn user_explanation(&self) -> (r: Option<&'static str>)
        ensures
            r is Some <==> self.explanation() is Some,
            r is Some ==> r->0@ == self.explanation()->0,
    {
        match self {
            BlockingReason::DrmProtected => Some(DRM_EXPLANATION),
            BlockingReason::MembersOnly => Some(MEMBERS_EXPLANATION),
            BlockingReason::VideoUnavailable => Some(UNAVAILABLE_EXPLANATION),
            _ => None,
        }
    }
}

pub const DRM_EXPLANATION: &'static str = "This video is DRM-protected and cannot be downloaded.\n\n\u{2714} Available offline in YouTube app (Premium)\n\u{2714} Can be screen-recorded\n\u{2716} Cannot be downloaded as a file\n\nThis is a content protection measure, not an error.";

pub const MEMBERS_EXPLANATION: &'static str = "This video requires a channel membership.\n\n\u{2714} Available if you're a member (use cookies)\n\u{2716} Cannot be downloaded without membership\n\nTry using cookies from a browser where you're a member.";

pub const UNAVAILABLE_EXPLANATION: &'static str = "This video has been removed or is no longer available.";

pub open spec fn drm_text(t: Seq<char>) -> bool {
    contains(t, "drm"@) || contains(t, "widevine"@) || contains(t, "playready"@)
        || contains(t, "fairplay"@) || contains(t, "encrypted media"@)
        || contains(t, "content is protected"@) || contains(t, "youtube premium"@)
        || contains(t, "youtube music premium"@) || contains(t, "requires purchase"@)
        || contains(t, "rental"@) || contains(t, "pay to watch"@)
        || contains(t, "this video requires payment"@)
}

pub open spec fn members_text(t: Seq<char>) -> bool {
    contains(t, "members only"@) || contains(t, "members-only"@)
        || contains(t, "join this channel"@) || contains(t, "membership required"@)
        || contains(t, "available to members"@)
}

pub open spec fn sabr_text(t: Seq<char>) -> bool {
    contains(t, "sabr"@) || contains(t, "forcing sabr streaming"@)
}

pub open spec fn po_token_text(t: Seq<char>) -> bool {
    contains(t, "po token"@) || contains(t, "gvs po token"@) || contains(t, "proof of origin"@)
}

pub open spec fn age_text(t: Seq<char>) -> bool {
    contains(t, "age-restricted"@) || contains(t, "sign in to confirm your age"@)
        || contains(t, "age_verification"@)
}

pub open spec fn private_text(t: Seq<char>) -> bool {
    contains(t, "private video"@) || contains(t, "video is private"@)
        || contains(t, "sign in if you've been granted access"@)
}

pub open spec fn unavailable_text(t: Seq<char>) -> bool {
    contains(t, "video unavailable"@) || contains(t, "video has been removed"@)
        || contains(t, "this video is no longer available"@)
        || contains(t, "video is unavailable"@)
}

pub open spec fn geo_text(t: Seq<char>) -> bool {
    contains(t, "not available in your country"@) || contains(t, "geo"@)
        || contains(t, "blocked in your country"@) || contains(t, "geographic restriction"@)
}

pub open spec fn rate_text(t: Seq<char>) -> bool {
    contains(t, "429"@) || contains(t, "rate limit"@) || contains(t, "too many requests"@)
}

pub open spec fn bot_text(t: Seq<char>) -> bool {
    contains(t, "bot"@) || contains(t, "captcha"@) || contains(t, "unusual traffic"@)
        || contains(t, "automated"@)
}

pub open spec fn forbidden_text(t: Seq<char>) -> bool {
    contains(t, "403"@) || contains(t, "forbidden"@)
}

pub open spec fn timeout_text(t: Seq<char>) -> bool {
    contains(t, "timeout"@) || contains(t, "timed out"@) || contains(t, "connection refused"@)
        || contains(t, "network unreachable"@)
}

/// The reason for the lower-cased text `t` of a message; `empty` tells
/// whether the message itself was empty. Earlier groups take precedence.
pub open spec fn reason_of(t: Seq<char>, empty: bool) -> Option<BlockingReason> {
    if empty {
        None
    } else if drm_text(t) {
        Some(BlockingReason::DrmProtected)
    } else if members_text(t) {
        Some(BlockingReason::MembersOnly)
    } else if sabr_text(t) {
        Some(BlockingReason::SabrStreaming)
    } else if po_token_text(t) {
        Some(BlockingReason::PoTokenRequired)
    } else if age_text(t) {
        Some(BlockingReason::AgeRestricted)
    } else if private_text(t) {
        Some(BlockingReason::PrivateVideo)
    } else if unavailable_text(t) {
        Some(BlockingReason::VideoUnavailable)
    } else if geo_text(t) {
        Some(BlockingReason::GeoBlocked)
    } else if rate_text(t) {
        Some(BlockingReason::RateLimited)
    } else if bot_text(t) {
        Some(BlockingReason::BotDetection)
    } else if forbidden_text(t) {
        Some(BlockingReason::Http403Forbidden)
    } else if timeout_text(t) {
        Some(BlockingReason::NetworkTimeout)
    } else {
        Some(BlockingReason::Unknown)
    }
}

/// Classifies a message that is already lower-cased; `message_is_empty`
/// tells whether the original message was empty.
pub fn diagnose_lowercase(lower: &str, message_is_empty: bool) -> (r: Option<BlockingReason>)
    ensures
        r == reason_of(lower@, message_is_empty),
{
    if message_is_empty {
        return None;
    }
    let t = chars_of(lower);
    if has(&t, "drm") || has(&t, "widevine") || has(&t, "playready") || has(&t, "fairplay")
        || has(&t, "encrypted media") || has(&t, "content is protected")
        || has(&t, "youtube premium") || has(&t, "youtube music premium")
        || has(&t, "requires purchase") || has(&t, "rental") || has(&t, "pay to watch")
        || has(&t, "this video requires payment") {
        return Some(BlockingReason::DrmProtected);
    }
    if has(&t, "members only") || has(&t, "members-only") || has(&t, "join this channel")
        || has(&t, "membership required") || has(&t, "available to members") {
        return Some(BlockingReason::MembersOnly);
    }
    if has(&t, "sabr") || has(&t, "forcing sabr streaming") {
        return Some(BlockingReason::SabrStreaming);
    }
    if has(&t, "po token") || has(&t, "gvs po token") || has(&t, "proof of origin") {
        return Some(BlockingReason::PoTokenRequired);
    }
    if has(&t, "age-restricted") || has(&t, "sign in to confirm your age")
        || has(&t, "age_verification") {
        return Some(BlockingReason::AgeRestricted);
    }
    if has(&t, "private video") || has(&t, "video is private")
        || has(&t, "sign in if you've been granted access") {
        return Some(BlockingReason::PrivateVideo);
    }
    if has(&t, "video unavailable") || has(&t, "video has been removed")
        || has(&t, "this video is no longer available") || has(&t, "video is unavailable") {
        return Some(BlockingReason::VideoUnavailable);
    }
    if has(&t, "not available in your country") || has(&t, "geo")
        || has(&t, "blocked in your country") || has(&t, "geographic restriction") {
        return Some(BlockingReason::GeoBlocked);
    }
    if has(&t, "429") || has(&t, "rate limit") || has(&t, "too many requests") {
        return Some(BlockingReason::RateLimited);
    }
    if has(&t, "bot") || has(&t, "captcha") || has(&t, "unusual traffic") || has(&t, "automated") {
        return Some(BlockingReason::BotDetection);
    }
    if has(&t, "403") || has(&t, "forbidden") {
        return Some(BlockingReason::Http403Forbidden);
    }
    if has(&t, "timeout") || has(&t, "timed out") || has(&t, "connection refused")
        || has(&t, "network unreachable") {
        return Some(BlockingReason::NetworkTimeout);
    }
    Some(BlockingReason::Unknown)
}

/// Classifies a raw error message, ignoring case. An empty message has no reason.
pub fn diagnose_error(error: &str) -> (r: Option<BlockingReason>)
    ensures
        r == reason_of(lower_of(error@), error@.len() == 0),
        error@.len() == 0 ==> r is None,
{
    let lower = lowercase(error);
    diagnose_lowercase(lower.as_str(), error.is_empty())
}

/// Full diagnosis of an error message.
#[derive(Debug, Clone)]
pub struct BlockingDiagnostics {
    pub reason: BlockingReason,
    /// The first telling line of the message, trimmed.
    pub context: Option<String>,
    pub recommend_cookies: bool,
    pub recommend_proxy: bool,
    pub recommend_audio_only: bool,
    /// From 1 (mild) to 5 (no workaround).
    pub severity: u8,
    /// The known markers found in the message.
    pub matched_patterns: Vec<String>,
}

impl BlockingDiagnostics {
    /// Diagnosis for `reason`, with the reason's fixed advice and severity.
    pub fn new(reason: BlockingReason, context: Option<String>) -> (r: Self)
        ensures
            r.reason == reason,
            opt_text(r.context) == opt_text(context),
            r.recommend_cookies == reason.cookies_help(),
            r.recommend_proxy == reason.proxy_helps(),
            r.recommend_audio_only == reason.audio_helps(),
            r.severity == reason.severity_of(),
            r.matched_patterns@.len() == 0,
    {
        BlockingDiagnostics {
            reason,
            context,
            recommend_cookies: reason.cookies_might_help(),
            recommend_proxy: reason.proxy_might_help(),
            recommend_audio_only: reason.audio_fallback_might_work(),
            severity: reason.severity(),
            matched_patterns: Vec::new(),
        }
    }

    /// The same diagnosis with `patterns` as its matched markers.
    pub fn with_patterns(self, patterns: Vec<String>) -> (r: Self)
        ensures
            r.reason == self.reason,
            opt_text(r.context) == opt_text(self.context),
            r.recommend_cookies == self.recommend_cookies,
            r.recommend_proxy == self.recommend_proxy,
            r.recommend_audio_only == self.recommend_audio_only,
            r.severity == self.severity,
            r.matched_patterns@ == patterns@,
    {
        BlockingDiagnostics { matched_patterns: patterns, ..self }
    }

    /// Whether no workaround exists.
    pub fn is_permanent(&self) -> (r: bool)
        ensures
            r == self.reason.permanent(),
    {
        self.reason.is_permanent()
    }

    /// Whether this is DRM protection.
    pub fn is_drm(&self) -> (r: bool)
        ensures
            r == (self.reason == BlockingReason::DrmProtected),
    {
        self.reason.is_drm()
    }

    /// The reason's longer explanation, if it has one.
    pub fn user_explanation(&self) -> (r: Option<&'static str>)
        ensures
            r is Some <==> self.reason.explanation() is Some,
            r is Some ==> r->0@ == self.reason.explanation()->0,
    {
        self.reason.user_explanation()
    }
}

/// The markers looked for in an error message, in the order they are reported.
pub open spec fn marker_list() -> Seq<Seq<char>> {
    seq!["403"@, "forbidden"@, "sabr"@, "po token"@, "age-restricted"@, "private"@, "unavailable"@,
        "timeout"@, "429"@, "rate limit"@, "captcha"@, "bot"@, "geo"@, "drm"@, "widevine"@,
        "playready"@, "fairplay"@, "encrypted"@, "premium"@, "purchase"@, "rental"@,
        "members only"@, "membership"@]
}

/// The markers among the first `n` of `ms` that occur in `t`, in order.
pub open spec fn found_markers(t: Seq<char>, ms: Seq<Seq<char>>, n: int) -> Seq<Seq<char>>
    decreases n,
{
    if n <= 0 {
        seq![]
    } else if contains(t, ms[n - 1]) {
        found_markers(t, ms, n - 1).push(ms[n - 1])
    } else {
        found_markers(t, ms, n - 1)
    }
}

/// The known markers that occur in the lower-cased `lower`.
pub fn markers_in(lower: &str) -> (r: Vec<String>)
    ensures
        texts(r@) == found_markers(lower@, marker_list(), marker_list().len() as int),
{
    let ms: Vec<&str> = vec!["403", "forbidden", "sabr", "po token", "age-restricted", "private",
        "unavailable", "timeout", "429", "rate limit", "captcha", "bot", "geo", "drm", "widevine",
        "playready", "fairplay", "encrypted", "premium", "purchase", "rental", "members only",
        "membership"];
    assert(ms@.map_values(|m: &str| m@) =~= marker_list());
    let t = chars_of(lower);
    let mut out: Vec<String> = Vec::new();
    let mut i: usize = 0;
    while i < ms.len()
        invariant
            t@ == lower@,
            i <= ms@.len(),
            ms@.map_values(|m: &str| m@) == marker_list(),
            texts(out@) == found_markers(lower@, marker_list(), i as int),
        decreases ms@.len() - i,
    {
        let m: &str = ms[i];
        assert(marker_list()[i as int] == m@);
        let ghost before = out@;
        if has(&t, m) {
            let x = m.to_string();
            out.push(x);
            assert(texts(out@) =~= texts(before).push(m@));
        }
        i = i + 1;
    }
    out
}

/// A line worth showing as context: after trimming and lower-casing, it
/// starts with "error:" or mentions forbidden, unavailable, sabr or token.
pub open spec fn telling(line: Seq<char>) -> bool {
    let l = lower_of(trimmed(line));
    starts_with(l, "error:"@) || contains(l, "forbidden"@) || contains(l, "unavailable"@)
        || contains(l, "sabr"@) || contains(l, "token"@)
}

/// The first telling line among the first `n`, trimmed.
pub open spec fn first_telling(ls: Seq<Seq<char>>, n: int) -> Option<Seq<char>>
    decreases n,
{
    if n <= 0 {
        None
    } else {
        match first_telling(ls, n - 1) {
            Some(x) => Some(x),
            None => if telling(ls[n - 1]) { Some(trimmed(ls[n - 1])) } else { None },
        }
    }
}

proof fn lemma_first_telling_stays(ls: Seq<Seq<char>>, m: int, n: int)
    requires
        1 <= m <= n,
        first_telling(ls, m) is Some,
    ensures
        first_telling(ls, n) == first_telling(ls, m),
    decreases n - m,
{
    if m < n {
        lemma_first_telling_stays(ls, m + 1, n);
    }
}

/// The first telling line of `error`, trimmed.
pub fn context_line(error: &str) -> (r: Option<String>)
    ensures
        opt_text(r) == first_telling(lines_of(error@), lines_of(error@).len() as int),
{
    let text = chars_of(error);
    let ls = lines(&text);
    let ghost lv = lines_view(ls@);
    let mut i: usize = 0;
    while i < ls.len()
        invariant
            lv == lines_view(ls@),
            lv == lines_of(error@),
            i <= ls@.len(),
            first_telling(lv, i as int) is None,
        decreases ls@.len() - i,
    {
        assert(lv[i as int] == ls@[i as int]@);
        let tl = trim_chars(&ls[i]);
        let ts = string_of(&tl);
        let low = lowercase(ts.as_str());
        let lc = chars_of(low.as_str());
        if begins_with(&lc, "error:") || has(&lc, "forbidden") || has(&lc, "unavailable")
            || has(&lc, "sabr") || has(&lc, "token") {
            proof { lemma_first_telling_stays(lv, i + 1, lv.len() as int); }
            return Some(ts);
        }
        i = i + 1;
    }
    None
}

/// Full analysis of an error message: its reason (`Unknown` when there is
/// none), the reason's advice, the first telling line, and the markers found.
pub fn analyze_error(error: &str) -> (r: BlockingDiagnostics)
    ensures
        r.reason == match reason_of(lower_of(error@), error@.len() == 0) {
            Some(x) => x,
            None => BlockingReason::Unknown,
        },
        r.severity == r.reason.severity_of(),
        r.recommend_cookies == r.reason.cookies_help(),
        r.recommend_proxy == r.reason.proxy_helps(),
        r.recommend_audio_only == r.reason.audio_helps(),
        opt_text(r.context) == first_telling(lines_of(error@), lines_of(error@).len() as int),
        texts(r.matched_patterns@) == found_markers(lower_of(error@), marker_list(), marker_list().len() as int),
{
    let reason = match diagnose_error(error) {
        Some(x) => x,
        None => BlockingReason::Unknown,
    };
    let lower = lowercase(error);
    let patterns = markers_in(lower.as_str());
    let context = context_line(error);
    BlockingDiagnostics::new(reason, context).with_patterns(patterns)
}

/// A message whose lower-cased text holds a DRM marker ("drm", "widevine",
/// "requires purchase", ...) is classified as DRM-protected, whatever else it
/// holds; that reason is permanent and comes with an explanation.
pub proof fn drm_marker_means_drm(message: Seq<char>)
    requires
        drm_text(lower_of(message)),
        message.len() > 0,
    ensures
        reason_of(lower_of(message), message.len() == 0) == Some(BlockingReason::DrmProtected),
        BlockingReason::DrmProtected.permanent(),
        BlockingReason::DrmProtected.explanation() is Some,
{
}

} // verus!
