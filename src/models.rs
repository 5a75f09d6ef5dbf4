//! Shared data records of the downloader backends.
use vstd::prelude::*;
use crate::text::push_str;
use crate::download::texts;

verus! {

/// Kinds of content restriction.
#[derive(Debug, Clone, Copy, PartialEq, Eq, Structural)]
pub enum RestrictionType {
    Unrestricted,
    Drm,
    Premium,
    MembersOnly,
    PaidContent,
    AgeRestricted,
    GeoBlocked,
    Private,
}

impl RestrictionType {
    pub open spec fn workaround(self) -> bool {
        matches!(self, RestrictionType::Unrestricted | RestrictionType::AgeRestricted
            | RestrictionType::GeoBlocked | RestrictionType::MembersOnly)
    }

    pub open spec fn permanent(self) -> bool {
        matches!(self, RestrictionType::Drm | RestrictionType::Premium | RestrictionType::PaidContent)
    }

    /// Whether a download is possible with some workaround.
    pub fn has_workaround(&self) -> (r: bool)
        ensures
            r == self.workaround(),
    {
        matches!(self, RestrictionType::Unrestricted | RestrictionType::AgeRestricted
            | RestrictionType::GeoBlocked | RestrictionType::MembersOnly)
    }

    /// Whether no workaround is possible.
    pub fn is_permanent(&self) -> (r: bool)
        ensures
            r == self.permanent(),
    {
        matches!(self, RestrictionType::Drm | RestrictionType::Premium | RestrictionType::PaidContent)
    }
}

/// A content restriction with its reason and advice. Only permanent
/// restrictions are not downloadable.
#[derive(Debug, Clone)]
pub struct ContentRestriction {
    pub restriction_type: RestrictionType,
    pub reason: String,
    pub is_downloadable: bool,
    pub suggestions: Vec<String>,
}

impl ContentRestriction {
    pub open spec fn wf(self) -> bool {
        self.is_downloadable == !self.restriction_type.permanent()
    }

    /// No restriction.
    pub fn none() -> (r: Self)
        ensures
            r.wf(),
            r.restriction_type == RestrictionType::Unrestricted,
            r.reason@.len() == 0,
            r.suggestions@.len() == 0,
    {
        ContentRestriction { restriction_type: RestrictionType::Unrestricted, reason: String::new(), is_downloadable: true, suggestions: Vec::new() }
    }

    /// DRM-protected content of the given kind.
    pub fn drm(content_type: &str) -> (r: Self)
        ensures
            r.wf(),
            r.restriction_type == RestrictionType::Drm,
            r.reason@ == "This "@ + content_type@ + " is DRM-protected"@,
            texts(r.suggestions@) == seq!["\u{2714} Available offline in YouTube app (with Premium)"@,
                "\u{2714} Can be screen-recorded"@, "\u{2716} Cannot be downloaded as a file"@],
    {
        let mut reason = "This ".to_string();
        push_str(&mut reason, content_type);
        push_str(&mut reason, " is DRM-protected");
        let mut s: Vec<String> = Vec::new();
        s.push("\u{2714} Available offline in YouTube app (with Premium)".to_string());
        s.push("\u{2714} Can be screen-recorded".to_string());
        s.push("\u{2716} Cannot be downloaded as a file".to_string());
        let r = ContentRestriction { restriction_type: RestrictionType::Drm, reason, is_downloadable: false, suggestions: s };
        assert(texts(r.suggestions@) =~= seq!["\u{2714} Available offline in YouTube app (with Premium)"@,
            "\u{2714} Can be screen-recorded"@, "\u{2716} Cannot be downloaded as a file"@]);
        r
    }

    /// Content for Premium subscribers.
    pub fn premium() -> (r: Self)
        ensures
            r.wf(),
            r.restriction_type == RestrictionType::Premium,
            r.reason@ == "This content requires YouTube Premium"@,
            texts(r.suggestions@) == seq!["\u{2714} Available offline in YouTube app (with Premium subscription)"@,
                "\u{2716} Cannot be downloaded as a file"@],
    {
        let mut s: Vec<String> = Vec::new();
        s.push("\u{2714} Available offline in YouTube app (with Premium subscription)".to_string());
        s.push("\u{2716} Cannot be downloaded as a file".to_string());
        let r = ContentRestriction {
            restriction_type: RestrictionType::Premium,
            reason: "This content requires YouTube Premium".to_string(),
            is_downloadable: false,
            suggestions: s,
        };
        assert(texts(r.suggestions@) =~= seq!["\u{2714} Available offline in YouTube app (with Premium subscription)"@,
            "\u{2716} Cannot be downloaded as a file"@]);
        r
    }

    /// Content for members of `channel`.
    pub fn members_only(channel: &str) -> (r: Self)
        ensures
            r.wf(),
            r.restriction_type == RestrictionType::MembersOnly,
            r.reason@ == "This video requires "@ + channel@ + " channel membership"@,
            texts(r.suggestions@) == seq!["\u{2714} Use cookies from a browser where you're a member"@,
                "\u{2716} Cannot be downloaded without membership"@],
    {
        let mut reason = "This video requires ".to_string();
        push_str(&mut reason, channel);
        push_str(&mut reason, " channel membership");
        let mut s: Vec<String> = Vec::new();
        s.push("\u{2714} Use cookies from a browser where you're a member".to_string());
        s.push("\u{2716} Cannot be downloaded without membership".to_string());
        let r = ContentRestriction { restriction_type: RestrictionType::MembersOnly, reason, is_downloadable: true, suggestions: s };
        assert(texts(r.suggestions@) =~= seq!["\u{2714} Use cookies from a browser where you're a member"@,
            "\u{2716} Cannot be downloaded without membership"@]);
        r
    }

    /// Paid content.
    pub fn paid_content() -> (r: Self)
        ensures
            r.wf(),
            r.restriction_type == RestrictionType::PaidContent,
            r.reason@ == "This content requires purchase or rental"@,
            texts(r.suggestions@) == seq!["This is paid content (movie/rental)"@,
                "\u{2716} Cannot be downloaded - DRM protection"@],
    {
        let mut s: Vec<String> = Vec::new();
        s.push("This is paid content (movie/rental)".to_string());
        s.push("\u{2716} Cannot be downloaded - DRM protection".to_string());
        let r = ContentRestriction {
            restriction_type: RestrictionType::PaidContent,
            reason: "This content requires purchase or rental".to_string(),
            is_downloadable: false,
            suggestions: s,
        };
        assert(texts(r.suggestions@) =~= seq!["This is paid content (movie/rental)"@,
            "\u{2716} Cannot be downloaded - DRM protection"@]);
        r
    }

    /// Age-restricted content.
    pub fn age_restricted() -> (r: Self)
        ensures
            r.wf(),
            r.restriction_type == RestrictionType::AgeRestricted,
            r.reason@ == "Age-restricted content"@,
            texts(r.suggestions@) == seq!["\u{2714} Use cookies from a logged-in browser"@, "Your account must be 18+"@],
    {
        let mut s: Vec<String> = Vec::new();
        s.push("\u{2714} Use cookies from a logged-in browser".to_string());
        s.push("Your account must be 18+".to_string());
        let r = ContentRestriction {
            restriction_type: RestrictionType::AgeRestricted,
            reason: "Age-restricted content".to_string(),
            is_downloadable: true,
            suggestions: s,
        };
        assert(texts(r.suggestions@) =~= seq!["\u{2714} Use cookies from a logged-in browser"@, "Your account must be 18+"@]);
        r
    }
}

/// Basic video information reported by a backend.
#[derive(Debug, Clone)]
pub struct VideoInfo {
    pub id: String,
    pub title: String,
    pub uploader: String,
    pub duration: String,
    pub thumbnail: String,
}

/// One format as a backend reports it.
#[derive(Debug, Clone)]
pub struct VideoFormat {
    pub format_id: String,
    pub ext: String,
    pub resolution: Option<String>,
    pub filesize: Option<u64>,
}

/// What a backend is asked to download.
#[derive(Debug, Clone)]
pub struct DownloadOptions {
    pub quality: String,
    pub output_path: String,
    pub extract_audio: bool,
    pub audio_format: Option<String>,
    pub proxy: Option<String>,
}

impl DownloadOptions {
    /// The defaults: 720p video into `output_path`, no proxy.
    pub fn with_output(output_path: String) -> (r: Self)
        ensures
            r.quality@ == "720p"@,
            r.output_path == output_path,
            !r.extract_audio,
            r.audio_format is None,
            r.proxy is None,
    {
        DownloadOptions { quality: "720p".to_string(), output_path, extract_audio: false, audio_format: None, proxy: None }
    }
}

} // verus!
