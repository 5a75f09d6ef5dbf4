//! Remediation advice shown to the user for each blocking reason.
use vstd::prelude::*;
use crate::diagnostics::BlockingReason;
use crate::text::{push_str};

verus! {

pub open spec fn advice_text(r: BlockingReason) -> Seq<char> {
    match r {
        BlockingReason::Http403Forbidden => ADVICE_403@,
        BlockingReason::SabrStreaming => ADVICE_SABR@,
        BlockingReason::PoTokenRequired => ADVICE_PO_TOKEN@,
        BlockingReason::AgeRestricted => ADVICE_AGE@,
        BlockingReason::GeoBlocked => ADVICE_GEO@,
        BlockingReason::NetworkTimeout => ADVICE_TIMEOUT@,
        BlockingReason::RateLimited => ADVICE_RATE@,
        BlockingReason::BotDetection => ADVICE_BOT@,
        BlockingReason::PrivateVideo => ADVICE_PRIVATE@,
        BlockingReason::VideoUnavailable => ADVICE_UNAVAILABLE@,
        BlockingReason::DrmProtected => ADVICE_DRM@,
        BlockingReason::MembersOnly => ADVICE_MEMBERS@,
        BlockingReason::Unknown => ADVICE_UNKNOWN@,
    }
}

/// The advice for `r`, followed (for restrictions that are not permanent) by
/// the proxy in use, or by a hint to enable one where a proxy may help.
pub open spec fn suggestion_text(r: BlockingReason, proxy: Option<Seq<char>>) -> Seq<char> {
    if r.permanent() {
        advice_text(r)
    } else {
        match proxy {
            Some(p) => advice_text(r) + PROXY_IN_USE@ + p,
            None => if r.proxy_helps() {
                advice_text(r) + NO_PROXY_TIP@
            } else {
                advice_text(r)
            },
        }
    }
}

pub const ADVICE_403: &'static str = "What to try:\n1) Use a VPN/Proxy (SOCKS5)\n2) Update cookies (re-login to YouTube)\n3) Wait and try again later";
pub const ADVICE_SABR: &'static str = "YouTube SABR protection active.\nWhat to try:\n1) Enable Auto fallback (uses multiple player clients)\n2) Use cookies from logged-in Chrome\n3) Update yt-dlp: brew upgrade yt-dlp\n4) Use a proxy/VPN";
pub const ADVICE_PO_TOKEN: &'static str = "YouTube requires PO Token.\nWhat to try:\n1) Use cookies from logged-in browser\n2) See: github.com/yt-dlp/yt-dlp/wiki/PO-Token-Guide";
pub const ADVICE_AGE: &'static str = "Video is age-restricted.\nWhat to try:\n1) Enable 'Chrome (logged-in)' in Tools \u{2192} Cookies\n2) Or export cookies.txt from logged-in browser";
pub const ADVICE_GEO: &'static str = "Video is blocked in your country.\nWhat to try:\n1) Use a VPN with a different country\n2) Use a proxy server in allowed region";
pub const ADVICE_TIMEOUT: &'static str = "Network timeout (possible IP throttling).\nWhat to try:\n1) Check your internet connection\n2) Use a proxy/VPN\n3) Try again later";
pub const ADVICE_RATE: &'static str = "YouTube is rate-limiting requests.\nWhat to try:\n1) Wait 10-15 minutes\n2) Use a different IP (VPN/proxy)";
pub const ADVICE_BOT: &'static str = "YouTube detected automated access.\nWhat to try:\n1) Use cookies from logged-in Chrome\n2) Use a fresh proxy/VPN";
pub const ADVICE_PRIVATE: &'static str = "Video is private.\nYou need:\n1) Cookies from an authorized account\n2) Access permission from the uploader";
pub const ADVICE_UNAVAILABLE: &'static str = "Video is unavailable.\nIt may have been:\n- Deleted by the uploader\n- Removed for copyright\n- Made private";
pub const ADVICE_DRM: &'static str = "\u{1F512} DRM-Protected Content\n\nThis video is protected by DRM and cannot be downloaded.\n\n\u{2714} Available offline in YouTube app (with Premium)\n\u{2714} Can be screen-recorded\n\u{2716} Cannot be downloaded as a file\n\nThis is a content protection measure, not an error.\nDirect download is blocked by DRM encryption.";
pub const ADVICE_MEMBERS: &'static str = "\u{1F3AB} Members-Only Content\n\nThis video requires channel membership.\n\n\u{2714} Available if you're a member\n\u{2716} Cannot be downloaded without membership\n\nTry using cookies from a browser where you're logged in as a member.";
pub const ADVICE_UNKNOWN: &'static str = "Unknown error.\nWhat to try:\n1) Check the video URL\n2) Try again later\n3) Use a VPN/proxy";
pub const PROXY_IN_USE: &'static str = "\n\nProxy in use: ";
pub const NO_PROXY_TIP: &'static str = "\n\n\u{1F4A1} Tip: No proxy detected. Try enabling XRAY/Clash.";

fn advice(r: BlockingReason) -> (s: &'static str)
    ensures
        s@ == advice_text(r),
{
    match r {
        BlockingReason::Http403Forbidden => ADVICE_403,
        BlockingReason::SabrStreaming => ADVICE_SABR,
        BlockingReason::PoTokenRequired => ADVICE_PO_TOKEN,
        BlockingReason::AgeRestricted => ADVICE_AGE,
        BlockingReason::GeoBlocked => ADVICE_GEO,
        BlockingReason::NetworkTimeout => ADVICE_TIMEOUT,
        BlockingReason::RateLimited => ADVICE_RATE,
        BlockingReason::BotDetection => ADVICE_BOT,
        BlockingReason::PrivateVideo => ADVICE_PRIVATE,
        BlockingReason::VideoUnavailable => ADVICE_UNAVAILABLE,
        BlockingReason::DrmProtected => ADVICE_DRM,
        BlockingReason::MembersOnly => ADVICE_MEMBERS,
        BlockingReason::Unknown => ADVICE_UNKNOWN,
    }
}

/// User-facing advice for a blocking reason, given the proxy in use.
pub fn get_blocking_suggestion(reason: &BlockingReason, proxy: Option<&str>) -> (r: String)
    ensures
        r@ == suggestion_text(*reason, match proxy { Some(p) => Some(p@), None => None }),
{
    let mut s = advice(*reason).to_string();
    if !reason.is_permanent() {
        match proxy {
            Some(p) => {
                push_str(&mut s, PROXY_IN_USE);
                push_str(&mut s, p);
            },
            None => {
                if reason.proxy_might_help() {
                    push_str(&mut s, NO_PROXY_TIP);
                }
            },
        }
    }
    s
}

} // verus!
