use youtube_downloader::diagnostics::{analyze_error, diagnose_error, diagnose_lowercase, BlockingDiagnostics, BlockingReason};

#[test]
fn test_403_detection() {
    let error = "ERROR: HTTP Error 403: Forbidden";
    assert_eq!(diagnose_error(error), Some(BlockingReason::Http403Forbidden));
}

#[test]
fn test_sabr_detection() {
    let error = "YouTube is forcing SABR streaming for this client";
    assert_eq!(diagnose_error(error), Some(BlockingReason::SabrStreaming));
}

#[test]
fn test_po_token_detection() {
    let error = "mweb client https formats require a GVS PO Token";
    assert_eq!(diagnose_error(error), Some(BlockingReason::PoTokenRequired));
}

#[test]
fn test_age_restricted_detection() {
    let error = "Sign in to confirm your age";
    assert_eq!(diagnose_error(error), Some(BlockingReason::AgeRestricted));
}

#[test]
fn test_timeout_detection() {
    let error = "Timed out after 30s";
    assert_eq!(diagnose_error(error), Some(BlockingReason::NetworkTimeout));
}

#[test]
fn test_geo_detection() {
    let error = "Video not available in your country";
    assert_eq!(diagnose_error(error), Some(BlockingReason::GeoBlocked));
}

#[test]
fn test_drm_detection() {
    let error = "This video is DRM protected";
    assert_eq!(diagnose_error(error), Some(BlockingReason::DrmProtected));
}

#[test]
fn test_drm_widevine_detection() {
    let error = "Widevine encrypted content cannot be downloaded";
    assert_eq!(diagnose_error(error), Some(BlockingReason::DrmProtected));
}

#[test]
fn test_drm_premium_detection() {
    let error = "This video requires YouTube Premium";
    assert_eq!(diagnose_error(error), Some(BlockingReason::DrmProtected));
}

#[test]
fn test_drm_purchase_detection() {
    let error = "This video requires purchase to watch";
    assert_eq!(diagnose_error(error), Some(BlockingReason::DrmProtected));
}

#[test]
fn test_members_only_detection() {
    let error = "This video is available to members only";
    assert_eq!(diagnose_error(error), Some(BlockingReason::MembersOnly));
}

#[test]
fn test_drm_is_permanent() {
    assert!(BlockingReason::DrmProtected.is_permanent());
    assert!(BlockingReason::VideoUnavailable.is_permanent());
    assert!(!BlockingReason::Http403Forbidden.is_permanent());
}

#[test]
fn test_drm_has_explanation() {
    assert!(BlockingReason::DrmProtected.user_explanation().is_some());
    assert!(BlockingReason::MembersOnly.user_explanation().is_some());
    assert!(BlockingReason::Http403Forbidden.user_explanation().is_none());
}

#[test]
fn drm_keywords_always_win() {
    for text in ["drm", "WIDEVINE stream", "This title requires purchase", "rental only", "PlayReady 403 forbidden timeout"] {
        let r = diagnose_error(text);
        assert_eq!(r, Some(BlockingReason::DrmProtected), "{}", text);
        let reason = r.unwrap();
        assert!(reason.is_permanent());
        assert!(reason.user_explanation().is_some());
    }
}

#[test]
fn empty_message_has_no_reason() {
    assert_eq!(diagnose_error(""), None);
    assert_eq!(diagnose_lowercase("", true), None);
}

#[test]
fn unmatched_text_is_unknown() {
    assert_eq!(diagnose_error("something odd happened"), Some(BlockingReason::Unknown));
}

#[test]
fn plain_403_diagnosis() {
    let r = diagnose_error("HTTP Error 403: Forbidden").unwrap();
    assert_eq!(r, BlockingReason::Http403Forbidden);
    let d = BlockingDiagnostics::new(r, None);
    assert_eq!(d.severity, 2);
    assert!(d.recommend_cookies);
    assert!(d.recommend_proxy);
    assert!(r.cookies_might_help());
    assert!(r.proxy_might_help());
    assert_eq!(r.severity(), 2);
}

#[test]
fn lowercase_input_is_classified_exactly() {
    assert_eq!(diagnose_lowercase("too many requests", false), Some(BlockingReason::RateLimited));
    assert_eq!(diagnose_lowercase("captcha required", false), Some(BlockingReason::BotDetection));
    assert_eq!(diagnose_lowercase("private video", false), Some(BlockingReason::PrivateVideo));
    assert_eq!(diagnose_lowercase("video unavailable", false), Some(BlockingReason::VideoUnavailable));
    assert_eq!(diagnose_lowercase("connection refused", false), Some(BlockingReason::NetworkTimeout));
    assert_eq!(diagnose_lowercase("CAPTCHA", false), Some(BlockingReason::Unknown));
}

#[test]
fn severities_and_descriptions() {
    assert_eq!(BlockingReason::DrmProtected.severity(), 5);
    assert_eq!(BlockingReason::GeoBlocked.severity(), 4);
    assert_eq!(BlockingReason::SabrStreaming.severity(), 3);
    assert_eq!(BlockingReason::NetworkTimeout.severity(), 1);
    assert_eq!(BlockingReason::Http403Forbidden.description(), "Access denied (HTTP 403)");
    assert_eq!(BlockingReason::VideoUnavailable.user_explanation(), Some("This video has been removed or is no longer available."));
}

#[test]
fn analysis_reports_context_and_markers() {
    let d = analyze_error("WARNING: slow\n  ERROR: HTTP Error 403: Forbidden  \r\nmore");
    assert_eq!(d.reason, BlockingReason::Http403Forbidden);
    assert_eq!(d.context.as_deref(), Some("ERROR: HTTP Error 403: Forbidden"));
    assert_eq!(d.matched_patterns, vec!["403".to_string(), "forbidden".to_string()]);
    assert!(d.recommend_audio_only);
    let e = analyze_error("");
    assert_eq!(e.reason, BlockingReason::Unknown);
    assert!(e.context.is_none());
    assert!(e.matched_patterns.is_empty());
}
