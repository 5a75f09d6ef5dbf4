use youtube_downloader::errors::DownloadError;
use youtube_downloader::backends::{LuxBackend, YouGetBackend};

#[test]
fn platform_timeout_is_a_block() {
    let e = DownloadError::from_text("Connection timeout while contacting youtube.com".to_string());
    assert!(matches!(e, DownloadError::BlockedByYouTube));
    let g = DownloadError::from_text("request timed out".to_string());
    assert!(matches!(g, DownloadError::NetworkTimeout));
    let d = DownloadError::from_text("DRM timeout youtube.com".to_string());
    assert!(matches!(d, DownloadError::DrmProtected(ref k) if k == "video"));
}

#[test]
fn error_taxonomy() {
    assert!(matches!(DownloadError::from_text("Widevine music".to_string()), DownloadError::DrmProtected(ref k) if k == "YouTube Music track"));
    assert!(matches!(DownloadError::from_text("join this channel".to_string()), DownloadError::MembersOnly(ref c) if c == "a"));
    assert!(matches!(DownloadError::from_text("HTTP 429".to_string()), DownloadError::BlockedByYouTube));
    assert!(matches!(DownloadError::from_text("socket closed".to_string()), DownloadError::NetworkError(ref s) if s == "socket closed"));
    assert!(matches!(DownloadError::from_text("yt-dlp: command not found".to_string()), DownloadError::ToolNotFound(_)));
    assert!(matches!(DownloadError::from_text("bad JSON".to_string()), DownloadError::ParseError(_)));
    assert!(matches!(DownloadError::from_text("site unsupported".to_string()), DownloadError::UnsupportedUrl(_)));
    assert!(matches!(DownloadError::from_text("Invalid URL given".to_string()), DownloadError::InvalidUrl(_)));
    assert!(matches!(DownloadError::from_text("weird".to_string()), DownloadError::Unknown(ref s) if s == "weird"));
}

#[test]
fn alternative_tool_errors() {
    assert!(matches!(LuxBackend::parse_lux_error("cipher not found", "https://youtu.be/x"), DownloadError::UnsupportedUrl(_)));
    assert!(matches!(LuxBackend::parse_lux_error("operation timed out", "https://youtu.be/x"), DownloadError::NetworkError(_)));
    assert!(matches!(LuxBackend::parse_lux_error("timeout", "https://vimeo.com/x"), DownloadError::NetworkTimeout));
    assert!(matches!(LuxBackend::parse_lux_error("other", "u"), DownloadError::Unknown(ref s) if s == "other"));
    assert!(matches!(YouGetBackend::parse_youget_error("oops, something went wrong", "https://youtu.be/x"), DownloadError::UnsupportedUrl(_)));
    assert!(matches!(YouGetBackend::parse_youget_error("Connection refused", "https://vimeo.com/x"), DownloadError::NetworkError(ref s) if s.starts_with("Connection refused")));
    assert!(matches!(YouGetBackend::parse_youget_error("HTTP 403", "u"), DownloadError::NetworkError(_)));
    let y = YouGetBackend::new("you-get".to_string(), Some("127.0.0.1:8080".to_string()));
    assert_eq!(y.get_proxy_args(), vec!["-x".to_string(), "127.0.0.1:8080".to_string()]);
    assert!(LuxBackend::is_youtube_url("https://youtu.be/x"));
    assert!(!YouGetBackend::is_youtube_url("https://YOUTUBE.com/x"));
}

#[test]
fn error_texts() {
    assert_eq!(DownloadError::ParseError("x".to_string()).message(), "Parse error: x");
    assert_eq!(DownloadError::NetworkTimeout.message(), "Network timeout: YouTube is not responding");
    assert!(DownloadError::DrmProtected("movie".to_string()).message().contains("This movie is protected by DRM"));
    assert!(DownloadError::MembersOnly("a".to_string()).message().contains("This video requires a channel membership."));
}
