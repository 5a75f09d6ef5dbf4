use youtube_downloader::extractors::{CliInfoExtractor, ExtractorConfig, ExtractorMode, InfoExtractorOrchestrator, PythonInfoExtractor};
use youtube_downloader::diagnostics::BlockingReason;
use youtube_downloader::tools::{update_command, ToolManager, ToolType};
use youtube_downloader::extractors::{stream_kinds, ExtendedVideoInfo, ExtractAction, ExtractStage};

#[test]
fn config_builders() {
    let c = ExtractorConfig::new()
        .with_proxy(Some("p".to_string()))
        .with_cookies_path(Some("c".to_string()))
        .with_cookies_from_browser(false)
        .with_mode(ExtractorMode::Cli)
        .with_timeout(10)
        .with_player_client(Some("tv".to_string()));
    assert_eq!(c.mode, ExtractorMode::Cli);
    assert_eq!(c.timeout_seconds, 10);
    assert_eq!(c.player_client.as_deref(), Some("tv"));
    assert!(!c.cookies_from_browser);
    assert_eq!(ExtractorMode::Auto.as_str(), "auto");
}

#[test]
fn extractor_arguments() {
    let cli = CliInfoExtractor::new("yt-dlp".to_string());
    let cfg = ExtractorConfig::new();
    let a = cli.build_args("https://youtube.com/watch?v=1", &cfg, "android");
    assert_eq!(a[4], "30");
    assert_eq!(a[9], "--extractor-args");
    assert_eq!(a[10], "youtube:player_client=android");
    assert_eq!(&a[11..13], &["--cookies-from-browser".to_string(), "chrome".to_string()]);
    let b = cli.build_args("https://vimeo.com/1", &cfg, "android");
    assert_eq!(b[9], "--cookies-from-browser");
    let py = PythonInfoExtractor::new("python3".to_string());
    let p = py.build_args("u", &cfg.clone().with_cookies_from_browser(false));
    assert_eq!(p, vec!["-m", "yt_dlp", "--dump-json", "--no-playlist", "--no-warnings", "--socket-timeout", "30", "--retries", "2", "--extractor-args", "youtube:player_client=web", "u"]);
    assert_eq!(CliInfoExtractor::clients_for("https://youtu.be/x", &cfg), vec!["web", "android"]);
    assert_eq!(CliInfoExtractor::clients_for("https://youtu.be/x", &cfg.clone().with_cookies_from_browser(false)), vec!["android", "tv", "web"]);
}

#[test]
fn backend_choice() {
    let o = InfoExtractorOrchestrator::new(PythonInfoExtractor::new("python3".to_string()), CliInfoExtractor::new("yt-dlp".to_string()), false, true);
    assert_eq!(o.recommend_mode("https://youtube.com/x"), ExtractorMode::Cli);
    assert_eq!(o.recommend_mode("https://vimeo.com/x"), ExtractorMode::Cli);
    assert_eq!(o.get_status().recommended_mode, ExtractorMode::Cli);
    assert_eq!(InfoExtractorOrchestrator::auto_order("https://youtu.be/x"), (ExtractorMode::Python, ExtractorMode::Cli));
    assert!(o.suggest_for_reason(&Some(BlockingReason::Http403Forbidden)).unwrap().starts_with("YouTube returned 403"));
    assert!(o.suggest_for_reason(&None).is_none());
}

#[test]
fn tool_records() {
    let m = ToolManager::new();
    let i = m.get_tool_info(ToolType::Lux, Some("/usr/bin/lux".to_string()), None);
    assert_eq!(i.name, "lux");
    assert!(i.is_available);
    assert_eq!(ToolType::from_name("you-get"), Some(ToolType::YouGet));
    assert_eq!(ToolType::from_name("x"), None);
    assert_eq!(ToolType::Lux.version_flag(), "-v");
    let paths = m.candidate_paths(ToolType::YtDlp, Some("/home/u"));
    assert_eq!(paths[3], "/home/u/.local/bin/yt-dlp");
    let all = m.get_all_tools(vec![(None, None), (Some("l".to_string()), Some("1".to_string())), (None, None)]);
    assert!(!all[0].is_available && all[1].is_available && !all[2].is_available);
}

#[test]
fn update_commands() {
    assert_eq!(update_command(ToolType::Lux, true), ("brew".to_string(), vec!["upgrade".to_string(), "annie".to_string()]));
    assert_eq!(update_command(ToolType::YtDlp, false).0, "pip3");
    assert_eq!(update_command(ToolType::YouGet, true).1, vec!["install", "-U", "you-get"]);
}

#[test]
fn stream_kinds_and_record_defaults() {
    assert_eq!(stream_kinds(&Some("avc1".to_string()), &Some("none".to_string())), (true, false));
    assert_eq!(stream_kinds(&Some("none".to_string()), &Some("opus".to_string())), (false, true));
    assert_eq!(stream_kinds(&None, &None), (false, false));
    assert_eq!(stream_kinds(&Some("vp9".to_string()), &None), (true, false));
    let r = ExtendedVideoInfo::from_fields(None, None, Some("u".to_string()), 5, None, None, vec![]);
    assert_eq!(r.id, "unknown");
    assert_eq!(r.title, "Unknown");
    assert_eq!(r.uploader, "u");
}

#[test]
fn extractor_failure_reports() {
    use_orchestrator_reports();
}

fn use_orchestrator_reports() {
    let o = InfoExtractorOrchestrator::new(PythonInfoExtractor::new("python3".to_string()), CliInfoExtractor::new("yt-dlp".to_string()), true, true);
    let r = o.failure_result(youtube_downloader::errors::DownloadError::NetworkError("HTTP Error 403".to_string()), ExtractorMode::Cli, true);
    assert_eq!(r.blocking_reason, Some(BlockingReason::Http403Forbidden));
    assert!(r.suggestion.unwrap().starts_with("YouTube returned 403 Forbidden"));
    assert!(r.tried_fallback);
    let m = InfoExtractorOrchestrator::missing_result(ExtractorMode::Python);
    assert_eq!(m.suggestion.as_deref(), Some("Install yt-dlp: pip3 install yt-dlp"));
    assert!(m.blocking_reason.is_none());
}

#[test]
fn extraction_steps() {
    let both = InfoExtractorOrchestrator::new(PythonInfoExtractor::new("p".to_string()), CliInfoExtractor::new("c".to_string()), true, true);
    let yt = "https://youtu.be/x";
    assert_eq!(both.extract_step(yt, ExtractorMode::Auto, ExtractStage::Start), ExtractAction::Run(ExtractorMode::Python));
    assert_eq!(both.extract_step(yt, ExtractorMode::Auto, ExtractStage::RanFirst { succeeded: false }), ExtractAction::Run(ExtractorMode::Cli));
    assert_eq!(both.extract_step(yt, ExtractorMode::Auto, ExtractStage::RanFallback { succeeded: false }),
        ExtractAction::ReportFailure { mode: ExtractorMode::Cli, tried_fallback: true });
    assert_eq!(both.extract_step("https://vimeo.com/1", ExtractorMode::Auto, ExtractStage::Start), ExtractAction::Run(ExtractorMode::Cli));
    assert_eq!(both.extract_step(yt, ExtractorMode::Auto, ExtractStage::RanFirst { succeeded: true }), ExtractAction::Done);
    let none = InfoExtractorOrchestrator::new(PythonInfoExtractor::new("p".to_string()), CliInfoExtractor::new("c".to_string()), false, false);
    assert_eq!(none.extract_step(yt, ExtractorMode::Auto, ExtractStage::Start), ExtractAction::ReportMissing(ExtractorMode::Auto));
    assert_eq!(none.extract_step(yt, ExtractorMode::Cli, ExtractStage::Start), ExtractAction::ReportMissing(ExtractorMode::Cli));
    assert_eq!(both.extract_step(yt, ExtractorMode::Cli, ExtractStage::RanFirst { succeeded: false }),
        ExtractAction::ReportFailure { mode: ExtractorMode::Cli, tried_fallback: false });
}
