use youtube_downloader::download::{
    build_download_args, failure_message, short_detail_of, format_arg, is_youtube, DownloadRequest, DownloadSession, ProgressEvent, Step,
};

fn request(url: &str, quality: &str, cookies_from_browser: bool, allow_fallback: bool) -> DownloadRequest {
    DownloadRequest {
        url: url.to_string(),
        quality: quality.to_string(),
        codec: "h264".to_string(),
        output_path: "/tmp/out".to_string(),
        proxy: None,
        cookies_from_browser,
        cookies_path: None,
        allow_fallback,
    }
}

/// Runs a session; `outcome` says for each attempt (client, audio) whether it succeeds,
/// else the error text it fails with.
fn drive(
    req: DownloadRequest,
    mut outcome: impl FnMut(&str, bool) -> Result<(), String>,
) -> (Vec<ProgressEvent>, Vec<String>, Result<String, String>) {
    let mut session = DownloadSession::new(req);
    let mut events = Vec::new();
    let mut clients = Vec::new();
    let mut adv = session.start();
    loop {
        events.extend(adv.events);
        match adv.step {
            Step::Run(attempt) => {
                clients.push(attempt.client.clone());
                adv = match outcome(&attempt.client, attempt.force_audio) {
                    Ok(()) => session.on_success(),
                    Err(e) => session.on_failure(e),
                };
            }
            Step::Finished(result) => return (events, clients, result),
        }
    }
}

#[test]
fn fallback_to_android_succeeds() {
    let req = request("https://youtu.be/abc", "720p", true, true);
    let (events, clients, result) = drive(req, |client, _| {
        if client == "android" { Ok(()) } else { Err("ERROR: HTTP Error 403: Forbidden".to_string()) }
    });
    let msg = result.unwrap();
    assert!(msg.contains("android"));
    assert_eq!(clients, vec!["web,web_safari,ios", "web,web_safari", "android"]);
    assert!(events.len() >= 4);
    assert!(events.iter().any(|e| e.status.contains("Strategy 3")));
    assert_eq!(events.iter().filter(|e| e.percent_tenths == 1000).count(), 1);
    assert_eq!(events.last().unwrap().percent_tenths, 1000);
}

#[test]
fn audio_phase_success_ends_the_download() {
    let req = request("https://www.youtube.com/watch?v=x", "720p", false, true);
    let (events, clients, result) = drive(req, |_, audio| {
        if audio { Ok(()) } else { Err("HTTP Error 403: Forbidden".to_string()) }
    });
    assert!(result.is_ok());
    assert_eq!(clients, vec!["web,web_safari,ios", "android", "tv", "web", "web,web_safari"]);
    assert_eq!(events.iter().filter(|e| e.percent_tenths == 1000).count(), 1);
    assert!(events.last().unwrap().status.contains("audio"));
}

#[test]
fn non_retryable_failure_leaves_the_phase() {
    let req = request("https://www.youtube.com/watch?v=x", "720p", false, true);
    let (_, clients, result) = drive(req, |_, _| Err("Sign in to confirm your age".to_string()));
    assert_eq!(clients, vec!["web,web_safari,ios", "android", "web,web_safari"]);
    let err = result.unwrap_err();
    assert!(err.starts_with("yt-dlp download failed."));
    assert!(err.contains("Age-restricted content"));
    assert!(err.contains("Sign in to confirm your age"));
}

#[test]
fn missing_quality_retries_at_best() {
    let req = request("https://example.com/v", "1080p", false, true);
    let (events, clients, result) = drive(req, |client, audio| {
        let _ = client;
        if audio { Ok(()) } else { Err("Requested format is not available".to_string()) }
    });
    assert!(result.is_ok());
    assert_eq!(clients, vec!["web", "web,web_safari", "web", "web,web_safari", "web"]);
    assert!(events.iter().any(|e| e.status.contains("Quality not available")));
}

#[test]
fn without_fallback_one_attempt() {
    let req = request("https://youtu.be/abc", "best", true, false);
    let (events, clients, result) = drive(req, |_, _| Err("boom".to_string()));
    assert_eq!(clients, vec!["web,web_safari,ios"]);
    assert_eq!(events[0].status, "Single attempt: yt-dlp (web+web_safari+ios)");
    let err = result.unwrap_err();
    assert!(err.contains("yt-dlp failed (fallback off): boom"));
}

#[test]
fn attempt_notice_text() {
    let req = request("https://youtu.be/abc", "720p", false, true);
    let session = DownloadSession::new(req);
    let adv = session.start();
    assert_eq!(adv.events.len(), 2);
    assert_eq!(adv.events[1].status, "\u{1F3AC} \u{1F513} client=web,web_safari,ios | attempt 1/1");
}

#[test]
fn arguments_and_formats() {
    let mut req = request("https://youtu.be/abc", "audio", true, true);
    req.proxy = Some("socks5h://127.0.0.1:1080".to_string());
    let args = build_download_args(&req, true, "android", "ba/b", true, false);
    assert_eq!(args[0], "-f");
    assert_eq!(args[1], "ba/b");
    assert!(args.contains(&"--cookies-from-browser".to_string()));
    assert!(args.contains(&"youtube:player_client=android".to_string()));
    assert!(args.contains(&"socks5h://127.0.0.1:1080".to_string()));
    assert!(args.contains(&"-x".to_string()));
    assert_eq!(args.last().unwrap(), "https://youtu.be/abc");
    assert_eq!(format_arg("720p", "h264"), "bv*[height<=720][vcodec^=avc1]+ba[acodec^=mp4a]/bv*[height<=720]+ba/best");
    assert_eq!(format_arg("720p", "vp9"), "bv*[height<=720]+ba/best");
    assert!(is_youtube("HTTPS://WWW.YOUTUBE.COM/x"));
    assert!(!is_youtube("https://vimeo.com/1"));
}

#[test]
fn failure_message_with_proxy() {
    let m = failure_message("", "HTTP Error 429", &Some("socks5h://127.0.0.1:1080".to_string()));
    assert!(m.contains("Rate limited by YouTube"));
    assert!(m.contains("Proxy in use: socks5h://127.0.0.1:1080"));
    let n = failure_message("", "", &None);
    assert_eq!(n, "yt-dlp download failed.\n\nDetails:\n");
}

#[test]
fn failure_detail_is_short() {
    let err = "[youtube] abc: Downloading webpage\nWARNING: noise\n  ERROR: [youtube] abc: HTTP Error 403: Forbidden  \nmore noise\nERROR: unable to download video data\nERROR: third\nERROR: fourth";
    assert_eq!(short_detail_of(err), "ERROR: [youtube] abc: HTTP Error 403: Forbidden | ERROR: unable to download video data | ERROR: third");
    assert_eq!(short_detail_of("a\nb\nc\nd"), "a | b | c");
    let m = failure_message("pre: ", err, &None);
    assert!(m.contains("Access denied (HTTP 403)"));
    assert!(m.ends_with("Details:\npre: ERROR: [youtube] abc: HTTP Error 403: Forbidden | ERROR: unable to download video data | ERROR: third"));
    assert!(!m.contains("fourth"));
}
