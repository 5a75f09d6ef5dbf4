use youtube_downloader::info::module_info_arguments;
use youtube_downloader::metadata::{detect_restriction, extract_format_options, RawFormat, RestrictionInfo, VideoJson};
use youtube_downloader::info::{formats_outcome, list_formats_args, build_info_args, build_video_info, first_lines, format_duration, info_failure_message, info_strategy_list, standard_formats};
use youtube_downloader::models::{ContentRestriction, RestrictionType};

fn raw(vcodec: &str, acodec: &str, w: u64, h: u64, size: u64) -> RawFormat {
    RawFormat {
        vcodec: Some(vcodec.to_string()),
        acodec: Some(acodec.to_string()),
        width: Some(w),
        height: Some(h),
        filesize: Some(size),
        filesize_approx: None,
        protocol: Some("https".to_string()),
        url: Some("https://cdn/x".to_string()),
        drm: false,
        has_drm: false,
        drm_scheme: false,
    }
}

fn doc(formats: Option<Vec<RawFormat>>) -> VideoJson {
    VideoJson {
        title: Some("Clip".to_string()),
        uploader: None,
        thumbnail: None,
        duration_secs: 125,
        availability: None,
        age_limit: None,
        categories: vec![],
        description: None,
        extractor: Some("youtube".to_string()),
        is_paid_video: false,
        requires_payment: false,
        paid_content: false,
        is_premium: false,
        requires_premium: false,
        subscriber_only: false,
        is_member_only: false,
        formats,
    }
}

#[test]
fn format_menu() {
    let fs = vec![
        raw("avc1", "none", 1920, 1080, 100_000_000),
        raw("vp9", "none", 1280, 720, 40_000_000),
        raw("none", "mp4a", 0, 0, 5_000_000),
    ];
    let opts = extract_format_options(&Some(fs));
    let labels: Vec<&str> = opts.iter().map(|o| o.label.as_str()).collect();
    assert_eq!(labels, vec!["Best Quality (1920x1080)", "1080p (1920x1080)", "720p (1280x720)", "Audio Only (MP3)"]);
    assert_eq!(opts[0].size.as_deref(), Some("100 MB"));
    assert_eq!(opts[2].size.as_deref(), Some("43 MB"));
    assert_eq!(opts[3].size.as_deref(), Some("5 MB"));
    assert!(extract_format_options(&None).is_empty());
}

#[test]
fn restrictions() {
    let plain = detect_restriction(&doc(Some(vec![raw("avc1", "mp4a", 1, 1, 1)])));
    assert_eq!(plain.restriction_type, "none");
    assert!(plain.is_downloadable);
    let no_formats = detect_restriction(&doc(None));
    assert_eq!(no_formats.restriction_type, "drm");
    assert_eq!(no_formats.message, "\u{1F512} This video is DRM-protected and cannot be downloaded.");
    let mut aged = doc(None);
    aged.age_limit = Some(18);
    assert_eq!(detect_restriction(&aged).restriction_type, "age_restricted");
    let mut movie = doc(Some(vec![raw("avc1", "mp4a", 1, 1, 1)]));
    movie.categories = vec!["Movies".to_string()];
    assert_eq!(detect_restriction(&movie).restriction_type, "paid");
    let mut members = doc(Some(vec![raw("avc1", "mp4a", 1, 1, 1)]));
    members.description = Some("For Members Only".to_string());
    let m = detect_restriction(&members);
    assert_eq!(m.restriction_type, "members_only");
    assert!(m.is_downloadable);
    let mut premium = doc(Some(vec![raw("avc1", "mp4a", 1, 1, 1)]));
    premium.title = Some("Premium concert".to_string());
    assert_eq!(detect_restriction(&premium).restriction_type, "premium");
    assert_eq!(RestrictionInfo::drm("movie").suggestions.len(), 3);
}

#[test]
fn only_permanent_restrictions_block_downloads() {
    for r in [ContentRestriction::none(), ContentRestriction::drm("video"), ContentRestriction::premium(),
        ContentRestriction::members_only("a"), ContentRestriction::paid_content(), ContentRestriction::age_restricted()] {
        assert_eq!(r.is_downloadable, !r.restriction_type.is_permanent());
    }
    assert!(RestrictionType::GeoBlocked.has_workaround());
    assert!(!RestrictionType::Drm.has_workaround());
}

#[test]
fn video_record() {
    let v = build_video_info(&doc(Some(vec![raw("avc1", "mp4a", 640, 360, 0)])));
    assert_eq!(v.title, "Clip");
    assert_eq!(v.uploader, "Unknown");
    assert_eq!(v.thumbnail, "");
    assert_eq!(v.duration, "2:05");
    assert_eq!(v.formats.len(), 3);
    assert_eq!(v.restriction.restriction_type, "none");
    assert_eq!(format_duration(3600), "60:00");
    assert_eq!(format_duration(9), "0:09");
}

#[test]
fn info_attempts() {
    let s = info_strategy_list("https://youtu.be/x");
    assert_eq!(s, vec![("web,web_safari,ios".to_string(), false), ("web,web_safari".to_string(), true), ("web".to_string(), true)]);
    assert_eq!(info_strategy_list("https://vimeo.com/1"), vec![("web".to_string(), true)]);
    let a = build_info_args("u", "web", true, &Some("c.txt".to_string()), true, &None);
    assert_eq!(a[10], "youtube:player_client=web");
    assert_eq!(a[11], "u");
    assert_eq!(&a[12..], &["--cookies".to_string(), "c.txt".to_string()]);
    let b = build_info_args("u", "web", false, &None, true, &Some("p".to_string()));
    assert_eq!(&b[12..], &["--proxy".to_string(), "p".to_string()]);
}

#[test]
fn info_failure_text() {
    let m = info_failure_message("ERROR: a\nb\r\nc\nd", &None);
    assert!(m.starts_with("Unknown blocking reason\n\nUnknown error."));
    assert!(m.ends_with("\n\nDetails: ERROR: a | b | c"));
    assert_eq!(info_failure_message("", &None), "yt-dlp info failed: ");
    assert_eq!(first_lines("one"), "one");
    assert_eq!(standard_formats().len(), 5);
}

#[test]
fn module_info_arguments_list() {
    let a = module_info_arguments("u", &Some("p".to_string()), true, &None);
    assert_eq!(&a[10..], &["youtube:player_client=web,web_safari,ios", "u", "--cookies-from-browser", "chrome", "--proxy", "p"]);
}

#[test]
fn format_menu_prefers_h264() {
    let fs = vec![
        raw("vp9", "none", 1920, 1080, 150_000_000),
        raw("avc1.640028", "none", 1920, 1080, 100_000_000),
        raw("vp9", "none", 3840, 2160, 400_000_000),
    ];
    let opts = extract_format_options(&Some(fs));
    assert_eq!(opts[0].label, "Best Quality (3840x2160)");
    assert_eq!(opts[1].label, "1080p (1920x1080)");
    assert_eq!(opts[1].size.as_deref(), Some("95 MB"));
    let gs = vec![raw("vp9", "none", 1920, 1080, 150_000_000), raw("avc1", "none", 1920, 1080, 100_000_000)];
    let o = extract_format_options(&Some(gs));
    assert_eq!(o[0].size.as_deref(), Some("95 MB"));
}

#[test]
fn format_listing() {
    assert_eq!(list_formats_args("u"), vec!["--list-formats", "--cookies-from-browser", "chrome", "u"]);
    assert_eq!(formats_outcome(true, "").unwrap().len(), 5);
    assert_eq!(formats_outcome(false, "boom").unwrap_err(), "yt-dlp error: boom");
}
