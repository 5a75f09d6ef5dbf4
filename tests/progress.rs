use youtube_downloader::progress::{parse_percent, parse_ytdlp_progress, progress_from_matches};

#[test]
fn progress_line_with_fragments() {
    let e = parse_ytdlp_progress("[download]   6.2% of ~ 343.72MiB at  420.30KiB/s ETA 12:32 (frag 29/454)").unwrap();
    assert_eq!(e.percent_tenths, 62);
    assert_eq!(e.status, "\u{2B07}\u{FE0F} 6.2% of 343.72MiB @ 420.30KiB/s ETA 12:32 (frag 29/454)");
}

#[test]
fn progress_line_without_fragments() {
    let e = parse_ytdlp_progress("[download]  45.0% of 10.00MiB at 1.00MiB/s ETA 00:05").unwrap();
    assert_eq!(e.percent_tenths, 450);
    assert_eq!(e.status, "\u{2B07}\u{FE0F} 45.0% of 10.00MiB @ 1.00MiB/s ETA 00:05");
}

#[test]
fn other_line_shapes() {
    let d = parse_ytdlp_progress("[download] Destination: /home/me/Videos/My clip.mp4").unwrap();
    assert_eq!(d.percent_tenths, 0);
    assert_eq!(d.status, "\u{1F4E5} Starting: My clip.mp4...");
    let m = parse_ytdlp_progress("[Merger] Merging formats into \"x.mp4\"").unwrap();
    assert_eq!(m.percent_tenths, 990);
    let a = parse_ytdlp_progress("[download] x.mp4 has already been downloaded").unwrap();
    assert_eq!(a.percent_tenths, 1000);
    assert!(parse_ytdlp_progress("[youtube] Extracting URL").is_none());
}

#[test]
fn percent_texts() {
    assert_eq!(parse_percent("12.5"), Some(125));
    assert_eq!(parse_percent("100"), Some(1000));
    assert_eq!(parse_percent("3.46"), Some(35));
    assert_eq!(parse_percent("7."), Some(70));
    assert_eq!(parse_percent(".5"), None);
    assert_eq!(parse_percent("1a"), None);
}

#[test]
fn events_from_given_matches() {
    let caps = Some(vec![Some("all".to_string()), Some("50".to_string()), Some("1MiB".to_string()), Some("2KiB/s".to_string()), None, None, None]);
    let e = progress_from_matches(&caps, &None, true, true).unwrap();
    assert_eq!(e.percent_tenths, 500);
    assert_eq!(e.status, "\u{2B07}\u{FE0F} 50.0% of 1MiB @ 2KiB/s");
    let long = "a/".to_string() + &"x".repeat(60);
    let d = progress_from_matches(&None, &Some(vec![Some("l".to_string()), Some(long)]), false, false).unwrap();
    assert_eq!(d.status, format!("\u{1F4E5} Starting: {}...", "x".repeat(50)));
    assert!(progress_from_matches(&None, &None, false, false).is_none());
}
