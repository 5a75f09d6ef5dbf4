use youtube_downloader::format_selector::{ExtendedFormat, FormatSelector, format_size, find_by_height};

fn make_video_format(height: u32, vcodec: &str, size: u64) -> ExtendedFormat {
    ExtendedFormat {
        format_id: format!("{}p", height),
        ext: "mp4".to_string(),
        resolution: Some(format!("{}x{}", height * 16 / 9, height)),
        width: Some(height * 16 / 9),
        height: Some(height),
        fps: Some(3000),
        vcodec: Some(vcodec.to_string()),
        acodec: Some("none".to_string()),
        filesize: Some(size),
        filesize_approx: None,
        tbr: None,
        abr: None,
        vbr: None,
        format_note: None,
        video_only: true,
        audio_only: false,
    }
}

fn make_audio_format(bitrate: f32, size: u64) -> ExtendedFormat {
    ExtendedFormat {
        format_id: "audio".to_string(),
        ext: "m4a".to_string(),
        resolution: None,
        width: None,
        height: None,
        fps: None,
        vcodec: Some("none".to_string()),
        acodec: Some("mp4a.40.2".to_string()),
        filesize: Some(size),
        filesize_approx: None,
        tbr: None,
        abr: Some((bitrate * 100.0) as u32),
        vbr: None,
        format_note: None,
        video_only: false,
        audio_only: true,
    }
}

#[test]
fn test_quality_options_generation() {
    let formats = vec![
        make_video_format(1080, "avc1.4d401f", 100_000_000),
        make_video_format(720, "avc1.4d401e", 50_000_000),
        make_video_format(480, "avc1.4d401e", 25_000_000),
        make_audio_format(128.0, 5_000_000),
    ];

    let options = FormatSelector::build_quality_options(&formats);

    assert!(options.len() >= 3);
    assert_eq!(options[0].value, "best");
    assert!(options.last().unwrap().is_audio);
}

#[test]
fn test_h264_preference() {
    let formats = vec![
        make_video_format(1080, "vp9", 150_000_000),
        make_video_format(1080, "avc1.4d401f", 100_000_000),
    ];

    let refs: Vec<&ExtendedFormat> = formats.iter().collect();
    let best = FormatSelector::find_best_video(&refs);

    assert!(best.is_some());
    assert!(best.unwrap().is_h264());
}

#[test]
fn much_taller_other_codec_wins() {
    let formats = vec![
        make_video_format(2160, "vp9", 400_000_000),
        make_video_format(1080, "avc1.4d401f", 100_000_000),
    ];
    let refs: Vec<&ExtendedFormat> = formats.iter().collect();
    let best = FormatSelector::find_best_video(&refs).unwrap();
    assert_eq!(best.height, Some(2160));
    let formats = vec![
        make_video_format(1440, "vp9", 400_000_000),
        make_video_format(1080, "avc1.4d401f", 100_000_000),
    ];
    let refs: Vec<&ExtendedFormat> = formats.iter().collect();
    assert_eq!(FormatSelector::find_best_video(&refs).unwrap().height, Some(1080));
}

#[test]
fn options_list_is_exact() {
    let formats = vec![
        make_video_format(1080, "avc1.4d401f", 100_000_000),
        make_video_format(720, "vp9.0", 50_000_000),
        make_audio_format(128.0, 5_000_000),
    ];
    let options = FormatSelector::build_quality_options(&formats);
    let values: Vec<&str> = options.iter().map(|o| o.value.as_str()).collect();
    assert_eq!(values, vec!["best", "720p", "audio"]);
    assert_eq!(options[0].label, "Best Quality (1920x1080)");
    assert_eq!(options[0].estimated_size.as_deref(), Some("100 MB"));
    assert_eq!(options[0].codec_info.as_deref(), Some("H.264"));
    assert!(options[0].is_recommended);
    assert_eq!(options[1].label, "720p (1280x720)");
    assert_eq!(options[1].codec_info.as_deref(), Some("VP9"));
    assert_eq!(options[1].format_spec, "bv*[height<=720]+ba/b[height<=720]/bv*+ba/best");
    assert_eq!(options[1].estimated_size.as_deref(), Some("52 MB"));
    assert_eq!(options[2].estimated_size.as_deref(), Some("5 MB"));
    assert_eq!(options[2].bitrate, Some(12800));
    assert_eq!(options[2].codec_info.as_deref(), Some("mp4a.40.2"));
}

#[test]
fn building_twice_gives_the_same_options() {
    let formats = vec![
        make_video_format(1080, "avc1.4d401f", 100_000_000),
        make_video_format(1080, "vp9", 150_000_000),
        make_video_format(360, "av01.0", 9_000_000),
        make_audio_format(64.0, 1_000_000),
    ];
    let a = FormatSelector::build_quality_options(&formats);
    let b = FormatSelector::build_quality_options(&formats);
    assert_eq!(format!("{:?}", a), format!("{:?}", b));
}

#[test]
fn empty_list_gives_best_and_audio_placeholders() {
    let options = FormatSelector::build_quality_options(&[]);
    assert_eq!(options.len(), 2);
    assert_eq!(options[0].label, "Best Quality");
    assert!(options[0].estimated_size.is_none());
    assert!(options[1].is_audio && options[1].estimated_size.is_none());
}

#[test]
fn size_texts() {
    assert_eq!(format_size(None), None);
    assert_eq!(format_size(Some(0)).as_deref(), Some("0 MB"));
    assert_eq!(format_size(Some(100_000_000)).as_deref(), Some("95 MB"));
    assert_eq!(format_size(Some(1_073_741_824)).as_deref(), Some("1.0 GB"));
    assert_eq!(format_size(Some(1_610_612_736)).as_deref(), Some("1.5 GB"));
    assert_eq!(format_size(Some(524_288)).as_deref(), Some("0 MB"));
    assert_eq!(format_size(Some(1_572_864)).as_deref(), Some("2 MB"));
}

#[test]
fn band_search_prefers_h264() {
    let formats = vec![
        make_video_format(700, "vp9", 90_000_000),
        make_video_format(720, "avc1.4d401e", 10_000_000),
        make_video_format(1080, "avc1.4d401e", 10_000_000),
    ];
    let refs: Vec<&ExtendedFormat> = formats.iter().collect();
    assert_eq!(find_by_height(&refs, 720).unwrap().height, Some(720));
    assert!(find_by_height(&refs, 480).is_none());
}

#[test]
fn recommendations_and_specs() {
    let formats = vec![make_video_format(720, "vp9", 1)];
    assert_eq!(FormatSelector::recommend_quality(&formats), "720p");
    assert_eq!(FormatSelector::recommend_quality(&[]), "best");
    assert_eq!(FormatSelector::get_format_spec("audio"), "ba/b");
    assert_eq!(FormatSelector::get_format_spec("weird"), "bv*+ba/best");
}

#[test]
fn band_search_takes_largest_h264() {
    let formats = vec![
        make_video_format(1080, "avc1.640028", 10),
        make_video_format(1080, "avc1.64002a", 20),
        make_video_format(1080, "vp9", 90),
    ];
    let refs: Vec<&ExtendedFormat> = formats.iter().collect();
    assert_eq!(find_by_height(&refs, 1080).unwrap().filesize, Some(20));
    let others = vec![make_video_format(720, "vp9", 5), make_video_format(720, "av01.0", 7)];
    let refs: Vec<&ExtendedFormat> = others.iter().collect();
    assert_eq!(find_by_height(&refs, 720).unwrap().filesize, Some(7));
}
