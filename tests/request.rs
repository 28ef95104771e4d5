use ytdlp_front::{
    map_quality, output_dir, output_file_name, parse_format, plan_download, DownloadCall, Format,
    QualityPair, Tier, DEFAULT_OUTPUT_DIR,
};

fn pair(t: Tier) -> QualityPair {
    QualityPair { video: t, audio: t }
}

#[test]
fn quality_tokens_map_to_same_tier() {
    assert_eq!(map_quality("Best"), pair(Tier::Best));
    assert_eq!(map_quality("High"), pair(Tier::High));
    assert_eq!(map_quality("Medium"), pair(Tier::Medium));
    assert_eq!(map_quality("Low"), pair(Tier::Low));
    assert_eq!(map_quality("Worst"), pair(Tier::Worst));
}

#[test]
fn unrecognized_quality_is_best() {
    assert_eq!(map_quality(""), pair(Tier::Best));
    assert_eq!(map_quality("low"), pair(Tier::Best));
    assert_eq!(map_quality("Lowest"), pair(Tier::Best));
    assert_eq!(map_quality("Ultra"), pair(Tier::Best));
}

#[test]
fn format_tokens() {
    assert_eq!(parse_format("mp4"), Some(Format::Mp4));
    assert_eq!(parse_format("mp3"), Some(Format::Mp3));
    assert_eq!(parse_format("wav"), None);
    assert_eq!(parse_format("MP4"), None);
    assert_eq!(parse_format(""), None);
}

#[test]
fn output_names_carry_extension() {
    assert_eq!(output_file_name("clip", Format::Mp4), "clip.mp4");
    assert_eq!(output_file_name("clip", Format::Mp3), "clip.mp3");
    assert_eq!(output_file_name("", Format::Mp3), ".mp3");
}

#[test]
fn output_dir_default_and_custom() {
    assert_eq!(DEFAULT_OUTPUT_DIR, "yt-dlp-output");
    assert_eq!(output_dir(None), "yt-dlp-output");
    assert_eq!(output_dir(Some("videos")), "videos");
}

#[test]
fn mp4_request_uses_video_with_audio_call() {
    match plan_download("https://example.com/video", "clip", "mp4", "Low") {
        Some(DownloadCall::VideoWithAudio { url, output, video, audio }) => {
            assert_eq!(url, "https://example.com/video");
            assert_eq!(video, Tier::Low);
            assert_eq!(audio, Tier::Low);
            assert!(output.ends_with("clip.mp4"));
            assert_eq!(output, "clip.mp4");
        }
        other => panic!("unexpected plan: {:?}", other),
    }
}

#[test]
fn mp3_request_uses_audio_only_call() {
    match plan_download("https://example.com/video", "clip", "mp3", "Low") {
        Some(DownloadCall::AudioOnly { url, output, audio }) => {
            assert_eq!(url, "https://example.com/video");
            assert_eq!(audio, Tier::Low);
            assert!(output.ends_with("clip.mp3"));
            assert_eq!(output, "clip.mp3");
        }
        other => panic!("unexpected plan: {:?}", other),
    }
}

#[test]
fn unknown_format_makes_no_call() {
    assert!(plan_download("https://example.com/video", "clip", "avi", "Low").is_none());
    assert!(plan_download("https://example.com/video", "clip", "", "Best").is_none());
}

#[test]
fn unknown_quality_downloads_best() {
    match plan_download("https://example.com/video", "clip", "mp4", "Ultra") {
        Some(DownloadCall::VideoWithAudio { video, audio, .. }) => {
            assert_eq!(video, Tier::Best);
            assert_eq!(audio, Tier::Best);
        }
        other => panic!("unexpected plan: {:?}", other),
    }
}
