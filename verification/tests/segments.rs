//! Segment watching: name parsing and formatting, the watermark, and the
//! encoder command line and device listing.

use devent_recorder::ffmpeg::{get_ffmpeg_args, parse_capture_device_listing, parse_device_line, CaptureOs};
use devent_recorder::watcher::{
    fetch_save_url_endpoint, format_chunk_name, highest_segment_index, monitor_step,
    parse_chunk_index, SEGMENT_CONTENT_TYPE,
};

fn strings(names: &[&str]) -> Vec<String> {
    names.iter().map(|s| s.to_string()).collect()
}

#[test]
fn parse_well_formed_chunk_names() {
    assert_eq!(parse_chunk_index("chunk_0000.mkv"), Some(0));
    assert_eq!(parse_chunk_index("chunk_0042.mkv"), Some(42));
    assert_eq!(parse_chunk_index("chunk_9999.mkv"), Some(9999));
    assert_eq!(parse_chunk_index("chunk_12345.mkv"), Some(12345));
    assert_eq!(parse_chunk_index("chunk_00123.mkv"), Some(123));
    assert_eq!(parse_chunk_index("chunk_4294967295.mkv"), Some(u32::MAX));
}

#[test]
fn reject_malformed_chunk_names() {
    assert_eq!(parse_chunk_index(""), None);
    assert_eq!(parse_chunk_index("chunk_12.mkv"), None); // fewer than four digits
    assert_eq!(parse_chunk_index("chunk_00a1.mkv"), None);
    assert_eq!(parse_chunk_index("chunk_0001.mp4"), None);
    assert_eq!(parse_chunk_index("clip_0001.mkv"), None);
    assert_eq!(parse_chunk_index("chunk_4294967296.mkv"), None); // beyond u32
    assert_eq!(parse_chunk_index("chunk_99999999999999999999.mkv"), None);
    assert_eq!(parse_chunk_index("chunk_0001.mkvv"), None);
    assert_eq!(parse_chunk_index("chunk_0001_mkv"), None);
    assert_eq!(parse_chunk_index("segments.csv"), None);
}

#[test]
fn format_pads_to_four_digits() {
    assert_eq!(format_chunk_name(0), "chunk_0000.mkv");
    assert_eq!(format_chunk_name(7), "chunk_0007.mkv");
    assert_eq!(format_chunk_name(42), "chunk_0042.mkv");
    assert_eq!(format_chunk_name(999), "chunk_0999.mkv");
    assert_eq!(format_chunk_name(1000), "chunk_1000.mkv");
    assert_eq!(format_chunk_name(12345), "chunk_12345.mkv");
}

#[test]
fn format_then_parse_gives_index_back() {
    for n in [0u32, 1, 9, 10, 99, 100, 999, 1000, 9999, 10000, u32::MAX] {
        assert_eq!(parse_chunk_index(&format_chunk_name(n)), Some(n));
    }
}

#[test]
fn highest_index_ignores_junk() {
    let names = strings(&["chunk_0003.mkv", "junk.txt", "chunk_0001.mkv", "chunk_x.mkv"]);
    assert_eq!(highest_segment_index(&names), 3);
    assert_eq!(highest_segment_index(&strings(&[])), 0);
    assert_eq!(highest_segment_index(&strings(&["nothing.here"])), 0);
}

#[test]
fn watcher_hands_over_highest_and_advances() {
    let names = strings(&["chunk_0000.mkv", "chunk_0001.mkv"]);
    let (upload, saved) = monitor_step(&names, 0);
    assert_eq!(upload.as_deref(), Some("chunk_0001.mkv"));
    assert_eq!(saved, 2);
}

#[test]
fn watcher_does_not_hand_over_twice() {
    let names = strings(&["chunk_0000.mkv", "chunk_0001.mkv"]);
    let (_, saved) = monitor_step(&names, 0);
    // the next scan over the same listing hands nothing over
    let (upload, saved2) = monitor_step(&names, saved);
    assert_eq!(upload, None);
    assert_eq!(saved2, saved);
    // a fresh segment is handed over again
    let grown = strings(&["chunk_0000.mkv", "chunk_0001.mkv", "chunk_0002.mkv"]);
    let (upload3, saved3) = monitor_step(&grown, saved2);
    assert_eq!(upload3.as_deref(), Some("chunk_0002.mkv"));
    assert_eq!(saved3, 3);
}

#[test]
fn watcher_on_empty_listing_stays_put() {
    let (upload, saved) = monitor_step(&strings(&[]), 0);
    assert_eq!(upload, None);
    assert_eq!(saved, 0);
}

#[test]
fn segment_content_type_value() {
    assert_eq!(SEGMENT_CONTENT_TYPE, "video/x-matroska");
}

#[test]
fn fetch_save_url_under_base() {
    let url = fetch_save_url_endpoint("https://example.test");
    assert_eq!(url, "https://example.test/recordings/fetch_save_url");
}

#[test]
fn ffmpeg_args_linux_full_command() {
    let args = get_ffmpeg_args(
        &CaptureOs::Linux,
        "/out/recordings/chunk_%04d.mkv",
        "/out/segments.csv",
        "/out/timestamps.txt",
    );
    let expected: Vec<String> = strings(&[
        "-f",
        "x11grab",
        "-draw_mouse",
        "1",
        "-i",
        ":0.0",
        "-framerate",
        "30",
        "-vcodec",
        "libx264",
        "-preset",
        "ultrafast",
        "-crf",
        "23",
        "-filter_complex",
        "settb=1/1000,setpts='RTCTIME/1000',mpdecimate,split=2[out][ts]",
        "-map",
        "[out]",
        "-vcodec",
        "libx264",
        "-pix_fmt",
        "yuv420p",
        "-threads",
        "0",
        "-force_key_frames",
        "expr:gte(t,n_forced*60)",
        "-f",
        "segment",
        "-segment_time",
        "15",
        "-reset_timestamps",
        "1",
        "-segment_format",
        "mkv",
        "-segment_list_type",
        "csv",
        "-segment_list",
        "/out/segments.csv",
        "/out/recordings/chunk_%04d.mkv",
        "-map",
        "[ts]",
        "-f",
        "mkvtimestamp_v2",
        "/out/timestamps.txt",
        "-vsync",
        "0",
    ]);
    assert_eq!(args, expected);
}

#[test]
fn ffmpeg_args_per_platform_inputs() {
    let mac = get_ffmpeg_args(&CaptureOs::MacOs { device: 3 }, "v", "c", "t");
    assert_eq!(&mac[0..6], &strings(&["-f", "avfoundation", "-capture_cursor", "1", "-i", "3:none"])[..]);
    let win = get_ffmpeg_args(&CaptureOs::Windows, "v", "c", "t");
    assert_eq!(&win[0..6], &strings(&["-f", "gdigrab", "-draw_mouse", "1", "-i", "desktop"])[..]);
}

#[test]
fn device_line_parsing() {
    assert_eq!(
        parse_device_line("[AVFoundation indev @ 0x7f8] [info] [ 2 ] Capture screen 0"),
        Some(2)
    );
    assert_eq!(parse_device_line("[a] [b] [5] Capture screen 0"), Some(5));
    // no mention of the primary screen
    assert_eq!(parse_device_line("[a] [b] [5] Microphone"), None);
    // too few brackets
    assert_eq!(parse_device_line("[1] Capture screen 0"), None);
    // bracket content is not a number
    assert_eq!(parse_device_line("[a] [b] [x] Capture screen 0"), None);
}

#[test]
fn device_listing_takes_last_match_and_defaults_to_one() {
    let lines = strings(&[
        "[a] [b] [1] Capture screen 0",
        "noise",
        "[a] [b] [4] Capture screen 0",
    ]);
    assert_eq!(parse_capture_device_listing(&lines), 4);
    assert_eq!(parse_capture_device_listing(&strings(&["noise"])), 1);
    assert_eq!(parse_capture_device_listing(&strings(&[])), 1);
}
