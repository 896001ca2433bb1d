//! The external encoder's command line, and the scan of its device
//! listing.
//!
//! The engine drives one encoder invocation per session: capture the
//! primary display with the cursor drawn, encode at 30 fps with a
//! low-latency profile, write 15-second segments named by a printf
//! pattern, maintain a CSV segment list, and emit a monotonic timestamp
//! track. Only the input selection differs per platform. On hosts whose
//! capture input is selected by device number, the number is discovered by
//! scanning the encoder's own device listing for the primary screen's
//! line and reading the bracketed index out of it.

use vstd::prelude::*;

use crate::text::{
    spec_find, spec_parse_digits, spec_skip_spaces_back, spec_skip_spaces_fwd, spec_str_contains,
};

verus! {

/// The capture input the encoder is pointed at, per host platform.
#[derive(Clone, Copy, Debug, PartialEq, Eq)]
pub enum CaptureOs {
    /// AVFoundation capture of the numbered screen device.
    MacOs { device: u32 },
    /// GDI capture of the whole desktop.
    Windows,
    /// X11 capture of display `:0.0`.
    Linux,
}

/// The platform-specific input arguments of the encoder command.
pub open spec fn spec_ffmpeg_input_args(os: CaptureOs) -> Seq<Seq<char>> {
    match os {
        CaptureOs::MacOs { device } => seq![
            "-f"@,
            "avfoundation"@,
            "-capture_cursor"@,
            "1"@,
            "-i"@,
            crate::json::spec_u64_str(device as nat) + ":none"@,
        ],
        CaptureOs::Windows => seq!["-f"@, "gdigrab"@, "-draw_mouse"@, "1"@, "-i"@, "desktop"@],
        CaptureOs::Linux => seq!["-f"@, "x11grab"@, "-draw_mouse"@, "1"@, "-i"@, ":0.0"@],
    }
}

/// The full encoder argument vector: platform input selection, then the
/// common encoding, segmenting and timestamp-track configuration around
/// the three session paths.
pub open spec fn spec_ffmpeg_args(
    os: CaptureOs,
    video_output_path: Seq<char>,
    segment_csv_path: Seq<char>,
    timestamp_path: Seq<char>,
) -> Seq<Seq<char>> {
    spec_ffmpeg_input_args(os) + seq![
        "-framerate"@,
        "30"@,
        "-vcodec"@,
        "libx264"@,
        "-preset"@,
        "ultrafast"@,
        "-crf"@,
        "23"@,
        "-filter_complex"@,
        "settb=1/1000,setpts='RTCTIME/1000',mpdecimate,split=2[out][ts]"@,
        "-map"@,
        "[out]"@,
        "-vcodec"@,
        "libx264"@,
        "-pix_fmt"@,
        "yuv420p"@,
        "-threads"@,
        "0"@,
        "-force_key_frames"@,
        "expr:gte(t,n_forced*60)"@,
        "-f"@,
        "segment"@,
        "-segment_time"@,
        "15"@,
        "-reset_timestamps"@,
        "1"@,
        "-segment_format"@,
        "mkv"@,
        "-segment_list_type"@,
        "csv"@,
        "-segment_list"@,
        segment_csv_path,
        video_output_path,
        "-map"@,
        "[ts]"@,
        "-f"@,
        "mkvtimestamp_v2"@,
        timestamp_path,
        "-vsync"@,
        "0"@,
    ]
}

/// Appends one argument to the vector.
fn push_arg(args: &mut Vec<String>, arg: &str)
    ensures
        final(args).deep_view() == old(args).deep_view().push(arg@),
{
    args.push(String::from_str(arg));
    proof {
        assert(final(args).deep_view() =~= old(args).deep_view().push(arg@));
    }
}

/// Appends one owned argument to the vector.
fn push_arg_string(args: &mut Vec<String>, arg: String)
    ensures
        final(args).deep_view() == old(args).deep_view().push(arg@),
{
    let ghost v = arg@;
    args.push(arg);
    proof {
        assert(final(args).deep_view() =~= old(args).deep_view().push(v));
    }
}

/// The encoder argument vector for one session, exactly as
/// `spec_ffmpeg_args` lays it out.
pub fn get_ffmpeg_args(
    os: &CaptureOs,
    video_output_path: &str,
    segment_csv_path: &str,
    timestamp_path: &str,
) -> (r: Vec<String>)
    ensures
        r.deep_view() == spec_ffmpeg_args(
            *os,
            video_output_path@,
            segment_csv_path@,
            timestamp_path@,
        ),
{
    let mut args: Vec<String> = Vec::new();
    match os {
        CaptureOs::MacOs { device } => {
            push_arg(&mut args, "-f");
            push_arg(&mut args, "avfoundation");
            push_arg(&mut args, "-capture_cursor");
            push_arg(&mut args, "1");
            push_arg(&mut args, "-i");
            let mut input = crate::json::u64_str(*device as u64);
            input.append(":none");
            push_arg_string(&mut args, input);
        },
        CaptureOs::Windows => {
            push_arg(&mut args, "-f");
            push_arg(&mut args, "gdigrab");
            push_arg(&mut args, "-draw_mouse");
            push_arg(&mut args, "1");
            push_arg(&mut args, "-i");
            push_arg(&mut args, "desktop");
        },
        CaptureOs::Linux => {
            push_arg(&mut args, "-f");
            push_arg(&mut args, "x11grab");
            push_arg(&mut args, "-draw_mouse");
            push_arg(&mut args, "1");
            push_arg(&mut args, "-i");
            push_arg(&mut args, ":0.0");
        },
    }
    proof {
        assert(args.deep_view() =~= spec_ffmpeg_input_args(*os));
    }
    push_arg(&mut args, "-framerate");
    push_arg(&mut args, "30");
    push_arg(&mut args, "-vcodec");
    push_arg(&mut args, "libx264");
    push_arg(&mut args, "-preset");
    push_arg(&mut args, "ultrafast");
    push_arg(&mut args, "-crf");
    push_arg(&mut args, "23");
    push_arg(&mut args, "-filter_complex");
    push_arg(&mut args, "settb=1/1000,setpts='RTCTIME/1000',mpdecimate,split=2[out][ts]");
    push_arg(&mut args, "-map");
    push_arg(&mut args, "[out]");
    push_arg(&mut args, "-vcodec");
    push_arg(&mut args, "libx264");
    push_arg(&mut args, "-pix_fmt");
    push_arg(&mut args, "yuv420p");
    push_arg(&mut args, "-threads");
    push_arg(&mut args, "0");
    push_arg(&mut args, "-force_key_frames");
    push_arg(&mut args, "expr:gte(t,n_forced*60)");
    push_arg(&mut args, "-f");
    push_arg(&mut args, "segment");
    push_arg(&mut args, "-segment_time");
    push_arg(&mut args, "15");
    push_arg(&mut args, "-reset_timestamps");
    push_arg(&mut args, "1");
    push_arg(&mut args, "-segment_format");
    push_arg(&mut args, "mkv");
    push_arg(&mut args, "-segment_list_type");
    push_arg(&mut args, "csv");
    push_arg(&mut args, "-segment_list");
    push_arg(&mut args, segment_csv_path);
    push_arg(&mut args, video_output_path);
    push_arg(&mut args, "-map");
    push_arg(&mut args, "[ts]");
    push_arg(&mut args, "-f");
    push_arg(&mut args, "mkvtimestamp_v2");
    push_arg(&mut args, timestamp_path);
    push_arg(&mut args, "-vsync");
    push_arg(&mut args, "0");
    proof {
        assert(args.deep_view() =~= spec_ffmpeg_args(
            *os,
            video_output_path@,
            segment_csv_path@,
            timestamp_path@,
        ));
    }
    args
}

/// The screen device number announced on one line of the encoder's device
/// listing: the line must name the primary screen, and the number is the
/// trimmed digit run between the line's fourth opening bracket and the
/// closing bracket (or next opening bracket, or line end) after it.
pub open spec fn spec_device_of_line(s: Seq<char>) -> Option<u32> {
    if !spec_str_contains(s, "Capture screen 0"@) {
        None
    } else {
        let b1 = spec_find(s, '[', 0);
        let b2 = spec_find(s, '[', b1 + 1);
        let b3 = spec_find(s, '[', b2 + 1);
        if b3 >= s.len() {
            None
        } else {
            let b4 = spec_find(s, '[', b3 + 1);
            let close = spec_find(s, ']', b3 + 1);
            let end = if close < b4 {
                close
            } else {
                b4
            };
            let lo = spec_skip_spaces_fwd(s, b3 + 1, end);
            let hi = spec_skip_spaces_back(s, lo, end);
            spec_parse_digits(s.subrange(lo, hi))
        }
    }
}

/// The capture device number taken from a whole device listing: the last
/// line announcing one wins, and a listing announcing none yields 1.
pub open spec fn spec_device_of_listing(lines: Seq<Seq<char>>) -> u32
    decreases lines.len(),
{
    if lines.len() == 0 {
        1u32
    } else {
        match spec_device_of_line(lines.last()) {
            Some(v) => v,
            None => spec_device_of_listing(lines.drop_last()),
        }
    }
}

/// The screen device number announced on one listing line, if any,
/// exactly as `spec_device_of_line` reads it.
pub fn parse_device_line(line: &str) -> (r: Option<u32>)
    ensures
        r == spec_device_of_line(line@),
{
    if !crate::text::str_contains(line, "Capture screen 0") {
        return None;
    }
    let len = line.unicode_len();
    let b1 = crate::text::find_char_from(line, '[', 0);
    let b2 = if b1 < len {
        crate::text::find_char_from(line, '[', b1 + 1)
    } else {
        len
    };
    let b3 = if b2 < len {
        crate::text::find_char_from(line, '[', b2 + 1)
    } else {
        len
    };
    proof {
        if b1 >= len {
            assert(spec_find(line@, '[', b1 + 1) == len);
        }
        if b2 >= len {
            assert(spec_find(line@, '[', b2 + 1) == len);
        }
    }
    if b3 >= len {
        return None;
    }
    let b4 = crate::text::find_char_from(line, '[', b3 + 1);
    let close = crate::text::find_char_from(line, ']', b3 + 1);
    let end = if close < b4 {
        close
    } else {
        b4
    };
    let lo = crate::text::skip_spaces_fwd(line, b3 + 1, end);
    let hi = crate::text::skip_spaces_back(line, lo, end);
    crate::text::parse_digits_range(line, lo, hi)
}

/// The capture device number taken from the encoder's device listing,
/// exactly as `spec_device_of_listing` reads it; 1 when no line announces
/// one.
pub fn parse_capture_device_listing(lines: &Vec<String>) -> (r: u32)
    ensures
        r == spec_device_of_listing(lines.deep_view()),
{
    let mut device: u32 = 1;
    let mut i: usize = 0;
    while i < lines.len()
        invariant
            i <= lines.len(),
            device == spec_device_of_listing(lines.deep_view().subrange(0, i as int)),
        decreases lines.len() - i,
    {
        match parse_device_line(lines[i].as_str()) {
            Some(v) => {
                device = v;
            },
            None => {},
        }
        i = i + 1;
        proof {
            let prefix = lines.deep_view().subrange(0, i as int);
            assert(prefix.drop_last() =~= lines.deep_view().subrange(0, i - 1));
            assert(prefix.last() == lines.deep_view()[i - 1]);
        }
    }
    proof {
        assert(lines.deep_view().subrange(0, lines.deep_view().len() as int) =~= lines.deep_view());
    }
    device
}

} // verus!
