use rustymotion::encoder::EncoderAdapter;
use rustymotion::errors::EncodeError;
use rustymotion::ffmpeg::{encode_args, encode_exit_result, frame_file_name, frame_pattern};
use rustymotion::frame::{CapturedFrame, PixelFormat};
use rustymotion::utils::create_display_time;

fn raster_frame(index: u32, width: u32, height: u32) -> CapturedFrame {
    CapturedFrame {
        index,
        pixels: vec![0u8; (width * height * 4) as usize],
        format: PixelFormat::Bgra,
    }
}

#[test]
fn frame_file_names_are_numbered() {
    assert_eq!(frame_file_name(0), "frame-0.png");
    assert_eq!(frame_file_name(89), "frame-89.png");
}

#[test]
fn frame_pattern_matches_the_scratch_layout() {
    assert_eq!(frame_pattern("./frames"), "./frames/frame-%d.png");
}

#[test]
fn encode_args_follow_the_composition_frame_rate() {
    assert_eq!(
        encode_args(30, "./frames/frame-%d.png", "out.mp4"),
        vec![
            "-framerate",
            "30",
            "-i",
            "./frames/frame-%d.png",
            "-c:v",
            "libx264",
            "-r",
            "30",
            "-pix_fmt",
            "yuv420p",
            "out.mp4",
        ]
    );
}

#[test]
fn encoder_exit_zero_yields_the_artifact_path() {
    assert_eq!(
        encode_exit_result("out.mp4", true, String::new()),
        Ok("out.mp4".to_string())
    );
}

#[test]
fn encoder_exit_nonzero_is_a_tool_failure_with_its_stderr() {
    assert_eq!(
        encode_exit_result("out.mp4", false, "boom".to_string()),
        Err(EncodeError::ToolFailure {
            stderr: "boom".to_string()
        })
    );
}

#[test]
fn adapter_names_a_scratch_file_per_frame() {
    let mut adapter = EncoderAdapter::new(4, 3, 30);
    let name = adapter.ingest(&raster_frame(7, 4, 3)).unwrap();
    assert_eq!(name, "frame-7.png");
}

#[test]
fn adapter_rejects_a_malformed_pixel_buffer() {
    let mut adapter = EncoderAdapter::new(4, 3, 30);
    let mut bad = raster_frame(0, 4, 3);
    bad.pixels.pop();
    assert_eq!(
        adapter.ingest(&bad),
        Err(EncodeError::MalformedFrame {
            index: 0,
            width: 4,
            height: 3,
            actual_len: 47,
        })
    );
}

#[test]
fn adapter_finish_without_frames_is_an_error() {
    let adapter = EncoderAdapter::new(4, 3, 30);
    assert_eq!(
        adapter.finish("./frames", "out.mp4"),
        Err(EncodeError::NoFrames)
    );
}

#[test]
fn adapter_finish_yields_the_encoder_invocation() {
    let mut adapter = EncoderAdapter::new(4, 3, 24);
    adapter.ingest(&raster_frame(0, 4, 3)).unwrap();
    adapter.ingest(&raster_frame(1, 4, 3)).unwrap();
    let args = adapter.finish("./frames", "out.mp4").unwrap();
    assert_eq!(args[0], "-framerate");
    assert_eq!(args[1], "24");
    assert_eq!(args[3], "./frames/frame-%d.png");
    assert_eq!(args[7], "24");
    assert_eq!(args[10], "out.mp4");
}

#[test]
fn display_time_is_whole_frame_durations() {
    assert_eq!(create_display_time(0, 30), 0);
    assert_eq!(create_display_time(1, 30), 33_333_333);
    // ninety whole frame durations: just under three seconds, since one
    // frame duration is the truncating division of a second by the rate
    assert_eq!(create_display_time(90, 30), 2_999_999_970);
    assert_eq!(create_display_time(10, 7), 1_428_571_420);
}
