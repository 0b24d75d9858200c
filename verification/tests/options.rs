use render_queue::clock;
use render_queue::float64::Float64;
use render_queue::options::RenderOptions;
use render_queue::output_path;

fn options(codec: &str, codec_options: &str) -> RenderOptions {
    let mut options = RenderOptions::default();
    options.codec = codec.to_string();
    options.codec_options = codec_options.to_string();
    options.output_width = 3840;
    options.output_height = 2160;
    options
}

#[test]
fn settings_by_codec() {
    assert_eq!(
        options("x264", "Profile").settings_string("59.940", "150"),
        "3840x2160 59.940fps | x264 150 Mbps"
    );
    assert_eq!(
        options("x265", "").settings_string("25.000", "8"),
        "3840x2160 25.000fps | x265 8 Mbps"
    );
    assert_eq!(
        options("ProRes", "422 HQ").settings_string("23.976", "150"),
        "3840x2160 23.976fps | ProRes 422 HQ"
    );
    assert_eq!(
        options("PNG Sequence", "any").settings_string("30.000", "150"),
        "3840x2160 30.000fps | PNG Sequence"
    );
}

#[test]
fn settings_of_blank_options() {
    assert_eq!(RenderOptions::default().settings_string("0.000", "0"), "0x0 0.000fps | ");
}

#[test]
fn settings_of_the_largest_size() {
    let mut large = options("x", "");
    large.output_width = usize::MAX;
    large.output_height = 10;
    assert_eq!(
        large.settings_string("1.000", "0"),
        format!("{}x10 1.000fps | x", usize::MAX)
    );
}

#[test]
fn blank_options() {
    let blank = RenderOptions::default();
    assert_eq!(blank.codec, "");
    assert_eq!(blank.output_path, "");
    assert_eq!(blank.pixel_format, "");
    assert_eq!(f64::from_bits(blank.trim_start.bits), 0.0);
    assert_eq!(f64::from_bits(blank.trim_end.bits), 0.0);
    assert_eq!(f64::from_bits(blank.bitrate.bits), 0.0);
    assert_eq!(blank.output_width, 0);
    assert_eq!(blank.output_height, 0);
    assert!(!blank.use_gpu);
    assert!(!blank.audio);
}

#[test]
fn options_can_be_copied() {
    let copy = options("ProRes", "422 HQ").clone();
    assert_eq!(copy.codec, "ProRes");
    assert_eq!(copy.codec_options, "422 HQ");
    assert_eq!(copy.output_width, 3840);
}

#[test]
fn zero_and_one() {
    assert_eq!(Float64::zero().bits, 0.0f64.to_bits());
    assert_eq!(Float64::one().bits, 1.0f64.to_bits());
}

#[test]
fn timestamps() {
    assert_eq!(clock::timestamp_of(None), 0);
    assert_eq!(clock::timestamp_of(Some(1_700_000_000_123)), 1_700_000_000_123);
    assert_eq!(clock::timestamp_of(Some(u64::MAX as u128)), u64::MAX);
    assert_eq!(clock::timestamp_of(Some(u64::MAX as u128 + 8)), 7);
}

#[test]
fn output_names() {
    assert_eq!(
        output_path::stabilized_name(Some("clip".to_string()), "ProRes"),
        "clip_stabilized.mov"
    );
    assert_eq!(
        output_path::stabilized_name(Some("clip".to_string()), "EXR Sequence"),
        "clip_stabilized_%05d.exr"
    );
    assert_eq!(
        output_path::stabilized_name(Some("clip".to_string()), "PNG Sequence"),
        "clip_stabilized_%05d.png"
    );
    assert_eq!(
        output_path::stabilized_name(Some("clip".to_string()), "x264"),
        "clip_stabilized.mp4"
    );
    assert_eq!(output_path::stabilized_name(None, ""), "_stabilized.mp4");
}

#[test]
fn output_paths() {
    assert_eq!(
        output_path::get_output_path("/videos/GX010001.MP4", "x264"),
        "/videos/GX010001_stabilized.mp4"
    );
    assert_eq!(
        output_path::get_output_path("/videos/a.b.mov", "ProRes"),
        "/videos/a.b_stabilized.mov"
    );
    assert_eq!(output_path::get_output_path("clip.mp4", "x265"), "clip_stabilized.mp4");
    assert_eq!(output_path::get_output_path("clip", "PNG Sequence"), "clip_stabilized_%05d.png");
    assert_eq!(output_path::get_output_path("", "x264"), "_stabilized.mp4");
    assert_eq!(output_path::get_output_path("/", "x264"), "/_stabilized.mp4");
}

#[test]
fn output_paths_end_by_codec() {
    let endings = [
        ("ProRes", "_stabilized.mov"),
        ("EXR Sequence", "_stabilized_%05d.exr"),
        ("PNG Sequence", "_stabilized_%05d.png"),
        ("x265", "_stabilized.mp4"),
    ];
    for (codec, ending) in endings {
        for path in ["", "/", ".", "..", "/in/..", "/in/", "a/./b.mp4", "a\\b.mp4", "C:c.mp4", ".mp4"] {
            assert!(output_path::get_output_path(path, codec).ends_with(ending));
        }
    }
    assert_eq!(output_path::get_output_path("..", "x264"), "../_stabilized.mp4");
}
