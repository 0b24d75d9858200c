use render_queue::attempts;
use render_queue::attempts::NextStep;
use render_queue::attempts::Outcome;
use render_queue::float64::Float64;
use render_queue::formats;
use render_queue::smoothing;
use render_queue::smoothing::SmoothingParameter;
use render_queue::text;

fn failed(message: &str) -> Outcome {
    Outcome::Failed { message: message.to_string() }
}

#[test]
fn attempts_without_a_frame() {
    let mut decoders = Vec::new();
    let mut decoder = attempts::FIRST_DECODER;
    loop {
        decoders.push(decoder);
        match attempts::after_attempt(decoder, 0, failed("broken")) {
            NextStep::Retry { decoder: next } => decoder = next,
            NextStep::Fail { message, arg } => {
                assert_eq!(message, "An error occured: %1");
                assert_eq!(arg, "broken");
                break;
            }
            _ => panic!("the renderer tries again or gives up"),
        }
    }
    assert_eq!(decoders, [0, 1, 2, 3, 4, -1]);
}

#[test]
fn no_attempt_after_the_first_frame() {
    for decoder in [-1, 0, 3, 4] {
        match attempts::after_attempt(decoder, 1, failed("broken")) {
            NextStep::Fail { arg, .. } => assert_eq!(arg, "broken"),
            _ => panic!("the renderer gives up"),
        }
    }
}

#[test]
fn no_attempt_after_an_unknown_decoder() {
    for decoder in [5, -2, i32::MAX, i32::MIN] {
        assert!(matches!(
            attempts::after_attempt(decoder, 0, failed("broken")),
            NextStep::Fail { .. }
        ));
    }
}

#[test]
fn rendered_video_is_done() {
    assert!(matches!(attempts::after_attempt(2, 100, Outcome::Rendered), NextStep::Done));
}

#[test]
fn unsupported_format_is_passed_on() {
    let outcome = Outcome::PixelFormatNotSupported {
        format: "P010".to_string(),
        supported: vec!["NV12".to_string(), "CUDA".to_string(), "YUV420P".to_string()],
    };
    match attempts::after_attempt(0, 0, outcome) {
        NextStep::ConvertFormat { format, supported } => {
            assert_eq!(format, "P010");
            assert_eq!(supported, "NV12,CUDA,YUV420P");
            assert_eq!(formats::offered_formats(&supported), "NV12,YUV420P");
        }
        _ => panic!("another format is needed"),
    }
}

#[test]
fn unsupported_format_without_alternatives() {
    let outcome =
        Outcome::PixelFormatNotSupported { format: "P010".to_string(), supported: Vec::new() };
    match attempts::after_attempt(0, 0, outcome) {
        NextStep::ConvertFormat { supported, .. } => assert_eq!(supported, ""),
        _ => panic!("another format is needed"),
    }
}

#[test]
fn hidden_formats_are_not_offered() {
    assert_eq!(
        formats::offered_formats(
            "CUDA,D3D11,BGRZ,RGBZ,BGRA,UYVY422,NV12,VIDEOTOOLBOX,DXVA2,MEDIACODEC,VULKAN,OPENCL,QSV"
        ),
        "NV12"
    );
    assert_eq!(formats::offered_formats("CUDA,QSV"), "");
    assert_eq!(formats::offered_formats(""), "");
    assert_eq!(formats::offered_formats("cuda, QSV"), "cuda, QSV");
    assert_eq!(formats::offered_formats("NV12,,CUDA,"), "NV12,,");
}

#[test]
fn each_hidden_format() {
    for name in [
        "CUDA",
        "D3D11",
        "BGRZ",
        "RGBZ",
        "BGRA",
        "UYVY422",
        "VIDEOTOOLBOX",
        "DXVA2",
        "MEDIACODEC",
        "VULKAN",
        "OPENCL",
        "QSV",
    ] {
        assert!(formats::is_hidden_format(name));
    }
    assert!(!formats::is_hidden_format("YUV420P"));
    assert!(!formats::is_hidden_format(""));
}

#[test]
fn offer_of_an_offer() {
    let offer = formats::offered_formats("NV12,CUDA,YUV420P,QSV,P010");
    assert_eq!(offer, "NV12,YUV420P,P010");
    assert_eq!(formats::offered_formats(&offer), offer);
}

#[test]
fn conversion_messages() {
    assert_eq!(formats::conversion_message("P010", "NV12,YUV420P"), "convert_format:P010;NV12,YUV420P");
}

#[test]
fn split_as_std_does() {
    for sample in ["", ",", "a", "a,b", ",a,,b,", "\u{e9},\u{4e2d}\u{6587},x"] {
        let expected: Vec<String> = sample.split(',').map(str::to_string).collect();
        assert_eq!(text::split_text(sample, ','), expected);
        assert_eq!(expected.join(","), sample);
    }
}

#[test]
fn decimal_as_std_does() {
    for sample in [0, 9, 10, 99, 100, 1920, usize::MAX] {
        assert_eq!(text::decimal_text(sample), sample.to_string());
    }
}

#[test]
fn equal_texts() {
    assert!(text::same_text("cpu", "cpu"));
    assert!(!text::same_text("cpu", "CPU"));
    assert!(text::same_text("", ""));
}

#[test]
fn smoothing_method_by_name() {
    let algorithms =
        vec!["None".to_string(), "Default".to_string(), "Plain".to_string(), "Default".to_string()];
    assert_eq!(smoothing::method_index(&algorithms, "Plain"), 2);
    assert_eq!(smoothing::method_index(&algorithms, "Default"), 1);
    assert_eq!(smoothing::method_index(&algorithms, "Other"), 0);
    assert_eq!(smoothing::method_index(&Vec::new(), "Other"), 0);
}

#[test]
fn incomplete_smoothing_parameters_are_skipped() {
    let half = Float64 { bits: 0.5f64.to_bits() };
    let parameters = vec![
        SmoothingParameter { name: Some("smoothness".to_string()), value: Some(half) },
        SmoothingParameter { name: None, value: Some(half) },
        SmoothingParameter { name: Some("horizon".to_string()), value: None },
        SmoothingParameter { name: Some("roll".to_string()), value: Some(Float64::one()) },
    ];
    assert_eq!(
        smoothing::assignments(&parameters),
        vec![("smoothness".to_string(), half), ("roll".to_string(), Float64::one())]
    );
}
