use render_queue::float64::Float64;
use render_queue::loading;
use render_queue::loading::FileLoad;
use render_queue::loading::LoadAction;
use render_queue::loading::LoadEvent;
use render_queue::loading::Stage;
use render_queue::options::RenderOptions;
use render_queue::queue::RenderQueue;

fn given() -> RenderOptions {
    let mut options = RenderOptions::default();
    options.codec = "x265".to_string();
    options.audio = true;
    options.output_path = "/elsewhere.mp4".to_string();
    options
}

fn bitrate() -> Float64 {
    Float64 { bits: 42.5f64.to_bits() }
}

fn probed(playable: bool) -> LoadEvent {
    LoadEvent::VideoProbed { width: 1920, height: 1080, bitrate: bitrate(), playable }
}

fn video_at_lens() -> FileLoad {
    let (mut load, _) = FileLoad::begin("/in/clip.mp4".to_string(), given());
    load.advance(probed(true));
    load.advance(LoadEvent::Initialized);
    load.advance(LoadEvent::CameraRead { identifier: String::new() });
    assert_eq!(load.stage, Stage::ReadingLens);
    load
}

#[test]
fn project_files() {
    assert!(loading::is_project_file("/in/clip.gyroflow"));
    assert!(loading::is_project_file(".gyroflow"));
    assert!(!loading::is_project_file("/in/clip.GYROFLOW"));
    assert!(!loading::is_project_file("gyroflow"));
    assert!(!loading::is_project_file("/in/clip.gyroflow.mp4"));
    assert!(!loading::is_project_file(""));
}

#[test]
fn project_is_imported() {
    let (mut load, action) = FileLoad::begin("/in/clip.gyroflow".to_string(), given());
    assert!(matches!(action, LoadAction::ImportProject { path } if path == "/in/clip.gyroflow"));
    let mut output = RenderOptions::default();
    output.codec = "ProRes".to_string();
    let actions = load.advance(LoadEvent::ProjectImported {
        output: Some(output),
        video_file: Some("/in/clip.mp4".to_string()),
    });
    assert_eq!(actions.len(), 2);
    assert!(matches!(&actions[0], LoadAction::AddJob { options } if options.codec == "ProRes"));
    assert!(matches!(
        &actions[1],
        LoadAction::FetchThumbnail { video_path, video_size: None } if video_path == "/in/clip.mp4"
    ));
    let actions = load.advance(LoadEvent::ThumbnailFetched { url: Some("url".to_string()) });
    assert_eq!(actions.len(), 1);
    assert!(matches!(&actions[0], LoadAction::ShowThumbnail { url } if url == "url"));
    assert_eq!(load.stage, Stage::Done);
}

#[test]
fn project_without_output_or_video() {
    let (mut load, _) = FileLoad::begin("/in/clip.gyroflow".to_string(), given());
    let actions = load.advance(LoadEvent::ProjectImported { output: None, video_file: None });
    assert!(actions.is_empty());
    assert_eq!(load.stage, Stage::Done);
}

#[test]
fn project_that_cannot_be_read() {
    let (mut load, _) = FileLoad::begin("/in/clip.gyroflow".to_string(), given());
    assert!(load.advance(LoadEvent::ImportFailed).is_empty());
    assert_eq!(load.stage, Stage::Done);
}

#[test]
fn video_with_a_lens_profile() {
    let (mut load, action) = FileLoad::begin("/in/clip.mp4".to_string(), given());
    assert!(matches!(action, LoadAction::ProbeVideo { path } if path == "/in/clip.mp4"));
    let actions = load.advance(probed(true));
    assert_eq!(actions.len(), 1);
    assert!(matches!(
        &actions[0],
        LoadAction::Initialize { path, width: 1920, height: 1080 } if path == "/in/clip.mp4"
    ));
    let actions = load.advance(LoadEvent::Initialized);
    assert!(matches!(&actions[0], LoadAction::ReadCamera { width: 1920, height: 1080 }));
    let actions = load.advance(LoadEvent::CameraRead { identifier: "gopro".to_string() });
    assert!(matches!(&actions[0], LoadAction::FindProfile { identifier } if identifier == "gopro"));
    let actions = load.advance(LoadEvent::ProfileSearched { found: true });
    assert!(matches!(&actions[0], LoadAction::LoadProfile { identifier } if identifier == "gopro"));
    let actions = load.advance(LoadEvent::ProfileLoaded);
    assert!(matches!(&actions[0], LoadAction::ReadLens));
    let actions = load.advance(LoadEvent::LensRead { output_dimension: Some((3840, 2160)) });
    assert_eq!(actions.len(), 2);
    match &actions[0] {
        LoadAction::AddJob { options } => {
            assert_eq!(options.codec, "x265");
            assert!(options.audio);
            assert_eq!(options.output_path, "/in/clip_stabilized.mp4");
            assert_eq!(options.output_width, 3840);
            assert_eq!(options.output_height, 2160);
            assert_eq!(options.bitrate, bitrate());
            assert_eq!(f64::from_bits(options.trim_start.bits), 0.0);
            assert_eq!(f64::from_bits(options.trim_end.bits), 1.0);
        }
        _ => panic!("the job is added"),
    }
    assert!(matches!(
        &actions[1],
        LoadAction::FetchThumbnail { video_path, video_size: Some((1920, 1080)) }
            if video_path == "/in/clip.mp4"
    ));
    assert!(load.advance(LoadEvent::ThumbnailFetched { url: None }).is_empty());
    assert_eq!(load.stage, Stage::Done);
}

#[test]
fn video_without_a_lens_profile() {
    let (mut load, _) = FileLoad::begin("/in/clip.mp4".to_string(), given());
    load.advance(probed(true));
    load.advance(LoadEvent::Initialized);
    load.advance(LoadEvent::CameraRead { identifier: "unknown".to_string() });
    let actions = load.advance(LoadEvent::ProfileSearched { found: false });
    assert!(matches!(&actions[0], LoadAction::ReadLens));
    let actions = load.advance(LoadEvent::LensRead { output_dimension: None });
    match &actions[0] {
        LoadAction::AddJob { options } => {
            assert_eq!(options.output_width, 1920);
            assert_eq!(options.output_height, 1080);
        }
        _ => panic!("the job is added"),
    }
}

#[test]
fn video_of_no_known_camera() {
    let mut load = video_at_lens();
    let actions = load.advance(LoadEvent::LensRead { output_dimension: None });
    assert!(matches!(&actions[0], LoadAction::AddJob { .. }));
}

#[test]
fn video_that_does_not_play() {
    let (mut load, _) = FileLoad::begin("/in/clip.mp4".to_string(), given());
    assert!(load.advance(probed(false)).is_empty());
    assert_eq!(load.stage, Stage::Done);
}

#[test]
fn file_that_is_no_video() {
    let (mut load, _) = FileLoad::begin("/in/notes.txt".to_string(), given());
    assert!(load.advance(LoadEvent::ProbeFailed).is_empty());
    assert_eq!(load.stage, Stage::Done);
}

#[test]
fn failures_are_reported() {
    let (mut load, _) = FileLoad::begin("/in/clip.mp4".to_string(), given());
    load.advance(probed(true));
    let actions = load.advance(LoadEvent::InitializationFailed { message: "no gyro".to_string() });
    assert_eq!(actions.len(), 1);
    assert!(matches!(
        &actions[0],
        LoadAction::ReportError { message, arg }
            if message == "An error occured: %1" && arg == "no gyro"
    ));
    assert_eq!(load.stage, Stage::Done);

    let (mut load, _) = FileLoad::begin("/in/clip.mp4".to_string(), given());
    load.advance(probed(true));
    load.advance(LoadEvent::Initialized);
    load.advance(LoadEvent::CameraRead { identifier: "gopro".to_string() });
    load.advance(LoadEvent::ProfileSearched { found: true });
    let actions = load.advance(LoadEvent::ProfileFailed { message: "bad profile".to_string() });
    assert!(matches!(&actions[0], LoadAction::ReportError { arg, .. } if arg == "bad profile"));
    assert_eq!(load.stage, Stage::Done);

    let mut load = video_at_lens();
    load.advance(LoadEvent::LensRead { output_dimension: None });
    let actions = load.advance(LoadEvent::ThumbnailFailed { message: "no frame".to_string() });
    assert!(matches!(&actions[0], LoadAction::ReportError { arg, .. } if arg == "no frame"));
    assert_eq!(load.stage, Stage::Done);
}

#[test]
fn events_out_of_turn_are_ignored() {
    let (mut load, _) = FileLoad::begin("/in/clip.mp4".to_string(), given());
    assert!(load.advance(LoadEvent::Initialized).is_empty());
    assert!(load.advance(LoadEvent::LensRead { output_dimension: None }).is_empty());
    assert_eq!(load.stage, Stage::Probing);
    let mut load = video_at_lens();
    load.advance(LoadEvent::LensRead { output_dimension: None });
    assert!(load.advance(LoadEvent::LensRead { output_dimension: None }).is_empty());
    assert_eq!(load.stage, Stage::FetchingThumbnail);
}

#[test]
fn output_path_as_given() {
    let (mut load, _) = FileLoad::begin("/in/clip.mp4".to_string(), given());
    load.advance_to(probed(true), "/out/result.mp4".to_string());
    assert_eq!(load.options.output_path, "/out/result.mp4");
}

#[test]
fn queue_begins_a_load() {
    let queue: RenderQueue<()> = RenderQueue::new();
    let (_, begun) = queue.add_file("/in/clip.mp4".to_string(), Some(given()));
    let (load, action) = begun.unwrap();
    assert_eq!(load.path, "/in/clip.mp4");
    assert!(matches!(action, LoadAction::ProbeVideo { .. }));
    let (_, begun) = queue.add_file("/in/clip.mp4".to_string(), None);
    assert!(begun.is_none());
}
