//! What each step of a load does.

use vstd::prelude::*;

use crate::float64::Float64;
use crate::loading::is_project;
use crate::loading::FileLoadView;
use crate::loading::LoadActionView;
use crate::loading::LoadEventView;
use crate::loading::Stage;
use crate::options::RenderOptionsView;

verus! {

/// A file is a project if and only if its path ends with `.gyroflow`.
pub proof fn law_projects_end_with_gyroflow(path: Seq<char>, stem: Seq<char>)
    ensures
        is_project(stem + ".gyroflow"@),
        is_project(path) ==> exists|stem: Seq<char>| path == #[trigger] (stem + ".gyroflow"@),
{
    let ending = ".gyroflow"@;
    assert((stem + ending).skip(stem.len() as int) =~= ending);
    if is_project(path) {
        let front = path.take(path.len() - ending.len());
        assert(path =~= front + ending);
    }
}

/// A load begins with the path and the options given: a project is imported first, and any
/// other file examined as a video, under that path.
pub proof fn law_load_begins_with_the_file(path: Seq<char>, options: RenderOptionsView)
    ensures
        ({
            let load = FileLoadView::begun(path, options);
            &&& load.path == path
            &&& load.options == options
            &&& is_project(path) ==> load.stage == Stage::Importing && load.first_action() == (
            LoadActionView::ImportProject { path })
            &&& !is_project(path) ==> load.stage == Stage::Probing && load.first_action() == (
            LoadActionView::ProbeVideo { path })
        }),
{
}

/// An imported project with valid render options becomes a job with those options, in every
/// field: the options given do not matter. One without becomes no job. Where the project names
/// a video, a thumbnail of that video is fetched next; otherwise the load is over.
pub proof fn law_project_keeps_its_options(
    path: Seq<char>,
    given: RenderOptionsView,
    other: RenderOptionsView,
    saved: RenderOptionsView,
    video: Seq<char>,
    output: Seq<char>,
)
    requires
        is_project(path),
    ensures
        ({
            let load = FileLoadView::begun(path, given);
            let whole = LoadEventView::ProjectImported {
                output: Some(saved),
                video_file: Some(video),
            };
            let bare = LoadEventView::ProjectImported { output: Some(saved), video_file: None };
            let unset = LoadEventView::ProjectImported { output: None, video_file: Some(video) };
            let empty = LoadEventView::ProjectImported { output: None, video_file: None };
            let add = LoadActionView::AddJob { options: saved };
            let fetch = LoadActionView::FetchThumbnail { video_path: video, video_size: None };
            &&& load.actions(whole) == seq![add, fetch]
            &&& load.actions(bare) == seq![add]
            &&& load.actions(unset) == seq![fetch]
            &&& load.actions(empty) == Seq::<LoadActionView>::empty()
            &&& FileLoadView::begun(path, other).actions(whole) == load.actions(whole)
            &&& load.after(whole, output).stage == Stage::FetchingThumbnail
            &&& load.after(unset, output).stage == Stage::FetchingThumbnail
            &&& load.after(bare, output).stage == Stage::Done
            &&& load.after(empty, output).stage == Stage::Done
        }),
{
    let load = FileLoadView::begun(path, given);
    let add = LoadActionView::AddJob { options: saved };
    let fetch = LoadActionView::FetchThumbnail { video_path: video, video_size: None };
    let nothing = Seq::<LoadActionView>::empty();
    assert(seq![add] + seq![fetch] =~= seq![add, fetch]);
    assert(seq![add] + nothing =~= seq![add]);
    assert(nothing + seq![fetch] =~= seq![fetch]);
    assert(nothing + nothing =~= nothing);
}

/// A project that cannot be imported, and a file that cannot be examined as a video, end the
/// load with nothing to do.
pub proof fn law_unreadable_file_ends_load(load: FileLoadView, output: Seq<char>)
    ensures
        load.stage == Stage::Importing ==> {
            &&& load.after(LoadEventView::ImportFailed, output).stage == Stage::Done
            &&& load.actions(LoadEventView::ImportFailed) == Seq::<LoadActionView>::empty()
        },
        load.stage == Stage::Probing ==> {
            &&& load.after(LoadEventView::ProbeFailed, output).stage == Stage::Done
            &&& load.actions(LoadEventView::ProbeFailed) == Seq::<LoadActionView>::empty()
        },
{
}

/// A video that was examined gives the options its size and its bitrate and the output path,
/// and all of it is to be rendered; the other options stay. A video that plays is handed to the
/// stabilizer with its size; one that does not ends the load.
pub proof fn law_video_enters_its_figures(
    load: FileLoadView,
    width: usize,
    height: usize,
    bitrate: Float64,
    output: Seq<char>,
)
    requires
        load.stage == Stage::Probing,
    ensures
        ({
            let plays = LoadEventView::VideoProbed { width, height, bitrate, playable: true };
            let fails = LoadEventView::VideoProbed { width, height, bitrate, playable: false };
            let after = load.after(plays, output);
            &&& after.stage == Stage::Initializing
            &&& after.path == load.path
            &&& after.video_size == (width, height)
            &&& after.options.bitrate == bitrate
            &&& after.options.output_width == width
            &&& after.options.output_height == height
            &&& after.options.output_path == output
            &&& after.options.trim_start.bits == 0
            &&& after.options.trim_end.bits == 0x3FF0_0000_0000_0000
            &&& after.options.codec == load.options.codec
            &&& after.options.codec_options == load.options.codec_options
            &&& after.options.use_gpu == load.options.use_gpu
            &&& after.options.audio == load.options.audio
            &&& after.options.pixel_format == load.options.pixel_format
            &&& load.actions(plays) == seq![
                LoadActionView::Initialize { path: load.path, width, height },
            ]
            &&& load.after(fails, output).stage == Stage::Done
            &&& load.actions(fails) == Seq::<LoadActionView>::empty()
        }),
{
}

/// Whether a load at `stage` waits for `event`.
pub open spec fn waits_for(stage: Stage, event: LoadEventView) -> bool {
    match stage {
        Stage::Importing => event is ProjectImported || event is ImportFailed,
        Stage::Probing => event is VideoProbed || event is ProbeFailed,
        Stage::Initializing => event is Initialized || event is InitializationFailed,
        Stage::ReadingCamera => event is CameraRead,
        Stage::FindingProfile => event is ProfileSearched,
        Stage::LoadingProfile => event is ProfileLoaded || event is ProfileFailed,
        Stage::ReadingLens => event is LensRead,
        Stage::FetchingThumbnail => event is ThumbnailFetched || event is ThumbnailFailed,
        Stage::Done => false,
    }
}

/// An event that a load does not wait for changes nothing, and nothing is to be done.
pub proof fn law_event_out_of_turn_is_ignored(
    load: FileLoadView,
    event: LoadEventView,
    output: Seq<char>,
)
    requires
        !waits_for(load.stage, event),
    ensures
        load.after(event, output) == load,
        load.actions(event) == Seq::<LoadActionView>::empty(),
{
}

/// Only the examination of the video and the lens change the options of a load, and no step
/// changes its path.
pub proof fn law_steps_keep_path_and_options(
    load: FileLoadView,
    event: LoadEventView,
    output: Seq<char>,
)
    ensures
        load.after(event, output).path == load.path,
        !(event is VideoProbed) && !(event is LensRead) ==> {
            &&& load.after(event, output).options == load.options
            &&& load.after(event, output).video_size == load.video_size
        },
{
}

/// A stabilizer that is set up gets the size of the video and names the camera. Where a camera
/// is named, the lens profiles are searched for it, and a profile that is found is loaded
/// under the same name. Otherwise the lens is read at once.
pub proof fn law_camera_leads_to_its_profile(
    load: FileLoadView,
    identifier: Seq<char>,
    output: Seq<char>,
)
    ensures
        load.stage == Stage::Initializing ==> {
            &&& load.after(LoadEventView::Initialized, output).stage == Stage::ReadingCamera
            &&& load.actions(LoadEventView::Initialized) == seq![
                LoadActionView::ReadCamera {
                    width: load.video_size.0,
                    height: load.video_size.1,
                },
            ]
        },
        load.stage == Stage::ReadingCamera ==> {
            let named = LoadEventView::CameraRead { identifier };
            let after = load.after(named, output);
            let found = LoadEventView::ProfileSearched { found: true };
            let missing = LoadEventView::ProfileSearched { found: false };
            if identifier.len() == 0 {
                &&& after.stage == Stage::ReadingLens
                &&& load.actions(named) == seq![LoadActionView::ReadLens]
            } else {
                &&& after.stage == Stage::FindingProfile
                &&& load.actions(named) == seq![LoadActionView::FindProfile { identifier }]
                &&& after.after(found, output).stage == Stage::LoadingProfile
                &&& after.actions(found) == seq![LoadActionView::LoadProfile { identifier }]
                &&& after.after(missing, output).stage == Stage::ReadingLens
                &&& after.actions(missing) == seq![LoadActionView::ReadLens]
            }
        },
        load.stage == Stage::LoadingProfile ==> {
            &&& load.after(LoadEventView::ProfileLoaded, output).stage == Stage::ReadingLens
            &&& load.actions(LoadEventView::ProfileLoaded) == seq![LoadActionView::ReadLens]
        },
{
}

/// The lens is the last to be read: then the job is added, with the size of the lens where it
/// has one and every other option as it is, and a thumbnail of the file is fetched in the
/// shape of the video.
pub proof fn law_lens_gives_the_size(
    load: FileLoadView,
    width: usize,
    height: usize,
    output: Seq<char>,
)
    requires
        load.stage == Stage::ReadingLens,
    ensures
        ({
            let sized = LoadEventView::LensRead { output_dimension: Some((width, height)) };
            let unsized_lens = LoadEventView::LensRead { output_dimension: None };
            let fetch = LoadActionView::FetchThumbnail {
                video_path: load.path,
                video_size: Some(load.video_size),
            };
            &&& load.actions(sized) == seq![
                LoadActionView::AddJob {
                    options: RenderOptionsView {
                        output_width: width,
                        output_height: height,
                        ..load.options
                    },
                },
                fetch,
            ]
            &&& load.actions(unsized_lens) == seq![
                LoadActionView::AddJob { options: load.options },
                fetch,
            ]
            &&& load.after(sized, output).stage == Stage::FetchingThumbnail
            &&& load.after(unsized_lens, output).stage == Stage::FetchingThumbnail
        }),
{
}

/// A thumbnail that was fetched is shown, and ends the load, as does one that is missing.
pub proof fn law_thumbnail_ends_load(load: FileLoadView, url: Seq<char>, output: Seq<char>)
    requires
        load.stage == Stage::FetchingThumbnail,
    ensures
        ({
            let fetched = LoadEventView::ThumbnailFetched { url: Some(url) };
            let missing = LoadEventView::ThumbnailFetched { url: None };
            &&& load.actions(fetched) == seq![LoadActionView::ShowThumbnail { url }]
            &&& load.actions(missing) == Seq::<LoadActionView>::empty()
            &&& load.after(fetched, output).stage == Stage::Done
            &&& load.after(missing, output).stage == Stage::Done
        }),
{
}

/// A step of the stabilizer or of the thumbnail that fails ends the load, and its message is
/// reported as it is.
pub proof fn law_failed_step_is_reported(
    load: FileLoadView,
    message: Seq<char>,
    output: Seq<char>,
)
    ensures
        ({
            let report = seq![
                LoadActionView::ReportError { message: "An error occured: %1"@, arg: message },
            ];
            let setup = LoadEventView::InitializationFailed { message };
            let profile = LoadEventView::ProfileFailed { message };
            let thumbnail = LoadEventView::ThumbnailFailed { message };
            &&& load.stage == Stage::Initializing ==> load.actions(setup) == report && load.after(
                setup,
                output,
            ).stage == Stage::Done
            &&& load.stage == Stage::LoadingProfile ==> load.actions(profile) == report
                && load.after(profile, output).stage == Stage::Done
            &&& load.stage == Stage::FetchingThumbnail ==> load.actions(thumbnail) == report
                && load.after(thumbnail, output).stage == Stage::Done
        }),
{
}

} // verus!
