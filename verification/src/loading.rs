//! How a file becomes a job: what to ask of the outside, one step at a time.

use vstd::prelude::*;

use crate::float64::Float64;
use crate::options::RenderOptions;
use crate::options::RenderOptionsView;
use crate::output_path;
use crate::output_path::optional_text;
use crate::text;

verus! {

/// What a load waits for.
#[derive(Clone, Copy, Debug, PartialEq, Eq, Structural)]
pub enum Stage {
    /// A project file is being read.
    Importing,
    /// A video file is being examined.
    Probing,
    /// The stabilizer is being set up for the video.
    Initializing,
    /// The stabilizer finds out which camera took the video.
    ReadingCamera,
    /// The lens profiles are searched for the camera's.
    FindingProfile,
    /// The lens profile of the camera is being loaded.
    LoadingProfile,
    /// The lens tells the size of its output.
    ReadingLens,
    /// A thumbnail is being made.
    FetchingThumbnail,
    /// Nothing more.
    Done,
}

/// The load of one file.
#[derive(Debug)]
pub struct FileLoad {
    pub path: String,
    pub options: RenderOptions,
    /// Width and height of the video, once known.
    pub video_size: (usize, usize),
    /// The identifier of the camera, once known.
    pub camera: String,
    pub stage: Stage,
}

/// What a `FileLoad` holds.
#[verifier::ext_equal]
pub struct FileLoadView {
    pub path: Seq<char>,
    pub options: RenderOptionsView,
    pub video_size: (usize, usize),
    pub camera: Seq<char>,
    pub stage: Stage,
}

impl View for FileLoad {
    type V = FileLoadView;

    open spec fn view(&self) -> FileLoadView {
        FileLoadView {
            path: self.path@,
            options: self.options@,
            video_size: self.video_size,
            camera: self.camera@,
            stage: self.stage,
        }
    }
}

/// What happened outside.
#[derive(Debug)]
pub enum LoadEvent {
    /// The project was read; `output` are its render options, where it has valid ones.
    ProjectImported { output: Option<RenderOptions>, video_file: Option<String> },
    ImportFailed,
    /// The video was examined; `playable` says that its duration and its frame rate are
    /// positive.
    VideoProbed { width: usize, height: usize, bitrate: Float64, playable: bool },
    ProbeFailed,
    Initialized,
    InitializationFailed { message: String },
    /// The camera is known by `identifier`, which is empty where no camera is known.
    CameraRead { identifier: String },
    ProfileSearched { found: bool },
    ProfileLoaded,
    ProfileFailed { message: String },
    LensRead { output_dimension: Option<(usize, usize)> },
    ThumbnailFetched { url: Option<String> },
    ThumbnailFailed { message: String },
}

/// What a `LoadEvent` holds.
pub enum LoadEventView {
    ProjectImported { output: Option<RenderOptionsView>, video_file: Option<Seq<char>> },
    ImportFailed,
    VideoProbed { width: usize, height: usize, bitrate: Float64, playable: bool },
    ProbeFailed,
    Initialized,
    InitializationFailed { message: Seq<char> },
    CameraRead { identifier: Seq<char> },
    ProfileSearched { found: bool },
    ProfileLoaded,
    ProfileFailed { message: Seq<char> },
    LensRead { output_dimension: Option<(usize, usize)> },
    ThumbnailFetched { url: Option<Seq<char>> },
    ThumbnailFailed { message: Seq<char> },
}

impl View for LoadEvent {
    type V = LoadEventView;

    open spec fn view(&self) -> LoadEventView {
        match *self {
            LoadEvent::ProjectImported { output, video_file } => LoadEventView::ProjectImported {
                output: match output {
                    Some(options) => Some(options@),
                    None => None,
                },
                video_file: optional_text(video_file),
            },
            LoadEvent::ImportFailed => LoadEventView::ImportFailed,
            LoadEvent::VideoProbed { width, height, bitrate, playable } =>
            LoadEventView::VideoProbed { width, height, bitrate, playable },
            LoadEvent::ProbeFailed => LoadEventView::ProbeFailed,
            LoadEvent::Initialized => LoadEventView::Initialized,
            LoadEvent::InitializationFailed { message } => LoadEventView::InitializationFailed {
                message: message@,
            },
            LoadEvent::CameraRead { identifier } => LoadEventView::CameraRead {
                identifier: identifier@,
            },
            LoadEvent::ProfileSearched { found } => LoadEventView::ProfileSearched { found },
            LoadEvent::ProfileLoaded => LoadEventView::ProfileLoaded,
            LoadEvent::ProfileFailed { message } => LoadEventView::ProfileFailed {
                message: message@,
            },
            LoadEvent::LensRead { output_dimension } => LoadEventView::LensRead {
                output_dimension,
            },
            LoadEvent::ThumbnailFetched { url } => LoadEventView::ThumbnailFetched {
                url: optional_text(url),
            },
            LoadEvent::ThumbnailFailed { message } => LoadEventView::ThumbnailFailed {
                message: message@,
            },
        }
    }
}

/// What has to be done outside.
#[derive(Debug)]
pub enum LoadAction {
    ImportProject { path: String },
    ProbeVideo { path: String },
    /// The stabilizer has to be set up for the video.
    Initialize { path: String, width: usize, height: usize },
    /// The stabilizer has to take the sizes and to be recomputed, and then to name the camera.
    ReadCamera { width: usize, height: usize },
    FindProfile { identifier: String },
    LoadProfile { identifier: String },
    ReadLens,
    /// The job is to be added to the queue.
    AddJob { options: RenderOptions },
    /// A thumbnail has to be made of a video of this size; of the stabilizer's video size
    /// where none is given.
    FetchThumbnail { video_path: String, video_size: Option<(usize, usize)> },
    /// The job's row is to show this thumbnail.
    ShowThumbnail { url: String },
    /// The load has failed; `arg` stands for `%1` in `message`.
    ReportError { message: String, arg: String },
}

/// What a `LoadAction` holds.
#[verifier::ext_equal]
pub enum LoadActionView {
    ImportProject { path: Seq<char> },
    ProbeVideo { path: Seq<char> },
    Initialize { path: Seq<char>, width: usize, height: usize },
    ReadCamera { width: usize, height: usize },
    FindProfile { identifier: Seq<char> },
    LoadProfile { identifier: Seq<char> },
    ReadLens,
    AddJob { options: RenderOptionsView },
    FetchThumbnail { video_path: Seq<char>, video_size: Option<(usize, usize)> },
    ShowThumbnail { url: Seq<char> },
    ReportError { message: Seq<char>, arg: Seq<char> },
}

impl View for LoadAction {
    type V = LoadActionView;

    open spec fn view(&self) -> LoadActionView {
        match *self {
            LoadAction::ImportProject { path } => LoadActionView::ImportProject { path: path@ },
            LoadAction::ProbeVideo { path } => LoadActionView::ProbeVideo { path: path@ },
            LoadAction::Initialize { path, width, height } => LoadActionView::Initialize {
                path: path@,
                width,
                height,
            },
            LoadAction::ReadCamera { width, height } => LoadActionView::ReadCamera {
                width,
                height,
            },
            LoadAction::FindProfile { identifier } => LoadActionView::FindProfile {
                identifier: identifier@,
            },
            LoadAction::LoadProfile { identifier } => LoadActionView::LoadProfile {
                identifier: identifier@,
            },
            LoadAction::ReadLens => LoadActionView::ReadLens,
            LoadAction::AddJob { options } => LoadActionView::AddJob { options: options@ },
            LoadAction::FetchThumbnail { video_path, video_size } =>
            LoadActionView::FetchThumbnail { video_path: video_path@, video_size },
            LoadAction::ShowThumbnail { url } => LoadActionView::ShowThumbnail { url: url@ },
            LoadAction::ReportError { message, arg } => LoadActionView::ReportError {
                message: message@,
                arg: arg@,
            },
        }
    }
}

/// The contents of a list of actions.
pub open spec fn actions_view(actions: Seq<LoadAction>) -> Seq<LoadActionView> {
    actions.map_values(|action: LoadAction| action@)
}

/// Whether `path` is that of a project file.
pub open spec fn is_project(path: Seq<char>) -> bool {
    let ending = ".gyroflow"@;
    ending.len() <= path.len() && path.skip(path.len() - ending.len()) == ending
}

/// The report of a failed step.
pub open spec fn failure_report(message: Seq<char>) -> LoadActionView {
    LoadActionView::ReportError { message: "An error occured: %1"@, arg: message }
}

impl FileLoadView {
    /// The load before its first step.
    pub open spec fn begun(path: Seq<char>, options: RenderOptionsView) -> FileLoadView {
        FileLoadView {
            path,
            options,
            video_size: (0, 0),
            camera: seq![],
            stage: if is_project(path) {
                Stage::Importing
            } else {
                Stage::Probing
            },
        }
    }

    /// The first thing to be done: a project is imported, anything else is taken for a video.
    pub open spec fn first_action(self) -> LoadActionView {
        if is_project(self.path) {
            LoadActionView::ImportProject { path: self.path }
        } else {
            LoadActionView::ProbeVideo { path: self.path }
        }
    }

    /// The load at another stage.
    pub open spec fn at(self, stage: Stage) -> FileLoadView {
        FileLoadView { stage, ..self }
    }

    /// The load of a video of known size and bitrate that renders to `output`, untrimmed.
    pub open spec fn probed(
        self,
        width: usize,
        height: usize,
        bitrate: Float64,
        output: Seq<char>,
    ) -> FileLoadView {
        FileLoadView {
            options: RenderOptionsView {
                bitrate,
                output_width: width,
                output_height: height,
                output_path: output,
                trim_start: Float64::spec_zero(),
                trim_end: Float64::spec_one(),
                ..self.options
            },
            video_size: (width, height),
            ..self
        }
    }

    /// The load with the size of the rendered video set where the lens has one.
    pub open spec fn sized(self, output_dimension: Option<(usize, usize)>) -> FileLoadView {
        match output_dimension {
            Some((width, height)) => FileLoadView {
                options: RenderOptionsView {
                    output_width: width,
                    output_height: height,
                    ..self.options
                },
                ..self
            },
            None => self,
        }
    }

    /// The load after `event`, where `output` is the output path of the file.
    ///
    /// An event that the load does not wait for changes nothing.
    pub open spec fn after(self, event: LoadEventView, output: Seq<char>) -> FileLoadView {
        match (self.stage, event) {
            (Stage::Importing, LoadEventView::ProjectImported { output: _, video_file }) =>
            if video_file is Some {
                self.at(Stage::FetchingThumbnail)
            } else {
                self.at(Stage::Done)
            },
            (Stage::Importing, LoadEventView::ImportFailed) => self.at(Stage::Done),
            (Stage::Probing, LoadEventView::VideoProbed { width, height, bitrate, playable }) => {
                let probed = self.probed(width, height, bitrate, output);
                if playable {
                    probed.at(Stage::Initializing)
                } else {
                    probed.at(Stage::Done)
                }
            },
            (Stage::Probing, LoadEventView::ProbeFailed) => self.at(Stage::Done),
            (Stage::Initializing, LoadEventView::Initialized) => self.at(Stage::ReadingCamera),
            (Stage::Initializing, LoadEventView::InitializationFailed { message: _ }) => self.at(
                Stage::Done,
            ),
            (Stage::ReadingCamera, LoadEventView::CameraRead { identifier }) => FileLoadView {
                camera: identifier,
                stage: if identifier.len() > 0 {
                    Stage::FindingProfile
                } else {
                    Stage::ReadingLens
                },
                ..self
            },
            (Stage::FindingProfile, LoadEventView::ProfileSearched { found }) => if found {
                self.at(Stage::LoadingProfile)
            } else {
                self.at(Stage::ReadingLens)
            },
            (Stage::LoadingProfile, LoadEventView::ProfileLoaded) => self.at(Stage::ReadingLens),
            (Stage::LoadingProfile, LoadEventView::ProfileFailed { message: _ }) => self.at(
                Stage::Done,
            ),
            (Stage::ReadingLens, LoadEventView::LensRead { output_dimension }) => self.sized(
                output_dimension,
            ).at(Stage::FetchingThumbnail),
            (Stage::FetchingThumbnail, LoadEventView::ThumbnailFetched { url: _ }) => self.at(
                Stage::Done,
            ),
            (Stage::FetchingThumbnail, LoadEventView::ThumbnailFailed { message: _ }) => self.at(
                Stage::Done,
            ),
            _ => self,
        }
    }

    /// What is to be done after `event`.
    pub open spec fn actions(self, event: LoadEventView) -> Seq<LoadActionView> {
        match (self.stage, event) {
            (Stage::Importing, LoadEventView::ProjectImported { output, video_file }) => (
            match output {
                Some(options) => seq![LoadActionView::AddJob { options }],
                None => seq![],
            }) + (match video_file {
                Some(video_path) => seq![
                    LoadActionView::FetchThumbnail { video_path, video_size: None },
                ],
                None => seq![],
            }),
            (Stage::Probing, LoadEventView::VideoProbed { width, height, bitrate: _, playable }) =>
            if playable {
                seq![LoadActionView::Initialize { path: self.path, width, height }]
            } else {
                seq![]
            },
            (Stage::Initializing, LoadEventView::Initialized) => seq![
                LoadActionView::ReadCamera {
                    width: self.video_size.0,
                    height: self.video_size.1,
                },
            ],
            (Stage::Initializing, LoadEventView::InitializationFailed { message }) => seq![
                failure_report(message),
            ],
            (Stage::ReadingCamera, LoadEventView::CameraRead { identifier }) => if identifier.len()
                > 0 {
                seq![LoadActionView::FindProfile { identifier }]
            } else {
                seq![LoadActionView::ReadLens]
            },
            (Stage::FindingProfile, LoadEventView::ProfileSearched { found }) => if found {
                seq![LoadActionView::LoadProfile { identifier: self.camera }]
            } else {
                seq![LoadActionView::ReadLens]
            },
            (Stage::LoadingProfile, LoadEventView::ProfileLoaded) => seq![LoadActionView::ReadLens],
            (Stage::LoadingProfile, LoadEventView::ProfileFailed { message }) => seq![
                failure_report(message),
            ],
            (Stage::ReadingLens, LoadEventView::LensRead { output_dimension }) => seq![
                LoadActionView::AddJob { options: self.sized(output_dimension).options },
                LoadActionView::FetchThumbnail {
                    video_path: self.path,
                    video_size: Some(self.video_size),
                },
            ],
            (Stage::FetchingThumbnail, LoadEventView::ThumbnailFetched { url }) => match url {
                Some(url) => seq![LoadActionView::ShowThumbnail { url }],
                None => seq![],
            },
            (Stage::FetchingThumbnail, LoadEventView::ThumbnailFailed { message }) => seq![
                failure_report(message),
            ],
            _ => seq![],
        }
    }
}

/// How many events a load at this stage takes at most.
pub open spec fn events_left(stage: Stage) -> nat {
    match stage {
        Stage::Importing => 2,
        Stage::Probing => 7,
        Stage::Initializing => 6,
        Stage::ReadingCamera => 5,
        Stage::FindingProfile => 4,
        Stage::LoadingProfile => 3,
        Stage::ReadingLens => 2,
        Stage::FetchingThumbnail => 1,
        Stage::Done => 0,
    }
}

/// A load comes to an end: an event either is not waited for, and then changes nothing and
/// asks for nothing, or brings the load closer to its end.
pub proof fn law_load_ends(load: FileLoadView, event: LoadEventView, output: Seq<char>)
    ensures
        ({
            let after = load.after(event, output);
            ||| after == load && load.actions(event) == Seq::<LoadActionView>::empty()
            ||| events_left(after.stage) < events_left(load.stage)
        }),
{
}

/// Whether a list of actions adds a job.
pub open spec fn adds_job(actions: Seq<LoadActionView>) -> bool {
    exists|i: int| 0 <= i < actions.len() && (#[trigger] actions[i]) is AddJob
}

/// Whether the job of a load may still be added.
pub open spec fn before_adding(stage: Stage) -> bool {
    events_left(stage) >= 2
}

/// A load adds at most one job: none once one was added, and none after a failure.
pub proof fn law_load_adds_one_job(load: FileLoadView, event: LoadEventView, output: Seq<char>)
    ensures
        adds_job(load.actions(event)) ==> before_adding(load.stage),
        adds_job(load.actions(event)) ==> !before_adding(load.after(event, output).stage),
        !before_adding(load.stage) ==> !before_adding(load.after(event, output).stage),
        forall|i: int|
            0 <= i < load.actions(event).len() && (#[trigger] load.actions(event)[i])
                is ReportError ==> load.after(event, output).stage == Stage::Done,
{
}

/// The job of a video, with or without a lens profile for its camera: it renders the whole
/// video to `output`, with the bitrate of the video and the size that the lens gives, or else
/// that of the video. Everything else is as in the options given.
pub proof fn law_video_job_options(
    path: Seq<char>,
    options: RenderOptionsView,
    width: usize,
    height: usize,
    bitrate: Float64,
    output: Seq<char>,
    identifier: Seq<char>,
    found: bool,
    output_dimension: Option<(usize, usize)>,
)
    requires
        !is_project(path),
    ensures
        ({
            let probed = FileLoadView::begun(path, options).after(
                LoadEventView::VideoProbed { width, height, bitrate, playable: true },
                output,
            );
            let camera = probed.after(LoadEventView::Initialized, output).after(
                LoadEventView::CameraRead { identifier },
                output,
            );
            let searched = camera.after(LoadEventView::ProfileSearched { found }, output);
            let ready = searched.after(LoadEventView::ProfileLoaded, output);
            let actions = ready.actions(LoadEventView::LensRead { output_dimension });
            &&& ready.stage == Stage::ReadingLens
            &&& actions.len() == 2
            &&& actions[0] == LoadActionView::AddJob {
                options: RenderOptionsView {
                    bitrate,
                    output_path: output,
                    output_width: match output_dimension {
                        Some(size) => size.0,
                        None => width,
                    },
                    output_height: match output_dimension {
                        Some(size) => size.1,
                        None => height,
                    },
                    trim_start: Float64::spec_zero(),
                    trim_end: Float64::spec_one(),
                    ..options
                },
            }
            &&& actions[1] == LoadActionView::FetchThumbnail {
                video_path: path,
                video_size: Some((width, height)),
            }
        }),
{
}

/// Whether `path` is that of a project file.
pub fn is_project_file(path: &str) -> (project: bool)
    ensures
        project == is_project(path@),
{
    let ending = ".gyroflow";
    let length = path.unicode_len();
    let ending_length = ending.unicode_len();
    ending_length <= length && {
        let tail = path.substring_char(length - ending_length, length);
        assert(tail@ =~= path@.skip(length - ending_length));
        text::same_text(tail, ending)
    }
}

impl FileLoad {
    /// Begins the load of a file, and says what to do first.
    pub fn begin(path: String, options: RenderOptions) -> (result: (FileLoad, LoadAction))
        ensures
            result.0@ == FileLoadView::begun(path@, options@),
            result.1@ == FileLoadView::begun(path@, options@).first_action(),
    {
        let project = is_project_file(&path);
        let action = if project {
            LoadAction::ImportProject { path: path.clone() }
        } else {
            LoadAction::ProbeVideo { path: path.clone() }
        };
        let load = FileLoad {
            path,
            options,
            video_size: (0, 0),
            camera: String::new(),
            stage: if project {
                Stage::Importing
            } else {
                Stage::Probing
            },
        };
        (load, action)
    }

    /// Takes an event, where `output` is the output path of the file, and says what to do.
    pub fn advance_to(&mut self, event: LoadEvent, output: String) -> (actions: Vec<LoadAction>)
        ensures
            final(self)@ == old(self)@.after(event@, output@),
            actions_view(actions@) == old(self)@.actions(event@),
    {
        let ghost first = self@;
        let ghost happened = event@;
        let mut actions: Vec<LoadAction> = Vec::new();
        match (self.stage, event) {
            (Stage::Importing, LoadEvent::ProjectImported { output, video_file }) => {
                if let Some(options) = output {
                    actions.push(LoadAction::AddJob { options });
                }
                match video_file {
                    Some(video_path) => {
                        self.stage = Stage::FetchingThumbnail;
                        actions.push(
                            LoadAction::FetchThumbnail { video_path, video_size: None },
                        );
                    },
                    None => {
                        self.stage = Stage::Done;
                    },
                }
            },
            (Stage::Importing, LoadEvent::ImportFailed) => {
                self.stage = Stage::Done;
            },
            (Stage::Probing, LoadEvent::VideoProbed { width, height, bitrate, playable }) => {
                self.options.bitrate = bitrate;
                self.options.output_width = width;
                self.options.output_height = height;
                self.options.output_path = output;
                self.options.trim_start = Float64::zero();
                self.options.trim_end = Float64::one();
                self.video_size = (width, height);
                if playable {
                    self.stage = Stage::Initializing;
                    actions.push(
                        LoadAction::Initialize { path: self.path.clone(), width, height },
                    );
                } else {
                    self.stage = Stage::Done;
                }
            },
            (Stage::Probing, LoadEvent::ProbeFailed) => {
                self.stage = Stage::Done;
            },
            (Stage::Initializing, LoadEvent::Initialized) => {
                self.stage = Stage::ReadingCamera;
                actions.push(
                    LoadAction::ReadCamera {
                        width: self.video_size.0,
                        height: self.video_size.1,
                    },
                );
            },
            (Stage::Initializing, LoadEvent::InitializationFailed { message }) => {
                self.stage = Stage::Done;
                actions.push(report_failure(message));
            },
            (Stage::ReadingCamera, LoadEvent::CameraRead { identifier }) => {
                self.camera = identifier.clone();
                if !identifier.as_str().is_empty() {
                    self.stage = Stage::FindingProfile;
                    actions.push(LoadAction::FindProfile { identifier });
                } else {
                    self.stage = Stage::ReadingLens;
                    actions.push(LoadAction::ReadLens);
                }
            },
            (Stage::FindingProfile, LoadEvent::ProfileSearched { found }) => {
                if found {
                    self.stage = Stage::LoadingProfile;
                    actions.push(LoadAction::LoadProfile { identifier: self.camera.clone() });
                } else {
                    self.stage = Stage::ReadingLens;
                    actions.push(LoadAction::ReadLens);
                }
            },
            (Stage::LoadingProfile, LoadEvent::ProfileLoaded) => {
                self.stage = Stage::ReadingLens;
                actions.push(LoadAction::ReadLens);
            },
            (Stage::LoadingProfile, LoadEvent::ProfileFailed { message }) => {
                self.stage = Stage::Done;
                actions.push(report_failure(message));
            },
            (Stage::ReadingLens, LoadEvent::LensRead { output_dimension }) => {
                if let Some((width, height)) = output_dimension {
                    self.options.output_width = width;
                    self.options.output_height = height;
                }
                self.stage = Stage::FetchingThumbnail;
                actions.push(LoadAction::AddJob { options: self.options.clone() });
                actions.push(
                    LoadAction::FetchThumbnail {
                        video_path: self.path.clone(),
                        video_size: Some(self.video_size),
                    },
                );
            },
            (Stage::FetchingThumbnail, LoadEvent::ThumbnailFetched { url }) => {
                self.stage = Stage::Done;
                if let Some(url) = url {
                    actions.push(LoadAction::ShowThumbnail { url });
                }
            },
            (Stage::FetchingThumbnail, LoadEvent::ThumbnailFailed { message }) => {
                self.stage = Stage::Done;
                actions.push(report_failure(message));
            },
            _ => {},
        }
        assert(self@ =~= first.after(happened, output@));
        assert(actions_view(actions@) =~= first.actions(happened));
        actions
    }

    /// Takes an event, and says what to do.
    pub fn advance(&mut self, event: LoadEvent) -> (actions: Vec<LoadAction>)
        ensures
            exists|output: Seq<char>|
                {
                    &&& output_path::is_output_path(
                        old(self)@.path,
                        old(self)@.options.codec,
                        output,
                    )
                    &&& final(self)@ == #[trigger] old(self)@.after(event@, output)
                },
            actions_view(actions@) == old(self)@.actions(event@),
    {
        let output = output_path::get_output_path(&self.path, &self.options.codec);
        let ghost found = output@;
        let ghost first = self@;
        let actions = self.advance_to(event, output);
        assert(self@ == first.after(event@, found));
        actions
    }
}

/// The report of a failed step.
fn report_failure(message: String) -> (action: LoadAction)
    ensures
        action@ == failure_report(message@),
{
    LoadAction::ReportError { message: "An error occured: %1".to_owned(), arg: message }
}

} // verus!
