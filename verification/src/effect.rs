//! What the owner of a queue has to do after an operation.

use vstd::prelude::*;

use crate::float64::Float64;
use crate::model::QueueStatus;
use crate::options::RenderOptions;
use crate::options::RenderOptionsView;

verus! {

/// Something to be done outside the queue, in the order in which effects are listed.
#[derive(Debug)]
pub enum Effect {
    /// Rows were added or removed.
    QueueChanged,
    /// The frame counters or the timestamps of the queue changed; the timestamps are now these.
    ProgressChanged { start_timestamp: u64, end_timestamp: u64 },
    /// The status of the queue was set.
    StatusChanged { status: QueueStatus },
    /// A job was added.
    Added { job_id: u32 },
    /// A renderer has come this far, from 0.0 to 1.0.
    RenderProgress {
        job_id: u32,
        progress: Float64,
        current_frame: usize,
        total_frames: usize,
        finished: bool,
    },
    /// A renderer needs another pixel format; `supported` lists those to choose from.
    ConvertFormat { job_id: u32, format: String, supported: String },
    /// A job failed; `arg` stands for `%1` in `text`.
    Error { job_id: u32, text: String, arg: String, callback: String },
    /// The launch of the job's renderer has to be reported to the queue, by `on_launch`, ahead
    /// of all reports of that renderer.
    ReportLaunch { job_id: u32 },
    /// A renderer has to be launched for the job.
    StartRender { job_id: u32, single: bool, input_file: String, render_options: RenderOptions },
}

/// What an `Effect` holds.
#[verifier::ext_equal]
pub enum EffectView {
    QueueChanged,
    ProgressChanged { start_timestamp: u64, end_timestamp: u64 },
    StatusChanged { status: QueueStatus },
    Added { job_id: u32 },
    RenderProgress {
        job_id: u32,
        progress: Float64,
        current_frame: usize,
        total_frames: usize,
        finished: bool,
    },
    ConvertFormat { job_id: u32, format: Seq<char>, supported: Seq<char> },
    Error { job_id: u32, text: Seq<char>, arg: Seq<char>, callback: Seq<char> },
    ReportLaunch { job_id: u32 },
    StartRender {
        job_id: u32,
        single: bool,
        input_file: Seq<char>,
        render_options: RenderOptionsView,
    },
}

impl View for Effect {
    type V = EffectView;

    open spec fn view(&self) -> EffectView {
        match *self {
            Effect::QueueChanged => EffectView::QueueChanged,
            Effect::ProgressChanged { start_timestamp, end_timestamp } =>
            EffectView::ProgressChanged { start_timestamp, end_timestamp },
            Effect::StatusChanged { status } => EffectView::StatusChanged { status },
            Effect::Added { job_id } => EffectView::Added { job_id },
            Effect::RenderProgress { job_id, progress, current_frame, total_frames, finished } =>
            EffectView::RenderProgress { job_id, progress, current_frame, total_frames, finished },
            Effect::ConvertFormat { job_id, format, supported } => EffectView::ConvertFormat {
                job_id,
                format: format@,
                supported: supported@,
            },
            Effect::Error { job_id, text, arg, callback } => EffectView::Error {
                job_id,
                text: text@,
                arg: arg@,
                callback: callback@,
            },
            Effect::ReportLaunch { job_id } => EffectView::ReportLaunch { job_id },
            Effect::StartRender { job_id, single, input_file, render_options } =>
            EffectView::StartRender {
                job_id,
                single,
                input_file: input_file@,
                render_options: render_options@,
            },
        }
    }
}

/// The contents of a list of effects.
pub open spec fn effects_view(effects: Seq<Effect>) -> Seq<EffectView> {
    effects.map_values(|effect: Effect| effect@)
}

} // verus!
