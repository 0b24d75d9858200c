//! The rows of the queue, and the jobs behind them.

use vstd::prelude::*;

use crate::options::RenderOptions;
use crate::options::RenderOptionsView;

verus! {

/// How far a row of the queue has come.
#[derive(Clone, Copy, Debug, PartialEq, Eq, Structural)]
pub enum JobStatus {
    Queued,
    Rendering,
    Finished,
    Error,
}

impl Default for JobStatus {
    fn default() -> (status: JobStatus)
        ensures
            status == JobStatus::Queued,
    {
        JobStatus::Queued
    }
}

/// One row of the queue, as it is shown.
#[derive(Debug)]
pub struct RenderQueueItem {
    pub job_id: u32,
    pub input_file: String,
    pub output_path: String,
    pub export_settings: String,
    pub thumbnail_url: String,
    pub current_frame: u64,
    pub total_frames: u64,
    /// When rendering began, in milliseconds, or zero.
    pub start_timestamp: u64,
    /// When the last progress came, in milliseconds, or zero.
    pub end_timestamp: u64,
    pub error_string: String,
    pub status: JobStatus,
}

/// What a `RenderQueueItem` holds.
#[verifier::ext_equal]
pub struct ItemView {
    pub job_id: u32,
    pub input_file: Seq<char>,
    pub output_path: Seq<char>,
    pub export_settings: Seq<char>,
    pub thumbnail_url: Seq<char>,
    pub current_frame: u64,
    pub total_frames: u64,
    pub start_timestamp: u64,
    pub end_timestamp: u64,
    pub error_string: Seq<char>,
    pub status: JobStatus,
}

impl View for RenderQueueItem {
    type V = ItemView;

    open spec fn view(&self) -> ItemView {
        ItemView {
            job_id: self.job_id,
            input_file: self.input_file@,
            output_path: self.output_path@,
            export_settings: self.export_settings@,
            thumbnail_url: self.thumbnail_url@,
            current_frame: self.current_frame,
            total_frames: self.total_frames,
            start_timestamp: self.start_timestamp,
            end_timestamp: self.end_timestamp,
            error_string: self.error_string@,
            status: self.status,
        }
    }
}

impl Clone for RenderQueueItem {
    fn clone(&self) -> (copy: RenderQueueItem)
        ensures
            copy == *self,
    {
        RenderQueueItem {
            job_id: self.job_id,
            input_file: self.input_file.clone(),
            output_path: self.output_path.clone(),
            export_settings: self.export_settings.clone(),
            thumbnail_url: self.thumbnail_url.clone(),
            current_frame: self.current_frame,
            total_frames: self.total_frames,
            start_timestamp: self.start_timestamp,
            end_timestamp: self.end_timestamp,
            error_string: self.error_string.clone(),
            status: self.status,
        }
    }
}

impl ItemView {
    /// Whether the row waits for its first frame and has frames to render.
    pub open spec fn ready(self) -> bool {
        self.current_frame == 0 && self.total_frames > 0 && self.status == JobStatus::Queued
    }

    /// Whether rendering of the row has begun and has frames left.
    pub open spec fn underway(self) -> bool {
        self.start_timestamp > 0 && self.current_frame < self.total_frames
    }

    /// Whether the row renders or is done, and so cannot be launched.
    pub open spec fn launched(self) -> bool {
        self.status == JobStatus::Rendering || self.status == JobStatus::Finished
    }

    /// The row put back in line.
    pub open spec fn requeued(self) -> ItemView {
        ItemView { error_string: seq![], status: JobStatus::Queued, ..self }
    }

    /// The row marked as failed, with `message` shown.
    pub open spec fn failed(self, message: Seq<char>) -> ItemView {
        ItemView { error_string: message, status: JobStatus::Error, ..self }
    }
}

/// A job: what its renderer needs. `S` is the stabilizer that renders it.
#[derive(Debug)]
pub struct Job<S> {
    /// The row that shows the job.
    pub queue_index: usize,
    pub input_file: String,
    pub render_options: RenderOptions,
    /// Whether the job's renderer is told to give up.
    pub cancel_flag: bool,
    pub stab: S,
}

/// What a `Job` holds.
#[verifier::ext_equal]
pub struct JobView<S> {
    pub queue_index: int,
    pub input_file: Seq<char>,
    pub render_options: RenderOptionsView,
    pub cancel_flag: bool,
    pub stab: S,
}

impl<S> View for Job<S> {
    type V = JobView<S>;

    open spec fn view(&self) -> JobView<S> {
        JobView {
            queue_index: self.queue_index as int,
            input_file: self.input_file@,
            render_options: self.render_options@,
            cancel_flag: self.cancel_flag,
            stab: self.stab,
        }
    }
}

} // verus!
