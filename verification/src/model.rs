//! The queue as a mathematical value, and what every operation makes of it.

use vstd::prelude::*;

use crate::effect::EffectView;
use crate::float64::Float64;
use crate::formats::conversion_request;
use crate::item::ItemView;
use crate::item::JobStatus;
use crate::item::JobView;
use crate::options::RenderOptionsView;

verus! {

/// What the queue as a whole is doing.
#[derive(Clone, Copy, Debug, PartialEq, Eq, Structural)]
pub enum QueueStatus {
    Stopped,
    Active,
    Paused,
}

impl QueueStatus {
    /// The name of the status.
    pub open spec fn spec_name(self) -> Seq<char> {
        match self {
            QueueStatus::Stopped => "stopped"@,
            QueueStatus::Active => "active"@,
            QueueStatus::Paused => "paused"@,
        }
    }

    /// The name of the status.
    pub fn name(&self) -> (name: &'static str)
        ensures
            name@ == self.spec_name(),
    {
        match self {
            QueueStatus::Stopped => "stopped",
            QueueStatus::Active => "active",
            QueueStatus::Paused => "paused",
        }
    }
}

/// `timestamp` moved on by the time from `from` to `to`, on a clock of 64 bits.
pub open spec fn shifted(timestamp: u64, from: u64, to: u64) -> u64 {
    ((timestamp + (to - from)) % 0x1_0000_0000_0000_0000) as u64
}

/// `timestamp` moved on by the time from `from` to `to`, on a clock of 64 bits.
pub fn shift_timestamp(timestamp: u64, from: u64, to: u64) -> (moved: u64)
    ensures
        moved == shifted(timestamp, from, to),
{
    timestamp.wrapping_add(to.wrapping_sub(from))
}

/// The time from `since` to `now`, on a clock of 64 bits.
pub open spec fn elapsed(since: u64, now: u64) -> int {
    (now - since) % 0x1_0000_0000_0000_0000
}

/// Whether `row` is the last row of the job `job_id`.
pub open spec fn is_last_row(rows: Seq<ItemView>, job_id: u32, row: int) -> bool {
    &&& 0 <= row < rows.len()
    &&& rows[row].job_id == job_id
    &&& forall|later: int| row < later < rows.len() ==> (#[trigger] rows[later]).job_id != job_id
}

/// Whether the job `job_id` has no row.
pub open spec fn has_no_row(rows: Seq<ItemView>, job_id: u32) -> bool {
    forall|row: int| 0 <= row < rows.len() ==> (#[trigger] rows[row]).job_id != job_id
}

/// Whether `row` is the first row that is ready to render.
pub open spec fn is_first_ready(rows: Seq<ItemView>, row: int) -> bool {
    &&& 0 <= row < rows.len()
    &&& rows[row].ready()
    &&& forall|earlier: int| 0 <= earlier < row ==> !(#[trigger] rows[earlier]).ready()
}

/// Whether no row is ready to render.
pub open spec fn none_ready(rows: Seq<ItemView>) -> bool {
    forall|row: int| 0 <= row < rows.len() ==> !(#[trigger] rows[row]).ready()
}

/// The first row that is ready to render, if any is.
pub open spec fn first_ready(rows: Seq<ItemView>) -> Option<int> {
    if none_ready(rows) {
        None
    } else {
        Some(choose|row: int| is_first_ready(rows, row))
    }
}

/// `rows` with the start of every row underway moved on by the time from `from` to `to`.
pub open spec fn resumed_rows(rows: Seq<ItemView>, from: u64, to: u64) -> Seq<ItemView> {
    rows.map_values(
        |row: ItemView|
            if row.underway() {
                ItemView { start_timestamp: shifted(row.start_timestamp, from, to), ..row }
            } else {
                row
            },
    )
}

/// `jobs` with every cancel flag set to `flag`.
pub open spec fn flagged<S>(jobs: Map<u32, JobView<S>>, flag: bool) -> Map<u32, JobView<S>> {
    jobs.map_values(|job: JobView<S>| JobView { cancel_flag: flag, ..job })
}

/// The sum of `counts`.
pub open spec fn sum(counts: Seq<u64>) -> nat
    decreases counts.len(),
{
    if counts.len() == 0 {
        0
    } else {
        sum(counts.drop_last()) + counts.last() as nat
    }
}

/// The frames of each row.
pub open spec fn total_counts(rows: Seq<ItemView>) -> Seq<u64> {
    rows.map_values(|row: ItemView| row.total_frames)
}

/// The rendered frames of each row.
pub open spec fn current_counts(rows: Seq<ItemView>) -> Seq<u64> {
    rows.map_values(|row: ItemView| row.current_frame)
}

/// The state of a queue.
#[verifier::ext_equal]
pub struct QueueView<S> {
    pub queue: Seq<ItemView>,
    pub jobs: Map<u32, JobView<S>>,
    pub start_timestamp: u64,
    pub end_timestamp: u64,
    pub status: QueueStatus,
    pub pause_flag: bool,
    pub paused_timestamp: Option<u64>,
}

/// A progress report of a renderer.
#[derive(Clone, Copy, Debug)]
pub struct Progress {
    /// From 0.0 to 1.0.
    pub progress: Float64,
    pub current_frame: usize,
    pub total_frames: usize,
    pub finished: bool,
}

impl<S> QueueView<S> {
    /// Every job points at the last of its rows.
    pub open spec fn wf(self) -> bool {
        forall|job_id: u32| #[trigger]
            self.jobs.contains_key(job_id) ==> is_last_row(
                self.queue,
                job_id,
                self.jobs[job_id].queue_index,
            )
    }

    /// The queue before anything was added to it.
    pub open spec fn empty() -> QueueView<S> {
        QueueView {
            queue: seq![],
            jobs: Map::empty(),
            start_timestamp: 0,
            end_timestamp: 0,
            status: QueueStatus::Stopped,
            pause_flag: false,
            paused_timestamp: None,
        }
    }

    /// The row of a job.
    pub open spec fn row(self, job_id: u32) -> ItemView {
        self.queue[self.jobs[job_id].queue_index]
    }

    /// The queue with `row` in place of the row of a job; the same queue where there is no
    /// such job.
    pub open spec fn with_row(self, job_id: u32, row: ItemView) -> QueueView<S> {
        if self.jobs.contains_key(job_id) {
            QueueView { queue: self.queue.update(self.jobs[job_id].queue_index, row), ..self }
        } else {
            self
        }
    }

    /// The queue with `job` in place of a job that it has.
    pub open spec fn with_job(self, job_id: u32, job: JobView<S>) -> QueueView<S> {
        if self.jobs.contains_key(job_id) {
            QueueView { jobs: self.jobs.insert(job_id, job), ..self }
        } else {
            self
        }
    }

    /// The queue with the cancel flag of a job set to `flag`.
    pub open spec fn with_cancel_flag(self, job_id: u32, flag: bool) -> QueueView<S> {
        self.with_job(job_id, JobView { cancel_flag: flag, ..self.jobs[job_id] })
    }

    /// The queue with a new row at its end and the job behind it.
    pub open spec fn added(
        self,
        job_id: u32,
        input_file: Seq<char>,
        options: RenderOptionsView,
        settings: Seq<char>,
        total_frames: u64,
        thumbnail_url: Seq<char>,
        stab: S,
    ) -> QueueView<S> {
        QueueView {
            queue: self.queue.push(
                ItemView {
                    job_id,
                    input_file,
                    output_path: options.output_path,
                    export_settings: settings,
                    thumbnail_url,
                    current_frame: 0,
                    total_frames,
                    start_timestamp: 0,
                    end_timestamp: 0,
                    error_string: seq![],
                    status: JobStatus::Queued,
                },
            ),
            jobs: self.jobs.insert(
                job_id,
                JobView {
                    queue_index: self.queue.len() as int,
                    input_file,
                    render_options: options,
                    cancel_flag: false,
                    stab,
                },
            ),
            ..self
        }
    }

    /// The queue without a job and without its row; later rows move up.
    pub open spec fn removed(self, job_id: u32) -> QueueView<S> {
        if self.jobs.contains_key(job_id) {
            let gone = self.jobs[job_id].queue_index;
            QueueView {
                queue: self.queue.remove(gone),
                jobs: self.jobs.remove(job_id).map_values(
                    |job: JobView<S>|
                        JobView {
                            queue_index: if job.queue_index > gone {
                                job.queue_index - 1
                            } else {
                                job.queue_index
                            },
                            ..job
                        },
                ),
                ..self
            }
        } else {
            self
        }
    }

    /// Whether a request to render the job is followed.
    pub open spec fn launches(self, job_id: u32) -> bool {
        self.jobs.contains_key(job_id) && !self.row(job_id).launched()
    }

    /// The queue with the job's renderer launched, if the request is followed.
    pub open spec fn rendering(self, job_id: u32) -> QueueView<S> {
        if self.launches(job_id) {
            self.with_row(
                job_id,
                ItemView { status: JobStatus::Rendering, ..self.row(job_id) },
            ).with_cancel_flag(job_id, false)
        } else {
            self
        }
    }

    /// The effects of a request to render the job.
    pub open spec fn rendering_effects(self, job_id: u32, single: bool) -> Seq<EffectView> {
        if self.launches(job_id) {
            seq![
                EffectView::ReportLaunch { job_id },
                EffectView::StartRender {
                    job_id,
                    single,
                    input_file: self.jobs[job_id].input_file,
                    render_options: self.jobs[job_id].render_options,
                },
            ]
        } else {
            seq![]
        }
    }

    /// Whether starting begins a new run of the queue, and its clock.
    pub open spec fn begins_run(self) -> bool {
        !self.pause_flag && self.start_timestamp == 0
    }

    /// The queue active, with no flag raised and its clocks set, at the time `now`.
    ///
    /// The clock starts with a new run. Otherwise, after a pause, the queue and the rows
    /// underway go on as if the time since the pause had not passed.
    pub open spec fn activated(self, now: u64) -> QueueView<S> {
        let active = QueueView {
            jobs: flagged(self.jobs, false),
            status: QueueStatus::Active,
            pause_flag: false,
            ..self
        };
        if self.begins_run() {
            QueueView { start_timestamp: now, ..active }
        } else {
            match self.paused_timestamp {
                Some(paused) => QueueView {
                    start_timestamp: shifted(self.start_timestamp, paused, now),
                    paused_timestamp: None,
                    queue: resumed_rows(self.queue, paused, now),
                    ..active
                },
                None => active,
            }
        }
    }

    /// The effects of activating the queue at the time `now`.
    pub open spec fn activated_effects(self, now: u64) -> Seq<EffectView> {
        if self.begins_run() {
            seq![
                EffectView::StatusChanged { status: QueueStatus::Active },
                EffectView::ProgressChanged {
                    start_timestamp: now,
                    end_timestamp: self.end_timestamp,
                },
            ]
        } else {
            seq![EffectView::StatusChanged { status: QueueStatus::Active }]
        }
    }

    /// The queue with the first ready job launched, or stopped where none is ready.
    pub open spec fn advanced(self) -> QueueView<S> {
        match first_ready(self.queue) {
            Some(row) => self.rendering(self.queue[row].job_id),
            None => QueueView { start_timestamp: 0, status: QueueStatus::Stopped, ..self },
        }
    }

    /// The effects of finding no job ready.
    pub open spec fn run_over_effects(self) -> Seq<EffectView> {
        seq![
            EffectView::ProgressChanged { start_timestamp: 0, end_timestamp: self.end_timestamp },
            EffectView::StatusChanged { status: QueueStatus::Stopped },
        ]
    }

    /// The effects of launching the first ready job.
    pub open spec fn advanced_effects(self) -> Seq<EffectView> {
        match first_ready(self.queue) {
            Some(row) => self.rendering_effects(self.queue[row].job_id, false),
            None => self.run_over_effects(),
        }
    }

    /// The queue started or resumed at the time `now`. Only a queue that was not paused
    /// launches a job: after a pause the renderer at work goes on.
    pub open spec fn started(self, now: u64) -> QueueView<S> {
        if self.pause_flag {
            self.activated(now)
        } else {
            self.activated(now).advanced()
        }
    }

    /// The effects of starting the queue.
    pub open spec fn started_effects(self, now: u64) -> Seq<EffectView> {
        if self.pause_flag {
            self.activated_effects(now)
        } else {
            self.activated_effects(now) + self.activated(now).advanced_effects()
        }
    }

    /// The queue paused at the time `now`.
    pub open spec fn paused(self, now: u64) -> QueueView<S> {
        QueueView {
            pause_flag: true,
            paused_timestamp: Some(now),
            status: QueueStatus::Paused,
            ..self
        }
    }

    /// The queue stopped, with every job told to give up.
    pub open spec fn stopped(self) -> QueueView<S> {
        QueueView {
            pause_flag: false,
            jobs: flagged(self.jobs, true),
            status: QueueStatus::Stopped,
            ..self
        }
    }

    /// The queue with a job's row back in line.
    pub open spec fn requeued(self, job_id: u32) -> QueueView<S> {
        self.with_row(job_id, self.row(job_id).requeued())
    }

    /// The queue with a job's row marked as failed.
    pub open spec fn failed(self, job_id: u32, message: Seq<char>) -> QueueView<S> {
        self.with_row(job_id, self.row(job_id).failed(message))
    }

    /// The options of a job with its pixel format replaced, or with rendering on the GPU given
    /// up where the format is `cpu`.
    pub open spec fn reformatted_options(self, job_id: u32, format: Seq<char>) -> RenderOptionsView {
        let options = self.jobs[job_id].render_options;
        if format == "cpu"@ {
            RenderOptionsView { use_gpu: false, ..options }
        } else {
            RenderOptionsView { pixel_format: format, ..options }
        }
    }

    /// The queue with a job's pixel format replaced, or rendering on the GPU given up where
    /// the format is `cpu`, and the job's row back in line.
    pub open spec fn reformatted(self, job_id: u32, format: Seq<char>) -> QueueView<S> {
        let options = self.reformatted_options(job_id, format);
        self.with_job(
            job_id,
            JobView { render_options: options, ..self.jobs[job_id] },
        ).requeued(job_id)
    }

    /// The queue after a choice of pixel format, which starts a queue that is not active.
    pub open spec fn format_chosen(self, job_id: u32, format: Seq<char>, now: u64) -> QueueView<S> {
        if self.status == QueueStatus::Active {
            self.reformatted(job_id, format)
        } else {
            self.reformatted(job_id, format).started(now)
        }
    }

    /// The effects of a choice of pixel format.
    pub open spec fn format_chosen_effects(
        self,
        job_id: u32,
        format: Seq<char>,
        now: u64,
    ) -> Seq<EffectView> {
        if self.status == QueueStatus::Active {
            seq![]
        } else {
            self.reformatted(job_id, format).started_effects(now)
        }
    }

    /// The row of a job with a progress report entered, at the times `row_start` and
    /// `row_end`.
    pub open spec fn reported_row(
        self,
        job_id: u32,
        report: Progress,
        row_start: u64,
        row_end: u64,
    ) -> ItemView {
        let row = self.row(job_id);
        ItemView {
            current_frame: report.current_frame as u64,
            total_frames: report.total_frames as u64,
            start_timestamp: if row.start_timestamp == 0 {
                row_start
            } else {
                row.start_timestamp
            },
            end_timestamp: row_end,
            status: if report.finished {
                JobStatus::Finished
            } else {
                row.status
            },
            ..row
        }
    }

    /// The queue with a progress report on a job entered, at the times `row_start`,
    /// `row_end` and `queue_end`.
    pub open spec fn reported(
        self,
        job_id: u32,
        report: Progress,
        row_start: u64,
        row_end: u64,
        queue_end: u64,
    ) -> QueueView<S> {
        QueueView {
            end_timestamp: queue_end,
            ..self.with_row(job_id, self.reported_row(job_id, report, row_start, row_end))
        }
    }

    /// The effects of entering a progress report at the time `queue_end`.
    pub open spec fn reported_effects(
        self,
        job_id: u32,
        report: Progress,
        queue_end: u64,
    ) -> Seq<EffectView> {
        seq![
            EffectView::RenderProgress {
                job_id,
                progress: report.progress,
                current_frame: report.current_frame,
                total_frames: report.total_frames,
                finished: report.finished,
            },
            EffectView::ProgressChanged {
                start_timestamp: self.start_timestamp,
                end_timestamp: queue_end,
            },
        ]
    }

    /// The queue started again at the time `now`, unless a renderer was launched alone.
    pub open spec fn continued(self, single: bool, now: u64) -> QueueView<S> {
        if single {
            self
        } else {
            self.started(now)
        }
    }

    /// The effects of going on after a renderer.
    pub open spec fn continued_effects(self, single: bool, now: u64) -> Seq<EffectView> {
        if single {
            seq![]
        } else {
            self.started_effects(now)
        }
    }

    /// The queue after a progress report on a job. It goes on when the renderer is done.
    pub open spec fn progressed(
        self,
        job_id: u32,
        single: bool,
        report: Progress,
        row_start: u64,
        row_end: u64,
        queue_end: u64,
        now: u64,
    ) -> QueueView<S> {
        self.reported(job_id, report, row_start, row_end, queue_end).continued(
            !report.finished || single,
            now,
        )
    }

    /// The effects of a progress report on a job.
    pub open spec fn progressed_effects(
        self,
        job_id: u32,
        single: bool,
        report: Progress,
        row_start: u64,
        row_end: u64,
        queue_end: u64,
        now: u64,
    ) -> Seq<EffectView> {
        self.reported_effects(job_id, report, queue_end) + self.reported(
            job_id,
            report,
            row_start,
            row_end,
            queue_end,
        ).continued_effects(!report.finished || single, now)
    }

    /// The queue after a job's renderer failed.
    pub open spec fn errored(
        self,
        job_id: u32,
        single: bool,
        arg: Seq<char>,
        now: u64,
    ) -> QueueView<S> {
        self.failed(job_id, arg).continued(single, now)
    }

    /// The effects of a failed renderer.
    pub open spec fn errored_effects(
        self,
        job_id: u32,
        single: bool,
        message: Seq<char>,
        arg: Seq<char>,
        now: u64,
    ) -> Seq<EffectView> {
        seq![error_effect(job_id, message, arg), given_up(job_id)] + self.failed(
            job_id,
            arg,
        ).continued_effects(single, now)
    }

    /// The queue after a job's renderer gave up over its pixel format.
    pub open spec fn conversion_needed(
        self,
        job_id: u32,
        single: bool,
        format: Seq<char>,
        supported: Seq<char>,
        now: u64,
    ) -> QueueView<S> {
        self.failed(job_id, conversion_request(format, supported)).continued(single, now)
    }

    /// The effects of a renderer that gave up over its pixel format.
    pub open spec fn conversion_needed_effects(
        self,
        job_id: u32,
        single: bool,
        format: Seq<char>,
        supported: Seq<char>,
        now: u64,
    ) -> Seq<EffectView> {
        seq![EffectView::ConvertFormat { job_id, format, supported }, given_up(job_id)]
            + self.failed(job_id, conversion_request(format, supported)).continued_effects(
            single,
            now,
        )
    }

    /// The queue with the thumbnail of a job's row replaced.
    pub open spec fn illustrated(self, job_id: u32, thumbnail_url: Seq<char>) -> QueueView<S> {
        self.with_row(job_id, ItemView { thumbnail_url, ..self.row(job_id) })
    }
}

/// `arg` followed by the log of a renderer, with an empty line between.
pub open spec fn with_log(arg: Seq<char>, log: Seq<char>) -> Seq<char> {
    arg + "\n\n"@ + log
}

/// Editing a row keeps the queue well-formed.
pub proof fn lemma_with_row_wf<S>(state: QueueView<S>, job_id: u32, row: ItemView)
    requires
        state.wf(),
        row.job_id == state.row(job_id).job_id,
    ensures
        state.with_row(job_id, row).wf(),
{
    let edited = state.with_row(job_id, row);
    assert forall|id: u32| #[trigger] edited.jobs.contains_key(id) implies is_last_row(
        edited.queue,
        id,
        edited.jobs[id].queue_index,
    ) by {
        assert(state.jobs.contains_key(id));
        let at = state.jobs[id].queue_index;
        assert(is_last_row(state.queue, id, at));
        assert forall|later: int| at < later < edited.queue.len() implies (
        #[trigger] edited.queue[later]).job_id != id by {
            assert(state.queue[later].job_id != id);
        }
    }
}

/// Editing a job, but for the row that it points at, keeps the queue well-formed.
pub proof fn lemma_with_job_wf<S>(state: QueueView<S>, job_id: u32, job: JobView<S>)
    requires
        state.wf(),
        job.queue_index == state.jobs[job_id].queue_index,
    ensures
        state.with_job(job_id, job).wf(),
{
    let edited = state.with_job(job_id, job);
    assert forall|id: u32| #[trigger] edited.jobs.contains_key(id) implies is_last_row(
        edited.queue,
        id,
        edited.jobs[id].queue_index,
    ) by {
        assert(state.jobs.contains_key(id));
    }
}

/// Setting every cancel flag keeps the queue well-formed.
pub proof fn lemma_flagged_wf<S>(state: QueueView<S>, flag: bool)
    requires
        state.wf(),
    ensures
        (QueueView { jobs: flagged(state.jobs, flag), ..state }).wf(),
{
    assert forall|id: u32| #[trigger] flagged(state.jobs, flag).contains_key(id) implies is_last_row(
        state.queue,
        id,
        flagged(state.jobs, flag)[id].queue_index,
    ) by {
        assert(state.jobs.contains_key(id));
    }
}

/// Resuming the rows keeps the queue well-formed.
pub proof fn lemma_resumed_wf<S>(state: QueueView<S>, from: u64, to: u64)
    requires
        state.wf(),
    ensures
        (QueueView { queue: resumed_rows(state.queue, from, to), ..state }).wf(),
{
    let rows = resumed_rows(state.queue, from, to);
    assert forall|id: u32| #[trigger] state.jobs.contains_key(id) implies is_last_row(
        rows,
        id,
        state.jobs[id].queue_index,
    ) by {
        let at = state.jobs[id].queue_index;
        assert(is_last_row(state.queue, id, at));
        assert forall|later: int| at < later < rows.len() implies (
        #[trigger] rows[later]).job_id != id by {
            assert(state.queue[later].job_id != id);
        }
    }
}

/// Where a row is ready, there is a first one.
pub proof fn lemma_first_ready(rows: Seq<ItemView>)
    ensures
        match first_ready(rows) {
            Some(row) => is_first_ready(rows, row),
            None => none_ready(rows),
        },
    decreases rows.len(),
{
    if !none_ready(rows) {
        let shorter = rows.drop_last();
        lemma_first_ready(shorter);
        if none_ready(shorter) {
            assert forall|earlier: int| 0 <= earlier < rows.len() - 1 implies !(
            #[trigger] rows[earlier]).ready() by {
                assert(!shorter[earlier].ready());
            }
            assert(is_first_ready(rows, rows.len() - 1));
        } else {
            let row = first_ready(shorter)->0;
            assert(is_first_ready(shorter, row));
            assert forall|earlier: int| 0 <= earlier < row implies !(
            #[trigger] rows[earlier]).ready() by {
                assert(!shorter[earlier].ready());
            }
            assert(is_first_ready(rows, row));
        }
    }
}

/// Launching a renderer keeps the queue well-formed.
pub proof fn lemma_rendering_wf<S>(state: QueueView<S>, job_id: u32)
    requires
        state.wf(),
    ensures
        state.rendering(job_id).wf(),
{
    if state.launches(job_id) {
        let row = ItemView { status: JobStatus::Rendering, ..state.row(job_id) };
        lemma_with_row_wf(state, job_id, row);
        let shown = state.with_row(job_id, row);
        lemma_with_job_wf(
            shown,
            job_id,
            JobView { cancel_flag: false, ..shown.jobs[job_id] },
        );
    }
}

/// Starting keeps the queue well-formed.
pub proof fn lemma_started_wf<S>(state: QueueView<S>, now: u64)
    requires
        state.wf(),
    ensures
        state.activated(now).wf(),
        state.started(now).wf(),
{
    lemma_flagged_wf(state, false);
    let cleared = QueueView { jobs: flagged(state.jobs, false), ..state };
    if let Some(paused) = state.paused_timestamp {
        lemma_resumed_wf(cleared, paused, now);
        let resumed = QueueView { queue: resumed_rows(cleared.queue, paused, now), ..cleared };
        assert(state.activated(now).wf()) by {
            assert forall|id: u32| #[trigger] state.activated(now).jobs.contains_key(id) implies
                is_last_row(
                state.activated(now).queue,
                id,
                state.activated(now).jobs[id].queue_index,
            ) by {
                assert(resumed.jobs.contains_key(id));
                assert(cleared.jobs.contains_key(id));
            }
        }
    } else {
        assert forall|id: u32| #[trigger] state.activated(now).jobs.contains_key(id) implies
            is_last_row(
            state.activated(now).queue,
            id,
            state.activated(now).jobs[id].queue_index,
        ) by {
            assert(cleared.jobs.contains_key(id));
        }
    }
    let active = state.activated(now);
    if !state.pause_flag {
        lemma_first_ready(active.queue);
        match first_ready(active.queue) {
            Some(row) => {
                lemma_rendering_wf(active, active.queue[row].job_id);
            },
            None => {
                assert forall|id: u32| #[trigger]
                    state.started(now).jobs.contains_key(id) implies is_last_row(
                    state.started(now).queue,
                    id,
                    state.started(now).jobs[id].queue_index,
                ) by {
                    assert(active.jobs.contains_key(id));
                }
            },
        }
    }
}

/// Entering a progress report keeps the queue well-formed.
pub proof fn lemma_reported_wf<S>(
    state: QueueView<S>,
    job_id: u32,
    report: Progress,
    row_start: u64,
    row_end: u64,
    queue_end: u64,
)
    requires
        state.wf(),
    ensures
        state.reported(job_id, report, row_start, row_end, queue_end).wf(),
{
    let entered = state.reported_row(job_id, report, row_start, row_end);
    lemma_with_row_wf(state, job_id, entered);
    let shown = state.with_row(job_id, entered);
    let after = state.reported(job_id, report, row_start, row_end, queue_end);
    assert forall|id: u32| #[trigger] after.jobs.contains_key(id) implies is_last_row(
        after.queue,
        id,
        after.jobs[id].queue_index,
    ) by {
        assert(shown.jobs.contains_key(id));
    }
}

/// The report that a launched renderer begins with: nothing is done of `total_frames` frames.
pub open spec fn launch_report(total_frames: usize) -> Progress {
    Progress {
        progress: Float64::spec_zero(),
        current_frame: 0,
        total_frames,
        finished: false,
    }
}

/// The effect of a renderer that gave up: its progress is complete, without frames.
pub open spec fn given_up(job_id: u32) -> EffectView {
    EffectView::RenderProgress {
        job_id,
        progress: Float64::spec_one(),
        current_frame: 0,
        total_frames: 0,
        finished: true,
    }
}

/// The error that a job reports.
pub open spec fn error_effect(job_id: u32, message: Seq<char>, arg: Seq<char>) -> EffectView {
    EffectView::Error { job_id, text: message, arg, callback: seq![] }
}

} // verus!
