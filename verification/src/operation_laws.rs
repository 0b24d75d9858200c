//! What each operation does to a queue, field by field.

use vstd::prelude::*;

use crate::effect::EffectView;
use crate::float64::Float64;
use crate::item::ItemView;
use crate::item::JobStatus;
use crate::item::JobView;
use crate::model;
use crate::model::is_last_row;
use crate::model::Progress;
use crate::model::QueueStatus;
use crate::model::QueueView;
use crate::options::RenderOptionsView;

verus! {

/// Whether two tables hold the same jobs, but for the contents of one.
pub open spec fn other_jobs_same<S>(
    before: Map<u32, JobView<S>>,
    after: Map<u32, JobView<S>>,
    job_id: u32,
) -> bool {
    &&& forall|id: u32| before.contains_key(id) == #[trigger] after.contains_key(id)
    &&& forall|id: u32| #[trigger]
        after.contains_key(id) && id != job_id ==> after[id] == before[id]
}

/// Whether two lists hold the same rows, but for the contents of one.
pub open spec fn other_rows_same(before: Seq<ItemView>, after: Seq<ItemView>, row: int) -> bool {
    &&& before.len() == after.len()
    &&& forall|other: int|
        0 <= other < after.len() && other != row ==> #[trigger] after[other] == before[other]
}

/// Cancelling a job raises its cancel flag, whatever its row shows. The rest of the job, every
/// other job, every row and all other state stay.
pub proof fn law_cancel_raises_the_flag<S>(state: QueueView<S>, job_id: u32)
    requires
        state.jobs.contains_key(job_id),
    ensures
        ({
            let after = state.with_cancel_flag(job_id, true);
            &&& after.jobs[job_id].cancel_flag
            &&& after.jobs[job_id] == (JobView { cancel_flag: true, ..state.jobs[job_id] })
            &&& other_jobs_same(state.jobs, after.jobs, job_id)
            &&& after == (QueueView { jobs: after.jobs, ..state })
        }),
{
}

/// Stopping raises the cancel flag of every job, whatever its row shows, and ends a pause. The
/// rows, the timestamps and the rest of every job stay.
pub proof fn law_stop_raises_every_flag<S>(state: QueueView<S>)
    ensures
        ({
            let after = state.stopped();
            &&& after == (QueueView {
                jobs: after.jobs,
                status: QueueStatus::Stopped,
                pause_flag: false,
                ..state
            })
            &&& forall|id: u32| state.jobs.contains_key(id) == #[trigger] after.jobs.contains_key(id)
            &&& forall|id: u32| #[trigger]
                after.jobs.contains_key(id) ==> after.jobs[id] == (JobView {
                    cancel_flag: true,
                    ..state.jobs[id]
                })
        }),
{
}

/// Pausing tells the renderers to wait and notes the time. Rows, jobs and the other timestamps
/// stay.
pub proof fn law_pause_notes_the_time<S>(state: QueueView<S>, now: u64)
    ensures
        ({
            let after = state.paused(now);
            &&& after.pause_flag
            &&& after.status == QueueStatus::Paused
            &&& after.paused_timestamp == Some(now)
            &&& after.queue == state.queue
            &&& after.jobs == state.jobs
            &&& after.start_timestamp == state.start_timestamp
            &&& after.end_timestamp == state.end_timestamp
        }),
{
}

/// Resetting a job clears its error and its cancel flag and puts its row in line. The rest of
/// the row and of the job, and everything else, stay.
pub proof fn law_reset_clears_error_and_flag<S>(state: QueueView<S>, job_id: u32)
    requires
        state.wf(),
        state.jobs.contains_key(job_id),
    ensures
        ({
            let at = state.jobs[job_id].queue_index;
            let after = state.with_cancel_flag(job_id, false).requeued(job_id);
            &&& after.queue[at] == (ItemView {
                error_string: Seq::<char>::empty(),
                status: JobStatus::Queued,
                ..state.queue[at]
            })
            &&& other_rows_same(state.queue, after.queue, at)
            &&& after.jobs[job_id] == (JobView { cancel_flag: false, ..state.jobs[job_id] })
            &&& other_jobs_same(state.jobs, after.jobs, job_id)
            &&& after == (QueueView { queue: after.queue, jobs: after.jobs, ..state })
        }),
{
    assert(is_last_row(state.queue, job_id, state.jobs[job_id].queue_index));
}

/// A thumbnail is shown in the row of its job, and nothing else changes.
pub proof fn law_thumbnail_is_shown<S>(state: QueueView<S>, job_id: u32, url: Seq<char>)
    requires
        state.wf(),
        state.jobs.contains_key(job_id),
    ensures
        ({
            let at = state.jobs[job_id].queue_index;
            let after = state.illustrated(job_id, url);
            &&& after.queue[at] == (ItemView { thumbnail_url: url, ..state.queue[at] })
            &&& other_rows_same(state.queue, after.queue, at)
            &&& after == (QueueView { queue: after.queue, ..state })
        }),
{
    assert(is_last_row(state.queue, job_id, state.jobs[job_id].queue_index));
}

/// A failure is shown in the row of its job, with its message, and nothing else changes. The
/// error that is reported names the job, the message and its argument.
pub proof fn law_failure_is_shown<S>(
    state: QueueView<S>,
    job_id: u32,
    message: Seq<char>,
    arg: Seq<char>,
)
    requires
        state.wf(),
        state.jobs.contains_key(job_id),
    ensures
        ({
            let at = state.jobs[job_id].queue_index;
            let after = state.failed(job_id, arg);
            &&& after.queue[at] == (ItemView {
                error_string: arg,
                status: JobStatus::Error,
                ..state.queue[at]
            })
            &&& other_rows_same(state.queue, after.queue, at)
            &&& after == (QueueView { queue: after.queue, ..state })
        }),
        model::error_effect(job_id, message, arg) == (EffectView::Error {
            job_id,
            text: message,
            arg,
            callback: Seq::<char>::empty(),
        }),
{
    assert(is_last_row(state.queue, job_id, state.jobs[job_id].queue_index));
}

/// A choice of pixel format in an active queue enters the choice in the job's options, and
/// puts the job's row in line without an error: where the row has frames and none is done, it
/// waits to be rendered. Nothing else changes, and there is nothing to do. `cpu` is no format:
/// it turns the GPU off.
pub proof fn law_choice_of_format_in_active_queue<S>(
    state: QueueView<S>,
    job_id: u32,
    format: Seq<char>,
    now: u64,
)
    requires
        state.wf(),
        state.jobs.contains_key(job_id),
        state.status == QueueStatus::Active,
    ensures
        ({
            let at = state.jobs[job_id].queue_index;
            let given = state.jobs[job_id].render_options;
            let after = state.format_chosen(job_id, format, now);
            let chosen = after.jobs[job_id].render_options;
            &&& format == "cpu"@ ==> chosen == (RenderOptionsView { use_gpu: false, ..given })
            &&& format != "cpu"@ ==> chosen == (RenderOptionsView { pixel_format: format, ..given })
            &&& after.jobs[job_id] == (JobView { render_options: chosen, ..state.jobs[job_id] })
            &&& other_jobs_same(state.jobs, after.jobs, job_id)
            &&& after.queue[at] == (ItemView {
                error_string: Seq::<char>::empty(),
                status: JobStatus::Queued,
                ..state.queue[at]
            })
            &&& state.queue[at].current_frame == 0 && state.queue[at].total_frames > 0
                ==> after.queue[at].ready()
            &&& other_rows_same(state.queue, after.queue, at)
            &&& after == (QueueView { queue: after.queue, jobs: after.jobs, ..state })
            &&& state.format_chosen_effects(job_id, format, now) == Seq::<EffectView>::empty()
        }),
{
    assert(is_last_row(state.queue, job_id, state.jobs[job_id].queue_index));
}

/// A choice of pixel format in a queue that is not active does to the job and its row what it
/// does in an active one, and then starts the queue.
pub proof fn law_choice_of_format_starts_queue<S>(
    state: QueueView<S>,
    job_id: u32,
    format: Seq<char>,
    now: u64,
)
    requires
        state.wf(),
        state.status != QueueStatus::Active,
    ensures
        ({
            let active = QueueView { status: QueueStatus::Active, ..state };
            let entered = QueueView {
                status: state.status,
                ..active.format_chosen(job_id, format, now)
            };
            &&& state.format_chosen(job_id, format, now) == entered.started(now)
            &&& state.format_chosen_effects(job_id, format, now) == entered.started_effects(now)
        }),
{
    let active = QueueView { status: QueueStatus::Active, ..state };
    let entered = QueueView { status: state.status, ..active.format_chosen(job_id, format, now) };
    assert(entered =~= state.reformatted(job_id, format));
}

/// A choice of pixel format for a job that is not in the queue changes nothing of an active
/// queue, and starts any other.
pub proof fn law_choice_of_format_for_unknown_job<S>(
    state: QueueView<S>,
    job_id: u32,
    format: Seq<char>,
    now: u64,
)
    requires
        !state.jobs.contains_key(job_id),
    ensures
        state.status == QueueStatus::Active ==> {
            &&& state.format_chosen(job_id, format, now) == state
            &&& state.format_chosen_effects(job_id, format, now) == Seq::<EffectView>::empty()
        },
        state.status != QueueStatus::Active ==> {
            &&& state.format_chosen(job_id, format, now) == state.started(now)
            &&& state.format_chosen_effects(job_id, format, now) == state.started_effects(now)
        },
{
}

/// A request to render a job whose row waits or shows an error is followed: the row renders,
/// the job's cancel flag is lowered, and its renderer is launched on the job's own input file
/// with the job's own options. Everything else stays. A request for a job that renders or is
/// done changes nothing and has no effect.
pub proof fn law_request_to_render<S>(state: QueueView<S>, job_id: u32, single: bool)
    requires
        state.wf(),
        state.jobs.contains_key(job_id),
    ensures
        ({
            let at = state.jobs[job_id].queue_index;
            let shown = state.queue[at].status;
            let after = state.rendering(job_id);
            let effects = state.rendering_effects(job_id, single);
            if shown == JobStatus::Queued || shown == JobStatus::Error {
                &&& after.queue[at] == (ItemView {
                    status: JobStatus::Rendering,
                    ..state.queue[at]
                })
                &&& other_rows_same(state.queue, after.queue, at)
                &&& after.jobs[job_id] == (JobView { cancel_flag: false, ..state.jobs[job_id] })
                &&& other_jobs_same(state.jobs, after.jobs, job_id)
                &&& after == (QueueView { queue: after.queue, jobs: after.jobs, ..state })
                &&& effects == seq![
                    EffectView::ReportLaunch { job_id },
                    EffectView::StartRender {
                        job_id,
                        single,
                        input_file: state.jobs[job_id].input_file,
                        render_options: state.jobs[job_id].render_options,
                    },
                ]
            } else {
                &&& after == state
                &&& effects == Seq::<EffectView>::empty()
            }
        }),
{
    assert(is_last_row(state.queue, job_id, state.jobs[job_id].queue_index));
}

/// Whether the start of a run or of a row, as it was before, has moved on to what it is after
/// by the time from `paused` to `now`.
pub open spec fn moved_on(before: u64, after: u64, paused: u64, now: u64) -> bool {
    after == (before + (now - paused)) % 0x1_0000_0000_0000_0000
}

/// Whether the run of the queue has the clock that it has after a start at the time `now`: a
/// run that begins starts its clock, and any other goes on where a pause stopped it.
pub open spec fn run_clock_started<S>(before: QueueView<S>, after: QueueView<S>, now: u64) -> bool {
    if !before.pause_flag && before.start_timestamp == 0 {
        after.start_timestamp == now
    } else {
        match before.paused_timestamp {
            Some(paused) => moved_on(before.start_timestamp, after.start_timestamp, paused, now),
            None => after.start_timestamp == before.start_timestamp,
        }
    }
}

/// Whether the rows have the clocks that they have after a start at the time `now`: where a
/// run goes on after a pause, the rows that have begun and have frames left go on with it, and
/// the pause is over. Of the rows nothing else differs, but for their status.
pub open spec fn row_clocks_started<S>(
    before: QueueView<S>,
    after: QueueView<S>,
    now: u64,
) -> bool {
    let begins = !before.pause_flag && before.start_timestamp == 0;
    &&& after.end_timestamp == before.end_timestamp
    &&& after.paused_timestamp == if begins {
        before.paused_timestamp
    } else {
        None
    }
    &&& after.queue.len() == before.queue.len()
    &&& forall|row: int|
        0 <= row < before.queue.len() ==> (#[trigger] after.queue[row]) == (ItemView {
            start_timestamp: after.queue[row].start_timestamp,
            status: after.queue[row].status,
            ..before.queue[row]
        })
    &&& forall|row: int|
        0 <= row < before.queue.len() ==> {
            let shown = before.queue[row];
            let start = (#[trigger] after.queue[row]).start_timestamp;
            if !begins && before.paused_timestamp is Some && shown.start_timestamp > 0
                && shown.current_frame < shown.total_frames {
                moved_on(shown.start_timestamp, start, before.paused_timestamp->0, now)
            } else {
                start == shown.start_timestamp
            }
        }
}

/// Whether all jobs are as before, but for their cancel flags, which are lowered.
pub open spec fn flags_lowered<S>(
    before: Map<u32, JobView<S>>,
    after: Map<u32, JobView<S>>,
) -> bool {
    &&& forall|id: u32| before.contains_key(id) == #[trigger] after.contains_key(id)
    &&& forall|id: u32| #[trigger]
        after.contains_key(id) ==> after[id] == (JobView { cancel_flag: false, ..before[id] })
}

/// What a start lists first: the status, and the clock where a run begins.
pub open spec fn start_effects<S>(before: QueueView<S>, now: u64) -> Seq<EffectView> {
    let status = EffectView::StatusChanged { status: QueueStatus::Active };
    if !before.pause_flag && before.start_timestamp == 0 {
        seq![
            status,
            EffectView::ProgressChanged {
                start_timestamp: now,
                end_timestamp: before.end_timestamp,
            },
        ]
    } else {
        seq![status]
    }
}

/// Starting a paused queue resumes it: the clocks go on, every cancel flag is lowered, no row
/// changes its status and nothing is launched.
pub proof fn law_start_resumes_paused_queue<S>(state: QueueView<S>, now: u64)
    requires
        state.pause_flag,
    ensures
        ({
            let after = state.started(now);
            &&& run_clock_started(state, after, now)
            &&& row_clocks_started(state, after, now)
            &&& flags_lowered(state.jobs, after.jobs)
            &&& after.status == QueueStatus::Active
            &&& !after.pause_flag
            &&& forall|row: int|
                0 <= row < state.queue.len() ==> (#[trigger] after.queue[row]).status
                    == state.queue[row].status
            &&& state.started_effects(now) == start_effects(state, now)
        }),
{
}

/// Starting a queue that is not paused launches the first row with frames of which none is
/// done, in line: the job of its number renders, unless it does already or is done or there is
/// no such job. Every cancel flag is lowered, and no other row changes its status.
pub proof fn law_start_launches_first_waiting_row<S>(state: QueueView<S>, now: u64, row: int)
    requires
        state.wf(),
        !state.pause_flag,
        0 <= row < state.queue.len(),
        state.queue[row].current_frame == 0,
        state.queue[row].total_frames > 0,
        state.queue[row].status == JobStatus::Queued,
        forall|earlier: int|
            0 <= earlier < row ==> (#[trigger] state.queue[earlier]).current_frame != 0
                || state.queue[earlier].total_frames == 0 || state.queue[earlier].status
                != JobStatus::Queued,
    ensures
        ({
            let after = state.started(now);
            let job_id = state.queue[row].job_id;
            let at = state.jobs[job_id].queue_index;
            let launched = state.jobs.contains_key(job_id) && (state.queue[at].status
                == JobStatus::Queued || state.queue[at].status == JobStatus::Error);
            &&& run_clock_started(state, after, now)
            &&& row_clocks_started(state, after, now)
            &&& flags_lowered(state.jobs, after.jobs)
            &&& after.status == QueueStatus::Active
            &&& !after.pause_flag
            &&& forall|other: int|
                0 <= other < state.queue.len() ==> (#[trigger] after.queue[other]).status
                    == if launched && other == at {
                    JobStatus::Rendering
                } else {
                    state.queue[other].status
                }
            &&& state.started_effects(now) == start_effects(state, now) + if launched {
                seq![
                    EffectView::ReportLaunch { job_id },
                    EffectView::StartRender {
                        job_id,
                        single: false,
                        input_file: state.jobs[job_id].input_file,
                        render_options: state.jobs[job_id].render_options,
                    },
                ]
            } else {
                seq![]
            }
        }),
{
    let active = state.activated(now);
    let after = state.started(now);
    let job_id = state.queue[row].job_id;
    assert(active.queue[row].ready());
    assert forall|earlier: int| 0 <= earlier < row implies !(
    #[trigger] active.queue[earlier]).ready() by {
        assert(!state.queue[earlier].ready());
    }
    model::lemma_first_ready(active.queue);
    let found = model::first_ready(active.queue)->0;
    assert(active.queue[found].ready());
    assert(found == row);
    assert(active.jobs.contains_key(job_id) == state.jobs.contains_key(job_id));
    if state.jobs.contains_key(job_id) {
        assert(is_last_row(state.queue, job_id, state.jobs[job_id].queue_index));
    }
    assert(after == active.rendering(job_id));
    assert forall|id: u32| state.jobs.contains_key(id) == #[trigger] after.jobs.contains_key(
        id,
    ) by {
        assert(active.jobs.contains_key(id) == state.jobs.contains_key(id));
    }
    assert forall|id: u32| #[trigger] after.jobs.contains_key(id) implies after.jobs[id]
        == (JobView { cancel_flag: false, ..state.jobs[id] }) by {
        assert(active.jobs.contains_key(id));
    }
}

/// Starting a queue that is not paused, and in which no row with frames waits for its first,
/// stops it: the run is over, every cancel flag is lowered, and no row changes its status.
pub proof fn law_start_with_nothing_waiting<S>(state: QueueView<S>, now: u64)
    requires
        !state.pause_flag,
        forall|row: int|
            0 <= row < state.queue.len() ==> (#[trigger] state.queue[row]).current_frame != 0
                || state.queue[row].total_frames == 0 || state.queue[row].status
                != JobStatus::Queued,
    ensures
        ({
            let after = state.started(now);
            &&& after.start_timestamp == 0
            &&& row_clocks_started(state, after, now)
            &&& flags_lowered(state.jobs, after.jobs)
            &&& after.status == QueueStatus::Stopped
            &&& !after.pause_flag
            &&& forall|row: int|
                0 <= row < state.queue.len() ==> (#[trigger] after.queue[row]).status
                    == state.queue[row].status
            &&& state.started_effects(now) == start_effects(state, now) + seq![
                EffectView::ProgressChanged {
                    start_timestamp: 0,
                    end_timestamp: state.end_timestamp,
                },
                EffectView::StatusChanged { status: QueueStatus::Stopped },
            ]
        }),
{
    let active = state.activated(now);
    assert forall|row: int| 0 <= row < active.queue.len() implies !(
    #[trigger] active.queue[row]).ready() by {
        assert(!state.queue[row].ready());
    }
}

/// A report on a job, finished or not, is shown in its row: the frames done and to do are those
/// of the report, the row's clock starts with the first report and ends with this one, and a
/// finished job is done. Everything else of the row, every other row, every job and all other
/// state stay, but for the time of the last progress. The report is passed on as it is.
pub proof fn law_report_is_shown<S>(
    state: QueueView<S>,
    job_id: u32,
    report: Progress,
    row_start: u64,
    row_end: u64,
    queue_end: u64,
)
    requires
        state.wf(),
        state.jobs.contains_key(job_id),
    ensures
        ({
            let at = state.jobs[job_id].queue_index;
            let shown = state.queue[at];
            let after = state.reported(job_id, report, row_start, row_end, queue_end);
            &&& after.queue[at].current_frame == report.current_frame
            &&& after.queue[at].total_frames == report.total_frames
            &&& after.queue[at].end_timestamp == row_end
            &&& after.queue[at].start_timestamp == if shown.start_timestamp == 0 {
                row_start
            } else {
                shown.start_timestamp
            }
            &&& after.queue[at].status == if report.finished {
                JobStatus::Finished
            } else {
                shown.status
            }
            &&& after.queue[at].job_id == shown.job_id
            &&& after.queue[at].input_file == shown.input_file
            &&& after.queue[at].output_path == shown.output_path
            &&& after.queue[at].export_settings == shown.export_settings
            &&& after.queue[at].thumbnail_url == shown.thumbnail_url
            &&& after.queue[at].error_string == shown.error_string
            &&& other_rows_same(state.queue, after.queue, at)
            &&& after == (QueueView { queue: after.queue, end_timestamp: queue_end, ..state })
        }),
        state.reported_effects(job_id, report, queue_end) == seq![
            EffectView::RenderProgress {
                job_id,
                progress: report.progress,
                current_frame: report.current_frame,
                total_frames: report.total_frames,
                finished: report.finished,
            },
            EffectView::ProgressChanged {
                start_timestamp: state.start_timestamp,
                end_timestamp: queue_end,
            },
        ],
{
    assert(is_last_row(state.queue, job_id, state.jobs[job_id].queue_index));
}

/// A report on a job that is not in the queue only sets the time of the last progress, and is
/// passed on as it is.
pub proof fn law_report_on_unknown_job<S>(
    state: QueueView<S>,
    job_id: u32,
    report: Progress,
    row_start: u64,
    row_end: u64,
    queue_end: u64,
)
    requires
        !state.jobs.contains_key(job_id),
    ensures
        state.reported(job_id, report, row_start, row_end, queue_end) == (QueueView {
            end_timestamp: queue_end,
            ..state
        }),
        state.reported_effects(job_id, report, queue_end) == seq![
            EffectView::RenderProgress {
                job_id,
                progress: report.progress,
                current_frame: report.current_frame,
                total_frames: report.total_frames,
                finished: report.finished,
            },
            EffectView::ProgressChanged {
                start_timestamp: state.start_timestamp,
                end_timestamp: queue_end,
            },
        ],
{
}

/// Replacing a count changes the sum by the difference.
proof fn lemma_sum_update(counts: Seq<u64>, at: int, count: u64)
    requires
        0 <= at < counts.len(),
    ensures
        model::sum(counts.update(at, count)) == model::sum(counts) - counts[at] + count,
    decreases counts.len(),
{
    let shorter = counts.drop_last();
    let updated = counts.update(at, count);
    if at == counts.len() - 1 {
        assert(updated.drop_last() =~= shorter);
    } else {
        lemma_sum_update(shorter, at, count);
        assert(updated.drop_last() =~= shorter.update(at, count));
    }
}

/// A report on a job, finished or not, moves the frames of the queue, done and to do, by
/// exactly the difference between the frames of the report and those that the job's row
/// showed.
pub proof fn law_report_moves_the_sums<S>(
    state: QueueView<S>,
    job_id: u32,
    report: Progress,
    row_start: u64,
    row_end: u64,
    queue_end: u64,
)
    requires
        state.wf(),
        state.jobs.contains_key(job_id),
    ensures
        ({
            let shown = state.queue[state.jobs[job_id].queue_index];
            let after = state.reported(job_id, report, row_start, row_end, queue_end);
            &&& model::sum(model::current_counts(after.queue)) == model::sum(
                model::current_counts(state.queue),
            ) - shown.current_frame + report.current_frame
            &&& model::sum(model::total_counts(after.queue)) == model::sum(
                model::total_counts(state.queue),
            ) - shown.total_frames + report.total_frames
        }),
{
    let at = state.jobs[job_id].queue_index;
    assert(is_last_row(state.queue, job_id, at));
    let after = state.reported(job_id, report, row_start, row_end, queue_end);
    lemma_sum_update(model::current_counts(state.queue), at, report.current_frame as u64);
    lemma_sum_update(model::total_counts(state.queue), at, report.total_frames as u64);
    assert(model::current_counts(after.queue) =~= model::current_counts(state.queue).update(
        at,
        report.current_frame as u64,
    ));
    assert(model::total_counts(after.queue) =~= model::total_counts(state.queue).update(
        at,
        report.total_frames as u64,
    ));
}

/// The frames of a queue without rows are none, and every row, whatever it shows, adds its own
/// frames, done and to do.
pub proof fn law_every_row_counts(rows: Seq<ItemView>, row: ItemView)
    ensures
        model::sum(model::total_counts(Seq::<ItemView>::empty())) == 0,
        model::sum(model::current_counts(Seq::<ItemView>::empty())) == 0,
        model::sum(model::total_counts(rows.push(row))) == model::sum(model::total_counts(rows))
            + row.total_frames,
        model::sum(model::current_counts(rows.push(row))) == model::sum(
            model::current_counts(rows),
        ) + row.current_frame,
{
    assert(model::total_counts(rows.push(row)).drop_last() =~= model::total_counts(rows));
    assert(model::current_counts(rows.push(row)).drop_last() =~= model::current_counts(rows));
}

/// After a report the queue goes on if and only if the job is finished and was not launched
/// alone: then it is started, and the effects of that follow those of the report.
pub proof fn law_report_goes_on<S>(
    state: QueueView<S>,
    job_id: u32,
    single: bool,
    report: Progress,
    row_start: u64,
    row_end: u64,
    queue_end: u64,
    now: u64,
)
    ensures
        ({
            let shown = state.reported(job_id, report, row_start, row_end, queue_end);
            let passed_on = state.reported_effects(job_id, report, queue_end);
            let after = state.progressed(
                job_id,
                single,
                report,
                row_start,
                row_end,
                queue_end,
                now,
            );
            let effects = state.progressed_effects(
                job_id,
                single,
                report,
                row_start,
                row_end,
                queue_end,
                now,
            );
            if report.finished && !single {
                &&& after == shown.started(now)
                &&& effects == passed_on + shown.started_effects(now)
            } else {
                &&& after == shown
                &&& effects == passed_on
            }
        }),
{
    let passed_on = state.reported_effects(job_id, report, queue_end);
    assert(passed_on + Seq::<EffectView>::empty() =~= passed_on);
}

/// The effect by which a renderer that gave up is reported as done: all of its progress, no
/// frames.
pub open spec fn is_over(job_id: u32) -> EffectView {
    EffectView::RenderProgress {
        job_id,
        progress: Float64 { bits: 0x3FF0_0000_0000_0000 },
        current_frame: 0,
        total_frames: 0,
        finished: true,
    }
}

/// A failed renderer leaves its message, with the log behind an empty line, in the job's row.
/// The error and the end of the renderer are reported, and then the queue is started, unless
/// the job was launched alone.
pub proof fn law_error_is_shown_and_queue_goes_on<S>(
    state: QueueView<S>,
    job_id: u32,
    single: bool,
    message: Seq<char>,
    arg: Seq<char>,
    log: Seq<char>,
    now: u64,
)
    ensures
        ({
            let full = arg + seq!['\n', '\n'] + log;
            let shown = state.failed(job_id, full);
            let reported = seq![
                EffectView::Error {
                    job_id,
                    text: message,
                    arg: full,
                    callback: Seq::<char>::empty(),
                },
                is_over(job_id),
            ];
            let after = state.errored(job_id, single, model::with_log(arg, log), now);
            let effects = state.errored_effects(
                job_id,
                single,
                message,
                model::with_log(arg, log),
                now,
            );
            &&& model::with_log(arg, log) == full
            &&& if single {
                &&& after == shown
                &&& effects == reported
            } else {
                &&& after == shown.started(now)
                &&& effects == reported + shown.started_effects(now)
            }
        }),
{
    reveal_strlit("\n\n");
    assert("\n\n"@ =~= seq!['\n', '\n']);
    let full = arg + seq!['\n', '\n'] + log;
    let reported = seq![model::error_effect(job_id, message, full), model::given_up(job_id)];
    assert(reported + Seq::<EffectView>::empty() =~= reported);
}

/// A renderer that cannot encode a format leaves the format and the formats on offer in the
/// job's row. Both and the end of the renderer are reported, and then the queue is started,
/// unless the job was launched alone.
pub proof fn law_conversion_is_shown_and_queue_goes_on<S>(
    state: QueueView<S>,
    job_id: u32,
    single: bool,
    format: Seq<char>,
    supported: Seq<char>,
    now: u64,
)
    ensures
        ({
            let shown = state.failed(
                job_id,
                "convert_format:"@ + format + ";"@ + supported,
            );
            let reported = seq![
                EffectView::ConvertFormat { job_id, format, supported },
                is_over(job_id),
            ];
            let after = state.conversion_needed(job_id, single, format, supported, now);
            let effects = state.conversion_needed_effects(job_id, single, format, supported, now);
            if single {
                &&& after == shown
                &&& effects == reported
            } else {
                &&& after == shown.started(now)
                &&& effects == reported + shown.started_effects(now)
            }
        }),
{
    let reported = seq![
        EffectView::ConvertFormat { job_id, format, supported },
        model::given_up(job_id),
    ];
    assert(reported + Seq::<EffectView>::empty() =~= reported);
}

/// Adding a job appends one row, which shows what was given and waits from the beginning, and
/// enters a job of the given number that points at it and holds the input file, the options
/// and the stabilizer exactly as given, its cancel flag lowered. All rows and all jobs of other
/// numbers and all other state stay.
pub proof fn law_add_holds_what_is_given<S>(
    state: QueueView<S>,
    job_id: u32,
    input_file: Seq<char>,
    options: RenderOptionsView,
    settings: Seq<char>,
    total_frames: u64,
    thumbnail_url: Seq<char>,
    stab: S,
)
    ensures
        ({
            let after = state.added(
                job_id,
                input_file,
                options,
                settings,
                total_frames,
                thumbnail_url,
                stab,
            );
            let last = state.queue.len() as int;
            &&& after.queue.len() == last + 1
            &&& forall|row: int| 0 <= row < last ==> #[trigger] after.queue[row] == state.queue[row]
            &&& after.queue[last] == (ItemView {
                job_id,
                input_file,
                output_path: options.output_path,
                export_settings: settings,
                thumbnail_url,
                current_frame: 0,
                total_frames,
                start_timestamp: 0,
                end_timestamp: 0,
                error_string: Seq::<char>::empty(),
                status: JobStatus::Queued,
            })
            &&& forall|id: u32| #[trigger]
                after.jobs.contains_key(id) == (state.jobs.contains_key(id) || id == job_id)
            &&& forall|id: u32| #[trigger]
                after.jobs.contains_key(id) && id != job_id ==> after.jobs[id] == state.jobs[id]
            &&& after.jobs[job_id].render_options == options
            &&& after.jobs[job_id].input_file == input_file
            &&& after.jobs[job_id].stab == stab
            &&& after.jobs[job_id].queue_index == last
            &&& !after.jobs[job_id].cancel_flag
            &&& after == (QueueView { queue: after.queue, jobs: after.jobs, ..state })
        }),
{
}

/// A job that was added is launched on the input file and with the options that were given.
pub proof fn law_added_job_is_launched_as_given<S>(
    state: QueueView<S>,
    job_id: u32,
    input_file: Seq<char>,
    options: RenderOptionsView,
    settings: Seq<char>,
    total_frames: u64,
    thumbnail_url: Seq<char>,
    stab: S,
    single: bool,
)
    ensures
        state.added(
            job_id,
            input_file,
            options,
            settings,
            total_frames,
            thumbnail_url,
            stab,
        ).rendering_effects(job_id, single) == seq![
            EffectView::ReportLaunch { job_id },
            EffectView::StartRender { job_id, single, input_file, render_options: options },
        ],
{
}

/// Removing a job takes out its row and its entry. The rows before stay where they are, those
/// behind move up by one, and the other jobs go with their rows; nothing else changes.
pub proof fn law_remove_takes_out_one_row<S>(state: QueueView<S>, job_id: u32)
    requires
        state.wf(),
        state.jobs.contains_key(job_id),
    ensures
        ({
            let gone = state.jobs[job_id].queue_index;
            let after = state.removed(job_id);
            &&& after.queue.len() == state.queue.len() - 1
            &&& forall|row: int|
                0 <= row < after.queue.len() ==> #[trigger] after.queue[row] == state.queue[if row
                    < gone {
                    row
                } else {
                    row + 1
                }]
            &&& forall|id: u32| #[trigger]
                after.jobs.contains_key(id) == (state.jobs.contains_key(id) && id != job_id)
            &&& forall|id: u32| #[trigger]
                after.jobs.contains_key(id) ==> after.jobs[id] == (JobView {
                    queue_index: if state.jobs[id].queue_index < gone {
                        state.jobs[id].queue_index
                    } else {
                        state.jobs[id].queue_index - 1
                    },
                    ..state.jobs[id]
                })
            &&& after == (QueueView { queue: after.queue, jobs: after.jobs, ..state })
        }),
{
    let gone = state.jobs[job_id].queue_index;
    let after = state.removed(job_id);
    assert(is_last_row(state.queue, job_id, gone));
    assert forall|id: u32| #[trigger] after.jobs.contains_key(id) implies after.jobs[id] == (
    JobView {
        queue_index: if state.jobs[id].queue_index < gone {
            state.jobs[id].queue_index
        } else {
            state.jobs[id].queue_index - 1
        },
        ..state.jobs[id]
    }) by {
        assert(is_last_row(state.queue, id, state.jobs[id].queue_index));
    }
}

/// The queue begins empty and stopped, with no clock running.
pub proof fn law_queue_begins_empty<S>()
    ensures
        ({
            let state = QueueView::<S>::empty();
            &&& state.queue.len() == 0
            &&& forall|id: u32| !(#[trigger] state.jobs.contains_key(id))
            &&& state.start_timestamp == 0
            &&& state.end_timestamp == 0
            &&& state.status == QueueStatus::Stopped
            &&& !state.pause_flag
            &&& state.paused_timestamp is None
        }),
{
}

/// The row of a job is the one that the job points at, and carries the job's number.
pub proof fn law_job_points_at_its_row<S>(state: QueueView<S>, job_id: u32)
    requires
        state.wf(),
        state.jobs.contains_key(job_id),
    ensures
        0 <= state.jobs[job_id].queue_index < state.queue.len(),
        state.row(job_id) == state.queue[state.jobs[job_id].queue_index],
        state.row(job_id).job_id == job_id,
{
    assert(is_last_row(state.queue, job_id, state.jobs[job_id].queue_index));
}

} // verus!
