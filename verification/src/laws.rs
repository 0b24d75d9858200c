//! What holds of the queue as a whole.

use vstd::prelude::*;

use crate::effect::EffectView;
use crate::float64::Float64;
use crate::formats::conversion_request;
use crate::item::ItemView;
use crate::item::JobStatus;
use crate::item::JobView;
use crate::model;
use crate::model::elapsed;
use crate::model::is_first_ready;
use crate::model::is_last_row;
use crate::model::QueueStatus;
use crate::model::QueueView;
use crate::options::RenderOptionsView;

verus! {

/// A pause takes no time: a queue that is paused and then resumed has run, when it is
/// resumed, for as long as when it was paused, and so has every row underway. Nothing is
/// launched, and no other row changes.
pub proof fn law_pause_takes_no_time<S>(state: QueueView<S>, paused: u64, resumed: u64)
    ensures
        ({
            let after = state.paused(paused).started(resumed);
            &&& elapsed(after.start_timestamp, resumed) == elapsed(state.start_timestamp, paused)
            &&& after.queue.len() == state.queue.len()
            &&& forall|row: int|
                0 <= row < state.queue.len() ==> if state.queue[row].underway() {
                    &&& elapsed(after.queue[row].start_timestamp, resumed) == elapsed(
                        state.queue[row].start_timestamp,
                        paused,
                    )
                    &&& (#[trigger] after.queue[row]) == ItemView {
                        start_timestamp: after.queue[row].start_timestamp,
                        ..state.queue[row]
                    }
                } else {
                    after.queue[row] == state.queue[row]
                }
            &&& after.status == QueueStatus::Active
            &&& !after.pause_flag
            &&& after.paused_timestamp is None
            &&& state.paused(paused).started_effects(resumed) == seq![
                EffectView::StatusChanged { status: QueueStatus::Active },
            ]
        }),
{
    let after = state.paused(paused).started(resumed);
    assert forall|row: int| 0 <= row < state.queue.len() implies if state.queue[row].underway() {
        &&& elapsed(after.queue[row].start_timestamp, resumed) == elapsed(
            state.queue[row].start_timestamp,
            paused,
        )
        &&& (#[trigger] after.queue[row]) == ItemView {
            start_timestamp: after.queue[row].start_timestamp,
            ..state.queue[row]
        }
    } else {
        after.queue[row] == state.queue[row]
    } by {
        lemma_shift_keeps_elapsed(state.queue[row].start_timestamp, paused, resumed);
    }
    lemma_shift_keeps_elapsed(state.start_timestamp, paused, resumed);
}

/// Moving a timestamp on by the time that passed keeps what has elapsed since.
proof fn lemma_shift_keeps_elapsed(timestamp: u64, from: u64, to: u64)
    ensures
        elapsed(model::shifted(timestamp, from, to), to) == elapsed(timestamp, from),
{
}

/// Every job has a row of its own, which carries the job's number.
pub proof fn law_jobs_have_own_rows<S>(state: QueueView<S>, job_id: u32, other: u32)
    requires
        state.wf(),
        state.jobs.contains_key(job_id),
        state.jobs.contains_key(other),
        job_id != other,
    ensures
        state.jobs[job_id].queue_index != state.jobs[other].queue_index,
        state.row(job_id).job_id == job_id,
{
    assert(is_last_row(state.queue, job_id, state.jobs[job_id].queue_index));
    assert(is_last_row(state.queue, other, state.jobs[other].queue_index));
}

/// Removing a job that was just added leaves the queue as it was before.
pub proof fn law_remove_undoes_add<S>(
    state: QueueView<S>,
    job_id: u32,
    input_file: Seq<char>,
    options: RenderOptionsView,
    settings: Seq<char>,
    total_frames: u64,
    thumbnail_url: Seq<char>,
    stab: S,
)
    requires
        state.wf(),
        !state.jobs.contains_key(job_id),
    ensures
        state.added(
            job_id,
            input_file,
            options,
            settings,
            total_frames,
            thumbnail_url,
            stab,
        ).removed(job_id) == state,
{
    let added = state.added(
        job_id,
        input_file,
        options,
        settings,
        total_frames,
        thumbnail_url,
        stab,
    );
    let removed = added.removed(job_id);
    assert(removed.queue =~= state.queue);
    assert forall|id: u32| #[trigger] state.jobs.contains_key(id) implies removed.jobs[id]
        == state.jobs[id] by {
        assert(is_last_row(state.queue, id, state.jobs[id].queue_index));
    }
    assert(removed.jobs =~= state.jobs);
}

/// A job that was added is shown in its row as it was given, ready to render where it has
/// frames. The rows of the other jobs stay as they are.
pub proof fn law_added_job_is_shown<S>(
    state: QueueView<S>,
    job_id: u32,
    input_file: Seq<char>,
    options: RenderOptionsView,
    settings: Seq<char>,
    total_frames: u64,
    thumbnail_url: Seq<char>,
    stab: S,
)
    requires
        state.wf(),
    ensures
        ({
            let added = state.added(
                job_id,
                input_file,
                options,
                settings,
                total_frames,
                thumbnail_url,
                stab,
            );
            &&& added.row(job_id).output_path == options.output_path
            &&& added.row(job_id).input_file == input_file
            &&& added.row(job_id).ready() == (total_frames > 0)
            &&& forall|id: u32|
                id != job_id && #[trigger] state.jobs.contains_key(id) ==> added.row(id)
                    == state.row(id)
        }),
{
    let added = state.added(
        job_id,
        input_file,
        options,
        settings,
        total_frames,
        thumbnail_url,
        stab,
    );
    assert forall|id: u32| id != job_id && #[trigger] state.jobs.contains_key(id) implies added.row(
        id,
    ) == state.row(id) by {
        assert(is_last_row(state.queue, id, state.jobs[id].queue_index));
    }
}

/// Removing a job leaves every other job with its own row.
pub proof fn law_remove_keeps_other_jobs<S>(state: QueueView<S>, job_id: u32, other: u32)
    requires
        state.wf(),
        state.jobs.contains_key(other),
        other != job_id,
    ensures
        ({
            let removed = state.removed(job_id);
            &&& !removed.jobs.contains_key(job_id)
            &&& removed.jobs.contains_key(other)
            &&& removed.row(other) == state.row(other)
            &&& removed.jobs[other] == (JobView {
                queue_index: removed.jobs[other].queue_index,
                ..state.jobs[other]
            })
        }),
{
    assert(is_last_row(state.queue, other, state.jobs[other].queue_index));
    if state.jobs.contains_key(job_id) {
        assert(is_last_row(state.queue, job_id, state.jobs[job_id].queue_index));
    }
}

/// A job is launched only once: when it renders or is done, another request changes nothing
/// and has no effect.
pub proof fn law_launched_once<S>(
    state: QueueView<S>,
    job_id: u32,
    single: bool,
)
    requires
        state.wf(),
    ensures
        ({
            let after = state.rendering(job_id);
            &&& !after.launches(job_id)
            &&& after.rendering(job_id) == after
            &&& after.rendering_effects(job_id, single) == Seq::<EffectView>::empty()
        }),
{
    if state.launches(job_id) {
        assert(is_last_row(state.queue, job_id, state.jobs[job_id].queue_index));
    }
}

/// A launch is followed by a first report: nothing is done of the frames to render, and the
/// job goes on. Once it is entered, the job's row renders and shows those frames. The report
/// is one of progress, whether or not the job was launched alone.
pub proof fn law_launch_is_reported<S>(
    state: QueueView<S>,
    job_id: u32,
    single: bool,
    total_frames: usize,
    row_start: u64,
    row_end: u64,
    queue_end: u64,
    now: u64,
)
    requires
        state.wf(),
        state.launches(job_id),
    ensures
        state.rendering_effects(job_id, single) == seq![
            EffectView::ReportLaunch { job_id },
            EffectView::StartRender {
                job_id,
                single,
                input_file: state.jobs[job_id].input_file,
                render_options: state.jobs[job_id].render_options,
            },
        ],
        ({
            let report = model::launch_report(total_frames);
            let launched = state.rendering(job_id);
            let after = launched.reported(job_id, report, row_start, row_end, queue_end);
            &&& after.row(job_id).current_frame == 0
            &&& after.row(job_id).total_frames == total_frames
            &&& after.row(job_id).status == JobStatus::Rendering
            &&& launched.reported_effects(job_id, report, queue_end) == seq![
                EffectView::RenderProgress {
                    job_id,
                    progress: Float64::spec_zero(),
                    current_frame: 0,
                    total_frames,
                    finished: false,
                },
                EffectView::ProgressChanged {
                    start_timestamp: state.start_timestamp,
                    end_timestamp: queue_end,
                },
            ]
            &&& after == launched.progressed(
                job_id,
                single,
                report,
                row_start,
                row_end,
                queue_end,
                now,
            )
            &&& launched.reported_effects(job_id, report, queue_end)
                == launched.progressed_effects(
                job_id,
                single,
                report,
                row_start,
                row_end,
                queue_end,
                now,
            )
        }),
{
    assert(is_last_row(state.queue, job_id, state.jobs[job_id].queue_index));
    let report = model::launch_report(total_frames);
    let launched = state.rendering(job_id);
    assert(launched.reported_effects(job_id, report, queue_end) + Seq::<EffectView>::empty()
        =~= launched.reported_effects(job_id, report, queue_end));
}

/// Nothing is done for a job that is not in the queue.
pub proof fn law_unknown_job<S>(
    state: QueueView<S>,
    job_id: u32,
    flag: bool,
    single: bool,
    content: Seq<char>,
)
    requires
        !state.jobs.contains_key(job_id),
    ensures
        state.removed(job_id) == state,
        state.rendering(job_id) == state,
        state.rendering_effects(job_id, single) == Seq::<EffectView>::empty(),
        state.with_cancel_flag(job_id, flag) == state,
        state.requeued(job_id) == state,
        state.reformatted(job_id, content) == state,
        state.failed(job_id, content) == state,
        state.illustrated(job_id, content) == state,
{
}

/// A change to the row of a job leaves all other rows as they are, and the number of the row.
pub proof fn law_other_rows_stay<S>(state: QueueView<S>, job_id: u32, content: Seq<char>, row: int)
    requires
        state.wf(),
        0 <= row < state.queue.len(),
    ensures
        ({
            let elsewhere = state.jobs.contains_key(job_id) ==> row != state.jobs[job_id].queue_index;
            &&& elsewhere ==> state.rendering(job_id).queue[row] == state.queue[row]
            &&& elsewhere ==> state.requeued(job_id).queue[row] == state.queue[row]
            &&& elsewhere ==> state.failed(job_id, content).queue[row] == state.queue[row]
            &&& elsewhere ==> state.illustrated(job_id, content).queue[row] == state.queue[row]
            &&& state.rendering(job_id).queue[row].job_id == state.queue[row].job_id
            &&& state.requeued(job_id).queue[row].job_id == state.queue[row].job_id
            &&& state.failed(job_id, content).queue[row].job_id == state.queue[row].job_id
            &&& state.illustrated(job_id, content).queue[row].job_id == state.queue[row].job_id
        }),
{
    if state.jobs.contains_key(job_id) {
        assert(is_last_row(state.queue, job_id, state.jobs[job_id].queue_index));
    }
}

/// Stopping tells every renderer to give up; starting takes every such word back, and ends
/// a pause.
pub proof fn law_stop_and_start_flags<S>(state: QueueView<S>, now: u64, job_id: u32)
    requires
        state.jobs.contains_key(job_id),
    ensures
        state.stopped().jobs[job_id].cancel_flag,
        !state.stopped().pause_flag,
        state.started(now).jobs.contains_key(job_id),
        !state.started(now).jobs[job_id].cancel_flag,
        !state.started(now).pause_flag,
{
    let active = state.activated(now);
    assert(active.jobs.contains_key(job_id));
}

/// A job that is put back in line can be launched again.
pub proof fn law_reset_job_can_be_launched<S>(state: QueueView<S>, job_id: u32)
    requires
        state.wf(),
        state.jobs.contains_key(job_id),
    ensures
        ({
            let after = state.with_cancel_flag(job_id, false).requeued(job_id);
            &&& after.launches(job_id)
            &&& !after.jobs[job_id].cancel_flag
            &&& after.row(job_id).error_string == Seq::<char>::empty()
        }),
{
    assert(is_last_row(state.queue, job_id, state.jobs[job_id].queue_index));
}

/// A queue that is started and not paused looks for the first row that is ready. Where the
/// row's job points at it, that job is launched, with the options that it holds, and no
/// other; its row renders and every other row keeps its place and its status.
pub proof fn law_start_launches_first_ready<S>(state: QueueView<S>, now: u64, row: int)
    requires
        state.wf(),
        !state.pause_flag,
        is_first_ready(state.queue, row),
        state.jobs.contains_key(state.queue[row].job_id),
        state.jobs[state.queue[row].job_id].queue_index == row,
    ensures
        ({
            let job_id = state.queue[row].job_id;
            let after = state.started(now);
            &&& state.started_effects(now) == state.activated_effects(now).push(
                EffectView::ReportLaunch { job_id },
            ).push(
                EffectView::StartRender {
                    job_id,
                    single: false,
                    input_file: state.jobs[job_id].input_file,
                    render_options: state.jobs[job_id].render_options,
                },
            )
            &&& after.status == QueueStatus::Active
            &&& after.queue.len() == state.queue.len()
            &&& after.queue[row].status == JobStatus::Rendering
            &&& forall|other: int|
                0 <= other < state.queue.len() && other != row ==> {
                    &&& (#[trigger] after.queue[other]).job_id == state.queue[other].job_id
                    &&& after.queue[other].status == state.queue[other].status
                }
        }),
{
    let active = state.activated(now);
    let job_id = state.queue[row].job_id;
    lemma_activated_ready(state, now);
    lemma_first_ready_stays(state, now, row);
    assert(active.jobs.contains_key(job_id));
    assert(state.started_effects(now) =~= state.activated_effects(now).push(
        EffectView::ReportLaunch { job_id },
    ).push(
        EffectView::StartRender {
            job_id,
            single: false,
            input_file: state.jobs[job_id].input_file,
            render_options: state.jobs[job_id].render_options,
        },
    ));
}

/// Activating the queue changes no row but for the start of those underway.
proof fn lemma_activated_ready<S>(state: QueueView<S>, now: u64)
    ensures
        state.activated(now).queue.len() == state.queue.len(),
        forall|row: int|
            0 <= row < state.queue.len() ==> (#[trigger] state.activated(now).queue[row])
                == (ItemView {
                start_timestamp: state.activated(now).queue[row].start_timestamp,
                ..state.queue[row]
            }),
        model::none_ready(state.activated(now).queue) == model::none_ready(state.queue),
{
    let active = state.activated(now);
    if model::none_ready(state.queue) {
        assert forall|row: int| 0 <= row < active.queue.len() implies !(
        #[trigger] active.queue[row]).ready() by {
            assert(!state.queue[row].ready());
        }
    }
    if model::none_ready(active.queue) {
        assert forall|row: int| 0 <= row < state.queue.len() implies !(
        #[trigger] state.queue[row]).ready() by {
            assert(!active.queue[row].ready());
        }
    }
}

/// Activating the queue leaves the first ready row the first.
proof fn lemma_first_ready_stays<S>(state: QueueView<S>, now: u64, row: int)
    requires
        is_first_ready(state.queue, row),
    ensures
        model::first_ready(state.activated(now).queue) == Some(row),
{
    let active = state.activated(now);
    lemma_activated_ready(state, now);
    model::lemma_first_ready(active.queue);
    assert(active.queue[row].ready());
    assert forall|earlier: int| 0 <= earlier < row implies !(
    #[trigger] active.queue[earlier]).ready() by {
        assert(!state.queue[earlier].ready());
    }
    let found = model::first_ready(active.queue)->0;
    assert(active.queue[found].ready());
    assert(found == row);
}

/// Starting the queue launches at most one job.
pub proof fn law_start_launches_at_most_one<S>(
    state: QueueView<S>,
    now: u64,
    left: int,
    right: int,
)
    requires
        0 <= left < state.started_effects(now).len(),
        0 <= right < state.started_effects(now).len(),
        state.started_effects(now)[left] is StartRender,
        state.started_effects(now)[right] is StartRender,
    ensures
        left == right,
{
}

/// Starting the queue changes no row but for the start of those underway and the status of
/// the one that is launched, which was neither rendering nor done.
pub proof fn law_start_keeps_rows<S>(state: QueueView<S>, now: u64, row: int)
    requires
        state.wf(),
        0 <= row < state.queue.len(),
    ensures
        ({
            let after = state.started(now);
            &&& after.queue.len() == state.queue.len()
            &&& after.queue[row] == (ItemView {
                start_timestamp: after.queue[row].start_timestamp,
                status: after.queue[row].status,
                ..state.queue[row]
            })
            &&& after.queue[row].start_timestamp != state.queue[row].start_timestamp
                ==> state.queue[row].underway()
            &&& after.queue[row].status != state.queue[row].status ==> {
                &&& after.queue[row].status == JobStatus::Rendering
                &&& !state.queue[row].launched()
            }
        }),
{
    lemma_activated_ready(state, now);
    model::lemma_started_wf(state, now);
    let active = state.activated(now);
    if !state.pause_flag {
        if let Some(first) = model::first_ready(active.queue) {
            let job_id = active.queue[first].job_id;
            if active.launches(job_id) {
                assert(is_last_row(active.queue, job_id, active.jobs[job_id].queue_index));
            }
        }
    }
}

/// A queue that is started and not paused, and in which no row is ready, stops: its run is
/// over, and nothing is launched.
pub proof fn law_start_without_ready_row_stops<S>(state: QueueView<S>, now: u64)
    requires
        !state.pause_flag,
        model::none_ready(state.queue),
    ensures
        state.started(now).status == QueueStatus::Stopped,
        state.started(now).start_timestamp == 0,
        state.started_effects(now) == state.activated_effects(now) + seq![
            EffectView::ProgressChanged { start_timestamp: 0, end_timestamp: state.end_timestamp },
            EffectView::StatusChanged { status: QueueStatus::Stopped },
        ],
{
    lemma_activated_ready(state, now);
}

/// How many rows are ready.
pub open spec fn ready_rows(rows: Seq<ItemView>) -> nat
    decreases rows.len(),
{
    if rows.len() == 0 {
        0
    } else {
        ready_rows(rows.drop_last()) + if rows.last().ready() {
            1nat
        } else {
            0nat
        }
    }
}

/// Rows that agree on which of them are ready have as many that are.
proof fn lemma_ready_rows_agree(left: Seq<ItemView>, right: Seq<ItemView>)
    requires
        left.len() == right.len(),
        forall|row: int|
            0 <= row < left.len() ==> (#[trigger] left[row]).ready() == right[row].ready(),
    ensures
        ready_rows(left) == ready_rows(right),
    decreases left.len(),
{
    if left.len() > 0 {
        assert forall|row: int| 0 <= row < left.len() - 1 implies (
        #[trigger] left.drop_last()[row]).ready() == right.drop_last()[row].ready() by {
            assert(left[row].ready() == right[row].ready());
        }
        lemma_ready_rows_agree(left.drop_last(), right.drop_last());
        assert(left[left.len() - 1].ready() == right[right.len() - 1].ready());
    }
}

/// A row that was ready and is not any more makes one less.
proof fn lemma_ready_rows_drop(left: Seq<ItemView>, right: Seq<ItemView>, gone: int)
    requires
        left.len() == right.len(),
        0 <= gone < left.len(),
        left[gone].ready(),
        !right[gone].ready(),
        forall|row: int|
            0 <= row < left.len() && row != gone ==> (#[trigger] left[row]).ready()
                == right[row].ready(),
    ensures
        ready_rows(right) == ready_rows(left) - 1,
    decreases left.len(),
{
    let shorter_left = left.drop_last();
    let shorter_right = right.drop_last();
    assert forall|row: int| 0 <= row < left.len() - 1 && row != gone implies (
    #[trigger] shorter_left[row]).ready() == shorter_right[row].ready() by {
        assert(left[row].ready() == right[row].ready());
    }
    if gone == left.len() - 1 {
        lemma_ready_rows_agree(shorter_left, shorter_right);
    } else {
        lemma_ready_rows_drop(shorter_left, shorter_right, gone);
        assert(left[left.len() - 1].ready() == right[right.len() - 1].ready());
    }
}

/// The queue runs dry: each start that launches the job of the first ready row leaves one
/// ready row less.
pub proof fn law_start_uses_up_ready_rows<S>(state: QueueView<S>, now: u64, row: int)
    requires
        state.wf(),
        !state.pause_flag,
        is_first_ready(state.queue, row),
        state.jobs.contains_key(state.queue[row].job_id),
        state.jobs[state.queue[row].job_id].queue_index == row,
    ensures
        ready_rows(state.started(now).queue) == ready_rows(state.queue) - 1,
{
    law_start_launches_first_ready(state, now, row);
    lemma_activated_ready(state, now);
    let active = state.activated(now);
    let after = state.started(now);
    let job_id = state.queue[row].job_id;
    assert(active.jobs.contains_key(job_id));
    lemma_first_ready_stays(state, now, row);
    assert forall|other: int| 0 <= other < state.queue.len() && other != row implies (
    #[trigger] state.queue[other]).ready() == after.queue[other].ready() by {
        assert(after.queue[other] == active.queue[other]);
    }
    lemma_ready_rows_drop(state.queue, after.queue, row);
}

/// A job that is done, reported by a renderer that was not launched alone, hands the queue on:
/// its row is finished, and the next ready job is launched as by a start.
pub proof fn law_finished_job_hands_on<S>(
    state: QueueView<S>,
    job_id: u32,
    report: model::Progress,
    row_start: u64,
    row_end: u64,
    queue_end: u64,
    now: u64,
)
    requires
        state.wf(),
        state.jobs.contains_key(job_id),
        report.finished,
    ensures
        ({
            let reported = state.reported(job_id, report, row_start, row_end, queue_end);
            let after = state.progressed(
                job_id,
                false,
                report,
                row_start,
                row_end,
                queue_end,
                now,
            );
            &&& after == reported.started(now)
            &&& reported.row(job_id).status == JobStatus::Finished
            &&& after.row(job_id).status == JobStatus::Finished
            &&& state.progressed_effects(
                job_id,
                false,
                report,
                row_start,
                row_end,
                queue_end,
                now,
            ) == state.reported_effects(job_id, report, queue_end) + reported.started_effects(now)
        }),
{
    let reported = state.reported(job_id, report, row_start, row_end, queue_end);
    let at = state.jobs[job_id].queue_index;
    assert(is_last_row(state.queue, job_id, at));
    model::lemma_reported_wf(state, job_id, report, row_start, row_end, queue_end);
    assert(reported.jobs.contains_key(job_id));
    lemma_activated_ready(reported, now);
    model::lemma_started_wf(reported, now);
    let active = reported.activated(now);
    assert(active.jobs.contains_key(job_id));
    assert(active.jobs[job_id].queue_index == at);
    assert(active.queue[at].status == JobStatus::Finished);
    if !reported.pause_flag {
        model::lemma_first_ready(active.queue);
        if let Some(row) = model::first_ready(active.queue) {
            let next = active.queue[row].job_id;
            if active.launches(next) {
                assert(is_last_row(active.queue, next, active.jobs[next].queue_index));
                assert(next != job_id);
                assert(is_last_row(active.queue, job_id, at));
            }
        }
    }
}

/// A job whose renderer failed, and was not launched alone, hands the queue on: its row shows
/// the error, and the next ready job is launched as by a start. The row goes on showing the
/// error, where no other row with the job's number is ready. The same holds where the renderer
/// asked for another pixel format.
pub proof fn law_failed_job_hands_on<S>(
    state: QueueView<S>,
    job_id: u32,
    message: Seq<char>,
    arg: Seq<char>,
    format: Seq<char>,
    supported: Seq<char>,
    now: u64,
)
    requires
        state.wf(),
        state.jobs.contains_key(job_id),
        forall|row: int|
            0 <= row < state.queue.len() && row != state.jobs[job_id].queue_index && (
            #[trigger] state.queue[row]).job_id == job_id ==> !state.queue[row].ready(),
    ensures
        ({
            let failed = state.failed(job_id, arg);
            let after = state.errored(job_id, false, arg, now);
            &&& after == failed.started(now)
            &&& state.errored_effects(job_id, false, message, arg, now) == seq![
                model::error_effect(job_id, message, arg),
                model::given_up(job_id),
            ] + failed.started_effects(now)
            &&& after.row(job_id).status == JobStatus::Error
            &&& after.row(job_id).error_string == arg
        }),
        ({
            let request = conversion_request(format, supported);
            let failed = state.failed(job_id, request);
            let after = state.conversion_needed(job_id, false, format, supported, now);
            &&& after == failed.started(now)
            &&& state.conversion_needed_effects(job_id, false, format, supported, now) == seq![
                EffectView::ConvertFormat { job_id, format, supported },
                model::given_up(job_id),
            ] + failed.started_effects(now)
            &&& after.row(job_id).status == JobStatus::Error
            &&& after.row(job_id).error_string == request
        }),
{
    lemma_failed_row_stays(state, job_id, arg, now);
    lemma_failed_row_stays(state, job_id, conversion_request(format, supported), now);
}

/// A row that failed goes on showing its error when the queue is started, where no other row
/// with its number is ready.
proof fn lemma_failed_row_stays<S>(state: QueueView<S>, job_id: u32, message: Seq<char>, now: u64)
    requires
        state.wf(),
        state.jobs.contains_key(job_id),
        forall|row: int|
            0 <= row < state.queue.len() && row != state.jobs[job_id].queue_index && (
            #[trigger] state.queue[row]).job_id == job_id ==> !state.queue[row].ready(),
    ensures
        state.failed(job_id, message).started(now).row(job_id).status == JobStatus::Error,
        state.failed(job_id, message).started(now).row(job_id).error_string == message,
{
    let failed = state.failed(job_id, message);
    let at = state.jobs[job_id].queue_index;
    assert(is_last_row(state.queue, job_id, at));
    model::lemma_with_row_wf(state, job_id, state.row(job_id).failed(message));
    lemma_activated_ready(failed, now);
    model::lemma_started_wf(failed, now);
    let active = failed.activated(now);
    assert(active.jobs.contains_key(job_id));
    assert(active.jobs[job_id].queue_index == at);
    if !failed.pause_flag {
        model::lemma_first_ready(active.queue);
        if let Some(row) = model::first_ready(active.queue) {
            let next = active.queue[row].job_id;
            assert(row != at);
            assert(failed.queue[row] == state.queue[row]);
            assert(next != job_id);
            if active.launches(next) {
                assert(is_last_row(active.queue, next, active.jobs[next].queue_index));
                assert(is_last_row(active.queue, job_id, at));
            }
        }
    }
}

/// A job that asked for another pixel format is launched again, with the format chosen,
/// when the queue is not active nor paused and the job's row is then the first ready one.
pub proof fn law_chosen_format_is_rendered<S>(
    state: QueueView<S>,
    job_id: u32,
    format: Seq<char>,
    now: u64,
)
    requires
        state.wf(),
        state.jobs.contains_key(job_id),
        state.status != QueueStatus::Active,
        !state.pause_flag,
        is_first_ready(
            state.reformatted(job_id, format).queue,
            state.jobs[job_id].queue_index,
        ),
    ensures
        ({
            let options = state.jobs[job_id].render_options;
            state.format_chosen_effects(job_id, format, now).last() == EffectView::StartRender {
                job_id,
                single: false,
                input_file: state.jobs[job_id].input_file,
                render_options: if format == "cpu"@ {
                    RenderOptionsView { use_gpu: false, ..options }
                } else {
                    RenderOptionsView { pixel_format: format, ..options }
                },
            }
        }),
{
    let options = state.reformatted_options(job_id, format);
    let job = JobView { render_options: options, ..state.jobs[job_id] };
    let formatted = state.with_job(job_id, job);
    model::lemma_with_job_wf(state, job_id, job);
    model::lemma_with_row_wf(formatted, job_id, formatted.row(job_id).requeued());
    assert(is_last_row(state.queue, job_id, state.jobs[job_id].queue_index));
    law_start_launches_first_ready(
        state.reformatted(job_id, format),
        now,
        state.jobs[job_id].queue_index,
    );
}

/// The frames of the queue are those of its rows: a row that is added counts in full, a row
/// that is removed no longer.
pub proof fn law_frames_add_up<S>(
    state: QueueView<S>,
    job_id: u32,
    input_file: Seq<char>,
    options: RenderOptionsView,
    settings: Seq<char>,
    total_frames: u64,
    thumbnail_url: Seq<char>,
    stab: S,
)
    requires
        state.wf(),
    ensures
        ({
            let added = state.added(
                job_id,
                input_file,
                options,
                settings,
                total_frames,
                thumbnail_url,
                stab,
            );
            &&& model::sum(model::total_counts(added.queue)) == model::sum(
                model::total_counts(state.queue),
            ) + total_frames
            &&& model::sum(model::current_counts(added.queue)) == model::sum(
                model::current_counts(state.queue),
            )
        }),
        state.jobs.contains_key(job_id) ==> {
            let removed = state.removed(job_id);
            &&& model::sum(model::total_counts(removed.queue)) == model::sum(
                model::total_counts(state.queue),
            ) - state.row(job_id).total_frames
            &&& model::sum(model::current_counts(removed.queue)) == model::sum(
                model::current_counts(state.queue),
            ) - state.row(job_id).current_frame
        },
{
    let added = state.added(
        job_id,
        input_file,
        options,
        settings,
        total_frames,
        thumbnail_url,
        stab,
    );
    assert(model::total_counts(added.queue).drop_last() =~= model::total_counts(state.queue));
    assert(model::current_counts(added.queue).drop_last() =~= model::current_counts(state.queue));
    if state.jobs.contains_key(job_id) {
        let at = state.jobs[job_id].queue_index;
        assert(is_last_row(state.queue, job_id, at));
        let removed = state.removed(job_id);
        assert(model::total_counts(removed.queue) =~= model::total_counts(state.queue).remove(at));
        assert(model::current_counts(removed.queue) =~= model::current_counts(state.queue).remove(
            at,
        ));
        lemma_sum_remove(model::total_counts(state.queue), at);
        lemma_sum_remove(model::current_counts(state.queue), at);
    }
}

/// Taking out a count takes it off the sum.
proof fn lemma_sum_remove(counts: Seq<u64>, at: int)
    requires
        0 <= at < counts.len(),
    ensures
        model::sum(counts.remove(at)) == model::sum(counts) - counts[at],
    decreases counts.len(),
{
    let shorter = counts.drop_last();
    if at == counts.len() - 1 {
        assert(counts.remove(at) =~= shorter);
    } else {
        lemma_sum_remove(shorter, at);
        assert(counts.remove(at).drop_last() =~= shorter.remove(at));
    }
}

} // verus!
