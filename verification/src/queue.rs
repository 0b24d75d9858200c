//! The queue itself.

use std::collections::HashMap;

use vstd::prelude::*;

use crate::clock;
use crate::effect::effects_view;
use crate::effect::Effect;
use crate::effect::EffectView;
use crate::float64::Float64;
use crate::formats;
use crate::item::ItemView;
use crate::item::Job;
use crate::item::JobStatus;
use crate::item::JobView;
use crate::item::RenderQueueItem;
use crate::loading::FileLoad;
use crate::loading::FileLoadView;
use crate::loading::LoadAction;
use crate::model;
use crate::model::has_no_row;
use crate::model::is_last_row;
use crate::model::Progress;
use crate::model::QueueStatus;
use crate::model::QueueView;
use crate::options::RenderOptions;
use crate::text;

verus! {

broadcast use vstd::std_specs::hash::group_hash_axioms;

/// The footage of a job, with the figures that its row shows.
#[derive(Debug)]
pub struct Footage<S> {
    /// The stabilizer that renders the job.
    pub stab: S,
    pub video_path: String,
    /// The frame rate in decimal, with three places.
    pub fps: String,
    /// The bitrate of the options, rounded to a whole number.
    pub bitrate: String,
    /// The frames between the trims of the options, rounded up.
    pub total_frames: u64,
}

/// A queue of rendering jobs.
///
/// `queue` holds the rows that are shown, in the order in which they are rendered. `jobs`
/// holds the job behind each row by its number. A number comes by chance, so it can come
/// twice: then the job is that of the last row with the number.
#[derive(Debug)]
pub struct RenderQueue<S> {
    queue: Vec<RenderQueueItem>,
    jobs: HashMap<u32, Job<S>>,
    start_timestamp: u64,
    end_timestamp: u64,
    status: QueueStatus,
    pause_flag: bool,
    paused_timestamp: Option<u64>,
}

/// The contents of a list of rows.
pub open spec fn rows_view(rows: Seq<RenderQueueItem>) -> Seq<ItemView> {
    rows.map_values(|row: RenderQueueItem| row@)
}

/// The contents of a table of jobs.
pub open spec fn jobs_view<S>(jobs: Map<u32, Job<S>>) -> Map<u32, JobView<S>> {
    jobs.map_values(|job: Job<S>| job@)
}

impl<S> View for RenderQueue<S> {
    type V = QueueView<S>;

    closed spec fn view(&self) -> QueueView<S> {
        QueueView {
            queue: rows_view(self.queue@),
            jobs: jobs_view(self.jobs@),
            start_timestamp: self.start_timestamp,
            end_timestamp: self.end_timestamp,
            status: self.status,
            pause_flag: self.pause_flag,
            paused_timestamp: self.paused_timestamp,
        }
    }
}

impl<S> RenderQueue<S> {
    /// Every job points at the last of its rows.
    pub open spec fn wf(&self) -> bool {
        self@.wf()
    }

    /// An empty queue, stopped.
    pub fn new() -> (queue: RenderQueue<S>)
        ensures
            queue.wf(),
            queue@ == QueueView::<S>::empty(),
    {
        let queue = RenderQueue {
            queue: Vec::new(),
            jobs: HashMap::new(),
            start_timestamp: 0,
            end_timestamp: 0,
            status: QueueStatus::Stopped,
            pause_flag: false,
            paused_timestamp: None,
        };
        assert(queue@ =~= QueueView::<S>::empty());
        queue
    }

    /// The rows that are shown, in the order in which they are rendered.
    pub fn rows(&self) -> (rows: &Vec<RenderQueueItem>)
        ensures
            rows_view(rows@) == self@.queue,
    {
        &self.queue
    }

    /// The job of this number.
    pub fn job(&self, job_id: u32) -> (job: Option<&Job<S>>)
        ensures
            match job {
                Some(job) => self@.jobs.contains_key(job_id) && job@ == self@.jobs[job_id],
                None => !self@.jobs.contains_key(job_id),
            },
    {
        self.jobs.get(&job_id)
    }

    /// When the present run of the queue began, in milliseconds, or zero.
    pub fn start_timestamp(&self) -> (timestamp: u64)
        ensures
            timestamp == self@.start_timestamp,
    {
        self.start_timestamp
    }

    /// When the last progress came, in milliseconds, or zero.
    pub fn end_timestamp(&self) -> (timestamp: u64)
        ensures
            timestamp == self@.end_timestamp,
    {
        self.end_timestamp
    }

    /// What the queue is doing.
    pub fn status(&self) -> (status: QueueStatus)
        ensures
            status == self@.status,
    {
        self.status
    }

    /// Whether the renderers are told to wait.
    pub fn pause_flag(&self) -> (flag: bool)
        ensures
            flag == self@.pause_flag,
    {
        self.pause_flag
    }

    /// Points every job at the last of its rows. A job without a row stays as it is.
    fn update_queue_indices(&mut self)
        ensures
            final(self).queue == old(self).queue,
            final(self)@ == (QueueView { jobs: final(self)@.jobs, ..old(self)@ }),
            final(self)@.jobs.dom() == old(self)@.jobs.dom(),
            forall|job_id: u32, row: int|
                final(self)@.jobs.contains_key(job_id) && #[trigger] is_last_row(
                    final(self)@.queue,
                    job_id,
                    row,
                ) ==> final(self)@.jobs[job_id] == (JobView {
                    queue_index: row,
                    ..old(self)@.jobs[job_id]
                }),
            forall|job_id: u32| #[trigger]
                final(self)@.jobs.contains_key(job_id) && has_no_row(final(self)@.queue, job_id)
                    ==> final(self)@.jobs[job_id] == old(self)@.jobs[job_id],
    {
        let mut at: usize = 0;
        while at < self.queue.len()
            invariant
                at <= self.queue.len(),
                self.queue == old(self).queue,
                self@ == (QueueView { jobs: self@.jobs, ..old(self)@ }),
                self@.jobs.dom() == old(self)@.jobs.dom(),
                forall|job_id: u32| #[trigger]
                    self@.jobs.contains_key(job_id) ==> self@.jobs[job_id] == (JobView {
                        queue_index: self@.jobs[job_id].queue_index,
                        ..old(self)@.jobs[job_id]
                    }),
                forall|job_id: u32, row: int|
                    self@.jobs.contains_key(job_id) && #[trigger] is_last_row(
                        self@.queue.take(at as int),
                        job_id,
                        row,
                    ) ==> self@.jobs[job_id].queue_index == row,
                forall|job_id: u32| #[trigger]
                    self@.jobs.contains_key(job_id) && has_no_row(
                        self@.queue.take(at as int),
                        job_id,
                    ) ==> self@.jobs[job_id] == old(self)@.jobs[job_id],
            decreases self.queue.len() - at,
        {
            let job_id = self.queue[at].job_id;
            let ghost before = self@;
            if let Some(mut job) = self.jobs.remove(&job_id) {
                job.queue_index = at;
                self.jobs.insert(job_id, job);
            }
            proof {
                assert(self@.jobs.dom() =~= before.jobs.dom());
                assert forall|id: u32, row: int|
                    self@.jobs.contains_key(id) && #[trigger] is_last_row(
                        self@.queue.take(at + 1),
                        id,
                        row,
                    ) implies self@.jobs[id].queue_index == row by {
                    let rows = self@.queue.take(at + 1);
                    assert(rows[at as int].job_id == job_id);
                    if row < at {
                        assert(id != job_id);
                        let shorter = before.queue.take(at as int);
                        assert forall|later: int| row < later < shorter.len() implies (
                        #[trigger] shorter[later]).job_id != id by {
                            assert(rows[later].job_id != id);
                        }
                        assert(is_last_row(shorter, id, row));
                        assert(before.jobs.contains_key(id));
                    }
                }
                assert forall|id: u32| #[trigger]
                    self@.jobs.contains_key(id) && has_no_row(
                        self@.queue.take(at + 1),
                        id,
                    ) implies self@.jobs[id] == old(self)@.jobs[id] by {
                    let rows = self@.queue.take(at + 1);
                    assert(rows[at as int].job_id == job_id);
                    assert(id != job_id);
                    let shorter = before.queue.take(at as int);
                    assert forall|row: int| 0 <= row < shorter.len() implies (
                    #[trigger] shorter[row]).job_id != id by {
                        assert(rows[row].job_id != id);
                    }
                    assert(before.jobs.contains_key(id));
                }
            }
            at = at + 1;
        }
        assert(self@.queue.take(at as int) =~= self@.queue);
    }

    /// Appends a row, and the job behind it.
    pub fn add_internal(
        &mut self,
        job_id: u32,
        footage: Footage<S>,
        render_options: RenderOptions,
        thumbnail_url: String,
    ) -> (effects: Vec<Effect>)
        requires
            old(self).wf(),
        ensures
            final(self).wf(),
            final(self)@ == old(self)@.added(
                job_id,
                footage.video_path@,
                render_options@,
                render_options@.settings(footage.fps@, footage.bitrate@),
                footage.total_frames,
                thumbnail_url@,
                footage.stab,
            ),
            effects_view(effects@) == seq![
                EffectView::QueueChanged,
                EffectView::Added { job_id },
            ],
    {
        let export_settings = render_options.settings_string(&footage.fps, &footage.bitrate);
        let ghost target = self@.added(
            job_id,
            footage.video_path@,
            render_options@,
            export_settings@,
            footage.total_frames,
            thumbnail_url@,
            footage.stab,
        );
        self.queue.push(
            RenderQueueItem {
                job_id,
                input_file: footage.video_path.clone(),
                output_path: render_options.output_path.clone(),
                export_settings,
                thumbnail_url,
                current_frame: 0,
                total_frames: footage.total_frames,
                start_timestamp: 0,
                end_timestamp: 0,
                error_string: String::new(),
                status: JobStatus::Queued,
            },
        );
        self.jobs.insert(
            job_id,
            Job {
                queue_index: 0,
                input_file: footage.video_path,
                render_options,
                cancel_flag: false,
                stab: footage.stab,
            },
        );
        let ghost before = self@;
        self.update_queue_indices();
        proof {
            let first = old(self)@;
            assert(before.queue =~= target.queue);
            assert(before.jobs.dom() =~= target.jobs.dom());
            assert forall|id: u32| #[trigger] target.jobs.contains_key(id) implies is_last_row(
                target.queue,
                id,
                target.jobs[id].queue_index,
            ) && self@.jobs[id] == target.jobs[id] by {
                if id != job_id {
                    assert(first.jobs.contains_key(id));
                    assert(is_last_row(first.queue, id, first.jobs[id].queue_index));
                }
                assert(is_last_row(self@.queue, id, target.jobs[id].queue_index));
                assert(before.jobs.contains_key(id));
                assert(JobView { queue_index: 0, ..before.jobs[id] } == JobView {
                    queue_index: 0,
                    ..target.jobs[id]
                });
            }
            assert(self@.jobs =~= target.jobs);
            assert(self@ =~= target);
        }
        let effects = vec![Effect::QueueChanged, Effect::Added { job_id }];
        assert(effects_view(effects@) =~= seq![
            EffectView::QueueChanged,
            EffectView::Added { job_id },
        ]);
        effects
    }

    /// Takes out a job with its row. The job comes back with its cancel flag raised, so
    /// that its renderer can be told.
    pub fn remove(&mut self, job_id: u32) -> (result: (Option<Job<S>>, Vec<Effect>))
        requires
            old(self).wf(),
        ensures
            final(self).wf(),
            final(self)@ == old(self)@.removed(job_id),
            match result.0 {
                Some(job) => {
                    &&& old(self)@.jobs.contains_key(job_id)
                    &&& job@ == (JobView { cancel_flag: true, ..old(self)@.jobs[job_id] })
                    &&& effects_view(result.1@) == seq![EffectView::QueueChanged]
                },
                None => {
                    &&& !old(self)@.jobs.contains_key(job_id)
                    &&& effects_view(result.1@) == Seq::<EffectView>::empty()
                },
            },
    {
        let mut effects: Vec<Effect> = Vec::new();
        let ghost target = self@.removed(job_id);
        let mut removed: Option<Job<S>> = None;
        if let Some(mut job) = self.jobs.remove(&job_id) {
            assert(old(self)@.jobs.contains_key(job_id));
            job.cancel_flag = true;
            self.queue.remove(job.queue_index);
            effects.push(Effect::QueueChanged);
            removed = Some(job);
        }
        let ghost before = self@;
        self.update_queue_indices();
        proof {
            let first = old(self)@;
            assert(before.queue =~= target.queue);
            assert(before.jobs.dom() =~= target.jobs.dom());
            assert forall|id: u32| #[trigger] target.jobs.contains_key(id) implies is_last_row(
                target.queue,
                id,
                target.jobs[id].queue_index,
            ) && self@.jobs[id] == target.jobs[id] by {
                assert(first.jobs.contains_key(id));
                let row = first.jobs[id].queue_index;
                assert(is_last_row(first.queue, id, row));
                if first.jobs.contains_key(job_id) {
                    let gone = first.jobs[job_id].queue_index;
                    assert(id != job_id);
                    assert(is_last_row(first.queue, job_id, gone));
                    let moved = target.jobs[id].queue_index;
                    assert forall|later: int| moved < later < target.queue.len() implies (
                    #[trigger] target.queue[later]).job_id != id by {
                        if later < gone {
                            assert(target.queue[later] == first.queue[later]);
                        } else {
                            assert(target.queue[later] == first.queue[later + 1]);
                        }
                    }
                }
                assert(is_last_row(self@.queue, id, target.jobs[id].queue_index));
                assert(before.jobs.contains_key(id));
                assert(JobView { queue_index: 0, ..before.jobs[id] } == JobView {
                    queue_index: 0,
                    ..target.jobs[id]
                });
            }
            assert(self@.jobs =~= target.jobs);
            assert(self@ =~= target);
        }
        (removed, effects)
    }

    /// The row of a job.
    fn row_of(&self, job_id: u32) -> (row: Option<usize>)
        requires
            self.wf(),
        ensures
            match row {
                Some(row) => {
                    &&& self@.jobs.contains_key(job_id)
                    &&& row == self@.jobs[job_id].queue_index
                    &&& row < self.queue.len()
                    &&& self.queue[row as int]@ == self@.row(job_id)
                },
                None => !self@.jobs.contains_key(job_id),
            },
    {
        match self.jobs.get(&job_id) {
            Some(job) => {
                assert(self@.jobs.contains_key(job_id));
                Some(job.queue_index)
            },
            None => None,
        }
    }

    /// Sets the cancel flag of a job.
    fn set_cancel_flag(&mut self, job_id: u32, flag: bool)
        requires
            old(self).wf(),
        ensures
            final(self).wf(),
            final(self)@ == old(self)@.with_cancel_flag(job_id, flag),
    {
        if let Some(mut job) = self.jobs.remove(&job_id) {
            job.cancel_flag = flag;
            self.jobs.insert(job_id, job);
        }
        proof {
            let first = old(self)@;
            model::lemma_with_job_wf(
                first,
                job_id,
                JobView { cancel_flag: flag, ..first.jobs[job_id] },
            );
            assert(self@.jobs =~= first.with_cancel_flag(job_id, flag).jobs);
        }
    }

    /// Sets the cancel flag of every job. Each job has a row, so the rows lead to all jobs.
    fn set_cancel_flags(&mut self, flag: bool)
        requires
            old(self).wf(),
        ensures
            final(self).wf(),
            final(self)@ == (QueueView {
                jobs: model::flagged(old(self)@.jobs, flag),
                ..old(self)@
            }),
    {
        let mut at: usize = 0;
        while at < self.queue.len()
            invariant
                at <= self.queue.len(),
                old(self).wf(),
                self.queue == old(self).queue,
                self@ == (QueueView { jobs: self@.jobs, ..old(self)@ }),
                self@.jobs.dom() == old(self)@.jobs.dom(),
                forall|job_id: u32| #[trigger]
                    self@.jobs.contains_key(job_id) ==> self@.jobs[job_id] == (JobView {
                        cancel_flag: self@.jobs[job_id].cancel_flag,
                        ..old(self)@.jobs[job_id]
                    }),
                forall|job_id: u32| #[trigger]
                    self@.jobs.contains_key(job_id) && self@.jobs[job_id].queue_index < at
                        ==> self@.jobs[job_id].cancel_flag == flag,
            decreases self.queue.len() - at,
        {
            let job_id = self.queue[at].job_id;
            let ghost before = self@;
            if let Some(mut job) = self.jobs.remove(&job_id) {
                job.cancel_flag = flag;
                self.jobs.insert(job_id, job);
            }
            proof {
                assert(self@.jobs.dom() =~= before.jobs.dom());
                assert forall|id: u32| #[trigger]
                    self@.jobs.contains_key(id) && self@.jobs[id].queue_index < at
                        + 1 implies self@.jobs[id].cancel_flag == flag by {
                    assert(old(self)@.jobs.contains_key(id));
                    assert(before.jobs.contains_key(id));
                    assert(is_last_row(old(self)@.queue, id, old(self)@.jobs[id].queue_index));
                }
            }
            at = at + 1;
        }
        proof {
            let target = model::flagged(old(self)@.jobs, flag);
            assert forall|id: u32| #[trigger] target.contains_key(id) implies self@.jobs[id]
                == target[id] by {
                assert(old(self)@.jobs.contains_key(id));
                assert(self@.jobs.contains_key(id));
                assert(is_last_row(old(self)@.queue, id, old(self)@.jobs[id].queue_index));
            }
            assert(self@.jobs =~= target);
            model::lemma_flagged_wf(old(self)@, flag);
        }
    }

    /// Puts the row of a job back in line.
    fn requeue(&mut self, job_id: u32)
        requires
            old(self).wf(),
        ensures
            final(self).wf(),
            final(self)@ == old(self)@.requeued(job_id),
    {
        if let Some(row) = self.row_of(job_id) {
            self.queue[row].error_string = String::new();
            self.queue[row].status = JobStatus::Queued;
        }
        proof {
            let first = old(self)@;
            model::lemma_with_row_wf(first, job_id, first.row(job_id).requeued());
            assert(self@.queue =~= first.requeued(job_id).queue);
        }
    }

    /// Marks the row of a job as failed.
    fn fail(&mut self, job_id: u32, message: String)
        requires
            old(self).wf(),
        ensures
            final(self).wf(),
            final(self)@ == old(self)@.failed(job_id, message@),
    {
        if let Some(row) = self.row_of(job_id) {
            self.queue[row].error_string = message;
            self.queue[row].status = JobStatus::Error;
        }
        proof {
            let first = old(self)@;
            model::lemma_with_row_wf(first, job_id, first.row(job_id).failed(message@));
            assert(self@.queue =~= first.failed(job_id, message@).queue);
        }
    }

    /// Launches the renderer of a job, unless the job is unknown, renders already or is done.
    pub fn render_job(&mut self, job_id: u32, single: bool) -> (effects: Vec<Effect>)
        requires
            old(self).wf(),
        ensures
            final(self).wf(),
            final(self)@ == old(self)@.rendering(job_id),
            effects_view(effects@) == old(self)@.rendering_effects(job_id, single),
    {
        let ghost first = self@;
        let mut effects: Vec<Effect> = Vec::new();
        assert(effects_view(effects@) =~= seq![]);
        let row = match self.row_of(job_id) {
            Some(row) => row,
            None => {
                return effects;
            },
        };
        if self.queue[row].status == JobStatus::Rendering || self.queue[row].status
            == JobStatus::Finished {
            return effects;
        }
        self.queue[row].status = JobStatus::Rendering;
        proof {
            let shown = ItemView { status: JobStatus::Rendering, ..first.row(job_id) };
            model::lemma_with_row_wf(first, job_id, shown);
            assert(self@.queue =~= first.with_row(job_id, shown).queue);
        }
        self.set_cancel_flag(job_id, false);
        assert(self@.jobs.contains_key(job_id));
        assert(self.jobs@.contains_key(job_id));
        assert(self@.jobs[job_id] == self.jobs@[job_id]@);
        if let Some(job) = self.jobs.get(&job_id) {
            effects.push(Effect::ReportLaunch { job_id });
            effects.push(
                Effect::StartRender {
                    job_id,
                    single,
                    input_file: job.input_file.clone(),
                    render_options: job.render_options.clone(),
                },
            );
        }
        assert(effects_view(effects@) =~= first.rendering_effects(job_id, single));
        effects
    }

    /// The first row that is ready to render.
    fn first_ready_row(&self) -> (row: Option<usize>)
        ensures
            match row {
                Some(row) => model::is_first_ready(self@.queue, row as int),
                None => model::none_ready(self@.queue),
            },
    {
        let mut at: usize = 0;
        while at < self.queue.len()
            invariant
                at <= self.queue.len(),
                forall|earlier: int|
                    0 <= earlier < at ==> !(#[trigger] self@.queue[earlier]).ready(),
            decreases self.queue.len() - at,
        {
            let row = &self.queue[at];
            assert(self@.queue[at as int] == row@);
            if row.current_frame == 0 && row.total_frames > 0 && row.status == JobStatus::Queued {
                return Some(at);
            }
            at = at + 1;
        }
        None
    }

    /// The word that the frame counters or the timestamps of the queue changed.
    fn progress_changed(&self) -> (effect: Effect)
        ensures
            effect@ == (EffectView::ProgressChanged {
                start_timestamp: self@.start_timestamp,
                end_timestamp: self@.end_timestamp,
            }),
    {
        Effect::ProgressChanged {
            start_timestamp: self.start_timestamp,
            end_timestamp: self.end_timestamp,
        }
    }

    /// Moves the start of every row underway on by the time from `from` to `to`.
    fn resume_rows(&mut self, from: u64, to: u64)
        requires
            old(self).wf(),
        ensures
            final(self).wf(),
            final(self)@ == (QueueView {
                queue: model::resumed_rows(old(self)@.queue, from, to),
                ..old(self)@
            }),
    {
        let ghost target = model::resumed_rows(self@.queue, from, to);
        let mut at: usize = 0;
        while at < self.queue.len()
            invariant
                at <= self.queue.len(),
                self@ == (QueueView { queue: self@.queue, ..old(self)@ }),
                target == model::resumed_rows(old(self)@.queue, from, to),
                self@.queue.len() == target.len(),
                forall|row: int| 0 <= row < at ==> #[trigger] self@.queue[row] == target[row],
                forall|row: int|
                    at <= row < self@.queue.len() ==> #[trigger] self@.queue[row] == old(
                        self,
                    )@.queue[row],
            decreases self.queue.len() - at,
        {
            let ghost before = self@.queue;
            assert(before[at as int] == self.queue[at as int]@);
            if self.queue[at].start_timestamp > 0 && self.queue[at].current_frame
                < self.queue[at].total_frames {
                self.queue[at].start_timestamp = model::shift_timestamp(
                    self.queue[at].start_timestamp,
                    from,
                    to,
                );
            }
            assert(self@.queue =~= before.update(at as int, target[at as int]));
            at = at + 1;
        }
        proof {
            assert(self@.queue =~= target);
            model::lemma_resumed_wf(old(self)@, from, to);
        }
    }

    /// Starts the queue at the time `now`, or resumes it after a pause.
    pub fn start_at(&mut self, now: u64) -> (effects: Vec<Effect>)
        requires
            old(self).wf(),
        ensures
            final(self).wf(),
            final(self)@ == old(self)@.started(now),
            effects_view(effects@) == old(self)@.started_effects(now),
    {
        let ghost first = self@;
        let paused = self.pause_flag;
        self.set_cancel_flags(false);
        self.pause_flag = false;
        self.status = QueueStatus::Active;
        let mut effects = vec![Effect::StatusChanged { status: self.status }];
        if !paused && self.start_timestamp == 0 {
            self.start_timestamp = now;
            effects.push(self.progress_changed());
        } else if let Some(paused_timestamp) = self.paused_timestamp {
            self.paused_timestamp = None;
            self.start_timestamp = model::shift_timestamp(
                self.start_timestamp,
                paused_timestamp,
                now,
            );
            self.resume_rows(paused_timestamp, now);
        }
        proof {
            model::lemma_started_wf(first, now);
            assert(self@ =~= first.activated(now));
            assert(effects_view(effects@) =~= first.activated_effects(now));
        }
        if !paused {
            let ghost active = self@;
            proof {
                model::lemma_first_ready(active.queue);
            }
            match self.first_ready_row() {
                Some(row) => {
                    proof {
                        let other = model::first_ready(active.queue)->0;
                        assert(active.queue[row as int].ready());
                        assert(active.queue[other].ready());
                        assert(other == row);
                    }
                    let mut launched = self.render_job(self.queue[row].job_id, false);
                    let ghost before = effects_view(effects@);
                    let ghost more = effects_view(launched@);
                    effects.append(&mut launched);
                    assert(effects_view(effects@) =~= before + more);
                },
                None => {
                    self.start_timestamp = 0;
                    effects.push(self.progress_changed());
                    self.status = QueueStatus::Stopped;
                    effects.push(Effect::StatusChanged { status: self.status });
                    assert(effects_view(effects@) =~= first.started_effects(now));
                },
            }
        }
        effects
    }

    /// Starts the queue, or resumes it after a pause.
    pub fn start(&mut self) -> (effects: Vec<Effect>)
        requires
            old(self).wf(),
        ensures
            final(self).wf(),
            exists|now: u64|
                {
                    &&& final(self)@ == #[trigger] old(self)@.started(now)
                    &&& effects_view(effects@) == old(self)@.started_effects(now)
                },
    {
        self.start_at(clock::current_timestamp())
    }

    /// Pauses the queue at the time `now`.
    pub fn pause_at(&mut self, now: u64) -> (effects: Vec<Effect>)
        requires
            old(self).wf(),
        ensures
            final(self).wf(),
            final(self)@ == old(self)@.paused(now),
            effects_view(effects@) == seq![EffectView::StatusChanged { status: QueueStatus::Paused }],
    {
        self.pause_flag = true;
        self.paused_timestamp = Some(now);
        self.status = QueueStatus::Paused;
        let effects = vec![Effect::StatusChanged { status: self.status }];
        assert(effects_view(effects@) =~= seq![EffectView::StatusChanged { status: QueueStatus::Paused }]);
        effects
    }

    /// Pauses the queue.
    pub fn pause(&mut self) -> (effects: Vec<Effect>)
        requires
            old(self).wf(),
        ensures
            final(self).wf(),
            exists|now: u64| final(self)@ == #[trigger] old(self)@.paused(now),
            effects_view(effects@) == seq![EffectView::StatusChanged { status: QueueStatus::Paused }],
    {
        self.pause_at(clock::current_timestamp())
    }

    /// Stops the queue: every renderer is told to give up.
    pub fn stop(&mut self) -> (effects: Vec<Effect>)
        requires
            old(self).wf(),
        ensures
            final(self).wf(),
            final(self)@ == old(self)@.stopped(),
            effects_view(effects@) == seq![EffectView::StatusChanged { status: QueueStatus::Stopped }],
    {
        self.pause_flag = false;
        self.set_cancel_flags(true);
        self.status = QueueStatus::Stopped;
        let effects = vec![Effect::StatusChanged { status: self.status }];
        assert(effects_view(effects@) =~= seq![EffectView::StatusChanged { status: QueueStatus::Stopped }]);
        effects
    }

    /// Tells the renderer of a job to give up.
    pub fn cancel_job(&mut self, job_id: u32)
        requires
            old(self).wf(),
        ensures
            final(self).wf(),
            final(self)@ == old(self)@.with_cancel_flag(job_id, true),
    {
        self.set_cancel_flag(job_id, true);
    }

    /// Puts a job back in line, its cancel flag lowered.
    pub fn reset_job(&mut self, job_id: u32)
        requires
            old(self).wf(),
        ensures
            final(self).wf(),
            final(self)@ == old(self)@.with_cancel_flag(job_id, false).requeued(job_id),
    {
        self.set_cancel_flag(job_id, false);
        self.requeue(job_id);
    }

    /// Replaces the pixel format of a job, or gives up rendering it on the GPU where the
    /// format is `cpu`, and puts the job back in line. Starts the queue, at the time `now`,
    /// where it is not active.
    pub fn set_pixel_format_at(&mut self, job_id: u32, format: String, now: u64) -> (effects: Vec<
        Effect,
    >)
        requires
            old(self).wf(),
        ensures
            final(self).wf(),
            final(self)@ == old(self)@.format_chosen(job_id, format@, now),
            effects_view(effects@) == old(self)@.format_chosen_effects(job_id, format@, now),
    {
        let ghost first = self@;
        if let Some(mut job) = self.jobs.remove(&job_id) {
            if text::same_text(&format, "cpu") {
                job.render_options.use_gpu = false;
            } else {
                job.render_options.pixel_format = format;
            }
            self.jobs.insert(job_id, job);
        }
        proof {
            let job = JobView {
                render_options: first.reformatted_options(job_id, format@),
                ..first.jobs[job_id]
            };
            model::lemma_with_job_wf(first, job_id, job);
            assert(self@.jobs =~= first.with_job(job_id, job).jobs);
        }
        self.requeue(job_id);
        if self.status != QueueStatus::Active {
            self.start_at(now)
        } else {
            let effects: Vec<Effect> = Vec::new();
            assert(effects_view(effects@) =~= seq![]);
            effects
        }
    }

    /// Replaces the pixel format of a job, or gives up rendering it on the GPU where the
    /// format is `cpu`, and puts the job back in line. Starts the queue where it is not
    /// active.
    pub fn set_pixel_format(&mut self, job_id: u32, format: String) -> (effects: Vec<Effect>)
        requires
            old(self).wf(),
        ensures
            final(self).wf(),
            exists|now: u64|
                {
                    &&& final(self)@ == #[trigger] old(self)@.format_chosen(job_id, format@, now)
                    &&& effects_view(effects@) == old(self)@.format_chosen_effects(
                        job_id,
                        format@,
                        now,
                    )
                },
    {
        self.set_pixel_format_at(job_id, format, clock::current_timestamp())
    }

    /// The output path that a job's row shows; empty where there is no such job.
    pub fn get_job_output_path(&self, job_id: u32) -> (path: String)
        requires
            self.wf(),
        ensures
            path@ == if self@.jobs.contains_key(job_id) {
                self@.row(job_id).output_path
            } else {
                seq![]
            },
    {
        match self.row_of(job_id) {
            Some(row) => self.queue[row].output_path.clone(),
            None => String::new(),
        }
    }

    /// The frames of all rows, modulo 2^64.
    pub fn get_total_frames(&self) -> (frames: u64)
        ensures
            frames == model::sum(model::total_counts(self@.queue)) % 0x1_0000_0000_0000_0000,
    {
        let ghost counts = model::total_counts(self@.queue);
        let mut frames: u64 = 0;
        let mut at: usize = 0;
        while at < self.queue.len()
            invariant
                at <= self.queue.len(),
                counts == model::total_counts(self@.queue),
                frames == model::sum(counts.take(at as int)) % 0x1_0000_0000_0000_0000,
            decreases self.queue.len() - at,
        {
            assert(counts.take(at + 1).drop_last() =~= counts.take(at as int));
            frames = frames.wrapping_add(self.queue[at].total_frames);
            at = at + 1;
        }
        assert(counts.take(at as int) =~= counts);
        frames
    }

    /// The rendered frames of all rows, modulo 2^64.
    pub fn get_current_frame(&self) -> (frames: u64)
        ensures
            frames == model::sum(model::current_counts(self@.queue)) % 0x1_0000_0000_0000_0000,
    {
        let ghost counts = model::current_counts(self@.queue);
        let mut frames: u64 = 0;
        let mut at: usize = 0;
        while at < self.queue.len()
            invariant
                at <= self.queue.len(),
                counts == model::current_counts(self@.queue),
                frames == model::sum(counts.take(at as int)) % 0x1_0000_0000_0000_0000,
            decreases self.queue.len() - at,
        {
            assert(counts.take(at + 1).drop_last() =~= counts.take(at as int));
            frames = frames.wrapping_add(self.queue[at].current_frame);
            at = at + 1;
        }
        assert(counts.take(at as int) =~= counts);
        frames
    }

    /// Appends a job under a number that comes by chance. `request` is absent where the
    /// footage or the options could not be had: then a number comes, and nothing is added.
    pub fn add(
        &mut self,
        request: Option<(Footage<S>, RenderOptions)>,
        thumbnail_url: String,
    ) -> (result: (u32, Vec<Effect>))
        requires
            old(self).wf(),
        ensures
            final(self).wf(),
            match request {
                Some((footage, options)) => {
                    &&& final(self)@ == old(self)@.added(
                        result.0,
                        footage.video_path@,
                        options@,
                        options@.settings(footage.fps@, footage.bitrate@),
                        footage.total_frames,
                        thumbnail_url@,
                        footage.stab,
                    )
                    &&& effects_view(result.1@) == seq![
                        EffectView::QueueChanged,
                        EffectView::Added { job_id: result.0 },
                    ]
                },
                None => {
                    &&& final(self)@ == old(self)@
                    &&& effects_view(result.1@) == Seq::<EffectView>::empty()
                },
            },
    {
        let job_id = clock::random_job_id();
        match request {
            Some((footage, options)) => {
                let effects = self.add_internal(job_id, footage, options, thumbnail_url);
                (job_id, effects)
            },
            None => {
                let effects: Vec<Effect> = Vec::new();
                assert(effects_view(effects@) =~= seq![]);
                (job_id, effects)
            },
        }
    }

    /// Begins to load the file at `path` for a job under a number that comes by chance, and
    /// says what to do first. `options` are absent where they could not be had: then a number
    /// comes, and nothing is loaded.
    pub fn add_file(&self, path: String, options: Option<RenderOptions>) -> (result: (
        u32,
        Option<(FileLoad, LoadAction)>,
    ))
        ensures
            match (options, result.1) {
                (Some(options), Some((load, action))) => {
                    &&& load@ == FileLoadView::begun(path@, options@)
                    &&& action@ == FileLoadView::begun(path@, options@).first_action()
                },
                (None, None) => true,
                _ => false,
            },
    {
        let job_id = clock::random_job_id();
        match options {
            Some(options) => (job_id, Some(FileLoad::begin(path, options))),
            None => (job_id, None),
        }
    }

    /// Goes on with the queue at the time `now`, after the renderer of a job is done or has
    /// given up, unless that job was launched alone.
    fn continue_queue(&mut self, single: bool, now: u64, effects: &mut Vec<Effect>)
        requires
            old(self).wf(),
        ensures
            final(self).wf(),
            final(self)@ == old(self)@.continued(single, now),
            effects_view(final(effects)@) == effects_view(old(effects)@) + old(
                self,
            )@.continued_effects(single, now),
    {
        if !single {
            let mut started = self.start_at(now);
            let ghost more = effects_view(started@);
            effects.append(&mut started);
            assert(effects_view(effects@) =~= effects_view(old(effects)@) + more);
        } else {
            assert(effects_view(effects@) =~= effects_view(old(effects)@) + Seq::<
                EffectView,
            >::empty());
        }
    }

    /// Takes a progress report of a job's renderer. `row_start`, `row_end` and `queue_end`
    /// are the times that are noted, `now` the time at which the queue goes on when the
    /// renderer is done.
    pub fn on_progress_at(
        &mut self,
        job_id: u32,
        single: bool,
        report: Progress,
        row_start: u64,
        row_end: u64,
        queue_end: u64,
        now: u64,
    ) -> (effects: Vec<Effect>)
        requires
            old(self).wf(),
        ensures
            final(self).wf(),
            final(self)@ == old(self)@.progressed(
                job_id,
                single,
                report,
                row_start,
                row_end,
                queue_end,
                now,
            ),
            effects_view(effects@) == old(self)@.progressed_effects(
                job_id,
                single,
                report,
                row_start,
                row_end,
                queue_end,
                now,
            ),
    {
        let ghost first = self@;
        if let Some(row) = self.row_of(job_id) {
            self.queue[row].current_frame = report.current_frame as u64;
            self.queue[row].total_frames = report.total_frames as u64;
            if self.queue[row].start_timestamp == 0 {
                self.queue[row].start_timestamp = row_start;
            }
            self.queue[row].end_timestamp = row_end;
            if report.finished {
                self.queue[row].status = JobStatus::Finished;
            }
        }
        self.end_timestamp = queue_end;
        proof {
            model::lemma_reported_wf(first, job_id, report, row_start, row_end, queue_end);
            assert(self@ =~= first.reported(job_id, report, row_start, row_end, queue_end));
        }
        let mut effects = vec![
            Effect::RenderProgress {
                job_id,
                progress: report.progress,
                current_frame: report.current_frame,
                total_frames: report.total_frames,
                finished: report.finished,
            },
            self.progress_changed(),
        ];
        assert(effects_view(effects@) =~= first.reported_effects(job_id, report, queue_end));
        self.continue_queue(!report.finished || single, now, &mut effects);
        effects
    }

    /// Takes a progress report of a job's renderer.
    pub fn on_progress(&mut self, job_id: u32, single: bool, report: Progress) -> (effects: Vec<
        Effect,
    >)
        requires
            old(self).wf(),
        ensures
            final(self).wf(),
            exists|row_start: u64, row_end: u64, queue_end: u64, now: u64|
                {
                    &&& final(self)@ == #[trigger] old(self)@.progressed(
                        job_id,
                        single,
                        report,
                        row_start,
                        row_end,
                        queue_end,
                        now,
                    )
                    &&& effects_view(effects@) == old(self)@.progressed_effects(
                        job_id,
                        single,
                        report,
                        row_start,
                        row_end,
                        queue_end,
                        now,
                    )
                },
    {
        let row_start = clock::current_timestamp();
        let row_end = clock::current_timestamp();
        let queue_end = clock::current_timestamp();
        let now = clock::current_timestamp();
        self.on_progress_at(job_id, single, report, row_start, row_end, queue_end, now)
    }

    /// Takes it that a job's renderer was launched, with `total_frames` frames to render.
    /// `row_start`, `row_end` and `queue_end` are the times that are noted.
    pub fn on_launch_at(
        &mut self,
        job_id: u32,
        total_frames: usize,
        row_start: u64,
        row_end: u64,
        queue_end: u64,
    ) -> (effects: Vec<Effect>)
        requires
            old(self).wf(),
        ensures
            final(self).wf(),
            final(self)@ == old(self)@.reported(
                job_id,
                model::launch_report(total_frames),
                row_start,
                row_end,
                queue_end,
            ),
            effects_view(effects@) == old(self)@.reported_effects(
                job_id,
                model::launch_report(total_frames),
                queue_end,
            ),
    {
        let ghost first = self@;
        let report = Progress {
            progress: Float64::zero(),
            current_frame: 0,
            total_frames,
            finished: false,
        };
        let effects = self.on_progress_at(
            job_id,
            true,
            report,
            row_start,
            row_end,
            queue_end,
            queue_end,
        );
        assert(effects_view(effects@) =~= first.reported_effects(job_id, report, queue_end));
        effects
    }

    /// Takes it that a job's renderer was launched, with `total_frames` frames to render.
    pub fn on_launch(&mut self, job_id: u32, total_frames: usize) -> (effects: Vec<Effect>)
        requires
            old(self).wf(),
        ensures
            final(self).wf(),
            exists|row_start: u64, row_end: u64, queue_end: u64|
                {
                    &&& final(self)@ == #[trigger] old(self)@.reported(
                        job_id,
                        model::launch_report(total_frames),
                        row_start,
                        row_end,
                        queue_end,
                    )
                    &&& effects_view(effects@) == old(self)@.reported_effects(
                        job_id,
                        model::launch_report(total_frames),
                        queue_end,
                    )
                },
    {
        let row_start = clock::current_timestamp();
        let row_end = clock::current_timestamp();
        let queue_end = clock::current_timestamp();
        self.on_launch_at(job_id, total_frames, row_start, row_end, queue_end)
    }

    /// Takes the failure of a job's renderer: `message` with `arg` for its `%1`, and the
    /// renderer's `log`. The queue goes on at the time `now`.
    pub fn on_error_at(
        &mut self,
        job_id: u32,
        single: bool,
        message: String,
        arg: String,
        log: &str,
        now: u64,
    ) -> (effects: Vec<Effect>)
        requires
            old(self).wf(),
        ensures
            final(self).wf(),
            final(self)@ == old(self)@.errored(job_id, single, model::with_log(arg@, log@), now),
            effects_view(effects@) == old(self)@.errored_effects(
                job_id,
                single,
                message@,
                model::with_log(arg@, log@),
                now,
            ),
    {
        let mut arg = arg;
        arg.append("\n\n");
        arg.append(log);
        self.fail(job_id, arg.clone());
        let mut effects = vec![
            Effect::Error { job_id, text: message, arg, callback: String::new() },
            Effect::RenderProgress {
                job_id,
                progress: Float64::one(),
                current_frame: 0,
                total_frames: 0,
                finished: true,
            },
        ];
        assert(effects_view(effects@) =~= seq![
            model::error_effect(job_id, message@, arg@),
            model::given_up(job_id),
        ]);
        self.continue_queue(single, now, &mut effects);
        effects
    }

    /// Takes the failure of a job's renderer.
    pub fn on_error(
        &mut self,
        job_id: u32,
        single: bool,
        message: String,
        arg: String,
        log: &str,
    ) -> (effects: Vec<Effect>)
        requires
            old(self).wf(),
        ensures
            final(self).wf(),
            exists|now: u64|
                {
                    &&& final(self)@ == #[trigger] old(self)@.errored(
                        job_id,
                        single,
                        model::with_log(arg@, log@),
                        now,
                    )
                    &&& effects_view(effects@) == old(self)@.errored_effects(
                        job_id,
                        single,
                        message@,
                        model::with_log(arg@, log@),
                        now,
                    )
                },
    {
        self.on_error_at(job_id, single, message, arg, log, clock::current_timestamp())
    }

    /// Takes it that a job's renderer cannot encode `format`, where the formats of the
    /// comma-separated list `supported` would do. The queue goes on at the time `now`.
    pub fn on_convert_format_at(
        &mut self,
        job_id: u32,
        single: bool,
        format: String,
        supported: &str,
        now: u64,
    ) -> (effects: Vec<Effect>)
        requires
            old(self).wf(),
        ensures
            final(self).wf(),
            final(self)@ == old(self)@.conversion_needed(
                job_id,
                single,
                format@,
                formats::offered(supported@),
                now,
            ),
            effects_view(effects@) == old(self)@.conversion_needed_effects(
                job_id,
                single,
                format@,
                formats::offered(supported@),
                now,
            ),
    {
        let offer = formats::offered_formats(supported);
        self.fail(job_id, formats::conversion_message(&format, &offer));
        let mut effects = vec![
            Effect::ConvertFormat { job_id, format, supported: offer },
            Effect::RenderProgress {
                job_id,
                progress: Float64::one(),
                current_frame: 0,
                total_frames: 0,
                finished: true,
            },
        ];
        assert(effects_view(effects@) =~= seq![
            EffectView::ConvertFormat { job_id, format: format@, supported: offer@ },
            model::given_up(job_id),
        ]);
        self.continue_queue(single, now, &mut effects);
        effects
    }

    /// Takes it that a job's renderer cannot encode `format`, where the formats of the
    /// comma-separated list `supported` would do.
    pub fn on_convert_format(
        &mut self,
        job_id: u32,
        single: bool,
        format: String,
        supported: &str,
    ) -> (effects: Vec<Effect>)
        requires
            old(self).wf(),
        ensures
            final(self).wf(),
            exists|now: u64|
                {
                    &&& final(self)@ == #[trigger] old(self)@.conversion_needed(
                        job_id,
                        single,
                        format@,
                        formats::offered(supported@),
                        now,
                    )
                    &&& effects_view(effects@) == old(self)@.conversion_needed_effects(
                        job_id,
                        single,
                        format@,
                        formats::offered(supported@),
                        now,
                    )
                },
    {
        self.on_convert_format_at(job_id, single, format, supported, clock::current_timestamp())
    }

    /// Takes it that the footage of a job could not be loaded: `message` with `arg` for its
    /// `%1`.
    pub fn on_load_error(&mut self, job_id: u32, message: String, arg: String) -> (effects: Vec<
        Effect,
    >)
        requires
            old(self).wf(),
        ensures
            final(self).wf(),
            final(self)@ == old(self)@.failed(job_id, arg@),
            effects_view(effects@) == seq![model::error_effect(job_id, message@, arg@)],
    {
        self.fail(job_id, arg.clone());
        let effects = vec![Effect::Error { job_id, text: message, arg, callback: String::new() }];
        assert(effects_view(effects@) =~= seq![model::error_effect(job_id, message@, arg@)]);
        effects
    }

    /// Takes the thumbnail of a job.
    pub fn on_thumbnail(&mut self, job_id: u32, thumbnail_url: String)
        requires
            old(self).wf(),
        ensures
            final(self).wf(),
            final(self)@ == old(self)@.illustrated(job_id, thumbnail_url@),
    {
        if let Some(row) = self.row_of(job_id) {
            self.queue[row].thumbnail_url = thumbnail_url;
        }
        proof {
            let first = old(self)@;
            model::lemma_with_row_wf(
                first,
                job_id,
                ItemView { thumbnail_url: thumbnail_url@, ..first.row(job_id) },
            );
            assert(self@.queue =~= first.illustrated(job_id, thumbnail_url@).queue);
        }
    }
}

} // verus!
