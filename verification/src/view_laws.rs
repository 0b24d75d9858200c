//! What the views show: everything that a value holds.

use vstd::prelude::*;

use crate::attempts::NextStep;
use crate::attempts::NextStepView;
use crate::attempts::Outcome;
use crate::attempts::OutcomeView;
use crate::effect::effects_view;
use crate::effect::Effect;
use crate::effect::EffectView;
use crate::float64::Float64;
use crate::item::Job;
use crate::item::RenderQueueItem;
use crate::loading::actions_view;
use crate::loading::FileLoad;
use crate::loading::LoadAction;
use crate::loading::LoadActionView;
use crate::loading::LoadEvent;
use crate::loading::LoadEventView;
use crate::options::RenderOptions;
use crate::output_path::optional_text;
use crate::queue::jobs_view;
use crate::queue::rows_view;
use crate::smoothing::assignments_view;
use crate::text::texts;

verus! {

/// The view of options shows every field.
pub proof fn law_options_view(options: RenderOptions)
    ensures
        options@.codec == options.codec@,
        options@.codec_options == options.codec_options@,
        options@.output_path == options.output_path@,
        options@.trim_start == options.trim_start,
        options@.trim_end == options.trim_end,
        options@.output_width == options.output_width,
        options@.output_height == options.output_height,
        options@.bitrate == options.bitrate,
        options@.use_gpu == options.use_gpu,
        options@.audio == options.audio,
        options@.pixel_format == options.pixel_format@,
{
}

/// The view of a row shows every field.
pub proof fn law_row_view(row: RenderQueueItem)
    ensures
        row@.job_id == row.job_id,
        row@.input_file == row.input_file@,
        row@.output_path == row.output_path@,
        row@.export_settings == row.export_settings@,
        row@.thumbnail_url == row.thumbnail_url@,
        row@.current_frame == row.current_frame,
        row@.total_frames == row.total_frames,
        row@.start_timestamp == row.start_timestamp,
        row@.end_timestamp == row.end_timestamp,
        row@.error_string == row.error_string@,
        row@.status == row.status,
{
}

/// The view of a job shows every field.
pub proof fn law_job_view<S>(job: Job<S>)
    ensures
        job@.queue_index == job.queue_index,
        job@.input_file == job.input_file@,
        job@.render_options == job.render_options@,
        job@.cancel_flag == job.cancel_flag,
        job@.stab == job.stab,
{
}

/// The view of a load shows every field.
pub proof fn law_load_view(load: FileLoad)
    ensures
        load@.path == load.path@,
        load@.options == load.options@,
        load@.video_size == load.video_size,
        load@.camera == load.camera@,
        load@.stage == load.stage,
{
}

/// The view of an effect shows every field.
pub proof fn law_effect_view(effect: Effect)
    ensures
        match effect {
            Effect::QueueChanged => effect@ == EffectView::QueueChanged,
            Effect::ProgressChanged { start_timestamp, end_timestamp } =>
            effect@ == (EffectView::ProgressChanged {
                start_timestamp,
                end_timestamp,
            }),
            Effect::StatusChanged { status } => effect@ == (EffectView::StatusChanged {
                status,
            }),
            Effect::Added { job_id } => effect@ == (EffectView::Added {
                job_id,
            }),
            Effect::RenderProgress { job_id, progress, current_frame, total_frames, finished } =>
            effect@ == (EffectView::RenderProgress {
                job_id,
                progress,
                current_frame,
                total_frames,
                finished,
            }),
            Effect::ConvertFormat { job_id, format, supported } =>
            effect@ == (EffectView::ConvertFormat {
                job_id,
                format: format@,
                supported: supported@,
            }),
            Effect::Error { job_id, text, arg, callback } => effect@ == (EffectView::Error {
                job_id,
                text: text@,
                arg: arg@,
                callback: callback@,
            }),
            Effect::ReportLaunch { job_id } => effect@ == (EffectView::ReportLaunch {
                job_id,
            }),
            Effect::StartRender { job_id, single, input_file, render_options } =>
            effect@ == (EffectView::StartRender {
                job_id,
                single,
                input_file: input_file@,
                render_options: render_options@,
            }),
        },
{
}

/// The view of an outcome shows every field.
pub proof fn law_outcome_view(outcome: Outcome)
    ensures
        match outcome {
            Outcome::Rendered => outcome@ == OutcomeView::Rendered,
            Outcome::PixelFormatNotSupported { format, supported } =>
            outcome@ == (OutcomeView::PixelFormatNotSupported {
                format: format@,
                supported: texts(supported@),
            }),
            Outcome::Failed { message } => outcome@ == (OutcomeView::Failed {
                message: message@,
            }),
        },
{
}

/// The view of a step shows every field.
pub proof fn law_step_view(step: NextStep)
    ensures
        match step {
            NextStep::Done => step@ == NextStepView::Done,
            NextStep::Retry { decoder } => step@ == (NextStepView::Retry {
                decoder,
            }),
            NextStep::ConvertFormat { format, supported } => step@ == (NextStepView::ConvertFormat {
                format: format@,
                supported: supported@,
            }),
            NextStep::Fail { message, arg } => step@ == (NextStepView::Fail {
                message: message@,
                arg: arg@,
            }),
        },
{
}

/// The view of an event shows every field.
pub proof fn law_event_view(event: LoadEvent)
    ensures
        match event {
            LoadEvent::ProjectImported { output, video_file } =>
            event@ == (LoadEventView::ProjectImported {
                output: match output {
                    Some(options) => Some(options@),
                    None => None,
                },
                video_file: match video_file {
                    Some(file) => Some(file@),
                    None => None,
                },
            }),
            LoadEvent::ImportFailed => event@ == LoadEventView::ImportFailed,
            LoadEvent::VideoProbed { width, height, bitrate, playable } =>
            event@ == (LoadEventView::VideoProbed {
                width,
                height,
                bitrate,
                playable,
            }),
            LoadEvent::ProbeFailed => event@ == LoadEventView::ProbeFailed,
            LoadEvent::Initialized => event@ == LoadEventView::Initialized,
            LoadEvent::InitializationFailed { message } =>
            event@ == (LoadEventView::InitializationFailed {
                message: message@,
            }),
            LoadEvent::CameraRead { identifier } => event@ == (LoadEventView::CameraRead {
                identifier: identifier@,
            }),
            LoadEvent::ProfileSearched { found } => event@ == (LoadEventView::ProfileSearched {
                found,
            }),
            LoadEvent::ProfileLoaded => event@ == LoadEventView::ProfileLoaded,
            LoadEvent::ProfileFailed { message } => event@ == (LoadEventView::ProfileFailed {
                message: message@,
            }),
            LoadEvent::LensRead { output_dimension } => event@ == (LoadEventView::LensRead {
                output_dimension,
            }),
            LoadEvent::ThumbnailFetched { url } => event@ == (LoadEventView::ThumbnailFetched {
                url: match url {
                    Some(url) => Some(url@),
                    None => None,
                },
            }),
            LoadEvent::ThumbnailFailed { message } => event@ == (LoadEventView::ThumbnailFailed {
                message: message@,
            }),
        },
{
}

/// The view of an action shows every field.
pub proof fn law_action_view(action: LoadAction)
    ensures
        match action {
            LoadAction::ImportProject { path } => action@ == (LoadActionView::ImportProject {
                path: path@,
            }),
            LoadAction::ProbeVideo { path } => action@ == (LoadActionView::ProbeVideo {
                path: path@,
            }),
            LoadAction::Initialize { path, width, height } =>
            action@ == (LoadActionView::Initialize {
                path: path@,
                width,
                height,
            }),
            LoadAction::ReadCamera { width, height } => action@ == (LoadActionView::ReadCamera {
                width,
                height,
            }),
            LoadAction::FindProfile { identifier } => action@ == (LoadActionView::FindProfile {
                identifier: identifier@,
            }),
            LoadAction::LoadProfile { identifier } => action@ == (LoadActionView::LoadProfile {
                identifier: identifier@,
            }),
            LoadAction::ReadLens => action@ == LoadActionView::ReadLens,
            LoadAction::AddJob { options } => action@ == (LoadActionView::AddJob {
                options: options@,
            }),
            LoadAction::FetchThumbnail { video_path, video_size } =>
            action@ == (LoadActionView::FetchThumbnail {
                video_path: video_path@,
                video_size,
            }),
            LoadAction::ShowThumbnail { url } => action@ == (LoadActionView::ShowThumbnail {
                url: url@,
            }),
            LoadAction::ReportError { message, arg } => action@ == (LoadActionView::ReportError {
                message: message@,
                arg: arg@,
            }),
        },
{
}

/// The view of a list shows the views of its items, in order.
pub proof fn law_list_views(
    rows: Seq<RenderQueueItem>,
    effects: Seq<Effect>,
    actions: Seq<LoadAction>,
    parts: Seq<String>,
    assignments: Seq<(String, Float64)>,
)
    ensures
        rows_view(rows).len() == rows.len(),
        forall|i: int| 0 <= i < rows.len() ==> #[trigger] rows_view(rows)[i] == rows[i]@,
        effects_view(effects).len() == effects.len(),
        forall|i: int|
            0 <= i < effects.len() ==> #[trigger] effects_view(effects)[i] == effects[i]@,
        actions_view(actions).len() == actions.len(),
        forall|i: int|
            0 <= i < actions.len() ==> #[trigger] actions_view(actions)[i] == actions[i]@,
        texts(parts).len() == parts.len(),
        forall|i: int| 0 <= i < parts.len() ==> #[trigger] texts(parts)[i] == parts[i]@,
        assignments_view(assignments).len() == assignments.len(),
        forall|i: int|
            0 <= i < assignments.len() ==> #[trigger] assignments_view(assignments)[i] == (
                assignments[i].0@,
                assignments[i].1,
            ),
{
}

/// The view of a table shows the view of each job under its number.
pub proof fn law_table_view<S>(jobs: Map<u32, Job<S>>)
    ensures
        forall|id: u32| jobs.contains_key(id) == #[trigger] jobs_view(jobs).contains_key(id),
        forall|id: u32| #[trigger]
            jobs_view(jobs).contains_key(id) ==> jobs_view(jobs)[id] == jobs[id]@,
{
}

/// The view of an optional text shows the text, where there is one.
pub proof fn law_optional_text_view(part: Option<String>)
    ensures
        part is None ==> optional_text(part) is None,
        part is Some ==> optional_text(part) == Some(part->0@),
{
}

} // verus!
