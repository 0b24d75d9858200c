use render_queue::effect::Effect;
use render_queue::float64::Float64;
use render_queue::item::JobStatus;
use render_queue::model::Progress;
use render_queue::model::QueueStatus;
use render_queue::options::RenderOptions;
use render_queue::queue::Footage;
use render_queue::queue::RenderQueue;

fn options(output_path: &str) -> RenderOptions {
    let mut options = RenderOptions::default();
    options.codec = "x264".to_string();
    options.output_path = output_path.to_string();
    options.output_width = 1920;
    options.output_height = 1080;
    options.use_gpu = true;
    options.pixel_format = "YUV420P".to_string();
    options
}

fn footage(video_path: &str, total_frames: u64) -> Footage<&'static str> {
    Footage {
        stab: "stabilizer",
        video_path: video_path.to_string(),
        fps: "29.970".to_string(),
        bitrate: "100".to_string(),
        total_frames,
    }
}

fn queue_of(jobs: &[(u32, u64)]) -> RenderQueue<&'static str> {
    let mut queue = RenderQueue::new();
    for (job_id, total_frames) in jobs {
        let path = format!("/out/{}.mp4", job_id);
        let effects = queue.add_internal(
            *job_id,
            footage(&format!("/in/{}.mp4", job_id), *total_frames),
            options(&path),
            String::new(),
        );
        assert_eq!(names(&effects), ["QueueChanged".to_string(), format!("Added {}", job_id)]);
    }
    queue
}

fn names(effects: &[Effect]) -> Vec<String> {
    effects
        .iter()
        .map(|effect| match effect {
            Effect::QueueChanged => "QueueChanged".to_string(),
            Effect::ProgressChanged { start_timestamp, end_timestamp } => {
                format!("ProgressChanged {} {}", start_timestamp, end_timestamp)
            }
            Effect::StatusChanged { status } => format!("StatusChanged {}", status.name()),
            Effect::Added { job_id } => format!("Added {}", job_id),
            Effect::RenderProgress { job_id, progress, current_frame, total_frames, finished } => {
                format!(
                    "RenderProgress {} {} {} {} {}",
                    job_id,
                    f64::from_bits(progress.bits),
                    current_frame,
                    total_frames,
                    finished
                )
            }
            Effect::ConvertFormat { job_id, format, supported } => {
                format!("ConvertFormat {} {} {}", job_id, format, supported)
            }
            Effect::Error { job_id, text, arg, callback } => {
                format!("Error {} [{}] [{}] [{}]", job_id, text, arg, callback)
            }
            Effect::ReportLaunch { job_id } => format!("ReportLaunch {}", job_id),
            Effect::StartRender { job_id, single, input_file, .. } => {
                format!("StartRender {} {} {}", job_id, single, input_file)
            }
        })
        .collect()
}

fn report(current_frame: usize, total_frames: usize, finished: bool) -> Progress {
    let progress = current_frame as f64 / total_frames as f64;
    Progress {
        progress: Float64 { bits: progress.to_bits() },
        current_frame,
        total_frames,
        finished,
    }
}

#[test]
fn new_queue_is_empty_and_stopped() {
    let queue: RenderQueue<()> = RenderQueue::new();
    assert_eq!(queue.rows().len(), 0);
    assert!(queue.job(0).is_none());
    assert_eq!(queue.status(), QueueStatus::Stopped);
    assert_eq!(queue.status().name(), "stopped");
    assert_eq!(queue.start_timestamp(), 0);
    assert_eq!(queue.end_timestamp(), 0);
    assert_eq!(queue.get_total_frames(), 0);
    assert_eq!(queue.get_current_frame(), 0);
}

#[test]
fn status_names() {
    assert_eq!(QueueStatus::Stopped.name(), "stopped");
    assert_eq!(QueueStatus::Active.name(), "active");
    assert_eq!(QueueStatus::Paused.name(), "paused");
}

#[test]
fn added_job_is_shown() {
    let mut queue = RenderQueue::new();
    queue.add_internal(7, footage("/in/a.mp4", 300), options("/out/a.mp4"), "thumb".to_string());
    let row = &queue.rows()[0];
    assert_eq!(row.job_id, 7);
    assert_eq!(row.input_file, "/in/a.mp4");
    assert_eq!(row.output_path, "/out/a.mp4");
    assert_eq!(row.export_settings, "1920x1080 29.970fps | x264 100 Mbps");
    assert_eq!(row.thumbnail_url, "thumb");
    assert_eq!(row.current_frame, 0);
    assert_eq!(row.total_frames, 300);
    assert_eq!(row.start_timestamp, 0);
    assert_eq!(row.end_timestamp, 0);
    assert_eq!(row.error_string, "");
    assert_eq!(row.status, JobStatus::Queued);
    let job = queue.job(7).unwrap();
    assert_eq!(job.queue_index, 0);
    assert_eq!(job.input_file, "/in/a.mp4");
    assert_eq!(job.render_options.output_path, "/out/a.mp4");
    assert_eq!(job.stab, "stabilizer");
    assert!(!job.cancel_flag);
    assert_eq!(queue.get_job_output_path(7), "/out/a.mp4");
    assert_eq!(queue.get_job_output_path(8), "");
}

#[test]
fn add_draws_a_number() {
    let mut queue = RenderQueue::new();
    let mut ids = Vec::new();
    for _ in 0..8 {
        let (job_id, effects) =
            queue.add(Some((footage("/in/a.mp4", 1), options("/out/a.mp4"))), String::new());
        assert_eq!(names(&effects), ["QueueChanged".to_string(), format!("Added {}", job_id)]);
        ids.push(job_id);
    }
    assert_eq!(queue.rows().len(), 8);
    assert!(ids.iter().any(|id| *id != ids[0]));
}

#[test]
fn add_without_request_adds_nothing() {
    let mut queue: RenderQueue<()> = RenderQueue::new();
    let (_, effects) = queue.add(None, String::new());
    assert_eq!(names(&effects), Vec::<String>::new());
    assert_eq!(queue.rows().len(), 0);
}

#[test]
fn remove_moves_later_rows_up() {
    let mut queue = queue_of(&[(1, 10), (2, 20), (3, 30)]);
    let (job, effects) = queue.remove(2);
    assert_eq!(names(&effects), ["QueueChanged"]);
    let job = job.unwrap();
    assert!(job.cancel_flag);
    assert_eq!(job.input_file, "/in/2.mp4");
    assert_eq!(queue.rows().iter().map(|row| row.job_id).collect::<Vec<u32>>(), [1, 3]);
    assert_eq!(queue.job(1).unwrap().queue_index, 0);
    assert_eq!(queue.job(3).unwrap().queue_index, 1);
    assert_eq!(queue.get_job_output_path(2), "");
    assert_eq!(queue.get_job_output_path(3), "/out/3.mp4");
}

#[test]
fn remove_of_unknown_job_does_nothing() {
    let mut queue = queue_of(&[(1, 10)]);
    let (job, effects) = queue.remove(9);
    assert!(job.is_none());
    assert_eq!(names(&effects), Vec::<String>::new());
    assert_eq!(queue.rows().len(), 1);
}

#[test]
fn remove_undoes_add() {
    let mut queue = queue_of(&[(1, 10), (2, 20)]);
    queue.add_internal(5, footage("/in/5.mp4", 50), options("/out/5.mp4"), String::new());
    queue.remove(5);
    assert_eq!(queue.rows().iter().map(|row| row.job_id).collect::<Vec<u32>>(), [1, 2]);
    assert!(queue.job(5).is_none());
    assert_eq!(queue.job(1).unwrap().queue_index, 0);
    assert_eq!(queue.job(2).unwrap().queue_index, 1);
}

#[test]
fn number_drawn_twice_belongs_to_the_last_row() {
    let mut queue = queue_of(&[(1, 10), (2, 20), (1, 30)]);
    assert_eq!(queue.job(1).unwrap().queue_index, 2);
    queue.remove(1);
    assert_eq!(queue.rows().iter().map(|row| row.job_id).collect::<Vec<u32>>(), [1, 2]);
    assert!(queue.job(1).is_none());
    assert_eq!(queue.job(2).unwrap().queue_index, 1);
    // The row that is left over has no job: it is found ready, and nothing is launched.
    let effects = queue.start_at(1000);
    assert_eq!(names(&effects), ["StatusChanged active", "ProgressChanged 1000 0"]);
    assert_eq!(queue.status(), QueueStatus::Active);
}

#[test]
fn frames_add_up() {
    let mut queue = queue_of(&[(1, 10), (2, 20), (3, 30)]);
    assert_eq!(queue.get_total_frames(), 60);
    queue.on_progress_at(1, true, report(4, 10, false), 1, 2, 3, 4);
    queue.on_progress_at(3, true, report(5, 31, false), 1, 2, 3, 4);
    assert_eq!(queue.get_current_frame(), 9);
    assert_eq!(queue.get_total_frames(), 61);
    queue.remove(3);
    assert_eq!(queue.get_current_frame(), 4);
    assert_eq!(queue.get_total_frames(), 30);
}

#[test]
fn frames_wrap() {
    let queue = queue_of(&[(1, u64::MAX), (2, 5)]);
    assert_eq!(queue.get_total_frames(), 4);
}

#[test]
fn start_launches_the_first_ready_job() {
    let mut queue = queue_of(&[(1, 0), (2, 20), (3, 30)]);
    let effects = queue.start_at(1000);
    assert_eq!(
        names(&effects),
        [
            "StatusChanged active",
            "ProgressChanged 1000 0",
            "ReportLaunch 2",
            "StartRender 2 false /in/2.mp4"
        ]
    );
    assert_eq!(queue.status(), QueueStatus::Active);
    assert_eq!(queue.start_timestamp(), 1000);
    assert_eq!(queue.rows()[0].status, JobStatus::Queued);
    assert_eq!(queue.rows()[1].status, JobStatus::Rendering);
    assert_eq!(queue.rows()[2].status, JobStatus::Queued);
    match &effects[3] {
        Effect::StartRender { render_options, .. } => {
            assert_eq!(render_options.output_path, "/out/2.mp4");
            assert_eq!(render_options.codec, "x264");
        }
        _ => panic!("a renderer is launched"),
    }
}

#[test]
fn start_without_ready_row_stops() {
    let mut queue = queue_of(&[(1, 0)]);
    let effects = queue.start_at(1000);
    assert_eq!(
        names(&effects),
        [
            "StatusChanged active",
            "ProgressChanged 1000 0",
            "ProgressChanged 0 0",
            "StatusChanged stopped"
        ]
    );
    assert_eq!(queue.status(), QueueStatus::Stopped);
    assert_eq!(queue.start_timestamp(), 0);
}

#[test]
fn start_of_a_running_queue_keeps_its_clock() {
    let mut queue = queue_of(&[(1, 10), (2, 20)]);
    queue.start_at(1000);
    let effects = queue.start_at(5000);
    assert_eq!(
        names(&effects),
        ["StatusChanged active", "ReportLaunch 2", "StartRender 2 false /in/2.mp4"]
    );
    assert_eq!(queue.start_timestamp(), 1000);
}

#[test]
fn start_reads_the_clock() {
    let mut queue = queue_of(&[(1, 10)]);
    let effects = queue.start();
    assert_eq!(
        names(&effects),
        [
            "StatusChanged active",
            &*format!("ProgressChanged {} 0", queue.start_timestamp()),
            "ReportLaunch 1",
            "StartRender 1 false /in/1.mp4"
        ]
    );
    // Some time after the year 2020.
    assert!(queue.start_timestamp() > 1_577_836_800_000);
}

#[test]
fn pause_takes_no_time() {
    let mut queue = queue_of(&[(1, 10), (2, 20)]);
    queue.start_at(1000);
    queue.on_progress_at(1, false, report(3, 10, false), 1500, 1600, 1700, 1800);
    assert_eq!(names(&queue.pause_at(2000)), ["StatusChanged paused"]);
    assert_eq!(queue.status(), QueueStatus::Paused);
    assert!(queue.pause_flag());
    assert_eq!(names(&queue.start_at(7000)), ["StatusChanged active"]);
    assert_eq!(queue.status(), QueueStatus::Active);
    assert!(!queue.pause_flag());
    assert_eq!(queue.start_timestamp(), 6000);
    assert_eq!(queue.rows()[0].start_timestamp, 6500);
    assert_eq!(queue.rows()[0].end_timestamp, 1600);
    assert_eq!(queue.rows()[1].start_timestamp, 0);
    assert_eq!(queue.rows()[1].status, JobStatus::Queued);
}

#[test]
fn finished_rows_keep_their_start_over_a_pause() {
    let mut queue = queue_of(&[(1, 10)]);
    queue.start_at(1000);
    queue.on_progress_at(1, true, report(10, 10, true), 1500, 1600, 1700, 1800);
    queue.pause_at(2000);
    queue.start_at(7000);
    assert_eq!(queue.rows()[0].start_timestamp, 1500);
}

#[test]
fn resuming_on_a_clock_that_went_back() {
    let mut queue = queue_of(&[(1, 10)]);
    queue.start_at(1000);
    queue.pause_at(2000);
    queue.start_at(1900);
    assert_eq!(queue.start_timestamp(), 900);
}

#[test]
fn pause_reads_the_clock() {
    let mut queue = queue_of(&[(1, 10)]);
    queue.start_at(1000);
    assert_eq!(names(&queue.pause()), ["StatusChanged paused"]);
    queue.start_at(0);
    // The time of the pause, by how far the start was moved.
    let paused = 1000u64.wrapping_sub(queue.start_timestamp());
    assert!(paused > 1_577_836_800_000);
}

#[test]
fn pause_then_stop_then_start_resumes_the_clock_and_launches() {
    let mut queue = queue_of(&[(1, 10), (2, 20), (3, 30)]);
    queue.start_at(1000);
    queue.pause_at(2000);
    queue.stop();
    let effects = queue.start_at(3000);
    assert_eq!(
        names(&effects),
        ["StatusChanged active", "ReportLaunch 2", "StartRender 2 false /in/2.mp4"]
    );
    assert_eq!(queue.start_timestamp(), 2000);
    // The pause is over: starting again does not move the clock.
    queue.start_at(9000);
    assert_eq!(queue.start_timestamp(), 2000);
}

#[test]
fn stop_cancels_every_job_and_start_takes_it_back() {
    let mut queue = queue_of(&[(1, 10), (2, 20)]);
    queue.pause_at(5);
    assert_eq!(names(&queue.stop()), ["StatusChanged stopped"]);
    assert_eq!(queue.status(), QueueStatus::Stopped);
    assert!(!queue.pause_flag());
    assert!(queue.job(1).unwrap().cancel_flag);
    assert!(queue.job(2).unwrap().cancel_flag);
    queue.start_at(10);
    assert!(!queue.job(1).unwrap().cancel_flag);
    assert!(!queue.job(2).unwrap().cancel_flag);
}

#[test]
fn cancel_raises_one_flag() {
    let mut queue = queue_of(&[(1, 10), (2, 20)]);
    queue.cancel_job(2);
    queue.cancel_job(9);
    assert!(!queue.job(1).unwrap().cancel_flag);
    assert!(queue.job(2).unwrap().cancel_flag);
}

#[test]
fn reset_puts_a_job_back_in_line() {
    let mut queue = queue_of(&[(1, 10)]);
    queue.render_job(1, true);
    queue.on_error_at(1, true, "text".to_string(), "arg".to_string(), "log", 5);
    queue.cancel_job(1);
    queue.reset_job(1);
    queue.reset_job(9);
    assert_eq!(queue.rows()[0].status, JobStatus::Queued);
    assert_eq!(queue.rows()[0].error_string, "");
    assert!(!queue.job(1).unwrap().cancel_flag);
    assert_eq!(
        names(&queue.render_job(1, true)),
        ["ReportLaunch 1", "StartRender 1 true /in/1.mp4"]
    );
}

#[test]
fn job_is_launched_once() {
    let mut queue = queue_of(&[(1, 10)]);
    queue.cancel_job(1);
    assert_eq!(
        names(&queue.render_job(1, true)),
        ["ReportLaunch 1", "StartRender 1 true /in/1.mp4"]
    );
    assert!(!queue.job(1).unwrap().cancel_flag);
    assert_eq!(names(&queue.render_job(1, true)), Vec::<String>::new());
    queue.on_progress_at(1, true, report(10, 10, true), 1, 2, 3, 4);
    assert_eq!(queue.rows()[0].status, JobStatus::Finished);
    assert_eq!(names(&queue.render_job(1, false)), Vec::<String>::new());
    assert_eq!(names(&queue.render_job(2, false)), Vec::<String>::new());
}

#[test]
fn failed_job_can_be_launched() {
    let mut queue = queue_of(&[(1, 10)]);
    queue.on_load_error(1, "text".to_string(), "arg".to_string());
    assert_eq!(queue.rows()[0].status, JobStatus::Error);
    assert_eq!(
        names(&queue.render_job(1, false)),
        ["ReportLaunch 1", "StartRender 1 false /in/1.mp4"]
    );
}

#[test]
fn progress_is_entered() {
    let mut queue = queue_of(&[(1, 10)]);
    queue.render_job(1, false);
    let effects = queue.on_progress_at(1, false, report(5, 20, false), 100, 101, 102, 103);
    assert_eq!(names(&effects), ["RenderProgress 1 0.25 5 20 false", "ProgressChanged 0 102"]);
    assert_eq!(queue.rows()[0].current_frame, 5);
    assert_eq!(queue.rows()[0].total_frames, 20);
    assert_eq!(queue.rows()[0].start_timestamp, 100);
    assert_eq!(queue.rows()[0].end_timestamp, 101);
    assert_eq!(queue.rows()[0].status, JobStatus::Rendering);
    assert_eq!(queue.end_timestamp(), 102);
    queue.on_progress_at(1, false, report(6, 20, false), 200, 201, 202, 203);
    assert_eq!(queue.rows()[0].start_timestamp, 100);
    assert_eq!(queue.rows()[0].end_timestamp, 201);
    assert_eq!(queue.end_timestamp(), 202);
}

#[test]
fn launch_is_reported() {
    let mut queue = queue_of(&[(7, 3)]);
    assert_eq!(queue.rows()[0].total_frames, 3);
    assert_eq!(
        names(&queue.render_job(7, true)),
        ["ReportLaunch 7", "StartRender 7 true /in/7.mp4"]
    );
    let effects = queue.on_launch_at(7, 2, 100, 101, 102);
    assert_eq!(names(&effects), ["RenderProgress 7 0 0 2 false", "ProgressChanged 0 102"]);
    assert_eq!(queue.rows()[0].current_frame, 0);
    assert_eq!(queue.rows()[0].total_frames, 2);
    assert_eq!(queue.rows()[0].start_timestamp, 100);
    assert_eq!(queue.rows()[0].end_timestamp, 101);
    assert_eq!(queue.rows()[0].status, JobStatus::Rendering);
    assert_eq!(queue.end_timestamp(), 102);
}

#[test]
fn launch_reads_the_clock() {
    let mut queue = queue_of(&[(1, 10)]);
    queue.render_job(1, false);
    let effects = queue.on_launch(1, 10);
    assert_eq!(names(&effects)[0], "RenderProgress 1 0 0 10 false");
    assert!(queue.rows()[0].start_timestamp > 1_577_836_800_000);
    assert!(queue.end_timestamp() > 1_577_836_800_000);
}

#[test]
fn progress_of_a_removed_job_is_passed_on() {
    let mut queue = queue_of(&[(1, 10)]);
    let effects = queue.on_progress_at(9, true, report(1, 2, true), 1, 2, 3, 4);
    assert_eq!(names(&effects), ["RenderProgress 9 0.5 1 2 true", "ProgressChanged 0 3"]);
    assert_eq!(queue.rows()[0].current_frame, 0);
    assert_eq!(queue.end_timestamp(), 3);
}

#[test]
fn progress_reads_the_clock() {
    let mut queue = queue_of(&[(1, 10)]);
    queue.on_progress(1, true, report(1, 10, false));
    assert!(queue.rows()[0].start_timestamp > 1_577_836_800_000);
    assert!(queue.rows()[0].end_timestamp > 1_577_836_800_000);
    assert!(queue.end_timestamp() > 1_577_836_800_000);
}

#[test]
fn finished_job_hands_on() {
    let mut queue = queue_of(&[(1, 10), (2, 20)]);
    queue.start_at(1000);
    let effects = queue.on_progress_at(1, false, report(10, 10, true), 1, 2, 3, 4000);
    assert_eq!(
        names(&effects),
        [
            "RenderProgress 1 1 10 10 true",
            "ProgressChanged 1000 3",
            "StatusChanged active",
            "ReportLaunch 2",
            "StartRender 2 false /in/2.mp4"
        ]
    );
    assert_eq!(queue.rows()[0].status, JobStatus::Finished);
    assert_eq!(queue.rows()[1].status, JobStatus::Rendering);
    let effects = queue.on_progress_at(2, false, report(20, 20, true), 1, 2, 3, 5000);
    assert_eq!(
        names(&effects),
        [
            "RenderProgress 2 1 20 20 true",
            "ProgressChanged 1000 3",
            "StatusChanged active",
            "ProgressChanged 0 3",
            "StatusChanged stopped"
        ]
    );
    assert_eq!(queue.status(), QueueStatus::Stopped);
    assert_eq!(queue.start_timestamp(), 0);
}

#[test]
fn job_launched_alone_does_not_hand_on() {
    let mut queue = queue_of(&[(1, 10), (2, 20)]);
    queue.render_job(1, true);
    let effects = queue.on_progress_at(1, true, report(10, 10, true), 1, 2, 3, 4000);
    assert_eq!(names(&effects), ["RenderProgress 1 1 10 10 true", "ProgressChanged 0 3"]);
    assert_eq!(queue.rows()[1].status, JobStatus::Queued);
}

#[test]
fn failed_job_shows_its_error_with_the_log() {
    let mut queue = queue_of(&[(1, 10), (2, 20)]);
    queue.start_at(1000);
    let effects = queue.on_error_at(
        1,
        false,
        "An error occured: %1".to_string(),
        "no encoder".to_string(),
        "line",
        2000,
    );
    assert_eq!(
        names(&effects),
        [
            "Error 1 [An error occured: %1] [no encoder\n\nline] []",
            "RenderProgress 1 1 0 0 true",
            "StatusChanged active",
            "ReportLaunch 2",
            "StartRender 2 false /in/2.mp4"
        ]
    );
    assert_eq!(queue.rows()[0].status, JobStatus::Error);
    assert_eq!(queue.rows()[0].error_string, "no encoder\n\nline");
}

#[test]
fn failed_job_with_another_ready_row_is_launched_again() {
    let mut queue = queue_of(&[(1, 10), (1, 30)]);
    queue.render_job(1, false);
    assert_eq!(queue.rows()[0].status, JobStatus::Queued);
    assert_eq!(queue.rows()[1].status, JobStatus::Rendering);
    let effects = queue.on_error_at(1, false, "text".to_string(), "arg".to_string(), "", 2000);
    assert_eq!(names(&effects).last().unwrap(), "StartRender 1 false /in/1.mp4");
    assert_eq!(queue.rows()[1].status, JobStatus::Rendering);
}

#[test]
fn failed_job_launched_alone() {
    let mut queue = queue_of(&[(1, 10), (2, 20)]);
    queue.render_job(1, true);
    let effects = queue.on_error(1, true, "text".to_string(), "arg".to_string(), "");
    assert_eq!(names(&effects), ["Error 1 [text] [arg\n\n] []", "RenderProgress 1 1 0 0 true"]);
    assert_eq!(queue.rows()[1].status, JobStatus::Queued);
}

#[test]
fn job_that_needs_another_format() {
    let mut queue = queue_of(&[(1, 10), (2, 20)]);
    queue.render_job(1, true);
    let effects =
        queue.on_convert_format_at(1, true, "P010".to_string(), "NV12,CUDA,YUV420P,QSV", 2000);
    assert_eq!(
        names(&effects),
        ["ConvertFormat 1 P010 NV12,YUV420P", "RenderProgress 1 1 0 0 true"]
    );
    assert_eq!(queue.rows()[0].status, JobStatus::Error);
    assert_eq!(queue.rows()[0].error_string, "convert_format:P010;NV12,YUV420P");
    let effects = queue.on_convert_format(1, false, "P010".to_string(), "NV12");
    assert_eq!(
        names(&effects),
        [
            "ConvertFormat 1 P010 NV12",
            "RenderProgress 1 1 0 0 true",
            "StatusChanged active",
            &*format!("ProgressChanged {} 0", queue.start_timestamp()),
            "ReportLaunch 2",
            "StartRender 2 false /in/2.mp4"
        ]
    );
}

#[test]
fn chosen_format_is_rendered() {
    let mut queue = queue_of(&[(1, 10)]);
    queue.render_job(1, true);
    queue.on_convert_format_at(1, true, "P010".to_string(), "NV12", 2000);
    let effects = queue.set_pixel_format_at(1, "NV12".to_string(), 3000);
    assert_eq!(
        names(&effects),
        [
            "StatusChanged active",
            "ProgressChanged 3000 0",
            "ReportLaunch 1",
            "StartRender 1 false /in/1.mp4"
        ]
    );
    match &effects[3] {
        Effect::StartRender { render_options, .. } => {
            assert_eq!(render_options.pixel_format, "NV12");
            assert!(render_options.use_gpu);
        }
        _ => panic!("a renderer is launched"),
    }
    assert_eq!(queue.rows()[0].error_string, "");
}

#[test]
fn cpu_is_no_format() {
    let mut queue = queue_of(&[(1, 10)]);
    queue.set_pixel_format(1, "cpu".to_string());
    assert!(!queue.job(1).unwrap().render_options.use_gpu);
    assert_eq!(queue.job(1).unwrap().render_options.pixel_format, "YUV420P");
    assert_eq!(queue.status(), QueueStatus::Active);
}

#[test]
fn format_of_a_job_in_an_active_queue() {
    let mut queue = queue_of(&[(1, 10), (2, 20)]);
    queue.start_at(1000);
    let effects = queue.set_pixel_format_at(2, "NV12".to_string(), 3000);
    assert_eq!(names(&effects), Vec::<String>::new());
    assert_eq!(queue.job(2).unwrap().render_options.pixel_format, "NV12");
    assert_eq!(queue.rows()[1].status, JobStatus::Queued);
}

#[test]
fn format_of_an_unknown_job_starts_the_queue() {
    let mut queue = queue_of(&[(1, 10)]);
    let effects = queue.set_pixel_format_at(9, "NV12".to_string(), 3000);
    assert_eq!(
        names(&effects),
        [
            "StatusChanged active",
            "ProgressChanged 3000 0",
            "ReportLaunch 1",
            "StartRender 1 false /in/1.mp4"
        ]
    );
    assert_eq!(queue.job(1).unwrap().render_options.pixel_format, "YUV420P");
}

#[test]
fn load_error_is_shown() {
    let mut queue = queue_of(&[(1, 10)]);
    let effects = queue.on_load_error(1, "text".to_string(), "arg".to_string());
    assert_eq!(names(&effects), ["Error 1 [text] [arg] []"]);
    assert_eq!(queue.rows()[0].error_string, "arg");
    let effects = queue.on_load_error(9, "text".to_string(), "arg".to_string());
    assert_eq!(names(&effects), ["Error 9 [text] [arg] []"]);
}

#[test]
fn thumbnail_is_shown() {
    let mut queue = queue_of(&[(1, 10), (2, 20)]);
    queue.on_thumbnail(2, "data:image".to_string());
    queue.on_thumbnail(9, "other".to_string());
    assert_eq!(queue.rows()[0].thumbnail_url, "");
    assert_eq!(queue.rows()[1].thumbnail_url, "data:image");
}

#[test]
fn unknown_jobs_change_nothing() {
    let mut queue = queue_of(&[(1, 10)]);
    queue.cancel_job(9);
    queue.reset_job(9);
    queue.render_job(9, false);
    queue.remove(9);
    assert_eq!(queue.rows().len(), 1);
    assert_eq!(queue.rows()[0].status, JobStatus::Queued);
    assert!(!queue.job(1).unwrap().cancel_flag);
    assert_eq!(queue.status(), QueueStatus::Stopped);
}

#[test]
fn queue_runs_dry() {
    let mut queue = queue_of(&[(1, 10), (2, 20), (3, 30)]);
    let mut launched = Vec::new();
    let mut effects = queue.start_at(1000);
    while let Some(Effect::StartRender { job_id, .. }) = effects.last() {
        let job_id = *job_id;
        launched.push(job_id);
        effects = queue.on_progress_at(job_id, false, report(1, 1, true), 1, 2, 3, 4);
    }
    assert_eq!(launched, [1, 2, 3]);
    assert_eq!(queue.status(), QueueStatus::Stopped);
    assert!(queue.rows().iter().all(|row| row.status == JobStatus::Finished));
}

#[test]
fn rows_can_be_copied() {
    let queue = queue_of(&[(1, 10)]);
    let copy = queue.rows()[0].clone();
    assert_eq!(copy.output_path, "/out/1.mp4");
    assert_eq!(copy.status, JobStatus::default());
}
