use microscope::backend::{
    asset_path, attachment_disposition, cache_control, choose_asset, photo_file_name,
    photo_pipeline_string, video_pipeline_string, AssetChoice, Command, SampleCountdown,
    SampleError, SampleStep, ServeOptions, CliCommand, CAMERA_SOURCE, PHOTO_TEST_SOURCE,
    VIDEO_TEST_SOURCE,
};
use microscope::command::StageMotorCmd;
use microscope::logs::{push_log, EventFields, LogEntry, MAX_LOG_ENTRIES};
use microscope::progress::{Progress, ProgressCounter};
use microscope::routes::{
    refusal_response, send_response, stage_z_motor_command, stage_z_request, CommandQuery, StageRequest,
};

fn no_query() -> CommandQuery {
    CommandQuery { steps: None, step_delay_us: None, limit: None }
}

#[test]
fn stage_routes_use_defaults() {
    assert_eq!(
        stage_z_motor_command("steps", no_query()),
        Some(StageMotorCmd::MoveSteps { steps: 100, step_delay_us: 1000 })
    );
    let q = CommandQuery { steps: Some(-5), step_delay_us: Some(300), limit: Some(7) };
    assert_eq!(
        stage_z_motor_command("steps", q),
        Some(StageMotorCmd::MoveSteps { steps: -5, step_delay_us: 300 })
    );
    assert_eq!(stage_z_motor_command("set_lower_limit", q), Some(StageMotorCmd::SetLowerLimit(7)));
    assert_eq!(
        stage_z_motor_command("set_upper_limit", no_query()),
        Some(StageMotorCmd::SetUpperLimitToCurrent)
    );
    assert_eq!(
        stage_z_motor_command("goto_lower_limit", q),
        Some(StageMotorCmd::GoToLowerLimit { step_delay_us: 1000 })
    );
    assert_eq!(stage_z_motor_command("home", q), Some(StageMotorCmd::Home));
    assert_eq!(stage_z_motor_command("release_limits", q), Some(StageMotorCmd::ReleaseLimits));
}

#[test]
fn unknown_stage_routes_are_refused() {
    assert_eq!(stage_z_motor_command("up", no_query()), None);
    assert_eq!(stage_z_motor_command("Steps", no_query()), None);
    assert_eq!(stage_z_motor_command("", no_query()), None);
}

fn entry(n: usize) -> LogEntry {
    LogEntry { timestamp: format!("t{n}"), level: "INFO".to_string(), message: format!("m{n}") }
}

#[test]
fn log_keeps_the_newest_entries() {
    let mut logs = Vec::new();
    for n in 0..250 {
        push_log(&mut logs, entry(n));
        assert!(logs.len() <= MAX_LOG_ENTRIES);
    }
    assert_eq!(logs.len(), 200);
    assert_eq!(logs[0].message, "m50");
    assert_eq!(logs[199].message, "m249");
}

#[test]
fn event_fields_pick_the_message() {
    let mut f = EventFields::new();
    f.record_debug("target", "x".to_string());
    f.record_debug("message", "hello".to_string());
    assert_eq!(f.kv.len(), 2);
    assert_eq!(f.kv[0], ("target".to_string(), "x".to_string()));
    let e = f.into_entry("now".to_string(), "WARN".to_string());
    assert_eq!(e.message, "hello");
    assert_eq!(e.level, "WARN");
    let g = EventFields::new();
    assert_eq!(g.into_entry("t".to_string(), "l".to_string()).message, "");
}

#[test]
fn default_options_store_scans_in_tmp() {
    let o = ServeOptions::default();
    assert_eq!(o.z_scan_dir, "/tmp/microscope_zscans");
    let c = Command::default();
    assert_eq!(c.z_scan_dir, "/tmp/microscope_zscans");
    let CliCommand::Serve(s) = CliCommand::Serve(o);
    assert_eq!(s.z_scan_dir, "/tmp/microscope_zscans");
}

#[test]
fn pipelines_name_the_frame_size() {
    let v = video_pipeline_string(VIDEO_TEST_SOURCE, 1440, 810);
    assert_eq!(
        v,
        "videotestsrc name=source is-live=true pattern=gradient\n            ! video/x-raw,format=I420,width=1440,height=810,framerate=20/1\n            ! queue max-size-buffers=1 leaky=downstream\n            ! appsink name=sink emit-signals=false sync=false drop=true max-buffers=1 enable-last-sample=false"
    );
    let p = photo_pipeline_string(PHOTO_TEST_SOURCE, 4056, 3040);
    assert!(p.starts_with("videotestsrc name=source is-live=true pattern=smpte\n"));
    assert!(p.contains("width=4056,height=3040,framerate=10/1"));
    assert!(p.contains("! jpegenc\n"));
    assert!(CAMERA_SOURCE.starts_with("libcamerasrc name=source"));
    assert!(video_pipeline_string(CAMERA_SOURCE, 1, 2).contains("saturation=1.0\n            ! video/x-raw"));
}

#[test]
fn capture_pulls_the_nth_sample() {
    assert_eq!(SampleCountdown::start(0).unwrap_err(), SampleError::NoSamples);
    let mut c = SampleCountdown::start(3).unwrap();
    assert_eq!(c.next(true), SampleStep::Pull);
    assert_eq!(c.next(false), SampleStep::Pull);
    assert_eq!(c.next(false), SampleStep::Pull);
    assert_eq!(c.next(false), SampleStep::Done);
    let mut c = SampleCountdown::start(5).unwrap();
    assert_eq!(c.next(false), SampleStep::Pull);
    assert_eq!(c.next(true), SampleStep::Cancelled);
    assert_eq!(c.next(false), SampleStep::Done);
}

#[test]
fn assets_and_caching() {
    assert_eq!(asset_path("//app/main.js"), "app/main.js");
    assert_eq!(asset_path("index.html"), "index.html");
    assert_eq!(asset_path("/"), "");
    assert_eq!(choose_asset(true, false), AssetChoice::File);
    assert_eq!(choose_asset(false, true), AssetChoice::Index);
    assert_eq!(choose_asset(false, false), AssetChoice::NotFound);
    assert_eq!(cache_control(true), "no-cache");
    assert_eq!(cache_control(false), "public, max-age=31536000, immutable");
}

#[test]
fn photo_download_names() {
    let name = photo_file_name("20250102-030405");
    assert_eq!(name, "microscope-20250102-030405.jpg");
    assert_eq!(attachment_disposition(&name), "attachment; filename=\"microscope-20250102-030405.jpg\"");
}

#[test]
fn progress_is_reported_per_item() {
    let (mut c, first) = ProgressCounter::new(Some(4));
    assert_eq!(first, Progress::Zero);
    assert_eq!(c.advance(true), Some(Progress::Fraction { done: 1, total: 4 }));
    assert_eq!(c.advance(true), Some(Progress::Fraction { done: 2, total: 4 }));
    assert_eq!(c.advance(false), Some(Progress::Complete));
    assert_eq!(c.done(), 2);
    let (mut u, _) = ProgressCounter::new(None);
    assert_eq!(u.advance(true), None);
    assert_eq!(u.advance(false), Some(Progress::Complete));
}

#[test]
fn stage_requests_without_a_board_fail() {
    let r = stage_z_request(false, "steps", no_query());
    assert_eq!(r, StageRequest::NoDriver);
    assert_eq!(stage_z_request(false, "sideways", no_query()), StageRequest::NoDriver);
    assert_eq!(refusal_response(r), Some((500, "Device driver not available".to_string())));
}

#[test]
fn stage_requests_for_unknown_commands_are_refused() {
    let r = stage_z_request(true, "sideways", no_query());
    assert_eq!(r, StageRequest::UnknownCommand);
    assert_eq!(
        refusal_response(r),
        Some((400, "Invalid command, use 'up', 'down', or 'stop'".to_string()))
    );
}

#[test]
fn stage_requests_send_their_command() {
    let q = CommandQuery { steps: Some(-20), step_delay_us: None, limit: None };
    let r = stage_z_request(true, "steps", q);
    assert_eq!(r, StageRequest::Send(StageMotorCmd::MoveSteps { steps: -20, step_delay_us: 1000 }));
    assert_eq!(refusal_response(r), None);
    assert_eq!(send_response(Ok(())), (200, "ok".to_string()));
    assert_eq!(
        send_response(Err("timeout".to_string())),
        (500, "Failed to send stage Z motor command: timeout".to_string())
    );
}
