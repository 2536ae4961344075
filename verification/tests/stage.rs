use microscope::command::{LogMessageLevel, StageMotorCmd};
use microscope::stage::{JobStep, MotorJob, StageMotor, StageMotorError};

fn run_job(m: &mut StageMotor, job: &mut MotorJob, end_stop: impl Fn(i32) -> bool) -> (usize, Option<(LogMessageLevel, String)>) {
    let mut pulses = 0;
    loop {
        let high = end_stop(m.position);
        match m.job_next(job, false, high) {
            JobStep::Pulse { .. } => pulses += 1,
            JobStep::Finished(line) => return (pulses, line.map(|l| (l.level, l.text))),
        }
    }
}

#[test]
fn a_move_takes_each_step_and_reports() {
    let mut m = StageMotor::new(true, true);
    let e = m.handle_command(StageMotorCmd::MoveSteps { steps: 3, step_delay_us: 10 });
    assert_eq!(e.logs.len(), 1);
    assert_eq!(e.logs[0].text, "Moving stage along Z axis.");
    let mut job = e.job;
    let (pulses, line) = run_job(&mut m, &mut job, |_| false);
    assert_eq!(pulses, 3);
    assert_eq!(m.position, 3);
    assert_eq!(line, Some((LogMessageLevel::Info, "Stage moved to requested position.".to_string())));
    assert_eq!(job, MotorJob::Idle);
}

#[test]
fn a_move_stops_at_the_upper_limit() {
    let mut m = StageMotor::new(true, true);
    m.handle_command(StageMotorCmd::SetUpperLimit(2));
    let e = m.handle_command(StageMotorCmd::MoveSteps { steps: 5, step_delay_us: 1 });
    let mut job = e.job;
    let (_pulses, line) = run_job(&mut m, &mut job, |_| false);
    assert_eq!(m.position, 2);
    assert_eq!(line, Some((LogMessageLevel::Error, "Stage movement error: Upper limit reached".to_string())));
}

#[test]
fn homing_finds_the_end_stop() {
    let (mut m, e) = StageMotor::power_up(true, true);
    assert_eq!(e.enable_level, Some(false));
    let mut job = e.job;
    let (pulses, line) = run_job(&mut m, &mut job, |p| p <= -3);
    assert_eq!(pulses, 603);
    assert_eq!(line, None);
    assert_eq!(m.position, 0);
    assert_eq!(m.lower_limit, Some(0));
}

#[test]
fn homing_without_end_stop_fails() {
    let (_m, e) = StageMotor::power_up(false, false);
    assert_eq!(e.enable_level, None);
    assert_eq!(e.job, MotorJob::Idle);
    assert_eq!(e.logs[0].text, "Homing error: Lower end stop not available");
}

#[test]
fn commands_without_movement() {
    let mut m = StageMotor::new(false, true);
    let e = m.handle_command(StageMotorCmd::Disable);
    assert_eq!(e.enable_level, Some(true));
    assert_eq!(e.logs[0].text, "Stage motor disabled.");
    let e = m.handle_command(StageMotorCmd::ReportPosition);
    assert_eq!(e.report_position, Some(0));
    assert!(e.logs.is_empty());
    let e = m.handle_command(StageMotorCmd::GoToLowerLimit { step_delay_us: 5 });
    assert_eq!(e.logs[0].level, LogMessageLevel::Warning);
    assert_eq!(e.logs[0].text, "Lower limit not set, cannot move to lower limit.");
    m.handle_command(StageMotorCmd::SetLowerLimitToCurrent);
    assert_eq!(m.lower_limit, Some(0));
    m.handle_command(StageMotorCmd::ReleaseLimits);
    assert_eq!(m.lower_limit, None);
    assert_eq!(StageMotorError::CommandAborted.as_str(), "Command aborted");
}

#[test]
fn a_stop_request_aborts_a_move() {
    let mut m = StageMotor::new(true, true);
    let e = m.handle_command(StageMotorCmd::MoveSteps { steps: -4, step_delay_us: 1 });
    let mut job = e.job;
    assert!(matches!(m.job_next(&mut job, false, false), JobStep::Pulse { dir_high: false, .. }));
    match m.job_next(&mut job, true, false) {
        JobStep::Finished(Some(l)) => assert_eq!(l.text, "Stage movement error: Command aborted"),
        _ => panic!("expected the move to end"),
    }
    assert_eq!(m.position, -1);
}
