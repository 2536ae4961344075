//! The Z stage motor controller of the firmware, as a state machine: the
//! motor's position and soft limits, the decision taken before every step,
//! the homing procedure, and the handling of each stage command.
//!
//! The firmware drives the pins and waits between pulses; this module decides
//! what to do next from the readings it is handed (whether a stop was
//! requested, whether the lower end stop is pressed).
use vstd::prelude::*;

use crate::command::{LogMessageLevel, StageMotorCmd};
use crate::text::{chars_of, push_chars, string_from_chars};

verus! {

/// Why a stage movement ended early.
#[derive(Debug, Clone, Copy, PartialEq, Eq, Structural)]
pub enum StageMotorError {
    CommandAborted,
    LowerLimitReached,
    UpperLimitReached,
    LowerEndStopNotAvailable,
}

/// The message of a stage motor error.
pub open spec fn error_text(e: StageMotorError) -> Seq<char> {
    match e {
        StageMotorError::CommandAborted => "Command aborted"@,
        StageMotorError::LowerLimitReached => "Lower limit reached"@,
        StageMotorError::UpperLimitReached => "Upper limit reached"@,
        StageMotorError::LowerEndStopNotAvailable => "Lower end stop not available"@,
    }
}

impl StageMotorError {
    /// The message of the error.
    pub fn as_str(&self) -> (s: &'static str)
        ensures
            s@ == error_text(*self),
    {
        match self {
            StageMotorError::CommandAborted => "Command aborted",
            StageMotorError::LowerLimitReached => "Lower limit reached",
            StageMotorError::UpperLimitReached => "Upper limit reached",
            StageMotorError::LowerEndStopNotAvailable => "Lower end stop not available",
        }
    }
}

/// The state of the Z stage motor: its position in steps, its soft limits,
/// and which optional pins the board has.
#[derive(Debug, Clone, Copy, PartialEq, Eq, Structural)]
pub struct StageMotor {
    pub position: i32,
    pub lower_limit: Option<i32>,
    pub upper_limit: Option<i32>,
    /// The board has a lower end-stop switch.
    pub has_end_stop_lower: bool,
    /// The board has an enable pin.
    pub has_enable_pin: bool,
}

/// A movement of a number of single steps in one direction.
#[derive(Debug, Clone, Copy, PartialEq, Eq, Structural)]
pub struct StepRun {
    /// `1` for up, `-1` for down.
    pub delta: i32,
    /// Steps still to take.
    pub remaining: u32,
    /// Steps in the whole movement.
    pub total: u32,
    /// Position when the movement started.
    pub start: i32,
}

/// What the motor does next during a movement.
#[derive(Debug, Clone, Copy, PartialEq, Eq, Structural)]
pub enum StepOutcome {
    /// Give one step pulse (the position already counts the step).
    Pulse,
    /// All steps are taken.
    Done,
    /// The movement ended early.
    Failed(StageMotorError),
}

impl StepRun {
    /// The run is consistent with the motor's current position.
    pub open spec fn tracks(self, position: i32) -> bool {
        &&& self.delta == 1 || self.delta == -1
        &&& self.remaining <= self.total
        &&& position == self.start + self.delta * (self.total - self.remaining)
    }
}

impl StageMotor {
    /// A motor at position zero without limits.
    pub fn new(has_end_stop_lower: bool, has_enable_pin: bool) -> (m: StageMotor)
        ensures
            m.position == 0,
            m.lower_limit is None,
            m.upper_limit is None,
            m.has_end_stop_lower == has_end_stop_lower,
            m.has_enable_pin == has_enable_pin,
    {
        StageMotor {
            position: 0,
            lower_limit: None,
            upper_limit: None,
            has_end_stop_lower,
            has_enable_pin,
        }
    }

    /// The lower end stop is pressed (a board without one never reports it).
    pub open spec fn spec_end_stop_triggered(self, end_stop_high: bool) -> bool {
        self.has_end_stop_lower && end_stop_high
    }

    /// At or below the lower limit; without a lower limit, the lower end stop decides.
    pub open spec fn spec_at_lower_limit(self, end_stop_high: bool) -> bool {
        match self.lower_limit {
            Some(l) => self.position <= l,
            None => self.spec_end_stop_triggered(end_stop_high),
        }
    }

    /// At or above the upper limit; without an upper limit, never.
    pub open spec fn spec_at_upper_limit(self) -> bool {
        match self.upper_limit {
            Some(u) => self.position >= u,
            None => false,
        }
    }

    /// Whether the lower end stop is pressed, given the level of its input pin.
    pub fn end_stop_lower_triggered(&self, end_stop_high: bool) -> (b: bool)
        ensures
            b == self.spec_end_stop_triggered(end_stop_high),
    {
        if self.has_end_stop_lower {
            end_stop_high
        } else {
            false
        }
    }

    pub fn is_at_lower_limit(&self, end_stop_high: bool) -> (b: bool)
        ensures
            b == self.spec_at_lower_limit(end_stop_high),
    {
        if let Some(limit) = self.lower_limit {
            return self.position <= limit;
        }
        self.end_stop_lower_triggered(end_stop_high)
    }

    pub fn is_at_upper_limit(&self) -> (b: bool)
        ensures
            b == self.spec_at_upper_limit(),
    {
        if let Some(limit) = self.upper_limit {
            return self.position >= limit;
        }
        false
    }

    /// The level the enable pin is driven to for `enable` (low enables the
    /// driver); `None` when the board has no enable pin.
    pub fn enable(&self) -> (level_high: Option<bool>)
        ensures
            level_high == if self.has_enable_pin {
                Some(false)
            } else {
                None
            },
    {
        if self.has_enable_pin {
            Some(false)
        } else {
            None
        }
    }

    /// The level the enable pin is driven to for `disable`; `None` when the
    /// board has no enable pin.
    pub fn disable(&self) -> (level_high: Option<bool>)
        ensures
            level_high == if self.has_enable_pin {
                Some(true)
            } else {
                None
            },
    {
        if self.has_enable_pin {
            Some(true)
        } else {
            None
        }
    }

    pub fn set_lower_limit(&mut self)
        ensures
            *final(self) == (StageMotor { lower_limit: Some(old(self).position), ..*old(self) }),
    {
        self.lower_limit = Some(self.position);
    }

    pub fn set_upper_limit(&mut self)
        ensures
            *final(self) == (StageMotor { upper_limit: Some(old(self).position), ..*old(self) }),
    {
        self.upper_limit = Some(self.position);
    }

    pub fn release_limits(&mut self)
        ensures
            *final(self) == (StageMotor { lower_limit: None, upper_limit: None, ..*old(self) }),
    {
        self.relase_lower_limit();
        self.relase_upper_limit();
    }

    pub fn relase_lower_limit(&mut self)
        ensures
            *final(self) == (StageMotor { lower_limit: None, ..*old(self) }),
    {
        self.lower_limit = None;
    }

    pub fn relase_upper_limit(&mut self)
        ensures
            *final(self) == (StageMotor { upper_limit: None, ..*old(self) }),
    {
        self.upper_limit = None;
    }

    /// Starts a movement of `n` steps (down when `n` is not positive). Also
    /// returns the level of the direction pin: high for up.
    pub fn begin_steps(&self, n: i32) -> (r: (StepRun, bool))
        requires
            n != i32::MIN,
        ensures
            r.0.delta == if n > 0 {
                1i32
            } else {
                -1i32
            },
            r.1 == (n > 0),
            r.0.total == (if n >= 0 {
                n as int
            } else {
                -n
            }),
            r.0.remaining == r.0.total,
            r.0.start == self.position,
            r.0.tracks(self.position),
    {
        let delta: i32 = if n > 0 {
            1
        } else {
            -1
        };
        let total: u32 = if n >= 0 {
            n as u32
        } else {
            (-n) as u32
        };
        (StepRun { delta, remaining: total, total, start: self.position }, n > 0)
    }

    /// The decision before each step of a movement: stop when asked to, when
    /// the step would go past a limit, or when all steps are taken; otherwise
    /// take the step.
    pub fn steps_next(&mut self, run: &mut StepRun, stop_requested: bool, end_stop_high: bool) -> (r:
        StepOutcome)
        requires
            old(run).tracks(old(self).position),
            spec_step_outcome(*old(self), *old(run), stop_requested, end_stop_high) is Pulse
                ==> i32::MIN <= old(self).position + old(run).delta <= i32::MAX,
        ensures
            final(run).tracks(final(self).position),
            final(run).start == old(run).start,
            final(run).total == old(run).total,
            final(run).delta == old(run).delta,
            final(self).lower_limit == old(self).lower_limit,
            final(self).upper_limit == old(self).upper_limit,
            final(self).has_end_stop_lower == old(self).has_end_stop_lower,
            final(self).has_enable_pin == old(self).has_enable_pin,
            r == spec_step_outcome(*old(self), *old(run), stop_requested, end_stop_high),
            final(self).position == spec_step_position(
                *old(self),
                *old(run),
                stop_requested,
                end_stop_high,
            ),
            r is Pulse ==> final(run).remaining == old(run).remaining - 1,
            !(r is Pulse) ==> *final(run) == *old(run) && *final(self) == *old(self),
            r matches StepOutcome::Failed(e) ==> e != StageMotorError::LowerEndStopNotAvailable,
    {
        if run.remaining == 0 {
            return StepOutcome::Done;
        }
        if stop_requested {
            return StepOutcome::Failed(StageMotorError::CommandAborted);
        }
        if self.is_at_lower_limit(end_stop_high) && run.delta < 0 {
            return StepOutcome::Failed(StageMotorError::LowerLimitReached);
        }
        if self.is_at_upper_limit() && run.delta > 0 {
            return StepOutcome::Failed(StageMotorError::UpperLimitReached);
        }
        proof {
            let done = run.total - run.remaining;
            assert(run.delta * (done + 1) == run.delta * done + run.delta) by (nonlinear_arith);
        }
        self.position = self.position + run.delta;
        run.remaining = run.remaining - 1;
        StepOutcome::Pulse
    }
}

/// The stages of the homing procedure.
#[derive(Debug, Clone, Copy, PartialEq, Eq, Structural)]
pub enum HomingPhase {
    /// Moving down 20 steps at a time until the end stop stops the motor.
    Seek,
    /// Backing off 300 steps up.
    BackOff,
    /// Moving down one step at a time until the end stop is pressed.
    Approach,
}

/// A homing procedure in progress.
#[derive(Debug, Clone, Copy, PartialEq, Eq, Structural)]
pub struct Homing {
    pub phase: HomingPhase,
    pub run: StepRun,
}

/// What the motor does next during homing or a movement.
#[derive(Debug, Clone, Copy, PartialEq, Eq, Structural)]
pub enum MotionStep {
    /// Give one step pulse in the given direction (`true` is up), then wait
    /// `delay_us` microseconds with the step pin high and as long with it low.
    Pulse { dir_high: bool, delay_us: u64 },
    /// The procedure succeeded.
    Finished,
    /// The procedure ended with this error.
    Failed(StageMotorError),
}

/// Step delay while seeking the end stop.
pub const SEEK_DELAY_US: u64 = 800;
/// Step delay while backing off the end stop.
pub const BACK_OFF_DELAY_US: u64 = 1000;
/// Step delay while approaching the end stop.
pub const APPROACH_DELAY_US: u64 = 4000;

impl Homing {
    /// The invariant of a homing procedure run on `m`: the lower limit is
    /// released, the board has an end stop, and the movement of the current
    /// phase tracks the position.
    pub open spec fn wf(self, m: StageMotor) -> bool {
        &&& m.lower_limit is None
        &&& m.has_end_stop_lower
        &&& self.run.tracks(m.position)
        &&& match self.phase {
            HomingPhase::Seek => self.run.delta == -1 && self.run.total == 20,
            HomingPhase::BackOff => self.run.delta == 1 && self.run.total == 300,
            HomingPhase::Approach => self.run.delta == -1 && self.run.total == 1,
        }
    }
}

impl StageMotor {
    /// Starts homing: fails when the board has no lower end stop; otherwise
    /// releases the lower limit and starts seeking the end stop.
    pub fn home_begin(&mut self) -> (r: Result<Homing, StageMotorError>)
        ensures
            !old(self).has_end_stop_lower ==> r == Err::<Homing, StageMotorError>(
                StageMotorError::LowerEndStopNotAvailable,
            ) && *final(self) == *old(self),
            old(self).has_end_stop_lower ==> *final(self) == (StageMotor {
                lower_limit: None,
                ..*old(self)
            }) && (r matches Ok(h) && h == (Homing {
                phase: HomingPhase::Seek,
                run: fresh_run(*final(self), -20),
            }) && h.wf(*final(self))),
    {
        if !self.has_end_stop_lower {
            return Err(StageMotorError::LowerEndStopNotAvailable);
        }
        self.relase_lower_limit();
        let (run, _dir) = self.begin_steps(-20);
        Ok(Homing { phase: HomingPhase::Seek, run })
    }

    /// Homing is over: the current position becomes zero and the lower limit.
    fn home_finish(&mut self) -> (r: MotionStep)
        ensures
            r == MotionStep::Finished,
            *final(self) == homed(*old(self)),
    {
        self.position = 0;
        self.set_lower_limit();
        MotionStep::Finished
    }

    /// The approach loop: done once the end stop is pressed; otherwise one
    /// more step down.
    fn home_approach(&mut self, h: &mut Homing, stop_requested: bool, end_stop_high: bool) -> (r:
        MotionStep)
        requires
            old(self).lower_limit is None,
            old(self).has_end_stop_lower,
            old(self).position > i32::MIN,
        ensures
            r is Finished ==> final(self).position == 0 && final(self).lower_limit == Some(0i32),
            !(r is Finished) ==> final(h).wf(*final(self)) && final(h).phase
                == HomingPhase::Approach,
            r is Pulse ==> r == (MotionStep::Pulse { dir_high: false, delay_us: APPROACH_DELAY_US }),
            r matches MotionStep::Failed(e) ==> e != StageMotorError::LowerEndStopNotAvailable,
            final(self).has_end_stop_lower == old(self).has_end_stop_lower,
            final(self).has_enable_pin == old(self).has_enable_pin,
            final(self).upper_limit == old(self).upper_limit,
            (*final(self), *final(h), r) == approach_step(*old(self), *old(h), stop_requested, end_stop_high),
    {
        if self.end_stop_lower_triggered(end_stop_high) {
            return self.home_finish();
        }
        let (run, _dir) = self.begin_steps(-1);
        let mut run = run;
        match self.steps_next(&mut run, stop_requested, end_stop_high) {
            StepOutcome::Pulse => {
                *h = Homing { phase: HomingPhase::Approach, run };
                MotionStep::Pulse { dir_high: false, delay_us: APPROACH_DELAY_US }
            },
            StepOutcome::Done => {
                proof {
                    assert(false);
                }
                self.home_finish()
            },
            StepOutcome::Failed(StageMotorError::LowerLimitReached) => self.home_finish(),
            StepOutcome::Failed(e) => {
                *h = Homing { phase: HomingPhase::Approach, run };
                MotionStep::Failed(e)
            },
        }
    }
}

impl StageMotor {
    /// One decision of the homing procedure, from the current readings.
    ///
    /// Seeking moves down in runs of 20 steps until the lower end stop stops
    /// a run; backing off then moves 300 steps up; approaching moves down one
    /// step at a time until the end stop is pressed. Then the position is
    /// zero and becomes the lower limit. Any other stop of a run ends homing
    /// with its error.
    pub fn home_next(&mut self, h: &mut Homing, stop_requested: bool, end_stop_high: bool) -> (r:
        MotionStep)
        requires
            old(h).wf(*old(self)),
            i32::MIN < old(self).position < i32::MAX,
        ensures
            r is Finished ==> final(self).position == 0 && final(self).lower_limit == Some(0i32),
            !(r is Finished) ==> final(h).wf(*final(self)),
            final(self).has_end_stop_lower == old(self).has_end_stop_lower,
            final(self).has_enable_pin == old(self).has_enable_pin,
            final(self).upper_limit == old(self).upper_limit,
            r matches MotionStep::Pulse { dir_high, delay_us } ==> (dir_high <==> final(h).phase
                == HomingPhase::BackOff) && delay_us == match final(h).phase {
                HomingPhase::Seek => SEEK_DELAY_US,
                HomingPhase::BackOff => BACK_OFF_DELAY_US,
                HomingPhase::Approach => APPROACH_DELAY_US,
            },
            r matches MotionStep::Failed(e) ==> e != StageMotorError::LowerEndStopNotAvailable,
            (*final(self), *final(h), r) == home_step(*old(self), *old(h), stop_requested, end_stop_high),
    {
        let mut run = h.run;
        match h.phase {
            HomingPhase::Seek => {
                match self.steps_next(&mut run, stop_requested, end_stop_high) {
                    StepOutcome::Pulse => {
                        h.run = run;
                        MotionStep::Pulse { dir_high: false, delay_us: SEEK_DELAY_US }
                    },
                    StepOutcome::Done => {
                        let (fresh, _dir) = self.begin_steps(-20);
                        let mut fresh = fresh;
                        match self.steps_next(&mut fresh, stop_requested, end_stop_high) {
                            StepOutcome::Pulse => {
                                h.run = fresh;
                                MotionStep::Pulse { dir_high: false, delay_us: SEEK_DELAY_US }
                            },
                            StepOutcome::Failed(StageMotorError::LowerLimitReached) => {
                                self.home_back_off(h, stop_requested, end_stop_high)
                            },
                            StepOutcome::Failed(e) => MotionStep::Failed(e),
                            StepOutcome::Done => {
                                proof {
                                    assert(false);
                                }
                                MotionStep::Failed(StageMotorError::CommandAborted)
                            },
                        }
                    },
                    StepOutcome::Failed(StageMotorError::LowerLimitReached) => {
                        self.home_back_off(h, stop_requested, end_stop_high)
                    },
                    StepOutcome::Failed(e) => MotionStep::Failed(e),
                }
            },
            HomingPhase::BackOff => {
                match self.steps_next(&mut run, stop_requested, end_stop_high) {
                    StepOutcome::Pulse => {
                        h.run = run;
                        MotionStep::Pulse { dir_high: true, delay_us: BACK_OFF_DELAY_US }
                    },
                    StepOutcome::Done => self.home_approach(h, stop_requested, end_stop_high),
                    StepOutcome::Failed(e) => MotionStep::Failed(e),
                }
            },
            HomingPhase::Approach => {
                match self.steps_next(&mut run, stop_requested, end_stop_high) {
                    StepOutcome::Pulse => {
                        h.run = run;
                        MotionStep::Pulse { dir_high: false, delay_us: APPROACH_DELAY_US }
                    },
                    StepOutcome::Done => self.home_approach(h, stop_requested, end_stop_high),
                    StepOutcome::Failed(StageMotorError::LowerLimitReached) => self.home_finish(),
                    StepOutcome::Failed(e) => MotionStep::Failed(e),
                }
            },
        }
    }

    /// The end stop stopped the seek: back off 300 steps up.
    fn home_back_off(&mut self, h: &mut Homing, stop_requested: bool, end_stop_high: bool) -> (r:
        MotionStep)
        requires
            old(self).lower_limit is None,
            old(self).has_end_stop_lower,
            old(self).position < i32::MAX,
        ensures
            !(r is Finished),
            !(r is Failed) ==> final(h).wf(*final(self)) && final(h).phase == HomingPhase::BackOff,
            r is Failed ==> *final(self) == *old(self) && *final(h) == *old(h),
            r is Pulse ==> r == (MotionStep::Pulse { dir_high: true, delay_us: BACK_OFF_DELAY_US }),
            r matches MotionStep::Failed(e) ==> e != StageMotorError::LowerEndStopNotAvailable,
            final(self).has_end_stop_lower == old(self).has_end_stop_lower,
            final(self).has_enable_pin == old(self).has_enable_pin,
            final(self).upper_limit == old(self).upper_limit,
            final(self).lower_limit == old(self).lower_limit,
            (*final(self), *final(h), r) == back_off_step(*old(self), *old(h), stop_requested, end_stop_high),
    {
        let (run, _dir) = self.begin_steps(300);
        let mut run = run;
        match self.steps_next(&mut run, stop_requested, end_stop_high) {
            StepOutcome::Pulse => {
                *h = Homing { phase: HomingPhase::BackOff, run };
                MotionStep::Pulse { dir_high: true, delay_us: BACK_OFF_DELAY_US }
            },
            StepOutcome::Failed(e) => MotionStep::Failed(e),
            StepOutcome::Done => {
                proof {
                    assert(false);
                }
                MotionStep::Failed(StageMotorError::CommandAborted)
            },
        }
    }
}

/// Why a movement was started; it decides the message reported when it ends.
#[derive(Debug, Clone, Copy, PartialEq, Eq, Structural)]
pub enum MoveKind {
    Requested,
    ToLowerLimit,
    ToUpperLimit,
}

/// What the motor is busy with.
#[derive(Debug, Clone, Copy, PartialEq, Eq, Structural)]
pub enum MotorJob {
    Idle,
    Moving { run: StepRun, delay_us: u64, kind: MoveKind },
    /// Homing; `announce` is whether success is reported (not at power-up).
    Homing { homing: Homing, announce: bool },
}

/// A line for the board's log.
#[derive(Debug)]
pub struct LogLine {
    pub level: LogMessageLevel,
    pub text: String,
}

/// What the firmware does in answer to a stage command.
#[derive(Debug)]
pub struct CommandEffect {
    /// Level to drive the enable pin to (high disables the driver).
    pub enable_level: Option<bool>,
    /// Log lines to send, in order.
    pub logs: Vec<LogLine>,
    /// Position to report to the host.
    pub report_position: Option<i32>,
    /// The movement started by the command.
    pub job: MotorJob,
}

/// What the firmware does next for a running job.
#[derive(Debug)]
pub enum JobStep {
    /// Give one step pulse in the given direction (`true` is up), waiting
    /// `delay_us` microseconds with the step pin high and as long with it low.
    Pulse { dir_high: bool, delay_us: u64 },
    /// The job is over; send this line (if any) and take the next command.
    Finished(Option<LogLine>),
}

fn log_line(level: LogMessageLevel, text: &str) -> (l: LogLine)
    ensures
        l.level == level,
        l.text@ == text@,
{
    LogLine { level, text: text.to_owned() }
}

/// `prefix` followed by the message of `e`.
fn error_line(prefix: &str, e: StageMotorError) -> (l: LogLine)
    ensures
        l.level == LogMessageLevel::Error,
        l.text@ == prefix@ + error_text(e),
{
    let mut v = chars_of(prefix);
    let detail = chars_of(e.as_str());
    push_chars(&mut v, detail.as_slice());
    LogLine { level: LogMessageLevel::Error, text: string_from_chars(&v) }
}

/// The one log line of a command's effect.
pub open spec fn single_log(logs: Seq<LogLine>, level: LogMessageLevel, text: Seq<char>) -> bool {
    logs.len() == 1 && logs[0].level == level && logs[0].text@ == text
}

/// The message reported when a movement of this kind succeeds.
pub open spec fn move_done_text(kind: MoveKind) -> Seq<char> {
    match kind {
        MoveKind::Requested => "Stage moved to requested position."@,
        MoveKind::ToLowerLimit => "Stage moved to lower limit."@,
        MoveKind::ToUpperLimit => "Stage moved to upper limit."@,
    }
}

impl StageMotor {
    /// Powers the motor up: enables the driver and starts homing, whose
    /// success is not reported. A board without a lower end stop cannot home;
    /// that error is logged and the motor is idle.
    pub fn power_up(has_end_stop_lower: bool, has_enable_pin: bool) -> (r: (StageMotor, CommandEffect))
        ensures
            r.0.position == 0,
            r.0.upper_limit is None,
            r.0.lower_limit is None,
            r.0.has_end_stop_lower == has_end_stop_lower,
            r.0.has_enable_pin == has_enable_pin,
            r.1.enable_level == if has_enable_pin {
                Some(false)
            } else {
                None
            },
            r.1.report_position is None,
            has_end_stop_lower ==> r.1.logs@.len() == 0 && r.1.job == (MotorJob::Homing {
                homing: Homing { phase: HomingPhase::Seek, run: fresh_run(r.0, -20) },
                announce: false,
            }) && r.1.job.wf(r.0),
            !has_end_stop_lower ==> r.1.job == MotorJob::Idle && single_log(
                r.1.logs@,
                LogMessageLevel::Error,
                "Homing error: "@ + error_text(StageMotorError::LowerEndStopNotAvailable),
            ),
    {
        let mut m = StageMotor::new(has_end_stop_lower, has_enable_pin);
        let enable_level = m.enable();
        let mut logs: Vec<LogLine> = Vec::new();
        let job = match m.home_begin() {
            Ok(homing) => MotorJob::Homing { homing, announce: false },
            Err(e) => {
                logs.push(error_line("Homing error: ", e));
                MotorJob::Idle
            },
        };
        (m, CommandEffect { enable_level, logs, report_position: None, job })
    }

    /// The answer to a stage command received while idle.
    pub fn handle_command(&mut self, cmd: StageMotorCmd) -> (e: CommandEffect)
        requires
            cmd matches StageMotorCmd::MoveSteps { steps, .. } ==> steps != i32::MIN,
            cmd is GoToLowerLimit ==> (old(self).lower_limit matches Some(l) ==> i32::MIN < l
                - old(self).position <= i32::MAX),
            cmd is GoToUpperLimit ==> (old(self).upper_limit matches Some(u) ==> i32::MIN < u
                - old(self).position <= i32::MAX),
        ensures
            final(self).has_end_stop_lower == old(self).has_end_stop_lower,
            final(self).has_enable_pin == old(self).has_enable_pin,
            final(self).position == old(self).position,
            e.enable_level == match cmd {
                StageMotorCmd::Enable => if old(self).has_enable_pin {
                    Some(false)
                } else {
                    None
                },
                StageMotorCmd::Disable => if old(self).has_enable_pin {
                    Some(true)
                } else {
                    None
                },
                _ => None,
            },
            e.report_position == if cmd is ReportPosition {
                Some(old(self).position)
            } else {
                None
            },
            !(cmd is Home) ==> final(self).lower_limit == match cmd {
                StageMotorCmd::SetLowerLimitToCurrent => Some(old(self).position),
                StageMotorCmd::SetLowerLimit(l) => Some(l),
                StageMotorCmd::ReleaseLimits => None,
                _ => old(self).lower_limit,
            },
            final(self).upper_limit == match cmd {
                StageMotorCmd::SetUpperLimitToCurrent => Some(old(self).position),
                StageMotorCmd::SetUpperLimit(u) => Some(u),
                StageMotorCmd::ReleaseLimits => None,
                _ => old(self).upper_limit,
            },
            match cmd {
                StageMotorCmd::Enable => single_log(e.logs@, LogMessageLevel::Info, "Stage motor enabled."@)
                    && e.job == MotorJob::Idle,
                StageMotorCmd::Disable => single_log(e.logs@, LogMessageLevel::Info, "Stage motor disabled."@)
                    && e.job == MotorJob::Idle,
                StageMotorCmd::Home => e.logs@.len() >= 1 && e.logs@[0].level == LogMessageLevel::Info
                    && e.logs@[0].text@ == "Homing stage."@ && if old(self).has_end_stop_lower {
                    e.logs@.len() == 1 && final(self).lower_limit is None && e.job == (MotorJob::Homing {
                        homing: Homing { phase: HomingPhase::Seek, run: fresh_run(*final(self), -20) },
                        announce: true,
                    }) && e.job.wf(*final(self))
                } else {
                    e.logs@.len() == 2 && e.logs@[1].level == LogMessageLevel::Error
                        && e.logs@[1].text@ == "Homing error: "@ + error_text(
                        StageMotorError::LowerEndStopNotAvailable,
                    ) && e.job == MotorJob::Idle && final(self).lower_limit == old(self).lower_limit
                },
                StageMotorCmd::MoveSteps { steps, step_delay_us } => single_log(
                    e.logs@,
                    LogMessageLevel::Info,
                    "Moving stage along Z axis."@,
                ) && e.job == (MotorJob::Moving {
                    run: fresh_run(*old(self), steps as int),
                    delay_us: step_delay_us as u64,
                    kind: MoveKind::Requested,
                }) && e.job.wf(*final(self)),
                StageMotorCmd::Stop => e.logs@.len() == 0 && e.job == MotorJob::Idle,
                StageMotorCmd::SetLowerLimitToCurrent => single_log(
                    e.logs@,
                    LogMessageLevel::Info,
                    "Set current position as lower limit."@,
                ) && e.job == MotorJob::Idle,
                StageMotorCmd::SetUpperLimitToCurrent => single_log(
                    e.logs@,
                    LogMessageLevel::Info,
                    "Set current position as upper limit."@,
                ) && e.job == MotorJob::Idle,
                StageMotorCmd::SetLowerLimit(_) => single_log(e.logs@, LogMessageLevel::Info, "Set lower limit."@)
                    && e.job == MotorJob::Idle,
                StageMotorCmd::SetUpperLimit(_) => single_log(e.logs@, LogMessageLevel::Info, "Set upper limit."@)
                    && e.job == MotorJob::Idle,
                StageMotorCmd::ReleaseLimits => single_log(e.logs@, LogMessageLevel::Info, "Released stage limits."@)
                    && e.job == MotorJob::Idle,
                StageMotorCmd::GoToLowerLimit { step_delay_us } => match old(self).lower_limit {
                    Some(l) => single_log(e.logs@, LogMessageLevel::Info, "Moving stage to lower limit."@)
                        && e.job == (MotorJob::Moving {
                        run: fresh_run(*old(self), l - old(self).position),
                        delay_us: step_delay_us as u64,
                        kind: MoveKind::ToLowerLimit,
                    }) && e.job.wf(*final(self)),
                    None => single_log(
                        e.logs@,
                        LogMessageLevel::Warning,
                        "Lower limit not set, cannot move to lower limit."@,
                    ) && e.job == MotorJob::Idle,
                },
                StageMotorCmd::GoToUpperLimit { step_delay_us } => match old(self).upper_limit {
                    Some(u) => single_log(e.logs@, LogMessageLevel::Info, "Moving stage to upper limit."@)
                        && e.job == (MotorJob::Moving {
                        run: fresh_run(*old(self), u - old(self).position),
                        delay_us: step_delay_us as u64,
                        kind: MoveKind::ToUpperLimit,
                    }) && e.job.wf(*final(self)),
                    None => single_log(
                        e.logs@,
                        LogMessageLevel::Warning,
                        "Upper limit not set, cannot move to upper limit."@,
                    ) && e.job == MotorJob::Idle,
                },
                StageMotorCmd::ReportPosition => e.logs@.len() == 0 && e.job == MotorJob::Idle,
            },
    {
        let mut logs: Vec<LogLine> = Vec::new();
        let mut enable_level: Option<bool> = None;
        let mut report_position: Option<i32> = None;
        let mut job = MotorJob::Idle;
        match cmd {
            StageMotorCmd::Enable => {
                enable_level = self.enable();
                let line = log_line(LogMessageLevel::Info, "Stage motor enabled.");
                logs.push(line);
                proof {
                    assert(single_log(logs@, LogMessageLevel::Info, "Stage motor enabled."@));
                }
            },
            StageMotorCmd::Disable => {
                enable_level = self.disable();
                logs.push(log_line(LogMessageLevel::Info, "Stage motor disabled."));
            },
            StageMotorCmd::Home => {
                logs.push(log_line(LogMessageLevel::Info, "Homing stage."));
                match self.home_begin() {
                    Ok(homing) => {
                        job = MotorJob::Homing { homing, announce: true };
                    },
                    Err(err) => {
                        logs.push(error_line("Homing error: ", err));
                    },
                }
            },
            StageMotorCmd::MoveSteps { steps, step_delay_us } => {
                logs.push(log_line(LogMessageLevel::Info, "Moving stage along Z axis."));
                let (run, _dir) = self.begin_steps(steps);
                job = MotorJob::Moving { run, delay_us: step_delay_us as u64, kind: MoveKind::Requested };
            },
            StageMotorCmd::SetLowerLimitToCurrent => {
                self.set_lower_limit();
                logs.push(log_line(LogMessageLevel::Info, "Set current position as lower limit."));
            },
            StageMotorCmd::SetUpperLimitToCurrent => {
                self.set_upper_limit();
                logs.push(log_line(LogMessageLevel::Info, "Set current position as upper limit."));
            },
            StageMotorCmd::SetLowerLimit(limit) => {
                self.lower_limit = Some(limit);
                logs.push(log_line(LogMessageLevel::Info, "Set lower limit."));
            },
            StageMotorCmd::SetUpperLimit(limit) => {
                self.upper_limit = Some(limit);
                logs.push(log_line(LogMessageLevel::Info, "Set upper limit."));
            },
            StageMotorCmd::ReleaseLimits => {
                self.release_limits();
                logs.push(log_line(LogMessageLevel::Info, "Released stage limits."));
            },
            StageMotorCmd::GoToLowerLimit { step_delay_us } => {
                if let Some(limit) = self.lower_limit {
                    let steps = limit - self.position;
                    logs.push(log_line(LogMessageLevel::Info, "Moving stage to lower limit."));
                    let (run, _dir) = self.begin_steps(steps);
                    job = MotorJob::Moving {
                        run,
                        delay_us: step_delay_us as u64,
                        kind: MoveKind::ToLowerLimit,
                    };
                } else {
                    logs.push(
                        log_line(
                            LogMessageLevel::Warning,
                            "Lower limit not set, cannot move to lower limit.",
                        ),
                    );
                }
            },
            StageMotorCmd::GoToUpperLimit { step_delay_us } => {
                if let Some(limit) = self.upper_limit {
                    let steps = limit - self.position;
                    logs.push(log_line(LogMessageLevel::Info, "Moving stage to upper limit."));
                    let (run, _dir) = self.begin_steps(steps);
                    job = MotorJob::Moving {
                        run,
                        delay_us: step_delay_us as u64,
                        kind: MoveKind::ToUpperLimit,
                    };
                } else {
                    logs.push(
                        log_line(
                            LogMessageLevel::Warning,
                            "Upper limit not set, cannot move to upper limit.",
                        ),
                    );
                }
            },
            StageMotorCmd::ReportPosition => {
                report_position = Some(self.position);
            },
            StageMotorCmd::Stop => {},
        }
        CommandEffect { enable_level, logs, report_position, job }
    }
}

impl MotorJob {
    /// The job can be continued on motor `m`.
    pub open spec fn wf(self, m: StageMotor) -> bool {
        match self {
            MotorJob::Idle => true,
            MotorJob::Moving { run, .. } => run.tracks(m.position),
            MotorJob::Homing { homing, .. } => homing.wf(m),
        }
    }
}

impl StageMotor {
    /// The next decision for the running job, from the current readings.
    pub fn job_next(&mut self, job: &mut MotorJob, stop_requested: bool, end_stop_high: bool) -> (r:
        JobStep)
        requires
            old(job).wf(*old(self)),
            *old(job) matches MotorJob::Moving { run, .. } ==> (spec_step_outcome(
                *old(self),
                run,
                stop_requested,
                end_stop_high,
            ) is Pulse ==> i32::MIN <= old(self).position + run.delta <= i32::MAX),
            *old(job) is Homing ==> i32::MIN < old(self).position < i32::MAX,
        ensures
            final(job).wf(*final(self)),
            final(self).has_end_stop_lower == old(self).has_end_stop_lower,
            final(self).has_enable_pin == old(self).has_enable_pin,
            final(self).upper_limit == old(self).upper_limit,
            r is Finished ==> *final(job) == MotorJob::Idle,
            match *old(job) {
                MotorJob::Idle => r matches JobStep::Finished(None) && *final(self) == *old(self),
                MotorJob::Moving { run, delay_us, kind } => final(self).lower_limit == old(self).lower_limit
                    && final(self).position == spec_step_position(
                    *old(self),
                    run,
                    stop_requested,
                    end_stop_high,
                ) && match spec_step_outcome(*old(self), run, stop_requested, end_stop_high) {
                    StepOutcome::Pulse => r matches JobStep::Pulse { dir_high, delay_us: d } && (
                    dir_high <==> run.delta > 0) && d == delay_us && *final(job) == (MotorJob::Moving {
                        run: run_after(*old(self), run, stop_requested, end_stop_high),
                        delay_us,
                        kind,
                    }),
                    StepOutcome::Done => r matches JobStep::Finished(Some(l)) && l.level
                        == LogMessageLevel::Info && l.text@ == move_done_text(kind),
                    StepOutcome::Failed(err) => r matches JobStep::Finished(Some(l)) && l.level
                        == LogMessageLevel::Error && l.text@ == "Stage movement error: "@
                        + error_text(err),
                },
                MotorJob::Homing { homing, announce } => {
                    let (m2, h2, step) = home_step(*old(self), homing, stop_requested, end_stop_high);
                    &&& *final(self) == m2
                    &&& match step {
                        MotionStep::Pulse { dir_high, delay_us } => r == (JobStep::Pulse {
                            dir_high,
                            delay_us,
                        }) && *final(job) == (MotorJob::Homing { homing: h2, announce }),
                        MotionStep::Finished => if announce {
                            r matches JobStep::Finished(Some(l)) && l.level == LogMessageLevel::Info
                                && l.text@ == "Stage homed to lower limit."@
                        } else {
                            r matches JobStep::Finished(None)
                        },
                        MotionStep::Failed(err) => r matches JobStep::Finished(Some(l)) && l.level
                            == LogMessageLevel::Error && l.text@ == "Homing error: "@ + error_text(err),
                    }
                },
            },
    {
        match *job {
            MotorJob::Idle => JobStep::Finished(None),
            MotorJob::Moving { run, delay_us, kind } => {
                let mut run = run;
                match self.steps_next(&mut run, stop_requested, end_stop_high) {
                    StepOutcome::Pulse => {
                        *job = MotorJob::Moving { run, delay_us, kind };
                        JobStep::Pulse { dir_high: run.delta > 0, delay_us }
                    },
                    StepOutcome::Done => {
                        *job = MotorJob::Idle;
                        let line = match kind {
                            MoveKind::Requested => log_line(
                                LogMessageLevel::Info,
                                "Stage moved to requested position.",
                            ),
                            MoveKind::ToLowerLimit => log_line(
                                LogMessageLevel::Info,
                                "Stage moved to lower limit.",
                            ),
                            MoveKind::ToUpperLimit => log_line(
                                LogMessageLevel::Info,
                                "Stage moved to upper limit.",
                            ),
                        };
                        JobStep::Finished(Some(line))
                    },
                    StepOutcome::Failed(err) => {
                        *job = MotorJob::Idle;
                        JobStep::Finished(Some(error_line("Stage movement error: ", err)))
                    },
                }
            },
            MotorJob::Homing { homing, announce } => {
                let mut homing = homing;
                match self.home_next(&mut homing, stop_requested, end_stop_high) {
                    MotionStep::Pulse { dir_high, delay_us } => {
                        *job = MotorJob::Homing { homing, announce };
                        JobStep::Pulse { dir_high, delay_us }
                    },
                    MotionStep::Finished => {
                        *job = MotorJob::Idle;
                        if announce {
                            JobStep::Finished(
                                Some(log_line(LogMessageLevel::Info, "Stage homed to lower limit.")),
                            )
                        } else {
                            JobStep::Finished(None)
                        }
                    },
                    MotionStep::Failed(err) => {
                        *job = MotorJob::Idle;
                        JobStep::Finished(Some(error_line("Homing error: ", err)))
                    },
                }
            },
        }
    }
}

/// A movement that took all its steps ends exactly where it was aimed: its
/// start plus the requested number of steps.
pub proof fn lemma_move_reaches_target(run: StepRun, position: i32)
    requires
        run.tracks(position),
        run.remaining == 0,
    ensures
        position == run.start + run.delta * run.total,
{
}

/// The decision `steps_next` takes for a motor, a movement and the readings.
pub open spec fn spec_step_outcome(m: StageMotor, run: StepRun, stop_requested: bool, end_stop_high: bool) -> StepOutcome {
    if run.remaining == 0 {
        StepOutcome::Done
    } else if stop_requested {
        StepOutcome::Failed(StageMotorError::CommandAborted)
    } else if m.spec_at_lower_limit(end_stop_high) && run.delta < 0 {
        StepOutcome::Failed(StageMotorError::LowerLimitReached)
    } else if m.spec_at_upper_limit() && run.delta > 0 {
        StepOutcome::Failed(StageMotorError::UpperLimitReached)
    } else {
        StepOutcome::Pulse
    }
}

/// The position after `steps_next`: one step further on a pulse, unchanged otherwise.
pub open spec fn spec_step_position(m: StageMotor, run: StepRun, stop_requested: bool, end_stop_high: bool) -> int {
    if spec_step_outcome(m, run, stop_requested, end_stop_high) is Pulse {
        m.position + run.delta
    } else {
        m.position as int
    }
}

/// A movement of `n` steps started at `m` that took all its steps ends `n`
/// steps from where it started.
pub proof fn lemma_move_of_n_steps(m: StageMotor, n: i32, run: StepRun, position: i32)
    requires
        n != i32::MIN,
        run.start == fresh_run(m, n as int).start,
        run.delta == fresh_run(m, n as int).delta,
        run.total == fresh_run(m, n as int).total,
        run.tracks(position),
        run.remaining == 0,
    ensures
        position == m.position + n,
{
    lemma_move_reaches_target(run, position);
}

/// A new movement of `n` steps from the motor's position.
pub open spec fn fresh_run(m: StageMotor, n: int) -> StepRun {
    StepRun {
        delta: if n > 0 {
            1i32
        } else {
            -1i32
        },
        remaining: (if n >= 0 {
            n
        } else {
            -n
        }) as u32,
        total: (if n >= 0 {
            n
        } else {
            -n
        }) as u32,
        start: m.position,
    }
}

/// The motor after the decision of `steps_next`.
pub open spec fn stepped(m: StageMotor, run: StepRun, stop_requested: bool, end_stop_high: bool) -> StageMotor {
    StageMotor { position: spec_step_position(m, run, stop_requested, end_stop_high) as i32, ..m }
}

/// The movement after the decision of `steps_next`.
pub open spec fn run_after(m: StageMotor, run: StepRun, stop_requested: bool, end_stop_high: bool) -> StepRun {
    if spec_step_outcome(m, run, stop_requested, end_stop_high) is Pulse {
        StepRun { remaining: (run.remaining - 1) as u32, ..run }
    } else {
        run
    }
}

/// The motor once homing is over: at position zero, which is its lower limit.
pub open spec fn homed(m: StageMotor) -> StageMotor {
    StageMotor { position: 0, lower_limit: Some(0), ..m }
}

/// Backing off after the seek: a fresh movement of 300 steps up.
pub open spec fn back_off_step(m: StageMotor, h: Homing, stop_requested: bool, end_stop_high: bool) -> (
    StageMotor,
    Homing,
    MotionStep,
) {
    let run = fresh_run(m, 300);
    match spec_step_outcome(m, run, stop_requested, end_stop_high) {
        StepOutcome::Pulse => (
            stepped(m, run, stop_requested, end_stop_high),
            Homing { phase: HomingPhase::BackOff, run: run_after(m, run, stop_requested, end_stop_high) },
            MotionStep::Pulse { dir_high: true, delay_us: BACK_OFF_DELAY_US },
        ),
        StepOutcome::Failed(e) => (m, h, MotionStep::Failed(e)),
        StepOutcome::Done => (m, h, MotionStep::Failed(StageMotorError::CommandAborted)),
    }
}

/// The approach: done once the end stop is pressed (or the lower limit
/// stops the step); otherwise a fresh single step down.
pub open spec fn approach_step(m: StageMotor, h: Homing, stop_requested: bool, end_stop_high: bool) -> (
    StageMotor,
    Homing,
    MotionStep,
) {
    if m.spec_end_stop_triggered(end_stop_high) {
        (homed(m), h, MotionStep::Finished)
    } else {
        let run = fresh_run(m, -1);
        match spec_step_outcome(m, run, stop_requested, end_stop_high) {
            StepOutcome::Pulse => (
                stepped(m, run, stop_requested, end_stop_high),
                Homing { phase: HomingPhase::Approach, run: run_after(m, run, stop_requested, end_stop_high) },
                MotionStep::Pulse { dir_high: false, delay_us: APPROACH_DELAY_US },
            ),
            StepOutcome::Failed(StageMotorError::LowerLimitReached) => (homed(m), h, MotionStep::Finished),
            StepOutcome::Failed(e) => (m, Homing { phase: HomingPhase::Approach, run }, MotionStep::Failed(e)),
            StepOutcome::Done => (homed(m), h, MotionStep::Finished),
        }
    }
}

/// One decision of the homing procedure: the motor, the procedure and the
/// step that follow from the motor, the procedure and the readings.
pub open spec fn home_step(m: StageMotor, h: Homing, stop_requested: bool, end_stop_high: bool) -> (
    StageMotor,
    Homing,
    MotionStep,
) {
    let o = spec_step_outcome(m, h.run, stop_requested, end_stop_high);
    let moved = stepped(m, h.run, stop_requested, end_stop_high);
    let run = run_after(m, h.run, stop_requested, end_stop_high);
    match h.phase {
        HomingPhase::Seek => match o {
            StepOutcome::Pulse => (
                moved,
                Homing { phase: HomingPhase::Seek, run },
                MotionStep::Pulse { dir_high: false, delay_us: SEEK_DELAY_US },
            ),
            StepOutcome::Done => {
                let next = fresh_run(m, -20);
                match spec_step_outcome(m, next, stop_requested, end_stop_high) {
                    StepOutcome::Pulse => (
                        stepped(m, next, stop_requested, end_stop_high),
                        Homing { phase: HomingPhase::Seek, run: run_after(m, next, stop_requested, end_stop_high) },
                        MotionStep::Pulse { dir_high: false, delay_us: SEEK_DELAY_US },
                    ),
                    StepOutcome::Failed(StageMotorError::LowerLimitReached) => back_off_step(
                        m,
                        h,
                        stop_requested,
                        end_stop_high,
                    ),
                    StepOutcome::Failed(e) => (m, h, MotionStep::Failed(e)),
                    StepOutcome::Done => (m, h, MotionStep::Failed(StageMotorError::CommandAborted)),
                }
            },
            StepOutcome::Failed(StageMotorError::LowerLimitReached) => back_off_step(
                m,
                h,
                stop_requested,
                end_stop_high,
            ),
            StepOutcome::Failed(e) => (m, h, MotionStep::Failed(e)),
        },
        HomingPhase::BackOff => match o {
            StepOutcome::Pulse => (
                moved,
                Homing { phase: HomingPhase::BackOff, run },
                MotionStep::Pulse { dir_high: true, delay_us: BACK_OFF_DELAY_US },
            ),
            StepOutcome::Done => approach_step(m, h, stop_requested, end_stop_high),
            StepOutcome::Failed(e) => (m, h, MotionStep::Failed(e)),
        },
        HomingPhase::Approach => match o {
            StepOutcome::Pulse => (
                moved,
                Homing { phase: HomingPhase::Approach, run },
                MotionStep::Pulse { dir_high: false, delay_us: APPROACH_DELAY_US },
            ),
            StepOutcome::Done => approach_step(m, h, stop_requested, end_stop_high),
            StepOutcome::Failed(StageMotorError::LowerLimitReached) => (homed(m), h, MotionStep::Finished),
            StepOutcome::Failed(e) => (m, h, MotionStep::Failed(e)),
        },
    }
}

/// Stepping never crosses a set limit: a motor at or above its lower limit
/// stays there, and one at or below its upper limit stays there, whatever
/// the readings.
pub proof fn lemma_steps_keep_limits(m: StageMotor, run: StepRun, stop_requested: bool, end_stop_high: bool)
    requires
        run.tracks(m.position),
    ensures
        m.lower_limit matches Some(l) ==> (m.position >= l ==> spec_step_position(
            m,
            run,
            stop_requested,
            end_stop_high,
        ) >= l),
        m.upper_limit matches Some(u) ==> (m.position <= u ==> spec_step_position(
            m,
            run,
            stop_requested,
            end_stop_high,
        ) <= u),
{
}

/// A stop request ends any unfinished movement, without a step.
pub proof fn lemma_stop_aborts(m: StageMotor, run: StepRun, end_stop_high: bool)
    requires
        run.remaining > 0,
    ensures
        spec_step_outcome(m, run, true, end_stop_high) == StepOutcome::Failed(
            StageMotorError::CommandAborted,
        ),
        spec_step_position(m, run, true, end_stop_high) == m.position,
{
}

/// A motor standing at or above its upper limit never takes a step up: the
/// step is refused with `UpperLimitReached` and the motor stays where it is.
pub proof fn lemma_no_step_up_past_upper_limit(
    m: StageMotor,
    run: StepRun,
    end_stop_high: bool,
    u: i32,
)
    requires
        run.delta > 0,
        run.remaining > 0,
        m.upper_limit == Some(u),
        m.position >= u,
    ensures
        spec_step_outcome(m, run, false, end_stop_high) == StepOutcome::Failed(
            StageMotorError::UpperLimitReached,
        ),
        spec_step_position(m, run, false, end_stop_high) == m.position,
{
}

/// A motor standing at or below its lower limit never takes a step down: the
/// step is refused with `LowerLimitReached` and the motor stays where it is.
pub proof fn lemma_no_step_down_past_lower_limit(
    m: StageMotor,
    run: StepRun,
    end_stop_high: bool,
    l: i32,
)
    requires
        run.delta < 0,
        run.remaining > 0,
        m.lower_limit == Some(l),
        m.position <= l,
    ensures
        spec_step_outcome(m, run, false, end_stop_high) == StepOutcome::Failed(
            StageMotorError::LowerLimitReached,
        ),
        spec_step_position(m, run, false, end_stop_high) == m.position,
{
}

/// Below its upper limit (or without one), a motor moving up that is not
/// asked to stop takes its step: one step further up.
pub proof fn lemma_step_up_below_upper_limit(m: StageMotor, run: StepRun, end_stop_high: bool)
    requires
        run.delta == 1,
        run.remaining > 0,
        m.upper_limit matches Some(u) ==> m.position < u,
    ensures
        spec_step_outcome(m, run, false, end_stop_high) == StepOutcome::Pulse,
        spec_step_position(m, run, false, end_stop_high) == m.position + 1,
{
}

/// Without a lower limit, a pressed lower end stop refuses every step down,
/// and the motor stays where it is; a board without an end stop never
/// reports it pressed.
pub proof fn lemma_end_stop_blocks_down(m: StageMotor, run: StepRun)
    requires
        run.delta < 0,
        run.remaining > 0,
        m.lower_limit is None,
    ensures
        m.has_end_stop_lower ==> spec_step_outcome(m, run, false, true) == StepOutcome::Failed(
            StageMotorError::LowerLimitReached,
        ) && spec_step_position(m, run, false, true) == m.position,
        !m.has_end_stop_lower ==> spec_step_outcome(m, run, false, true) == spec_step_outcome(
            m,
            run,
            false,
            false,
        ),
{
}

/// Above its lower limit (or, without one, with the end stop released), a
/// motor moving down that is not asked to stop takes its step: one step
/// further down.
pub proof fn lemma_step_down_above_lower_limit(m: StageMotor, run: StepRun, end_stop_high: bool)
    requires
        run.delta == -1,
        run.remaining > 0,
        m.lower_limit matches Some(l) ==> m.position > l,
        m.lower_limit is None ==> !(m.has_end_stop_lower && end_stop_high),
    ensures
        spec_step_outcome(m, run, false, end_stop_high) == StepOutcome::Pulse,
        spec_step_position(m, run, false, end_stop_high) == m.position - 1,
{
}

/// A movement with no steps left is over: `Done`, and the motor stays.
pub proof fn lemma_finished_move_is_done(
    m: StageMotor,
    run: StepRun,
    stop_requested: bool,
    end_stop_high: bool,
)
    requires
        run.remaining == 0,
    ensures
        spec_step_outcome(m, run, stop_requested, end_stop_high) == StepOutcome::Done,
        spec_step_position(m, run, stop_requested, end_stop_high) == m.position,
{
}

} // verus!
