//! The stage command route of the backend: which motor command a request
//! path and its query ask for.
use vstd::prelude::*;

use crate::command::StageMotorCmd;
use crate::text::{chars_of, push_chars, string_from_chars};

verus! {

/// The query of a stage command request; absent values take defaults.
#[derive(Debug, Clone, Copy, PartialEq, Eq, Structural)]
pub struct CommandQuery {
    pub steps: Option<i32>,
    pub step_delay_us: Option<u32>,
    pub limit: Option<i32>,
}

/// Steps of a move when the query names none.
pub const DEFAULT_STEPS: i32 = 100;

/// Step delay of a move when the query names none, and of the moves to a limit.
pub const DEFAULT_STEP_DELAY_US: u32 = 1000;

/// `o`'s value, or `d` when it is absent.
pub open spec fn or_default<T>(o: Option<T>, d: T) -> T {
    match o {
        Some(v) => v,
        None => d,
    }
}

/// The command that the path `path` with query `q` asks for; `None` for an
/// unknown path.
pub open spec fn route_command(path: Seq<char>, q: CommandQuery) -> Option<StageMotorCmd> {
    if path == "steps"@ {
        Some(
            StageMotorCmd::MoveSteps {
                steps: or_default(q.steps, DEFAULT_STEPS),
                step_delay_us: or_default(q.step_delay_us, DEFAULT_STEP_DELAY_US),
            },
        )
    } else if path == "home"@ {
        Some(StageMotorCmd::Home)
    } else if path == "enable"@ {
        Some(StageMotorCmd::Enable)
    } else if path == "disable"@ {
        Some(StageMotorCmd::Disable)
    } else if path == "stop"@ {
        Some(StageMotorCmd::Stop)
    } else if path == "set_lower_limit"@ {
        Some(
            match q.limit {
                Some(l) => StageMotorCmd::SetLowerLimit(l),
                None => StageMotorCmd::SetLowerLimitToCurrent,
            },
        )
    } else if path == "set_upper_limit"@ {
        Some(
            match q.limit {
                Some(l) => StageMotorCmd::SetUpperLimit(l),
                None => StageMotorCmd::SetUpperLimitToCurrent,
            },
        )
    } else if path == "release_limits"@ {
        Some(StageMotorCmd::ReleaseLimits)
    } else if path == "goto_lower_limit"@ {
        Some(StageMotorCmd::GoToLowerLimit { step_delay_us: DEFAULT_STEP_DELAY_US })
    } else if path == "goto_upper_limit"@ {
        Some(StageMotorCmd::GoToUpperLimit { step_delay_us: DEFAULT_STEP_DELAY_US })
    } else {
        None
    }
}

/// The motor command that a request to `/stage_z/<path>` sends to the board;
/// `None` when the path names no command (the request is refused).
pub fn stage_z_motor_command(path: &str, query: CommandQuery) -> (r: Option<StageMotorCmd>)
    ensures
        r == route_command(path@, query),
{
    let p = path.to_owned();
    if p == "steps".to_owned() {
        let steps = match query.steps {
            Some(s) => s,
            None => DEFAULT_STEPS,
        };
        let step_delay_us = match query.step_delay_us {
            Some(d) => d,
            None => DEFAULT_STEP_DELAY_US,
        };
        Some(StageMotorCmd::MoveSteps { steps, step_delay_us })
    } else if p == "home".to_owned() {
        Some(StageMotorCmd::Home)
    } else if p == "enable".to_owned() {
        Some(StageMotorCmd::Enable)
    } else if p == "disable".to_owned() {
        Some(StageMotorCmd::Disable)
    } else if p == "stop".to_owned() {
        Some(StageMotorCmd::Stop)
    } else if p == "set_lower_limit".to_owned() {
        match query.limit {
            Some(l) => Some(StageMotorCmd::SetLowerLimit(l)),
            None => Some(StageMotorCmd::SetLowerLimitToCurrent),
        }
    } else if p == "set_upper_limit".to_owned() {
        match query.limit {
            Some(l) => Some(StageMotorCmd::SetUpperLimit(l)),
            None => Some(StageMotorCmd::SetUpperLimitToCurrent),
        }
    } else if p == "release_limits".to_owned() {
        Some(StageMotorCmd::ReleaseLimits)
    } else if p == "goto_lower_limit".to_owned() {
        Some(StageMotorCmd::GoToLowerLimit { step_delay_us: DEFAULT_STEP_DELAY_US })
    } else if p == "goto_upper_limit".to_owned() {
        Some(StageMotorCmd::GoToUpperLimit { step_delay_us: DEFAULT_STEP_DELAY_US })
    } else {
        None
    }
}

/// How a stage command request is answered before anything is sent.
#[derive(Debug, Clone, Copy, PartialEq, Eq, Structural)]
pub enum StageRequest {
    /// No controller board is connected: status 500, nothing is sent.
    NoDriver,
    /// The path names no command: status 400, nothing is sent.
    UnknownCommand,
    /// Send this command to the board, once; the status follows from the send.
    Send(StageMotorCmd),
}

/// The message of a request made without a controller board.
pub open spec fn no_driver_text() -> Seq<char> {
    "Device driver not available"@
}

/// The message of a request for an unknown command.
pub open spec fn unknown_command_text() -> Seq<char> {
    "Invalid command, use 'up', 'down', or 'stop'"@
}

/// The message of a failed send, with the error's text.
pub open spec fn send_failed_text(error: Seq<char>) -> Seq<char> {
    "Failed to send stage Z motor command: "@ + error
}

/// The answer to `/stage_z/<path>` before any send: without a board the
/// request fails (whatever the path), an unknown path is refused, and any
/// other path sends its command.
pub fn stage_z_request(driver_present: bool, path: &str, query: CommandQuery) -> (r: StageRequest)
    ensures
        r == (if !driver_present {
            StageRequest::NoDriver
        } else {
            match route_command(path@, query) {
                Some(c) => StageRequest::Send(c),
                None => StageRequest::UnknownCommand,
            }
        }),
{
    if !driver_present {
        return StageRequest::NoDriver;
    }
    match stage_z_motor_command(path, query) {
        Some(c) => StageRequest::Send(c),
        None => StageRequest::UnknownCommand,
    }
}

/// The status and message of a request that sent nothing.
pub fn refusal_response(r: StageRequest) -> (resp: Option<(u16, String)>)
    ensures
        match r {
            StageRequest::NoDriver => resp matches Some(x) && x.0 == 500 && x.1@ == no_driver_text(),
            StageRequest::UnknownCommand => resp matches Some(x) && x.0 == 400 && x.1@
                == unknown_command_text(),
            StageRequest::Send(_) => resp is None,
        },
{
    match r {
        StageRequest::NoDriver => Some((500, "Device driver not available".to_owned())),
        StageRequest::UnknownCommand => Some(
            (400, "Invalid command, use 'up', 'down', or 'stop'".to_owned()),
        ),
        StageRequest::Send(_) => None,
    }
}

/// The status and message after the command was sent: 200 and `ok` when the
/// send succeeded, 500 and the error otherwise.
pub fn send_response(sent: Result<(), String>) -> (resp: (u16, String))
    ensures
        match sent {
            Ok(_) => resp.0 == 200 && resp.1@ == "ok"@,
            Err(e) => resp.0 == 500 && resp.1@ == send_failed_text(e@),
        },
{
    match sent {
        Ok(_) => (200, "ok".to_owned()),
        Err(e) => {
            let mut v = chars_of("Failed to send stage Z motor command: ");
            let t = chars_of(e.as_str());
            push_chars(&mut v, t.as_slice());
            (500, string_from_chars(&v))
        },
    }
}

/// A `set_upper_limit` request always sets the upper limit, never the lower
/// one: to the query's limit when it holds one, else to the current position.
/// `set_lower_limit` is its mirror image.
pub proof fn lemma_limit_routes(q: CommandQuery)
    ensures
        route_command("set_upper_limit"@, q) matches Some(c) && (c is SetUpperLimit
            || c is SetUpperLimitToCurrent) && (c is SetUpperLimit <==> q.limit is Some) && (
        c matches StageMotorCmd::SetUpperLimit(l) ==> q.limit == Some(l)),
        route_command("set_lower_limit"@, q) matches Some(c) && (c is SetLowerLimit
            || c is SetLowerLimitToCurrent) && (c is SetLowerLimit <==> q.limit is Some) && (
        c matches StageMotorCmd::SetLowerLimit(l) ==> q.limit == Some(l)),
{
    reveal_strlit("steps");
    reveal_strlit("home");
    reveal_strlit("enable");
    reveal_strlit("disable");
    reveal_strlit("stop");
    reveal_strlit("set_lower_limit");
    reveal_strlit("set_upper_limit");
    assert("set_upper_limit"@[4] != "set_lower_limit"@[4]);
    assert("set_lower_limit"@.len() == 15 && "steps"@.len() == 5);
    assert("set_lower_limit"@.len() == 15 && "home"@.len() == 4);
    assert("set_lower_limit"@.len() == 15 && "enable"@.len() == 6);
    assert("set_lower_limit"@.len() == 15 && "disable"@.len() == 7);
    assert("set_lower_limit"@.len() == 15 && "stop"@.len() == 4);
    assert("set_upper_limit"@.len() == 15 && "steps"@.len() == 5);
    assert("set_upper_limit"@.len() == 15 && "home"@.len() == 4);
    assert("set_upper_limit"@.len() == 15 && "enable"@.len() == 6);
    assert("set_upper_limit"@.len() == 15 && "disable"@.len() == 7);
    assert("set_upper_limit"@.len() == 15 && "stop"@.len() == 4);
    assert("set_upper_limit"@[4] != "set_lower_limit"@[4]);
}

/// A `steps` request moves by the query's step count (100 without one) with
/// the query's delay (1000 µs without one); the `goto_*_limit` requests move
/// to the named limit with a 1000 µs delay.
pub proof fn lemma_move_routes(q: CommandQuery)
    ensures
        route_command("steps"@, q) matches Some(StageMotorCmd::MoveSteps { steps, step_delay_us })
            && steps == (if q.steps is Some { q.steps->0 } else { 100 })
            && step_delay_us == (if q.step_delay_us is Some { q.step_delay_us->0 } else { 1000 }),
        route_command("goto_lower_limit"@, q) == Some(
            StageMotorCmd::GoToLowerLimit { step_delay_us: 1000 },
        ),
        route_command("goto_upper_limit"@, q) == Some(
            StageMotorCmd::GoToUpperLimit { step_delay_us: 1000 },
        ),
{
    reveal_strlit("steps");
    reveal_strlit("home");
    reveal_strlit("enable");
    reveal_strlit("disable");
    reveal_strlit("stop");
    reveal_strlit("set_lower_limit");
    reveal_strlit("set_upper_limit");
    reveal_strlit("release_limits");
    reveal_strlit("goto_lower_limit");
    reveal_strlit("goto_upper_limit");
    assert("goto_lower_limit"@[5] != "goto_upper_limit"@[5]);
    assert("goto_lower_limit"@.len() == 16 && "steps"@.len() == 5);
    assert("goto_lower_limit"@.len() == 16 && "home"@.len() == 4);
    assert("goto_lower_limit"@.len() == 16 && "enable"@.len() == 6);
    assert("goto_lower_limit"@.len() == 16 && "disable"@.len() == 7);
    assert("goto_lower_limit"@.len() == 16 && "stop"@.len() == 4);
    assert("goto_lower_limit"@.len() == 16 && "set_lower_limit"@.len() == 15);
    assert("goto_lower_limit"@.len() == 16 && "set_upper_limit"@.len() == 15);
    assert("goto_lower_limit"@.len() == 16 && "release_limits"@.len() == 14);
    assert("goto_upper_limit"@.len() == 16 && "steps"@.len() == 5);
    assert("goto_upper_limit"@.len() == 16 && "home"@.len() == 4);
    assert("goto_upper_limit"@.len() == 16 && "enable"@.len() == 6);
    assert("goto_upper_limit"@.len() == 16 && "disable"@.len() == 7);
    assert("goto_upper_limit"@.len() == 16 && "stop"@.len() == 4);
    assert("goto_upper_limit"@.len() == 16 && "set_lower_limit"@.len() == 15);
    assert("goto_upper_limit"@.len() == 16 && "set_upper_limit"@.len() == 15);
    assert("goto_upper_limit"@.len() == 16 && "release_limits"@.len() == 14);
    assert("goto_upper_limit"@[5] != "goto_lower_limit"@[5]);
}

/// The paths without parameters name their command, whatever the query:
/// `home`, `enable`, `disable`, `stop` and `release_limits`. Any path but
/// the ten command names gives no command.
pub proof fn lemma_plain_routes(path: Seq<char>, q: CommandQuery)
    ensures
        route_command("home"@, q) == Some(StageMotorCmd::Home),
        route_command("enable"@, q) == Some(StageMotorCmd::Enable),
        route_command("disable"@, q) == Some(StageMotorCmd::Disable),
        route_command("stop"@, q) == Some(StageMotorCmd::Stop),
        route_command("release_limits"@, q) == Some(StageMotorCmd::ReleaseLimits),
        route_command(path, q) is Some <== (path == "steps"@ || path == "home"@ || path == "enable"@
            || path == "disable"@ || path == "stop"@ || path == "set_lower_limit"@ || path
            == "set_upper_limit"@ || path == "release_limits"@ || path == "goto_lower_limit"@
            || path == "goto_upper_limit"@),
        route_command(path, q) is Some ==> (path == "steps"@ || path == "home"@ || path == "enable"@
            || path == "disable"@ || path == "stop"@ || path == "set_lower_limit"@ || path
            == "set_upper_limit"@ || path == "release_limits"@ || path == "goto_lower_limit"@
            || path == "goto_upper_limit"@),
{
    reveal_strlit("steps");
    reveal_strlit("home");
    reveal_strlit("enable");
    reveal_strlit("disable");
    reveal_strlit("stop");
    reveal_strlit("set_lower_limit");
    reveal_strlit("set_upper_limit");
    reveal_strlit("release_limits");
    reveal_strlit("goto_lower_limit");
    reveal_strlit("goto_upper_limit");
    assert("steps"@.len() == 5 && "home"@.len() == 4);
    assert("steps"@.len() == 5 && "enable"@.len() == 6);
    assert("steps"@.len() == 5 && "disable"@.len() == 7);
    assert("steps"@.len() == 5 && "stop"@.len() == 4);
    assert("steps"@.len() == 5 && "set_lower_limit"@.len() == 15);
    assert("steps"@.len() == 5 && "set_upper_limit"@.len() == 15);
    assert("steps"@.len() == 5 && "release_limits"@.len() == 14);
    assert("steps"@.len() == 5 && "goto_lower_limit"@.len() == 16);
    assert("steps"@.len() == 5 && "goto_upper_limit"@.len() == 16);
    assert("home"@.len() == 4 && "enable"@.len() == 6);
    assert("home"@.len() == 4 && "disable"@.len() == 7);
    assert("home"@[0] != "stop"@[0]);
    assert("home"@.len() == 4 && "set_lower_limit"@.len() == 15);
    assert("home"@.len() == 4 && "set_upper_limit"@.len() == 15);
    assert("home"@.len() == 4 && "release_limits"@.len() == 14);
    assert("home"@.len() == 4 && "goto_lower_limit"@.len() == 16);
    assert("home"@.len() == 4 && "goto_upper_limit"@.len() == 16);
    assert("enable"@.len() == 6 && "disable"@.len() == 7);
    assert("enable"@.len() == 6 && "stop"@.len() == 4);
    assert("enable"@.len() == 6 && "set_lower_limit"@.len() == 15);
    assert("enable"@.len() == 6 && "set_upper_limit"@.len() == 15);
    assert("enable"@.len() == 6 && "release_limits"@.len() == 14);
    assert("enable"@.len() == 6 && "goto_lower_limit"@.len() == 16);
    assert("enable"@.len() == 6 && "goto_upper_limit"@.len() == 16);
    assert("disable"@.len() == 7 && "stop"@.len() == 4);
    assert("disable"@.len() == 7 && "set_lower_limit"@.len() == 15);
    assert("disable"@.len() == 7 && "set_upper_limit"@.len() == 15);
    assert("disable"@.len() == 7 && "release_limits"@.len() == 14);
    assert("disable"@.len() == 7 && "goto_lower_limit"@.len() == 16);
    assert("disable"@.len() == 7 && "goto_upper_limit"@.len() == 16);
    assert("stop"@.len() == 4 && "set_lower_limit"@.len() == 15);
    assert("stop"@.len() == 4 && "set_upper_limit"@.len() == 15);
    assert("stop"@.len() == 4 && "release_limits"@.len() == 14);
    assert("stop"@.len() == 4 && "goto_lower_limit"@.len() == 16);
    assert("stop"@.len() == 4 && "goto_upper_limit"@.len() == 16);
    assert("set_lower_limit"@[4] != "set_upper_limit"@[4]);
    assert("set_lower_limit"@.len() == 15 && "release_limits"@.len() == 14);
    assert("set_lower_limit"@.len() == 15 && "goto_lower_limit"@.len() == 16);
    assert("set_lower_limit"@.len() == 15 && "goto_upper_limit"@.len() == 16);
    assert("set_upper_limit"@.len() == 15 && "release_limits"@.len() == 14);
    assert("set_upper_limit"@.len() == 15 && "goto_lower_limit"@.len() == 16);
    assert("set_upper_limit"@.len() == 15 && "goto_upper_limit"@.len() == 16);
    assert("release_limits"@.len() == 14 && "goto_lower_limit"@.len() == 16);
    assert("release_limits"@.len() == 14 && "goto_upper_limit"@.len() == 16);
    assert("goto_lower_limit"@[5] != "goto_upper_limit"@[5]);
}

} // verus!
