//! The host/device protocol: the commands a host sends to the microscope
//! controller board, the log levels it reports with, and the textual command
//! language typed by an operator (`Z[steps:100,1000]` and friends).
use vstd::prelude::*;

use crate::text::{
    all_digits, chars_of, find_char, first_index_of, has_prefix, int_text, is_digit, is_space,
    lemma_first_index, lemma_nat_text_digits, lemma_parse_int_text, lemma_trim_identity, nat_text,
    parse_i32_in, parse_i32_text, parse_signed, parse_u32_in, parse_u32_text, parse_unsigned,
    push_chars, push_int_text, push_nat_text, starts_with, string_from_chars, trim, trimmed_equals,
};

verus! {

/// Errors of the binary packet encoding.
#[derive(Debug, Clone, Copy, PartialEq, Eq, Structural)]
pub enum Error {
    BufferTooSmall,
    InvalidCommand,
}

/// Severity of a log message sent by the controller board.
#[derive(Debug, Clone, Copy, PartialEq, Eq, Structural)]
pub enum LogMessageLevel {
    Info,
    Warning,
    Error,
}

/// A command for the Z stage motor.
#[derive(Debug, Clone, Copy, PartialEq, Eq, Structural)]
pub enum StageMotorCmd {
    Enable,
    Disable,
    Home,
    MoveSteps { steps: i32, step_delay_us: u32 },
    Stop,
    SetLowerLimitToCurrent,
    SetUpperLimitToCurrent,
    SetLowerLimit(i32),
    SetUpperLimit(i32),
    ReleaseLimits,
    GoToLowerLimit { step_delay_us: u32 },
    GoToUpperLimit { step_delay_us: u32 },
    ReportPosition,
}

/// An event reported by the controller board; `StrType` is the type of its
/// log messages (a bounded string on the board, a `String` on the host).
#[derive(Debug)]
pub enum DeviceEvent<StrType> {
    InitSignature,
    LogMessage { level: LogMessageLevel, message: StrType },
    StageMotorPosition { position_steps: i32 },
}

/// A command from the host to the controller board.
#[derive(Debug, Clone, Copy, PartialEq, Eq, Structural)]
pub enum HostCommand {
    StageMotor(StageMotorCmd),
}

// ---------------------------------------------------------------------------
// Keywords of the textual command language.

pub open spec fn kw_enable() -> Seq<char> {
    seq!['e', 'n', 'a', 'b', 'l', 'e']
}

pub open spec fn kw_disable() -> Seq<char> {
    seq!['d', 'i', 's', 'a', 'b', 'l', 'e']
}

pub open spec fn kw_home() -> Seq<char> {
    seq!['h', 'o', 'm', 'e']
}

pub open spec fn kw_stop() -> Seq<char> {
    seq!['s', 't', 'o', 'p']
}

/// `set_lower_limit`, also the prefix of `set_lower_limit:<n>`.
pub open spec fn kw_set_lower() -> Seq<char> {
    seq!['s', 'e', 't', '_', 'l', 'o', 'w', 'e', 'r', '_', 'l', 'i', 'm', 'i', 't']
}

/// `set_upper_limit`, also the prefix of `set_upper_limit:<n>`.
pub open spec fn kw_set_upper() -> Seq<char> {
    seq!['s', 'e', 't', '_', 'u', 'p', 'p', 'e', 'r', '_', 'l', 'i', 'm', 'i', 't']
}

pub open spec fn kw_release() -> Seq<char> {
    seq!['r', 'e', 'l', 'e', 'a', 's', 'e', '_', 'l', 'i', 'm', 'i', 't', 's']
}

pub open spec fn kw_get_pos() -> Seq<char> {
    seq!['g', 'e', 't', '_', 'p', 'o', 's']
}

pub open spec fn kw_steps() -> Seq<char> {
    seq!['s', 't', 'e', 'p', 's', ':']
}

pub open spec fn kw_goto_lower() -> Seq<char> {
    seq!['g', 'o', 't', 'o', '_', 'l', 'o', 'w', 'e', 'r', '_', 'l', 'i', 'm', 'i', 't', ':']
}

pub open spec fn kw_goto_upper() -> Seq<char> {
    seq!['g', 'o', 't', 'o', '_', 'u', 'p', 'p', 'e', 'r', '_', 'l', 'i', 'm', 'i', 't', ':']
}

pub open spec fn kw_to_current() -> Seq<char> {
    seq!['_', 't', 'o', '_', 'c', 'u', 'r', 'r', 'e', 'n', 't']
}

pub open spec fn kw_report_position() -> Seq<char> {
    seq!['r', 'e', 'p', 'o', 'r', 't', '_', 'p', 'o', 's', 'i', 't', 'i', 'o', 'n']
}

// ---------------------------------------------------------------------------
// The grammar of a stage command, one rule per command form.

/// A bare keyword, surrounded by optional white space.
pub open spec fn spec_parse_word(s: Seq<char>, word: Seq<char>, cmd: StageMotorCmd) -> Option<
    StageMotorCmd,
> {
    if trim(s) == word {
        Some(cmd)
    } else {
        None
    }
}

/// `steps:<i32>,<u32>`, nothing around it.
pub open spec fn spec_parse_move_steps(s: Seq<char>) -> Option<StageMotorCmd> {
    if starts_with(s, kw_steps()) {
        let r = s.skip(6);
        match first_index_of(r, ',') {
            Some(k) => match (parse_i32_text(r.take(k)), parse_u32_text(r.skip(k + 1))) {
                (Some(a), Some(b)) => Some(StageMotorCmd::MoveSteps { steps: a, step_delay_us: b }),
                _ => None,
            },
            None => None,
        }
    } else {
        None
    }
}

/// `<keyword>:<i32>`, nothing around it.
pub open spec fn spec_parse_limit(s: Seq<char>, upper: bool) -> Option<StageMotorCmd> {
    let kw = if upper {
        kw_set_upper()
    } else {
        kw_set_lower()
    };
    if starts_with(s, kw.push(':')) {
        match parse_i32_text(s.skip(16)) {
            Some(v) => if upper {
                Some(StageMotorCmd::SetUpperLimit(v))
            } else {
                Some(StageMotorCmd::SetLowerLimit(v))
            },
            None => None,
        }
    } else {
        None
    }
}

/// `goto_<lower|upper>_limit:<u32>`, nothing around it.
pub open spec fn spec_parse_goto(s: Seq<char>, upper: bool) -> Option<StageMotorCmd> {
    let kw = if upper {
        kw_goto_upper()
    } else {
        kw_goto_lower()
    };
    if starts_with(s, kw) {
        match parse_u32_text(s.skip(17)) {
            Some(v) => if upper {
                Some(StageMotorCmd::GoToUpperLimit { step_delay_us: v })
            } else {
                Some(StageMotorCmd::GoToLowerLimit { step_delay_us: v })
            },
            None => None,
        }
    } else {
        None
    }
}

/// The stage command written by `s`: the rules are tried in this order and the
/// first that matches decides.
pub open spec fn spec_parse_stage_cmd(s: Seq<char>) -> Option<StageMotorCmd> {
    if spec_parse_move_steps(s) is Some {
        spec_parse_move_steps(s)
    } else if trim(s) == kw_stop() {
        Some(StageMotorCmd::Stop)
    } else if trim(s) == kw_release() {
        Some(StageMotorCmd::ReleaseLimits)
    } else if trim(s) == kw_set_lower() {
        Some(StageMotorCmd::SetLowerLimitToCurrent)
    } else if trim(s) == kw_set_upper() {
        Some(StageMotorCmd::SetUpperLimitToCurrent)
    } else if spec_parse_limit(s, true) is Some {
        spec_parse_limit(s, true)
    } else if spec_parse_limit(s, false) is Some {
        spec_parse_limit(s, false)
    } else if spec_parse_goto(s, false) is Some {
        spec_parse_goto(s, false)
    } else if spec_parse_goto(s, true) is Some {
        spec_parse_goto(s, true)
    } else if trim(s) == kw_enable() {
        Some(StageMotorCmd::Enable)
    } else if trim(s) == kw_disable() {
        Some(StageMotorCmd::Disable)
    } else if trim(s) == kw_home() {
        Some(StageMotorCmd::Home)
    } else if trim(s) == kw_get_pos() {
        Some(StageMotorCmd::ReportPosition)
    } else {
        None
    }
}

/// The text a stage command is printed as.
pub open spec fn stage_cmd_text(c: StageMotorCmd) -> Seq<char> {
    match c {
        StageMotorCmd::Enable => kw_enable(),
        StageMotorCmd::Disable => kw_disable(),
        StageMotorCmd::Home => kw_home(),
        StageMotorCmd::MoveSteps { steps, step_delay_us } => kw_steps() + int_text(steps as int)
            + seq![','] + nat_text(step_delay_us as nat),
        StageMotorCmd::Stop => kw_stop(),
        StageMotorCmd::SetLowerLimitToCurrent => kw_set_lower() + kw_to_current(),
        StageMotorCmd::SetUpperLimitToCurrent => kw_set_upper() + kw_to_current(),
        StageMotorCmd::SetLowerLimit(l) => kw_set_lower().push(':') + int_text(l as int),
        StageMotorCmd::SetUpperLimit(l) => kw_set_upper().push(':') + int_text(l as int),
        StageMotorCmd::ReleaseLimits => kw_release(),
        StageMotorCmd::GoToLowerLimit { step_delay_us } => kw_goto_lower() + nat_text(
            step_delay_us as nat,
        ),
        StageMotorCmd::GoToUpperLimit { step_delay_us } => kw_goto_upper() + nat_text(
            step_delay_us as nat,
        ),
        StageMotorCmd::ReportPosition => kw_report_position(),
    }
}

/// The text a host command is printed as: `Z[<stage command>]`.
pub open spec fn host_cmd_text(h: HostCommand) -> Seq<char> {
    match h {
        HostCommand::StageMotor(c) => seq!['Z', '['] + stage_cmd_text(c) + seq![']'],
    }
}

/// The host command written by `s`, or the message of the error reported for it.
pub open spec fn spec_parse_host_cmd(s: Seq<char>) -> Result<HostCommand, Seq<char>> {
    if s.len() >= 4 && s[0] == 'Z' && s[1] == '[' && s.last() == ']' && !s.subrange(
        2,
        s.len() - 1,
    ).contains('\n') {
        match spec_parse_stage_cmd(s.subrange(2, s.len() - 1)) {
            Some(c) => Ok(HostCommand::StageMotor(c)),
            None => Err("Invalid StageMotorCmd format"@),
        }
    } else {
        Err("Invalid command format"@)
    }
}

impl StageMotorCmd {
    pub fn parse_enable(s: &[char]) -> (r: Option<Self>)
        ensures
            r == spec_parse_word(s@, kw_enable(), StageMotorCmd::Enable),
    {
        if trimmed_equals(s, &['e', 'n', 'a', 'b', 'l', 'e']) {
            Some(StageMotorCmd::Enable)
        } else {
            None
        }
    }

    pub fn parse_disable(s: &[char]) -> (r: Option<Self>)
        ensures
            r == spec_parse_word(s@, kw_disable(), StageMotorCmd::Disable),
    {
        if trimmed_equals(s, &['d', 'i', 's', 'a', 'b', 'l', 'e']) {
            Some(StageMotorCmd::Disable)
        } else {
            None
        }
    }

    pub fn parse_home(s: &[char]) -> (r: Option<Self>)
        ensures
            r == spec_parse_word(s@, kw_home(), StageMotorCmd::Home),
    {
        if trimmed_equals(s, &['h', 'o', 'm', 'e']) {
            Some(StageMotorCmd::Home)
        } else {
            None
        }
    }

    pub fn parse_stop(s: &[char]) -> (r: Option<Self>)
        ensures
            r == spec_parse_word(s@, kw_stop(), StageMotorCmd::Stop),
    {
        if trimmed_equals(s, &['s', 't', 'o', 'p']) {
            Some(StageMotorCmd::Stop)
        } else {
            None
        }
    }

    pub fn parse_set_lower_limit_to_current(s: &[char]) -> (r: Option<Self>)
        ensures
            r == spec_parse_word(s@, kw_set_lower(), StageMotorCmd::SetLowerLimitToCurrent),
    {
        if trimmed_equals(
            s,
            &['s', 'e', 't', '_', 'l', 'o', 'w', 'e', 'r', '_', 'l', 'i', 'm', 'i', 't'],
        ) {
            Some(StageMotorCmd::SetLowerLimitToCurrent)
        } else {
            None
        }
    }

    pub fn parse_set_upper_limit_to_current(s: &[char]) -> (r: Option<Self>)
        ensures
            r == spec_parse_word(s@, kw_set_upper(), StageMotorCmd::SetUpperLimitToCurrent),
    {
        if trimmed_equals(
            s,
            &['s', 'e', 't', '_', 'u', 'p', 'p', 'e', 'r', '_', 'l', 'i', 'm', 'i', 't'],
        ) {
            Some(StageMotorCmd::SetUpperLimitToCurrent)
        } else {
            None
        }
    }

    pub fn parse_release_limits_to_current(s: &[char]) -> (r: Option<Self>)
        ensures
            r == spec_parse_word(s@, kw_release(), StageMotorCmd::ReleaseLimits),
    {
        if trimmed_equals(
            s,
            &['r', 'e', 'l', 'e', 'a', 's', 'e', '_', 'l', 'i', 'm', 'i', 't', 's'],
        ) {
            Some(StageMotorCmd::ReleaseLimits)
        } else {
            None
        }
    }

    pub fn parse_report_position(s: &[char]) -> (r: Option<Self>)
        ensures
            r == spec_parse_word(s@, kw_get_pos(), StageMotorCmd::ReportPosition),
    {
        if trimmed_equals(s, &['g', 'e', 't', '_', 'p', 'o', 's']) {
            Some(StageMotorCmd::ReportPosition)
        } else {
            None
        }
    }

    pub fn parse_move_steps(s: &[char]) -> (r: Option<Self>)
        ensures
            r == spec_parse_move_steps(s@),
    {
        if !has_prefix(s, &['s', 't', 'e', 'p', 's', ':']) {
            return None;
        }
        let ghost r = s@.skip(6);
        match find_char(s, 6, ',') {
            Some(k) => {
                proof {
                    assert(r.take(k - 6) == s@.subrange(6, k as int));
                    assert(r.skip(k - 6 + 1) == s@.subrange(k + 1, s@.len() as int));
                }
                let steps = parse_i32_in(s, 6, k);
                let delay = parse_u32_in(s, k + 1, s.len());
                match (steps, delay) {
                    (Some(steps), Some(step_delay_us)) => Some(
                        StageMotorCmd::MoveSteps { steps, step_delay_us },
                    ),
                    _ => None,
                }
            },
            None => None,
        }
    }

    pub fn parse_set_upper_limit(s: &[char]) -> (r: Option<Self>)
        ensures
            r == spec_parse_limit(s@, true),
    {
        if !has_prefix(
            s,
            &['s', 'e', 't', '_', 'u', 'p', 'p', 'e', 'r', '_', 'l', 'i', 'm', 'i', 't', ':'],
        ) {
            proof {
                assert(kw_set_upper().push(':') =~= seq![
                    's', 'e', 't', '_', 'u', 'p', 'p', 'e', 'r', '_', 'l', 'i', 'm', 'i', 't', ':'
                ]);
            }
            return None;
        }
        proof {
            assert(kw_set_upper().push(':') =~= seq![
                's', 'e', 't', '_', 'u', 'p', 'p', 'e', 'r', '_', 'l', 'i', 'm', 'i', 't', ':'
            ]);
            assert(s@.skip(16) == s@.subrange(16, s@.len() as int));
        }
        match parse_i32_in(s, 16, s.len()) {
            Some(v) => Some(StageMotorCmd::SetUpperLimit(v)),
            None => None,
        }
    }

    pub fn parse_set_lower_limit(s: &[char]) -> (r: Option<Self>)
        ensures
            r == spec_parse_limit(s@, false),
    {
        if !has_prefix(
            s,
            &['s', 'e', 't', '_', 'l', 'o', 'w', 'e', 'r', '_', 'l', 'i', 'm', 'i', 't', ':'],
        ) {
            proof {
                assert(kw_set_lower().push(':') =~= seq![
                    's', 'e', 't', '_', 'l', 'o', 'w', 'e', 'r', '_', 'l', 'i', 'm', 'i', 't', ':'
                ]);
            }
            return None;
        }
        proof {
            assert(kw_set_lower().push(':') =~= seq![
                's', 'e', 't', '_', 'l', 'o', 'w', 'e', 'r', '_', 'l', 'i', 'm', 'i', 't', ':'
            ]);
            assert(s@.skip(16) == s@.subrange(16, s@.len() as int));
        }
        match parse_i32_in(s, 16, s.len()) {
            Some(v) => Some(StageMotorCmd::SetLowerLimit(v)),
            None => None,
        }
    }

    pub fn parse_go_to_lower_limit(s: &[char]) -> (r: Option<Self>)
        ensures
            r == spec_parse_goto(s@, false),
    {
        if !has_prefix(
            s,
            &['g', 'o', 't', 'o', '_', 'l', 'o', 'w', 'e', 'r', '_', 'l', 'i', 'm', 'i', 't', ':'],
        ) {
            return None;
        }
        proof {
            assert(s@.skip(17) == s@.subrange(17, s@.len() as int));
        }
        match parse_u32_in(s, 17, s.len()) {
            Some(v) => Some(StageMotorCmd::GoToLowerLimit { step_delay_us: v }),
            None => None,
        }
    }

    pub fn parse_go_to_upper_limit(s: &[char]) -> (r: Option<Self>)
        ensures
            r == spec_parse_goto(s@, true),
    {
        if !has_prefix(
            s,
            &['g', 'o', 't', 'o', '_', 'u', 'p', 'p', 'e', 'r', '_', 'l', 'i', 'm', 'i', 't', ':'],
        ) {
            return None;
        }
        proof {
            assert(s@.skip(17) == s@.subrange(17, s@.len() as int));
        }
        match parse_u32_in(s, 17, s.len()) {
            Some(v) => Some(StageMotorCmd::GoToUpperLimit { step_delay_us: v }),
            None => None,
        }
    }

    /// The stage command written by the characters `s`, trying each command
    /// form in turn.
    pub fn parse_chars(s: &[char]) -> (r: Option<Self>)
        ensures
            r == spec_parse_stage_cmd(s@),
    {
        if let Some(cmd) = StageMotorCmd::parse_move_steps(s) {
            Some(cmd)
        } else if let Some(cmd) = StageMotorCmd::parse_stop(s) {
            Some(cmd)
        } else if let Some(cmd) = StageMotorCmd::parse_release_limits_to_current(s) {
            Some(cmd)
        } else if let Some(cmd) = StageMotorCmd::parse_set_lower_limit_to_current(s) {
            Some(cmd)
        } else if let Some(cmd) = StageMotorCmd::parse_set_upper_limit_to_current(s) {
            Some(cmd)
        } else if let Some(cmd) = StageMotorCmd::parse_set_upper_limit(s) {
            Some(cmd)
        } else if let Some(cmd) = StageMotorCmd::parse_set_lower_limit(s) {
            Some(cmd)
        } else if let Some(cmd) = StageMotorCmd::parse_go_to_lower_limit(s) {
            Some(cmd)
        } else if let Some(cmd) = StageMotorCmd::parse_go_to_upper_limit(s) {
            Some(cmd)
        } else if let Some(cmd) = StageMotorCmd::parse_enable(s) {
            Some(cmd)
        } else if let Some(cmd) = StageMotorCmd::parse_disable(s) {
            Some(cmd)
        } else if let Some(cmd) = StageMotorCmd::parse_home(s) {
            Some(cmd)
        } else if let Some(cmd) = StageMotorCmd::parse_report_position(s) {
            Some(cmd)
        } else {
            None
        }
    }

    /// Reads a stage command from its text; on failure the error is
    /// `Invalid StageMotorCmd format`.
    pub fn from_str(s: &str) -> (r: Result<Self, String>)
        ensures
            match spec_parse_stage_cmd(s@) {
                Some(c) => r == Ok::<StageMotorCmd, String>(c),
                None => r matches Err(e) && e@ == "Invalid StageMotorCmd format"@,
            },
    {
        let chars = chars_of(s);
        match StageMotorCmd::parse_chars(chars.as_slice()) {
            Some(c) => Ok(c),
            None => Err("Invalid StageMotorCmd format".to_owned()),
        }
    }

    /// Appends the text of this command.
    pub fn write_chars(&self, out: &mut Vec<char>)
        ensures
            final(out)@ == old(out)@ + stage_cmd_text(*self),
    {
        let ghost start = out@;
        match *self {
            StageMotorCmd::Enable => push_chars(out, &['e', 'n', 'a', 'b', 'l', 'e']),
            StageMotorCmd::Disable => push_chars(out, &['d', 'i', 's', 'a', 'b', 'l', 'e']),
            StageMotorCmd::Home => push_chars(out, &['h', 'o', 'm', 'e']),
            StageMotorCmd::MoveSteps { steps, step_delay_us } => {
                push_chars(out, &['s', 't', 'e', 'p', 's', ':']);
                push_int_text(out, steps as i64);
                out.push(',');
                push_nat_text(out, step_delay_us as u64);
                proof {
                    assert(out@ =~= start + stage_cmd_text(*self));
                }
            },
            StageMotorCmd::Stop => push_chars(out, &['s', 't', 'o', 'p']),
            StageMotorCmd::SetLowerLimitToCurrent => {
                push_chars(
                    out,
                    &[
                        's', 'e', 't', '_', 'l', 'o', 'w', 'e', 'r', '_', 'l', 'i', 'm', 'i', 't',
                        '_', 't', 'o', '_', 'c', 'u', 'r', 'r', 'e', 'n', 't',
                    ],
                );
                proof {
                    assert(out@ =~= start + stage_cmd_text(*self));
                }
            },
            StageMotorCmd::SetUpperLimitToCurrent => {
                push_chars(
                    out,
                    &[
                        's', 'e', 't', '_', 'u', 'p', 'p', 'e', 'r', '_', 'l', 'i', 'm', 'i', 't',
                        '_', 't', 'o', '_', 'c', 'u', 'r', 'r', 'e', 'n', 't',
                    ],
                );
                proof {
                    assert(out@ =~= start + stage_cmd_text(*self));
                }
            },
            StageMotorCmd::SetLowerLimit(l) => {
                push_chars(
                    out,
                    &['s', 'e', 't', '_', 'l', 'o', 'w', 'e', 'r', '_', 'l', 'i', 'm', 'i', 't', ':'],
                );
                push_int_text(out, l as i64);
                proof {
                    assert(out@ =~= start + stage_cmd_text(*self));
                }
            },
            StageMotorCmd::SetUpperLimit(l) => {
                push_chars(
                    out,
                    &['s', 'e', 't', '_', 'u', 'p', 'p', 'e', 'r', '_', 'l', 'i', 'm', 'i', 't', ':'],
                );
                push_int_text(out, l as i64);
                proof {
                    assert(out@ =~= start + stage_cmd_text(*self));
                }
            },
            StageMotorCmd::ReleaseLimits => push_chars(
                out,
                &['r', 'e', 'l', 'e', 'a', 's', 'e', '_', 'l', 'i', 'm', 'i', 't', 's'],
            ),
            StageMotorCmd::GoToLowerLimit { step_delay_us } => {
                push_chars(
                    out,
                    &['g', 'o', 't', 'o', '_', 'l', 'o', 'w', 'e', 'r', '_', 'l', 'i', 'm', 'i', 't', ':'],
                );
                push_nat_text(out, step_delay_us as u64);
            },
            StageMotorCmd::GoToUpperLimit { step_delay_us } => {
                push_chars(
                    out,
                    &['g', 'o', 't', 'o', '_', 'u', 'p', 'p', 'e', 'r', '_', 'l', 'i', 'm', 'i', 't', ':'],
                );
                push_nat_text(out, step_delay_us as u64);
            },
            StageMotorCmd::ReportPosition => push_chars(
                out,
                &['r', 'e', 'p', 'o', 'r', 't', '_', 'p', 'o', 's', 'i', 't', 'i', 'o', 'n'],
            ),
        }
    }

    /// The text of this command, as the operator console prints it.
    pub fn to_string(&self) -> (s: String)
        ensures
            s@ == stage_cmd_text(*self),
    {
        let mut v: Vec<char> = Vec::new();
        self.write_chars(&mut v);
        string_from_chars(&v)
    }
}


impl HostCommand {
    /// Reading a host command from raw bytes is not part of the protocol yet:
    /// no input is recognised.
    pub fn from_bytes(_data: &[u8]) -> (r: Option<Self>)
        ensures
            r is None,
    {
        None
    }

    /// Reads a host command from its text `Z[<stage command>]`.
    pub fn from_str(s: &str) -> (r: Result<Self, String>)
        ensures
            match spec_parse_host_cmd(s@) {
                Ok(h) => r == Ok::<HostCommand, String>(h),
                Err(m) => r matches Err(e) && e@ == m,
            },
    {
        let chars = chars_of(s);
        Self::from_chars(chars.as_slice())
    }

    /// Reads a host command from the characters of its text.
    pub fn from_chars(chars: &[char]) -> (r: Result<Self, String>)
        ensures
            match spec_parse_host_cmd(chars@) {
                Ok(h) => r == Ok::<HostCommand, String>(h),
                Err(m) => r matches Err(e) && e@ == m,
            },
    {
        let n = chars.len();
        if n >= 4 && chars[0] == 'Z' && chars[1] == '[' && chars[n - 1] == ']' {
            let inner = &chars[2..n - 1];
            proof {
                assert(inner@ == chars@.subrange(2, chars@.len() - 1));
            }
            match find_char(inner, 0, '\n') {
                Some(k) => {
                    proof {
                        assert(inner@.contains('\n'));
                    }
                    Err("Invalid command format".to_owned())
                },
                None => {
                    proof {
                        assert(inner@.skip(0) == inner@);
                        if inner@.contains('\n') {
                            let w = choose|w: int| 0 <= w < inner@.len() && inner@[w] == '\n';
                            let t = inner@;
                            let k = choose|k: int|
                                0 <= k <= w && t[k] == '\n' && forall|m: int|
                                    0 <= m < k ==> t[m] != '\n';
                            lemma_exists_first(t, '\n', w);
                        }
                    }
                    match StageMotorCmd::parse_chars(inner) {
                        Some(c) => Ok(HostCommand::StageMotor(c)),
                        None => Err("Invalid StageMotorCmd format".to_owned()),
                    }
                },
            }
        } else {
            Err("Invalid command format".to_owned())
        }
    }

    /// The text of this command, as the operator console prints it.
    pub fn to_string(&self) -> (s: String)
        ensures
            s@ == host_cmd_text(*self),
    {
        let mut v: Vec<char> = Vec::new();
        match *self {
            HostCommand::StageMotor(c) => {
                v.push('Z');
                v.push('[');
                c.write_chars(&mut v);
                v.push(']');
                proof {
                    assert(v@ =~= host_cmd_text(*self));
                }
            },
        }
        string_from_chars(&v)
    }
}

proof fn lemma_exists_first(t: Seq<char>, c: char, w: int)
    requires
        0 <= w < t.len(),
        t[w] == c,
    ensures
        first_index_of(t, c) is Some,
    decreases w,
{
    if exists|m: int| 0 <= m < w && t[m] == c {
        let m = choose|m: int| 0 <= m < w && t[m] == c;
        lemma_exists_first(t, c, m);
    } else {
        lemma_first_index(t, c, w);
    }
}

/// The text of a decimal number never holds a character that is white space,
/// a `,`, or a new line, and it is not empty.
proof fn lemma_int_text_chars(x: int)
    ensures
        int_text(x).len() > 0,
        forall|i: int|
            0 <= i < int_text(x).len() ==> (is_digit(#[trigger] int_text(x)[i]) || (i == 0
                && int_text(x)[i] == '-')),
        is_digit(int_text(x).last()),
{
    if x < 0 {
        lemma_nat_text_digits((-x) as nat);
        let t = int_text(x);
        assert forall|i: int| 0 <= i < t.len() implies (is_digit(#[trigger] t[i]) || (i == 0
            && t[i] == '-')) by {
            if i > 0 {
                assert(t[i] == nat_text((-x) as nat)[i - 1]);
            }
        }
        assert(t.last() == nat_text((-x) as nat).last());
    } else {
        lemma_nat_text_digits(x as nat);
    }
}

/// Every stage command but three is read back from its own text. The three
/// exceptions print as `set_lower_limit_to_current`, `set_upper_limit_to_current`
/// and `report_position`, which the grammar does not accept.
pub proof fn lemma_stage_cmd_text_roundtrip(c: StageMotorCmd)
    requires
        c != StageMotorCmd::SetLowerLimitToCurrent,
        c != StageMotorCmd::SetUpperLimitToCurrent,
        c != StageMotorCmd::ReportPosition,
    ensures
        spec_parse_stage_cmd(stage_cmd_text(c)) == Some(c),
{
    let s = stage_cmd_text(c);
    match c {
        StageMotorCmd::MoveSteps { steps, step_delay_us } => {
            let a = int_text(steps as int);
            let b = nat_text(step_delay_us as nat);
            lemma_int_text_chars(steps as int);
            lemma_nat_text_digits(step_delay_us as nat);
            assert(s.take(6) =~= kw_steps());
            let r = s.skip(6);
            assert(r =~= a + seq![','] + b);
            assert forall|m: int| 0 <= m < a.len() implies r[m] != ',' by {
                assert(r[m] == a[m]);
                assert(is_digit(a[m]) || a[m] == '-');
            }
            assert(r[a.len() as int] == ',');
            lemma_first_index(r, ',', a.len() as int);
            assert(r.take(a.len() as int) =~= a);
            assert(r.skip(a.len() as int + 1) =~= b);
            lemma_parse_int_text(steps as int);
            lemma_parse_nat_text_u(step_delay_us as nat);
        },
        StageMotorCmd::SetLowerLimit(l) | StageMotorCmd::SetUpperLimit(l) => {
            let a = int_text(l as int);
            lemma_int_text_chars(l as int);
            lemma_parse_int_text(l as int);
            assert(s[1] == 'e');
            assert(s.len() >= 17);
            assert(s.last() == a.last());
            lemma_trim_identity(s);
            assert(s.skip(16) =~= a);
            if c is SetLowerLimit {
                assert(s[4] == 'l');
                assert(s.take(16) =~= kw_set_lower().push(':'));
            } else {
                assert(s.take(16) =~= kw_set_upper().push(':'));
            }
        },
        StageMotorCmd::GoToLowerLimit { step_delay_us } | StageMotorCmd::GoToUpperLimit {
            step_delay_us,
        } => {
            let b = nat_text(step_delay_us as nat);
            lemma_nat_text_digits(step_delay_us as nat);
            lemma_parse_nat_text_u(step_delay_us as nat);
            assert(s[0] == 'g');
            assert(s.len() >= 18);
            assert(s.last() == b.last());
            lemma_trim_identity(s);
            assert(s.skip(17) =~= b);
            if c is GoToLowerLimit {
                assert(s[5] == 'l');
                assert(s.take(17) =~= kw_goto_lower());
            } else {
                assert(s[5] == 'u');
                assert(s.take(17) =~= kw_goto_upper());
            }
        },
        _ => {
            lemma_trim_identity(s);
            assert(s.len() < 16);
            if c is Stop || c is Home {
                assert(s.len() == 4);
                assert(s[0] != kw_steps()[0] || s.len() < 6);
            } else {
                assert(s[0] != 's');
            }
        },
    }
}

proof fn lemma_parse_nat_text_u(n: nat)
    requires
        n <= u32::MAX,
    ensures
        parse_u32_text(nat_text(n)) == Some(n as u32),
{
    lemma_nat_text_digits(n);
}

/// Every host command but the three whose stage command text is not accepted
/// (see `lemma_stage_cmd_text_roundtrip`) is read back from its own text.
pub proof fn lemma_host_cmd_text_roundtrip(h: HostCommand)
    requires
        h != HostCommand::StageMotor(StageMotorCmd::SetLowerLimitToCurrent),
        h != HostCommand::StageMotor(StageMotorCmd::SetUpperLimitToCurrent),
        h != HostCommand::StageMotor(StageMotorCmd::ReportPosition),
    ensures
        spec_parse_host_cmd(host_cmd_text(h)) == Ok::<HostCommand, Seq<char>>(h),
{
    match h {
        HostCommand::StageMotor(c) => {
            let s = host_cmd_text(h);
            let t = stage_cmd_text(c);
            lemma_stage_cmd_text_roundtrip(c);
            lemma_stage_cmd_text_no_newline(c);
            assert(s.subrange(2, s.len() - 1) =~= t);
        },
    }
}

proof fn lemma_stage_cmd_text_no_newline(c: StageMotorCmd)
    ensures
        !stage_cmd_text(c).contains('\n'),
        stage_cmd_text(c).len() > 0,
{
    let s = stage_cmd_text(c);
    match c {
        StageMotorCmd::MoveSteps { steps, step_delay_us } => {
            lemma_int_text_chars(steps as int);
            lemma_nat_text_digits(step_delay_us as nat);
            let a = int_text(steps as int);
            let b = nat_text(step_delay_us as nat);
            assert forall|i: int| 0 <= i < s.len() implies s[i] != '\n' by {
                if 6 <= i < 6 + a.len() {
                    assert(s[i] == a[i - 6]);
                } else if i > 6 + a.len() {
                    assert(s[i] == b[i - 7 - a.len()]);
                }
            }
        },
        StageMotorCmd::SetLowerLimit(l) | StageMotorCmd::SetUpperLimit(l) => {
            lemma_int_text_chars(l as int);
            let a = int_text(l as int);
            assert forall|i: int| 0 <= i < s.len() implies s[i] != '\n' by {
                if i >= 16 {
                    assert(s[i] == a[i - 16]);
                }
            }
        },
        StageMotorCmd::GoToLowerLimit { step_delay_us } | StageMotorCmd::GoToUpperLimit {
            step_delay_us,
        } => {
            lemma_nat_text_digits(step_delay_us as nat);
            let b = nat_text(step_delay_us as nat);
            assert forall|i: int| 0 <= i < s.len() implies s[i] != '\n' by {
                if i >= 17 {
                    assert(s[i] == b[i - 17]);
                }
            }
        },
        _ => {
            assert forall|i: int| 0 <= i < s.len() implies s[i] != '\n' by {
            }
        },
    }
}

/// The texts of the three commands the grammar does not read back differ
/// from the text of every other command.
proof fn lemma_unread_text_unique(c1: StageMotorCmd, c2: StageMotorCmd)
    requires
        c1 == StageMotorCmd::SetLowerLimitToCurrent || c1 == StageMotorCmd::SetUpperLimitToCurrent
            || c1 == StageMotorCmd::ReportPosition,
        stage_cmd_text(c1) == stage_cmd_text(c2),
    ensures
        c1 == c2,
{
    let s = stage_cmd_text(c1);
    let t = stage_cmd_text(c2);
    assert(s.len() == t.len());
    assert(s[0] == t[0]);
    assert(s[1] == t[1]);
    assert(s[1] == 'e');
    assert(c1 != StageMotorCmd::ReportPosition ==> s[15] == '_' && s.len() == 26);
    assert(c1 == StageMotorCmd::ReportPosition ==> s[0] == 'r' && s.len() == 15);
    match c2 {
        StageMotorCmd::MoveSteps { steps, step_delay_us } => {
            assert(t[1] == 't');
        },
        StageMotorCmd::SetLowerLimit(l) | StageMotorCmd::SetUpperLimit(l) => {
            assert(t[0] == 's');
            assert(t[15] == ':');
            assert(s[15] == t[15]);
        },
        StageMotorCmd::GoToLowerLimit { .. } | StageMotorCmd::GoToUpperLimit { .. } => {
            assert(t[0] == 'g');
        },
        StageMotorCmd::SetLowerLimitToCurrent | StageMotorCmd::SetUpperLimitToCurrent => {
            assert(t.len() == 26);
            assert(s[4] == t[4]);
            assert(c2 is SetLowerLimitToCurrent <==> t[4] == 'l');
            assert(c1 is SetLowerLimitToCurrent <==> s[4] == 'l');
        },
        StageMotorCmd::ReportPosition => {
            assert(t.len() == 15);
        },
        _ => {
            assert(t.len() < 15);
        },
    }
}

/// Printing tells stage commands apart: two commands with the same text are
/// the same command.
pub proof fn lemma_stage_cmd_text_injective(c1: StageMotorCmd, c2: StageMotorCmd)
    requires
        stage_cmd_text(c1) == stage_cmd_text(c2),
    ensures
        c1 == c2,
{
    let unread1 = c1 == StageMotorCmd::SetLowerLimitToCurrent || c1
        == StageMotorCmd::SetUpperLimitToCurrent || c1 == StageMotorCmd::ReportPosition;
    let unread2 = c2 == StageMotorCmd::SetLowerLimitToCurrent || c2
        == StageMotorCmd::SetUpperLimitToCurrent || c2 == StageMotorCmd::ReportPosition;
    if unread1 {
        lemma_unread_text_unique(c1, c2);
    } else if unread2 {
        lemma_unread_text_unique(c2, c1);
    } else {
        lemma_stage_cmd_text_roundtrip(c1);
        lemma_stage_cmd_text_roundtrip(c2);
    }
}

/// Printing tells host commands apart too.
pub proof fn lemma_host_cmd_text_injective(h1: HostCommand, h2: HostCommand)
    requires
        host_cmd_text(h1) == host_cmd_text(h2),
    ensures
        h1 == h2,
{
    let HostCommand::StageMotor(c1) = h1;
    let HostCommand::StageMotor(c2) = h2;
    let a = host_cmd_text(h1);
    let t1 = stage_cmd_text(c1);
    let t2 = stage_cmd_text(c2);
    assert(a.len() == t1.len() + 3);
    assert(t1.len() == t2.len());
    assert(t1 =~= a.subrange(2, a.len() - 1));
    assert(t2 =~= host_cmd_text(h2).subrange(2, a.len() - 1));
    lemma_stage_cmd_text_injective(c1, c2);
}

} // verus!
