//! The operator console: a one-line command editor with a cursor and a
//! history of submitted commands, the key bindings of its two modes, and the
//! reaction to each console event.
use vstd::prelude::*;

use crate::command::{DeviceEvent, HostCommand, LogMessageLevel, host_cmd_text, spec_parse_host_cmd};
use crate::text::{chars_of, padded_text, push_chars, push_padded_text, string_from_chars, utf8_len};

verus! {

/// Monitor mode shows the traffic; command mode edits a command.
#[derive(Debug, Clone, Copy, PartialEq, Eq, Structural)]
pub enum InputMode {
    Monitor,
    Command,
}

/// An entry of the console's message list.
#[derive(Debug)]
pub enum Message {
    HostCommand(HostCommand),
    DeviceEvent(DeviceEvent<String>),
    HostLog { level: LogMessageLevel, message: String },
}

/// What happens in the console.
#[derive(Debug)]
pub enum AppEvent {
    Exit,
    SetInputMode(InputMode),
    SubmitCommand,
    DisplayMessage(Message),
    EnterChar(char),
    DeleteChar,
    MoveCursorLeft,
    MoveCursorRight,
    ScrollUpHistory,
    ScrollDownHistory,
}

/// A key of the keyboard, as far as the console tells keys apart.
#[derive(Debug, Clone, Copy, PartialEq, Eq, Structural)]
pub enum Key {
    Char(char),
    Enter,
    Backspace,
    Left,
    Right,
    Up,
    Down,
    Esc,
    Other,
}

/// The smaller of two numbers.
pub open spec fn min_nat(a: nat, b: nat) -> nat {
    if a <= b {
        a
    } else {
        b
    }
}

/// The cursor one character to the left, kept within a line of `len`
/// characters.
pub open spec fn spec_left(ci: nat, len: nat) -> nat {
    min_nat((if ci == 0 { 0 } else { ci - 1 }) as nat, len)
}

/// The cursor one character to the right (the count saturates at the
/// largest `usize`), kept within a line of `len` characters.
pub open spec fn spec_right(ci: nat, len: nat) -> nat {
    min_nat((if ci >= usize::MAX { usize::MAX as nat } else { ci + 1 }), len)
}

/// The text and cursor after typing `c` at cursor `ci` (a cursor past the
/// end types at the end).
pub open spec fn spec_enter(s: Seq<char>, ci: nat, c: char) -> (Seq<char>, nat) {
    let p = min_nat(ci, s.len());
    let t = s.take(p as int).push(c) + s.skip(p as int);
    (t, min_nat(ci + 1, t.len()))
}

/// The text and cursor after deleting the character before cursor `ci`.
pub open spec fn spec_delete(s: Seq<char>, ci: nat) -> (Seq<char>, nat) {
    if ci == 0 {
        (s, ci)
    } else {
        let t = s.take(min_nat((ci - 1) as nat, s.len()) as int) + s.skip(
            min_nat(ci, s.len()) as int,
        );
        (t, min_nat((ci - 1) as nat, t.len()))
    }
}

/// The console's state.
pub struct App {
    history_cursor: usize,
    input_history: Vec<Vec<char>>,
    input: Vec<char>,
    character_index: usize,
    input_mode: InputMode,
    messages: Vec<Message>,
}

/// What the console loop does after an event.
#[derive(Debug)]
pub struct EventOutcome {
    /// Leave the console.
    pub exit: bool,
    /// A command to send to the board.
    pub command: Option<HostCommand>,
    /// Draw the screen again.
    pub redraw: bool,
}

fn copy_chars(s: &Vec<char>) -> (t: Vec<char>)
    ensures
        t@ == s@,
{
    let mut t: Vec<char> = Vec::new();
    push_chars(&mut t, s.as_slice());
    t
}

impl App {
    /// The text being edited.
    pub closed spec fn input(&self) -> Seq<char> {
        self.input@
    }

    /// The cursor, as a character position.
    pub closed spec fn cursor(&self) -> nat {
        self.character_index as nat
    }

    /// The submitted commands, oldest first.
    pub closed spec fn history(&self) -> Seq<Seq<char>> {
        self.input_history@.map_values(|v: Vec<char>| v@)
    }

    /// The position in the history shown by scrolling; the length of the
    /// history means "past the newest entry".
    pub closed spec fn history_position(&self) -> nat {
        self.history_cursor as nat
    }

    pub closed spec fn mode(&self) -> InputMode {
        self.input_mode
    }

    /// The messages shown by the console, oldest first.
    pub closed spec fn message_list(&self) -> Seq<Message> {
        self.messages@
    }

    /// The history position stays within the history.
    pub closed spec fn wf(&self) -> bool {
        self.history_cursor <= self.input_history@.len()
    }

    /// An empty console in monitor mode.
    pub fn new() -> (app: App)
        ensures
            app.wf(),
            app.input() == Seq::<char>::empty(),
            app.cursor() == 0,
            app.history() == Seq::<Seq<char>>::empty(),
            app.history_position() == 0,
            app.mode() == InputMode::Monitor,
            app.message_list() == Seq::<Message>::empty(),
    {
        let app = App {
            history_cursor: 0,
            input_history: Vec::new(),
            input: Vec::new(),
            input_mode: InputMode::Monitor,
            messages: Vec::new(),
            character_index: 0,
        };
        proof {
            assert(app.history() =~= Seq::<Seq<char>>::empty());
        }
        app
    }

    /// The text being edited.
    pub fn input_text(&self) -> (s: String)
        ensures
            s@ == self.input(),
    {
        string_from_chars(&self.input)
    }

    /// The cursor, as a character position.
    pub fn character_index(&self) -> (i: usize)
        ensures
            i == self.cursor(),
    {
        self.character_index
    }

    pub fn input_mode(&self) -> (m: InputMode)
        ensures
            m == self.mode(),
    {
        self.input_mode
    }

    /// The messages shown by the console, oldest first.
    pub fn messages(&self) -> (m: &Vec<Message>)
        ensures
            m@ == self.message_list(),
    {
        &self.messages
    }

    /// `new_cursor_pos` limited to the text's length.
    pub fn clamp_cursor(&self, new_cursor_pos: usize) -> (r: usize)
        ensures
            r == min_nat(new_cursor_pos as nat, self.input().len()),
    {
        if new_cursor_pos <= self.input.len() {
            new_cursor_pos
        } else {
            self.input.len()
        }
    }

    pub fn move_cursor_left(&mut self)
        ensures
            final(self).cursor() == spec_left(old(self).cursor(), old(self).input().len()),
            final(self).input() == old(self).input(),
            final(self).history() == old(self).history(),
            final(self).history_position() == old(self).history_position(),
            final(self).mode() == old(self).mode(),
            final(self).message_list() == old(self).message_list(),
            final(self).wf() == old(self).wf(),
    {
        let cursor_moved_left = self.character_index.saturating_sub(1);
        self.character_index = self.clamp_cursor(cursor_moved_left);
    }

    pub fn move_cursor_right(&mut self)
        ensures
            final(self).cursor() == spec_right(old(self).cursor(), old(self).input().len()),
            final(self).input() == old(self).input(),
            final(self).history() == old(self).history(),
            final(self).history_position() == old(self).history_position(),
            final(self).mode() == old(self).mode(),
            final(self).message_list() == old(self).message_list(),
            final(self).wf() == old(self).wf(),
    {
        let cursor_moved_right = self.character_index.saturating_add(1);
        self.character_index = self.clamp_cursor(cursor_moved_right);
    }

    /// The byte offset in the UTF-8 text of the character at the cursor (the
    /// text's byte length when the cursor is past the end).
    pub fn byte_index(&self) -> (b: usize)
        requires
            utf8_len(self.input()) <= usize::MAX,
        ensures
            b == utf8_len(self.input().take(min_nat(self.cursor(), self.input().len()) as int)),
    {
        let n = if self.character_index <= self.input.len() {
            self.character_index
        } else {
            self.input.len()
        };
        let mut b: usize = 0;
        let mut i: usize = 0;
        proof {
            assert(self.input@.take(0).len() == 0);
        }
        while i < n
            invariant
                n <= self.input.len(),
                i <= n,
                b == utf8_len(self.input@.take(i as int)),
                utf8_len(self.input@) <= usize::MAX,
            decreases n - i,
        {
            let c = self.input[i];
            let u = c as u32;
            let w: usize = if u < 0x80 {
                1
            } else if u < 0x800 {
                2
            } else if u < 0x10000 {
                3
            } else {
                4
            };
            proof {
                let t = self.input@.take(i + 1);
                assert(t.drop_last() == self.input@.take(i as int));
                assert(t.last() == c);
                lemma_utf8_len_prefix(self.input@, i + 1);
            }
            b = b + w;
            i = i + 1;
        }
        b
    }

    /// Types `new_char` at the cursor and moves the cursor after it.
    pub fn enter_char(&mut self, new_char: char)
        ensures
            (final(self).input(), final(self).cursor()) == spec_enter(
                old(self).input(),
                old(self).cursor(),
                new_char,
            ),
            final(self).history() == old(self).history(),
            final(self).history_position() == old(self).history_position(),
            final(self).mode() == old(self).mode(),
            final(self).message_list() == old(self).message_list(),
            final(self).wf() == old(self).wf(),
    {
        let index = if self.character_index <= self.input.len() {
            self.character_index
        } else {
            self.input.len()
        };
        self.input.insert(index, new_char);
        proof {
            assert(self.input@ =~= old(self).input@.take(index as int).push(new_char) + old(
                self,
            ).input@.skip(index as int));
        }
        let ghost before = self.character_index;
        let new_len = self.input.len();
        self.move_cursor_right();
        proof {
            assert(self.input@.len() == new_len);
            assert(self.cursor() == min_nat(before as nat + 1, self.input@.len()));
        }
    }

    /// Deletes the character before the cursor and moves the cursor back.
    pub fn delete_char(&mut self)
        ensures
            (final(self).input(), final(self).cursor()) == spec_delete(
                old(self).input(),
                old(self).cursor(),
            ),
            final(self).history() == old(self).history(),
            final(self).history_position() == old(self).history_position(),
            final(self).mode() == old(self).mode(),
            final(self).message_list() == old(self).message_list(),
            final(self).wf() == old(self).wf(),
    {
        let is_not_cursor_leftmost = self.character_index != 0;
        if is_not_cursor_leftmost {
            let current_index = self.character_index;
            let from_left_to_current_index = current_index - 1;
            let len = self.input.len();
            let keep_before = if from_left_to_current_index <= len {
                from_left_to_current_index
            } else {
                len
            };
            let skip_to = if current_index <= len {
                current_index
            } else {
                len
            };
            let mut t: Vec<char> = Vec::new();
            push_chars(&mut t, &self.input.as_slice()[0..keep_before]);
            push_chars(&mut t, &self.input.as_slice()[skip_to..len]);
            proof {
                assert(t@ =~= old(self).input@.take(keep_before as int) + old(self).input@.skip(
                    skip_to as int,
                ));
            }
            self.input = t;
            let cursor_moved_left = self.character_index.saturating_sub(1);
            self.character_index = self.clamp_cursor(cursor_moved_left);
        }
    }

    pub fn reset_cursor(&mut self)
        ensures
            final(self).cursor() == 0,
            final(self).input() == old(self).input(),
            final(self).history() == old(self).history(),
            final(self).history_position() == old(self).history_position(),
            final(self).mode() == old(self).mode(),
            final(self).message_list() == old(self).message_list(),
            final(self).wf() == old(self).wf(),
    {
        self.character_index = 0;
    }

    /// Adds a message to the list and clears the line.
    pub fn submit_message(&mut self, message: Message)
        ensures
            final(self).message_list() == old(self).message_list().push(message),
            final(self).input() == Seq::<char>::empty(),
            final(self).cursor() == 0,
            final(self).history() == old(self).history(),
            final(self).history_position() == old(self).history_position(),
            final(self).mode() == old(self).mode(),
            final(self).wf() == old(self).wf(),
    {
        self.messages.push(message);
        self.input = Vec::new();
        self.reset_cursor();
    }

    /// Reacts to one console event: edits the line, scrolls the history,
    /// records messages, and says whether to leave, what command to send to
    /// the board and whether to draw the screen again.
    pub fn on_event(&mut self, event: AppEvent) -> (out: EventOutcome)
        requires
            old(self).wf(),
        ensures
            final(self).wf(),
            event_effect(*old(self), event, *final(self), out),
    {
        match event {
            AppEvent::Exit => EventOutcome { exit: true, command: None, redraw: false },
            AppEvent::SetInputMode(mode) => {
                self.input_mode = mode;
                EventOutcome { exit: false, command: None, redraw: true }
            },
            AppEvent::SubmitCommand => {
                match HostCommand::from_chars(self.input.as_slice()) {
                    Err(e) => {
                        let mut text = chars_of("Failed to parse command: ");
                        let reason = chars_of(e.as_str());
                        push_chars(&mut text, reason.as_slice());
                        let message = string_from_chars(&text);
                        self.messages.push(
                            Message::HostLog { level: LogMessageLevel::Error, message: message },
                        );
                        proof {
                            assert(self.message_list().drop_last() =~= old(self).message_list());
                        }
                        EventOutcome { exit: false, command: None, redraw: true }
                    },
                    Ok(packet) => {
                        let line = copy_chars(&self.input);
                        self.input_history.push(line);
                        self.history_cursor = self.input_history.len();
                        proof {
                            assert(self.history() =~= old(self).history().push(old(self).input()));
                        }
                        self.submit_message(Message::HostCommand(packet));
                        EventOutcome { exit: false, command: Some(packet), redraw: true }
                    },
                }
            },
            AppEvent::DisplayMessage(msg) => {
                self.messages.push(msg);
                EventOutcome { exit: false, command: None, redraw: true }
            },
            AppEvent::EnterChar(c) => {
                self.enter_char(c);
                EventOutcome { exit: false, command: None, redraw: true }
            },
            AppEvent::DeleteChar => {
                self.delete_char();
                EventOutcome { exit: false, command: None, redraw: true }
            },
            AppEvent::MoveCursorLeft => {
                self.move_cursor_left();
                EventOutcome { exit: false, command: None, redraw: true }
            },
            AppEvent::MoveCursorRight => {
                self.move_cursor_right();
                EventOutcome { exit: false, command: None, redraw: true }
            },
            AppEvent::ScrollUpHistory => {
                if self.history_cursor == 0 {
                    return EventOutcome { exit: false, command: None, redraw: false };
                }
                self.history_cursor = self.history_cursor - 1;
                self.input = copy_chars(&self.input_history[self.history_cursor]);
                EventOutcome { exit: false, command: None, redraw: true }
            },
            AppEvent::ScrollDownHistory => {
                let len = self.input_history.len();
                self.history_cursor = if self.history_cursor < len {
                    self.history_cursor + 1
                } else {
                    len
                };
                if self.history_cursor == len {
                    self.input = Vec::new();
                } else {
                    self.input = copy_chars(&self.input_history[self.history_cursor]);
                }
                EventOutcome { exit: false, command: None, redraw: true }
            },
        }
    }
}

/// What the key reader does with one key.
#[derive(Debug)]
pub struct KeyAction {
    /// The event handed to the console, if any.
    pub event: Option<AppEvent>,
    /// The key reader's mode after the key.
    pub mode: InputMode,
    /// The key reader stops reading keys.
    pub stop: bool,
}

/// The key bindings. In monitor mode `s` switches to command mode and `q`
/// leaves; in command mode only key presses count: Enter submits, a character
/// is typed, Backspace deletes, the arrows move the cursor or scroll the
/// history, and Esc returns to monitor mode.
pub fn on_key(mode: InputMode, key: Key, press: bool) -> (r: KeyAction)
    ensures
        match mode {
            InputMode::Monitor => match key {
                Key::Char(c) => if c == 's' {
                    &&& r.event == Some(AppEvent::SetInputMode(InputMode::Command))
                    &&& r.mode == InputMode::Command
                    &&& !r.stop
                } else if c == 'q' {
                    &&& r.event == Some(AppEvent::Exit)
                    &&& r.mode == InputMode::Monitor
                    &&& r.stop
                } else {
                    r.event is None && r.mode == InputMode::Monitor && !r.stop
                },
                _ => r.event is None && r.mode == InputMode::Monitor && !r.stop,
            },
            InputMode::Command => {
                &&& !r.stop
                &&& r.mode == (if press && key == Key::Esc {
                    InputMode::Monitor
                } else {
                    InputMode::Command
                })
                &&& r.event == (if !press {
                    None
                } else {
                    match key {
                        Key::Enter => Some(AppEvent::SubmitCommand),
                        Key::Char(c) => Some(AppEvent::EnterChar(c)),
                        Key::Backspace => Some(AppEvent::DeleteChar),
                        Key::Left => Some(AppEvent::MoveCursorLeft),
                        Key::Right => Some(AppEvent::MoveCursorRight),
                        Key::Up => Some(AppEvent::ScrollUpHistory),
                        Key::Down => Some(AppEvent::ScrollDownHistory),
                        Key::Esc => Some(AppEvent::SetInputMode(InputMode::Monitor)),
                        Key::Other => None,
                    }
                })
            },
        },
{
    match mode {
        InputMode::Monitor => match key {
            Key::Char(c) => {
                if c == 's' {
                    KeyAction {
                        event: Some(AppEvent::SetInputMode(InputMode::Command)),
                        mode: InputMode::Command,
                        stop: false,
                    }
                } else if c == 'q' {
                    KeyAction { event: Some(AppEvent::Exit), mode: InputMode::Monitor, stop: true }
                } else {
                    KeyAction { event: None, mode: InputMode::Monitor, stop: false }
                }
            },
            _ => KeyAction { event: None, mode: InputMode::Monitor, stop: false },
        },
        InputMode::Command => {
            if !press {
                return KeyAction { event: None, mode: InputMode::Command, stop: false };
            }
            match key {
                Key::Enter => KeyAction {
                    event: Some(AppEvent::SubmitCommand),
                    mode: InputMode::Command,
                    stop: false,
                },
                Key::Char(c) => KeyAction {
                    event: Some(AppEvent::EnterChar(c)),
                    mode: InputMode::Command,
                    stop: false,
                },
                Key::Backspace => KeyAction {
                    event: Some(AppEvent::DeleteChar),
                    mode: InputMode::Command,
                    stop: false,
                },
                Key::Left => KeyAction {
                    event: Some(AppEvent::MoveCursorLeft),
                    mode: InputMode::Command,
                    stop: false,
                },
                Key::Right => KeyAction {
                    event: Some(AppEvent::MoveCursorRight),
                    mode: InputMode::Command,
                    stop: false,
                },
                Key::Up => KeyAction {
                    event: Some(AppEvent::ScrollUpHistory),
                    mode: InputMode::Command,
                    stop: false,
                },
                Key::Down => KeyAction {
                    event: Some(AppEvent::ScrollDownHistory),
                    mode: InputMode::Command,
                    stop: false,
                },
                Key::Esc => KeyAction {
                    event: Some(AppEvent::SetInputMode(InputMode::Monitor)),
                    mode: InputMode::Monitor,
                    stop: false,
                },
                Key::Other => KeyAction { event: None, mode: InputMode::Command, stop: false },
            }
        },
    }
}

/// The history, the mode and the messages are the same in `a` and `b`.
pub open spec fn same_but_line(a: App, b: App) -> bool {
    &&& b.history() == a.history()
    &&& b.history_position() == a.history_position()
    &&& b.mode() == a.mode()
    &&& b.message_list() == a.message_list()
}

/// The line and its cursor are the same in `a` and `b`.
pub open spec fn same_line(a: App, b: App) -> bool {
    b.input() == a.input() && b.cursor() == a.cursor()
}

/// An event that changes what is shown, and nothing else.
pub open spec fn shown() -> EventOutcome {
    EventOutcome { exit: false, command: None, redraw: true }
}

/// The message recorded for a command line that does not parse.
pub open spec fn failure_text(reason: Seq<char>) -> Seq<char> {
    "Failed to parse command: "@ + reason
}

/// How the console goes from `a` to `b` on event `e`, answering `out`.
pub open spec fn event_effect(a: App, e: AppEvent, b: App, out: EventOutcome) -> bool {
    match e {
        AppEvent::Exit => {
            &&& same_line(a, b)
            &&& same_but_line(a, b)
            &&& out == EventOutcome { exit: true, command: None, redraw: false }
        },
        AppEvent::SetInputMode(m) => {
            &&& b.mode() == m
            &&& same_line(a, b)
            &&& b.history() == a.history()
            &&& b.history_position() == a.history_position()
            &&& b.message_list() == a.message_list()
            &&& out == shown()
        },
        AppEvent::SubmitCommand => match spec_parse_host_cmd(a.input()) {
            Ok(h) => {
                &&& b.history() == a.history().push(a.input())
                &&& b.history_position() == b.history().len()
                &&& b.message_list() == a.message_list().push(Message::HostCommand(h))
                &&& b.input() == Seq::<char>::empty()
                &&& b.cursor() == 0
                &&& b.mode() == a.mode()
                &&& out == EventOutcome { exit: false, command: Some(h), redraw: true }
            },
            Err(reason) => {
                &&& b.message_list().len() == a.message_list().len() + 1
                &&& b.message_list().drop_last() == a.message_list()
                &&& b.message_list().last() matches Message::HostLog { level, message }
                    && level == LogMessageLevel::Error && message@ == failure_text(reason)
                &&& same_line(a, b)
                &&& b.history() == a.history()
                &&& b.history_position() == a.history_position()
                &&& b.mode() == a.mode()
                &&& out == shown()
            },
        },
        AppEvent::DisplayMessage(m) => {
            &&& b.message_list() == a.message_list().push(m)
            &&& same_line(a, b)
            &&& b.history() == a.history()
            &&& b.history_position() == a.history_position()
            &&& b.mode() == a.mode()
            &&& out == shown()
        },
        AppEvent::EnterChar(c) => {
            &&& (b.input(), b.cursor()) == spec_enter(a.input(), a.cursor(), c)
            &&& same_but_line(a, b)
            &&& out == shown()
        },
        AppEvent::DeleteChar => {
            &&& (b.input(), b.cursor()) == spec_delete(a.input(), a.cursor())
            &&& same_but_line(a, b)
            &&& out == shown()
        },
        AppEvent::MoveCursorLeft => {
            &&& b.input() == a.input()
            &&& b.cursor() == spec_left(a.cursor(), a.input().len())
            &&& same_but_line(a, b)
            &&& out == shown()
        },
        AppEvent::MoveCursorRight => {
            &&& b.input() == a.input()
            &&& b.cursor() == spec_right(a.cursor(), a.input().len())
            &&& same_but_line(a, b)
            &&& out == shown()
        },
        AppEvent::ScrollUpHistory => if a.history_position() == 0 {
            &&& same_line(a, b)
            &&& same_but_line(a, b)
            &&& out == EventOutcome { exit: false, command: None, redraw: false }
        } else {
            &&& b.history_position() == a.history_position() - 1
            &&& b.input() == a.history()[a.history_position() - 1]
            &&& b.cursor() == a.cursor()
            &&& b.history() == a.history()
            &&& b.mode() == a.mode()
            &&& b.message_list() == a.message_list()
            &&& out == shown()
        },
        AppEvent::ScrollDownHistory => {
            let p = min_nat(a.history_position() + 1, a.history().len());
            &&& b.history_position() == p
            &&& b.input() == (if p == a.history().len() {
                Seq::<char>::empty()
            } else {
                a.history()[p as int]
            })
            &&& b.cursor() == a.cursor()
            &&& b.history() == a.history()
            &&& b.mode() == a.mode()
            &&& b.message_list() == a.message_list()
            &&& out == shown()
        },
    }
}

/// After a command line is accepted, scrolling up once brings it back to the
/// line.
pub proof fn lemma_submit_then_recall(
    a0: App,
    a1: App,
    a2: App,
    o1: EventOutcome,
    o2: EventOutcome,
)
    requires
        a0.wf(),
        spec_parse_host_cmd(a0.input()) is Ok,
        event_effect(a0, AppEvent::SubmitCommand, a1, o1),
        event_effect(a1, AppEvent::ScrollUpHistory, a2, o2),
    ensures
        a2.input() == a0.input(),
        a2.history_position() == a0.history().len(),
        o1.command == Some(spec_parse_host_cmd(a0.input())->Ok_0),
{
}

/// Scrolling down from the newest history entry leaves an empty line.
pub proof fn lemma_scroll_down_past_newest(a: App, b: App, o: EventOutcome)
    requires
        a.wf(),
        a.history_position() + 1 >= a.history().len(),
        event_effect(a, AppEvent::ScrollDownHistory, b, o),
    ensures
        b.input() == Seq::<char>::empty(),
        b.history_position() == a.history().len(),
{
}

proof fn lemma_utf8_len_prefix(s: Seq<char>, k: int)
    requires
        0 <= k <= s.len(),
    ensures
        utf8_len(s.take(k)) <= utf8_len(s),
    decreases s.len() - k,
{
    if k < s.len() {
        lemma_utf8_len_prefix(s, k + 1);
        assert(s.take(k + 1).drop_last() == s.take(k));
    } else {
        assert(s.take(k) == s);
    }
}

/// Typing a character and deleting it again leaves the line and the cursor
/// as they were (for a cursor within the line).
pub proof fn lemma_enter_then_delete(s: Seq<char>, ci: nat, c: char)
    requires
        ci <= s.len(),
    ensures
        spec_delete(spec_enter(s, ci, c).0, spec_enter(s, ci, c).1) == (s, ci),
{
    let (t, cj) = spec_enter(s, ci, c);
    assert(cj == ci + 1);
    assert(t.take(ci as int) =~= s.take(ci as int));
    assert(t.skip(ci as int + 1) =~= s.skip(ci as int));
    assert(s.take(ci as int) + s.skip(ci as int) =~= s);
}

/// How a piece of text on the console screen is drawn.
#[derive(Debug, Clone, Copy, PartialEq, Eq, Structural)]
pub enum Tone {
    Plain,
    Bold,
    Dim,
    BoldDim,
    Green,
    BoldGreen,
    Magenta,
    BoldMagenta,
    Blue,
    Yellow,
    Red,
}

/// A piece of text drawn in one tone.
#[derive(Debug)]
pub struct Span {
    pub text: String,
    pub tone: Tone,
}

/// The text and tone of a span.
pub open spec fn span_view(s: Span) -> (Seq<char>, Tone) {
    (s.text@, s.tone)
}

/// The texts and tones of a line of spans.
pub open spec fn line_view(l: Seq<Span>) -> Seq<(Seq<char>, Tone)> {
    l.map_values(|s: Span| span_view(s))
}

fn span(text: &str, tone: Tone) -> (s: Span)
    ensures
        span_view(s) == (text@, tone),
{
    Span { text: text.to_owned(), tone }
}

/// The help line of each mode.
pub open spec fn help_line(mode: InputMode) -> Seq<(Seq<char>, Tone)> {
    match mode {
        InputMode::Monitor => seq![
            ("Press "@, Tone::Plain),
            ("q"@, Tone::Bold),
            (" to exit, "@, Tone::Plain),
            ("s"@, Tone::Bold),
            (" to send commands."@, Tone::Bold),
        ],
        InputMode::Command => seq![
            ("Press "@, Tone::Plain),
            ("Esc"@, Tone::Bold),
            (" exit command mode, "@, Tone::Plain),
            ("Enter"@, Tone::Bold),
            (" dispatch the command"@, Tone::Plain),
        ],
    }
}

/// The help line shown in `mode`; in monitor mode it blinks.
pub fn help_spans(mode: InputMode) -> (r: (Vec<Span>, bool))
    ensures
        line_view(r.0@) == help_line(mode),
        r.1 == (mode == InputMode::Monitor),
{
    let mut v: Vec<Span> = Vec::new();
    match mode {
        InputMode::Monitor => {
            v.push(span("Press ", Tone::Plain));
            v.push(span("q", Tone::Bold));
            v.push(span(" to exit, ", Tone::Plain));
            v.push(span("s", Tone::Bold));
            v.push(span(" to send commands.", Tone::Bold));
        },
        InputMode::Command => {
            v.push(span("Press ", Tone::Plain));
            v.push(span("Esc", Tone::Bold));
            v.push(span(" exit command mode, ", Tone::Plain));
            v.push(span("Enter", Tone::Bold));
            v.push(span(" dispatch the command", Tone::Plain));
        },
    }
    proof {
        assert(line_view(v@) =~= help_line(mode));
    }
    (v, mode == InputMode::Monitor)
}

/// The tone of the command line: highlighted while a command is edited.
pub fn input_tone(mode: InputMode) -> (t: Tone)
    ensures
        t == (if mode == InputMode::Command {
            Tone::Yellow
        } else {
            Tone::Plain
        }),
{
    match mode {
        InputMode::Monitor => Tone::Plain,
        InputMode::Command => Tone::Yellow,
    }
}

/// Where the terminal cursor is put: nowhere in monitor mode (it stays
/// hidden); in command mode after the border of the command box at `(x, y)`,
/// at the cursor's character (the character count taken modulo 2^16, as a
/// screen column).
pub fn cursor_position(mode: InputMode, x: u16, y: u16, character_index: usize) -> (p: Option<
    (u16, u16),
>)
    requires
        mode == InputMode::Command ==> x + character_index % 0x1_0000 + 1 <= u16::MAX,
        mode == InputMode::Command ==> y + 1 <= u16::MAX,
    ensures
        mode == InputMode::Monitor ==> p is None,
        mode == InputMode::Command ==> p == Some(
            ((x + character_index % 0x1_0000 + 1) as u16, (y + 1) as u16),
        ),
{
    match mode {
        InputMode::Monitor => None,
        InputMode::Command => {
            let column = (character_index % 0x1_0000) as u16;
            Some((x + column + 1, y + 1))
        },
    }
}

/// The number of host commands among `s`.
pub open spec fn count_commands(s: Seq<Message>) -> nat
    decreases s.len(),
{
    if s.len() == 0 {
        0
    } else {
        count_commands(s.drop_last()) + if s.last() is HostCommand {
            1nat
        } else {
            0nat
        }
    }
}

/// The number of board events among `s`.
pub open spec fn count_events(s: Seq<Message>) -> nat
    decreases s.len(),
{
    if s.len() == 0 {
        0
    } else {
        count_events(s.drop_last()) + if s.last() is DeviceEvent {
            1nat
        } else {
            0nat
        }
    }
}

/// The tag of a log level.
pub open spec fn level_tag(l: LogMessageLevel) -> (Seq<char>, Tone) {
    match l {
        LogMessageLevel::Info => ("[INFO]"@, Tone::Blue),
        LogMessageLevel::Warning => ("[WARN]"@, Tone::Yellow),
        LogMessageLevel::Error => ("[ERROR]"@, Tone::Red),
    }
}

/// The line of message `i` of `s`: commands sent and events received are
/// numbered (each kind on its own, from 1, with at least four digits), and
/// log lines carry their level.
pub open spec fn message_line(s: Seq<Message>, i: int) -> Seq<(Seq<char>, Tone)> {
    let upto = s.take(i + 1);
    match s[i] {
        Message::HostCommand(c) => seq![
            (" ⇨ "@, Tone::BoldGreen),
            (padded_text(count_commands(upto), 4), Tone::Green),
            (" "@, Tone::Plain),
            (host_cmd_text(c), Tone::Bold),
        ],
        Message::DeviceEvent(e) => seq![
            (" ⇦ "@, Tone::BoldMagenta),
            (padded_text(count_events(upto), 4), Tone::Magenta),
            (" "@, Tone::Plain),
        ] + match e {
            DeviceEvent::LogMessage { level, message } => seq![
                level_tag(level),
                (" "@, Tone::Plain),
                (message@, Tone::Plain),
            ],
            _ => seq![("<?>"@, Tone::Plain)],
        },
        Message::HostLog { level, message } => seq![
            (" ⊙ "@, Tone::BoldDim),
            ("---- "@, Tone::Dim),
            level_tag(level),
            (" "@, Tone::Plain),
            (message@, Tone::Plain),
        ],
    }
}

fn tag_span(level: LogMessageLevel) -> (s: Span)
    ensures
        span_view(s) == level_tag(level),
{
    match level {
        LogMessageLevel::Info => span("[INFO]", Tone::Blue),
        LogMessageLevel::Warning => span("[WARN]", Tone::Yellow),
        LogMessageLevel::Error => span("[ERROR]", Tone::Red),
    }
}

fn number_span(n: usize, tone: Tone) -> (s: Span)
    ensures
        span_view(s) == (padded_text(n as nat, 4), tone),
{
    let mut v: Vec<char> = Vec::new();
    push_padded_text(&mut v, n as u64, 4);
    Span { text: string_from_chars(&v), tone }
}

fn text_span(text: &String) -> (s: Span)
    ensures
        span_view(s) == (text@, Tone::Plain),
{
    Span { text: text.clone(), tone: Tone::Plain }
}

/// The lines of the message list, newest first.
pub fn message_lines(messages: &[Message]) -> (lines: Vec<Vec<Span>>)
    ensures
        lines@.len() == messages@.len(),
        forall|j: int|
            0 <= j < lines@.len() ==> line_view(#[trigger] lines@[j]@) == message_line(
                messages@,
                messages@.len() - 1 - j,
            ),
{
    let n = messages.len();
    let mut forward: Vec<Vec<Span>> = Vec::new();
    let mut commands: usize = 0;
    let mut events: usize = 0;
    let mut i: usize = 0;
    while i < n
        invariant
            i <= n,
            n == messages@.len(),
            commands == count_commands(messages@.take(i as int)),
            events == count_events(messages@.take(i as int)),
            commands + events <= i,
            forward@.len() == i,
            forall|k: int|
                0 <= k < i ==> line_view(#[trigger] forward@[k]@) == message_line(messages@, k),
        decreases n - i,
    {
        let ghost upto = messages@.take(i + 1);
        proof {
            assert(upto.drop_last() =~= messages@.take(i as int));
            assert(upto.last() == messages@[i as int]);
        }
        let mut line: Vec<Span> = Vec::new();
        match &messages[i] {
            Message::HostCommand(c) => {
                commands = commands + 1;
                line.push(span(" ⇨ ", Tone::BoldGreen));
                line.push(number_span(commands, Tone::Green));
                line.push(span(" ", Tone::Plain));
                line.push(Span { text: c.to_string(), tone: Tone::Bold });
            },
            Message::DeviceEvent(e) => {
                events = events + 1;
                line.push(span(" ⇦ ", Tone::BoldMagenta));
                line.push(number_span(events, Tone::Magenta));
                line.push(span(" ", Tone::Plain));
                match e {
                    DeviceEvent::LogMessage { level, message } => {
                        line.push(tag_span(*level));
                        line.push(span(" ", Tone::Plain));
                        line.push(text_span(message));
                    },
                    _ => {
                        line.push(span("<?>", Tone::Plain));
                    },
                }
            },
            Message::HostLog { level, message } => {
                line.push(span(" ⊙ ", Tone::BoldDim));
                line.push(span("---- ", Tone::Dim));
                line.push(tag_span(*level));
                line.push(span(" ", Tone::Plain));
                line.push(text_span(message));
            },
        }
        proof {
            assert(line_view(line@) =~= message_line(messages@, i as int));
        }
        forward.push(line);
        i = i + 1;
    }
    let mut lines: Vec<Vec<Span>> = Vec::new();
    let ghost all = forward@;
    while forward.len() > 0
        invariant
            forward@.len() + lines@.len() == n,
            forward@ == all.take(forward@.len() as int),
            all.len() == n,
            n == messages@.len(),
            forall|k: int|
                0 <= k < n ==> line_view(#[trigger] all[k]@) == message_line(messages@, k),
            forall|j: int| 0 <= j < lines@.len() ==> #[trigger] lines@[j] == all[n - 1 - j],
        decreases forward.len(),
    {
        let l = forward.pop().unwrap();
        lines.push(l);
        proof {
            assert(forward@ =~= all.take(forward@.len() as int));
        }
    }
    proof {
        assert forall|j: int| 0 <= j < lines@.len() implies line_view(#[trigger] lines@[j]@)
            == message_line(messages@, messages@.len() - 1 - j) by {
            assert(lines@[j] == all[n - 1 - j]);
        }
    }
    lines
}

} // verus!
