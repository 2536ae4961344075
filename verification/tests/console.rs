use microscope::command::{DeviceEvent, HostCommand, LogMessageLevel, StageMotorCmd};
use microscope::console::{on_key, help_spans, message_lines, cursor_position, input_tone, App, AppEvent, InputMode, Key, Message, Tone};

fn type_text(app: &mut App, text: &str) {
    for c in text.chars() {
        app.on_event(AppEvent::EnterChar(c));
    }
}

#[test]
fn submitting_a_command_sends_it_and_records_it() {
    let mut app = App::new();
    type_text(&mut app, "Z[home]");
    assert_eq!(app.input_text(), "Z[home]");
    assert_eq!(app.character_index(), 7);
    let out = app.on_event(AppEvent::SubmitCommand);
    assert_eq!(out.command, Some(HostCommand::StageMotor(StageMotorCmd::Home)));
    assert!(out.redraw);
    assert!(!out.exit);
    assert_eq!(app.input_text(), "");
    assert_eq!(app.character_index(), 0);
    assert_eq!(app.messages().len(), 1);
    assert!(matches!(app.messages()[0], Message::HostCommand(HostCommand::StageMotor(StageMotorCmd::Home))));
}

#[test]
fn scrolling_up_after_a_submit_recalls_the_command() {
    let mut app = App::new();
    type_text(&mut app, "Z[stop]");
    app.on_event(AppEvent::SubmitCommand);
    type_text(&mut app, "Z[home]");
    app.on_event(AppEvent::SubmitCommand);
    app.on_event(AppEvent::ScrollUpHistory);
    assert_eq!(app.input_text(), "Z[home]");
    app.on_event(AppEvent::ScrollUpHistory);
    assert_eq!(app.input_text(), "Z[stop]");
    let out = app.on_event(AppEvent::ScrollUpHistory);
    assert!(!out.redraw);
    assert_eq!(app.input_text(), "Z[stop]");
    app.on_event(AppEvent::ScrollDownHistory);
    assert_eq!(app.input_text(), "Z[home]");
    app.on_event(AppEvent::ScrollDownHistory);
    assert_eq!(app.input_text(), "");
    app.on_event(AppEvent::ScrollDownHistory);
    assert_eq!(app.input_text(), "");
}

#[test]
fn a_rejected_command_stays_on_the_line() {
    let mut app = App::new();
    type_text(&mut app, "Z[x]");
    let out = app.on_event(AppEvent::SubmitCommand);
    assert_eq!(out.command, None);
    assert_eq!(app.input_text(), "Z[x]");
    match &app.messages()[0] {
        Message::HostLog { level, message } => {
            assert_eq!(*level, LogMessageLevel::Error);
            assert_eq!(message, "Failed to parse command: Invalid StageMotorCmd format");
        }
        _ => panic!("expected a log line"),
    }
    let up = app.on_event(AppEvent::ScrollUpHistory);
    assert!(!up.redraw);
}

#[test]
fn editing_inserts_and_deletes_at_the_cursor() {
    let mut app = App::new();
    type_text(&mut app, "ac");
    app.on_event(AppEvent::MoveCursorLeft);
    app.on_event(AppEvent::EnterChar('b'));
    assert_eq!(app.input_text(), "abc");
    assert_eq!(app.character_index(), 2);
    app.on_event(AppEvent::DeleteChar);
    assert_eq!(app.input_text(), "ac");
    assert_eq!(app.character_index(), 1);
    app.on_event(AppEvent::MoveCursorLeft);
    app.on_event(AppEvent::MoveCursorLeft);
    assert_eq!(app.character_index(), 0);
    app.on_event(AppEvent::DeleteChar);
    assert_eq!(app.input_text(), "ac");
    app.on_event(AppEvent::MoveCursorRight);
    app.on_event(AppEvent::MoveCursorRight);
    app.on_event(AppEvent::MoveCursorRight);
    assert_eq!(app.character_index(), 2);
}

#[test]
fn typing_then_deleting_restores_the_line() {
    let mut app = App::new();
    type_text(&mut app, "xyz");
    app.on_event(AppEvent::MoveCursorLeft);
    app.on_event(AppEvent::EnterChar('q'));
    app.on_event(AppEvent::DeleteChar);
    assert_eq!(app.input_text(), "xyz");
    assert_eq!(app.character_index(), 2);
}

#[test]
fn byte_index_counts_utf8_bytes() {
    let mut app = App::new();
    type_text(&mut app, "aé€");
    assert_eq!(app.byte_index(), 6);
    app.on_event(AppEvent::MoveCursorLeft);
    assert_eq!(app.byte_index(), 3);
}

#[test]
fn exit_and_mode_events() {
    let mut app = App::new();
    assert_eq!(app.input_mode(), InputMode::Monitor);
    let out = app.on_event(AppEvent::SetInputMode(InputMode::Command));
    assert!(out.redraw);
    assert_eq!(app.input_mode(), InputMode::Command);
    let out = app.on_event(AppEvent::Exit);
    assert!(out.exit);
    assert!(!out.redraw);
    let out = app.on_event(AppEvent::DisplayMessage(Message::HostLog {
        level: LogMessageLevel::Info,
        message: "Connection established.".to_string(),
    }));
    assert!(out.redraw);
    assert_eq!(app.messages().len(), 1);
}

#[test]
fn key_bindings() {
    let a = on_key(InputMode::Monitor, Key::Char('s'), true);
    assert!(matches!(a.event, Some(AppEvent::SetInputMode(InputMode::Command))));
    assert_eq!(a.mode, InputMode::Command);
    let a = on_key(InputMode::Monitor, Key::Char('q'), false);
    assert!(matches!(a.event, Some(AppEvent::Exit)));
    assert!(a.stop);
    let a = on_key(InputMode::Monitor, Key::Enter, true);
    assert!(a.event.is_none());
    let a = on_key(InputMode::Command, Key::Enter, true);
    assert!(matches!(a.event, Some(AppEvent::SubmitCommand)));
    let a = on_key(InputMode::Command, Key::Char('x'), false);
    assert!(a.event.is_none());
    let a = on_key(InputMode::Command, Key::Char('x'), true);
    assert!(matches!(a.event, Some(AppEvent::EnterChar('x'))));
    let a = on_key(InputMode::Command, Key::Esc, true);
    assert!(matches!(a.event, Some(AppEvent::SetInputMode(InputMode::Monitor))));
    assert_eq!(a.mode, InputMode::Monitor);
    let a = on_key(InputMode::Command, Key::Up, true);
    assert!(matches!(a.event, Some(AppEvent::ScrollUpHistory)));
    let a = on_key(InputMode::Command, Key::Other, true);
    assert!(a.event.is_none());
}

#[test]
fn message_lines_are_numbered_newest_first() {
    let messages = vec![
        Message::HostCommand(HostCommand::StageMotor(StageMotorCmd::Home)),
        Message::DeviceEvent(DeviceEvent::LogMessage {
            level: LogMessageLevel::Warning,
            message: "hot".to_string(),
        }),
        Message::HostLog { level: LogMessageLevel::Error, message: "oops".to_string() },
        Message::HostCommand(HostCommand::StageMotor(StageMotorCmd::Stop)),
        Message::DeviceEvent(DeviceEvent::StageMotorPosition { position_steps: 4 }),
    ];
    let lines = message_lines(&messages);
    assert_eq!(lines.len(), 5);
    let texts: Vec<Vec<String>> = lines.iter().map(|l| l.iter().map(|s| s.text.clone()).collect()).collect();
    assert_eq!(texts[0], vec![" ⇦ ", "0002", " ", "<?>"]);
    assert_eq!(texts[1], vec![" ⇨ ", "0002", " ", "Z[stop]"]);
    assert_eq!(texts[2], vec![" ⊙ ", "---- ", "[ERROR]", " ", "oops"]);
    assert_eq!(texts[3], vec![" ⇦ ", "0001", " ", "[WARN]", " ", "hot"]);
    assert_eq!(texts[4], vec![" ⇨ ", "0001", " ", "Z[home]"]);
    assert_eq!(lines[3][3].tone, Tone::Yellow);
    assert_eq!(lines[2][2].tone, Tone::Red);
    assert_eq!(lines[4][0].tone, Tone::BoldGreen);
}

#[test]
fn help_line_and_cursor() {
    let (spans, blink) = help_spans(InputMode::Monitor);
    assert!(blink);
    let text: String = spans.iter().map(|s| s.text.clone()).collect();
    assert_eq!(text, "Press q to exit, s to send commands.");
    let (spans, blink) = help_spans(InputMode::Command);
    assert!(!blink);
    let text: String = spans.iter().map(|s| s.text.clone()).collect();
    assert_eq!(text, "Press Esc exit command mode, Enter dispatch the command");
    assert_eq!(cursor_position(InputMode::Command, 2, 5, 3), Some((6, 6)));
    assert_eq!(cursor_position(InputMode::Command, 2, 5, 65536 + 3), Some((6, 6)));
    assert_eq!(cursor_position(InputMode::Monitor, 2, 5, 3), None);
    assert_eq!(cursor_position(InputMode::Monitor, u16::MAX, u16::MAX, usize::MAX), None);
    assert_eq!(input_tone(InputMode::Command), Tone::Yellow);
    assert_eq!(input_tone(InputMode::Monitor), Tone::Plain);
}
