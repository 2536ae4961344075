use microscope::command::{HostCommand, StageMotorCmd};

#[test]
fn parses_move_steps() {
    assert_eq!(
        StageMotorCmd::from_str("steps:-100,500"),
        Ok(StageMotorCmd::MoveSteps { steps: -100, step_delay_us: 500 })
    );
    assert_eq!(
        StageMotorCmd::from_str("steps:-2147483648,0"),
        Ok(StageMotorCmd::MoveSteps { steps: i32::MIN, step_delay_us: 0 })
    );
}

#[test]
fn rejects_out_of_range_numbers() {
    assert_eq!(
        StageMotorCmd::from_str("steps:2147483648,1"),
        Err("Invalid StageMotorCmd format".to_string())
    );
    assert_eq!(
        StageMotorCmd::from_str("goto_upper_limit:-1"),
        Err("Invalid StageMotorCmd format".to_string())
    );
    assert_eq!(
        StageMotorCmd::from_str("steps: 5,1"),
        Err("Invalid StageMotorCmd format".to_string())
    );
}

#[test]
fn keywords_allow_surrounding_white_space() {
    assert_eq!(StageMotorCmd::from_str(" stop \n"), Ok(StageMotorCmd::Stop));
    assert_eq!(StageMotorCmd::from_str("\tenable"), Ok(StageMotorCmd::Enable));
    assert_eq!(StageMotorCmd::from_str("get_pos"), Ok(StageMotorCmd::ReportPosition));
    assert_eq!(StageMotorCmd::from_str("home"), Ok(StageMotorCmd::Home));
    assert_eq!(StageMotorCmd::from_str("disable"), Ok(StageMotorCmd::Disable));
    assert_eq!(StageMotorCmd::from_str("release_limits"), Ok(StageMotorCmd::ReleaseLimits));
}

#[test]
fn parses_limits() {
    assert_eq!(
        StageMotorCmd::from_str("set_lower_limit"),
        Ok(StageMotorCmd::SetLowerLimitToCurrent)
    );
    assert_eq!(
        StageMotorCmd::from_str("set_upper_limit"),
        Ok(StageMotorCmd::SetUpperLimitToCurrent)
    );
    assert_eq!(
        StageMotorCmd::from_str("set_lower_limit:-20"),
        Ok(StageMotorCmd::SetLowerLimit(-20))
    );
    assert_eq!(
        StageMotorCmd::from_str("set_upper_limit:5450"),
        Ok(StageMotorCmd::SetUpperLimit(5450))
    );
    assert_eq!(
        StageMotorCmd::from_str("goto_lower_limit:1000"),
        Ok(StageMotorCmd::GoToLowerLimit { step_delay_us: 1000 })
    );
    assert_eq!(
        StageMotorCmd::from_str("goto_upper_limit:1500"),
        Ok(StageMotorCmd::GoToUpperLimit { step_delay_us: 1500 })
    );
}

#[test]
fn parses_host_commands() {
    assert_eq!(
        HostCommand::from_str("Z[home]"),
        Ok(HostCommand::StageMotor(StageMotorCmd::Home))
    );
    assert_eq!(
        HostCommand::from_str("Z[ enable ]"),
        Ok(HostCommand::StageMotor(StageMotorCmd::Enable))
    );
    assert_eq!(
        HostCommand::from_str("Z[steps:10,2000]"),
        Ok(HostCommand::StageMotor(StageMotorCmd::MoveSteps { steps: 10, step_delay_us: 2000 }))
    );
}

#[test]
fn reports_host_command_errors() {
    assert_eq!(HostCommand::from_str("Z[]"), Err("Invalid command format".to_string()));
    assert_eq!(HostCommand::from_str("Z[home]\n"), Err("Invalid command format".to_string()));
    assert_eq!(HostCommand::from_str(" Z[home]"), Err("Invalid command format".to_string()));
    assert_eq!(HostCommand::from_str("Z[ho\nme]"), Err("Invalid command format".to_string()));
    assert_eq!(HostCommand::from_str("Z[bogus]"), Err("Invalid StageMotorCmd format".to_string()));
    assert_eq!(
        HostCommand::from_chars(&['Z', '[', 'x', ']']),
        Err("Invalid StageMotorCmd format".to_string())
    );
}

#[test]
fn prints_commands() {
    let c = HostCommand::StageMotor(StageMotorCmd::MoveSteps { steps: -3, step_delay_us: 7 });
    assert_eq!(c.to_string(), "Z[steps:-3,7]");
    assert_eq!(StageMotorCmd::SetLowerLimitToCurrent.to_string(), "set_lower_limit_to_current");
    assert_eq!(StageMotorCmd::ReportPosition.to_string(), "report_position");
    assert_eq!(StageMotorCmd::GoToLowerLimit { step_delay_us: 9 }.to_string(), "goto_lower_limit:9");
    assert_eq!(StageMotorCmd::SetUpperLimit(-1).to_string(), "set_upper_limit:-1");
}

#[test]
fn printed_commands_read_back() {
    let cmds = vec![
        StageMotorCmd::Enable,
        StageMotorCmd::Disable,
        StageMotorCmd::Home,
        StageMotorCmd::Stop,
        StageMotorCmd::ReleaseLimits,
        StageMotorCmd::MoveSteps { steps: i32::MIN, step_delay_us: u32::MAX },
        StageMotorCmd::SetLowerLimit(-77),
        StageMotorCmd::SetUpperLimit(i32::MAX),
        StageMotorCmd::GoToLowerLimit { step_delay_us: 0 },
        StageMotorCmd::GoToUpperLimit { step_delay_us: 12 },
    ];
    for c in cmds {
        assert_eq!(StageMotorCmd::from_str(&c.to_string()), Ok(c));
        let h = HostCommand::StageMotor(c);
        assert_eq!(HostCommand::from_str(&h.to_string()), Ok(h));
    }
}

#[test]
fn some_printed_commands_do_not_read_back() {
    assert!(StageMotorCmd::from_str(&StageMotorCmd::ReportPosition.to_string()).is_err());
    assert!(StageMotorCmd::from_str(&StageMotorCmd::SetUpperLimitToCurrent.to_string()).is_err());
}

#[test]
fn raw_bytes_are_not_read_as_commands() {
    assert_eq!(HostCommand::from_bytes(&[0, 1, 2]), None);
    assert_eq!(HostCommand::from_bytes(&[]), None);
}
