use microscope::zscan::{check_scan_request, frame_file_name, keep_consistent_scans, ListedScan, ScanError, ScanStep, ZScan, ZScanMetadata};

fn run(start: i32, stop: i32, steps: u32) -> Vec<ScanStep> {
    assert!(ZScan::fits(start, stop, steps));
    let mut z = ZScan::new(start, stop, steps).unwrap();
    let mut out = Vec::new();
    loop {
        let s = z.next();
        if s == ScanStep::Finished {
            break;
        }
        out.push(s);
    }
    assert_eq!(z.next(), ScanStep::Finished);
    out
}

fn mv(steps: i32, step_delay_us: u32) -> ScanStep {
    ScanStep::Move { steps, step_delay_us }
}

fn cap(position: i32) -> ScanStep {
    ScanStep::Capture { position }
}

#[test]
fn upward_scan_captures_each_layer_and_returns() {
    assert_eq!(
        run(0, 20, 10),
        vec![mv(0, 1000), cap(0), mv(10, 2000), cap(10), mv(10, 2000), cap(20), mv(10, 2000), mv(-30, 1000)]
    );
}

#[test]
fn downward_scan_moves_down() {
    assert_eq!(
        run(10, 0, 5),
        vec![mv(10, 1000), cap(10), mv(-5, 2000), cap(5), mv(-5, 2000), cap(0), mv(-5, 2000), mv(5, 1000)]
    );
}

#[test]
fn equal_bounds_take_one_frame() {
    assert_eq!(run(7, 7, 3), vec![mv(7, 1000), cap(7), mv(-3, 2000), mv(-4, 1000)]);
}

#[test]
fn zero_distance_is_refused() {
    assert_eq!(ZScan::new(0, 10, 0).unwrap_err(), ScanError::ZeroStep);
    assert!(!ZScan::fits(0, 10, 0));
}

#[test]
fn scans_beyond_the_position_range_do_not_fit() {
    assert!(!ZScan::fits(0, i32::MAX, 10));
    assert!(ZScan::fits(0, i32::MAX - 20, 10));
    assert!(!ZScan::fits(0, 10, 0x8000_0000));
    assert!(!ZScan::fits(10, 0, 0x8000_0000));
}

#[test]
fn frame_count_and_return_home() {
    let steps = run(0, 25, 10);
    let captures = steps.iter().filter(|s| matches!(s, ScanStep::Capture { .. })).count();
    assert_eq!(captures, 25 / 10 + 1);
    let total: i64 = steps
        .iter()
        .map(|s| match s {
            ScanStep::Move { steps, .. } => *steps as i64,
            _ => 0,
        })
        .sum();
    assert_eq!(total, 0);
    let steps = run(-40, -101, 20);
    let captures = steps.iter().filter(|s| matches!(s, ScanStep::Capture { .. })).count();
    assert_eq!(captures, 61 / 20 + 1);
}

#[test]
fn frame_files_have_four_digits() {
    assert_eq!(frame_file_name(7), "frame-0007.jpg");
    assert_eq!(frame_file_name(0), "frame-0000.jpg");
    assert_eq!(frame_file_name(12345), "frame-12345.jpg");
}

fn meta(uuid: &str) -> ZScanMetadata {
    ZScanMetadata {
        relative_start_pos: 0,
        relative_stop_pos: 10,
        steps_between_layers: 5,
        frame_count: 3,
        uuid: uuid.to_string(),
        timestamp: "2025-01-01T00:00:00+00:00".to_string(),
    }
}

#[test]
fn listing_skips_scans_in_foreign_directories() {
    let entries = vec![
        ListedScan { dir_name: "a".to_string(), metadata: meta("a") },
        ListedScan { dir_name: "b".to_string(), metadata: meta("c") },
        ListedScan { dir_name: "d".to_string(), metadata: meta("d") },
    ];
    let kept = keep_consistent_scans(entries);
    let ids: Vec<String> = kept.iter().map(|m| m.uuid.clone()).collect();
    assert_eq!(ids, vec!["a".to_string(), "d".to_string()]);
}

#[test]
fn scan_requests_are_checked_in_order() {
    assert_eq!(check_scan_request(0, false), Err(ScanError::ZeroStep));
    assert_eq!(check_scan_request(0, true), Err(ScanError::ZeroStep));
    assert_eq!(check_scan_request(10, false), Err(ScanError::NoDeviceDriver));
    assert_eq!(check_scan_request(10, true), Ok(()));
    assert_eq!(ScanError::ZeroStep.message(), "delta_steps must be greater than 0");
    assert_eq!(ScanError::NoDeviceDriver.message(), "Device driver not available for Z-scan");
}
