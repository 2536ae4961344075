use microscope::focus::{find_stack, frame_url, raw_image_name, sobel_image_name, z_scan_list_url, Element, FocusStacking, FocusStackingParams, WidgetPosition};
use microscope::zscan::ZScanMetadata;

fn href_of(e: &Element) -> String {
    match e {
        Element::Image { href, .. } => href.clone(),
        _ => panic!("not an image"),
    }
}

fn value_of(e: &Element) -> String {
    match e {
        Element::Select { value, .. } => value.clone(),
        _ => panic!("not a select"),
    }
}

#[test]
fn describe_defaults_to_the_first_stack() {
    let _f = FocusStacking::_new();
    let ui = FocusStacking::describe(
        "scope:3000",
        FocusStackingParams { image_stack_selection: None },
        vec!["s1".to_string(), "s2".to_string()],
    );
    assert_eq!(ui.name, "focus_stacking");
    assert_eq!(ui.display_name, "Focus Stacking");
    assert_eq!(ui.columns, 4);
    assert_eq!(ui.elements.len(), 3);
    assert_eq!(ui.elements[0].0, "stack_preview");
    assert_eq!(href_of(&ui.elements[0].1), "http://scope:3000/api/z-scan/thumbnail/s1/0/150");
    assert_eq!(
        href_of(&ui.elements[1].1),
        "http://scope:3000/api/z-scan/thumbnail/e4a5f501-0865-4b0b-9840-98744fce5d4e/0/150"
    );
    assert_eq!(ui.elements[2].0, "image_stack");
    assert_eq!(value_of(&ui.elements[2].1), "s1");
    match &ui.elements[2].1 {
        Element::Select { options, positioning, .. } => {
            assert_eq!(options, &vec!["a".to_string(), "b".to_string(), "c".to_string()]);
            assert_eq!(*positioning, WidgetPosition { row: 1, column: 3, row_span: 1, column_span: 2 });
        }
        _ => panic!("not a select"),
    }
}

#[test]
fn describe_keeps_an_unknown_selection_and_handles_no_stacks() {
    let ui = FocusStacking::describe(
        "h",
        FocusStackingParams { image_stack_selection: Some("zz".to_string()) },
        vec!["s1".to_string()],
    );
    assert_eq!(value_of(&ui.elements[2].1), "zz");
    assert_eq!(href_of(&ui.elements[0].1), "http://h/api/z-scan/thumbnail/zz/0/150");
    let ui = FocusStacking::describe("h", FocusStackingParams { image_stack_selection: None }, vec![]);
    assert_eq!(value_of(&ui.elements[2].1), "");
    assert_eq!(href_of(&ui.elements[0].1), "");
}

fn meta(uuid: &str, frames: usize) -> ZScanMetadata {
    ZScanMetadata {
        relative_start_pos: 0,
        relative_stop_pos: 10,
        steps_between_layers: 5,
        frame_count: frames,
        uuid: uuid.to_string(),
        timestamp: String::new(),
    }
}

#[test]
fn finds_the_first_matching_stack() {
    let stacks = vec![meta("a", 1), meta("b", 2), meta("b", 3)];
    let found = find_stack(stacks, "b").unwrap();
    assert_eq!(found.frame_count, 2);
    let err = find_stack(vec![meta("a", 1)], "q").unwrap_err();
    assert_eq!(err, "Stack with ID q not found");
}

#[test]
fn addresses_and_file_names() {
    assert_eq!(z_scan_list_url("m:3000"), "http://m:3000/api/z-scan/list");
    assert_eq!(frame_url("m", "abc", 12), "http://m/api/z-scan/frame/abc/12");
    assert_eq!(raw_image_name(3), "00003.png");
    assert_eq!(sobel_image_name(123456), "123456.jpg");
}
