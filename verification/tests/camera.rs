use microscope::camera::{CameraProperties, CameraProperty, Parameters, SettingValue, TestPattern, WhiteBalanceMode};

fn empty() -> CameraProperties {
    CameraProperties {
        exposure_time: None,
        gain: None,
        brightness: None,
        contrast: None,
        saturation: None,
        sharpness: None,
        auto_white_balance: None,
        white_balance_mode: None,
        color_gain_red: None,
        color_gain_blue: None,
        test_pattern: None,
    }
}

#[test]
fn defaults_match_the_backend() {
    let p = Parameters::new().camera_properties;
    assert_eq!(p.exposure_time, Some(4000));
    assert_eq!(p.gain.map(f64::from_bits), Some(1.0));
    assert_eq!(p.brightness.map(f32::from_bits), Some(0.0));
    assert_eq!(p.contrast.map(f32::from_bits), Some(1.0));
    assert_eq!(p.saturation.map(f32::from_bits), Some(1.0));
    assert_eq!(p.color_gain_red.map(f32::from_bits), Some(1.0));
    assert_eq!(p.white_balance_mode, Some(WhiteBalanceMode::Auto));
    assert_eq!(p.test_pattern, None);
}

#[test]
fn patch_counts_changed_values() {
    let mut p = Parameters::new();
    let mut update = Parameters { camera_properties: empty() };
    update.camera_properties.exposure_time = Some(4000);
    update.camera_properties.contrast = Some(1.5f32.to_bits());
    update.camera_properties.white_balance_mode = Some(WhiteBalanceMode::Daylight);
    update.camera_properties.test_pattern = Some(TestPattern::Ball);
    let changes = p.patch(&update);
    assert_eq!(changes, 3);
    assert_eq!(p.camera_properties.exposure_time, Some(4000));
    assert_eq!(p.camera_properties.contrast, Some(1.5f32.to_bits()));
    assert_eq!(p.camera_properties.white_balance_mode, Some(WhiteBalanceMode::Daylight));
    assert_eq!(p.camera_properties.sharpness, Some(0));
    let again = p.patch(&update);
    assert_eq!(again, 1);
}

#[test]
fn float_equality_follows_ieee() {
    let mut a = empty();
    a.brightness = Some(0.0f32.to_bits());
    let mut b = empty();
    b.brightness = Some((-0.0f32).to_bits());
    assert_eq!(a.patch(&b), 0);
    assert_eq!(a.brightness, Some(0.0f32.to_bits()));
    let mut n = empty();
    n.gain = Some(f64::NAN.to_bits());
    let mut c = empty();
    assert_eq!(c.patch(&n), 1);
    assert_eq!(c.patch(&n), 1);
}

#[test]
fn names_and_numbers() {
    assert_eq!(WhiteBalanceMode::Fluorescent.as_str(), "fluorescent");
    assert_eq!(WhiteBalanceMode::Custom.to_i32(), 7);
    assert_eq!(TestPattern::Ball.to_i32(), 18);
    assert_eq!(TestPattern::from_i32(1), TestPattern::Snow);
    assert_eq!(TestPattern::from_i32(TestPattern::Smpte.to_i32()), TestPattern::Smpte);
    assert_eq!(TestPattern::Snow.as_str(), "snow");
    assert_eq!(CameraProperty::TestPattern(TestPattern::Ball).as_str(), "ball");
    assert_eq!(CameraProperty::TestPattern(TestPattern::Smpte).to_i32(), 0);
}

#[test]
fn source_settings_in_order() {
    let mut p = empty();
    p.exposure_time = Some(3_000_000_000);
    p.contrast = Some(2.0f32.to_bits());
    p.auto_white_balance = Some(false);
    p.color_gain_red = Some(1.0f32.to_bits());
    p.test_pattern = Some(TestPattern::Snow);
    let s = p.source_settings();
    let names: Vec<&str> = s.iter().map(|x| x.property).collect();
    assert_eq!(names, vec!["exposure-time", "contrast", "awb-enable", "pattern"]);
    assert_eq!(s[0].value, SettingValue::Int(3_000_000_000u32 as i32));
    assert_eq!(s[1].value, SettingValue::Float(2.0f32.to_bits()));
    p.color_gain_blue = Some(0.5f32.to_bits());
    p.white_balance_mode = Some(WhiteBalanceMode::Cloudy);
    let s = p.source_settings();
    let names: Vec<&str> = s.iter().map(|x| x.property).collect();
    assert_eq!(names, vec!["exposure-time", "contrast", "awb-enable", "awb-mode", "colour-gains", "pattern"]);
    assert_eq!(s[4].value, SettingValue::Gains(1.0f32.to_bits(), 0.5f32.to_bits()));
    assert_eq!(s[3].value, SettingValue::WhiteBalance(WhiteBalanceMode::Cloudy));
}

#[test]
fn subscribers_hear_of_changes_only() {
    let mut p = Parameters::new();
    let same = Parameters::new();
    assert_eq!(p.update(&same), None);
    let mut other = Parameters { camera_properties: empty() };
    other.camera_properties.exposure_time = Some(8000);
    let notice = p.update(&other);
    assert_eq!(p.camera_properties.exposure_time, Some(8000));
    assert_eq!(notice, Some(p));
    assert_eq!(p.update(&other), None);
}
