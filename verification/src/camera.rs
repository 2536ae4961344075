//! Camera parameters: the properties the web interface edits, how an update
//! is merged into the current ones, and the settings written to the camera
//! source. Floating-point values are held as their IEEE-754 bit patterns and
//! compared as the floating-point `==` compares them.
use vstd::prelude::*;

use crate::zscan::wrap_i32;

verus! {

/// The white balance modes of the camera.
#[derive(Debug, Clone, Copy, PartialEq, Eq, Structural)]
pub enum WhiteBalanceMode {
    Auto,
    Incandescent,
    Tungsten,
    Fluorescent,
    Indoor,
    Daylight,
    Cloudy,
    Custom,
}

/// The name of a white balance mode, as the camera source reads it.
pub open spec fn white_balance_text(m: WhiteBalanceMode) -> Seq<char> {
    match m {
        WhiteBalanceMode::Auto => "auto"@,
        WhiteBalanceMode::Incandescent => "incandescent"@,
        WhiteBalanceMode::Tungsten => "tungsten"@,
        WhiteBalanceMode::Fluorescent => "fluorescent"@,
        WhiteBalanceMode::Indoor => "indoor"@,
        WhiteBalanceMode::Daylight => "daylight"@,
        WhiteBalanceMode::Cloudy => "cloudy"@,
        WhiteBalanceMode::Custom => "custom"@,
    }
}

/// The number of a white balance mode.
pub open spec fn white_balance_number(m: WhiteBalanceMode) -> i32 {
    match m {
        WhiteBalanceMode::Auto => 0,
        WhiteBalanceMode::Incandescent => 1,
        WhiteBalanceMode::Tungsten => 2,
        WhiteBalanceMode::Fluorescent => 3,
        WhiteBalanceMode::Indoor => 4,
        WhiteBalanceMode::Daylight => 5,
        WhiteBalanceMode::Cloudy => 6,
        WhiteBalanceMode::Custom => 7,
    }
}

impl WhiteBalanceMode {
    /// The mode's name.
    pub fn as_str(&self) -> (s: &'static str)
        ensures
            s@ == white_balance_text(*self),
    {
        match self {
            WhiteBalanceMode::Auto => "auto",
            WhiteBalanceMode::Incandescent => "incandescent",
            WhiteBalanceMode::Tungsten => "tungsten",
            WhiteBalanceMode::Fluorescent => "fluorescent",
            WhiteBalanceMode::Indoor => "indoor",
            WhiteBalanceMode::Daylight => "daylight",
            WhiteBalanceMode::Cloudy => "cloudy",
            WhiteBalanceMode::Custom => "custom",
        }
    }

    /// The mode's number.
    pub fn to_i32(&self) -> (n: i32)
        ensures
            n == white_balance_number(*self),
    {
        match self {
            WhiteBalanceMode::Auto => 0,
            WhiteBalanceMode::Incandescent => 1,
            WhiteBalanceMode::Tungsten => 2,
            WhiteBalanceMode::Fluorescent => 3,
            WhiteBalanceMode::Indoor => 4,
            WhiteBalanceMode::Daylight => 5,
            WhiteBalanceMode::Cloudy => 6,
            WhiteBalanceMode::Custom => 7,
        }
    }
}

/// The test patterns of the test source.
#[derive(Debug, Clone, Copy, PartialEq, Eq, Structural)]
pub enum TestPattern {
    Smpte,
    Snow,
    Ball,
}

/// The name of a test pattern.
pub open spec fn pattern_text(p: TestPattern) -> Seq<char> {
    match p {
        TestPattern::Smpte => "smpte"@,
        TestPattern::Snow => "snow"@,
        TestPattern::Ball => "ball"@,
    }
}

/// The number of a test pattern, as the test source counts them.
pub open spec fn pattern_number(p: TestPattern) -> i32 {
    match p {
        TestPattern::Smpte => 0,
        TestPattern::Snow => 1,
        TestPattern::Ball => 18,
    }
}

/// The numbers that name a test pattern.
pub open spec fn is_pattern_number(n: i32) -> bool {
    n == 0 || n == 1 || n == 18
}

impl TestPattern {
    /// The pattern's name.
    pub fn as_str(&self) -> (s: &'static str)
        ensures
            s@ == pattern_text(*self),
    {
        match self {
            TestPattern::Smpte => "smpte",
            TestPattern::Snow => "snow",
            TestPattern::Ball => "ball",
        }
    }

    /// The pattern's number.
    pub fn to_i32(&self) -> (n: i32)
        ensures
            n == pattern_number(*self),
    {
        match self {
            TestPattern::Smpte => 0,
            TestPattern::Snow => 1,
            TestPattern::Ball => 18,
        }
    }

    /// The pattern with number `value`; only the numbers of the three
    /// patterns are accepted.
    pub fn from_i32(value: i32) -> (p: TestPattern)
        requires
            is_pattern_number(value),
        ensures
            pattern_number(p) == value,
    {
        if value == 0 {
            TestPattern::Smpte
        } else if value == 1 {
            TestPattern::Snow
        } else {
            TestPattern::Ball
        }
    }
}

/// Reading a pattern's number back gives the pattern.
pub proof fn lemma_pattern_number_roundtrip(p: TestPattern)
    ensures
        is_pattern_number(pattern_number(p)),
        forall|q: TestPattern| pattern_number(q) == pattern_number(p) ==> q == p,
{
}

/// A camera property that can be set on its own.
#[derive(Debug, Clone, Copy, PartialEq, Eq, Structural)]
pub enum CameraProperty {
    TestPattern(TestPattern),
}

impl CameraProperty {
    /// The property's value as text.
    pub fn as_str(&self) -> (s: &'static str)
        ensures
            match *self {
                CameraProperty::TestPattern(p) => s@ == pattern_text(p),
            },
    {
        match self {
            CameraProperty::TestPattern(p) => p.as_str(),
        }
    }

    /// The property's value as a number.
    pub fn to_i32(&self) -> (n: i32)
        ensures
            match *self {
                CameraProperty::TestPattern(p) => n == pattern_number(p),
            },
    {
        match self {
            CameraProperty::TestPattern(p) => p.to_i32(),
        }
    }
}

/// The bits of an `f32` encode NaN.
pub open spec fn f32_is_nan(a: u32) -> bool {
    a & 0x7f80_0000 == 0x7f80_0000 && a & 0x007f_ffff != 0
}

/// Two `f32` values, given by their bits, are equal as `==` on `f32` says:
/// NaN equals nothing, and positive and negative zero are equal.
pub open spec fn f32_eq(a: u32, b: u32) -> bool {
    !f32_is_nan(a) && !f32_is_nan(b) && (a == b || (a & 0x7fff_ffff == 0 && b & 0x7fff_ffff
        == 0))
}

/// The bits of an `f64` encode NaN.
pub open spec fn f64_is_nan(a: u64) -> bool {
    a & 0x7ff0_0000_0000_0000 == 0x7ff0_0000_0000_0000 && a & 0x000f_ffff_ffff_ffff != 0
}

/// Two `f64` values, given by their bits, are equal as `==` on `f64` says.
pub open spec fn f64_eq(a: u64, b: u64) -> bool {
    !f64_is_nan(a) && !f64_is_nan(b) && (a == b || (a & 0x7fff_ffff_ffff_ffff == 0 && b
        & 0x7fff_ffff_ffff_ffff == 0))
}

/// `==` on `Option<f32>`.
pub open spec fn opt_f32_eq(a: Option<u32>, b: Option<u32>) -> bool {
    match (a, b) {
        (Some(x), Some(y)) => f32_eq(x, y),
        (None, None) => true,
        _ => false,
    }
}

/// `==` on `Option<f64>`.
pub open spec fn opt_f64_eq(a: Option<u64>, b: Option<u64>) -> bool {
    match (a, b) {
        (Some(x), Some(y)) => f64_eq(x, y),
        (None, None) => true,
        _ => false,
    }
}

fn f32_equal(a: u32, b: u32) -> (r: bool)
    ensures
        r == f32_eq(a, b),
{
    let a_nan = a & 0x7f80_0000 == 0x7f80_0000 && a & 0x007f_ffff != 0;
    let b_nan = b & 0x7f80_0000 == 0x7f80_0000 && b & 0x007f_ffff != 0;
    !a_nan && !b_nan && (a == b || (a & 0x7fff_ffff == 0 && b & 0x7fff_ffff == 0))
}

fn f64_equal(a: u64, b: u64) -> (r: bool)
    ensures
        r == f64_eq(a, b),
{
    let a_nan = a & 0x7ff0_0000_0000_0000 == 0x7ff0_0000_0000_0000 && a & 0x000f_ffff_ffff_ffff
        != 0;
    let b_nan = b & 0x7ff0_0000_0000_0000 == 0x7ff0_0000_0000_0000 && b & 0x000f_ffff_ffff_ffff
        != 0;
    !a_nan && !b_nan && (a == b || (a & 0x7fff_ffff_ffff_ffff == 0 && b & 0x7fff_ffff_ffff_ffff
        == 0))
}

fn opt_f32_equal(a: Option<u32>, b: Option<u32>) -> (r: bool)
    ensures
        r == opt_f32_eq(a, b),
{
    match (a, b) {
        (Some(x), Some(y)) => f32_equal(x, y),
        (None, None) => true,
        _ => false,
    }
}

fn opt_f64_equal(a: Option<u64>, b: Option<u64>) -> (r: bool)
    ensures
        r == opt_f64_eq(a, b),
{
    match (a, b) {
        (Some(x), Some(y)) => f64_equal(x, y),
        (None, None) => true,
        _ => false,
    }
}

/// The camera's properties; an absent value is left as the camera has it.
/// `gain` holds the bits of an `f64`, the other fractional values the bits
/// of an `f32`.
#[derive(Debug, Clone, Copy, PartialEq, Eq, Structural)]
pub struct CameraProperties {
    pub exposure_time: Option<u32>,
    pub gain: Option<u64>,
    pub brightness: Option<u32>,
    pub contrast: Option<u32>,
    pub saturation: Option<u32>,
    pub sharpness: Option<i32>,
    pub auto_white_balance: Option<bool>,
    pub white_balance_mode: Option<WhiteBalanceMode>,
    pub color_gain_red: Option<u32>,
    pub color_gain_blue: Option<u32>,
    pub test_pattern: Option<TestPattern>,
}

/// One field of a patch: the new value when the update has one that differs
/// (`same` says whether they are equal), and the number of changes (0 or 1).
pub open spec fn patch_field<T>(cur: Option<T>, new: Option<T>, same: bool) -> (Option<T>, nat) {
    if new is Some && !same {
        (new, 1)
    } else {
        (cur, 0)
    }
}

/// The properties after merging `b` into `a`, and how many of them changed.
/// A test pattern in `b` is always taken over and counted.
pub open spec fn camera_patch(a: CameraProperties, b: CameraProperties) -> (
    CameraProperties,
    nat,
) {
    let exposure = patch_field(a.exposure_time, b.exposure_time, a.exposure_time == b.exposure_time);
    let gain = patch_field(a.gain, b.gain, opt_f64_eq(a.gain, b.gain));
    let brightness = patch_field(a.brightness, b.brightness, opt_f32_eq(a.brightness, b.brightness));
    let contrast = patch_field(a.contrast, b.contrast, opt_f32_eq(a.contrast, b.contrast));
    let saturation = patch_field(a.saturation, b.saturation, opt_f32_eq(a.saturation, b.saturation));
    let sharpness = patch_field(a.sharpness, b.sharpness, a.sharpness == b.sharpness);
    let awb = patch_field(
        a.auto_white_balance,
        b.auto_white_balance,
        a.auto_white_balance == b.auto_white_balance,
    );
    let wbm = patch_field(
        a.white_balance_mode,
        b.white_balance_mode,
        a.white_balance_mode == b.white_balance_mode,
    );
    let pattern = patch_field(a.test_pattern, b.test_pattern, false);
    let red = patch_field(a.color_gain_red, b.color_gain_red, opt_f32_eq(a.color_gain_red, b.color_gain_red));
    let blue = patch_field(
        a.color_gain_blue,
        b.color_gain_blue,
        opt_f32_eq(a.color_gain_blue, b.color_gain_blue),
    );
    (
        CameraProperties {
            exposure_time: exposure.0,
            gain: gain.0,
            brightness: brightness.0,
            contrast: contrast.0,
            saturation: saturation.0,
            sharpness: sharpness.0,
            auto_white_balance: awb.0,
            white_balance_mode: wbm.0,
            color_gain_red: red.0,
            color_gain_blue: blue.0,
            test_pattern: pattern.0,
        },
        exposure.1 + gain.1 + brightness.1 + contrast.1 + saturation.1 + sharpness.1 + awb.1 + wbm.1
            + pattern.1 + red.1 + blue.1,
    )
}

impl CameraProperties {
    /// Takes over every value of `other` that differs from the current one
    /// (and any test pattern), and returns how many values changed.
    pub fn patch(&mut self, other: &CameraProperties) -> (changes: usize)
        ensures
            *final(self) == camera_patch(*old(self), *other).0,
            changes == camera_patch(*old(self), *other).1,
    {
        let a = *self;
        let b = *other;
        let exposure = patch_value(a.exposure_time, b.exposure_time, a.exposure_time == b.exposure_time);
        let gain = patch_value(a.gain, b.gain, opt_f64_equal(a.gain, b.gain));
        let brightness = patch_value(a.brightness, b.brightness, opt_f32_equal(a.brightness, b.brightness));
        let contrast = patch_value(a.contrast, b.contrast, opt_f32_equal(a.contrast, b.contrast));
        let saturation = patch_value(a.saturation, b.saturation, opt_f32_equal(a.saturation, b.saturation));
        let sharpness = patch_value(a.sharpness, b.sharpness, a.sharpness == b.sharpness);
        let awb = patch_value(
            a.auto_white_balance,
            b.auto_white_balance,
            a.auto_white_balance == b.auto_white_balance,
        );
        let wbm = patch_value(
            a.white_balance_mode,
            b.white_balance_mode,
            same_mode(a.white_balance_mode, b.white_balance_mode),
        );
        let pattern = patch_value(a.test_pattern, b.test_pattern, false);
        let red = patch_value(
            a.color_gain_red,
            b.color_gain_red,
            opt_f32_equal(a.color_gain_red, b.color_gain_red),
        );
        let blue = patch_value(
            a.color_gain_blue,
            b.color_gain_blue,
            opt_f32_equal(a.color_gain_blue, b.color_gain_blue),
        );
        *self = CameraProperties {
            exposure_time: exposure.0,
            gain: gain.0,
            brightness: brightness.0,
            contrast: contrast.0,
            saturation: saturation.0,
            sharpness: sharpness.0,
            auto_white_balance: awb.0,
            white_balance_mode: wbm.0,
            color_gain_red: red.0,
            color_gain_blue: blue.0,
            test_pattern: pattern.0,
        };
        exposure.1 + gain.1 + brightness.1 + contrast.1 + saturation.1 + sharpness.1 + awb.1 + wbm.1
            + pattern.1 + red.1 + blue.1
    }
}

fn patch_value<T: Copy>(cur: Option<T>, new: Option<T>, same: bool) -> (r: (Option<T>, usize))
    ensures
        r.0 == patch_field(cur, new, same).0,
        r.1 == patch_field(cur, new, same).1,
{
    if new.is_some() && !same {
        (new, 1)
    } else {
        (cur, 0)
    }
}

fn same_mode(a: Option<WhiteBalanceMode>, b: Option<WhiteBalanceMode>) -> (r: bool)
    ensures
        r == (a == b),
{
    match (a, b) {
        (Some(x), Some(y)) => x == y,
        (None, None) => true,
        _ => false,
    }
}

/// None of the fractional values of `p` is NaN.
pub open spec fn no_nan(p: CameraProperties) -> bool {
    &&& (p.gain matches Some(g) ==> !f64_is_nan(g))
    &&& (p.brightness matches Some(x) ==> !f32_is_nan(x))
    &&& (p.contrast matches Some(x) ==> !f32_is_nan(x))
    &&& (p.saturation matches Some(x) ==> !f32_is_nan(x))
    &&& (p.color_gain_red matches Some(x) ==> !f32_is_nan(x))
    &&& (p.color_gain_blue matches Some(x) ==> !f32_is_nan(x))
}

/// Applying the same update twice changes nothing the second time: the
/// properties stay as they are, and only a test pattern in the update is
/// counted again (for an update without NaN values).
pub proof fn lemma_patch_twice(a: CameraProperties, b: CameraProperties)
    requires
        no_nan(b),
    ensures
        camera_patch(camera_patch(a, b).0, b).0 == camera_patch(a, b).0,
        camera_patch(camera_patch(a, b).0, b).1 == (if b.test_pattern is Some {
            1nat
        } else {
            0nat
        }),
{
}

/// The properties the backend starts with.
#[derive(Debug, Clone, Copy, PartialEq, Eq, Structural)]
pub struct Parameters {
    pub camera_properties: CameraProperties,
}

/// The bits of `1.0_f32`.
pub const F32_ONE: u32 = 0x3f80_0000;

/// The bits of `1.0_f64`.
pub const F64_ONE: u64 = 0x3ff0_0000_0000_0000;

impl Parameters {
    /// Exposure 4000, unit gain, contrast, saturation and colour gains,
    /// zero brightness and sharpness, automatic white balance, no test pattern.
    pub fn new() -> (p: Parameters)
        ensures
            p.camera_properties == (CameraProperties {
                exposure_time: Some(4000),
                gain: Some(F64_ONE),
                brightness: Some(0),
                contrast: Some(F32_ONE),
                saturation: Some(F32_ONE),
                sharpness: Some(0),
                auto_white_balance: Some(true),
                white_balance_mode: Some(WhiteBalanceMode::Auto),
                color_gain_red: Some(F32_ONE),
                color_gain_blue: Some(F32_ONE),
                test_pattern: None,
            }),
    {
        Parameters {
            camera_properties: CameraProperties {
                exposure_time: Some(4000),
                gain: Some(F64_ONE),
                brightness: Some(0),
                contrast: Some(F32_ONE),
                saturation: Some(F32_ONE),
                sharpness: Some(0),
                auto_white_balance: Some(true),
                white_balance_mode: Some(WhiteBalanceMode::Auto),
                color_gain_red: Some(F32_ONE),
                color_gain_blue: Some(F32_ONE),
                test_pattern: None,
            },
        }
    }

    /// Merges `other` into these parameters; returns how many values changed
    /// (subscribers are told of the new parameters when it is not zero).
    pub fn patch(&mut self, other: &Parameters) -> (changes: usize)
        ensures
            final(self).camera_properties == camera_patch(
                old(self).camera_properties,
                other.camera_properties,
            ).0,
            changes == camera_patch(old(self).camera_properties, other.camera_properties).1,
    {
        self.camera_properties.patch(&other.camera_properties)
    }

    /// Merges `other` into these parameters and returns what subscribers are
    /// to be sent: the new parameters when some value changed, else nothing.
    pub fn update(&mut self, other: &Parameters) -> (notice: Option<Parameters>)
        ensures
            final(self).camera_properties == camera_patch(
                old(self).camera_properties,
                other.camera_properties,
            ).0,
            notice == (if camera_patch(old(self).camera_properties, other.camera_properties).1 > 0 {
                Some(*final(self))
            } else {
                None
            }),
    {
        let changes = self.patch(other);
        if changes > 0 {
            Some(*self)
        } else {
            None
        }
    }
}

/// A value written to a property of the camera source.
#[derive(Debug, Clone, Copy, PartialEq, Eq, Structural)]
pub enum SettingValue {
    Int(i32),
    /// The bits of an `f32`.
    Float(u32),
    Bool(bool),
    /// A white balance mode, written by its name.
    WhiteBalance(WhiteBalanceMode),
    /// A test pattern, written by its name.
    Pattern(TestPattern),
    /// The red and blue gains (bits of two `f32`).
    Gains(u32, u32),
}

/// A property of the camera source and the value written to it.
#[derive(Debug, Clone, Copy)]
pub struct SourceSetting {
    pub property: &'static str,
    pub value: SettingValue,
}

/// The setting of `property` to `value`, when there is a value.
pub open spec fn opt_setting(property: Seq<char>, value: Option<SettingValue>) -> Seq<
    (Seq<char>, SettingValue),
> {
    match value {
        Some(v) => seq![(property, v)],
        None => Seq::empty(),
    }
}

/// The exposure time written to the source: the value read as an `i32`.
pub open spec fn exposure_setting(p: CameraProperties) -> Option<SettingValue> {
    match p.exposure_time {
        Some(v) => Some(SettingValue::Int(wrap_i32(v) as i32)),
        None => None,
    }
}

/// A fractional value written to the source.
pub open spec fn float_setting(o: Option<u32>) -> Option<SettingValue> {
    match o {
        Some(x) => Some(SettingValue::Float(x)),
        None => None,
    }
}

/// A switch written to the source.
pub open spec fn bool_setting(o: Option<bool>) -> Option<SettingValue> {
    match o {
        Some(x) => Some(SettingValue::Bool(x)),
        None => None,
    }
}

/// A white balance mode written to the source.
pub open spec fn mode_setting(o: Option<WhiteBalanceMode>) -> Option<SettingValue> {
    match o {
        Some(m) => Some(SettingValue::WhiteBalance(m)),
        None => None,
    }
}

/// A test pattern written to the source.
pub open spec fn pattern_setting(o: Option<TestPattern>) -> Option<SettingValue> {
    match o {
        Some(t) => Some(SettingValue::Pattern(t)),
        None => None,
    }
}

/// The colour gains written to the source: only both together.
pub open spec fn gains_setting(p: CameraProperties) -> Option<SettingValue> {
    match (p.color_gain_red, p.color_gain_blue) {
        (Some(r), Some(b)) => Some(SettingValue::Gains(r, b)),
        _ => None,
    }
}

/// The settings for the present values of `p`, in the order they are written:
/// exposure time, brightness, contrast, saturation, automatic white balance,
/// white balance mode, the colour gains (when both are present), and the
/// test pattern. The gain is not written.
pub open spec fn source_settings(p: CameraProperties) -> Seq<(Seq<char>, SettingValue)> {
    opt_setting("exposure-time"@, exposure_setting(p)) + opt_setting(
        "brightness"@,
        float_setting(p.brightness),
    ) + opt_setting("contrast"@, float_setting(p.contrast)) + opt_setting(
        "saturation"@,
        float_setting(p.saturation),
    ) + opt_setting("awb-enable"@, bool_setting(p.auto_white_balance))
        + opt_setting(
        "awb-mode"@,
        mode_setting(p.white_balance_mode),
    ) + opt_setting("colour-gains"@, gains_setting(p)) + opt_setting(
        "pattern"@,
        pattern_setting(p.test_pattern),
    )
}

fn append_setting(
    v: &mut Vec<SourceSetting>,
    property: &'static str,
    value: Option<SettingValue>,
    Ghost(done): Ghost<Seq<(Seq<char>, SettingValue)>>,
)
    requires
        settings_match(old(v)@, done),
    ensures
        settings_match(final(v)@, done + opt_setting(property@, value)),
{
    if let Some(x) = value {
        v.push(SourceSetting { property, value: x });
    }
    proof {
        let t = done + opt_setting(property@, value);
        assert forall|i: int| 0 <= i < v@.len() implies (#[trigger] v@[i]).property@ == t[i].0
            && v@[i].value == t[i].1 by {
            if i < old(v)@.len() {
                assert(v@[i] == old(v)@[i]);
            }
        }
    }
}

/// The settings of `p` match the planned ones.
pub open spec fn settings_match(v: Seq<SourceSetting>, s: Seq<(Seq<char>, SettingValue)>) -> bool {
    &&& v.len() == s.len()
    &&& forall|i: int|
        0 <= i < v.len() ==> (#[trigger] v[i]).property@ == s[i].0 && v[i].value == s[i].1
}

impl CameraProperties {
    /// The properties to write to the camera source, in order; each is
    /// written only where the source has a property of that name.
    pub fn source_settings(&self) -> (v: Vec<SourceSetting>)
        ensures
            settings_match(v@, source_settings(*self)),
    {
        let p = *self;
        let mut v: Vec<SourceSetting> = Vec::new();
        let exposure = match p.exposure_time {
            Some(x) => {
                let n: i32 = if x <= 0x7fff_ffff {
                    x as i32
                } else {
                    (x as i64 - 0x1_0000_0000) as i32
                };
                Some(SettingValue::Int(n))
            },
            None => None,
        };
        append_setting(&mut v, "exposure-time", exposure, Ghost(Seq::empty()));
        let ghost done = opt_setting("exposure-time"@, exposure_setting(p));
        proof {
            assert(Seq::<(Seq<char>, SettingValue)>::empty() + done =~= done);
        }
        let brightness = match p.brightness {
            Some(x) => Some(SettingValue::Float(x)),
            None => None,
        };
        append_setting(&mut v, "brightness", brightness, Ghost(done));
        let ghost done = done + opt_setting("brightness"@, brightness);
        let contrast = match p.contrast {
            Some(x) => Some(SettingValue::Float(x)),
            None => None,
        };
        append_setting(&mut v, "contrast", contrast, Ghost(done));
        let ghost done = done + opt_setting("contrast"@, contrast);
        let saturation = match p.saturation {
            Some(x) => Some(SettingValue::Float(x)),
            None => None,
        };
        append_setting(&mut v, "saturation", saturation, Ghost(done));
        let ghost done = done + opt_setting("saturation"@, saturation);
        let awb = match p.auto_white_balance {
            Some(x) => Some(SettingValue::Bool(x)),
            None => None,
        };
        append_setting(&mut v, "awb-enable", awb, Ghost(done));
        let ghost done = done + opt_setting("awb-enable"@, awb);
        let mode = match p.white_balance_mode {
            Some(m) => Some(SettingValue::WhiteBalance(m)),
            None => None,
        };
        append_setting(&mut v, "awb-mode", mode, Ghost(done));
        let ghost done = done + opt_setting("awb-mode"@, mode);
        let gains = match (p.color_gain_red, p.color_gain_blue) {
            (Some(r), Some(b)) => Some(SettingValue::Gains(r, b)),
            _ => None,
        };
        append_setting(&mut v, "colour-gains", gains, Ghost(done));
        let ghost done = done + opt_setting("colour-gains"@, gains);
        let pattern = match p.test_pattern {
            Some(t) => Some(SettingValue::Pattern(t)),
            None => None,
        };
        append_setting(&mut v, "pattern", pattern, Ghost(done));
        v
    }
}

/// 1 when `c` holds, else 0.
pub open spec fn one_if(c: bool) -> nat {
    if c {
        1
    } else {
        0
    }
}

/// A patch takes over exactly the values of the update that differ (by `==`
/// on the value's type, IEEE equality for fractional values) from the current
/// ones, plus any test pattern; every other value stays. The count is the
/// number of values taken over.
pub proof fn lemma_patch_takes_differing_values(a: CameraProperties, b: CameraProperties)
    ensures
        camera_patch(a, b).0.exposure_time == (if b.exposure_time is Some && !(a.exposure_time == b.exposure_time) {
            b.exposure_time
        } else {
            a.exposure_time
        }),
        camera_patch(a, b).0.gain == (if b.gain is Some && !(opt_f64_eq(a.gain, b.gain)) {
            b.gain
        } else {
            a.gain
        }),
        camera_patch(a, b).0.brightness == (if b.brightness is Some && !(opt_f32_eq(a.brightness, b.brightness)) {
            b.brightness
        } else {
            a.brightness
        }),
        camera_patch(a, b).0.contrast == (if b.contrast is Some && !(opt_f32_eq(a.contrast, b.contrast)) {
            b.contrast
        } else {
            a.contrast
        }),
        camera_patch(a, b).0.saturation == (if b.saturation is Some && !(opt_f32_eq(a.saturation, b.saturation)) {
            b.saturation
        } else {
            a.saturation
        }),
        camera_patch(a, b).0.sharpness == (if b.sharpness is Some && !(a.sharpness == b.sharpness) {
            b.sharpness
        } else {
            a.sharpness
        }),
        camera_patch(a, b).0.auto_white_balance == (if b.auto_white_balance is Some && !(a.auto_white_balance == b.auto_white_balance) {
            b.auto_white_balance
        } else {
            a.auto_white_balance
        }),
        camera_patch(a, b).0.white_balance_mode == (if b.white_balance_mode is Some && !(a.white_balance_mode == b.white_balance_mode) {
            b.white_balance_mode
        } else {
            a.white_balance_mode
        }),
        camera_patch(a, b).0.color_gain_red == (if b.color_gain_red is Some && !(opt_f32_eq(a.color_gain_red, b.color_gain_red)) {
            b.color_gain_red
        } else {
            a.color_gain_red
        }),
        camera_patch(a, b).0.color_gain_blue == (if b.color_gain_blue is Some && !(opt_f32_eq(a.color_gain_blue, b.color_gain_blue)) {
            b.color_gain_blue
        } else {
            a.color_gain_blue
        }),
        camera_patch(a, b).0.test_pattern == (if b.test_pattern is Some {
            b.test_pattern
        } else {
            a.test_pattern
        }),
        camera_patch(a, b).1 == one_if(b.exposure_time is Some && !(a.exposure_time == b.exposure_time))
            + one_if(b.gain is Some && !(opt_f64_eq(a.gain, b.gain)))
            + one_if(b.brightness is Some && !(opt_f32_eq(a.brightness, b.brightness)))
            + one_if(b.contrast is Some && !(opt_f32_eq(a.contrast, b.contrast)))
            + one_if(b.saturation is Some && !(opt_f32_eq(a.saturation, b.saturation)))
            + one_if(b.sharpness is Some && !(a.sharpness == b.sharpness))
            + one_if(b.auto_white_balance is Some && !(a.auto_white_balance == b.auto_white_balance))
            + one_if(b.white_balance_mode is Some && !(a.white_balance_mode == b.white_balance_mode))
            + one_if(b.color_gain_red is Some && !(opt_f32_eq(a.color_gain_red, b.color_gain_red)))
            + one_if(b.color_gain_blue is Some && !(opt_f32_eq(a.color_gain_blue, b.color_gain_blue)))
            + one_if(b.test_pattern is Some),
{
}

/// `==` on `f32` values given by their bits: a NaN equals nothing (itself
/// included), the two zeros are equal, and any other two values are equal
/// exactly when their bits are.
pub proof fn lemma_f32_equality(a: u32, b: u32)
    ensures
        f32_is_nan(a) ==> !f32_eq(a, b) && !f32_eq(b, a),
        !f32_is_nan(a) ==> f32_eq(a, a),
        f32_eq(0, 0x8000_0000),
        !f32_is_nan(a) && !f32_is_nan(b) && a != b && !(a & 0x7fff_ffff == 0 && b & 0x7fff_ffff
            == 0) ==> !f32_eq(a, b),
        f32_eq(a, b) == f32_eq(b, a),
{
    assert(0u32 & 0x7fff_ffffu32 == 0 && 0x8000_0000u32 & 0x7fff_ffffu32 == 0) by (bit_vector);
    assert(!(0u32 & 0x7f80_0000u32 == 0x7f80_0000u32) && !(0x8000_0000u32 & 0x7f80_0000u32
        == 0x7f80_0000u32)) by (bit_vector);
}

/// The entries of `s` that set the property `name`, in order.
pub open spec fn entries_for(s: Seq<(Seq<char>, SettingValue)>, name: Seq<char>) -> Seq<
    (Seq<char>, SettingValue),
> {
    s.filter(|e: (Seq<char>, SettingValue)| e.0 == name)
}

proof fn lemma_entries_for_opt(property: Seq<char>, value: Option<SettingValue>, name: Seq<char>)
    ensures
        entries_for(opt_setting(property, value), name) == (if property == name {
            opt_setting(property, value)
        } else {
            Seq::empty()
        }),
{
    reveal_with_fuel(Seq::filter, 2);
    if let Some(x) = value {
        assert(seq![(property, x)].drop_last() =~= Seq::<(Seq<char>, SettingValue)>::empty());
    }
}

/// Writing the properties to the camera source sets each property the
/// source knows exactly once when its value is present, with that value
/// (the exposure time read as an `i32`, the colour gains only when both are
/// present), and not at all when it is absent; the gain and the sharpness
/// are never written.
pub proof fn lemma_each_present_value_written_once(p: CameraProperties)
    ensures
        entries_for(source_settings(p), "exposure-time"@) == (match p.exposure_time {
            Some(v) => seq![("exposure-time"@, SettingValue::Int(wrap_i32(v) as i32))],
            None => Seq::empty(),
        }),
        entries_for(source_settings(p), "brightness"@) == (match p.brightness {
            Some(x) => seq![("brightness"@, SettingValue::Float(x))],
            None => Seq::empty(),
        }),
        entries_for(source_settings(p), "contrast"@) == (match p.contrast {
            Some(x) => seq![("contrast"@, SettingValue::Float(x))],
            None => Seq::empty(),
        }),
        entries_for(source_settings(p), "saturation"@) == (match p.saturation {
            Some(x) => seq![("saturation"@, SettingValue::Float(x))],
            None => Seq::empty(),
        }),
        entries_for(source_settings(p), "awb-enable"@) == (match p.auto_white_balance {
            Some(x) => seq![("awb-enable"@, SettingValue::Bool(x))],
            None => Seq::empty(),
        }),
        entries_for(source_settings(p), "awb-mode"@) == (match p.white_balance_mode {
            Some(m) => seq![("awb-mode"@, SettingValue::WhiteBalance(m))],
            None => Seq::empty(),
        }),
        entries_for(source_settings(p), "colour-gains"@) == (match (p.color_gain_red, p.color_gain_blue) {
            (Some(r), Some(b)) => seq![("colour-gains"@, SettingValue::Gains(r, b))],
            _ => Seq::empty(),
        }),
        entries_for(source_settings(p), "pattern"@) == (match p.test_pattern {
            Some(t) => seq![("pattern"@, SettingValue::Pattern(t))],
            None => Seq::empty(),
        }),
        entries_for(source_settings(p), "gain"@) == (Seq::<(Seq<char>, SettingValue)>::empty()),
        entries_for(source_settings(p), "sharpness"@) == (Seq::<(Seq<char>, SettingValue)>::empty()),
{
    broadcast use Seq::filter_distributes_over_add;
    reveal_strlit("exposure-time");
    reveal_strlit("brightness");
    reveal_strlit("contrast");
    reveal_strlit("saturation");
    reveal_strlit("awb-enable");
    reveal_strlit("awb-mode");
    reveal_strlit("colour-gains");
    reveal_strlit("pattern");
    reveal_strlit("gain");
    reveal_strlit("sharpness");
    assert("exposure-time"@.len() == 13 && "brightness"@.len() == 10);
    assert("exposure-time"@.len() == 13 && "contrast"@.len() == 8);
    assert("exposure-time"@.len() == 13 && "saturation"@.len() == 10);
    assert("exposure-time"@.len() == 13 && "awb-enable"@.len() == 10);
    assert("exposure-time"@.len() == 13 && "awb-mode"@.len() == 8);
    assert("exposure-time"@.len() == 13 && "colour-gains"@.len() == 12);
    assert("exposure-time"@.len() == 13 && "pattern"@.len() == 7);
    assert("exposure-time"@.len() == 13 && "gain"@.len() == 4);
    assert("exposure-time"@.len() == 13 && "sharpness"@.len() == 9);
    assert("brightness"@.len() == 10 && "contrast"@.len() == 8);
    assert("brightness"@[0] != "saturation"@[0]);
    assert("brightness"@[0] != "awb-enable"@[0]);
    assert("brightness"@.len() == 10 && "awb-mode"@.len() == 8);
    assert("brightness"@.len() == 10 && "colour-gains"@.len() == 12);
    assert("brightness"@.len() == 10 && "pattern"@.len() == 7);
    assert("brightness"@.len() == 10 && "gain"@.len() == 4);
    assert("brightness"@.len() == 10 && "sharpness"@.len() == 9);
    assert("contrast"@.len() == 8 && "saturation"@.len() == 10);
    assert("contrast"@.len() == 8 && "awb-enable"@.len() == 10);
    assert("contrast"@[0] != "awb-mode"@[0]);
    assert("contrast"@.len() == 8 && "colour-gains"@.len() == 12);
    assert("contrast"@.len() == 8 && "pattern"@.len() == 7);
    assert("contrast"@.len() == 8 && "gain"@.len() == 4);
    assert("contrast"@.len() == 8 && "sharpness"@.len() == 9);
    assert("saturation"@[0] != "awb-enable"@[0]);
    assert("saturation"@.len() == 10 && "awb-mode"@.len() == 8);
    assert("saturation"@.len() == 10 && "colour-gains"@.len() == 12);
    assert("saturation"@.len() == 10 && "pattern"@.len() == 7);
    assert("saturation"@.len() == 10 && "gain"@.len() == 4);
    assert("saturation"@.len() == 10 && "sharpness"@.len() == 9);
    assert("awb-enable"@.len() == 10 && "awb-mode"@.len() == 8);
    assert("awb-enable"@.len() == 10 && "colour-gains"@.len() == 12);
    assert("awb-enable"@.len() == 10 && "pattern"@.len() == 7);
    assert("awb-enable"@.len() == 10 && "gain"@.len() == 4);
    assert("awb-enable"@.len() == 10 && "sharpness"@.len() == 9);
    assert("awb-mode"@.len() == 8 && "colour-gains"@.len() == 12);
    assert("awb-mode"@.len() == 8 && "pattern"@.len() == 7);
    assert("awb-mode"@.len() == 8 && "gain"@.len() == 4);
    assert("awb-mode"@.len() == 8 && "sharpness"@.len() == 9);
    assert("colour-gains"@.len() == 12 && "pattern"@.len() == 7);
    assert("colour-gains"@.len() == 12 && "gain"@.len() == 4);
    assert("colour-gains"@.len() == 12 && "sharpness"@.len() == 9);
    assert("pattern"@.len() == 7 && "gain"@.len() == 4);
    assert("pattern"@.len() == 7 && "sharpness"@.len() == 9);
    assert("gain"@.len() == 4 && "sharpness"@.len() == 9);
    lemma_entries_for_opt("exposure-time"@, exposure_setting(p), "exposure-time"@);
    lemma_entries_for_opt("brightness"@, float_setting(p.brightness), "exposure-time"@);
    lemma_entries_for_opt("contrast"@, float_setting(p.contrast), "exposure-time"@);
    lemma_entries_for_opt("saturation"@, float_setting(p.saturation), "exposure-time"@);
    lemma_entries_for_opt("awb-enable"@, bool_setting(p.auto_white_balance), "exposure-time"@);
    lemma_entries_for_opt("awb-mode"@, mode_setting(p.white_balance_mode), "exposure-time"@);
    lemma_entries_for_opt("colour-gains"@, gains_setting(p), "exposure-time"@);
    lemma_entries_for_opt("pattern"@, pattern_setting(p.test_pattern), "exposure-time"@);
    lemma_entries_for_opt("exposure-time"@, exposure_setting(p), "brightness"@);
    lemma_entries_for_opt("brightness"@, float_setting(p.brightness), "brightness"@);
    lemma_entries_for_opt("contrast"@, float_setting(p.contrast), "brightness"@);
    lemma_entries_for_opt("saturation"@, float_setting(p.saturation), "brightness"@);
    lemma_entries_for_opt("awb-enable"@, bool_setting(p.auto_white_balance), "brightness"@);
    lemma_entries_for_opt("awb-mode"@, mode_setting(p.white_balance_mode), "brightness"@);
    lemma_entries_for_opt("colour-gains"@, gains_setting(p), "brightness"@);
    lemma_entries_for_opt("pattern"@, pattern_setting(p.test_pattern), "brightness"@);
    lemma_entries_for_opt("exposure-time"@, exposure_setting(p), "contrast"@);
    lemma_entries_for_opt("brightness"@, float_setting(p.brightness), "contrast"@);
    lemma_entries_for_opt("contrast"@, float_setting(p.contrast), "contrast"@);
    lemma_entries_for_opt("saturation"@, float_setting(p.saturation), "contrast"@);
    lemma_entries_for_opt("awb-enable"@, bool_setting(p.auto_white_balance), "contrast"@);
    lemma_entries_for_opt("awb-mode"@, mode_setting(p.white_balance_mode), "contrast"@);
    lemma_entries_for_opt("colour-gains"@, gains_setting(p), "contrast"@);
    lemma_entries_for_opt("pattern"@, pattern_setting(p.test_pattern), "contrast"@);
    lemma_entries_for_opt("exposure-time"@, exposure_setting(p), "saturation"@);
    lemma_entries_for_opt("brightness"@, float_setting(p.brightness), "saturation"@);
    lemma_entries_for_opt("contrast"@, float_setting(p.contrast), "saturation"@);
    lemma_entries_for_opt("saturation"@, float_setting(p.saturation), "saturation"@);
    lemma_entries_for_opt("awb-enable"@, bool_setting(p.auto_white_balance), "saturation"@);
    lemma_entries_for_opt("awb-mode"@, mode_setting(p.white_balance_mode), "saturation"@);
    lemma_entries_for_opt("colour-gains"@, gains_setting(p), "saturation"@);
    lemma_entries_for_opt("pattern"@, pattern_setting(p.test_pattern), "saturation"@);
    lemma_entries_for_opt("exposure-time"@, exposure_setting(p), "awb-enable"@);
    lemma_entries_for_opt("brightness"@, float_setting(p.brightness), "awb-enable"@);
    lemma_entries_for_opt("contrast"@, float_setting(p.contrast), "awb-enable"@);
    lemma_entries_for_opt("saturation"@, float_setting(p.saturation), "awb-enable"@);
    lemma_entries_for_opt("awb-enable"@, bool_setting(p.auto_white_balance), "awb-enable"@);
    lemma_entries_for_opt("awb-mode"@, mode_setting(p.white_balance_mode), "awb-enable"@);
    lemma_entries_for_opt("colour-gains"@, gains_setting(p), "awb-enable"@);
    lemma_entries_for_opt("pattern"@, pattern_setting(p.test_pattern), "awb-enable"@);
    lemma_entries_for_opt("exposure-time"@, exposure_setting(p), "awb-mode"@);
    lemma_entries_for_opt("brightness"@, float_setting(p.brightness), "awb-mode"@);
    lemma_entries_for_opt("contrast"@, float_setting(p.contrast), "awb-mode"@);
    lemma_entries_for_opt("saturation"@, float_setting(p.saturation), "awb-mode"@);
    lemma_entries_for_opt("awb-enable"@, bool_setting(p.auto_white_balance), "awb-mode"@);
    lemma_entries_for_opt("awb-mode"@, mode_setting(p.white_balance_mode), "awb-mode"@);
    lemma_entries_for_opt("colour-gains"@, gains_setting(p), "awb-mode"@);
    lemma_entries_for_opt("pattern"@, pattern_setting(p.test_pattern), "awb-mode"@);
    lemma_entries_for_opt("exposure-time"@, exposure_setting(p), "colour-gains"@);
    lemma_entries_for_opt("brightness"@, float_setting(p.brightness), "colour-gains"@);
    lemma_entries_for_opt("contrast"@, float_setting(p.contrast), "colour-gains"@);
    lemma_entries_for_opt("saturation"@, float_setting(p.saturation), "colour-gains"@);
    lemma_entries_for_opt("awb-enable"@, bool_setting(p.auto_white_balance), "colour-gains"@);
    lemma_entries_for_opt("awb-mode"@, mode_setting(p.white_balance_mode), "colour-gains"@);
    lemma_entries_for_opt("colour-gains"@, gains_setting(p), "colour-gains"@);
    lemma_entries_for_opt("pattern"@, pattern_setting(p.test_pattern), "colour-gains"@);
    lemma_entries_for_opt("exposure-time"@, exposure_setting(p), "pattern"@);
    lemma_entries_for_opt("brightness"@, float_setting(p.brightness), "pattern"@);
    lemma_entries_for_opt("contrast"@, float_setting(p.contrast), "pattern"@);
    lemma_entries_for_opt("saturation"@, float_setting(p.saturation), "pattern"@);
    lemma_entries_for_opt("awb-enable"@, bool_setting(p.auto_white_balance), "pattern"@);
    lemma_entries_for_opt("awb-mode"@, mode_setting(p.white_balance_mode), "pattern"@);
    lemma_entries_for_opt("colour-gains"@, gains_setting(p), "pattern"@);
    lemma_entries_for_opt("pattern"@, pattern_setting(p.test_pattern), "pattern"@);
    lemma_entries_for_opt("exposure-time"@, exposure_setting(p), "gain"@);
    lemma_entries_for_opt("brightness"@, float_setting(p.brightness), "gain"@);
    lemma_entries_for_opt("contrast"@, float_setting(p.contrast), "gain"@);
    lemma_entries_for_opt("saturation"@, float_setting(p.saturation), "gain"@);
    lemma_entries_for_opt("awb-enable"@, bool_setting(p.auto_white_balance), "gain"@);
    lemma_entries_for_opt("awb-mode"@, mode_setting(p.white_balance_mode), "gain"@);
    lemma_entries_for_opt("colour-gains"@, gains_setting(p), "gain"@);
    lemma_entries_for_opt("pattern"@, pattern_setting(p.test_pattern), "gain"@);
    lemma_entries_for_opt("exposure-time"@, exposure_setting(p), "sharpness"@);
    lemma_entries_for_opt("brightness"@, float_setting(p.brightness), "sharpness"@);
    lemma_entries_for_opt("contrast"@, float_setting(p.contrast), "sharpness"@);
    lemma_entries_for_opt("saturation"@, float_setting(p.saturation), "sharpness"@);
    lemma_entries_for_opt("awb-enable"@, bool_setting(p.auto_white_balance), "sharpness"@);
    lemma_entries_for_opt("awb-mode"@, mode_setting(p.white_balance_mode), "sharpness"@);
    lemma_entries_for_opt("colour-gains"@, gains_setting(p), "sharpness"@);
    lemma_entries_for_opt("pattern"@, pattern_setting(p.test_pattern), "sharpness"@);
}

} // verus!
