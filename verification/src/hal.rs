//! Hardware-access decisions: audio volume and fragment sizing, PWM and
//! GPIO control values, device model data.
//!
//! The device files and ioctls themselves are the caller's concern; every
//! value written to them, and every decision about whether to write, is
//! computed here.

use vstd::prelude::*;

use crate::text::{push_decimal, spec_decimal, str_eq};

verus! {

/// Lowest volume step of the interface.
pub const MIN_VOLUME: i32 = 0;

/// Highest volume step of the interface.
pub const MAX_VOLUME: i32 = 20;

/// Lowest raw volume value the audio device accepts; also its mute point.
pub const MIN_RAW_VALUE: i32 = -60;

/// Highest raw volume value the audio device accepts.
pub const MAX_RAW_VALUE: i32 = 30;

/// Clamps a volume step into the interface range.
pub fn clamp_volume(volume: i32) -> (r: i32)
    ensures
        volume > MAX_VOLUME ==> r == MAX_VOLUME,
        volume < MIN_VOLUME ==> r == MIN_VOLUME,
        MIN_VOLUME <= volume <= MAX_VOLUME ==> r == volume,
{
    if volume > MAX_VOLUME {
        MAX_VOLUME
    } else if volume < MIN_VOLUME {
        MIN_VOLUME
    } else {
        volume
    }
}

/// What one raw volume update must write to the audio device.
#[derive(Clone, Copy, Debug, PartialEq, Eq, Structural)]
pub struct VolumePlan {
    /// The raw volume to set, or nothing when it already holds.
    pub set_value: Option<i32>,
    /// Whether to change the mute flag, and to what.
    pub set_mute: Option<bool>,
}

/// The clamped raw volume that a requested offset lands on.
pub open spec fn spec_raw_target(requested: int) -> int {
    let v = requested + MIN_RAW_VALUE;
    if v > MAX_RAW_VALUE {
        MAX_RAW_VALUE as int
    } else if v < MIN_RAW_VALUE {
        MIN_RAW_VALUE as int
    } else {
        v
    }
}

/// Plans a raw volume update: the requested offset is shifted into the raw
/// range and clamped; when the device already holds the target nothing is
/// written; otherwise the value is set, and the mute flag changes exactly
/// when the target crosses the mute point.
pub fn volume_update_plan(prev_raw: i32, requested: i32) -> (r: VolumePlan)
    requires
        -1000000 <= requested <= 1000000,
    ensures
        spec_raw_target(requested as int) == prev_raw ==> r == (VolumePlan {
            set_value: None,
            set_mute: None,
        }),
        spec_raw_target(requested as int) != prev_raw ==> {
            let target = spec_raw_target(requested as int);
            &&& r.set_value == Some(target as i32)
            &&& r.set_mute == (if prev_raw <= MIN_RAW_VALUE && target > MIN_RAW_VALUE {
                Some(false)
            } else if prev_raw > MIN_RAW_VALUE && target <= MIN_RAW_VALUE {
                Some(true)
            } else {
                None::<bool>
            })
        },
{
    let mut value: i32 = requested + MIN_RAW_VALUE;
    if value > MAX_RAW_VALUE {
        value = MAX_RAW_VALUE;
    } else if value < MIN_RAW_VALUE {
        value = MIN_RAW_VALUE;
    }
    if value == prev_raw {
        return VolumePlan { set_value: None, set_mute: None };
    }
    let set_mute = if prev_raw <= MIN_RAW_VALUE && value > MIN_RAW_VALUE {
        Some(false)
    } else if prev_raw > MIN_RAW_VALUE && value <= MIN_RAW_VALUE {
        Some(true)
    } else {
        None
    };
    VolumePlan { set_value: Some(value), set_mute }
}

/// The smallest power of two no smaller than `x`, and one for anything not
/// positive.
pub open spec fn spec_next_pow2(x: int) -> int
    decreases x,
{
    if x <= 1 {
        1
    } else {
        2 * spec_next_pow2((x + 1) / 2)
    }
}

/// The next power of two is indeed a power of two: it is two to the
/// exponent that the fragment-sizing spec also counts in.
pub proof fn lemma_next_pow2_is_power(x: int)
    requires
        x >= 1,
    ensures
        exists|n: nat| spec_next_pow2(x) == spec_pow2_u32(n),
    decreases x,
{
    if x <= 1 {
        assert(spec_next_pow2(x) == spec_pow2_u32(0));
    } else {
        let c = (x + 1) / 2;
        lemma_next_pow2_is_power(c);
        let n = choose|n: nat| spec_next_pow2(c) == spec_pow2_u32(n);
        assert(spec_next_pow2(x) == spec_pow2_u32(n + 1));
    }
}

/// The next power of two stays between `x` and twice `x`.
pub proof fn lemma_next_pow2_bounds(x: int)
    requires
        x >= 1,
    ensures
        spec_next_pow2(x) >= x,
        x == 1 ==> spec_next_pow2(x) == 1,
        x >= 2 ==> spec_next_pow2(x) <= 2 * x - 2,
    decreases x,
{
    if x >= 2 {
        let c = (x + 1) / 2;
        lemma_next_pow2_bounds(c);
    }
}

/// The smallest power of two no smaller than `x`; anything not positive is
/// taken to one, a sane floor.
pub fn next_power_of_2(x: i32) -> (r: i32)
    requires
        x <= 0x40000000,
    ensures
        r == spec_next_pow2(x as int),
        r >= 1,
        r >= x,
    decreases (if x >= 1 { x as int } else { 1int }),
{
    if x <= 1 {
        return 1;
    }
    proof {
        lemma_next_pow2_bounds(((x + 1) / 2) as int);
        lemma_next_pow2_bounds(x as int);
    }
    2 * next_power_of_2((x + 1) / 2)
}

/// The fragment specification the audio device is configured with: the low
/// half holds the smallest exponent whose power of two reaches the buffer
/// size, the high half asks for two fragments for low latency.
pub fn audio_fragment_spec(buffer_size: u32) -> (r: u32)
    requires
        1 <= buffer_size <= 0x40000000,
    ensures
        r >= 0x00020000,
        r - 0x00020000 <= 30,
        spec_pow2_u32((r - 0x00020000) as nat) >= buffer_size,
        r - 0x00020000 > 0 ==> spec_pow2_u32((r - 0x00020000 - 1) as nat) < buffer_size,
{
    let mut frag: u32 = 0;
    let mut reach: u32 = 1;
    while reach < buffer_size
        invariant
            1 <= buffer_size <= 0x40000000,
            frag <= 30,
            reach == spec_pow2_u32(frag as nat),
            frag > 0 ==> spec_pow2_u32((frag - 1) as nat) < buffer_size,
        decreases 32 - frag,
    {
        proof {
            if frag >= 30 {
                lemma_pow2_u32_mono_le(30, frag as nat);
                reveal_with_fuel(spec_pow2_u32, 31);
                assert(spec_pow2_u32(30) == 0x40000000);
                assert(reach >= 0x40000000);
            }
            assert(frag < 30);
            lemma_pow2_u32_mono_le(frag as nat, 29);
            reveal_with_fuel(spec_pow2_u32, 31);
            assert(spec_pow2_u32(29) == 0x20000000);
            assert(reach <= 0x20000000);
        }
        reach = 2 * reach;
        frag = frag + 1;
    }
    frag + 0x00020000
}

/// Two to the `n`.
pub open spec fn spec_pow2_u32(n: nat) -> int
    decreases n,
{
    if n == 0 {
        1
    } else {
        2 * spec_pow2_u32((n - 1) as nat)
    }
}

/// Two to any power is at least one.
proof fn lemma_pow2_u32_pos(n: nat)
    ensures
        spec_pow2_u32(n) >= 1,
    decreases n,
{
    if n > 0 {
        lemma_pow2_u32_pos((n - 1) as nat);
    }
}

/// Two to the power never shrinks as the exponent grows.
proof fn lemma_pow2_u32_mono_le(a: nat, b: nat)
    requires
        a <= b,
    ensures
        1 <= spec_pow2_u32(a) <= spec_pow2_u32(b),
    decreases b,
{
    lemma_pow2_u32_pos(a);
    if a < b {
        lemma_pow2_u32_mono_le(a, (b - 1) as nat);
        lemma_pow2_u32_pos((b - 1) as nat);
    }
}

/// The bit the audio device's format word sets when it can play signed
/// 16-bit little-endian samples, the only format the playback path emits.
pub const AUDIO_FORMAT_S16_LE: i32 = 0x10;

/// Whether the audio device supports the one sample format the playback
/// path uses; a device without it cannot be opened.
pub fn audio_format_supported(formats: i32) -> (r: bool)
    ensures
        r == (formats & AUDIO_FORMAT_S16_LE != 0),
{
    formats & AUDIO_FORMAT_S16_LE != 0
}

/// Polarity of a PWM channel.
#[derive(Clone, Copy, Debug, PartialEq, Eq, Structural)]
pub enum Polarity {
    Normal,
    Inverse,
}

impl Polarity {
    /// The value the PWM polarity file takes.
    pub fn as_str(&self) -> (r: &str)
        ensures
            self == Polarity::Normal ==> r@ == "normal"@,
            self == Polarity::Inverse ==> r@ == "inversed"@,
    {
        match self {
            Polarity::Normal => "normal",
            Polarity::Inverse => "inversed",
        }
    }
}

/// Errors reading a PWM attribute file.
#[derive(Clone, Copy, Debug, PartialEq, Eq, Structural)]
pub enum PwmParseError {
    /// The file held something other than the expected flag value.
    Invalid,
}

/// Decodes the content of a PWM enable file: exactly `1` is enabled and
/// exactly `0` is disabled; anything else is an error.
pub fn parse_enabled(content: &str) -> (r: Result<bool, PwmParseError>)
    ensures
        content@ == "1"@ ==> r == Result::<bool, PwmParseError>::Ok(true),
        content@ == "0"@ ==> r == Result::<bool, PwmParseError>::Ok(false),
        content@ != "1"@ && content@ != "0"@ ==> r == Result::<bool, PwmParseError>::Err(
            PwmParseError::Invalid,
        ),
{
    proof {
        reveal_strlit("0");
        reveal_strlit("1");
        assert("0"@ != "1"@) by {
            assert("0"@[0] == '0');
            assert("1"@[0] == '1');
        }
    }
    if str_eq(content, "1") {
        Ok(true)
    } else if str_eq(content, "0") {
        Ok(false)
    } else {
        Err(PwmParseError::Invalid)
    }
}

/// The sysfs file of one PWM channel attribute.
pub open spec fn spec_pwm_file_path(chip: u64, pin: u64, name: Seq<char>) -> Seq<char> {
    "/sys/class/pwm/pwmchip"@ + spec_decimal(chip as int) + "/pwm"@ + spec_decimal(pin as int)
        + "/"@ + name
}

/// Builds the sysfs path of one PWM channel attribute.
pub fn pwm_file_path(chip: u64, pin: u64, name: &str) -> (r: String)
    ensures
        r@ == spec_pwm_file_path(chip, pin, name@),
{
    let mut r = String::from_str("/sys/class/pwm/pwmchip");
    push_decimal(chip, &mut r);
    r.append("/pwm");
    push_decimal(pin, &mut r);
    r.append("/");
    r.append(name);
    assert(r@ =~= spec_pwm_file_path(chip, pin, name@));
    r
}

/// The sysfs value file of one GPIO pin.
pub open spec fn spec_gpio_file_path(pin: u64, name: Seq<char>) -> Seq<char> {
    "/sys/class/gpio/gpio"@ + spec_decimal(pin as int) + "/"@ + name
}

/// Builds the sysfs path of one GPIO pin attribute.
pub fn gpio_file_path(pin: u64, name: &str) -> (r: String)
    ensures
        r@ == spec_gpio_file_path(pin, name@),
{
    let mut r = String::from_str("/sys/class/gpio/gpio");
    push_decimal(pin, &mut r);
    r.append("/");
    r.append(name);
    assert(r@ =~= spec_gpio_file_path(pin, name@));
    r
}

/// Direction of a GPIO pin, as its sysfs direction file spells it.
pub trait Direction {
    fn dir() -> &'static str;
}

/// An input pin.
#[derive(Clone, Copy, Debug, PartialEq, Eq, Structural)]
pub struct Input;

/// An output pin.
#[derive(Clone, Copy, Debug, PartialEq, Eq, Structural)]
pub struct Output;

impl Direction for Input {
    fn dir() -> &'static str {
        "in"
    }
}

impl Direction for Output {
    fn dir() -> &'static str {
        "out"
    }
}

/// Battery state reported by the charger hardware.
#[derive(Clone, Copy, Debug, PartialEq, Eq, Structural)]
pub struct BatteryInfo {
    /// Battery percentage.
    pub battery: u8,
    pub voltage: u32,
    /// Zero or one.
    pub charging: u8,
}

/// The hardware model the process runs on.
#[derive(Clone, Copy, Debug, PartialEq, Eq, Structural)]
pub enum Model {
    Mini,
    MiniPlus,
}

impl Model {
    /// Display width of the model.
    pub fn width(&self) -> (r: u32)
        ensures
            r == 640,
    {
        match self {
            Model::Mini => 640,
            Model::MiniPlus => 640,
        }
    }

    /// Display height of the model.
    pub fn height(&self) -> (r: u32)
        ensures
            r == 480,
    {
        match self {
            Model::Mini => 480,
            Model::MiniPlus => 480,
        }
    }

    /// The model an identification probe result names: the plus variant
    /// answers on the power-management bus, the base model does not.
    pub fn from_probe(is_plus: bool) -> (r: Model)
        ensures
            is_plus ==> r == Model::MiniPlus,
            !is_plus ==> r == Model::Mini,
    {
        if is_plus {
            Model::MiniPlus
        } else {
            Model::Mini
        }
    }
}

} // verus!
