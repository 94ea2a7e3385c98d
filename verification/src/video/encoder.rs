//! The OpenH264 encoder: its settings, and one frame through it.

use vstd::arithmetic::power2::pow2;
use vstd::prelude::*;

use openh264::encoder::EncoderConfig;

use crate::video::config::FPS;

verus! {

// ---------------------------------------------------------------------------
// Bitrate
// ---------------------------------------------------------------------------

/// The integer nearest to `n / d`; of two that are equally near, the even one.
pub open spec fn nearest_even(n: nat, d: nat) -> nat {
    let q = n / d;
    let r = n % d;
    if 2 * r < d || (2 * r == d && q % 2 == 0) {
        q
    } else {
        q + 1
    }
}

/// How many binary places a double-precision number between `368_640 / 921_600`
/// and `2_949_120 / 921_600` has, for the quotient `area / 921_600`.
pub open spec fn quotient_places(area: nat) -> nat {
    if area < 460_800 {
        54
    } else if area < 921_600 {
        53
    } else if area < 1_843_200 {
        52
    } else {
        51
    }
}

/// How many binary places a double-precision number between `2^19` and `2^23` has.
pub open spec fn product_places(whole: nat) -> nat {
    if whole < 0x10_0000 {
        33
    } else if whole < 0x20_0000 {
        32
    } else if whole < 0x40_0000 {
        31
    } else {
        30
    }
}

/// The whole part of `2_500_000 * (area / 921_600)` in double precision, where
/// the quotient and then the product are each rounded to 53 significant bits.
pub open spec fn scaled_bitrate(area: nat) -> nat {
    let places = quotient_places(area);
    let quotient = nearest_even(area * pow2(places), 921_600);
    let product = quotient * 2_500_000;
    let kept = product_places(product / pow2(places));
    nearest_even(product, pow2((places - kept) as nat)) / pow2(kept)
}

/// The bitrate for an area of this many pixels: in proportion to the area, and
/// between one and eight megabits per second.
pub open spec fn bitrate(area: nat) -> nat {
    if area <= 368_640 {
        1_000_000
    } else if area >= 2_949_120 {
        8_000_000
    } else if scaled_bitrate(area) < 1_000_000 {
        1_000_000
    } else if scaled_bitrate(area) > 8_000_000 {
        8_000_000
    } else {
        scaled_bitrate(area)
    }
}

fn power_of_two(n: u32) -> (power: u128)
    requires
        n <= 64,
    ensures
        power == pow2(n as nat),
        0 < power <= 0x1_0000_0000_0000_0000,
    decreases n,
{
    proof {
        vstd::arithmetic::power2::lemma2_to64();
        vstd::arithmetic::power2::lemma_pow2_pos(n as nat);
    }
    if n == 0 {
        1
    } else {
        proof {
            vstd::arithmetic::power2::lemma_pow2_unfold(n as nat);
            if n < 64 {
                vstd::arithmetic::power2::lemma_pow2_strictly_increases(n as nat, 64);
            }
        }
        2 * power_of_two(n - 1)
    }
}

fn round_half_even(n: u128, d: u128) -> (q: u128)
    requires
        0 < d <= 0x1_0000_0000_0000_0000,
        n < u128::MAX,
    ensures
        q == nearest_even(n as nat, d as nat),
        q <= n / d + 1,
{
    let q: u128 = n / d;
    let r: u128 = n % d;
    assert(q <= n) by (nonlinear_arith)
        requires
            d > 0,
            q == n / d,
    ;
    if 2 * r < d || (2 * r == d && q % 2 == 0) {
        q
    } else {
        q + 1
    }
}

/// Pick a sensible bitrate for the captured resolution (scaled by area, capped).
///
/// The scaling is that of double-precision arithmetic, rounding included.
pub fn bitrate_for(width: usize, height: usize) -> (bps: u32)
    requires
        width * height <= usize::MAX,
    ensures
        bps == bitrate((width * height) as nat),
{
    let area: usize = width * height;
    if area <= 368_640 {
        return 1_000_000;
    }
    if area >= 2_949_120 {
        return 8_000_000;
    }
    let places: u32 = if area < 460_800 {
        54
    } else if area < 921_600 {
        53
    } else if area < 1_843_200 {
        52
    } else {
        51
    };
    let unit: u128 = power_of_two(places);
    let wide: u128 = area as u128;
    assert(wide * unit <= 0x30_0000_0000_0000_0000_0000) by (nonlinear_arith)
        requires
            wide < 0x30_0000,
            unit <= 0x1_0000_0000_0000_0000,
    ;
    let quotient: u128 = round_half_even(wide * unit, 921_600);
    assert(quotient <= 0x4_0000_0000_0000_0000);
    let product: u128 = quotient * 2_500_000;
    let whole: u128 = product / unit;
    let kept: u32 = if whole < 0x10_0000 {
        33
    } else if whole < 0x20_0000 {
        32
    } else if whole < 0x40_0000 {
        31
    } else {
        30
    };
    let rounded: u128 = round_half_even(product, power_of_two(places - kept));
    let scaled: u128 = rounded / power_of_two(kept);
    assert(scaled == scaled_bitrate(area as nat));
    if scaled < 1_000_000 {
        1_000_000
    } else if scaled > 8_000_000 {
        8_000_000
    } else {
        scaled as u32
    }
}

/// Rounding moves a quotient by half a unit at most.
proof fn rounding_is_close(n: nat, d: nat)
    requires
        d > 0,
    ensures
        -(d as int) <= 2 * (nearest_even(n, d) * d - n) <= d,
{
    let q = n / d;
    let r = n % d;
    vstd::arithmetic::div_mod::lemma_fundamental_div_mod(n as int, d as int);
    assert(q * d == d * q) by (nonlinear_arith);
    assert((q + 1) * d == q * d + d) by (nonlinear_arith);
}

/// The rounded quotient and product stay close to the exact ones, for one choice
/// of binary places.
proof fn scaling_is_close(area: nat, unit: nat, step: nat, kept_unit: nat)
    requires
        unit == step * kept_unit,
        step >= 0x4_0000,
        kept_unit >= 0x4000_0000,
    ensures
        ({
            let quotient = nearest_even(area * unit, 921_600);
            let scaled = nearest_even(quotient * 2_500_000, step) / kept_unit;
            scaled * 921_600 <= area * 2_500_000 <= (scaled + 1) * 921_600
        }),
{
    let quotient = nearest_even(area * unit, 921_600);
    let product = quotient * 2_500_000;
    let rounded = nearest_even(product, step);
    let scaled = rounded / kept_unit;
    let rest = rounded % kept_unit;
    rounding_is_close(area * unit, 921_600);
    rounding_is_close(product, step);
    vstd::arithmetic::div_mod::lemma_fundamental_div_mod(rounded as int, kept_unit as int);
    // How far `rounded` is from the exact value, in units of `1 / (921_600 * step)`.
    let error = rounded * step * 921_600 - area * unit * 2_500_000;
    let e1 = rounded * step - product;
    let e2 = quotient * 921_600 - area * unit;
    assert(error == e1 * 921_600 + e2 * 2_500_000);
    assert(-460_800 * step - 460_800 * 2_500_000 <= error <= 460_800 * step + 460_800 * 2_500_000);
    // The same in units of `1 / 921_600`.
    let exact = area * kept_unit * 2_500_000;
    let near = rounded * 921_600 - exact;
    assert(near * step == error) by (nonlinear_arith)
        requires
            near == rounded * 921_600 - exact,
            exact == area * kept_unit * 2_500_000,
            unit == step * kept_unit,
            error == rounded * step * 921_600 - area * unit * 2_500_000,
    ;
    assert(-5_000_000 <= near <= 5_000_000) by (nonlinear_arith)
        requires
            near * step == error,
            step >= 0x4_0000,
            -460_800 * step - 460_800 * 2_500_000 <= error <= 460_800 * step + 460_800 * 2_500_000,
    ;
    // And in whole units.
    let low = scaled * 921_600 - area * 2_500_000;
    assert(low * kept_unit + rest * 921_600 == near) by (nonlinear_arith)
        requires
            low == scaled * 921_600 - area * 2_500_000,
            rounded == kept_unit * scaled + rest,
            exact == area * kept_unit * 2_500_000,
            near == rounded * 921_600 - exact,
    ;
    assert(low <= 0) by (nonlinear_arith)
        requires
            low * kept_unit + rest * 921_600 == near,
            near <= 5_000_000,
            rest >= 0,
            kept_unit >= 0x4000_0000,
    ;
    assert(low + 921_600 >= 0) by (nonlinear_arith)
        requires
            low * kept_unit + rest * 921_600 == near,
            near >= -5_000_000,
            rest < kept_unit,
            kept_unit >= 0x4000_0000,
    ;
}

/// The scaled rate stays close to the exact one.
proof fn scaled_bitrate_is_close(area: nat)
    requires
        368_640 < area < 2_949_120,
    ensures
        scaled_bitrate(area) * 921_600 <= area * 2_500_000 <= (scaled_bitrate(area) + 1) * 921_600,
{
    vstd::arithmetic::power2::lemma2_to64();
    vstd::arithmetic::power2::lemma2_to64_rest();
    let places = quotient_places(area);
    let quotient = nearest_even(area * pow2(places), 921_600);
    let kept = product_places(quotient * 2_500_000 / pow2(places));
    let rest = (places - kept) as nat;
    vstd::arithmetic::power2::lemma_pow2_adds(rest, kept);
    assert(pow2(kept) >= 0x4000_0000);
    assert(pow2(rest) >= 0x4_0000);
    scaling_is_close(area, pow2(places), pow2(rest), pow2(kept));
}

/// The bitrate is 2.5 megabits per second for every 1280 by 720 pixels, rounded
/// down, as long as that is between one and eight megabits. Where the exact rate
/// is a whole number, rounding on the way may lose one bit per second.
pub proof fn the_bitrate_is_proportional_to_the_area(area: nat)
    ensures
        1_000_000 <= bitrate(area) <= 8_000_000,
        1_000_000 < bitrate(area) < 8_000_000 ==> bitrate(area) * 921_600 <= area * 2_500_000
            <= (bitrate(area) + 1) * 921_600,
{
    if 368_640 < area < 2_949_120 {
        scaled_bitrate_is_close(area);
    }
}

/// The bitrate does not fall as the area grows.
pub proof fn larger_areas_get_no_lower_bitrate(a: nat, b: nat)
    requires
        a <= b,
    ensures
        bitrate(a) <= bitrate(b),
{
    if 368_640 < a < b < 2_949_120 {
        scaled_bitrate_is_close(a);
        scaled_bitrate_is_close(b);
    }
}

// ---------------------------------------------------------------------------
// Outside types
// ---------------------------------------------------------------------------

#[verifier::external_type_specification]
#[verifier::external_body]
pub struct ExEncoder(openh264::encoder::Encoder);

#[verifier::external_type_specification]
#[verifier::external_body]
pub struct ExEncoderConfig(openh264::encoder::EncoderConfig);

#[verifier::external_type_specification]
#[verifier::external_body]
pub struct ExYuvBuffer(openh264::formats::YUVBuffer);

#[verifier::external_type_specification]
#[verifier::external_body]
pub struct ExEncoderError(openh264::Error);

/// The width and height that a `YUVBuffer` was made with.
pub uninterp spec fn yuv_size(buffer: openh264::formats::YUVBuffer) -> (usize, usize);

/// What a `YUVBuffer` holds: its brightness plane, then its two chroma planes.
pub uninterp spec fn yuv_planes(buffer: openh264::formats::YUVBuffer) -> Seq<u8>;

/// The planes that `YUVBuffer::read_rgba8` makes of an RGBA frame of this size.
pub uninterp spec fn i420(rgba: Seq<u8>, width: usize, height: usize) -> Seq<u8>;

/// The planes of a buffer of this size that nothing was converted into yet.
pub open spec fn blank_planes(width: usize, height: usize) -> Seq<u8> {
    Seq::new(((3 * (width * height)) / 2) as nat, |i: int| 0u8)
}

/// `YUVBuffer::new` makes a buffer of the given size, filled with zeros. It panics
/// unless both dimensions are even, and where the number of bytes does not fit a
/// `usize`.
pub assume_specification[ openh264::formats::YUVBuffer::new ](width: usize, height: usize) -> (buffer: openh264::formats::YUVBuffer)
    requires
        width % 2 == 0,
        height % 2 == 0,
        3 * (width * height) <= usize::MAX,
    ensures
        yuv_size(buffer) == (width, height),
        yuv_planes(buffer) == blank_planes(width, height),
;

/// `YUVBuffer::read_rgba8` converts an RGBA frame of the buffer's size into it,
/// and keeps the size. It panics on a frame of another size, and where the bytes
/// of one row do not fit a `usize`. The conversion is integer arithmetic, the same
/// on every machine.
#[verifier::external_body]
pub(crate) fn read_rgba(
    buffer: &mut openh264::formats::YUVBuffer,
    rgba: &[u8],
    width: usize,
    height: usize,
)
    requires
        width % 2 == 0,
        height % 2 == 0,
        rgba@.len() == width * height * 4,
        4 * width <= usize::MAX,
        yuv_size(*old(buffer)) == (width, height),
    ensures
        yuv_size(*final(buffer)) == yuv_size(*old(buffer)),
        yuv_planes(*final(buffer)) == i420(rgba@, width, height),
{
    buffer.read_rgba8(openh264::formats::RgbaSliceU8::new(rgba, (width, height)));
}

/// What an encoder is used for, in real time.
#[derive(Debug, Clone, Copy, PartialEq, Eq)]
pub enum Usage {
    Camera,
    Screen,
}

/// What an encoder holds its output to.
#[derive(Debug, Clone, Copy, PartialEq, Eq)]
pub enum RateControl {
    Quality,
    Bitrate,
    Off,
}

/// The H.264 profile of a stream.
#[derive(Debug, Clone, Copy, PartialEq, Eq)]
pub enum Profile {
    Baseline,
    Main,
    High,
}

/// How hard an encoder works for quality.
#[derive(Debug, Clone, Copy, PartialEq, Eq)]
pub enum Complexity {
    Low,
    Medium,
    High,
}

/// The colors that a stream says it has: BT.709, with the range of television or
/// the full range of computer graphics.
#[derive(Debug, Clone, Copy, PartialEq, Eq)]
pub enum Colors {
    Limited,
    Full,
}

/// The settings of an encoder.
#[derive(Debug, Clone, Copy, PartialEq, Eq)]
pub struct Settings {
    /// Bits per second.
    pub bps: u32,
    /// Frames per second.
    pub fps: u32,
    /// Frames from one intra frame to the next.
    pub intra_frames: u32,
    pub usage: Usage,
    pub rate_control: RateControl,
    pub profile: Profile,
    pub complexity: Complexity,
    pub adaptive_quantization: bool,
    pub background_detection: bool,
    pub colors: Colors,
}

/// The settings that an `EncoderConfig` holds.
pub uninterp spec fn config_settings(config: EncoderConfig) -> Settings;

/// `EncoderConfig::new` makes a configuration of defaults. Nothing is stated of them:
/// every one of the settings is set behind it.
pub assume_specification[ openh264::encoder::EncoderConfig::new ]() -> (config: EncoderConfig)
;

/// `EncoderConfig::bitrate` sets the bits per second.
#[verifier::external_body]
fn set_bitrate(config: EncoderConfig, bps: u32) -> (changed: EncoderConfig)
    ensures
        config_settings(changed) == (Settings { bps, ..config_settings(config) }),
{
    config.bitrate(openh264::encoder::BitRate::from_bps(bps))
}

/// `EncoderConfig::max_frame_rate` sets the frames per second, as a single-precision
/// number, which holds every integer up to the bound.
#[verifier::external_body]
fn set_frame_rate(config: EncoderConfig, fps: u32) -> (changed: EncoderConfig)
    requires
        fps <= 0x100_0000,
    ensures
        config_settings(changed) == (Settings { fps, ..config_settings(config) }),
{
    config.max_frame_rate(openh264::encoder::FrameRate::from_hz(fps as _))
}

/// `EncoderConfig::intra_frame_period` sets how many frames there are from one intra
/// frame to the next.
#[verifier::external_body]
fn set_intra_period(config: EncoderConfig, intra_frames: u32) -> (changed: EncoderConfig)
    ensures
        config_settings(changed) == (Settings { intra_frames, ..config_settings(config) }),
{
    config.intra_frame_period(openh264::encoder::IntraFramePeriod::from_num_frames(intra_frames))
}

/// `EncoderConfig::usage_type` sets what the encoder is used for.
#[verifier::external_body]
fn set_usage(config: EncoderConfig, usage: Usage) -> (changed: EncoderConfig)
    ensures
        config_settings(changed) == (Settings { usage, ..config_settings(config) }),
{
    config.usage_type(
        match usage {
            Usage::Camera => openh264::encoder::UsageType::CameraVideoRealTime,
            Usage::Screen => openh264::encoder::UsageType::ScreenContentRealTime,
        },
    )
}

/// `EncoderConfig::rate_control_mode` sets what the encoder holds its output to.
#[verifier::external_body]
fn set_rate_control(config: EncoderConfig, rate_control: RateControl) -> (changed: EncoderConfig)
    ensures
        config_settings(changed) == (Settings { rate_control, ..config_settings(config) }),
{
    config.rate_control_mode(
        match rate_control {
            RateControl::Quality => openh264::encoder::RateControlMode::Quality,
            RateControl::Bitrate => openh264::encoder::RateControlMode::Bitrate,
            RateControl::Off => openh264::encoder::RateControlMode::Off,
        },
    )
}

/// `EncoderConfig::profile` sets the H.264 profile.
#[verifier::external_body]
fn set_profile(config: EncoderConfig, profile: Profile) -> (changed: EncoderConfig)
    ensures
        config_settings(changed) == (Settings { profile, ..config_settings(config) }),
{
    config.profile(
        match profile {
            Profile::Baseline => openh264::encoder::Profile::Baseline,
            Profile::Main => openh264::encoder::Profile::Main,
            Profile::High => openh264::encoder::Profile::High,
        },
    )
}

/// `EncoderConfig::complexity` sets how hard the encoder works.
#[verifier::external_body]
fn set_complexity(config: EncoderConfig, complexity: Complexity) -> (changed: EncoderConfig)
    ensures
        config_settings(changed) == (Settings { complexity, ..config_settings(config) }),
{
    config.complexity(
        match complexity {
            Complexity::Low => openh264::encoder::Complexity::Low,
            Complexity::Medium => openh264::encoder::Complexity::Medium,
            Complexity::High => openh264::encoder::Complexity::High,
        },
    )
}

/// `EncoderConfig::adaptive_quantization` turns adaptive quantization on or off.
pub assume_specification[ openh264::encoder::EncoderConfig::adaptive_quantization ](
    config: EncoderConfig,
    value: bool,
) -> (changed: EncoderConfig)
    ensures
        config_settings(changed) == (Settings {
            adaptive_quantization: value,
            ..config_settings(config)
        }),
;

/// `EncoderConfig::background_detection` turns background detection on or off.
pub assume_specification[ openh264::encoder::EncoderConfig::background_detection ](
    config: EncoderConfig,
    value: bool,
) -> (changed: EncoderConfig)
    ensures
        config_settings(changed) == (Settings {
            background_detection: value,
            ..config_settings(config)
        }),
;

/// `EncoderConfig::vui` sets the colors that the stream says it has.
#[verifier::external_body]
fn set_colors(config: EncoderConfig, colors: Colors) -> (changed: EncoderConfig)
    ensures
        config_settings(changed) == (Settings { colors, ..config_settings(config) }),
{
    config.vui(
        match colors {
            Colors::Limited => openh264::encoder::VuiConfig::bt709(),
            Colors::Full => openh264::encoder::VuiConfig::bt709_full(),
        },
    )
}

/// The configuration that holds these settings.
pub fn configure(settings: Settings) -> (config: EncoderConfig)
    requires
        settings.fps <= 0x100_0000,
    ensures
        config_settings(config) == settings,
{
    let config = EncoderConfig::new();
    let config = set_bitrate(config, settings.bps);
    let config = set_frame_rate(config, settings.fps);
    let config = set_usage(config, settings.usage);
    let config = set_rate_control(config, settings.rate_control);
    let config = set_profile(config, settings.profile);
    let config = set_complexity(config, settings.complexity);
    let config = config.adaptive_quantization(settings.adaptive_quantization);
    let config = config.background_detection(settings.background_detection);
    let config = set_intra_period(config, settings.intra_frames);
    set_colors(config, settings.colors)
}

/// The settings of every screen stream, but for the bitrate: real-time screen
/// content in the Baseline profile at low complexity, held to the bitrate, with an
/// intra frame every two seconds and the full range of computer graphics. Adaptive
/// quantization and background detection, which screen content forces off, are off
/// up front.
pub open spec fn screen_settings(bps: u32) -> Settings {
    Settings {
        bps,
        fps: FPS,
        intra_frames: (FPS * 2) as u32,
        usage: Usage::Screen,
        rate_control: RateControl::Bitrate,
        profile: Profile::Baseline,
        complexity: Complexity::Low,
        adaptive_quantization: false,
        background_detection: false,
        colors: Colors::Full,
    }
}

/// The settings of a screen stream at this bitrate.
pub fn settings_at(bps: u32) -> (settings: Settings)
    ensures
        settings == screen_settings(bps),
{
    Settings {
        bps,
        fps: FPS,
        intra_frames: FPS * 2,
        usage: Usage::Screen,
        rate_control: RateControl::Bitrate,
        profile: Profile::Baseline,
        complexity: Complexity::Low,
        adaptive_quantization: false,
        background_detection: false,
        colors: Colors::Full,
    }
}

/// A picture that an encoder was given, with its timestamp in milliseconds.
pub struct Picture {
    pub planes: Seq<u8>,
    pub size: (usize, usize),
    pub millis: u64,
}

/// The settings that an `Encoder` was made with.
pub uninterp spec fn encoder_settings(encoder: openh264::encoder::Encoder) -> Settings;

/// The pictures that an `Encoder` was given so far.
pub uninterp spec fn encoder_inputs(encoder: openh264::encoder::Encoder) -> Seq<Picture>;

/// What an `Encoder` made of each of the pictures that it was given so far: the type
/// and the Annex-B bytes of a frame, or nothing where it failed.
pub uninterp spec fn encoder_outputs(encoder: openh264::encoder::Encoder) -> Seq<
    Option<(FrameType, Seq<u8>)>,
>;

/// An encoder with these settings that was given nothing yet.
pub open spec fn is_fresh(
    encoder: Result<openh264::encoder::Encoder, openh264::Error>,
    settings: Settings,
) -> bool {
    encoder matches Ok(e) ==> {
        &&& encoder_settings(e) == settings
        &&& encoder_inputs(e).len() == 0
        &&& encoder_outputs(e).len() == 0
    }
}

/// `Encoder::with_api_config` keeps the configuration it is given.
///
/// Whether the library can set an encoder up is the machine's to say.
#[verifier::external_body]
fn with_config(config: EncoderConfig) -> (encoder: Result<
    openh264::encoder::Encoder,
    openh264::Error,
>)
    ensures
        is_fresh(encoder, config_settings(config)),
{
    openh264::encoder::Encoder::with_api_config(openh264::OpenH264API::from_source(), config)
}

/// Open an encoder with these settings.
pub(crate) fn open_encoder(settings: Settings) -> (encoder: Result<
    openh264::encoder::Encoder,
    openh264::Error,
>)
    requires
        settings.fps <= 0x100_0000,
    ensures
        is_fresh(encoder, settings),
{
    with_config(configure(settings))
}

/// What the encoder says of a frame that it produced.
#[derive(Debug, Clone, Copy, PartialEq, Eq)]
pub enum FrameType {
    Invalid,
    IDR,
    I,
    P,
    Skip,
    IPMixed,
}

/// One encoded frame: its type and its Annex-B bytes.
pub struct EncodedFrame {
    pub frame_type: FrameType,
    pub annexb: Vec<u8>,
}

/// The frame that came out, where one did.
pub open spec fn output_of<E>(frame: Result<EncodedFrame, E>) -> Option<(FrameType, Seq<u8>)> {
    match frame {
        Ok(frame) => Some((frame.frame_type, frame.annexb@)),
        Err(_) => None,
    }
}

/// `Encoder::encode_at`, with the type and the bytes of what it produced. The
/// encoder is given the picture in the buffer, and keeps its settings; what is
/// returned is what it made of the picture. It panics on a timestamp beyond
/// `i64::MAX` milliseconds.
///
/// Which frame that is, is left unsaid: it rests on every picture given before and
/// on how many threads the machine gives the encoder.
#[verifier::external_body]
pub(crate) fn encode_frame(
    encoder: &mut openh264::encoder::Encoder,
    buffer: &openh264::formats::YUVBuffer,
    millis: u64,
) -> (frame: Result<EncodedFrame, openh264::Error>)
    requires
        millis <= i64::MAX,
    ensures
        encoder_settings(*final(encoder)) == encoder_settings(*old(encoder)),
        encoder_inputs(*final(encoder)) == encoder_inputs(*old(encoder)).push(
            (Picture { planes: yuv_planes(*buffer), size: yuv_size(*buffer), millis }),
        ),
        encoder_outputs(*final(encoder)) == encoder_outputs(*old(encoder)).push(output_of(frame)),
{
    let stream = encoder.encode_at(buffer, openh264::Timestamp::from_millis(millis))?;
    let frame_type = match stream.frame_type() {
        openh264::encoder::FrameType::Invalid => FrameType::Invalid,
        openh264::encoder::FrameType::IDR => FrameType::IDR,
        openh264::encoder::FrameType::I => FrameType::I,
        openh264::encoder::FrameType::P => FrameType::P,
        openh264::encoder::FrameType::Skip => FrameType::Skip,
        openh264::encoder::FrameType::IPMixed => FrameType::IPMixed,
    };
    Ok(EncodedFrame { frame_type, annexb: stream.to_vec() })
}

/// What an `openh264::Error` prints.
pub uninterp spec fn error_words(error: openh264::Error) -> Seq<char>;

/// `openh264::Error` by its `Display`: its codes and its message.
#[verifier::external_body]
fn print_error(error: openh264::Error) -> (text: String)
    ensures
        text@ == error_words(error),
{
    error.to_string()
}

/// The `Debug` text of an encoder error, for the log. Nothing is stated of it: it
/// holds a backtrace, which is the machine's to give.
#[verifier::external_body]
pub(crate) fn error_text(error: openh264::Error) -> (text: String) {
    format!("{:?}", error)
}

// ---------------------------------------------------------------------------
// Encoder of one resolution
// ---------------------------------------------------------------------------

/// An encoder and its picture buffer, for one capture resolution.
pub struct ActiveEncoder {
    pub width: usize,
    pub height: usize,
    pub encoder: openh264::encoder::Encoder,
    pub yuv: openh264::formats::YUVBuffer,
}

/// Why the encoder refused.
#[derive(Debug)]
pub struct EncoderError {
    pub reason: String,
}

/// The settings for captures of this size: the bitrate goes by the area.
pub open spec fn settings_for(width: usize, height: usize) -> Settings {
    screen_settings(bitrate((width * height) as nat) as u32)
}

impl ActiveEncoder {
    /// The picture buffer has the encoder's resolution, both dimensions are even,
    /// and the encoder has the settings for them.
    pub open spec fn well_formed(self) -> bool {
        &&& self.width % 2 == 0
        &&& self.height % 2 == 0
        &&& yuv_size(self.yuv) == (self.width, self.height)
        &&& encoder_settings(self.encoder) == settings_for(self.width, self.height)
    }

    /// The pictures that the encoder was given so far.
    pub open spec fn inputs(self) -> Seq<Picture> {
        encoder_inputs(self.encoder)
    }

    /// What the encoder made of each of them.
    pub open spec fn outputs(self) -> Seq<Option<(FrameType, Seq<u8>)>> {
        encoder_outputs(self.encoder)
    }

    /// Encode one RGBA frame of the encoder's resolution: the frame is converted, the
    /// encoder given the picture, and what it made of it handed out.
    pub fn encode(&mut self, rgba: &[u8], timestamp_ms: u32) -> (frame: Result<
        EncodedFrame,
        EncoderError,
    >)
        requires
            old(self).well_formed(),
            rgba@.len() == old(self).width * old(self).height * 4,
            4 * old(self).width <= usize::MAX,
        ensures
            final(self).well_formed(),
            final(self).width == old(self).width,
            final(self).height == old(self).height,
            final(self).inputs() == old(self).inputs().push(
                (Picture {
                    planes: i420(rgba@, old(self).width, old(self).height),
                    size: (old(self).width, old(self).height),
                    millis: timestamp_ms as u64,
                }),
            ),
            final(self).outputs() == old(self).outputs().push(output_of(frame)),
    {
        read_rgba(&mut self.yuv, rgba, self.width, self.height);
        match encode_frame(&mut self.encoder, &self.yuv, timestamp_ms as u64) {
            Ok(frame) => Ok(frame),
            Err(error) => Err(EncoderError { reason: error_text(error) }),
        }
    }
}

/// What [`create_encoder`] hands out for each outcome of opening the encoder.
pub fn with_buffer(
    width: usize,
    height: usize,
    opened: Result<openh264::encoder::Encoder, openh264::Error>,
) -> (active: Result<ActiveEncoder, EncoderError>)
    requires
        width % 2 == 0,
        height % 2 == 0,
        3 * (width * height) <= usize::MAX,
    ensures
        active is Ok <==> opened is Ok,
        active matches Ok(a) ==> {
            &&& a.width == width
            &&& a.height == height
            &&& yuv_size(a.yuv) == (width, height)
            &&& yuv_planes(a.yuv) == blank_planes(width, height)
            &&& opened == Ok::<openh264::encoder::Encoder, openh264::Error>(a.encoder)
        },
        active matches Err(refused) ==> refused.reason@ == error_words(opened->Err_0),
{
    match opened {
        Ok(encoder) => Ok(
            ActiveEncoder {
                width,
                height,
                encoder,
                yuv: openh264::formats::YUVBuffer::new(width, height),
            },
        ),
        Err(error) => Err(EncoderError { reason: print_error(error) }),
    }
}

/// An encoder for captures of the given size, with the settings for it and a blank
/// picture buffer.
///
/// Whether there is one is for the codec library to say; [`with_buffer`] says what
/// follows from each answer.
pub fn create_encoder(width: usize, height: usize) -> (active: Result<ActiveEncoder, EncoderError>)
    requires
        width % 2 == 0,
        height % 2 == 0,
        3 * (width * height) <= usize::MAX,
    ensures
        active matches Ok(a) ==> {
            &&& a.well_formed()
            &&& a.width == width
            &&& a.height == height
            &&& a.inputs().len() == 0
            &&& a.outputs().len() == 0
            &&& yuv_planes(a.yuv) == blank_planes(width, height)
        },
        active matches Err(refused) ==> exists|error: openh264::Error|
            refused.reason@ == #[trigger] error_words(error),
{
    with_buffer(width, height, open_encoder(settings_at(bitrate_for(width, height))))
}

/// The settings of two encoders differ in the bit rate alone, and that is the one asked
/// for: a screen at ten frames per second with a keyframe at least every two seconds, in
/// the baseline profile, at a steady bit rate and without what costs time.
pub proof fn encoders_differ_in_the_bitrate_alone(a: u32, b: u32)
    ensures
        screen_settings(a).bps == a,
        screen_settings(a) == (Settings { bps: a, ..screen_settings(b) }),
        screen_settings(a).fps == 10,
        screen_settings(a).intra_frames == 2 * screen_settings(a).fps,
        screen_settings(a).usage is Screen,
        screen_settings(a).rate_control is Bitrate,
        screen_settings(a).profile is Baseline,
        screen_settings(a).complexity is Low,
        screen_settings(a).colors is Full,
        !screen_settings(a).adaptive_quantization,
        !screen_settings(a).background_detection,
{
}

/// The bit rate is 2.5 megabits per second for 1280 by 720 pixels, and in proportion for
/// any other area, rounded down by less than two bits, as long as that lies between one
/// megabit and eight.
pub proof fn the_bitrate_follows_the_area(area: nat)
    ensures
        area * 2_500_000 <= 1_000_000 * 921_600 ==> bitrate(area) == 1_000_000,
        area * 2_500_000 >= 8_000_000 * 921_600 ==> bitrate(area) == 8_000_000,
        1_000_000 * 921_600 <= area * 2_500_000 <= 8_000_000 * 921_600 ==> bitrate(area) * 921_600
            <= area * 2_500_000 <= (bitrate(area) + 1) * 921_600,
{
    if 368_640 < area < 2_949_120 {
        scaled_bitrate_is_close(area);
    }
}

/// An encoder is set up for the bit rate of the area it encodes.
pub proof fn encoders_are_set_up_for_their_area(width: usize, height: usize)
    ensures
        settings_for(width, height).bps == bitrate((width * height) as nat),
        settings_for(width, height) == settings_for(height, width),
{
    larger_areas_get_no_lower_bitrate(0, (width * height) as nat);
    the_bitrate_is_proportional_to_the_area((width * height) as nat);
    assert(width * height == height * width) by (nonlinear_arith);
}

} // verus!
