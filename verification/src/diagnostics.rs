//! Diagnostics of the streaming pipeline: does the encoder's word on a frame agree
//! with the NAL units in it?

use vstd::prelude::*;

use crate::video::config::FPS;
use crate::video::encoder::{
    encode_frame, encoder_inputs, encoder_outputs, encoder_settings, error_text, open_encoder,
    output_of, screen_settings, settings_at, yuv_planes, yuv_size, EncoderError, FrameType, Picture,
};
use crate::video::nal::{
    annexb_nals, annexb_units, find_nal, has_unit, nal_type, unit_bytes, unit_type, NAL_IDR,
};
use crate::video::stream::is_key_type;

verus! {

/// Which frame types count as keyframes.
#[derive(Debug, Clone, Copy, PartialEq, Eq)]
pub enum KeyRule {
    /// IDR frames.
    IdrOnly,
    /// Every frame type that the stream takes for a keyframe.
    AsStreamed,
}

/// The frame type counts as a keyframe.
pub open spec fn counts_as_key(frame_type: FrameType, rule: KeyRule) -> bool {
    match rule {
        KeyRule::IdrOnly => frame_type is IDR,
        KeyRule::AsStreamed => is_key_type(frame_type),
    }
}

/// One frame, and what was found in it.
pub struct FrameCheck {
    pub frame: u32,
    pub frame_type: FrameType,
    pub raw: Vec<u8>,
    /// The types of its NAL units.
    pub types: Vec<u8>,
    /// There is an IDR unit.
    pub nal_key: bool,
    /// The encoder's word and the scan agree.
    pub agrees: bool,
}

/// The types of units.
pub open spec fn unit_types(units: Seq<Seq<u8>>) -> Seq<u8> {
    units.map_values(|unit: Seq<u8>| unit_type(unit))
}

impl FrameCheck {
    /// What is said of the frame is so.
    pub open spec fn is_true(self, rule: KeyRule) -> bool {
        let units = annexb_units(self.raw@);
        &&& self.types@ == unit_types(units)
        &&& self.nal_key == has_unit(units, NAL_IDR)
        &&& self.agrees == (self.nal_key == counts_as_key(self.frame_type, rule))
    }
}

/// Look into one encoded frame.
pub fn check_frame(frame: u32, frame_type: FrameType, raw: Vec<u8>, rule: KeyRule) -> (check:
    FrameCheck)
    ensures
        check.frame == frame,
        check.frame_type == frame_type,
        check.raw@ == raw@,
        check.is_true(rule),
{
    let nals = annexb_nals(raw.as_slice());
    let ghost units = unit_bytes(nals@);
    let mut types: Vec<u8> = Vec::new();
    let mut i: usize = 0;
    while i < nals.len()
        invariant
            i <= nals@.len(),
            units == unit_bytes(nals@),
            forall|k: int| 0 <= k < nals@.len() ==> (#[trigger] nals@[k])@.len() > 0,
            types@ == unit_types(units).take(i as int),
        decreases nals@.len() - i,
    {
        types.push(nal_type(nals[i]));
        assert(units[i as int] == nals@[i as int]@);
        assert(types@ =~= unit_types(units).take(i + 1));
        i = i + 1;
    }
    assert(types@ =~= unit_types(units));
    let nal_key = find_nal(&nals, NAL_IDR).is_some();
    let encoder_key = match (frame_type, rule) {
        (FrameType::IDR, _) => true,
        (FrameType::I, KeyRule::AsStreamed) => true,
        (FrameType::IPMixed, KeyRule::AsStreamed) => true,
        _ => false,
    };
    FrameCheck { frame, frame_type, raw, types, nal_key, agrees: encoder_key == nal_key }
}

/// How many of the frames disagree.
pub open spec fn mismatches(checks: Seq<FrameCheck>) -> nat
    decreases checks.len(),
{
    if checks.len() == 0 {
        0
    } else {
        mismatches(checks.drop_last()) + if checks.last().agrees {
            0nat
        } else {
            1nat
        }
    }
}

/// How many of the frames disagree.
pub fn count_mismatches(checks: &Vec<FrameCheck>) -> (count: usize)
    ensures
        count == mismatches(checks@),
{
    let mut count: usize = 0;
    let mut i: usize = 0;
    assert(checks@.take(0) =~= seq![]);
    while i < checks.len()
        invariant
            i <= checks@.len(),
            count <= i,
            count == mismatches(checks@.take(i as int)),
        decreases checks@.len() - i,
    {
        assert(checks@.take(i + 1).drop_last() =~= checks@.take(i as int));
        if !checks[i].agrees {
            count = count + 1;
        }
        i = i + 1;
    }
    assert(checks@.take(checks@.len() as int) =~= checks@);
    count
}

// ---------------------------------------------------------------------------
// Test pattern
// ---------------------------------------------------------------------------

/// The brightness of a pixel of the test pattern: a diagonal ramp that moves with
/// the frame, or an even grey.
pub open spec fn brightness(x: int, y: int, frame: int, moving: bool) -> u8 {
    if moving {
        ((x / 2 + y + frame * 7) % 255) as u8
    } else {
        128
    }
}

/// The test pattern in I420: brightness row by row, then colourless chroma.
pub open spec fn is_pattern(
    data: Seq<u8>,
    width: int,
    height: int,
    frame: int,
    moving: bool,
) -> bool {
    &&& data.len() == width * height + width * height / 2
    &&& forall|k: int|
        0 <= k < width * height ==> #[trigger] data[k] == brightness(
            k % width,
            k / width,
            frame,
            moving,
        )
    &&& forall|k: int| width * height <= k < data.len() ==> #[trigger] data[k] == 128
}

/// The test pattern in I420.
pub fn make_yuv(width: usize, height: usize, frame: u32, moving: bool) -> (data: Vec<u8>)
    requires
        width * height + width * height / 2 <= usize::MAX,
        width / 2 + height + frame * 7 <= u32::MAX,
        width <= u32::MAX,
    ensures
        is_pattern(data@, width as int, height as int, frame as int, moving),
{
    let area: usize = width * height;
    let mut data: Vec<u8> = Vec::new();
    let mut x: usize = 0;
    let mut y: usize = 0;
    let mut k: usize = 0;
    assert(0 * width == 0) by (nonlinear_arith);
    while k < area
        invariant
            area == width * height,
            k <= area,
            k == y * width + x,
            x < width || k == area,
            x <= width,
            width / 2 + height + frame * 7 <= u32::MAX,
            width <= u32::MAX,
            y <= height,
            data@.len() == k,
            forall|j: int|
                0 <= j < k ==> #[trigger] data@[j] == brightness(
                    j % width as int,
                    j / width as int,
                    frame as int,
                    moving,
                ),
        decreases area - k,
    {
        proof {
            vstd::arithmetic::div_mod::lemma_fundamental_div_mod_converse(
                k as int,
                width as int,
                y as int,
                x as int,
            );
        }
        let value: u32 = if moving {
            (x as u32 / 2 + y as u32 + frame * 7) % 255
        } else {
            128
        };
        data.push(value as u8);
        k = k + 1;
        x = x + 1;
        if x == width {
            assert((y + 1) * width == y * width + width) by (nonlinear_arith);
            assert(k == area ==> y < height) by (nonlinear_arith)
                requires
                    k == y * width + width,
                    area == width * height,
                    width > 0,
            ;
            assert(k <= area ==> y + 1 <= height) by (nonlinear_arith)
                requires
                    k == (y + 1) * width,
                    area == width * height,
                    width > 0,
            ;
            x = 0;
            y = y + 1;
        }
    }
    let ghost bright = data@;
    let half: usize = area / 2;
    let mut c: usize = 0;
    while c < half
        invariant
            c <= half,
            half == area / 2,
            area == width * height,
            bright.len() == area,
            data@.len() == area + c,
            forall|j: int| 0 <= j < area ==> #[trigger] data@[j] == bright[j],
            forall|j: int| area <= j < data@.len() ==> #[trigger] data@[j] == 128,
        decreases half - c,
    {
        data.push(128);
        c = c + 1;
    }
    data
}

/// `YUVBuffer::from_vec` makes a buffer of the given size that holds these planes.
/// It panics unless both dimensions are even and the planes fill the buffer.
pub assume_specification[ openh264::formats::YUVBuffer::from_vec ](
    yuv: Vec<u8>,
    width: usize,
    height: usize,
) -> (buffer: openh264::formats::YUVBuffer)
    requires
        width % 2 == 0,
        height % 2 == 0,
        3 * (width * height) <= usize::MAX,
        yuv@.len() == (3 * (width * height)) / 2,
    ensures
        yuv_size(buffer) == (width, height),
        yuv_planes(buffer) == yuv@,
;

/// The frames that an encoder encoded, and why there are no more.
pub struct ProbedFrames {
    pub checks: Vec<FrameCheck>,
    pub failure: Option<EncoderError>,
}

/// The result of a probe: the frames that were encoded, why there are no more, and
/// the encoder, where there is one.
pub struct Probe {
    pub checks: Vec<FrameCheck>,
    pub failure: Option<EncoderError>,
    pub encoder: Option<openh264::encoder::Encoder>,
}

/// The bitrate that an encoder is probed with.
pub const PROBE_BPS: u32 = 2_500_000;

/// The picture is the given frame of the test pattern.
pub open spec fn is_probe_picture(
    picture: Picture,
    width: usize,
    height: usize,
    frame: int,
    moving: bool,
) -> bool {
    &&& is_pattern(picture.planes, width as int, height as int, frame, moving)
    &&& picture.size == (width, height)
    &&& picture.millis == frame * 1000 / FPS as int
}

/// The checks are those of the frames that the encoder made, and it failed on the
/// picture behind them where there is a failure.
pub open spec fn checks_outputs(
    checks: Seq<FrameCheck>,
    failed: bool,
    outputs: Seq<Option<(FrameType, Seq<u8>)>>,
) -> bool {
    &&& outputs.len() == checks.len() + if failed {
        1int
    } else {
        0int
    }
    &&& forall|i: int|
        0 <= i < checks.len() ==> #[trigger] outputs[i] == Some(
            (checks[i].frame_type, checks[i].raw@),
        )
    &&& failed ==> outputs.last() is None
}

/// Give an encoder this many frames of the test pattern, and look into what it makes
/// of each. It is given no more once it has failed.
pub fn probe(
    encoder: &mut openh264::encoder::Encoder,
    moving: bool,
    width: usize,
    height: usize,
    frames: u32,
) -> (probe: ProbedFrames)
    requires
        width % 2 == 0,
        height % 2 == 0,
        3 * (width * height) <= usize::MAX,
        width / 2 + height + frames * 7 <= u32::MAX,
        width <= u32::MAX,
        frames * 1000 <= u32::MAX,
    ensures
        probe.failure is None ==> probe.checks@.len() == frames,
        probe.failure is Some ==> probe.checks@.len() < frames,
        forall|i: int|
            0 <= i < probe.checks@.len() ==> (#[trigger] probe.checks@[i]).frame == i
                && probe.checks@[i].is_true(KeyRule::IdrOnly),
        encoder_settings(*final(encoder)) == encoder_settings(*old(encoder)),
        ({
            let before = encoder_inputs(*old(encoder));
            let after = encoder_inputs(*final(encoder));
            let given = after.len() - before.len();
            let made = encoder_outputs(*final(encoder));
            let made_before = encoder_outputs(*old(encoder));
            &&& made.take(made_before.len() as int) == made_before
            &&& checks_outputs(
                probe.checks@,
                probe.failure is Some,
                made.skip(made_before.len() as int),
            )
            &&& given == probe.checks@.len() + if probe.failure is Some {
                1int
            } else {
                0int
            }
            &&& after.take(before.len() as int) == before
            &&& forall|i: int|
                0 <= i < given ==> is_probe_picture(
                    #[trigger] after[before.len() + i],
                    width,
                    height,
                    i,
                    moving,
                )
        }),
{
    let ghost before = encoder_inputs(*encoder);
    let ghost made_before = encoder_outputs(*encoder);
    let mut checks: Vec<FrameCheck> = Vec::new();
    let mut frame: u32 = 0;
    proof {
        let (a, b) = (width as int / 2, height as int / 2);
        assert(width * height == 2 * (a * height)) by (nonlinear_arith)
            requires
                width == 2 * a,
        ;
        assert(width * height + width * height / 2 == (3 * (width * height)) / 2);
        assert(encoder_inputs(*encoder).take(before.len() as int) =~= before);
        assert(made_before.take(made_before.len() as int) =~= made_before);
    }
    while frame < frames
        invariant
            frame <= frames,
            frames * 1000 <= u32::MAX,
            width % 2 == 0,
            height % 2 == 0,
            width / 2 + height + frames * 7 <= u32::MAX,
            width <= u32::MAX,
            3 * (width * height) <= usize::MAX,
            width * height + width * height / 2 == (3 * (width * height)) / 2,
            checks@.len() == frame,
            forall|i: int|
                0 <= i < checks@.len() ==> (#[trigger] checks@[i]).frame == i
                    && checks@[i].is_true(KeyRule::IdrOnly),
            before == encoder_inputs(*old(encoder)),
            made_before == encoder_outputs(*old(encoder)),
            encoder_outputs(*encoder).take(made_before.len() as int) == made_before,
            encoder_outputs(*encoder).len() >= made_before.len(),
            checks_outputs(
                checks@,
                false,
                encoder_outputs(*encoder).skip(made_before.len() as int),
            ),
            encoder_settings(*encoder) == encoder_settings(*old(encoder)),
            encoder_inputs(*encoder).len() == before.len() + frame,
            encoder_inputs(*encoder).take(before.len() as int) == before,
            forall|i: int|
                0 <= i < frame ==> is_probe_picture(
                    #[trigger] encoder_inputs(*encoder)[before.len() + i],
                    width,
                    height,
                    i,
                    moving,
                ),
        decreases frames - frame,
    {
        let ghost given = encoder_inputs(*encoder);
        let ghost made = encoder_outputs(*encoder);
        let data = make_yuv(width, height, frame, moving);
        let yuv = openh264::formats::YUVBuffer::from_vec(data, width, height);
        let encoded = encode_frame(encoder, &yuv, (frame * 1000 / FPS) as u64);
        proof {
            let after = encoder_inputs(*encoder);
            assert(after.take(before.len() as int) =~= given.take(before.len() as int));
            assert forall|i: int| 0 <= i < frame + 1 implies is_probe_picture(
                #[trigger] after[before.len() + i],
                width,
                height,
                i,
                moving,
            ) by {
                if i < frame {
                    assert(after[before.len() + i] == given[before.len() + i]);
                }
            }
            let n = made_before.len() as int;
            assert(encoder_outputs(*encoder).take(n) =~= made.take(n));
            assert(encoder_outputs(*encoder).skip(n) =~= made.skip(n).push(output_of(encoded)));
        }
        match encoded {
            Ok(encoded) => checks.push(
                check_frame(frame, encoded.frame_type, encoded.annexb, KeyRule::IdrOnly),
            ),
            Err(error) => {
                return ProbedFrames {
                    checks,
                    failure: Some(EncoderError { reason: error_text(error) }),
                };
            },
        }
        frame = frame + 1;
    }
    ProbedFrames { checks, failure: None }
}

/// Open an encoder with the settings of a screen stream at [`PROBE_BPS`], give it
/// this many frames of the test pattern, and look into each.
///
/// Whether the encoder opens, and what it makes of a picture, is for the codec
/// library to say; [`probe`] and [`check_frame`] say what follows from its frames.
pub fn probe_encoder(moving: bool, width: usize, height: usize, frames: u32) -> (probe: Probe)
    requires
        width % 2 == 0,
        height % 2 == 0,
        3 * (width * height) <= usize::MAX,
        width / 2 + height + frames * 7 <= u32::MAX,
        width <= u32::MAX,
        frames * 1000 <= u32::MAX,
    ensures
        probe.failure is None ==> probe.checks@.len() == frames,
        probe.failure is Some && frames > 0 ==> probe.checks@.len() < frames,
        forall|i: int|
            0 <= i < probe.checks@.len() ==> (#[trigger] probe.checks@[i]).frame == i
                && probe.checks@[i].is_true(KeyRule::IdrOnly),
        probe.encoder is None ==> probe.failure is Some && probe.checks@.len() == 0,
        probe.encoder matches Some(encoder) ==> {
            let given = encoder_inputs(encoder);
            &&& encoder_settings(encoder) == screen_settings(PROBE_BPS)
            &&& checks_outputs(
                probe.checks@,
                probe.failure is Some,
                encoder_outputs(encoder),
            )
            &&& given.len() == probe.checks@.len() + if probe.failure is Some {
                1int
            } else {
                0int
            }
            &&& forall|i: int|
                0 <= i < given.len() ==> is_probe_picture(
                    #[trigger] given[i],
                    width,
                    height,
                    i,
                    moving,
                )
        },
{
    match open_encoder(settings_at(PROBE_BPS)) {
        Ok(encoder) => {
            let mut encoder = encoder;
            let ghost before = encoder_inputs(encoder);
            let probed = probe(&mut encoder, moving, width, height, frames);
            proof {
                let given = encoder_inputs(encoder);
                assert(encoder_outputs(encoder).skip(0) =~= encoder_outputs(encoder));
                assert forall|i: int| 0 <= i < given.len() implies is_probe_picture(
                    #[trigger] given[i],
                    width,
                    height,
                    i,
                    moving,
                ) by {
                    assert(given[before.len() + i] == given[i]);
                }
            }
            Probe { checks: probed.checks, failure: probed.failure, encoder: Some(encoder) }
        },
        Err(error) => Probe {
            checks: Vec::new(),
            failure: Some(EncoderError { reason: error_text(error) }),
            encoder: None,
        },
    }
}

/// What to do with a capture of the screen.
#[derive(Debug, Clone, Copy, PartialEq, Eq)]
pub enum CaptureStep {
    /// Encode it.
    Encode,
    /// Open an encoder for its resolution. The capture itself is not encoded.
    Reopen,
}

/// What to do with a capture, given the resolution that the encoder is for, where
/// there is an encoder.
pub fn on_capture(active: Option<(usize, usize)>, width: usize, height: usize) -> (next: CaptureStep)
    ensures
        next == if active == Some((width, height)) {
            CaptureStep::Encode
        } else {
            CaptureStep::Reopen
        },
{
    match active {
        Some((w, h)) => {
            if w == width && h == height {
                CaptureStep::Encode
            } else {
                CaptureStep::Reopen
            }
        },
        None => CaptureStep::Reopen,
    }
}

/// A check agrees if and only if the encoder's word and the units say the same: under the
/// one rule the word is that a frame is an IDR frame, under the other that it is any of
/// the types that are streamed as keyframes.
pub proof fn checks_compare_the_word_with_the_units(check: FrameCheck, rule: KeyRule)
    requires
        check.is_true(rule),
    ensures
        ({
            let units = annexb_units(check.raw@);
            let word = match rule {
                KeyRule::IdrOnly => check.frame_type is IDR,
                KeyRule::AsStreamed => check.frame_type is IDR || check.frame_type is I
                    || check.frame_type is IPMixed,
            };
            let holds = exists|j: int| 0 <= j < units.len() && (#[trigger] units[j])[0] % 32 == 5;
            &&& check.nal_key == holds
            &&& check.agrees <==> word == holds
            &&& check.types@.len() == units.len()
            &&& forall|j: int|
                0 <= j < units.len() ==> #[trigger] check.types@[j] == units[j][0] % 32
        }),
{
    let units = annexb_units(check.raw@);
    if exists|j: int| 0 <= j < units.len() && (#[trigger] units[j])[0] % 32 == 5 {
        let j = choose|j: int| 0 <= j < units.len() && (#[trigger] units[j])[0] % 32 == 5;
        crate::video::stream::units_there_are_found(units, 5, 0, j);
    } else {
        crate::video::nal::missing_types_are_not_found(units, 5);
    }
}

/// Mismatches add up: those of some checks and those of the others, one for each that
/// does not agree.
pub proof fn mismatches_add_up(a: Seq<FrameCheck>, b: Seq<FrameCheck>, check: FrameCheck)
    ensures
        mismatches(a + b) == mismatches(a) + mismatches(b),
        mismatches(seq![check]) == (if check.agrees { 0nat } else { 1 }),
        mismatches(Seq::<FrameCheck>::empty()) == 0,
    decreases b.len(),
{
    reveal_with_fuel(mismatches, 2);
    assert(seq![check].drop_last() =~= Seq::<FrameCheck>::empty());
    if b.len() == 0 {
        assert(a + b =~= a);
    } else {
        mismatches_add_up(a, b.drop_last(), check);
        assert((a + b).drop_last() =~= a + b.drop_last());
        assert((a + b).last() == b.last());
    }
}

/// The moving picture slides: two columns are as bright as one row, each frame is the one
/// before it seven rows on, and the brightness climbs row by row and starts over at 255. A
/// still picture is grey.
pub proof fn the_pattern_moves(x: int, y: int, frame: int)
    requires
        0 <= x,
        0 <= y,
        0 <= frame,
    ensures
        brightness(x, y, frame, false) == 128,
        brightness(x + 2, y, frame, true) == brightness(x, y + 1, frame, true),
        brightness(x, y, frame + 1, true) == brightness(x, y + 7, frame, true),
        x % 2 == 0 ==> brightness(x + 1, y, frame, true) == brightness(x, y, frame, true),
        y < 255 ==> brightness(0, y, 0, true) == y,
        brightness(x, y + 255, frame, true) == brightness(x, y, frame, true),
        brightness(x, y, frame, true) < 255,
{
    assert((x + 2) / 2 + y == x / 2 + (y + 1));
    assert((x / 2 + (y + 255) + frame * 7) % 255 == (x / 2 + y + frame * 7) % 255);
}

/// A picture of the pattern is one alone.
pub proof fn patterns_are_unique(
    a: Seq<u8>,
    b: Seq<u8>,
    width: int,
    height: int,
    frame: int,
    moving: bool,
)
    requires
        is_pattern(a, width, height, frame, moving),
        is_pattern(b, width, height, frame, moving),
    ensures
        a == b,
{
    assert forall|k: int| 0 <= k < a.len() implies #[trigger] a[k] == b[k] by {
        if k >= width * height {
            assert(a[k] == 128 && b[k] == 128);
        }
    }
    assert(a =~= b);
}

} // verus!
