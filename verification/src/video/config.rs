//! The stream config message: what a viewer needs before it can decode.

use vstd::prelude::*;

use crate::bytes::{be16, push_all, push_be16};
use crate::json::{object_text, with_member, JsonObject, Scalar};
use crate::text::{hex, push_hex};

verus! {

/// Frames per second of the stream.
pub const FPS: u32 = 10;

// ---------------------------------------------------------------------------
// Base64
// ---------------------------------------------------------------------------

/// The symbol of a six-bit value in the standard base64 alphabet.
pub open spec fn base64_symbol(value: int) -> char {
    if value < 26 {
        (65 + value) as char
    } else if value < 52 {
        (97 + value - 26) as char
    } else if value < 62 {
        (48 + value - 52) as char
    } else if value == 62 {
        '+'
    } else {
        '/'
    }
}

/// Standard base64 with padding: four symbols for every three bytes.
pub open spec fn base64(bytes: Seq<u8>) -> Seq<char>
    decreases bytes.len(),
{
    if bytes.len() == 0 {
        seq![]
    } else if bytes.len() == 1 {
        seq![base64_symbol((bytes[0] / 4) as int), base64_symbol(bytes[0] % 4 * 16), '=', '=']
    } else if bytes.len() == 2 {
        seq![
            base64_symbol((bytes[0] / 4) as int),
            base64_symbol(bytes[0] % 4 * 16 + bytes[1] / 16),
            base64_symbol(bytes[1] % 16 * 4),
            '=',
        ]
    } else {
        seq![
            base64_symbol((bytes[0] / 4) as int),
            base64_symbol(bytes[0] % 4 * 16 + bytes[1] / 16),
            base64_symbol(bytes[1] % 16 * 4 + bytes[2] / 64),
            base64_symbol((bytes[2] % 64) as int),
        ] + base64(bytes.skip(3))
    }
}

/// `base64`'s `STANDARD` engine encodes with the standard alphabet and padding.
/// It panics where the length of the text would not fit a `usize`.
#[verifier::external_body]
pub(crate) fn base64_encode(bytes: &[u8]) -> (text: String)
    requires
        bytes@.len() <= usize::MAX / 2,
    ensures
        text@ == base64(bytes@),
{
    base64::Engine::encode(&base64::engine::general_purpose::STANDARD, bytes)
}

// ---------------------------------------------------------------------------
// Stream description
// ---------------------------------------------------------------------------

/// Describes the stream in the JSON config message the viewer needs before it
/// can configure its decoder (codec string + avcC `description`).
pub struct StreamConfig {
    pub width: usize,
    pub height: usize,
    pub codec: String,
    pub description_b64: String,
    pub description_len: usize,
}

/// The codec string of an SPS: `avc1.` and its profile, constraint and level bytes.
pub open spec fn codec_text(sps: Seq<u8>) -> Seq<char> {
    seq!['a', 'v', 'c', '1', '.'] + hex(sps[1] as nat, 2) + hex(sps[2] as nat, 2) + hex(
        sps[3] as nat,
        2,
    )
}

/// The avcC description: version 1, the profile bytes of the SPS, four-byte
/// lengths, then one complete SPS and one complete PPS, each behind its length.
pub open spec fn avcc_description(sps: Seq<u8>, pps: Seq<u8>) -> Seq<u8> {
    seq![0x01u8, sps[1], sps[2], sps[3], 0xff, 0xe1] + be16(sps.len() as u16) + sps + seq![0x01u8]
        + be16(pps.len() as u16) + pps
}

/// The members of the config message.
pub open spec fn config_members(
    width: usize,
    height: usize,
    codec: Seq<char>,
    description: Seq<char>,
) -> Seq<(Seq<char>, Scalar)> {
    seq![
        ("codec"@, Scalar::Text(codec)),
        ("description"@, Scalar::Text(description)),
        ("fps"@, Scalar::Number(FPS as u64)),
        ("h"@, Scalar::Number(height as u64)),
        ("w"@, Scalar::Number(width as u64)),
    ]
}

impl StreamConfig {
    /// The JSON text of the config message.
    pub fn to_json(&self) -> (text: String)
        ensures
            text@ == object_text(
                config_members(self.width, self.height, self.codec@, self.description_b64@),
            ),
    {
        let object = JsonObject::new();
        let object = object.put_number("w", self.width as u64);
        let object = object.put_number("h", self.height as u64);
        let object = object.put_number("fps", FPS as u64);
        let object = object.put_text("codec", self.codec.as_str());
        let object = object.put_text("description", self.description_b64.as_str());
        proof {
            reveal_strlit("w");
            reveal_strlit("h");
            reveal_strlit("fps");
            reveal_strlit("codec");
            reveal_strlit("description");
            reveal_with_fuel(with_member, 5);
            assert(object.members() =~= config_members(
                self.width,
                self.height,
                self.codec@,
                self.description_b64@,
            ));
        }
        object.print()
    }
}

/// Build the codec string (`avc1.PPCCLL`) and avcC description bytes from the
/// SPS/PPS NAL payloads of an IDR frame.
pub fn describe_stream(sps: &[u8], pps: &[u8]) -> (config: StreamConfig)
    requires
        sps@.len() >= 4,
        sps@.len() + pps@.len() <= usize::MAX / 4,
    ensures
        config.width == 0,
        config.height == 0,
        config.codec@ == codec_text(sps@),
        config.description_b64@ == base64(avcc_description(sps@, pps@)),
        config.description_len == avcc_description(sps@, pps@).len(),
{
    let mut codec = "avc1.".to_owned();
    proof {
        reveal_strlit("avc1.");
        assert(codec@ =~= seq!['a', 'v', 'c', '1', '.']);
    }
    push_hex(&mut codec, sps[1] as u64, 2);
    push_hex(&mut codec, sps[2] as u64, 2);
    push_hex(&mut codec, sps[3] as u64, 2);

    // avcC stores complete SPS/PPS NAL units, including their one-byte NAL
    // headers (0x67 / 0x68).
    let mut avcc: Vec<u8> = Vec::new();
    avcc.push(0x01); // configurationVersion
    avcc.push(sps[1]); // AVCProfileIndication
    avcc.push(sps[2]); // profile_compatibility
    avcc.push(sps[3]); // AVCLevelIndication
    avcc.push(0xff); // 6 reserved bits + lengthSizeMinusOne = 3 (4-byte lengths)
    avcc.push(0xe1); // 3 reserved bits + numOfSequenceParameterSets = 1
    push_be16(&mut avcc, sps.len() as u16);
    push_all(&mut avcc, sps);
    avcc.push(0x01); // numOfPictureParameterSets = 1
    push_be16(&mut avcc, pps.len() as u16);
    push_all(&mut avcc, pps);
    assert(avcc@ =~= avcc_description(sps@, pps@));

    StreamConfig {
        width: 0,
        height: 0,
        codec,
        description_len: avcc.len(),
        description_b64: base64_encode(avcc.as_slice()),
    }
}

/// `description` describes a stream with these two parameter sets: it opens with version
/// 1, the three profile bytes of the SPS, four-byte lengths and one SPS; the SPS stands
/// whole behind its length, one PPS whole behind its own, and nothing else follows.
pub open spec fn describes(description: Seq<u8>, sps: Seq<u8>, pps: Seq<u8>) -> bool {
    let n = sps.len() as int;
    &&& description.len() == 11 + sps.len() + pps.len()
    &&& description[0] == 1
    &&& description[1] == sps[1]
    &&& description[2] == sps[2]
    &&& description[3] == sps[3]
    &&& description[4] == 255
    &&& description[5] == 225
    &&& description[6] * 256 + description[7] == n
    &&& description.subrange(8, 8 + n) == sps
    &&& description[8 + n] == 1
    &&& description[9 + n] * 256 + description[10 + n] == pps.len()
    &&& description.skip(11 + n) == pps
}

/// A description holds both parameter sets whole, each behind its length. A length that
/// does not fit its two bytes is left out.
pub proof fn descriptions_hold_the_parameter_sets(sps: Seq<u8>, pps: Seq<u8>)
    requires
        4 <= sps.len() <= 65535,
        pps.len() <= 65535,
    ensures
        describes(avcc_description(sps, pps), sps, pps),
{
    let d = avcc_description(sps, pps);
    let n = sps.len() as int;
    crate::bytes::be16_is_big_endian(sps.len() as u16);
    crate::bytes::be16_is_big_endian(pps.len() as u16);
    assert(d.subrange(8, 8 + n) =~= sps);
    assert(d.skip(11 + n) =~= pps);
}

/// However long the parameter sets are, both stand in the description whole.
pub proof fn parameter_sets_are_never_cut(sps: Seq<u8>, pps: Seq<u8>)
    ensures
        ({
            let d = avcc_description(sps, pps);
            &&& d.len() == 11 + sps.len() + pps.len()
            &&& d.subrange(8, 8 + sps.len() as int) == sps
            &&& d.skip(11 + sps.len() as int) == pps
        }),
{
    let d = avcc_description(sps, pps);
    assert(d.subrange(8, 8 + sps.len() as int) =~= sps);
    assert(d.skip(11 + sps.len() as int) =~= pps);
}

/// Streams with different parameter sets have different descriptions.
pub proof fn descriptions_tell_streams_apart(
    sps_a: Seq<u8>,
    pps_a: Seq<u8>,
    sps_b: Seq<u8>,
    pps_b: Seq<u8>,
)
    requires
        4 <= sps_a.len() <= 65535,
        pps_a.len() <= 65535,
        4 <= sps_b.len() <= 65535,
        pps_b.len() <= 65535,
        avcc_description(sps_a, pps_a) == avcc_description(sps_b, pps_b),
    ensures
        sps_a == sps_b,
        pps_a == pps_b,
{
    descriptions_hold_the_parameter_sets(sps_a, pps_a);
    descriptions_hold_the_parameter_sets(sps_b, pps_b);
}

/// The codec string names the profile, the constraints and the level that the SPS states.
pub proof fn codecs_name_the_profile(sps: Seq<u8>)
    ensures
        codec_text(sps).len() == 11,
        codec_text(sps).take(5) == seq!['a', 'v', 'c', '1', '.'],
        crate::text::hex_value(codec_text(sps).subrange(5, 7)) == sps[1],
        crate::text::hex_value(codec_text(sps).subrange(7, 9)) == sps[2],
        crate::text::hex_value(codec_text(sps).subrange(9, 11)) == sps[3],
{
    crate::text::hex_reads_back(sps[1] as nat, 2);
    crate::text::hex_reads_back(sps[2] as nat, 2);
    crate::text::hex_reads_back(sps[3] as nat, 2);
    crate::text::small_numbers_keep_their_digits(0);
    let text = codec_text(sps);
    assert(text.take(5) =~= seq!['a', 'v', 'c', '1', '.']);
    assert(text.subrange(5, 7) =~= hex(sps[1] as nat, 2));
    assert(text.subrange(7, 9) =~= hex(sps[2] as nat, 2));
    assert(text.subrange(9, 11) =~= hex(sps[3] as nat, 2));
    vstd::arithmetic::div_mod::lemma_small_mod(sps[1] as nat, 256);
    vstd::arithmetic::div_mod::lemma_small_mod(sps[2] as nat, 256);
    vstd::arithmetic::div_mod::lemma_small_mod(sps[3] as nat, 256);
}

/// A config message states the size, ten frames per second, the codec and the
/// description, each once and nothing else.
pub proof fn config_messages_state_the_stream(
    width: usize,
    height: usize,
    codec: Seq<char>,
    description: Seq<char>,
)
    ensures
        ({
            let members = config_members(width, height, codec, description);
            &&& members.len() == 5
            &&& members.contains(("w"@, Scalar::Number(width as u64)))
            &&& members.contains(("h"@, Scalar::Number(height as u64)))
            &&& members.contains(("fps"@, Scalar::Number(10)))
            &&& members.contains(("codec"@, Scalar::Text(codec)))
            &&& members.contains(("description"@, Scalar::Text(description)))
        }),
{
    let members = config_members(width, height, codec, description);
    assert(members[0] == ("codec"@, Scalar::Text(codec)));
    assert(members[1] == ("description"@, Scalar::Text(description)));
    assert(members[2] == ("fps"@, Scalar::Number(10)));
    assert(members[3] == ("h"@, Scalar::Number(height as u64)));
    assert(members[4] == ("w"@, Scalar::Number(width as u64)));
}

} // verus!
