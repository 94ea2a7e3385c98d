//! What the service and its helper say to each other over the pipe.
//!
//! One direction each, so there is never any framing ambiguity: the helper sends
//! length-prefixed binary frames, the service sends newline-terminated text.

use vstd::prelude::*;
use vstd::slice::slice_subrange;
use vstd::utf8::{encode_scalar, encode_utf8};

use crate::bytes::{be32, be32_value, push_all, push_be32, read_be32};
use crate::text::{decimal, lossy_text, push_decimal, utf8_lossy};

verus! {

/// Video frame in the stream's wire format.
pub const FRAME_VIDEO: u8 = 1;

/// GPS reading as UTF-8 JSON.
pub const FRAME_GPS: u8 = 2;

/// Log line as UTF-8 text.
pub const FRAME_LOG: u8 = 3;

/// The longest payload that a frame may announce. A corrupt or hostile length
/// must not be able to make the service allocate arbitrary memory.
pub const MAX_FRAME_BYTES: usize = 8_388_608;

/// The longest control message.
pub const MAX_CONTROL_BYTES: usize = 65_536;

// ---------------------------------------------------------------------------
// Frames
// ---------------------------------------------------------------------------

/// One frame: kind, big-endian length, payload.
pub open spec fn frame(kind: u8, payload: Seq<u8>) -> Seq<u8> {
    seq![kind] + be32(payload.len() as u32) + payload
}

/// The bytes of one protocol frame.
pub fn frame_bytes(kind: u8, payload: &[u8]) -> (bytes: Vec<u8>)
    ensures
        bytes@ == frame(kind, payload@),
{
    let mut bytes: Vec<u8> = Vec::new();
    bytes.push(kind);
    push_be32(&mut bytes, payload.len() as u32);
    push_all(&mut bytes, payload);
    assert(bytes@ =~= frame(kind, payload@));
    bytes
}

/// The payload length that a header announces.
pub open spec fn announced(header: Seq<u8>) -> int {
    be32_value(header.subrange(1, 5))
}

/// What a reader of frames has so far can be the start of a frame: less than a
/// header, or a header with an allowed length and less than that many bytes.
pub open spec fn is_partial(received: Seq<u8>) -> bool {
    received.len() < 5 || (announced(received) <= MAX_FRAME_BYTES && received.len() < 5 + announced(
        received,
    ))
}

/// How many bytes are missing: up to the end of the header, then up to the end of
/// the payload.
pub open spec fn missing(received: Seq<u8>) -> int {
    if received.len() < 5 {
        5 - received.len()
    } else {
        5 + announced(received) - received.len()
    }
}

/// What a reader makes of the bytes it has.
pub enum Progress {
    /// The frame goes on.
    Partial,
    /// The frame is complete.
    Complete { kind: u8, payload: Seq<u8> },
    /// The header announces more than is allowed.
    TooLong { length: int },
}

/// What a reader makes of the bytes it has.
pub open spec fn progress(received: Seq<u8>) -> Progress {
    if received.len() < 5 {
        Progress::Partial
    } else if announced(received) > MAX_FRAME_BYTES {
        Progress::TooLong { length: announced(received) }
    } else if received.len() < 5 + announced(received) {
        Progress::Partial
    } else {
        Progress::Complete { kind: received[0], payload: received.skip(5) }
    }
}

/// One frame that was read.
pub struct Frame {
    pub kind: u8,
    pub payload: Vec<u8>,
}

/// A frame announced more bytes than are allowed.
pub struct FrameTooLong {
    pub length: usize,
}

impl FrameTooLong {
    /// The error's text.
    pub fn message(&self) -> (text: String)
        ensures
            text@ == "frame length "@ + decimal(self.length as nat) + " exceeds the "@ + decimal(
                MAX_FRAME_BYTES as nat,
            ) + " byte limit"@,
    {
        let mut text = "frame length ".to_owned();
        push_decimal(&mut text, self.length as u64);
        text.append(" exceeds the ");
        push_decimal(&mut text, MAX_FRAME_BYTES as u64);
        text.append(" byte limit");
        text
    }
}

/// Reads frames from the pieces that come out of a pipe.
pub struct FrameReader {
    pub received: Vec<u8>,
}

impl FrameReader {
    /// What was received is the start of a frame.
    pub open spec fn well_formed(self) -> bool {
        is_partial(self.received@)
    }

    /// A reader at the start of a frame.
    pub fn new() -> (reader: FrameReader)
        ensures
            reader.well_formed(),
            reader.received@ == Seq::<u8>::empty(),
    {
        FrameReader { received: Vec::new() }
    }

    /// The payload length that the header announces.
    fn announced_length(&self) -> (length: usize)
        requires
            self.received@.len() >= 5,
        ensures
            length == announced(self.received@),
    {
        proof {
            let header = self.received@.subrange(1, 5);
            assert(header =~= seq![
                self.received@[1],
                self.received@[2],
                self.received@[3],
                self.received@[4],
            ]);
        }
        let length: u32 = read_be32(
            self.received[1],
            self.received[2],
            self.received[3],
            self.received[4],
        );
        length as usize
    }

    /// How many bytes to read next, at most.
    pub fn wanted(&self) -> (count: usize)
        requires
            self.well_formed(),
        ensures
            count == missing(self.received@),
            count > 0,
    {
        let have: usize = self.received.len();
        if have < 5 {
            5 - have
        } else {
            let length: usize = self.announced_length();
            length - (have - 5)
        }
    }

    /// Take in what was read, and hand out the frame when it is complete.
    pub fn push(&mut self, chunk: &[u8]) -> (frame: Result<Option<Frame>, FrameTooLong>)
        requires
            old(self).well_formed(),
            chunk@.len() <= missing(old(self).received@),
        ensures
            ({
                let received = old(self).received@ + chunk@;
                match progress(received) {
                    Progress::Partial => frame == Ok::<Option<Frame>, FrameTooLong>(None)
                        && final(self).received@ == received && final(self).well_formed(),
                    Progress::Complete { kind, payload } => {
                        &&& frame matches Ok(Some(f))
                        &&& f.kind == kind
                        &&& f.payload@ == payload
                        &&& final(self).received@ == Seq::<u8>::empty()
                        &&& final(self).well_formed()
                    },
                    Progress::TooLong { length } => frame matches Err(e) && e.length == length,
                }
            }),
    {
        push_all(&mut self.received, chunk);
        let have: usize = self.received.len();
        if have < 5 {
            return Ok(None);
        }
        let length: usize = self.announced_length();
        if length > MAX_FRAME_BYTES {
            return Err(FrameTooLong { length });
        }
        if have - 5 < length {
            return Ok(None);
        }
        let kind: u8 = self.received[0];
        let payload = vstd::slice::slice_to_vec(
            slice_subrange(self.received.as_slice(), 5, have),
        );
        assert(payload@ =~= self.received@.skip(5));
        self.received = Vec::new();
        assert(self.received@ =~= Seq::<u8>::empty());
        Ok(Some(Frame { kind, payload }))
    }
}

/// Every proper prefix of a frame leaves a reader waiting, and the whole frame is
/// read as what was written, however it was cut into pieces: a reader that has
/// `received` and reads no more than is missing goes on to the next prefix.
pub proof fn frames_read_back(kind: u8, payload: Seq<u8>, received: Seq<u8>)
    requires
        payload.len() <= MAX_FRAME_BYTES,
        received.len() <= frame(kind, payload).len(),
        received == frame(kind, payload).take(received.len() as int),
    ensures
        received.len() < frame(kind, payload).len() ==> {
            &&& progress(received) is Partial
            &&& is_partial(received)
            &&& 0 < missing(received) <= frame(kind, payload).len() - received.len()
        },
        received.len() == frame(kind, payload).len() ==> progress(received) == (
        Progress::Complete { kind, payload }),
{
    let whole = frame(kind, payload);
    crate::bytes::be32_reads_back(payload.len() as u32);
    if received.len() >= 5 {
        assert(received.subrange(1, 5) =~= be32(payload.len() as u32));
        assert(announced(received) == payload.len());
    }
    if received.len() == whole.len() {
        assert(received =~= whole);
        assert(received.skip(5) =~= payload);
    }
}

// ---------------------------------------------------------------------------
// Control lines
// ---------------------------------------------------------------------------

/// One control message: its UTF-8 and a line feed.
pub open spec fn line(message: Seq<char>) -> Seq<u8> {
    encode_utf8(message).push(10)
}

/// The bytes of one newline-terminated control message.
pub fn line_bytes(message: &str) -> (bytes: Vec<u8>)
    ensures
        bytes@ == line(message@),
{
    let mut bytes: Vec<u8> = Vec::new();
    push_all(&mut bytes, message.as_bytes());
    bytes.push(10);
    assert(bytes@ =~= line(message@));
    bytes
}

/// A control message was too long.
pub struct LineTooLong;

/// Reads control messages byte by byte.
pub struct LineReader {
    pub received: Vec<u8>,
}

/// What a reader keeps of a line when a byte is added. A carriage return is not
/// content.
pub open spec fn line_with(received: Seq<u8>, byte: u8) -> Seq<u8> {
    if byte == 13 {
        received
    } else {
        received.push(byte)
    }
}

impl LineReader {
    /// What was received is not too long.
    pub open spec fn well_formed(self) -> bool {
        self.received@.len() <= MAX_CONTROL_BYTES
    }

    /// A reader at the start of a line.
    pub fn new() -> (reader: LineReader)
        ensures
            reader.well_formed(),
            reader.received@ == Seq::<u8>::empty(),
    {
        LineReader { received: Vec::new() }
    }

    /// Take in one byte, and hand out the message when its line is complete.
    pub fn push(&mut self, byte: u8) -> (message: Result<Option<String>, LineTooLong>)
        requires
            old(self).well_formed(),
        ensures
            byte == 10 ==> {
                &&& message matches Ok(Some(text))
                &&& text@ == lossy_text(old(self).received@)
                &&& vstd::utf8::valid_utf8(old(self).received@) ==> text@
                    == vstd::utf8::decode_utf8(old(self).received@)
                &&& final(self).received@ == Seq::<u8>::empty()
                &&& final(self).well_formed()
            },
            byte != 10 && line_with(old(self).received@, byte).len() <= MAX_CONTROL_BYTES ==> {
                &&& message == Ok::<Option<String>, LineTooLong>(None)
                &&& final(self).received@ == line_with(old(self).received@, byte)
                &&& final(self).well_formed()
            },
            byte != 10 && line_with(old(self).received@, byte).len() > MAX_CONTROL_BYTES ==> message
                is Err,
    {
        if byte == 10 {
            let text = utf8_lossy(self.received.as_slice());
            self.received = Vec::new();
            assert(self.received@ =~= Seq::<u8>::empty());
            return Ok(Some(text));
        }
        if byte != 13 {
            self.received.push(byte);
        }
        if self.received.len() > MAX_CONTROL_BYTES {
            return Err(LineTooLong);
        }
        Ok(None)
    }
}

/// What a reader has after the bytes of `input`, none of which is a line feed.
pub open spec fn received_after(received: Seq<u8>, input: Seq<u8>) -> Seq<u8>
    decreases input.len(),
{
    if input.len() == 0 {
        received
    } else {
        line_with(received_after(received, input.drop_last()), input.last())
    }
}

/// A message that fits on one line.
pub open spec fn is_one_line(message: Seq<char>) -> bool {
    forall|i: int| 0 <= i < message.len() ==> #[trigger] message[i] != '\n' && message[i] != '\r'
}

/// The UTF-8 of a character other than line feed and carriage return holds
/// neither of them.
proof fn scalar_holds_no_line_end(c: char)
    requires
        c != '\n',
        c != '\r',
    ensures
        forall|i: int|
            0 <= i < encode_scalar(c as u32).len() ==> #[trigger] encode_scalar(c as u32)[i] != 10
                && encode_scalar(c as u32)[i] != 13,
{
    let v = c as u32;
    vstd::utf8::char_is_scalar(c);
    assert(v < 0x80 ==> v & 0x7f == v) by (bit_vector);
    assert(0xc0u8 | ((v >> 6) & 0x1f) as u8 >= 0x80) by (bit_vector);
    assert(0xe0u8 | ((v >> 12) & 0x0f) as u8 >= 0x80) by (bit_vector);
    assert(0xf0u8 | ((v >> 18) & 0x07) as u8 >= 0x80) by (bit_vector);
    assert(0x80u8 | (v & 0x3f) as u8 >= 0x80) by (bit_vector);
    assert(0x80u8 | ((v >> 6) & 0x3f) as u8 >= 0x80) by (bit_vector);
    assert(0x80u8 | ((v >> 12) & 0x3f) as u8 >= 0x80) by (bit_vector);
}

/// The UTF-8 of a message that fits on one line holds no line feed and no
/// carriage return.
proof fn one_line_holds_no_line_end(message: Seq<char>)
    requires
        is_one_line(message),
    ensures
        forall|i: int|
            0 <= i < encode_utf8(message).len() ==> #[trigger] encode_utf8(message)[i] != 10
                && encode_utf8(message)[i] != 13,
    decreases message.len(),
{
    if message.len() > 0 {
        let rest = message.drop_first();
        assert forall|i: int| 0 <= i < rest.len() implies #[trigger] rest[i] != '\n' && rest[i]
            != '\r' by {
            assert(rest[i] == message[i + 1]);
        }
        one_line_holds_no_line_end(rest);
        assert(message[0] != '\n');
        scalar_holds_no_line_end(message[0]);
        let first = encode_scalar(message[0] as u32);
        let bytes = encode_utf8(message);
        assert forall|i: int| 0 <= i < bytes.len() implies #[trigger] bytes[i] != 10 && bytes[i]
            != 13 by {
            if i < first.len() {
                assert(bytes[i] == first[i]);
            } else {
                assert(bytes[i] == encode_utf8(rest)[i - first.len()]);
            }
        }
    }
}

/// Bytes without a carriage return are kept as they are.
proof fn plain_bytes_are_kept(input: Seq<u8>)
    requires
        forall|i: int| 0 <= i < input.len() ==> #[trigger] input[i] != 13,
    ensures
        received_after(seq![], input) == input,
    decreases input.len(),
{
    if input.len() > 0 {
        let before = input.drop_last();
        assert forall|i: int| 0 <= i < before.len() implies #[trigger] before[i] != 13 by {
            assert(before[i] == input[i]);
        }
        plain_bytes_are_kept(before);
        assert(before.push(input.last()) =~= input);
    }
}

/// A control message that fits on one line reads back as what was written: byte
/// by byte the reader keeps what came, none of the bytes ends the line early, and
/// the line feed hands out the message.
pub proof fn lines_read_back(message: Seq<char>, n: int)
    requires
        is_one_line(message),
        encode_utf8(message).len() <= MAX_CONTROL_BYTES,
        0 <= n <= encode_utf8(message).len(),
    ensures
        line(message) == encode_utf8(message).push(10),
        received_after(seq![], encode_utf8(message).take(n)) == encode_utf8(message).take(n),
        encode_utf8(message).take(n).len() <= MAX_CONTROL_BYTES,
        n < encode_utf8(message).len() ==> encode_utf8(message)[n] != 10,
        vstd::utf8::valid_utf8(encode_utf8(message)),
        vstd::utf8::decode_utf8(encode_utf8(message)) == message,
{
    let bytes = encode_utf8(message);
    one_line_holds_no_line_end(message);
    assert forall|i: int| 0 <= i < bytes.take(n).len() implies #[trigger] bytes.take(n)[i] != 13 by {
        assert(bytes.take(n)[i] == bytes[i]);
    }
    plain_bytes_are_kept(bytes.take(n));
    vstd::utf8::encode_utf8_valid_utf8(message);
    vstd::utf8::encode_utf8_decode_utf8(message);
}

/// A frame is its kind, the big-endian length of its payload and the whole payload.
pub proof fn frames_are_laid_out(kind: u8, payload: Seq<u8>)
    requires
        payload.len() <= u32::MAX,
    ensures
        ({
            let whole = frame(kind, payload);
            &&& whole.len() == 5 + payload.len()
            &&& whole[0] == kind
            &&& whole[1] * 0x100_0000 + whole[2] * 0x1_0000 + whole[3] * 0x100 + whole[4]
                == payload.len()
            &&& whole.skip(5) == payload
        }),
{
    crate::bytes::be32_is_big_endian(payload.len() as u32);
    assert(frame(kind, payload).skip(5) =~= payload);
}

/// What a reader makes of any bytes: a header that announces more than eight megabytes
/// is refused with that length, and every other header waits for exactly as many bytes as
/// it announces, which are then handed out as they are.
pub proof fn headers_are_taken_at_their_word(received: Seq<u8>)
    ensures
        received.len() < 5 ==> progress(received) is Partial,
        received.len() >= 5 ==> ({
            let length = received[1] * 0x100_0000 + received[2] * 0x1_0000 + received[3] * 0x100
                + received[4];
            &&& length > 8_388_608 ==> progress(received) == (Progress::TooLong { length })
            &&& length <= 8_388_608 && received.len() < 5 + length ==> progress(received) is Partial
                && missing(received) == 5 + length - received.len()
            &&& length <= 8_388_608 && received.len() >= 5 + length ==> progress(received) == (
            Progress::Complete { kind: received[0], payload: received.skip(5) })
        }),
        received.len() < 5 ==> missing(received) == 5 - received.len(),
{
    if received.len() >= 5 {
        let header = received.subrange(1, 5);
        assert(header[0] == received[1] && header[1] == received[2] && header[2] == received[3]
            && header[3] == received[4]);
    }
}

/// A control line is the UTF-8 of its message and one line feed.
pub proof fn control_lines_end_in_a_line_feed(message: Seq<char>)
    ensures
        line(message).len() == encode_utf8(message).len() + 1,
        line(message).last() == 10,
        line(message).drop_last() == encode_utf8(message),
{
    assert(line(message).drop_last() =~= encode_utf8(message));
}

/// Of whatever comes on a line, the reader keeps everything but the carriage returns, in
/// order.
pub proof fn only_carriage_returns_are_dropped(received: Seq<u8>, input: Seq<u8>)
    ensures
        received_after(received, input) == received + input.filter(|byte: u8| byte != 13),
    decreases input.len(),
{
    reveal(Seq::filter);
    let kept = |byte: u8| byte != 13;
    if input.len() == 0 {
        assert(received + input.filter(kept) =~= received);
    } else {
        only_carriage_returns_are_dropped(received, input.drop_last());
        assert(received_after(received, input) =~= received + input.filter(kept));
    }
}

/// A control line may be as long as 65536 bytes, carriage returns apart, and no longer.
pub proof fn control_lines_may_be_long(received: Seq<u8>, byte: u8)
    ensures
        line_with(received, byte).len() <= MAX_CONTROL_BYTES <==> received.len() + (if byte == 13 {
            0int
        } else {
            1
        }) <= 65536,
        byte != 13 ==> line_with(received, byte).last() == byte && line_with(
            received,
            byte,
        ).drop_last() == received,
        byte == 13 ==> line_with(received, byte) == received,
{
    assert(received.push(byte).drop_last() =~= received);
}

} // verus!
