use vstd::prelude::*;
use vstd::slice::slice_subrange;

use crate::bytes::{be32, push_all, push_be32, read_be32};

verus! {

/// Stream config message (payload is UTF-8 JSON).
pub const STREAM_KIND_CONFIG: u8 = 1;

/// Encoded video frame message (payload is one frame of AVCC H.264 NAL units).
pub const STREAM_KIND_VIDEO: u8 = 2;

/// Flag bit: the video payload starts a decodable point (IDR).
pub const STREAM_FLAG_KEYFRAME: u8 = 0x01;

/// A single binary message that the websocket loop forwards verbatim.
#[derive(Debug, PartialEq, Eq)]
pub struct StreamPacket {
    pub kind: u8,
    pub keyframe: bool,
    pub timestamp_ms: u32,
    pub payload: Vec<u8>,
}

/// What a packet says, with its payload as a sequence of bytes.
#[verifier::ext_equal]
pub struct PacketView {
    pub kind: u8,
    pub keyframe: bool,
    pub timestamp_ms: u32,
    pub payload: Seq<u8>,
}

impl View for StreamPacket {
    type V = PacketView;

    open spec fn view(&self) -> PacketView {
        PacketView {
            kind: self.kind,
            keyframe: self.keyframe,
            timestamp_ms: self.timestamp_ms,
            payload: self.payload@,
        }
    }
}

impl PacketView {
    /// The on-wire form: kind, flags, big-endian timestamp, payload.
    pub open spec fn wire(self) -> Seq<u8> {
        seq![self.kind, if self.keyframe { STREAM_FLAG_KEYFRAME } else { 0u8 }] + be32(
            self.timestamp_ms,
        ) + self.payload
    }
}

impl StreamPacket {
    /// Serialize to the on-wire binary form: 6-byte header + payload.
    pub fn into_binary(self) -> (bytes: Vec<u8>)
        ensures
            bytes@ == self@.wire(),
    {
        let mut bytes: Vec<u8> = Vec::new();
        bytes.push(self.kind);
        let flags: u8 = if self.keyframe { STREAM_FLAG_KEYFRAME } else { 0 };
        bytes.push(flags);
        push_be32(&mut bytes, self.timestamp_ms);
        push_all(&mut bytes, self.payload.as_slice());
        assert(bytes@ =~= self@.wire());
        bytes
    }

    /// Read the on-wire binary form back.
    ///
    /// `None` unless `bytes` is exactly what [`StreamPacket::into_binary`]
    /// writes for some packet, so a packet that was read is written out again
    /// byte for byte.
    pub fn from_binary(bytes: &[u8]) -> (packet: Option<StreamPacket>)
        ensures
            packet is Some <==> exists|p: PacketView| #[trigger] p.wire() == bytes@,
            packet matches Some(p) ==> p@.wire() == bytes@,
    {
        let length: usize = bytes.len();
        if length < 6 || bytes[1] > STREAM_FLAG_KEYFRAME {
            proof {
                assert forall|p: PacketView| #[trigger] p.wire() != bytes@ by {
                    assert(p.wire().len() >= 6);
                    assert(p.wire()[1] <= 1);
                }
            }
            return None;
        }
        let packet = StreamPacket {
            kind: bytes[0],
            keyframe: bytes[1] == STREAM_FLAG_KEYFRAME,
            timestamp_ms: read_be32(bytes[2], bytes[3], bytes[4], bytes[5]),
            payload: vstd::slice::slice_to_vec(slice_subrange(bytes, 6, length)),
        };
        proof {
            crate::bytes::be32_writes_back(seq![bytes@[2], bytes@[3], bytes@[4], bytes@[5]]);
            assert(packet@.wire() =~= bytes@);
        }
        Some(packet)
    }
}

/// Two packets with the same wire form are the same packet: reading back what
/// was written gives the packet that was written.
pub proof fn wire_form_is_unambiguous(a: PacketView, b: PacketView)
    requires
        a.wire() == b.wire(),
    ensures
        a == b,
{
    let (wa, wb) = (a.wire(), b.wire());
    assert(wa[0] == a.kind && wb[0] == b.kind);
    assert(wa[1] == wb[1]);
    assert(wa.subrange(2, 6) =~= be32(a.timestamp_ms));
    assert(wb.subrange(2, 6) =~= be32(b.timestamp_ms));
    crate::bytes::be32_reads_back(a.timestamp_ms);
    crate::bytes::be32_reads_back(b.timestamp_ms);
    assert(wa.skip(6) =~= a.payload);
    assert(wb.skip(6) =~= b.payload);
}

/// A packet on the wire: its kind, a flag that is 1 for a keyframe and 0 for any other,
/// the timestamp in four big-endian bytes, and the whole payload.
pub proof fn packets_are_laid_out(packet: PacketView)
    ensures
        ({
            let wire = packet.wire();
            &&& wire.len() == 6 + packet.payload.len()
            &&& wire[0] == packet.kind
            &&& wire[1] == (if packet.keyframe { 1 } else { 0int })
            &&& wire[2] * 0x100_0000 + wire[3] * 0x1_0000 + wire[4] * 0x100 + wire[5]
                == packet.timestamp_ms
            &&& wire.skip(6) == packet.payload
        }),
{
    crate::bytes::be32_is_big_endian(packet.timestamp_ms);
    assert(packet.wire().skip(6) =~= packet.payload);
}

} // verus!
