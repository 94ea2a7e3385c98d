//! Big-endian integers and byte buffers.

use vstd::prelude::*;

verus! {

/// The two bytes of `x`, most significant first.
pub open spec fn be16(x: u16) -> Seq<u8> {
    seq![(x / 256) as u8, (x % 256) as u8]
}

/// The four bytes of `x`, most significant first.
pub open spec fn be32(x: u32) -> Seq<u8> {
    seq![
        (x / 0x100_0000) as u8,
        (x / 0x1_0000 % 256) as u8,
        (x / 0x100 % 256) as u8,
        (x % 256) as u8,
    ]
}

/// The integer that four bytes, most significant first, stand for.
pub open spec fn be32_value(bytes: Seq<u8>) -> int
    recommends
        bytes.len() == 4,
{
    bytes[0] * 0x100_0000 + bytes[1] * 0x1_0000 + bytes[2] * 0x100 + bytes[3]
}

/// Reading four big-endian bytes gives back the integer they were written from.
pub proof fn be32_reads_back(x: u32)
    ensures
        be32(x).len() == 4,
        be32_value(be32(x)) == x,
{
    let (q1, q2, q3) = (x / 0x100, x / 0x1_0000, x / 0x100_0000);
    assert(q2 == q1 / 0x100);
    assert(q3 == q2 / 0x100);
    assert(x == q1 * 0x100 + x % 256);
    assert(q1 == q2 * 0x100 + q1 % 256);
    assert(q2 == q3 * 0x100 + q2 % 256);
    let bytes = be32(x);
    assert(bytes[0] == q3 && bytes[1] == q2 % 256 && bytes[2] == q1 % 256 && bytes[3] == x % 256);
}

/// Writing the integer that four bytes stand for gives back the bytes.
pub proof fn be32_writes_back(bytes: Seq<u8>)
    requires
        bytes.len() == 4,
    ensures
        0 <= be32_value(bytes) <= u32::MAX,
        be32(be32_value(bytes) as u32) == bytes,
{
    let (b0, b1, b2, b3) = (
        bytes[0] as int,
        bytes[1] as int,
        bytes[2] as int,
        bytes[3] as int,
    );
    let q2 = b0 * 256 + b1;
    let q1 = q2 * 256 + b2;
    let x = q1 * 256 + b3;
    assert(be32_value(bytes) == x);
    base_256_digit(q1, b3);
    base_256_digit(q2, b2);
    base_256_digit(b0, b1);
    assert(x / 0x1_0000 == x / 0x100 / 0x100);
    assert(x / 0x100_0000 == x / 0x100 / 0x100 / 0x100);
    let written = be32(x as u32);
    assert(written[0] == b0 && written[1] == b1 && written[2] == b2 && written[3] == b3);
    assert(written =~= bytes);
}

proof fn base_256_digit(q: int, digit: int)
    requires
        0 <= digit < 256,
    ensures
        (q * 256 + digit) / 256 == q,
        (q * 256 + digit) % 256 == digit,
{
}

/// Append the bytes of `x`, most significant first.
pub fn push_be16(out: &mut Vec<u8>, x: u16)
    ensures
        final(out)@ == old(out)@ + be16(x),
{
    out.push((x / 256) as u8);
    out.push((x % 256) as u8);
    assert(out@ =~= old(out)@ + be16(x));
}

/// Append the bytes of `x`, most significant first.
pub fn push_be32(out: &mut Vec<u8>, x: u32)
    ensures
        final(out)@ == old(out)@ + be32(x),
{
    out.push((x / 0x100_0000) as u8);
    out.push((x / 0x1_0000 % 256) as u8);
    out.push((x / 0x100 % 256) as u8);
    out.push((x % 256) as u8);
    assert(out@ =~= old(out)@ + be32(x));
}

/// The integer that four big-endian bytes stand for.
pub fn read_be32(b0: u8, b1: u8, b2: u8, b3: u8) -> (x: u32)
    ensures
        x == be32_value(seq![b0, b1, b2, b3]),
{
    b0 as u32 * 0x100_0000 + b1 as u32 * 0x1_0000 + b2 as u32 * 0x100 + b3 as u32
}

/// Append a copy of `bytes`.
pub fn push_all(out: &mut Vec<u8>, bytes: &[u8])
    ensures
        final(out)@ == old(out)@ + bytes@,
{
    out.extend_from_slice(bytes);
    assert(out@ =~= old(out)@ + bytes@);
}

/// Two big-endian bytes stand for the integer, the first for its multiples of 256.
pub proof fn be16_is_big_endian(x: u16)
    ensures
        be16(x).len() == 2,
        be16(x)[0] * 256 + be16(x)[1] == x,
{
}

/// Four big-endian bytes stand for the integer, the first for its highest part.
pub proof fn be32_is_big_endian(x: u32)
    ensures
        be32(x).len() == 4,
        be32(x)[0] * 0x100_0000 + be32(x)[1] * 0x1_0000 + be32(x)[2] * 0x100 + be32(x)[3] == x,
{
    be32_reads_back(x);
}

} // verus!
