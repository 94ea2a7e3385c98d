//! NAL units: splitting an Annex-B stream and re-packaging the units as AVCC.

use vstd::prelude::*;
use vstd::slice::slice_subrange;

use crate::bytes::{be32, push_all, push_be32};

verus! {

/// H.264 NAL unit types that the stream looks at.
pub const NAL_IDR: u8 = 5;

pub const NAL_SPS: u8 = 7;

pub const NAL_PPS: u8 = 8;

// ---------------------------------------------------------------------------
// Annex B
// ---------------------------------------------------------------------------

/// A three-byte start code stands at `j`.
pub open spec fn code3_at(data: Seq<u8>, j: int) -> bool {
    &&& 0 <= j
    &&& j + 3 <= data.len()
    &&& data[j] == 0
    &&& data[j + 1] == 0
    &&& data[j + 2] == 1
}

/// A four-byte start code stands at `j`.
pub open spec fn code4_at(data: Seq<u8>, j: int) -> bool {
    &&& 0 <= j
    &&& j + 4 <= data.len()
    &&& data[j] == 0
    &&& data[j + 1] == 0
    &&& data[j + 2] == 0
    &&& data[j + 3] == 1
}

/// A start code begins at `j`. The last three bytes of a four-byte code are not
/// a code of their own.
pub open spec fn start_code_at(data: Seq<u8>, j: int) -> bool {
    code4_at(data, j) || (code3_at(data, j) && !code4_at(data, j - 1))
}

/// Where the start code that begins at `j` ends.
pub open spec fn code_end(data: Seq<u8>, j: int) -> int {
    if code4_at(data, j) {
        j + 4
    } else {
        j + 3
    }
}

/// The positions before `n` where a start code begins, in order.
pub open spec fn start_codes(data: Seq<u8>, n: int) -> Seq<int>
    decreases n,
{
    if n <= 0 {
        seq![]
    } else if start_code_at(data, n - 1) {
        start_codes(data, n - 1).push(n - 1)
    } else {
        start_codes(data, n - 1)
    }
}

/// `bytes` without its trailing zero bytes.
pub open spec fn trim_zeros(bytes: Seq<u8>) -> Seq<u8>
    decreases bytes.len(),
{
    if bytes.len() > 0 && bytes.last() == 0 {
        trim_zeros(bytes.drop_last())
    } else {
        bytes
    }
}

/// What lies between start code `k` and the next one (or the end of the data),
/// without its trailing zero bytes.
pub open spec fn unit_after(data: Seq<u8>, codes: Seq<int>, k: int) -> Seq<u8> {
    let end = if k + 1 < codes.len() { codes[k + 1] } else { data.len() as int };
    trim_zeros(data.subrange(code_end(data, codes[k]), end))
}

/// The non-empty units behind the first `k` start codes.
pub open spec fn units_upto(data: Seq<u8>, codes: Seq<int>, k: int) -> Seq<Seq<u8>>
    decreases k,
{
    if k <= 0 {
        seq![]
    } else {
        let unit = unit_after(data, codes, k - 1);
        if unit.len() > 0 {
            units_upto(data, codes, k - 1).push(unit)
        } else {
            units_upto(data, codes, k - 1)
        }
    }
}

/// The NAL units of an Annex-B stream.
pub open spec fn annexb_units(data: Seq<u8>) -> Seq<Seq<u8>> {
    let codes = start_codes(data, data.len() as int);
    units_upto(data, codes, codes.len() as int)
}

/// The bytes of each unit.
pub open spec fn unit_bytes(nals: Seq<&[u8]>) -> Seq<Seq<u8>> {
    nals.map_values(|nal: &[u8]| nal@)
}

/// Nothing at or behind `j` begins a start code once fewer than three bytes are left.
proof fn no_codes_near_end(data: Seq<u8>, j: int, n: int)
    requires
        0 <= j <= n,
        j + 3 > data.len(),
    ensures
        start_codes(data, n) == start_codes(data, j),
    decreases n - j,
{
    if j < n {
        no_codes_near_end(data, j, n - 1);
    }
}

/// The positions in `start_codes` are start codes, in order, apart from each other.
proof fn start_codes_are_ordered(data: Seq<u8>, n: int)
    requires
        0 <= n <= data.len(),
    ensures
        forall|k: int|
            0 <= k < start_codes(data, n).len() ==> {
                &&& 0 <= #[trigger] start_codes(data, n)[k] < n
                &&& start_code_at(data, start_codes(data, n)[k])
            },
        forall|k: int, l: int|
            0 <= k < l < start_codes(data, n).len() ==> code_end(
                data,
                #[trigger] start_codes(data, n)[k],
            ) <= #[trigger] start_codes(data, n)[l],
    decreases n,
{
    if n > 0 {
        start_codes_are_ordered(data, n - 1);
        let before = start_codes(data, n - 1);
        if start_code_at(data, n - 1) {
            assert forall|k: int| 0 <= k < before.len() implies code_end(data, before[k]) <= n
                - 1 by {
                let p = before[k];
                assert(start_code_at(data, p));
                assert(p < n - 1);
            }
        }
    }
}

/// Split an Annex-B H.264 stream into NAL payloads (start codes stripped).
///
/// Handles 4- and 3-byte start codes and strips trailing zero bytes.
pub fn annexb_nals<'a>(data: &'a [u8]) -> (nals: Vec<&'a [u8]>)
    ensures
        unit_bytes(nals@) == annexb_units(data@),
        forall|i: int| 0 <= i < nals@.len() ==> (#[trigger] nals@[i])@.len() > 0,
{
    // Both the payload start and the start-code offset. The latter is the end
    // of the preceding NAL.
    let mut starts: Vec<(usize, usize)> = Vec::new();
    let mut j: usize = 0;
    let length: usize = data.len();
    let ghost d = data@;

    while j < length && length - j >= 3
        invariant
            length == d.len(),
            d == data@,
            j <= length,
            !code4_at(d, j - 1),
            starts@.len() == start_codes(d, j as int).len(),
            forall|k: int|
                0 <= k < starts@.len() ==> {
                    &&& (#[trigger] starts@[k]).1 == start_codes(d, j as int)[k]
                    &&& starts@[k].0 == code_end(d, start_codes(d, j as int)[k])
                },
        decreases length - j,
    {
        let is4 = length - j > 3 && data[j] == 0 && data[j + 1] == 0 && data[j + 2] == 0 && data[j
            + 3] == 1;
        let is3 = data[j] == 0 && data[j + 1] == 0 && data[j + 2] == 1;
        proof {
            reveal_with_fuel(start_codes, 5);
        }
        if is4 {
            assert(code4_at(d, j as int));
            assert(start_codes(d, j + 4) =~= start_codes(d, j as int).push(j as int));
            starts.push((j + 4, j));
            j = j + 4;
        } else if is3 {
            assert(code3_at(d, j as int));
            assert(start_codes(d, j + 3) =~= start_codes(d, j as int).push(j as int));
            starts.push((j + 3, j));
            j = j + 3;
        } else {
            assert(start_codes(d, j + 1) =~= start_codes(d, j as int));
            j = j + 1;
        }
    }

    let ghost codes = start_codes(d, d.len() as int);
    proof {
        no_codes_near_end(d, j as int, d.len() as int);
        start_codes_are_ordered(d, d.len() as int);
    }

    let mut nals: Vec<&'a [u8]> = Vec::new();
    let count: usize = starts.len();
    let mut idx: usize = 0;
    assert(unit_bytes(nals@) =~= units_upto(d, codes, 0));

    while idx < count
        invariant
            length == d.len(),
            d == data@,
            count == starts@.len(),
            idx <= count,
            codes == start_codes(d, d.len() as int),
            codes.len() == count,
            forall|k: int|
                0 <= k < count ==> {
                    &&& (#[trigger] starts@[k]).1 == codes[k]
                    &&& starts@[k].0 == code_end(d, codes[k])
                },
            forall|k: int|
                0 <= k < count ==> 0 <= #[trigger] codes[k] < d.len() && start_code_at(d, codes[k]),
            forall|k: int, l: int|
                0 <= k < l < count ==> code_end(d, #[trigger] codes[k]) <= #[trigger] codes[l],
            unit_bytes(nals@) == units_upto(d, codes, idx as int),
        decreases count - idx,
    {
        let start: usize = starts[idx].0;
        let raw_end: usize = if idx + 1 < count { starts[idx + 1].1 } else { length };
        assert(start_code_at(d, codes[idx as int]));
        assert(start <= raw_end <= length);

        // Trim trailing zero bytes (cabac_zero_word padding).
        let mut end: usize = raw_end;
        assert(unit_after(d, codes, idx as int) == trim_zeros(
            d.subrange(start as int, raw_end as int),
        ));
        while end > start && data[end - 1] == 0
            invariant
                d == data@,
                start <= end <= d.len(),
                trim_zeros(d.subrange(start as int, end as int)) == unit_after(
                    d,
                    codes,
                    idx as int,
                ),
            decreases end,
        {
            assert(d.subrange(start as int, end as int).drop_last() =~= d.subrange(
                start as int,
                end - 1,
            ));
            end = end - 1;
        }
        assert(unit_after(d, codes, idx as int) == d.subrange(start as int, end as int)) by {
            if end > start {
                assert(d.subrange(start as int, end as int).last() == d[end - 1]);
            }
        }

        let ghost before = nals@;
        if end > start {
            nals.push(slice_subrange(data, start, end));
            assert(unit_bytes(nals@) =~= unit_bytes(before).push(
                d.subrange(start as int, end as int),
            ));
        }
        idx = idx + 1;
    }
    assert forall|i: int| 0 <= i < nals@.len() implies (#[trigger] nals@[i])@.len() > 0 by {
        assert(unit_bytes(nals@)[i] == nals@[i]@);
        units_are_clean(d, i);
    }
    nals
}

/// The NAL unit type: the low five bits of the unit's first byte.
pub fn nal_type(nal: &[u8]) -> (kind: u8)
    requires
        nal@.len() > 0,
    ensures
        kind == unit_type(nal@),
{
    let first: u8 = nal[0];
    assert(first & 0x1f == first % 32) by (bit_vector);
    first & 0x1f
}

/// The type of a NAL unit: its first byte modulo 32.
pub open spec fn unit_type(unit: Seq<u8>) -> u8 {
    unit[0] % 32
}

/// The first of `units` at or behind `from` that has the given type.
pub open spec fn next_unit(units: Seq<Seq<u8>>, kind: u8, from: int) -> Option<Seq<u8>>
    decreases units.len() - from,
{
    if from >= units.len() {
        None
    } else if unit_type(units[from]) == kind {
        Some(units[from])
    } else {
        next_unit(units, kind, from + 1)
    }
}

/// The first of `units` that has the given type.
pub open spec fn first_unit(units: Seq<Seq<u8>>, kind: u8) -> Option<Seq<u8>> {
    next_unit(units, kind, 0)
}

/// Whether one of `units` has the given type.
pub open spec fn has_unit(units: Seq<Seq<u8>>, kind: u8) -> bool {
    first_unit(units, kind) is Some
}

/// The first unit of the given type.
pub fn find_nal<'a>(nals: &Vec<&'a [u8]>, kind: u8) -> (nal: Option<&'a [u8]>)
    requires
        forall|i: int| 0 <= i < nals@.len() ==> (#[trigger] nals@[i])@.len() > 0,
    ensures
        nal is Some <==> first_unit(unit_bytes(nals@), kind) is Some,
        nal matches Some(n) ==> first_unit(unit_bytes(nals@), kind) == Some(n@),
{
    let ghost units = unit_bytes(nals@);
    let mut i: usize = 0;
    while i < nals.len()
        invariant
            i <= nals@.len(),
            units == unit_bytes(nals@),
            forall|k: int| 0 <= k < nals@.len() ==> (#[trigger] nals@[k])@.len() > 0,
            first_unit(units, kind) == next_unit(units, kind, i as int),
        decreases nals@.len() - i,
    {
        assert(units[i as int] == nals@[i as int]@);
        if nal_type(nals[i]) == kind {
            return Some(nals[i]);
        }
        i = i + 1;
    }
    None
}

/// Neither a sequence nor a picture parameter set.
pub open spec fn is_video_unit(unit: Seq<u8>) -> bool {
    unit_type(unit) != NAL_SPS && unit_type(unit) != NAL_PPS
}

/// The units other than the parameter sets.
pub open spec fn video_units(units: Seq<Seq<u8>>) -> Seq<Seq<u8>> {
    units.filter(|unit: Seq<u8>| is_video_unit(unit))
}

/// The units other than the parameter sets, which `avc1` keeps out of its samples.
pub fn without_parameter_sets<'a>(nals: &Vec<&'a [u8]>) -> (kept: Vec<&'a [u8]>)
    requires
        forall|i: int| 0 <= i < nals@.len() ==> (#[trigger] nals@[i])@.len() > 0,
    ensures
        unit_bytes(kept@) == video_units(unit_bytes(nals@)),
{
    let ghost units = unit_bytes(nals@);
    let ghost wanted = |unit: Seq<u8>| is_video_unit(unit);
    let mut kept: Vec<&'a [u8]> = Vec::new();
    let mut i: usize = 0;
    proof {
        reveal(Seq::filter);
        assert(units.take(0) =~= seq![]);
        assert(unit_bytes(kept@) =~= units.take(0).filter(wanted));
    }
    while i < nals.len()
        invariant
            i <= nals@.len(),
            units == unit_bytes(nals@),
            wanted == (|unit: Seq<u8>| is_video_unit(unit)),
            forall|k: int| 0 <= k < nals@.len() ==> (#[trigger] nals@[k])@.len() > 0,
            unit_bytes(kept@) == units.take(i as int).filter(wanted),
        decreases nals@.len() - i,
    {
        let nal: &'a [u8] = nals[i];
        let kind: u8 = nal_type(nal);
        let ghost before = kept@;
        if kind != NAL_SPS && kind != NAL_PPS {
            kept.push(nal);
        }
        proof {
            reveal(Seq::filter);
            assert(units[i as int] == nal@);
            assert(units.take(i + 1).drop_last() =~= units.take(i as int));
            assert(units.take(i + 1).last() == nal@);
            if is_video_unit(nal@) {
                assert(unit_bytes(kept@) =~= unit_bytes(before).push(nal@));
            }
        }
        i = i + 1;
    }
    assert(units.take(nals@.len() as int) =~= units);
    kept
}

// ---------------------------------------------------------------------------
// AVCC
// ---------------------------------------------------------------------------

/// The units one after the other, each behind its length as four big-endian bytes.
pub open spec fn avcc(units: Seq<Seq<u8>>) -> Seq<u8>
    decreases units.len(),
{
    if units.len() == 0 {
        seq![]
    } else {
        avcc(units.drop_last()) + be32(units.last().len() as u32) + units.last()
    }
}

/// Re-package NAL units into AVCC (4-byte big-endian lengths), the chunk format
/// WebCodecs requires for `avc1` codecs.
pub fn to_avcc(nals: &[&[u8]], out: &mut Vec<u8>)
    ensures
        final(out)@ == old(out)@ + avcc(unit_bytes(nals@)),
{
    let count: usize = nals.len();
    let ghost units = unit_bytes(nals@);
    let mut i: usize = 0;
    assert(units.take(0) =~= seq![]);
    assert(out@ =~= old(out)@ + avcc(units.take(0)));
    while i < count
        invariant
            count == nals@.len(),
            i <= count,
            units == unit_bytes(nals@),
            out@ == old(out)@ + avcc(units.take(i as int)),
        decreases count - i,
    {
        let nal: &[u8] = nals[i];
        push_be32(out, nal.len() as u32);
        push_all(out, nal);
        proof {
            assert(units.take(i + 1).drop_last() =~= units.take(i as int));
            assert(units.take(i + 1).last() == nal@);
            assert(out@ =~= old(out)@ + avcc(units.take(i + 1)));
        }
        i = i + 1;
    }
    assert(units.take(count as int) =~= units);
}

// ---------------------------------------------------------------------------
// Laws
// ---------------------------------------------------------------------------

/// Trimming keeps a prefix that does not end in a zero byte.
proof fn trim_zeros_keeps_a_prefix(bytes: Seq<u8>)
    ensures
        trim_zeros(bytes).len() <= bytes.len(),
        trim_zeros(bytes) == bytes.take(trim_zeros(bytes).len() as int),
        trim_zeros(bytes).len() > 0 ==> trim_zeros(bytes).last() != 0,
    decreases bytes.len(),
{
    if bytes.len() > 0 && bytes.last() == 0 {
        trim_zeros_keeps_a_prefix(bytes.drop_last());
        let n = trim_zeros(bytes).len() as int;
        assert(bytes.drop_last().take(n) =~= bytes.take(n));
    } else {
        assert(bytes.take(bytes.len() as int) =~= bytes);
    }
}

/// Every start code before `n` is listed.
proof fn start_codes_are_complete(data: Seq<u8>, n: int, p: int)
    requires
        0 <= p < n,
        start_code_at(data, p),
    ensures
        start_codes(data, n).contains(p),
    decreases n,
{
    if p == n - 1 {
        assert(start_codes(data, n).last() == p);
    } else {
        start_codes_are_complete(data, n - 1, p);
        let before = start_codes(data, n - 1);
        let k = choose|k: int| 0 <= k < before.len() && before[k] == p;
        assert(start_codes(data, n)[k] == p);
    }
}

/// No start code begins inside the bytes behind start code `k`.
proof fn unit_holds_no_start_code(data: Seq<u8>, k: int)
    requires
        0 <= k < start_codes(data, data.len() as int).len(),
    ensures
        ({
            let unit = unit_after(data, start_codes(data, data.len() as int), k);
            forall|j: int| !#[trigger] code3_at(unit, j) && !code4_at(unit, j)
        }),
{
    let n = data.len() as int;
    let codes = start_codes(data, n);
    start_codes_are_ordered(data, n);
    assert(start_code_at(data, codes[k]));
    let start = code_end(data, codes[k]);
    let end = if k + 1 < codes.len() { codes[k + 1] } else { n };
    let raw = data.subrange(start, end);
    let unit = unit_after(data, codes, k);
    trim_zeros_keeps_a_prefix(raw);
    assert forall|j: int| !#[trigger] code3_at(unit, j) && !code4_at(unit, j) by {
        if code3_at(unit, j) || code4_at(unit, j) {
            let p = start + j;
            assert(unit[j] == raw[j] && unit[j + 1] == raw[j + 1] && unit[j + 2] == raw[j + 2]);
            assert(raw[j] == data[p] && raw[j + 1] == data[p + 1] && raw[j + 2] == data[p + 2]);
            let q = if code4_at(unit, j) {
                assert(raw[j + 3] == unit[j + 3] && raw[j + 3] == data[p + 3]);
                assert(code4_at(data, p));
                p
            } else {
                assert(code3_at(data, p));
                if code4_at(data, p - 1) {
                    assert(data[start - 1] == 1);
                    p - 1
                } else {
                    p
                }
            };
            assert(start_code_at(data, q));
            start_codes_are_complete(data, n, q);
            let m = choose|m: int| 0 <= m < codes.len() && codes[m] == q;
            if m < k {
                assert(code_end(data, codes[m]) <= codes[k]);
            } else if m > k + 1 {
                assert(code_end(data, codes[k + 1]) <= codes[m]);
            }
            assert(false);
        }
    }
}

/// A unit that the splitter kept came from some start code.
proof fn units_come_from_codes(data: Seq<u8>, codes: Seq<int>, k: int, i: int)
    requires
        0 <= k <= codes.len(),
        0 <= i < units_upto(data, codes, k).len(),
    ensures
        exists|m: int|
            0 <= m < k && units_upto(data, codes, k)[i] == #[trigger] unit_after(data, codes, m)
                && unit_after(data, codes, m).len() > 0,
    decreases k,
{
    let unit = unit_after(data, codes, k - 1);
    let before = units_upto(data, codes, k - 1);
    if i < before.len() {
        units_come_from_codes(data, codes, k - 1, i);
    }
}

/// Every unit that the splitter returns is clean: non-empty, ending in a byte other
/// than zero, and holding no start code.
pub proof fn units_are_clean(data: Seq<u8>, i: int)
    requires
        0 <= i < annexb_units(data).len(),
    ensures
        is_clean(annexb_units(data)[i]),
{
    let n = data.len() as int;
    let codes = start_codes(data, n);
    units_come_from_codes(data, codes, codes.len() as int, i);
    let m = choose|m: int|
        0 <= m < codes.len() && annexb_units(data)[i] == #[trigger] unit_after(data, codes, m)
            && unit_after(data, codes, m).len() > 0;
    unit_holds_no_start_code(data, m);
    start_codes_are_ordered(data, n);
    let end = if m + 1 < codes.len() { codes[m + 1] } else { n };
    trim_zeros_keeps_a_prefix(data.subrange(code_end(data, codes[m]), end));
    let unit = annexb_units(data)[i];
    assert forall|j: int| 0 <= j && j + 3 <= unit.len() implies !(#[trigger] unit[j] == 0 && unit[j
        + 1] == 0 && unit[j + 2] == 1) by {
        assert(!code3_at(unit, j));
    }
}

/// A unit that can stand in an Annex-B stream: non-empty, not ending in a zero
/// byte, and without the bytes 0, 0, 1 in a row.
pub open spec fn is_clean(unit: Seq<u8>) -> bool {
    &&& unit.len() > 0
    &&& unit.last() != 0
    &&& forall|j: int|
        0 <= j && j + 3 <= unit.len() ==> !(#[trigger] unit[j] == 0 && unit[j + 1] == 0 && unit[j
            + 2] == 1)
}

/// `count` zero bytes.
pub open spec fn zeros(count: nat) -> Seq<u8> {
    Seq::new(count, |i: int| 0u8)
}

/// The Annex-B stream of `units`: each unit behind as many zero bytes as `gaps` says
/// and a one. Two zeros make a three-byte start code, three a four-byte one, and
/// more are padding ahead of it.
pub open spec fn annexb_stream(units: Seq<Seq<u8>>, gaps: Seq<nat>) -> Seq<u8>
    decreases units.len(),
{
    if units.len() == 0 {
        seq![]
    } else {
        annexb_stream(units.drop_last(), gaps.drop_last()) + zeros(gaps.last()) + seq![1u8]
            + units.last()
    }
}

/// Padding is trimmed away.
proof fn padding_is_trimmed(bytes: Seq<u8>, count: nat)
    ensures
        trim_zeros(bytes + zeros(count)) == trim_zeros(bytes),
    decreases count,
{
    if count == 0 {
        assert(bytes + zeros(count) =~= bytes);
    } else {
        padding_is_trimmed(bytes, (count - 1) as nat);
        assert((bytes + zeros(count)).drop_last() =~= bytes + zeros((count - 1) as nat));
    }
}

/// Start codes before `n` do not depend on what stands four or more bytes behind.
proof fn start_codes_of_same_prefix(a: Seq<u8>, b: Seq<u8>, n: int)
    requires
        forall|j: int| 0 <= j < n ==> #[trigger] start_code_at(a, j) == start_code_at(b, j),
    ensures
        start_codes(a, n) == start_codes(b, n),
    decreases n,
{
    if n > 0 {
        start_codes_of_same_prefix(a, b, n - 1);
        assert(start_code_at(a, n - 1) == start_code_at(b, n - 1));
    }
}

/// The units behind the first start codes are the same in two streams that agree
/// on those codes and on the bytes up to the end of the last of these units.
proof fn units_of_same_prefix(a: Seq<u8>, ca: Seq<int>, b: Seq<u8>, cb: Seq<int>, k: int)
    requires
        0 <= k,
        forall|m: int| 0 <= m < k ==> unit_after(a, ca, m) == #[trigger] unit_after(b, cb, m),
    ensures
        units_upto(a, ca, k) == units_upto(b, cb, k),
    decreases k,
{
    if k > 0 {
        units_of_same_prefix(a, ca, b, cb, k - 1);
        assert(unit_after(a, ca, k - 1) == unit_after(b, cb, k - 1));
    }
}

/// A stream that ends in a byte other than zero, or is empty: what follows it
/// starts afresh.
spec fn is_settled(data: Seq<u8>) -> bool {
    data.len() > 0 ==> data.last() != 0
}

/// The stream `data` goes on from `old_data` without touching its start codes: either
/// `old_data` is settled, or nothing but zero bytes follows it.
spec fn goes_on_from(old_data: Seq<u8>, data: Seq<u8>) -> bool {
    ||| is_settled(old_data)
    ||| forall|j: int| old_data.len() <= j < data.len() ==> #[trigger] data[j] == 0
}

/// What follows a settled stream, and zero bytes behind any stream, neither make nor
/// break a start code in it.
proof fn codes_before_zeros(old_data: Seq<u8>, data: Seq<u8>)
    requires
        goes_on_from(old_data, data),
        old_data.len() <= data.len(),
        data.take(old_data.len() as int) == old_data,
    ensures
        forall|j: int| -1 <= j < old_data.len() ==> #[trigger] code4_at(data, j) == code4_at(old_data, j),
        start_codes(data, old_data.len() as int) == start_codes(old_data, old_data.len() as int),
{
    let n = old_data.len() as int;
    assert forall|j: int| 0 <= j < n implies data[j] == old_data[j] by {
        assert(data.take(n)[j] == data[j]);
    }
    assert forall|j: int| -1 <= j < n implies #[trigger] code4_at(data, j) == code4_at(
        old_data,
        j,
    ) by {
        if code4_at(data, j) {
            if j + 3 >= n {
                assert(data[j + 3] == 1);
                assert(is_settled(old_data));
                assert(data[n - 1] != 0);
            }
        }
    }
    assert forall|j: int| 0 <= j < n implies code3_at(data, j) == code3_at(old_data, j) by {
        if code3_at(data, j) {
            if j + 2 >= n {
                assert(data[j + 2] == 1);
                assert(is_settled(old_data));
                assert(data[n - 1] != 0);
            }
        }
    }
    assert forall|j: int| 0 <= j < n implies #[trigger] start_code_at(data, j) == start_code_at(
        old_data,
        j,
    ) by {
        assert(code4_at(data, j - 1) == code4_at(old_data, j - 1));
        assert(code4_at(data, j) == code4_at(old_data, j));
        assert(code3_at(data, j) == code3_at(old_data, j));
    }
    start_codes_of_same_prefix(data, old_data, n);
}

/// The units of a stream stay as they are when zero bytes follow it, up to `end`,
/// where the data ends or the next start code begins.
proof fn units_before_zeros(old_data: Seq<u8>, data: Seq<u8>, codes: Seq<int>, end: int)
    requires
        goes_on_from(old_data, data),
        old_data.len() <= end <= data.len(),
        data.take(old_data.len() as int) == old_data,
        forall|j: int| old_data.len() <= j < end ==> #[trigger] data[j] == 0,
        codes.len() >= start_codes(old_data, old_data.len() as int).len(),
        codes.take(start_codes(old_data, old_data.len() as int).len() as int) == start_codes(
            old_data,
            old_data.len() as int,
        ),
        end == if codes.len() > start_codes(old_data, old_data.len() as int).len() {
            codes[start_codes(old_data, old_data.len() as int).len() as int]
        } else {
            data.len() as int
        },
    ensures
        units_upto(data, codes, start_codes(old_data, old_data.len() as int).len() as int)
            == annexb_units(old_data),
{
    let n = old_data.len() as int;
    let old_codes = start_codes(old_data, n);
    let count = old_codes.len() as int;
    codes_before_zeros(old_data, data);
    start_codes_are_ordered(old_data, n);
    assert forall|m: int| 0 <= m < count implies unit_after(data, codes, m) == #[trigger] unit_after(
        old_data,
        old_codes,
        m,
    ) by {
        let p = old_codes[m];
        assert(codes.take(count)[m] == codes[m]);
        assert(codes[m] == p);
        assert(code4_at(data, p) == code4_at(old_data, p));
        assert(start_code_at(old_data, p));
        let start = code_end(old_data, p);
        if m + 1 < count {
            assert(codes.take(count)[m + 1] == codes[m + 1]);
            let stop = old_codes[m + 1];
            assert(start <= stop);
            assert(data.subrange(start, stop) =~= old_data.subrange(start, stop)) by {
                assert forall|j: int| 0 <= j < n implies data[j] == old_data[j] by {
                    assert(data.take(n)[j] == data[j]);
                }
            }
        } else {
            let more = (end - n) as nat;
            assert(data.subrange(start, end) =~= old_data.subrange(start, n) + zeros(more)) by {
                assert forall|j: int| 0 <= j < n implies data[j] == old_data[j] by {
                    assert(data.take(n)[j] == data[j]);
                }
            }
            padding_is_trimmed(old_data.subrange(start, n), more);
        }
    }
    units_of_same_prefix(data, codes, old_data, old_codes, count);
}

/// Zero bytes at the end of a stream, whatever the stream, change nothing.
pub proof fn trailing_zeros_change_nothing(old_data: Seq<u8>, count: nat)
    ensures
        annexb_units(old_data + zeros(count)) == annexb_units(old_data),
{
    let n = old_data.len() as int;
    let data = old_data + zeros(count);
    assert forall|j: int| n <= j < data.len() implies #[trigger] data[j] == 0 by {}
    let total = data.len() as int;
    assert(data.take(n) =~= old_data);
    codes_before_zeros(old_data, data);
    assert forall|j: int| n <= j < total implies !#[trigger] start_code_at(data, j) by {}
    no_codes_between(data, n, total);
    let codes = start_codes(data, total);
    assert(codes.take(codes.len() as int) =~= codes);
    units_before_zeros(old_data, data, codes, total);
}

/// Where no code begins from `n` on, the codes before `total` are those before `n`.
proof fn no_codes_between(data: Seq<u8>, n: int, total: int)
    requires
        0 <= n <= total,
        forall|j: int| n <= j < total ==> !#[trigger] start_code_at(data, j),
    ensures
        start_codes(data, total) == start_codes(data, n),
    decreases total,
{
    if n < total {
        no_codes_between(data, n, total - 1);
        assert(!start_code_at(data, total - 1));
    }
}

/// Appending a start code and a clean unit to a settled stream adds exactly that
/// start code and that unit.
proof fn appending_a_unit(old_data: Seq<u8>, gap: nat, unit: Seq<u8>)
    requires
        is_clean(unit),
        is_settled(old_data),
        gap >= 2,
    ensures
        annexb_units(old_data + zeros(gap) + seq![1u8] + unit) == annexb_units(old_data).push(unit),
        is_settled(old_data + zeros(gap) + seq![1u8] + unit),
{
    let n = old_data.len() as int;
    let data = old_data + zeros(gap) + seq![1u8] + unit;
    let total = data.len() as int;
    let one = n + gap;
    assert(total == one + 1 + unit.len());
    assert(data.take(n) =~= old_data);
    assert forall|j: int| n <= j < one implies #[trigger] data[j] == 0 by {}
    assert(data[one] == 1);
    assert forall|j: int| 0 <= j < unit.len() implies data[one + 1 + j] == unit[j] by {}
    codes_before_zeros(old_data, data);

    // One start code ahead of the unit, and no other.
    let at = if gap >= 3 {
        one - 3
    } else {
        n
    };
    if gap >= 3 {
        assert(code4_at(data, at));
    } else {
        assert(code3_at(data, at));
        if n > 0 {
            assert(data[n - 1] == old_data[n - 1]);
        }
        assert(!code4_at(data, at - 1));
        assert(!code4_at(data, at));
    }
    assert(start_code_at(data, at));
    assert(code_end(data, at) == one + 1);
    assert forall|j: int| n <= j < total && j != at implies !#[trigger] start_code_at(data, j) by {
        if j > one {
            let u = j - one - 1;
            if code3_at(data, j) {
                assert(unit[u] == 0 && unit[u + 1] == 0 && unit[u + 2] == 1);
            }
            if code4_at(data, j) {
                assert(unit[u + 1] == 0 && unit[u + 2] == 0 && unit[u + 3] == 1);
            }
        } else {
            if code4_at(data, j) {
                assert(data[j + 3] == 1);
                assert(j + 3 <= one);
            }
            if code3_at(data, j) {
                assert(j + 2 <= one);
                assert(j == one - 2);
                if gap >= 3 {
                    assert(code4_at(data, j - 1));
                }
            }
        }
    }
    no_codes_between(data, n, at);
    codes_end_with(data, at, total);
    let old_codes = start_codes(old_data, n);
    let codes = start_codes(data, total);
    let count = old_codes.len() as int;
    assert(codes == old_codes.push(at));
    assert(codes.take(count) =~= old_codes);
    units_before_zeros(old_data, data, codes, at);

    // The unit behind the new code is the new unit.
    assert(data.subrange(one + 1, total) =~= unit);
    assert(trim_zeros(unit) == unit);
    assert(unit_after(data, codes, count) == unit);

    // And the stream is settled again.
    assert(data.last() == unit.last());
}

/// The codes before `total` are those before `n` and `n` itself when `n` is the
/// last position where a code begins.
proof fn codes_end_with(data: Seq<u8>, n: int, total: int)
    requires
        0 <= n < total,
        start_code_at(data, n),
        forall|j: int| n < j < total ==> !#[trigger] start_code_at(data, j),
    ensures
        start_codes(data, total) == start_codes(data, n).push(n),
    decreases total,
{
    if total - 1 > n {
        codes_end_with(data, n, total - 1);
        assert(!start_code_at(data, total - 1));
    }
}

/// The stream of clean units is settled, and splits into those units.
proof fn splitting_a_stream(units: Seq<Seq<u8>>, gaps: Seq<nat>)
    requires
        units.len() == gaps.len(),
        forall|i: int| 0 <= i < units.len() ==> is_clean(#[trigger] units[i]),
        forall|i: int| 0 <= i < gaps.len() ==> #[trigger] gaps[i] >= 2,
    ensures
        is_settled(annexb_stream(units, gaps)),
        annexb_units(annexb_stream(units, gaps)) == units,
    decreases units.len(),
{
    if units.len() == 0 {
        assert(annexb_units(annexb_stream(units, gaps)) =~= units);
    } else {
        let before = units.drop_last();
        splitting_a_stream(before, gaps.drop_last());
        assert(is_clean(units[units.len() - 1]));
        assert(gaps[gaps.len() - 1] >= 2);
        appending_a_unit(annexb_stream(before, gaps.drop_last()), gaps.last(), units.last());
        assert(before.push(units.last()) =~= units);
    }
}

/// Splitting the Annex-B stream of clean units gives back those units, whether they
/// stand behind three-byte or four-byte start codes and whatever zero bytes pad them.
pub proof fn splitting_gives_back_the_units(units: Seq<Seq<u8>>, gaps: Seq<nat>, padding: nat)
    requires
        units.len() == gaps.len(),
        forall|i: int| 0 <= i < units.len() ==> is_clean(#[trigger] units[i]),
        forall|i: int| 0 <= i < gaps.len() ==> #[trigger] gaps[i] >= 2,
    ensures
        annexb_units(annexb_stream(units, gaps) + zeros(padding)) == units,
{
    splitting_a_stream(units, gaps);
    trailing_zeros_change_nothing(annexb_stream(units, gaps), padding);
}

/// The start codes of a stream, counted from further ahead.
proof fn start_codes_are_shifted(junk: Seq<u8>, data: Seq<u8>, m: int)
    requires
        0 <= m <= data.len(),
        forall|j: int| 0 <= j < junk.len() ==> !#[trigger] start_code_at(junk + data, j),
    ensures
        start_codes(junk + data, junk.len() + m) == start_codes(data, m).map_values(
            |p: int| p + junk.len(),
        ),
    decreases m,
{
    let n = junk.len() as int;
    let whole = junk + data;
    let shifted = |p: int| p + junk.len();
    if m == 0 {
        no_codes_between(whole, 0, n);
        assert(start_codes(whole, n) =~= start_codes(data, 0).map_values(shifted));
    } else {
        start_codes_are_shifted(junk, data, m - 1);
        codes_are_shifted(junk, data, m - 1);
        assert(start_code_at(whole, n + m - 1) == start_code_at(data, m - 1)) by {
            if m == 1 {
                if n > 0 {
                    assert(!start_code_at(whole, n - 1));
                }
                assert(!code4_at(whole, n - 1));
            } else {
                codes_are_shifted(junk, data, m - 2);
            }
        }
        assert(start_codes(whole, n + m) =~= start_codes(data, m).map_values(shifted));
    }
}

/// A start code of a stream is one as well with more bytes ahead of it.
proof fn codes_are_shifted(junk: Seq<u8>, data: Seq<u8>, j: int)
    requires
        0 <= j,
    ensures
        code4_at(junk + data, junk.len() + j) == code4_at(data, j),
        code3_at(junk + data, junk.len() + j) == code3_at(data, j),
{
}

/// Bytes ahead of the first start code, whatever the stream, change nothing.
pub proof fn leading_bytes_change_nothing(junk: Seq<u8>, data: Seq<u8>)
    requires
        forall|j: int| 0 <= j < junk.len() ==> !#[trigger] start_code_at(junk + data, j),
    ensures
        annexb_units(junk + data) == annexb_units(data),
{
    let n = junk.len() as int;
    let whole = junk + data;
    let codes = start_codes(data, data.len() as int);
    let moved = start_codes(whole, whole.len() as int);
    start_codes_are_shifted(junk, data, data.len() as int);
    start_codes_are_ordered(data, data.len() as int);
    assert(moved.len() == codes.len());
    assert forall|m: int| 0 <= m < codes.len() implies unit_after(whole, moved, m)
        == #[trigger] unit_after(data, codes, m) by {
        assert(moved[m] == codes[m] + n);
        assert(start_code_at(data, codes[m]));
        codes_are_shifted(junk, data, codes[m]);
        let start = code_end(data, codes[m]);
        let end = if m + 1 < codes.len() { codes[m + 1] } else { data.len() as int };
        if m + 1 < codes.len() {
            assert(moved[m + 1] == codes[m + 1] + n);
        }
        assert(whole.subrange(start + n, end + n) =~= data.subrange(start, end));
    }
    units_of_same_prefix(whole, moved, data, codes, codes.len() as int);
}

/// AVCC chunks are unambiguous: two lists of units with the same chunk are the
/// same list, as long as every length fits its four bytes.
pub proof fn avcc_is_unambiguous(a: Seq<Seq<u8>>, b: Seq<Seq<u8>>)
    requires
        avcc(a) == avcc(b),
        forall|i: int| 0 <= i < a.len() ==> (#[trigger] a[i]).len() <= u32::MAX,
        forall|i: int| 0 <= i < b.len() ==> (#[trigger] b[i]).len() <= u32::MAX,
    ensures
        a == b,
    decreases a.len(),
{
    avcc_from_the_front(a);
    avcc_from_the_front(b);
    if a.len() == 0 || b.len() == 0 {
        assert(a =~= b);
    } else {
        let (x, y) = (a[0], b[0]);
        let whole = avcc(a);
        let (ra, rb) = (avcc(a.drop_first()), avcc(b.drop_first()));
        assert(whole.take(4) =~= be32(x.len() as u32));
        assert(whole.take(4) =~= be32(y.len() as u32));
        crate::bytes::be32_reads_back(x.len() as u32);
        crate::bytes::be32_reads_back(y.len() as u32);
        assert(x.len() == y.len());
        let n = x.len() as int;
        assert(whole.subrange(4, 4 + n) =~= x);
        assert(whole.subrange(4, 4 + n) =~= y);
        assert(whole.skip(4 + n) =~= ra);
        assert(whole.skip(4 + n) =~= rb);
        assert forall|i: int| 0 <= i < a.drop_first().len() implies (#[trigger] a.drop_first()[i]).len()
            <= u32::MAX by {
            assert(a.drop_first()[i] == a[i + 1]);
        }
        assert forall|i: int| 0 <= i < b.drop_first().len() implies (#[trigger] b.drop_first()[i]).len()
            <= u32::MAX by {
            assert(b.drop_first()[i] == b[i + 1]);
        }
        avcc_is_unambiguous(a.drop_first(), b.drop_first());
        assert(a =~= seq![x] + a.drop_first());
        assert(b =~= seq![y] + b.drop_first());
    }
}

/// An AVCC chunk begins with its first unit.
proof fn avcc_from_the_front(units: Seq<Seq<u8>>)
    ensures
        units.len() > 0 ==> avcc(units) == be32(units[0].len() as u32) + units[0] + avcc(
            units.drop_first(),
        ),
        units.len() > 0 ==> avcc(units).len() >= 4,
        units.len() == 0 ==> avcc(units).len() == 0,
    decreases units.len(),
{
    if units.len() == 1 {
        assert(units.drop_last() =~= seq![]);
        assert(units.drop_first() =~= seq![]);
        assert(avcc(units) =~= be32(units[0].len() as u32) + units[0] + avcc(units.drop_first()));
    } else if units.len() > 1 {
        let init = units.drop_last();
        avcc_from_the_front(init);
        assert(init.drop_first() =~= units.drop_first().drop_last());
        assert(units.drop_first().last() == units.last());
        assert(avcc(units) =~= be32(units[0].len() as u32) + units[0] + avcc(units.drop_first()));
    }
}

/// Framing works unit by unit: the units of two parts make the bytes of the one and then
/// those of the other, and nothing is left out of either.
pub proof fn units_are_framed_one_by_one(a: Seq<Seq<u8>>, b: Seq<Seq<u8>>)
    ensures
        avcc(a + b) == avcc(a) + avcc(b),
    decreases b.len(),
{
    if b.len() == 0 {
        assert(a + b =~= a);
        assert(avcc(a) + avcc(b) =~= avcc(a));
    } else {
        units_are_framed_one_by_one(a, b.drop_last());
        assert((a + b).drop_last() =~= a + b.drop_last());
        assert((a + b).last() == b.last());
        assert(avcc(a + b) =~= avcc(a) + avcc(b));
    }
}

/// A unit is framed by its length in four big-endian bytes, and all of it follows.
pub proof fn a_unit_is_framed_whole(unit: Seq<u8>)
    requires
        unit.len() <= u32::MAX,
    ensures
        ({
            let framed = avcc(seq![unit]);
            &&& framed.len() == 4 + unit.len()
            &&& framed[0] * 0x100_0000 + framed[1] * 0x1_0000 + framed[2] * 0x100 + framed[3]
                == unit.len()
            &&& framed.skip(4) == unit
        }),
{
    reveal_with_fuel(avcc, 2);
    let units = seq![unit];
    assert(units.drop_last().len() == 0);
    assert(avcc(units) =~= be32(unit.len() as u32) + unit);
    crate::bytes::be32_is_big_endian(unit.len() as u32);
    assert(avcc(units).skip(4) =~= unit);
}

/// The type of a unit is the low five bits of its first byte, whatever the upper three.
pub proof fn types_are_the_low_five_bits(unit: Seq<u8>, upper: u8, kind: u8)
    requires
        unit.len() > 0,
        kind < 32,
        unit[0] == upper * 32 + kind,
    ensures
        unit_type(unit) == kind,
{
}

/// The first unit of a type is found, wherever it stands.
pub proof fn the_first_unit_of_a_type_is_found(units: Seq<Seq<u8>>, kind: u8, at: int)
    requires
        0 <= at < units.len(),
        units[at][0] % 32 == kind,
        forall|i: int| 0 <= i < at ==> (#[trigger] units[i])[0] % 32 != kind,
    ensures
        first_unit(units, kind) == Some(units[at]),
        has_unit(units, kind),
{
    the_next_unit_is_found(units, kind, 0, at);
}

proof fn the_next_unit_is_found(units: Seq<Seq<u8>>, kind: u8, from: int, at: int)
    requires
        0 <= from <= at < units.len(),
        units[at][0] % 32 == kind,
        forall|i: int| from <= i < at ==> (#[trigger] units[i])[0] % 32 != kind,
    ensures
        next_unit(units, kind, from) == Some(units[at]),
    decreases at - from,
{
    if from < at {
        assert(units[from][0] % 32 != kind);
        the_next_unit_is_found(units, kind, from + 1, at);
    }
}

/// No unit is found of a type that none has.
pub proof fn missing_types_are_not_found(units: Seq<Seq<u8>>, kind: u8)
    requires
        forall|i: int| 0 <= i < units.len() ==> (#[trigger] units[i])[0] % 32 != kind,
    ensures
        first_unit(units, kind) is None,
        !has_unit(units, kind),
{
    no_next_unit_is_found(units, kind, 0);
}

proof fn no_next_unit_is_found(units: Seq<Seq<u8>>, kind: u8, from: int)
    requires
        0 <= from,
        forall|i: int| from <= i < units.len() ==> (#[trigger] units[i])[0] % 32 != kind,
    ensures
        next_unit(units, kind, from) is None,
    decreases units.len() - from,
{
    if from < units.len() {
        assert(units[from][0] % 32 != kind);
        no_next_unit_is_found(units, kind, from + 1);
    }
}

/// The parameter sets, of the types 7 and 8, are left out unit by unit, and every other
/// unit is kept in its place.
pub proof fn all_but_parameter_sets_are_kept(a: Seq<Seq<u8>>, b: Seq<Seq<u8>>, unit: Seq<u8>)
    ensures
        video_units(a + b) == video_units(a) + video_units(b),
        unit[0] % 32 == 7 || unit[0] % 32 == 8 ==> video_units(seq![unit]) == Seq::<
            Seq<u8>,
        >::empty(),
        unit[0] % 32 != 7 && unit[0] % 32 != 8 ==> video_units(seq![unit]) == seq![unit],
        video_units(Seq::<Seq<u8>>::empty()) == Seq::<Seq<u8>>::empty(),
{
    reveal(Seq::filter);
    let kept = |unit: Seq<u8>| is_video_unit(unit);
    Seq::filter_distributes_over_add(a, b, kept);
    let one = seq![unit];
    assert(one.drop_last() =~= Seq::<Seq<u8>>::empty());
    assert(one.drop_last().filter(kept) =~= Seq::<Seq<u8>>::empty());
    assert(one.last() == unit);
    if is_video_unit(unit) {
        assert(video_units(one) =~= seq![unit]);
    } else {
        assert(video_units(one) =~= Seq::<Seq<u8>>::empty());
    }
}

/// Units that are no parameter sets are all kept.
pub proof fn video_is_kept_whole(units: Seq<Seq<u8>>)
    requires
        forall|i: int|
            0 <= i < units.len() ==> (#[trigger] units[i])[0] % 32 != 7 && units[i][0] % 32 != 8,
    ensures
        video_units(units) == units,
    decreases units.len(),
{
    if units.len() == 0 {
        all_but_parameter_sets_are_kept(units, units, seq![]);
        assert(units =~= Seq::<Seq<u8>>::empty());
    } else {
        let (init, last) = (units.drop_last(), units.last());
        assert(last == units[units.len() - 1]);
        assert forall|i: int| 0 <= i < init.len() implies (#[trigger] init[i])[0] % 32 != 7
            && init[i][0] % 32 != 8 by {
            assert(init[i] == units[i]);
        }
        video_is_kept_whole(init);
        all_but_parameter_sets_are_kept(init, seq![last], last);
        assert(units =~= init + seq![last]);
    }
}

} // verus!
