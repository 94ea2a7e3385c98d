//! UTF-16, as the Win32 W functions take and give it.

use vstd::prelude::*;

use crate::text::{chars_of, text_of, trim, trimmed};

verus! {

/// The UTF-16 code units of a character: itself, or a surrogate pair.
pub open spec fn utf16_of(c: char) -> Seq<u16> {
    let u = c as u32;
    if u < 0x1_0000 {
        seq![u as u16]
    } else {
        seq![
            (0xd800 + (u - 0x1_0000) / 0x400) as u16,
            (0xdc00 + (u - 0x1_0000) % 0x400) as u16,
        ]
    }
}

/// The UTF-16 code units of a text.
pub open spec fn utf16(text: Seq<char>) -> Seq<u16>
    decreases text.len(),
{
    if text.len() == 0 {
        seq![]
    } else {
        utf16(text.drop_last()) + utf16_of(text.last())
    }
}

/// NUL-terminated UTF-16 for the Win32 W APIs.
pub fn to_wide(value: &str) -> (units: Vec<u16>)
    ensures
        units@ == utf16(value@).push(0),
{
    let chars = chars_of(value);
    let mut units: Vec<u16> = Vec::new();
    let mut i: usize = 0;
    assert(chars@.take(0) =~= seq![]);
    while i < chars.len()
        invariant
            i <= chars@.len(),
            units@ == utf16(chars@.take(i as int)),
        decreases chars@.len() - i,
    {
        let c: char = chars[i];
        let u: u32 = c as u32;
        let ghost before = units@;
        if u < 0x1_0000 {
            units.push(u as u16);
        } else {
            units.push((0xd800 + (u - 0x1_0000) / 0x400) as u16);
            units.push((0xdc00 + (u - 0x1_0000) % 0x400) as u16);
        }
        proof {
            assert(units@ =~= before + utf16_of(c));
            assert(chars@.take(i + 1).drop_last() =~= chars@.take(i as int));
            assert(chars@.take(i + 1).last() == c);
        }
        i = i + 1;
    }
    assert(chars@.take(chars@.len() as int) =~= chars@);
    units.push(0);
    units
}

/// A unit that begins a surrogate pair.
pub open spec fn is_high_surrogate(unit: u16) -> bool {
    0xd800 <= unit <= 0xdbff
}

/// A unit that ends a surrogate pair.
pub open spec fn is_low_surrogate(unit: u16) -> bool {
    0xdc00 <= unit <= 0xdfff
}

/// The character of a surrogate pair.
pub open spec fn pair_char(high: u16, low: u16) -> char {
    (0x1_0000 + (high - 0xd800) * 0x400 + (low - 0xdc00)) as char
}

/// The text of `units` from position `from` on, with U+FFFD for each surrogate
/// that is not part of a pair.
pub open spec fn wide_text(units: Seq<u16>, from: int) -> Seq<char>
    decreases units.len() - from,
{
    if from >= units.len() {
        seq![]
    } else if is_high_surrogate(units[from]) && from + 1 < units.len() && is_low_surrogate(
        units[from + 1],
    ) {
        seq![pair_char(units[from], units[from + 1])] + wide_text(units, from + 2)
    } else if is_high_surrogate(units[from]) || is_low_surrogate(units[from]) {
        seq!['\u{fffd}'] + wide_text(units, from + 1)
    } else {
        seq![units[from] as char] + wide_text(units, from + 1)
    }
}

/// The character of a code point that has one.
fn code_char(code: u32) -> (c: char)
    requires
        code < 0xd800 || 0xdfff < code <= 0x10ffff,
    ensures
        c as u32 == code,
{
    match char::from_u32(code) {
        Some(c) => c,
        None => '\u{fffd}',
    }
}

/// The text of `units`, with U+FFFD for each surrogate that is not part of a pair.
pub fn from_wide(units: &[u16]) -> (chars: Vec<char>)
    ensures
        chars@ == wide_text(units@, 0),
{
    let count: usize = units.len();
    let mut chars: Vec<char> = Vec::new();
    let mut i: usize = 0;
    assert(chars@ + wide_text(units@, 0) =~= wide_text(units@, 0));
    while i < count
        invariant
            i <= count,
            count == units@.len(),
            chars@ + wide_text(units@, i as int) == wide_text(units@, 0),
        decreases count - i,
    {
        let unit: u16 = units[i];
        let high = 0xd800 <= unit && unit <= 0xdbff;
        let low = 0xdc00 <= unit && unit <= 0xdfff;
        let ghost before = chars@;
        if high && count - i > 1 && 0xdc00 <= units[i + 1] && units[i + 1] <= 0xdfff {
            let code: u32 = 0x1_0000 + (unit as u32 - 0xd800) * 0x400 + (units[i + 1] as u32
                - 0xdc00);
            chars.push(code_char(code));
            assert(before + wide_text(units@, i as int) =~= chars@ + wide_text(units@, i + 2));
            i = i + 2;
        } else if high || low {
            chars.push('\u{fffd}');
            assert(before + wide_text(units@, i as int) =~= chars@ + wide_text(units@, i + 1));
            i = i + 1;
        } else {
            chars.push(code_char(unit as u32));
            assert(before + wide_text(units@, i as int) =~= chars@ + wide_text(units@, i + 1));
            i = i + 1;
        }
    }
    assert(chars@ =~= chars@ + wide_text(units@, i as int));
    chars
}

/// `units` up to the first NUL.
pub open spec fn before_nul(units: Seq<u16>) -> Seq<u16>
    decreases units.len(),
{
    if units.len() == 0 || units[0] == 0 {
        seq![]
    } else {
        seq![units[0]] + before_nul(units.skip(1))
    }
}

/// How many units stand before the first NUL.
fn nul_position(units: &[u16]) -> (end: usize)
    ensures
        end <= units@.len(),
        before_nul(units@) == units@.take(end as int),
{
    let mut end: usize = 0;
    assert(units@.skip(0) =~= units@);
    assert(units@.take(0) + before_nul(units@) =~= before_nul(units@));
    while end < units.len() && units[end] != 0
        invariant
            end <= units@.len(),
            units@.take(end as int) + before_nul(units@.skip(end as int)) == before_nul(units@),
        decreases units@.len() - end,
    {
        proof {
            let rest = units@.skip(end as int);
            assert(rest.skip(1) =~= units@.skip(end + 1));
            assert(units@.take(end as int) + before_nul(rest) =~= units@.take(end + 1)
                + before_nul(units@.skip(end + 1)));
        }
        end = end + 1;
    }
    assert(units@.take(end as int) + before_nul(units@.skip(end as int)) =~= units@.take(
        end as int,
    ));
    end
}

/// The name that stands in a buffer ahead of its NUL, without the white space around it.
pub open spec fn name_in(units: Seq<u16>) -> Option<Seq<char>> {
    let text = trimmed(wide_text(before_nul(units), 0));
    if text.len() == 0 {
        None
    } else {
        Some(text)
    }
}

/// The user name in a buffer that a session query filled: the text before the
/// first NUL, without white space around it. The logon screen reports itself as a
/// session with an empty name.
pub fn user_name(units: &[u16]) -> (name: Option<String>)
    ensures
        crate::text::text_view(name) == name_in(units@),
{
    let end: usize = nul_position(units);
    assert(units@.subrange(0, end as int) =~= units@.take(end as int));
    let chars = from_wide(vstd::slice::slice_subrange(units, 0, end));
    let text = trim(chars.as_slice());
    if text.len() == 0 {
        None
    } else {
        Some(text_of(text))
    }
}

// ---------------------------------------------------------------------------
// Laws
// ---------------------------------------------------------------------------

/// UTF-16 from the front: the first character's units, then the rest's.
proof fn utf16_from_the_front(text: Seq<char>)
    requires
        text.len() > 0,
    ensures
        utf16(text) == utf16_of(text[0]) + utf16(text.skip(1)),
    decreases text.len(),
{
    if text.len() == 1 {
        assert(text.drop_last() =~= seq![]);
        assert(text.skip(1) =~= seq![]);
        assert(utf16(text) =~= utf16_of(text[0]) + utf16(text.skip(1)));
    } else {
        utf16_from_the_front(text.drop_last());
        assert(text.drop_last().skip(1) =~= text.skip(1).drop_last());
        assert(utf16(text) =~= utf16_of(text[0]) + utf16(text.skip(1)));
    }
}

/// The text behind a prefix does not depend on the prefix.
proof fn wide_text_behind(units: Seq<u16>, n: int, from: int)
    requires
        0 <= n <= from,
        n <= units.len(),
    ensures
        wide_text(units, from) == wide_text(units.skip(n), from - n),
    decreases units.len() - from,
{
    if from < units.len() {
        assert(units.skip(n)[from - n] == units[from]);
        wide_text_behind(units, n, from + 1);
        if from + 1 < units.len() {
            assert(units.skip(n)[from + 1 - n] == units[from + 1]);
            wide_text_behind(units, n, from + 2);
        }
    }
}

/// The units of a character read back as that character.
proof fn units_read_back(c: char, rest: Seq<u16>)
    ensures
        wide_text(utf16_of(c) + rest, 0) == seq![c] + wide_text(rest, 0),
{
    let units = utf16_of(c) + rest;
    let n = utf16_of(c).len() as int;
    assert(units.skip(n) =~= rest);
    wide_text_behind(units, n, n);
    let u = c as u32;
    if u >= 0x1_0000 {
        let d = u - 0x1_0000;
        assert(d / 0x400 * 0x400 + d % 0x400 == d);
        assert(units[0] == 0xd800 + d / 0x400);
        assert(units[1] == 0xdc00 + d % 0x400);
        assert(pair_char(units[0], units[1]) == c);
    } else {
        assert(units[0] == u);
    }
}

/// Reading the UTF-16 of a text gives back the text.
pub proof fn wide_text_reads_back(text: Seq<char>)
    ensures
        wide_text(utf16(text), 0) == text,
    decreases text.len(),
{
    if text.len() > 0 {
        utf16_from_the_front(text);
        units_read_back(text[0], utf16(text.skip(1)));
        wide_text_reads_back(text.skip(1));
        assert(seq![text[0]] + text.skip(1) =~= text);
    }
}

/// A buffer ends at its first NUL, and one without any at its end.
pub proof fn buffers_end_at_their_nul(units: Seq<u16>, rest: Seq<u16>)
    requires
        forall|i: int| 0 <= i < units.len() ==> #[trigger] units[i] != 0,
    ensures
        before_nul(units + seq![0u16] + rest) == units,
        before_nul(units) == units,
    decreases units.len(),
{
    let whole = units + seq![0u16] + rest;
    if units.len() > 0 {
        let tail = units.skip(1);
        assert(whole.skip(1) =~= tail + seq![0u16] + rest);
        assert(whole[0] == units[0]);
        assert forall|i: int| 0 <= i < tail.len() implies #[trigger] tail[i] != 0 by {
            assert(tail[i] == units[i + 1]);
        }
        buffers_end_at_their_nul(tail, rest);
        assert(units =~= seq![units[0]] + tail);
    } else {
        assert(whole[0] == 0);
    }
}

/// A name that was written into a buffer is read from it, whatever stands behind its NUL
/// and without the white space around it.
pub proof fn names_read_back(name: Seq<char>, rest: Seq<u16>)
    requires
        forall|i: int| 0 <= i < name.len() ==> #[trigger] name[i] != '\0',
    ensures
        name_in(utf16(name) + seq![0u16] + rest) is None <==> trimmed(name).len() == 0,
        name_in(utf16(name) + seq![0u16] + rest) matches Some(found) ==> found == trimmed(name),
{
    units_of_names_are_no_nul(name);
    buffers_end_at_their_nul(utf16(name), rest);
    wide_text_reads_back(name);
}

proof fn units_of_names_are_no_nul(name: Seq<char>)
    requires
        forall|i: int| 0 <= i < name.len() ==> #[trigger] name[i] != '\0',
    ensures
        forall|i: int| 0 <= i < utf16(name).len() ==> #[trigger] utf16(name)[i] != 0,
    decreases name.len(),
{
    if name.len() > 0 {
        let init = name.drop_last();
        assert forall|i: int| 0 <= i < init.len() implies #[trigger] init[i] != '\0' by {
            assert(init[i] == name[i]);
        }
        units_of_names_are_no_nul(init);
        let c = name[name.len() - 1];
        a_character_is_no_nul(c);
        assert forall|i: int| 0 <= i < utf16(name).len() implies #[trigger] utf16(name)[i] != 0 by {
            if i < utf16(init).len() {
                assert(utf16(name)[i] == utf16(init)[i]);
            } else {
                assert(utf16(name)[i] == utf16_of(c)[i - utf16(init).len()]);
            }
        }
    }
}

proof fn a_character_is_no_nul(c: char)
    requires
        c != '\0',
    ensures
        forall|i: int| 0 <= i < utf16_of(c).len() ==> #[trigger] utf16_of(c)[i] != 0,
{
    assert(c as u32 != 0);
}

/// Units are read one character at a time: a pair of surrogates is one character beyond
/// the first 65536, a surrogate without its other half is the replacement character, and
/// any other unit is itself.
pub proof fn units_are_read_in_order(unit: u16, rest: Seq<u16>)
    ensures
        ({
            let text = wide_text(seq![unit] + rest, 0);
            let high = 0xd800 <= unit <= 0xdbff;
            let low = 0xdc00 <= unit <= 0xdfff;
            let paired = high && rest.len() > 0 && 0xdc00 <= rest[0] <= 0xdfff;
            &&& !high && !low ==> text == seq![unit as char] + wide_text(rest, 0)
            &&& paired ==> text.len() > 0 && text[0] as u32 == 0x1_0000 + (unit - 0xd800) * 0x400
                + (rest[0] - 0xdc00) && text.skip(1) == wide_text(rest.skip(1), 0)
            &&& low || high && !paired ==> text == seq!['\u{fffd}'] + wide_text(rest, 0)
        }),
{
    let units = seq![unit] + rest;
    assert(units.skip(1) =~= rest);
    wide_text_behind(units, 1, 1);
    if rest.len() > 0 {
        assert(units[1] == rest[0]);
        assert(units.skip(2) =~= rest.skip(1));
        wide_text_behind(units, 2, 2);
        let text = wide_text(units, 0);
        if 0xd800 <= unit <= 0xdbff && 0xdc00 <= rest[0] <= 0xdfff {
            assert(text.skip(1) =~= wide_text(units, 2));
        }
    }
}

} // verus!
