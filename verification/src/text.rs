//! Text: building strings, numbers in decimal and hexadecimal, trimming, lines.

use vstd::prelude::*;

verus! {

// ---------------------------------------------------------------------------
// Characters
// ---------------------------------------------------------------------------

/// `String::push` appends one character.
pub assume_specification[ String::push ](text: &mut String, c: char)
    ensures
        final(text)@ == old(text)@.push(c),
;

/// The Unicode White_Space property.
pub open spec fn is_white_space(c: char) -> bool {
    let u = c as u32;
    ||| 0x9 <= u <= 0xd
    ||| u == 0x20
    ||| u == 0x85
    ||| u == 0xa0
    ||| u == 0x1680
    ||| 0x2000 <= u <= 0x200a
    ||| u == 0x2028
    ||| u == 0x2029
    ||| u == 0x202f
    ||| u == 0x205f
    ||| u == 0x3000
}

/// `char::is_whitespace` says whether a character has the White_Space property.
pub assume_specification[ char::is_whitespace ](c: char) -> (white: bool)
    ensures
        white == is_white_space(c),
;

/// `a` comes before `b` in the order of strings: at the first place where they
/// differ it has the lower character, or ends.
pub open spec fn sorts_before(a: Seq<char>, b: Seq<char>) -> bool
    decreases a.len(),
{
    if a.len() == 0 || b.len() == 0 {
        b.len() > 0
    } else if a[0] == b[0] {
        sorts_before(a.skip(1), b.skip(1))
    } else {
        (a[0] as u32) < (b[0] as u32)
    }
}

/// The characters of an optional string.
pub open spec fn text_view(text: Option<String>) -> Option<Seq<char>> {
    match text {
        Some(t) => Some(t@),
        None => None,
    }
}

/// The characters of `text`.
pub fn chars_of(text: &str) -> (chars: Vec<char>)
    ensures
        chars@ == text@,
{
    let mut chars: Vec<char> = Vec::new();
    for c in it: text.chars()
        invariant
            chars@ == text@.take(it.index()),
            it.seq() == text@,
    {
        chars.push(c);
        assert(chars@ =~= text@.take(it.index() + 1));
    }
    assert(text@.take(text@.len() as int) =~= text@);
    chars
}

/// Append `chars` to `text`.
pub fn push_chars(text: &mut String, chars: &[char])
    ensures
        final(text)@ == old(text)@ + chars@,
{
    let count: usize = chars.len();
    let mut i: usize = 0;
    assert(text@ =~= old(text)@ + chars@.take(0));
    while i < count
        invariant
            count == chars@.len(),
            i <= count,
            text@ == old(text)@ + chars@.take(i as int),
        decreases count - i,
    {
        text.push(chars[i]);
        assert(text@ =~= old(text)@ + chars@.take(i + 1));
        i = i + 1;
    }
    assert(chars@.take(count as int) =~= chars@);
}

/// The string of `chars`.
pub fn text_of(chars: &[char]) -> (text: String)
    ensures
        text@ == chars@,
{
    let mut text = String::new();
    push_chars(&mut text, chars);
    assert(text@ =~= chars@);
    text
}

/// Whether two texts are equal.
pub fn same_text(a: &str, b: &str) -> (same: bool)
    ensures
        same == (a@ == b@),
{
    a.to_owned() == b.to_owned()
}

/// A decimal or hexadecimal digit.
pub open spec fn digit(d: int) -> char {
    if d < 10 {
        (48 + d) as char
    } else {
        (87 + d) as char
    }
}

/// The character of a digit below sixteen, in lower case.
pub fn digit_char(d: u8) -> (c: char)
    requires
        d < 16,
    ensures
        c == digit(d as int),
{
    if d < 10 {
        (48 + d) as char
    } else {
        (87 + d) as char
    }
}

/// `n` in decimal.
pub open spec fn decimal(n: nat) -> Seq<char>
    decreases n,
{
    if n < 10 {
        seq![digit(n as int)]
    } else {
        decimal(n / 10).push(digit((n % 10) as int))
    }
}

/// Append `n` in decimal.
pub fn push_decimal(text: &mut String, n: u64)
    ensures
        final(text)@ == old(text)@ + decimal(n as nat),
    decreases n,
{
    if n >= 10 {
        push_decimal(text, n / 10);
    }
    text.push(digit_char((n % 10) as u8));
    assert(text@ =~= old(text)@ + decimal(n as nat));
}

/// `n` as `width` lower-case hexadecimal digits.
pub open spec fn hex(n: nat, width: nat) -> Seq<char>
    decreases width,
{
    if width == 0 {
        seq![]
    } else {
        hex(n / 16, (width - 1) as nat).push(digit((n % 16) as int))
    }
}

/// Append the low `width` hexadecimal digits of `n`.
pub fn push_hex(text: &mut String, n: u64, width: u8)
    ensures
        final(text)@ == old(text)@ + hex(n as nat, width as nat),
    decreases width,
{
    if width > 0 {
        push_hex(text, n / 16, width - 1);
        text.push(digit_char((n % 16) as u8));
    }
    assert(text@ =~= old(text)@ + hex(n as nat, width as nat));
}

/// `text` behind as many zeros as make it `width` characters long.
pub open spec fn zero_padded(text: Seq<char>, width: nat) -> Seq<char> {
    if text.len() < width {
        Seq::new((width - text.len()) as nat, |i: int| '0') + text
    } else {
        text
    }
}

/// `n` in decimal, filled with zeros behind its sign to `width` characters.
pub open spec fn padded_decimal(n: int, width: nat) -> Seq<char>
    recommends
        width > 0,
{
    if n >= 0 {
        zero_padded(decimal(n as nat), width)
    } else {
        seq!['-'] + zero_padded(decimal((-n) as nat), (width - 1) as nat)
    }
}

/// Append `n` in decimal, filled with zeros to `width` characters.
fn push_zero_padded(text: &mut String, n: u64, width: usize)
    ensures
        final(text)@ == old(text)@ + zero_padded(decimal(n as nat), width as nat),
{
    let mut number = String::new();
    push_decimal(&mut number, n);
    assert(number@ =~= decimal(n as nat));
    let length: usize = number.as_str().unicode_len();
    let mut written: usize = length;
    let ghost before = text@;
    while written < width
        invariant
            length <= written,
            written <= width || written == length,
            text@ == before + Seq::new((written - length) as nat, |i: int| '0'),
        decreases width - written,
    {
        text.push('0');
        assert(text@ =~= before + Seq::new((written + 1 - length) as nat, |i: int| '0'));
        written = written + 1;
    }
    text.append(number.as_str());
    assert(text@ =~= before + zero_padded(decimal(n as nat), width as nat));
}

/// Append `n` in decimal, filled with zeros behind its sign to `width` characters.
pub fn push_padded(text: &mut String, n: i64, width: usize)
    requires
        width > 0,
        n > i64::MIN,
    ensures
        final(text)@ == old(text)@ + padded_decimal(n as int, width as nat),
{
    if n >= 0 {
        push_zero_padded(text, n as u64, width);
    } else {
        text.push('-');
        push_zero_padded(text, (-n) as u64, width - 1);
        assert(text@ =~= old(text)@ + padded_decimal(n as int, width as nat));
    }
}

/// Ten to the power of `width`: the first number with more than `width` digits.
pub open spec fn power_of_ten(width: nat) -> nat
    decreases width,
{
    if width == 0 {
        1
    } else {
        10 * power_of_ten((width - 1) as nat)
    }
}

/// A decimal digit.
pub open spec fn is_digit(c: char) -> bool {
    '0' <= c <= '9'
}

/// A padded number ends in its last digit, behind the padded rest of it.
proof fn padded_decimal_by_digits(n: int, width: nat)
    requires
        0 <= n,
        width >= 2,
    ensures
        padded_decimal(n, width) == padded_decimal(n / 10, (width - 1) as nat).push(digit(n % 10)),
{
    let less = (width - 1) as nat;
    if n >= 10 {
        assert(decimal(n as nat) == decimal((n / 10) as nat).push(digit(n % 10)));
    } else {
        assert(decimal(0) =~= seq!['0']);
    }
    assert(padded_decimal(n, width) =~= padded_decimal(n / 10, less).push(digit(n % 10)));
}

/// A number that fits its width fills it, with digits alone.
pub proof fn padded_decimal_fills_its_width(n: int, width: nat)
    requires
        width >= 1,
        0 <= n < power_of_ten(width),
    ensures
        padded_decimal(n, width).len() == width,
        forall|i: int| 0 <= i < width ==> is_digit(#[trigger] padded_decimal(n, width)[i]),
    decreases width,
{
    reveal_with_fuel(power_of_ten, 2);
    if width > 1 {
        padded_decimal_by_digits(n, width);
        padded_decimal_fills_its_width(n / 10, (width - 1) as nat);
    }
}

/// What comes before a text also comes before it behind the same words.
pub proof fn same_words_ahead_keep_the_order(ahead: Seq<char>, a: Seq<char>, b: Seq<char>)
    requires
        sorts_before(a, b),
    ensures
        sorts_before(ahead + a, ahead + b),
    decreases ahead.len(),
{
    if ahead.len() == 0 {
        assert(ahead + a =~= a);
        assert(ahead + b =~= b);
    } else {
        same_words_ahead_keep_the_order(ahead.skip(1), a, b);
        assert((ahead + a).skip(1) =~= ahead.skip(1) + a);
        assert((ahead + b).skip(1) =~= ahead.skip(1) + b);
    }
}

/// Of two numbers that fit the same width the smaller one comes first as a text,
/// whatever follows them.
pub proof fn padded_numbers_sort(n: int, m: int, width: nat, a: Seq<char>, b: Seq<char>)
    requires
        width >= 1,
        0 <= n < m < power_of_ten(width),
    ensures
        sorts_before(padded_decimal(n, width) + a, padded_decimal(m, width) + b),
    decreases width,
{
    reveal_with_fuel(power_of_ten, 2);
    let (x, y) = (digit(n % 10), digit(m % 10));
    if width == 1 {
        assert((padded_decimal(n, width) + a)[0] == x);
        assert((padded_decimal(m, width) + b)[0] == y);
    } else {
        let less = (width - 1) as nat;
        padded_decimal_by_digits(n, width);
        padded_decimal_by_digits(m, width);
        let (p, q) = (padded_decimal(n / 10, less), padded_decimal(m / 10, less));
        assert(padded_decimal(n, width) + a =~= p + (seq![x] + a));
        assert(padded_decimal(m, width) + b =~= q + (seq![y] + b));
        if n / 10 < m / 10 {
            padded_numbers_sort(n / 10, m / 10, less, seq![x] + a, seq![y] + b);
        } else {
            assert(sorts_before(seq![x] + a, seq![y] + b));
            same_words_ahead_keep_the_order(p, seq![x] + a, seq![y] + b);
        }
    }
}

// ---------------------------------------------------------------------------
// Trimming
// ---------------------------------------------------------------------------

/// `text` without the white space at its end.
pub open spec fn trimmed_end(text: Seq<char>) -> Seq<char>
    decreases text.len(),
{
    if text.len() > 0 && is_white_space(text.last()) {
        trimmed_end(text.drop_last())
    } else {
        text
    }
}

/// `text` without the white space at its start.
pub open spec fn trimmed_start(text: Seq<char>) -> Seq<char>
    decreases text.len(),
{
    if text.len() > 0 && is_white_space(text[0]) {
        trimmed_start(text.skip(1))
    } else {
        text
    }
}

/// `text` without the white space at either end.
pub open spec fn trimmed(text: Seq<char>) -> Seq<char> {
    trimmed_end(trimmed_start(text))
}

/// `text` without the white space at its end.
pub fn trim_end<'a>(text: &'a [char]) -> (rest: &'a [char])
    ensures
        rest@ == trimmed_end(text@),
{
    let mut end: usize = text.len();
    assert(text@.take(end as int) =~= text@);
    while end > 0 && text[end - 1].is_whitespace()
        invariant
            end <= text@.len(),
            trimmed_end(text@.take(end as int)) == trimmed_end(text@),
        decreases end,
    {
        assert(text@.take(end as int).drop_last() =~= text@.take(end - 1));
        end = end - 1;
    }
    assert(text@.subrange(0, end as int) =~= text@.take(end as int));
    vstd::slice::slice_subrange(text, 0, end)
}

/// `text` without the white space at either end.
pub fn trim<'a>(text: &'a [char]) -> (rest: &'a [char])
    ensures
        rest@ == trimmed(text@),
{
    let mut start: usize = 0;
    let length: usize = text.len();
    assert(text@.skip(0) =~= text@);
    while start < length && text[start].is_whitespace()
        invariant
            start <= length,
            length == text@.len(),
            trimmed_start(text@.skip(start as int)) == trimmed_start(text@),
        decreases length - start,
    {
        assert(text@.skip(start as int).skip(1) =~= text@.skip(start + 1));
        start = start + 1;
    }
    assert(text@.subrange(start as int, length as int) =~= text@.skip(start as int));
    trim_end(vstd::slice::slice_subrange(text, start, length))
}

/// Whether `text` begins with `prefix`.
pub open spec fn has_prefix(text: Seq<char>, prefix: Seq<char>) -> bool {
    prefix.len() <= text.len() && text.take(prefix.len() as int) == prefix
}

/// What follows `prefix` in `text`, if `text` begins with it.
pub fn strip_prefix<'a>(text: &'a [char], prefix: &str) -> (rest: Option<&'a [char]>)
    ensures
        rest is Some <==> has_prefix(text@, prefix@),
        rest matches Some(r) ==> r@ == text@.skip(prefix@.len() as int),
{
    let wanted = chars_of(prefix);
    let n: usize = wanted.len();
    if text.len() < n {
        return None;
    }
    let mut i: usize = 0;
    while i < n
        invariant
            n == wanted@.len(),
            wanted@ == prefix@,
            n <= text@.len(),
            i <= n,
            forall|k: int| 0 <= k < i ==> text@[k] == prefix@[k],
        decreases n - i,
    {
        if text[i] != wanted[i] {
            assert(text@.take(n as int)[i as int] != prefix@[i as int]);
            return None;
        }
        i = i + 1;
    }
    assert(text@.take(n as int) =~= prefix@);
    assert(text@.subrange(n as int, text@.len() as int) =~= text@.skip(n as int));
    Some(vstd::slice::slice_subrange(text, n, text.len()))
}

// ---------------------------------------------------------------------------
// Lines
// ---------------------------------------------------------------------------

/// Where the line that begins at `from` ends: at the next line feed, or at the end.
pub open spec fn line_end(text: Seq<char>, from: int) -> int
    decreases text.len() - from,
{
    if from >= text.len() {
        text.len() as int
    } else if text[from] == '\n' {
        from
    } else {
        line_end(text, from + 1)
    }
}

/// A line does not end before it begins.
pub proof fn line_end_is_ahead(text: Seq<char>, from: int)
    requires
        from <= text.len(),
    ensures
        from <= line_end(text, from) <= text.len(),
    decreases text.len() - from,
{
    if from < text.len() && text[from] != '\n' {
        line_end_is_ahead(text, from + 1);
    }
}

/// The lines of `text` from position `from` on, without their line feeds.
pub open spec fn lines_from(text: Seq<char>, from: int) -> Seq<Seq<char>>
    decreases text.len() + 1 - from,
{
    if from >= text.len() {
        seq![]
    } else {
        proof {
            line_end_is_ahead(text, from);
        }
        let end = line_end(text, from);
        seq![text.subrange(from, end)] + lines_from(text, end + 1)
    }
}

/// The lines of `text`, without their line feeds.
pub open spec fn lines(text: Seq<char>) -> Seq<Seq<char>> {
    lines_from(text, 0)
}

/// The characters of each line.
pub open spec fn line_chars(found: Seq<&[char]>) -> Seq<Seq<char>> {
    found.map_values(|line: &[char]| line@)
}

/// The lines of `text`, without their line feeds.
pub fn split_lines<'a>(text: &'a [char]) -> (found: Vec<&'a [char]>)
    ensures
        line_chars(found@) == lines(text@),
{
    let mut found: Vec<&'a [char]> = Vec::new();
    let mut from: usize = 0;
    assert(line_chars(found@) + lines(text@) =~= lines(text@));
    while from < text.len()
        invariant
            from <= text@.len(),
            line_chars(found@) + lines_from(text@, from as int) == lines(text@),
        decreases text@.len() - from,
    {
        let mut end: usize = from;
        while end < text.len() && text[end] != '\n'
            invariant
                from <= end <= text@.len(),
                line_end(text@, end as int) == line_end(text@, from as int),
            decreases text@.len() - end,
        {
            end = end + 1;
        }
        let ghost before = line_chars(found@);
        found.push(vstd::slice::slice_subrange(text, from, end));
        assert(line_chars(found@) =~= before.push(text@.subrange(from as int, end as int)));
        assert(before + lines_from(text@, from as int) =~= line_chars(found@) + lines_from(
            text@,
            end + 1,
        ));
        if end < text.len() {
            from = end + 1;
        } else {
            assert(lines_from(text@, end + 1) =~= lines_from(text@, end as int));
            from = end;
        }
    }
    assert(line_chars(found@) =~= line_chars(found@) + lines_from(text@, from as int));
    found
}

// ---------------------------------------------------------------------------
// Bytes to text
// ---------------------------------------------------------------------------

/// What `String::from_utf8_lossy` makes of `bytes`.
pub uninterp spec fn lossy_text(bytes: Seq<u8>) -> Seq<char>;

/// `String::from_utf8_lossy` replaces what is not UTF-8, and leaves UTF-8 as it
/// is. What it makes of other bytes is a function of the bytes.
#[verifier::external_body]
pub(crate) fn utf8_lossy(bytes: &[u8]) -> (text: String)
    ensures
        text@ == lossy_text(bytes@),
        vstd::utf8::valid_utf8(bytes@) ==> text@ == vstd::utf8::decode_utf8(bytes@),
{
    String::from_utf8_lossy(bytes).into_owned()
}

/// `char::from_u32` gives the character of a code point that has one: all but
/// the surrogates, up to 0x10FFFF.
pub assume_specification[ char::from_u32 ](code: u32) -> (c: Option<char>)
    ensures
        c is Some <==> code < 0xd800 || 0xdfff < code <= 0x10ffff,
        c matches Some(c) ==> c as u32 == code,
;

// ---------------------------------------------------------------------------
// Laws
// ---------------------------------------------------------------------------

/// The value of a lower-case hexadecimal digit.
pub open spec fn digit_value(c: char) -> nat {
    if '0' <= c <= '9' {
        (c as u32 - 48) as nat
    } else {
        (c as u32 - 87) as nat
    }
}

/// The number that decimal digits stand for.
pub open spec fn decimal_value(text: Seq<char>) -> nat
    decreases text.len(),
{
    if text.len() == 0 {
        0
    } else {
        10 * decimal_value(text.drop_last()) + digit_value(text.last())
    }
}

/// The number that lower-case hexadecimal digits stand for.
pub open spec fn hex_value(text: Seq<char>) -> nat
    decreases text.len(),
{
    if text.len() == 0 {
        0
    } else {
        16 * hex_value(text.drop_last()) + digit_value(text.last())
    }
}

/// A digit stands for its value.
proof fn digits_have_their_value(d: int)
    requires
        0 <= d < 16,
    ensures
        digit_value(digit(d)) == d,
        '0' <= digit(d) <= '9' || 'a' <= digit(d) <= 'f',
        d < 10 ==> '0' <= digit(d) <= '9',
{
}

/// A number in decimal stands for that number, in digits alone, and without a zero ahead.
pub proof fn decimals_read_back(n: nat)
    ensures
        decimal_value(decimal(n)) == n,
        decimal(n).len() > 0,
        forall|i: int| 0 <= i < decimal(n).len() ==> is_digit(#[trigger] decimal(n)[i]),
        n > 0 ==> decimal(n)[0] != '0',
    decreases n,
{
    reveal_with_fuel(decimal_value, 2);
    if n < 10 {
        digits_have_their_value(n as int);
        assert(decimal(n).drop_last().len() == 0);
    } else {
        decimals_read_back(n / 10);
        digits_have_their_value((n % 10) as int);
        assert(decimal(n).drop_last() =~= decimal(n / 10));
    }
}

/// Hexadecimal digits, as many as asked for and in lower case, stand for the number as
/// far as they go.
pub proof fn hex_reads_back(n: nat, width: nat)
    ensures
        hex(n, width).len() == width,
        forall|i: int|
            0 <= i < width ==> ('0' <= #[trigger] hex(n, width)[i] <= '9' || 'a' <= hex(n, width)[i]
                <= 'f'),
        hex_value(hex(n, width)) == n % power_of_sixteen(width),
    decreases width,
{
    if width > 0 {
        let less = (width - 1) as nat;
        hex_reads_back(n / 16, less);
        digits_have_their_value((n % 16) as int);
        assert(hex(n, width).drop_last() =~= hex(n / 16, less));
        let p = power_of_sixteen(less);
        powers_are_positive(less);
        vstd::arithmetic::div_mod::lemma_mod_breakdown(n as int, 16, p as int);
    } else {
        assert(n % 1 == 0);
    }
}

proof fn powers_are_positive(width: nat)
    ensures
        power_of_sixteen(width) > 0,
    decreases width,
{
    if width > 0 {
        powers_are_positive((width - 1) as nat);
    }
}

/// Sixteen to the power of `width`.
pub open spec fn power_of_sixteen(width: nat) -> nat
    decreases width,
{
    if width == 0 {
        1
    } else {
        16 * power_of_sixteen((width - 1) as nat)
    }
}

/// Sixteen hexadecimal digits hold every 64-bit number, and two every byte.
pub proof fn small_numbers_keep_their_digits(n: u64)
    ensures
        n as nat % power_of_sixteen(16) == n,
        power_of_sixteen(2) == 256,
{
    reveal_with_fuel(power_of_sixteen, 17);
    assert(power_of_sixteen(4) == 0x1_0000);
    assert(power_of_sixteen(8) == 0x1_0000_0000);
    assert(power_of_sixteen(16) == 0x1_0000_0000_0000_0000);
    vstd::arithmetic::div_mod::lemma_small_mod(n as nat, 0x1_0000_0000_0000_0000);
}

/// A padded number stands for that number, behind a sign where it is negative, and has at
/// least the width asked for.
pub proof fn padded_decimals_read_back(n: int, width: nat)
    requires
        width >= 1,
    ensures
        n >= 0 ==> decimal_value(padded_decimal(n, width)) == n,
        n < 0 ==> padded_decimal(n, width)[0] == '-' && decimal_value(
            padded_decimal(n, width).skip(1),
        ) == -n,
        padded_decimal(n, width).len() >= width,
{
    if n >= 0 {
        zeros_ahead_mean_nothing(decimal(n as nat), width);
        decimals_read_back(n as nat);
    } else {
        let digits = zero_padded(decimal((-n) as nat), (width - 1) as nat);
        zeros_ahead_mean_nothing(decimal((-n) as nat), (width - 1) as nat);
        decimals_read_back((-n) as nat);
        assert(padded_decimal(n, width).skip(1) =~= digits);
    }
}

/// Zeros ahead of a number do not change it.
proof fn zeros_ahead_mean_nothing(text: Seq<char>, width: nat)
    ensures
        decimal_value(zero_padded(text, width)) == decimal_value(text),
        zero_padded(text, width).len() >= width,
        zero_padded(text, width).len() >= text.len(),
    decreases text.len(), width,
{
    if text.len() < width {
        let padded = zero_padded(text, width);
        if text.len() == 0 {
            if width > 1 {
                zeros_ahead_mean_nothing(text, (width - 1) as nat);
            }
            assert(padded.drop_last() =~= zero_padded(text, (width - 1) as nat));
            assert(padded.last() == '0');
        } else {
            zeros_ahead_mean_nothing(text.drop_last(), (width - 1) as nat);
            assert(padded.drop_last() =~= zero_padded(text.drop_last(), (width - 1) as nat));
            assert(padded.last() == text.last());
        }
    }
}

/// Trimming takes the white space at both ends away, all of it and nothing else.
pub proof fn trimming_takes_the_white_space(text: Seq<char>)
    ensures
        exists|from: int, to: int| #[trigger] is_trim(text, from, to),
        trimmed(text).len() > 0 ==> !is_white_space(trimmed(text)[0]) && !is_white_space(
            trimmed(text).last(),
        ),
{
    start_is_trimmed(text);
    let rest = trimmed_start(text);
    end_is_trimmed(rest);
    let from = text.len() - rest.len();
    let to = from + trimmed(text).len();
    assert(trimmed(text) =~= text.subrange(from, to)) by {
        assert(rest.take(trimmed(text).len() as int) =~= text.subrange(from, to));
    }
    assert forall|i: int| to <= i < text.len() implies is_white_space(#[trigger] text[i]) by {
        assert(text[i] == rest[i - from]);
    }
    assert(is_trim(text, from, to));
}

/// `text` trimmed is what lies from `from` to `to`, with white space ahead and behind.
pub open spec fn is_trim(text: Seq<char>, from: int, to: int) -> bool {
    &&& 0 <= from <= to <= text.len()
    &&& trimmed(text) == text.subrange(from, to)
    &&& forall|i: int| 0 <= i < from ==> is_white_space(#[trigger] text[i])
    &&& forall|i: int| to <= i < text.len() ==> is_white_space(#[trigger] text[i])
}

proof fn start_is_trimmed(text: Seq<char>)
    ensures
        trimmed_start(text).len() <= text.len(),
        trimmed_start(text) == text.skip(text.len() - trimmed_start(text).len()),
        forall|i: int|
            0 <= i < text.len() - trimmed_start(text).len() ==> is_white_space(#[trigger] text[i]),
        trimmed_start(text).len() > 0 ==> !is_white_space(trimmed_start(text)[0]),
    decreases text.len(),
{
    if text.len() > 0 && is_white_space(text[0]) {
        start_is_trimmed(text.skip(1));
        let n = text.len() - trimmed_start(text).len();
        assert(text.skip(1).skip(n - 1) =~= text.skip(n));
        assert forall|i: int| 0 <= i < n implies is_white_space(#[trigger] text[i]) by {
            if i > 0 {
                assert(text.skip(1)[i - 1] == text[i]);
            }
        }
    } else {
        assert(text.skip(0) =~= text);
    }
}

proof fn end_is_trimmed(text: Seq<char>)
    ensures
        trimmed_end(text).len() <= text.len(),
        trimmed_end(text) == text.take(trimmed_end(text).len() as int),
        forall|i: int|
            trimmed_end(text).len() <= i < text.len() ==> is_white_space(#[trigger] text[i]),
        trimmed_end(text).len() > 0 ==> !is_white_space(trimmed_end(text).last()),
        trimmed_end(text).len() > 0 ==> trimmed_end(text)[0] == text[0],
    decreases text.len(),
{
    if text.len() > 0 && is_white_space(text.last()) {
        end_is_trimmed(text.drop_last());
        let n = trimmed_end(text).len() as int;
        assert(text.drop_last().take(n) =~= text.take(n));
        assert forall|i: int| n <= i < text.len() implies is_white_space(#[trigger] text[i]) by {
            if i < text.len() - 1 {
                assert(text.drop_last()[i] == text[i]);
            }
        }
    } else {
        assert(text.take(text.len() as int) =~= text);
    }
}

/// Trimming the end takes the white space there away, all of it and nothing else.
pub proof fn trimming_the_end_takes_the_white_space(text: Seq<char>)
    ensures
        trimmed_end(text).len() <= text.len(),
        trimmed_end(text) == text.take(trimmed_end(text).len() as int),
        forall|i: int|
            trimmed_end(text).len() <= i < text.len() ==> is_white_space(#[trigger] text[i]),
        trimmed_end(text).len() > 0 ==> !is_white_space(trimmed_end(text).last()),
{
    end_is_trimmed(text);
}

/// A text splits at its line feeds: what stands ahead of the first is the first line, and
/// what stands behind it splits on. A text without a line feed is one line, unless it is
/// empty.
pub proof fn texts_split_at_line_feeds(first: Seq<char>, rest: Seq<char>)
    requires
        forall|i: int| 0 <= i < first.len() ==> #[trigger] first[i] != '\n',
    ensures
        lines(first + seq!['\n'] + rest) == seq![first] + lines(rest),
        first.len() > 0 ==> lines(first) == seq![first],
        lines(Seq::<char>::empty()) == Seq::<Seq<char>>::empty(),
{
    let text = first + seq!['\n'] + rest;
    let n = first.len() as int;
    line_ends_at(text, 0, n);
    assert(text.subrange(0, n) =~= first);
    lines_behind(text, n + 1, n + 1);
    assert(text.skip(n + 1) =~= rest);
    if n > 0 {
        line_ends_at(first, 0, n);
        assert(first.subrange(0, n) =~= first);
        assert(lines_from(first, n + 1).len() == 0);
        assert(lines(first) =~= seq![first]);
    }
}

proof fn line_ends_at(text: Seq<char>, from: int, at: int)
    requires
        0 <= from <= at <= text.len(),
        forall|i: int| from <= i < at ==> #[trigger] text[i] != '\n',
        at < text.len() ==> text[at] == '\n',
    ensures
        line_end(text, from) == at,
    decreases at - from,
{
    if from < at {
        assert(text[from] != '\n');
        line_ends_at(text, from + 1, at);
    }
}

/// The lines behind a place do not depend on what stands ahead of it.
proof fn lines_behind(text: Seq<char>, n: int, from: int)
    requires
        0 <= n <= from,
        n <= text.len(),
    ensures
        lines_from(text, from) == lines_from(text.skip(n), from - n),
    decreases text.len() + 1 - from,
{
    if from < text.len() {
        line_end_behind(text, n, from);
        line_end_is_ahead(text, from);
        let end = line_end(text, from);
        assert(text.subrange(from, end) =~= text.skip(n).subrange(from - n, end - n));
        lines_behind(text, n, end + 1);
    }
}

proof fn line_end_behind(text: Seq<char>, n: int, from: int)
    requires
        0 <= n <= from,
        n <= text.len(),
    ensures
        line_end(text, from) == line_end(text.skip(n), from - n) + n,
    decreases text.len() - from,
{
    if from < text.len() && text[from] != '\n' {
        line_end_behind(text, n, from + 1);
    }
}

/// A text has a prefix if and only if it is the prefix and something behind it.
pub proof fn prefixes_stand_ahead(prefix: Seq<char>, text: Seq<char>, rest: Seq<char>)
    ensures
        has_prefix(prefix + rest, prefix),
        (prefix + rest).skip(prefix.len() as int) == rest,
        has_prefix(text, prefix) ==> text == prefix + text.skip(prefix.len() as int),
{
    assert((prefix + rest).take(prefix.len() as int) =~= prefix);
    assert((prefix + rest).skip(prefix.len() as int) =~= rest);
    if has_prefix(text, prefix) {
        assert(text =~= text.take(prefix.len() as int) + text.skip(prefix.len() as int));
    }
}

/// `text` is `word` between `ahead` and `behind`.
pub open spec fn is_held(
    text: Seq<char>,
    word: Seq<char>,
    ahead: Seq<char>,
    behind: Seq<char>,
) -> bool {
    text == ahead + word + behind
}

/// `word` stands somewhere in `text`.
pub open spec fn holds(text: Seq<char>, word: Seq<char>) -> bool {
    exists|ahead: Seq<char>, behind: Seq<char>| #[trigger] is_held(text, word, ahead, behind)
}

} // verus!
