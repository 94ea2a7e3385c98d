//! The shape of a captured frame.

use vstd::prelude::*;
use vstd::slice::slice_subrange;

use crate::bytes::push_all;

verus! {

/// The first `columns` pixels of each of the first `rows` rows of an RGBA image
/// that is `width` pixels wide.
pub open spec fn cropped(raw: Seq<u8>, width: nat, columns: nat, rows: nat) -> Seq<u8>
    decreases rows,
{
    if rows == 0 {
        seq![]
    } else {
        let start = (rows - 1) * width * 4;
        cropped(raw, width, columns, (rows - 1) as nat) + raw.subrange(start, start + columns * 4)
    }
}

/// Cropping to the full width keeps everything.
proof fn cropping_nothing(raw: Seq<u8>, width: nat, rows: nat)
    requires
        rows * width * 4 <= raw.len(),
    ensures
        cropped(raw, width, width, rows) == raw.take((rows * width * 4) as int),
    decreases rows,
{
    if rows == 0 {
        assert(0 * width * 4 == 0) by (nonlinear_arith);
        assert(cropped(raw, width, width, rows) =~= raw.take((rows * width * 4) as int));
    } else {
        let before = (rows - 1) as nat;
        assert(rows * width * 4 == before * width * 4 + width * 4) by (nonlinear_arith)
            requires
                rows == before + 1,
        ;
        cropping_nothing(raw, width, before);
        assert(cropped(raw, width, width, rows) =~= raw.take((rows * width * 4) as int));
    }
}

/// How long a cropped image is.
proof fn cropped_length(raw: Seq<u8>, width: nat, columns: nat, rows: nat)
    requires
        columns <= width,
        rows * width * 4 <= raw.len(),
    ensures
        cropped(raw, width, columns, rows).len() == rows * columns * 4,
    decreases rows,
{
    if rows > 0 {
        let before = (rows - 1) as nat;
        assert(rows * width * 4 == before * width * 4 + width * 4) by (nonlinear_arith)
            requires
                rows == before + 1,
        ;
        assert(rows * columns * 4 == before * columns * 4 + columns * 4) by (nonlinear_arith)
            requires
                rows == before + 1,
        ;
        cropped_length(raw, width, columns, before);
    } else {
        assert(0 * columns * 4 == 0) by (nonlinear_arith);
    }
}

/// Cropping moves no pixel: byte `c` of the pixel in row `y` and column `x` is what
/// it was.
pub proof fn cropping_keeps_pixels_in_place(
    raw: Seq<u8>,
    width: nat,
    columns: nat,
    rows: nat,
    x: nat,
    y: nat,
    c: nat,
)
    requires
        columns <= width,
        rows * width * 4 <= raw.len(),
        x < columns,
        y < rows,
        c < 4,
    ensures
        (y * columns + x) * 4 + c < cropped(raw, width, columns, rows).len(),
        cropped(raw, width, columns, rows)[((y * columns + x) * 4 + c) as int] == raw[((y * width + x)
            * 4 + c) as int],
    decreases rows,
{
    let before = (rows - 1) as nat;
    assert(rows * width * 4 == before * width * 4 + width * 4) by (nonlinear_arith)
        requires
            rows == before + 1,
    ;
    cropped_length(raw, width, columns, before);
    let kept = cropped(raw, width, columns, before);
    let start = (rows - 1) * width * 4;
    let row = raw.subrange(start as int, start + columns * 4);
    let at = ((y * columns + x) * 4 + c) as int;
    if y < before {
        cropping_keeps_pixels_in_place(raw, width, columns, before, x, y, c);
        assert((kept + row)[at] == kept[at]);
    } else {
        assert(at == before * columns * 4 + (x * 4 + c)) by (nonlinear_arith)
            requires
                at == (y * columns + x) * 4 + c,
                y == before,
        ;
        assert((y * width + x) * 4 + c == before * width * 4 + (x * 4 + c)) by (nonlinear_arith)
            requires
                y == before,
        ;
        assert((kept + row)[at] == row[(x * 4 + c) as int]);
    }
}

/// Crop the last column / row when a dimension is odd so the encoder (and the
/// YUV 4:2:0 conversion) never sees an unrepresentable size.
pub fn crop_even(width: usize, height: usize, raw: Vec<u8>) -> (frame: (usize, usize, Vec<u8>))
    requires
        raw@.len() == height * width * 4,
    ensures
        frame.0 == width - width % 2,
        frame.1 == height - height % 2,
        frame.2@ == cropped(raw@, width as nat, frame.0 as nat, frame.1 as nat),
        frame.2@.len() == frame.1 * frame.0 * 4,
{
    let columns: usize = width - width % 2;
    let rows: usize = height - height % 2;
    proof {
        assert(rows * width * 4 <= height * width * 4) by (nonlinear_arith)
            requires
                rows <= height,
        ;
        cropped_length(raw@, width as nat, columns as nat, rows as nat);
    }
    if columns == width && rows == height {
        proof {
            cropping_nothing(raw@, width as nat, rows as nat);
            assert(raw@.take(raw@.len() as int) =~= raw@);
        }
        return (width, height, raw);
    }
    let length: usize = raw.len();
    let mut pixels: Vec<u8> = Vec::new();
    let mut y: usize = 0;
    while y < rows
        invariant
            y <= rows,
            rows <= height,
            columns <= width,
            length == raw@.len(),
            length == height * width * 4,
            pixels@ == cropped(raw@, width as nat, columns as nat, y as nat),
        decreases rows - y,
    {
        proof {
            assert(y * width * 4 + width * 4 <= height * width * 4) by (nonlinear_arith)
                requires
                    y + 1 <= height,
            ;
            assert(y * width <= y * width * 4) by (nonlinear_arith);
            assert(0 <= y * width) by (nonlinear_arith);
        }
        let start: usize = (y * width) * 4;
        push_all(&mut pixels, slice_subrange(raw.as_slice(), start, start + columns * 4));
        y = y + 1;
    }
    (columns, rows, pixels)
}

} // verus!
