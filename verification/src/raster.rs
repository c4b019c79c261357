use vstd::arithmetic::div_mod::lemma_fundamental_div_mod_converse;
use vstd::arithmetic::div_mod::lemma_mod_bound;
use vstd::arithmetic::div_mod::lemma_multiply_divide_lt;
use vstd::arithmetic::div_mod::lemma_div_pos_is_pos;
use vstd::prelude::*;

verus! {

/// The 24-bit packed `0xRRGGBB` value for the given channels, red in the
/// high byte.
pub open spec fn packed_rgb(r: u8, g: u8, b: u8) -> u32 {
    ((r as u32) << 16) | ((g as u32) << 8) | (b as u32)
}

/// Packs 8-bit red, green and blue channels into one buffer cell value.
pub fn from_u8_rgb(r: u8, g: u8, b: u8) -> (c: u32)
    ensures
        c == packed_rgb(r, g, b),
{
    let (r, g, b) = (r as u32, g as u32, b as u32);
    (r << 16) | (g << 8) | b
}

/// Overwrites every cell of the buffer with one color.
pub fn background(buffer: &mut Vec<u32>, color: u32)
    ensures
        final(buffer)@.len() == old(buffer)@.len(),
        forall|i: int| 0 <= i < final(buffer)@.len() ==> final(buffer)@[i] == color,
{
    let n: usize = buffer.len();
    let mut i: usize = 0;
    while i < n
        invariant
            n == buffer@.len(),
            i <= n,
            forall|j: int| 0 <= j < i ==> buffer@[j] == color,
        decreases n - i,
    {
        buffer[i] = color;
        i += 1;
    }
}

/// True when cell `i` of a row-major surface `width` cells wide lies in the
/// half-open rectangle `[x, x+w) × [y, y+h)`.
pub open spec fn covers(i: int, width: int, x: int, y: int, w: int, h: int) -> bool {
    &&& x <= i % width < x + w
    &&& y <= i / width < y + h
}

/// Writes `color` into every cell of the half-open rectangle `[x, x+w) × [y, y+h)`
/// that lies on the `width × height` surface, and leaves every other cell as it
/// was. The parts of the rectangle that fall outside the surface are clipped, so
/// no write ever lands outside the buffer, whatever rectangle is asked for.
pub fn draw_rect(
    buffer: &mut Vec<u32>,
    width: i64,
    height: i64,
    x: i64,
    y: i64,
    w: i64,
    h: i64,
    color: u32,
)
    requires
        1 <= width <= 0x4000,
        1 <= height <= 0x4000,
        old(buffer)@.len() == width * height,
        -0x100000 <= x <= 0x100000,
        -0x100000 <= y <= 0x100000,
        0 <= w <= 0x100000,
        0 <= h <= 0x100000,
    ensures
        final(buffer)@.len() == old(buffer)@.len(),
        forall|i: int|
            0 <= i < old(buffer)@.len() ==> final(buffer)@[i] == (if covers(
                i,
                width as int,
                x as int,
                y as int,
                w as int,
                h as int,
            ) {
                color
            } else {
                old(buffer)@[i]
            }),
{
    let x0: i64 = if x < 0 {
        0
    } else {
        x
    };
    let y0: i64 = if y < 0 {
        0
    } else {
        y
    };
    let x1: i64 = if x + w > width {
        width
    } else {
        x + w
    };
    let y1: i64 = if y + h > height {
        height
    } else {
        y + h
    };
    proof {
        lemma_rect_rows_cols(width as int, height as int, x as int, y as int, w as int, h as int);
    }
    let mut row: i64 = y0;
    while row < y1
        invariant
            y0 <= row,
            row <= y1 || row == y0,
            y1 <= height,
            0 <= y0,
            0 <= x0,
            x1 <= width,
            1 <= width <= 0x4000,
            1 <= height <= 0x4000,
            x0 == if x < 0 { 0 } else { x as int },
            y0 == if y < 0 { 0 } else { y as int },
            x1 == if x + w > width { width as int } else { x + w },
            y1 == if y + h > height { height as int } else { y + h },
            -0x100000 <= x <= 0x100000,
            -0x100000 <= y <= 0x100000,
            0 <= w <= 0x100000,
            0 <= h <= 0x100000,
            buffer@.len() == width * height,
            old(buffer)@.len() == width * height,
            forall|i: int|
                0 <= i < buffer@.len() ==> buffer@[i] == (if covers(
                    i,
                    width as int,
                    x as int,
                    y as int,
                    w as int,
                    h as int,
                ) && i / (width as int) < row {
                    color
                } else {
                    old(buffer)@[i]
                }),
        decreases y1 - row,
    {
        let mut col: i64 = x0;
        while col < x1
            invariant
                x0 <= col,
                col <= x1 || col == x0,
                y0 <= row < y1,
                y1 <= height,
                0 <= y0,
                0 <= x0,
                x1 <= width,
                1 <= width <= 0x4000,
                1 <= height <= 0x4000,
                x0 == if x < 0 { 0 } else { x as int },
                y0 == if y < 0 { 0 } else { y as int },
                x1 == if x + w > width { width as int } else { x + w },
                y1 == if y + h > height { height as int } else { y + h },
                -0x100000 <= x <= 0x100000,
                -0x100000 <= y <= 0x100000,
                0 <= w <= 0x100000,
                0 <= h <= 0x100000,
                buffer@.len() == width * height,
                old(buffer)@.len() == width * height,
                forall|i: int|
                    0 <= i < buffer@.len() ==> buffer@[i] == (if covers(
                        i,
                        width as int,
                        x as int,
                        y as int,
                        w as int,
                        h as int,
                    ) && (i / (width as int) < row || (i / (width as int) == row && i % (
                    width as int) < col)) {
                        color
                    } else {
                        old(buffer)@[i]
                    }),
            decreases x1 - col,
        {
            proof {
                lemma_row_major_index(width as int, height as int, row as int, col as int);
            }
            let idx: usize = (row * width + col) as usize;
            buffer[idx] = color;
            proof {
                assert forall|i: int|
                    0 <= i < buffer@.len() && i != row * width + col implies !(#[trigger] (i / (
                width as int)) == row && i % (width as int) == col) by {
                    vstd::arithmetic::div_mod::lemma_fundamental_div_mod(i, width as int);
                    if i / (width as int) == row && i % (width as int) == col {
                        assert(i == (width as int) * row + col);
                        assert((width as int) * row == row * width) by (nonlinear_arith);
                        assert(false);
                    }
                }
            }
            col += 1;
        }
        row += 1;
    }
}

/// The clipped rectangle bounds relate to `covers`: a covered cell's row lies
/// below the clipped lower edge, and its column below the clipped right edge.
proof fn lemma_rect_rows_cols(width: int, height: int, x: int, y: int, w: int, h: int)
    requires
        1 <= width,
        1 <= height,
    ensures
        forall|i: int|
            0 <= i < width * height ==> 0 <= #[trigger] (i / width) < height && 0 <= i % width
                < width,
{
    assert forall|i: int| 0 <= i < width * height implies 0 <= #[trigger] (i / width) < height && 0
        <= i % width < width by {
        lemma_div_pos_is_pos(i, width);
        lemma_multiply_divide_lt(i, width, height);
        lemma_mod_bound(i, width);
    }
}

/// Row-major index arithmetic: the cell at `(row, col)` has linear index
/// `row * width + col`, which lies in the buffer and decomposes back into the
/// same row and column.
proof fn lemma_row_major_index(width: int, height: int, row: int, col: int)
    requires
        1 <= width,
        0 <= row < height,
        0 <= col < width,
    ensures
        0 <= row * width + col < width * height,
        width <= 0x4000 && height <= 0x4000 ==> row * width + col < 0x10000000,
        (row * width + col) / width == row,
        (row * width + col) % width == col,
{
    lemma_fundamental_div_mod_converse(row * width + col, width, row, col);
    assert(0 <= row * width + col < width * height) by (nonlinear_arith)
        requires
            1 <= width,
            0 <= row < height,
            0 <= col < width,
    ;
    assert(width <= 0x4000 && height <= 0x4000 ==> row * width + col < 0x10000000)
        by (nonlinear_arith)
        requires
            1 <= width,
            0 <= row < height,
            0 <= col < width,
    ;
}

} // verus!
