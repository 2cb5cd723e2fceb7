//! Copying pixels between buffers, row by row.

use vstd::arithmetic::div_mod::{lemma_fundamental_div_mod, lemma_fundamental_div_mod_converse};
use vstd::prelude::*;

verus! {

/// Bytes of one pixel in every format that a scanout shows.
pub const BYTES_PER_PIXEL: u32 = 4;

/// How many of the `w` pixels from column `x` on lie in rows of `width` pixels.
pub open spec fn rect_width(width: int, x: int, w: int) -> int {
    if width <= x {
        0
    } else if w < width - x {
        w
    } else {
        width - x
    }
}

/// How many bytes the rectangle of `w` by `h` pixels at column `x` takes up, from
/// its first byte to its last, in rows of `width` pixels.
pub open spec fn rect_len(width: int, x: int, w: int, h: int) -> int {
    if width == 0 || h == 0 {
        0
    } else {
        (h - 1) * (4 * width) + 4 * rect_width(width, x, w)
    }
}

/// `old` with the rectangle of `w` by `h` pixels at (`x`, `y`) replaced.
///
/// `old` holds rows of `width` pixels, and so does `region`, from the first byte
/// of the rectangle to its last. What lies outside the rows and columns of `old`
/// is left out.
pub open spec fn scattered(
    old: Seq<u8>,
    region: Seq<u8>,
    width: int,
    x: int,
    y: int,
    w: int,
    h: int,
) -> Seq<u8> {
    let stride = 4 * width;
    Seq::new(
        old.len(),
        |i: int|
            if y <= i / stride < y + h && 4 * x <= i % stride < 4 * (x + w) {
                region[(i / stride - y) * stride + (i % stride - 4 * x)]
            } else {
                old[i]
            },
    )
}

/// Whether row `row` lies in a source of `src_len` bytes and in a destination of
/// `dst_len` bytes.
pub open spec fn row_fits(
    row: int,
    width: int,
    src_stride: int,
    src_len: int,
    dst_len: int,
) -> bool {
    &&& row * src_stride + row_bytes(width, src_stride) <= src_len
    &&& row * (4 * width) + row_bytes(width, src_stride) <= dst_len
}

/// How many bytes of a row are copied: a row of pixels, or the whole source row
/// where that is shorter.
pub open spec fn row_bytes(width: int, src_stride: int) -> int {
    if src_stride < 4 * width {
        src_stride
    } else {
        4 * width
    }
}

/// `old`, tightly packed rows of `width` pixels, with the first `height` rows
/// of `src`, which lie `src_stride` bytes apart, copied over it. Rows that do
/// not fit stay as they were.
pub open spec fn rows_copied(
    old: Seq<u8>,
    src: Seq<u8>,
    width: int,
    height: int,
    src_stride: int,
) -> Seq<u8> {
    let stride = 4 * width;
    Seq::new(
        old.len(),
        |i: int|
            if width > 0 && i / stride < height && i % stride < row_bytes(width, src_stride)
                && row_fits(i / stride, width, src_stride, src.len() as int, old.len() as int) {
                src[(i / stride) * src_stride + i % stride]
            } else {
                old[i]
            },
    )
}

/// `old` with as much of `src` copied over its start as both hold.
pub open spec fn prefix_copied(old: Seq<u8>, src: Seq<u8>) -> Seq<u8> {
    Seq::new(
        old.len(),
        |i: int|
            if i < src.len() {
                src[i]
            } else {
                old[i]
            },
    )
}

/// Copies `len` bytes of `src` from `src_start` on to `dst` from `dst_start` on.
fn copy_bytes(dst: &mut [u8], dst_start: usize, src: &[u8], src_start: usize, len: usize)
    requires
        dst_start + len <= old(dst)@.len(),
        src_start + len <= src@.len(),
    ensures
        final(dst)@.len() == old(dst)@.len(),
        forall|k: int|
            0 <= k < old(dst)@.len() ==> #[trigger] final(dst)@[k] == if dst_start <= k < dst_start
                + len {
                src@[src_start + (k - dst_start)]
            } else {
                old(dst)@[k]
            },
{
    let mut n: usize = 0;
    while n < len
        invariant
            n <= len,
            dst@.len() == old(dst)@.len(),
            dst_start + len <= dst.len(),
            src_start + len <= src.len(),
            forall|k: int|
                0 <= k < old(dst)@.len() ==> #[trigger] dst@[k] == if dst_start <= k < dst_start
                    + n {
                    src@[src_start + (k - dst_start)]
                } else {
                    old(dst)@[k]
                },
        decreases len - n,
    {
        dst[dst_start + n] = src[src_start + n];
        n = n + 1;
    }
}

/// Copies as much of `src` as fits to the start of `dst`.
pub fn copy_prefix(dst: &mut [u8], src: &[u8])
    ensures
        final(dst)@ == prefix_copied(old(dst)@, src@),
{
    let len: usize = if src.len() < dst.len() {
        src.len()
    } else {
        dst.len()
    };
    copy_bytes(dst, 0, src, 0, len);
}

/// Byte `i` is byte `i % stride` of row `i / stride`.
pub proof fn lemma_row_and_column(i: int, stride: int)
    requires
        0 < stride,
        0 <= i,
    ensures
        0 <= i / stride,
        0 <= i % stride < stride,
        i == (i / stride) * stride + i % stride,
{
    lemma_fundamental_div_mod(i, stride);
    assert(stride * (i / stride) == (i / stride) * stride) by (nonlinear_arith);
    assert(0 <= i / stride) by (nonlinear_arith)
        requires
            0 < stride,
            0 <= i,
    ;
}

/// A byte of a row lies in that row.
proof fn lemma_in_row(row: int, column: int, stride: int)
    requires
        0 <= row,
        0 <= column < stride,
    ensures
        (row * stride + column) / stride == row,
        (row * stride + column) % stride == column,
{
    lemma_fundamental_div_mod_converse(row * stride + column, stride, row, column);
}

/// Copies rows of a source whose rows lie `src_stride` bytes apart to tightly
/// packed rows of `width` pixels, and stops at the first row that does not fit.
pub fn copy_rows(dst: &mut [u8], src: &[u8], width: u32, height: u32, src_stride: u32)
    ensures
        final(dst)@ == rows_copied(
            old(dst)@,
            src@,
            width as int,
            height as int,
            src_stride as int,
        ),
{
    let ghost before = dst@;
    let dst_stride: u128 = width as u128 * 4;
    let copy_w: u128 = if (src_stride as u128) < dst_stride {
        src_stride as u128
    } else {
        dst_stride
    };
    let mut row: u32 = 0;
    let mut src_start: u128 = 0;
    let mut dst_start: u128 = 0;
    assert(dst@ =~= rows_copied(before, src@, width as int, 0, src_stride as int)) by {
        assert forall|i: int| 0 <= i < before.len() implies before[i] == #[trigger] rows_copied(
            before,
            src@,
            width as int,
            0,
            src_stride as int,
        )[i] by {
            if width > 0 {
                lemma_row_and_column(i, 4 * width as int);
            }
        }
    }
    while row < height && src_start + copy_w <= src.len() as u128 && dst_start + copy_w
        <= dst.len() as u128
        invariant
            row <= height,
            src_start <= u32::MAX * u32::MAX,
            dst_start <= u32::MAX * (4 * u32::MAX),
            dst_stride == 4 * width,
            copy_w == row_bytes(width as int, src_stride as int),
            src_start == row * src_stride,
            dst_start == row * dst_stride,
            dst@ == rows_copied(before, src@, width as int, row as int, src_stride as int),
        decreases height - row,
    {
        copy_bytes(dst, dst_start as usize, src, src_start as usize, copy_w as usize);
        proof {
            assert((row + 1) * src_stride == row * src_stride + src_stride) by (nonlinear_arith);
            assert((row + 1) * dst_stride == row * dst_stride + dst_stride) by (nonlinear_arith);
            assert((row + 1) * src_stride <= u32::MAX * u32::MAX && (row + 1) * dst_stride
                <= u32::MAX * (4 * u32::MAX)) by (nonlinear_arith)
                requires
                    row + 1 <= u32::MAX,
                    dst_stride <= 4 * u32::MAX,
            ;
            assert forall|i: int| 0 <= i < before.len() implies dst@[i] == rows_copied(
                before,
                src@,
                width as int,
                row + 1,
                src_stride as int,
            )[i] by {
                if width > 0 {
                    lemma_row_and_column(i, dst_stride as int);
                    if dst_start <= i < dst_start + copy_w {
                        lemma_in_row(row as int, i - dst_start, dst_stride as int);
                    }
                }
            }
            assert(dst@ =~= rows_copied(
                before,
                src@,
                width as int,
                row + 1,
                src_stride as int,
            ));
        }
        row = row + 1;
        src_start = src_start + src_stride as u128;
        dst_start = dst_start + dst_stride;
    }
    proof {
        assert forall|i: int| 0 <= i < before.len() implies dst@[i] == rows_copied(
            before,
            src@,
            width as int,
            height as int,
            src_stride as int,
        )[i] by {
            if width > 0 {
                lemma_row_and_column(i, dst_stride as int);
                let r = i / (4 * width as int);
                if row <= r < height {
                    assert(row * src_stride <= r * src_stride && row * dst_stride <= r
                        * dst_stride) by (nonlinear_arith)
                        requires
                            row <= r,
                    ;
                }
            }
        }
        assert(dst@ =~= rows_copied(
            before,
            src@,
            width as int,
            height as int,
            src_stride as int,
        ));
    }
}

/// What a rectangle takes up: at least the rows but the last, and no more than
/// all of them.
pub proof fn lemma_rect_len(width: u32, x: u32, w: u32, h: u32)
    ensures
        0 <= rect_len(width as int, x as int, w as int, h as int) <= u32::MAX * (4 * u32::MAX),
        rect_len(width as int, x as int, w as int, h as int) <= h * (4 * width),
        0 < h ==> 0 <= (h - 1) * (4 * width) <= rect_len(
            width as int,
            x as int,
            w as int,
            h as int,
        ),
{
    let stride = 4 * width as int;
    let rows = h as int;
    assert(0 <= rows * stride <= u32::MAX * (4 * u32::MAX)) by (nonlinear_arith)
        requires
            0 <= stride <= 4 * u32::MAX,
            0 <= rows <= u32::MAX,
    ;
    if 0 < h {
        assert(0 <= (rows - 1) * stride && (rows - 1) * stride + stride == rows * stride)
            by (nonlinear_arith)
            requires
                0 <= stride,
                0 < rows,
        ;
        assert(stride == 0 ==> (rows - 1) * stride == 0) by (nonlinear_arith);
    }
}

/// How many bytes the rectangle of `w` by `h` pixels at column `x` takes up.
pub fn rect_bytes(width: u32, x: u32, w: u32, h: u32) -> (result: u128)
    ensures
        result == rect_len(width as int, x as int, w as int, h as int),
{
    if width == 0 || h == 0 {
        return 0;
    }
    let rect_w: u32 = if x >= width {
        0
    } else if w < width - x {
        w
    } else {
        width - x
    };
    proof {
        lemma_rect_len(width, x, w, h);
    }
    (h - 1) as u128 * (width as u128 * 4) + rect_w as u128 * 4
}

/// Copies the rectangle of `w` by `h` pixels at (`x`, `y`) from `region` to
/// `shadow`, which holds `height` rows of `width` pixels.
pub fn scatter(
    shadow: &mut [u8],
    region: &[u8],
    width: u32,
    height: u32,
    x: u32,
    y: u32,
    w: u32,
    h: u32,
)
    requires
        0 < width,
        old(shadow)@.len() == 4 * width * height,
        region@.len() == rect_len(width as int, x as int, w as int, h as int),
    ensures
        final(shadow)@ == scattered(
            old(shadow)@,
            region@,
            width as int,
            x as int,
            y as int,
            w as int,
            h as int,
        ),
{
    let ghost before = shadow@;
    let stride: u64 = width as u64 * 4;
    let rect_w: u32 = if x >= width {
        0
    } else if w < width - x {
        w
    } else {
        width - x
    };
    let copy_w: u64 = rect_w as u64 * 4;
    let mut row: u32 = 0;
    assert(shadow@ =~= scattered(
        before,
        region@,
        width as int,
        x as int,
        y as int,
        w as int,
        0,
    ));
    while row < h && (y as u64 + row as u64) < height as u64
        invariant
            row <= h,
            0 < width,
            stride == 4 * width,
            copy_w == 4 * rect_w,
            rect_w == rect_width(width as int, x as int, w as int),
            before.len() == 4 * width * height,
            region@.len() == rect_len(width as int, x as int, w as int, h as int),
            shadow@ == scattered(
                before,
                region@,
                width as int,
                x as int,
                y as int,
                w as int,
                row as int,
            ),
        decreases h - row,
    {
        if copy_w > 0 {
            proof {
                assert(row * stride <= (h - 1) * stride) by (nonlinear_arith)
                    requires
                        row + 1 <= h,
                ;
                assert((y + row) * stride + stride <= height * stride) by (nonlinear_arith)
                    requires
                        y + row + 1 <= height,
                ;
                assert(4 * width * height == height * stride) by (nonlinear_arith)
                    requires
                        stride == 4 * width,
                ;
                assert(0 <= row * stride && 0 <= (y + row) * stride) by (nonlinear_arith);
                assert(shadow.len() == before.len());
                assert(region.len() == (h - 1) * stride + copy_w);
            }
            let src_start: u64 = row as u64 * stride;
            let dst_start: u64 = (y as u64 + row as u64) * stride + x as u64 * 4;
            copy_bytes(shadow, dst_start as usize, region, src_start as usize, copy_w as usize);
        }
        proof {
            assert forall|i: int| 0 <= i < before.len() implies shadow@[i] == scattered(
                before,
                region@,
                width as int,
                x as int,
                y as int,
                w as int,
                row + 1,
            )[i] by {
                lemma_row_and_column(i, stride as int);
                let start = (y + row) * stride + 4 * x;
                if copy_w > 0 && start <= i < start + copy_w {
                    lemma_in_row(y + row, i - (y + row) * stride, stride as int);
                }
            }
            assert(shadow@ =~= scattered(
                before,
                region@,
                width as int,
                x as int,
                y as int,
                w as int,
                row + 1,
            ));
        }
        row = row + 1;
    }
    proof {
        assert forall|i: int| 0 <= i < before.len() implies shadow@[i] == scattered(
            before,
            region@,
            width as int,
            x as int,
            y as int,
            w as int,
            h as int,
        )[i] by {
            lemma_row_and_column(i, stride as int);
            let r = i / (4 * width as int);
            assert(r < height) by (nonlinear_arith)
                requires
                    r * stride <= i,
                    i < 4 * width * height,
                    stride == 4 * width,
                    0 < stride,
            ;
        }
        assert(shadow@ =~= scattered(
            before,
            region@,
            width as int,
            x as int,
            y as int,
            w as int,
            h as int,
        ));
    }
}

/// A copy honours the stride of its source: column `column` of row `row` of the
/// destination, whose rows lie `4 * width` bytes apart, is that of the source,
/// whose rows lie `src_stride` bytes apart. This holds of every row that lies in
/// both, as far as the shorter of the two rows reaches.
pub proof fn law_rows_keep_their_stride(
    dst: Seq<u8>,
    src: Seq<u8>,
    width: u32,
    height: u32,
    src_stride: u32,
    row: int,
    column: int,
)
    requires
        0 <= row < height,
        0 <= column < 4 * width,
        column < src_stride,
        row * src_stride + src_stride <= src.len() || row * src_stride + 4 * width <= src.len(),
        row * (4 * width) + 4 * width <= dst.len() || row * (4 * width) + src_stride <= dst.len(),
    ensures
        rows_copied(dst, src, width as int, height as int, src_stride as int)[row * (4 * width)
            + column] == src[row * src_stride + column],
{
    let stride = 4 * width as int;
    lemma_in_row(row, column, stride);
    assert(0 <= row * stride) by (nonlinear_arith)
        requires
            0 <= row,
            0 <= stride,
    ;
}

/// A blob with padded rows fills a frame of its size: each pixel of the frame is
/// the pixel of the blob in the same row and column, whatever the padding.
pub proof fn law_padded_rows_fill_frame(
    frame: Seq<u8>,
    src: Seq<u8>,
    width: u32,
    height: u32,
    src_stride: u32,
    row: int,
    column: int,
)
    requires
        4 * width <= src_stride,
        height * src_stride <= src.len(),
        frame.len() == 4 * width * height,
        0 <= row < height,
        0 <= column < 4 * width,
    ensures
        rows_copied(frame, src, width as int, height as int, src_stride as int)[row * (4 * width)
            + column] == src[row * src_stride + column],
{
    let stride = 4 * width as int;
    assert(row * src_stride + src_stride <= height * src_stride) by (nonlinear_arith)
        requires
            row + 1 <= height,
            0 <= src_stride,
    ;
    assert(row * stride + stride <= 4 * width * height) by (nonlinear_arith)
        requires
            row + 1 <= height,
            stride == 4 * width,
            0 <= stride,
    ;
    law_rows_keep_their_stride(frame, src, width, height, src_stride, row, column);
}

/// A copy of rows writes pixels of its rows only: the length stays, and a byte
/// that is in none of the rows, behind the end of a row of the source, or in a
/// row that does not lie in both, is as before. Without columns nothing changes.
pub proof fn law_rows_leave_the_rest(
    dst: Seq<u8>,
    src: Seq<u8>,
    width: u32,
    height: u32,
    src_stride: u32,
    row: int,
    column: int,
)
    requires
        0 <= row,
        0 <= column < 4 * width,
        row * (4 * width) + column < dst.len(),
        ({
            ||| height <= row
            ||| src_stride <= column
            ||| src.len() < row * src_stride + src_stride && src.len() < row * src_stride + 4
                * width
            ||| dst.len() < row * (4 * width) + 4 * width && dst.len() < row * (4 * width)
                + src_stride
        }),
    ensures
        rows_copied(dst, src, width as int, height as int, src_stride as int)[row * (4 * width)
            + column] == dst[row * (4 * width) + column],
        rows_copied(dst, src, width as int, height as int, src_stride as int).len() == dst.len(),
        rows_copied(dst, src, 0, height as int, src_stride as int) == dst,
{
    let stride = 4 * width as int;
    lemma_in_row(row, column, stride);
    assert(0 <= row * stride) by (nonlinear_arith)
        requires
            0 <= row,
            0 <= stride,
    ;
    assert(rows_copied(dst, src, 0, height as int, src_stride as int) =~= dst);
}

/// A frame gets the start of a buffer: all of the buffer, with what the frame
/// held behind it, or as much of the buffer as the frame has room for.
pub proof fn law_frame_gets_what_fits(frame: Seq<u8>, shadow: Seq<u8>)
    ensures
        shadow.len() <= frame.len() ==> prefix_copied(frame, shadow) == shadow + frame.skip(
            shadow.len() as int,
        ),
        frame.len() <= shadow.len() ==> prefix_copied(frame, shadow) == shadow.take(
            frame.len() as int,
        ),
{
    if shadow.len() <= frame.len() {
        assert(prefix_copied(frame, shadow) =~= shadow + frame.skip(shadow.len() as int));
    }
    if frame.len() <= shadow.len() {
        assert(prefix_copied(frame, shadow) =~= shadow.take(frame.len() as int));
    }
}

/// A rectangle takes up the bytes from its first pixel to its last: every byte
/// of it that lies in a row of the buffer is among them, and where there is one,
/// the last of them is the last of these.
pub proof fn law_rectangle_is_tight(width: u32, x: u32, w: u32, h: u32, row: int, column: int)
    requires
        0 <= row < h,
        0 <= column < 4 * w,
        4 * x + column < 4 * width,
    ensures
        row * (4 * width) + column < rect_len(width as int, x as int, w as int, h as int),
        row + 1 == h && (column + 1 == 4 * w || 4 * x + column + 1 == 4 * width) ==> row * (4
            * width) + column + 1 == rect_len(width as int, x as int, w as int, h as int),
{
    let stride = 4 * width as int;
    assert(row * stride <= (h - 1) * stride) by (nonlinear_arith)
        requires
            row <= h - 1,
            0 <= stride,
    ;
}

/// A rectangle without pixels in a row takes up the rows before its last, and one
/// without rows takes up nothing.
pub proof fn law_empty_rectangle(width: u32, x: u32, w: u32, h: u32)
    requires
        w == 0 || width <= x || h == 0,
    ensures
        rect_len(width as int, x as int, w as int, h as int) == if h == 0 {
            0
        } else {
            (h - 1) * (4 * width)
        },
{
    assert(width == 0 ==> (h - 1) * (4 * width) == 0) by (nonlinear_arith);
}

/// A rectangle lands where it belongs: byte `column` of its row `row` is put into
/// row `y + row` of the buffer, behind the `x` pixels before it.
pub proof fn law_rectangle_lands(
    before: Seq<u8>,
    region: Seq<u8>,
    width: u32,
    height: u32,
    x: u32,
    y: u32,
    w: u32,
    h: u32,
    row: int,
    column: int,
)
    requires
        before.len() == 4 * width * height,
        0 <= row < h,
        0 <= column < 4 * w,
        y + row < height,
        4 * x + column < 4 * width,
    ensures
        scattered(
            before,
            region,
            width as int,
            x as int,
            y as int,
            w as int,
            h as int,
        )[(y + row) * (4 * width) + (4 * x + column)] == region[row * (4 * width) + column],
{
    let stride = 4 * width as int;
    lemma_in_row(y + row, 4 * x + column, stride);
    assert((y + row) * stride + stride <= 4 * width * height && 0 <= (y + row) * stride)
        by (nonlinear_arith)
        requires
            0 <= y + row,
            y + row + 1 <= height,
            stride == 4 * width,
            0 <= stride,
    ;
}

/// What lies outside a rectangle stays: a byte in another row, or in another
/// column of one of its rows.
pub proof fn law_rectangle_leaves_the_rest(
    before: Seq<u8>,
    region: Seq<u8>,
    width: u32,
    x: u32,
    y: u32,
    w: u32,
    h: u32,
    row: int,
    column: int,
)
    requires
        0 <= row,
        0 <= column < 4 * width,
        row * (4 * width) + column < before.len(),
        row < y || y + h <= row || column < 4 * x || 4 * x + 4 * w <= column,
    ensures
        scattered(
            before,
            region,
            width as int,
            x as int,
            y as int,
            w as int,
            h as int,
        )[row * (4 * width) + column] == before[row * (4 * width) + column],
        scattered(
            before,
            region,
            width as int,
            x as int,
            y as int,
            w as int,
            h as int,
        ).len() == before.len(),
{
    let stride = 4 * width as int;
    lemma_in_row(row, column, stride);
    assert(0 <= row * stride) by (nonlinear_arith)
        requires
            0 <= row,
            0 <= stride,
    ;
}

} // verus!
