//! The rectangle blit: write a fixed color into every pixel of a rectangle
//! inside a row-major byte buffer, addressed with an explicit stride.
//!
//! Addressing convention (as the render protocol supplies it): the
//! rectangle's bounds are one-based for rows `i` in `[top+1, bottom]` and
//! columns `j` in `[left+1, right]`; the base byte offset of pixel `(i, j)`
//! is `(j + (i-1)*stride - 1) * bpp`, and channel byte `k` of the color is
//! written at that offset plus `k`.

use vstd::prelude::*;
use vstd::arithmetic::div_mod::{
    lemma_fundamental_div_mod, lemma_fundamental_div_mod_converse_div,
    lemma_fundamental_div_mod_converse_mod, lemma_mod_bound, lemma_div_pos_is_pos,
};
use crate::rect::Rect;

verus! {

/// The base byte offset of the pixel at one-based row `i`, column `j`, in a
/// row-major buffer with `stride` pixels per row and `bpp` bytes per pixel.
pub open spec fn pixel_offset(i: int, j: int, stride: int, bpp: int) -> int {
    (j + (i - 1) * stride - 1) * bpp
}

/// The zero-based row of the pixel that byte `n` belongs to.
pub open spec fn pixel_row(n: int, stride: int, bpp: int) -> int {
    n / bpp / stride
}

/// The zero-based column of the pixel that byte `n` belongs to.
pub open spec fn pixel_col(n: int, stride: int, bpp: int) -> int {
    (n / bpp) % stride
}

/// The color channel that byte `n` carries within its pixel.
pub open spec fn channel_of(n: int, bpp: int) -> int {
    n % bpp
}

/// Whether byte `n` of the buffer belongs to a pixel inside the rectangle:
/// the pixel's zero-based row must lie in `[top, bottom)` and its zero-based
/// column in `[left, right)`.
pub open spec fn painted(n: int, r: Rect, stride: int, bpp: int) -> bool {
    &&& r.top as int <= pixel_row(n, stride, bpp) < r.bottom as int
    &&& r.left as int <= pixel_col(n, stride, bpp) < r.right as int
}

/// The buffer contents after blitting `colors` into every pixel of the
/// rectangle: each byte of a painted pixel takes the corresponding color
/// channel byte; every other byte keeps its old value.
pub open spec fn spec_blit(s: Seq<u8>, colors: Seq<u8>, r: Rect, stride: int) -> Seq<u8> {
    Seq::new(
        s.len(),
        |n: int|
            if painted(n, r, stride, colors.len() as int) {
                colors[channel_of(n, colors.len() as int)]
            } else {
                s[n]
            },
    )
}

/// The buffer midway through a blit: a byte is painted exactly when its
/// pixel lies in the rectangle and its (row, column) position precedes
/// `(row_lim, col_lim)` in row-major order.
spec fn blit_upto(
    s: Seq<u8>,
    colors: Seq<u8>,
    r: Rect,
    stride: int,
    row_lim: int,
    col_lim: int,
) -> Seq<u8> {
    Seq::new(
        s.len(),
        |n: int|
            {
                let bpp = colors.len() as int;
                if painted(n, r, stride, bpp) && (pixel_row(n, stride, bpp) < row_lim
                    || (pixel_row(n, stride, bpp) == row_lim && pixel_col(n, stride, bpp)
                        < col_lim)) {
                    colors[channel_of(n, bpp)]
                } else {
                    s[n]
                }
            },
    )
}

/// Every byte index decomposes uniquely into the pixel's row, column and
/// channel under a row-major layout.
pub proof fn lemma_byte_decompose(n: int, stride: int, bpp: int)
    requires
        n >= 0,
        stride > 0,
        bpp > 0,
    ensures
        n == (pixel_row(n, stride, bpp) * stride + pixel_col(n, stride, bpp)) * bpp + channel_of(
            n,
            bpp,
        ),
        0 <= channel_of(n, bpp) < bpp,
        0 <= pixel_col(n, stride, bpp) < stride,
        0 <= pixel_row(n, stride, bpp),
{
    let p = n / bpp;
    lemma_fundamental_div_mod(n, bpp);
    lemma_mod_bound(n, bpp);
    lemma_div_pos_is_pos(n, bpp);
    lemma_fundamental_div_mod(p, stride);
    lemma_mod_bound(p, stride);
    lemma_div_pos_is_pos(p, stride);
    assert(n == (p / stride * stride + p % stride) * bpp + n % bpp) by (nonlinear_arith)
        requires
            n == bpp * p + n % bpp,
            p == stride * (p / stride) + p % stride,
    ;
}

/// Channel `k` of the pixel at zero-based position `(row, col)` sits at byte
/// `(row*stride + col)*bpp + k`, and that byte decomposes back to the same
/// row, column and channel.
pub proof fn lemma_byte_compose(row: int, col: int, k: int, stride: int, bpp: int)
    requires
        stride > 0,
        bpp > 0,
        row >= 0,
        0 <= col < stride,
        0 <= k < bpp,
    ensures
        ({
            let n = (row * stride + col) * bpp + k;
            &&& n >= 0
            &&& pixel_row(n, stride, bpp) == row
            &&& pixel_col(n, stride, bpp) == col
            &&& channel_of(n, bpp) == k
        }),
{
    let p = row * stride + col;
    let n = p * bpp + k;
    assert(p >= 0 && n >= 0) by (nonlinear_arith)
        requires
            row >= 0,
            0 <= col,
            stride > 0,
            bpp > 0,
            0 <= k,
            p == row * stride + col,
            n == p * bpp + k,
    ;
    lemma_fundamental_div_mod_converse_div(n, bpp, p, k);
    lemma_fundamental_div_mod_converse_mod(n, bpp, p, k);
    lemma_fundamental_div_mod_converse_div(p, stride, row, col);
    lemma_fundamental_div_mod_converse_mod(p, stride, row, col);
}

/// The blit never writes outside the buffer: for every rectangle with
/// `left < right <= stride` and `top < bottom <= height`, every byte the
/// offset formula addresses — rows `i` in `[top+1, bottom]`, columns `j` in
/// `[left+1, right]`, channels `k` in `[0, bpp)` — satisfies
/// `0 <= pixel_offset(i, j) + k < stride * height * bpp`. With the stride
/// equal to the window width this is exactly the buffer-containment bound
/// for a `width x height` window.
pub proof fn lemma_offset_in_bounds(
    r: Rect,
    stride: int,
    height: int,
    bpp: int,
    i: int,
    j: int,
    k: int,
)
    requires
        stride > 0,
        bpp > 0,
        r.right as int <= stride,
        r.bottom as int <= height,
        (r.top as int) < i <= (r.bottom as int),
        (r.left as int) < j <= (r.right as int),
        0 <= k < bpp,
    ensures
        0 <= pixel_offset(i, j, stride, bpp) + k,
        pixel_offset(i, j, stride, bpp) + k < stride * height * bpp,
{
    let row = i - 1;
    let col = j - 1;
    assert(pixel_offset(i, j, stride, bpp) == (row * stride + col) * bpp);
    assert(0 <= (row * stride + col) * bpp + k && (row * stride + col) * bpp + k < stride * height
        * bpp) by (nonlinear_arith)
        requires
            0 <= row,
            row <= height - 1,
            0 <= col,
            col <= stride - 1,
            0 <= k < bpp,
            stride > 0,
            bpp > 0,
    ;
}

/// The offset formula and the painted predicate agree: channel `k` of the
/// pixel addressed for one-based `(i, j)` inside the rectangle is a painted
/// byte carrying channel `k`.
pub proof fn lemma_offset_is_painted(r: Rect, stride: int, bpp: int, i: int, j: int, k: int)
    requires
        stride > 0,
        bpp > 0,
        r.right as int <= stride,
        (r.top as int) < i <= (r.bottom as int),
        (r.left as int) < j <= (r.right as int),
        0 <= k < bpp,
    ensures
        painted(pixel_offset(i, j, stride, bpp) + k, r, stride, bpp),
        channel_of(pixel_offset(i, j, stride, bpp) + k, bpp) == k,
{
    lemma_byte_compose(i - 1, j - 1, k, stride, bpp);
    assert(pixel_offset(i, j, stride, bpp) + k == ((i - 1) * stride + (j - 1)) * bpp + k);
}

/// Blitting the same color into the same rectangle a second time changes
/// nothing: two identical blits leave exactly the buffer one blit leaves.
pub proof fn lemma_blit_idempotent(s: Seq<u8>, colors: Seq<u8>, r: Rect, stride: int)
    ensures
        spec_blit(spec_blit(s, colors, r, stride), colors, r, stride) == spec_blit(
            s,
            colors,
            r,
            stride,
        ),
{
    let once = spec_blit(s, colors, r, stride);
    let twice = spec_blit(once, colors, r, stride);
    assert forall|n: int| 0 <= n < s.len() implies twice[n] == once[n] by {}
    assert(twice =~= once);
}

/// What the blit result guarantees byte by byte, stated over the spec's own
/// addressing rule: after blitting, channel `k` of every pixel at one-based
/// row `i` in `[top+1, bottom]` and column `j` in `[left+1, right]` holds
/// `colors[k]` at the offset the formula computes, and that offset lies
/// inside the buffer.
pub proof fn lemma_blit_pixels(
    s: Seq<u8>,
    colors: Seq<u8>,
    r: Rect,
    stride: int,
    i: int,
    j: int,
    k: int,
)
    requires
        stride > 0,
        colors.len() > 0,
        r.right as int <= stride,
        (r.top as int) < i <= (r.bottom as int),
        (r.left as int) < j <= (r.right as int),
        0 <= k < colors.len(),
        s.len() >= stride * (r.bottom as int) * colors.len(),
    ensures
        0 <= pixel_offset(i, j, stride, colors.len() as int) + k < s.len(),
        spec_blit(s, colors, r, stride)[pixel_offset(i, j, stride, colors.len() as int) + k]
            == colors[k],
{
    let bpp = colors.len() as int;
    lemma_offset_in_bounds(r, stride, r.bottom as int, bpp, i, j, k);
    lemma_offset_is_painted(r, stride, bpp, i, j, k);
}

/// A rectangle equal to the full window bounds paints every byte: when the
/// rectangle covers rows `[0, height)` and columns `[0, width)` of a buffer
/// whose stride equals the window width, every byte below
/// `width * height * bpp` belongs to a painted pixel.
pub proof fn lemma_full_rect_paints_all(r: Rect, width: int, height: int, bpp: int, n: int)
    requires
        width > 0,
        height > 0,
        bpp > 0,
        r.top == 0,
        r.left == 0,
        r.right as int == width,
        r.bottom as int == height,
        0 <= n < width * height * bpp,
    ensures
        painted(n, r, width, bpp),
{
    let p = n / bpp;
    lemma_mod_bound(n, bpp);
    lemma_mod_bound(p, width);
    lemma_div_pos_is_pos(n, bpp);
    lemma_div_pos_is_pos(p, width);
    assert(n <= (width * height - 1) * bpp + (bpp - 1)) by (nonlinear_arith)
        requires
            n < width * height * bpp,
            bpp > 0,
    ;
    lemma_fundamental_div_mod(n, bpp);
    assert(p <= width * height - 1) by (nonlinear_arith)
        requires
            n == bpp * p + n % bpp,
            n <= (width * height - 1) * bpp + (bpp - 1),
            0 <= n % bpp < bpp,
            bpp > 0,
    ;
    lemma_fundamental_div_mod(p, width);
    assert(p / width <= height - 1) by (nonlinear_arith)
        requires
            p == width * (p / width) + p % width,
            p <= width * height - 1,
            0 <= p % width < width,
            width > 0,
    ;
}

/// Write the color's channel bytes at `base .. base + colors.len()`, leaving
/// every other byte of the buffer unchanged.
fn write_pixel(bits: &mut Vec<u8>, base: usize, colors: &Vec<u8>)
    requires
        base + colors@.len() <= old(bits)@.len(),
    ensures
        final(bits)@.len() == old(bits)@.len(),
        forall|m: int|
            base <= m < base + colors@.len() ==> final(bits)@[m] == colors@[m - base],
        forall|m: int|
            0 <= m < old(bits)@.len() && !(base <= m < base + colors@.len()) ==> final(bits)@[m]
                == old(bits)@[m],
{
    let buf_len: usize = bits.len();
    let mut k: usize = 0;
    while k < colors.len()
        invariant
            buf_len == old(bits)@.len(),
            base + colors@.len() <= old(bits)@.len(),
            bits@.len() == old(bits)@.len(),
            k <= colors@.len(),
            forall|m: int| base <= m < base + k ==> bits@[m] == colors@[m - base],
            forall|m: int|
                0 <= m < old(bits)@.len() && !(base <= m < base + k) ==> bits@[m] == old(bits)@[m],
        decreases colors@.len() - k,
    {
        let c = colors[k];
        bits.set(base + k, c);
        k = k + 1;
    }
}

/// Write `colors` into every pixel of `rect` inside the byte buffer `bits`,
/// laid out row-major with `stride` pixels per row and `colors.len()` bytes
/// per pixel. The rectangle must be valid for the buffer's geometry; the
/// resulting buffer is exactly `spec_blit` of the old one: every byte of a
/// pixel inside the rectangle holds its color channel byte, every byte
/// outside is unchanged.
pub fn draw_rect_into_buffer(bits: &mut Vec<u8>, colors: &Vec<u8>, rect: &Rect, stride: u32, height: u32)
    requires
        colors@.len() >= 1,
        rect.left < rect.right,
        rect.right <= stride,
        rect.top < rect.bottom,
        rect.bottom <= height,
        old(bits)@.len() >= stride as int * height as int * colors@.len(),
    ensures
        final(bits)@ == spec_blit(old(bits)@, colors@, *rect, stride as int),
{
    let bpp: usize = colors.len();
    let buf_len: usize = bits.len();
    let ghost stride_i = stride as int;
    let ghost bpp_i = bpp as int;
    proof {
        assert forall|n: int| 0 <= n < old(bits)@.len() implies old(bits)@[n] == blit_upto(
            old(bits)@,
            colors@,
            *rect,
            stride_i,
            rect.top as int,
            rect.left as int,
        )[n] by {}
        assert(old(bits)@ =~= blit_upto(
            old(bits)@,
            colors@,
            *rect,
            stride_i,
            rect.top as int,
            rect.left as int,
        ));
    }
    let mut row: u32 = rect.top;
    while row < rect.bottom
        invariant
            colors@.len() == bpp,
            bpp >= 1,
            bpp_i == bpp as int,
            stride_i == stride as int,
            rect.left < rect.right,
            rect.right <= stride,
            rect.top < rect.bottom,
            rect.bottom <= height,
            rect.top <= row <= rect.bottom,
            buf_len == old(bits)@.len(),
            bits@.len() == old(bits)@.len(),
            old(bits)@.len() >= stride as int * height as int * bpp as int,
            bits@ == blit_upto(old(bits)@, colors@, *rect, stride_i, row as int, rect.left as int),
        decreases rect.bottom - row,
    {
        let mut col: u32 = rect.left;
        while col < rect.right
            invariant
                colors@.len() == bpp,
                bpp >= 1,
                bpp_i == bpp as int,
                stride_i == stride as int,
                rect.left < rect.right,
                rect.right <= stride,
                rect.top < rect.bottom,
                rect.bottom <= height,
                rect.top <= row < rect.bottom,
                rect.left <= col <= rect.right,
                buf_len == old(bits)@.len(),
                bits@.len() == old(bits)@.len(),
                old(bits)@.len() >= stride as int * height as int * bpp as int,
                bits@ == blit_upto(old(bits)@, colors@, *rect, stride_i, row as int, col as int),
            decreases rect.right - col,
        {
            proof {
                lemma_offset_in_bounds(
                    *rect,
                    stride_i,
                    height as int,
                    bpp_i,
                    row as int + 1,
                    col as int + 1,
                    bpp_i - 1,
                );
                assert(pixel_offset(row as int + 1, col as int + 1, stride_i, bpp_i) == (
                row as int * stride_i + col as int) * bpp_i);
                assert(0 <= row as int * stride_i && row as int * stride_i + col as int <= (
                row as int * stride_i + col as int) * bpp_i) by (nonlinear_arith)
                    requires
                        row as int >= 0,
                        col as int >= 0,
                        stride_i > 0,
                        bpp_i >= 1,
                ;
            }
            let base: usize = ((row as usize) * (stride as usize) + (col as usize)) * bpp;
            let ghost prev = bits@;
            write_pixel(bits, base, colors);
            proof {
                assert forall|n: int| 0 <= n < bits@.len() implies bits@[n] == blit_upto(
                    old(bits)@,
                    colors@,
                    *rect,
                    stride_i,
                    row as int,
                    col as int + 1,
                )[n] by {
                    if base as int <= n < base as int + bpp_i {
                        lemma_byte_compose(row as int, col as int, n - base as int, stride_i, bpp_i);
                    } else {
                        lemma_byte_decompose(n, stride_i, bpp_i);
                    }
                }
                assert(bits@ =~= blit_upto(
                    old(bits)@,
                    colors@,
                    *rect,
                    stride_i,
                    row as int,
                    col as int + 1,
                ));
            }
            col = col + 1;
        }
        proof {
            assert forall|n: int| 0 <= n < bits@.len() implies blit_upto(
                old(bits)@,
                colors@,
                *rect,
                stride_i,
                row as int,
                rect.right as int,
            )[n] == blit_upto(
                old(bits)@,
                colors@,
                *rect,
                stride_i,
                row as int + 1,
                rect.left as int,
            )[n] by {}
            assert(blit_upto(
                old(bits)@,
                colors@,
                *rect,
                stride_i,
                row as int,
                rect.right as int,
            ) =~= blit_upto(
                old(bits)@,
                colors@,
                *rect,
                stride_i,
                row as int + 1,
                rect.left as int,
            ));
        }
        row = row + 1;
    }
    proof {
        assert forall|n: int| 0 <= n < bits@.len() implies blit_upto(
            old(bits)@,
            colors@,
            *rect,
            stride_i,
            rect.bottom as int,
            rect.left as int,
        )[n] == spec_blit(old(bits)@, colors@, *rect, stride_i)[n] by {}
        assert(blit_upto(
            old(bits)@,
            colors@,
            *rect,
            stride_i,
            rect.bottom as int,
            rect.left as int,
        ) =~= spec_blit(old(bits)@, colors@, *rect, stride_i));
    }
}

} // verus!
