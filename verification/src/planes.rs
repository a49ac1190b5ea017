//! Copies of NV12 pictures between packed memory and memory with padded strides.
//!
//! An NV12 picture is a luma plane of `height` rows and, behind it, a chroma plane of `height / 2`
//! rows, with `width` bytes in each row. Packed, the rows follow each other. In hardware memory
//! each row takes `hor_stride` bytes and the chroma plane starts after `ver_stride` rows.

use vstd::prelude::*;

use crate::call::Geometry;

verus! {

/// `n` bytes of `src` from `src_off` on, written over `dst` at `dst_off`.
pub open spec fn blit(dst: Seq<u8>, dst_off: int, src: Seq<u8>, src_off: int, n: int) -> Seq<u8> {
    Seq::new(
        dst.len(),
        |i: int|
            if dst_off <= i < dst_off + n {
                src[src_off + (i - dst_off)]
            } else {
                dst[i]
            },
    )
}

/// Whether the row that starts at `start` lies within `len` bytes.
pub open spec fn row_fits(start: int, width: int, len: int) -> bool {
    start + width <= len
}

/// Rows of a plane, written over `dst`: `rows` rows of `width` bytes, which lie `src_stride` apart
/// in `src` from `src_base` on and `dst_stride` apart in `dst` from `dst_base` on. Rows that do not
/// lie within `src` are left out.
pub open spec fn blit_rows(
    dst: Seq<u8>,
    dst_base: int,
    dst_stride: int,
    src: Seq<u8>,
    src_base: int,
    src_stride: int,
    width: int,
    rows: int,
) -> Seq<u8> {
    Seq::new(
        dst.len(),
        |i: int|
            {
                let row = (i - dst_base) / dst_stride;
                let col = (i - dst_base) % dst_stride;
                let start = src_base + row * src_stride;
                if dst_base <= i && dst_stride > 0 && row < rows && col < width && row_fits(start, width, src.len() as int) {
                    src[start + col]
                } else {
                    dst[i]
                }
            },
    )
}

/// Copies `n` bytes.
fn copy_bytes(src: &[u8], src_off: usize, dst: &mut [u8], dst_off: usize, n: usize)
    requires
        src_off + n <= src@.len(),
        dst_off + n <= old(dst)@.len(),
    ensures
        final(dst)@ == blit(old(dst)@, dst_off as int, src@, src_off as int, n as int),
{
    let ghost before = dst@;
    let mut i: usize = 0;
    while i < n
        invariant
            i <= n,
            src_off + n <= src@.len(),
            dst_off + n <= before.len(),
            dst@ == blit(before, dst_off as int, src@, src_off as int, i as int),
        decreases n - i,
    {
        assert(src_off + i < src.len() && dst_off + i < dst.len());
        dst[dst_off + i] = src[src_off + i];
        i = i + 1;
    }
}

/// Sets the bytes from `from` up to `to` to `value`.
fn fill_bytes(dst: &mut [u8], from: usize, to: usize, value: u8)
    requires
        from <= to <= old(dst)@.len(),
    ensures
        final(dst)@ == Seq::new(
            old(dst)@.len(),
            |i: int|
                if from <= i < to {
                    value
                } else {
                    old(dst)@[i]
                },
        ),
{
    let ghost before = dst@;
    let mut k: usize = from;
    while k < to
        invariant
            from <= k <= to <= before.len(),
            dst@ == Seq::new(
                before.len(),
                |i: int|
                    if from <= i < k {
                        value
                    } else {
                        before[i]
                    },
            ),
        decreases to - k,
    {
        dst[k] = value;
        k = k + 1;
    }
}

/// An offset is in one row and one column of a plane.
proof fn lemma_row_col(k: int, stride: int, row: int, col: int)
    requires
        stride > 0,
        k == row * stride + col,
        0 <= col < stride,
    ensures
        k / stride == row,
        k % stride == col,
{
    vstd::arithmetic::div_mod::lemma_fundamental_div_mod_converse(k, stride, row, col);
}

/// The row and the column give the offset back.
proof fn lemma_offset(k: int, stride: int)
    requires
        stride > 0,
        k >= 0,
    ensures
        k == (k / stride) * stride + k % stride,
        0 <= k % stride < stride,
        k / stride >= 0,
{
    vstd::arithmetic::div_mod::lemma_fundamental_div_mod(k, stride);
    assert(stride * (k / stride) == (k / stride) * stride) by (nonlinear_arith);
    assert(k / stride >= 0) by (nonlinear_arith)
        requires
            k >= 0,
            stride > 0,
    ;
}

/// One more row.
proof fn lemma_blit_next_row(
    dst: Seq<u8>,
    dst_base: int,
    dst_stride: int,
    src: Seq<u8>,
    src_base: int,
    src_stride: int,
    width: int,
    row: int,
)
    requires
        0 <= row,
        0 <= width <= dst_stride,
        0 <= dst_base,
    ensures
        ({
            let start = src_base + row * src_stride;
            let so_far = blit_rows(dst, dst_base, dst_stride, src, src_base, src_stride, width, row);
            blit_rows(dst, dst_base, dst_stride, src, src_base, src_stride, width, row + 1) == if row_fits(
                start,
                width,
                src.len() as int,
            ) {
                blit(so_far, dst_base + row * dst_stride, src, start, width)
            } else {
                so_far
            }
        }),
{
    let start = src_base + row * src_stride;
    let so_far = blit_rows(dst, dst_base, dst_stride, src, src_base, src_stride, width, row);
    let more = blit_rows(dst, dst_base, dst_stride, src, src_base, src_stride, width, row + 1);
    let off = dst_base + row * dst_stride;
    let want = if row_fits(start, width, src.len() as int) {
        blit(so_far, off, src, start, width)
    } else {
        so_far
    };
    assert forall|i: int| 0 <= i < dst.len() implies more[i] == want[i] by {
        let k = i - dst_base;
        if dst_stride > 0 {
            if off <= i < off + width {
                lemma_row_col(k, dst_stride, row, i - off);
            }
            if k >= 0 {
                lemma_offset(k, dst_stride);
                if k / dst_stride == row && k % dst_stride < width {
                    assert(i == off + k % dst_stride);
                }
            } else {
                assert(row * dst_stride >= 0) by (nonlinear_arith)
                    requires
                        row >= 0,
                        dst_stride > 0,
                ;
            }
        }
    }
    assert(more =~= want);
}

/// Copies the rows of a plane; rows that do not lie within `src` are left out.
fn copy_rows(
    src: &[u8],
    src_base: usize,
    src_stride: usize,
    dst: &mut [u8],
    dst_base: usize,
    dst_stride: usize,
    width: usize,
    rows: usize,
)
    requires
        width <= dst_stride,
        rows > 0 ==> dst_base + (rows - 1) * dst_stride + width <= old(dst)@.len(),
        rows > 0 ==> src_base + (rows - 1) * src_stride + width <= usize::MAX,
    ensures
        final(dst)@ == blit_rows(
            old(dst)@,
            dst_base as int,
            dst_stride as int,
            src@,
            src_base as int,
            src_stride as int,
            width as int,
            rows as int,
        ),
{
    let ghost before = dst@;
    assert(before.len() == dst.len());
    let mut y: usize = 0;
    proof {
        assert forall|i: int| 0 <= i < before.len() implies #[trigger] blit_rows(
            before,
            dst_base as int,
            dst_stride as int,
            src@,
            src_base as int,
            src_stride as int,
            width as int,
            0,
        )[i] == before[i] by {
            if i - dst_base >= 0 && dst_stride > 0 {
                lemma_offset(i - dst_base, dst_stride as int);
            }
        }
        assert(dst@ =~= blit_rows(
            before,
            dst_base as int,
            dst_stride as int,
            src@,
            src_base as int,
            src_stride as int,
            width as int,
            0,
        ));
    }
    while y < rows
        invariant
            y <= rows,
            width <= dst_stride,
            rows > 0 ==> dst_base + (rows - 1) * dst_stride + width <= before.len(),
            rows > 0 ==> src_base + (rows - 1) * src_stride + width <= usize::MAX,
            before.len() <= usize::MAX,
            dst@ == blit_rows(
                before,
                dst_base as int,
                dst_stride as int,
                src@,
                src_base as int,
                src_stride as int,
                width as int,
                y as int,
            ),
        decreases rows - y,
    {
        proof {
            assert(0 <= y * dst_stride <= (rows - 1) * dst_stride) by (nonlinear_arith)
                requires
                    0 <= y <= rows - 1,
                    dst_stride >= 0,
            ;
            assert(0 <= y * src_stride <= (rows - 1) * src_stride) by (nonlinear_arith)
                requires
                    0 <= y <= rows - 1,
                    src_stride >= 0,
            ;
            lemma_blit_next_row(
                before,
                dst_base as int,
                dst_stride as int,
                src@,
                src_base as int,
                src_stride as int,
                width as int,
                y as int,
            );
        }
        let src_off = src_base + y * src_stride;
        let dst_off = dst_base + y * dst_stride;
        if src_off + width <= src.len() {
            copy_bytes(src, src_off, dst, dst_off, width);
        }
        y = y + 1;
    }
}

/// The offsets of the first `n` rows are those below `n` strides.
proof fn lemma_rows_below(k: int, stride: int, n: int)
    requires
        stride > 0,
        k >= 0,
    ensures
        k / stride < n <==> k < n * stride,
{
    lemma_offset(k, stride);
    let row = k / stride;
    if row < n {
        assert(row * stride + stride <= n * stride) by (nonlinear_arith)
            requires
                row + 1 <= n,
                stride > 0,
        ;
    } else {
        assert(n * stride <= row * stride) by (nonlinear_arith)
            requires
                n <= row,
                stride > 0,
        ;
    }
}

/// Where the chroma plane starts in padded memory.
pub open spec fn padded_luma(g: Geometry) -> int {
    g.ver_stride * g.hor_stride
}

/// How many bytes a padded picture takes.
pub open spec fn padded_size(g: Geometry) -> int {
    padded_luma(g) + (g.ver_stride / 2) * g.hor_stride
}

/// Where the chroma plane starts in a packed picture.
pub open spec fn packed_luma(g: Geometry) -> int {
    g.height * g.width
}

/// How many bytes the rows of a packed picture take.
pub open spec fn packed_rows(g: Geometry) -> int {
    packed_luma(g) + (g.height / 2) * g.width
}

/// Whether the strides hold the picture.
pub open spec fn strides_hold(g: Geometry) -> bool {
    g.width <= g.hor_stride && g.height <= g.ver_stride
}

/// Whether a row of the luma plane is taken from an input of `len` bytes. Without padding a plane
/// is taken as a whole or not at all.
pub open spec fn takes_luma_row(g: Geometry, len: int, row: int) -> bool {
    if g.width == g.hor_stride {
        packed_luma(g) <= len
    } else {
        row_fits(row * g.width, g.width as int, len)
    }
}

/// The same for a row of the chroma plane.
pub open spec fn takes_chroma_row(g: Geometry, len: int, row: int) -> bool {
    if g.width == g.hor_stride {
        packed_rows(g) <= len
    } else {
        row_fits(packed_luma(g) + row * g.width, g.width as int, len)
    }
}

/// The byte at `i` of padded memory after a packed `input` was spread over it: the rows of the
/// input, luma 0 in the padding rows of the luma plane, chroma 128 (grey) in those of the chroma
/// plane, and what was there before to the right of the rows and where the input is too short.
pub open spec fn padded_byte(before: Seq<u8>, input: Seq<u8>, g: Geometry, i: int) -> u8 {
    let stride = g.hor_stride as int;
    let len = input.len() as int;
    if i < padded_luma(g) {
        let row = i / stride;
        let col = i % stride;
        if row >= g.height {
            0
        } else if col < g.width && takes_luma_row(g, len, row) {
            input[row * g.width + col]
        } else {
            before[i]
        }
    } else if i < padded_size(g) {
        let row = (i - padded_luma(g)) / stride;
        let col = (i - padded_luma(g)) % stride;
        if row >= g.height / 2 {
            128
        } else if col < g.width && takes_chroma_row(g, len, row) {
            input[packed_luma(g) + row * g.width + col]
        } else {
            before[i]
        }
    } else {
        before[i]
    }
}

/// Padded memory after a packed `input` was spread over it.
pub open spec fn padded(before: Seq<u8>, input: Seq<u8>, g: Geometry) -> Seq<u8> {
    Seq::new(before.len(), |i: int| padded_byte(before, input, g, i))
}

/// The sizes that the copies compute with stay within those of the memory.
proof fn lemma_sizes(g: Geometry)
    requires
        strides_hold(g),
    ensures
        0 <= packed_luma(g) <= g.height * g.hor_stride <= padded_luma(g),
        0 <= (g.height / 2) * g.width <= (g.height / 2) * g.hor_stride <= (g.ver_stride / 2) * g.hor_stride,
        g.height > 0 ==> (g.height - 1) * g.hor_stride + g.hor_stride == g.height * g.hor_stride,
        g.height > 0 ==> (g.height - 1) * g.width + g.width == packed_luma(g),
        g.height / 2 > 0 ==> (g.height / 2 - 1) * g.hor_stride + g.hor_stride == (g.height / 2) * g.hor_stride,
        g.height / 2 > 0 ==> (g.height / 2 - 1) * g.width + g.width == (g.height / 2) * g.width,
{
    let (w, h, s, v) = (g.width as int, g.height as int, g.hor_stride as int, g.ver_stride as int);
    assert(0 <= h * w <= h * s <= v * s) by (nonlinear_arith)
        requires
            0 <= w <= s,
            0 <= h <= v,
    ;
    let (h2, v2) = (h / 2, v / 2);
    assert(0 <= h2 * w <= h2 * s <= v2 * s) by (nonlinear_arith)
        requires
            0 <= w <= s,
            0 <= h2 <= v2,
    ;
    assert((h - 1) * s + s == h * s) by (nonlinear_arith);
    assert((h - 1) * w + w == h * w) by (nonlinear_arith);
    assert((h2 - 1) * s + s == h2 * s) by (nonlinear_arith);
    assert((h2 - 1) * w + w == h2 * w) by (nonlinear_arith);
}

/// Spreads a packed NV12 picture over padded memory. Rows that the input does not hold are left
/// as they are; padding rows are black.
#[verifier::rlimit(40)]
pub fn spread(input: &[u8], dst: &mut [u8], g: Geometry)
    requires
        strides_hold(g),
        padded_size(g) <= old(dst)@.len(),
    ensures
        final(dst)@ == padded(old(dst)@, input@, g),
{
    let ghost before = dst@;
    assert(before.len() == dst.len());
    proof {
        lemma_sizes(g);
    }
    let width = g.width as usize;
    let height = g.height as usize;
    let dst_stride = g.hor_stride as usize;
    let dst_vstride = g.ver_stride as usize;
    let src_uv = height * width;
    let dst_uv = dst_vstride * dst_stride;
    let uv_height = height / 2;

    if width == dst_stride {
        if src_uv <= input.len() {
            copy_bytes(input, 0, dst, 0, src_uv);
        }
    } else {
        copy_rows(input, 0, width, dst, 0, dst_stride, width, height);
    }

    if dst_vstride > height {
        fill_bytes(dst, height * dst_stride, dst_uv, 0u8);
    }

    if width == dst_stride {
        let uv_copy = uv_height * width;
        if src_uv + uv_copy <= input.len() {
            copy_bytes(input, src_uv, dst, dst_uv, uv_copy);
        }
    } else {
        copy_rows(input, src_uv, width, dst, dst_uv, dst_stride, width, uv_height);
    }

    if dst_vstride / 2 > uv_height {
        let uv_pad_start = dst_uv + uv_height * dst_stride;
        let uv_pad_end = dst_uv + (dst_vstride / 2) * dst_stride;
        fill_bytes(dst, uv_pad_start, uv_pad_end, 128u8);
    }
    proof {
        assert forall|i: int| 0 <= i < before.len() implies dst@[i] == padded_byte(before, input@, g, i) by {
            let s = dst_stride as int;
            if i < dst_uv {
                if s > 0 {
                    lemma_offset(i, s);
                    lemma_rows_below(i, s, height as int);
                }
            } else if i < padded_size(g) {
                let k = i - dst_uv;
                if s > 0 {
                    lemma_offset(k, s);
                    lemma_rows_below(k, s, uv_height as int);
                    lemma_rows_below(k, s, (dst_vstride / 2) as int);
                    lemma_rows_below(i, s, height as int);
                    lemma_rows_below(i, s, dst_vstride as int);
                }
            } else {
                let k = i - dst_uv;
                if s > 0 {
                    lemma_rows_below(k, s, uv_height as int);
                    lemma_rows_below(i, s, height as int);
                }
            }
        }
        assert(dst@ =~= padded(before, input@, g));
    }
}

/// Whether `len` bytes hold the rows of a padded picture.
pub open spec fn holds_rows(g: Geometry, len: int) -> bool {
    &&& padded_luma(g) <= len
    &&& g.height > 0 ==> (g.height - 1) * g.hor_stride + g.width <= len
    &&& g.height / 2 > 0 ==> padded_luma(g) + (g.height / 2 - 1) * g.hor_stride + g.width <= len
}

/// The byte at `i` of packed memory after the rows of the padded picture `src` were packed into
/// it; behind the rows it is as before.
pub open spec fn packed_byte(before: Seq<u8>, src: Seq<u8>, g: Geometry, i: int) -> u8 {
    let w = g.width as int;
    if i < packed_luma(g) {
        src[(i / w) * g.hor_stride + i % w]
    } else if i < packed_rows(g) {
        let k = i - packed_luma(g);
        src[padded_luma(g) + (k / w) * g.hor_stride + k % w]
    } else {
        before[i]
    }
}

/// Packed memory after the rows of the padded picture `src` were packed into it.
pub open spec fn packed(before: Seq<u8>, src: Seq<u8>, g: Geometry) -> Seq<u8> {
    Seq::new(before.len(), |i: int| packed_byte(before, src, g, i))
}

/// `n` rows that are within a bound, one by one.
proof fn lemma_rows_fit(base: int, stride: int, width: int, n: int, row: int, len: int)
    requires
        0 <= row < n,
        0 <= stride,
        base + (n - 1) * stride + width <= len,
    ensures
        row_fits(base + row * stride, width, len),
{
    assert(row * stride <= (n - 1) * stride) by (nonlinear_arith)
        requires
            row <= n - 1,
            0 <= stride,
    ;
}

/// The sizes of a packed picture, counted in rows.
proof fn lemma_packed_sizes(g: Geometry)
    ensures
        0 <= packed_luma(g) <= packed_rows(g),
        g.height > 0 ==> (g.height - 1) * g.width + g.width == packed_luma(g),
        g.height / 2 > 0 ==> (g.height / 2 - 1) * g.width + g.width == (g.height / 2) * g.width,
{
    let (w, h) = (g.width as int, g.height as int);
    let h2 = h / 2;
    assert(0 <= h * w) by (nonlinear_arith)
        requires
            0 <= h,
            0 <= w,
    ;
    assert(0 <= h2 * w) by (nonlinear_arith)
        requires
            0 <= h2,
            0 <= w,
    ;
    assert((h - 1) * w + w == h * w) by (nonlinear_arith);
    assert((h2 - 1) * w + w == h2 * w) by (nonlinear_arith);
}

/// Packs the rows of a padded NV12 picture, stripping the padding.
#[verifier::rlimit(40)]
pub fn pack(src: &[u8], dst: &mut [u8], g: Geometry)
    requires
        holds_rows(g, src@.len() as int),
        packed_rows(g) <= old(dst)@.len(),
    ensures
        final(dst)@ == packed(old(dst)@, src@, g),
{
    let ghost before = dst@;
    assert(before.len() == dst.len());
    assert(src@.len() == src.len());
    proof {
        lemma_packed_sizes(g);
    }
    let w = g.width as usize;
    let h = g.height as usize;
    let hs = g.hor_stride as usize;
    let vs = g.ver_stride as usize;
    let dst_uv = h * w;
    let uv_h = h / 2;

    if w == hs {
        proof {
            assert(h > 0 ==> (h - 1) * hs + w == h * w);
            assert(h == 0 ==> h * w == 0) by (nonlinear_arith);
        }
        copy_bytes(src, 0, dst, 0, dst_uv);
    } else {
        copy_rows(src, 0, hs, dst, 0, w, w, h);
    }

    assert(vs * hs == padded_luma(g));
    let src_uv = vs * hs;
    if w == hs {
        proof {
            assert(uv_h > 0 ==> (uv_h - 1) * hs + w == uv_h * w);
            assert(uv_h == 0 ==> uv_h * w == 0) by (nonlinear_arith);
        }
        copy_bytes(src, src_uv, dst, dst_uv, uv_h * w);
    } else {
        copy_rows(src, src_uv, hs, dst, dst_uv, w, w, uv_h);
    }
    proof {
        assert forall|i: int| 0 <= i < before.len() implies dst@[i] == packed_byte(before, src@, g, i) by {
            let wi = w as int;
            if wi > 0 {
                lemma_offset(i, wi);
                lemma_rows_below(i, wi, h as int);
                if i < dst_uv && w != hs {
                    lemma_rows_fit(0, hs as int, wi, h as int, i / wi, src@.len() as int);
                }
                if i >= dst_uv {
                    let k = i - dst_uv;
                    lemma_offset(k, wi);
                    lemma_rows_below(k, wi, uv_h as int);
                    if k < uv_h * w && w != hs {
                        lemma_rows_fit(src_uv as int, hs as int, wi, uv_h as int, k / wi, src@.len() as int);
                    }
                }
            } else {
                assert(h * w == 0 && uv_h * w == 0) by (nonlinear_arith)
                    requires
                        w == 0,
                ;
            }
        }
        assert(dst@ =~= packed(before, src@, g));
    }
}

/// Where the byte at `i` of a picture lies in memory whose rows have no padding: luma and chroma
/// follow each other, each without gaps.
pub open spec fn unpadded_offset(g: Geometry, i: int) -> int {
    if i < packed_luma(g) {
        i
    } else {
        padded_luma(g) + (i - packed_luma(g))
    }
}

/// The byte at `i` of a packed picture that was taken from hardware memory `src`. Memory whose rows
/// have no padding fills the whole size of the picture, as far as it goes; what it does not hold
/// stays as before.
pub open spec fn taken_byte(before: Seq<u8>, src: Seq<u8>, g: Geometry, i: int) -> u8 {
    if g.width != g.hor_stride {
        packed_byte(before, src, g, i)
    } else if i < packed_size(g) && unpadded_offset(g, i) < src.len() {
        src[unpadded_offset(g, i)]
    } else {
        before[i]
    }
}

/// A packed picture that was taken from hardware memory `src`.
pub open spec fn taken(before: Seq<u8>, src: Seq<u8>, g: Geometry) -> Seq<u8> {
    Seq::new(before.len(), |i: int| taken_byte(before, src, g, i))
}

/// The rows of a picture that is taken out of memory that holds them are the packed rows.
proof fn lemma_taken_is_packed(before: Seq<u8>, src: Seq<u8>, g: Geometry)
    requires
        holds_rows(g, src.len() as int),
        packed_rows(g) <= before.len(),
    ensures
        forall|i: int|
            0 <= i < packed_rows(g) ==> #[trigger] taken(before, src, g)[i] == packed(before, src, g)[i],
{
    lemma_packed_sizes(g);
    lemma_packed_size(g);
    let (w, h) = (g.width as int, g.height as int);
    assert forall|i: int| 0 <= i < packed_rows(g) implies #[trigger] taken(before, src, g)[i] == packed(
        before,
        src,
        g,
    )[i] by {
        if w == 0 {
            assert(h * w == 0 && (h / 2) * w == 0) by (nonlinear_arith)
                requires
                    w == 0,
            ;
        } else if i < packed_luma(g) {
            lemma_offset(i, w);
            assert((i / w) * w + i % w == i);
            lemma_rows_below(i, w, h);
            lemma_rows_fit(0, g.hor_stride as int, w, h, i / w, src.len() as int);
        } else {
            let k = i - packed_luma(g);
            lemma_offset(k, w);
            assert((k / w) * w + k % w == k);
            lemma_rows_below(k, w, h / 2);
            lemma_rows_fit(padded_luma(g), g.hor_stride as int, w, h / 2, k / w, src.len() as int);
        }
    }
}

/// Takes a picture out of hardware memory: its rows packed, without the padding behind each row and
/// behind the luma plane. Where the rows have no padding, memory may be too short; the bytes that
/// are missing stay as they are.
pub fn take(src: &[u8], dst: &mut [u8], g: Geometry)
    requires
        g.width != g.hor_stride ==> holds_rows(g, src@.len() as int),
        packed_size(g) <= old(dst)@.len(),
    ensures
        final(dst)@ == taken(old(dst)@, src@, g),
        holds_rows(g, src@.len() as int) ==> forall|i: int|
            0 <= i < packed_rows(g) ==> #[trigger] final(dst)@[i] == packed(old(dst)@, src@, g)[i],
{
    let ghost before = dst@;
    assert(before.len() == dst.len());
    assert(src@.len() == src.len());
    proof {
        lemma_packed_sizes(g);
        lemma_packed_size(g);
        if holds_rows(g, src@.len() as int) {
            lemma_taken_is_packed(before, src@, g);
        }
    }
    if g.width != g.hor_stride {
        pack(src, dst, g);
        assert(dst@ =~= taken(before, src@, g));
        return ;
    }
    let w = g.width as usize;
    let h = g.height as usize;
    assert(h * w == g.width * g.height) by (nonlinear_arith)
        requires
            w == g.width,
            h == g.height,
    ;
    let luma = h * w;
    let chroma = luma / 2;
    let n: usize = if luma <= src.len() {
        luma
    } else {
        src.len()
    };
    copy_bytes(src, 0, dst, 0, n);
    proof {
        assert(0 <= g.ver_stride * g.hor_stride <= 0xffff_ffff * 0xffff_ffff) by (nonlinear_arith)
            requires
                0 <= g.ver_stride <= 0xffff_ffff,
                0 <= g.hor_stride <= 0xffff_ffff,
        ;
    }
    let src_uv = g.ver_stride as u64 * g.hor_stride as u64;
    if src_uv < src.len() as u64 {
        let from = src_uv as usize;
        let m: usize = if chroma <= src.len() - from {
            chroma
        } else {
            src.len() - from
        };
        copy_bytes(src, from, dst, luma, m);
    }
    assert(dst@ =~= taken(before, src@, g));
}

/// Packing undoes spreading: the rows of a packed picture come back, whatever the padded memory
/// and the target held before.
pub proof fn law_pack_undoes_spread(before: Seq<u8>, input: Seq<u8>, out: Seq<u8>, g: Geometry)
    requires
        strides_hold(g),
        padded_size(g) <= before.len(),
        packed_rows(g) <= input.len(),
        packed_rows(g) <= out.len(),
    ensures
        holds_rows(g, padded(before, input, g).len() as int),
        forall|i: int|
            0 <= i < packed_rows(g) ==> #[trigger] packed(out, padded(before, input, g), g)[i] == input[i],
{
    lemma_sizes(g);
    let (w, h, s) = (g.width as int, g.height as int, g.hor_stride as int);
    let mid = padded(before, input, g);
    assert forall|i: int| 0 <= i < packed_rows(g) implies #[trigger] packed(out, mid, g)[i] == input[i] by {
        if w == 0 {
            assert(h * w == 0 && (h / 2) * w == 0) by (nonlinear_arith)
                requires
                    w == 0,
            ;
        } else if i < packed_luma(g) {
            let row = i / w;
            let col = i % w;
            lemma_offset(i, w);
            assert((i / w) * w + i % w == i);
            lemma_rows_below(i, w, h);
            let at = row * s + col;
            lemma_row_col(at, s, row, col);
            assert(0 <= row * s) by (nonlinear_arith)
                requires
                    0 <= row,
                    0 < s,
            ;
            lemma_rows_below(at, s, g.ver_stride as int);
            lemma_rows_fit(0, w, w, h, row, input.len() as int);
        } else {
            let k = i - packed_luma(g);
            let row = k / w;
            let col = k % w;
            lemma_offset(k, w);
            assert((k / w) * w + k % w == k);
            lemma_rows_below(k, w, h / 2);
            let at = row * s + col;
            lemma_row_col(at, s, row, col);
            assert(0 <= row * s) by (nonlinear_arith)
                requires
                    0 <= row,
                    0 < s,
            ;
            lemma_rows_below(at, s, (g.ver_stride / 2) as int);
            lemma_rows_fit(packed_luma(g), w, w, h / 2, row, input.len() as int);
        }
    }
}

/// Taking a picture out of hardware memory undoes spreading it.
pub proof fn law_take_undoes_spread(before: Seq<u8>, input: Seq<u8>, out: Seq<u8>, g: Geometry)
    requires
        strides_hold(g),
        padded_size(g) <= before.len(),
        packed_rows(g) <= input.len(),
        packed_rows(g) <= out.len(),
    ensures
        forall|i: int|
            0 <= i < packed_rows(g) ==> #[trigger] taken(out, padded(before, input, g), g)[i] == input[i],
{
    law_pack_undoes_spread(before, input, out, g);
    lemma_taken_is_packed(out, padded(before, input, g), g);
}

/// How many bytes a packed picture takes.
pub open spec fn packed_size(g: Geometry) -> int {
    g.width * g.height * 3 / 2
}

/// The rows of a packed picture lie within its size.
proof fn lemma_packed_size(g: Geometry)
    ensures
        0 <= packed_rows(g) <= packed_size(g),
        0 <= g.width * g.height,
{
    let (w, h) = (g.width as int, g.height as int);
    assert(h * w == w * h && 0 <= w * h && 0 <= (h / 2) * w && 2 * ((h / 2) * w) <= w * h) by (nonlinear_arith)
        requires
            0 <= w,
            0 <= h,
    ;
}

/// Tests whether the size of a picture can be computed in 32 bits.
pub fn take_size_fits(g: Geometry) -> (r: bool)
    ensures
        r == (g.width * g.height * 3 <= u32::MAX),
{
    proof {
        assert(0 <= g.width * g.height <= 0xffff_ffff * 0xffff_ffff) by (nonlinear_arith)
            requires
                0 <= g.width <= 0xffff_ffff,
                0 <= g.height <= 0xffff_ffff,
        ;
    }
    g.width as u128 * g.height as u128 * 3 <= u32::MAX as u128
}

/// The size of a picture that is taken out of the video decoder's memory.
pub fn take_size(g: Geometry) -> (size: usize)
    requires
        g.width * g.height * 3 <= u32::MAX,
    ensures
        size == packed_size(g),
        packed_rows(g) <= size,
{
    proof {
        lemma_packed_size(g);
    }
    (g.width * g.height * 3 / 2) as usize
}

/// Tests whether the size of a picture can be computed in a machine word.
pub fn pack_size_fits(g: Geometry) -> (r: bool)
    ensures
        r == (g.width * g.height * 3 <= usize::MAX),
{
    proof {
        assert(0 <= g.width * g.height <= 0xffff_ffff * 0xffff_ffff) by (nonlinear_arith)
            requires
                0 <= g.width <= 0xffff_ffff,
                0 <= g.height <= 0xffff_ffff,
        ;
    }
    g.width as u128 * g.height as u128 * 3 <= usize::MAX as u128
}

/// The size of a picture that is packed out of the JPEG decoder's memory.
pub fn pack_size(g: Geometry) -> (size: usize)
    requires
        g.width * g.height * 3 <= usize::MAX,
    ensures
        size == packed_size(g),
        packed_rows(g) <= size,
{
    proof {
        lemma_packed_size(g);
    }
    (g.width as usize) * (g.height as usize) * 3 / 2
}

/// Tests whether a picture can be spread over `len` bytes.
pub fn padding_fits(g: Geometry, len: usize) -> (r: bool)
    ensures
        r == (strides_hold(g) && padded_size(g) <= len),
{
    proof {
        assert(0 <= g.ver_stride * g.hor_stride <= 0xffff_ffff * 0xffff_ffff && 0 <= (g.ver_stride / 2) * g.hor_stride
            <= 0xffff_ffff * 0xffff_ffff) by (nonlinear_arith)
            requires
                0 <= g.ver_stride <= 0xffff_ffff,
                0 <= g.hor_stride <= 0xffff_ffff,
        ;
    }
    let luma = g.ver_stride as u128 * g.hor_stride as u128;
    let chroma = (g.ver_stride / 2) as u128 * g.hor_stride as u128;
    g.width <= g.hor_stride && g.height <= g.ver_stride && luma + chroma <= len as u128
}

/// Tests whether the rows of a padded picture lie within `len` bytes.
pub fn rows_fit(g: Geometry, len: usize) -> (r: bool)
    ensures
        r == holds_rows(g, len as int),
{
    proof {
        assert(0 <= g.ver_stride * g.hor_stride <= 0xffff_ffff * 0xffff_ffff) by (nonlinear_arith)
            requires
                0 <= g.ver_stride <= 0xffff_ffff,
                0 <= g.hor_stride <= 0xffff_ffff,
        ;
    }
    let luma = g.ver_stride as u128 * g.hor_stride as u128;
    if luma > len as u128 {
        return false;
    }
    if g.height > 0 {
        proof {
            assert(0 <= (g.height - 1) * g.hor_stride <= 0xffff_ffff * 0xffff_ffff) by (nonlinear_arith)
                requires
                    0 < g.height <= 0xffff_ffff,
                    0 <= g.hor_stride <= 0xffff_ffff,
            ;
        }
        if (g.height - 1) as u128 * g.hor_stride as u128 + g.width as u128 > len as u128 {
            return false;
        }
    }
    if g.height / 2 > 0 {
        proof {
            assert(0 <= (g.height / 2 - 1) * g.hor_stride <= 0xffff_ffff * 0xffff_ffff) by (nonlinear_arith)
                requires
                    0 < g.height / 2,
                    g.height <= 0xffff_ffff,
                    0 <= g.hor_stride <= 0xffff_ffff,
            ;
        }
        if luma + (g.height / 2 - 1) as u128 * g.hor_stride as u128 + g.width as u128 > len as u128 {
            return false;
        }
    }
    true
}

/// Where spreading puts the luma. The pixel in row `y` and column `x` of the picture lands in row `y` and
/// column `x` of the memory; rows below the picture are black, and columns beside it stay as before. A
/// row that the input does not hold stays as before too; without padding the plane is taken as a whole.
pub proof fn law_spread_places_luma(before: Seq<u8>, input: Seq<u8>, g: Geometry, y: int, x: int)
    requires
        g.width <= g.hor_stride,
        g.height <= g.ver_stride,
        g.ver_stride * g.hor_stride + (g.ver_stride / 2) * g.hor_stride <= before.len(),
        0 <= y < g.ver_stride,
        0 <= x < g.hor_stride,
    ensures
        ({
            let mem = padded(before, input, g);
            let at = y * g.hor_stride + x;
            let there = if g.width == g.hor_stride {
                g.height * g.width <= input.len()
            } else {
                y * g.width + g.width <= input.len()
            };
            &&& mem.len() == before.len()
            &&& 0 <= at < mem.len()
            &&& mem[at] == if y >= g.height {
                0
            } else if x < g.width && there {
                input[y * g.width + x]
            } else {
                before[at]
            }
        }),
{
    let (s, v, w) = (g.hor_stride as int, g.ver_stride as int, g.width as int);
    let at = y * s + x;
    lemma_row_col(at, s, y, x);
    assert(0 <= y * s && y * s + s <= v * s && 0 <= (v / 2) * s) by (nonlinear_arith)
        requires
            0 <= y < v,
            0 < s,
    ;
    assert(0 <= y * w) by (nonlinear_arith)
        requires
            0 <= y,
            0 <= w,
    ;
}

/// Where spreading puts the chroma: as with the luma, in a plane of half the rows that starts where the luma
/// plane of the memory ends. Rows below the picture are grey. Behind the two planes nothing changes.
pub proof fn law_spread_places_chroma(before: Seq<u8>, input: Seq<u8>, g: Geometry, y: int, x: int)
    requires
        g.width <= g.hor_stride,
        g.height <= g.ver_stride,
        g.ver_stride * g.hor_stride + (g.ver_stride / 2) * g.hor_stride <= before.len(),
        0 <= y < g.ver_stride / 2,
        0 <= x < g.hor_stride,
    ensures
        ({
            let mem = padded(before, input, g);
            let at = g.ver_stride * g.hor_stride + y * g.hor_stride + x;
            let there = if g.width == g.hor_stride {
                g.height * g.width + (g.height / 2) * g.width <= input.len()
            } else {
                g.height * g.width + y * g.width + g.width <= input.len()
            };
            &&& 0 <= at < mem.len()
            &&& mem[at] == if y >= g.height / 2 {
                128
            } else if x < g.width && there {
                input[g.height * g.width + y * g.width + x]
            } else {
                before[at]
            }
            &&& forall|i: int|
                g.ver_stride * g.hor_stride + (g.ver_stride / 2) * g.hor_stride <= i < before.len()
                    ==> #[trigger] mem[i] == before[i]
        }),
{
    let (s, v, w, h) = (g.hor_stride as int, g.ver_stride as int, g.width as int, g.height as int);
    let k = y * s + x;
    lemma_row_col(k, s, y, x);
    assert(0 <= y * s && y * s + s <= (v / 2) * s && 0 <= v * s) by (nonlinear_arith)
        requires
            0 <= y < v / 2,
            0 < s,
            0 <= v,
    ;
    assert(0 <= y * w && 0 <= h * w) by (nonlinear_arith)
        requires
            0 <= y,
            0 <= w,
            0 <= h,
    ;
}

/// Where packing takes the luma from: the pixel in row `y` and column `x` of the picture is the one in row `y`
/// and column `x` of the memory.
pub proof fn law_pack_takes_luma(before: Seq<u8>, src: Seq<u8>, g: Geometry, y: int, x: int)
    requires
        g.height * g.width + (g.height / 2) * g.width <= before.len(),
        0 <= y < g.height,
        0 <= x < g.width,
    ensures
        packed(before, src, g).len() == before.len(),
        packed(before, src, g)[y * g.width + x] == src[y * g.hor_stride + x],
{
    let (w, h) = (g.width as int, g.height as int);
    lemma_packed_sizes(g);
    lemma_row_col(y * w + x, w, y, x);
    assert(0 <= y * w && y * w + w <= h * w) by (nonlinear_arith)
        requires
            0 <= y < h,
            0 < w,
    ;
}

/// Where packing takes the chroma from: as with the luma, from a plane of half the rows that starts where the
/// luma plane of the memory ends. Behind the rows of the picture nothing changes.
pub proof fn law_pack_takes_chroma(before: Seq<u8>, src: Seq<u8>, g: Geometry, y: int, x: int)
    requires
        g.height * g.width + (g.height / 2) * g.width <= before.len(),
        0 <= y < g.height / 2,
        0 <= x < g.width,
    ensures
        packed(before, src, g)[g.height * g.width + y * g.width + x] == src[g.ver_stride * g.hor_stride + y * g.hor_stride
            + x],
        forall|i: int|
            g.height * g.width + (g.height / 2) * g.width <= i < before.len() ==> #[trigger] packed(before, src, g)[i]
                == before[i],
{
    let (w, h) = (g.width as int, g.height as int);
    lemma_packed_sizes(g);
    lemma_row_col(y * w + x, w, y, x);
    assert(0 <= y * w && y * w + w <= (h / 2) * w) by (nonlinear_arith)
        requires
            0 <= y < h / 2,
            0 < w,
    ;
}

/// Taking a picture out of memory whose rows are padded is packing it.
pub proof fn law_take_of_padded_rows_packs(before: Seq<u8>, src: Seq<u8>, g: Geometry)
    requires
        g.width != g.hor_stride,
    ensures
        taken(before, src, g) == packed(before, src, g),
{
    assert(taken(before, src, g) =~= packed(before, src, g));
}

/// What taking a picture out of memory without row padding gives: the luma from the start of the memory, the
/// chroma from the end of the luma plane on, half as many bytes, each as far as the memory goes. The
/// rest stays as before.
pub proof fn law_take_of_bare_rows_copies(before: Seq<u8>, src: Seq<u8>, g: Geometry, i: int)
    requires
        g.width == g.hor_stride,
        g.width * g.height * 3 / 2 <= before.len(),
        0 <= i < before.len(),
    ensures
        ({
            let luma = g.width * g.height;
            let from = g.ver_stride * g.width + (i - luma);
            &&& taken(before, src, g).len() == before.len()
            &&& taken(before, src, g)[i] == if i < luma {
                if i < src.len() {
                    src[i]
                } else {
                    before[i]
                }
            } else if i < luma + luma / 2 && from < src.len() {
                src[from]
            } else {
                before[i]
            }
        }),
{
    let (w, h) = (g.width as int, g.height as int);
    assert(w * h == h * w && 0 <= w * h) by (nonlinear_arith)
        requires
            0 <= w,
            0 <= h,
    ;
}

/// A packed picture takes three bytes for each two pixels; of a picture with an even number of rows that is
/// exactly its rows.
pub proof fn law_picture_size(g: Geometry)
    ensures
        packed_size(g) == g.width * g.height * 3 / 2,
        g.height % 2 == 0 ==> packed_size(g) == packed_rows(g),
        packed_rows(g) == g.height * g.width + (g.height / 2) * g.width,
        padded_size(g) == g.ver_stride * g.hor_stride + (g.ver_stride / 2) * g.hor_stride,
        strides_hold(g) <==> g.width <= g.hor_stride && g.height <= g.ver_stride,
{
    let (w, h) = (g.width as int, g.height as int);
    if h % 2 == 0 {
        assert(w * h * 3 / 2 == h * w + (h / 2) * w) by (nonlinear_arith)
            requires
                h % 2 == 0,
                0 <= h,
                0 <= w,
        ;
    }
}

/// Memory holds the rows of a picture where the luma plane lies within it and so does the last pixel of each plane
/// of the picture, and only there.
pub proof fn law_rows_that_memory_holds(g: Geometry, len: int)
    ensures
        holds_rows(g, len) <==> {
            &&& g.ver_stride * g.hor_stride <= len
            &&& g.height >= 1 ==> (g.height - 1) * g.hor_stride + g.width <= len
            &&& g.height >= 2 ==> g.ver_stride * g.hor_stride + (g.height / 2 - 1) * g.hor_stride + g.width <= len
        },
{
}

/// Memory that is large enough for the padded picture holds its rows.
pub proof fn law_memory_holds_rows(g: Geometry, len: int)
    requires
        g.ver_stride * g.hor_stride + (g.ver_stride / 2) * g.hor_stride <= len,
        g.width <= g.hor_stride,
        g.height <= g.ver_stride,
    ensures
        holds_rows(g, len),
{
    lemma_sizes(g);
}

} // verus!
