//! Turning a viewport and a cell area into a resampled grid: the viewport is
//! cropped out of the source in whole pixels, and the crop is resized to the
//! largest size of its aspect (corrected for tall character cells) that the
//! cell area holds.

use vstd::prelude::*;
use vstd::arithmetic::div_mod::{lemma_div_is_ordered, lemma_div_plus_one, lemma_div_multiples_vanish_fancy};
use crate::raster::{Raster, RESAMPLE_LIMIT, cropped_bytes, nearest_resized, crop_raster, resize_raster};
use crate::viewport::{Viewport, SCALE, min_dimension_spec, min2};

verus! {

/// Normalized coordinate `c` (in units) times `n` pixels, rounded to the
/// nearest pixel, halves up.
pub open spec fn round_scaled(c: int, n: int) -> int {
    (2 * c * n + SCALE) / (2 * SCALE)
}

/// The pixel rectangle `(left, top, width, height)` that `v` covers in a
/// `width` x `height` source.
pub open spec fn crop_rect(v: Viewport, width: int, height: int) -> (int, int, int, int) {
    let left = round_scaled(v.x0 as int, width);
    let top = round_scaled(v.y0 as int, height);
    (left, top, round_scaled(v.x1 as int, width) - left, round_scaled(v.y1 as int, height) - top)
}

/// The crop is relatively taller than the cell area, whose cells are 2.5 times
/// taller than wide: `cw / ch < cols / (2.5 * rows)`.
pub open spec fn fits_by_rows(cw: int, ch: int, cols: int, rows: int) -> bool {
    5 * cw * rows < 2 * cols * ch
}

/// Resampled width: `round(2.5 * cw / ch * rows)` when constrained by rows,
/// else `cols`; never more than `cols`.
pub open spec fn target_width(cw: int, ch: int, cols: int, rows: int) -> int {
    let w = if fits_by_rows(cw, ch, cols, rows) { (5 * cw * rows + ch) / (2 * ch) } else { cols };
    min2(w, cols)
}

/// Resampled height: `rows` when constrained by rows, else
/// `round(cols / (2.5 * cw / ch))`; never more than `rows`.
pub open spec fn target_height(cw: int, ch: int, cols: int, rows: int) -> int {
    let h = if fits_by_rows(cw, ch, cols, rows) { rows } else { (4 * cols * ch + 5 * cw) / (10 * cw) };
    min2(h, rows)
}

/// The resize from a crop `cw` wide to `tw` x `th` stays within the buffer limit.
pub open spec fn resample_fits(cw: int, tw: int, th: int) -> bool {
    &&& tw <= RESAMPLE_LIMIT
    &&& th <= RESAMPLE_LIMIT
    &&& 16 * cw * th <= RESAMPLE_LIMIT
    &&& 3 * tw * th <= RESAMPLE_LIMIT
}

/// Whether a resample of `src` onto `cols` x `rows` cells through `v` succeeds.
pub open spec fn resample_succeeds(src: Raster, v: Viewport, cols: int, rows: int) -> bool {
    let (left, top, cw, ch) = crop_rect(v, src.width as int, src.height as int);
    &&& src.width >= 1
    &&& src.height >= 1
    &&& cols >= 1
    &&& rows >= 1
    &&& resample_fits(cw, target_width(cw, ch, cols, rows), target_height(cw, ch, cols, rows))
}

/// The bytes of the grid that a successful resample yields: none when the
/// target has no columns or no rows, else the crop resized.
pub open spec fn resampled_bytes(src: Raster, v: Viewport, cols: int, rows: int) -> Seq<u8> {
    let (left, top, cw, ch) = crop_rect(v, src.width as int, src.height as int);
    let tw = target_width(cw, ch, cols, rows);
    let th = target_height(cw, ch, cols, rows);
    if tw == 0 || th == 0 {
        Seq::empty()
    } else {
        nearest_resized(
            cropped_bytes(src.data@, src.width as int, left, top, cw, ch),
            cw as nat,
            ch as nat,
            tw as nat,
            th as nat,
        )
    }
}

/// When the crop is relatively taller than the cell area, the grid takes all
/// rows and is `round(2.5 * cw / ch * rows)` wide: that width never exceeds
/// the columns.
pub proof fn lemma_row_constrained_fit(cw: int, ch: int, cols: int, rows: int)
    requires
        cw >= 1,
        ch >= 1,
        cols >= 1,
        rows >= 1,
        fits_by_rows(cw, ch, cols, rows),
    ensures
        target_height(cw, ch, cols, rows) == rows,
        (5 * cw * rows + ch) / (2 * ch) <= cols,
        target_width(cw, ch, cols, rows) == (5 * cw * rows + ch) / (2 * ch),
{
    let d = 2 * ch;
    assert(5 * cw * rows + ch <= d * cols + (ch - 1)) by (nonlinear_arith)
        requires 5 * cw * rows < 2 * cols * ch, d == 2 * ch;
    lemma_div_is_ordered(5 * cw * rows + ch, d * cols + (ch - 1), d);
    lemma_div_multiples_vanish_fancy(cols, ch - 1, d);
}

/// A viewport at least one source pixel wide covers a non-empty pixel range
/// inside the image.
pub proof fn lemma_crop_in_bounds(lo: int, hi: int, n: int, min_dim: int)
    requires
        0 <= lo < hi <= SCALE,
        hi - lo >= min_dim,
        1 <= n,
        min_dim * n >= SCALE,
    ensures
        0 <= round_scaled(lo, n),
        round_scaled(lo, n) + 1 <= round_scaled(hi, n) <= n,
{
    let d: int = 2 * SCALE;
    assert(2 * hi * n + SCALE <= d * n + SCALE) by (nonlinear_arith)
        requires hi <= SCALE, n >= 1, d == 2 * SCALE;
    lemma_div_is_ordered(2 * hi * n + SCALE, d * n + SCALE, d);
    lemma_div_multiples_vanish_fancy(n, SCALE as int, d);
    assert((hi - lo) * n >= min_dim * n) by (nonlinear_arith)
        requires hi - lo >= min_dim, n >= 1;
    assert(2 * lo * n + SCALE + d <= 2 * hi * n + SCALE) by (nonlinear_arith)
        requires (hi - lo) * n >= SCALE, d == 2 * SCALE;
    lemma_div_plus_one(2 * lo * n + SCALE, d);
    lemma_div_is_ordered(2 * lo * n + SCALE + d, 2 * hi * n + SCALE, d);
    assert(0 <= 2 * lo * n) by (nonlinear_arith) requires lo >= 0, n >= 1;
    lemma_div_is_ordered(0, 2 * lo * n + SCALE, d);
}

/// One source pixel, in units, times the image's larger side is at least a
/// whole image side.
pub proof fn lemma_min_dimension_covers(width: u32, height: u32)
    requires
        width >= 1,
        height >= 1,
    ensures
        min_dimension_spec(width, height) * width >= SCALE,
        min_dimension_spec(width, height) * height >= SCALE,
{
    let m: int = if width <= height { width as int } else { height as int };
    let d = (SCALE + m - 1) / m;
    assert(d * m >= SCALE) by (nonlinear_arith)
        requires m >= 1, d == (SCALE + m - 1) / m;
    assert(d * width >= d * m && d * height >= d * m) by (nonlinear_arith)
        requires m <= width, m <= height, d >= 0;
}

/// `(2 * c * n + SCALE) / (2 * SCALE)` for a coordinate of a valid viewport.
fn round_scaled_exec(c: u64, n: u32) -> (r: u32)
    requires
        c <= SCALE,
        round_scaled(c as int, n as int) <= n,
    ensures
        r == round_scaled(c as int, n as int),
{
    assert(2 * c * n <= 2 * SCALE * 0xffff_ffff) by (nonlinear_arith)
        requires c <= SCALE, n <= 0xffff_ffff;
    ((2 * c * n as u64 + SCALE) / (2 * SCALE)) as u32
}

/// Crops `view` out of `src` and resizes it for a `cols` x `rows` cell area.
/// Nothing comes back when the source or the cell area is empty, or the
/// resample would outgrow `RESAMPLE_LIMIT`; a target that rounds to no
/// columns or no rows gives an empty grid of that size.
pub fn resample(src: &Raster, view: &Viewport, cols: usize, rows: usize) -> (r: Option<Raster>)
    requires
        src.wf(),
        view.wf(min_dimension_spec(src.width, src.height)),
    ensures
        r is Some <==> resample_succeeds(*src, *view, cols as int, rows as int),
        r matches Some(g) ==> {
            let (left, top, cw, ch) = crop_rect(*view, src.width as int, src.height as int);
            &&& g.wf()
            &&& g.width == target_width(cw, ch, cols as int, rows as int)
            &&& g.height == target_height(cw, ch, cols as int, rows as int)
            &&& g.data@ == resampled_bytes(*src, *view, cols as int, rows as int)
        },
{
    if src.width == 0 || src.height == 0 || cols == 0 || rows == 0 {
        return None;
    }
    let ghost md = min_dimension_spec(src.width, src.height);
    proof {
        lemma_min_dimension_covers(src.width, src.height);
        lemma_crop_in_bounds(view.x0 as int, view.x1 as int, src.width as int, md);
        lemma_crop_in_bounds(view.y0 as int, view.y1 as int, src.height as int, md);
    }
    let left: u32 = round_scaled_exec(view.x0, src.width);
    let right: u32 = round_scaled_exec(view.x1, src.width);
    let top: u32 = round_scaled_exec(view.y0, src.height);
    let bottom: u32 = round_scaled_exec(view.y1, src.height);
    let cw: u32 = right - left;
    let ch: u32 = bottom - top;
    let cw_l: u128 = cw as u128;
    let ch_l: u128 = ch as u128;
    let cols_l: u128 = cols as u128;
    let rows_l: u128 = rows as u128;
    assert(5 * cw * rows <= 5 * 0xffff_ffff * 0xffff_ffff_ffff_ffff) by (nonlinear_arith)
        requires cw <= 0xffff_ffff, rows <= 0xffff_ffff_ffff_ffff;
    assert(2 * cols * ch <= 2 * 0xffff_ffff * 0xffff_ffff_ffff_ffff) by (nonlinear_arith)
        requires ch <= 0xffff_ffff, cols <= 0xffff_ffff_ffff_ffff;
    assert(4 * cols * ch <= 4 * 0xffff_ffff * 0xffff_ffff_ffff_ffff) by (nonlinear_arith)
        requires ch <= 0xffff_ffff, cols <= 0xffff_ffff_ffff_ffff;
    let by_rows: bool = 5 * cw_l * rows_l < 2 * cols_l * ch_l;
    let w0: u128 = if by_rows { (5 * cw_l * rows_l + ch_l) / (2 * ch_l) } else { cols_l };
    let h0: u128 = if by_rows { rows_l } else { (4 * cols_l * ch_l + 5 * cw_l) / (10 * cw_l) };
    let tw: u128 = if w0 > cols_l { cols_l } else { w0 };
    let th: u128 = if h0 > rows_l { rows_l } else { h0 };
    if tw > RESAMPLE_LIMIT as u128 || th > RESAMPLE_LIMIT as u128 {
        return None;
    }
    assert(16 * cw * th <= 16 * 0xffff_ffff * RESAMPLE_LIMIT) by (nonlinear_arith)
        requires cw <= 0xffff_ffff, th <= RESAMPLE_LIMIT;
    assert(3 * tw * th <= 3 * RESAMPLE_LIMIT * RESAMPLE_LIMIT) by (nonlinear_arith)
        requires tw <= RESAMPLE_LIMIT, th <= RESAMPLE_LIMIT;
    if 16 * cw_l * th > RESAMPLE_LIMIT as u128 || 3 * tw * th > RESAMPLE_LIMIT as u128 {
        return None;
    }
    if tw == 0 || th == 0 {
        assert(3 * tw * th == 0) by (nonlinear_arith)
            requires tw == 0 || th == 0;
        return Some(Raster { width: tw as u32, height: th as u32, data: Vec::new() });
    }
    let crop: Raster = crop_raster(src, left, top, cw, ch);
    Some(resize_raster(&crop, tw as u32, th as u32))
}

} // verus!
