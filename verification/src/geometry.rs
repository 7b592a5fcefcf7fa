//! Whole-pixel geometry: the linear range mapping used when the viewport is
//! resized, and the placement of the board square and its cells inside the
//! viewport.

use vstd::arithmetic::div_mod::{
    lemma_div_is_ordered, lemma_div_multiples_vanish, lemma_div_pos_is_pos,
    lemma_fundamental_div_mod, lemma_mod_bound,
};
use vstd::arithmetic::mul::{lemma_mul_inequality, lemma_mul_nonnegative};
use vstd::prelude::*;

verus! {

/// The host-reported drawing surface, in whole pixels.
///
/// The board is always a square with edge `width`, anchored at the bottom of
/// the surface; the host is expected to keep the surface portrait-oriented or
/// square, and functions that place the board state `width <= height` as a
/// precondition.
#[derive(Clone, Copy, PartialEq, Eq, Structural, Debug)]
pub struct Viewport {
    pub width: u32,
    pub height: u32,
}

/// Linear interpolation of `num` from the range `[in_min, in_max]` into the
/// range `[out_min, out_max]`, rounded down to a whole number.
pub open spec fn scale_spec(num: int, in_min: int, in_max: int, out_min: int, out_max: int) -> int {
    (num - in_min) * (out_max - out_min) / (in_max - in_min) + out_min
}

/// A scaled value stays inside the output range.
pub proof fn lemma_scale_in_range(num: int, in_min: int, in_max: int, out_min: int, out_max: int)
    requires
        in_min <= num <= in_max,
        in_min < in_max,
        out_min <= out_max,
    ensures
        out_min <= scale_spec(num, in_min, in_max, out_min, out_max) <= out_max,
{
    let a = num - in_min;
    let span_in = in_max - in_min;
    let span_out = out_max - out_min;
    lemma_mul_nonnegative(a, span_out);
    lemma_div_pos_is_pos(a * span_out, span_in);
    lemma_mul_inequality(a, span_in, span_out);
    lemma_div_is_ordered(a * span_out, span_in * span_out, span_in);
    lemma_div_multiples_vanish(span_out, span_in);
}

/// Maps `num` from `[in_min, in_max]` to `[out_min, out_max]` by linear
/// interpolation, rounding down.
pub fn scale(num: u32, in_min: u32, in_max: u32, out_min: u32, out_max: u32) -> (r: u32)
    requires
        in_min <= num <= in_max,
        in_min < in_max,
        out_min <= out_max,
    ensures
        r == scale_spec(num as int, in_min as int, in_max as int, out_min as int, out_max as int),
        out_min <= r <= out_max,
{
    proof {
        lemma_scale_in_range(num as int, in_min as int, in_max as int, out_min as int, out_max as int);
    }
    let a: u64 = (num - in_min) as u64;
    let span_in: u64 = (in_max - in_min) as u64;
    let span_out: u64 = (out_max - out_min) as u64;
    proof {
        lemma_mul_inequality(a as int, u32::MAX as int, span_out as int);
        lemma_mul_inequality(span_out as int, u32::MAX as int, u32::MAX as int);
    }
    let q: u64 = a * span_out / span_in;
    q as u32 + out_min
}

/// The on-screen edge length of the board square: the viewport is assumed
/// portrait-oriented or square, so its width is the smaller dimension.
pub fn playing_field_size(vp: Viewport) -> (r: u32)
    ensures
        r == vp.width,
{
    vp.width
}

/// The vertical offset at which the board square begins.
pub open spec fn board_origin_spec(vp: Viewport) -> int {
    vp.height - vp.width
}

/// The vertical offset at which the board square begins; everything above it
/// is the header region.
pub fn playing_field_start_y(vp: Viewport) -> (r: u32)
    requires
        vp.width <= vp.height,
    ensures
        r == board_origin_spec(vp),
{
    vp.height - vp.width
}

/// A third of the board edge: the edge length of one cell.
pub open spec fn third_spec(vp: Viewport) -> int {
    vp.width as int / 3
}

/// The inset padding used when a mark is drawn inside a cell: five percent of
/// a cell edge, that is one sixtieth of the board edge.
pub open spec fn pad_spec(vp: Viewport) -> int {
    vp.width as int / 60
}

/// A length scaled relative to a 600-pixel reference board, so strokes and
/// fonts keep their proportions at any viewport size.
pub open spec fn scaled_spec(base: int, vp: Viewport) -> int {
    base * vp.width / 600
}

/// Computes `base * width / 600`, the length `base` rescaled from the
/// 600-pixel reference board to this viewport.
pub fn scaled(base: u32, vp: Viewport) -> (r: u32)
    requires
        base <= 600,
    ensures
        r == scaled_spec(base as int, vp),
        r <= vp.width,
        600 * r <= base * vp.width,
{
    proof {
        lemma_mul_nonnegative(base as int, vp.width as int);
        lemma_mul_inequality(base as int, 600, vp.width as int);
        lemma_div_is_ordered(base as int * vp.width as int, 600 * vp.width as int, 600);
        lemma_div_multiples_vanish(vp.width as int, 600);
        lemma_div_pos_is_pos(base as int * vp.width as int, 600);
        lemma_fundamental_div_mod(base as int * vp.width as int, 600);
        lemma_mod_bound(base as int * vp.width as int, 600);
    }
    ((base as u64) * (vp.width as u64) / 600) as u32
}

/// The inset padding of a mark inside its cell.
pub fn cell_padding(vp: Viewport) -> (r: u32)
    ensures
        r == pad_spec(vp),
{
    vp.width / 60
}

/// The stroke thickness used for marks: 10 reference pixels, rescaled.
pub fn cell_stroke_thickness(vp: Viewport) -> (r: u32)
    ensures
        r == scaled_spec(10, vp),
        r <= vp.width,
{
    scaled(10, vp)
}

/// Relations between the board edge, a cell edge and the mark padding that
/// the drawing layer needs to stay inside the viewport: three cells span at
/// most the board, and the padding fits many times into a cell.
pub proof fn lemma_board_proportions(w: int)
    requires
        0 <= w,
    ensures
        0 <= w / 60,
        0 <= w / 3 <= w,
        3 * (w / 3) <= w,
        w < 3 * (w / 3) + 3,
        60 * (w / 60) <= w,
        w / 60 <= (w / 3) / 2,
        2 * (w / 60) <= w / 3,
        w / 60 <= w / 3,
        0 <= (w / 3) / 2,
        2 * ((w / 3) / 2) <= w / 3,
{
    lemma_fundamental_div_mod(w, 3);
    lemma_mod_bound(w, 3);
    lemma_fundamental_div_mod(w, 60);
    lemma_mod_bound(w, 60);
    lemma_fundamental_div_mod(w / 3, 2);
    lemma_mod_bound(w / 3, 2);
    lemma_div_pos_is_pos(w, 3);
    lemma_div_pos_is_pos(w, 60);
    lemma_div_pos_is_pos(w / 3, 2);
}

/// Multiplying by `n` and flooring back down by a larger denominator keeps
/// the quotient below `n`: the cell index derived from an in-range click
/// coordinate is in range.
pub proof fn lemma_mul_div_lt(x: int, n: int, d: int) by (nonlinear_arith)
    requires
        0 <= x < d,
        0 < n,
    ensures
        0 <= x * n / d < n,
{
}

/// The top-left pixel of the cell at `index` (row-major, rows of three).
pub fn get_top_left_corner_of_cell(index: usize, vp: Viewport) -> (r: (u32, u32))
    requires
        index < 9,
        vp.width <= vp.height,
    ensures
        r.0 == (index as int % 3) * third_spec(vp),
        r.1 == board_origin_spec(vp) + (index as int / 3) * third_spec(vp),
{
    let col = (index % 3) as u32;
    let row = (index / 3) as u32;
    let cell_size = vp.width / 3;
    proof {
        lemma_board_proportions(vp.width as int);
        lemma_mul_inequality(col as int, 2, cell_size as int);
        lemma_mul_inequality(row as int, 2, cell_size as int);
        lemma_mul_nonnegative(col as int, cell_size as int);
        lemma_mul_nonnegative(row as int, cell_size as int);
    }
    (col * cell_size, (vp.height - vp.width) + row * cell_size)
}

/// The center pixel of the cell at `index`.
pub fn get_center_of_cell(index: usize, vp: Viewport) -> (r: (u32, u32))
    requires
        index < 9,
        vp.width <= vp.height,
    ensures
        r.0 == (index as int % 3) * third_spec(vp) + third_spec(vp) / 2,
        r.1 == board_origin_spec(vp) + (index as int / 3) * third_spec(vp) + third_spec(vp) / 2,
{
    let (x, y) = get_top_left_corner_of_cell(index, vp);
    let half_cell = (vp.width / 3) / 2;
    proof {
        lemma_board_proportions(vp.width as int);
        lemma_mul_inequality(index as int % 3, 2, third_spec(vp));
        lemma_mul_inequality(index as int / 3, 2, third_spec(vp));
        lemma_mul_nonnegative(index as int % 3, third_spec(vp));
        lemma_mul_nonnegative(index as int / 3, third_spec(vp));
    }
    (x + half_cell, y + half_cell)
}

} // verus!
