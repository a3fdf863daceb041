//! The chart layout engine: canvas size, per-series slots, and the affine
//! value-to-pixel map shared by everything that places a value vertically.
//!
//! Horizontal positions are whole pixels or halves; vertical positions are
//! exact fractions `num / span_c` of a pixel, where `span_c` is the snapped
//! axis span in centi-units.

use crate::axis::AXIS_BOUND_C;
use crate::MAX_ABS_VALUE;
use vstd::prelude::*;

verus! {

/// Fixed margins reserved around the plotted area.
#[derive(Clone, Copy, Debug, PartialEq, Eq, Structural)]
pub struct Gutter {
    pub left: i64,
    pub top: i64,
    pub right: i64,
    pub bottom: i64,
}

pub const GUTTER_LEFT: i64 = 80;

pub const GUTTER_TOP: i64 = 40;

pub const GUTTER_RIGHT: i64 = 80;

pub const GUTTER_BOTTOM: i64 = 80;

/// Height of the plotted area in pixels.
pub const Y_AXIS_HEIGHT: i64 = 400;

/// Horizontal slot reserved for each series, in pixels.
pub const BOX_PLOT_WIDTH: i64 = 60;

/// Radius of an outlier marker, in pixels.
pub const OUTLIER_RADIUS: i64 = 2;

/// Most series one chart can hold (keeps the canvas width in range).
pub const MAX_SERIES: usize = 1_000_000;

/// The fixed margins of every chart.
pub open spec fn chart_gutter() -> Gutter {
    Gutter { left: GUTTER_LEFT, top: GUTTER_TOP, right: GUTTER_RIGHT, bottom: GUTTER_BOTTOM }
}

/// Canvas width for `n` series: one slot per series plus the margins.
pub open spec fn canvas_width(n: int) -> int {
    GUTTER_LEFT + n * BOX_PLOT_WIDTH + GUTTER_RIGHT
}

/// Canvas height: the plotted area plus the margins.
pub open spec fn canvas_height() -> int {
    GUTTER_TOP + GUTTER_BOTTOM + Y_AXIS_HEIGHT
}

/// Horizontal center of the `i`-th series' slot (0-indexed, input order).
pub open spec fn slot_center(i: int) -> int {
    GUTTER_LEFT + i * BOX_PLOT_WIDTH + BOX_PLOT_WIDTH / 2
}

/// Numerator (over denominator `span_c`) of the y pixel of the value
/// `v2 / 2`: `canvas_height - bottom - (v - range_min) * height / span`.
pub open spec fn y_num_of(v2: int, rmin_c: int, span_c: int) -> int {
    (canvas_height() - GUTTER_BOTTOM) * span_c - (50 * v2 - rmin_c) * Y_AXIS_HEIGHT
}

pub fn gutter() -> (g: Gutter)
    ensures
        g == chart_gutter(),
{
    Gutter { left: GUTTER_LEFT, top: GUTTER_TOP, right: GUTTER_RIGHT, bottom: GUTTER_BOTTOM }
}

pub fn chart_width(series_count: usize) -> (w: i64)
    requires
        series_count <= MAX_SERIES,
    ensures
        w == canvas_width(series_count as int),
{
    GUTTER_LEFT + (series_count as i64) * BOX_PLOT_WIDTH + GUTTER_RIGHT
}

pub fn chart_height() -> (h: i64)
    ensures
        h == canvas_height(),
{
    GUTTER_TOP + GUTTER_BOTTOM + Y_AXIS_HEIGHT
}

pub fn slot_center_x(i: usize) -> (x: i64)
    requires
        i < MAX_SERIES,
    ensures
        x == slot_center(i as int),
{
    GUTTER_LEFT + (i as i64) * BOX_PLOT_WIDTH + BOX_PLOT_WIDTH / 2
}

/// The y pixel of the value `v2 / 2`, as the numerator of an exact
/// fraction over `span_c`.
pub fn value_to_y_num(v2: i64, rmin_c: i64, span_c: i64) -> (num: i64)
    requires
        -2 * MAX_ABS_VALUE <= v2 <= 2 * MAX_ABS_VALUE,
        -AXIS_BOUND_C <= rmin_c <= AXIS_BOUND_C,
        0 < span_c <= 2 * AXIS_BOUND_C,
    ensures
        num == y_num_of(v2 as int, rmin_c as int, span_c as int),
{
    let h = GUTTER_TOP + Y_AXIS_HEIGHT;
    proof {
        assert(h == 440);
        assert(canvas_height() - GUTTER_BOTTOM == 440);
    }
    let offset2 = 50 * v2 - rmin_c;
    h * span_c - offset2 * Y_AXIS_HEIGHT
}

/// The canvas grows linearly with the series count, one constant slot per
/// series.
pub proof fn lemma_width_linear(n: int)
    ensures
        canvas_width(n + 1) - canvas_width(n) == BOX_PLOT_WIDTH,
{
}

/// The value-to-pixel map is monotonically decreasing: a greater value is
/// drawn strictly higher (smaller y), the two pixels being exact fractions
/// over the same positive denominator `span_c`.
pub proof fn lemma_value_to_y_decreasing(v2a: int, v2b: int, rmin_c: int, span_c: int)
    requires
        v2a < v2b,
        span_c > 0,
    ensures
        y_num_of(v2a, rmin_c, span_c) > y_num_of(v2b, rmin_c, span_c),
{
}

} // verus!
