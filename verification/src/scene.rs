//! The scene builder: turns the processed chart data into the ordered list
//! of abstract drawing primitives that an external serializer emits as a
//! vector image.
//!
//! Horizontal positions are whole pixels, or half-pixels where a whisker
//! cap is centered on its stem; vertical positions of plotted values are
//! exact fractions `num / den` of a pixel with `den` the snapped axis span
//! in centi-units.

use crate::layout::{
    canvas_height, canvas_width, chart_width, slot_center, slot_center_x, value_to_y_num,
    y_num_of, MAX_SERIES, OUTLIER_RADIUS, Y_AXIS_HEIGHT,
};
use crate::quartile::{lo_count, uo_count};
use crate::RenderData;
use vstd::prelude::*;
use vstd::string::StringExecFns;

verus! {

/// How one path command moves the pen.
#[derive(Clone, Copy, Debug, PartialEq, Eq, Structural)]
pub enum PathVerb {
    /// Lift the pen to an absolute position.
    MoveTo,
    /// Draw to an absolute position.
    LineTo,
    /// Lift the pen by an offset.
    MoveBy,
    /// Draw by an offset.
    LineBy,
}

/// One pen command.  `x2` is the horizontal coordinate (or offset) in
/// half-pixels; the vertical coordinate (or offset) is `y_num / y_den`
/// pixels.
#[derive(Clone, Copy, Debug, PartialEq, Eq, Structural)]
pub struct PathCmd {
    pub verb: PathVerb,
    pub x2: i64,
    pub y_num: i64,
    pub y_den: i64,
}

/// One outlier marker: a circle of fixed radius on the series' center line.
#[derive(Clone, Copy, Debug, PartialEq, Eq, Structural)]
pub struct OutlierMark {
    pub cx: i64,
    pub cy_num: i64,
    pub cy_den: i64,
    pub radius: i64,
}

/// The grouped shape of one series: its outlier markers and the single
/// continuous whisker/box path.
pub struct BoxPlot {
    pub outliers: Vec<OutlierMark>,
    pub path: Vec<PathCmd>,
}

/// A rotated series label under the x axis.
pub struct SeriesLabel {
    pub text: String,
    pub x: i64,
    pub y: i64,
}

/// A tick label on the y axis: the value `value_c / 100`, printed with
/// `dps` digits after the decimal point.
pub struct TickLabel {
    pub value_c: i64,
    pub dps: u32,
    pub x: i64,
    pub y: i64,
}

/// The chart title, centered above the plot.
pub struct TitleLabel {
    pub text: String,
    pub x: i64,
    pub y: i64,
}

/// The abstract scene, in draw order: style declarations, the axis
/// polyline, the series labels, the tick labels, one box-plot group per
/// series, and the title on top.
pub struct Scene {
    pub width: i64,
    pub height: i64,
    pub styles: Vec<String>,
    pub axis: Vec<(i64, i64)>,
    pub x_labels: Vec<SeriesLabel>,
    pub y_labels: Vec<TickLabel>,
    pub box_plots: Vec<BoxPlot>,
    pub title: TitleLabel,
}

/// The single continuous pen path of one box plot: upper whisker cap and
/// stem, the box split at the median, lower whisker stem and cap.  `x2` is
/// twice the series' center line; `y0 .. y4` are the numerators (over
/// `den`) of the five landmark pixels, top to bottom.
pub open spec fn box_path_spec(x2: int, y0: int, y1: int, y2: int, y3: int, y4: int, den: int) -> Seq<
    PathCmd,
> {
    seq![
        PathCmd { verb: PathVerb::MoveTo, x2: (x2 - 15) as i64, y_num: y0 as i64, y_den: den as i64 },
        PathCmd { verb: PathVerb::LineBy, x2: 30i64, y_num: 0i64, y_den: den as i64 },
        PathCmd { verb: PathVerb::MoveBy, x2: -15i64, y_num: 0i64, y_den: den as i64 },
        PathCmd { verb: PathVerb::LineTo, x2: x2 as i64, y_num: y1 as i64, y_den: den as i64 },
        PathCmd { verb: PathVerb::MoveTo, x2: (x2 - 20) as i64, y_num: y2 as i64, y_den: den as i64 },
        PathCmd { verb: PathVerb::LineTo, x2: (x2 - 20) as i64, y_num: y1 as i64, y_den: den as i64 },
        PathCmd { verb: PathVerb::LineBy, x2: 40i64, y_num: 0i64, y_den: den as i64 },
        PathCmd { verb: PathVerb::LineTo, x2: (x2 + 20) as i64, y_num: y2 as i64, y_den: den as i64 },
        PathCmd { verb: PathVerb::LineBy, x2: -40i64, y_num: 0i64, y_den: den as i64 },
        PathCmd { verb: PathVerb::LineTo, x2: (x2 - 20) as i64, y_num: y3 as i64, y_den: den as i64 },
        PathCmd { verb: PathVerb::LineBy, x2: 40i64, y_num: 0i64, y_den: den as i64 },
        PathCmd { verb: PathVerb::LineTo, x2: (x2 + 20) as i64, y_num: y2 as i64, y_den: den as i64 },
        PathCmd { verb: PathVerb::MoveTo, x2: x2 as i64, y_num: y3 as i64, y_den: den as i64 },
        PathCmd { verb: PathVerb::LineTo, x2: x2 as i64, y_num: y4 as i64, y_den: den as i64 },
        PathCmd { verb: PathVerb::LineBy, x2: -15i64, y_num: 0i64, y_den: den as i64 },
        PathCmd { verb: PathVerb::LineBy, x2: 30i64, y_num: 0i64, y_den: den as i64 },
    ]
}

/// What the box-plot group of series `i` must hold: upper then lower
/// outlier markers on the center line, and the landmark path.
pub open spec fn box_plot_matches(rd: RenderData, i: int, bp: BoxPlot) -> bool {
    let q = rd.quartile_tuples@[i].1;
    let s = q.model@;
    let x = slot_center(i);
    let rmin_c = rd.y_axis_range.0 as int;
    let span_c = rd.y_axis_range.1 - rd.y_axis_range.0;
    let uo = uo_count(s) as int;
    let lo = lo_count(s) as int;
    &&& bp.outliers@.len() == uo + lo
    &&& forall|j: int|
        0 <= j < uo ==> #[trigger] bp.outliers@[j] == (OutlierMark {
            cx: x as i64,
            cy_num: y_num_of(2 * s[s.len() - uo + j], rmin_c, span_c) as i64,
            cy_den: span_c as i64,
            radius: OUTLIER_RADIUS,
        })
    &&& forall|j: int|
        uo <= j < uo + lo ==> #[trigger] bp.outliers@[j] == (OutlierMark {
            cx: x as i64,
            cy_num: y_num_of(2 * s[j - uo], rmin_c, span_c) as i64,
            cy_den: span_c as i64,
            radius: OUTLIER_RADIUS,
        })
    &&& bp.path@ == box_path_spec(
        2 * x,
        y_num_of(2 * q.max_before_upper_fence, rmin_c, span_c),
        y_num_of(2 * q.upper_median, rmin_c, span_c),
        y_num_of(q.median.halves as int, rmin_c, span_c),
        y_num_of(2 * q.lower_median, rmin_c, span_c),
        y_num_of(2 * q.min_before_lower_fence, rmin_c, span_c),
        span_c,
    )
}

/// Everything the scene owes to the processed chart data: the canvas size,
/// the style sheet, the axis polyline along the left and bottom edges, one
/// rotated label and one box-plot group per series, one label per tick,
/// and the title centered above the plot.
pub open spec fn scene_matches(rd: RenderData, scene: Scene) -> bool {
    let n = rd.quartile_tuples@.len() as int;
    let g = rd.gutter;
    let width = canvas_width(n);
    let height = canvas_height();
    let rmin_c = rd.y_axis_range.0 as int;
    let span_c = rd.y_axis_range.1 - rd.y_axis_range.0;
    let ic = rd.y_axis_interval as int;
    let ticks = rd.plan@.k_hi - rd.plan@.k_lo;
    &&& scene.width == width
    &&& scene.height == height
    &&& scene.styles@.len() == rd.styles@.len()
    &&& forall|i: int|
        0 <= i < rd.styles@.len() ==> #[trigger] scene.styles@[i]@ == rd.styles@[i]@
    &&& scene.axis@.len() == 3
    &&& scene.axis@[0] == ((g.left, g.top))
    &&& scene.axis@[1] == ((g.left, (g.top + Y_AXIS_HEIGHT) as i64))
    &&& scene.axis@[2] == (((width - g.right) as i64, (g.top + Y_AXIS_HEIGHT) as i64))
    &&& scene.x_labels@.len() == n
    &&& forall|i: int|
        0 <= i < n ==> {
            let l = #[trigger] scene.x_labels@[i];
            &&& l.text@ == rd.quartile_tuples@[i].0@
            &&& l.x == slot_center(i)
            &&& l.y == height - g.bottom + 15
        }
    &&& scene.y_labels@.len() == ticks + 1
    &&& forall|i: int|
        0 <= i <= ticks ==> {
            let t = #[trigger] scene.y_labels@[i];
            &&& t.value_c == rmin_c + i * ic
            &&& t.dps == rd.y_axis_dps
            &&& t.x == g.left - 10
            &&& t.y == height - g.bottom - (i * ic * Y_AXIS_HEIGHT) / span_c + 5
        }
    &&& scene.box_plots@.len() == n
    &&& forall|i: int| 0 <= i < n ==> box_plot_matches(rd, i, #[trigger] scene.box_plots@[i])
    &&& scene.title.text@ == rd.title@ + " ("@ + rd.units@ + ")"@
    &&& scene.title.x == width / 2
    &&& scene.title.y == g.top / 2
}

/// Builds the scene for the processed chart data: canvas, style sheet,
/// axis, labels, one box-plot group per series, and the title.
pub fn render_chart(rd: &RenderData) -> (scene: Scene)
    requires
        rd.wf(),
    ensures
        scene_matches(*rd, scene),
{
    let n = rd.quartile_tuples.len();
    let width = chart_width(n);
    let height = crate::layout::chart_height();
    let rmin = rd.y_axis_range.0;
    let rmax = rd.y_axis_range.1;
    let ic = rd.y_axis_interval;
    let ghost ticks = rd.plan@.k_hi - rd.plan@.k_lo;
    proof {
        crate::axis::lemma_plan_range(rd.plan@);
        assert(rd.y_axis_range.0 < rd.y_axis_range.1);
    }
    let span_c = rmax - rmin;
    proof {
        assert(span_c == ticks * ic);
        assert(ic * ticks == ticks * ic) by (nonlinear_arith);
        assert(0 < span_c <= 2 * crate::axis::AXIS_BOUND_C);
    }
    let mut styles: Vec<String> = Vec::new();
    let mut si: usize = 0;
    while si < rd.styles.len()
        invariant
            si <= rd.styles@.len(),
            styles@.len() == si,
            forall|i: int| 0 <= i < si ==> #[trigger] styles@[i]@ == rd.styles@[i]@,
        decreases rd.styles@.len() - si,
    {
        styles.push(rd.styles[si].clone());
        si += 1;
    }
    let mut axis: Vec<(i64, i64)> = Vec::new();
    axis.push((rd.gutter.left, rd.gutter.top));
    axis.push((rd.gutter.left, rd.gutter.top + Y_AXIS_HEIGHT));
    axis.push((width - rd.gutter.right, rd.gutter.top + Y_AXIS_HEIGHT));
    let mut x_labels: Vec<SeriesLabel> = Vec::new();
    for i in 0..n
        invariant
            n == rd.quartile_tuples@.len(),
            n <= MAX_SERIES,
            rd.gutter == crate::layout::chart_gutter(),
            height == canvas_height(),
            x_labels@.len() == i,
            forall|k: int|
                0 <= k < i ==> {
                    let l = #[trigger] x_labels@[k];
                    &&& l.text@ == rd.quartile_tuples@[k].0@
                    &&& l.x == slot_center(k)
                    &&& l.y == canvas_height() - crate::layout::GUTTER_BOTTOM + 15
                },
    {
        let label = SeriesLabel {
            text: rd.quartile_tuples[i].0.clone(),
            x: slot_center_x(i),
            y: height - rd.gutter.bottom + 15,
        };
        x_labels.push(label);
    }
    let tick_count_u = (span_c as u64) / (ic as u64);
    proof {
        vstd::arithmetic::div_mod::lemma_div_multiples_vanish(ticks, ic as int);
        assert(tick_count_u == ticks);
    }
    let tick_count = tick_count_u as usize;
    let mut y_labels: Vec<TickLabel> = Vec::new();
    for i in 0..(tick_count + 1)
        invariant
            tick_count == ticks,
            1 <= ticks <= 22,
            rd.wf(),
            span_c == rd.y_axis_range.1 - rd.y_axis_range.0,
            0 < span_c <= 2 * crate::axis::AXIS_BOUND_C,
            span_c == ticks * ic,
            ic == rd.y_axis_interval,
            rmin == rd.y_axis_range.0,
            height == canvas_height(),
            y_labels@.len() == i,
            forall|k: int|
                0 <= k < i ==> {
                    let t = #[trigger] y_labels@[k];
                    &&& t.value_c == rd.y_axis_range.0 + k * ic
                    &&& t.dps == rd.y_axis_dps
                    &&& t.x == rd.gutter.left - 10
                    &&& t.y == canvas_height() - rd.gutter.bottom - (k * ic * 400) / (
                    span_c as int) + 5
                },
    {
        proof {
            assert((i as int) * ic <= ticks * ic && 0 <= (i as int) * ic) by (nonlinear_arith)
                requires
                    0 <= i <= ticks,
                    ic > 0,
            {}
        }
        let value_c = rmin + (i as i64) * ic;
        let num = (i as i64) * ic * 400;
        let q = ((num as u64) / (span_c as u64)) as i64;
        proof {
            vstd::arithmetic::div_mod::lemma_div_is_ordered(
                num as int,
                span_c * 400,
                span_c as int,
            );
            vstd::arithmetic::div_mod::lemma_div_multiples_vanish(400, span_c as int);
            vstd::arithmetic::div_mod::lemma_div_pos_is_pos(num as int, span_c as int);
        }
        let label = TickLabel {
            value_c,
            dps: rd.y_axis_dps,
            x: rd.gutter.left - 10,
            y: height - rd.gutter.bottom - q + 5,
        };
        y_labels.push(label);
    }
    let mut box_plots: Vec<BoxPlot> = Vec::new();
    for i in 0..n
        invariant
            n == rd.quartile_tuples@.len(),
            n <= MAX_SERIES,
            rd.wf(),
            span_c == rd.y_axis_range.1 - rd.y_axis_range.0,
            0 < span_c <= 2 * crate::axis::AXIS_BOUND_C,
            rmin == rd.y_axis_range.0,
            box_plots@.len() == i,
            forall|k: int| 0 <= k < i ==> box_plot_matches(*rd, k, #[trigger] box_plots@[k]),
    {
        let pair = &rd.quartile_tuples[i];
        let q = &pair.1;
        let ghost s = q.model@;
        proof {
            crate::quartile::lemma_outlier_counts(s);
            crate::axis::lemma_plan_range(rd.plan@);
        }
        let x = slot_center_x(i);
        let mut marks: Vec<OutlierMark> = Vec::new();
        let n_uo = q.upper_outliers.len();
        for j in 0..n_uo
            invariant
                rd.wf(),
                q == rd.quartile_tuples@[i as int].1,
                i < rd.quartile_tuples@.len(),
                s == q.model@,
                n_uo == uo_count(s),
                n_uo == q.upper_outliers@.len(),
                n_uo <= s.len() && s.len() >= 3,
                x == slot_center(i as int),
                span_c == rd.y_axis_range.1 - rd.y_axis_range.0,
                0 < span_c <= 2 * crate::axis::AXIS_BOUND_C,
                rmin == rd.y_axis_range.0,
                marks@.len() == j,
                forall|k: int|
                    0 <= k < j ==> #[trigger] marks@[k] == (OutlierMark {
                        cx: x,
                        cy_num: y_num_of(
                            2 * s[s.len() - uo_count(s) + k],
                            rmin as int,
                            span_c as int,
                        ) as i64,
                        cy_den: span_c,
                        radius: OUTLIER_RADIUS,
                    }),
        {
            let v = q.upper_outliers[j];
            proof {
                assert(v == s[s.len() - uo_count(s) + j]);
                crate::axis::lemma_plan_range(rd.plan@);
            }
            let cy = value_to_y_num(2 * v, rmin, span_c);
            marks.push(OutlierMark { cx: x, cy_num: cy, cy_den: span_c, radius: rd.outlier_radius });
        }
        let n_lo = q.lower_outliers.len();
        for j in 0..n_lo
            invariant
                rd.wf(),
                q == rd.quartile_tuples@[i as int].1,
                i < rd.quartile_tuples@.len(),
                s == q.model@,
                n_uo == uo_count(s),
                n_lo == lo_count(s),
                n_lo == q.lower_outliers@.len(),
                n_uo + n_lo <= s.len() && s.len() >= 3,
                x == slot_center(i as int),
                span_c == rd.y_axis_range.1 - rd.y_axis_range.0,
                0 < span_c <= 2 * crate::axis::AXIS_BOUND_C,
                rmin == rd.y_axis_range.0,
                marks@.len() == n_uo + j,
                forall|k: int|
                    0 <= k < n_uo ==> #[trigger] marks@[k] == (OutlierMark {
                        cx: x,
                        cy_num: y_num_of(
                            2 * s[s.len() - uo_count(s) + k],
                            rmin as int,
                            span_c as int,
                        ) as i64,
                        cy_den: span_c,
                        radius: OUTLIER_RADIUS,
                    }),
                forall|k: int|
                    n_uo <= k < n_uo + j ==> #[trigger] marks@[k] == (OutlierMark {
                        cx: x,
                        cy_num: y_num_of(2 * s[k - n_uo], rmin as int, span_c as int) as i64,
                        cy_den: span_c,
                        radius: OUTLIER_RADIUS,
                    }),
        {
            let v = q.lower_outliers[j];
            proof {
                crate::quartile::lemma_outlier_counts(s);
                assert(v == s[j as int]);
                crate::axis::lemma_plan_range(rd.plan@);
            }
            let cy = value_to_y_num(2 * v, rmin, span_c);
            marks.push(OutlierMark { cx: x, cy_num: cy, cy_den: span_c, radius: rd.outlier_radius });
        }
        proof {
            crate::quartile::lemma_outlier_counts(s);
        }
        let y0 = value_to_y_num(2 * q.max_before_upper_fence, rmin, span_c);
        let y1 = value_to_y_num(2 * q.upper_median, rmin, span_c);
        let y2 = value_to_y_num(q.median.halves, rmin, span_c);
        let y3 = value_to_y_num(2 * q.lower_median, rmin, span_c);
        let y4 = value_to_y_num(2 * q.min_before_lower_fence, rmin, span_c);
        let x2 = 2 * x;
        let path: Vec<PathCmd> = vec![
            PathCmd { verb: PathVerb::MoveTo, x2: x2 - 15, y_num: y0, y_den: span_c },
            PathCmd { verb: PathVerb::LineBy, x2: 30, y_num: 0, y_den: span_c },
            PathCmd { verb: PathVerb::MoveBy, x2: -15, y_num: 0, y_den: span_c },
            PathCmd { verb: PathVerb::LineTo, x2, y_num: y1, y_den: span_c },
            PathCmd { verb: PathVerb::MoveTo, x2: x2 - 20, y_num: y2, y_den: span_c },
            PathCmd { verb: PathVerb::LineTo, x2: x2 - 20, y_num: y1, y_den: span_c },
            PathCmd { verb: PathVerb::LineBy, x2: 40, y_num: 0, y_den: span_c },
            PathCmd { verb: PathVerb::LineTo, x2: x2 + 20, y_num: y2, y_den: span_c },
            PathCmd { verb: PathVerb::LineBy, x2: -40, y_num: 0, y_den: span_c },
            PathCmd { verb: PathVerb::LineTo, x2: x2 - 20, y_num: y3, y_den: span_c },
            PathCmd { verb: PathVerb::LineBy, x2: 40, y_num: 0, y_den: span_c },
            PathCmd { verb: PathVerb::LineTo, x2: x2 + 20, y_num: y2, y_den: span_c },
            PathCmd { verb: PathVerb::MoveTo, x2, y_num: y3, y_den: span_c },
            PathCmd { verb: PathVerb::LineTo, x2, y_num: y4, y_den: span_c },
            PathCmd { verb: PathVerb::LineBy, x2: -15, y_num: 0, y_den: span_c },
            PathCmd { verb: PathVerb::LineBy, x2: 30, y_num: 0, y_den: span_c },
        ];
        proof {
            assert(path@ =~= box_path_spec(
                2 * slot_center(i as int),
                y_num_of(2 * q.max_before_upper_fence, rmin as int, span_c as int),
                y_num_of(2 * q.upper_median, rmin as int, span_c as int),
                y_num_of(q.median.halves as int, rmin as int, span_c as int),
                y_num_of(2 * q.lower_median, rmin as int, span_c as int),
                y_num_of(2 * q.min_before_lower_fence, rmin as int, span_c as int),
                span_c as int,
            ));
        }
        box_plots.push(BoxPlot { outliers: marks, path });
    }
    let mut title_text = rd.title.clone();
    title_text.append(" (");
    title_text.append(rd.units.as_str());
    title_text.append(")");
    let title = TitleLabel { text: title_text, x: ((width as u64) / 2) as i64, y: rd.gutter.top / 2 };
    Scene { width, height, styles, axis, x_labels, y_labels, box_plots, title }
}

/// A one-series chart with no outliers yields a scene with exactly one
/// box-plot group, no outlier markers in it, and the single continuous
/// sixteen-command whisker/box path.
pub proof fn lemma_single_series_scene(rd: RenderData, scene: Scene)
    requires
        rd.wf(),
        scene_matches(rd, scene),
        rd.quartile_tuples@.len() == 1,
        lo_count(rd.quartile_tuples@[0].1.model@) == 0,
        uo_count(rd.quartile_tuples@[0].1.model@) == 0,
    ensures
        scene.box_plots@.len() == 1,
        scene.box_plots@[0].outliers@.len() == 0,
        scene.box_plots@[0].path@.len() == 16,
{
    assert(box_plot_matches(rd, 0, scene.box_plots@[0]));
}

} // verus!
