//! Statistics and geometry for box-and-whisker charts.
//!
//! Sample values are whole `i64` units; every derived quantity is exact:
//! medians and fences are kept in half-units, axis quantities in
//! hundredths of a unit, and pixel coordinates as integer fractions.

pub mod axis;
pub mod layout;
pub mod quartile;
pub mod scene;
pub mod sorting;

use quartile::Quartile;
use vstd::prelude::*;

verus! {

/// Why a chart cannot be produced.
#[derive(Clone, Copy, Debug, PartialEq, Eq, Structural)]
pub enum ChartError {
    /// A series has fewer than three values, or the chart has no series at
    /// all: no quartile range can be computed.
    InsufficientData,
}

impl ChartError {
    /// A human-readable description of the error.
    pub fn message(&self) -> (r: &'static str)
        ensures
            r@ == "Minimum of 3 values needed for a quartile range"@,
    {
        "Minimum of 3 values needed for a quartile range"
    }
}

/// A plain logger for the chart tool; the surrounding program decides where
/// its output goes.
pub struct BoxPlotChartLogger {}

impl BoxPlotChartLogger {
    pub fn new() -> BoxPlotChartLogger {
        BoxPlotChartLogger {  }
    }
}

/// Largest magnitude a sample value may have.  Keeps every derived
/// quantity (fences in half-units, axis bounds in hundredths, pixel
/// numerators) inside `i64`.
pub const MAX_ABS_VALUE: i64 = 1_000_000_000_000;

/// All sample values of a series are within the supported magnitude.
pub open spec fn in_bounds_seq(s: Seq<i64>) -> bool {
    forall|i: int| 0 <= i < s.len() ==> -MAX_ABS_VALUE <= #[trigger] s[i] <= MAX_ABS_VALUE
}

/// One named series of sample values.
pub struct ItemData {
    pub key: String,
    pub values: Vec<i64>,
}

/// The parsed chart input: a title, the unit of the values, and the ordered
/// series.
pub struct ChartData {
    pub title: String,
    pub units: String,
    pub data: Vec<ItemData>,
}

/// The least sample value of one series.
pub open spec fn series_min(it: ItemData) -> int {
    crate::sorting::sorted_model(it.values@).first() as int
}

/// The greatest sample value of one series.
pub open spec fn series_max(it: ItemData) -> int {
    crate::sorting::sorted_model(it.values@).last() as int
}

/// The least sample value over all series.
pub open spec fn min_all(data: Seq<ItemData>) -> int
    decreases data.len(),
{
    if data.len() <= 1 {
        series_min(data[0])
    } else {
        let m = min_all(data.drop_last());
        let v = series_min(data.last());
        if v < m {
            v
        } else {
            m
        }
    }
}

/// The greatest sample value over all series.
pub open spec fn max_all(data: Seq<ItemData>) -> int
    decreases data.len(),
{
    if data.len() <= 1 {
        series_max(data[0])
    } else {
        let m = max_all(data.drop_last());
        let v = series_max(data.last());
        if v > m {
            v
        } else {
            m
        }
    }
}

/// The fixed style sheet of every chart, as rule texts.
pub open spec fn style_sheet() -> Seq<Seq<char>> {
    seq![
        ".box-plot{fill:none;stroke:rgb(0,0,0);stroke-width:1;}"@,
        ".outlier{fill:none;stroke:rgb(0,0,0);stroke-width:1;}"@,
        ".axis{fill:none;stroke:rgb(0,0,0);stroke-width:1;}"@,
        ".labels{fill:rgb(0,0,0);font-size:10;font-family:Arial}"@,
        ".y-labels{text-anchor:end;}"@,
        ".title{font-family:Arial;font-size:12;text-anchor:middle;}"@,
    ]
}

fn style_sheet_vec() -> (styles: Vec<String>)
    ensures
        styles@.len() == 6,
        forall|i: int| 0 <= i < 6 ==> #[trigger] styles@[i]@ == style_sheet()[i],
{
    let mut styles: Vec<String> = Vec::new();
    styles.push(".box-plot{fill:none;stroke:rgb(0,0,0);stroke-width:1;}".to_owned());
    styles.push(".outlier{fill:none;stroke:rgb(0,0,0);stroke-width:1;}".to_owned());
    styles.push(".axis{fill:none;stroke:rgb(0,0,0);stroke-width:1;}".to_owned());
    styles.push(".labels{fill:rgb(0,0,0);font-size:10;font-family:Arial}".to_owned());
    styles.push(".y-labels{text-anchor:end;}".to_owned());
    styles.push(".title{font-family:Arial;font-size:12;text-anchor:middle;}".to_owned());
    styles
}

/// Everything the scene builder needs: the chart text, the planned axis,
/// the fixed geometry constants, and one quartile summary per series in
/// input order.
pub struct RenderData {
    pub title: String,
    pub units: String,
    pub y_axis_height: i64,
    /// Snapped plotted range, in centi-units.
    pub y_axis_range: (i64, i64),
    /// Tick interval, in centi-units.
    pub y_axis_interval: i64,
    /// Digits after the decimal point of a tick label.
    pub y_axis_dps: u32,
    pub gutter: crate::layout::Gutter,
    pub box_plot_width: i64,
    pub outlier_radius: i64,
    pub styles: Vec<String>,
    pub quartile_tuples: Vec<(String, Quartile)>,
    pub plan: Ghost<crate::axis::AxisPlan>,
}

impl RenderData {
    /// The geometry constants have their fixed values, the axis fields agree
    /// with a well-formed plan, every series has a well-formed summary, and
    /// the snapped range covers every sample value.
    pub open spec fn wf(self) -> bool {
        &&& self.plan@.wf()
        &&& self.y_axis_interval == self.plan@.interval_c
        &&& self.y_axis_dps == self.plan@.dps
        &&& self.y_axis_range.0 == self.plan@.range_min_c()
        &&& self.y_axis_range.1 == self.plan@.range_max_c()
        &&& self.y_axis_height == crate::layout::Y_AXIS_HEIGHT
        &&& self.gutter == crate::layout::chart_gutter()
        &&& self.box_plot_width == crate::layout::BOX_PLOT_WIDTH
        &&& self.outlier_radius == crate::layout::OUTLIER_RADIUS
        &&& self.styles@.len() == 6
        &&& self.quartile_tuples@.len() <= crate::layout::MAX_SERIES
        &&& forall|i: int|
            0 <= i < self.quartile_tuples@.len() ==> (#[trigger] self.quartile_tuples@[i]).1.wf()
        &&& forall|i: int|
            0 <= i < self.quartile_tuples@.len() ==> self.y_axis_range.0 <= 100 * (
            #[trigger] self.quartile_tuples@[i]).1.model@.first() && 100 * self.quartile_tuples@[i].1.model@.last()
                <= self.y_axis_range.1
    }
}

/// Reduces every series to its quartile summary, plans the axis over the
/// combined range, and fixes the chart geometry.  Fails exactly when there
/// is no series or a series has fewer than three values.
pub fn process_chart_data(cd: &ChartData) -> (r: Result<RenderData, ChartError>)
    requires
        cd.data@.len() <= crate::layout::MAX_SERIES,
        forall|i: int| 0 <= i < cd.data@.len() ==> in_bounds_seq(#[trigger] cd.data@[i].values@),
    ensures
        match r {
            Result::Err(e) => {
                &&& e == ChartError::InsufficientData
                &&& cd.data@.len() == 0 || exists|i: int|
                    0 <= i < cd.data@.len() && (#[trigger] cd.data@[i].values@).len() < 3
            },
            Result::Ok(rd) => {
                &&& rd.wf()
                &&& cd.data@.len() >= 1
                &&& forall|i: int|
                    0 <= i < cd.data@.len() ==> (#[trigger] cd.data@[i].values@).len() >= 3
                &&& rd.title@ == cd.title@
                &&& rd.units@ == cd.units@
                &&& rd.quartile_tuples@.len() == cd.data@.len()
                &&& forall|i: int|
                    0 <= i < cd.data@.len() ==> (#[trigger] rd.quartile_tuples@[i]).0@
                        == cd.data@[i].key@ && rd.quartile_tuples@[i].1.model@
                        == crate::sorting::sorted_model(cd.data@[i].values@)
                &&& forall|i: int| 0 <= i < 6 ==> #[trigger] rd.styles@[i]@ == style_sheet()[i]
                &&& crate::axis::plan_matches(min_all(cd.data@), max_all(cd.data@), rd.plan@)
            },
        },
{
    let n = cd.data.len();
    if n == 0 {
        return Err(ChartError::InsufficientData);
    }
    let mut quartile_tuples: Vec<(String, Quartile)> = Vec::new();
    let mut min_v: i64 = 0;
    let mut max_v: i64 = 0;
    for idx in 0..n
        invariant
            n == cd.data@.len(),
            1 <= n <= crate::layout::MAX_SERIES,
            forall|i: int| 0 <= i < n ==> in_bounds_seq(#[trigger] cd.data@[i].values@),
            quartile_tuples@.len() == idx,
            forall|i: int|
                0 <= i < idx ==> (#[trigger] cd.data@[i].values@).len() >= 3,
            forall|i: int|
                0 <= i < idx ==> (#[trigger] quartile_tuples@[i]).0@ == cd.data@[i].key@
                    && quartile_tuples@[i].1.wf() && quartile_tuples@[i].1.model@
                    == crate::sorting::sorted_model(cd.data@[i].values@),
            idx >= 1 ==> min_v == min_all(cd.data@.take(idx as int)) && max_v == max_all(
                cd.data@.take(idx as int),
            ),
            idx >= 1 ==> -MAX_ABS_VALUE <= min_v <= max_v <= MAX_ABS_VALUE,
            forall|i: int|
                0 <= i < idx ==> min_v <= series_min(#[trigger] cd.data@[i]) && series_max(
                    cd.data@[i],
                ) <= max_v,
    {
        let item = &cd.data[idx];
        let q = match Quartile::new(item.values.as_slice()) {
            Ok(q) => q,
            Err(e) => {
                return Err(e);
            },
        };
        let lo = q.min_value();
        let hi = q.max_value();
        proof {
            crate::sorting::lemma_sorted_model_ensures(item.values@);
            assert(q.model@.len() >= 3);
            assert(lo == series_min(cd.data@[idx as int]));
            assert(hi == series_max(cd.data@[idx as int]));
            assert(lo <= hi);
        }
        if idx == 0 {
            min_v = lo;
            max_v = hi;
        } else {
            if lo < min_v {
                min_v = lo;
            }
            if hi > max_v {
                max_v = hi;
            }
        }
        quartile_tuples.push((item.key.clone(), q));
        proof {
            let taken = cd.data@.take(idx + 1);
            assert(taken.drop_last() =~= cd.data@.take(idx as int));
            assert(taken.last() == cd.data@[idx as int]);
            assert(taken[0] == cd.data@[0]);
        }
    }
    proof {
        assert(cd.data@.take(n as int) =~= cd.data@);
    }
    let plan = crate::axis::plan_axis(min_v, max_v);
    let ghost plan_snapshot = plan;
    let rmin = plan.k_lo * plan.interval_c;
    let rmax = plan.k_hi * plan.interval_c;
    let styles = style_sheet_vec();
    let rd = RenderData {
        title: cd.title.clone(),
        units: cd.units.clone(),
        y_axis_height: crate::layout::Y_AXIS_HEIGHT,
        y_axis_range: (rmin, rmax),
        y_axis_interval: plan.interval_c,
        y_axis_dps: plan.dps,
        gutter: crate::layout::gutter(),
        box_plot_width: crate::layout::BOX_PLOT_WIDTH,
        outlier_radius: crate::layout::OUTLIER_RADIUS,
        styles,
        quartile_tuples,
        plan: Ghost(plan_snapshot),
    };
    Ok(rd)
}

} // verus!
