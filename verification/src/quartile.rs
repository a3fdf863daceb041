//! The quartile/outlier statistics engine: reduces one sample set to the
//! five box-plot landmarks plus outlier lists.
//!
//! Sample values are whole units (`i64`).  Medians and fences can fall on a
//! half, so derived statistics are carried in half-units by [`Num`]; a
//! `Num` with `halves == h` stands for the value `h / 2`.

use crate::in_bounds_seq;
use crate::sorting::{sorted, sorted_model};
use crate::ChartError;
use crate::MAX_ABS_VALUE;
use vstd::prelude::*;

verus! {

/// An exact statistic value in half-units: the value is `halves / 2`.
#[derive(Clone, Copy, Debug, PartialEq, Eq, Structural)]
pub struct Num {
    pub halves: i64,
}

impl Num {
    /// The statistic equal to the whole value `v`.
    pub fn from_value(v: i64) -> (r: Num)
        requires
            -MAX_ABS_VALUE <= v <= MAX_ABS_VALUE,
        ensures
            r.halves == 2 * v,
    {
        Num { halves: 2 * v }
    }
}

/// Position of the lower median in the ascending sample sequence.
pub open spec fn lower_median_idx(s: Seq<i64>) -> int {
    (s.len() as int / 2) / 2
}

/// Position of the upper median in the ascending sample sequence.  This is
/// the specific quartile convention of this design, not the common
/// median-of-halves method.
pub open spec fn upper_median_idx(s: Seq<i64>) -> int {
    let mid = s.len() as int / 2;
    if s.len() % 2 == 0 {
        mid + mid / 2
    } else {
        mid + 1 + mid / 2
    }
}

pub open spec fn lower_median_of(s: Seq<i64>) -> int {
    s[lower_median_idx(s)] as int
}

pub open spec fn upper_median_of(s: Seq<i64>) -> int {
    s[upper_median_idx(s)] as int
}

/// Twice the median: the midpoint of the two central values for an even
/// count, the central value itself for an odd count.
pub open spec fn median2_of(s: Seq<i64>) -> int {
    let mid = s.len() as int / 2;
    if s.len() % 2 == 0 {
        s[mid - 1] + s[mid]
    } else {
        2 * s[mid]
    }
}

/// The inter-quartile range (a whole number of units).
pub open spec fn iqr_of(s: Seq<i64>) -> int {
    upper_median_of(s) - lower_median_of(s)
}

/// Twice the lower fence: `lower_median - 1.5 * iqr`, in half-units.
pub open spec fn lower_fence2_of(s: Seq<i64>) -> int {
    2 * lower_median_of(s) - 3 * iqr_of(s)
}

/// Twice the upper fence: `upper_median + 1.5 * iqr`, in half-units.
pub open spec fn upper_fence2_of(s: Seq<i64>) -> int {
    2 * upper_median_of(s) + 3 * iqr_of(s)
}

/// Length of the leading run of values strictly below the fence `f2 / 2`.
pub open spec fn count_below_prefix(s: Seq<i64>, f2: int) -> nat
    decreases s.len(),
{
    if s.len() == 0 {
        0
    } else if 2 * s[0] < f2 {
        1 + count_below_prefix(s.drop_first(), f2)
    } else {
        0
    }
}

/// Length of the trailing run of values strictly above the fence `f2 / 2`.
pub open spec fn count_above_suffix(s: Seq<i64>, f2: int) -> nat
    decreases s.len(),
{
    if s.len() == 0 {
        0
    } else if 2 * s.last() > f2 {
        1 + count_above_suffix(s.drop_last(), f2)
    } else {
        0
    }
}

/// How many values of the ascending sequence are lower outliers.
pub open spec fn lo_count(s: Seq<i64>) -> nat {
    count_below_prefix(s, lower_fence2_of(s))
}

/// How many values of the ascending sequence are upper outliers.
pub open spec fn uo_count(s: Seq<i64>) -> nat {
    count_above_suffix(s, upper_fence2_of(s))
}

/// The body of the ascending sequence: everything between the outlier runs,
/// drawn as the whiskers and box.
pub open spec fn body_of(s: Seq<i64>) -> Seq<i64> {
    s.subrange(lo_count(s) as int, s.len() - uo_count(s))
}

pub proof fn lemma_prefix_count_props(s: Seq<i64>, f2: int)
    ensures
        count_below_prefix(s, f2) <= s.len(),
        forall|k: int| 0 <= k < count_below_prefix(s, f2) ==> 2 * #[trigger] s[k] < f2,
        count_below_prefix(s, f2) < s.len() ==> 2 * s[count_below_prefix(s, f2) as int] >= f2,
    decreases s.len(),
{
    if s.len() == 0 {
    } else {
        lemma_prefix_count_props(s.drop_first(), f2);
        let c = count_below_prefix(s, f2);
        if 2 * s[0] < f2 {
            let c1 = count_below_prefix(s.drop_first(), f2);
            assert(c == 1 + c1);
            assert forall|k: int| 0 <= k < c implies 2 * #[trigger] s[k] < f2 by {
                if k > 0 {
                    assert(s[k] == s.drop_first()[k - 1]);
                }
            }
            if c < s.len() {
                assert(s[c as int] == s.drop_first()[c1 as int]);
            }
        }
    }
}

pub proof fn lemma_suffix_count_props(s: Seq<i64>, f2: int)
    ensures
        count_above_suffix(s, f2) <= s.len(),
        forall|k: int|
            s.len() - count_above_suffix(s, f2) <= k < s.len() ==> 2 * #[trigger] s[k] > f2,
        count_above_suffix(s, f2) < s.len() ==> 2 * s[s.len() - count_above_suffix(s, f2) - 1]
            <= f2,
    decreases s.len(),
{
    if s.len() == 0 {
    } else {
        lemma_suffix_count_props(s.drop_last(), f2);
        let c = count_above_suffix(s, f2);
        if 2 * s.last() > f2 {
            let c1 = count_above_suffix(s.drop_last(), f2);
            assert(c == 1 + c1);
            assert forall|k: int| s.len() - c <= k < s.len() implies 2 * #[trigger] s[k] > f2 by {
                if k < s.len() - 1 {
                    assert(s[k] == s.drop_last()[k]);
                }
            }
            if c < s.len() {
                assert(s[s.len() - c - 1] == s.drop_last()[s.drop_last().len() - c1 - 1]);
            }
        }
    }
}

/// One sample set reduced to its box-plot landmarks and outlier runs.
///
/// `model` is the ascending rearrangement of the input; every field is an
/// exact function of it, as [`Quartile::wf`] states.
pub struct Quartile {
    pub lower_outliers: Vec<i64>,
    pub lower_fence: Num,
    pub min_before_lower_fence: i64,
    pub lower_median: i64,
    pub median: Num,
    pub upper_median: i64,
    pub max_before_upper_fence: i64,
    pub upper_fence: Num,
    pub upper_outliers: Vec<i64>,
    pub iqr: i64,
    pub model: Ghost<Seq<i64>>,
}

impl Quartile {
    /// Every field equals the landmark that its name promises, as a function
    /// of the ascending sample sequence `model`.
    pub open spec fn wf(self) -> bool {
        let s = self.model@;
        &&& s.len() >= 3
        &&& sorted(s)
        &&& in_bounds_seq(s)
        &&& self.lower_median == lower_median_of(s)
        &&& self.median.halves == median2_of(s)
        &&& self.upper_median == upper_median_of(s)
        &&& self.iqr == iqr_of(s)
        &&& self.lower_fence.halves == lower_fence2_of(s)
        &&& self.upper_fence.halves == upper_fence2_of(s)
        &&& self.lower_outliers@ == s.take(lo_count(s) as int)
        &&& self.upper_outliers@ == s.skip(s.len() - uo_count(s))
        &&& self.min_before_lower_fence == s[lo_count(s) as int]
        &&& self.max_before_upper_fence == s[s.len() - uo_count(s) - 1]
    }

    /// Reduces a sample set to its quartile summary.  Fails exactly when
    /// fewer than three values are given; otherwise every landmark is the
    /// stated function of the ascending rearrangement of the input.
    pub fn new(values: &[i64]) -> (r: Result<Quartile, ChartError>)
        requires
            in_bounds_seq(values@),
        ensures
            match r {
                Result::Err(e) => values@.len() < 3 && e == ChartError::InsufficientData,
                Result::Ok(q) => {
                    &&& values@.len() >= 3
                    &&& q.wf()
                    &&& q.model@ == sorted_model(values@)
                },
            },
    {
        if values.len() < 3 {
            return Err(ChartError::InsufficientData);
        }
        let arr = crate::sorting::sort_values(values);
        proof {
            crate::sorting::lemma_sorted_model_ensures(values@);
            assert forall|i: int| 0 <= i < arr@.len() implies -MAX_ABS_VALUE <= #[trigger] arr@[i]
                <= MAX_ABS_VALUE by {
                assert(arr@.contains(arr@[i]));
                assert(values@.contains(arr@[i]));
                let j = choose|j: int| 0 <= j < values@.len() && values@[j] == arr@[i];
                assert(-MAX_ABS_VALUE <= values@[j] <= MAX_ABS_VALUE);
            }
            lemma_outlier_counts(arr@);
        }
        let ghost s = arr@;
        let len = arr.len();
        let midpoint = len / 2;
        proof {
            assert(len == 2 * (len as int / 2) + len as int % 2 && 0 <= len as int % 2 < 2);
            assert(midpoint == 2 * (midpoint as int / 2) + midpoint as int % 2 && 0 <= midpoint
                as int % 2 < 2);
        }
        let median: Num;
        let upper_median: i64;
        if len % 2 == 0 {
            median = Num { halves: arr[midpoint - 1] + arr[midpoint] };
            upper_median = arr[midpoint + midpoint / 2];
        } else {
            median = Num { halves: 2 * arr[midpoint] };
            upper_median = arr[midpoint + 1 + midpoint / 2];
        }
        let lower_median = arr[midpoint / 2];
        let iqr = upper_median - lower_median;
        let lf2 = 2 * lower_median - 3 * iqr;
        let uf2 = 2 * upper_median + 3 * iqr;
        proof {
            assert(lf2 == lower_fence2_of(s));
            assert(uf2 == upper_fence2_of(s));
            crate::quartile::lemma_prefix_count_props(s, lf2 as int);
            crate::quartile::lemma_suffix_count_props(s, uf2 as int);
        }
        let mut lower_outliers: Vec<i64> = Vec::new();
        let mut i: usize = 0;
        while i < len && 2 * arr[i] < lf2
            invariant
                i <= len,
                len == s.len(),
                arr@ == s,
                in_bounds_seq(s),
                -8 * MAX_ABS_VALUE <= lf2 <= 8 * MAX_ABS_VALUE,
                forall|k: int| 0 <= k < i ==> 2 * #[trigger] s[k] < lf2,
                lower_outliers@ == s.take(i as int),
            decreases len - i,
        {
            lower_outliers.push(arr[i]);
            i += 1;
            proof {
                assert(s.take(i as int) =~= s.take(i - 1).push(s[i - 1]));
            }
        }
        proof {
            assert(i == lo_count(s)) by {
                if i < lo_count(s) {
                    assert(2 * s[i as int] < lf2);
                }
                if lo_count(s) < i {
                    assert(2 * s[lo_count(s) as int] < lf2);
                    assert(2 * s[lo_count(s) as int] >= lf2);
                }
            }
        }
        let mut j: usize = len;
        while j > 0 && 2 * arr[j - 1] > uf2
            invariant
                j <= len,
                len == s.len(),
                arr@ == s,
                in_bounds_seq(s),
                -8 * MAX_ABS_VALUE <= uf2 <= 8 * MAX_ABS_VALUE,
                forall|k: int| j <= k < len ==> 2 * #[trigger] s[k] > uf2,
            decreases j,
        {
            j -= 1;
        }
        proof {
            assert(len - j == uo_count(s)) by {
                if len - j < uo_count(s) {
                    assert(j >= 1);
                    assert(len - uo_count(s) <= j - 1 < len);
                    assert(2 * s[j - 1] > uf2);
                    assert(2 * s[j - 1] <= uf2);
                }
                if uo_count(s) < len - j {
                    assert(2 * s[len - uo_count(s) - 1] > uf2);
                    assert(2 * s[len - uo_count(s) - 1] <= uf2);
                }
            }
        }
        let mut upper_outliers: Vec<i64> = Vec::new();
        let mut k: usize = j;
        while k < len
            invariant
                j <= k <= len,
                len == s.len(),
                arr@ == s,
                upper_outliers@ == s.subrange(j as int, k as int),
            decreases len - k,
        {
            upper_outliers.push(arr[k]);
            k += 1;
            proof {
                assert(s.subrange(j as int, k as int) =~= s.subrange(j as int, k - 1).push(
                    s[k - 1],
                ));
            }
        }
        proof {
            assert(upper_outliers@ =~= s.skip(s.len() - uo_count(s)));
            assert(lo_count(s) + uo_count(s) <= len - 1);
        }
        let min_before_lower_fence = arr[i];
        let max_before_upper_fence = arr[len - (len - j) - 1];
        Ok(
            Quartile {
                lower_outliers,
                lower_fence: Num { halves: lf2 },
                min_before_lower_fence,
                lower_median,
                median,
                upper_median,
                max_before_upper_fence,
                upper_fence: Num { halves: uf2 },
                upper_outliers,
                iqr,
                model: Ghost(s),
            },
        )
    }

    pub fn lower_outliers(&self) -> (r: Vec<i64>)
        requires
            self.wf(),
        ensures
            r@ == self.model@.take(lo_count(self.model@) as int),
    {
        self.lower_outliers.clone()
    }

    pub fn lower_fence(&self) -> (r: Num)
        requires
            self.wf(),
        ensures
            r.halves == lower_fence2_of(self.model@),
    {
        self.lower_fence
    }

    pub fn min_before_lower_fence(&self) -> (r: i64)
        requires
            self.wf(),
        ensures
            r == self.model@[lo_count(self.model@) as int],
    {
        self.min_before_lower_fence
    }

    pub fn lower_median(&self) -> (r: i64)
        requires
            self.wf(),
        ensures
            r == lower_median_of(self.model@),
    {
        self.lower_median
    }

    pub fn median(&self) -> (r: Num)
        requires
            self.wf(),
        ensures
            r.halves == median2_of(self.model@),
    {
        self.median
    }

    pub fn upper_median(&self) -> (r: i64)
        requires
            self.wf(),
        ensures
            r == upper_median_of(self.model@),
    {
        self.upper_median
    }

    pub fn max_before_upper_fence(&self) -> (r: i64)
        requires
            self.wf(),
        ensures
            r == self.model@[self.model@.len() - uo_count(self.model@) - 1],
    {
        self.max_before_upper_fence
    }

    pub fn upper_fence(&self) -> (r: Num)
        requires
            self.wf(),
        ensures
            r.halves == upper_fence2_of(self.model@),
    {
        self.upper_fence
    }

    pub fn iqr(&self) -> (r: i64)
        requires
            self.wf(),
        ensures
            r == iqr_of(self.model@),
    {
        self.iqr
    }

    pub fn upper_outliers(&self) -> (r: Vec<i64>)
        requires
            self.wf(),
        ensures
            r@ == self.model@.skip(self.model@.len() - uo_count(self.model@)),
    {
        self.upper_outliers.clone()
    }

    /// The least sample value: the first lower outlier when there is one,
    /// otherwise the lower whisker end.
    pub fn min_value(&self) -> (r: i64)
        requires
            self.wf(),
        ensures
            r == self.model@.first(),
    {
        proof {
            lemma_outlier_counts(self.model@);
        }
        if self.lower_outliers.is_empty() {
            self.min_before_lower_fence
        } else {
            self.lower_outliers[0]
        }
    }

    /// The greatest sample value: the last upper outlier when there is one,
    /// otherwise the upper whisker end.
    pub fn max_value(&self) -> (r: i64)
        requires
            self.wf(),
        ensures
            r == self.model@.last(),
    {
        proof {
            lemma_outlier_counts(self.model@);
        }
        if self.upper_outliers.is_empty() {
            self.max_before_upper_fence
        } else {
            self.upper_outliers[self.upper_outliers.len() - 1]
        }
    }
}

/// The medians are ordered: the lower median never exceeds the median, and
/// the median never exceeds the upper median.
pub proof fn lemma_median_between(s: Seq<i64>)
    requires
        sorted(s),
        s.len() >= 3,
    ensures
        2 * lower_median_of(s) <= median2_of(s),
        median2_of(s) <= 2 * upper_median_of(s),
{
    let n = s.len() as int;
    let mid = n / 2;
    assert(n == 2 * mid + n % 2 && 0 <= n % 2 < 2);
    assert(mid == 2 * (mid / 2) + mid % 2 && 0 <= mid % 2 < 2);
    let li = lower_median_idx(s);
    let ui = upper_median_idx(s);
    if n % 2 == 0 {
        assert(li <= mid - 1 < mid <= ui < n);
        assert(s[li] <= s[mid - 1] && s[li] <= s[mid]);
        assert(s[mid - 1] <= s[ui] && s[mid] <= s[ui]);
    } else {
        assert(li <= mid < ui < n);
        assert(s[li] <= s[mid] && s[mid] <= s[ui]);
    }
}

/// The medians of any summary are ordered:
/// `lower_median <= median <= upper_median`.
pub proof fn lemma_quartile_median_between(q: Quartile)
    requires
        q.wf(),
    ensures
        2 * q.lower_median <= q.median.halves <= 2 * q.upper_median,
{
    lemma_median_between(q.model@);
}

/// Both whisker ends are values of the original sample set.
pub proof fn lemma_whisker_ends_membership(q: Quartile, vs: Seq<i64>)
    requires
        q.wf(),
        q.model@ == sorted_model(vs),
    ensures
        vs.contains(q.min_before_lower_fence),
        vs.contains(q.max_before_upper_fence),
{
    let s = q.model@;
    lemma_outlier_counts(s);
    crate::sorting::lemma_sorted_model_index_membership(vs, lo_count(s) as int);
    crate::sorting::lemma_sorted_model_index_membership(vs, s.len() - uo_count(s) - 1);
}

/// Every lower outlier is strictly below the lower fence, every upper
/// outlier strictly above the upper fence, and outliers and body together
/// are, as a multiset, exactly the original sample set.
pub proof fn lemma_outlier_partition(q: Quartile, vs: Seq<i64>)
    requires
        q.wf(),
        q.model@ == sorted_model(vs),
    ensures
        forall|k: int|
            0 <= k < q.lower_outliers@.len() ==> 2 * #[trigger] q.lower_outliers@[k]
                < q.lower_fence.halves,
        forall|k: int|
            0 <= k < q.upper_outliers@.len() ==> 2 * #[trigger] q.upper_outliers@[k]
                > q.upper_fence.halves,
        q.lower_outliers@.to_multiset().add(body_of(q.model@).to_multiset()).add(
            q.upper_outliers@.to_multiset(),
        ) == vs.to_multiset(),
{
    let s = q.model@;
    lemma_outlier_counts(s);
    lemma_prefix_count_props(s, lower_fence2_of(s));
    lemma_suffix_count_props(s, upper_fence2_of(s));
    let lo = lo_count(s) as int;
    let hi = s.len() - uo_count(s);
    assert forall|k: int| 0 <= k < q.lower_outliers@.len() implies 2 * #[trigger] q.lower_outliers@[k]
        < q.lower_fence.halves by {
        assert(q.lower_outliers@[k] == s[k]);
    }
    assert forall|k: int| 0 <= k < q.upper_outliers@.len() implies 2 * #[trigger] q.upper_outliers@[k]
        > q.upper_fence.halves by {
        assert(q.upper_outliers@[k] == s[hi + k]);
    }
    assert(s =~= s.take(lo) + body_of(s) + s.skip(hi));
    vstd::seq_lib::lemma_multiset_commutative(s.take(lo) + body_of(s), s.skip(hi));
    vstd::seq_lib::lemma_multiset_commutative(s.take(lo), body_of(s));
    crate::sorting::lemma_sorted_model_ensures(vs);
}

/// The landmark positions are ordered, and the outlier runs never reach the
/// medians, so the whisker ends always exist and enclose the box.
pub proof fn lemma_outlier_counts(s: Seq<i64>)
    requires
        sorted(s),
        s.len() >= 3,
    ensures
        0 <= lower_median_idx(s) < upper_median_idx(s) < s.len(),
        iqr_of(s) >= 0,
        lo_count(s) <= lower_median_idx(s),
        uo_count(s) <= s.len() - 1 - upper_median_idx(s),
        lo_count(s) + uo_count(s) <= s.len() - 1,
        lo_count(s) <= s.len() - 1 - uo_count(s),
{
    let n = s.len() as int;
    let mid = n / 2;
    let li = lower_median_idx(s);
    let ui = upper_median_idx(s);
    assert(n == 2 * mid + n % 2 && 0 <= n % 2 < 2);
    assert(mid == 2 * (mid / 2) + mid % 2 && 0 <= mid % 2 < 2);
    assert(0 <= li < ui < n);
    assert(s[li] <= s[ui]);
    lemma_prefix_count_props(s, lower_fence2_of(s));
    lemma_suffix_count_props(s, upper_fence2_of(s));
    assert(2 * s[li] >= lower_fence2_of(s));
    assert(lo_count(s) <= li) by {
        if lo_count(s) > li {
            assert(2 * s[li] < lower_fence2_of(s));
        }
    }
    assert(2 * s[ui] <= upper_fence2_of(s));
    assert(uo_count(s) <= n - 1 - ui) by {
        if uo_count(s) > n - 1 - ui {
            assert(n - uo_count(s) <= ui < n);
            assert(2 * s[ui] > upper_fence2_of(s));
        }
    }
}

} // verus!
