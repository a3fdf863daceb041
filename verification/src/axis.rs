//! The axis planner: chooses a human-friendly tick interval and a snapped
//! value range covering all series, and the decimal precision of the tick
//! labels.
//!
//! Axis quantities are exact, carried in hundredths of a unit ("centi"):
//! the interval is `10^e / 20` of a unit, that is `5 * 10^e` centi, for the
//! smallest `e` with `10^e` covering the combined span.

use crate::MAX_ABS_VALUE;
use vstd::arithmetic::div_mod::{lemma_fundamental_div_mod, lemma_fundamental_div_mod_converse};
use vstd::prelude::*;

verus! {

/// Largest magnitude (in centi-units) a snapped axis bound may have.
pub const AXIS_BOUND_C: i64 = 300_000_000_000_000;

/// Ten to the `e`-th power.
pub open spec fn pow10(e: nat) -> int
    decreases e,
{
    if e == 0 {
        1
    } else {
        10 * pow10((e - 1) as nat)
    }
}

/// The least multiple-of-`b` bound from above: `ceil(a / b)` for `b > 0`.
pub open spec fn ceil_div(a: int, b: int) -> int {
    -((-a) / b)
}

pub proof fn lemma_pow10_pos(e: nat)
    ensures
        pow10(e) >= 1,
    decreases e,
{
    if e > 0 {
        lemma_pow10_pos((e - 1) as nat);
    }
}

pub proof fn lemma_pow10_increases(e1: nat, e2: nat)
    requires
        e1 <= e2,
    ensures
        pow10(e1) <= pow10(e2),
    decreases e2,
{
    if e1 < e2 {
        lemma_pow10_increases(e1, (e2 - 1) as nat);
        lemma_pow10_pos((e2 - 1) as nat);
    }
}

/// Dividing and multiplying back brackets the dividend within one divisor.
pub proof fn lemma_floor_div_props(a: int, b: int)
    requires
        b > 0,
    ensures
        b * (a / b) <= a < b * (a / b) + b,
{
    lemma_fundamental_div_mod(a, b);
    assert(0 <= a % b < b) by {
        vstd::arithmetic::div_mod::lemma_mod_division_less_than_divisor(a, b);
    }
}

pub proof fn lemma_ceil_div_props(a: int, b: int)
    requires
        b > 0,
    ensures
        a <= b * ceil_div(a, b) < a + b,
{
    lemma_floor_div_props(-a, b);
    let z = (-a) / b;
    assert(b * (-z) == -(b * z)) by (nonlinear_arith);
}

/// For positive `x` and `b`, rounding `x / b` up equals `(x + b - 1) / b`
/// rounded down, and rounding `-x / b` down is its negation.
proof fn lemma_neg_floor_div(x: int, b: int)
    requires
        x >= 0,
        b > 0,
    ensures
        -((x + b - 1) / b) == (-x) / b,
{
    let q = x / b;
    let r = x % b;
    lemma_fundamental_div_mod(x, b);
    assert(0 <= r < b) by {
        vstd::arithmetic::div_mod::lemma_mod_division_less_than_divisor(x, b);
    }
    if r == 0 {
        assert(x + b - 1 == q * b + (b - 1)) by (nonlinear_arith)
            requires
                x == b * q + r,
                r == 0,
        {}
        lemma_fundamental_div_mod_converse(x + b - 1, b, q, b - 1);
        assert(-x == (-q) * b + 0) by (nonlinear_arith)
            requires
                x == b * q + r,
                r == 0,
        {}
        lemma_fundamental_div_mod_converse(-x, b, -q, 0);
    } else {
        assert(x + b - 1 == (q + 1) * b + (r - 1)) by (nonlinear_arith)
            requires
                x == b * q + r,
        {}
        lemma_fundamental_div_mod_converse(x + b - 1, b, q + 1, r - 1);
        assert(-x == (-q - 1) * b + (b - r)) by (nonlinear_arith)
            requires
                x == b * q + r,
        {}
        lemma_fundamental_div_mod_converse(-x, b, -q - 1, b - r);
    }
}

/// Rounds `a / b` toward negative infinity.
fn floor_div_c(a: i64, b: i64) -> (r: i64)
    requires
        0 < b <= 2 * AXIS_BOUND_C,
        -2 * AXIS_BOUND_C <= a <= 2 * AXIS_BOUND_C,
    ensures
        r == a as int / b as int,
{
    if a >= 0 {
        let q = (a as u64) / (b as u64);
        q as i64
    } else {
        let x = -a;
        let q = ((x as u64) + (b as u64) - 1) / (b as u64);
        proof {
            lemma_neg_floor_div(x as int, b as int);
            lemma_floor_div_props(x as int + b - 1, b as int);
        }
        -(q as i64)
    }
}

/// Rounds `a / b` toward positive infinity.
fn ceil_div_c(a: i64, b: i64) -> (r: i64)
    requires
        0 < b <= 2 * AXIS_BOUND_C,
        -2 * AXIS_BOUND_C <= a <= 2 * AXIS_BOUND_C,
    ensures
        r == ceil_div(a as int, b as int),
{
    if a <= 0 {
        let q = ((-a) as u64) / (b as u64);
        -(q as i64)
    } else {
        let q = ((a as u64) + (b as u64) - 1) / (b as u64);
        proof {
            lemma_neg_floor_div(a as int, b as int);
            lemma_floor_div_props(a as int + b - 1, b as int);
            lemma_ceil_div_props(a as int, b as int);
        }
        q as i64
    }
}

/// The planned axis: tick interval (centi-units), label precision, and the
/// snapped range `[k_lo * interval_c, k_hi * interval_c]`.
pub struct AxisPlan {
    pub interval_c: i64,
    pub dps: u32,
    pub k_lo: i64,
    pub k_hi: i64,
    pub exp: Ghost<nat>,
}

impl AxisPlan {
    pub open spec fn wf(self) -> bool {
        &&& self.interval_c == 5 * pow10(self.exp@)
        &&& 0 < self.interval_c <= 100_000_000_000_000
        &&& self.k_lo < self.k_hi
        &&& self.k_hi - self.k_lo <= 22
        &&& -AXIS_BOUND_C <= self.k_lo * self.interval_c
        &&& self.k_hi * self.interval_c <= AXIS_BOUND_C
    }

    /// Snapped lower bound of the plotted range, in centi-units.
    pub open spec fn range_min_c(self) -> int {
        self.k_lo * self.interval_c
    }

    /// Snapped upper bound of the plotted range, in centi-units.
    pub open spec fn range_max_c(self) -> int {
        self.k_hi * self.interval_c
    }
}

/// The plan that the planner owes to the combined range `[minv, maxv]`:
/// the smallest power of ten covering the span, divided into twenty
/// sub-intervals; precision enough to print the interval exactly; bounds
/// snapped down/up to multiples of the interval (and forced apart when the
/// span is degenerate).
pub open spec fn plan_matches(minv: int, maxv: int, plan: AxisPlan) -> bool {
    let span = maxv - minv;
    let e = plan.exp@;
    &&& pow10(e) >= span
    &&& e > 0 ==> pow10((e - 1) as nat) < span
    &&& plan.interval_c == 5 * pow10(e)
    &&& plan.dps == if e == 0 {
        2u32
    } else if e == 1 {
        1u32
    } else {
        0u32
    }
    &&& plan.k_lo == (100 * minv) / (plan.interval_c as int)
    &&& plan.k_hi == {
        let c = ceil_div(100 * maxv, plan.interval_c as int);
        if c == plan.k_lo {
            c + 1
        } else {
            c
        }
    }
}

/// The snapped range of a well-formed plan spans between one and
/// twenty-two whole intervals.
pub proof fn lemma_plan_range(plan: AxisPlan)
    requires
        plan.wf(),
    ensures
        plan.range_max_c() - plan.range_min_c() == (plan.k_hi - plan.k_lo) * plan.interval_c,
        plan.interval_c <= plan.range_max_c() - plan.range_min_c() <= 22 * plan.interval_c,
{
    let t = plan.k_hi - plan.k_lo;
    let ic = plan.interval_c as int;
    vstd::arithmetic::mul::lemma_mul_is_distributive_sub_other_way(
        ic,
        plan.k_hi as int,
        plan.k_lo as int,
    );
    assert(ic <= t * ic <= 22 * ic) by (nonlinear_arith)
        requires
            1 <= t <= 22,
            ic > 0,
    {}
}

/// For a combined range of exactly one hundred units, the chosen interval
/// is `10^2 / 20` (five whole units, `500` centi), both snapped bounds are
/// exact multiples of the interval, and at least twenty ticks span the
/// snapped range.
pub proof fn lemma_hundred_unit_span(minv: int, maxv: int, plan: AxisPlan)
    requires
        maxv - minv == 100,
        plan_matches(minv, maxv, plan),
    ensures
        plan.exp@ == 2,
        plan.interval_c == 500,
        plan.range_min_c() == plan.k_lo * plan.interval_c && plan.range_min_c() <= 100 * minv,
        plan.range_max_c() == plan.k_hi * plan.interval_c && plan.range_max_c() >= 100 * maxv,
        plan.k_hi - plan.k_lo >= 20,
{
    let e = plan.exp@;
    reveal_with_fuel(pow10, 3);
    assert(pow10(1) == 10);
    assert(pow10(2) == 100);
    assert(e == 2) by {
        if e == 0 || e == 1 {
            assert(pow10(e) <= 10);
        }
        if e > 2 {
            lemma_pow10_increases(2, (e - 1) as nat);
        }
    }
    lemma_floor_div_props(100 * minv, 500);
    lemma_ceil_div_props(100 * maxv, 500);
    let c = ceil_div(100 * maxv, 500);
    assert(plan.k_lo * plan.interval_c == 500 * plan.k_lo) by (nonlinear_arith)
        requires
            plan.interval_c == 500,
    {}
    assert(plan.k_hi * plan.interval_c == plan.k_hi * 500) by (nonlinear_arith)
        requires
            plan.interval_c == 500,
    {}
    assert(500 * plan.k_lo <= 100 * minv);
    assert(500 * c >= 100 * maxv);
    assert(plan.k_hi * 500 >= 100 * maxv);
    assert((plan.k_hi - plan.k_lo) * 500 >= 100 * maxv - 100 * minv);
    assert(100 * maxv - 100 * minv == 10000);
}

/// Chooses the tick interval, label precision and snapped range for the
/// combined value range `[min_v, max_v]`.
pub fn plan_axis(min_v: i64, max_v: i64) -> (plan: AxisPlan)
    requires
        -MAX_ABS_VALUE <= min_v <= max_v <= MAX_ABS_VALUE,
    ensures
        plan.wf(),
        plan_matches(min_v as int, max_v as int, plan),
        plan.range_min_c() <= 100 * min_v,
        plan.range_max_c() >= 100 * max_v,
{
    let span = max_v - min_v;
    let mut e: u64 = 0;
    let mut p: i64 = 1;
    while p < span
        invariant
            p == pow10(e as nat),
            1 <= p <= 20_000_000_000_000,
            e < p,
            0 <= span <= 2 * MAX_ABS_VALUE,
            e > 0 ==> pow10((e - 1) as nat) < span,
        decreases
                (if p >= span {
                    0int
                } else {
                    span - p
                }),
    {
        p = p * 10;
        e = e + 1;
    }
    let ic = 5 * p;
    let dps: u32 = if e == 0 {
        2
    } else if e == 1 {
        1
    } else {
        0
    };
    let a_lo = 100 * min_v;
    let a_hi = 100 * max_v;
    let k_lo = floor_div_c(a_lo, ic);
    proof {
        lemma_floor_div_props(a_lo as int, ic as int);
    }
    let c = ceil_div_c(a_hi, ic);
    proof {
        lemma_ceil_div_props(a_hi as int, ic as int);
        assert(k_lo <= c) by (nonlinear_arith)
            requires
                ic > 0,
                ic * (k_lo as int) <= a_lo,
                a_hi <= ic * (c as int),
                a_lo <= a_hi,
        {}
        assert(c - k_lo <= 21) by (nonlinear_arith)
            requires
                ic > 0,
                a_lo < ic * (k_lo as int) + ic,
                ic * (c as int) < a_hi + ic,
                a_hi - a_lo == 100 * (span as int),
                100 * (span as int) <= 20 * (ic as int),
        {}
    }
    let k_hi = if c == k_lo {
        c + 1
    } else {
        c
    };
    proof {
        assert(100 * (span as int) <= 20 * (ic as int));
        assert((k_lo as int) * (ic as int) <= a_lo && a_lo < (k_lo as int) * (ic as int) + ic) by (
        nonlinear_arith)
            requires
                ic * (k_lo as int) <= a_lo < ic * (k_lo as int) + ic,
        {}
        assert(a_hi <= (c as int) * (ic as int) && (c as int) * (ic as int) < a_hi + ic) by (
        nonlinear_arith)
            requires
                a_hi <= ic * (c as int) < a_hi + ic,
        {}
        assert((k_hi as int) * (ic as int) <= a_hi + 2 * ic) by (nonlinear_arith)
            requires
                k_hi == c || k_hi == c + 1,
                (c as int) * (ic as int) < a_hi + ic,
                ic > 0,
        {}
        assert((k_hi as int) * (ic as int) >= a_hi) by (nonlinear_arith)
            requires
                k_hi == c || k_hi == c + 1,
                a_hi <= (c as int) * (ic as int),
                ic > 0,
        {}
    }
    let plan = AxisPlan { interval_c: ic, dps, k_lo, k_hi, exp: Ghost(e as nat) };
    plan
}

} // verus!
