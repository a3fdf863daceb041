//! Sorting of sample values, and the spec-level sorted model that the
//! quartile statistics are defined over.

use vstd::prelude::*;
use vstd::relations::{sorted_by, total_ordering};
use vstd::seq_lib::lemma_sorted_unique;

verus! {

/// The ordering that sample values are sorted by.
pub open spec fn value_le() -> spec_fn(i64, i64) -> bool {
    |a: i64, b: i64| a <= b
}

/// A sequence of sample values in ascending order.
pub open spec fn sorted(s: Seq<i64>) -> bool {
    forall|i: int, j: int| 0 <= i < j < s.len() ==> s[i] <= s[j]
}

/// The ascending rearrangement of a sequence of sample values.  All quartile
/// landmarks are defined as positions in this sequence.
pub open spec fn sorted_model(vs: Seq<i64>) -> Seq<i64> {
    vs.sort_by(value_le())
}

pub proof fn lemma_value_le_total()
    ensures
        total_ordering(value_le()),
{
    assert forall|a: i64, b: i64| a != b implies #[trigger] value_le()(a, b) || #[trigger] value_le()(
        b,
        a,
    ) by {
        assert(a <= b || b <= a);
    }
}

/// The sorted model of a sequence is ascending and holds exactly the same
/// values, with multiplicity.
pub proof fn lemma_sorted_model_ensures(vs: Seq<i64>)
    ensures
        sorted(sorted_model(vs)),
        sorted_model(vs).to_multiset() == vs.to_multiset(),
        sorted_model(vs).len() == vs.len(),
        forall|x: i64| vs.contains(x) <==> sorted_model(vs).contains(x),
{
    vs.lemma_sort_by_ensures(value_le());
    let s = sorted_model(vs);
    vs.to_multiset_ensures();
    s.to_multiset_ensures();
    assert(sorted(s)) by {
        assert forall|i: int, j: int| 0 <= i < j < s.len() implies s[i] <= s[j] by {
            assert(sorted_by(s, value_le()));
            assert(value_le()(s[i], s[j]));
        }
    }
    assert(s.to_multiset() =~= vs.to_multiset());
    assert forall|x: i64| vs.contains(x) <==> s.contains(x) by {
        assert(vs.contains(x) <==> vs.to_multiset().count(x) > 0);
        assert(s.contains(x) <==> s.to_multiset().count(x) > 0);
    }
}

/// A value of the sorted model is a value of the input.
pub proof fn lemma_sorted_model_index_membership(vs: Seq<i64>, i: int)
    requires
        0 <= i < sorted_model(vs).len(),
    ensures
        vs.contains(sorted_model(vs)[i]),
{
    lemma_sorted_model_ensures(vs);
    assert(sorted_model(vs).contains(sorted_model(vs)[i]));
}

/// Sorts the sample values ascending; the result is exactly the sorted model
/// of the input.
pub fn sort_values(values: &[i64]) -> (r: Vec<i64>)
    ensures
        r@ == sorted_model(values@),
{
    let n = values.len();
    let mut out: Vec<i64> = Vec::new();
    proof {
        assert(out@ =~= values@.take(0));
    }
    for idx in 0..n
        invariant
            n == values@.len(),
            sorted(out@),
            out@.to_multiset() == values@.take(idx as int).to_multiset(),
            out@.len() == idx,
    {
        let x = values[idx];
        let mut pos: usize = 0;
        while pos < out.len() && out[pos] <= x
            invariant
                pos <= out@.len(),
                forall|k: int| 0 <= k < pos ==> out@[k] <= x,
            decreases out@.len() - pos,
        {
            pos += 1;
        }
        let ghost old_out = out@;
        out.insert(pos, x);
        proof {
            let p = pos as int;
            assert(out@ == old_out.insert(p, x));
            old_out.insert_ensures(p, x);
            assert(sorted(out@)) by {
                assert forall|i: int, j: int| 0 <= i < j < out@.len() implies out@[i] <= out@[j] by {
                    if j < p {
                        assert(out@[i] == old_out[i] && out@[j] == old_out[j]);
                    } else if i > p {
                        assert(out@[i] == old_out[i - 1] && out@[j] == old_out[j - 1]);
                    } else if i < p && j == p {
                        assert(out@[i] == old_out[i] && out@[j] == x);
                    } else if i == p && j > p {
                        assert(out@[i] == x && out@[j] == old_out[j - 1]);
                        assert(p < old_out.len() ==> old_out[p] > x);
                        assert(old_out[p] <= old_out[j - 1]);
                    } else if i < p && j > p {
                        assert(out@[i] == old_out[i] && out@[j] == old_out[j - 1]);
                        assert(old_out[i] <= x);
                        assert(p < old_out.len() ==> x < old_out[p] <= old_out[j - 1]);
                    }
                }
            }
            assert(out@.to_multiset() =~= old_out.to_multiset().insert(x)) by {
                out@.to_multiset_ensures();
                old_out.to_multiset_ensures();
                values@.take(idx as int).to_multiset_ensures();
                assert(out@.remove(p) =~= old_out);
                assert(out@.remove(p).to_multiset() =~= out@.to_multiset().remove(out@[p]));
                assert(out@[p] == x);
                assert(out@.contains(x));
                assert(out@.to_multiset().count(x) > 0);
                assert forall|y: i64|
                    old_out.to_multiset().insert(x).count(y) == #[trigger] out@.to_multiset().count(
                        y,
                    ) by {
                    assert(old_out.to_multiset().count(y) == out@.to_multiset().remove(x).count(y));
                }
            }
            assert(values@.take(idx + 1) =~= values@.take(idx as int).push(values@[idx as int]));
            assert(values@.take(idx as int).push(x).to_multiset() =~= values@.take(
                idx as int,
            ).to_multiset().insert(x)) by {
                values@.take(idx as int).to_multiset_ensures();
            }
        }
    }
    proof {
        assert(values@.take(n as int) =~= values@);
        lemma_value_le_total();
        values@.lemma_sort_by_ensures(value_le());
        assert(sorted_by(out@, value_le())) by {
            assert forall|i: int, j: int|
                0 <= i < j < out@.len() implies #[trigger] value_le()(out@[i], out@[j]) by {
                assert(out@[i] <= out@[j]);
            }
        }
        lemma_sorted_unique(out@, sorted_model(values@), value_le());
    }
    out
}

} // verus!
