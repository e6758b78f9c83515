//! Why repeated pairwise averaging converges.
//!
//! One exchange replaces two peers' values by their midpoint. Over the
//! whole population this keeps the total (hence the arithmetic mean) fixed
//! and never increases the spread, which is what drives every value toward
//! the mean of the initial values.

use crate::value::avg;
use vstd::prelude::*;

verus! {

/// The total of the values.
pub open spec fn sum(s: Seq<int>) -> int
    decreases s.len(),
{
    if s.len() == 0 {
        0
    } else {
        s[0] + sum(s.drop_first())
    }
}

/// The total of the squared values.
pub open spec fn sum_sq(s: Seq<int>) -> int
    decreases s.len(),
{
    if s.len() == 0 {
        0
    } else {
        s[0] * s[0] + sum_sq(s.drop_first())
    }
}

/// The population variance of the values, scaled by `len · len` so that it
/// stays an integer: `len² · Var(s) == len · Σ s[k]² − (Σ s[k])²`.
pub open spec fn scaled_variance(s: Seq<int>) -> int {
    s.len() * sum_sq(s) - sum(s) * sum(s)
}

/// The population after peers `i` and `j` exchanged: both stand at the
/// midpoint of their previous values.
pub open spec fn after_exchange(s: Seq<int>, i: int, j: int) -> Seq<int> {
    s.update(i, avg(s[i], s[j])).update(j, avg(s[i], s[j]))
}

proof fn lemma_sum_update(s: Seq<int>, i: int, v: int)
    requires
        0 <= i < s.len(),
    ensures
        sum(s.update(i, v)) == sum(s) - s[i] + v,
    decreases s.len(),
{
    if i == 0 {
        assert(s.update(0, v).drop_first() =~= s.drop_first());
    } else {
        assert(s.update(i, v).drop_first() =~= s.drop_first().update(i - 1, v));
        lemma_sum_update(s.drop_first(), i - 1, v);
    }
}

proof fn lemma_sum_sq_update(s: Seq<int>, i: int, v: int)
    requires
        0 <= i < s.len(),
    ensures
        sum_sq(s.update(i, v)) == sum_sq(s) - s[i] * s[i] + v * v,
    decreases s.len(),
{
    if i == 0 {
        assert(s.update(0, v).drop_first() =~= s.drop_first());
    } else {
        assert(s.update(i, v).drop_first() =~= s.drop_first().update(i - 1, v));
        lemma_sum_sq_update(s.drop_first(), i - 1, v);
    }
}

/// Law: a pairwise exchange between two distinct peers whose values have an
/// even total keeps the total of all values — hence their arithmetic mean —
/// unchanged, and never increases their variance.
///
/// An odd total is excluded because the integer midpoint then rounds, which
/// shifts the total by the rounding error.
pub proof fn lemma_exchange_convergence(s: Seq<int>, i: int, j: int)
    requires
        0 <= i < s.len(),
        0 <= j < s.len(),
        i != j,
        (s[i] + s[j]) % 2 == 0,
    ensures
        after_exchange(s, i, j).len() == s.len(),
        sum(after_exchange(s, i, j)) == sum(s),
        sum_sq(after_exchange(s, i, j)) <= sum_sq(s),
        scaled_variance(after_exchange(s, i, j)) <= scaled_variance(s),
{
    let a = s[i];
    let b = s[j];
    let m = avg(a, b);
    assert(2 * m == a + b) by {
        if a + b >= 0 {
            vstd::arithmetic::div_mod::lemma_fundamental_div_mod(a + b, 2);
        } else {
            vstd::arithmetic::div_mod::lemma_fundamental_div_mod(-(a + b), 2);
            assert((-(a + b)) % 2 == 0);
        }
    };
    let t1 = s.update(i, m);
    let t2 = t1.update(j, m);
    lemma_sum_update(s, i, m);
    lemma_sum_sq_update(s, i, m);
    assert(t1[j] == b);
    lemma_sum_update(t1, j, m);
    lemma_sum_sq_update(t1, j, m);
    assert(sum(t2) == sum(s) - a - b + 2 * m);
    assert(sum_sq(t2) == sum_sq(s) - a * a - b * b + 2 * (m * m));
    assert(2 * (m * m) <= a * a + b * b) by (nonlinear_arith)
        requires
            2 * m == a + b,
    ;
    assert(s.len() * sum_sq(t2) <= s.len() * sum_sq(s)) by (nonlinear_arith)
        requires
            sum_sq(t2) <= sum_sq(s),
            s.len() >= 0,
    ;
}

} // verus!
