//! The shared value store: one peer's current estimate and the merge rule
//! that every exchange applies to it.

use vstd::prelude::*;

verus! {

/// Largest magnitude a stored value may have. Keeping every value inside
/// this bound keeps the sum of any two values inside `i64`.
pub const VALUE_BOUND: i64 = 0x2000_0000_0000_0000;

/// The midpoint of two values, rounding toward zero as Rust's integer
/// division does.
pub open spec fn avg(a: int, b: int) -> int {
    if a + b >= 0 {
        (a + b) / 2
    } else {
        -((-(a + b)) / 2)
    }
}

/// Computes the midpoint of two in-range values.
pub fn midpoint(a: i64, b: i64) -> (r: i64)
    requires
        -VALUE_BOUND <= a <= VALUE_BOUND,
        -VALUE_BOUND <= b <= VALUE_BOUND,
    ensures
        r == avg(a as int, b as int),
        -VALUE_BOUND <= r <= VALUE_BOUND,
{
    (a + b) / 2
}

/// Law: one exchange round leaves both participants on the same value.
///
/// The callee answers its pre-update value `b` and moves to `avg(b, a)`;
/// the caller then moves to `avg(a, b)`. Since the midpoint is symmetric,
/// the two sides coincide after a single round trip.
pub proof fn lemma_exchange_symmetry(a: int, b: int)
    ensures
        avg(a, b) == avg(b, a),
{
}

/// Law: the midpoint lies between the two values, so repeated exchanges
/// keep every estimate inside the range the initial values span.
pub proof fn lemma_avg_between(a: int, b: int)
    ensures
        a <= b ==> a <= avg(a, b) <= b,
        b <= a ==> b <= avg(a, b) <= a,
{
}

} // verus!
