//! Saturating arithmetic used by the scoring and countdown rules.
//!
//! Scores, lives and counters grow without a natural bound, so the engine
//! adds and multiplies with saturation at `usize::MAX` and the contracts
//! describe the results with the spec functions below.

use vstd::prelude::*;

verus! {

/// Mathematical saturating addition at `usize::MAX`.
pub open spec fn sadd(a: int, b: int) -> int {
    if a + b > usize::MAX {
        usize::MAX as int
    } else {
        a + b
    }
}

/// Mathematical saturating multiplication at `usize::MAX`.
pub open spec fn smul(a: int, b: int) -> int {
    if a * b > usize::MAX {
        usize::MAX as int
    } else {
        a * b
    }
}

/// Saturating addition on machine integers.
pub fn sat_add(a: usize, b: usize) -> (r: usize)
    ensures
        r == sadd(a as int, b as int),
        r >= a,
        r >= b,
{
    match a.checked_add(b) {
        Some(v) => v,
        None => usize::MAX,
    }
}

/// Saturating multiplication on machine integers.
pub fn sat_mul(a: usize, b: usize) -> (r: usize)
    ensures
        r == smul(a as int, b as int),
        a >= 1 && b >= 1 ==> r >= 1,
        a >= 1 && b >= 1 ==> r >= b,
{
    proof {
        if a >= 1 && b >= 1 {
            assert(a * b >= b) by (nonlinear_arith)
                requires
                    a >= 1,
                    b >= 1,
            ;
        }
    }
    match a.checked_mul(b) {
        Some(v) => v,
        None => usize::MAX,
    }
}

} // verus!
