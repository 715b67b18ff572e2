//! Small arithmetic lemmas shared by the geometry and animation modules.

use vstd::prelude::*;

verus! {

/// A product is bounded by the product of the bounds on its factors.
pub proof fn lemma_mul_bound(a: int, b: int, la: int, lb: int)
    by (nonlinear_arith)
    requires
        0 <= la,
        0 <= lb,
        -la <= a <= la,
        -lb <= b <= lb,
    ensures
        -(la * lb) <= a * b <= la * lb,
{
}

} // verus!
