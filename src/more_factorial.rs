//! A second factorial-like trait on `i32`, whose method shares its name with
//! that of `Factorial`: a caller that imports both must say which it means.
use crate::factorial::range_product;
use vstd::prelude::*;

verus! {

/// The absolute value of `x`.
pub open spec fn magnitude(x: int) -> int {
    if x < 0 {
        -x
    } else {
        x
    }
}

/// Over factors that are all negative, the magnitude of the product starts
/// at one and only grows.
pub proof fn lemma_negative_product_grows(lo: int, a: int, b: int)
    requires
        lo <= a <= b <= 0,
    ensures
        1 <= magnitude(range_product(lo, a)) <= magnitude(range_product(lo, b)),
    decreases b - lo,
{
    if lo < b {
        let c = if a < b { a } else { b - 1 };
        lemma_negative_product_grows(lo, c, b - 1);
        let p = range_product(lo, b - 1);
        assert(magnitude(p) <= magnitude(p * (b - 1))) by (nonlinear_arith)
            requires
                1 <= magnitude(p),
                b - 1 <= -1,
        ;
    }
}

/// A number with a factorial counted from itself up to zero.
pub trait DifferentFactorial: Sized {
    /// Whether the result can be represented.
    spec fn different_factorial_fits(&self) -> bool;

    /// The product of the integers from this value up to, but not including,
    /// zero.
    fn factorial(&self) -> Self
        requires
            self.different_factorial_fits(),
    ;
}

impl DifferentFactorial for i32 {
    open spec fn different_factorial_fits(&self) -> bool {
        magnitude(range_product(*self as int, 0)) <= i32::MAX
    }

    /// The product `self * (self + 1) * ... * -1`; one for every value that
    /// is not negative.
    fn factorial(&self) -> (r: i32)
        ensures
            r == range_product(*self as int, 0),
    {
        let mut res: i32 = 1;
        let mut n: i32 = *self;
        while n < 0
            invariant
                *self <= n,
                n <= 0 || n == *self,
                res == range_product(*self as int, n as int),
                magnitude(range_product(*self as int, 0)) <= i32::MAX,
            decreases 0 - n,
        {
            proof {
                lemma_negative_product_grows(*self as int, n + 1, 0);
            }
            res = res * n;
            n = n + 1;
        }
        res
    }
}

} // verus!
