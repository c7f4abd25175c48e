//! The factorial, added to `i32` through a trait of this crate.
use vstd::prelude::*;

verus! {

/// The product of the integers `lo`, `lo + 1`, ..., `hi - 1`; one when the
/// range is empty.
pub open spec fn range_product(lo: int, hi: int) -> int
    decreases hi - lo,
{
    if lo >= hi {
        1
    } else {
        range_product(lo, hi - 1) * (hi - 1)
    }
}

/// `n!`, taken as one for every `n` below one.
pub open spec fn factorial_of(n: int) -> int {
    range_product(1, n + 1)
}

/// Over positive factors the product starts at one and only grows.
pub proof fn lemma_positive_product_grows(a: int, b: int)
    requires
        1 <= a <= b,
    ensures
        1 <= range_product(1, a) <= range_product(1, b),
    decreases b,
{
    if b > 1 {
        let c = if a < b { a } else { b - 1 };
        lemma_positive_product_grows(c, b - 1);
        let p = range_product(1, b - 1);
        assert(p <= p * (b - 1)) by (nonlinear_arith)
            requires
                1 <= p,
                1 <= b - 1,
        ;
    }
}

/// A number that knows its own factorial.
pub trait Factorial: Sized {
    /// Whether the factorial of this value can be represented.
    spec fn factorial_fits(&self) -> bool;

    /// The factorial of this value.
    fn factorial(&self) -> Self
        requires
            self.factorial_fits(),
    ;
}

impl Factorial for i32 {
    open spec fn factorial_fits(&self) -> bool {
        factorial_of(*self as int) <= i32::MAX
    }

    /// The product `1 * 2 * ... * self`; one for every value below one.
    fn factorial(&self) -> (r: i32)
        ensures
            r == factorial_of(*self as int),
    {
        let mut res: i32 = 1;
        let mut n: i32 = 0;
        while n < *self
            invariant
                0 <= n,
                n <= *self || n == 0,
                res == range_product(1, n + 1),
                factorial_of(*self as int) <= i32::MAX,
            decreases *self - n,
        {
            n = n + 1;
            proof {
                lemma_positive_product_grows(n + 1, *self + 1);
                lemma_positive_product_grows(n as int, n + 1);
            }
            res = res * n;
        }
        res
    }
}

} // verus!
