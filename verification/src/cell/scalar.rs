//! The numeric element capability that the tensor operations consume.
//!
//! The core never fixes a concrete number type. It asks its element type
//! for exactly the operations the three elementary functions and their
//! derivative rules need: a natural exponential, multiplication, a
//! multiplicative inverse, the constant one, and an embedding of the
//! machine integers. Each executable operation is tied to a spec-level
//! function of the same values, so that everything built on top of the
//! trait can state exactly which product of which factors it returns.
//! Callers of the library supply an implementation for their number type
//! and are responsible for meeting these contracts.

use vstd::prelude::*;

verus! {

/// A numeric element of a tensor.
///
/// An implementation must make each executable method return exactly the
/// value that its spec-level counterpart denotes on the same arguments.
pub trait Scalar: Sized + Copy {
    /// The value of the natural exponential at `self`.
    spec fn exp_spec(self) -> Self;

    /// The product `self * rhs`.
    spec fn times_spec(self, rhs: Self) -> Self;

    /// The multiplicative inverse of `self`.
    spec fn recip_spec(self) -> Self;

    /// The multiplicative unit.
    spec fn one_spec() -> Self;

    /// The embedding of a machine integer.
    spec fn of_usize_spec(n: usize) -> Self;

    /// Computes the natural exponential of `self`.
    fn exp(&self) -> (r: Self)
        ensures
            r == self.exp_spec(),
    ;

    /// Multiplies `self` by `rhs`.
    fn times(&self, rhs: &Self) -> (r: Self)
        ensures
            r == self.times_spec(*rhs),
    ;

    /// Computes the multiplicative inverse of `self`.
    fn recip(&self) -> (r: Self)
        ensures
            r == self.recip_spec(),
    ;

    /// Returns the multiplicative unit.
    fn one() -> (r: Self)
        ensures
            r == Self::one_spec(),
    ;

    /// Embeds a machine integer.
    fn of_usize(n: usize) -> (r: Self)
        ensures
            r == Self::of_usize_spec(n),
    ;
}

/// The integer power `x^e`, written as the product the power rule speaks
/// of: `x^e == x * x^(e-1)` for `e > 1`, `x^1 == x`, `x^0 == 1`, and
/// `x^e == 1 / x^(-e)` for negative `e`.
pub open spec fn pow_spec<T: Scalar>(x: T, e: int) -> T
    decreases (if e >= 0 { e } else { 1 - e }),
{
    if e == 1 {
        x
    } else if e > 1 {
        x.times_spec(pow_spec(x, e - 1))
    } else if e == 0 {
        T::one_spec()
    } else {
        pow_spec(x, -e).recip_spec()
    }
}

/// Raises a scalar to a machine-integer power by repeated multiplication.
pub fn pow_usize<T: Scalar>(x: &T, n: usize) -> (r: T)
    ensures
        r == pow_spec(*x, n as int),
{
    if n == 0 {
        T::one()
    } else {
        let mut acc: T = *x;
        let mut i: usize = 1;
        while i < n
            invariant
                1 <= i <= n,
                acc == pow_spec(*x, i as int),
            decreases n - i,
        {
            acc = x.times(&acc);
            i = i + 1;
        }
        acc
    }
}

} // verus!
