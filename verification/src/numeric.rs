//! What the controllers need of a numeric type besides its operators: the
//! constants that `num_traits` gives for it, clamping, and the law of order
//! under which clamping keeps a value inside its bounds.

use num_traits::{Bounded, One, Zero};
use std::ops::{Add, Div, Mul, Neg, Sub};
use vstd::prelude::*;
use vstd::std_specs::cmp::{PartialOrdIs, PartialOrdSpec};
use vstd::std_specs::ops::{AddSpec, MulSpec, NegSpec, SubSpec};

verus! {

/// The numeric types a controller works on: copied freely, closed under the
/// four operations and negation, and comparable.
pub trait Scalar: Copy
    + Add<Output = Self>
    + Sub<Output = Self>
    + Mul<Output = Self>
    + Div<Output = Self>
    + Neg<Output = Self>
    + PartialOrd {
}

impl<T> Scalar for T where
    T: Copy
        + Add<Output = T>
        + Sub<Output = T>
        + Mul<Output = T>
        + Div<Output = T>
        + Neg<Output = T>
        + PartialOrd,
 {
}

/// The operators of a tick and the comparison of `T` obey the specifications
/// that `vstd` attaches to them: what they return is what `add_spec`,
/// `sub_spec`, `mul_spec`, `neg_spec` and `partial_cmp_spec` say.
pub open spec fn obeys_arithmetic<T: Scalar>() -> bool {
    &&& T::obeys_add_spec()
    &&& T::obeys_sub_spec()
    &&& T::obeys_mul_spec()
    &&& T::obeys_neg_spec()
    &&& T::obeys_partial_cmp_spec()
}

/// `u` is a multiplicative identity of `T`: multiplying by it, on either
/// side, gives the other factor back.
pub open spec fn is_unit<T: Mul<Output = T>>(u: T) -> bool {
    &&& forall|a: T| #[trigger] a.mul_spec(u) == a
    &&& forall|a: T| #[trigger] u.mul_spec(a) == a
}

/// `z` is an additive identity of `T`: adding it, on either side, gives the
/// other summand back.
pub open spec fn is_zero<T: Add<Output = T>>(z: T) -> bool {
    &&& forall|a: T| #[trigger] a.add_spec(z) == a
    &&& forall|a: T| #[trigger] z.add_spec(a) == a
}

/// A type has at most one multiplicative identity.
pub proof fn unit_is_unique<T: Mul<Output = T>>(u: T, v: T)
    requires
        is_unit(u),
        is_unit(v),
    ensures
        u == v,
{
    assert(u.mul_spec(v) == u);
    assert(u.mul_spec(v) == v);
}

/// A type has at most one additive identity.
pub proof fn zero_is_unique<T: Add<Output = T>>(z: T, w: T)
    requires
        is_zero(z),
        is_zero(w),
    ensures
        z == w,
{
    assert(z.add_spec(w) == z);
    assert(z.add_spec(w) == w);
}

/// Calls `num_traits::One::one` for `T`.
///
/// The trait's documentation gives the law of its value: `a * 1 = a` and
/// `1 * a = a` for every `a`. The contract claims that law of the
/// multiplication of `T`, where that multiplication obeys its specification;
/// of other types, floats among them, it claims nothing.
#[verifier::external_body]
pub(crate) fn unit<T: One>() -> (r: T)
    ensures
        T::obeys_mul_spec() ==> is_unit(r),
{
    T::one()
}

/// Calls `num_traits::Zero::zero` for `T`.
///
/// The trait's documentation gives the law of its value: `a + 0 = a` and
/// `0 + a = a` for every `a`. The contract claims that law of the addition of
/// `T`, where that addition obeys its specification; of other types, floats
/// among them, it claims nothing.
#[verifier::external_body]
pub(crate) fn zero<T: Zero>() -> (r: T)
    ensures
        T::obeys_add_spec() ==> is_zero(r),
{
    T::zero()
}

/// Calls `num_traits::Bounded::min_value` for `T`. Nothing is claimed of the
/// value.
#[verifier::external_body]
pub(crate) fn lowest<T: Bounded>() -> (r: T) {
    T::min_value()
}

/// Calls `num_traits::Bounded::max_value` for `T`. Nothing is claimed of the
/// value.
#[verifier::external_body]
pub(crate) fn highest<T: Bounded>() -> (r: T) {
    T::max_value()
}

/// The four numbers a controller takes from its numeric type. A controller
/// that is handed them takes them as they are.
#[derive(Clone, Copy, Debug)]
pub struct Constants<T> {
    /// Additive identity: where the integrator and the last input start.
    pub zero: T,
    /// Multiplicative identity: the sample period of an untuned controller.
    pub one: T,
    /// Lower output bound of a controller whose bounds were never set.
    pub lowest: T,
    /// Upper output bound of a controller whose bounds were never set.
    pub highest: T,
}

impl<T> Constants<T> {
    /// The zero and the one are identities of `T`, as far as the addition
    /// and the multiplication of `T` obey their specifications.
    pub open spec fn lawful(self) -> bool where T: Add<Output = T> + Mul<Output = T> {
        &&& T::obeys_add_spec() ==> is_zero(self.zero)
        &&& T::obeys_mul_spec() ==> is_unit(self.one)
    }

    /// The constants that `num_traits` gives for `T`: its zero, its one and
    /// its two extremes.
    pub(crate) fn of_type() -> (r: Self) where T: Zero + One + Bounded
        ensures
            r.lawful(),
    {
        Constants { zero: zero(), one: unit(), lowest: lowest(), highest: highest() }
    }
}

/// `x` brought into `[lo, hi]`: `lo` where `x` is below it, else `hi` where `x`
/// is above it, else `x` itself.
pub open spec fn clamp_spec<T: PartialOrd>(x: T, lo: T, hi: T) -> T {
    if x.is_lt(&lo) {
        lo
    } else if x.is_gt(&hi) {
        hi
    } else {
        x
    }
}

/// The comparison of `T` is a total order up to what it calls equal: every
/// two values compare, the comparison read from either side tells the same,
/// and "at most" carries over a middle value.
pub open spec fn total_order<T: PartialOrd>() -> bool {
    &&& forall|a: T, b: T| (#[trigger] a.partial_cmp_spec(&b)) is Some
    &&& forall|a: T, b: T| #![trigger a.partial_cmp_spec(&b)] a.is_lt(&b) <==> b.is_gt(&a)
    &&& forall|a: T, b: T, c: T|
        #![trigger a.partial_cmp_spec(&b), b.partial_cmp_spec(&c)]
        a.is_le(&b) && b.is_le(&c) ==> a.is_le(&c)
}

/// Under a total order a clamped value lies within ordered bounds, both ends
/// included.
pub proof fn clamp_within_bounds<T: PartialOrd>(x: T, lo: T, hi: T)
    requires
        total_order::<T>(),
        lo.is_le(&hi),
    ensures
        lo.is_le(&clamp_spec(x, lo, hi)),
        clamp_spec(x, lo, hi).is_le(&hi),
{
    assert(lo.partial_cmp_spec(&lo) is Some);
    assert(hi.partial_cmp_spec(&hi) is Some);
    assert(x.partial_cmp_spec(&lo) is Some);
    assert(lo.partial_cmp_spec(&x) is Some);
    assert(x.partial_cmp_spec(&hi) is Some);
    assert(hi.partial_cmp_spec(&lo) is Some);
}

/// A value above ordered bounds is brought to the upper one, a value below
/// them to the lower one.
pub proof fn clamp_saturates<T: PartialOrd>(x: T, lo: T, hi: T)
    requires
        total_order::<T>(),
        lo.is_le(&hi),
    ensures
        x.is_gt(&hi) ==> clamp_spec(x, lo, hi) == hi,
        x.is_lt(&lo) ==> clamp_spec(x, lo, hi) == lo,
{
    assert(x.partial_cmp_spec(&lo) is Some);
    assert(lo.partial_cmp_spec(&hi) is Some);
    assert(x.partial_cmp_spec(&hi) is Some);
    if x.is_gt(&hi) && x.is_lt(&lo) {
        assert(x.is_le(&lo) && lo.is_le(&hi));
        assert(x.is_le(&hi));
    }
}

/// Brings `x` into `[lo, hi]`.
pub fn clamp<T: PartialOrd + Copy>(x: T, lo: T, hi: T) -> (r: T)
    ensures
        T::obeys_partial_cmp_spec() ==> r == clamp_spec(x, lo, hi),
{
    if x < lo {
        lo
    } else if x > hi {
        hi
    } else {
        x
    }
}

} // verus!
