//! The terms a controller is built from: the control error, a proportional
//! gain, and a proportional-derivative pair.
//!
//! Gains can be derived from a damping ratio and a time constant. The
//! derivation needs the number one of the gain type, which `num_traits`
//! supplies; each constructor therefore comes twice, once taking the unit as
//! an argument and once fetching it.

use crate::numeric::{is_unit, unit, unit_is_unique};
use num_traits::One;
use std::ops::{Add, Div, Mul, Sub};
use vstd::prelude::*;
use vstd::std_specs::ops::{AddSpec, DivSpec, MulSpec, SubSpec};

verus! {

/// The control error: `target - actual`.
pub fn error<T>(target: T, actual: T) -> (r: T) where T: Sub<Output = T>
    requires
        target.sub_req(actual),
    ensures
        T::obeys_sub_spec() ==> r == target.sub_spec(actual),
{
    target - actual
}

/// Proportional controller
#[derive(Clone, Copy, Debug)]
pub struct P<T> {
    pub kp: T,
}

impl<T> P<T> {
    /// The proportional gain for a damping ratio and a time constant:
    /// `(1 / tc²) · (1 + (1 + 1) · dr)`, with `unit` for 1.
    pub open spec fn gain(unit: T, damping_ratio: T, time_constant: T) -> T where
        T: Add<Output = T> + Div<Output = T> + Mul<Output = T>,
     {
        unit.div_spec(time_constant.mul_spec(time_constant)).mul_spec(
            unit.add_spec(unit.add_spec(unit).mul_spec(damping_ratio)),
        )
    }

    /// Every operation of [`P::gain`] is permitted on these values.
    pub open spec fn gain_defined(unit: T, damping_ratio: T, time_constant: T) -> bool where
        T: Add<Output = T> + Div<Output = T> + Mul<Output = T>,
     {
        let square = time_constant.mul_spec(time_constant);
        let two = unit.add_spec(unit);
        let weight = unit.add_spec(two.mul_spec(damping_ratio));
        &&& time_constant.mul_req(time_constant)
        &&& unit.div_req(square)
        &&& unit.add_req(unit)
        &&& two.mul_req(damping_ratio)
        &&& unit.add_req(two.mul_spec(damping_ratio))
        &&& unit.div_spec(square).mul_req(weight)
    }

    /// The operators that [`P::gain`] uses obey their specifications on `T`.
    pub open spec fn gain_obeys() -> bool where
        T: Add<Output = T> + Div<Output = T> + Mul<Output = T>,
     {
        T::obeys_add_spec() && T::obeys_div_spec() && T::obeys_mul_spec()
    }

    /// The controller for a damping ratio and a time constant, given the
    /// number one of `T`.
    pub fn with_unit(unit: T, damping_ratio: T, time_constant: T) -> (r: Self) where
        T: Add<Output = T> + Div<Output = T> + Mul<Output = T> + Copy,

        requires
            Self::gain_obeys(),
            Self::gain_defined(unit, damping_ratio, time_constant),
        ensures
            r.kp == Self::gain(unit, damping_ratio, time_constant),
    {
        let kp = (unit / (time_constant * time_constant)) * (unit + (unit + unit) * damping_ratio);
        Self { kp }
    }

    /// The controller for a damping ratio and a time constant. A damping
    /// ratio between 0.7 and 1 is the useful range; nothing enforces it.
    ///
    /// The unit comes from `num_traits::One`: it is a multiplicative identity
    /// of `T`, so the operations need be permitted for such a unit only, and
    /// the gain is [`P::gain`] of it.
    pub fn new(damping_ratio: T, time_constant: T) -> (r: Self) where
        T: One + Add<Output = T> + Div<Output = T> + Copy,

        requires
            Self::gain_obeys(),
            forall|u: T| #[trigger] is_unit(u) ==> Self::gain_defined(u, damping_ratio, time_constant),
        ensures
            exists|u: T| #[trigger] is_unit(u),
            forall|u: T| #[trigger] is_unit(u) ==> r.kp == Self::gain(u, damping_ratio, time_constant),
    {
        let one: T = unit();
        assert(is_unit(one));
        let r = Self::with_unit(one, damping_ratio, time_constant);
        assert forall|u: T| #[trigger] is_unit(u) implies r.kp == Self::gain(
            u,
            damping_ratio,
            time_constant,
        ) by {
            unit_is_unique(one, u);
        }
        r
    }

    /// The controller whose gain is the number one of `T`, as
    /// `num_traits::One` gives it.
    pub fn with_unit_gain() -> (r: Self) where T: One
        ensures
            T::obeys_mul_spec() ==> is_unit(r.kp),
    {
        Self { kp: unit() }
    }

    /// The gain may be multiplied with `error`, whichever clone of it is
    /// taken.
    pub open spec fn can_scale<U>(self, error: U) -> bool where T: Mul<U> + Clone {
        forall|k: T| #[trigger] cloned(self.kp, k) ==> k.mul_req(error)
    }

    /// `r` is the product of a clone of the gain with `error`. Where cloning
    /// `T` gives the value back, that is `kp · error`.
    pub open spec fn scales_to<U>(self, error: U, r: T::Output) -> bool where T: Mul<U> + Clone {
        exists|k: T| #[trigger] cloned(self.kp, k) && r == k.mul_spec(error)
    }

    /// The proportional response to the error between `target` and `actual`.
    pub fn control<U>(self, target: U, actual: U) -> (r: T::Output) where
        T: Mul<U> + Clone,
        U: Sub<Output = U>,

        requires
            U::obeys_sub_spec(),
            target.sub_req(actual),
            self.can_scale(target.sub_spec(actual)),
        ensures
            T::obeys_mul_spec() ==> self.scales_to(target.sub_spec(actual), r),
    {
        let error = error(target, actual);
        self.control_with_error(error)
    }

    /// The proportional response to `error`.
    pub fn control_with_error<U>(&self, error: U) -> (r: T::Output) where T: Mul<U> + Clone
        requires
            self.can_scale(error),
        ensures
            T::obeys_mul_spec() ==> self.scales_to(error, r),
    {
        let k = self.kp.clone();
        assert(cloned(self.kp, k));
        k * error
    }
}

/// Proportional-derivative controller
#[derive(Clone, Debug)]
pub struct PD<T> {
    pub p: P<T>,
    pub kd: T,
}

impl<T> PD<T> {
    /// The derivative gain for a time constant:
    /// `(1 / tc) · (1 + (1 + 1) · tc · tc)`, with `unit` for 1.
    pub open spec fn rate_gain(unit: T, time_constant: T) -> T where
        T: Add<Output = T> + Div<Output = T> + Mul<Output = T>,
     {
        unit.div_spec(time_constant).mul_spec(
            unit.add_spec(unit.add_spec(unit).mul_spec(time_constant).mul_spec(time_constant)),
        )
    }

    /// Every operation of [`PD::rate_gain`] is permitted on these values.
    pub open spec fn rate_gain_defined(unit: T, time_constant: T) -> bool where
        T: Add<Output = T> + Div<Output = T> + Mul<Output = T>,
     {
        let two = unit.add_spec(unit);
        let doubled = two.mul_spec(time_constant);
        let weight = unit.add_spec(doubled.mul_spec(time_constant));
        &&& unit.div_req(time_constant)
        &&& unit.add_req(unit)
        &&& two.mul_req(time_constant)
        &&& doubled.mul_req(time_constant)
        &&& unit.add_req(doubled.mul_spec(time_constant))
        &&& unit.div_spec(time_constant).mul_req(weight)
    }

    /// The controller for a damping ratio and a time constant, given the
    /// number one of `T`.
    pub fn with_unit(unit: T, damping_ratio: T, time_constant: T) -> (r: Self) where
        T: Add<Output = T> + Div<Output = T> + Mul<Output = T> + Copy,

        requires
            P::<T>::gain_obeys(),
            P::<T>::gain_defined(unit, damping_ratio, time_constant),
            Self::rate_gain_defined(unit, time_constant),
        ensures
            r.p.kp == P::<T>::gain(unit, damping_ratio, time_constant),
            r.kd == Self::rate_gain(unit, time_constant),
    {
        let kd = (unit / time_constant) * (unit + (unit + unit) * time_constant * time_constant);
        Self { p: P::with_unit(unit, damping_ratio, time_constant), kd }
    }

    /// The controller for a damping ratio and a time constant.
    ///
    /// The unit comes from `num_traits::One`: it is a multiplicative identity
    /// of `T`, so the operations need be permitted for such a unit only, and
    /// both gains are those of it.
    pub fn new(damping_ratio: T, time_constant: T) -> (r: Self) where
        T: One + Add<Output = T> + Div<Output = T> + Copy,

        requires
            P::<T>::gain_obeys(),
            forall|u: T| #[trigger]
                is_unit(u) ==> P::<T>::gain_defined(u, damping_ratio, time_constant)
                    && Self::rate_gain_defined(u, time_constant),
        ensures
            exists|u: T| #[trigger] is_unit(u),
            forall|u: T| #[trigger]
                is_unit(u) ==> r.p.kp == P::<T>::gain(u, damping_ratio, time_constant) && r.kd
                    == Self::rate_gain(u, time_constant),
    {
        let one: T = unit();
        assert(is_unit(one));
        let r = Self::with_unit(one, damping_ratio, time_constant);
        assert forall|u: T| #[trigger] is_unit(u) implies r.p.kp == P::<T>::gain(
            u,
            damping_ratio,
            time_constant,
        ) && r.kd == Self::rate_gain(u, time_constant) by {
            unit_is_unique(one, u);
        }
        r
    }

    /// The derivative gain may be multiplied with the error of the rates, and
    /// the product added to `p`, whichever clone of the gain is taken.
    pub open spec fn can_damp<U>(self, p: U, target_dot: U, actual_dot: U) -> bool where
        T: Mul<U, Output = U> + Clone,
        U: Add<Output = U> + Sub<Output = U>,
     {
        &&& target_dot.sub_req(actual_dot)
        &&& forall|k: T| #[trigger]
            cloned(self.kd, k) ==> {
                &&& k.mul_req(target_dot.sub_spec(actual_dot))
                &&& k.mul_spec(target_dot.sub_spec(actual_dot)).add_req(p)
            }
    }

    /// `r` is `kd · (target_dot - actual_dot) + p`, with a clone of the gain
    /// for `kd`.
    pub open spec fn damps_to<U>(self, p: U, target_dot: U, actual_dot: U, r: U) -> bool where
        T: Mul<U, Output = U> + Clone,
        U: Add<Output = U> + Sub<Output = U>,
     {
        exists|k: T| #[trigger]
            cloned(self.kd, k) && r == k.mul_spec(target_dot.sub_spec(actual_dot)).add_spec(p)
    }

    /// The response to an error in position and an error in rate: the
    /// proportional response to the first, plus `kd` times the second.
    pub fn control<U>(&self, target: U, target_dot: U, actual: U, actual_dot: U) -> (r: U) where
        T: Mul<U, Output = U> + Sub<Output = T> + Clone,
        U: Add<Output = U> + Sub<Output = U>,

        requires
            U::obeys_sub_spec(),
            U::obeys_add_spec(),
            T::obeys_mul_spec(),
            target.sub_req(actual),
            self.p.can_scale(target.sub_spec(actual)),
            forall|p: U|
                #[trigger] self.p.scales_to(target.sub_spec(actual), p) ==> self.can_damp(
                    p,
                    target_dot,
                    actual_dot,
                ),
        ensures
            exists|p: U|
                {
                    &&& #[trigger] self.p.scales_to(target.sub_spec(actual), p)
                    &&& self.damps_to(p, target_dot, actual_dot, r)
                },
    {
        let p = self.p.control_with_error(error(target, actual));
        self.control_with_p(p, target_dot, actual_dot)
    }

    /// The response to an error in rate, added to a proportional response
    /// `p` that the caller has.
    pub fn control_with_p<U>(&self, p: U, target_dot: U, actual_dot: U) -> (r: U) where
        T: Mul<U, Output = U> + Clone,
        U: Add<Output = U> + Sub<Output = U>,

        requires
            U::obeys_sub_spec(),
            T::obeys_mul_spec(),
            self.can_damp(p, target_dot, actual_dot),
        ensures
            U::obeys_add_spec() ==> self.damps_to(p, target_dot, actual_dot, r),
    {
        let k = self.kd.clone();
        assert(cloned(self.kd, k));
        k * (target_dot - actual_dot) + p
    }
}

} // verus!
