//! The smoothing rule: how a value moves towards its target.

use core::marker::PhantomData;
use core::ops::{Add, Mul, Sub};
use vstd::prelude::*;
use vstd::std_specs::ops::{AddSpec, MulSpec, SubSpec};

verus! {

/// A smoothed attribute, such as a rotation or a translation.
///
/// An implementation is a rule that moves a value part of the way towards a
/// target. What a rule returns is known to its callers as
/// `call_ensures(T::drive, (target, current, percent), next)`: whatever the
/// implementation states in the `ensures` of its `drive`.
pub trait Smoothed {
    /// The type of the attribute's values.
    type Attribute: Copy;

    /// The numbers in which time, retention and progress are measured.
    type Scalar: Copy + From<i8> + Sub<Output = Self::Scalar>;

    /// The inputs on which the rule is defined: all of them, unless an
    /// implementation says otherwise.
    open spec fn well_formed(
        target: Self::Attribute,
        current: Self::Attribute,
        percent: Self::Scalar,
    ) -> bool {
        true
    }

    /// Drives the current value towards the target by `percent`, which runs
    /// from zero (stay at `current`) to one (arrive at `target`).
    fn drive(target: Self::Attribute, current: Self::Attribute, percent: Self::Scalar) -> (next:
        Self::Attribute)
        requires
            Self::well_formed(target, current, percent),
    ;
}

/// Linear interpolation, for anything that can be added, subtracted and scaled.
///
/// `T` is the attribute and `S` the scalar that scales it.
pub struct Translate<T, S>(PhantomData<(T, S)>);

impl<T, S> Translate<T, S> where T: Add<T, Output = T> + Mul<S, Output = T> + Sub<T, Output = T> {
    /// The value that lies `percent` of the way from `current` to `target`:
    /// `current + (target - current) * percent`.
    pub open spec fn interpolated(target: T, current: T, percent: S) -> T {
        current.add_spec(target.sub_spec(current).mul_spec(percent))
    }
}

impl<T, S> Smoothed for Translate<T, S> where
    T: Add<T, Output = T> + Mul<S, Output = T> + Sub<T, Output = T> + Copy,
    S: Copy + From<i8> + Sub<Output = S>,
 {
    type Attribute = T;

    type Scalar = S;

    /// `T` adds, subtracts and scales as `vstd` models it, and none of the
    /// three operations leaves the range of `T`.
    open spec fn well_formed(target: T, current: T, percent: S) -> bool {
        &&& <T as AddSpec<T>>::obeys_add_spec()
        &&& <T as SubSpec<T>>::obeys_sub_spec()
        &&& <T as MulSpec<S>>::obeys_mul_spec()
        &&& target.sub_req(current)
        &&& target.sub_spec(current).mul_req(percent)
        &&& current.add_req(target.sub_spec(current).mul_spec(percent))
    }

    fn drive(target: T, current: T, percent: S) -> (next: T)
        ensures
            next == Self::interpolated(target, current, percent),
    {
        current + (target - current) * percent
    }
}

/// The ends of the linear rule on 64-bit integers, whose arithmetic is exact:
/// at zero the value stays at `current`, at one it arrives at `target`, and
/// the rule is defined at both as long as the distance fits the type.
pub proof fn lemma_translate_ends(target: i64, current: i64)
    requires
        i64::MIN <= target - current <= i64::MAX,
    ensures
        Translate::<i64, i64>::well_formed(target, current, 0),
        Translate::<i64, i64>::well_formed(target, current, 1),
        Translate::<i64, i64>::interpolated(target, current, 0) == current,
        Translate::<i64, i64>::interpolated(target, current, 1) == target,
{
}

} // verus!
