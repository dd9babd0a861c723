//! The state of one smoothed attribute.

use crate::smoothing::{lemma_translate_ends, Smoothed, Translate};
use core::ops::{Add, Div, Mul, Sub};
use vstd::prelude::*;
use vstd::std_specs::convert::FromSpec;
use vstd::std_specs::ops::{DivSpec, MulSpec, SubSpec};

verus! {

/// The current state of a smoothed attribute.
#[derive(Copy, Clone, Debug)]
pub struct TransformComponent<T: Smoothed> {
    /// How closely the current value follows the target: the fraction of the
    /// distance to the target that is left after one second. Near zero the
    /// value follows closely, near one it follows lazily.
    pub retention: T::Scalar,
    /// The current value.
    pub current: T::Attribute,
    /// The target value.
    pub target: T::Attribute,
}

impl<T: Smoothed> TransformComponent<T> {
    /// The part of the distance to the target that a step closes when it leaves
    /// `kept` of it: one minus `kept`.
    pub open spec fn percent(kept: T::Scalar) -> T::Scalar {
        T::Scalar::from_spec(1i8).sub_spec(kept)
    }

    /// Whether a step that leaves `kept` of the distance is defined: the
    /// scalars convert and subtract as `vstd` models it, `kept` can be taken
    /// from one, and the smoothing rule is defined on the outcome.
    pub open spec fn can_retain(self, kept: T::Scalar) -> bool {
        &&& <T::Scalar as FromSpec<i8>>::obeys_from_spec()
        &&& <T::Scalar as SubSpec<T::Scalar>>::obeys_sub_spec()
        &&& T::Scalar::from_spec(1i8).sub_req(kept)
        &&& T::well_formed(self.target, self.current, Self::percent(kept))
    }

    /// What a step that leaves `kept` of the distance to the target does:
    /// `after` is the component with its current value replaced by one that
    /// the smoothing rule gives for the part that the step closes.
    pub open spec fn eases_to(self, kept: T::Scalar, after: Self) -> bool {
        &&& after.retention == self.retention
        &&& after.target == self.target
        &&& call_ensures(T::drive, (self.target, self.current, Self::percent(kept)), after.current)
    }

    /// Whether the component can be driven by `delta_time` with the power
    /// function `pow`: `pow` accepts the retention and the time, and whatever it
    /// returns can be retained.
    pub open spec fn drivable<P: Fn(T::Scalar, T::Scalar) -> T::Scalar>(
        self,
        delta_time: T::Scalar,
        pow: P,
    ) -> bool {
        &&& call_requires(pow, (self.retention, delta_time))
        &&& forall|kept: T::Scalar|
            call_ensures(pow, (self.retention, delta_time), kept) ==> self.can_retain(kept)
    }

    /// What driving the component by `delta_time` does: the step leaves of the
    /// distance what `pow` returns for the retention and the time.
    pub open spec fn drives_to<P: Fn(T::Scalar, T::Scalar) -> T::Scalar>(
        self,
        delta_time: T::Scalar,
        pow: P,
        after: Self,
    ) -> bool {
        exists|kept: T::Scalar|
            {
                &&& call_ensures(pow, (self.retention, delta_time), kept)
                &&& self.eases_to(kept, after)
            }
    }

    /// Creates a component with the given retention whose current and target
    /// values are both `initial`.
    pub fn new(retention: T::Scalar, initial: T::Attribute) -> (component: Self)
        ensures
            component == (TransformComponent::<T> { retention, current: initial, target: initial }),
    {
        Self { retention, current: initial, target: initial }
    }

    /// Snaps both the target and the current value to `target`.
    pub fn hard_set(&mut self, target: T::Attribute)
        ensures
            *final(self) == (TransformComponent::<T> {
                retention: old(self).retention,
                current: target,
                target,
            }),
    {
        self.target = target;
        self.current = target;
    }

    /// Moves the current value towards the target so that `kept` of the
    /// distance is left, and returns the new current value.
    pub fn drive_retaining(&mut self, kept: T::Scalar) -> (next: T::Attribute)
        requires
            old(self).can_retain(kept),
        ensures
            old(self).eases_to(kept, *final(self)),
            next == final(self).current,
    {
        let one = T::Scalar::from(1i8);
        let percent = one - kept;
        let new_current = T::drive(self.target, self.current, percent);
        self.current = new_current;
        new_current
    }

    /// Drives the attribute forward by `delta_time` seconds since the last
    /// update, and returns the new current value.
    ///
    /// `pow(retention, delta_time)` is the retention raised to the power of the
    /// elapsed time: the part of the distance that is left. The step closes
    /// the rest.
    pub fn drive<P: Fn(T::Scalar, T::Scalar) -> T::Scalar>(
        &mut self,
        delta_time: T::Scalar,
        pow: &P,
    ) -> (next: T::Attribute)
        requires
            old(self).drivable(delta_time, *pow),
        ensures
            old(self).drives_to(delta_time, *pow, *final(self)),
            next == final(self).current,
    {
        let kept = pow(self.retention, delta_time);
        self.drive_retaining(kept)
    }
}

/// The scalar `count / 100`.
pub open spec fn hundredths<S: From<i8> + Div<Output = S>>(count: i8) -> S {
    S::from_spec(count).div_spec(S::from_spec(100i8))
}

/// Whether `count / 100` can be computed in `S`: the scalars convert and
/// divide as `vstd` models it, and the division is defined.
pub open spec fn has_hundredths<S: From<i8> + Div<Output = S>>(count: i8) -> bool {
    &&& <S as FromSpec<i8>>::obeys_from_spec()
    &&& <S as DivSpec<S>>::obeys_div_spec()
    &&& S::from_spec(count).div_req(S::from_spec(100i8))
}

impl<T, S> TransformComponent<Translate<T, S>> where
    T: Add<T, Output = T> + Mul<S, Output = T> + Sub<T, Output = T> + Copy,
    S: Copy + From<i8> + Sub<Output = S> + Div<Output = S>,
 {
    /// Creates a component at `initial_state` whose retention is `count / 100`.
    fn with_hundredths(count: i8, initial_state: T) -> (component: Self)
        requires
            has_hundredths::<S>(count),
        ensures
            component == (TransformComponent::<Translate<T, S>> {
                retention: hundredths::<S>(count),
                current: initial_state,
                target: initial_state,
            }),
    {
        let retention = S::from(count) / S::from(100i8);
        Self::new(retention, initial_state)
    }

    /// Creates a component with a retention of one hundredth.
    pub fn new_translate(initial_state: T) -> (component: Self)
        requires
            has_hundredths::<S>(1),
        ensures
            component == (TransformComponent::<Translate<T, S>> {
                retention: hundredths::<S>(1),
                current: initial_state,
                target: initial_state,
            }),
    {
        Self::with_hundredths(1, initial_state)
    }

    /// Creates a component with a retention of three hundredths.
    pub fn new_zoom(initial_state: T) -> (component: Self)
        requires
            has_hundredths::<S>(3),
        ensures
            component == (TransformComponent::<Translate<T, S>> {
                retention: hundredths::<S>(3),
                current: initial_state,
                target: initial_state,
            }),
    {
        Self::with_hundredths(3, initial_state)
    }

    /// Creates a component with a retention of four hundredths.
    pub fn new_angle(initial_state: T) -> (component: Self)
        requires
            has_hundredths::<S>(4),
        ensures
            component == (TransformComponent::<Translate<T, S>> {
                retention: hundredths::<S>(4),
                current: initial_state,
                target: initial_state,
            }),
    {
        Self::with_hundredths(4, initial_state)
    }
}

/// A component that is at its target stays there however long it is driven.
/// This is the state in which `hard_set` leaves a component.
///
/// Stated on 64-bit integers, whose arithmetic is exact, for a `pow` that
/// leaves between nothing and the whole of the distance.
pub proof fn lemma_at_target_stays<P: Fn(i64, i64) -> i64>(
    before: TransformComponent<Translate<i64, i64>>,
    after: TransformComponent<Translate<i64, i64>>,
    delta_time: i64,
    pow: P,
)
    requires
        before.current == before.target,
        forall|power: i64|
            call_ensures(pow, (before.retention, delta_time), power) ==> 0 <= power <= 1,
        before.drives_to(delta_time, pow, after),
    ensures
        after == before,
{
    let kept = choose|kept: i64|
        {
            &&& call_ensures(pow, (before.retention, delta_time), kept)
            &&& before.eases_to(kept, after)
        };
    let percent = TransformComponent::<Translate<i64, i64>>::percent(kept);
    assert(0i64.mul_spec(percent) == 0);
}

/// Driving by no time at all leaves the component as it is.
///
/// Stated on 64-bit integers, whose arithmetic is exact, for a `pow` that
/// gives one for the exponent zero.
pub proof fn lemma_no_time_rests<P: Fn(i64, i64) -> i64>(
    before: TransformComponent<Translate<i64, i64>>,
    after: TransformComponent<Translate<i64, i64>>,
    pow: P,
)
    requires
        i64::MIN <= before.target - before.current <= i64::MAX,
        forall|power: i64| call_ensures(pow, (before.retention, 0i64), power) ==> power == 1,
        before.drives_to(0, pow, after),
    ensures
        before.can_retain(1),
        after == before,
{
    lemma_translate_ends(before.target, before.current);
}

/// With a retention of zero, driving by any time above zero arrives at the
/// target.
///
/// Stated on 64-bit integers, whose arithmetic is exact, for a `pow` that
/// gives zero for the base zero and such an exponent.
pub proof fn lemma_no_retention_arrives<P: Fn(i64, i64) -> i64>(
    before: TransformComponent<Translate<i64, i64>>,
    after: TransformComponent<Translate<i64, i64>>,
    delta_time: i64,
    pow: P,
)
    requires
        i64::MIN <= before.target - before.current <= i64::MAX,
        before.retention == 0,
        delta_time > 0,
        forall|power: i64| call_ensures(pow, (0i64, delta_time), power) ==> power == 0,
        before.drives_to(delta_time, pow, after),
    ensures
        before.can_retain(0),
        after == (TransformComponent::<Translate<i64, i64>> {
            retention: 0,
            current: before.target,
            target: before.target,
        }),
{
    lemma_translate_ends(before.target, before.current);
}

} // verus!
