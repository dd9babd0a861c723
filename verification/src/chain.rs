//! Chains of transformations.
//!
//! A chain is built from one component with [`TransformComponent::begin`] and
//! grown with `and_then`. Each link borrows its component and holds the
//! function that projects the component's value to a matrix. Finishing the
//! chain with [`Scaffold::drive`] drives every component once, by the same
//! time, and multiplies the projected matrices so that the first link is
//! applied first.

use crate::component::TransformComponent;
use crate::matrix::{matrix_product, multiply};
use crate::smoothing::Smoothed;
use glam::Mat4;
use vstd::prelude::*;

verus! {

/// The first link of a chain, made by [`TransformComponent::begin`].
pub struct First<'a, T: Smoothed, F: FnOnce(T::Attribute) -> Mat4> {
    /// The component that this link drives.
    pub component: &'a mut TransformComponent<T>,
    /// Projects the component's value to a matrix.
    pub f: F,
}

/// A link that follows the chain `inner`, made by `and_then`.
pub struct Composition<'a, T: Smoothed, F: FnOnce(T::Attribute) -> Mat4, I> {
    /// The component that this link drives.
    pub component: &'a mut TransformComponent<T>,
    /// Projects the component's value to a matrix.
    pub f: F,
    /// The links before this one.
    pub inner: I,
}

/// Whether the link of `component` and `f` can be finished: the component can
/// be driven by `time`, and `f` accepts every value that the step may leave.
pub open spec fn link_ready<T: Smoothed, F: FnOnce(T::Attribute) -> Mat4, P: Fn(
    T::Scalar,
    T::Scalar,
) -> T::Scalar>(component: TransformComponent<T>, f: F, time: T::Scalar, pow: P) -> bool {
    &&& component.drivable(time, pow)
    &&& forall|after: TransformComponent<T>| #[trigger]
        component.drives_to(time, pow, after) ==> call_requires(f, (after.current,))
}

/// What finishing one link does: the component `before` is driven once by
/// `time` and becomes `after`, and `matrix` is what `f` projects the new
/// current value to.
pub open spec fn link_driven<T: Smoothed, F: FnOnce(T::Attribute) -> Mat4, P: Fn(
    T::Scalar,
    T::Scalar,
) -> T::Scalar>(
    before: TransformComponent<T>,
    after: TransformComponent<T>,
    f: F,
    time: T::Scalar,
    pow: P,
    matrix: Mat4,
) -> bool {
    &&& before.drives_to(time, pow, after)
    &&& call_ensures(f, (after.current,), matrix)
}

/// A chain of transformations that can be finished with a power function of
/// type `P`.
pub trait Scaffold<P: Fn(Self::Scalar, Self::Scalar) -> Self::Scalar>: Sized {
    /// The numbers in which the chain measures time.
    type Scalar: Copy;

    /// Whether the chain can be finished with `time` and `pow`: every link of
    /// it can (see [`link_ready`]). [`lemma_first_ready`] and
    /// [`lemma_composition_ready`] say so for the two kinds of chain.
    spec fn ready(self, time: Self::Scalar, pow: P) -> bool;

    /// Finishes the series of transformations: drives each component by `time`
    /// and returns the product of the matrices.
    ///
    /// What the components and the matrix are afterwards is stated by each
    /// kind of chain for itself, where its links are in sight: see the
    /// implementations for [`First`] and [`Composition`].
    fn drive(self, time: Self::Scalar, pow: &P) -> (matrix: Mat4)
        requires
            self.ready(time, *pow),
    ;
}

impl<'a, T, F, P> Scaffold<P> for First<'a, T, F> where
    T: Smoothed,
    F: FnOnce(T::Attribute) -> Mat4,
    P: Fn(T::Scalar, T::Scalar) -> T::Scalar,
 {
    type Scalar = T::Scalar;

    open spec fn ready(self, time: T::Scalar, pow: P) -> bool {
        link_ready(*self.component, self.f, time, pow)
    }

    /// Drives the one component once and projects its new value to the
    /// matrix.
    fn drive(self, time: T::Scalar, pow: &P) -> (matrix: Mat4)
        ensures
            link_driven(*old(self.component), *final(self.component), self.f, time, *pow, matrix),
    {
        let attrib = self.component.drive(time, pow);
        (self.f)(attrib)
    }
}

impl<'a, T, F, I, P> Scaffold<P> for Composition<'a, T, F, I> where
    T: Smoothed,
    F: FnOnce(T::Attribute) -> Mat4,
    P: Fn(T::Scalar, T::Scalar) -> T::Scalar,
    I: Scaffold<P, Scalar = T::Scalar>,
 {
    type Scalar = T::Scalar;

    open spec fn ready(self, time: T::Scalar, pow: P) -> bool {
        &&& self.inner.ready(time, pow)
        &&& link_ready(*self.component, self.f, time, pow)
    }

    /// Finishes the links before this one, which gives the matrix `before`,
    /// then drives this link's component once, projects its new value to the
    /// matrix `own`, and returns `own * before`.
    fn drive(self, time: T::Scalar, pow: &P) -> (matrix: Mat4)
        ensures
            exists|own: Mat4, before: Mat4|
                {
                    &&& call_ensures(<I as Scaffold<P>>::drive, (self.inner, time, pow), before)
                    &&& link_driven(
                        *old(self.component),
                        *final(self.component),
                        self.f,
                        time,
                        *pow,
                        own,
                    )
                    &&& matrix == matrix_product(own, before)
                },
    {
        let inner = self.inner.drive(time, pow);
        let attrib = self.component.drive(time, pow);
        multiply((self.f)(attrib), inner)
    }
}

impl<'a, T: Smoothed, F: FnOnce(T::Attribute) -> Mat4> First<'a, T, F> {
    /// Queues another transformation to happen after this one.
    pub fn and_then<'b, U: Smoothed<Scalar = T::Scalar>, G: FnOnce(U::Attribute) -> Mat4>(
        self,
        next: &'b mut TransformComponent<U>,
        f: G,
    ) -> (chain: Composition<'b, U, G, Self>) where Self: 'b
        ensures
            chain.inner == self,
            chain.f == f,
            *chain.component == *old(next),
            *final(chain.component) == *final(next),
    {
        Composition { component: next, f, inner: self }
    }
}

impl<'a, T: Smoothed, F: FnOnce(T::Attribute) -> Mat4, I> Composition<'a, T, F, I> {
    /// Queues another transformation to happen after the previous ones.
    pub fn and_then<'b, U: Smoothed<Scalar = T::Scalar>, G: FnOnce(U::Attribute) -> Mat4>(
        self,
        next: &'b mut TransformComponent<U>,
        f: G,
    ) -> (chain: Composition<'b, U, G, Self>) where Self: 'b
        ensures
            chain.inner == self,
            chain.f == f,
            *chain.component == *old(next),
            *final(chain.component) == *final(next),
    {
        Composition { component: next, f, inner: self }
    }
}

impl<T: Smoothed> TransformComponent<T> {
    /// Begins a chain of transformations with this component.
    ///
    /// `f` turns the component's value into a matrix, so that the chain can
    /// multiply it with those of the links that follow.
    pub fn begin<F: FnOnce(T::Attribute) -> Mat4>(&mut self, f: F) -> (head: First<'_, T, F>)
        ensures
            head.f == f,
            *head.component == *old(self),
            *final(head.component) == *final(self),
    {
        First { component: self, f }
    }
}

/// A chain of one link can be finished exactly when that link can. A caller
/// shows with it that [`Scaffold::drive`] may be called on such a chain.
pub proof fn lemma_first_ready<T, F, P>(head: First<'_, T, F>, time: T::Scalar, pow: P) where
    T: Smoothed,
    F: FnOnce(T::Attribute) -> Mat4,
    P: Fn(T::Scalar, T::Scalar) -> T::Scalar,

    ensures
        head.ready(time, pow) <==> link_ready(*old(head.component), head.f, time, pow),
{
}

/// A longer chain can be finished exactly when the links before the last one
/// can, and the last one can. A caller shows with it, link by link, that
/// [`Scaffold::drive`] may be called on such a chain.
pub proof fn lemma_composition_ready<T, F, I, P>(
    chain: Composition<'_, T, F, I>,
    time: T::Scalar,
    pow: P,
) where
    T: Smoothed,
    F: FnOnce(T::Attribute) -> Mat4,
    P: Fn(T::Scalar, T::Scalar) -> T::Scalar,
    I: Scaffold<P, Scalar = T::Scalar>,

    ensures
        chain.ready(time, pow) <==> {
            &&& chain.inner.ready(time, pow)
            &&& link_ready(*old(chain.component), chain.f, time, pow)
        },
{
}

/// The first link attached is applied first.
///
/// Take the chain `a.begin(fa).and_then(b, fb).and_then(c, fc)`. Whatever
/// matrix finishing it returns, each of the three components has been driven
/// once by the same `time`, `fa`, `fb` and `fc` have projected the new current
/// values to matrices `ma`, `mb` and `mc`, and the result is the product
/// `mc * (mb * ma)`.
pub proof fn lemma_chain_order<TA, FA, TB, FB, TC, FC, P>(
    chain: Composition<'_, TC, FC, Composition<'_, TB, FB, First<'_, TA, FA>>>,
    time: TA::Scalar,
    pow: &P,
    matrix: Mat4,
) where
    TA: Smoothed,
    TB: Smoothed<Scalar = TA::Scalar>,
    TC: Smoothed<Scalar = TA::Scalar>,
    FA: FnOnce(TA::Attribute) -> Mat4,
    FB: FnOnce(TB::Attribute) -> Mat4,
    FC: FnOnce(TC::Attribute) -> Mat4,
    P: Fn(TA::Scalar, TA::Scalar) -> TA::Scalar,

    requires
        call_ensures(
            <Composition<'_, TC, FC, Composition<'_, TB, FB, First<'_, TA, FA>>> as Scaffold<
                P,
            >>::drive,
            (chain, time, pow),
            matrix,
        ),
    ensures
        exists|ma: Mat4, mb: Mat4, mc: Mat4|
            {
                &&& link_driven(
                    *old(chain.inner.inner.component),
                    *final(chain.inner.inner.component),
                    chain.inner.inner.f,
                    time,
                    *pow,
                    ma,
                )
                &&& link_driven(
                    *old(chain.inner.component),
                    *final(chain.inner.component),
                    chain.inner.f,
                    time,
                    *pow,
                    mb,
                )
                &&& link_driven(
                    *old(chain.component),
                    *final(chain.component),
                    chain.f,
                    time,
                    *pow,
                    mc,
                )
                &&& matrix == matrix_product(mc, matrix_product(mb, ma))
            },
{
}

} // verus!
