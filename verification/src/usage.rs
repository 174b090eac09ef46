use crate::controlled::{Controlled, ControlledPrivate};
use crate::private::ProtectSealed;
use crate::Protected;
use core::marker::PhantomData;
use vstd::prelude::*;

verus! {

/// Marker trait for a type that defines a usage scope. A scope exists only
/// at compile time; it has no runtime representation and does not affect
/// the wipe guarantee.
pub trait Scope {}

/// Marker trait for types that are acceptable in a certain scope. A
/// function that demands scope `S` bounds its parameter by
/// `Acceptable<S>`; passing a value tagged for another scope is then a
/// compile error, with no residual runtime check.
pub trait Acceptable<S> where S: Scope {

}

/// The one default scope, so that ordinary untagged protected values are
/// usable wherever the default scope is accepted.
pub struct DefaultScope;

impl Scope for DefaultScope {}

impl<T> Acceptable<DefaultScope> for Protected<T> {}

/// A controlled wrapper that tags a value with a compile-time usage scope.
/// The tag restricts which functions may accept the value; it adds no
/// runtime state and forwards every controlled operation to what it
/// wraps.
pub struct Usage<T, S = DefaultScope>(pub(crate) T, pub(crate) PhantomData<S>);

impl<T, S> ProtectSealed for Usage<T, S> {}

impl<T, S> Acceptable<S> for Usage<T, S> where S: Scope {}

impl<T: ControlledPrivate, S> ControlledPrivate for Usage<T, S> {
    type Inner = T::Inner;

    closed spec fn raw(&self) -> T::Inner {
        self.0.raw()
    }

    fn init_from_inner(x: T::Inner) -> (r: Self) {
        Usage(T::init_from_inner(x), PhantomData)
    }

    fn inner(&self) -> (r: &T::Inner) {
        self.0.inner()
    }
}

impl<T: Controlled, S> Controlled for Usage<T, S> {
    fn risky_unwrap(self) -> (r: T::Inner) {
        self.0.risky_unwrap()
    }
}

impl<T: ControlledPrivate, S: Scope> Usage<T, S> {
    /// Wrap a raw value and tag it for scope `S`.
    pub fn new(x: T::Inner) -> (r: Self)
        ensures
            r.raw() == x,
    {
        Usage(T::init_from_inner(x), PhantomData)
    }
}

} // verus!
