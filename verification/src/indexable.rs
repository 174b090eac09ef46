use crate::controlled::{Controlled, ControlledPrivate};
use crate::private::ProtectSealed;
use vstd::prelude::*;

verus! {

/// A controlled wrapper reserved for indexed access patterns; it forwards
/// every controlled operation to what it wraps.
pub struct Indexable<T>(pub(crate) T);

impl<T> ProtectSealed for Indexable<T> {}

impl<T: ControlledPrivate> ControlledPrivate for Indexable<T> {
    type Inner = T::Inner;

    closed spec fn raw(&self) -> T::Inner {
        self.0.raw()
    }

    fn init_from_inner(x: T::Inner) -> (r: Self) {
        Indexable(T::init_from_inner(x))
    }

    fn inner(&self) -> (r: &T::Inner) {
        self.0.inner()
    }
}

impl<T: Controlled> Controlled for Indexable<T> {
    fn risky_unwrap(self) -> (r: T::Inner) {
        self.0.risky_unwrap()
    }
}

impl<T: ControlledPrivate> Indexable<T> {
    /// Wrap a raw value for indexed access.
    pub fn new(x: T::Inner) -> (r: Self)
        ensures
            r.raw() == x,
    {
        Indexable(T::init_from_inner(x))
    }
}

} // verus!
