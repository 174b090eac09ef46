use crate::private::ProtectSealed;
use vstd::prelude::*;

verus! {

/// The private contract of the controlled family. Every member owns, at the
/// root of its nesting, exactly one raw value of type `Inner`; `raw` is the
/// mathematical view of that value, and the two methods give the sealed ways
/// in and out of the wrapper. Capability adapters implement this trait by
/// delegating to whatever they wrap, so adapters nest in any order and to
/// any depth.
pub trait ControlledPrivate: ProtectSealed + Sized {
    type Inner;

    /// The raw value at the root of the wrapper nest (ghost view).
    spec fn raw(&self) -> Self::Inner;

    /// Build a wrapper nest around a raw value.
    fn init_from_inner(x: Self::Inner) -> (r: Self)
        ensures
            r.raw() == x;

    /// Borrow the raw value (crate-internal use only).
    fn inner(&self) -> (r: &Self::Inner)
        ensures
            *r == self.raw();
}

/// The public face of the controlled family.
pub trait Controlled: ControlledPrivate {
    /// Initialize a new instance of the controlled type from the raw value.
    fn new(inner: Self::Inner) -> (r: Self)
        ensures
            r.raw() == inner,
    {
        Self::init_from_inner(inner)
    }

    /// Unwrap the raw value. This is risky: it consumes the wrapper and
    /// hands ownership of the secret back to the caller, who is from then
    /// on responsible for protecting it. The deliberately loud name keeps
    /// every call site auditable.
    fn risky_unwrap(self) -> (r: Self::Inner)
        ensures
            r == self.raw();

}

} // verus!
