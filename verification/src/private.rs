use vstd::prelude::*;

verus! {

/// Marker trait that seals the controlled family: only types of this crate
/// implement it, so no outside type can join the family and bypass its
/// invariants.
pub trait ProtectSealed {}

impl<T> ProtectSealed for crate::Protected<T> {}

} // verus!
