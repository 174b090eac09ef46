use crate::wipe::Wipe;
use vstd::prelude::*;

verus! {

/// Construct a value that already carries the wipe pattern: all-zero
/// numbers and arrays. The result satisfies the same predicate that
/// [`Wipe::wipe`] establishes, so a zeroed value is indistinguishable from
/// a wiped one.
pub trait Zeroed: Wipe {
    /// A fresh value in the wiped state.
    fn zeroed() -> (r: Self)
        ensures
            r.wiped();
}

impl Zeroed for u8 {
    fn zeroed() -> (r: Self) {
        0
    }
}

impl Zeroed for u16 {
    fn zeroed() -> (r: Self) {
        0
    }
}

impl Zeroed for u32 {
    fn zeroed() -> (r: Self) {
        0
    }
}

impl Zeroed for u64 {
    fn zeroed() -> (r: Self) {
        0
    }
}

impl Zeroed for u128 {
    fn zeroed() -> (r: Self) {
        0
    }
}

impl Zeroed for usize {
    fn zeroed() -> (r: Self) {
        0
    }
}

impl<T: Zeroed + Copy, const N: usize> Zeroed for [T; N] {
    fn zeroed() -> (r: Self) {
        let z = T::zeroed();
        [z;N]
    }
}

/// A protected wrapper over a zeroable raw type starts out wiped.
impl<T: Zeroed> Zeroed for crate::Protected<T> {
    fn zeroed() -> (r: Self) {
        crate::Protected::new(T::zeroed())
    }
}

} // verus!
