use crate::controlled::Controlled;
use vstd::prelude::*;

verus! {

/// Declares the size of a hash or MAC output of `N` bytes.
pub trait OutputSize<const N: usize> {
    /// The output size in bytes.
    fn size() -> (r: usize)
        ensures
            r == N,
;
}

/// Every controlled wrapper over an `N`-byte array is an `N`-byte output.
impl<const N: usize, T> OutputSize<N> for T where T: Controlled<Inner = [u8; N]> {
    fn size() -> (r: usize) {
        N
    }
}

/// Declares the size of a key of `N` bytes.
pub trait KeySize<const N: usize> {
    /// The key size in bytes.
    fn size() -> (r: usize)
        ensures
            r == N,
;
}

/// Every controlled wrapper over an `N`-byte array is an `N`-byte key.
impl<const N: usize, T> KeySize<N> for T where T: Controlled<Inner = [u8; N]> {
    fn size() -> (r: usize) {
        N
    }
}

/// Feeding input into a hash or MAC computation, with a specific input
/// type so that the input's sensitivity stays visible. Collaborators that
/// drive remote or hardware computations implement this; the crate states
/// nothing of their behaviour.
pub trait Update<T>: Sized {
    /// Feed one piece of input.
    fn update(&mut self, data: T);

    /// Feed one piece of input and hand the computation back, so that
    /// calls chain.
    fn chain(self, data: T) -> Self {
        let mut s = self;
        s.update(data);
        s
    }
}

/// Named type for non-sensitive context data fed into a MAC computation,
/// so that call sites show which inputs are public.
pub struct Info(pub &'static str);

} // verus!
