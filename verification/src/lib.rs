//! Types that keep sensitive in-memory values (keys, passwords, digests)
//! from leaking through careless code paths. A raw secret is wrapped once,
//! in a [`Protected`], and from then on every computation happens through
//! capability adapters and combinators whose contracts are verified; the
//! raw value comes back out only through the explicitly named
//! `risky_unwrap` escape hatch.

mod aead;
mod as_protected_ref;
mod controlled;
mod digest;
mod equatable;
mod exportable;
mod indexable;
mod password;
mod permutation;
mod private;
mod random;
mod redacted;
mod safe_deserialize;
mod safe_serialize;
mod traits;
mod usage;
mod wipe;
mod zeroed;

pub use aead::{Aad, Aead, AeadCore, AeadError, CipherText, CipherTextBuilder, CipherTextReader, CiphertextAndTagReader, EncryptedWithTag, Nonce, NonceGenerator, NonceWritten, Plaintext, PlaintextWritten, RandomNonceGenerator};
pub use as_protected_ref::{AsProtectedRef, ByteSource, ProtectedRef};
pub use controlled::{Controlled, ControlledPrivate};
pub use digest::{DigestAlgo, ProtectedDigest, Sha256, Sha384};
pub use equatable::{lemma_constant_time_eq_reflexive, lemma_constant_time_eq_symmetric, lemma_equality_ignores_nesting, ConstantTimeEq, Equatable, SupportsConstantTimeEq};
pub use exportable::{lemma_round_trip, Exportable};
pub use indexable::Indexable;
pub use password::{AlphaNumericPassword, AlphaPassword, Password};
pub use permutation::{depermute_array, identity, lemma_depermute_undoes_permute, permute_array, Depermute, IsPermutable, Permute, PermutationKey};
pub use random::{BoundedRng, Generatable, RandomError, SafeRand};
pub use redacted::{RedactedDebug, TypeLabel};
pub use safe_deserialize::{DecodeError, SafeDeserialize};
pub use safe_serialize::SafeSerialize;
pub use traits::{Info, KeySize, OutputSize, Update};
pub use usage::{Acceptable, DefaultScope, Scope, Usage};
pub use wipe::{wipe_and_drop, Wipe};
pub use zeroed::Zeroed;

use vstd::prelude::*;

verus! {

/// The earlier name of the constant-time equality adapter, kept so that
/// callers of that surface keep working.
pub type SafeEq<T> = Equatable<T>;

/// The most basic controlled type: owns exactly one raw value and hides it
/// from generic access. The raw value is reachable only through the
/// crate's controlled operations. Copying is opt-in, and only for
/// trivially copyable raw types; each copy then stands under its own
/// protections.
#[derive(Clone, Copy)]
pub struct Protected<T>(pub(crate) T);

impl<T> Protected<T> {
    /// Wrap a raw value. This is the single entry point through which a
    /// secret enters the controlled family.
    pub fn new(x: T) -> (r: Self)
        ensures
            r.raw() == x,
    {
        Protected(x)
    }
}

impl<T> ControlledPrivate for Protected<T> {
    type Inner = T;

    closed spec fn raw(&self) -> T {
        self.0
    }

    fn init_from_inner(x: T) -> (r: Self) {
        Protected(x)
    }

    fn inner(&self) -> (r: &T) {
        &self.0
    }
}

impl<T> Controlled for Protected<T> {
    fn risky_unwrap(self) -> (r: T) {
        self.0
    }
}

impl<T> Protected<T> {
    /// Produce the raw value by a caller-supplied closure and wrap it
    /// before this constructor returns, so that the secret never exists
    /// unwrapped outside the closure.
    pub fn generate<F: FnOnce() -> T>(f: F) -> (r: Self)
        requires
            call_requires(f, ()),
        ensures
            call_ensures(f, (), r.raw()),
    {
        Protected(f())
    }

    /// Like [`Protected::generate`], for a closure that can fail. On
    /// failure nothing is wrapped (there was no secret to protect) and the
    /// error passes through unchanged.
    pub fn generate_ok<F: FnOnce() -> Result<T, E>, E>(f: F) -> (r: Result<Self, E>)
        requires
            call_requires(f, ()),
        ensures
            (r matches Ok(p) ==> call_ensures(f, (), Ok::<T, E>(p.raw()))),
            (r matches Err(e) ==> call_ensures(f, (), Err::<T, E>(e))),
    {
        match f() {
            Ok(v) => Ok(Protected(v)),
            Err(e) => Err(e),
        }
    }

    /// Apply a function to the raw value and rewrap the result. Ownership
    /// of the raw value passes to the closure, so no residual copy is left
    /// at this step.
    pub fn map<U, F: FnOnce(T) -> U>(self, f: F) -> (r: Protected<U>)
        requires
            call_requires(f, (self.raw(),)),
        ensures
            call_ensures(f, (self.raw(),), r.raw()),
    {
        Protected(f(self.0))
    }

    /// Combine two controlled values with a function of both raw values.
    pub fn zip<O: Controlled, U, F: FnOnce(T, O::Inner) -> U>(self, b: O, f: F) -> (r: Protected<
        U,
    >)
        requires
            call_requires(f, (self.raw(), b.raw())),
        ensures
            call_ensures(f, (self.raw(), b.raw()), r.raw()),
    {
        let other = b.risky_unwrap();
        Protected(f(self.0, other))
    }

    /// Replace the raw value in place: the closure reads the current value
    /// by reference and returns its replacement, so the secret never moves
    /// out of the wrapper.
    pub fn update<F: FnOnce(&T) -> T>(&mut self, f: F)
        requires
            call_requires(f, (&old(self).raw(),)),
        ensures
            call_ensures(f, (&old(self).raw(),), final(self).raw()),
    {
        self.0 = f(&self.0);
    }

    /// Like [`Protected::update`], with a second controlled value whose
    /// raw content the closure may use.
    pub fn update_with<O: Controlled, F: FnOnce(&T, O::Inner) -> T>(&mut self, other: O, f: F)
        requires
            call_requires(f, (&old(self).raw(), other.raw())),
        ensures
            call_ensures(f, (&old(self).raw(), other.raw()), final(self).raw()),
    {
        let o = other.risky_unwrap();
        self.0 = f(&self.0, o);
    }
}

impl<T: Copy> Protected<T> {
    /// Read the raw value out of a borrowed wrapper (crate-internal).
    pub(crate) fn get(&self) -> (r: T)
        ensures
            r == self.raw(),
    {
        self.0
    }
}

impl<T: Copy, const N: usize> Protected<[T; N]> {
    /// Hand out the elements of an array-valued wrapper, each protected on
    /// its own. The sequence is finite and consumed by the caller.
    pub fn iter(&self) -> (r: Vec<Protected<T>>)
        ensures
            r@.len() == N,
            forall|i: int| 0 <= i < N ==> (#[trigger] r@[i]).raw() == self.raw()[i],
    {
        let mut out: Vec<Protected<T>> = Vec::new();
        let mut i: usize = 0;
        while i < N
            invariant
                i <= N,
                out@.len() == i,
                forall|j: int| 0 <= j < i ==> (#[trigger] out@[j]).raw() == self.raw()[j],
            decreases N - i,
        {
            out.push(Protected(self.0[i]));
            i = i + 1;
        }
        out
    }
}

/// Flatten an array of protected values into one protected array.
pub fn flatten_array<const N: usize, T>(array: [Protected<T>; N]) -> (r: Protected<[T; N]>) where
    T: Copy + Default,

    ensures
        forall|i: int| 0 <= i < N ==> r.raw()[i] == (#[trigger] array[i]).raw(),
{
    let placeholder: T = Default::default();
    let mut out: [T; N] = [placeholder;N];
    let mut i: usize = 0;
    while i < N
        invariant
            i <= N,
            forall|j: int| 0 <= j < i ==> out[j] == (#[trigger] array[j]).raw(),
        decreases N - i,
    {
        out[i] = array[i].get();
        i = i + 1;
    }
    Protected(out)
}

/// A wrapper over a wipeable value can always be wiped in place.
impl<T: Wipe> Wipe for Protected<T> {
    open spec fn wiped(&self) -> bool {
        self.raw().wiped()
    }

    fn wipe(&mut self) {
        self.0.wipe();
    }
}

impl<const N: usize> Protected<[u8; N]> {
    /// Wrap a byte buffer of exactly `N` bytes, as produced by a digest or
    /// MAC computation, as a protected fixed-size array. A buffer of any
    /// other length is rejected.
    pub fn from_digest_bytes(v: Vec<u8>) -> (r: Option<Self>)
        ensures
            match r {
                Some(p) => p.raw()@ == v@ && v@.len() == N,
                None => v@.len() != N,
            },
    {
        if v.len() != N {
            return None;
        }
        let mut out: [u8; N] = [0;N];
        let mut i: usize = 0;
        while i < N
            invariant
                i <= N,
                v@.len() == N,
                forall|j: int| 0 <= j < i ==> (#[trigger] out@[j]) == v@[j],
            decreases N - i,
        {
            out[i] = v[i];
            i = i + 1;
        }
        proof {
            assert(out@ =~= v@);
        }
        Some(Protected(out))
    }
}

impl Protected<String> {
    /// Build a protected string from a fixed array of characters; the
    /// string holds exactly those characters in order.
    pub fn from_chars<const N: usize>(x: [char; N]) -> (r: Self)
        ensures
            r.raw()@ == x@,
    {
        let mut out = String::new();
        let mut i: usize = 0;
        while i < N
            invariant
                i <= N,
                out@ == x@.subrange(0, i as int),
            decreases N - i,
        {
            crate::redacted::string_push(&mut out, x[i]);
            proof {
                assert(out@ =~= x@.subrange(0, i + 1));
            }
            i = i + 1;
        }
        proof {
            assert(x@.subrange(0, N as int) =~= x@);
        }
        Protected(out)
    }
}

impl<T> Protected<Protected<T>> {
    /// Remove exactly one level of nesting, like `Option::flatten`.
    pub fn flatten(self) -> (r: Protected<T>)
        ensures
            r == self.raw(),
    {
        self.0
    }
}

impl<T> Protected<Option<T>> {
    /// Turn a protected optional value into an optional protected value,
    /// like `Option::transpose`.
    pub fn transpose(self) -> (r: Option<Protected<T>>)
        ensures
            match self.raw() {
                Some(v) => r matches Some(p) && p.raw() == v,
                None => r is None,
            },
    {
        match self.0 {
            Some(v) => Some(Protected(v)),
            None => None,
        }
    }
}

/// The value that wrapping `x` yields, as a spec-level constructor.
pub closed spec fn spec_wrap<T>(x: T) -> Protected<T> {
    Protected(x)
}

/// The spec-level wrap constructor wraps exactly its argument.
pub proof fn lemma_spec_wrap_raw<T>(x: T)
    ensures
        spec_wrap(x).raw() == x,
{
}

/// Raw values convert into the base wrapper by a single, uniform wrap
/// conversion; no implicit conversion exists in the opposite direction.
impl<T> From<T> for Protected<T> {
    fn from(x: T) -> (r: Self) {
        Protected(x)
    }
}

impl<T> vstd::std_specs::convert::FromSpecImpl<T> for Protected<T> {
    open spec fn obeys_from_spec() -> bool {
        true
    }

    open spec fn from_spec(v: T) -> Self {
        spec_wrap(v)
    }
}

} // verus!

