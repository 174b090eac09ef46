use crate::controlled::{Controlled, ControlledPrivate};
use crate::equatable::ConstantTimeEq;
use crate::safe_deserialize::{DecodeError, SafeDeserialize};
use crate::safe_serialize::SafeSerialize;
use crate::private::ProtectSealed;
use vstd::prelude::*;

verus! {

/// A controlled wrapper that adds safe serialization to whatever it wraps.
/// Without this adapter a controlled value has no serialized form at all,
/// so secret-shaped data cannot silently acquire an unsafe encoding.
/// `Exportable` layers freely with the other capability adapters, in any
/// order and to any depth.
#[derive(Clone, Copy)]
pub struct Exportable<T>(pub(crate) T);

impl<T> ProtectSealed for Exportable<T> {}

impl<T: ControlledPrivate> ControlledPrivate for Exportable<T> {
    type Inner = T::Inner;

    closed spec fn raw(&self) -> T::Inner {
        self.0.raw()
    }

    fn init_from_inner(x: T::Inner) -> (r: Self) {
        Exportable(T::init_from_inner(x))
    }

    fn inner(&self) -> (r: &T::Inner) {
        self.0.inner()
    }
}

impl<T: Controlled> Controlled for Exportable<T> {
    fn risky_unwrap(self) -> (r: T::Inner) {
        self.0.risky_unwrap()
    }
}

impl<T> crate::Protected<T> {
    /// Add the safe-serialization capability to this value.
    pub fn exportable(self) -> (r: Exportable<crate::Protected<T>>)
        ensures
            r.raw() == self.raw(),
    {
        Exportable(self)
    }
}

impl<T: ControlledPrivate> Exportable<T> {
    /// Wrap a raw value so that it can be serialized safely.
    pub fn new(x: T::Inner) -> (r: Self)
        ensures
            r.raw() == x,
    {
        Exportable(T::init_from_inner(x))
    }
}

impl<T: ControlledPrivate> crate::Equatable<T> {
    /// Add the safe-serialization capability on top.
    pub fn exportable(self) -> (r: Exportable<crate::Equatable<T>>)
        ensures
            r.raw() == self.raw(),
    {
        Exportable(self)
    }
}

/// An `Exportable` wipes by wiping what it wraps.
impl<T: crate::Wipe> crate::Wipe for Exportable<T> {
    closed spec fn wiped(&self) -> bool {
        self.0.wiped()
    }

    fn wipe(&mut self) {
        self.0.wipe();
    }
}

/// An `Exportable` over a zeroable wrapper starts out wiped.
impl<T: crate::Zeroed> crate::Zeroed for Exportable<T> {
    fn zeroed() -> (r: Self) {
        Exportable(T::zeroed())
    }
}

impl<T: ControlledPrivate> Exportable<T> where T::Inner: SafeSerialize {
    /// Serialize the raw value by its type-specific safe strategy. The
    /// bytes depend only on the raw value, never on the adapter nesting.
    pub fn encode(&self) -> (r: Vec<u8>)
        ensures
            r@ == self.raw().encoding(),
    {
        let mut out: Vec<u8> = Vec::new();
        self.inner().safe_serialize(&mut out);
        out
    }
}

impl<T: ControlledPrivate> crate::Equatable<T> where T::Inner: SafeSerialize {
    /// Serialize the raw value by its type-specific safe strategy, from
    /// under the equality adapter.
    pub fn encode(&self) -> (r: Vec<u8>)
        ensures
            r@ == self.raw().encoding(),
    {
        let mut out: Vec<u8> = Vec::new();
        self.inner().safe_serialize(&mut out);
        out
    }
}

impl<T: ControlledPrivate> Exportable<T> where T::Inner: SafeDeserialize {
    /// Deserialize a raw value from a whole byte string and rewrap it. The
    /// result is `Ok` exactly when the bytes are one complete, valid
    /// encoding of a raw value; the error says which way they are not.
    pub fn decode(bytes: &[u8]) -> (r: Result<Self, DecodeError>)
        ensures
            match r {
                Ok(v) => <T::Inner as SafeDeserialize>::spec_decode(bytes@, 0) matches Ok((w, e))
                    && v.raw().eq_spec(&w) && e == bytes@.len(),
                Err(err) => match <T::Inner as SafeDeserialize>::spec_decode(bytes@, 0) {
                    Ok((w, e)) => e != bytes@.len() && err == DecodeError::TrailingBytes,
                    Err(e2) => err == e2,
                },
            },
    {
        match <T::Inner as SafeDeserialize>::safe_deserialize(bytes, 0) {
            Ok((v, end)) => {
                if end == bytes.len() {
                    Ok(Exportable(T::init_from_inner(v)))
                } else {
                    Err(DecodeError::TrailingBytes)
                }
            },
            Err(e) => Err(e),
        }
    }
}

/// Round trip: decoding a value's encoding always succeeds, consumes the
/// whole byte string, and yields a value equal to the original under
/// constant-time equality. Together with the contracts of
/// [`Exportable::encode`] and [`Exportable::decode`], whose byte strings
/// and results depend only on raw values, the round trip holds whatever
/// adapter nesting stands on either side.
pub proof fn lemma_round_trip<I: SafeDeserialize>(v: I)
    requires
        v.encoding().len() <= u64::MAX,
    ensures
        I::spec_decode(v.encoding(), 0) matches Ok((w, end)) && w.eq_spec(&v) && end
            == v.encoding().len(),
{
    assert(v.encoding().subrange(0, v.encoding().len() as int) =~= v.encoding());
    v.lemma_decode_encode(v.encoding(), 0);
}

/// The equality operator on `Exportable` is the constant-time comparison
/// of the raw values, whatever adapters the other side carries.
impl<T, O> PartialEq<O> for Exportable<T> where
    T: ControlledPrivate,
    O: ControlledPrivate<Inner = T::Inner>,
    T::Inner: ConstantTimeEq,
 {
    fn eq(&self, other: &O) -> (r: bool) {
        self.inner().constant_time_eq(other.inner())
    }
}

impl<T, O> vstd::std_specs::cmp::PartialEqSpecImpl<O> for Exportable<T> where
    T: ControlledPrivate,
    O: ControlledPrivate<Inner = T::Inner>,
    T::Inner: ConstantTimeEq,
 {
    open spec fn obeys_eq_spec() -> bool {
        true
    }

    open spec fn eq_spec(&self, other: &O) -> bool {
        self.raw().eq_spec(&other.raw())
    }
}

} // verus!
