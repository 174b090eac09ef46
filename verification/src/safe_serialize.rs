use vstd::bytes::*;
use vstd::prelude::*;

verus! {

/// A raw type's serialized form is produced by an explicit, type-specific
/// strategy, never by a generic reflective serializer, so secret-shaped
/// data cannot silently acquire an unsafe encoding. `encoding` is the
/// mathematical byte string of a value; `safe_serialize` appends exactly
/// that string.
///
/// The strategies: numeric primitives use their natural fixed-width
/// little-endian representation (signed ones in two's complement, the
/// pointer-sized one widened to eight bytes); fixed-size byte arrays are
/// length-prefixed byte blobs; strings are length-prefixed UTF-8 text;
/// tuples encode element by element.
pub trait SafeSerialize: Sized {
    /// The byte string this value serializes to.
    spec fn encoding(&self) -> Seq<u8>;

    /// Append the value's encoding to `out`.
    fn safe_serialize(&self, out: &mut Vec<u8>)
        ensures
            final(out)@ == old(out)@ + self.encoding();
}

impl SafeSerialize for u8 {
    open spec fn encoding(&self) -> Seq<u8> {
        seq![*self]
    }

    fn safe_serialize(&self, out: &mut Vec<u8>) {
        out.push(*self);
    }
}

impl SafeSerialize for u16 {
    open spec fn encoding(&self) -> Seq<u8> {
        spec_u16_to_le_bytes(*self)
    }

    fn safe_serialize(&self, out: &mut Vec<u8>) {
        let bytes = u16_to_le_bytes(*self);
        out.extend_from_slice(bytes.as_slice());
    }
}

impl SafeSerialize for u32 {
    open spec fn encoding(&self) -> Seq<u8> {
        spec_u32_to_le_bytes(*self)
    }

    fn safe_serialize(&self, out: &mut Vec<u8>) {
        let bytes = u32_to_le_bytes(*self);
        out.extend_from_slice(bytes.as_slice());
    }
}

impl SafeSerialize for u64 {
    open spec fn encoding(&self) -> Seq<u8> {
        spec_u64_to_le_bytes(*self)
    }

    fn safe_serialize(&self, out: &mut Vec<u8>) {
        let bytes = u64_to_le_bytes(*self);
        out.extend_from_slice(bytes.as_slice());
    }
}

impl SafeSerialize for u128 {
    open spec fn encoding(&self) -> Seq<u8> {
        spec_u128_to_le_bytes(*self)
    }

    fn safe_serialize(&self, out: &mut Vec<u8>) {
        let bytes = u128_to_le_bytes(*self);
        out.extend_from_slice(bytes.as_slice());
    }
}

/// The pointer-sized integer serializes with a fixed width, as eight
/// little-endian bytes, so its encoding does not depend on the machine.
impl SafeSerialize for usize {
    open spec fn encoding(&self) -> Seq<u8> {
        spec_u64_to_le_bytes(*self as u64)
    }

    fn safe_serialize(&self, out: &mut Vec<u8>) {
        let bytes = u64_to_le_bytes(*self as u64);
        out.extend_from_slice(bytes.as_slice());
    }
}

impl SafeSerialize for i8 {
    open spec fn encoding(&self) -> Seq<u8> {
        seq![*self as u8]
    }

    fn safe_serialize(&self, out: &mut Vec<u8>) {
        out.push(#[verifier::truncate] (*self as u8));
    }
}

impl SafeSerialize for i16 {
    open spec fn encoding(&self) -> Seq<u8> {
        spec_u16_to_le_bytes(*self as u16)
    }

    fn safe_serialize(&self, out: &mut Vec<u8>) {
        let bytes = u16_to_le_bytes(#[verifier::truncate] (*self as u16));
        out.extend_from_slice(bytes.as_slice());
    }
}

impl SafeSerialize for i32 {
    open spec fn encoding(&self) -> Seq<u8> {
        spec_u32_to_le_bytes(*self as u32)
    }

    fn safe_serialize(&self, out: &mut Vec<u8>) {
        let bytes = u32_to_le_bytes(#[verifier::truncate] (*self as u32));
        out.extend_from_slice(bytes.as_slice());
    }
}

impl SafeSerialize for i64 {
    open spec fn encoding(&self) -> Seq<u8> {
        spec_u64_to_le_bytes(*self as u64)
    }

    fn safe_serialize(&self, out: &mut Vec<u8>) {
        let bytes = u64_to_le_bytes(#[verifier::truncate] (*self as u64));
        out.extend_from_slice(bytes.as_slice());
    }
}

impl SafeSerialize for i128 {
    open spec fn encoding(&self) -> Seq<u8> {
        spec_u128_to_le_bytes(*self as u128)
    }

    fn safe_serialize(&self, out: &mut Vec<u8>) {
        let bytes = u128_to_le_bytes(#[verifier::truncate] (*self as u128));
        out.extend_from_slice(bytes.as_slice());
    }
}

/// A fixed-size byte array serializes as a length-prefixed byte blob: the
/// length as eight little-endian bytes, then the bytes themselves.
impl<const N: usize> SafeSerialize for [u8; N] {
    open spec fn encoding(&self) -> Seq<u8> {
        spec_u64_to_le_bytes(N as u64) + self@
    }

    fn safe_serialize(&self, out: &mut Vec<u8>) {
        let bytes = u64_to_le_bytes(N as u64);
        out.extend_from_slice(bytes.as_slice());
        out.extend_from_slice(self.as_slice());
    }
}

/// A string serializes as length-prefixed UTF-8 text: the byte length as
/// eight little-endian bytes, then the UTF-8 bytes.
impl SafeSerialize for String {
    open spec fn encoding(&self) -> Seq<u8> {
        spec_u64_to_le_bytes(vstd::utf8::encode_utf8(self@).len() as u64)
            + vstd::utf8::encode_utf8(self@)
    }

    fn safe_serialize(&self, out: &mut Vec<u8>) {
        let utf8 = self.as_str().as_bytes();
        let bytes = u64_to_le_bytes(utf8.len() as u64);
        out.extend_from_slice(bytes.as_slice());
        out.extend_from_slice(utf8);
    }
}

/// A pair serializes element by element, each by its own safe strategy.
impl<A: SafeSerialize, B: SafeSerialize> SafeSerialize for (A, B) {
    open spec fn encoding(&self) -> Seq<u8> {
        self.0.encoding() + self.1.encoding()
    }

    fn safe_serialize(&self, out: &mut Vec<u8>) {
        self.0.safe_serialize(out);
        self.1.safe_serialize(out);
    }
}

/// A triple serializes element by element, each by its own safe strategy.
impl<A: SafeSerialize, B: SafeSerialize, C: SafeSerialize> SafeSerialize for (A, B, C) {
    open spec fn encoding(&self) -> Seq<u8> {
        self.0.encoding() + self.1.encoding() + self.2.encoding()
    }

    fn safe_serialize(&self, out: &mut Vec<u8>) {
        self.0.safe_serialize(out);
        self.1.safe_serialize(out);
        self.2.safe_serialize(out);
    }
}

} // verus!
