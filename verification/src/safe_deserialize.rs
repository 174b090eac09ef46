use crate::equatable::ConstantTimeEq;
use crate::safe_serialize::SafeSerialize;
use vstd::bytes::*;
use vstd::prelude::*;
use vstd::slice::{slice_index_get, slice_subrange};
use vstd::utf8::{encode_utf8, encode_utf8_decode_utf8, valid_utf8};

verus! {

/// Why a byte string failed to decode.
#[derive(Clone, Copy, Debug, PartialEq, Eq, Structural)]
pub enum DecodeError {
    /// Fewer bytes remain than the value's encoding needs.
    TooShort,
    /// The length prefix of a fixed-size blob names another size.
    LengthMismatch,
    /// The text bytes are not valid UTF-8.
    InvalidUtf8,
    /// The decoded value does not fit the target type on this machine.
    Overflow,
    /// Bytes remain after the value's encoding ends.
    TrailingBytes,
}

/// The decoding side of the safe-serialization engine. `spec_decode` says
/// mathematically which value the bytes starting at `pos` denote and where
/// its encoding ends, or exactly why they denote none; `safe_deserialize`
/// computes it; `lemma_decode_encode` is the round-trip law: decoding an
/// encoding always succeeds and yields a value equal, under constant-time
/// equality, to the one encoded.
pub trait SafeDeserialize: SafeSerialize + ConstantTimeEq {
    /// The value and end position denoted by `bytes` at `pos`, or the
    /// reason there is none.
    spec fn spec_decode(bytes: Seq<u8>, pos: int) -> Result<(Self, int), DecodeError>;

    /// Round trip: wherever a value's encoding sits in a byte string,
    /// decoding there succeeds, consumes exactly the encoding, and yields
    /// an equal value.
    proof fn lemma_decode_encode(&self, bytes: Seq<u8>, pos: int)
        requires
            0 <= pos,
            pos + self.encoding().len() <= bytes.len(),
            self.encoding().len() <= u64::MAX,
            bytes.subrange(pos, pos + self.encoding().len() as int) == self.encoding(),
        ensures
            Self::spec_decode(bytes, pos) matches Ok((w, end)) && w.eq_spec(self) && end == pos
                + self.encoding().len();

    /// Decode one value from `bytes` starting at `pos`; on success also
    /// return the position just past its encoding.
    fn safe_deserialize(bytes: &[u8], pos: usize) -> (r: Result<(Self, usize), DecodeError>)
        requires
            pos <= bytes@.len(),
        ensures
            match r {
                Ok((v, end)) => Self::spec_decode(bytes@, pos as int) matches Ok((w, e))
                    && v.eq_spec(&w) && end == e && pos <= end <= bytes@.len(),
                Err(e) => Self::spec_decode(bytes@, pos as int) matches Err(e2) && e == e2,
            };
}

impl SafeDeserialize for u8 {
    open spec fn spec_decode(bytes: Seq<u8>, pos: int) -> Result<(Self, int), DecodeError> {
        if pos + 1 <= bytes.len() {
            Ok((bytes[pos], pos + 1))
        } else {
            Err(DecodeError::TooShort)
        }
    }

    proof fn lemma_decode_encode(&self, bytes: Seq<u8>, pos: int) {
        assert(bytes.subrange(pos, pos + 1)[0] == bytes[pos]);
    }

    fn safe_deserialize(bytes: &[u8], pos: usize) -> (r: Result<(Self, usize), DecodeError>) {
        if bytes.len() - pos >= 1 {
            let v = *slice_index_get(bytes, pos);
            Ok((v, pos + 1))
        } else {
            Err(DecodeError::TooShort)
        }
    }
}

impl SafeDeserialize for u16 {
    open spec fn spec_decode(bytes: Seq<u8>, pos: int) -> Result<(Self, int), DecodeError> {
        if pos + 2 <= bytes.len() {
            Ok((spec_u16_from_le_bytes(bytes.subrange(pos, pos + 2)), pos + 2))
        } else {
            Err(DecodeError::TooShort)
        }
    }

    proof fn lemma_decode_encode(&self, bytes: Seq<u8>, pos: int) {
        lemma_auto_spec_u16_to_from_le_bytes();
    }

    fn safe_deserialize(bytes: &[u8], pos: usize) -> (r: Result<(Self, usize), DecodeError>) {
        if bytes.len() - pos >= 2 {
            let v = u16_from_le_bytes(slice_subrange(bytes, pos, pos + 2));
            Ok((v, pos + 2))
        } else {
            Err(DecodeError::TooShort)
        }
    }
}

impl SafeDeserialize for u32 {
    open spec fn spec_decode(bytes: Seq<u8>, pos: int) -> Result<(Self, int), DecodeError> {
        if pos + 4 <= bytes.len() {
            Ok((spec_u32_from_le_bytes(bytes.subrange(pos, pos + 4)), pos + 4))
        } else {
            Err(DecodeError::TooShort)
        }
    }

    proof fn lemma_decode_encode(&self, bytes: Seq<u8>, pos: int) {
        lemma_auto_spec_u32_to_from_le_bytes();
    }

    fn safe_deserialize(bytes: &[u8], pos: usize) -> (r: Result<(Self, usize), DecodeError>) {
        if bytes.len() - pos >= 4 {
            let v = u32_from_le_bytes(slice_subrange(bytes, pos, pos + 4));
            Ok((v, pos + 4))
        } else {
            Err(DecodeError::TooShort)
        }
    }
}

impl SafeDeserialize for u64 {
    open spec fn spec_decode(bytes: Seq<u8>, pos: int) -> Result<(Self, int), DecodeError> {
        if pos + 8 <= bytes.len() {
            Ok((spec_u64_from_le_bytes(bytes.subrange(pos, pos + 8)), pos + 8))
        } else {
            Err(DecodeError::TooShort)
        }
    }

    proof fn lemma_decode_encode(&self, bytes: Seq<u8>, pos: int) {
        lemma_auto_spec_u64_to_from_le_bytes();
    }

    fn safe_deserialize(bytes: &[u8], pos: usize) -> (r: Result<(Self, usize), DecodeError>) {
        if bytes.len() - pos >= 8 {
            let v = u64_from_le_bytes(slice_subrange(bytes, pos, pos + 8));
            Ok((v, pos + 8))
        } else {
            Err(DecodeError::TooShort)
        }
    }
}

impl SafeDeserialize for u128 {
    open spec fn spec_decode(bytes: Seq<u8>, pos: int) -> Result<(Self, int), DecodeError> {
        if pos + 16 <= bytes.len() {
            Ok((spec_u128_from_le_bytes(bytes.subrange(pos, pos + 16)), pos + 16))
        } else {
            Err(DecodeError::TooShort)
        }
    }

    proof fn lemma_decode_encode(&self, bytes: Seq<u8>, pos: int) {
        lemma_auto_spec_u128_to_from_le_bytes();
    }

    fn safe_deserialize(bytes: &[u8], pos: usize) -> (r: Result<(Self, usize), DecodeError>) {
        if bytes.len() - pos >= 16 {
            let v = u128_from_le_bytes(slice_subrange(bytes, pos, pos + 16));
            Ok((v, pos + 16))
        } else {
            Err(DecodeError::TooShort)
        }
    }
}

impl SafeDeserialize for usize {
    open spec fn spec_decode(bytes: Seq<u8>, pos: int) -> Result<(Self, int), DecodeError> {
        if pos + 8 <= bytes.len() {
            if spec_u64_from_le_bytes(bytes.subrange(pos, pos + 8)) <= usize::MAX {
                Ok((spec_u64_from_le_bytes(bytes.subrange(pos, pos + 8)) as usize, pos + 8))
            } else {
                Err(DecodeError::Overflow)
            }
        } else {
            Err(DecodeError::TooShort)
        }
    }

    proof fn lemma_decode_encode(&self, bytes: Seq<u8>, pos: int) {
        lemma_auto_spec_u64_to_from_le_bytes();
    }

    fn safe_deserialize(bytes: &[u8], pos: usize) -> (r: Result<(Self, usize), DecodeError>) {
        if bytes.len() - pos >= 8 {
            let v = u64_from_le_bytes(slice_subrange(bytes, pos, pos + 8));
            match usize::try_from(v) {
                Ok(n) => Ok((n, pos + 8)),
                Err(_) => Err(DecodeError::Overflow),
            }
        } else {
            Err(DecodeError::TooShort)
        }
    }
}

impl SafeDeserialize for i8 {
    open spec fn spec_decode(bytes: Seq<u8>, pos: int) -> Result<(Self, int), DecodeError> {
        if pos + 1 <= bytes.len() {
            Ok((bytes[pos] as i8, pos + 1))
        } else {
            Err(DecodeError::TooShort)
        }
    }

    proof fn lemma_decode_encode(&self, bytes: Seq<u8>, pos: int) {
        assert(bytes.subrange(pos, pos + 1)[0] == bytes[pos]);
        let x = *self;
        assert((x as u8) as i8 == x) by (bit_vector);
    }

    fn safe_deserialize(bytes: &[u8], pos: usize) -> (r: Result<(Self, usize), DecodeError>) {
        if bytes.len() - pos >= 1 {
            let v = *slice_index_get(bytes, pos);
            Ok((#[verifier::truncate] (v as i8), pos + 1))
        } else {
            Err(DecodeError::TooShort)
        }
    }
}

impl SafeDeserialize for i16 {
    open spec fn spec_decode(bytes: Seq<u8>, pos: int) -> Result<(Self, int), DecodeError> {
        if pos + 2 <= bytes.len() {
            Ok((spec_u16_from_le_bytes(bytes.subrange(pos, pos + 2)) as i16, pos + 2))
        } else {
            Err(DecodeError::TooShort)
        }
    }

    proof fn lemma_decode_encode(&self, bytes: Seq<u8>, pos: int) {
        lemma_auto_spec_u16_to_from_le_bytes();
        let x = *self;
        assert((x as u16) as i16 == x) by (bit_vector);
    }

    fn safe_deserialize(bytes: &[u8], pos: usize) -> (r: Result<(Self, usize), DecodeError>) {
        if bytes.len() - pos >= 2 {
            let v = u16_from_le_bytes(slice_subrange(bytes, pos, pos + 2));
            Ok((#[verifier::truncate] (v as i16), pos + 2))
        } else {
            Err(DecodeError::TooShort)
        }
    }
}

impl SafeDeserialize for i32 {
    open spec fn spec_decode(bytes: Seq<u8>, pos: int) -> Result<(Self, int), DecodeError> {
        if pos + 4 <= bytes.len() {
            Ok((spec_u32_from_le_bytes(bytes.subrange(pos, pos + 4)) as i32, pos + 4))
        } else {
            Err(DecodeError::TooShort)
        }
    }

    proof fn lemma_decode_encode(&self, bytes: Seq<u8>, pos: int) {
        lemma_auto_spec_u32_to_from_le_bytes();
        let x = *self;
        assert((x as u32) as i32 == x) by (bit_vector);
    }

    fn safe_deserialize(bytes: &[u8], pos: usize) -> (r: Result<(Self, usize), DecodeError>) {
        if bytes.len() - pos >= 4 {
            let v = u32_from_le_bytes(slice_subrange(bytes, pos, pos + 4));
            Ok((#[verifier::truncate] (v as i32), pos + 4))
        } else {
            Err(DecodeError::TooShort)
        }
    }
}

impl SafeDeserialize for i64 {
    open spec fn spec_decode(bytes: Seq<u8>, pos: int) -> Result<(Self, int), DecodeError> {
        if pos + 8 <= bytes.len() {
            Ok((spec_u64_from_le_bytes(bytes.subrange(pos, pos + 8)) as i64, pos + 8))
        } else {
            Err(DecodeError::TooShort)
        }
    }

    proof fn lemma_decode_encode(&self, bytes: Seq<u8>, pos: int) {
        lemma_auto_spec_u64_to_from_le_bytes();
        let x = *self;
        assert((x as u64) as i64 == x) by (bit_vector);
    }

    fn safe_deserialize(bytes: &[u8], pos: usize) -> (r: Result<(Self, usize), DecodeError>) {
        if bytes.len() - pos >= 8 {
            let v = u64_from_le_bytes(slice_subrange(bytes, pos, pos + 8));
            Ok((#[verifier::truncate] (v as i64), pos + 8))
        } else {
            Err(DecodeError::TooShort)
        }
    }
}

impl SafeDeserialize for i128 {
    open spec fn spec_decode(bytes: Seq<u8>, pos: int) -> Result<(Self, int), DecodeError> {
        if pos + 16 <= bytes.len() {
            Ok((spec_u128_from_le_bytes(bytes.subrange(pos, pos + 16)) as i128, pos + 16))
        } else {
            Err(DecodeError::TooShort)
        }
    }

    proof fn lemma_decode_encode(&self, bytes: Seq<u8>, pos: int) {
        lemma_auto_spec_u128_to_from_le_bytes();
        let x = *self;
        assert((x as u128) as i128 == x) by (bit_vector);
    }

    fn safe_deserialize(bytes: &[u8], pos: usize) -> (r: Result<(Self, usize), DecodeError>) {
        if bytes.len() - pos >= 16 {
            let v = u128_from_le_bytes(slice_subrange(bytes, pos, pos + 16));
            Ok((#[verifier::truncate] (v as i128), pos + 16))
        } else {
            Err(DecodeError::TooShort)
        }
    }
}

impl<const N: usize> SafeDeserialize for [u8; N] {
    open spec fn spec_decode(bytes: Seq<u8>, pos: int) -> Result<(Self, int), DecodeError> {
        if pos + 8 > bytes.len() {
            Err(DecodeError::TooShort)
        } else if spec_u64_from_le_bytes(bytes.subrange(pos, pos + 8)) != N as u64 {
            Err(DecodeError::LengthMismatch)
        } else if pos + 8 + N > bytes.len() {
            Err(DecodeError::TooShort)
        } else {
            Ok(
                (
                    choose|a: [u8; N]| a@ == bytes.subrange(pos + 8, pos + 8 + N),
                    pos + 8 + N as int,
                ),
            )
        }
    }

    proof fn lemma_decode_encode(&self, bytes: Seq<u8>, pos: int) {
        lemma_auto_spec_u64_to_from_le_bytes();
        let enc = self.encoding();
        let whole = bytes.subrange(pos, pos + enc.len() as int);
        assert(bytes.subrange(pos, pos + 8) =~= whole.subrange(0, 8));
        assert(enc.subrange(0, 8) =~= spec_u64_to_le_bytes(N as u64));
        assert(bytes.subrange(pos + 8, pos + 8 + N) =~= whole.subrange(8, 8 + N as int));
        assert(enc.subrange(8, 8 + N as int) =~= self@);
        let w = choose|a: [u8; N]| a@ == bytes.subrange(pos + 8, pos + 8 + N);
        assert(self@ == bytes.subrange(pos + 8, pos + 8 + N));
        assert(w@ == bytes.subrange(pos + 8, pos + 8 + N));
        assert(w.eq_spec(self)) by {
            assert(forall|i: int| 0 <= i < N ==> w[i] == self[i]);
        }
    }

    fn safe_deserialize(bytes: &[u8], pos: usize) -> (r: Result<(Self, usize), DecodeError>) {
        if bytes.len() - pos < 8 {
            return Err(DecodeError::TooShort);
        }
        let n = u64_from_le_bytes(slice_subrange(bytes, pos, pos + 8));
        if n != N as u64 {
            return Err(DecodeError::LengthMismatch);
        }
        if bytes.len() - pos - 8 < N {
            return Err(DecodeError::TooShort);
        }
        let mut a: [u8; N] = [0;N];
        let mut i: usize = 0;
        while i < N
            invariant
                i <= N,
                pos + 8 + N <= bytes@.len(),
                bytes@.len() <= usize::MAX,
                forall|j: int| 0 <= j < i ==> a[j] == bytes@[pos + 8 + j],
            decreases N - i,
        {
            a[i] = *slice_index_get(bytes, pos + 8 + i);
            i = i + 1;
        }
        proof {
            assert(a@ =~= bytes@.subrange(pos + 8, pos + 8 + N));
            let w = choose|x: [u8; N]| x@ == bytes@.subrange(pos + 8, pos + 8 + N);
            assert(w@ == bytes@.subrange(pos + 8, pos + 8 + N));
            assert(forall|j: int| 0 <= j < N ==> a[j] == w[j]);
        }
        Ok((a, pos + 8 + N))
    }
}

/// Relies on `String::from_utf8`: it returns the string whose bytes are
/// exactly the given vector when those bytes are valid UTF-8, and fails
/// otherwise.
#[verifier::external_body]
fn string_from_utf8(v: Vec<u8>) -> (r: Option<String>)
    ensures
        match r {
            Some(s) => valid_utf8(v@) && encode_utf8(s@) == v@,
            None => !valid_utf8(v@),
        },
{
    match String::from_utf8(v) {
        Ok(s) => Some(s),
        Err(_) => None,
    }
}

impl SafeDeserialize for String {
    open spec fn spec_decode(bytes: Seq<u8>, pos: int) -> Result<(Self, int), DecodeError> {
        if pos + 8 > bytes.len() {
            Err(DecodeError::TooShort)
        } else if pos + 8 + spec_u64_from_le_bytes(bytes.subrange(pos, pos + 8)) > bytes.len() {
            Err(DecodeError::TooShort)
        } else if !valid_utf8(
            bytes.subrange(
                pos + 8,
                pos + 8 + spec_u64_from_le_bytes(bytes.subrange(pos, pos + 8)),
            ),
        ) {
            Err(DecodeError::InvalidUtf8)
        } else {
            Ok(
                (
                    choose|s: String|
                        encode_utf8(s@) == bytes.subrange(
                            pos + 8,
                            pos + 8 + spec_u64_from_le_bytes(bytes.subrange(pos, pos + 8)),
                        ),
                    pos + 8 + spec_u64_from_le_bytes(bytes.subrange(pos, pos + 8)),
                ),
            )
        }
    }

    proof fn lemma_decode_encode(&self, bytes: Seq<u8>, pos: int) {
        lemma_auto_spec_u64_to_from_le_bytes();
        let enc = self.encoding();
        let text = encode_utf8(self@);
        let n = text.len() as int;
        let whole = bytes.subrange(pos, pos + enc.len() as int);
        assert(bytes.subrange(pos, pos + 8) =~= whole.subrange(0, 8));
        assert(enc.subrange(0, 8) =~= spec_u64_to_le_bytes(text.len() as u64));
        assert(text.len() as u64 as int == n);
        assert(bytes.subrange(pos + 8, pos + 8 + n) =~= whole.subrange(8, 8 + n));
        assert(enc.subrange(8, 8 + n) =~= text);
        vstd::utf8::encode_utf8_valid_utf8(self@);
        let w = choose|s: String| encode_utf8(s@) == bytes.subrange(pos + 8, pos + 8 + n);
        assert(encode_utf8(w@) == text);
        encode_utf8_decode_utf8(w@);
        encode_utf8_decode_utf8(self@);
        assert(w@ == self@);
    }

    fn safe_deserialize(bytes: &[u8], pos: usize) -> (r: Result<(Self, usize), DecodeError>) {
        if bytes.len() - pos < 8 {
            return Err(DecodeError::TooShort);
        }
        let n = u64_from_le_bytes(slice_subrange(bytes, pos, pos + 8));
        if ((bytes.len() - pos - 8) as u64) < n {
            return Err(DecodeError::TooShort);
        }
        let nn = match usize::try_from(n) {
            Ok(nn) => nn,
            Err(_) => {
                proof {
                    assert(false);
                }
                return Err(DecodeError::TooShort);
            },
        };
        let text = slice_subrange(bytes, pos + 8, pos + 8 + nn);
        let text_vec = vstd::slice::slice_to_vec(text);
        proof {
            assert(text_vec@ == bytes@.subrange(pos + 8, pos + 8 + n as int));
        }
        match string_from_utf8(text_vec) {
            Some(s) => {
                proof {
                    let sub = bytes@.subrange(pos + 8, pos + 8 + n as int);
                    let w = choose|t: String| encode_utf8(t@) == sub;
                    assert(encode_utf8(s@) == sub);
                    assert(encode_utf8(w@) == sub);
                    encode_utf8_decode_utf8(w@);
                    encode_utf8_decode_utf8(s@);
                    assert(s@ == w@);
                }
                Ok((s, pos + 8 + nn))
            },
            None => Err(DecodeError::InvalidUtf8),
        }
    }
}

/// A pair decodes element by element: the first component's encoding ends
/// where the second one's begins.
impl<A: SafeDeserialize, B: SafeDeserialize> SafeDeserialize for (A, B) {
    open spec fn spec_decode(bytes: Seq<u8>, pos: int) -> Result<(Self, int), DecodeError> {
        match A::spec_decode(bytes, pos) {
            Err(e) => Err(e),
            Ok((a, p1)) => match B::spec_decode(bytes, p1) {
                Err(e) => Err(e),
                Ok((b, p2)) => Ok(((a, b), p2)),
            },
        }
    }

    proof fn lemma_decode_encode(&self, bytes: Seq<u8>, pos: int) {
        let enc = self.encoding();
        let ea = self.0.encoding();
        let eb = self.1.encoding();
        let whole = bytes.subrange(pos, pos + enc.len() as int);
        assert(bytes.subrange(pos, pos + ea.len() as int) =~= whole.subrange(0, ea.len() as int));
        assert(enc.subrange(0, ea.len() as int) =~= ea);
        self.0.lemma_decode_encode(bytes, pos);
        let p1 = pos + ea.len() as int;
        assert(bytes.subrange(p1, p1 + eb.len() as int) =~= whole.subrange(
            ea.len() as int,
            enc.len() as int,
        ));
        assert(enc.subrange(ea.len() as int, enc.len() as int) =~= eb);
        self.1.lemma_decode_encode(bytes, p1);
    }

    fn safe_deserialize(bytes: &[u8], pos: usize) -> (r: Result<(Self, usize), DecodeError>) {
        match A::safe_deserialize(bytes, pos) {
            Err(e) => Err(e),
            Ok((a, p1)) => match B::safe_deserialize(bytes, p1) {
                Err(e) => Err(e),
                Ok((b, p2)) => Ok(((a, b), p2)),
            },
        }
    }
}

/// A triple decodes element by element, each encoding ending where the
/// next begins.
impl<A: SafeDeserialize, B: SafeDeserialize, C: SafeDeserialize> SafeDeserialize for (A, B, C) {
    open spec fn spec_decode(bytes: Seq<u8>, pos: int) -> Result<(Self, int), DecodeError> {
        match A::spec_decode(bytes, pos) {
            Err(e) => Err(e),
            Ok((a, p1)) => match B::spec_decode(bytes, p1) {
                Err(e) => Err(e),
                Ok((b, p2)) => match C::spec_decode(bytes, p2) {
                    Err(e) => Err(e),
                    Ok((c, p3)) => Ok(((a, b, c), p3)),
                },
            },
        }
    }

    proof fn lemma_decode_encode(&self, bytes: Seq<u8>, pos: int) {
        let enc = self.encoding();
        let ea = self.0.encoding();
        let eb = self.1.encoding();
        let ec = self.2.encoding();
        let whole = bytes.subrange(pos, pos + enc.len() as int);
        assert(bytes.subrange(pos, pos + ea.len() as int) =~= whole.subrange(0, ea.len() as int));
        assert(enc.subrange(0, ea.len() as int) =~= ea);
        self.0.lemma_decode_encode(bytes, pos);
        let p1 = pos + ea.len() as int;
        assert(bytes.subrange(p1, p1 + eb.len() as int) =~= whole.subrange(
            ea.len() as int,
            (ea.len() + eb.len()) as int,
        ));
        assert(enc.subrange(ea.len() as int, (ea.len() + eb.len()) as int) =~= eb);
        self.1.lemma_decode_encode(bytes, p1);
        let p2 = p1 + eb.len() as int;
        assert(bytes.subrange(p2, p2 + ec.len() as int) =~= whole.subrange(
            (ea.len() + eb.len()) as int,
            enc.len() as int,
        ));
        assert(enc.subrange((ea.len() + eb.len()) as int, enc.len() as int) =~= ec);
        self.2.lemma_decode_encode(bytes, p2);
    }

    fn safe_deserialize(bytes: &[u8], pos: usize) -> (r: Result<(Self, usize), DecodeError>) {
        match A::safe_deserialize(bytes, pos) {
            Err(e) => Err(e),
            Ok((a, p1)) => match B::safe_deserialize(bytes, p1) {
                Err(e) => Err(e),
                Ok((b, p2)) => match C::safe_deserialize(bytes, p2) {
                    Err(e) => Err(e),
                    Ok((c, p3)) => Ok(((a, b, c), p3)),
                },
            },
        }
    }
}

} // verus!
