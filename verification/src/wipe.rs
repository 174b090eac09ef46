use vstd::prelude::*;

verus! {

/// The wipeable-value contract: the minimal requirement a raw type must
/// satisfy to be held safely, namely an explicit in-place "overwrite your
/// storage" operation together with a predicate saying what counts as
/// wiped for that type.
pub trait Wipe: Sized {
    /// Holds when the value's observable content equals the wipe pattern
    /// (zero for numbers, all-zero elements for arrays, emptiness for
    /// growable containers).
    spec fn wiped(&self) -> bool;

    /// Overwrite the value in place so that nothing of the original
    /// content remains observable.
    fn wipe(&mut self)
        ensures
            final(self).wiped();
}

/// End a sensitive value's life: overwrite its storage in place, then
/// release it. Destructors cannot carry proofs here, so the wipe that
/// would sit in one is this explicit, verified call; a value handed out
/// by `risky_unwrap` beforehand is untouched by it, so nothing is wiped
/// twice and nothing the caller still owns is overwritten.
pub fn wipe_and_drop<T: Wipe>(x: T) {
    let mut v = x;
    v.wipe();
}

/// Relies on zeroize's `Zeroize` impl for `u8`: a volatile write of the
/// default value, zero.
#[verifier::external_body]
fn zeroize_u8(x: &mut u8)
    ensures
        *final(x) == 0u8,
{
    zeroize::Zeroize::zeroize(x)
}

/// Relies on zeroize's `Zeroize` impl for `u16`: a volatile write of zero.
#[verifier::external_body]
fn zeroize_u16(x: &mut u16)
    ensures
        *final(x) == 0u16,
{
    zeroize::Zeroize::zeroize(x)
}

/// Relies on zeroize's `Zeroize` impl for `u32`: a volatile write of zero.
#[verifier::external_body]
fn zeroize_u32(x: &mut u32)
    ensures
        *final(x) == 0u32,
{
    zeroize::Zeroize::zeroize(x)
}

/// Relies on zeroize's `Zeroize` impl for `u64`: a volatile write of zero.
#[verifier::external_body]
fn zeroize_u64(x: &mut u64)
    ensures
        *final(x) == 0u64,
{
    zeroize::Zeroize::zeroize(x)
}

/// Relies on zeroize's `Zeroize` impl for `u128`: a volatile write of zero.
#[verifier::external_body]
fn zeroize_u128(x: &mut u128)
    ensures
        *final(x) == 0u128,
{
    zeroize::Zeroize::zeroize(x)
}

/// Relies on zeroize's `Zeroize` impl for `usize`: a volatile write of zero.
#[verifier::external_body]
fn zeroize_usize(x: &mut usize)
    ensures
        *final(x) == 0usize,
{
    zeroize::Zeroize::zeroize(x)
}

/// Relies on zeroize's `Zeroize` impl for `char`: a volatile write of the
/// default value, the NUL character.
#[verifier::external_body]
fn zeroize_char(x: &mut char)
    ensures
        *final(x) == '\0',
{
    zeroize::Zeroize::zeroize(x)
}

/// Relies on zeroize's `Zeroize` impl for `String`: every byte is
/// overwritten and the string is cleared, so afterwards it is observably
/// empty.
#[verifier::external_body]
fn zeroize_string(x: &mut String)
    ensures
        final(x)@.len() == 0,
{
    zeroize::Zeroize::zeroize(x)
}

/// Relies on zeroize's `Zeroize` impl for `Vec<u8>`: every element and the
/// spare capacity are overwritten and the vector is cleared, so afterwards
/// it is observably empty.
#[verifier::external_body]
fn zeroize_vec_u8(x: &mut Vec<u8>)
    ensures
        final(x)@.len() == 0,
{
    zeroize::Zeroize::zeroize(x)
}

impl Wipe for u8 {
    open spec fn wiped(&self) -> bool {
        *self == 0u8
    }

    fn wipe(&mut self) {
        zeroize_u8(self)
    }
}

impl Wipe for u16 {
    open spec fn wiped(&self) -> bool {
        *self == 0u16
    }

    fn wipe(&mut self) {
        zeroize_u16(self)
    }
}

impl Wipe for u32 {
    open spec fn wiped(&self) -> bool {
        *self == 0u32
    }

    fn wipe(&mut self) {
        zeroize_u32(self)
    }
}

impl Wipe for u64 {
    open spec fn wiped(&self) -> bool {
        *self == 0u64
    }

    fn wipe(&mut self) {
        zeroize_u64(self)
    }
}

impl Wipe for u128 {
    open spec fn wiped(&self) -> bool {
        *self == 0u128
    }

    fn wipe(&mut self) {
        zeroize_u128(self)
    }
}

impl Wipe for usize {
    open spec fn wiped(&self) -> bool {
        *self == 0usize
    }

    fn wipe(&mut self) {
        zeroize_usize(self)
    }
}

impl Wipe for char {
    open spec fn wiped(&self) -> bool {
        *self == '\0'
    }

    fn wipe(&mut self) {
        zeroize_char(self)
    }
}

impl Wipe for String {
    open spec fn wiped(&self) -> bool {
        self@.len() == 0
    }

    fn wipe(&mut self) {
        zeroize_string(self)
    }
}

impl Wipe for Vec<u8> {
    open spec fn wiped(&self) -> bool {
        self@.len() == 0
    }

    fn wipe(&mut self) {
        zeroize_vec_u8(self)
    }
}

/// A fixed-size array is wiped element by element.
impl<T: Wipe + Copy, const N: usize> Wipe for [T; N] {
    open spec fn wiped(&self) -> bool {
        forall|i: int| 0 <= i < N ==> (#[trigger] self[i]).wiped()
    }

    fn wipe(&mut self) {
        let mut i: usize = 0;
        while i < N
            invariant
                i <= N,
                forall|j: int| 0 <= j < i ==> (#[trigger] self[j]).wiped(),
            decreases N - i,
        {
            let mut x = self[i];
            x.wipe();
            self[i] = x;
            i = i + 1;
        }
    }
}

/// An optional value is wiped by wiping what it holds; an empty option
/// holds nothing to wipe.
impl<T: Wipe> Wipe for Option<T> {
    open spec fn wiped(&self) -> bool {
        match *self {
            Some(v) => v.wiped(),
            None => true,
        }
    }

    fn wipe(&mut self) {
        let cur = self.take();
        match cur {
            Some(mut v) => {
                v.wipe();
                *self = Some(v);
            },
            None => {},
        }
    }
}

} // verus!
