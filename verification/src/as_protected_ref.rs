use crate::controlled::ControlledPrivate;
use vstd::prelude::*;

verus! {

/// A borrowed view of protected bytes. It hands the bytes on only to the
/// crate's own primitives, so a caller cannot wander off with a raw
/// reference by accident.
pub struct ProtectedRef<'a>(pub(crate) &'a [u8]);

impl<'a> ProtectedRef<'a> {
    /// The borrowed bytes (ghost view).
    pub closed spec fn bytes(&self) -> Seq<u8> {
        self.0@
    }

    /// Borrow the underlying bytes (crate-internal use only).
    pub fn inner_ref(&self) -> (r: &'a [u8])
        ensures
            r@ == self.bytes(),
    {
        self.0
    }
}

/// Raw types whose content can be viewed as bytes (crate-internal leaf of
/// [`AsProtectedRef`]).
pub trait ByteSource {
    /// The content, as bytes.
    spec fn byte_view(&self) -> Seq<u8>;

    /// Borrow the content as bytes.
    fn byte_slice(&self) -> (r: &[u8])
        ensures
            r@ == self.byte_view();
}

impl<const N: usize> ByteSource for [u8; N] {
    open spec fn byte_view(&self) -> Seq<u8> {
        self@
    }

    fn byte_slice(&self) -> (r: &[u8]) {
        self.as_slice()
    }
}

impl ByteSource for Vec<u8> {
    open spec fn byte_view(&self) -> Seq<u8> {
        self@
    }

    fn byte_slice(&self) -> (r: &[u8]) {
        self.as_slice()
    }
}

impl ByteSource for String {
    open spec fn byte_view(&self) -> Seq<u8> {
        vstd::utf8::encode_utf8(self@)
    }

    fn byte_slice(&self) -> (r: &[u8]) {
        self.as_str().as_bytes()
    }
}

/// Types that can lend their content as protected bytes; the counterpart
/// of a plain by-reference view, but the reference stays wrapped.
pub trait AsProtectedRef {
    /// The lent bytes.
    spec fn byte_view(&self) -> Seq<u8>;

    /// Lend the content as protected bytes.
    fn as_protected_ref<'a>(&'a self) -> (r: ProtectedRef<'a>)
        ensures
            r.bytes() == self.byte_view();
}

/// Every controlled wrapper over byte-like content lends its raw bytes.
impl<T: ControlledPrivate> AsProtectedRef for T where T::Inner: ByteSource {
    open spec fn byte_view(&self) -> Seq<u8> {
        self.raw().byte_view()
    }

    fn as_protected_ref<'a>(&'a self) -> (r: ProtectedRef<'a>) {
        ProtectedRef(self.inner().byte_slice())
    }
}

/// Public context data lends its text bytes.
impl AsProtectedRef for crate::traits::Info {
    open spec fn byte_view(&self) -> Seq<u8> {
        vstd::utf8::encode_utf8(self.0@)
    }

    fn as_protected_ref<'a>(&'a self) -> (r: ProtectedRef<'a>) {
        ProtectedRef(self.0.as_bytes())
    }
}

} // verus!
