use crate::as_protected_ref::AsProtectedRef;
use crate::controlled::ControlledPrivate;
use crate::usage::{Acceptable, DefaultScope, Scope};
use crate::Protected;
use core::marker::PhantomData;
use vstd::prelude::*;

verus! {

/// What SHA-256 maps an input to. Only the trusted call below gives the
/// name meaning; stating the algorithm itself is neither possible nor
/// useful here.
pub uninterp spec fn sha256_of(input: Seq<u8>) -> Seq<u8>;

/// What SHA-384 maps an input to.
pub uninterp spec fn sha384_of(input: Seq<u8>) -> Seq<u8>;

/// Relies on sha2's `Sha256`: a one-shot digest of the input, 32 bytes,
/// depending on the input bytes alone.
#[verifier::external_body]
fn sha256_digest(input: &[u8]) -> (r: Vec<u8>)
    ensures
        r@ == sha256_of(input@),
        r@.len() == 32,
{
    let mut hasher = <sha2::Sha256 as sha2::Digest>::new();
    sha2::Digest::update(&mut hasher, input);
    sha2::Digest::finalize(hasher).to_vec()
}

/// Relies on sha2's `Sha384`: a one-shot digest of the input, 48 bytes,
/// depending on the input bytes alone.
#[verifier::external_body]
fn sha384_digest(input: &[u8]) -> (r: Vec<u8>)
    ensures
        r@ == sha384_of(input@),
        r@.len() == 48,
{
    let mut hasher = <sha2::Sha384 as sha2::Digest>::new();
    sha2::Digest::update(&mut hasher, input);
    sha2::Digest::finalize(hasher).to_vec()
}

/// A hash algorithm the digest wrapper can drive: a pure function from
/// input bytes to a fixed number of output bytes.
pub trait DigestAlgo {
    /// What the algorithm maps an input to.
    spec fn digest_of(input: Seq<u8>) -> Seq<u8>;

    /// The number of output bytes.
    spec fn spec_output_size() -> nat;

    /// Compute the digest.
    fn digest_bytes(input: &[u8]) -> (r: Vec<u8>)
        ensures
            r@ == Self::digest_of(input@);

    /// The number of output bytes, as a value.
    fn output_size() -> (r: usize)
        ensures
            r == Self::spec_output_size();
}

/// The SHA-256 hash algorithm.
pub struct Sha256;

impl DigestAlgo for Sha256 {
    open spec fn digest_of(input: Seq<u8>) -> Seq<u8> {
        sha256_of(input)
    }

    open spec fn spec_output_size() -> nat {
        32
    }

    fn digest_bytes(input: &[u8]) -> (r: Vec<u8>) {
        sha256_digest(input)
    }

    fn output_size() -> (r: usize) {
        32
    }
}

/// The SHA-384 hash algorithm.
pub struct Sha384;

impl DigestAlgo for Sha384 {
    open spec fn digest_of(input: Seq<u8>) -> Seq<u8> {
        sha384_of(input)
    }

    open spec fn spec_output_size() -> nat {
        48
    }

    fn digest_bytes(input: &[u8]) -> (r: Vec<u8>) {
        sha384_digest(input)
    }

    fn output_size() -> (r: usize) {
        48
    }
}

/// A digest computation over protected input. Input is accumulated under
/// the crate's protections and hashed when the caller finalizes; only
/// values acceptable in the chosen input scope can be fed in.
pub struct ProtectedDigest<D: DigestAlgo, InputScope = DefaultScope> {
    pub(crate) input: Protected<Vec<u8>>,
    pub(crate) marker: PhantomData<(D, InputScope)>,
}

impl<D: DigestAlgo, InputScope: Scope> ProtectedDigest<D, InputScope> {
    /// The bytes fed so far (ghost view).
    pub closed spec fn fed(&self) -> Seq<u8> {
        self.input.raw()@
    }

    /// A fresh digest with nothing fed.
    pub fn new() -> (r: Self)
        ensures
            r.fed().len() == 0,
    {
        ProtectedDigest { input: Protected::new(Vec::new()), marker: PhantomData }
    }

    /// A fresh digest with `data` already fed.
    pub fn new_with_prefix<T: AsProtectedRef + Acceptable<InputScope>>(data: &T) -> (r: Self)
        ensures
            r.fed() == data.byte_view(),
    {
        let mut d = Self::new();
        d.update(data);
        proof {
            assert(d.fed() =~= data.byte_view());
        }
        d
    }

    /// Feed more protected bytes.
    pub fn update<T: AsProtectedRef + Acceptable<InputScope>>(&mut self, data: &T)
        ensures
            final(self).fed() == old(self).fed() + data.byte_view(),
    {
        let pref = data.as_protected_ref();
        let bytes = pref.inner_ref();
        let extend = |v: &Vec<u8>| -> (out: Vec<u8>)
            ensures
                out@ == v@ + bytes@,
            {
                let mut out = v.clone();
                out.extend_from_slice(bytes);
                proof {
                    assert(out@ =~= v@ + bytes@);
                }
                out
            };
        self.input.update(extend);
    }

    /// Hash everything fed and hand the digest out, protected.
    pub fn finalize(self) -> (r: Protected<Vec<u8>>)
        ensures
            r.raw()@ == D::digest_of(self.fed()),
    {
        let out = D::digest_bytes(self.input.inner().as_slice());
        Protected::new(out)
    }

    /// Hash everything fed into the given output wrapper.
    pub fn finalize_into(self, out: &mut Protected<Vec<u8>>)
        ensures
            final(out).raw()@ == D::digest_of(self.fed()),
    {
        let digest = D::digest_bytes(self.input.inner().as_slice());
        let put = |current: &Vec<u8>| -> (r: Vec<u8>)
            ensures
                r@ == digest@,
            {
                digest.clone()
            };
        out.update(put);
    }

    /// Hash everything fed, hand the digest out, and start over.
    pub fn finalize_reset(&mut self) -> (r: Protected<Vec<u8>>)
        ensures
            r.raw()@ == D::digest_of(old(self).fed()),
            final(self).fed().len() == 0,
    {
        let out = D::digest_bytes(self.input.inner().as_slice());
        self.reset();
        Protected::new(out)
    }

    /// Hash everything fed into the given output wrapper, and start over.
    pub fn finalize_into_reset(&mut self, out: &mut Protected<Vec<u8>>)
        ensures
            final(out).raw()@ == D::digest_of(old(self).fed()),
            final(self).fed().len() == 0,
    {
        let digest = D::digest_bytes(self.input.inner().as_slice());
        self.reset();
        let put = |current: &Vec<u8>| -> (r: Vec<u8>)
            ensures
                r@ == digest@,
            {
                digest.clone()
            };
        out.update(put);
    }

    /// Forget everything fed.
    pub fn reset(&mut self)
        ensures
            final(self).fed().len() == 0,
    {
        let clear = |v: &Vec<u8>| -> (r: Vec<u8>)
            ensures
                r@.len() == 0,
            {
                Vec::new()
            };
        self.input.update(clear);
    }

    /// The number of bytes the digest will have.
    pub fn output_size() -> (r: usize)
        ensures
            r == D::spec_output_size(),
    {
        D::output_size()
    }

    /// Hash one value in one call.
    pub fn digest<T: AsProtectedRef + Acceptable<InputScope>>(data: &T) -> (r: Protected<Vec<u8>>)
        ensures
            r.raw()@ == D::digest_of(data.byte_view()),
    {
        let mut hasher = Self::new();
        hasher.update(data);
        proof {
            assert(hasher.fed() =~= data.byte_view());
        }
        hasher.finalize()
    }
}

} // verus!
