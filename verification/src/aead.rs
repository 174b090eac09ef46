use crate::controlled::{Controlled, ControlledPrivate};
use crate::equatable::ConstantTimeEq;
use crate::safe_deserialize::{DecodeError, SafeDeserialize};
use crate::safe_serialize::SafeSerialize;
use crate::random::SafeRand;
use crate::Protected;
use vstd::prelude::*;

verus! {

/// Associated data for an authenticated cipher: public bytes that are
/// bound to a ciphertext without being encrypted.
pub struct Aad(pub(crate) Vec<u8>);

impl Aad {
    /// The associated bytes (ghost view).
    pub closed spec fn bytes(&self) -> Seq<u8> {
        self.0@
    }

    /// Bind the given bytes.
    pub fn new(bytes: Vec<u8>) -> (r: Self)
        ensures
            r.bytes() == bytes@,
    {
        Aad(bytes)
    }

    /// No associated data.
    pub fn empty() -> (r: Self)
        ensures
            r.bytes().len() == 0,
    {
        Aad(Vec::new())
    }

    /// Borrow the associated bytes.
    pub fn as_slice(&self) -> (r: &[u8])
        ensures
            r@ == self.bytes(),
    {
        self.0.as_slice()
    }
}

/// A nonce of `N` bytes for an authenticated cipher.
pub struct Nonce<const N: usize>(pub(crate) [u8; N]);

impl<const N: usize> Nonce<N> {
    /// The nonce bytes (ghost view).
    pub closed spec fn bytes(&self) -> Seq<u8> {
        self.0@
    }

    /// Wrap the given bytes as a nonce.
    pub fn new(inner: [u8; N]) -> (r: Self)
        ensures
            r.bytes() == inner@,
    {
        Nonce(inner)
    }

    /// The nonce bytes, by value.
    pub fn into_inner(self) -> (r: [u8; N])
        ensures
            r@ == self.bytes(),
    {
        self.0
    }

    /// Borrow the nonce bytes.
    pub fn as_slice(&self) -> (r: &[u8])
        ensures
            r@ == self.bytes(),
    {
        self.0.as_slice()
    }
}

/// A source of nonces for an authenticated cipher. What a generated nonce
/// holds is left open: a caller must be correct for every value.
pub trait NonceGenerator<const N: usize>: Sized {
    /// Set the generator up.
    fn init() -> Self;

    /// Produce the next nonce.
    fn generate(&mut self) -> Nonce<N>;
}

/// A nonce generator that draws every nonce at random.
pub struct RandomNonceGenerator<const N: usize>(pub(crate) SafeRand);

impl<const N: usize> NonceGenerator<N> for RandomNonceGenerator<N> {
    fn init() -> Self {
        RandomNonceGenerator(SafeRand::from_entropy())
    }

    fn generate(&mut self) -> Nonce<N> {
        let buf = self.0.fill_bytes(N);
        let mut arr: [u8; N] = [0;N];
        let mut i: usize = 0;
        while i < N
            invariant
                i <= N,
                buf@.len() == N,
            decreases N - i,
        {
            arr[i] = buf[i];
            i = i + 1;
        }
        Nonce(arr)
    }
}

/// A framed ciphertext: the nonce, then the encrypted bytes and tag.
pub struct CipherText(pub(crate) Vec<u8>);

impl CipherText {
    /// The framed bytes (ghost view).
    pub closed spec fn bytes(&self) -> Seq<u8> {
        self.0@
    }

    /// The framed bytes, by value.
    pub fn into_inner(self) -> (r: Vec<u8>)
        ensures
            r@ == self.bytes(),
    {
        self.0
    }

    /// Start reading the frame back.
    pub fn into_reader(self) -> (r: CipherTextReader)
        ensures
            r.bytes() == self.bytes(),
    {
        CipherTextReader(self.0)
    }
}

/// Builds a framed ciphertext in fixed stages, so that the nonce, the
/// plaintext and the encryption step can only be supplied once and in
/// order.
pub struct CipherTextBuilder;

impl CipherTextBuilder {
    /// Start a frame.
    pub fn new() -> Self {
        CipherTextBuilder
    }

    /// Record the nonce that will lead the frame.
    pub fn append_nonce<const N: usize>(self, nonce: Nonce<N>) -> (r: NonceWritten<N>)
        ensures
            r.nonce_bytes() == nonce.bytes(),
    {
        NonceWritten(nonce)
    }
}

/// A frame whose nonce is fixed; the plaintext comes next.
pub struct NonceWritten<const N: usize>(pub(crate) Nonce<N>);

impl<const N: usize> NonceWritten<N> {
    /// The nonce bytes (ghost view).
    pub closed spec fn nonce_bytes(&self) -> Seq<u8> {
        self.0.bytes()
    }

    /// Record the plaintext that the cipher will encrypt in place.
    pub fn append_target_plaintext(self, plaintext: Protected<Vec<u8>>) -> (r: PlaintextWritten<
        N,
    >)
        ensures
            r.nonce_bytes() == self.nonce_bytes(),
            r.plaintext() == plaintext.raw(),
    {
        PlaintextWritten(self.0, plaintext)
    }
}

/// A frame holding nonce and plaintext; the encryption step comes next.
pub struct PlaintextWritten<const N: usize>(pub(crate) Nonce<N>, pub(crate) Protected<Vec<u8>>);

impl<const N: usize> PlaintextWritten<N> {
    /// The nonce bytes (ghost view).
    pub closed spec fn nonce_bytes(&self) -> Seq<u8> {
        self.0.bytes()
    }

    /// The plaintext (ghost view).
    pub closed spec fn plaintext(&self) -> Vec<u8> {
        self.1.raw()
    }

    /// Hand the plaintext to the encryption step: a closure that must
    /// write the ciphertext and tag over it, or fail. Whatever comes back
    /// is kept protected until the frame is built.
    pub fn accepts_ciphertext_and_tag_ok<E, F: FnOnce(Vec<u8>) -> Result<Vec<u8>, E>>(
        self,
        f: F,
    ) -> (r: EncryptedWithTag<N, E>)
        requires
            call_requires(f, (self.plaintext(),)),
        ensures
            r.nonce_bytes() == self.nonce_bytes(),
            call_ensures(f, (self.plaintext(),), r.payload()),
    {
        let data = f(self.1.risky_unwrap());
        match data {
            Ok(v) => EncryptedWithTag { nonce: self.0, data: Ok(Protected::new(v)) },
            Err(e) => EncryptedWithTag { nonce: self.0, data: Err(e) },
        }
    }
}

/// A frame whose encryption step has run; all that remains is to build the
/// framed bytes, or to surface the cipher's error.
pub struct EncryptedWithTag<const N: usize, E> {
    pub(crate) nonce: Nonce<N>,
    pub(crate) data: Result<Protected<Vec<u8>>, E>,
}

impl<const N: usize, E> EncryptedWithTag<N, E> {
    /// The nonce bytes (ghost view).
    pub closed spec fn nonce_bytes(&self) -> Seq<u8> {
        self.nonce.bytes()
    }

    /// What the encryption step produced (ghost view).
    pub closed spec fn payload(&self) -> Result<Vec<u8>, E> {
        match self.data {
            Ok(p) => Ok(p.raw()),
            Err(e) => Err(e),
        }
    }

    /// Lay the frame out: the nonce, then the encrypted bytes. The
    /// cipher's error, if any, passes through unchanged.
    pub fn build(self) -> (r: Result<CipherText, E>)
        ensures
            match self.payload() {
                Ok(d) => r matches Ok(ct) && ct.bytes() == self.nonce_bytes() + d@,
                Err(e) => r matches Err(e2) && e2 == e,
            },
    {
        match self.data {
            Ok(p) => {
                let inner = p.risky_unwrap();
                let mut bytes: Vec<u8> = Vec::new();
                bytes.extend_from_slice(self.nonce.0.as_slice());
                bytes.extend_from_slice(inner.as_slice());
                proof {
                    assert(bytes@ =~= self.nonce_bytes() + inner@);
                }
                Ok(CipherText(bytes))
            },
            Err(e) => Err(e),
        }
    }
}

/// Reads a framed ciphertext back in fixed stages.
pub struct CipherTextReader(pub(crate) Vec<u8>);

impl CipherTextReader {
    /// The framed bytes (ghost view).
    pub closed spec fn bytes(&self) -> Seq<u8> {
        self.0@
    }

    /// Split the nonce off the front of the frame. A frame shorter than
    /// the nonce cannot be read.
    pub fn read_nonce<const N: usize>(self) -> (r: (Nonce<N>, CiphertextAndTagReader))
        requires
            N <= self.bytes().len(),
        ensures
            r.0.bytes() == self.bytes().take(N as int),
            r.1.remainder() == self.bytes().skip(N as int),
    {
        let mut nonce: [u8; N] = [0;N];
        let mut i: usize = 0;
        while i < N
            invariant
                i <= N,
                N <= self.bytes().len(),
                self.0@ == self.bytes(),
                forall|j: int| 0 <= j < i ==> (#[trigger] nonce@[j]) == self.bytes()[j],
            decreases N - i,
        {
            nonce[i] = *self.0.get(i).unwrap();
            i = i + 1;
        }
        let n = self.0.len();
        let mut rest = self.0;
        let mut tail: Vec<u8> = Vec::new();
        let mut k: usize = N;
        while k < n
            invariant
                N <= k <= n,
                n == rest@.len(),
                rest@ == self.bytes(),
                tail@ == self.bytes().subrange(N as int, k as int),
            decreases n - k,
        {
            let b = *rest.get(k).unwrap();
            tail.push(b);
            proof {
                assert(tail@ =~= self.bytes().subrange(N as int, k + 1));
            }
            k = k + 1;
        }
        proof {
            assert(nonce@ =~= self.bytes().take(N as int));
            assert(tail@ =~= self.bytes().skip(N as int));
        }
        (Nonce(nonce), CiphertextAndTagReader(Protected::new(tail)))
    }
}

/// The encrypted bytes and tag of a frame, kept protected while they wait
/// for the decryption step.
pub struct CiphertextAndTagReader(pub(crate) Protected<Vec<u8>>);

impl CiphertextAndTagReader {
    /// The bytes after the nonce (ghost view).
    pub closed spec fn remainder(&self) -> Seq<u8> {
        self.0.raw()@
    }

    /// The bytes after the nonce, as a value (ghost view).
    pub closed spec fn remainder_vec(&self) -> Vec<u8> {
        self.0.raw()
    }

    /// Hand the ciphertext and tag to the decryption step: a closure that
    /// must write the plaintext over them, or fail. The result stays
    /// protected.
    pub fn accepts_plaintext_ok<E, F: FnOnce(Vec<u8>) -> Result<Vec<u8>, E>>(self, f: F) -> (r:
        Plaintext<E>)
        requires
            call_requires(f, (self.remainder_vec(),)),
        ensures
            call_ensures(f, (self.remainder_vec(),), r.result()),
    {
        let data = f(self.0.risky_unwrap());
        match data {
            Ok(v) => Plaintext(Ok(Protected::new(v))),
            Err(e) => Plaintext(Err(e)),
        }
    }
}

/// The decryption step's outcome: the plaintext, still protected, or the
/// cipher's error.
pub struct Plaintext<E>(pub(crate) Result<Protected<Vec<u8>>, E>);

impl<E> Plaintext<E> {
    /// What the decryption step produced (ghost view).
    pub closed spec fn result(&self) -> Result<Vec<u8>, E> {
        match self.0 {
            Ok(p) => Ok(p.raw()),
            Err(e) => Err(e),
        }
    }

    /// The plaintext, if decryption succeeded.
    pub fn read(self) -> (r: Result<Protected<Vec<u8>>, E>)
        ensures
            match self.result() {
                Ok(d) => r matches Ok(p) && p.raw() == d,
                Err(e) => r matches Err(e2) && e2 == e,
            },
    {
        self.0
    }
}

/// The engine of an authenticated cipher, implemented by collaborators
/// (a hardware or remote cipher). The crate states nothing of what an
/// implementation returns: every caller must hold for every outcome, and
/// the plaintext reaches the engine only under the crate's protections.
pub trait AeadCore<const NONCE_SIZE: usize>: Sized {
    type Error;

    /// Encrypt the plaintext under the nonce, binding the associated
    /// data, and frame the result.
    fn encrypt_with_aad(
        &self,
        plaintext: Protected<Vec<u8>>,
        nonce: Nonce<NONCE_SIZE>,
        aad: &Aad,
    ) -> Result<CipherText, Self::Error>;

    /// Open a framed ciphertext, checking the associated data.
    fn decrypt_with_aad(&self, ciphertext: CipherText, aad: &Aad) -> Result<
        Protected<Vec<u8>>,
        Self::Error,
    >;
}

/// What can go wrong when a value travels through an authenticated
/// cipher: the cipher's own failure, or a frame that decrypted but does
/// not hold one complete safe encoding.
pub enum AeadError<E> {
    Cipher(E),
    Decode(DecodeError),
}

/// An authenticated cipher together with its nonce source. The plaintext
/// is serialized by the crate's safe strategies, encrypted by the
/// collaborating engine under a fresh nonce, and framed; decryption
/// reverses the steps.
pub struct Aead<const NONCE_SIZE: usize, A: AeadCore<NONCE_SIZE>, G: NonceGenerator<NONCE_SIZE>> {
    pub(crate) cipher: A,
    pub(crate) nonces: G,
}

impl<
    const NONCE_SIZE: usize,
    A: AeadCore<NONCE_SIZE>,
    G: NonceGenerator<NONCE_SIZE>,
> Aead<NONCE_SIZE, A, G> {
    /// Pair a cipher engine with a fresh nonce source.
    pub fn new(cipher: A) -> Self {
        Aead { cipher, nonces: G::init() }
    }

    /// Serialize a controlled value by its safe strategy and encrypt the
    /// bytes under a fresh nonce, binding the associated data.
    pub fn encrypt_with_aad<T: ControlledPrivate>(&mut self, plaintext: &T, aad: &Aad) -> Result<
        CipherText,
        AeadError<A::Error>,
    > where T::Inner: SafeSerialize {
        let mut bytes: Vec<u8> = Vec::new();
        plaintext.inner().safe_serialize(&mut bytes);
        let nonce = self.nonces.generate();
        match self.cipher.encrypt_with_aad(Protected::new(bytes), nonce, aad) {
            Ok(ct) => Ok(ct),
            Err(e) => Err(AeadError::Cipher(e)),
        }
    }

    /// Encrypt with no associated data.
    pub fn encrypt<T: ControlledPrivate>(&mut self, plaintext: &T) -> Result<
        CipherText,
        AeadError<A::Error>,
    > where T::Inner: SafeSerialize {
        self.encrypt_with_aad(plaintext, &Aad::empty())
    }

    /// Decrypt a frame, check the associated data, and deserialize the
    /// plaintext back into a controlled value. Whatever the engine hands
    /// back, a success holds a value decoded from one complete, valid
    /// safe encoding of those bytes.
    pub fn decrypt_with_aad<T: ControlledPrivate>(&self, ciphertext: CipherText, aad: &Aad) -> (r:
        Result<T, AeadError<A::Error>>) where T::Inner: SafeDeserialize
        ensures
            r matches Ok(v) ==> exists|bytes: Seq<u8>|
                {
                    &&& #[trigger] <T::Inner as SafeDeserialize>::spec_decode(bytes, 0) matches Ok(
                        (w, e),
                    )
                    &&& v.raw().eq_spec(&w)
                    &&& e == bytes.len()
                },
    {
        match self.cipher.decrypt_with_aad(ciphertext, aad) {
            Ok(plain) => {
                let bytes = plain.risky_unwrap();
                match <T::Inner as SafeDeserialize>::safe_deserialize(bytes.as_slice(), 0) {
                    Ok((v, end)) => {
                        if end == bytes.len() {
                            Ok(T::init_from_inner(v))
                        } else {
                            Err(AeadError::Decode(DecodeError::TrailingBytes))
                        }
                    },
                    Err(e) => Err(AeadError::Decode(e)),
                }
            },
            Err(e) => Err(AeadError::Cipher(e)),
        }
    }

    /// Decrypt with no associated data.
    pub fn decrypt<T: ControlledPrivate>(&self, ciphertext: CipherText) -> Result<
        T,
        AeadError<A::Error>,
    > where T::Inner: SafeDeserialize {
        self.decrypt_with_aad(ciphertext, &Aad::empty())
    }
}

} // verus!
