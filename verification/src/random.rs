use crate::controlled::{Controlled, ControlledPrivate};
use crate::Protected;
use vstd::prelude::*;

verus! {

/// The stream cipher state behind [`SafeRand`]. Its content is opaque
/// here: nothing is assumed about the values it produces.
#[verifier::external_type_specification]
#[verifier::external_body]
pub struct ExChaCha20Rng(rand_chacha::ChaCha20Rng);

/// Ways random generation can fail.
#[derive(Clone, Copy, Debug, PartialEq, Eq, Structural)]
pub enum RandomError {
    GenerationFailed,
}

/// Relies on rand's `SeedableRng::from_seed` for `ChaCha20Rng`: builds a
/// generator deterministically from the 32-byte seed. Nothing is assumed
/// about the stream it will produce.
#[verifier::external_body]
fn chacha_from_seed(seed: [u8; 32]) -> rand_chacha::ChaCha20Rng {
    <rand_chacha::ChaCha20Rng as rand::SeedableRng>::from_seed(seed)
}

/// Relies on rand's `SeedableRng::from_entropy` for `ChaCha20Rng`: seeds a
/// generator from the operating system's entropy source. It aborts the
/// process if that source is unavailable; no contract depends on the
/// values produced.
#[verifier::external_body]
fn chacha_from_entropy() -> rand_chacha::ChaCha20Rng {
    <rand_chacha::ChaCha20Rng as rand::SeedableRng>::from_entropy()
}

/// Relies on rand's `RngCore::next_u32` for `ChaCha20Rng`. The result
/// depends on the hidden stream position, so nothing is stated of it: every
/// caller must hold for every possible value.
#[verifier::external_body]
fn chacha_next_u32(rng: &mut rand_chacha::ChaCha20Rng) -> u32 {
    rand::RngCore::next_u32(rng)
}

/// Relies on rand's `RngCore::next_u64` for `ChaCha20Rng`; as for the
/// 32-bit draw, nothing is stated of the value.
#[verifier::external_body]
fn chacha_next_u64(rng: &mut rand_chacha::ChaCha20Rng) -> u64 {
    rand::RngCore::next_u64(rng)
}

/// Relies on rand's `RngCore::fill_bytes` for `ChaCha20Rng`: fills the
/// buffer completely, so exactly `n` bytes come back; their values are
/// unspecified.
#[verifier::external_body]
fn chacha_fill(rng: &mut rand_chacha::ChaCha20Rng, n: usize) -> (r: Vec<u8>)
    ensures
        r@.len() == n,
{
    let mut buf = vec![0u8; n];
    rand::RngCore::fill_bytes(rng, &mut buf);
    buf
}

/// Is `x` a power of two? Zero is not.
pub open spec fn spec_is_power_of_two(x: u32) -> bool {
    x != 0 && x & (x - 1) as u32 == 0
}

/// A secure random number generator that is safe to use for cryptographic
/// purposes, so that callers do not have to choose one. It draws from a
/// ChaCha20 stream.
pub struct SafeRand(pub(crate) rand_chacha::ChaCha20Rng);

impl SafeRand {
    /// Build a generator from a fixed 32-byte seed; the stream is then a
    /// deterministic function of the seed.
    pub fn from_seed(seed: [u8; 32]) -> Self {
        SafeRand(chacha_from_seed(seed))
    }

    /// Build a generator seeded from the operating system's entropy
    /// source.
    pub fn from_entropy() -> Self {
        SafeRand(chacha_from_entropy())
    }

    /// Draw one unspecified 32-bit value.
    pub fn next_u32(&mut self) -> u32 {
        chacha_next_u32(&mut self.0)
    }

    /// Draw one unspecified 64-bit value.
    pub fn next_u64(&mut self) -> u64 {
        chacha_next_u64(&mut self.0)
    }

    /// Draw exactly `n` unspecified bytes.
    pub fn fill_bytes(&mut self, n: usize) -> (r: Vec<u8>)
        ensures
            r@.len() == n,
    {
        chacha_fill(&mut self.0, n)
    }

    /// A random value below `max` when `max` is a power of two, up to and
    /// including it otherwise, using rejection sampling to avoid modulo
    /// bias. The sampling budget is generous but finite; in the vanishingly
    /// unlikely event that every draw is rejected, the last draw is reduced
    /// modulo the bound instead. A bound whose next power of two would
    /// overflow is excluded, as the power-of-two computation has no defined
    /// result there.
    pub fn next_bounded_u32(&mut self, max: u32) -> (r: u32)
        requires
            spec_is_power_of_two(max) || max < 0x8000_0000,
        ensures
            if spec_is_power_of_two(max) {
                r < max
            } else {
                r <= max
            },
    {
        if is_power_of_two_u32(max) {
            self.next_u32() % max
        } else {
            let cap = next_power_of_two_u32(max);
            let mut value = self.next_u32() % cap;
            let mut tries: usize = 0;
            while value > max && tries < 64
                invariant
                    cap != 0,
                    max < 0x8000_0000,
                decreases 64 - tries,
            {
                value = self.next_u32() % cap;
                tries = tries + 1;
            }
            if value > max {
                value = value % (max + 1);
            }
            value
        }
    }
}

/// Whether `x` is a power of two, decided by one bitwise test.
fn is_power_of_two_u32(x: u32) -> (r: bool)
    ensures
        r == spec_is_power_of_two(x),
{
    x != 0 && x & (x - 1) == 0
}

/// The smallest power of two no smaller than `x`.
fn next_power_of_two_u32(x: u32) -> (r: u32)
    requires
        x < 0x8000_0000,
    ensures
        spec_is_power_of_two(r),
        r >= x,
{
    let mut p: u32 = 1;
    assert(spec_is_power_of_two(1u32)) by (bit_vector);
    while p < x
        invariant
            spec_is_power_of_two(p),
            p <= 0x8000_0000,
            x < 0x8000_0000,
        decreases 0x8000_0000 - p,
    {
        proof {
            let q = p;
            assert(spec_is_power_of_two(q) && q < 0x8000_0000u32 ==> spec_is_power_of_two(
                (2 * q) as u32,
            ) && (2 * q) as u32 > q && q <= 0x4000_0000u32) by (bit_vector);
        }
        p = p * 2;
    }
    p
}

/// A generator of random values within a bound. `bound_ok` says which
/// bounds the generator accepts, and `in_bound` how the result relates to
/// the bound.
pub trait BoundedRng<T> {
    /// The bounds this generator accepts.
    spec fn bound_ok(max: &T) -> bool;

    /// How a drawn value relates to the bound.
    spec fn in_bound(max: &T, r: &T) -> bool;

    /// Draw a value within the bound.
    fn next_bounded(&mut self, max: T) -> (r: T)
        requires
            Self::bound_ok(&max),
        ensures
            Self::in_bound(&max, &r);
}

impl BoundedRng<u32> for SafeRand {
    open spec fn bound_ok(max: &u32) -> bool {
        spec_is_power_of_two(*max) || *max < 0x8000_0000
    }

    open spec fn in_bound(max: &u32, r: &u32) -> bool {
        if spec_is_power_of_two(*max) {
            *r < *max
        } else {
            *r <= *max
        }
    }

    fn next_bounded(&mut self, max: u32) -> (r: u32) {
        self.next_bounded_u32(max)
    }
}

impl BoundedRng<Protected<u32>> for SafeRand {
    open spec fn bound_ok(max: &Protected<u32>) -> bool {
        spec_is_power_of_two(max.raw()) || max.raw() < 0x8000_0000
    }

    open spec fn in_bound(max: &Protected<u32>, r: &Protected<u32>) -> bool {
        if spec_is_power_of_two(max.raw()) {
            r.raw() < max.raw()
        } else {
            r.raw() <= max.raw()
        }
    }

    fn next_bounded(&mut self, max: Protected<u32>) -> (r: Protected<u32>) {
        let m = max.risky_unwrap();
        Protected::new(self.next_bounded_u32(m))
    }
}

/// A type whose values can be drawn at random from a [`SafeRand`]. Nothing
/// is stated about the drawn value beyond its type: every caller must hold
/// for every outcome.
pub trait Generatable: Sized {
    /// Draw one random value.
    fn random(rng: &mut SafeRand) -> Result<Self, RandomError>;
}

impl<const N: usize> Generatable for [u8; N] {
    fn random(rng: &mut SafeRand) -> Result<Self, RandomError> {
        let buf = rng.fill_bytes(N);
        let mut out: [u8; N] = [0;N];
        let mut i: usize = 0;
        while i < N
            invariant
                i <= N,
                buf@.len() == N,
            decreases N - i,
        {
            out[i] = buf[i];
            i = i + 1;
        }
        Ok(out)
    }
}

impl<const N: usize> Generatable for Protected<[u8; N]> {
    fn random(rng: &mut SafeRand) -> Result<Self, RandomError> {
        match <[u8; N] as Generatable>::random(rng) {
            Ok(buf) => Ok(Protected::new(buf)),
            Err(e) => Err(e),
        }
    }
}

impl Generatable for Protected<u16> {
    fn random(rng: &mut SafeRand) -> Result<Self, RandomError> {
        let buf = rng.fill_bytes(2);
        let hi = buf[0] as u16;
        let lo = buf[1] as u16;
        Ok(Protected::new(hi * 256 + lo))
    }
}

impl Generatable for Protected<u32> {
    fn random(rng: &mut SafeRand) -> Result<Self, RandomError> {
        Ok(Protected::new(rng.next_u32()))
    }
}

} // verus!
