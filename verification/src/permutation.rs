use crate::controlled::ControlledPrivate;
use crate::exportable::Exportable;
use crate::random::{RandomError, SafeRand};
use crate::wipe::Wipe;
use crate::zeroed::Zeroed;
use crate::Protected;
use vstd::prelude::*;

verus! {

/// Array shapes that the permutation cipher accepts as keys and blocks.
pub trait IsPermutable: Zeroed {}

impl IsPermutable for [u8; 8] {}

impl IsPermutable for [u8; 16] {}

impl IsPermutable for [u8; 32] {}

impl IsPermutable for [u8; 64] {}

impl IsPermutable for [u8; 128] {}

impl IsPermutable for [u16; 8] {}

impl IsPermutable for [u16; 16] {}

impl IsPermutable for [u16; 32] {}

impl IsPermutable for [u16; 64] {}

impl IsPermutable for [u16; 128] {}

impl IsPermutable for [u32; 8] {}

impl IsPermutable for [u32; 16] {}

impl IsPermutable for [u32; 32] {}

impl IsPermutable for [u32; 64] {}

impl IsPermutable for [u32; 128] {}

/// Does `s` hold the value `v` somewhere?
pub open spec fn contains_value(s: Seq<u8>, v: u8) -> bool {
    exists|i: int| 0 <= i < s.len() && s[i] == v
}

/// `s` is a permutation of `0 .. s.len()`: every entry is in range, no two
/// entries coincide, and every value in range occurs.
pub open spec fn is_permutation(s: Seq<u8>) -> bool {
    &&& s.len() <= 256
    &&& forall|i: int| 0 <= i < s.len() ==> (#[trigger] s[i]) < s.len()
    &&& forall|i: int, j: int|
        0 <= i < s.len() && 0 <= j < s.len() && i != j ==> s[i] != s[j]
    &&& forall|v: u8| v < s.len() ==> #[trigger] contains_value(s, v)
}

/// Swapping two entries of a permutation leaves a permutation.
proof fn lemma_swap_preserves_permutation(s: Seq<u8>, t: Seq<u8>, i: int, j: int)
    requires
        is_permutation(s),
        0 <= i < s.len(),
        0 <= j < s.len(),
        t == s.update(i, s[j]).update(j, s[i]),
    ensures
        is_permutation(t),
{
    assert(t.len() == s.len());
    assert forall|k: int| 0 <= k < t.len() implies (#[trigger] t[k]) < t.len() by {
        if k == j {
            assert(t[k] == s[i]);
        } else if k == i {
            assert(t[k] == s[j]);
        } else {
            assert(t[k] == s[k]);
        }
    }
    assert forall|k1: int, k2: int|
        0 <= k1 < t.len() && 0 <= k2 < t.len() && k1 != k2 implies t[k1] != t[k2] by {
        let m1 = if k1 == j {
            i
        } else if k1 == i {
            j
        } else {
            k1
        };
        let m2 = if k2 == j {
            i
        } else if k2 == i {
            j
        } else {
            k2
        };
        assert(t[k1] == s[m1]);
        assert(t[k2] == s[m2]);
        assert(m1 != m2);
    }
    assert forall|v: u8| v < t.len() implies #[trigger] contains_value(t, v) by {
        assert(contains_value(s, v));
        let w = choose|w: int| 0 <= w < s.len() && s[w] == v;
        if w == i {
            assert(t[j] == v);
        } else if w == j {
            assert(t[i] == v);
        } else {
            assert(t[w] == v);
        }
    }
}

/// The identity assignment, each index mapped to itself.
pub fn identity<const N: usize>() -> (r: [u8; N])
    requires
        N <= 256,
    ensures
        r@.len() == N,
        forall|i: int| 0 <= i < N ==> (#[trigger] r@[i]) == i,
{
    let mut out: [u8; N] = [0;N];
    let mut i: usize = 0;
    while i < N
        invariant
            i <= N,
            N <= 256,
            forall|j: int| 0 <= j < i ==> (#[trigger] out@[j]) == j,
        decreases N - i,
    {
        out[i] = i as u8;
        i = i + 1;
    }
    out
}

/// The identity assignment is a permutation.
proof fn lemma_identity_is_permutation(s: Seq<u8>)
    requires
        s.len() <= 256,
        forall|i: int| 0 <= i < s.len() ==> (#[trigger] s[i]) == i,
    ensures
        is_permutation(s),
{
    assert forall|v: u8| v < s.len() implies #[trigger] contains_value(s, v) by {
        assert(s[v as int] == v);
    }
}

/// The inner controls chosen for a permutation key: protected, and
/// exportable so that a generated key can be stored.
pub(crate) type KeyInner<const N: usize> = Exportable<Protected<[u8; N]>>;

/// A key for the elementwise permutation cipher: a permutation of the
/// block indices, held under the crate's protections.
pub struct PermutationKey<const N: usize>(pub(crate) KeyInner<N>);

impl<const N: usize> PermutationKey<N> {
    /// The index assignment this key carries (ghost view).
    pub closed spec fn key_seq(&self) -> Seq<u8> {
        self.0.raw()@
    }

    /// The key is a genuine permutation of `0 .. N`.
    pub open spec fn wf(&self) -> bool {
        self.key_seq().len() == N && is_permutation(self.key_seq())
    }

    /// Wrap an index assignment as a key without checking that it is a
    /// permutation. A key built from a non-permutation will not satisfy
    /// the contracts of the operations that permute with it; the caller
    /// answers for the assignment's shape.
    pub fn new_unchecked(key: [u8; N]) -> (r: Self)
        ensures
            r.key_seq() == key@,
    {
        PermutationKey(Exportable::new(key))
    }

    /// Take the key back out of its protections.
    pub fn into_inner(self) -> (r: KeyInner<N>)
        ensures
            r.raw()@ == self.key_seq(),
    {
        self.0
    }

    /// Draw a key uniformly at random, by a Fisher-Yates shuffle of the
    /// identity assignment. The result is always a permutation.
    pub fn random(rng: &mut SafeRand) -> (r: Result<Self, RandomError>)
        requires
            N <= 256,
        ensures
            r matches Ok(k) ==> k.wf(),
    {
        let mut key: [u8; N] = identity::<N>();
        proof {
            lemma_identity_is_permutation(key@);
        }
        let mut i: usize = N;
        while i > 0
            invariant
                i <= N,
                N <= 256,
                key@.len() == N,
                is_permutation(key@),
            decreases i,
        {
            let idx = i - 1;
            let j32 = rng.next_bounded_u32(idx as u32);
            let j = j32 as usize;
            let ghost s0 = key@;
            let a = key[idx];
            let b = key[j];
            key[idx] = b;
            key[j] = a;
            proof {
                lemma_swap_preserves_permutation(s0, key@, idx as int, j as int);
            }
            i = idx;
        }
        Ok(PermutationKey(Exportable::new(key)))
    }

    /// Consume the key and return its inverse: the key that undoes this
    /// one's rearrangement.
    pub fn invert(self) -> (r: Self)
        requires
            self.wf(),
        ensures
            r.wf(),
            forall|i: int|
                0 <= i < N ==> r.key_seq()[(#[trigger] self.key_seq()[i]) as int] == i,
    {
        let karr = self.0.inner();
        let mut out: [u8; N] = [0;N];
        let mut i: usize = 0;
        while i < N
            invariant
                i <= N,
                N <= 256,
                self.wf(),
                karr@ == self.key_seq(),
                forall|j: int|
                    0 <= j < i ==> out@[(#[trigger] self.key_seq()[j]) as int] == j,
            decreases N - i,
        {
            let k = karr[i];
            out[k as usize] = i as u8;
            proof {
                assert forall|j: int|
                    0 <= j < i + 1 implies out@[(#[trigger] self.key_seq()[j]) as int] == j by {
                    if j < i {
                        assert(self.key_seq()[j] != self.key_seq()[i as int]);
                    }
                }
            }
            i = i + 1;
        }
        proof {
            lemma_inverse_is_permutation(self.key_seq(), out@);
        }
        PermutationKey(Exportable::new(out))
    }

    /// The complement of this key with respect to `target`: the key whose
    /// composition with `target` rearranges exactly as this key does.
    pub fn complement(&self, target: &Self) -> (r: Self)
        requires
            self.wf(),
            target.wf(),
        ensures
            r.wf(),
            forall|i: int|
                0 <= i < N ==> target.key_seq()[(#[trigger] r.key_seq()[i]) as int]
                    == self.key_seq()[i],
    {
        let tinv = target.clone_key().invert();
        proof {
            lemma_inverse_two_sided(target.key_seq(), tinv.key_seq());
        }
        let sarr = self.0.inner();
        let tarr = tinv.0.inner();
        let mut out: [u8; N] = [0;N];
        let mut i: usize = 0;
        while i < N
            invariant
                i <= N,
                N <= 256,
                self.wf(),
                tinv.wf(),
                target.wf(),
                sarr@ == self.key_seq(),
                tarr@ == tinv.key_seq(),
                forall|j: int|
                    0 <= j < N ==> target.key_seq()[(#[trigger] tinv.key_seq()[j]) as int] == j,
                forall|j: int|
                    0 <= j < i ==> (#[trigger] out@[j]) == tinv.key_seq()[self.key_seq()[j] as int],
            decreases N - i,
        {
            let s = sarr[i];
            out[i] = tarr[s as usize];
            i = i + 1;
        }
        proof {
            lemma_compose_is_permutation(self.key_seq(), tinv.key_seq(), out@);
        }
        PermutationKey(Exportable::new(out))
    }

    /// A copy of the key under fresh protections.
    pub fn clone_key(&self) -> (r: Self)
        ensures
            r.key_seq() == self.key_seq(),
    {
        let karr = self.0.inner();
        let mut out: [u8; N] = [0;N];
        let mut i: usize = 0;
        while i < N
            invariant
                i <= N,
                karr@ == self.key_seq(),
                self.key_seq().len() == N,
                forall|j: int| 0 <= j < i ==> (#[trigger] out@[j]) == self.key_seq()[j],
            decreases N - i,
        {
            out[i] = karr[i];
            i = i + 1;
        }
        proof {
            assert(out@ =~= self.key_seq());
        }
        PermutationKey(Exportable::new(out))
    }
}

/// The entrywise inverse of a permutation is a permutation.
proof fn lemma_inverse_is_permutation(s: Seq<u8>, t: Seq<u8>)
    requires
        is_permutation(s),
        t.len() == s.len(),
        forall|i: int| 0 <= i < s.len() ==> (#[trigger] t[s[i] as int]) == i,
    ensures
        is_permutation(t),
        forall|j: int| 0 <= j < t.len() ==> s[(#[trigger] t[j]) as int] == j,
{
    let n = s.len() as int;
    assert forall|j: int| 0 <= j < n implies (#[trigger] t[j]) < n && s[t[j] as int] == j by {
        assert(contains_value(s, j as u8));
        let i = choose|i: int| 0 <= i < n && s[i] == j as u8;
        assert(t[j] == i);
    }
    assert forall|k1: int, k2: int|
        0 <= k1 < n && 0 <= k2 < n && k1 != k2 implies t[k1] != t[k2] by {
        assert(s[t[k1] as int] == k1);
        assert(s[t[k2] as int] == k2);
    }
    assert forall|v: u8| v < n implies #[trigger] contains_value(t, v) by {
        assert(t[s[v as int] as int] == v);
        assert((s[v as int] as int) < n);
    }
}

/// An entrywise inverse undoes the permutation on both sides.
proof fn lemma_inverse_two_sided(s: Seq<u8>, t: Seq<u8>)
    requires
        is_permutation(s),
        t.len() == s.len(),
        forall|i: int| 0 <= i < s.len() ==> (#[trigger] t[s[i] as int]) == i,
    ensures
        forall|j: int| 0 <= j < t.len() ==> s[(#[trigger] t[j]) as int] == j,
{
    lemma_inverse_is_permutation(s, t);
}

/// The entrywise composition of two permutations is a permutation.
proof fn lemma_compose_is_permutation(s: Seq<u8>, t: Seq<u8>, u: Seq<u8>)
    requires
        is_permutation(s),
        is_permutation(t),
        s.len() == t.len(),
        u.len() == s.len(),
        forall|i: int| 0 <= i < u.len() ==> (#[trigger] u[i]) == t[s[i] as int],
    ensures
        is_permutation(u),
{
    let n = s.len() as int;
    assert forall|k1: int, k2: int|
        0 <= k1 < n && 0 <= k2 < n && k1 != k2 implies u[k1] != u[k2] by {
        assert(s[k1] != s[k2]);
    }
    assert forall|v: u8| v < n implies #[trigger] contains_value(u, v) by {
        assert(contains_value(t, v));
        let i = choose|i: int| 0 <= i < n && t[i] == v;
        assert(contains_value(s, i as u8));
        let k = choose|k: int| 0 <= k < n && s[k] == i as u8;
        assert(u[k] == v);
    }
}

/// Undoing a key's rearrangement restores the original array: wherever a
/// permute step filled the output from the input, a following depermute
/// step puts every entry back in its place.
pub proof fn lemma_depermute_undoes_permute<T, const N: usize>(
    key: &PermutationKey<N>,
    input: [T; N],
    mid: [T; N],
    out: [T; N],
)
    requires
        key.wf(),
        forall|i: int| 0 <= i < N ==> (#[trigger] mid@[i]) == input@[key.key_seq()[i] as int],
        forall|i: int| 0 <= i < N ==> out@[(#[trigger] key.key_seq()[i]) as int] == mid@[i],
    ensures
        out@ == input@,
{
    let k = key.key_seq();
    assert forall|j: int| 0 <= j < N implies out@[j] == input@[j] by {
        assert(contains_value(k, j as u8));
        let i = choose|i: int| 0 <= i < k.len() && k[i] == j as u8;
        assert(out@[k[i] as int] == mid@[i]);
        assert(mid@[i] == input@[k[i] as int]);
    }
    assert(out@ =~= input@);
}

/// A rearrangement of array entries by a key: entry `i` of the output is
/// entry `key[i]` of the input.
pub trait Permute<T> {
    /// When the key may be applied.
    spec fn permutable(&self, input: &T) -> bool;

    /// How the output's entries relate to the input's.
    spec fn permute_spec(&self, input: T, out: T) -> bool;

    /// Apply the key.
    fn permute(&self, input: T) -> (r: T)
        requires
            self.permutable(&input),
        ensures
            self.permute_spec(input, r);
}

/// The inverse rearrangement: entry `key[i]` of the output is entry `i` of
/// the input.
pub trait Depermute<T> {
    /// When the key may be applied.
    spec fn depermutable(&self, input: &T) -> bool;

    /// How the output's entries relate to the input's.
    spec fn depermute_spec(&self, input: T, out: T) -> bool;

    /// Undo the key's rearrangement.
    fn depermute(&self, input: T) -> (r: T)
        requires
            self.depermutable(&input),
        ensures
            self.depermute_spec(input, r);
}

/// Rearrange an array by the key: output entry `i` holds input entry
/// `key[i]`. The local copy of the input is wiped once its entries have
/// been moved to the output.
pub fn permute_array<const N: usize, T>(key: &PermutationKey<N>, input: [T; N]) -> (r: [T; N]) where
    T: Copy + Zeroed,

    requires
        key.wf(),
    ensures
        forall|i: int| 0 <= i < N ==> (#[trigger] r@[i]) == input@[key.key_seq()[i] as int],
{
    let karr = key.0.inner();
    let mut out: [T; N] = Zeroed::zeroed();
    let mut inp = input;
    let mut i: usize = 0;
    while i < N
        invariant
            i <= N,
            key.wf(),
            karr@ == key.key_seq(),
            inp@ == input@,
            forall|j: int| 0 <= j < i ==> (#[trigger] out@[j]) == input@[key.key_seq()[j] as int],
        decreases N - i,
    {
        let k = karr[i];
        out[i] = inp[k as usize];
        i = i + 1;
    }
    inp.wipe();
    out
}

/// Undo a key's rearrangement: output entry `key[i]` holds input entry
/// `i`. The local copy of the input is wiped once its entries have been
/// moved to the output.
pub fn depermute_array<const N: usize, T>(key: &PermutationKey<N>, input: [T; N]) -> (r: [T; N]) where
    T: Copy + Zeroed,

    requires
        key.wf(),
    ensures
        forall|i: int| 0 <= i < N ==> r@[(#[trigger] key.key_seq()[i]) as int] == input@[i],
{
    let karr = key.0.inner();
    let mut out: [T; N] = Zeroed::zeroed();
    let mut inp = input;
    let mut i: usize = 0;
    while i < N
        invariant
            i <= N,
            key.wf(),
            karr@ == key.key_seq(),
            inp@ == input@,
            forall|j: int| 0 <= j < i ==> out@[(#[trigger] key.key_seq()[j]) as int] == input@[j],
        decreases N - i,
    {
        let k = karr[i];
        let ghost before = out@;
        out[k as usize] = inp[i];
        proof {
            assert forall|j: int|
                0 <= j < i + 1 implies out@[(#[trigger] key.key_seq()[j]) as int] == input@[j] by {
                if j < i {
                    assert(key.key_seq()[j] != key.key_seq()[i as int]);
                }
            }
        }
        i = i + 1;
    }
    inp.wipe();
    out
}

impl<const N: usize, T> Permute<[T; N]> for PermutationKey<N> where
    T: Copy + Zeroed,
    [T; N]: IsPermutable,
 {
    open spec fn permutable(&self, input: &[T; N]) -> bool {
        self.wf()
    }

    open spec fn permute_spec(&self, input: [T; N], out: [T; N]) -> bool {
        forall|i: int| 0 <= i < N ==> (#[trigger] out@[i]) == input@[self.key_seq()[i] as int]
    }

    fn permute(&self, input: [T; N]) -> (r: [T; N]) {
        permute_array(self, input)
    }
}

impl<const N: usize, T> Depermute<[T; N]> for PermutationKey<N> where
    T: Copy + Zeroed,
    [T; N]: IsPermutable,
 {
    open spec fn depermutable(&self, input: &[T; N]) -> bool {
        self.wf()
    }

    open spec fn depermute_spec(&self, input: [T; N], out: [T; N]) -> bool {
        forall|i: int| 0 <= i < N ==> out@[(#[trigger] self.key_seq()[i]) as int] == input@[i]
    }

    fn depermute(&self, input: [T; N]) -> (r: [T; N]) {
        depermute_array(self, input)
    }
}

/// A permutation key can itself be permuted by another key; the result is
/// again a permutation.
impl<const N: usize> Permute<PermutationKey<N>> for PermutationKey<N> where
    [u8; N]: IsPermutable,
 {
    open spec fn permutable(&self, input: &PermutationKey<N>) -> bool {
        self.wf() && input.wf()
    }

    open spec fn permute_spec(&self, input: PermutationKey<N>, out: PermutationKey<N>) -> bool {
        out.wf() && forall|i: int|
            0 <= i < N ==> (#[trigger] out.key_seq()[i]) == input.key_seq()[self.key_seq()[i] as int]
    }

    fn permute(&self, input: PermutationKey<N>) -> (r: PermutationKey<N>) {
        let karr = self.0.inner();
        let iarr = input.0.inner();
        let mut out: [u8; N] = [0;N];
        let mut i: usize = 0;
        while i < N
            invariant
                i <= N,
                self.wf(),
                input.wf(),
                karr@ == self.key_seq(),
                iarr@ == input.key_seq(),
                forall|j: int|
                    0 <= j < i ==> (#[trigger] out@[j]) == input.key_seq()[self.key_seq()[j] as int],
            decreases N - i,
        {
            let k = karr[i];
            out[i] = iarr[k as usize];
            i = i + 1;
        }
        proof {
            lemma_compose_is_permutation(self.key_seq(), input.key_seq(), out@);
        }
        PermutationKey(Exportable::new(out))
    }
}

} // verus!
