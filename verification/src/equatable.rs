use crate::controlled::{Controlled, ControlledPrivate};
use crate::private::ProtectSealed;
use vstd::prelude::*;

verus! {

/// Marker for raw types that the crate knows how to compare in constant
/// time. Keeping the marker separate from [`ConstantTimeEq`] mirrors the
/// sealed-contract pattern: a type joins the comparison engine only by an
/// impl written in this crate.
pub trait SupportsConstantTimeEq {}

/// Equality whose outcome does not depend on where the first difference
/// between the two values occurs. `eq_spec` says what the comparison
/// decides; the two lemmas pin down that it is a genuine equality
/// (reflexive and symmetric) for every implementing type.
pub trait ConstantTimeEq: SupportsConstantTimeEq + Sized {
    /// What the constant-time comparison decides, as a mathematical
    /// predicate on the two values.
    spec fn eq_spec(&self, other: &Self) -> bool;

    /// Every value compares equal to itself.
    proof fn eq_spec_reflexive(&self)
        ensures
            self.eq_spec(self);

    /// Comparison does not depend on argument order.
    proof fn eq_spec_symmetric(&self, other: &Self)
        ensures
            self.eq_spec(other) == other.eq_spec(self);

    /// Compare `self` and `other` without a data-dependent early exit.
    fn constant_time_eq(&self, other: &Self) -> (r: bool)
        ensures
            r == self.eq_spec(other);
}

/// Relies on subtle's `ConstantTimeEq` impl for `u8`: `ct_eq` returns the
/// choice `self == other`, computed branch-free; `Choice` converts to the
/// same truth value.
#[verifier::external_body]
fn subtle_ct_eq_u8(a: &u8, b: &u8) -> (r: bool)
    ensures
        r == (a == b),
{
    subtle::ConstantTimeEq::ct_eq(a, b).into()
}

/// Relies on subtle's `ConstantTimeEq` impl for `u16`.
#[verifier::external_body]
fn subtle_ct_eq_u16(a: &u16, b: &u16) -> (r: bool)
    ensures
        r == (a == b),
{
    subtle::ConstantTimeEq::ct_eq(a, b).into()
}

/// Relies on subtle's `ConstantTimeEq` impl for `u32`.
#[verifier::external_body]
fn subtle_ct_eq_u32(a: &u32, b: &u32) -> (r: bool)
    ensures
        r == (a == b),
{
    subtle::ConstantTimeEq::ct_eq(a, b).into()
}

/// Relies on subtle's `ConstantTimeEq` impl for `u64`.
#[verifier::external_body]
fn subtle_ct_eq_u64(a: &u64, b: &u64) -> (r: bool)
    ensures
        r == (a == b),
{
    subtle::ConstantTimeEq::ct_eq(a, b).into()
}

/// Relies on subtle's `ConstantTimeEq` impl for `u128`.
#[verifier::external_body]
fn subtle_ct_eq_u128(a: &u128, b: &u128) -> (r: bool)
    ensures
        r == (a == b),
{
    subtle::ConstantTimeEq::ct_eq(a, b).into()
}

/// Relies on subtle's `ConstantTimeEq` impl for `usize`.
#[verifier::external_body]
fn subtle_ct_eq_usize(a: &usize, b: &usize) -> (r: bool)
    ensures
        r == (a == b),
{
    subtle::ConstantTimeEq::ct_eq(a, b).into()
}

/// Relies on subtle's `ConstantTimeEq` impl for `i8`: the comparison is
/// bitcast to the unsigned implementation, deciding `self == other`.
#[verifier::external_body]
fn subtle_ct_eq_i8(a: &i8, b: &i8) -> (r: bool)
    ensures
        r == (a == b),
{
    subtle::ConstantTimeEq::ct_eq(a, b).into()
}

/// Relies on subtle's `ConstantTimeEq` impl for `i16`: the comparison is
/// bitcast to the unsigned implementation, deciding `self == other`.
#[verifier::external_body]
fn subtle_ct_eq_i16(a: &i16, b: &i16) -> (r: bool)
    ensures
        r == (a == b),
{
    subtle::ConstantTimeEq::ct_eq(a, b).into()
}

/// Relies on subtle's `ConstantTimeEq` impl for `i32`: the comparison is
/// bitcast to the unsigned implementation, deciding `self == other`.
#[verifier::external_body]
fn subtle_ct_eq_i32(a: &i32, b: &i32) -> (r: bool)
    ensures
        r == (a == b),
{
    subtle::ConstantTimeEq::ct_eq(a, b).into()
}

/// Relies on subtle's `ConstantTimeEq` impl for `i64`: the comparison is
/// bitcast to the unsigned implementation, deciding `self == other`.
#[verifier::external_body]
fn subtle_ct_eq_i64(a: &i64, b: &i64) -> (r: bool)
    ensures
        r == (a == b),
{
    subtle::ConstantTimeEq::ct_eq(a, b).into()
}

/// Relies on subtle's `ConstantTimeEq` impl for `i128`: the comparison is
/// bitcast to the unsigned implementation, deciding `self == other`.
#[verifier::external_body]
fn subtle_ct_eq_i128(a: &i128, b: &i128) -> (r: bool)
    ensures
        r == (a == b),
{
    subtle::ConstantTimeEq::ct_eq(a, b).into()
}

impl SupportsConstantTimeEq for u8 {}

impl SupportsConstantTimeEq for u16 {}

impl SupportsConstantTimeEq for u32 {}

impl SupportsConstantTimeEq for u64 {}

impl SupportsConstantTimeEq for u128 {}

impl SupportsConstantTimeEq for usize {}

impl ConstantTimeEq for u8 {
    open spec fn eq_spec(&self, other: &Self) -> bool {
        self == other
    }

    proof fn eq_spec_reflexive(&self) {
    }

    proof fn eq_spec_symmetric(&self, other: &Self) {
    }

    fn constant_time_eq(&self, other: &Self) -> (r: bool) {
        subtle_ct_eq_u8(self, other)
    }
}

impl ConstantTimeEq for u16 {
    open spec fn eq_spec(&self, other: &Self) -> bool {
        self == other
    }

    proof fn eq_spec_reflexive(&self) {
    }

    proof fn eq_spec_symmetric(&self, other: &Self) {
    }

    fn constant_time_eq(&self, other: &Self) -> (r: bool) {
        subtle_ct_eq_u16(self, other)
    }
}

impl ConstantTimeEq for u32 {
    open spec fn eq_spec(&self, other: &Self) -> bool {
        self == other
    }

    proof fn eq_spec_reflexive(&self) {
    }

    proof fn eq_spec_symmetric(&self, other: &Self) {
    }

    fn constant_time_eq(&self, other: &Self) -> (r: bool) {
        subtle_ct_eq_u32(self, other)
    }
}

impl ConstantTimeEq for u64 {
    open spec fn eq_spec(&self, other: &Self) -> bool {
        self == other
    }

    proof fn eq_spec_reflexive(&self) {
    }

    proof fn eq_spec_symmetric(&self, other: &Self) {
    }

    fn constant_time_eq(&self, other: &Self) -> (r: bool) {
        subtle_ct_eq_u64(self, other)
    }
}

impl ConstantTimeEq for u128 {
    open spec fn eq_spec(&self, other: &Self) -> bool {
        self == other
    }

    proof fn eq_spec_reflexive(&self) {
    }

    proof fn eq_spec_symmetric(&self, other: &Self) {
    }

    fn constant_time_eq(&self, other: &Self) -> (r: bool) {
        subtle_ct_eq_u128(self, other)
    }
}

impl ConstantTimeEq for usize {
    open spec fn eq_spec(&self, other: &Self) -> bool {
        self == other
    }

    proof fn eq_spec_reflexive(&self) {
    }

    proof fn eq_spec_symmetric(&self, other: &Self) {
    }

    fn constant_time_eq(&self, other: &Self) -> (r: bool) {
        subtle_ct_eq_usize(self, other)
    }
}

impl SupportsConstantTimeEq for i8 {}

impl ConstantTimeEq for i8 {
    open spec fn eq_spec(&self, other: &Self) -> bool {
        self == other
    }

    proof fn eq_spec_reflexive(&self) {
    }

    proof fn eq_spec_symmetric(&self, other: &Self) {
    }

    fn constant_time_eq(&self, other: &Self) -> (r: bool) {
        subtle_ct_eq_i8(self, other)
    }
}

impl SupportsConstantTimeEq for i16 {}

impl ConstantTimeEq for i16 {
    open spec fn eq_spec(&self, other: &Self) -> bool {
        self == other
    }

    proof fn eq_spec_reflexive(&self) {
    }

    proof fn eq_spec_symmetric(&self, other: &Self) {
    }

    fn constant_time_eq(&self, other: &Self) -> (r: bool) {
        subtle_ct_eq_i16(self, other)
    }
}

impl SupportsConstantTimeEq for i32 {}

impl ConstantTimeEq for i32 {
    open spec fn eq_spec(&self, other: &Self) -> bool {
        self == other
    }

    proof fn eq_spec_reflexive(&self) {
    }

    proof fn eq_spec_symmetric(&self, other: &Self) {
    }

    fn constant_time_eq(&self, other: &Self) -> (r: bool) {
        subtle_ct_eq_i32(self, other)
    }
}

impl SupportsConstantTimeEq for i64 {}

impl ConstantTimeEq for i64 {
    open spec fn eq_spec(&self, other: &Self) -> bool {
        self == other
    }

    proof fn eq_spec_reflexive(&self) {
    }

    proof fn eq_spec_symmetric(&self, other: &Self) {
    }

    fn constant_time_eq(&self, other: &Self) -> (r: bool) {
        subtle_ct_eq_i64(self, other)
    }
}

impl SupportsConstantTimeEq for i128 {}

impl ConstantTimeEq for i128 {
    open spec fn eq_spec(&self, other: &Self) -> bool {
        self == other
    }

    proof fn eq_spec_reflexive(&self) {
    }

    proof fn eq_spec_symmetric(&self, other: &Self) {
    }

    fn constant_time_eq(&self, other: &Self) -> (r: bool) {
        subtle_ct_eq_i128(self, other)
    }
}

impl<T, const N: usize> SupportsConstantTimeEq for [T; N] {}

/// Fixed-size arrays compare element by element, accumulating the result
/// with a non-short-circuiting AND: every element is visited even after a
/// mismatch has been found.
impl<T: ConstantTimeEq + Copy, const N: usize> ConstantTimeEq for [T; N] {
    open spec fn eq_spec(&self, other: &Self) -> bool {
        forall|i: int| 0 <= i < N ==> (#[trigger] self[i]).eq_spec(&other[i])
    }

    proof fn eq_spec_reflexive(&self) {
        assert forall|i: int| 0 <= i < N implies (#[trigger] self[i]).eq_spec(&self[i]) by {
            self[i].eq_spec_reflexive();
        }
    }

    proof fn eq_spec_symmetric(&self, other: &Self) {
        assert forall|i: int| 0 <= i < N implies (#[trigger] self[i]).eq_spec(&other[i])
            == other[i].eq_spec(&self[i]) by {
            self[i].eq_spec_symmetric(&other[i]);
        }
    }

    fn constant_time_eq(&self, other: &Self) -> (r: bool) {
        let mut x = true;
        let mut i: usize = 0;
        while i < N
            invariant
                i <= N,
                x == forall|j: int| 0 <= j < i ==> (#[trigger] self[j]).eq_spec(&other[j]),
            decreases N - i,
        {
            let e = self[i].constant_time_eq(&other[i]);
            x = x && e;
            i = i + 1;
        }
        x
    }
}

impl<A, B> SupportsConstantTimeEq for (A, B) {}

/// Pairs compare componentwise; both comparisons always run, so the
/// outcome's timing does not depend on which component differs.
impl<A: ConstantTimeEq, B: ConstantTimeEq> ConstantTimeEq for (A, B) {
    open spec fn eq_spec(&self, other: &Self) -> bool {
        self.0.eq_spec(&other.0) && self.1.eq_spec(&other.1)
    }

    proof fn eq_spec_reflexive(&self) {
        self.0.eq_spec_reflexive();
        self.1.eq_spec_reflexive();
    }

    proof fn eq_spec_symmetric(&self, other: &Self) {
        self.0.eq_spec_symmetric(&other.0);
        self.1.eq_spec_symmetric(&other.1);
    }

    fn constant_time_eq(&self, other: &Self) -> (r: bool) {
        let a = self.0.constant_time_eq(&other.0);
        let b = self.1.constant_time_eq(&other.1);
        a && b
    }
}

impl<A, B, C> SupportsConstantTimeEq for (A, B, C) {}

/// Triples compare componentwise, with every comparison always run.
impl<A: ConstantTimeEq, B: ConstantTimeEq, C: ConstantTimeEq> ConstantTimeEq for (A, B, C) {
    open spec fn eq_spec(&self, other: &Self) -> bool {
        self.0.eq_spec(&other.0) && self.1.eq_spec(&other.1) && self.2.eq_spec(&other.2)
    }

    proof fn eq_spec_reflexive(&self) {
        self.0.eq_spec_reflexive();
        self.1.eq_spec_reflexive();
        self.2.eq_spec_reflexive();
    }

    proof fn eq_spec_symmetric(&self, other: &Self) {
        self.0.eq_spec_symmetric(&other.0);
        self.1.eq_spec_symmetric(&other.1);
        self.2.eq_spec_symmetric(&other.2);
    }

    fn constant_time_eq(&self, other: &Self) -> (r: bool) {
        let a = self.0.constant_time_eq(&other.0);
        let b = self.1.constant_time_eq(&other.1);
        let c = self.2.constant_time_eq(&other.2);
        a && b && c
    }
}

impl SupportsConstantTimeEq for String {}

/// Byte slices compare in constant time with respect to their content:
/// the lengths are compared first (a deliberate, documented leak of the
/// length, not of the content) and, only when the lengths match, the
/// bytes are folded with a non-short-circuiting AND.
pub(crate) fn ct_eq_bytes(a: &[u8], b: &[u8]) -> (r: bool)
    ensures
        r == (a@ == b@),
{
    if a.len() != b.len() {
        return false;
    }
    let n = a.len();
    let mut x = true;
    let mut i: usize = 0;
    while i < n
        invariant
            i <= n,
            n == a@.len(),
            n == b@.len(),
            x == forall|j: int| 0 <= j < i ==> a@[j] == b@[j],
        decreases n - i,
    {
        let e = subtle_ct_eq_u8(&a[i], &b[i]);
        x = x && e;
        i = i + 1;
    }
    proof {
        if x {
            assert(a@ =~= b@);
        }
    }
    x
}

/// Strings compare by their UTF-8 bytes: length first (the documented
/// length leak), then content in constant time.
impl ConstantTimeEq for String {
    open spec fn eq_spec(&self, other: &Self) -> bool {
        self@ == other@
    }

    proof fn eq_spec_reflexive(&self) {
    }

    proof fn eq_spec_symmetric(&self, other: &Self) {
    }

    fn constant_time_eq(&self, other: &Self) -> (r: bool) {
        let r = ct_eq_bytes(self.as_str().as_bytes(), other.as_str().as_bytes());
        proof {
            vstd::utf8::encode_utf8_decode_utf8(self@);
            vstd::utf8::encode_utf8_decode_utf8(other@);
        }
        r
    }
}

impl<T> crate::Protected<T> {
    /// Add the constant-time-equality capability to this value.
    pub fn equatable(self) -> (r: Equatable<crate::Protected<T>>)
        ensures
            r.raw() == self.raw(),
    {
        Equatable(self)
    }
}

impl<T: ControlledPrivate> crate::Exportable<T> {
    /// Add the constant-time-equality capability on top.
    pub fn equatable(self) -> (r: Equatable<crate::Exportable<T>>)
        ensures
            r.raw() == self.raw(),
    {
        Equatable(self)
    }
}

/// A controlled wrapper that adds constant-time equality to whatever it
/// wraps. The immediate inner type must itself be controlled (typically a
/// [`crate::Protected`]), so `Equatable` layers freely with the other
/// capability adapters, in any order and to any depth.
pub struct Equatable<T>(pub(crate) T);

impl<T> ProtectSealed for Equatable<T> {}

impl<T: ControlledPrivate> ControlledPrivate for Equatable<T> {
    type Inner = T::Inner;

    closed spec fn raw(&self) -> T::Inner {
        self.0.raw()
    }

    fn init_from_inner(x: T::Inner) -> (r: Self) {
        Equatable(T::init_from_inner(x))
    }

    fn inner(&self) -> (r: &T::Inner) {
        self.0.inner()
    }
}

impl<T: Controlled> Controlled for Equatable<T> {
    fn risky_unwrap(self) -> (r: T::Inner) {
        self.0.risky_unwrap()
    }
}

impl<T: ControlledPrivate> Equatable<T> {
    /// Wrap a raw value so that it can be compared in constant time.
    pub fn new(x: T::Inner) -> (r: Self)
        ensures
            r.raw() == x,
    {
        Equatable(T::init_from_inner(x))
    }
}

impl<T: ControlledPrivate> Equatable<T> where T::Inner: ConstantTimeEq {
    /// Compare the raw value with that of any other controlled wrapper
    /// over the same raw type, in constant time. The result depends only
    /// on the two raw values, never on the adapter layers around them.
    pub fn constant_time_eq<O: ControlledPrivate<Inner = T::Inner>>(&self, other: &O) -> (r: bool)
        ensures
            r == self.raw().eq_spec(&other.raw()),
    {
        self.inner().constant_time_eq(other.inner())
    }
}

/// An `Equatable` wipes by wiping what it wraps.
impl<T: crate::Wipe> crate::Wipe for Equatable<T> {
    closed spec fn wiped(&self) -> bool {
        self.0.wiped()
    }

    fn wipe(&mut self) {
        self.0.wipe();
    }
}

/// An `Equatable` over a zeroable wrapper starts out wiped.
impl<T: crate::Zeroed> crate::Zeroed for Equatable<T> {
    fn zeroed() -> (r: Self) {
        Equatable(T::zeroed())
    }
}

/// The value that wrapping `t` in `Equatable` yields, as a spec-level
/// constructor.
pub closed spec fn spec_equatable<T>(t: T) -> Equatable<T> {
    Equatable(t)
}

/// The spec-level `Equatable` constructor keeps the raw value of what it
/// wraps.
pub proof fn lemma_spec_equatable_raw<T: ControlledPrivate>(t: T)
    ensures
        spec_equatable(t).raw() == t.raw(),
{
}

/// Any controlled value converts into an `Equatable` over itself.
impl<T: ControlledPrivate> From<T> for Equatable<T> {
    fn from(x: T) -> (r: Self) {
        Equatable(x)
    }
}

impl<T: ControlledPrivate> vstd::std_specs::convert::FromSpecImpl<T> for Equatable<T> {
    open spec fn obeys_from_spec() -> bool {
        true
    }

    open spec fn from_spec(v: T) -> Self {
        spec_equatable(v)
    }
}

/// A raw value converts straight into an `Equatable` base wrapper.
impl<T> From<T> for Equatable<crate::Protected<T>> {
    fn from(x: T) -> (r: Self) {
        Equatable(crate::Protected(x))
    }
}

impl<T> vstd::std_specs::convert::FromSpecImpl<T> for Equatable<crate::Protected<T>> {
    open spec fn obeys_from_spec() -> bool {
        true
    }

    open spec fn from_spec(v: T) -> Self {
        spec_equatable(crate::spec_wrap(v))
    }
}

/// Constant-time equality is reflexive: every wrapped value compares
/// equal to itself, whatever adapters surround it.
pub proof fn lemma_constant_time_eq_reflexive<T: ControlledPrivate>(x: &T) where
    T::Inner: ConstantTimeEq,

    ensures
        x.raw().eq_spec(&x.raw()),
{
    x.raw().eq_spec_reflexive();
}

/// Constant-time equality is symmetric: two wrapped values compare the
/// same whichever stands on the left.
pub proof fn lemma_constant_time_eq_symmetric<A, B>(a: &A, b: &B) where
    A: ControlledPrivate,
    B: ControlledPrivate<Inner = A::Inner>,
    A::Inner: ConstantTimeEq,

    ensures
        a.raw().eq_spec(&b.raw()) == b.raw().eq_spec(&a.raw()),
{
    a.raw().eq_spec_symmetric(&b.raw());
}

/// Adapter order is irrelevant to equality: wrappers holding the same raw
/// value compare equal, whatever capability adapters stand around each of
/// them and in whatever order they were stacked.
pub proof fn lemma_equality_ignores_nesting<A, B>(a: &A, b: &B) where
    A: ControlledPrivate,
    B: ControlledPrivate<Inner = A::Inner>,
    A::Inner: ConstantTimeEq,

    requires
        a.raw() == b.raw(),
    ensures
        a.raw().eq_spec(&b.raw()),
{
    a.raw().eq_spec_reflexive();
}

/// The equality operator on `Equatable` is the constant-time comparison of
/// the raw values, whatever adapters the other side carries.
impl<T, O> PartialEq<O> for Equatable<T> where
    T: ControlledPrivate,
    O: ControlledPrivate<Inner = T::Inner>,
    T::Inner: ConstantTimeEq,
 {
    fn eq(&self, other: &O) -> (r: bool) {
        self.inner().constant_time_eq(other.inner())
    }
}

impl<T, O> vstd::std_specs::cmp::PartialEqSpecImpl<O> for Equatable<T> where
    T: ControlledPrivate,
    O: ControlledPrivate<Inner = T::Inner>,
    T::Inner: ConstantTimeEq,
 {
    open spec fn obeys_eq_spec() -> bool {
        true
    }

    open spec fn eq_spec(&self, other: &O) -> bool {
        self.raw().eq_spec(&other.raw())
    }
}

} // verus!
