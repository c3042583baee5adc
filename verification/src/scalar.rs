//! The number type that the renderer computes with.
//!
//! Every geometric and shading routine is generic over a scalar `T` whose
//! arithmetic comes from the standard operator traits. Contracts are stated
//! over the specification functions that those traits carry, so a result is
//! pinned down to the exact sequence of operations that produced it.
use core::cmp::Ordering;
use core::ops::Add;
use core::ops::Div;
use core::ops::Mul;
use core::ops::Neg;
use core::ops::Rem;
use core::ops::Sub;
use vstd::prelude::*;
use vstd::std_specs::cmp::PartialEqSpec;
use vstd::std_specs::cmp::PartialOrdSpec;
use vstd::std_specs::convert::FromSpec;
use vstd::std_specs::ops::AddSpec;
use vstd::std_specs::ops::DivSpec;
use vstd::std_specs::ops::MulSpec;
use vstd::std_specs::ops::NegSpec;
use vstd::std_specs::ops::RemSpec;
use vstd::std_specs::ops::SubSpec;

verus! {

/// Everything a number type must offer to serve as the scalar of the renderer.
pub trait Scalar: Copy + Add<Output = Self> + Sub<Output = Self> + Mul<Output = Self> + Div<
    Output = Self,
> + Rem<Output = Self> + Neg<Output = Self> + PartialOrd + From<i32> {

}

impl<T> Scalar for T where
    T: Copy + Add<Output = T> + Sub<Output = T> + Mul<Output = T> + Div<Output = T> + Rem<
        Output = T,
    > + Neg<Output = T> + PartialOrd + From<i32>,
 {

}

/// `<` and `<=` on the scalar return what its comparison specifies.
pub open spec fn compares<T: Scalar>() -> bool {
    T::obeys_partial_cmp_spec()
}

/// A whole number converts to the scalar that its specification names.
pub open spec fn converts<T: Scalar>() -> bool {
    <T as FromSpec<i32>>::obeys_from_spec()
}

/// The scalar's operators are total and each returns what its specification
/// function says.
pub open spec fn lawful<T: Scalar>() -> bool {
    &&& T::obeys_add_spec()
    &&& T::obeys_sub_spec()
    &&& T::obeys_mul_spec()
    &&& T::obeys_div_spec()
    &&& T::obeys_rem_spec()
    &&& T::obeys_neg_spec()
    &&& T::obeys_eq_spec()
    &&& compares::<T>()
    &&& converts::<T>()
    &&& forall|a: T, b: T| #[trigger] a.add_req(b)
    &&& forall|a: T, b: T| #[trigger] a.sub_req(b)
    &&& forall|a: T, b: T| #[trigger] a.mul_req(b)
    &&& forall|a: T, b: T| #[trigger] a.div_req(b)
    &&& forall|a: T, b: T| #[trigger] a.rem_req(b)
    &&& forall|a: T| #[trigger] a.neg_req()
}

/// `a + b` as the scalar defines it.
pub open spec fn spec_plus<T: Scalar>(a: T, b: T) -> T {
    a.add_spec(b)
}

/// `a - b` as the scalar defines it.
pub open spec fn spec_minus<T: Scalar>(a: T, b: T) -> T {
    a.sub_spec(b)
}

/// `a * b` as the scalar defines it.
pub open spec fn spec_times<T: Scalar>(a: T, b: T) -> T {
    a.mul_spec(b)
}

/// `a / b` as the scalar defines it.
pub open spec fn spec_over<T: Scalar>(a: T, b: T) -> T {
    a.div_spec(b)
}

/// `a % b` as the scalar defines it.
pub open spec fn spec_remainder<T: Scalar>(a: T, b: T) -> T {
    a.rem_spec(b)
}

/// `-a` as the scalar defines it.
pub open spec fn spec_negate<T: Scalar>(a: T) -> T {
    a.neg_spec()
}

/// The scalar that the whole number `k` converts to.
pub open spec fn spec_number<T: Scalar>(k: i32) -> T {
    T::from_spec(k)
}

/// The scalar `k / d`.
pub open spec fn spec_ratio<T: Scalar>(k: i32, d: i32) -> T {
    spec_over(spec_number::<T>(k), spec_number::<T>(d))
}

/// `a == b` as the scalar defines it.
pub open spec fn spec_same<T: Scalar>(a: T, b: T) -> bool {
    a.eq_spec(&b)
}

/// `a < b`: the comparison of the scalar puts `a` below `b`.
pub open spec fn spec_less<T: Scalar>(a: T, b: T) -> bool {
    a.partial_cmp_spec(&b) == Some(Ordering::Less)
}

/// `a <= b`: the comparison of the scalar puts `a` below `b` or level with it.
pub open spec fn spec_at_most<T: Scalar>(a: T, b: T) -> bool {
    a.partial_cmp_spec(&b) matches Some(Ordering::Less | Ordering::Equal)
}

/// `a + b`
#[verifier::when_used_as_spec(spec_plus)]
pub fn plus<T: Scalar>(a: T, b: T) -> (r: T)
    requires
        lawful::<T>(),
    ensures
        r == spec_plus(a, b),
{
    a.add(b)
}

/// `a - b`
#[verifier::when_used_as_spec(spec_minus)]
pub fn minus<T: Scalar>(a: T, b: T) -> (r: T)
    requires
        lawful::<T>(),
    ensures
        r == spec_minus(a, b),
{
    a.sub(b)
}

/// `a * b`
#[verifier::when_used_as_spec(spec_times)]
pub fn times<T: Scalar>(a: T, b: T) -> (r: T)
    requires
        lawful::<T>(),
    ensures
        r == spec_times(a, b),
{
    a.mul(b)
}

/// `a / b`
#[verifier::when_used_as_spec(spec_over)]
pub fn over<T: Scalar>(a: T, b: T) -> (r: T)
    requires
        lawful::<T>(),
    ensures
        r == spec_over(a, b),
{
    a.div(b)
}

/// `a % b`
#[verifier::when_used_as_spec(spec_remainder)]
pub fn remainder<T: Scalar>(a: T, b: T) -> (r: T)
    requires
        lawful::<T>(),
    ensures
        r == spec_remainder(a, b),
{
    a.rem(b)
}

/// `-a`
#[verifier::when_used_as_spec(spec_negate)]
pub fn negate<T: Scalar>(a: T) -> (r: T)
    requires
        lawful::<T>(),
    ensures
        r == spec_negate(a),
{
    a.neg()
}

/// The scalar that stands for the whole number `k`.
#[verifier::when_used_as_spec(spec_number)]
pub fn number<T: Scalar>(k: i32) -> (r: T)
    requires
        lawful::<T>(),
    ensures
        r == spec_number::<T>(k),
{
    T::from(k)
}

/// The scalar `k / d`, the way a decimal constant is written down.
#[verifier::when_used_as_spec(spec_ratio)]
pub fn ratio<T: Scalar>(k: i32, d: i32) -> (r: T)
    requires
        lawful::<T>(),
    ensures
        r == spec_ratio::<T>(k, d),
{
    over(number::<T>(k), number::<T>(d))
}

/// `a == b`
#[verifier::when_used_as_spec(spec_same)]
pub fn same<T: Scalar>(a: T, b: T) -> (r: bool)
    requires
        lawful::<T>(),
    ensures
        r == spec_same(a, b),
{
    a.eq(&b)
}

/// `a < b`
#[verifier::when_used_as_spec(spec_less)]
pub fn less<T: Scalar>(a: T, b: T) -> (r: bool)
    requires
        lawful::<T>(),
    ensures
        r == spec_less(a, b),
{
    a.lt(&b)
}

/// `a <= b`
#[verifier::when_used_as_spec(spec_at_most)]
pub fn at_most<T: Scalar>(a: T, b: T) -> (r: bool)
    requires
        lawful::<T>(),
    ensures
        r == spec_at_most(a, b),
{
    a.le(&b)
}

/// `|a| < bound`, written without an absolute value: `a` lies strictly
/// between `-bound` and `bound`.
pub open spec fn spec_within<T: Scalar>(a: T, bound: T) -> bool {
    spec_less(a, bound) && spec_less(spec_negate(a), bound)
}

/// Whether the size of `a` is below `bound`.
#[verifier::when_used_as_spec(spec_within)]
pub fn within<T: Scalar>(a: T, bound: T) -> (r: bool)
    requires
        lawful::<T>(),
    ensures
        r == spec_within(a, bound),
{
    less(a, bound) && less(negate(a), bound)
}

/// The tolerance within which two scalars count as equal: one hundred-thousandth.
pub open spec fn spec_epsilon<T: Scalar>() -> T {
    spec_ratio::<T>(1, 100000)
}

/// The tolerance within which two scalars count as equal: one hundred-thousandth.
#[verifier::when_used_as_spec(spec_epsilon)]
pub fn epsilon<T: Scalar>() -> (r: T)
    requires
        lawful::<T>(),
    ensures
        r == spec_epsilon::<T>(),
{
    ratio::<T>(1, 100000)
}

/// `|a - b| < epsilon`
pub open spec fn spec_approx_eq<T: Scalar>(a: T, b: T) -> bool {
    spec_within(spec_minus(a, b), spec_epsilon::<T>())
}

/// Whether `a` and `b` differ by less than the tolerance.
#[verifier::when_used_as_spec(spec_approx_eq)]
pub fn approx_eq<T: Scalar>(a: T, b: T) -> (r: bool)
    requires
        lawful::<T>(),
    ensures
        r == spec_approx_eq(a, b),
{
    within(minus(a, b), epsilon::<T>())
}

/// `a` has a place in the order: it compares as equal to itself. Of the
/// usual number types only a value that is not a number fails this.
pub open spec fn ranked<T: Scalar>(a: T) -> bool {
    a.partial_cmp_spec(&a) == Some(Ordering::Equal)
}

/// The comparison of the scalar orders the ranked values in a line: of two
/// ranked values one is below the other or they are level, `<` is `<=`
/// without the converse, `<=` carries over from one pair to the next, and
/// a value that is at least some other equals itself.
pub open spec fn ordered<T: Scalar>() -> bool {
    &&& forall|a: T, b: T| #[trigger] spec_at_most(a, b) ==> spec_same(b, b)
    &&& forall|a: T, b: T|
        ranked(a) && ranked(b) ==> #[trigger] spec_less(a, b) || spec_at_most(b, a)
    &&& forall|a: T, b: T| #[trigger]
        spec_less(a, b) ==> spec_at_most(a, b) && !spec_at_most(b, a)
    &&& forall|a: T, b: T, c: T| #[trigger]
        spec_at_most(a, b) && #[trigger] spec_at_most(b, c) ==> spec_at_most(a, c)
}

/// Zero and one are neutral in the scalar: adding zero and multiplying by
/// one change nothing, and multiplying by zero gives zero.
pub open spec fn neutral<T: Scalar>() -> bool {
    &&& forall|x: T| #[trigger] spec_plus(spec_number::<T>(0), x) == x
    &&& forall|x: T| #[trigger] spec_plus(x, spec_number::<T>(0)) == x
    &&& forall|x: T| #[trigger] spec_times(spec_number::<T>(1), x) == x
    &&& forall|x: T| #[trigger] spec_times(x, spec_number::<T>(1)) == x
    &&& forall|x: T| #[trigger] spec_times(spec_number::<T>(0), x) == spec_number::<T>(0)
    &&& forall|x: T| #[trigger] spec_times(x, spec_number::<T>(0)) == spec_number::<T>(0)
}

} // verus!
