//! Directions in space.
use crate::numeric::exact;
use crate::numeric::sqrt_of;
use crate::numeric::Elementary;
use crate::scalar::approx_eq;
use crate::scalar::lawful;
use crate::scalar::minus;
use crate::scalar::negate;
use crate::scalar::number;
use crate::scalar::over;
use crate::scalar::plus;
use crate::scalar::times;
use crate::scalar::Scalar;
use core::ops::Add;
use core::ops::Div;
use core::ops::Mul;
use core::ops::Neg;
use core::ops::Sub;
use vstd::prelude::*;
use vstd::std_specs::ops::AddSpecImpl;
use vstd::std_specs::ops::DivSpecImpl;
use vstd::std_specs::ops::MulSpecImpl;
use vstd::std_specs::ops::NegSpecImpl;
use vstd::std_specs::ops::SubSpecImpl;

verus! {

/// A direction with three components. In homogeneous coordinates its fourth
/// component is zero, so translations leave it alone.
#[derive(Clone, Copy, Debug)]
pub struct Vector<T> {
    pub x: T,
    pub y: T,
    pub z: T,
}

impl<T: Scalar> Vector<T> {
    pub fn new(x: T, y: T, z: T) -> (r: Self)
        ensures
            r == (Vector { x, y, z }),
    {
        Vector { x, y, z }
    }

    pub fn x(&self) -> (r: T)
        ensures
            r == self.x,
    {
        self.x
    }

    pub fn y(&self) -> (r: T)
        ensures
            r == self.y,
    {
        self.y
    }

    pub fn z(&self) -> (r: T)
        ensures
            r == self.z,
    {
        self.z
    }

    /// The homogeneous coordinate of a direction: zero.
    pub fn w(&self) -> (r: T)
        requires
            lawful::<T>(),
        ensures
            r == number::<T>(0),
    {
        number::<T>(0)
    }

    /// The direction with all components zero.
    pub open spec fn spec_zero() -> Self {
        Vector { x: number::<T>(0), y: number::<T>(0), z: number::<T>(0) }
    }

    /// The direction with all components zero.
    #[verifier::when_used_as_spec(spec_zero)]
    pub fn zero() -> (r: Self)
        requires
            lawful::<T>(),
        ensures
            r == Self::spec_zero(),
    {
        Vector { x: number::<T>(0), y: number::<T>(0), z: number::<T>(0) }
    }

    /// Each component multiplied by `k`.
    pub open spec fn scaled(self, k: T) -> Self {
        Vector { x: times(self.x, k), y: times(self.y, k), z: times(self.z, k) }
    }

    /// Each component multiplied by the reciprocal of `k`.
    pub open spec fn shrunk(self, k: T) -> Self {
        self.scaled(over(number::<T>(1), k))
    }

    /// Each component negated.
    pub open spec fn negated(self) -> Self {
        Vector { x: negate(self.x), y: negate(self.y), z: negate(self.z) }
    }

    /// Component by component sum.
    pub open spec fn sum(self, rhs: Self) -> Self {
        Vector { x: plus(self.x, rhs.x), y: plus(self.y, rhs.y), z: plus(self.z, rhs.z) }
    }

    /// Component by component difference.
    pub open spec fn difference(self, rhs: Self) -> Self {
        Vector { x: minus(self.x, rhs.x), y: minus(self.y, rhs.y), z: minus(self.z, rhs.z) }
    }

    /// The sum of the squared components.
    pub open spec fn norm_squared(self) -> T {
        plus(plus(times(self.x, self.x), times(self.y, self.y)), times(self.z, self.z))
    }

    /// The square root of the sum of the squared components.
    pub open spec fn spec_magnitude<N: Elementary<T>>(self, n: &N) -> T {
        sqrt_of(n, self.norm_squared())
    }

    /// The length of the direction.
    pub fn magnitude<N: Elementary<T>>(&self, n: &N) -> (r: T)
        requires
            lawful::<T>(),
            exact(n),
        ensures
            r == self.spec_magnitude(n),
    {
        let squared = plus(plus(times(self.x, self.x), times(self.y, self.y)), times(self.z, self.z));
        n.sqrt(squared)
    }

    /// Each component divided by the length.
    pub open spec fn spec_norm<N: Elementary<T>>(self, n: &N) -> Self {
        let length = self.spec_magnitude(n);
        Vector { x: over(self.x, length), y: over(self.y, length), z: over(self.z, length) }
    }

    /// The direction scaled to length one.
    pub fn norm<N: Elementary<T>>(&self, n: &N) -> (r: Self)
        requires
            lawful::<T>(),
            exact(n),
        ensures
            r == self.spec_norm(n),
    {
        let length = self.magnitude(n);
        Vector { x: over(self.x, length), y: over(self.y, length), z: over(self.z, length) }
    }

    /// `self - normal * 2 * dot(self, normal)`
    pub open spec fn spec_reflect(self, normal: Self) -> Self {
        self.difference(normal.scaled(number::<T>(2)).scaled(spec_dot(self, normal)))
    }

    /// The direction bounced off a surface with the given normal.
    pub fn reflect(&self, normal: Self) -> (r: Self)
        requires
            lawful::<T>(),
        ensures
            r == self.spec_reflect(normal),
    {
        let doubled = normal.mul(number::<T>(2));
        let along = doubled.mul(dot(*self, normal));
        (*self).sub(along)
    }

    /// All three components agree within the tolerance.
    pub open spec fn spec_equals(self, other: Self) -> bool {
        approx_eq(self.x, other.x) && approx_eq(self.y, other.y) && approx_eq(self.z, other.z)
    }

    /// Whether the two directions agree within the tolerance, component by component.
    #[verifier::when_used_as_spec(spec_equals)]
    pub fn equals(self, other: Self) -> (r: bool)
        requires
            lawful::<T>(),
        ensures
            r == self.spec_equals(other),
    {
        approx_eq(self.x, other.x) && approx_eq(self.y, other.y) && approx_eq(self.z, other.z)
    }

    /// `k * v` with the scalar written first.
    pub fn scale(k: T, v: Self) -> (r: Self)
        requires
            lawful::<T>(),
        ensures
            r == v.scaled(k),
    {
        Vector { x: times(v.x, k), y: times(v.y, k), z: times(v.z, k) }
    }
}

impl<T: Scalar> NegSpecImpl for Vector<T> {
    open spec fn obeys_neg_spec() -> bool {
        true
    }

    open spec fn neg_req(self) -> bool {
        lawful::<T>()
    }

    open spec fn neg_spec(self) -> Self {
        self.negated()
    }
}

impl<T: Scalar> Neg for Vector<T> {
    type Output = Vector<T>;

    fn neg(self) -> (r: Vector<T>) {
        Vector { x: negate(self.x), y: negate(self.y), z: negate(self.z) }
    }
}

impl<T: Scalar> MulSpecImpl<T> for Vector<T> {
    open spec fn obeys_mul_spec() -> bool {
        true
    }

    open spec fn mul_req(self, rhs: T) -> bool {
        lawful::<T>()
    }

    open spec fn mul_spec(self, rhs: T) -> Self {
        self.scaled(rhs)
    }
}

impl<T: Scalar> Mul<T> for Vector<T> {
    type Output = Vector<T>;

    fn mul(self, rhs: T) -> (r: Vector<T>) {
        Vector { x: times(self.x, rhs), y: times(self.y, rhs), z: times(self.z, rhs) }
    }
}

impl<T: Scalar> DivSpecImpl<T> for Vector<T> {
    open spec fn obeys_div_spec() -> bool {
        true
    }

    open spec fn div_req(self, rhs: T) -> bool {
        lawful::<T>()
    }

    open spec fn div_spec(self, rhs: T) -> Self {
        self.shrunk(rhs)
    }
}

impl<T: Scalar> Div<T> for Vector<T> {
    type Output = Vector<T>;

    fn div(self, rhs: T) -> (r: Vector<T>) {
        let k = over(number::<T>(1), rhs);
        Vector { x: times(self.x, k), y: times(self.y, k), z: times(self.z, k) }
    }
}

impl<T: Scalar> AddSpecImpl for Vector<T> {
    open spec fn obeys_add_spec() -> bool {
        true
    }

    open spec fn add_req(self, rhs: Self) -> bool {
        lawful::<T>()
    }

    open spec fn add_spec(self, rhs: Self) -> Self {
        self.sum(rhs)
    }
}

impl<T: Scalar> Add for Vector<T> {
    type Output = Vector<T>;

    fn add(self, rhs: Self) -> (r: Vector<T>) {
        Vector { x: plus(self.x, rhs.x), y: plus(self.y, rhs.y), z: plus(self.z, rhs.z) }
    }
}

impl<T: Scalar> SubSpecImpl for Vector<T> {
    open spec fn obeys_sub_spec() -> bool {
        true
    }

    open spec fn sub_req(self, rhs: Self) -> bool {
        lawful::<T>()
    }

    open spec fn sub_spec(self, rhs: Self) -> Self {
        self.difference(rhs)
    }
}

impl<T: Scalar> Sub for Vector<T> {
    type Output = Vector<T>;

    fn sub(self, rhs: Self) -> (r: Vector<T>) {
        Vector { x: minus(self.x, rhs.x), y: minus(self.y, rhs.y), z: minus(self.z, rhs.z) }
    }
}

/// `a.x * b.x + a.y * b.y + a.z * b.z`, summed from the left.
pub open spec fn spec_dot<T: Scalar>(a: Vector<T>, b: Vector<T>) -> T {
    plus(plus(times(a.x, b.x), times(a.y, b.y)), times(a.z, b.z))
}

/// The dot product, summed from the first component to the last.
#[verifier::when_used_as_spec(spec_dot)]
pub fn dot<T: Scalar>(a: Vector<T>, b: Vector<T>) -> (r: T)
    requires
        lawful::<T>(),
    ensures
        r == spec_dot(a, b),
{
    plus(plus(times(a.x, b.x), times(a.y, b.y)), times(a.z, b.z))
}

/// The cross product `a × b`, component by component.
pub open spec fn spec_cross<T: Scalar>(a: Vector<T>, b: Vector<T>) -> Vector<T> {
    Vector {
        x: minus(times(a.y, b.z), times(a.z, b.y)),
        y: minus(times(a.z, b.x), times(a.x, b.z)),
        z: minus(times(a.x, b.y), times(a.y, b.x)),
    }
}

/// The cross product `a × b`.
#[verifier::when_used_as_spec(spec_cross)]
pub fn cross<T: Scalar>(a: Vector<T>, b: Vector<T>) -> (r: Vector<T>)
    requires
        lawful::<T>(),
    ensures
        r == spec_cross(a, b),
{
    Vector {
        x: minus(times(a.y, b.z), times(a.z, b.y)),
        y: minus(times(a.z, b.x), times(a.x, b.z)),
        z: minus(times(a.x, b.y), times(a.y, b.x)),
    }
}

} // verus!
