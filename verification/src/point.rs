//! Places in space.
use crate::matrix::grid_apply_point;
use crate::matrix::grid_product;
use crate::matrix::Matrix;
use crate::transform::four_by_four;
use crate::scalar::approx_eq;
use crate::scalar::lawful;
use crate::scalar::minus;
use crate::scalar::number;
use crate::scalar::over;
use crate::scalar::plus;
use crate::scalar::times;
use crate::scalar::Scalar;
use crate::vector::Vector;
use core::ops::Add;
use core::ops::Div;
use core::ops::Mul;
use core::ops::Sub;
use vstd::prelude::*;
use vstd::std_specs::ops::AddSpecImpl;
use vstd::std_specs::ops::DivSpecImpl;
use vstd::std_specs::ops::MulSpecImpl;
use vstd::std_specs::ops::SubSpecImpl;

verus! {

/// A place with three coordinates. In homogeneous coordinates its fourth
/// component is one, so translations move it.
#[derive(Clone, Copy, Debug)]
pub struct Point<T> {
    pub x: T,
    pub y: T,
    pub z: T,
}

impl<T: Scalar> Point<T> {
    pub fn new(x: T, y: T, z: T) -> (r: Self)
        ensures
            r == (Point { x, y, z }),
    {
        Point { x, y, z }
    }

    pub fn x(&self) -> (r: T)
        ensures
            r == self.x,
    {
        self.x
    }

    pub fn y(&self) -> (r: T)
        ensures
            r == self.y,
    {
        self.y
    }

    pub fn z(&self) -> (r: T)
        ensures
            r == self.z,
    {
        self.z
    }

    /// The homogeneous coordinate of a place: one.
    pub fn w(&self) -> (r: T)
        requires
            lawful::<T>(),
        ensures
            r == number::<T>(1),
    {
        number::<T>(1)
    }

    /// The origin.
    pub open spec fn spec_zero() -> Self {
        Point { x: number::<T>(0), y: number::<T>(0), z: number::<T>(0) }
    }

    /// The origin.
    #[verifier::when_used_as_spec(spec_zero)]
    pub fn zero() -> (r: Self)
        requires
            lawful::<T>(),
        ensures
            r == Self::spec_zero(),
    {
        Point { x: number::<T>(0), y: number::<T>(0), z: number::<T>(0) }
    }

    /// The place moved along `v`, each sum with the direction's component first.
    pub open spec fn moved(self, v: Vector<T>) -> Self {
        Point { x: plus(v.x, self.x), y: plus(v.y, self.y), z: plus(v.z, self.z) }
    }

    /// The place moved against `v`.
    pub open spec fn moved_back(self, v: Vector<T>) -> Self {
        Point { x: minus(self.x, v.x), y: minus(self.y, v.y), z: minus(self.z, v.z) }
    }

    /// The direction that leads from `from` to this place.
    pub open spec fn offset_from(self, from: Self) -> Vector<T> {
        Vector { x: minus(self.x, from.x), y: minus(self.y, from.y), z: minus(self.z, from.z) }
    }

    /// Coordinate by coordinate sum.
    pub open spec fn sum(self, rhs: Self) -> Self {
        Point { x: plus(self.x, rhs.x), y: plus(self.y, rhs.y), z: plus(self.z, rhs.z) }
    }

    /// Each coordinate multiplied by `k`.
    pub open spec fn scaled(self, k: T) -> Self {
        Point { x: times(self.x, k), y: times(self.y, k), z: times(self.z, k) }
    }

    /// Each coordinate multiplied by the reciprocal of `k`.
    pub open spec fn shrunk(self, k: T) -> Self {
        self.scaled(over(number::<T>(1), k))
    }

    /// The product of the last `k` of the matrices, the last one leftmost,
    /// starting from the identity.
    pub open spec fn combined(transformations: Seq<Matrix<T>>, k: int) -> Seq<Seq<T>>
        decreases k,
    {
        if k <= 0 {
            Matrix::<T>::identity_grid()
        } else {
            grid_product(
                Self::combined(transformations, k - 1),
                transformations[transformations.len() - k]@,
                4,
            )
        }
    }

    /// The place after the transformations have been applied in the order
    /// they are listed: one matrix is made of them, the last one leftmost,
    /// and applied to the place.
    pub fn transform(&self, transformations: &[Matrix<T>]) -> (r: Self)
        requires
            lawful::<T>(),
            forall|i: int|
                0 <= i < transformations@.len() ==> four_by_four((#[trigger] transformations@[i])@),
        ensures
            r == grid_apply_point(
                Self::combined(transformations@, transformations@.len() as int),
                *self,
            ),
    {
        let count = transformations.len();
        let mut all = Matrix::identity_matrix();
        let mut k: usize = 0;
        while k < count
            invariant
                lawful::<T>(),
                count == transformations@.len(),
                forall|i: int|
                    0 <= i < transformations@.len() ==> four_by_four(
                        (#[trigger] transformations@[i])@,
                    ),
                k <= count,
                all@ == Self::combined(transformations@, k as int),
                four_by_four(all@),
            decreases count - k,
        {
            let next = &transformations[count - 1 - k];
            assert(four_by_four(next@));
            all = all.product(next);
            k += 1;
        }
        all.apply_point(*self)
    }

    /// All three coordinates agree within the tolerance.
    pub open spec fn spec_equals(self, other: Self) -> bool {
        approx_eq(self.x, other.x) && approx_eq(self.y, other.y) && approx_eq(self.z, other.z)
    }

    /// Whether the two places agree within the tolerance, coordinate by coordinate.
    #[verifier::when_used_as_spec(spec_equals)]
    pub fn equals(self, other: Self) -> (r: bool)
        requires
            lawful::<T>(),
        ensures
            r == self.spec_equals(other),
    {
        approx_eq(self.x, other.x) && approx_eq(self.y, other.y) && approx_eq(self.z, other.z)
    }
}

impl<T: Scalar> AddSpecImpl<Vector<T>> for Point<T> {
    open spec fn obeys_add_spec() -> bool {
        true
    }

    open spec fn add_req(self, rhs: Vector<T>) -> bool {
        lawful::<T>()
    }

    open spec fn add_spec(self, rhs: Vector<T>) -> Point<T> {
        self.moved(rhs)
    }
}

impl<T: Scalar> Add<Vector<T>> for Point<T> {
    type Output = Point<T>;

    fn add(self, rhs: Vector<T>) -> (r: Point<T>) {
        Point { x: plus(rhs.x, self.x), y: plus(rhs.y, self.y), z: plus(rhs.z, self.z) }
    }
}

impl<T: Scalar> AddSpecImpl<Point<T>> for Vector<T> {
    open spec fn obeys_add_spec() -> bool {
        true
    }

    open spec fn add_req(self, rhs: Point<T>) -> bool {
        lawful::<T>()
    }

    open spec fn add_spec(self, rhs: Point<T>) -> Point<T> {
        rhs.moved(self)
    }
}

impl<T: Scalar> Add<Point<T>> for Vector<T> {
    type Output = Point<T>;

    fn add(self, rhs: Point<T>) -> (r: Point<T>) {
        Point { x: plus(self.x, rhs.x), y: plus(self.y, rhs.y), z: plus(self.z, rhs.z) }
    }
}

impl<T: Scalar> AddSpecImpl for Point<T> {
    open spec fn obeys_add_spec() -> bool {
        true
    }

    open spec fn add_req(self, rhs: Point<T>) -> bool {
        lawful::<T>()
    }

    open spec fn add_spec(self, rhs: Point<T>) -> Point<T> {
        self.sum(rhs)
    }
}

impl<T: Scalar> Add for Point<T> {
    type Output = Point<T>;

    fn add(self, rhs: Point<T>) -> (r: Point<T>) {
        Point { x: plus(self.x, rhs.x), y: plus(self.y, rhs.y), z: plus(self.z, rhs.z) }
    }
}

impl<T: Scalar> SubSpecImpl for Point<T> {
    open spec fn obeys_sub_spec() -> bool {
        true
    }

    open spec fn sub_req(self, rhs: Point<T>) -> bool {
        lawful::<T>()
    }

    open spec fn sub_spec(self, rhs: Point<T>) -> Vector<T> {
        self.offset_from(rhs)
    }
}

impl<T: Scalar> Sub for Point<T> {
    type Output = Vector<T>;

    fn sub(self, rhs: Point<T>) -> (r: Vector<T>) {
        Vector { x: minus(self.x, rhs.x), y: minus(self.y, rhs.y), z: minus(self.z, rhs.z) }
    }
}

impl<T: Scalar> SubSpecImpl<Vector<T>> for Point<T> {
    open spec fn obeys_sub_spec() -> bool {
        true
    }

    open spec fn sub_req(self, rhs: Vector<T>) -> bool {
        lawful::<T>()
    }

    open spec fn sub_spec(self, rhs: Vector<T>) -> Point<T> {
        self.moved_back(rhs)
    }
}

impl<T: Scalar> Sub<Vector<T>> for Point<T> {
    type Output = Point<T>;

    fn sub(self, rhs: Vector<T>) -> (r: Point<T>) {
        Point { x: minus(self.x, rhs.x), y: minus(self.y, rhs.y), z: minus(self.z, rhs.z) }
    }
}

impl<T: Scalar> MulSpecImpl<T> for Point<T> {
    open spec fn obeys_mul_spec() -> bool {
        true
    }

    open spec fn mul_req(self, rhs: T) -> bool {
        lawful::<T>()
    }

    open spec fn mul_spec(self, rhs: T) -> Point<T> {
        self.scaled(rhs)
    }
}

impl<T: Scalar> Mul<T> for Point<T> {
    type Output = Point<T>;

    fn mul(self, rhs: T) -> (r: Point<T>) {
        Point { x: times(self.x, rhs), y: times(self.y, rhs), z: times(self.z, rhs) }
    }
}

impl<T: Scalar> DivSpecImpl<T> for Point<T> {
    open spec fn obeys_div_spec() -> bool {
        true
    }

    open spec fn div_req(self, rhs: T) -> bool {
        lawful::<T>()
    }

    open spec fn div_spec(self, rhs: T) -> Point<T> {
        self.shrunk(rhs)
    }
}

impl<T: Scalar> Div<T> for Point<T> {
    type Output = Point<T>;

    fn div(self, rhs: T) -> (r: Point<T>) {
        let k = over(number::<T>(1), rhs);
        Point { x: times(self.x, k), y: times(self.y, k), z: times(self.z, k) }
    }
}

} // verus!
