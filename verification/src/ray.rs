//! Rays: a starting place and a direction of travel.
use crate::matrix::grid_apply_point;
use crate::matrix::grid_apply_vector;
use crate::matrix::Matrix;
use crate::point::Point;
use crate::scalar::lawful;
use crate::scalar::plus;
use crate::scalar::Scalar;
use crate::vector::Vector;
use vstd::prelude::*;

verus! {

/// A ray that leaves `origin` along `direction`.
#[derive(Clone, Copy, Debug)]
pub struct Ray<T> {
    pub origin: Point<T>,
    pub direction: Vector<T>,
}

impl<T: Scalar> Ray<T> {
    pub fn new(origin: Point<T>, direction: Vector<T>) -> (r: Self)
        ensures
            r == (Ray { origin, direction }),
    {
        Ray { origin, direction }
    }

    pub fn origin(&self) -> (r: Point<T>)
        ensures
            r == self.origin,
    {
        self.origin
    }

    pub fn direction(&self) -> (r: Vector<T>)
        ensures
            r == self.direction,
    {
        self.direction
    }

    /// `origin + direction * t`
    pub open spec fn spec_at(self, t: T) -> Point<T> {
        self.origin.moved(self.direction.scaled(t))
    }

    /// The place the ray has reached at parameter `t`.
    pub fn at(&self, t: T) -> (r: Point<T>)
        requires
            lawful::<T>(),
        ensures
            r == self.spec_at(t),
    {
        let along = Vector::scale(t, self.direction);
        Point {
            x: plus(along.x, self.origin.x),
            y: plus(along.y, self.origin.y),
            z: plus(along.z, self.origin.z),
        }
    }

    /// Origin and direction both under the grid.
    pub open spec fn moved_by(self, grid: Seq<Seq<T>>) -> Self {
        Ray {
            origin: grid_apply_point(grid, self.origin),
            direction: grid_apply_vector(grid, self.direction),
        }
    }

    /// The ray as seen after the transformation `m`.
    pub fn transform(&self, m: &Matrix<T>) -> (r: Self)
        requires
            lawful::<T>(),
            m.acts_on_space(),
        ensures
            r == self.moved_by(m@),
    {
        Ray { origin: m.apply_point(self.origin), direction: m.apply_vector(self.direction) }
    }
}

} // verus!
