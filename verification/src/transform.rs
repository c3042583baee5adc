//! A transformation together with its inverse.
//!
//! Shapes, patterns and the camera all map between two coordinate frames.
//! They hold the matrix and its inverse as one value, so the two can never
//! be out of step.
use crate::matrix::grid_determinant;
use crate::matrix::grid_inverse;
use crate::matrix::InversionError;
use crate::matrix::Matrix;
use crate::scalar::lawful;
use crate::scalar::number;
use crate::scalar::same;
use crate::scalar::Scalar;
use vstd::prelude::*;

verus! {

/// A four-by-four grid.
pub open spec fn four_by_four<T>(grid: Seq<Seq<T>>) -> bool {
    &&& grid.len() == 4
    &&& forall|i: int| 0 <= i < 4 ==> (#[trigger] grid[i]).len() == 4
}

/// A four-by-four grid whose determinant differs from zero.
pub open spec fn invertible<T: Scalar>(grid: Seq<Seq<T>>) -> bool {
    four_by_four(grid) && !same(grid_determinant(grid), number::<T>(0))
}

/// A four-by-four matrix and its inverse.
#[derive(Debug)]
pub struct Transform<T: Scalar> {
    forward: Matrix<T>,
    inverse: Matrix<T>,
}

impl<T: Scalar> Transform<T> {
    /// The grid of the transformation itself.
    pub closed spec fn forward_grid(&self) -> Seq<Seq<T>> {
        self.forward@
    }

    /// The grid of the inverse.
    pub closed spec fn inverse_grid(&self) -> Seq<Seq<T>> {
        self.inverse@
    }

    #[verifier::type_invariant]
    spec fn paired(&self) -> bool {
        self.wf()
    }

    /// Both grids are four by four, and the second is the inverse of the
    /// first: by cofactors, or both are the identity.
    pub open spec fn wf(&self) -> bool {
        &&& four_by_four(self.forward_grid())
        &&& four_by_four(self.inverse_grid())
        &&& (self.inverse_grid() == grid_inverse(self.forward_grid()) || (self.forward_grid()
            == Matrix::<T>::identity_grid() && self.inverse_grid()
            == Matrix::<T>::identity_grid()))
    }

    /// The identity, which is its own inverse.
    pub fn identity() -> (r: Self)
        requires
            lawful::<T>(),
        ensures
            r.wf(),
            r.forward_grid() == Matrix::<T>::identity_grid(),
            r.inverse_grid() == Matrix::<T>::identity_grid(),
    {
        Transform { forward: Matrix::identity_matrix(), inverse: Matrix::identity_matrix() }
    }

    /// The transformation `forward` with its inverse, or the failure where
    /// the determinant is zero.
    pub fn new(forward: Matrix<T>) -> (r: Result<Self, InversionError>)
        requires
            lawful::<T>(),
            four_by_four(forward@),
        ensures
            r is Ok <==> invertible(forward@),
            r is Ok ==> r->Ok_0.wf() && r->Ok_0.forward_grid() == forward@
                && r->Ok_0.inverse_grid() == grid_inverse(forward@),
    {
        match forward.inverse() {
            Ok(inverse) => {
                assert(four_by_four(grid_inverse(forward@)));
                Ok(Transform { forward, inverse })
            },
            Err(e) => Err(e),
        }
    }

    /// The transformation for an optional matrix: the identity where none is given.
    pub fn from_option(forward: Option<Matrix<T>>) -> (r: Self)
        requires
            lawful::<T>(),
            forward is Some ==> invertible(forward->Some_0@),
        ensures
            r.wf(),
            r.forward_grid() == Self::grid_or_identity(forward),
            r.inverse_grid() == Self::inverse_or_identity(forward),
    {
        match forward {
            Some(m) => Self::new(m).unwrap(),
            None => Self::identity(),
        }
    }

    /// The grid of the matrix that was given, else the identity.
    pub open spec fn grid_or_identity(forward: Option<Matrix<T>>) -> Seq<Seq<T>> {
        match forward {
            Some(m) => m@,
            None => Matrix::<T>::identity_grid(),
        }
    }

    /// The inverse by cofactors of the matrix that was given, else the identity.
    pub open spec fn inverse_or_identity(forward: Option<Matrix<T>>) -> Seq<Seq<T>> {
        match forward {
            Some(m) => grid_inverse(m@),
            None => Matrix::<T>::identity_grid(),
        }
    }

    /// The matrix of the transformation.
    pub fn forward(&self) -> (r: &Matrix<T>)
        ensures
            r@ == self.forward_grid(),
            self.wf(),
            four_by_four(r@),
            r.acts_on_space(),
            r.is_square(),
    {
        proof {
            use_type_invariant(self);
        }
        &self.forward
    }

    /// The matrix of the inverse.
    pub fn inverse(&self) -> (r: &Matrix<T>)
        ensures
            r@ == self.inverse_grid(),
            self.wf(),
            four_by_four(r@),
            r.acts_on_space(),
            r.is_square(),
    {
        proof {
            use_type_invariant(self);
        }
        &self.inverse
    }

    /// A copy of the pair.
    pub fn copy(&self) -> (r: Self)
        ensures
            r.forward_grid() == self.forward_grid(),
            r.inverse_grid() == self.inverse_grid(),
    {
        proof {
            use_type_invariant(self);
        }
        Transform { forward: self.forward.copy(), inverse: self.inverse.copy() }
    }
}

impl<T: Scalar> Clone for Transform<T> {
    fn clone(&self) -> (r: Self)
        ensures
            r.forward_grid() == self.forward_grid(),
            r.inverse_grid() == self.inverse_grid(),
    {
        self.copy()
    }
}

} // verus!
