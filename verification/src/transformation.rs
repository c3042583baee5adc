//! The matrices that move, stretch, turn and slant space, and the one that
//! places the camera.
use crate::matrix::grid_product;
use crate::matrix::Matrix;
use crate::numeric::cos_of;
use crate::numeric::exact;
use crate::numeric::sin_of;
use crate::numeric::Elementary;
use crate::point::Point;
use crate::scalar::lawful;
use crate::matrix::grid_apply_point;
use crate::matrix::grid_apply_vector;
use crate::scalar::negate;
use crate::scalar::neutral;
use crate::scalar::plus;
use crate::scalar::number;
use crate::scalar::Scalar;
use crate::vector::cross;
use crate::vector::Vector;
use core::ops::Sub;
use vstd::prelude::*;

verus! {

/// The identity with `(x, y, z)` in its last column.
pub open spec fn translation_grid<T: Scalar>(x: T, y: T, z: T) -> Seq<Seq<T>> {
    let o = number::<T>(0);
    let i = number::<T>(1);
    seq![seq![i, o, o, x], seq![o, i, o, y], seq![o, o, i, z], seq![o, o, o, i]]
}

/// The matrix that moves every place by `(x, y, z)`.
pub fn translation<T: Scalar>(x: T, y: T, z: T) -> (r: Matrix<T>)
    requires
        lawful::<T>(),
    ensures
        r@ == translation_grid(x, y, z),
        r.is_square(),
        r.acts_on_space(),
{
    let o = number::<T>(0);
    let i = number::<T>(1);
    let r = Matrix::new(vec![vec![i, o, o, x], vec![o, i, o, y], vec![o, o, i, z], vec![o, o, o, i]]);
    assert(r@ =~~= translation_grid(x, y, z));
    r
}

/// A translation moves every place by its three amounts: the place
/// `(x, y, z)` goes to `(x + a, y + b, z + c)`. This holds of every scalar
/// in which zero and one are neutral.
pub proof fn lemma_translation_moves_points<T: Scalar>(a: T, b: T, c: T, p: Point<T>)
    requires
        neutral::<T>(),
    ensures
        grid_apply_point(translation_grid(a, b, c), p) == (Point {
            x: plus(p.x, a),
            y: plus(p.y, b),
            z: plus(p.z, c),
        }),
{
    let grid = translation_grid(a, b, c);
    assert(grid[0] == seq![number::<T>(1), number::<T>(0), number::<T>(0), a]);
    assert(grid[1] == seq![number::<T>(0), number::<T>(1), number::<T>(0), b]);
    assert(grid[2] == seq![number::<T>(0), number::<T>(0), number::<T>(1), c]);
}

/// A translation leaves every direction as it is. This holds of every
/// scalar in which zero and one are neutral.
pub proof fn lemma_translation_keeps_vectors<T: Scalar>(a: T, b: T, c: T, v: Vector<T>)
    requires
        neutral::<T>(),
    ensures
        grid_apply_vector(translation_grid(a, b, c), v) == v,
{
    let grid = translation_grid(a, b, c);
    assert(grid[0] == seq![number::<T>(1), number::<T>(0), number::<T>(0), a]);
    assert(grid[1] == seq![number::<T>(0), number::<T>(1), number::<T>(0), b]);
    assert(grid[2] == seq![number::<T>(0), number::<T>(0), number::<T>(1), c]);
}

/// The grid with `x`, `y`, `z` and one on its diagonal.
pub open spec fn scaling_grid<T: Scalar>(x: T, y: T, z: T) -> Seq<Seq<T>> {
    let o = number::<T>(0);
    let i = number::<T>(1);
    seq![seq![x, o, o, o], seq![o, y, o, o], seq![o, o, z, o], seq![o, o, o, i]]
}

/// The matrix that stretches space by `x`, `y` and `z` along the three axes.
pub fn scaling<T: Scalar>(x: T, y: T, z: T) -> (r: Matrix<T>)
    requires
        lawful::<T>(),
    ensures
        r@ == scaling_grid(x, y, z),
        r.is_square(),
        r.acts_on_space(),
{
    let o = number::<T>(0);
    let i = number::<T>(1);
    let r = Matrix::new(vec![vec![x, o, o, o], vec![o, y, o, o], vec![o, o, z, o], vec![o, o, o, i]]);
    assert(r@ =~~= scaling_grid(x, y, z));
    r
}

/// The rotation about the x axis for an angle with the given cosine and sine.
pub open spec fn rotation_x_grid<T: Scalar>(cos_r: T, sin_r: T) -> Seq<Seq<T>> {
    let o = number::<T>(0);
    let i = number::<T>(1);
    seq![
        seq![i, o, o, o],
        seq![o, cos_r, negate(sin_r), o],
        seq![o, sin_r, cos_r, o],
        seq![o, o, o, i],
    ]
}

/// The matrix that turns space about the x axis by `angle` radians.
pub fn rotation_x<T: Scalar, N: Elementary<T>>(n: &N, angle: T) -> (r: Matrix<T>)
    requires
        lawful::<T>(),
        exact(n),
    ensures
        r@ == rotation_x_grid(cos_of(n, angle), sin_of(n, angle)),
        r.is_square(),
        r.acts_on_space(),
{
    let cos_r = n.cos(angle);
    let sin_r = n.sin(angle);
    let o = number::<T>(0);
    let i = number::<T>(1);
    let r = Matrix::new(
        vec![
            vec![i, o, o, o],
            vec![o, cos_r, negate(sin_r), o],
            vec![o, sin_r, cos_r, o],
            vec![o, o, o, i],
        ],
    );
    assert(r@ =~~= rotation_x_grid(cos_r, sin_r));
    r
}

/// The rotation about the y axis for an angle with the given cosine and sine.
pub open spec fn rotation_y_grid<T: Scalar>(cos_r: T, sin_r: T) -> Seq<Seq<T>> {
    let o = number::<T>(0);
    let i = number::<T>(1);
    seq![
        seq![cos_r, o, sin_r, o],
        seq![o, i, o, o],
        seq![negate(sin_r), o, cos_r, o],
        seq![o, o, o, i],
    ]
}

/// The matrix that turns space about the y axis by `angle` radians.
pub fn rotation_y<T: Scalar, N: Elementary<T>>(n: &N, angle: T) -> (r: Matrix<T>)
    requires
        lawful::<T>(),
        exact(n),
    ensures
        r@ == rotation_y_grid(cos_of(n, angle), sin_of(n, angle)),
        r.is_square(),
        r.acts_on_space(),
{
    let cos_r = n.cos(angle);
    let sin_r = n.sin(angle);
    let o = number::<T>(0);
    let i = number::<T>(1);
    let r = Matrix::new(
        vec![
            vec![cos_r, o, sin_r, o],
            vec![o, i, o, o],
            vec![negate(sin_r), o, cos_r, o],
            vec![o, o, o, i],
        ],
    );
    assert(r@ =~~= rotation_y_grid(cos_r, sin_r));
    r
}

/// The rotation about the z axis for an angle with the given cosine and sine.
pub open spec fn rotation_z_grid<T: Scalar>(cos_r: T, sin_r: T) -> Seq<Seq<T>> {
    let o = number::<T>(0);
    let i = number::<T>(1);
    seq![
        seq![cos_r, negate(sin_r), o, o],
        seq![sin_r, cos_r, o, o],
        seq![o, o, i, o],
        seq![o, o, o, i],
    ]
}

/// The matrix that turns space about the z axis by `angle` radians.
pub fn rotation_z<T: Scalar, N: Elementary<T>>(n: &N, angle: T) -> (r: Matrix<T>)
    requires
        lawful::<T>(),
        exact(n),
    ensures
        r@ == rotation_z_grid(cos_of(n, angle), sin_of(n, angle)),
        r.is_square(),
        r.acts_on_space(),
{
    let cos_r = n.cos(angle);
    let sin_r = n.sin(angle);
    let o = number::<T>(0);
    let i = number::<T>(1);
    let r = Matrix::new(
        vec![
            vec![cos_r, negate(sin_r), o, o],
            vec![sin_r, cos_r, o, o],
            vec![o, o, i, o],
            vec![o, o, o, i],
        ],
    );
    assert(r@ =~~= rotation_z_grid(cos_r, sin_r));
    r
}

/// The identity with the six proportions off its diagonal.
pub open spec fn shearing_grid<T: Scalar>(x_y: T, x_z: T, y_x: T, y_z: T, z_x: T, z_y: T) -> Seq<
    Seq<T>,
> {
    let o = number::<T>(0);
    let i = number::<T>(1);
    seq![seq![i, x_y, x_z, o], seq![y_x, i, y_z, o], seq![z_x, z_y, i, o], seq![o, o, o, i]]
}

/// The matrix that slants space: each coordinate moves in proportion to the
/// other two.
pub fn shearing<T: Scalar>(x_y: T, x_z: T, y_x: T, y_z: T, z_x: T, z_y: T) -> (r: Matrix<T>)
    requires
        lawful::<T>(),
    ensures
        r@ == shearing_grid(x_y, x_z, y_x, y_z, z_x, z_y),
        r.is_square(),
        r.acts_on_space(),
{
    let o = number::<T>(0);
    let i = number::<T>(1);
    let r = Matrix::new(
        vec![vec![i, x_y, x_z, o], vec![y_x, i, y_z, o], vec![z_x, z_y, i, o], vec![o, o, o, i]],
    );
    assert(r@ =~~= shearing_grid(x_y, x_z, y_x, y_z, z_x, z_y));
    r
}

/// The rows of the camera's orientation: left, true up, and backward.
pub open spec fn orientation_grid<T: Scalar>(
    left: Vector<T>,
    true_up: Vector<T>,
    forward: Vector<T>,
) -> Seq<Seq<T>> {
    let o = number::<T>(0);
    let i = number::<T>(1);
    seq![
        seq![left.x, left.y, left.z, o],
        seq![true_up.x, true_up.y, true_up.z, o],
        seq![negate(forward.x), negate(forward.y), negate(forward.z), o],
        seq![o, o, o, i],
    ]
}

/// The view transformation as a grid: the orientation of the camera times
/// the translation that brings the eye to the origin.
pub open spec fn view_grid<T: Scalar, N: Elementary<T>>(
    n: &N,
    from: Point<T>,
    to: Point<T>,
    up: Vector<T>,
) -> Seq<Seq<T>> {
    let forward = to.offset_from(from).spec_norm(n);
    let left = cross(forward, up.spec_norm(n));
    let true_up = cross(left, forward);
    grid_product(
        orientation_grid(left, true_up, forward),
        translation_grid(negate(from.x), negate(from.y), negate(from.z)),
        4,
    )
}

/// The matrix that places the eye at `from`, looking at `to`, with `up`
/// giving the upward direction.
pub fn view_transformation<T: Scalar, N: Elementary<T>>(
    n: &N,
    from: Point<T>,
    to: Point<T>,
    up: Vector<T>,
) -> (r: Matrix<T>)
    requires
        lawful::<T>(),
        exact(n),
    ensures
        r@ == view_grid(n, from, to, up),
        r.is_square(),
        r.acts_on_space(),
{
    let forward = to.sub(from).norm(n);
    let left = cross(forward, up.norm(n));
    let true_up = cross(left, forward);
    let o = number::<T>(0);
    let i = number::<T>(1);
    let orientation = Matrix::new(
        vec![
            vec![left.x, left.y, left.z, o],
            vec![true_up.x, true_up.y, true_up.z, o],
            vec![negate(forward.x), negate(forward.y), negate(forward.z), o],
            vec![o, o, o, i],
        ],
    );
    assert(orientation@ =~~= orientation_grid(left, true_up, forward));
    let shift = translation(negate(from.x), negate(from.y), negate(from.z));
    orientation.product(&shift)
}

} // verus!
