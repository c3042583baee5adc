//! Procedural surface colours.
//!
//! A pattern gives a colour to every place. It lives in a frame of its own:
//! a place on a shape is first brought into the shape's frame, then into the
//! pattern's, and there the pattern's rule decides the colour.
use crate::color::Color;
use crate::matrix::grid_apply_point;
use crate::matrix::grid_inverse;
use crate::matrix::Matrix;
use crate::numeric::exact;
use crate::numeric::floor_of;
use crate::numeric::sqrt_of;
use crate::numeric::Elementary;
use crate::perlin::octave_perlin;
use crate::perlin::spec_octave_perlin;
use crate::point::Point;
use crate::scalar::lawful;
use crate::scalar::minus;
use crate::scalar::number;
use crate::scalar::plus;
use crate::scalar::ratio;
use crate::scalar::remainder;
use crate::scalar::same;
use crate::scalar::times;
use crate::scalar::Scalar;
use crate::shape::Shape;
use crate::transform::invertible;
use crate::transform::Transform;
use core::ops::Add;
use core::ops::Mul;
use core::ops::Sub;
use vstd::prelude::*;

verus! {

/// Whether `x` is an even whole number: its remainder by two equals zero.
pub open spec fn spec_is_even<T: Scalar>(x: T) -> bool {
    same(remainder(x, number::<T>(2)), number::<T>(0))
}

/// Whether `x` is an even whole number.
#[verifier::when_used_as_spec(spec_is_even)]
pub fn is_even<T: Scalar>(x: T) -> (r: bool)
    requires
        lawful::<T>(),
    ensures
        r == spec_is_even(x),
{
    same(remainder(x, number::<T>(2)), number::<T>(0))
}

/// Two colours in alternating bands along the x axis, each one unit wide.
#[derive(Debug, Clone)]
pub struct StripePattern<T: Scalar> {
    pub a: Color<T>,
    pub b: Color<T>,
    pub transform: Transform<T>,
}

impl<T: Scalar> StripePattern<T> {
    pub fn a(&self) -> (r: Color<T>)
        ensures
            r == self.a,
    {
        self.a
    }

    pub fn b(&self) -> (r: Color<T>)
        ensures
            r == self.b,
    {
        self.b
    }

    /// The pattern of the two colours, in the frame that `transform` gives:
    /// that of the shape where none is given.
    pub fn new(a: Color<T>, b: Color<T>, transform: Option<Matrix<T>>) -> (r: Self)
        requires
            lawful::<T>(),
            transform is Some ==> invertible(transform->Some_0@),
        ensures
            r.a == a,
            r.b == b,
            r.transform.forward_grid() == Transform::grid_or_identity(transform),
            r.transform.inverse_grid() == Transform::inverse_or_identity(transform),
    {
        StripePattern { a, b, transform: Transform::from_option(transform) }
    }

    /// The first colour where the whole part of `x` is even, else the second.
    pub open spec fn spec_local_color_at<N: Elementary<T>>(&self, n: &N, p: Point<T>) -> Color<T> {
        if spec_is_even(floor_of(n, p.x)) {
            self.a
        } else {
            self.b
        }
    }

    /// The colour at a place given in the pattern's own frame.
    pub fn local_color_at<N: Elementary<T>>(&self, n: &N, pattern_point: Point<T>) -> (r: Color<T>)
        requires
            lawful::<T>(),
            exact(n),
        ensures
            r == self.spec_local_color_at(n, pattern_point),
    {
        if is_even(n.floor(pattern_point.x)) {
            self.a
        } else {
            self.b
        }
    }

    /// Replaces the pattern's frame, the inverse along with the matrix.
    pub fn set_transformation(&mut self, transform: Matrix<T>)
        requires
            lawful::<T>(),
            invertible(transform@),
        ensures
            final(self).a == old(self).a,
            final(self).b == old(self).b,
            final(self).transform.forward_grid() == transform@,
            final(self).transform.inverse_grid() == grid_inverse(transform@),
    {
        self.transform = Transform::from_option(Some(transform));
    }

    /// The matrix that brings a place from the shape's frame into the pattern's.
    pub fn inverse_transformation(&self) -> (r: &Matrix<T>)
        ensures
            r@ == self.transform.inverse_grid(),
            r.acts_on_space(),
    {
        self.transform.inverse()
    }
}

/// Two colours in alternating rings around the y axis, each one unit wide.
#[derive(Debug, Clone)]
pub struct RingPattern<T: Scalar> {
    pub a: Color<T>,
    pub b: Color<T>,
    pub transform: Transform<T>,
}

impl<T: Scalar> RingPattern<T> {
    /// The pattern of the two colours, in the frame that `transform` gives:
    /// that of the shape where none is given.
    pub fn new(a: Color<T>, b: Color<T>, transform: Option<Matrix<T>>) -> (r: Self)
        requires
            lawful::<T>(),
            transform is Some ==> invertible(transform->Some_0@),
        ensures
            r.a == a,
            r.b == b,
            r.transform.forward_grid() == Transform::grid_or_identity(transform),
            r.transform.inverse_grid() == Transform::inverse_or_identity(transform),
    {
        RingPattern { a, b, transform: Transform::from_option(transform) }
    }

    /// The first colour where the whole part of the distance from the y axis is even, else the second.
    pub open spec fn spec_local_color_at<N: Elementary<T>>(&self, n: &N, p: Point<T>) -> Color<T> {
        if spec_is_even(floor_of(n, sqrt_of(n, plus(times(p.x, p.x), times(p.z, p.z))))) {
            self.a
        } else {
            self.b
        }
    }

    /// The colour at a place given in the pattern's own frame.
    pub fn local_color_at<N: Elementary<T>>(&self, n: &N, pattern_point: Point<T>) -> (r: Color<T>)
        requires
            lawful::<T>(),
            exact(n),
        ensures
            r == self.spec_local_color_at(n, pattern_point),
    {
        let p = pattern_point;
        if is_even(n.floor(n.sqrt(plus(times(p.x, p.x), times(p.z, p.z))))) {
            self.a
        } else {
            self.b
        }
    }

    /// Replaces the pattern's frame, the inverse along with the matrix.
    pub fn set_transformation(&mut self, transform: Matrix<T>)
        requires
            lawful::<T>(),
            invertible(transform@),
        ensures
            final(self).a == old(self).a,
            final(self).b == old(self).b,
            final(self).transform.forward_grid() == transform@,
            final(self).transform.inverse_grid() == grid_inverse(transform@),
    {
        self.transform = Transform::from_option(Some(transform));
    }

    /// The matrix that brings a place from the shape's frame into the pattern's.
    pub fn inverse_transformation(&self) -> (r: &Matrix<T>)
        ensures
            r@ == self.transform.inverse_grid(),
            r.acts_on_space(),
    {
        self.transform.inverse()
    }
}

/// Two colours in alternating unit cubes.
#[derive(Debug, Clone)]
pub struct CheckeredPattern<T: Scalar> {
    pub a: Color<T>,
    pub b: Color<T>,
    pub transform: Transform<T>,
}

impl<T: Scalar> CheckeredPattern<T> {
    /// The pattern of the two colours, in the frame that `transform` gives:
    /// that of the shape where none is given.
    pub fn new(a: Color<T>, b: Color<T>, transform: Option<Matrix<T>>) -> (r: Self)
        requires
            lawful::<T>(),
            transform is Some ==> invertible(transform->Some_0@),
        ensures
            r.a == a,
            r.b == b,
            r.transform.forward_grid() == Transform::grid_or_identity(transform),
            r.transform.inverse_grid() == Transform::inverse_or_identity(transform),
    {
        CheckeredPattern { a, b, transform: Transform::from_option(transform) }
    }

    /// The first colour where the whole parts of the three coordinates sum to an even number, else the second.
    pub open spec fn spec_local_color_at<N: Elementary<T>>(&self, n: &N, p: Point<T>) -> Color<T> {
        if spec_is_even(plus(plus(floor_of(n, p.x), floor_of(n, p.y)), floor_of(n, p.z))) {
            self.a
        } else {
            self.b
        }
    }

    /// The colour at a place given in the pattern's own frame.
    pub fn local_color_at<N: Elementary<T>>(&self, n: &N, pattern_point: Point<T>) -> (r: Color<T>)
        requires
            lawful::<T>(),
            exact(n),
        ensures
            r == self.spec_local_color_at(n, pattern_point),
    {
        let p = pattern_point;
        if is_even(plus(plus(n.floor(p.x), n.floor(p.y)), n.floor(p.z))) {
            self.a
        } else {
            self.b
        }
    }

    /// Replaces the pattern's frame, the inverse along with the matrix.
    pub fn set_transformation(&mut self, transform: Matrix<T>)
        requires
            lawful::<T>(),
            invertible(transform@),
        ensures
            final(self).a == old(self).a,
            final(self).b == old(self).b,
            final(self).transform.forward_grid() == transform@,
            final(self).transform.inverse_grid() == grid_inverse(transform@),
    {
        self.transform = Transform::from_option(Some(transform));
    }

    /// The matrix that brings a place from the shape's frame into the pattern's.
    pub fn inverse_transformation(&self) -> (r: &Matrix<T>)
        ensures
            r@ == self.transform.inverse_grid(),
            r.acts_on_space(),
    {
        self.transform.inverse()
    }
}

/// A blend from one colour to the other along the x axis, starting anew at every whole number.
#[derive(Debug, Clone)]
pub struct GraidentPattern<T: Scalar> {
    pub a: Color<T>,
    pub b: Color<T>,
    pub transform: Transform<T>,
}

impl<T: Scalar> GraidentPattern<T> {
    /// The pattern of the two colours, in the frame that `transform` gives:
    /// that of the shape where none is given.
    pub fn new(a: Color<T>, b: Color<T>, transform: Option<Matrix<T>>) -> (r: Self)
        requires
            lawful::<T>(),
            transform is Some ==> invertible(transform->Some_0@),
        ensures
            r.a == a,
            r.b == b,
            r.transform.forward_grid() == Transform::grid_or_identity(transform),
            r.transform.inverse_grid() == Transform::inverse_or_identity(transform),
    {
        GraidentPattern { a, b, transform: Transform::from_option(transform) }
    }

    /// `a + (b - a) * (x - floor(x))`
    pub open spec fn spec_local_color_at<N: Elementary<T>>(&self, n: &N, p: Point<T>) -> Color<T> {
        self.a.sum(self.b.difference(self.a).scaled(minus(p.x, floor_of(n, p.x))))
    }

    /// The colour at a place given in the pattern's own frame.
    pub fn local_color_at<N: Elementary<T>>(&self, n: &N, pattern_point: Point<T>) -> (r: Color<T>)
        requires
            lawful::<T>(),
            exact(n),
        ensures
            r == self.spec_local_color_at(n, pattern_point),
    {
        let distance = self.b.sub(self.a);
        let fraction = minus(pattern_point.x, n.floor(pattern_point.x));
        self.a.add(distance.mul(fraction))
    }

    /// Replaces the pattern's frame, the inverse along with the matrix.
    pub fn set_transformation(&mut self, transform: Matrix<T>)
        requires
            lawful::<T>(),
            invertible(transform@),
        ensures
            final(self).a == old(self).a,
            final(self).b == old(self).b,
            final(self).transform.forward_grid() == transform@,
            final(self).transform.inverse_grid() == grid_inverse(transform@),
    {
        self.transform = Transform::from_option(Some(transform));
    }

    /// The matrix that brings a place from the shape's frame into the pattern's.
    pub fn inverse_transformation(&self) -> (r: &Matrix<T>)
        ensures
            r@ == self.transform.inverse_grid(),
            r.acts_on_space(),
    {
        self.transform.inverse()
    }
}

/// Another pattern, sampled at a place that noise has nudged a little.
#[derive(Debug)]
pub struct PerlinPattern<T: Scalar> {
    pub pattern: Box<Pattern<T>>,
    pub repeat: Option<usize>,
    pub transform: Transform<T>,
}

/// `x` moved by a hundredth of three octaves of noise at `at`, each octave
/// with eight tenths of the weight of the one before.
pub open spec fn spec_jitter<T: Scalar, N: Elementary<T>>(n: &N, x: T, at: Point<T>) -> T {
    plus(x, times(spec_octave_perlin(n, at, 3, ratio::<T>(8, 10)), ratio::<T>(1, 100)))
}

/// A coordinate nudged by noise.
pub fn jitter<T: Scalar, N: Elementary<T>>(n: &N, x: T, at: Point<T>) -> (r: T)
    requires
        lawful::<T>(),
        exact(n),
    ensures
        r == spec_jitter(n, x, at),
{
    plus(x, times(octave_perlin(n, at, 3, ratio::<T>(8, 10)), ratio::<T>(1, 100)))
}

/// The place `p` with each coordinate nudged by noise. The noise for `y`
/// and `z` is taken one and two units further along the z axis, so the
/// three do not move together.
pub open spec fn spec_jittered<T: Scalar, N: Elementary<T>>(n: &N, p: Point<T>) -> Point<T> {
    let o = number::<T>(0);
    Point {
        x: spec_jitter(n, p.x, p),
        y: spec_jitter(n, p.y, p.sum(Point { x: o, y: o, z: number::<T>(1) })),
        z: spec_jitter(n, p.z, p.sum(Point { x: o, y: o, z: number::<T>(2) })),
    }
}

/// The place `p` with each coordinate nudged by noise.
pub fn jittered<T: Scalar, N: Elementary<T>>(n: &N, p: Point<T>) -> (r: Point<T>)
    requires
        lawful::<T>(),
        exact(n),
    ensures
        r == spec_jittered(n, p),
{
    let o = number::<T>(0);
    let x = jitter(n, p.x, p);
    let y = jitter(n, p.y, p.add(Point { x: o, y: o, z: number::<T>(1) }));
    let z = jitter(n, p.z, p.add(Point { x: o, y: o, z: number::<T>(2) }));
    Point { x, y, z }
}

impl<T: Scalar> PerlinPattern<T> {
    /// The pattern `pattern` under noise, in the frame that `transform`
    /// gives: that of the shape where none is given.
    pub fn new(pattern: Pattern<T>, repeat: Option<usize>, transform: Option<Matrix<T>>) -> (r: Self)
        requires
            lawful::<T>(),
            transform is Some ==> invertible(transform->Some_0@),
        ensures
            *r.pattern == pattern,
            r.repeat == repeat,
            r.transform.forward_grid() == Transform::grid_or_identity(transform),
            r.transform.inverse_grid() == Transform::inverse_or_identity(transform),
    {
        PerlinPattern { pattern: Box::new(pattern), repeat, transform: Transform::from_option(transform) }
    }

    /// Replaces the pattern's frame, the inverse along with the matrix.
    pub fn set_transformation(&mut self, transform: Matrix<T>)
        requires
            lawful::<T>(),
            invertible(transform@),
        ensures
            final(self).pattern == old(self).pattern,
            final(self).repeat == old(self).repeat,
            final(self).transform.forward_grid() == transform@,
            final(self).transform.inverse_grid() == grid_inverse(transform@),
    {
        self.transform = Transform::from_option(Some(transform));
    }

    /// The matrix that brings a place from the shape's frame into the pattern's.
    pub fn inverse_transformation(&self) -> (r: &Matrix<T>)
        ensures
            r@ == self.transform.inverse_grid(),
            r.acts_on_space(),
    {
        self.transform.inverse()
    }
}

/// The patterns that a material can carry.
#[derive(Debug)]
pub enum Pattern<T: Scalar> {
    Stripe(StripePattern<T>),
    Ring(RingPattern<T>),
    Checkered(CheckeredPattern<T>),
    Gradient(GraidentPattern<T>),
    Perlin(PerlinPattern<T>),
}

impl<T: Scalar> Clone for PerlinPattern<T> {
    fn clone(&self) -> (r: Self)
        ensures
            r.repeat == self.repeat,
            r.transform.forward_grid() == self.transform.forward_grid(),
            r.transform.inverse_grid() == self.transform.inverse_grid(),
    {
        PerlinPattern {
            pattern: Box::new(self.pattern.duplicate()),
            repeat: self.repeat,
            transform: self.transform.copy(),
        }
    }
}

impl<T: Scalar> Clone for Pattern<T> {
    fn clone(&self) -> (r: Self)
        ensures
            r.inverse_grid() == self.inverse_grid(),
    {
        self.duplicate()
    }
}

impl<T: Scalar> Pattern<T> {
    /// A copy of the pattern, and of the pattern it wraps where it is noise.
    pub fn duplicate(&self) -> (r: Self)
        ensures
            r.inverse_grid() == self.inverse_grid(),
        decreases self,
    {
        match self {
            Pattern::Stripe(p) => Pattern::Stripe(
                StripePattern { a: p.a, b: p.b, transform: p.transform.copy() },
            ),
            Pattern::Ring(p) => Pattern::Ring(
                RingPattern { a: p.a, b: p.b, transform: p.transform.copy() },
            ),
            Pattern::Checkered(p) => Pattern::Checkered(
                CheckeredPattern { a: p.a, b: p.b, transform: p.transform.copy() },
            ),
            Pattern::Gradient(p) => Pattern::Gradient(
                GraidentPattern { a: p.a, b: p.b, transform: p.transform.copy() },
            ),
            Pattern::Perlin(p) => Pattern::Perlin(
                PerlinPattern {
                    pattern: Box::new(p.pattern.duplicate()),
                    repeat: p.repeat,
                    transform: p.transform.copy(),
                },
            ),
        }
    }

    /// The grid that brings a place from the shape's frame into the pattern's.
    pub open spec fn inverse_grid(&self) -> Seq<Seq<T>> {
        match self {
            Pattern::Stripe(p) => p.transform.inverse_grid(),
            Pattern::Ring(p) => p.transform.inverse_grid(),
            Pattern::Checkered(p) => p.transform.inverse_grid(),
            Pattern::Gradient(p) => p.transform.inverse_grid(),
            Pattern::Perlin(p) => p.transform.inverse_grid(),
        }
    }

    /// The matrix that brings a place from the shape's frame into the pattern's.
    pub fn inverse_transformation(&self) -> (r: &Matrix<T>)
        ensures
            r@ == self.inverse_grid(),
            r.acts_on_space(),
    {
        match self {
            Pattern::Stripe(p) => p.inverse_transformation(),
            Pattern::Ring(p) => p.inverse_transformation(),
            Pattern::Checkered(p) => p.inverse_transformation(),
            Pattern::Gradient(p) => p.inverse_transformation(),
            Pattern::Perlin(p) => p.inverse_transformation(),
        }
    }

    /// The colour that the pattern's rule gives at a place in its own frame.
    /// The noise pattern asks the pattern it wraps, at the nudged place.
    pub open spec fn spec_local_color_at<N: Elementary<T>>(&self, n: &N, p: Point<T>) -> Color<T>
        decreases self,
    {
        match self {
            Pattern::Stripe(s) => s.spec_local_color_at(n, p),
            Pattern::Ring(s) => s.spec_local_color_at(n, p),
            Pattern::Checkered(s) => s.spec_local_color_at(n, p),
            Pattern::Gradient(s) => s.spec_local_color_at(n, p),
            Pattern::Perlin(s) => s.pattern.spec_local_color_at(n, spec_jittered(n, p)),
        }
    }

    /// The colour at a place given in the pattern's own frame.
    pub fn local_color_at<N: Elementary<T>>(&self, n: &N, pattern_point: Point<T>) -> (r: Color<T>)
        requires
            lawful::<T>(),
            exact(n),
        ensures
            r == self.spec_local_color_at(n, pattern_point),
        decreases self,
    {
        match self {
            Pattern::Stripe(s) => s.local_color_at(n, pattern_point),
            Pattern::Ring(s) => s.local_color_at(n, pattern_point),
            Pattern::Checkered(s) => s.local_color_at(n, pattern_point),
            Pattern::Gradient(s) => s.local_color_at(n, pattern_point),
            Pattern::Perlin(s) => s.pattern.local_color_at(n, jittered(n, pattern_point)),
        }
    }

    /// A place of the world in the pattern's frame, on a shape whose frame
    /// `object_inverse` leads into: the place is brought into the shape's
    /// frame, then into the pattern's.
    pub open spec fn spec_pattern_point(
        &self,
        object_inverse: Seq<Seq<T>>,
        world_point: Point<T>,
    ) -> Point<T> {
        grid_apply_point(self.inverse_grid(), grid_apply_point(object_inverse, world_point))
    }

    /// A place of the world in the frame of the pattern as it lies on `object`.
    pub fn pattern_point(&self, object: &Shape<T>, world_point: Point<T>) -> (r: Point<T>)
        requires
            lawful::<T>(),
        ensures
            r == self.spec_pattern_point(object.inverse_grid(), world_point),
    {
        let object_point = object.inverse_transformation().apply_point(world_point);
        self.inverse_transformation().apply_point(object_point)
    }

    /// The colour at a place of the world on a shape whose frame
    /// `object_inverse` leads into: the rule of the pattern, asked at the
    /// place in the pattern's frame.
    pub open spec fn spec_at<N: Elementary<T>>(
        &self,
        n: &N,
        object_inverse: Seq<Seq<T>>,
        world_point: Point<T>,
    ) -> Color<T> {
        self.spec_local_color_at(n, self.spec_pattern_point(object_inverse, world_point))
    }

    /// The colour of the pattern on `object` at a place of the world.
    pub fn at_shape<N: Elementary<T>>(&self, n: &N, object: &Shape<T>, world_point: Point<T>) -> (r:
        Color<T>)
        requires
            lawful::<T>(),
            exact(n),
        ensures
            r == self.spec_at(n, object.inverse_grid(), world_point),
    {
        let pattern_point = self.pattern_point(object, world_point);
        self.local_color_at(n, pattern_point)
    }
}

} // verus!
