//! The shapes of a scene.
//!
//! Every shape is described in a frame of its own, where it has a simple
//! form, and carries the transformation that places it in the world. How a
//! ray meets a shape and which way its surface faces are asked in the world
//! and answered in the shape's frame.
use crate::intersection::Intersection;
use crate::intersection::Intersections;
use crate::material::Material;
use crate::matrix::grid_apply_point;
use crate::matrix::grid_apply_vector;
use crate::matrix::grid_inverse;
use crate::matrix::grid_transposed;
use crate::matrix::Matrix;
use crate::numeric::exact;
use crate::numeric::sqrt_of;
use crate::numeric::Elementary;
use crate::point::Point;
use crate::ray::Ray;
use crate::scalar::epsilon;
use crate::scalar::lawful;
use crate::scalar::less;
use crate::scalar::minus;
use crate::scalar::negate;
use crate::scalar::number;
use crate::scalar::over;
use crate::scalar::plus;
use crate::scalar::times;
use crate::scalar::within;
use crate::scalar::Scalar;
use crate::transform::four_by_four;
use crate::transform::invertible;
use crate::transform::Transform;
use crate::vector::dot;
use crate::vector::Vector;
use core::ops::Sub;
use vstd::prelude::*;

verus! {

/// The material that was given, else the default one.
pub open spec fn material_or_default<T: Scalar>(material: Option<Material<T>>) -> Material<T> {
    match material {
        Some(m) => m,
        None => Material::<T>::spec_default(),
    }
}

fn given_or_default<T: Scalar>(material: Option<Material<T>>) -> (r: Material<T>)
    requires
        lawful::<T>(),
    ensures
        r == material_or_default(material),
{
    match material {
        Some(m) => m,
        None => Material::default(),
    }
}

/// The ray parameters at which `r` meets the unit sphere about the origin,
/// the smaller one first; none where the ray misses.
pub open spec fn sphere_hits<T: Scalar, N: Elementary<T>>(n: &N, r: Ray<T>) -> Seq<T> {
    let sphere_to_ray = r.origin.offset_from(Point::spec_zero());
    let a = dot(r.direction, r.direction);
    let b = times(number::<T>(2), dot(r.direction, sphere_to_ray));
    let c = minus(dot(sphere_to_ray, sphere_to_ray), number::<T>(1));
    let discriminant = minus(times(b, b), times(times(number::<T>(4), a), c));
    if less(discriminant, number::<T>(0)) {
        Seq::empty()
    } else {
        let root = sqrt_of(n, discriminant);
        let t1 = over(minus(negate(b), root), times(number::<T>(2), a));
        let t2 = over(plus(negate(b), root), times(number::<T>(2), a));
        if less(t1, t2) {
            seq![t1, t2]
        } else {
            seq![t2, t1]
        }
    }
}

/// The ray parameters at which `r` meets the plane `y = 0`: none where the
/// ray runs along the plane, else the one where its height reaches zero.
pub open spec fn plane_hits<T: Scalar>(r: Ray<T>) -> Seq<T> {
    if within(r.direction.y, epsilon::<T>()) {
        Seq::empty()
    } else {
        seq![over(negate(r.origin.y), r.direction.y)]
    }
}

/// The meetings at the given ray parameters, all with the shape `id`.
pub open spec fn tagged<T: Scalar>(ts: Seq<T>, id: usize) -> Seq<Intersection<T>> {
    Seq::new(ts.len(), |i: int| Intersection { t: ts[i], object: id })
}

/// The unit sphere about the origin of its frame.
#[derive(Debug, Clone)]
pub struct Sphere<T: Scalar> {
    pub transform: Transform<T>,
    pub material: Material<T>,
}

impl<T: Scalar> Sphere<T> {
    /// The sphere placed by `transform` and made of `material`; unmoved and
    /// of the default material where those are not given.
    pub fn new(transform: Option<Matrix<T>>, material: Option<Material<T>>) -> (r: Self)
        requires
            lawful::<T>(),
            transform is Some ==> invertible(transform->Some_0@),
        ensures
            r.transform.forward_grid() == Transform::grid_or_identity(transform),
            r.transform.inverse_grid() == Transform::inverse_or_identity(transform),
            r.material == material_or_default(material),
    {
        Sphere { transform: Transform::from_option(transform), material: given_or_default(material) }
    }

    /// The unmoved unit sphere of the default material.
    pub fn default() -> (r: Self)
        requires
            lawful::<T>(),
        ensures
            r.transform.forward_grid() == Matrix::<T>::identity_grid(),
            r.transform.inverse_grid() == Matrix::<T>::identity_grid(),
            r.material == Material::<T>::spec_default(),
    {
        Sphere { transform: Transform::identity(), material: Material::default() }
    }

    /// Places the sphere anew, the inverse along with the matrix.
    pub fn set_transform(&mut self, transform: Matrix<T>)
        requires
            lawful::<T>(),
            invertible(transform@),
        ensures
            final(self).material == old(self).material,
            final(self).transform.forward_grid() == transform@,
            final(self).transform.inverse_grid() == grid_inverse(transform@),
    {
        self.transform = Transform::from_option(Some(transform));
    }

    pub fn set_material(&mut self, material: Material<T>)
        ensures
            final(self).material == material,
            final(self).transform == old(self).transform,
    {
        self.material = material;
    }

    /// Where a ray given in the sphere's frame meets it.
    pub fn local_intersect<N: Elementary<T>>(&self, n: &N, id: usize, r: Ray<T>) -> (xs:
        Intersections<T>)
        requires
            lawful::<T>(),
            exact(n),
        ensures
            xs@ == tagged(sphere_hits(n, r), id),
    {
        let sphere_to_ray = r.origin.sub(Point::zero());
        let a = dot(r.direction, r.direction);
        let b = times(number::<T>(2), dot(r.direction, sphere_to_ray));
        let c = minus(dot(sphere_to_ray, sphere_to_ray), number::<T>(1));
        let discriminant = minus(times(b, b), times(times(number::<T>(4), a), c));
        if less(discriminant, number::<T>(0)) {
            let xs = Intersections::empty();
            assert(xs@ =~= tagged(sphere_hits(n, r), id));
            return xs;
        }
        let root = n.sqrt(discriminant);
        let t1 = over(minus(negate(b), root), times(number::<T>(2), a));
        let t2 = over(plus(negate(b), root), times(number::<T>(2), a));
        let hits = if less(t1, t2) {
            vec![Intersection::new(t1, id), Intersection::new(t2, id)]
        } else {
            vec![Intersection::new(t2, id), Intersection::new(t1, id)]
        };
        let xs = Intersections::new(hits);
        assert(xs@ =~= tagged(sphere_hits(n, r), id));
        xs
    }

    /// The direction from the centre to the place.
    pub open spec fn spec_local_normal(point: Point<T>) -> Vector<T> {
        point.offset_from(Point::spec_zero())
    }

    /// Which way the surface faces at a place given in the sphere's frame.
    pub fn local_normal(&self, point: Point<T>) -> (r: Vector<T>)
        requires
            lawful::<T>(),
        ensures
            r == Self::spec_local_normal(point),
    {
        point.sub(Point::zero())
    }
}

/// The plane `y = 0` of its frame, without bounds.
#[derive(Debug, Clone)]
pub struct Plane<T: Scalar> {
    pub transform: Transform<T>,
    pub material: Material<T>,
}

impl<T: Scalar> Plane<T> {
    /// The plane placed by `transform` and made of `material`; unmoved and
    /// of the default material where those are not given.
    pub fn new(transform: Option<Matrix<T>>, material: Option<Material<T>>) -> (r: Self)
        requires
            lawful::<T>(),
            transform is Some ==> invertible(transform->Some_0@),
        ensures
            r.transform.forward_grid() == Transform::grid_or_identity(transform),
            r.transform.inverse_grid() == Transform::inverse_or_identity(transform),
            r.material == material_or_default(material),
    {
        Plane { transform: Transform::from_option(transform), material: given_or_default(material) }
    }

    /// The unmoved plane of the default material.
    pub fn default() -> (r: Self)
        requires
            lawful::<T>(),
        ensures
            r.transform.forward_grid() == Matrix::<T>::identity_grid(),
            r.transform.inverse_grid() == Matrix::<T>::identity_grid(),
            r.material == Material::<T>::spec_default(),
    {
        Plane { transform: Transform::identity(), material: Material::default() }
    }

    /// Places the plane anew, the inverse along with the matrix.
    pub fn set_transform(&mut self, transform: Matrix<T>)
        requires
            lawful::<T>(),
            invertible(transform@),
        ensures
            final(self).material == old(self).material,
            final(self).transform.forward_grid() == transform@,
            final(self).transform.inverse_grid() == grid_inverse(transform@),
    {
        self.transform = Transform::from_option(Some(transform));
    }

    /// Where a ray given in the plane's frame meets it.
    pub fn local_intersect(&self, id: usize, r: Ray<T>) -> (xs: Intersections<T>)
        requires
            lawful::<T>(),
        ensures
            xs@ == tagged(plane_hits(r), id),
    {
        if within(r.direction.y, epsilon::<T>()) {
            let xs = Intersections::empty();
            assert(xs@ =~= tagged(plane_hits(r), id));
            xs
        } else {
            let t = over(negate(r.origin.y), r.direction.y);
            let xs = Intersections::new(vec![Intersection::new(t, id)]);
            assert(xs@ =~= tagged(plane_hits(r), id));
            xs
        }
    }

    /// Straight up.
    pub open spec fn spec_local_normal() -> Vector<T> {
        Vector { x: number::<T>(0), y: number::<T>(1), z: number::<T>(0) }
    }

    /// Which way the surface faces: up, at every place.
    pub fn local_normal(&self, point: Point<T>) -> (r: Vector<T>)
        requires
            lawful::<T>(),
        ensures
            r == Self::spec_local_normal(),
    {
        Vector { x: number::<T>(0), y: number::<T>(1), z: number::<T>(0) }
    }
}

/// A shape of the scene.
#[derive(Debug, Clone)]
pub enum Shape<T: Scalar> {
    Sphere(Sphere<T>),
    Plane(Plane<T>),
}

impl<T: Scalar> Shape<T> {
    /// The grid that places the shape in the world.
    pub open spec fn forward_grid(&self) -> Seq<Seq<T>> {
        match self {
            Shape::Sphere(s) => s.transform.forward_grid(),
            Shape::Plane(s) => s.transform.forward_grid(),
        }
    }

    /// The grid that brings a place of the world into the shape's frame.
    pub open spec fn inverse_grid(&self) -> Seq<Seq<T>> {
        match self {
            Shape::Sphere(s) => s.transform.inverse_grid(),
            Shape::Plane(s) => s.transform.inverse_grid(),
        }
    }

    /// What the shape is made of.
    pub open spec fn spec_material(&self) -> Material<T> {
        match self {
            Shape::Sphere(s) => s.material,
            Shape::Plane(s) => s.material,
        }
    }

    /// What the shape is made of.
    pub fn material(&self) -> (r: &Material<T>)
        ensures
            *r == self.spec_material(),
    {
        match self {
            Shape::Sphere(s) => &s.material,
            Shape::Plane(s) => &s.material,
        }
    }

    /// The matrix that places the shape in the world.
    pub fn transformation(&self) -> (r: &Matrix<T>)
        ensures
            r@ == self.forward_grid(),
            r.acts_on_space(),
    {
        match self {
            Shape::Sphere(s) => s.transform.forward(),
            Shape::Plane(s) => s.transform.forward(),
        }
    }

    /// The matrix that brings a place of the world into the shape's frame.
    pub fn inverse_transformation(&self) -> (r: &Matrix<T>)
        ensures
            r@ == self.inverse_grid(),
            four_by_four(r@),
            r.acts_on_space(),
            r.wf(),
    {
        match self {
            Shape::Sphere(s) => s.transform.inverse(),
            Shape::Plane(s) => s.transform.inverse(),
        }
    }

    /// The ray parameters at which a ray given in the shape's frame meets it.
    pub open spec fn local_hits<N: Elementary<T>>(&self, n: &N, r: Ray<T>) -> Seq<T> {
        match self {
            Shape::Sphere(_) => sphere_hits(n, r),
            Shape::Plane(_) => plane_hits(r),
        }
    }

    /// Where a ray given in the shape's frame meets it.
    pub fn local_intersect<N: Elementary<T>>(&self, n: &N, id: usize, r: Ray<T>) -> (xs:
        Intersections<T>)
        requires
            lawful::<T>(),
            exact(n),
        ensures
            xs@ == tagged(self.local_hits(n, r), id),
    {
        match self {
            Shape::Sphere(s) => s.local_intersect(n, id, r),
            Shape::Plane(s) => s.local_intersect(id, r),
        }
    }

    /// Which way the surface faces at a place given in the shape's frame.
    pub open spec fn spec_local_normal(&self, point: Point<T>) -> Vector<T> {
        match self {
            Shape::Sphere(_) => Sphere::<T>::spec_local_normal(point),
            Shape::Plane(_) => Plane::<T>::spec_local_normal(),
        }
    }

    /// Which way the surface faces at a place given in the shape's frame.
    pub fn local_normal(&self, point: Point<T>) -> (r: Vector<T>)
        requires
            lawful::<T>(),
        ensures
            r == self.spec_local_normal(point),
    {
        match self {
            Shape::Sphere(s) => s.local_normal(point),
            Shape::Plane(s) => s.local_normal(point),
        }
    }

    /// The meetings of a ray of the world with the shape: those of the ray
    /// brought into the shape's frame.
    pub open spec fn spec_intersect<N: Elementary<T>>(&self, n: &N, id: usize, r: Ray<T>) -> Seq<
        Intersection<T>,
    > {
        tagged(self.local_hits(n, r.moved_by(self.inverse_grid())), id)
    }

    /// Where a ray of the world meets the shape. Each meeting carries `id`
    /// as the name of the shape.
    pub fn intersect<N: Elementary<T>>(&self, n: &N, id: usize, r: Ray<T>) -> (xs: Intersections<T>)
        requires
            lawful::<T>(),
            exact(n),
        ensures
            xs@ == self.spec_intersect(n, id, r),
    {
        self.local_intersect(n, id, r.transform(self.inverse_transformation()))
    }

    /// The surface normal at a place of the world: the place is brought
    /// into the shape's frame, the normal taken there is carried back by
    /// the transpose of the inverse, and the result is scaled to length one.
    pub open spec fn spec_normal<N: Elementary<T>>(&self, n: &N, point: Point<T>) -> Vector<T> {
        let object_normal = self.spec_local_normal(grid_apply_point(self.inverse_grid(), point));
        let world_normal = grid_apply_vector(
            grid_transposed(self.inverse_grid(), 4),
            object_normal,
        );
        world_normal.spec_norm(n)
    }

    /// Which way the surface faces at a place of the world.
    pub fn normal<N: Elementary<T>>(&self, n: &N, point: Point<T>) -> (r: Vector<T>)
        requires
            lawful::<T>(),
            exact(n),
        ensures
            r == self.spec_normal(n, point),
    {
        let inverse = self.inverse_transformation();
        let object_normal = self.local_normal(inverse.apply_point(point));
        let carried = inverse.transpose();
        assert(four_by_four(carried@));
        assert(carried.acts_on_space());
        let world_normal = carried.apply_vector(object_normal);
        world_normal.norm(n)
    }
}

} // verus!
