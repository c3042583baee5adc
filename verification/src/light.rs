//! The light of the scene and the shading of a lit place.
use crate::color::Color;
use crate::material::Material;
use crate::numeric::exact;
use crate::numeric::powf_of;
use crate::numeric::Elementary;
use crate::point::Point;
use crate::scalar::at_most;
use crate::scalar::lawful;
use crate::scalar::less;
use crate::scalar::number;
use crate::scalar::Scalar;
use crate::shape::Shape;
use crate::vector::dot;
use crate::vector::Vector;
use core::ops::Add;
use core::ops::Mul;
use core::ops::Neg;
use core::ops::Sub;
use vstd::prelude::*;

verus! {

/// A light that shines from one place in all directions.
#[derive(Clone, Copy, Debug)]
pub struct PointLight<T> {
    pub intensity: Color<T>,
    pub position: Point<T>,
}

impl<T: Scalar> PointLight<T> {
    pub fn new(position: Point<T>, intensity: Color<T>) -> (r: Self)
        ensures
            r == (PointLight { intensity, position }),
    {
        PointLight { intensity, position }
    }

    pub fn intensity(&self) -> (r: Color<T>)
        ensures
            r == self.intensity,
    {
        self.intensity
    }

    pub fn position(&self) -> (r: Point<T>)
        ensures
            r == self.position,
    {
        self.position
    }

    /// Position and intensity both agree within the tolerance.
    pub open spec fn spec_equals(self, other: Self) -> bool {
        self.position.spec_equals(other.position) && self.intensity.spec_equals(other.intensity)
    }

    /// Whether the two lights agree within the tolerance.
    #[verifier::when_used_as_spec(spec_equals)]
    pub fn equals(self, other: Self) -> (r: bool)
        requires
            lawful::<T>(),
        ensures
            r == self.spec_equals(other),
    {
        self.position.equals(other.position) && self.intensity.equals(other.intensity)
    }
}

/// The colour of the surface itself at `point`: that of the material's
/// pattern where it has one, else the material's own.
pub open spec fn surface_color<T: Scalar, N: Elementary<T>>(
    n: &N,
    material: Material<T>,
    object_inverse: Seq<Seq<T>>,
    point: Point<T>,
) -> Color<T> {
    match material.pattern {
        Some(pattern) => pattern.spec_at(n, object_inverse, point),
        None => material.color,
    }
}

/// The Phong shading of a place on a surface.
///
/// The surface colour times the light's intensity is the effective colour.
/// The ambient part is the effective colour times the material's ambient
/// strength. Where the light lies behind the surface, diffuse and specular
/// are black. Else the diffuse part is the effective colour times the
/// diffuse strength times the cosine between light and normal. The specular
/// part is black where the bounced light points away from the eye, else the
/// light's intensity times the specular strength times the cosine between
/// bounced light and eye, raised to the shininess. In shadow only the
/// ambient part is left.
pub open spec fn spec_lighting<T: Scalar, N: Elementary<T>>(
    n: &N,
    material: Material<T>,
    object_inverse: Seq<Seq<T>>,
    light: PointLight<T>,
    point: Point<T>,
    eye_v: Vector<T>,
    normal_v: Vector<T>,
    in_shadow: bool,
) -> Color<T> {
    let color = surface_color(n, material, object_inverse, point);
    let effective_color = color.blended(light.intensity);
    let light_v = light.position.offset_from(point).spec_norm(n);
    let ambient = effective_color.scaled(material.ambient);
    let light_dot_normal = dot(light_v, normal_v);
    let black = Color::<T>::spec_black();
    let diffuse = if less(light_dot_normal, number::<T>(0)) {
        black
    } else {
        effective_color.scaled(material.diffuse).scaled(light_dot_normal)
    };
    let reflect_dot_eye = dot(light_v.negated().spec_reflect(normal_v), eye_v);
    let specular = if less(light_dot_normal, number::<T>(0)) || at_most(
        reflect_dot_eye,
        number::<T>(0),
    ) {
        black
    } else {
        light.intensity.scaled(material.specular).scaled(
            powf_of(n, reflect_dot_eye, material.shininess),
        )
    };
    if in_shadow {
        ambient
    } else {
        ambient.sum(diffuse).sum(specular)
    }
}

/// The colour that the eye sees at `point` on `object`, lit by `light`.
pub fn lighting<T: Scalar, N: Elementary<T>>(
    n: &N,
    material: &Material<T>,
    object: &Shape<T>,
    light: PointLight<T>,
    point: Point<T>,
    eye_v: Vector<T>,
    normal_v: Vector<T>,
    in_shadow: bool,
) -> (r: Color<T>)
    requires
        lawful::<T>(),
        exact(n),
    ensures
        r == spec_lighting(
            n,
            *material,
            object.inverse_grid(),
            light,
            point,
            eye_v,
            normal_v,
            in_shadow,
        ),
{
    let color = match &material.pattern {
        Some(pattern) => pattern.at_shape(n, object, point),
        None => material.color,
    };
    let effective_color = color.mul(light.intensity);
    let light_v = light.position.sub(point).norm(n);
    let ambient = effective_color.mul(material.ambient);
    let light_dot_normal = dot(light_v, normal_v);
    let (diffuse, specular) = if less(light_dot_normal, number::<T>(0)) {
        (Color::black(), Color::black())
    } else {
        let diffuse = effective_color.mul(material.diffuse).mul(light_dot_normal);
        let reflect_v = light_v.neg().reflect(normal_v);
        let reflect_dot_eye = dot(reflect_v, eye_v);
        let specular = if at_most(reflect_dot_eye, number::<T>(0)) {
            Color::black()
        } else {
            let factor = n.powf(reflect_dot_eye, material.shininess);
            light.intensity.mul(material.specular).mul(factor)
        };
        (diffuse, specular)
    };
    if in_shadow {
        ambient
    } else {
        ambient.add(diffuse).add(specular)
    }
}

} // verus!
