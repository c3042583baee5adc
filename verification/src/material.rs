//! How a surface answers to light.
use crate::color::Color;
use crate::pattern::Pattern;
use crate::scalar::lawful;
use crate::scalar::number;
use crate::scalar::ratio;
use crate::scalar::Scalar;
use vstd::prelude::*;

verus! {

/// The reflectance of a surface: its own colour or pattern, and how strongly
/// it answers to ambient, diffuse and specular light, mirrors its
/// surroundings, and lets light through.
#[derive(Debug, Clone)]
pub struct Material<T: Scalar> {
    pub color: Color<T>,
    pub ambient: T,
    pub diffuse: T,
    pub specular: T,
    pub shininess: T,
    pub reflective: T,
    pub transparency: T,
    pub refractive_index: T,
    pub pattern: Option<Pattern<T>>,
}

/// A field that a material cannot do without was never set.
#[derive(Debug, Clone, Copy, PartialEq, Eq)]
pub enum BuildError {
    /// The colour was not set.
    MissingColor,
}

impl BuildError {
    /// The message that goes with the failure.
    pub fn message(&self) -> (r: &'static str)
        ensures
            r@ == "color is not set"@,
    {
        "color is not set"
    }
}

impl<T: Scalar> Material<T> {
    pub fn new(
        color: Color<T>,
        ambient: T,
        diffuse: T,
        specular: T,
        shininess: T,
        reflective: T,
        transparency: T,
        refractive_index: T,
        pattern: Option<Pattern<T>>,
    ) -> (r: Self)
        ensures
            r == (Material {
                color,
                ambient,
                diffuse,
                specular,
                shininess,
                reflective,
                transparency,
                refractive_index,
                pattern,
            }),
    {
        Material {
            color,
            ambient,
            diffuse,
            specular,
            shininess,
            reflective,
            transparency,
            refractive_index,
            pattern,
        }
    }

    /// White, ambient 0.1, diffuse 0.9, specular 0.9, shininess 200, no
    /// mirroring, opaque, the refractive index of a vacuum, no pattern.
    pub open spec fn spec_default() -> Self {
        Material {
            color: Color::spec_white(),
            ambient: ratio::<T>(1, 10),
            diffuse: ratio::<T>(9, 10),
            specular: ratio::<T>(9, 10),
            shininess: number::<T>(200),
            reflective: number::<T>(0),
            transparency: number::<T>(0),
            refractive_index: number::<T>(1),
            pattern: None,
        }
    }

    /// The material that a shape has where none is given.
    pub fn default() -> (r: Self)
        requires
            lawful::<T>(),
        ensures
            r == Self::spec_default(),
    {
        Material {
            color: Color::white(),
            ambient: ratio::<T>(1, 10),
            diffuse: ratio::<T>(9, 10),
            specular: ratio::<T>(9, 10),
            shininess: number::<T>(200),
            reflective: number::<T>(0),
            transparency: number::<T>(0),
            refractive_index: number::<T>(1),
            pattern: None,
        }
    }

    /// A builder with nothing set.
    pub fn builder() -> (r: MaterialBuilder<T>)
        ensures
            r == MaterialBuilder::<T>::spec_new(),
    {
        MaterialBuilder::new()
    }

    pub fn color(&self) -> (r: Color<T>)
        ensures
            r == self.color,
    {
        self.color
    }

    pub fn ambient(&self) -> (r: T)
        ensures
            r == self.ambient,
    {
        self.ambient
    }

    pub fn diffuse(&self) -> (r: T)
        ensures
            r == self.diffuse,
    {
        self.diffuse
    }

    pub fn specular(&self) -> (r: T)
        ensures
            r == self.specular,
    {
        self.specular
    }

    pub fn shininess(&self) -> (r: T)
        ensures
            r == self.shininess,
    {
        self.shininess
    }

    pub fn reflective(&self) -> (r: T)
        ensures
            r == self.reflective,
    {
        self.reflective
    }

    pub fn transparency(&self) -> (r: T)
        ensures
            r == self.transparency,
    {
        self.transparency
    }

    pub fn refractive_index(&self) -> (r: T)
        ensures
            r == self.refractive_index,
    {
        self.refractive_index
    }

    pub fn pattern(&self) -> (r: Option<&Pattern<T>>)
        ensures
            r is Some <==> self.pattern is Some,
            r is Some ==> *r->Some_0 == self.pattern->Some_0,
    {
        match &self.pattern {
            Some(p) => Some(p),
            None => None,
        }
    }
}

/// Collects the fields of a material one at a time.
#[derive(Debug, Clone)]
pub struct MaterialBuilder<T: Scalar> {
    pub color: Option<Color<T>>,
    pub ambient: Option<T>,
    pub diffuse: Option<T>,
    pub specular: Option<T>,
    pub shininess: Option<T>,
    pub reflective: Option<T>,
    pub transparency: Option<T>,
    pub refractive_index: Option<T>,
    pub pattern: Option<Pattern<T>>,
}

/// The value that was set, else the fallback.
pub open spec fn spec_or<T>(set: Option<T>, fallback: T) -> T {
    match set {
        Some(v) => v,
        None => fallback,
    }
}

/// The value that was set, else the fallback.
fn or<T: Copy>(set: Option<T>, fallback: T) -> (r: T)
    ensures
        r == spec_or(set, fallback),
{
    match set {
        Some(v) => v,
        None => fallback,
    }
}

impl<T: Scalar> MaterialBuilder<T> {
    /// A builder with nothing set.
    pub open spec fn spec_new() -> Self {
        MaterialBuilder {
            color: None,
            ambient: None,
            diffuse: None,
            specular: None,
            shininess: None,
            reflective: None,
            transparency: None,
            refractive_index: None,
            pattern: None,
        }
    }

    /// A builder with nothing set.
    pub fn new() -> (r: Self)
        ensures
            r == Self::spec_new(),
    {
        MaterialBuilder {
            color: None,
            ambient: None,
            diffuse: None,
            specular: None,
            shininess: None,
            reflective: None,
            transparency: None,
            refractive_index: None,
            pattern: None,
        }
    }

    pub fn color(self, color: Color<T>) -> (r: Self)
        ensures
            r == (MaterialBuilder { color: Some(color), ..self }),
    {
        MaterialBuilder { color: Some(color), ..self }
    }

    pub fn ambient(self, ambient: T) -> (r: Self)
        ensures
            r == (MaterialBuilder { ambient: Some(ambient), ..self }),
    {
        MaterialBuilder { ambient: Some(ambient), ..self }
    }

    pub fn diffuse(self, diffuse: T) -> (r: Self)
        ensures
            r == (MaterialBuilder { diffuse: Some(diffuse), ..self }),
    {
        MaterialBuilder { diffuse: Some(diffuse), ..self }
    }

    pub fn specular(self, specular: T) -> (r: Self)
        ensures
            r == (MaterialBuilder { specular: Some(specular), ..self }),
    {
        MaterialBuilder { specular: Some(specular), ..self }
    }

    pub fn shininess(self, shininess: T) -> (r: Self)
        ensures
            r == (MaterialBuilder { shininess: Some(shininess), ..self }),
    {
        MaterialBuilder { shininess: Some(shininess), ..self }
    }

    pub fn reflective(self, reflective: T) -> (r: Self)
        ensures
            r == (MaterialBuilder { reflective: Some(reflective), ..self }),
    {
        MaterialBuilder { reflective: Some(reflective), ..self }
    }

    pub fn transparency(self, transparency: T) -> (r: Self)
        ensures
            r == (MaterialBuilder { transparency: Some(transparency), ..self }),
    {
        MaterialBuilder { transparency: Some(transparency), ..self }
    }

    pub fn refractive_index(self, refractive_index: T) -> (r: Self)
        ensures
            r == (MaterialBuilder { refractive_index: Some(refractive_index), ..self }),
    {
        MaterialBuilder { refractive_index: Some(refractive_index), ..self }
    }

    pub fn pattern(self, pattern: Pattern<T>) -> (r: Self)
        ensures
            r == (MaterialBuilder { pattern: Some(pattern), ..self }),
    {
        MaterialBuilder { pattern: Some(pattern), ..self }
    }

    /// The material that the builder describes: each field that was set, and
    /// for the others what the default material has.
    pub open spec fn spec_build(self) -> Material<T> {
        let d = Material::<T>::spec_default();
        Material {
            color: self.color->Some_0,
            ambient: spec_or(self.ambient, d.ambient),
            diffuse: spec_or(self.diffuse, d.diffuse),
            specular: spec_or(self.specular, d.specular),
            shininess: spec_or(self.shininess, d.shininess),
            reflective: spec_or(self.reflective, d.reflective),
            transparency: spec_or(self.transparency, d.transparency),
            refractive_index: spec_or(self.refractive_index, d.refractive_index),
            pattern: self.pattern,
        }
    }

    /// Builds the material. The colour must have been set. Every other
    /// field that was not set takes the value of the default material:
    /// ambient 0.1, diffuse 0.9, specular 0.9, shininess 200, reflective 0,
    /// transparency 0, refractive index 1, no pattern.
    pub fn build(self) -> (r: Result<Material<T>, BuildError>)
        requires
            lawful::<T>(),
        ensures
            r is Err <==> self.color is None,
            r is Ok ==> r->Ok_0 == self.spec_build(),
            r is Err ==> r->Err_0 == BuildError::MissingColor,
    {
        match self.color {
            None => Err(BuildError::MissingColor),
            Some(color) => Ok(
                Material {
                    color,
                    ambient: or(self.ambient, ratio::<T>(1, 10)),
                    diffuse: or(self.diffuse, ratio::<T>(9, 10)),
                    specular: or(self.specular, ratio::<T>(9, 10)),
                    shininess: or(self.shininess, number::<T>(200)),
                    reflective: or(self.reflective, number::<T>(0)),
                    transparency: or(self.transparency, number::<T>(0)),
                    refractive_index: or(self.refractive_index, number::<T>(1)),
                    pattern: self.pattern,
                },
            ),
        }
    }
}

} // verus!
