//! A recursive ray tracer.
//!
//! A scene of spheres and planes, each with a material and a placement, is
//! lit by one point light and seen through a camera. For every pixel the
//! camera casts a ray; the ray's nearest meeting with a shape is shaded by
//! the Phong model, shadows are found by a second ray towards the light, and
//! mirrored light by a bounded number of further rays.
//!
//! The library is generic over its number type. Arithmetic and comparison
//! come from the standard operator traits (see [`scalar`]), roots, powers,
//! trigonometry and rounding from a provider that the caller hands in (see
//! [`numeric`]). Every function says what it returns as the exact sequence
//! of those operations, under two assumptions that its contract names:
//! the operators of the scalar are total and do what their specifications
//! say (`lawful`), and the provider's functions are functions of their
//! arguments (`exact`). Where the order of the scalar matters, the laws of
//! that order are named too (`ordered`).
pub mod camera;
pub mod canvas;
pub mod color;
pub mod intersection;
pub mod light;
pub mod material;
pub mod matrix;
pub mod numeric;
pub mod pattern;
pub mod perlin;
pub mod point;
pub mod ray;
pub mod scalar;
pub mod shape;
pub mod transform;
pub mod transformation;
pub mod vector;
pub mod world;
