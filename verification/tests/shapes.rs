#![allow(unused_imports, dead_code)]
use ray_tracer::camera::Camera;
use ray_tracer::canvas::Canvas;
use ray_tracer::color::Color;
use ray_tracer::intersection::Intersection;
use ray_tracer::intersection::Intersections;
use ray_tracer::intersection::PrecomputedData;
use ray_tracer::light::lighting;
use ray_tracer::light::PointLight;
use ray_tracer::material::BuildError;
use ray_tracer::material::Material;
use ray_tracer::material::MaterialBuilder;
use ray_tracer::matrix::Matrix;
use ray_tracer::numeric::Elementary;
use ray_tracer::pattern::CheckeredPattern;
use ray_tracer::pattern::GraidentPattern;
use ray_tracer::pattern::Pattern;
use ray_tracer::pattern::PerlinPattern;
use ray_tracer::pattern::RingPattern;
use ray_tracer::pattern::StripePattern;
use ray_tracer::point::Point;
use ray_tracer::ray::Ray;
use ray_tracer::shape::Plane;
use ray_tracer::shape::Shape;
use ray_tracer::shape::Sphere;
use ray_tracer::transformation::rotation_x;
use ray_tracer::transformation::rotation_y;
use ray_tracer::transformation::rotation_z;
use ray_tracer::transformation::scaling;
use ray_tracer::transformation::shearing;
use ray_tracer::transformation::translation;
use ray_tracer::transformation::view_transformation;
use ray_tracer::vector::cross;
use ray_tracer::vector::dot;
use ray_tracer::vector::Vector;
use ray_tracer::world::World;
use std::f64::consts::FRAC_1_SQRT_2;
use std::f64::consts::PI;
use std::f64::consts::SQRT_2;

const EPSILON: f64 = 0.00001;

struct Std;

impl Elementary<f64> for Std {
    fn sqrt(&self, x: f64) -> f64 {
        x.sqrt()
    }
    fn powf(&self, base: f64, exponent: f64) -> f64 {
        base.powf(exponent)
    }
    fn sin(&self, x: f64) -> f64 {
        x.sin()
    }
    fn cos(&self, x: f64) -> f64 {
        x.cos()
    }
    fn tan(&self, x: f64) -> f64 {
        x.tan()
    }
    fn floor(&self, x: f64) -> f64 {
        x.floor()
    }
    fn fract(&self, x: f64) -> f64 {
        x.fract()
    }
    fn round(&self, x: f64) -> f64 {
        x.round()
    }
    fn to_index(&self, x: f64) -> usize {
        x as usize
    }
}

fn close(a: f64, b: f64) -> bool {
    (a - b).abs() < EPSILON
}

fn p(x: f64, y: f64, z: f64) -> Point<f64> {
    Point::new(x, y, z)
}

fn v(x: f64, y: f64, z: f64) -> Vector<f64> {
    Vector::new(x, y, z)
}

fn c(red: f64, green: f64, blue: f64) -> Color<f64> {
    Color::new(red, green, blue)
}

fn xyz(a: Vector<f64>) -> (f64, f64, f64) {
    (a.x(), a.y(), a.z())
}

fn same_vector(a: Vector<f64>, b: Vector<f64>) -> bool {
    close(a.x(), b.x()) && close(a.y(), b.y()) && close(a.z(), b.z())
}

fn text(bytes: Vec<u8>) -> String {
    String::from_utf8(bytes).unwrap()
}

fn same_material(a: &Material<f64>, b: &Material<f64>) -> bool {
    a.color.equals(b.color)
        && a.ambient == b.ambient
        && a.diffuse == b.diffuse
        && a.specular == b.specular
        && a.shininess == b.shininess
        && a.reflective == b.reflective
        && a.transparency == b.transparency
        && a.refractive_index == b.refractive_index
        && a.pattern.is_none() == b.pattern.is_none()
}

fn same_shape(a: &Shape<f64>, b: &Shape<f64>) -> bool {
    let same_kind = match (a, b) {
        (Shape::Sphere(_), Shape::Sphere(_)) => true,
        (Shape::Plane(_), Shape::Plane(_)) => true,
        _ => false,
    };
    same_kind
        && a.transformation().equals(b.transformation())
        && same_material(a.material(), b.material())
}

fn holds(shapes: &Vec<Shape<f64>>, wanted: &Shape<f64>) -> bool {
    shapes.iter().any(|s| same_shape(s, wanted))
}

fn sphere(transform: Option<Matrix<f64>>, material: Option<Material<f64>>) -> Shape<f64> {
    Shape::Sphere(Sphere::new(transform, material))
}

fn plane(transform: Option<Matrix<f64>>, material: Option<Material<f64>>) -> Shape<f64> {
    Shape::Plane(Plane::new(transform, material))
}

fn default_world() -> World<f64> {
    World::default()
}

fn alone(i: Intersection<f64>) -> Intersections<f64> {
    Intersections::new(vec![i])
}

#[test]
fn material_test_new() {
    // default material
    let m = Material::<f64>::default();
    assert!(m.color.equals(c(1., 1., 1.)));
    assert_eq!(m.ambient, 0.1);
    assert_eq!(m.diffuse, 0.9);
    assert_eq!(m.specular, 0.9);
    assert_eq!(m.shininess, 200.0);
}

#[test]
fn material_test_builder() {
    let m = Material::builder()
        .ambient(0.5)
        .diffuse(1.0)
        .color(c(1., 1., 1.))
        .specular(0.5)
        .shininess(200.0)
        .reflective(0.0)
        .transparency(0.0)
        .refractive_index(1.0)
        .build()
        .unwrap();

    assert!(same_material(
        &m,
        &Material::new(c(1., 1., 1.), 0.5, 1.0, 0.5, 200.0, 0., 0.0, 1.0, None)
    ))
    // should apply defaults for unset values
}

#[test]
fn builder_fills_in_what_was_not_set() {
    let m = MaterialBuilder::new()
        .ambient(0.5)
        .diffuse(1.0)
        .color(c(1., 1., 1.))
        .specular(0.5)
        .build()
        .unwrap();

    assert!(same_material(
        &m,
        &Material::new(c(1., 1., 1.), 0.5, 1.0, 0.5, 200.0, 0.0, 0.0, 1.0, None)
    ));

    let only_color = MaterialBuilder::new().color(c(0.2, 0.3, 0.4)).build().unwrap();
    assert!(only_color.color.equals(c(0.2, 0.3, 0.4)));
    assert_eq!(only_color.ambient, 0.1);
    assert_eq!(only_color.diffuse, 0.9);
    assert_eq!(only_color.specular, 0.9);
    assert_eq!(only_color.shininess, 200.0);
    assert_eq!(only_color.reflective, 0.0);
    assert_eq!(only_color.transparency, 0.0);
    assert_eq!(only_color.refractive_index, 1.0);
    assert!(only_color.pattern.is_none());
}

#[test]
fn builder_without_color_fails() {
    let failed = MaterialBuilder::<f64>::new().ambient(1.).build();
    assert_eq!(failed.as_ref().err(), Some(&BuildError::MissingColor));
    assert_eq!(failed.unwrap_err().message(), "color is not set");
}

#[test]
fn material_test_reflective() {
    let m = Material::<f64>::default();
    assert_eq!(0.0, m.reflective);
}

#[test]
fn material_getters() {
    let stripes = Pattern::Stripe(StripePattern::new(c(1., 1., 1.), c(0., 0., 0.), None));
    let m = Material::new(c(0.1, 0.2, 0.3), 0.4, 0.5, 0.6, 7.0, 0.8, 0.9, 1.5, Some(stripes));
    assert!(m.color().equals(c(0.1, 0.2, 0.3)));
    assert_eq!(m.ambient(), 0.4);
    assert_eq!(m.diffuse(), 0.5);
    assert_eq!(m.specular(), 0.6);
    assert_eq!(m.shininess(), 7.0);
    assert_eq!(m.reflective(), 0.8);
    assert_eq!(m.transparency(), 0.9);
    assert_eq!(m.refractive_index(), 1.5);
    assert!(m.pattern().is_some());
    assert!(Material::<f64>::default().pattern().is_none());
}

#[test]
fn striped_test_stripe_new() {
    let pattern = StripePattern::new(Color::white(), Color::black(), None);

    assert!(pattern.a.equals(Color::new(1., 1., 1.)));
    assert!(pattern.b.equals(Color::new(0., 0., 0.)));
}

#[test]
fn patterns_test_stripe_new() {
    let pattern = StripePattern::new(Color::white(), Color::black(), None);

    assert!(pattern.a().equals(Color::new(1., 1., 1.)));
    assert!(pattern.b().equals(Color::new(0., 0., 0.)));
}

#[test]
fn stripe_color_at() {
    let pattern = StripePattern::new(Color::white(), Color::black(), None);
    let white = Color::white();
    let black = Color::black();

    // pattern is constant in y.
    assert!(pattern.local_color_at(&Std, p(0., 0., 0.)).equals(white));
    assert!(pattern.local_color_at(&Std, p(0., 1., 0.)).equals(white));
    assert!(pattern.local_color_at(&Std, p(0., 2., 0.)).equals(white));

    // pattern is constant in z.
    assert!(pattern.local_color_at(&Std, p(0., 0., 0.)).equals(white));
    assert!(pattern.local_color_at(&Std, p(0., 0., 1.)).equals(white));
    assert!(pattern.local_color_at(&Std, p(0., 0., 2.)).equals(white));

    // pattern alternates in x.
    assert!(pattern.local_color_at(&Std, p(0., 0., 0.)).equals(white));
    assert!(pattern.local_color_at(&Std, p(0.9, 0., 0.)).equals(white));
    assert!(pattern.local_color_at(&Std, p(1., 0., 0.)).equals(black));
    assert!(pattern.local_color_at(&Std, p(-0.1, 0., 0.)).equals(black));
    assert!(pattern.local_color_at(&Std, p(-1., 0., 0.)).equals(black));
    assert!(pattern.local_color_at(&Std, p(-1.1, 0., 0.)).equals(white));
}

#[test]
fn stripe_at_object() {
    // with object transform
    let pattern = Pattern::Stripe(StripePattern::new(Color::white(), Color::black(), None));
    let mut o = Sphere::default();
    o.set_transform(scaling(2., 2., 2.));

    let got = pattern.at_shape(&Std, &Shape::Sphere(o), p(1.5, 0., 0.));

    assert!(Color::white().equals(got));

    // with pattern transform
    let mut stripes = StripePattern::new(Color::white(), Color::black(), None);
    stripes.set_transformation(scaling(2., 2., 2.));
    let o = Shape::Sphere(Sphere::default());

    let got = Pattern::Stripe(stripes.clone()).at_shape(&Std, &o, p(1.5, 0., 0.));

    assert!(Color::white().equals(got));

    // pattern and object transform
    stripes.set_transformation(translation(0.5, 0., 0.));
    let mut o = Sphere::default();
    o.set_transform(scaling(2., 2., 2.));

    let got = Pattern::Stripe(stripes).at_shape(&Std, &Shape::Sphere(o), p(2.5, 0., 0.));

    assert!(Color::white().equals(got));
}

#[test]
fn gradient_test_color_at() {
    let g = GraidentPattern::new(Color::white(), Color::black(), None);

    assert!(Color::white().equals(g.local_color_at(&Std, p(0., 0., 0.))));
    assert!(c(0.75, 0.75, 0.75).equals(g.local_color_at(&Std, p(0.25, 0., 0.))));
    assert!(c(0.5, 0.5, 0.5).equals(g.local_color_at(&Std, p(0.5, 0., 0.))));
    assert!(c(0.25, 0.25, 0.25).equals(g.local_color_at(&Std, p(0.75, 0., 0.))));
}

#[test]
fn test_ring_pattern() {
    let r = RingPattern::new(Color::white(), Color::black(), None);
    assert!(Color::white().equals(r.local_color_at(&Std, p(0., 0., 0.))));
    assert!(Color::black().equals(r.local_color_at(&Std, p(1.0, 0., 0.))));
    assert!(Color::black().equals(r.local_color_at(&Std, p(0., 0., 1.))));
    assert!(Color::black().equals(r.local_color_at(&Std, p(0.708, 0., 0.708))));
}

#[test]
fn test_checkered() {
    let k = CheckeredPattern::new(Color::white(), Color::black(), None);

    // should repeat in x
    assert!(Color::white().equals(k.local_color_at(&Std, p(0., 0., 0.))));
    assert!(Color::white().equals(k.local_color_at(&Std, p(0.99, 0., 0.))));
    assert!(Color::black().equals(k.local_color_at(&Std, p(1.01, 0., 0.))));
    // should repeat in y
    assert!(Color::white().equals(k.local_color_at(&Std, p(0., 0., 0.))));
    assert!(Color::white().equals(k.local_color_at(&Std, p(0., 0.99, 0.))));
    assert!(Color::black().equals(k.local_color_at(&Std, p(0., 1.01, 0.))));
    // should repeat in z
    assert!(Color::white().equals(k.local_color_at(&Std, p(0., 0., 0.))));
    assert!(Color::white().equals(k.local_color_at(&Std, p(0., 0., 0.99))));
    assert!(Color::black().equals(k.local_color_at(&Std, p(0., 0., 1.01))));
}

#[test]
fn test_default_pattern_transformation() {
    let s = StripePattern::<f64>::new(Color::white(), Color::black(), None);
    assert!(s.transform.forward().equals(&Matrix::identity_matrix()));
    assert!(s.inverse_transformation().equals(&Matrix::identity_matrix()));
}

#[test]
fn test_assign_transform() {
    let mut s = StripePattern::new(Color::white(), Color::black(), None);
    s.set_transformation(translation(1., 2., 3.));
    assert!(translation(1., 2., 3.).equals(s.transform.forward()));
    assert!(translation(-1., -2., -3.).equals(s.inverse_transformation()));
}

#[test]
fn test_at_shape() {
    // The colour of the place in the pattern's frame, as a pattern that
    // shows its own coordinates would give it.
    fn shown(q: Point<f64>) -> Color<f64> {
        Color::new(q.x(), q.y(), q.z())
    }

    // pattern with an object transform.
    let mut s = Sphere::default();
    s.set_transform(scaling(2., 2., 2.));
    let k = Pattern::Stripe(StripePattern::new(Color::white(), Color::black(), None));

    let got = shown(k.pattern_point(&Shape::Sphere(s), p(2., 3., 4.)));

    assert!(c(1., 1.5, 2.).equals(got));

    // pattern with a pattern transform.
    let s = Sphere::default();
    let mut stripes = StripePattern::new(Color::white(), Color::black(), None);
    stripes.set_transformation(scaling(2., 2., 2.));

    let got = shown(Pattern::Stripe(stripes).pattern_point(&Shape::Sphere(s), p(2., 3., 4.)));

    assert!(c(1., 1.5, 2.).equals(got));

    // pattern with an object and pattern transform.
    let mut s = Sphere::default();
    s.set_transform(scaling(2., 2., 2.));
    let mut stripes = StripePattern::new(Color::white(), Color::black(), None);
    stripes.set_transformation(translation(0.5, 1., 1.5));

    let got = shown(Pattern::Stripe(stripes).pattern_point(&Shape::Sphere(s), p(2.5, 3., 3.5)));

    assert!(c(0.75, 0.5, 0.25).equals(got));
}

#[test]
fn perlin_pattern_stays_close_to_the_wrapped_pattern() {
    let inner = Pattern::Gradient(GraidentPattern::new(Color::white(), Color::black(), None));
    let noisy = Pattern::Perlin(PerlinPattern::new(inner.clone(), None, None));
    let at = p(0.5, 0.25, 0.75);
    let plain = inner.local_color_at(&Std, at);
    let nudged = noisy.local_color_at(&Std, at);
    // the place moves by at most a hundredth, so the blend moves by as much
    assert!((plain.red() - nudged.red()).abs() <= 0.0100001);
    assert!(plain.red() != nudged.red());
    let again = noisy.clone().local_color_at(&Std, at);
    assert_eq!(nudged.red(), again.red());
}

#[test]
fn sphere_test_hits_two_intersections() {
    let r = Ray::new(p(0.0, 0.0, -5.0), v(0.0, 0.0, 1.0));
    let s = Shape::Sphere(Sphere::default());
    let xs = s.intersect(&Std, 0, r);

    assert_eq!(xs.len(), 2);
    assert!(close(xs.get(0).t(), 4.0));
    assert!(close(xs.get(1).t(), 6.0));
}

#[test]
fn sphere_test_hits_tangent() {
    let r = Ray::new(p(0.0, 1.0, -5.0), v(0.0, 0.0, 1.0));
    let s = Shape::Sphere(Sphere::default());
    let xs = s.intersect(&Std, 0, r);

    assert_eq!(xs.len(), 2);
    assert!(close(xs.get(0).t(), 5.0));
    assert!(close(xs.get(1).t(), 5.0));
}

#[test]
fn sphere_test_hits_misses() {
    let r = Ray::new(p(0.0, 2.0, -5.0), v(0.0, 0.0, 1.0));
    let s = Shape::Sphere(Sphere::default());
    let xs = s.intersect(&Std, 0, r);

    assert_eq!(xs.len(), 0)
}

#[test]
fn sphere_test_hits_ray_inside_sphere() {
    let r = Ray::new(p(0.0, 0.0, 0.0), v(0.0, 0.0, 1.0));
    let s = Shape::Sphere(Sphere::default());
    let xs = s.intersect(&Std, 0, r);

    assert_eq!(xs.len(), 2);
    assert!(close(xs.get(0).t(), -1.0));
    assert!(close(xs.get(1).t(), 1.0));
}

#[test]
fn sphere_test_hits_sphere_behind_ray() {
    let r = Ray::new(p(0.0, 0.0, 5.0), v(0.0, 0.0, 1.0));
    let s = Shape::Sphere(Sphere::default());
    let xs = s.intersect(&Std, 0, r);

    assert_eq!(xs.len(), 2);
    assert!(close(xs.get(0).t(), -6.0));
    assert!(close(xs.get(1).t(), -4.0));
}

#[test]
fn intersections_carry_the_name_of_the_shape() {
    let r = Ray::new(p(0.0, 0.0, -5.0), v(0.0, 0.0, 1.0));
    let s = Shape::Sphere(Sphere::default());
    let xs = s.intersect(&Std, 7, r);
    assert_eq!(xs.get(0).object(), 7);
    assert_eq!(xs.get(1).object(), 7);
}

#[test]
fn sphere_test_sphere_set_transform() {
    // default transform is identity
    let mut s = Sphere::<f64>::default();
    assert!(Matrix::identity_matrix().equals(s.transform.forward()));

    // changing the transform
    let t = translation(2., 3., 4.);
    s.set_transform(t.clone());
    assert!(t.equals(s.transform.forward()));
    assert!(translation(-2., -3., -4.).equals(s.transform.inverse()));
}

#[test]
fn sphere_test_tranform_intersects() {
    let r = Ray::new(p(0., 0., -5.), v(0., 0., 1.));
    let t = scaling(2., 2., 2.);
    let s = sphere(Some(t), None);

    let xs = s.intersect(&Std, 0, r);

    assert_eq!(2, xs.len());
    assert_eq!(3., xs.get(0).t());
    assert_eq!(7., xs.get(1).t());

    let r = Ray::new(p(0., 0., -5.), v(0., 0., 1.));
    let t = translation(5., 0., 0.);
    let s = sphere(Some(t), None);

    let xs = s.intersect(&Std, 0, r);

    assert_eq!(0, xs.len());
}

#[test]
fn sphere_test_normals() {
    let s = Shape::Sphere(Sphere::default());

    let n = s.normal(&Std, p(1., 0., 0.));
    assert!(v(1., 0., 0.).equals(n));

    let n = s.normal(&Std, p(0., 1., 0.));
    assert!(v(0., 1., 0.).equals(n));

    let n = s.normal(&Std, p(0., 0., 1.));
    assert!(v(0., 0., 1.).equals(n));

    let sqrt = 3.0_f64.sqrt() / 3.0;

    let n = s.normal(&Std, p(sqrt, sqrt, sqrt));
    assert!(v(sqrt, sqrt, sqrt).equals(n));

    assert!(n.equals(n.norm(&Std)))
}

#[test]
fn sphere_test_normal_of_transformed_sphere() {
    let mut s = Sphere::default();
    s.set_transform(translation(0., 1., 0.));
    let n = Shape::Sphere(s).normal(&Std, p(0., 1.70711, -FRAC_1_SQRT_2));
    assert!(v(0., FRAC_1_SQRT_2, -FRAC_1_SQRT_2).equals(n));

    let mut s = Sphere::default();
    s.set_transform(scaling(1., 0.5, 1.).product(&rotation_z(&Std, PI / 5.0)));
    let sqrt = 2.0_f64.sqrt() / 2.0;
    let n = Shape::Sphere(s).normal(&Std, p(0., sqrt, -sqrt));
    assert!(v(0., 0.97014, -0.24254).equals(n))
}

#[test]
fn sphere_test_sphere_materials() {
    let s = Sphere::<f64>::default();
    let m = s.material;
    assert!(same_material(&Material::default(), &m));

    let m = Material::<f64>::default();
    let s = Sphere::new(None, Some(m.clone()));
    assert!(same_material(&m, &s.material));

    let mut s = Sphere::<f64>::default();
    let shiny = Material::builder().color(c(1., 0., 0.)).shininess(50.0).build().unwrap();
    s.set_material(shiny.clone());
    assert!(same_material(&shiny, &s.material));
}

#[test]
fn plane_test_normal() {
    let q = Shape::Plane(Plane::default());
    let n1 = q.normal(&Std, p(0., 0., 0.));
    let n2 = q.normal(&Std, p(10., 0., -10.));
    let n3 = q.normal(&Std, p(-5., 0., 150.));

    let want = v(0., 1., 0.);

    assert!(want.equals(n1));
    assert!(want.equals(n2));
    assert!(want.equals(n3));
}

#[test]
fn test_intersects() {
    let q = Plane::<f64>::default();

    // ray is parallel to the plane
    let r = Ray::new(p(0., 10., 0.), v(0., 0., 1.));
    let xs = q.local_intersect(0, r);
    assert!(xs.len() == 0);

    // ray is coplanar (every point in ray is on the plane)
    let r = Ray::new(p(0., 0., 0.), v(0., 0., 1.));
    let xs = q.local_intersect(0, r);
    assert!(xs.len() == 0);

    // ray is above plane
    let r = Ray::new(p(0., 1., 0.), v(0., -1., 0.));
    let xs = q.local_intersect(0, r);
    println!("{:?}", xs);
    assert!(xs.len() == 1);
    assert_eq!(xs.get(0).t(), 1.0);

    // ray is below plane
    let r = Ray::new(p(0., -1., 0.), v(0., 1., 0.));
    let xs = q.local_intersect(0, r);
    assert!(xs.len() == 1);
    assert_eq!(xs.get(0).t(), 1.0);
}

#[test]
fn mod_test_transformation() {
    let s = sphere(None, None);
    assert!(s.transformation().equals(&Matrix::identity_matrix()));

    let transform = translation(2., 3., 4.);
    let s = sphere(Some(transform.clone()), None);
    assert!(s.transformation().equals(&transform));
    assert!(s.inverse_transformation().equals(&translation(-2., -3., -4.)));
}

#[test]
fn mod_test_normal() {
    let t = translation(0., 1., 0.);
    let s = sphere(Some(t), None);
    let n = s.normal(&Std, p(0., 1. + FRAC_1_SQRT_2, -FRAC_1_SQRT_2));

    assert!(v(0., FRAC_1_SQRT_2, -FRAC_1_SQRT_2).equals(n));

    let t = scaling(1., 0.5, 1.);
    let s = sphere(Some(t), None);
    let sqrt_2 = 2.0_f64.sqrt() / 2.;
    let n = s.normal(&Std, p(0., sqrt_2, -sqrt_2));

    assert!(v(0., 0.97014, -0.24254).equals(n));
}

#[test]
fn shape_material_and_intersect_in_its_frame() {
    let s = sphere(None, None);
    assert!(same_material(s.material(), &Material::default()));

    let m = Material::builder().color(c(1., 1., 1.)).ambient(1.).build().unwrap();
    let s = plane(None, Some(m.clone()));
    assert!(same_material(s.material(), &m));

    // a ray is brought into the frame of the shape before it is met
    let s = sphere(Some(scaling(2., 2., 2.)), None);
    let r = Ray::new(p(0., 0., -5.), v(0., 0., 1.));
    let local = r.transform(s.inverse_transformation());
    assert!(local.origin().equals(p(0., 0., -2.5)));
    assert!(local.direction().equals(v(0., 0., 0.5)));
    let xs = s.local_intersect(&Std, 0, local);
    assert_eq!(xs.len(), 2);
    assert_eq!(xs.get(0).t(), 3.0);
}
