#![allow(unused_imports, dead_code)]
use ray_tracer::camera::Camera;
use ray_tracer::canvas::Canvas;
use ray_tracer::color::Color;
use ray_tracer::intersection::Intersection;
use ray_tracer::intersection::Intersections;
use ray_tracer::intersection::PrecomputedData;
use ray_tracer::light::lighting;
use ray_tracer::light::PointLight;
use ray_tracer::material::BuildError;
use ray_tracer::material::Material;
use ray_tracer::material::MaterialBuilder;
use ray_tracer::matrix::Matrix;
use ray_tracer::numeric::Elementary;
use ray_tracer::pattern::CheckeredPattern;
use ray_tracer::pattern::GraidentPattern;
use ray_tracer::pattern::Pattern;
use ray_tracer::pattern::PerlinPattern;
use ray_tracer::pattern::RingPattern;
use ray_tracer::pattern::StripePattern;
use ray_tracer::point::Point;
use ray_tracer::ray::Ray;
use ray_tracer::shape::Plane;
use ray_tracer::shape::Shape;
use ray_tracer::shape::Sphere;
use ray_tracer::transformation::rotation_x;
use ray_tracer::transformation::rotation_y;
use ray_tracer::transformation::rotation_z;
use ray_tracer::transformation::scaling;
use ray_tracer::transformation::shearing;
use ray_tracer::transformation::translation;
use ray_tracer::transformation::view_transformation;
use ray_tracer::vector::cross;
use ray_tracer::vector::dot;
use ray_tracer::vector::Vector;
use ray_tracer::world::World;
use std::f64::consts::FRAC_1_SQRT_2;
use std::f64::consts::PI;
use std::f64::consts::SQRT_2;

const EPSILON: f64 = 0.00001;

struct Std;

impl Elementary<f64> for Std {
    fn sqrt(&self, x: f64) -> f64 {
        x.sqrt()
    }
    fn powf(&self, base: f64, exponent: f64) -> f64 {
        base.powf(exponent)
    }
    fn sin(&self, x: f64) -> f64 {
        x.sin()
    }
    fn cos(&self, x: f64) -> f64 {
        x.cos()
    }
    fn tan(&self, x: f64) -> f64 {
        x.tan()
    }
    fn floor(&self, x: f64) -> f64 {
        x.floor()
    }
    fn fract(&self, x: f64) -> f64 {
        x.fract()
    }
    fn round(&self, x: f64) -> f64 {
        x.round()
    }
    fn to_index(&self, x: f64) -> usize {
        x as usize
    }
}

fn close(a: f64, b: f64) -> bool {
    (a - b).abs() < EPSILON
}

fn p(x: f64, y: f64, z: f64) -> Point<f64> {
    Point::new(x, y, z)
}

fn v(x: f64, y: f64, z: f64) -> Vector<f64> {
    Vector::new(x, y, z)
}

fn c(red: f64, green: f64, blue: f64) -> Color<f64> {
    Color::new(red, green, blue)
}

fn xyz(a: Vector<f64>) -> (f64, f64, f64) {
    (a.x(), a.y(), a.z())
}

fn same_vector(a: Vector<f64>, b: Vector<f64>) -> bool {
    close(a.x(), b.x()) && close(a.y(), b.y()) && close(a.z(), b.z())
}

fn text(bytes: Vec<u8>) -> String {
    String::from_utf8(bytes).unwrap()
}

fn same_material(a: &Material<f64>, b: &Material<f64>) -> bool {
    a.color.equals(b.color)
        && a.ambient == b.ambient
        && a.diffuse == b.diffuse
        && a.specular == b.specular
        && a.shininess == b.shininess
        && a.reflective == b.reflective
        && a.transparency == b.transparency
        && a.refractive_index == b.refractive_index
        && a.pattern.is_none() == b.pattern.is_none()
}

fn same_shape(a: &Shape<f64>, b: &Shape<f64>) -> bool {
    let same_kind = match (a, b) {
        (Shape::Sphere(_), Shape::Sphere(_)) => true,
        (Shape::Plane(_), Shape::Plane(_)) => true,
        _ => false,
    };
    same_kind
        && a.transformation().equals(b.transformation())
        && same_material(a.material(), b.material())
}

fn holds(shapes: &Vec<Shape<f64>>, wanted: &Shape<f64>) -> bool {
    shapes.iter().any(|s| same_shape(s, wanted))
}

fn sphere(transform: Option<Matrix<f64>>, material: Option<Material<f64>>) -> Shape<f64> {
    Shape::Sphere(Sphere::new(transform, material))
}

fn plane(transform: Option<Matrix<f64>>, material: Option<Material<f64>>) -> Shape<f64> {
    Shape::Plane(Plane::new(transform, material))
}

fn default_world() -> World<f64> {
    World::default()
}

fn alone(i: Intersection<f64>) -> Intersections<f64> {
    Intersections::new(vec![i])
}

#[test]
fn intersection_test_new_intersection() {
    let i = Intersection::new(3.5, 0);

    assert!(close(i.t(), 3.5));
    assert_eq!(i.object(), 0)
}

#[test]
fn hittable_test_new_intersection() {
    let w = World::new(vec![sphere(None, None)], None, 0);
    let i = Intersection::new(3.5, 0);

    assert!(close(i.t(), 3.5));
    assert!(same_shape(&w.objects()[i.object()], &sphere(None, None)))
}

#[test]
fn intersection_test_intersections() {
    let i_1 = Intersection::new(1.0, 0);
    let i_2 = Intersection::new(2.0, 0);
    let xs = Intersections::new(vec![i_1, i_2]);

    assert_eq!(xs.len(), 2);
    assert!(close(xs.get(0).t, 1.0));
    assert!(close(xs.get(1).t, 2.0));
}

#[test]
fn intersection_test_hit() {
    let i_1 = Intersection::new(1., 0);
    let i_2 = Intersection::new(2., 0);
    let mut xs = Intersections::new(vec![i_2, i_1.clone()]);
    let hit = xs.hit().unwrap();
    assert_eq!(hit, i_1);

    let i_1 = Intersection::new(-1., 0);
    let i_2 = Intersection::new(1., 0);
    let mut xs = Intersections::new(vec![i_1, i_2.clone()]);
    let hit = xs.hit().unwrap();
    assert_eq!(hit, i_2);

    let i_1 = Intersection::new(-1., 0);
    let i_2 = Intersection::new(-2., 0);
    let mut xs = Intersections::new(vec![i_1, i_2]);
    let hit = xs.hit();
    assert_eq!(hit, None);

    let i_1 = Intersection::new(5., 0);
    let i_2 = Intersection::new(7., 0);
    let i_3 = Intersection::new(-3., 0);
    let i_4 = Intersection::new(2., 0);
    let mut xs = Intersections::new(vec![i_1, i_2, i_3, i_4.clone()]);
    let hit = xs.hit().unwrap();
    assert_eq!(hit, i_4);
}

#[test]
fn hit_leaves_the_collection_in_rising_order() {
    let mut xs = Intersections::new(vec![
        Intersection::new(5., 0),
        Intersection::new(7., 1),
        Intersection::new(-3., 2),
        Intersection::new(2., 3),
    ]);
    let hit = xs.hit().unwrap();
    assert_eq!(hit, Intersection::new(2., 3));
    let order: Vec<usize> = (0..xs.len()).map(|k| xs.get(k).object()).collect();
    assert_eq!(order, vec![2, 3, 0, 1]);
}

#[test]
fn a_meeting_at_zero_is_a_hit() {
    let mut xs = Intersections::new(vec![Intersection::new(3., 0), Intersection::new(0., 1)]);
    assert_eq!(xs.hit(), Some(Intersection::new(0., 1)));
    let mut none = Intersections::<f64>::empty();
    assert_eq!(none.hit(), None);
}

#[test]
fn extend_sorts_and_keeps_level_meetings_in_order() {
    let mut xs = Intersections::new(vec![Intersection::new(4., 0), Intersection::new(6., 0)]);
    xs.extend(Intersections::new(vec![Intersection::new(5., 1), Intersection::new(4., 1)]));
    let line: Vec<(f64, usize)> = (0..xs.len()).map(|k| (xs.get(k).t(), xs.get(k).object())).collect();
    assert_eq!(line, vec![(4., 0), (4., 1), (5., 1), (6., 0)]);

    xs.insert(Intersection::new(4.5, 2));
    assert_eq!(xs.get(2), Intersection::new(4.5, 2));
    assert_eq!(xs.len(), 5);

    let mut mixed = Intersections::new(vec![
        Intersection::new(3., 0),
        Intersection::new(1., 1),
        Intersection::new(2., 2),
    ]);
    mixed.sort();
    let ts: Vec<f64> = (0..mixed.len()).map(|k| mixed.get(k).t()).collect();
    assert_eq!(ts, vec![1., 2., 3.]);
}

#[test]
fn same_meeting_needs_same_parameter_and_shape() {
    let a = Intersection::new(1.5, 2);
    assert!(a.matches(&Intersection::new(1.5, 2)));
    assert!(!a.matches(&Intersection::new(1.5, 3)));
    assert!(!a.matches(&Intersection::new(1.25, 2)));
}

#[test]
fn intersection_test_pre_compute() {
    // ray outside the object
    let r = Ray::new(p(0., 0., -5.), v(0., 0., 1.));
    let shapes = vec![sphere(None, None)];
    let i = Intersection::new(4., 0);

    let comps = i.prepare_computations(&Std, r, &alone(i), &shapes);

    assert_eq!(i.t(), comps.t);
    assert_eq!(comps.object, i.object());
    assert!(!comps.inside);
    assert!(p(0., 0., -1.).equals(comps.point));
    assert!(v(0., 0., -1.).equals(comps.eye_v));
    assert!(v(0., 0., -1.).equals(comps.normal_v));

    // ray inside the object
    let r = Ray::new(p(0., 0., 0.), v(0., 0., 1.));
    let i = Intersection::new(1., 0);

    let comps = i.prepare_computations(&Std, r, &alone(i), &shapes);

    assert_eq!(i.t(), comps.t);
    assert_eq!(comps.object, i.object());
    assert!(p(0., 0., 1.).equals(comps.point));
    assert!(v(0., 0., -1.).equals(comps.eye_v));
    assert!(comps.inside);
    // normal would be (0, 0, -1) but has been inverted
    assert!(v(0., 0., -1.).equals(comps.normal_v));

    // the hit should offset the point
    let r = Ray::new(p(0., 0., -5.), v(0., 0., 1.));
    let mut s = Sphere::default();
    s.set_transform(translation(0., 0., 1.));
    let shapes = vec![Shape::Sphere(s)];
    let i = Intersection::new(5., 0);
    let comps = i.prepare_computations(&Std, r, &alone(i), &shapes);

    assert!(comps.over_point.z() < -EPSILON / 2.);
    assert!(comps.point.z() > comps.over_point.z())
}

#[test]
fn intersection_test_reflective() {
    let shapes = vec![plane(None, None)];
    let r = Ray::new(
        p(0., 1., -1.),
        v(0., -FRAC_1_SQRT_2 * 2.0, FRAC_1_SQRT_2 * 2.0),
    );
    let i = Intersection::new(SQRT_2, 0);
    let comps = i.prepare_computations(&Std, r, &alone(i), &shapes);

    assert!(v(0., FRAC_1_SQRT_2 * 2., FRAC_1_SQRT_2 * 2.).equals(comps.reflect_v));
}

fn glass(refractive_index: f64) -> Material<f64> {
    Material::builder()
        .color(c(1., 1., 1.))
        .diffuse(0.7)
        .specular(0.3)
        .ambient(0.1)
        .shininess(400.0)
        .reflective(0.0)
        .transparency(1.0)
        .refractive_index(refractive_index)
        .build()
        .unwrap()
}

#[test]
fn test_refraction() {
    // test for the intersection of 3 overlapping glass spheres.
    let a = sphere(Some(scaling(2., 2., 2.)), Some(glass(1.5)));
    let b = sphere(Some(translation(0., 0., -0.25)), Some(glass(2.0)));
    let c = sphere(Some(translation(0., 0., 0.25)), Some(glass(2.5)));
    let shapes = vec![a, b, c];

    let r = Ray::new(p(0., 0., -4.), v(0., 0., 0.));
    let xs = Intersections::new(vec![
        Intersection::new(2., 0),
        Intersection::new(2.75, 1),
        Intersection::new(3.25, 2),
        Intersection::new(4.75, 1),
        Intersection::new(5.25, 2),
        Intersection::new(6., 0),
    ]);

    let expected = [
        (0, 1.0, 1.5),
        (1, 1.5, 2.0),
        (2, 2.0, 2.5),
        (3, 2.5, 2.5),
        (4, 2.5, 1.5),
        (5, 1.5, 1.0),
    ];

    for case in expected {
        let inter = xs.get(case.0);
        let comps = inter.prepare_computations(&Std, r, &xs, &shapes);
        assert_eq!(case.1, comps.n1);
        assert_eq!(case.2, comps.n2);
        assert_eq!((case.1, case.2), inter.get_refractive_indexes(&xs, &shapes));
    }
}

#[test]
fn precomputed_data_keeps_what_it_is_given() {
    let d = PrecomputedData::new(
        1.0,
        3,
        p(1., 2., 3.),
        p(1., 2., 3.5),
        v(0., 0., -1.),
        v(0., 1., 0.),
        v(1., 0., 0.),
        true,
        1.0,
        1.5,
    );
    assert_eq!(d.t, 1.0);
    assert_eq!(d.object, 3);
    assert!(d.point.equals(p(1., 2., 3.)));
    assert!(d.over_point.equals(p(1., 2., 3.5)));
    assert_eq!(xyz(d.eye_v), xyz(v(0., 0., -1.)));
    assert_eq!(xyz(d.normal_v), xyz(v(0., 1., 0.)));
    assert_eq!(xyz(d.reflect_v), xyz(v(1., 0., 0.)));
    assert!(d.inside);
    assert_eq!((d.n1, d.n2), (1.0, 1.5));
}

#[test]
fn light_test_new_point_light() {
    let intensity = c(1., 1., 1.);
    let position = p(0., 0., 0.);

    let light = PointLight::new(position, intensity);
    assert!(light.position().equals(position));
    assert!(light.intensity().equals(intensity));
    assert!(light.equals(PointLight::new(p(0., 0., 0.), c(1., 1., 1.))));
    assert!(!light.equals(PointLight::new(p(0., 1., 0.), c(1., 1., 1.))));
}

#[test]
fn light_test_lighting() {
    let s = sphere(None, None);
    let sqrt = 2.0_f64.sqrt() / 2.0;

    // lighting an object from straight on
    // with eye looking straight on
    // expect the returned value to be "full strength".
    let m = Material::default();
    let at = Point::new(0., 0., 0.);
    let eye_v = Vector::new(0., 1., -1.);
    let normal_v = Vector::new(0., 0., -1.);
    let light = PointLight::new(p(0., 0., -10.), c(1., 1., 1.));

    let result = lighting(&Std, &m, &s, light, at, eye_v, normal_v, false);

    assert!(c(1.9, 1.9, 1.9).equals(result));

    // eye at 45°
    let eye_v = Vector::new(0., sqrt, -sqrt);
    let normal_v = Vector::new(0., 0., -1.);
    let light = PointLight::new(p(0., 0., -10.), c(1., 1., 1.));

    let result = lighting(&Std, &m, &s, light, at, eye_v, normal_v, false);

    assert!(c(1.0, 1.0, 1.0).equals(result));

    // eye straight on
    // light at 45°
    let eye_v = Vector::new(0., 0., -1.);
    let normal_v = Vector::new(0., 0., -1.);
    let light = PointLight::new(p(0., 10., -10.), c(1., 1., 1.));

    let result = lighting(&Std, &m, &s, light, at, eye_v, normal_v, false);

    assert!(c(0.7364, 0.7364, 0.7364).equals(result));

    // eye and light at 45°
    // eye in reflection of light
    // so the intentisity increases
    let eye_v = Vector::new(0., -sqrt, -sqrt);
    let normal_v = Vector::new(0., 0., -1.);
    let light = PointLight::new(p(0., 10., -10.), c(1., 1., 1.));

    let result = lighting(&Std, &m, &s, light, at, eye_v, normal_v, false);

    assert!(c(1.6364, 1.6364, 1.6364).equals(result));

    // light behind the object
    // should only return the ambient component
    let eye_v = Vector::new(0., 0., -1.);
    let normal_v = Vector::new(0., 0., -1.);
    let light = PointLight::new(p(0., 0., 10.), c(1., 1., 1.));

    let result = lighting(&Std, &m, &s, light, at, eye_v, normal_v, false);

    assert!(c(0.1, 0.1, 0.1).equals(result));

    // object in shadow
    let eye_v = Vector::new(0., 0., -1.);
    let normal_v = Vector::new(0., 0., -1.);
    let light = PointLight::new(p(0., 0., -10.), c(1., 1., 1.));
    let in_shadow = true;

    let result = lighting(&Std, &m, &s, light, at, eye_v, normal_v, in_shadow);
    assert!(c(0.1, 0.1, 0.1).equals(result));
}

#[test]
fn lighting_straight_on_with_the_eye_between_light_and_surface() {
    let s = sphere(None, None);
    let m = Material::default();
    let light = PointLight::new(p(0., 0., -10.), c(1., 1., 1.));
    let result = lighting(&Std, &m, &s, light, p(0., 0., 0.), v(0., 0., -1.), v(0., 0., -1.), false);
    assert!(c(1.9, 1.9, 1.9).equals(result));
    assert!((result.red() - 1.9).abs() < 1e-12);
}

#[test]
fn test_lighting_with_pattern() {
    let s = sphere(None, None);
    let m = Material::builder()
        .pattern(Pattern::Stripe(StripePattern::new(Color::white(), Color::black(), None)))
        .color(Color::black())
        .ambient(1.)
        .diffuse(0.)
        .specular(0.)
        .shininess(200.0)
        .reflective(0.0)
        .transparency(0.0)
        .refractive_index(1.0)
        .build()
        .unwrap();
    let eye_v = v(0., 0., -1.);
    let normal_v = v(0., 0., -1.);
    let light = PointLight::new(p(0., 0., -10.), Color::white());

    let c1 = lighting(&Std, &m, &s, light, p(0.9, 0., 0.), eye_v, normal_v, false);
    let c2 = lighting(&Std, &m, &s, light, p(1.1, 0., 0.), eye_v, normal_v, false);

    assert!(Color::white().equals(c1));
    assert!(Color::black().equals(c2));
}

#[test]
fn mod_test_default() {
    let light = PointLight::new(p(-10., 10., -10.), Color::white());
    let s1 = sphere(
        None,
        Some(
            Material::builder()
                .color(c(0.8, 1., 0.6))
                .diffuse(0.7)
                .specular(0.2)
                .ambient(0.1)
                .shininess(200.0)
                .reflective(0.0)
                .build()
                .unwrap(),
        ),
    );
    let s2 = sphere(Some(scaling(0.5, 0.5, 0.5)), None);
    let w = default_world();

    assert!(w.light().unwrap().equals(light));
    assert!(holds(w.objects(), &s1));
    assert!(holds(w.objects(), &s2));
    assert_eq!(w.objects().len(), 2);
    assert_eq!(w.allowed_recursion(), 6);
}

#[test]
fn world_test_default() {
    let light = PointLight::new(p(-10., 10., -10.), Color::white());
    let s1 = sphere(
        None,
        Some(
            MaterialBuilder::new()
                .color(c(0.8, 1., 0.6))
                .diffuse(0.7)
                .specular(0.2)
                .build()
                .unwrap(),
        ),
    );
    let s2 = sphere(Some(scaling(0.5, 0.5, 0.5)), None);
    let w = default_world();

    assert!(w.light().unwrap().equals(light));
    assert!(holds(w.objects(), &s1));
    assert!(holds(w.objects(), &s2));
}

#[test]
fn mod_test_intersect_ray() {
    let w = default_world();
    let r = Ray::new(p(0., 0., -5.), v(0., 0., 1.));

    let xs = w.intersect(&Std, r);

    assert_eq!(xs.len(), 4);

    assert_eq!(xs.get(0).t(), 4.);
    assert_eq!(xs.get(1).t(), 4.5);
    assert_eq!(xs.get(2).t(), 5.5);
    assert_eq!(xs.get(3).t(), 6.);
}

#[test]
fn world_test_intersect_ray() {
    let w = default_world();
    let r = Ray::new(p(0., 0., -5.), v(0., 0., 1.));

    let xs = w.intersect(&Std, r);

    assert_eq!(xs.len(), 4);

    assert_eq!(xs.get(0).t(), 4.);
    assert_eq!(xs.get(1).t(), 4.5);
    assert_eq!(xs.get(2).t(), 5.5);
    assert_eq!(xs.get(3).t(), 6.);

    let names: Vec<usize> = (0..4).map(|k| xs.get(k).object()).collect();
    assert_eq!(names, vec![0, 1, 1, 0]);
}

#[test]
fn mod_test_shade_hit() {
    // normal intersection
    let w = default_world();
    let r = Ray::new(p(0., 0., -5.), v(0., 0., 1.));

    let i = Intersection::new(4., 0);

    let comps = i.prepare_computations(&Std, r, &alone(i), w.objects());

    let got = w.shade_hit(&Std, comps, 6);
    assert!(c(0.38066, 0.47583, 0.2855).equals(got));

    // shading and intersection from the inside
    let mut w = default_world();
    w.set_light(PointLight::new(p(0., 0.25, 0.), Color::white()));
    let r = Ray::new(p(0., 0., 0.), v(0., 0., 1.));
    let i = Intersection::new(0.5, 1);
    let comps = i.prepare_computations(&Std, r, &alone(i), w.objects());

    let got = w.shade_hit(&Std, comps, 6);
    assert!(c(0.90498, 0.90498, 0.90498).equals(got));

    // shade a point in shadow
    let light = PointLight::new(p(0., 0., -10.), Color::white());
    let s1 = Sphere::default();
    let mut s2 = Sphere::default();
    s2.set_transform(translation(0., 0., 10.));
    let w = World::new(vec![Shape::Sphere(s1), Shape::Sphere(s2)], Some(light), 6);
    let ray = Ray::new(p(0., 0., 5.), v(0., 0., 1.));
    let i = Intersection::new(4., 1);
    let comps = i.prepare_computations(&Std, ray, &alone(i), w.objects());
    let got = w.shade_hit(&Std, comps, 6);

    assert!(c(0.1, 0.1, 0.1).equals(got));
}

#[test]
fn world_test_shade_hit() {
    // normal intersection
    let w = default_world();
    let r = Ray::new(p(0., 0., -5.), v(0., 0., 1.));

    let i = Intersection::new(4., 0);

    let comps = i.prepare_computations(&Std, r, &alone(i), w.objects());

    let got = w.shade_hit(&Std, comps, 6);
    assert!(c(0.38066, 0.47583, 0.2855).equals(got));

    // shading and intersection from the inside
    let mut w = default_world();
    w.set_light(PointLight::new(p(0., 0.25, 0.), Color::white()));
    let r = Ray::new(p(0., 0., 0.), v(0., 0., 1.));

    let i = Intersection::new(0.5, 1);

    let comps = i.prepare_computations(&Std, r, &alone(i), w.objects());

    let got = w.shade_hit(&Std, comps, 6);
    assert!(c(0.90498, 0.90498, 0.90498).equals(got));
}

fn color_at_cases() {
    // the color when a ray misses
    let w = default_world();
    let r = Ray::new(p(0., 0., -5.), v(0., 1., 0.));

    let got = w.color_at(&Std, r, 6);

    assert!(Color::black().equals(got));

    // the color when a ray hits
    let w = default_world();
    let r = Ray::new(p(0., 0., -5.), v(0., 0., 1.));

    let got = w.color_at(&Std, r, 6);

    assert!(c(0.38066, 0.47583, 0.2855).equals(got));

    // hit behind the ray
    let m1 = Material::new(Color::new(0.8, 1., 0.6), 1., 0.7, 0.2, 200.0, 0., 0., 1., None);
    let s1 = Sphere::new(None, Some(m1));
    let tr = scaling(0.5, 0.5, 0.5);
    let color = Color::white();
    let m2 = Material::new(color, 1., 9.9, 0.9, 200.0, 0.0, 0., 1., None);
    let s2 = Sphere::new(Some(tr), Some(m2));
    let light = Some(PointLight::new(p(-10., 10., -10.), Color::white()));
    let w = World::new(vec![Shape::Sphere(s1), Shape::Sphere(s2)], light, 6);
    let r = Ray::new(p(0., 0., 0.75), v(0., 0., -1.));
    let got = w.color_at(&Std, r, 6);

    assert!(got.equals(color));
}

#[test]
fn mod_test_color_at() {
    color_at_cases()
}

#[test]
fn world_test_color_at() {
    color_at_cases()
}

#[test]
fn a_world_without_light_is_black_where_the_ray_misses() {
    let w = World::new(vec![sphere(None, None)], None, 6);
    let r = Ray::new(p(0., 0., -5.), v(0., 1., 0.));
    assert!(Color::black().equals(w.color_at(&Std, r, 6)));
    assert!(w.is_shadowed(&Std, p(0., 10., 0.)));
    assert!(w.light().is_none());
}

#[test]
fn mod_test_is_shadowed() {
    let w = default_world();

    // nothing lies between light source and point.
    // not in shadow.
    let at = Point::new(0., 10., 0.);
    assert!(!w.is_shadowed(&Std, at));

    // object between light and point.
    // in shadow.
    let at = Point::new(10., -10., 10.);
    assert!(w.is_shadowed(&Std, at));

    // light between object and point.
    // not in shadow.
    let at = Point::new(-20., 20., -20.);
    assert!(!w.is_shadowed(&Std, at));

    // point between light and object.
    // not in shadow.
    let at = Point::new(-2., 2., -2.);
    assert!(!w.is_shadowed(&Std, at));
}

#[test]
fn reflect_non_reflective() {
    let r = Ray::new(p(0., 0., 0.), v(0., 0., 1.));
    let light = PointLight::new(p(-10., 10., -10.), Color::white());
    let s1 = sphere(
        None,
        Some(
            Material::builder()
                .color(c(0.8, 1., 0.6))
                .diffuse(0.7)
                .specular(0.2)
                .ambient(0.1)
                .shininess(200.0)
                .reflective(0.0)
                .build()
                .unwrap(),
        ),
    );
    let s2 = sphere(
        Some(scaling(0.5, 0.5, 0.5)),
        Some(
            Material::builder()
                .color(Color::new(1., 1., 1.))
                .diffuse(0.7)
                .specular(0.2)
                .ambient(1.0)
                .shininess(200.0)
                .reflective(0.0)
                .build()
                .unwrap(),
        ),
    );
    let world = World::new(vec![s1, s2], Some(light), 6);

    let i = Intersection::new(1.0, 1);

    let comps = i.prepare_computations(&Std, r, &alone(i), world.objects());

    let color = world.reflected_color(&Std, comps, 6);

    assert!(c(0., 0., 0.).equals(color))
}

fn mirror_floor(diffuse: f64, specular: f64) -> Shape<f64> {
    let m = Material::builder()
        .color(c(1., 1., 1.))
        .diffuse(diffuse)
        .specular(specular)
        .ambient(0.1)
        .shininess(200.0)
        .reflective(0.5)
        .build()
        .unwrap();
    plane(Some(translation(0., -1., 0.)), Some(m))
}

#[test]
fn reflective_surface_comps() {
    let mut w = default_world();
    w.add_object(mirror_floor(0.7, 0.2));
    let r = Ray::new(p(0., 0., -3.), v(0., -SQRT_2 / 2.0, SQRT_2 / 2.0));
    let i = Intersection::new(SQRT_2, 2);
    let comps = i.prepare_computations(&Std, r, &alone(i), w.objects());
    let color = w.reflected_color(&Std, comps, 6);

    assert!(c(0.1903322, 0.237915, 0.1427492).equals(color));
}

#[test]
fn reflective_surface_shade() {
    let mut w = default_world();
    w.add_object(mirror_floor(0.9, 0.9));
    let r = Ray::new(p(0., 0., -3.), v(0., -SQRT_2 / 2.0, SQRT_2 / 2.0));
    let i = Intersection::new(SQRT_2, 2);
    let comps = i.prepare_computations(&Std, r, &alone(i), w.objects());
    let color = w.shade_hit(&Std, comps, 6);

    assert!(c(0.876757, 0.92434033, 0.829174233).equals(color));
}

#[test]
fn avoid_recursion() {
    // avoid the case with two mirrors reflecting infinitely, what do they see in the void?
    let light = PointLight::new(p(0., 0., 0.), Color::white());
    let m = Material::builder()
        .color(c(1., 1., 1.))
        .diffuse(0.9)
        .specular(0.9)
        .ambient(0.1)
        .shininess(200.0)
        .reflective(1.)
        .build()
        .unwrap();

    let lower = plane(Some(translation(0., -1., 0.)), Some(m.clone()));

    let upper = plane(Some(translation(0., 1., 0.)), Some(m));

    let mut w = World::new(vec![lower.clone(), upper.clone()], Some(light), 6);
    w.add_object(lower);
    w.add_object(upper);

    let r = Ray::new(p(0., 0., 0.), v(0., 1., 0.));
    let got = w.color_at(&Std, r, 6);
    assert!(got.red().is_finite());
    assert_eq!(w.objects().len(), 4);
}

#[test]
fn limit_recursion() {
    let mut w = default_world();
    w.add_object(mirror_floor(0.9, 0.9));
    let r = Ray::new(p(0., 0., -3.), v(0., -SQRT_2 / 2.0, SQRT_2 / 2.0));
    let i = Intersection::new(SQRT_2, 2);
    let comps = i.prepare_computations(&Std, r, &alone(i), w.objects());
    let color = w.reflected_color(&Std, comps, 0);

    assert!(Color::black().equals(color));

    let one_bounce = w.reflected_color(&Std, comps, 1);
    assert!(!Color::black().equals(one_bounce));
}

#[test]
fn camera_test_new() {
    let hsize = 160;
    let vsize = 120;
    let field_of_view = PI / 2.0;

    let cam = Camera::new(&Std, hsize, vsize, field_of_view);

    assert_eq!(cam.hsize(), hsize);
    assert_eq!(cam.vsize(), vsize);
    assert_eq!(cam.fov(), field_of_view);
    assert!(cam.transform().equals(&Matrix::identity_matrix()));
    assert!(cam.transform.inverse().equals(&Matrix::identity_matrix()));
}

#[test]
fn test_pixel_size() {
    // horizontal canvas
    let cam = Camera::new(&Std, 200, 125, PI / 2.0);
    assert!(close(cam.pixel_size(), 0.01));

    // vertical canvas
    let cam = Camera::new(&Std, 125, 200, PI / 2.0);
    assert!(close(cam.pixel_size(), 0.01));
}

#[test]
fn test_ray_for_pixel() {
    let mut cam = Camera::new(&Std, 201, 101, PI / 2.0);

    let r = cam.ray_for_pixel(&Std, 100, 50);
    assert!(r.origin().equals(p(0., 0., 0.)));
    assert!(r.direction().equals(v(0., 0., -1.)));

    let r = cam.ray_for_pixel(&Std, 0, 0);
    assert!(r.origin().equals(p(0., 0., 0.)));
    assert!(r.direction().equals(v(0.66519, 0.33259, -0.66851)));

    let sqrt_2_2 = 2.0_f64.sqrt() / 2.0;
    cam.set_transform(rotation_y(&Std, PI / 4.0).product(&translation(0., -2., 5.)));
    let r = cam.ray_for_pixel(&Std, 100, 50);
    assert!(r.origin().equals(p(0., 2., -5.)));
    assert!(r.direction().equals(v(sqrt_2_2, 0., -sqrt_2_2)));
}

#[test]
fn test_render() {
    let w = default_world();
    let mut cam = Camera::new(&Std, 11, 11, PI / 2.);
    let from = p(0., 0., -5.);
    let to = p(0., 0., 0.);
    let up = v(0., 1., 0.);
    let transform = view_transformation(&Std, from, to, up);
    cam.set_transform(transform);

    let image = cam.render(&Std, &w);
    assert!(image.pixel_at(5, 5).unwrap().equals(c(0.38066, 0.47583, 0.2855)));
    assert_eq!((image.width(), image.height()), (11, 11));
    assert!(image.pixel_at(0, 0).unwrap().equals(Color::black()));
}

#[test]
fn canvas_test_new() {
    let image = Canvas::<f64>::new(10, 20);
    assert_eq!(image.width(), 10);
    assert_eq!(image.height(), 20);
    for x in 0..10 {
        for y in 0..20 {
            assert!(image.pixel_at(x, y).unwrap().equals(Color::black()))
        }
    }
    assert!(image.pixel_at(10, 0).is_none());
    assert!(image.pixel_at(0, 20).is_none());
}

#[test]
fn test_write_pixel() {
    let mut image = Canvas::new(10, 20);
    let red = Color::new(1.0, 0.0, 0.0);

    image.write_pixel(2, 3, red);

    assert!(image.pixel_at(2, 3).unwrap().equals(red));
    assert!(image.pixel_at(3, 2).unwrap().equals(Color::black()));
}

#[test]
fn test_save_canvas() {
    let image = Canvas::<f64>::new(0, 0);
    let s = image.to_ppm(&Std);

    let want = "P3\n0 0\n255\n";
    let got = String::from_utf8(s).unwrap();
    assert_eq!(want, got);
}

#[test]
fn test_save_canvas_writes_4_pixels() {
    let mut image = Canvas::new(2, 3);
    let c_1 = c(1.5, 0.0, 0.0);
    let c_2 = c(0.0, 1.0, 0.0);
    let c_3 = c(0.0, 0.0, 1.0);
    let c_4 = c(1.0, 1.0, 1.0);

    image.write_pixel(0, 0, c_1);
    image.write_pixel(1, 0, c_3);
    image.write_pixel(0, 1, c_2);
    image.write_pixel(1, 1, c_4);

    let out = image.to_ppm(&Std);

    let want = "P3
2 3
255
255 0 0
0 0 255
0 255 0
255 255 255
0 0 0
0 0 0
";

    let got = String::from_utf8(out).unwrap();

    assert_eq!(got, want);
}

#[test]
fn test_save_canvas_writes_pixels() {
    let mut image = Canvas::new(5, 3);
    let c_1 = c(1.5, 0.0, 0.0);
    let c_2 = c(0.0, 0.5, 0.0);
    let c_3 = c(-0.5, 0.0, 1.0);

    image.write_pixel(0, 0, c_1);
    image.write_pixel(2, 1, c_2);
    image.write_pixel(4, 2, c_3);

    let out = image.to_ppm(&Std);

    let want = "P3
5 3
255
255 0 0
0 0 0
0 0 0
0 0 0
0 0 0
0 0 0
0 0 0
0 128 0
0 0 0
0 0 0
0 0 0
0 0 0
0 0 0
0 0 0
0 0 255
";

    let got = String::from_utf8(out).unwrap();

    assert_eq!(got, want);
}

#[test]
fn header_holds_sizes_of_several_digits() {
    let image = Canvas::<f64>::new(12, 1);
    let got = text(image.to_ppm(&Std));
    assert!(got.starts_with("P3\n12 1\n255\n0 0 0\n"));
    assert_eq!(got.lines().count(), 3 + 12);
}
