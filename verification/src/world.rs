//! The scene, and the colour that a ray brings back from it.
use crate::color::Color;
use crate::intersection::all_name_shapes;
use crate::intersection::all_ranked;
use crate::intersection::ascending;
use crate::intersection::lemma_sorted_keeps;
use crate::intersection::lemma_sorted_rises;
use crate::intersection::hit_of;
use crate::intersection::inserted;
use crate::intersection::lemma_first_ahead;
use crate::intersection::position_of;
use crate::intersection::sorted_by_t;
use crate::intersection::Intersection;
use crate::intersection::Intersections;
use crate::intersection::PrecomputedData;
use crate::light::lighting;
use crate::light::spec_lighting;
use crate::light::PointLight;
use crate::material::Material;
use crate::material::MaterialBuilder;
use crate::matrix::Matrix;
use crate::numeric::exact;
use crate::numeric::Elementary;
use crate::point::Point;
use crate::ray::Ray;
use crate::scalar::lawful;
use crate::scalar::less;
use crate::scalar::number;
use crate::scalar::ordered;
use crate::scalar::ranked;
use crate::scalar::ratio;
use crate::scalar::same;
use crate::scalar::Scalar;
use crate::shape::Shape;
use crate::shape::Sphere;
use crate::transform::invertible;
use crate::transformation::scaling;
use crate::transformation::scaling_grid;
use core::ops::Add;
use core::ops::Mul;
use core::ops::Sub;
use vstd::prelude::*;

verus! {

/// `num_traits::Zero::is_zero` on a count: true exactly for zero.
#[verifier::external_body]
fn is_spent(remaining: usize) -> (r: bool)
    ensures
        r == (remaining == 0),
{
    num_traits::Zero::is_zero(&remaining)
}

/// The meetings of the ray with the first `k` shapes, in rising order:
/// the meetings with each shape are taken in and the collection is sorted.
pub open spec fn scene_hits<T: Scalar, N: Elementary<T>>(
    n: &N,
    objects: Seq<Shape<T>>,
    r: Ray<T>,
    k: int,
) -> Seq<Intersection<T>>
    decreases k,
{
    if k <= 0 {
        Seq::empty()
    } else {
        sorted_by_t(
            scene_hits(n, objects, r, k - 1) + objects[k - 1].spec_intersect(
                n,
                (k - 1) as usize,
                r,
            ),
        )
    }
}

/// Putting in a meeting that names a shape of the list leaves only such meetings.
proof fn lemma_inserted_names<T: Scalar>(s: Seq<Intersection<T>>, x: Intersection<T>, count: int)
    requires
        all_name_shapes(s, count),
        x.object < count,
    ensures
        all_name_shapes(inserted(s, x), count),
    decreases s.len(),
{
    if s.len() > 0 && less(x.t, s.last().t) {
        lemma_inserted_names(s.drop_last(), x, count);
    }
}

/// Sorting meetings that name shapes of the list leaves only such meetings.
proof fn lemma_sorted_names<T: Scalar>(s: Seq<Intersection<T>>, count: int)
    requires
        all_name_shapes(s, count),
    ensures
        all_name_shapes(sorted_by_t(s), count),
    decreases s.len(),
{
    if s.len() > 0 {
        lemma_sorted_names(s.drop_last(), count);
        lemma_inserted_names(sorted_by_t(s.drop_last()), s.last(), count);
    }
}

/// Every meeting of a ray with the scene names a shape of the scene.
proof fn lemma_scene_hits_name<T: Scalar, N: Elementary<T>>(
    n: &N,
    objects: Seq<Shape<T>>,
    r: Ray<T>,
    k: int,
)
    requires
        0 <= k <= objects.len(),
        objects.len() <= usize::MAX,
    ensures
        all_name_shapes(scene_hits(n, objects, r, k), objects.len() as int),
    decreases k,
{
    if k > 0 {
        lemma_scene_hits_name(n, objects, r, k - 1);
        lemma_sorted_names(
            scene_hits(n, objects, r, k - 1) + objects[k - 1].spec_intersect(
                n,
                (k - 1) as usize,
                r,
            ),
            objects.len() as int,
        );
    }
}

/// The meetings of a ray with the scene stand in rising order, provided
/// every ray parameter among them has a place in the order.
pub proof fn lemma_scene_hits_rise<T: Scalar, N: Elementary<T>>(
    n: &N,
    objects: Seq<Shape<T>>,
    r: Ray<T>,
    k: int,
)
    requires
        0 <= k <= objects.len(),
    ensures
        ordered::<T>() && all_ranked(scene_hits(n, objects, r, k)) ==> ascending(
            scene_hits(n, objects, r, k),
        ),
{
    if k > 0 && ordered::<T>() && all_ranked(scene_hits(n, objects, r, k)) {
        let taken = scene_hits(n, objects, r, k - 1) + objects[k - 1].spec_intersect(
            n,
            (k - 1) as usize,
            r,
        );
        let line = sorted_by_t(taken);
        lemma_sorted_keeps(taken);
        taken.to_multiset_ensures();
        line.to_multiset_ensures();
        assert forall|i: int| 0 <= i < taken.len() implies ranked(#[trigger] taken[i].t) by {
            assert(taken.contains(taken[i]));
            assert(taken.to_multiset().count(taken[i]) > 0);
            assert(line.to_multiset().count(taken[i]) > 0);
            assert(line.contains(taken[i]));
            let w = choose|w: int| 0 <= w < line.len() && line[w] == taken[i];
            assert(ranked(line[w].t));
        }
        lemma_sorted_rises(taken);
    }
}

/// The shapes of a scene, its light, and how often a ray may bounce.
#[derive(Debug, Clone)]
pub struct World<T: Scalar> {
    objects: Vec<Shape<T>>,
    light: Option<PointLight<T>>,
    allowed_recursion: usize,
}

impl<T: Scalar> World<T> {
    /// The shapes of the scene, in the order they were added.
    pub closed spec fn spec_objects(&self) -> Seq<Shape<T>> {
        self.objects@
    }

    /// The light of the scene, if it has one.
    pub closed spec fn spec_light(&self) -> Option<PointLight<T>> {
        self.light
    }

    /// How often a ray may bounce.
    pub closed spec fn spec_allowed_recursion(&self) -> usize {
        self.allowed_recursion
    }

    pub fn new(objects: Vec<Shape<T>>, light: Option<PointLight<T>>, allowed_recursion: usize) -> (r:
        Self)
        ensures
            r.spec_objects() == objects@,
            r.spec_light() == light,
            r.spec_allowed_recursion() == allowed_recursion,
    {
        World { objects, light, allowed_recursion }
    }

    /// The material of the larger sphere of the default scene.
    pub open spec fn default_material() -> Material<T> {
        Material {
            color: Color { red: ratio::<T>(8, 10), green: number::<T>(1), blue: ratio::<T>(6, 10) },
            ambient: ratio::<T>(1, 10),
            diffuse: ratio::<T>(7, 10),
            specular: ratio::<T>(2, 10),
            shininess: number::<T>(200),
            reflective: number::<T>(0),
            transparency: number::<T>(0),
            refractive_index: number::<T>(1),
            pattern: None,
        }
    }

    /// The grid that shrinks the smaller sphere of the default scene to half its size.
    pub open spec fn default_shrink() -> Seq<Seq<T>> {
        scaling_grid(ratio::<T>(1, 2), ratio::<T>(1, 2), ratio::<T>(1, 2))
    }

    /// The default scene: a unit sphere of a greenish material, inside it a
    /// sphere of half the size and the default material, a white light at
    /// `(-10, 10, -10)`, and six bounces. The scalar must be able to undo
    /// the halving.
    pub fn default() -> (r: Self)
        requires
            lawful::<T>(),
            invertible(Self::default_shrink()),
        ensures
            r.spec_objects().len() == 2,
            r.spec_objects()[0] is Sphere,
            r.spec_objects()[0].forward_grid() == Matrix::<T>::identity_grid(),
            r.spec_objects()[0].inverse_grid() == Matrix::<T>::identity_grid(),
            r.spec_objects()[0].spec_material() == Self::default_material(),
            r.spec_objects()[1] is Sphere,
            r.spec_objects()[1].forward_grid() == Self::default_shrink(),
            r.spec_objects()[1].inverse_grid() == crate::matrix::grid_inverse(Self::default_shrink()),
            r.spec_objects()[1].spec_material() == Material::<T>::spec_default(),
            r.spec_light() == Some(
                PointLight {
                    intensity: Color::<T>::spec_white(),
                    position: Point {
                        x: number::<T>(-10i32),
                        y: number::<T>(10),
                        z: number::<T>(-10i32),
                    },
                },
            ),
            r.spec_allowed_recursion() == 6,
    {
        let material = MaterialBuilder::new().color(
            Color::new(ratio::<T>(8, 10), number::<T>(1), ratio::<T>(6, 10)),
        ).diffuse(ratio::<T>(7, 10)).specular(ratio::<T>(2, 10)).ambient(
            ratio::<T>(1, 10),
        ).shininess(number::<T>(200)).reflective(number::<T>(0)).build().unwrap();
        let s1 = Sphere::new(None, Some(material));
        let half = ratio::<T>(1, 2);
        let s2 = Sphere::new(Some(scaling(half, half, half)), None);
        let light = PointLight::new(
            Point::new(number::<T>(-10i32), number::<T>(10), number::<T>(-10i32)),
            Color::white(),
        );
        World { objects: vec![Shape::Sphere(s1), Shape::Sphere(s2)], light: Some(light), allowed_recursion: 6 }
    }

    /// Adds a shape behind those that the scene has.
    pub fn add_object(&mut self, object: Shape<T>)
        ensures
            final(self).spec_objects() == old(self).spec_objects().push(object),
            final(self).spec_light() == old(self).spec_light(),
            final(self).spec_allowed_recursion() == old(self).spec_allowed_recursion(),
    {
        self.objects.push(object);
    }

    pub fn set_light(&mut self, light: PointLight<T>)
        ensures
            final(self).spec_light() == Some(light),
            final(self).spec_objects() == old(self).spec_objects(),
            final(self).spec_allowed_recursion() == old(self).spec_allowed_recursion(),
    {
        self.light = Some(light);
    }

    pub fn light(&self) -> (r: &Option<PointLight<T>>)
        ensures
            *r == self.spec_light(),
    {
        &self.light
    }

    pub fn objects(&self) -> (r: &Vec<Shape<T>>)
        ensures
            r@ == self.spec_objects(),
    {
        &self.objects
    }

    pub fn allowed_recursion(&self) -> (r: usize)
        ensures
            r == self.spec_allowed_recursion(),
    {
        self.allowed_recursion
    }

    /// All meetings of the ray with the shapes of the scene, in rising order.
    pub open spec fn spec_intersect<N: Elementary<T>>(&self, n: &N, r: Ray<T>) -> Seq<
        Intersection<T>,
    > {
        scene_hits(n, self.spec_objects(), r, self.spec_objects().len() as int)
    }

    /// Where the ray meets the shapes of the scene. Each meeting names its
    /// shape by the shape's position in the scene.
    pub fn intersect<N: Elementary<T>>(&self, n: &N, r: Ray<T>) -> (xs: Intersections<T>)
        requires
            lawful::<T>(),
            exact(n),
        ensures
            xs@ == self.spec_intersect(n, r),
            all_name_shapes(xs@, self.spec_objects().len() as int),
            ordered::<T>() && all_ranked(xs@) ==> ascending(xs@),
    {
        let mut xs = Intersections::empty();
        let mut k: usize = 0;
        while k < self.objects.len()
            invariant
                lawful::<T>(),
                exact(n),
                k <= self.objects@.len(),
                xs@ == scene_hits(n, self.objects@, r, k as int),
            decreases self.objects@.len() - k,
        {
            let met = self.objects[k].intersect(n, k, r);
            xs.extend(met);
            k += 1;
        }
        proof {
            lemma_scene_hits_name(n, self.objects@, r, self.objects@.len() as int);
            lemma_scene_hits_rise(n, self.objects@, r, self.objects@.len() as int);
        }
        xs
    }

    /// The hit of the ray in the scene: the meetings are sorted and the
    /// first whose ray parameter is zero or more is taken.
    pub open spec fn spec_hit<N: Elementary<T>>(&self, n: &N, r: Ray<T>) -> Option<
        Intersection<T>,
    > {
        hit_of(sorted_by_t(self.spec_intersect(n, r)))
    }

    /// Whether a shape stands between the place and the light. Without a
    /// light every place is in shadow. Else a ray is cast from the place
    /// towards the light, and the place is in shadow where that ray has a
    /// hit nearer than the light.
    pub open spec fn spec_is_shadowed<N: Elementary<T>>(&self, n: &N, p: Point<T>) -> bool {
        match self.spec_light() {
            None => true,
            Some(light) => {
                let v = light.position.offset_from(p);
                let towards = Ray { origin: p, direction: v.spec_norm(n) };
                let h = self.spec_hit(n, towards);
                h is Some && less(h->Some_0.t, v.spec_magnitude(n))
            },
        }
    }

    /// Whether the place lies in shadow.
    pub fn is_shadowed<N: Elementary<T>>(&self, n: &N, p: Point<T>) -> (r: bool)
        requires
            lawful::<T>(),
            exact(n),
        ensures
            r == self.spec_is_shadowed(n, p),
    {
        match self.light {
            None => true,
            Some(light) => {
                let v = light.position.sub(p);
                let direction = v.norm(n);
                let distance = v.magnitude(n);
                let towards = Ray::new(p, direction);
                let mut xs = self.intersect(n, towards);
                match xs.hit() {
                    Some(h) => less(h.t, distance),
                    None => false,
                }
            },
        }
    }

    /// The colour at a hit: the Phong shading of the lifted place, plus
    /// what the surface mirrors.
    pub open spec fn spec_shade_hit<N: Elementary<T>>(
        &self,
        n: &N,
        comps: PrecomputedData<T>,
        remaining: usize,
    ) -> Color<T>
        decreases remaining, 1int,
    {
        let object = self.spec_objects()[comps.object as int];
        let surface = spec_lighting(
            n,
            object.spec_material(),
            object.inverse_grid(),
            self.spec_light()->Some_0,
            comps.over_point,
            comps.eye_v,
            comps.normal_v,
            self.spec_is_shadowed(n, comps.over_point),
        );
        surface.sum(self.spec_reflected_color(n, comps, remaining))
    }

    /// What the surface mirrors at a hit: black where no bounce is left or
    /// the material mirrors nothing; else the colour that a ray from the
    /// lifted place along the bounced direction brings back with one bounce
    /// fewer, times the material's reflectivity.
    pub open spec fn spec_reflected_color<N: Elementary<T>>(
        &self,
        n: &N,
        comps: PrecomputedData<T>,
        remaining: usize,
    ) -> Color<T>
        decreases remaining, 0int,
    {
        let reflective = self.spec_objects()[comps.object as int].spec_material().reflective;
        if remaining == 0 || same(reflective, number::<T>(0)) {
            Color::spec_black()
        } else {
            let bounced = Ray { origin: comps.over_point, direction: comps.reflect_v };
            self.spec_color_at(n, bounced, (remaining - 1) as usize).scaled(reflective)
        }
    }

    /// The colour that the ray brings back: black where it has no hit, else
    /// the shading of its hit.
    pub open spec fn spec_color_at<N: Elementary<T>>(&self, n: &N, r: Ray<T>, remaining: usize) -> Color<
        T,
    >
        decreases remaining, 2int,
    {
        let line = sorted_by_t(self.spec_intersect(n, r));
        match hit_of(line) {
            Some(h) => self.spec_shade_hit(n, h.spec_prepare(n, r, line, self.spec_objects()), remaining),
            None => Color::spec_black(),
        }
    }

    /// Shades a hit. The scene must have a light, and the hit must be on
    /// one of its shapes.
    pub fn shade_hit<N: Elementary<T>>(&self, n: &N, prepared: PrecomputedData<T>, remaining: usize) -> (r:
        Color<T>)
        requires
            lawful::<T>(),
            ordered::<T>(),
            exact(n),
            self.spec_light() is Some,
            prepared.object < self.spec_objects().len(),
        ensures
            r == self.spec_shade_hit(n, prepared, remaining),
        decreases remaining, 1int,
    {
        let shadowed = self.is_shadowed(n, prepared.over_point);
        let object = &self.objects[prepared.object];
        let light = self.light.unwrap();
        let surface = lighting(
            n,
            object.material(),
            object,
            light,
            prepared.over_point,
            prepared.eye_v,
            prepared.normal_v,
            shadowed,
        );
        let reflected = self.reflected_color(n, prepared, remaining);
        surface.add(reflected)
    }

    /// The colour that the surface mirrors at a hit. Each bounce uses up
    /// one of the `remaining`, so a ray between two mirrors comes to rest.
    pub fn reflected_color<N: Elementary<T>>(&self, n: &N, comps: PrecomputedData<T>, remaining: usize) -> (r:
        Color<T>)
        requires
            lawful::<T>(),
            ordered::<T>(),
            exact(n),
            self.spec_light() is Some,
            comps.object < self.spec_objects().len(),
        ensures
            r == self.spec_reflected_color(n, comps, remaining),
        decreases remaining, 0int,
    {
        if is_spent(remaining) {
            return Color::black();
        }
        let reflective = self.objects[comps.object].material().reflective;
        if same(reflective, number::<T>(0)) {
            Color::black()
        } else {
            let bounced = Ray::new(comps.over_point, comps.reflect_v);
            let color = self.color_at(n, bounced, remaining - 1);
            color.mul(reflective)
        }
    }

    /// The colour that the ray brings back from the scene, with at most
    /// `remaining` bounces. A scene without a light can only be asked about
    /// rays that hit nothing.
    pub fn color_at<N: Elementary<T>>(&self, n: &N, r: Ray<T>, remaining: usize) -> (c: Color<T>)
        requires
            lawful::<T>(),
            ordered::<T>(),
            exact(n),
            self.spec_light() is Some || self.spec_hit(n, r) is None,
        ensures
            c == self.spec_color_at(n, r, remaining),
        decreases remaining, 2int,
    {
        let mut xs = self.intersect(n, r);
        let ghost met = xs@;
        match xs.hit() {
            Some(hit) => {
                proof {
                    lemma_sorted_names(met, self.objects@.len() as int);
                    lemma_first_ahead(xs@, 0);
                    assert(position_of(xs@, hit, 0) < xs@.len()) by {
                        lemma_found(xs@, hit);
                    }
                }
                let prepared = hit.prepare_computations(n, r, &xs, &self.objects);
                self.shade_hit(n, prepared, remaining)
            },
            None => Color::black(),
        }
    }
}

/// The hit of a line of meetings is found in that line.
proof fn lemma_found<T: Scalar>(line: Seq<Intersection<T>>, hit: Intersection<T>)
    requires
        ordered::<T>(),
        hit_of(line) == Some(hit),
    ensures
        position_of(line, hit, 0) < line.len(),
{
    lemma_first_ahead(line, 0);
    let k = crate::intersection::first_ahead(line, 0);
    assert(same(hit.t, hit.t));
    lemma_position_until(line, hit, 0, k);
}

/// A meeting that is `target` at position `k` puts the position of
/// `target`, searched from `from`, at `k` or before.
proof fn lemma_position_until<T: Scalar>(
    line: Seq<Intersection<T>>,
    target: Intersection<T>,
    from: int,
    k: int,
)
    requires
        0 <= from <= k < line.len(),
        crate::intersection::spec_matches(line[k], target),
    ensures
        position_of(line, target, from) <= k,
    decreases k - from,
{
    if from < k && !crate::intersection::spec_matches(line[from], target) {
        lemma_position_until(line, target, from + 1, k);
    }
}

} // verus!
