//! Where rays meet shapes.
use crate::numeric::exact;
use crate::numeric::Elementary;
use crate::point::Point;
use crate::ray::Ray;
use crate::scalar::at_most;
use crate::scalar::epsilon;
use crate::scalar::same;
use crate::shape::Shape;
use crate::vector::dot;
use crate::vector::Vector;
use core::ops::Add;
use core::ops::Mul;
use core::ops::Neg;
use crate::scalar::lawful;
use crate::scalar::less;
use crate::scalar::number;
use crate::scalar::ordered;
use crate::scalar::ranked;
use crate::scalar::Scalar;
use vstd::prelude::*;

verus! {

/// A place where a ray meets a shape: the ray parameter `t` of the meeting,
/// and the shape, named by its position in the list of shapes.
#[derive(Clone, Copy, Debug, PartialEq)]
pub struct Intersection<T> {
    pub t: T,
    pub object: usize,
}

fn index_on_top<T: Scalar>(inside: &Vec<usize>, objects: &Vec<Shape<T>>) -> (r: T)
    requires
        lawful::<T>(),
        forall|i: int| 0 <= i < inside@.len() ==> (#[trigger] inside@[i]) < objects@.len(),
    ensures
        r == index_inside(inside@, objects@),
{
    if inside.len() == 0 {
        number::<T>(1)
    } else {
        let id = inside[inside.len() - 1];
        objects[id].material().refractive_index
    }
}

fn cross(inside: &mut Vec<usize>, id: usize)
    ensures
        final(inside)@ == crossed(old(inside)@, id),
{
    let mut at: usize = 0;
    while at < inside.len() && inside[at] != id
        invariant
            inside@ == old(inside)@,
            at <= inside@.len(),
            place_of(inside@, id, 0) == place_of(inside@, id, at as int),
        decreases inside@.len() - at,
    {
        at += 1;
    }
    if at < inside.len() {
        inside.remove(at);
    } else {
        inside.push(id);
    }
}

impl<T: Scalar> Intersection<T> {
    /// Whether the two meetings are the same one: equal ray parameters,
    /// same shape.
    pub fn matches(&self, other: &Self) -> (r: bool)
        requires
            lawful::<T>(),
        ensures
            r == spec_matches(*self, *other),
    {
        same(self.t, other.t) && self.object == other.object
    }

    /// The refractive indices on the two sides of the surface at this
    /// meeting. The meetings of `xs` are walked in their order while the
    /// shapes that the ray is inside of are kept: a shape is entered at its
    /// first meeting and left at its next. The first index is that of the
    /// shape entered last before this meeting, the second that of the shape
    /// entered last after it; one where the ray is inside no shape.
    pub fn get_refractive_indexes(&self, xs: &Intersections<T>, objects: &Vec<Shape<T>>) -> (r: (
        T,
        T,
    ))
        requires
            lawful::<T>(),
            all_name_shapes(xs@, objects@.len() as int),
            position_of(xs@, *self, 0) < xs@.len(),
        ensures
            r == refractive_indexes_of(xs@, *self, objects@),
    {
        let mut inside: Vec<usize> = Vec::new();
        let count = xs.intersections.len();
        let mut k: usize = 0;
        while !xs.intersections[k].matches(self)
            invariant
                lawful::<T>(),
                count == xs@.len(),
                all_name_shapes(xs@, objects@.len() as int),
                k < xs@.len(),
                position_of(xs@, *self, 0) == position_of(xs@, *self, k as int),
                position_of(xs@, *self, 0) < xs@.len(),
                inside@ == inside_after(xs@, k as int),
                forall|i: int| 0 <= i < inside@.len() ==> (#[trigger] inside@[i]) < objects@.len(),
            decreases xs@.len() - k,
        {
            cross(&mut inside, xs.intersections[k].object);
            proof {
                lemma_crossed_names(inside_after(xs@, k as int), xs@[k as int].object, objects@.len() as int);
                assert(position_of(xs@, *self, k as int) == position_of(xs@, *self, k + 1));
                lemma_position_within(xs@, *self, k + 1);
                assert(k + 1 < xs@.len());
            }
            k += 1;
        }
        let n1 = index_on_top(&inside, objects);
        cross(&mut inside, xs.intersections[k].object);
        proof {
            lemma_crossed_names(inside_after(xs@, k as int), xs@[k as int].object, objects@.len() as int);
        }
        let n2 = index_on_top(&inside, objects);
        (n1, n2)
    }

    /// What shading needs to know of this meeting of the ray `r`: the
    /// place, the direction to the eye, the normal on the eye's side, the
    /// bounced direction, the place lifted off the surface, and the
    /// refractive indices on both sides.
    pub open spec fn spec_prepare<N: Elementary<T>>(
        self,
        n: &N,
        r: Ray<T>,
        xs: Seq<Intersection<T>>,
        objects: Seq<Shape<T>>,
    ) -> PrecomputedData<T> {
        let point = r.spec_at(self.t);
        let eye_v = r.direction.negated();
        let norm = objects[self.object as int].spec_normal(n, point);
        let inside = less(dot(norm, eye_v), number::<T>(0));
        let normal_v = if inside {
            norm.negated()
        } else {
            norm
        };
        let indexes = refractive_indexes_of(xs, self, objects);
        PrecomputedData {
            t: self.t,
            object: self.object,
            point,
            over_point: point.moved(normal_v.scaled(epsilon::<T>())),
            eye_v,
            normal_v,
            reflect_v: r.direction.spec_reflect(normal_v),
            inside,
            n1: indexes.0,
            n2: indexes.1,
        }
    }

    /// Prepares the shading of this meeting of the ray `r` with one of
    /// `objects`. The normal is turned around where the ray started inside
    /// the shape. `xs` holds all meetings of the ray, this one among them.
    pub fn prepare_computations<N: Elementary<T>>(
        &self,
        n: &N,
        r: Ray<T>,
        xs: &Intersections<T>,
        objects: &Vec<Shape<T>>,
    ) -> (comps: PrecomputedData<T>)
        requires
            lawful::<T>(),
            exact(n),
            self.object < objects@.len(),
            all_name_shapes(xs@, objects@.len() as int),
            position_of(xs@, *self, 0) < xs@.len(),
        ensures
            comps == self.spec_prepare(n, r, xs@, objects@),
    {
        let point = r.at(self.t);
        let eye_v = r.direction.neg();
        let norm = objects[self.object].normal(n, point);
        let inside = less(dot(norm, eye_v), number::<T>(0));
        let normal_v = if inside {
            norm.neg()
        } else {
            norm
        };
        let reflect_v = r.direction.reflect(normal_v);
        let over_point = point.add(normal_v.mul(epsilon::<T>()));
        let indexes = self.get_refractive_indexes(xs, objects);
        PrecomputedData {
            t: self.t,
            object: self.object,
            point,
            over_point,
            eye_v,
            normal_v,
            reflect_v,
            inside,
            n1: indexes.0,
            n2: indexes.1,
        }
    }

    pub fn new(t: T, object: usize) -> (r: Self)
        ensures
            r == (Intersection { t, object }),
    {
        Intersection { t, object }
    }

    pub fn t(&self) -> (r: T)
        ensures
            r == self.t,
    {
        self.t
    }

    pub fn object(&self) -> (r: usize)
        ensures
            r == self.object,
    {
        self.object
    }
}

/// What is known of a hit before it is shaded.
#[derive(Clone, Copy, Debug)]
pub struct PrecomputedData<T> {
    /// The ray parameter of the hit.
    pub t: T,
    /// The shape that was hit, by its position in the list of shapes.
    pub object: usize,
    /// The place of the hit.
    pub point: Point<T>,
    /// The place of the hit, lifted off the surface by the tolerance along
    /// the normal, so that the surface does not shadow itself.
    pub over_point: Point<T>,
    /// The direction towards the eye.
    pub eye_v: Vector<T>,
    /// The surface normal, on the side of the eye.
    pub normal_v: Vector<T>,
    /// The direction of the ray after bouncing off the surface.
    pub reflect_v: Vector<T>,
    /// Whether the ray started inside the shape.
    pub inside: bool,
    /// The refractive index of what the ray leaves.
    pub n1: T,
    /// The refractive index of what the ray enters.
    pub n2: T,
}

impl<T: Scalar> PrecomputedData<T> {
    pub fn new(
        t: T,
        object: usize,
        point: Point<T>,
        over_point: Point<T>,
        eye_v: Vector<T>,
        normal_v: Vector<T>,
        reflect_v: Vector<T>,
        inside: bool,
        n1: T,
        n2: T,
    ) -> (r: Self)
        ensures
            r == (PrecomputedData {
                t,
                object,
                point,
                over_point,
                eye_v,
                normal_v,
                reflect_v,
                inside,
                n1,
                n2,
            }),
    {
        PrecomputedData { t, object, point, over_point, eye_v, normal_v, reflect_v, inside, n1, n2 }
    }
}

/// The two meetings are the same one: equal ray parameters, same shape.
pub open spec fn spec_matches<T: Scalar>(a: Intersection<T>, b: Intersection<T>) -> bool {
    same(a.t, b.t) && a.object == b.object
}

/// The position of the first meeting at or after `from` that is `target`;
/// the length of `xs` where there is none.
pub open spec fn position_of<T: Scalar>(
    xs: Seq<Intersection<T>>,
    target: Intersection<T>,
    from: int,
) -> int
    decreases xs.len() - from,
{
    if from < 0 || from >= xs.len() {
        xs.len() as int
    } else if spec_matches(xs[from], target) {
        from
    } else {
        position_of(xs, target, from + 1)
    }
}

/// The position of the first `id` at or after `from`; the length of
/// `inside` where there is none.
pub open spec fn place_of(inside: Seq<usize>, id: usize, from: int) -> int
    decreases inside.len() - from,
{
    if from < 0 || from >= inside.len() {
        inside.len() as int
    } else if inside[from] == id {
        from
    } else {
        place_of(inside, id, from + 1)
    }
}

/// The shapes that the ray is inside of after it crosses the surface of
/// `id`: it leaves `id` where it was inside, else it enters it.
pub open spec fn crossed(inside: Seq<usize>, id: usize) -> Seq<usize> {
    let at = place_of(inside, id, 0);
    if at < inside.len() {
        inside.remove(at)
    } else {
        inside.push(id)
    }
}

/// The shapes that the ray is inside of after the first `k` meetings, the
/// one entered last at the end.
pub open spec fn inside_after<T: Scalar>(xs: Seq<Intersection<T>>, k: int) -> Seq<usize>
    decreases k,
{
    if k <= 0 {
        Seq::empty()
    } else {
        crossed(inside_after(xs, k - 1), xs[k - 1].object)
    }
}

/// The refractive index where the ray is: that of the shape entered last,
/// or one, the index of a vacuum, where the ray is inside no shape.
pub open spec fn index_inside<T: Scalar>(inside: Seq<usize>, objects: Seq<Shape<T>>) -> T {
    if inside.len() == 0 {
        number::<T>(1)
    } else {
        objects[inside.last() as int].spec_material().refractive_index
    }
}

/// The refractive indices on the two sides of the surface at `target`:
/// where the ray is before it crosses, and where it is after.
pub open spec fn refractive_indexes_of<T: Scalar>(
    xs: Seq<Intersection<T>>,
    target: Intersection<T>,
    objects: Seq<Shape<T>>,
) -> (T, T) {
    let k = position_of(xs, target, 0);
    (
        index_inside(inside_after(xs, k), objects),
        index_inside(inside_after(xs, k + 1), objects),
    )
}

/// Every meeting names a shape of the list.
pub open spec fn all_name_shapes<T: Scalar>(xs: Seq<Intersection<T>>, count: int) -> bool {
    forall|i: int| 0 <= i < xs.len() ==> (#[trigger] xs[i]).object < count
}

/// Crossing the surface of a shape of the list leaves only shapes of the
/// list inside.
pub(crate) proof fn lemma_crossed_names(inside: Seq<usize>, id: usize, count: int)
    requires
        forall|i: int| 0 <= i < inside.len() ==> (#[trigger] inside[i]) < count,
        id < count,
    ensures
        forall|i: int|
            0 <= i < crossed(inside, id).len() ==> (#[trigger] crossed(inside, id)[i]) < count,
{
    lemma_place_within(inside, id, 0);
}

/// The place of `id` lies between `from` and the length.
pub(crate) proof fn lemma_place_within(inside: Seq<usize>, id: usize, from: int)
    requires
        0 <= from <= inside.len(),
    ensures
        from <= place_of(inside, id, from) <= inside.len(),
    decreases inside.len() - from,
{
    if from < inside.len() && inside[from] != id {
        lemma_place_within(inside, id, from + 1);
    }
}

/// The position of `target` lies between `from` and the length.
pub(crate) proof fn lemma_position_within<T: Scalar>(
    xs: Seq<Intersection<T>>,
    target: Intersection<T>,
    from: int,
)
    requires
        0 <= from <= xs.len(),
    ensures
        from <= position_of(xs, target, from) <= xs.len(),
    decreases xs.len() - from,
{
    if from < xs.len() && !spec_matches(xs[from], target) {
        lemma_position_within(xs, target, from + 1);
    }
}

/// `s` with `x` put in behind the last meeting that `x` is not before.
pub open spec fn inserted<T: Scalar>(s: Seq<Intersection<T>>, x: Intersection<T>) -> Seq<
    Intersection<T>,
>
    decreases s.len(),
{
    if s.len() == 0 {
        seq![x]
    } else if less(x.t, s.last().t) {
        inserted(s.drop_last(), x).push(s.last())
    } else {
        s.push(x)
    }
}

/// The meetings of `s` by rising ray parameter; meetings that are level
/// keep the order they had.
pub open spec fn sorted_by_t<T: Scalar>(s: Seq<Intersection<T>>) -> Seq<Intersection<T>>
    decreases s.len(),
{
    if s.len() == 0 {
        Seq::empty()
    } else {
        inserted(sorted_by_t(s.drop_last()), s.last())
    }
}

/// No meeting comes before one with a smaller ray parameter.
pub open spec fn ascending<T: Scalar>(s: Seq<Intersection<T>>) -> bool {
    forall|i: int, j: int| 0 <= i < j < s.len() ==> at_most(#[trigger] s[i].t, #[trigger] s[j].t)
}

/// Every ray parameter has a place in the order.
pub open spec fn all_ranked<T: Scalar>(s: Seq<Intersection<T>>) -> bool {
    forall|i: int| 0 <= i < s.len() ==> ranked(#[trigger] s[i].t)
}

/// The position of the first meeting at or after position `from` whose ray
/// parameter is zero or more; the length of `s` where there is none.
pub open spec fn first_ahead<T: Scalar>(s: Seq<Intersection<T>>, from: int) -> int
    decreases s.len() - from,
{
    if from < 0 || from >= s.len() {
        s.len() as int
    } else if at_most(number::<T>(0), s[from].t) {
        from
    } else {
        first_ahead(s, from + 1)
    }
}

/// The hit among meetings in rising order: the first whose ray parameter is
/// zero or more.
pub open spec fn hit_of<T: Scalar>(s: Seq<Intersection<T>>) -> Option<Intersection<T>> {
    let k = first_ahead(s, 0);
    if k < s.len() {
        Some(s[k])
    } else {
        None
    }
}

/// Putting `x` in by the rule of `inserted` is putting it at position `k`,
/// where every meeting from `k` on comes after `x` and the one before `k`
/// does not.
pub(crate) proof fn lemma_inserted_at<T: Scalar>(s: Seq<Intersection<T>>, x: Intersection<T>, k: int)
    requires
        0 <= k <= s.len(),
        forall|j: int| k <= j < s.len() ==> less(x.t, #[trigger] s[j].t),
        k == 0 || !less(x.t, s[k - 1].t),
    ensures
        inserted(s, x) == s.insert(k, x),
    decreases s.len(),
{
    if s.len() == 0 {
        assert(seq![x] =~= s.insert(k, x));
    } else if k == s.len() {
        assert(s.push(x) =~= s.insert(k, x));
    } else {
        assert(less(x.t, s[s.len() - 1].t));
        lemma_inserted_at(s.drop_last(), x, k);
        assert(s.drop_last().insert(k, x).push(s.last()) =~= s.insert(k, x));
    }
}

/// Putting a meeting in adds that meeting and no other.
pub proof fn lemma_inserted_adds<T: Scalar>(s: Seq<Intersection<T>>, x: Intersection<T>)
    ensures
        inserted(s, x).to_multiset() == s.to_multiset().insert(x),
        inserted(s, x).len() == s.len() + 1,
    decreases s.len(),
{
    broadcast use vstd::seq_lib::to_multiset_build;

    if s.len() == 0 {
        assert(s =~= Seq::<Intersection<T>>::empty());
        assert(inserted(s, x) =~= s.push(x));
        assert(inserted(s, x).to_multiset() =~= s.to_multiset().insert(x));
    } else if less(x.t, s.last().t) {
        let rest = s.drop_last();
        lemma_inserted_adds(rest, x);
        assert(s =~= rest.push(s.last()));
        assert(inserted(rest, x).push(s.last()).to_multiset() =~= s.to_multiset().insert(x));
    } else {
        assert(s.push(x).to_multiset() =~= s.to_multiset().insert(x));
    }
}

/// Sorting neither adds a meeting nor loses one.
pub proof fn lemma_sorted_keeps<T: Scalar>(s: Seq<Intersection<T>>)
    ensures
        sorted_by_t(s).to_multiset() == s.to_multiset(),
        sorted_by_t(s).len() == s.len(),
    decreases s.len(),
{
    broadcast use vstd::seq_lib::to_multiset_build;

    if s.len() == 0 {
        assert(sorted_by_t(s) =~= s);
    } else {
        let rest = s.drop_last();
        lemma_sorted_keeps(rest);
        lemma_inserted_adds(sorted_by_t(rest), s.last());
        assert(s =~= rest.push(s.last()));
    }
}

/// Putting a ranked meeting into a rising line of ranked meetings leaves
/// the line rising, and adds that meeting and no other.
pub proof fn lemma_inserted_rises<T: Scalar>(s: Seq<Intersection<T>>, x: Intersection<T>)
    requires
        ordered::<T>(),
        all_ranked(s),
        ranked(x.t),
        ascending(s),
    ensures
        ascending(inserted(s, x)),
        all_ranked(inserted(s, x)),
        inserted(s, x).to_multiset() == s.to_multiset().insert(x),
        inserted(s, x).len() == s.len() + 1,
    decreases s.len(),
{
    broadcast use vstd::seq_lib::to_multiset_build;

    if s.len() == 0 {
        assert(s =~= Seq::<Intersection<T>>::empty());
        assert(inserted(s, x) =~= s.push(x));
        assert(inserted(s, x).to_multiset() =~= s.to_multiset().insert(x));
    } else if less(x.t, s.last().t) {
        let rest = s.drop_last();
        lemma_inserted_rises(rest, x);
        let placed = inserted(rest, x);
        let out = placed.push(s.last());
        assert(s =~= rest.push(s.last()));
        assert(out.to_multiset() =~= s.to_multiset().insert(x));
        assert forall|i: int, j: int| 0 <= i < j < out.len() implies at_most(
            #[trigger] out[i].t,
            #[trigger] out[j].t,
        ) by {
            if j == out.len() - 1 {
                assert(0 <= i < placed.len());
                // every meeting of `placed` is `x` or one of `rest`
                assert(placed.to_multiset().count(placed[i]) > 0) by {
                    placed.to_multiset_ensures();
                    assert(placed.contains(placed[i]));
                }
                if placed[i] == x {
                } else {
                    assert(rest.to_multiset().count(placed[i]) > 0);
                    rest.to_multiset_ensures();
                    assert(rest.contains(placed[i]));
                    let w = choose|w: int| 0 <= w < rest.len() && rest[w] == placed[i];
                    assert(at_most(s[w].t, s[s.len() - 1].t));
                }
            }
        }
        assert forall|i: int| 0 <= i < out.len() implies ranked(#[trigger] out[i].t) by {
            if i == out.len() - 1 {
                assert(ranked(s[s.len() - 1].t));
            }
        }
    } else {
        let out = s.push(x);
        assert(out.to_multiset() =~= s.to_multiset().insert(x));
        assert(ranked(s[s.len() - 1].t));
        assert(at_most(s.last().t, x.t));
        assert forall|i: int, j: int| 0 <= i < j < out.len() implies at_most(
            #[trigger] out[i].t,
            #[trigger] out[j].t,
        ) by {
            if j == out.len() - 1 {
                if i < s.len() - 1 {
                    assert(at_most(s[i].t, s[s.len() - 1].t));
                }
            }
        }
    }
}

/// Sorting ranked meetings gives a rising line of the same meetings.
pub proof fn lemma_sorted_rises<T: Scalar>(s: Seq<Intersection<T>>)
    requires
        ordered::<T>(),
        all_ranked(s),
    ensures
        ascending(sorted_by_t(s)),
        all_ranked(sorted_by_t(s)),
        sorted_by_t(s).to_multiset() == s.to_multiset(),
        sorted_by_t(s).len() == s.len(),
    decreases s.len(),
{
    broadcast use vstd::seq_lib::to_multiset_build;

    if s.len() == 0 {
        assert(sorted_by_t(s) =~= s);
    } else {
        let rest = s.drop_last();
        lemma_sorted_rises(rest);
        assert(ranked(s[s.len() - 1].t));
        lemma_inserted_rises(sorted_by_t(rest), s.last());
        assert(s =~= rest.push(s.last()));
    }
}

/// No meeting before the first one ahead has a ray parameter of zero or
/// more, and the first one ahead has.
pub(crate) proof fn lemma_first_ahead<T: Scalar>(s: Seq<Intersection<T>>, from: int)
    requires
        0 <= from <= s.len(),
    ensures
        from <= first_ahead(s, from) <= s.len(),
        forall|i: int|
            from <= i < first_ahead(s, from) ==> !at_most(number::<T>(0), #[trigger] s[i].t),
        first_ahead(s, from) < s.len() ==> at_most(number::<T>(0), s[first_ahead(s, from)].t),
    decreases s.len() - from,
{
    if from < s.len() && !at_most(number::<T>(0), s[from].t) {
        lemma_first_ahead(s, from + 1);
    }
}

/// Among ranked meetings in rising order the hit is the meeting with the
/// smallest ray parameter that is zero or more, and there is no hit exactly
/// where every ray parameter is below zero.
pub proof fn lemma_hit_is_nearest<T: Scalar>(s: Seq<Intersection<T>>)
    requires
        ordered::<T>(),
        all_ranked(s),
        ascending(s),
    ensures
        hit_of(s) is None <==> forall|i: int|
            0 <= i < s.len() ==> !at_most(number::<T>(0), #[trigger] s[i].t),
        hit_of(s) is Some ==> {
            let h = hit_of(s)->Some_0;
            &&& s.contains(h)
            &&& at_most(number::<T>(0), h.t)
            &&& forall|i: int|
                0 <= i < s.len() && at_most(number::<T>(0), #[trigger] s[i].t) ==> at_most(
                    h.t,
                    s[i].t,
                )
        },
{
    lemma_first_ahead(s, 0);
    let k = first_ahead(s, 0);
    if k < s.len() {
        assert(ranked(s[k].t));
        assert(at_most(s[k].t, s[k].t));
    }
}

/// Two lines of the same meetings hold the same ray parameters.
pub(crate) proof fn lemma_same_members<T: Scalar>(a: Seq<Intersection<T>>, b: Seq<Intersection<T>>)
    requires
        a.to_multiset() == b.to_multiset(),
    ensures
        forall|x: Intersection<T>| a.contains(x) <==> b.contains(x),
{
    a.to_multiset_ensures();
    b.to_multiset_ensures();
    assert forall|x: Intersection<T>| a.contains(x) <==> b.contains(x) by {
        assert(a.contains(x) <==> a.to_multiset().count(x) > 0);
        assert(b.contains(x) <==> b.to_multiset().count(x) > 0);
    }
}

/// The hit of the sorted meetings is the nearest of the meetings as they
/// were given: the one with the smallest ray parameter that is zero or
/// more. There is none exactly where every ray parameter is below zero.
pub proof fn lemma_hit_of_sorted<T: Scalar>(s: Seq<Intersection<T>>)
    requires
        ordered::<T>(),
        all_ranked(s),
    ensures
        hit_of(sorted_by_t(s)) is None <==> forall|i: int|
            0 <= i < s.len() ==> !at_most(number::<T>(0), #[trigger] s[i].t),
        hit_of(sorted_by_t(s)) is Some ==> {
            let h = hit_of(sorted_by_t(s))->Some_0;
            &&& s.contains(h)
            &&& at_most(number::<T>(0), h.t)
            &&& forall|i: int|
                0 <= i < s.len() && at_most(number::<T>(0), #[trigger] s[i].t) ==> at_most(
                    h.t,
                    s[i].t,
                )
        },
{
    let line = sorted_by_t(s);
    lemma_sorted_rises(s);
    lemma_hit_is_nearest(line);
    lemma_same_members(s, line);
    assert forall|i: int| 0 <= i < s.len() implies line.contains(#[trigger] s[i]) by {
        assert(s.contains(s[i]));
    }
    assert forall|j: int| 0 <= j < line.len() implies s.contains(#[trigger] line[j]) by {
        assert(line.contains(line[j]));
    }
    if hit_of(line) is None {
        assert forall|i: int| 0 <= i < s.len() implies !at_most(
            number::<T>(0),
            #[trigger] s[i].t,
        ) by {
            assert(line.contains(s[i]));
            let j = choose|j: int| 0 <= j < line.len() && line[j] == s[i];
            assert(!at_most(number::<T>(0), line[j].t));
        }
    } else {
        let h = hit_of(line)->Some_0;
        assert(line.contains(h));
        let k = choose|k: int| 0 <= k < line.len() && line[k] == h;
        assert(s.contains(line[k]));
        let w = choose|w: int| 0 <= w < s.len() && s[w] == h;
        assert(at_most(number::<T>(0), s[w].t));
        assert forall|i: int|
            0 <= i < s.len() && at_most(number::<T>(0), #[trigger] s[i].t) implies at_most(
            h.t,
            s[i].t,
        ) by {
            assert(line.contains(s[i]));
            let j = choose|j: int| 0 <= j < line.len() && line[j] == s[i];
            assert(at_most(number::<T>(0), line[j].t));
        }
    }
}

/// The meetings of one ray with the shapes of a scene.
#[derive(Debug)]
pub struct Intersections<T> {
    pub intersections: Vec<Intersection<T>>,
}

impl<T: Scalar> View for Intersections<T> {
    type V = Seq<Intersection<T>>;

    open spec fn view(&self) -> Seq<Intersection<T>> {
        self.intersections@
    }
}

impl<T: Scalar> Intersections<T> {
    /// The collection of the given meetings, in the given order.
    pub fn new(intersections: Vec<Intersection<T>>) -> (r: Self)
        ensures
            r@ == intersections@,
    {
        Intersections { intersections }
    }

    /// The collection without any meeting.
    pub fn empty() -> (r: Self)
        ensures
            r@ == Seq::<Intersection<T>>::empty(),
    {
        Intersections { intersections: Vec::new() }
    }

    pub fn len(&self) -> (r: usize)
        ensures
            r == self@.len(),
    {
        self.intersections.len()
    }

    /// The meeting at position `index`.
    pub fn get(&self, index: usize) -> (r: Intersection<T>)
        requires
            index < self@.len(),
        ensures
            r == self@[index as int],
    {
        self.intersections[index]
    }

    /// Puts one meeting in behind the last one that it is not before.
    pub fn insert(&mut self, x: Intersection<T>)
        requires
            lawful::<T>(),
        ensures
            final(self)@ == inserted(old(self)@, x),
    {
        let mut k: usize = self.intersections.len();
        while k > 0 && less(x.t, self.intersections[k - 1].t)
            invariant
                lawful::<T>(),
                self@ == old(self)@,
                k <= self@.len(),
                forall|j: int| k <= j < self@.len() ==> less(x.t, #[trigger] self@[j].t),
            decreases k,
        {
            k -= 1;
        }
        proof {
            lemma_inserted_at(self@, x, k as int);
        }
        self.intersections.insert(k, x);
    }

    /// Orders the meetings by rising ray parameter. Meetings that are level
    /// keep their order.
    pub fn sort(&mut self)
        requires
            lawful::<T>(),
        ensures
            final(self)@ == sorted_by_t(old(self)@),
            final(self)@.to_multiset() == old(self)@.to_multiset(),
            ordered::<T>() && all_ranked(old(self)@) ==> ascending(final(self)@),
    {
        let mut out = Intersections { intersections: Vec::new() };
        let mut i: usize = 0;
        while i < self.intersections.len()
            invariant
                lawful::<T>(),
                self@ == old(self)@,
                i <= self@.len(),
                out@ == sorted_by_t(self@.take(i as int)),
            decreases self@.len() - i,
        {
            let x = self.intersections[i];
            proof {
                let upto = self@.take(i + 1);
                assert(upto.drop_last() =~= self@.take(i as int));
                assert(upto.last() == x);
            }
            out.insert(x);
            i += 1;
        }
        proof {
            assert(self@.take(self@.len() as int) =~= self@);
            lemma_sorted_keeps(self@);
            if ordered::<T>() && all_ranked(self@) {
                lemma_sorted_rises(self@);
            }
        }
        self.intersections = out.intersections;
    }

    /// Takes in the meetings of `other` and puts the whole collection in
    /// rising order.
    pub fn extend(&mut self, other: Intersections<T>)
        requires
            lawful::<T>(),
        ensures
            final(self)@ == sorted_by_t(old(self)@ + other@),
            final(self)@.to_multiset() == (old(self)@ + other@).to_multiset(),
            ordered::<T>() && all_ranked(old(self)@ + other@) ==> ascending(final(self)@),
    {
        let mut i: usize = 0;
        while i < other.intersections.len()
            invariant
                i <= other@.len(),
                self@ == old(self)@ + other@.take(i as int),
            decreases other@.len() - i,
        {
            self.intersections.push(other.intersections[i]);
            proof {
                assert(other@.take(i + 1) =~= other@.take(i as int).push(other@[i as int]));
                assert(self@ =~= old(self)@ + other@.take(i + 1));
            }
            i += 1;
        }
        proof {
            assert(other@.take(other@.len() as int) =~= other@);
        }
        self.sort();
    }

    /// The hit: the meeting with the smallest ray parameter that is zero or
    /// more. Meetings behind the ray's start do not count. The collection
    /// is left in rising order.
    pub fn hit(&mut self) -> (r: Option<Intersection<T>>)
        requires
            lawful::<T>(),
        ensures
            final(self)@ == sorted_by_t(old(self)@),
            r == hit_of(final(self)@),
            ordered::<T>() && all_ranked(old(self)@) ==> {
                &&& r is None <==> forall|i: int|
                    0 <= i < old(self)@.len() ==> !at_most(
                        number::<T>(0),
                        #[trigger] old(self)@[i].t,
                    )
                &&& r is Some ==> old(self)@.contains(r->Some_0) && at_most(
                    number::<T>(0),
                    r->Some_0.t,
                ) && forall|i: int|
                    0 <= i < old(self)@.len() && at_most(
                        number::<T>(0),
                        #[trigger] old(self)@[i].t,
                    ) ==> at_most(r->Some_0.t, old(self)@[i].t)
            },
    {
        self.sort();
        let zero = number::<T>(0);
        let mut k: usize = 0;
        while k < self.intersections.len() && !at_most(zero, self.intersections[k].t)
            invariant
                lawful::<T>(),
                zero == number::<T>(0),
                self@ == sorted_by_t(old(self)@),
                k <= self@.len(),
                first_ahead(self@, 0) == first_ahead(self@, k as int),
            decreases self@.len() - k,
        {
            k += 1;
        }
        let r = if k < self.intersections.len() {
            Some(self.intersections[k])
        } else {
            None
        };
        proof {
            lemma_first_ahead(self@, k as int);
            if ordered::<T>() && all_ranked(old(self)@) {
                lemma_hit_of_sorted(old(self)@);
            }
        }
        r
    }
}

} // verus!
