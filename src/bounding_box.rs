use vstd::prelude::*;
use crate::ray::{
    Param, Ray, fin, lemma_nonpos_le_nonneg, lemma_slab_around_origin, lemma_slab_wf, param_le,
    param_max, param_min, slab, slab_exec,
};
use crate::vector3::{
    Coord, Vector3, coord_mid, coord_shift, coord_shift_fits, infinity_vector,
    neg_infinity_vector, vec_le, vec_max, vec_min,
};

verus! {

/// An axis aligned box, the closed set of points between `minimum` and `maximum`.
///
/// A box with `minimum <= maximum` componentwise encloses something. Two other forms
/// have a meaning of their own: the universal box from `-inf` to `+inf` holds all
/// space, and the inverse box from `+inf` to `-inf` holds nothing and is the seed
/// from which unions grow a box.
#[derive(Clone, Copy, Debug, PartialEq, Eq, Structural)]
pub struct BoundingBox {
    pub minimum: Vector3,
    pub maximum: Vector3,
}

pub open spec fn universal_box() -> BoundingBox {
    BoundingBox { minimum: neg_infinity_vector(), maximum: infinity_vector() }
}

pub open spec fn inverse_box() -> BoundingBox {
    BoundingBox { minimum: infinity_vector(), maximum: neg_infinity_vector() }
}

/// The box grown to take in `p`.
pub open spec fn box_with_point(b: BoundingBox, p: Vector3) -> BoundingBox {
    BoundingBox { minimum: vec_min(p, b.minimum), maximum: vec_max(p, b.maximum) }
}

/// The smallest box that holds both boxes.
pub open spec fn box_union(b: BoundingBox, o: BoundingBox) -> BoundingBox {
    BoundingBox { minimum: vec_min(o.minimum, b.minimum), maximum: vec_max(o.maximum, b.maximum) }
}

/// The box that encloses a sequence of points, grown from the inverse box.
pub open spec fn box_of_points(s: Seq<Vector3>) -> BoundingBox
    decreases s.len(),
{
    if s.len() == 0 {
        inverse_box()
    } else {
        box_with_point(box_of_points(s.drop_last()), s.last())
    }
}

/// The union of a sequence of boxes, grown from the inverse box.
pub open spec fn box_of_boxes(s: Seq<BoundingBox>) -> BoundingBox
    decreases s.len(),
{
    if s.len() == 0 {
        inverse_box()
    } else {
        box_union(box_of_boxes(s.drop_last()), s.last())
    }
}

pub open spec fn margin_fits(b: BoundingBox, m: Vector3) -> bool {
    &&& m.is_finite()
    &&& coord_shift_fits(b.minimum.x, -fin(m.x))
    &&& coord_shift_fits(b.minimum.y, -fin(m.y))
    &&& coord_shift_fits(b.minimum.z, -fin(m.z))
    &&& coord_shift_fits(b.maximum.x, fin(m.x) as int)
    &&& coord_shift_fits(b.maximum.y, fin(m.y) as int)
    &&& coord_shift_fits(b.maximum.z, fin(m.z) as int)
}

/// The box with its minimum lowered and its maximum raised by `m`.
pub open spec fn box_with_margin(b: BoundingBox, m: Vector3) -> BoundingBox {
    BoundingBox {
        minimum: Vector3 {
            x: coord_shift(b.minimum.x, -fin(m.x)),
            y: coord_shift(b.minimum.y, -fin(m.y)),
            z: coord_shift(b.minimum.z, -fin(m.z)),
        },
        maximum: Vector3 {
            x: coord_shift(b.maximum.x, fin(m.x) as int),
            y: coord_shift(b.maximum.y, fin(m.y) as int),
            z: coord_shift(b.maximum.z, fin(m.z) as int),
        },
    }
}

pub open spec fn box_contains_point(b: BoundingBox, p: Vector3) -> bool {
    vec_le(b.minimum, p) && vec_le(p, b.maximum)
}

/// Both corners of `o` lie in `b`, boundaries included.
pub open spec fn box_contains_box(b: BoundingBox, o: BoundingBox) -> bool {
    box_contains_point(b, o.minimum) && box_contains_point(b, o.maximum)
}

/// The extents of the two boxes meet on every axis.
pub open spec fn box_overlaps(b: BoundingBox, o: BoundingBox) -> bool {
    vec_le(o.minimum, b.maximum) && vec_le(b.minimum, o.maximum)
}

pub open spec fn box_center(b: BoundingBox) -> Vector3 {
    Vector3 {
        x: coord_mid(b.minimum.x, b.maximum.x),
        y: coord_mid(b.minimum.y, b.maximum.y),
        z: coord_mid(b.minimum.z, b.maximum.z),
    }
}

pub open spec fn slab_x(b: BoundingBox, r: Ray) -> (Param, Param) {
    slab(b.minimum.x, b.maximum.x, fin(r.position.x), fin(r.direction.x))
}

pub open spec fn slab_y(b: BoundingBox, r: Ray) -> (Param, Param) {
    slab(b.minimum.y, b.maximum.y, fin(r.position.y), fin(r.direction.y))
}

pub open spec fn slab_z(b: BoundingBox, r: Ray) -> (Param, Param) {
    slab(b.minimum.z, b.maximum.z, fin(r.position.z), fin(r.direction.z))
}

/// The distance along the ray at which it has entered all three slabs.
pub open spec fn entrance_distance(b: BoundingBox, r: Ray) -> Param {
    param_max(param_max(slab_x(b, r).0, slab_y(b, r).0), slab_z(b, r).0)
}

/// The distance along the ray at which it leaves the first of the three slabs.
pub open spec fn exit_distance(b: BoundingBox, r: Ray) -> Param {
    param_min(param_min(slab_x(b, r).1, slab_y(b, r).1), slab_z(b, r).1)
}

/// The slab test: the box is not behind the ray, and the ray is inside all three
/// slabs at once somewhere.
pub open spec fn ray_hits_box(b: BoundingBox, r: Ray) -> bool {
    param_le(Param::Ratio(0, 1), exit_distance(b, r)) && param_le(
        entrance_distance(b, r),
        exit_distance(b, r),
    )
}

impl BoundingBox {
    pub fn new(minimum: &Vector3, maximum: &Vector3) -> (r: BoundingBox)
        ensures
            r.minimum == *minimum,
            r.maximum == *maximum,
    {
        BoundingBox { minimum: *minimum, maximum: *maximum }
    }

    /// The box that holds all of space.
    pub fn new_infinity() -> (r: BoundingBox)
        ensures
            r == universal_box(),
    {
        BoundingBox::new(&Vector3::new_neg_infinity(), &Vector3::new_infinity())
    }

    /// The box that holds nothing.
    pub fn new_inverse_infinity() -> (r: BoundingBox)
        ensures
            r == inverse_box(),
    {
        BoundingBox::new(&Vector3::new_infinity(), &Vector3::new_neg_infinity())
    }

    /// The tightest box around all of `points`; the inverse box when there are none.
    pub fn from_points(points: &[Vector3]) -> (r: BoundingBox)
        ensures
            r == box_of_points(points@),
    {
        let mut minimum = Vector3::new_infinity();
        let mut maximum = Vector3::new_neg_infinity();
        let mut i: usize = 0;
        while i < points.len()
            invariant
                i <= points@.len(),
                (BoundingBox { minimum, maximum }) == box_of_points(points@.subrange(0, i as int)),
            decreases points@.len() - i,
        {
            minimum = Vector3::min(&minimum, &points[i]);
            maximum = Vector3::max(&maximum, &points[i]);
            i = i + 1;
            proof {
                let s = points@.subrange(0, i as int);
                assert(s.drop_last() == points@.subrange(0, i - 1));
                lemma_min_max_commute(points@[i - 1], box_of_points(s.drop_last()));
            }
        }
        assert(points@.subrange(0, points@.len() as int) == points@);
        BoundingBox::new(&minimum, &maximum)
    }

    /// Lowers the minimum and raises the maximum by `margin_amount`.
    pub fn add_margin(&mut self, margin_amount: &Vector3)
        requires
            margin_fits(*old(self), *margin_amount),
        ensures
            *final(self) == box_with_margin(*old(self), *margin_amount),
    {
        let mx = match margin_amount.x { Coord::Finite(v) => v, _ => 0 };
        let my = match margin_amount.y { Coord::Finite(v) => v, _ => 0 };
        let mz = match margin_amount.z { Coord::Finite(v) => v, _ => 0 };
        assert(-fin(margin_amount.x) == -mx);
        self.minimum = Vector3 {
            x: self.minimum.x.shift_down(mx),
            y: self.minimum.y.shift_down(my),
            z: self.minimum.z.shift_down(mz),
        };
        self.maximum = Vector3 {
            x: self.maximum.x.shift(mx),
            y: self.maximum.y.shift(my),
            z: self.maximum.z.shift(mz),
        };
    }

    /// Grows the box so that it holds `point`.
    pub fn add_point(&mut self, point: &Vector3)
        ensures
            *final(self) == box_with_point(*old(self), *point),
    {
        self.minimum = Vector3::min(point, &self.minimum);
        self.maximum = Vector3::max(point, &self.maximum);
    }

    /// Grows the box so that it holds `other_bounding_box`.
    pub fn add_bounding_box(&mut self, other_bounding_box: &BoundingBox)
        ensures
            *final(self) == box_union(*old(self), *other_bounding_box),
    {
        self.minimum = Vector3::min(&other_bounding_box.minimum, &self.minimum);
        self.maximum = Vector3::max(&other_bounding_box.maximum, &self.maximum);
    }

    /// Whether `point` lies in the box, boundary included.
    pub fn contains_point(&self, point: &Vector3) -> (r: bool)
        ensures
            r == box_contains_point(*self, *point),
    {
        point.x.le(&self.maximum.x) && point.y.le(&self.maximum.y) && point.z.le(&self.maximum.z)
            && self.minimum.x.le(&point.x) && self.minimum.y.le(&point.y) && self.minimum.z.le(
            &point.z,
        )
    }

    /// Whether `bounding_box` lies wholly in the box, boundaries included.
    pub fn contains_bounding_box(&self, bounding_box: &BoundingBox) -> (r: bool)
        ensures
            r == box_contains_box(*self, *bounding_box),
    {
        self.contains_point(&bounding_box.minimum) && self.contains_point(&bounding_box.maximum)
    }

    /// Whether the two boxes meet, fully or in part.
    pub fn overlaps_bounding_box(&self, bounding_box: &BoundingBox) -> (r: bool)
        ensures
            r == box_overlaps(*self, *bounding_box),
    {
        bounding_box.minimum.x.le(&self.maximum.x) && self.minimum.x.le(&bounding_box.maximum.x)
            && bounding_box.minimum.y.le(&self.maximum.y) && self.minimum.y.le(
            &bounding_box.maximum.y,
        ) && bounding_box.minimum.z.le(&self.maximum.z) && self.minimum.z.le(
            &bounding_box.maximum.z,
        )
    }

    /// The midpoint of the box, rounded down; see `coord_mid` for infinite extents.
    pub fn calculate_center_point(&self) -> (r: Vector3)
        ensures
            r == box_center(*self),
    {
        Vector3 {
            x: Coord::mid(&self.minimum.x, &self.maximum.x),
            y: Coord::mid(&self.minimum.y, &self.maximum.y),
            z: Coord::mid(&self.minimum.z, &self.maximum.z),
        }
    }

    /// The slab test of `ray` against the box.
    pub fn ray_intersects(&self, ray: &Ray) -> (r: bool)
        requires
            ray.wf(),
        ensures
            r == ray_hits_box(*self, *ray),
    {
        let (ox, oy, oz) = match (ray.position.x, ray.position.y, ray.position.z) {
            (Coord::Finite(a), Coord::Finite(b), Coord::Finite(c)) => (a, b, c),
            _ => (0, 0, 0),
        };
        let (dx, dy, dz) = match (ray.direction.x, ray.direction.y, ray.direction.z) {
            (Coord::Finite(a), Coord::Finite(b), Coord::Finite(c)) => (a, b, c),
            _ => (0, 0, 0),
        };
        let sx = slab_exec(self.minimum.x, self.maximum.x, ox, dx);
        let sy = slab_exec(self.minimum.y, self.maximum.y, oy, dy);
        let sz = slab_exec(self.minimum.z, self.maximum.z, oz, dz);
        let exit = Param::min(&Param::min(&sx.1, &sy.1), &sz.1);
        let entrance = Param::max(&Param::max(&sx.0, &sy.0), &sz.0);
        Param::Ratio(0, 1).le(&exit) && entrance.le(&exit)
    }
}

proof fn lemma_min_max_commute(p: Vector3, b: BoundingBox)
    ensures
        vec_min(b.minimum, p) == vec_min(p, b.minimum),
        vec_max(b.maximum, p) == vec_max(p, b.maximum),
{
}

/// Overlap is symmetric: `a` meets `b` exactly when `b` meets `a`.
pub proof fn lemma_overlaps_symmetric(a: BoundingBox, b: BoundingBox)
    ensures
        box_overlaps(a, b) == box_overlaps(b, a),
{
}

/// A box that encloses something (its minimum is at most its maximum on every axis)
/// contains itself: containment is inclusive at the boundaries.
pub proof fn lemma_contains_itself(a: BoundingBox)
    requires
        vec_le(a.minimum, a.maximum),
    ensures
        box_contains_box(a, a),
{
}

/// The inverse box is the identity of union: uniting it with any box gives that box,
/// and adding a point to it gives the box that is just that point.
pub proof fn lemma_inverse_box_is_union_identity(b: BoundingBox, p: Vector3)
    ensures
        box_union(inverse_box(), b) == b,
        box_with_point(inverse_box(), p) == (BoundingBox { minimum: p, maximum: p }),
{
}

/// A ray that starts inside a box (boundary included) hits it, whichever way it
/// points.
pub proof fn lemma_ray_from_inside_hits(b: BoundingBox, r: Ray)
    requires
        r.wf(),
        box_contains_point(b, r.position),
    ensures
        ray_hits_box(b, r),
{
    lemma_slab_around_origin(b.minimum.x, b.maximum.x, fin(r.position.x), fin(r.direction.x));
    lemma_slab_around_origin(b.minimum.y, b.maximum.y, fin(r.position.y), fin(r.direction.y));
    lemma_slab_around_origin(b.minimum.z, b.maximum.z, fin(r.position.z), fin(r.direction.z));
    lemma_slab_wf(b.minimum.x, b.maximum.x, fin(r.position.x), fin(r.direction.x));
    lemma_slab_wf(b.minimum.y, b.maximum.y, fin(r.position.y), fin(r.direction.y));
    lemma_slab_wf(b.minimum.z, b.maximum.z, fin(r.position.z), fin(r.direction.z));
    lemma_nonpos_le_nonneg(entrance_distance(b, r), exit_distance(b, r));
    lemma_nonpos_le_nonneg(Param::Ratio(0, 1), exit_distance(b, r));
}

} // verus!
