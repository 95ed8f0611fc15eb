use vstd::prelude::*;
use crate::bounding_box::{BoundingBox, box_of_boxes, ray_hits_box};
use crate::ray::Ray;

verus! {

/// What a ray learns when it strikes a piece of geometry.
#[derive(Clone, Copy, Debug, PartialEq, Eq, Structural)]
pub struct Intersection {
    /// The distance along the ray at which it enters the geometry.
    pub entrance_distance: i64,
    /// The material that the struck geometry carries itself.
    pub hit_material_index: usize,
    /// A material chosen for this hit in place of the geometry's own.
    pub material_index_override: Option<usize>,
}

/// The material that shades a hit: the override where there is one, else the
/// struck geometry's own.
pub open spec fn material_of(i: Intersection) -> usize {
    match i.material_index_override {
        Some(k) => k,
        None => i.hit_material_index,
    }
}

/// Anything that can report an axis aligned box around itself.
pub trait BoundByBox {
    spec fn bounding_box_of(&self) -> BoundingBox;

    fn calculate_bounding_box(&self) -> (r: BoundingBox)
        ensures
            r == self.bounding_box_of(),
    ;
}

/// A shape that can tell cheaply whether a ray meets it.
pub trait BoundingVolume: BoundByBox {
    spec fn is_hit_by(&self, ray: Ray) -> bool;

    fn ray_intersects(&self, ray: &Ray) -> (r: bool)
        requires
            ray.wf(),
        ensures
            r == self.is_hit_by(*ray),
    ;
}

/// Anything a ray can strike.
pub trait Intersectable: BoundByBox {
    spec fn intersection_of(&self, ray: Ray) -> Option<Intersection>;

    fn intersect(&self, ray: &Ray) -> (r: Option<Intersection>)
        requires
            ray.wf(),
        ensures
            r == self.intersection_of(*ray),
    ;
}

impl BoundByBox for BoundingBox {
    open spec fn bounding_box_of(&self) -> BoundingBox {
        *self
    }

    fn calculate_bounding_box(&self) -> (r: BoundingBox) {
        *self
    }
}

impl BoundingVolume for BoundingBox {
    open spec fn is_hit_by(&self, ray: Ray) -> bool {
        ray_hits_box(*self, ray)
    }

    fn ray_intersects(&self, ray: &Ray) -> (r: bool) {
        BoundingBox::ray_intersects(self, ray)
    }
}

/// The union of the boxes that `geometries` report, grown from the inverse box.
pub open spec fn box_of_geometries<G: BoundByBox>(geometries: Seq<G>) -> BoundingBox {
    box_of_boxes(geometries.map_values(|g: G| g.bounding_box_of()))
}

impl BoundingBox {
    /// The tightest box around the boxes that `geometries` report.
    pub fn from_geometries<G: BoundByBox>(geometries: &[G]) -> (r: BoundingBox)
        ensures
            r == box_of_geometries(geometries@),
    {
        let ghost boxes = geometries@.map_values(|g: G| g.bounding_box_of());
        let mut bounding_box = BoundingBox::new_inverse_infinity();
        let mut i: usize = 0;
        while i < geometries.len()
            invariant
                i <= geometries@.len(),
                boxes == geometries@.map_values(|g: G| g.bounding_box_of()),
                bounding_box == box_of_boxes(boxes.subrange(0, i as int)),
            decreases geometries@.len() - i,
        {
            let b = geometries[i].calculate_bounding_box();
            bounding_box.add_bounding_box(&b);
            i = i + 1;
            proof {
                assert(boxes.subrange(0, i as int).drop_last() == boxes.subrange(0, i - 1));
            }
        }
        assert(boxes.subrange(0, boxes.len() as int) == boxes);
        bounding_box
    }
}

/// Geometry wrapped in a bounding volume: a ray that misses the volume is turned
/// away without asking the child.
pub struct BoundingGeometry<V, C> {
    pub bounding_volume: V,
    pub child: C,
}

impl<V: BoundingVolume, C: Intersectable> BoundingGeometry<V, C> {
    pub fn new(bounding_volume: V, child: C) -> (r: Self)
        ensures
            r.bounding_volume == bounding_volume,
            r.child == child,
    {
        BoundingGeometry { bounding_volume, child }
    }
}

impl<V: BoundingVolume, C: Intersectable> BoundByBox for BoundingGeometry<V, C> {
    /// The volume's box, not one computed from the child.
    open spec fn bounding_box_of(&self) -> BoundingBox {
        self.bounding_volume.bounding_box_of()
    }

    fn calculate_bounding_box(&self) -> (r: BoundingBox) {
        self.bounding_volume.calculate_bounding_box()
    }
}

impl<V: BoundingVolume, C: Intersectable> Intersectable for BoundingGeometry<V, C> {
    open spec fn intersection_of(&self, ray: Ray) -> Option<Intersection> {
        if self.bounding_volume.is_hit_by(ray) {
            self.child.intersection_of(ray)
        } else {
            None
        }
    }

    fn intersect(&self, ray: &Ray) -> (r: Option<Intersection>) {
        if self.bounding_volume.ray_intersects(ray) {
            self.child.intersect(ray)
        } else {
            None
        }
    }
}

} // verus!
