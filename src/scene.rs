use vstd::prelude::*;
use crate::geometry::{Intersectable, Intersection, material_of};
use crate::ray::Ray;

verus! {

/// Rays cast at a greater depth than this return black without touching the scene.
pub const MAX_DEPTH: u16 = 7;

/// What the scene decides for one ray; the caller turns it into a color.
#[derive(Clone, Copy, Debug, PartialEq, Eq, Structural)]
pub enum RayOutcome {
    /// The depth ceiling was passed: the color is black.
    DepthExceeded,
    /// The ray struck nothing: the miss shader gives the color.
    Missed,
    /// The ray struck geometry shaded by the material at `material_index`.
    Shaded { material_index: usize, intersection: Intersection },
    /// The ray struck geometry whose material the scene does not hold: the color is
    /// black.
    MaterialMissing { intersection: Intersection },
}

/// The whole world a ray is cast into. The materials are addressed by their index.
pub struct Scene<C, M, L, A, S, G> {
    pub camera: C,
    pub materials: Vec<M>,
    pub lights: Vec<L>,
    pub area_lights: Vec<A>,
    pub miss_shader: S,
    pub root_geometry: G,
}

/// What the scene decides for `ray` at `depth`, given what the root geometry returns
/// for it and how many materials there are.
pub open spec fn ray_outcome(hit: Option<Intersection>, depth: u16, material_count: nat) -> RayOutcome {
    if depth > MAX_DEPTH {
        RayOutcome::DepthExceeded
    } else {
        match hit {
            None => RayOutcome::Missed,
            Some(i) => if material_of(i) < material_count {
                RayOutcome::Shaded { material_index: material_of(i), intersection: i }
            } else {
                RayOutcome::MaterialMissing { intersection: i }
            },
        }
    }
}

/// The distance to a hit, never negative: a ray that starts inside geometry is at
/// distance zero.
pub open spec fn hit_distance(hit: Option<Intersection>) -> Option<i64> {
    match hit {
        None => None,
        Some(i) => Some(if i.entrance_distance < 0 { 0 } else { i.entrance_distance }),
    }
}

impl<C, M, L, A, S, G: Intersectable> Scene<C, M, L, A, S, G> {
    pub fn new(
        camera: C,
        materials: Vec<M>,
        lights: Vec<L>,
        area_lights: Vec<A>,
        miss_shader: S,
        root_geometry: G,
    ) -> (r: Self)
        ensures
            r.camera == camera,
            r.materials@ == materials@,
            r.lights@ == lights@,
            r.area_lights@ == area_lights@,
            r.miss_shader == miss_shader,
            r.root_geometry == root_geometry,
    {
        Scene { camera, materials, lights, area_lights, miss_shader, root_geometry }
    }

    /// Decides how `ray`, cast at recursion `depth`, is to be colored. Past the depth
    /// ceiling the root geometry is not consulted at all.
    pub fn cast_ray(&self, ray: &Ray, depth: u16) -> (r: RayOutcome)
        requires
            ray.wf(),
        ensures
            r == ray_outcome(
                self.root_geometry.intersection_of(*ray),
                depth,
                self.materials@.len(),
            ),
    {
        if depth > MAX_DEPTH {
            return RayOutcome::DepthExceeded;
        }
        match self.root_geometry.intersect(ray) {
            None => RayOutcome::Missed,
            Some(intersection) => {
                let material_index = match intersection.material_index_override {
                    Some(k) => k,
                    None => intersection.hit_material_index,
                };
                if material_index < self.materials.len() {
                    RayOutcome::Shaded { material_index, intersection }
                } else {
                    RayOutcome::MaterialMissing { intersection }
                }
            },
        }
    }

    /// The distance along `ray` to the geometry it strikes, clamped at zero; `None`
    /// when it strikes nothing.
    pub fn cast_ray_distance(&self, ray: &Ray) -> (r: Option<i64>)
        requires
            ray.wf(),
        ensures
            r == hit_distance(self.root_geometry.intersection_of(*ray)),
    {
        match self.root_geometry.intersect(ray) {
            None => None,
            Some(intersection) => {
                if intersection.entrance_distance < 0 {
                    Some(0)
                } else {
                    Some(intersection.entrance_distance)
                }
            },
        }
    }
}

/// Past the depth ceiling a ray is black whatever the scene holds and whatever the
/// root geometry would return.
pub proof fn lemma_depth_ceiling(hit: Option<Intersection>, depth: u16, material_count: nat)
    requires
        depth > MAX_DEPTH,
    ensures
        ray_outcome(hit, depth, material_count) == RayOutcome::DepthExceeded,
{
}

/// Within the depth ceiling a ray that strikes nothing goes to the miss shader.
pub proof fn lemma_miss_goes_to_miss_shader(depth: u16, material_count: nat)
    requires
        depth <= MAX_DEPTH,
    ensures
        ray_outcome(None, depth, material_count) == RayOutcome::Missed,
{
}

/// The distance to a hit is never negative, and a hit that starts behind the ray's
/// origin is at distance zero.
pub proof fn lemma_hit_distance_not_negative(i: Intersection)
    ensures
        hit_distance(Some(i)) matches Some(d) && d >= 0,
        i.entrance_distance < 0 ==> hit_distance(Some(i)) == Some(0i64),
{
}

} // verus!
