use std::cell::Cell;
use yart::bounding_box::BoundingBox;
use yart::geometry::{BoundByBox, BoundingGeometry, Intersectable, Intersection};
use yart::ray::Ray;
use yart::scene::{RayOutcome, Scene};
use yart::vector3::Vector3;

/// Geometry that strikes every ray with a fixed answer and counts its calls.
struct Fixed {
    hit: Option<Intersection>,
    calls: Cell<u32>,
}

impl Fixed {
    fn new(hit: Option<Intersection>) -> Fixed {
        Fixed { hit, calls: Cell::new(0) }
    }
}

impl BoundByBox for Fixed {
    fn bounding_box_of(&self) -> BoundingBox {
        self.calculate_bounding_box()
    }

    fn calculate_bounding_box(&self) -> BoundingBox {
        BoundingBox::new(&Vector3::from_value(-1), &Vector3::from_value(1))
    }
}

impl Intersectable for Fixed {
    fn intersection_of(&self, _ray: Ray) -> Option<Intersection> {
        self.hit
    }

    fn intersect(&self, _ray: &Ray) -> Option<Intersection> {
        self.calls.set(self.calls.get() + 1);
        self.hit
    }
}

fn hit(distance: i64, material: usize, over: Option<usize>) -> Intersection {
    Intersection { entrance_distance: distance, hit_material_index: material, material_index_override: over }
}

fn scene(root: Fixed, materials: usize) -> Scene<(), u32, (), (), (), Fixed> {
    Scene::new((), (0..materials as u32).collect(), vec![], vec![], (), root)
}

fn forward() -> Ray {
    Ray::new(&Vector3::new(0, 0, -4), &Vector3::new(0, 0, 1))
}

#[test]
fn depth_ceiling_overrides_hit() {
    let s = scene(Fixed::new(Some(hit(3, 0, None))), 1);
    assert_eq!(RayOutcome::DepthExceeded, s.cast_ray(&forward(), 8));
    assert_eq!(0, s.root_geometry.calls.get());
    assert_eq!(
        RayOutcome::Shaded { material_index: 0, intersection: hit(3, 0, None) },
        s.cast_ray(&forward(), 7)
    );
}

#[test]
fn miss_goes_to_miss_shader() {
    let s = scene(Fixed::new(None), 2);
    assert_eq!(RayOutcome::Missed, s.cast_ray(&forward(), 0));
    assert_eq!(1, s.root_geometry.calls.get());
}

#[test]
fn override_picks_material() {
    let s = scene(Fixed::new(Some(hit(2, 0, Some(2)))), 3);
    assert_eq!(
        RayOutcome::Shaded { material_index: 2, intersection: hit(2, 0, Some(2)) },
        s.cast_ray(&forward(), 1)
    );
    let own = scene(Fixed::new(Some(hit(2, 1, None))), 3);
    assert_eq!(
        RayOutcome::Shaded { material_index: 1, intersection: hit(2, 1, None) },
        own.cast_ray(&forward(), 1)
    );
    let zero = scene(Fixed::new(Some(hit(2, 1, Some(0)))), 3);
    assert_eq!(
        RayOutcome::Shaded { material_index: 0, intersection: hit(2, 1, Some(0)) },
        zero.cast_ray(&forward(), 1)
    );
}

#[test]
fn missing_material_is_reported() {
    let s = scene(Fixed::new(Some(hit(2, 5, None))), 3);
    assert_eq!(RayOutcome::MaterialMissing { intersection: hit(2, 5, None) }, s.cast_ray(&forward(), 0));
}

#[test]
fn distance_clamped_at_zero() {
    let inside = scene(Fixed::new(Some(hit(-6, 0, None))), 1);
    assert_eq!(Some(0), inside.cast_ray_distance(&forward()));
    let ahead = scene(Fixed::new(Some(hit(6, 0, None))), 1);
    assert_eq!(Some(6), ahead.cast_ray_distance(&forward()));
    let none = scene(Fixed::new(None), 1);
    assert_eq!(None, none.cast_ray_distance(&forward()));
}

#[test]
fn bounding_geometry_rejects_misses() {
    let volume = BoundingBox::new(&Vector3::from_value(-2), &Vector3::from_value(2));
    let wrapped = BoundingGeometry::new(volume, Fixed::new(Some(hit(2, 0, None))));
    let away = Ray::new(&Vector3::new(0, 0, -4), &Vector3::new(0, 0, -1));
    assert_eq!(None, wrapped.intersect(&away));
    assert_eq!(0, wrapped.child.calls.get());
    assert_eq!(Some(hit(2, 0, None)), wrapped.intersect(&forward()));
    assert_eq!(1, wrapped.child.calls.get());
    assert_eq!(volume, wrapped.calculate_bounding_box());
}

#[test]
fn bounding_geometry_nests() {
    let inner = BoundingGeometry::new(
        BoundingBox::new(&Vector3::from_value(-1), &Vector3::from_value(1)),
        Fixed::new(Some(hit(3, 0, None))),
    );
    let outer = BoundingGeometry::new(BoundingBox::new_infinity(), inner);
    let s = Scene::new((), vec![0u32], Vec::<()>::new(), Vec::<()>::new(), (), outer);
    let beside = Ray::new(&Vector3::new(0, 7, -4), &Vector3::new(0, 0, 1));
    assert_eq!(RayOutcome::Missed, s.cast_ray(&beside, 0));
    assert_eq!(Some(3), s.cast_ray_distance(&forward()));
}
