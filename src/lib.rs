pub mod vector3;
pub mod ray;
pub mod bounding_box;
pub mod geometry;
pub mod scene;
