//! A scene graph of rigid transforms over exact fixed-point geometry.
//!
//! Coordinates, colours and matrix entries are `i64` fixed-point numbers in
//! units of `1 / SCALE`; transforms are persistent 4x4 matrices, scene objects
//! are leaves, one-level composites or arbitrary-depth trees, and collisions are
//! closed axis-aligned bounding-box tests.

pub mod fixed;
pub mod matrix;
pub mod obj_model;
pub mod composite_obj;
pub mod complex_obj;
pub mod scene_object;
pub mod draw;
pub mod shader;
pub mod frame;
pub mod lighting;
