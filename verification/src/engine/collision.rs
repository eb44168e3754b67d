//! Collision detection: shapes, bounding boxes, the broad phase, and the
//! narrow-phase manifold builders for each shape pairing.

pub mod box_box;
pub mod box_circle;
pub mod broad_phase;
pub mod circle_circle;
pub mod manifold;
pub mod narrow_phase;
pub mod shape;

pub use manifold::{ContactPoint, Manifold};
pub use shape::{Aabb, Collider2D};
