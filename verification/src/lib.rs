//! A vector-path library: a mutable, appendable geometric path made of
//! moves, lines, cubic Bezier curves and subpath closures, with cloning,
//! affine transformation, stroked bounding-box computation, and a traversal
//! protocol that replays the stored segments to a caller-supplied visitor
//! in original order.

pub mod bounds;
pub mod error;
pub mod geometry;
pub mod laws;
pub mod path;
pub mod transform;
pub mod walker;

pub use error::EngineError;
pub use geometry::{Matrix, Point, Rect, StrokeState};
pub use path::{Element, Path};
pub use walker::{PathWalker, RecordingWalker};
