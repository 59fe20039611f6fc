//! Batching of simple shapes into vertex/index data for one draw call.
//!
//! A [`batch::ShapeBatch`] accumulates vertices and indices from
//! high-level shape requests (triangle, square, rectangle, cube); baking
//! it yields a [`buffer::ShapeBuffer`], a byte-exact snapshot ready to be
//! uploaded to a graphics device.

pub mod batch;
pub mod buffer;
pub mod fbits;
pub mod geom;

pub use batch::ShapeBatch;
pub use buffer::ShapeBuffer;
pub use geom::Color;
pub use geom::Quat;
pub use geom::Rect;
pub use geom::Uv;
pub use geom::Vec2;
pub use geom::Vec3;
pub use geom::Vertex;
