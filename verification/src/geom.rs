//! Plain geometric value types.
//!
//! Every scalar carried here is an IEEE-754 single-precision value,
//! stored by its 32-bit pattern. The verifier reasons about those bit
//! patterns symbolically; the arithmetic on them is done by the
//! wrappers in `fbits`.

use vstd::prelude::*;

verus! {

/// Bit pattern of the single-precision value zero.
pub const BITS_ZERO: u32 = 0x0000_0000;
/// Bit pattern of the single-precision value one.
pub const BITS_ONE: u32 = 0x3F80_0000;
/// Bit pattern of the single-precision value two.
pub const BITS_TWO: u32 = 0x4000_0000;

/// A point or direction in three dimensions.
#[derive(Clone, Copy, PartialEq, Eq, Structural, Debug)]
pub struct Vec3 {
    pub x: u32,
    pub y: u32,
    pub z: u32,
}

/// A point or extent in two dimensions.
#[derive(Clone, Copy, PartialEq, Eq, Structural, Debug)]
pub struct Vec2 {
    pub x: u32,
    pub y: u32,
}

/// A rotation, as the four components of a unit quaternion.
#[derive(Clone, Copy, PartialEq, Eq, Structural, Debug)]
pub struct Quat {
    pub x: u32,
    pub y: u32,
    pub z: u32,
    pub w: u32,
}

/// An RGBA color with a single-precision channel each.
#[derive(Clone, Copy, PartialEq, Eq, Structural, Debug)]
pub struct Color {
    pub r: u32,
    pub g: u32,
    pub b: u32,
    pub a: u32,
}

/// A texture coordinate pair.
#[derive(Clone, Copy, PartialEq, Eq, Structural, Debug)]
pub struct Uv {
    pub u: u32,
    pub v: u32,
}

/// An axis-aligned rectangle in the XY plane, given by center and size.
#[derive(Clone, Copy, PartialEq, Eq, Structural, Debug)]
pub struct Rect {
    pub center: Vec2,
    pub size: Vec2,
}

/// One vertex of a shape: position, color and texture coordinates.
#[derive(Clone, Copy, PartialEq, Eq, Structural, Debug)]
pub struct Vertex {
    pub pos: Vec3,
    pub color: Color,
    pub uv: Uv,
}

/// Opaque white: every channel is one.
pub open spec fn white() -> Color {
    Color { r: BITS_ONE, g: BITS_ONE, b: BITS_ONE, a: BITS_ONE }
}

/// The default texture coordinates: the lower-left corner.
pub open spec fn uv_zero() -> Uv {
    Uv { u: BITS_ZERO, v: BITS_ZERO }
}

impl Vertex {
    /// Build a vertex from its three attributes.
    pub fn new(pos: Vec3, color: Color, uv: Uv) -> (r: Vertex)
        ensures
            r == (Vertex { pos, color, uv }),
    {
        Vertex { pos, color, uv }
    }

    /// Build a vertex from a position and optional attributes; an absent
    /// color defaults to opaque white, an absent texture coordinate to
    /// the lower-left corner.
    pub fn from_vec(pos: Vec3, color: Option<Color>, uv: Option<Uv>) -> (r: Vertex)
        ensures
            r.pos == pos,
            r.color == (if color is Some { color->0 } else { white() }),
            r.uv == (if uv is Some { uv->0 } else { uv_zero() }),
    {
        let c = match color {
            Some(c) => c,
            None => Color { r: BITS_ONE, g: BITS_ONE, b: BITS_ONE, a: BITS_ONE },
        };
        let t = match uv {
            Some(t) => t,
            None => Uv { u: BITS_ZERO, v: BITS_ZERO },
        };
        Vertex { pos, color: c, uv: t }
    }
}

} // verus!
