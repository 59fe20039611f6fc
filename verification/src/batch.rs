//! Accumulation of shape geometry into a vertex/index batch.

use vstd::prelude::*;

use crate::fbits::diff_bits;
use crate::fbits::quot_bits;
use crate::fbits::sum_bits;
use crate::fbits::fadd;
use crate::fbits::fdiv;
use crate::fbits::fsub;
use crate::fbits::qrot3;
use crate::fbits::qrotate;
use crate::fbits::vadd;
use crate::fbits::vadd3;
use crate::fbits::vcross;
use crate::fbits::vcross3;
use crate::fbits::vneg;
use crate::fbits::vneg3;
use crate::fbits::vnormalize;
use crate::fbits::vscale;
use crate::fbits::vscale3;
use crate::fbits::vsub;
use crate::fbits::vsub3;
use crate::fbits::vunit3;
use crate::geom::BITS_ONE;
use crate::geom::BITS_TWO;
use crate::geom::BITS_ZERO;
use crate::geom::Color;
use crate::geom::Quat;
use crate::geom::Rect;
use crate::geom::Uv;
use crate::geom::Vec3;
use crate::geom::Vertex;

verus! {

/// The unit vector along X.
pub open spec fn x_axis() -> Vec3 {
    Vec3 { x: BITS_ONE, y: BITS_ZERO, z: BITS_ZERO }
}

/// The unit vector along Y.
pub open spec fn y_axis() -> Vec3 {
    Vec3 { x: BITS_ZERO, y: BITS_ONE, z: BITS_ZERO }
}

/// The unit vector along Z.
pub open spec fn z_axis() -> Vec3 {
    Vec3 { x: BITS_ZERO, y: BITS_ZERO, z: BITS_ONE }
}

/// The three sequential indices a triangle emits, starting at `c`.
pub open spec fn triangle_indices(c: u32) -> Seq<u32> {
    seq![c, (c + 1) as u32, (c + 2) as u32]
}

/// The four vertices of an axis-aligned square in the XY plane:
/// bottom-left, bottom-right, top-left, top-right around `center`,
/// each at z zero, with texture corners (0,0), (1,0), (0,1), (1,1).
pub open spec fn square2d_vertices(center: Vec3, w: u32, h: u32, color: Color) -> Seq<Vertex> {
    let hw = quot_bits(w, BITS_TWO);
    let hh = quot_bits(h, BITS_TWO);
    let x0 = diff_bits(center.x, hw);
    let x1 = sum_bits(center.x, hw);
    let y0 = diff_bits(center.y, hh);
    let y1 = sum_bits(center.y, hh);
    seq![
        Vertex { pos: Vec3 { x: x0, y: y0, z: BITS_ZERO }, color: color, uv: Uv { u: BITS_ZERO, v: BITS_ZERO } },
        Vertex { pos: Vec3 { x: x1, y: y0, z: BITS_ZERO }, color: color, uv: Uv { u: BITS_ONE, v: BITS_ZERO } },
        Vertex { pos: Vec3 { x: x0, y: y1, z: BITS_ZERO }, color: color, uv: Uv { u: BITS_ZERO, v: BITS_ONE } },
        Vertex { pos: Vec3 { x: x1, y: y1, z: BITS_ZERO }, color: color, uv: Uv { u: BITS_ONE, v: BITS_ONE } },
    ]
}

/// The six indices of the two triangles of an axis-aligned square,
/// starting at `c`: winding `[0, 1, 2, 2, 1, 3]`.
pub open spec fn square2d_indices(c: u32) -> Seq<u32> {
    seq![
        c,
        (c + 1) as u32,
        (c + 2) as u32,
        (c + 2) as u32,
        (c + 1) as u32,
        (c + 3) as u32,
    ]
}

/// The four vertices of an oriented square: the right direction is the
/// normalized cross product of `up` and `normal`, and the corners are
/// `center` offset by plus or minus half the width along right and half
/// the height along up, with texture corners as in the axis-aligned case.
pub open spec fn oriented_square_vertices(
    center: Vec3,
    up: Vec3,
    normal: Vec3,
    w: u32,
    h: u32,
    color: Color,
) -> Seq<Vertex> {
    let right = vunit3(vcross3(up, normal));
    let rw = vscale3(right, quot_bits(w, BITS_TWO));
    let uh = vscale3(up, quot_bits(h, BITS_TWO));
    seq![
        Vertex { pos: vsub3(vsub3(center, rw), uh), color: color, uv: Uv { u: BITS_ZERO, v: BITS_ZERO } },
        Vertex { pos: vsub3(vadd3(center, rw), uh), color: color, uv: Uv { u: BITS_ONE, v: BITS_ZERO } },
        Vertex { pos: vadd3(vsub3(center, rw), uh), color: color, uv: Uv { u: BITS_ZERO, v: BITS_ONE } },
        Vertex { pos: vadd3(vadd3(center, rw), uh), color: color, uv: Uv { u: BITS_ONE, v: BITS_ONE } },
    ]
}

/// The six indices of the two triangles of an oriented square, starting
/// at `c`: winding `[0, 2, 1, 1, 2, 3]`, the mirror of the axis-aligned
/// case, so a face built by `add_cube` winds outward.
pub open spec fn oriented_square_indices(c: u32) -> Seq<u32> {
    seq![
        c,
        (c + 2) as u32,
        (c + 1) as u32,
        (c + 1) as u32,
        (c + 2) as u32,
        (c + 3) as u32,
    ]
}

/// The 24 vertices of a cube: six independent faces, each an oriented
/// square placed half an extent out along one of the rotated axes and
/// using that axis as its outward normal.
pub open spec fn cube_vertices(center: Vec3, orientation: Quat, scale: Vec3, color: Color) -> Seq<
    Vertex,
> {
    let hw = quot_bits(scale.x, BITS_TWO);
    let hh = quot_bits(scale.y, BITS_TWO);
    let hd = quot_bits(scale.z, BITS_TWO);
    let right = qrot3(orientation, x_axis());
    let up = qrot3(orientation, y_axis());
    let forw = qrot3(orientation, z_axis());
    oriented_square_vertices(vadd3(center, vscale3(right, hw)), up, right, scale.y, scale.z, color)
        + oriented_square_vertices(
        vsub3(center, vscale3(right, hw)),
        up,
        vneg3(right),
        scale.y,
        scale.z,
        color,
    ) + oriented_square_vertices(vadd3(center, vscale3(up, hh)), forw, up, scale.x, scale.z, color)
        + oriented_square_vertices(
        vsub3(center, vscale3(up, hh)),
        forw,
        vneg3(up),
        scale.x,
        scale.z,
        color,
    ) + oriented_square_vertices(vadd3(center, vscale3(forw, hd)), up, forw, scale.x, scale.y, color)
        + oriented_square_vertices(
        vsub3(center, vscale3(forw, hd)),
        up,
        vneg3(forw),
        scale.x,
        scale.y,
        color,
    )
}

/// The 36 indices of a cube: six oriented-square index runs, one per
/// face, each four indices further on.
pub open spec fn cube_indices(c: u32) -> Seq<u32> {
    oriented_square_indices(c) + oriented_square_indices((c + 4) as u32)
        + oriented_square_indices((c + 8) as u32) + oriented_square_indices((c + 12) as u32)
        + oriented_square_indices((c + 16) as u32) + oriented_square_indices((c + 20) as u32)
}

/// A queue of shapes to be drawn together: the vertices and triangle
/// indices accumulated so far, and the counter the next shape's indices
/// start at.
#[derive(Debug)]
pub struct ShapeBatch {
    pub vertices: Vec<Vertex>,
    pub indices: Vec<u32>,
    pub index_id_counter: u32,
}

impl ShapeBatch {
    /// The batch's bookkeeping invariant: the index counter equals the
    /// number of vertices, and every emitted index refers to a vertex
    /// already in the batch.
    pub open spec fn wf(self) -> bool {
        &&& self.index_id_counter as int == self.vertices@.len() as int
        &&& forall|i: int|
            0 <= i < self.indices@.len() ==> (self.indices@[i] as int) < self.vertices@.len() as int
    }

    /// Add a triangle from its three vertices, in order, with three
    /// sequential indices starting at the current counter.
    pub fn add_triangle(&mut self, v: [Vertex; 3])
        requires
            old(self).index_id_counter + 3 <= u32::MAX,
        ensures
            final(self).vertices@ == old(self).vertices@ + seq![v[0], v[1], v[2]],
            final(self).indices@ == old(self).indices@ + triangle_indices(
                old(self).index_id_counter,
            ),
            final(self).index_id_counter == old(self).index_id_counter + 3,
            old(self).wf() ==> final(self).wf(),
    {
        let index = self.index_id_counter;
        self.vertices.push(v[0]);
        self.indices.push(index);
        self.vertices.push(v[1]);
        self.indices.push(index + 1);
        self.vertices.push(v[2]);
        self.indices.push(index + 2);
        self.index_id_counter = index + 3;
        proof {
            assert(self.vertices@ =~= old(self).vertices@ + seq![v[0], v[1], v[2]]);
            assert(self.indices@ =~= old(self).indices@ + triangle_indices(index));
        }
    }

    /// Add an axis-aligned square in the XY plane from its center,
    /// width, height and color: four vertices and two triangles wound
    /// `[0, 1, 2, 2, 1, 3]`.
    pub fn add_2d_square(&mut self, center: Vec3, w: u32, h: u32, color: Color)
        requires
            old(self).index_id_counter + 4 <= u32::MAX,
        ensures
            final(self).vertices@ == old(self).vertices@ + square2d_vertices(center, w, h, color),
            final(self).indices@ == old(self).indices@ + square2d_indices(
                old(self).index_id_counter,
            ),
            final(self).index_id_counter == old(self).index_id_counter + 4,
            old(self).wf() ==> final(self).wf(),
    {
        let hw = fdiv(w, BITS_TWO);
        let hh = fdiv(h, BITS_TWO);
        let x0 = fsub(center.x, hw);
        let x1 = fadd(center.x, hw);
        let y0 = fsub(center.y, hh);
        let y1 = fadd(center.y, hh);
        self.vertices.push(
            Vertex {
                pos: Vec3 { x: x0, y: y0, z: BITS_ZERO },
                color,
                uv: Uv { u: BITS_ZERO, v: BITS_ZERO },
            },
        );
        self.vertices.push(
            Vertex {
                pos: Vec3 { x: x1, y: y0, z: BITS_ZERO },
                color,
                uv: Uv { u: BITS_ONE, v: BITS_ZERO },
            },
        );
        self.vertices.push(
            Vertex {
                pos: Vec3 { x: x0, y: y1, z: BITS_ZERO },
                color,
                uv: Uv { u: BITS_ZERO, v: BITS_ONE },
            },
        );
        self.vertices.push(
            Vertex {
                pos: Vec3 { x: x1, y: y1, z: BITS_ZERO },
                color,
                uv: Uv { u: BITS_ONE, v: BITS_ONE },
            },
        );
        let index = self.index_id_counter;
        self.indices.push(index);
        self.indices.push(index + 1);
        self.indices.push(index + 2);
        self.indices.push(index + 2);
        self.indices.push(index + 1);
        self.indices.push(index + 3);
        self.index_id_counter = index + 4;
        proof {
            assert(self.vertices@ =~= old(self).vertices@ + square2d_vertices(
                center,
                w,
                h,
                color,
            ));
            assert(self.indices@ =~= old(self).indices@ + square2d_indices(index));
        }
    }

    /// Add an axis-aligned square from a rectangle's center and size,
    /// at z zero.
    pub fn add_rect(&mut self, rect: &Rect, color: Color)
        requires
            old(self).index_id_counter + 4 <= u32::MAX,
        ensures
            final(self).vertices@ == old(self).vertices@ + square2d_vertices(
                Vec3 { x: rect.center.x, y: rect.center.y, z: BITS_ZERO },
                rect.size.x,
                rect.size.y,
                color,
            ),
            final(self).indices@ == old(self).indices@ + square2d_indices(
                old(self).index_id_counter,
            ),
            final(self).index_id_counter == old(self).index_id_counter + 4,
            old(self).wf() ==> final(self).wf(),
    {
        self.add_2d_square(
            Vec3 { x: rect.center.x, y: rect.center.y, z: BITS_ZERO },
            rect.size.x,
            rect.size.y,
            color,
        );
    }

    /// Add an oriented square from its center, up vector, face normal,
    /// width, height and color: four vertices and two triangles wound
    /// `[0, 2, 1, 1, 2, 3]`. A degenerate up/normal pair is not an
    /// error; it yields degenerate geometry.
    pub fn add_square(&mut self, center: Vec3, up: Vec3, normal: Vec3, w: u32, h: u32, color: Color)
        requires
            old(self).index_id_counter + 4 <= u32::MAX,
        ensures
            final(self).vertices@ == old(self).vertices@ + oriented_square_vertices(
                center,
                up,
                normal,
                w,
                h,
                color,
            ),
            final(self).indices@ == old(self).indices@ + oriented_square_indices(
                old(self).index_id_counter,
            ),
            final(self).index_id_counter == old(self).index_id_counter + 4,
            old(self).wf() ==> final(self).wf(),
    {
        let right = vnormalize(vcross(up, normal));
        let hw = fdiv(w, BITS_TWO);
        let hh = fdiv(h, BITS_TWO);
        let rw = vscale(right, hw);
        let uh = vscale(up, hh);
        self.vertices.push(
            Vertex {
                pos: vsub(vsub(center, rw), uh),
                color,
                uv: Uv { u: BITS_ZERO, v: BITS_ZERO },
            },
        );
        self.vertices.push(
            Vertex {
                pos: vsub(vadd(center, rw), uh),
                color,
                uv: Uv { u: BITS_ONE, v: BITS_ZERO },
            },
        );
        self.vertices.push(
            Vertex {
                pos: vadd(vsub(center, rw), uh),
                color,
                uv: Uv { u: BITS_ZERO, v: BITS_ONE },
            },
        );
        self.vertices.push(
            Vertex {
                pos: vadd(vadd(center, rw), uh),
                color,
                uv: Uv { u: BITS_ONE, v: BITS_ONE },
            },
        );
        let index = self.index_id_counter;
        self.indices.push(index);
        self.indices.push(index + 2);
        self.indices.push(index + 1);
        self.indices.push(index + 1);
        self.indices.push(index + 2);
        self.indices.push(index + 3);
        self.index_id_counter = index + 4;
        proof {
            assert(self.vertices@ =~= old(self).vertices@ + oriented_square_vertices(
                center,
                up,
                normal,
                w,
                h,
                color,
            ));
            assert(self.indices@ =~= old(self).indices@ + oriented_square_indices(index));
        }
    }

    /// Add a cube from its center, orientation, per-axis scale and
    /// color: six independent oriented faces, 24 vertices and 36
    /// indices, each face's normal pointing outward.
    pub fn add_cube(&mut self, center: Vec3, orientation: Quat, scale: Vec3, color: Color)
        requires
            old(self).index_id_counter + 24 <= u32::MAX,
        ensures
            final(self).vertices@ == old(self).vertices@ + cube_vertices(
                center,
                orientation,
                scale,
                color,
            ),
            final(self).indices@ == old(self).indices@ + cube_indices(old(self).index_id_counter),
            final(self).index_id_counter == old(self).index_id_counter + 24,
            final(self).vertices@.len() == old(self).vertices@.len() + 24,
            final(self).indices@.len() == old(self).indices@.len() + 36,
            old(self).wf() ==> final(self).wf(),
    {
        let hw = fdiv(scale.x, BITS_TWO);
        let hh = fdiv(scale.y, BITS_TWO);
        let hd = fdiv(scale.z, BITS_TWO);
        let right = qrotate(orientation, Vec3 { x: BITS_ONE, y: BITS_ZERO, z: BITS_ZERO });
        let up = qrotate(orientation, Vec3 { x: BITS_ZERO, y: BITS_ONE, z: BITS_ZERO });
        let forw = qrotate(orientation, Vec3 { x: BITS_ZERO, y: BITS_ZERO, z: BITS_ONE });
        let ghost c0 = self.index_id_counter;
        self.add_square(vadd(center, vscale(right, hw)), up, right, scale.y, scale.z, color);
        self.add_square(vsub(center, vscale(right, hw)), up, vneg(right), scale.y, scale.z, color);
        self.add_square(vadd(center, vscale(up, hh)), forw, up, scale.x, scale.z, color);
        self.add_square(vsub(center, vscale(up, hh)), forw, vneg(up), scale.x, scale.z, color);
        self.add_square(vadd(center, vscale(forw, hd)), up, forw, scale.x, scale.y, color);
        self.add_square(vsub(center, vscale(forw, hd)), up, vneg(forw), scale.x, scale.y, color);
        proof {
            assert(self.vertices@ =~= old(self).vertices@ + cube_vertices(
                center,
                orientation,
                scale,
                color,
            ));
            assert(self.indices@ =~= old(self).indices@ + cube_indices(c0));
        }
    }
}

impl Default for ShapeBatch {
    /// An empty batch: no vertices, no indices, counter zero.
    fn default() -> (r: ShapeBatch)
        ensures
            r.vertices@ == Seq::<Vertex>::empty(),
            r.indices@ == Seq::<u32>::empty(),
            r.index_id_counter == 0,
            r.wf(),
    {
        let r = ShapeBatch { vertices: Vec::new(), indices: Vec::new(), index_id_counter: 0 };
        proof {
            assert(r.vertices@ =~= Seq::<Vertex>::empty());
            assert(r.indices@ =~= Seq::<u32>::empty());
        }
        r
    }
}

} // verus!
