//! Baking a batch into byte-exact buffer snapshots.
//!
//! A [`ShapeBuffer`] holds the batch's vertex and index containers as
//! raw little-endian bytes, laid out exactly as a graphics device
//! expects them, together with the index count for the draw call. The
//! device upload itself is the caller's affair.

use vstd::prelude::*;

use crate::batch::ShapeBatch;
use crate::geom::Vertex;

verus! {

/// The four little-endian bytes of a 32-bit value.
pub open spec fn le_bytes_32(x: u32) -> Seq<u8> {
    seq![
        (x & 0xff) as u8,
        ((x >> 8) & 0xff) as u8,
        ((x >> 16) & 0xff) as u8,
        ((x >> 24) & 0xff) as u8,
    ]
}

/// The 36 bytes of one vertex: position, then color, then texture
/// coordinates, each component as four little-endian bytes.
pub open spec fn vertex_bytes(v: Vertex) -> Seq<u8> {
    le_bytes_32(v.pos.x) + le_bytes_32(v.pos.y) + le_bytes_32(v.pos.z) + le_bytes_32(v.color.r)
        + le_bytes_32(v.color.g) + le_bytes_32(v.color.b) + le_bytes_32(v.color.a) + le_bytes_32(
        v.uv.u,
    ) + le_bytes_32(v.uv.v)
}

/// The bytes of a vertex sequence, in order.
pub open spec fn vertices_bytes(s: Seq<Vertex>) -> Seq<u8>
    decreases s.len(),
{
    if s.len() == 0 {
        Seq::empty()
    } else {
        vertices_bytes(s.drop_last()) + vertex_bytes(s.last())
    }
}

/// The bytes of an index sequence, in order.
pub open spec fn indices_bytes(s: Seq<u32>) -> Seq<u8>
    decreases s.len(),
{
    if s.len() == 0 {
        Seq::empty()
    } else {
        indices_bytes(s.drop_last()) + le_bytes_32(s.last())
    }
}

/// Every vertex takes 36 bytes.
pub proof fn lemma_vertices_bytes_len(s: Seq<Vertex>)
    ensures
        vertices_bytes(s).len() == 36 * s.len(),
    decreases s.len(),
{
    if s.len() > 0 {
        lemma_vertices_bytes_len(s.drop_last());
    }
}

/// Every index takes 4 bytes.
pub proof fn lemma_indices_bytes_len(s: Seq<u32>)
    ensures
        indices_bytes(s).len() == 4 * s.len(),
    decreases s.len(),
{
    if s.len() > 0 {
        lemma_indices_bytes_len(s.drop_last());
    }
}

/// Buffers created from a batch, ready to be handed to the device: the
/// vertex bytes, the index bytes, and how many indices there are.
#[derive(Debug)]
pub struct ShapeBuffer {
    pub vertex_buffer: Vec<u8>,
    pub index_buffer: Vec<u8>,
    pub index_len: u32,
}

impl ShapeBuffer {
    /// This buffer is exactly what baking the given batch produces.
    pub open spec fn is_bake_of(self, batch: ShapeBatch) -> bool {
        &&& self.vertex_buffer@ == vertices_bytes(batch.vertices@)
        &&& self.index_buffer@ == indices_bytes(batch.indices@)
        &&& self.index_len as int == batch.indices@.len() as int
    }
}

/// Append the four little-endian bytes of one 32-bit value.
fn push_le_32(out: &mut Vec<u8>, x: u32)
    ensures
        final(out)@ == old(out)@ + le_bytes_32(x),
{
    out.push((x & 0xff) as u8);
    out.push(((x >> 8) & 0xff) as u8);
    out.push(((x >> 16) & 0xff) as u8);
    out.push(((x >> 24) & 0xff) as u8);
    proof {
        assert(out@ =~= old(out)@ + le_bytes_32(x));
    }
}

/// Append the 36 bytes of one vertex.
fn push_vertex(out: &mut Vec<u8>, v: Vertex)
    ensures
        final(out)@ == old(out)@ + vertex_bytes(v),
{
    push_le_32(out, v.pos.x);
    push_le_32(out, v.pos.y);
    push_le_32(out, v.pos.z);
    push_le_32(out, v.color.r);
    push_le_32(out, v.color.g);
    push_le_32(out, v.color.b);
    push_le_32(out, v.color.a);
    push_le_32(out, v.uv.u);
    push_le_32(out, v.uv.v);
    proof {
        assert(out@ =~= old(out)@ + vertex_bytes(v));
    }
}

impl ShapeBatch {
    /// Create buffers based on the current batch data: the vertex and
    /// index containers copied verbatim into bytes, with no
    /// transformation and no re-indexing, and the index count recorded
    /// for the draw call. Baking reads the batch only; the snapshot it
    /// returns is independent of the batch afterwards.
    pub fn bake_buffers(&self) -> (r: ShapeBuffer)
        requires
            self.indices@.len() <= u32::MAX,
        ensures
            r.is_bake_of(*self),
    {
        let mut vertex_buffer: Vec<u8> = Vec::new();
        let mut i: usize = 0;
        while i < self.vertices.len()
            invariant
                i <= self.vertices@.len(),
                vertex_buffer@ == vertices_bytes(self.vertices@.take(i as int)),
            decreases self.vertices@.len() - i,
        {
            push_vertex(&mut vertex_buffer, self.vertices[i]);
            proof {
                assert(self.vertices@.take(i + 1 as int).drop_last() =~= self.vertices@.take(
                    i as int,
                ));
                assert(self.vertices@.take(i + 1 as int).last() == self.vertices@[i as int]);
            }
            i = i + 1;
        }
        proof {
            assert(self.vertices@.take(self.vertices@.len() as int) =~= self.vertices@);
        }
        let mut index_buffer: Vec<u8> = Vec::new();
        let mut j: usize = 0;
        while j < self.indices.len()
            invariant
                j <= self.indices@.len(),
                index_buffer@ == indices_bytes(self.indices@.take(j as int)),
            decreases self.indices@.len() - j,
        {
            push_le_32(&mut index_buffer, self.indices[j]);
            proof {
                assert(self.indices@.take(j + 1 as int).drop_last() =~= self.indices@.take(
                    j as int,
                ));
                assert(self.indices@.take(j + 1 as int).last() == self.indices@[j as int]);
            }
            j = j + 1;
        }
        proof {
            assert(self.indices@.take(self.indices@.len() as int) =~= self.indices@);
        }
        let index_len = self.indices.len() as u32;
        ShapeBuffer { vertex_buffer, index_buffer, index_len }
    }
}

/// Baking depends on the batch's content alone: two batches that hold
/// the same vertices and the same indices bake to buffers with
/// identical bytes and the same index count. In particular, baking the
/// same unmodified batch twice gives two buffers with identical
/// content.
pub proof fn lemma_bake_depends_only_on_content(
    a: ShapeBatch,
    b: ShapeBatch,
    ra: ShapeBuffer,
    rb: ShapeBuffer,
)
    requires
        a.vertices@ == b.vertices@,
        a.indices@ == b.indices@,
        ra.is_bake_of(a),
        rb.is_bake_of(b),
    ensures
        ra.vertex_buffer@ == rb.vertex_buffer@,
        ra.index_buffer@ == rb.index_buffer@,
        ra.index_len == rb.index_len,
{
}

/// A baked buffer is a snapshot: it still matches the batch content it
/// was baked from, and growing the batch afterwards cannot have leaked
/// into it, since a bake of the grown content has strictly more bytes.
pub proof fn lemma_snapshot_isolation(buf: ShapeBuffer, before: ShapeBatch, after: ShapeBatch)
    requires
        buf.is_bake_of(before),
        before.vertices@.len() < after.vertices@.len(),
    ensures
        buf.vertex_buffer@ == vertices_bytes(before.vertices@),
        buf.vertex_buffer@ != vertices_bytes(after.vertices@),
{
    lemma_vertices_bytes_len(before.vertices@);
    lemma_vertices_bytes_len(after.vertices@);
}

} // verus!
