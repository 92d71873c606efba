//! The full-screen quad that the render pass draws.
//!
//! Four vertices at the corners of normalized device coordinates, two
//! counter-clockwise triangles over six indices, and texture coordinates
//! spanning the unit square. The corner coordinates are the exact integers
//! -1, 0 and 1; the application widens them to the floating-point vertex
//! format when it uploads the buffer.

use vstd::prelude::*;

verus! {

/// One corner of the quad: a position in normalized device coordinates and
/// its texture coordinate.
#[derive(Clone, Copy, PartialEq, Eq, Structural, Debug)]
pub struct QuadVertex {
    pub x: i8,
    pub y: i8,
    pub u: u8,
    pub v: u8,
}

/// How many 32-bit floats the uploaded position takes: `(x, y, z, w)`.
pub const POSITION_FLOATS: u32 = 4;

/// How many 32-bit floats the uploaded texture coordinate takes: `(u, v)`.
pub const UV_FLOATS: u32 = 2;

/// Bytes per packed 32-bit float.
pub const FLOAT_BYTES: u32 = 4;

/// The quad's corners in draw order, counter-clockwise from the lower
/// left.
pub open spec fn spec_quad_vertices() -> Seq<QuadVertex> {
    seq![
        QuadVertex { x: -1i8, y: -1i8, u: 0u8, v: 0u8 },
        QuadVertex { x: 1i8, y: -1i8, u: 1u8, v: 0u8 },
        QuadVertex { x: 1i8, y: 1i8, u: 1u8, v: 1u8 },
        QuadVertex { x: -1i8, y: 1i8, u: 0u8, v: 1u8 },
    ]
}

/// The six indices of the quad's two triangles.
pub open spec fn spec_quad_indices() -> Seq<u16> {
    seq![0u16, 1u16, 2u16, 2u16, 3u16, 0u16]
}

/// Twice the signed area of the triangle `(a, b, c)`; positive exactly for
/// counter-clockwise winding.
pub open spec fn spec_cross_z(a: QuadVertex, b: QuadVertex, c: QuadVertex) -> int {
    (b.x - a.x) * (c.y - a.y) - (b.y - a.y) * (c.x - a.x)
}

/// Both triangles of the quad wind counter-clockwise, so back-face culling
/// keeps them.
pub proof fn lemma_quad_winding_ccw()
    ensures
        spec_cross_z(
            spec_quad_vertices()[spec_quad_indices()[0] as int],
            spec_quad_vertices()[spec_quad_indices()[1] as int],
            spec_quad_vertices()[spec_quad_indices()[2] as int],
        ) > 0,
        spec_cross_z(
            spec_quad_vertices()[spec_quad_indices()[3] as int],
            spec_quad_vertices()[spec_quad_indices()[4] as int],
            spec_quad_vertices()[spec_quad_indices()[5] as int],
        ) > 0,
{
    let vs = spec_quad_vertices();
    let ix = spec_quad_indices();
    assert(ix[0] == 0 && ix[1] == 1 && ix[2] == 2 && ix[3] == 2 && ix[4] == 3 && ix[5] == 0);
    assert(vs[0] == (QuadVertex { x: -1i8, y: -1i8, u: 0u8, v: 0u8 }));
    assert(vs[1] == (QuadVertex { x: 1i8, y: -1i8, u: 1u8, v: 0u8 }));
    assert(vs[2] == (QuadVertex { x: 1i8, y: 1i8, u: 1u8, v: 1u8 }));
    assert(vs[3] == (QuadVertex { x: -1i8, y: 1i8, u: 0u8, v: 1u8 }));
    assert(spec_cross_z(vs[0], vs[1], vs[2]) == 4) by (nonlinear_arith)
        requires
            vs[0].x == -1 && vs[0].y == -1 && vs[1].x == 1 && vs[1].y == -1 && vs[2].x == 1
                && vs[2].y == 1,
    ;
    assert(spec_cross_z(vs[2], vs[3], vs[0]) == 4) by (nonlinear_arith)
        requires
            vs[2].x == 1 && vs[2].y == 1 && vs[3].x == -1 && vs[3].y == 1 && vs[0].x == -1
                && vs[0].y == -1,
    ;
}

/// Each texture coordinate is the positional coordinate carried from
/// `[-1, 1]` to `[0, 1]`: the quad samples the whole grid exactly once
/// across the whole viewport.
pub proof fn lemma_quad_uv_spans_unit_square()
    ensures
        forall|i: int|
            0 <= i < spec_quad_vertices().len() ==> {
                &&& 2 * spec_quad_vertices()[i].u == spec_quad_vertices()[i].x + 1
                &&& 2 * spec_quad_vertices()[i].v == spec_quad_vertices()[i].y + 1
            },
{
}

/// The quad's vertices, ready to upload.
pub fn quad_vertices() -> (r: Vec<QuadVertex>)
    ensures
        r@ == spec_quad_vertices(),
{
    let mut out: Vec<QuadVertex> = Vec::new();
    out.push(QuadVertex { x: -1, y: -1, u: 0, v: 0 });
    out.push(QuadVertex { x: 1, y: -1, u: 1, v: 0 });
    out.push(QuadVertex { x: 1, y: 1, u: 1, v: 1 });
    out.push(QuadVertex { x: -1, y: 1, u: 0, v: 1 });
    proof {
        assert(out@ =~= spec_quad_vertices());
    }
    out
}

/// The quad's index buffer. Every index points at one of the four
/// vertices.
pub fn quad_indices() -> (r: Vec<u16>)
    ensures
        r@ == spec_quad_indices(),
        forall|i: int| 0 <= i < r@.len() ==> r@[i] < spec_quad_vertices().len(),
{
    let mut out: Vec<u16> = Vec::new();
    out.push(0);
    out.push(1);
    out.push(2);
    out.push(2);
    out.push(3);
    out.push(0);
    proof {
        assert(out@ =~= spec_quad_indices());
    }
    out
}

/// Bytes between consecutive vertices in the uploaded buffer: the packed
/// position then the packed texture coordinate.
pub fn vertex_stride() -> (r: u32)
    ensures
        r == (POSITION_FLOATS + UV_FLOATS) * FLOAT_BYTES,
        r == 24,
{
    (POSITION_FLOATS + UV_FLOATS) * FLOAT_BYTES
}

/// Byte offset of the texture coordinate inside one vertex: right after
/// the position.
pub fn uv_offset() -> (r: u32)
    ensures
        r == POSITION_FLOATS * FLOAT_BYTES,
        r == 16,
{
    POSITION_FLOATS * FLOAT_BYTES
}

} // verus!
