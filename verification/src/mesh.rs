//! Vertex and index data of a mesh, and the one mesh that the renderer
//! draws: a quad over the whole viewport.

use crate::scalar::Float32;
use crate::scalar::NEG_ONE;
use crate::scalar::ONE;
use crate::uniform::in_memory_order;
use crate::uniform::words_as_bytes;
use vstd::prelude::*;

verus! {

/// Bytes from one vertex to the next in a vertex buffer.
pub const VERTEX_STRIDE: u64 = 8;

/// Words in one vertex.
pub const VERTEX_WORDS: usize = 2;

/// Whether the pipelines take the triangles whose corners run clockwise for
/// the front, and drop the others.
pub const FRONT_FACE_CLOCKWISE: bool = true;

/// A corner of a mesh: a position in clip space, x then y.
#[derive(Clone, Copy, Debug)]
pub struct Vertex {
    pub position: [Float32; 2],
}

/// Vertices, and the indices that make triangles of them, three by three.
#[derive(Clone, Debug)]
pub struct Mesh {
    pub vertices: Vec<Vertex>,
    pub indices: Vec<u16>,
}

/// Byte `k` of a 16-bit index, counted from the least significant.
pub open spec fn index_byte(h: u16, k: int) -> u8 {
    if k == 0 {
        (h % 0x100) as u8
    } else {
        (h / 0x100) as u8
    }
}

/// Whether `bytes` are `indices` as a machine lays them out in memory: in
/// one of the two byte orders, the same for every index.
pub open spec fn indices_in_memory_order(bytes: Seq<u8>, indices: Seq<u16>) -> bool {
    ||| bytes == Seq::new(2 * indices.len(), |i: int| index_byte(indices[i / 2], i % 2))
    ||| bytes == Seq::new(2 * indices.len(), |i: int| index_byte(indices[i / 2], 1 - i % 2))
}

/// `bytemuck::cast_slice`, from 16-bit indices to bytes. The call hands back
/// the memory of its argument under another type: two bytes for each index,
/// in the machine's byte order. From a wider to a narrower element it cannot
/// fail.
#[verifier::external_body]
fn indices_as_bytes(indices: &Vec<u16>) -> (bytes: Vec<u8>)
    ensures
        indices_in_memory_order(bytes@, indices@),
{
    bytemuck::cast_slice::<u16, u8>(indices.as_slice()).to_vec()
}

impl Vertex {
    pub fn new(x: Float32, y: Float32) -> (v: Vertex)
        ensures
            v.position[0] == x,
            v.position[1] == y,
    {
        Vertex { position: [x, y] }
    }
}

impl Mesh {
    /// Whether the indices make whole triangles of vertices that exist.
    pub open spec fn well_formed(self) -> bool {
        &&& self.indices@.len() % 3 == 0
        &&& forall|i: int| 0 <= i < self.indices@.len() ==> self.indices@[i] < self.vertices@.len()
    }

    /// The vertex data as words: x then y of each vertex.
    pub open spec fn vertex_words(self) -> Seq<u32> {
        Seq::new(2 * self.vertices@.len(), |i: int| self.vertices@[i / 2].position[i % 2].bits)
    }

    pub fn new(vertices: Vec<Vertex>, indices: Vec<u16>) -> (m: Mesh)
        ensures
            m.vertices == vertices,
            m.indices == indices,
    {
        Mesh { vertices, indices }
    }

    /// Whether the indices make whole triangles of vertices that exist.
    pub fn is_well_formed(&self) -> (ok: bool)
        ensures
            ok == self.well_formed(),
    {
        if self.indices.len() % 3 != 0 {
            return false;
        }
        let n = self.vertices.len();
        let mut i: usize = 0;
        while i < self.indices.len()
            invariant
                i <= self.indices@.len(),
                n == self.vertices@.len(),
                forall|k: int| 0 <= k < i ==> self.indices@[k] < n,
            decreases self.indices@.len() - i,
        {
            if self.indices[i] as usize >= n {
                return false;
            }
            i += 1;
        }
        true
    }

    /// The count that an indexed draw of the whole mesh is given: the number
    /// of indices, cut to 32 bits.
    pub fn num_indices(&self) -> (n: u32)
        ensures
            n == self.indices@.len() % 0x1_0000_0000,
    {
        let len: u64 = self.indices.len() as u64;
        assert(len as u32 == len % 0x1_0000_0000) by (bit_vector);
        #[verifier::truncate]
        (len as u32)
    }

    /// The bytes that fill the vertex buffer.
    pub fn vertex_bytes(&self) -> (b: Vec<u8>)
        ensures
            in_memory_order(b@, self.vertex_words()),
    {
        let mut w: Vec<u32> = Vec::new();
        let mut i: usize = 0;
        while i < self.vertices.len()
            invariant
                i <= self.vertices@.len(),
                w@.len() == 2 * i,
                forall|n: int|
                    0 <= n < w@.len() ==> w@[n] == self.vertices@[n / 2].position[n % 2].bits,
            decreases self.vertices@.len() - i,
        {
            let v = &self.vertices[i];
            w.push(v.position[0].to_bits());
            w.push(v.position[1].to_bits());
            i += 1;
        }
        assert(w@ =~= self.vertex_words());
        words_as_bytes(&w)
    }

    /// The bytes that fill the index buffer.
    pub fn index_bytes(&self) -> (b: Vec<u8>)
        ensures
            indices_in_memory_order(b@, self.indices@),
            b@.len() == 2 * self.indices@.len(),
    {
        indices_as_bytes(&self.indices)
    }
}

/// The corners of the viewport in clip space, from the upper right on.
pub open spec fn quad_vertices() -> Seq<Vertex> {
    seq![
        Vertex { position: [Float32 { bits: ONE }, Float32 { bits: ONE }] },
        Vertex { position: [Float32 { bits: ONE }, Float32 { bits: NEG_ONE }] },
        Vertex { position: [Float32 { bits: NEG_ONE }, Float32 { bits: NEG_ONE }] },
        Vertex { position: [Float32 { bits: NEG_ONE }, Float32 { bits: ONE }] },
    ]
}

/// The two triangles of the quad.
pub open spec fn quad_indices() -> Seq<u16> {
    seq![0u16, 1u16, 2u16, 2u16, 3u16, 0u16]
}

/// The mesh that both passes draw: four corners, two triangles.
pub fn new_fullscreen_quad() -> (m: Mesh)
    ensures
        m.vertices@ == quad_vertices(),
        m.indices@ == quad_indices(),
        m.well_formed(),
{
    let mut vertices: Vec<Vertex> = Vec::new();
    vertices.push(Vertex::new(Float32::from_bits(ONE), Float32::from_bits(ONE)));
    vertices.push(Vertex::new(Float32::from_bits(ONE), Float32::from_bits(NEG_ONE)));
    vertices.push(Vertex::new(Float32::from_bits(NEG_ONE), Float32::from_bits(NEG_ONE)));
    vertices.push(Vertex::new(Float32::from_bits(NEG_ONE), Float32::from_bits(ONE)));
    let mut indices: Vec<u16> = Vec::new();
    indices.push(0);
    indices.push(1);
    indices.push(2);
    indices.push(2);
    indices.push(3);
    indices.push(0);
    assert(vertices@ =~= quad_vertices()) by {
        assert forall|i: int| 0 <= i < 4 implies vertices@[i] == quad_vertices()[i] by {
            assert(vertices@[i].position =~= quad_vertices()[i].position);
        }
    }
    assert(indices@ =~= quad_indices());
    Mesh::new(vertices, indices)
}

/// Where a coordinate of a quad corner lies: 1 for 1.0, -1 for -1.0.
pub open spec fn side(c: Float32) -> int {
    if c.bits == ONE {
        1
    } else if c.bits == NEG_ONE {
        -1
    } else {
        0
    }
}

/// Twice the signed area of the triangle `a`, `b`, `c`, with +y up: negative
/// where the three run clockwise.
pub open spec fn signed_area(a: (int, int), b: (int, int), c: (int, int)) -> int {
    (b.0 - a.0) * (c.1 - a.1) - (b.1 - a.1) * (c.0 - a.0)
}

/// Where a vertex of the quad lies, by the sides of the viewport.
pub open spec fn corner(v: Vertex) -> (int, int) {
    (side(v.position[0]), side(v.position[1]))
}

/// Twice the signed area of the triangle that three vertices of a mesh make.
pub open spec fn turn(vertices: Seq<Vertex>, a: int, b: int, c: int) -> int {
    signed_area(corner(vertices[a]), corner(vertices[b]), corner(vertices[c]))
}

/// Both triangles of the quad face the front of the pipelines that draw it,
/// so neither is dropped, and together they have the area of the viewport: a
/// square of side 2.
pub proof fn law_quad_fills_viewport_clockwise()
    ensures
        FRONT_FACE_CLOCKWISE,
        turn(quad_vertices(), 0, 1, 2) < 0,
        turn(quad_vertices(), 2, 3, 0) < 0,
        turn(quad_vertices(), 0, 1, 2) + turn(quad_vertices(), 2, 3, 0) == -2 * (2 * 2),
{
    let v = quad_vertices();
    assert(corner(v[0]) == (1int, 1int));
    assert(corner(v[1]) == (1int, -1int));
    assert(corner(v[2]) == (-1int, -1int));
    assert(corner(v[3]) == (-1int, 1int));
    assert(signed_area((1int, 1int), (1int, -1int), (-1int, -1int)) == -4) by (nonlinear_arith);
    assert(signed_area((-1int, -1int), (-1int, 1int), (1int, 1int)) == -4) by (nonlinear_arith);
}

} // verus!
