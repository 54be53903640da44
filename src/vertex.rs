//! The vertex record shared with the GPU and the 4x4 transform matrix, both held as the
//! IEEE-754 bit patterns of their single-precision components.
use vstd::prelude::*;
use crate::bytes::{push_words, words_bytes, lemma_words_bytes_len};

verus! {

/// Bytes taken by one vertex in the vertex buffer: eleven 32-bit components.
pub const VERTEX_SIZE: usize = 44;

/// Bytes taken by one 4x4 matrix of 32-bit components.
pub const TRANSFORM_SIZE: usize = 64;

/// The bit pattern of the single-precision value 1.0.
pub const ONE_BITS: u32 = 0x3f80_0000;

/// One vertex: position, normal, color (three components each) and texture
/// coordinates (two), in that order, each component the bit pattern of an `f32`.
#[derive(Clone, Copy, Debug)]
pub struct Vertex {
    pub position_: [u32; 3],
    pub normal_: [u32; 3],
    pub color_: [u32; 3],
    pub uv_: [u32; 2],
}

impl Vertex {
    /// The eleven components in buffer order.
    pub open spec fn words(&self) -> Seq<u32> {
        self.position_@ + self.normal_@ + self.color_@ + self.uv_@
    }

    /// The eleven components in buffer order.
    pub fn to_words(&self) -> (r: Vec<u32>)
        ensures
            r@ == self.words(),
    {
        let mut r: Vec<u32> = Vec::new();
        r.push(self.position_[0]);
        r.push(self.position_[1]);
        r.push(self.position_[2]);
        r.push(self.normal_[0]);
        r.push(self.normal_[1]);
        r.push(self.normal_[2]);
        r.push(self.color_[0]);
        r.push(self.color_[1]);
        r.push(self.color_[2]);
        r.push(self.uv_[0]);
        r.push(self.uv_[1]);
        assert(r@ =~= self.words());
        r
    }
}

/// The bytes of a sequence of vertices as the vertex buffer holds them.
pub open spec fn vertices_bytes(s: Seq<Vertex>) -> Seq<u8>
    decreases s.len(),
{
    if s.len() == 0 {
        Seq::empty()
    } else {
        vertices_bytes(s.drop_last()) + words_bytes(s.last().words())
    }
}

pub proof fn lemma_vertices_bytes_len(s: Seq<Vertex>)
    ensures
        vertices_bytes(s).len() == VERTEX_SIZE * s.len(),
    decreases s.len(),
{
    if s.len() > 0 {
        lemma_vertices_bytes_len(s.drop_last());
        lemma_words_bytes_len(s.last().words());
    }
}

/// The byte image of `vertices`, as it is staged for upload.
pub fn vertices_to_bytes(vertices: &Vec<Vertex>) -> (r: Vec<u8>)
    ensures
        r@ == vertices_bytes(vertices@),
{
    let mut r: Vec<u8> = Vec::new();
    let mut i: usize = 0;
    while i < vertices.len()
        invariant
            i <= vertices@.len(),
            r@ == vertices_bytes(vertices@.subrange(0, i as int)),
        decreases vertices@.len() - i,
    {
        proof {
            assert(vertices@.subrange(0, i as int + 1).drop_last() =~= vertices@.subrange(
                0,
                i as int,
            ));
        }
        let words = vertices[i].to_words();
        push_words(&mut r, words.as_slice());
        i = i + 1;
    }
    assert(vertices@.subrange(0, i as int) =~= vertices@);
    r
}

/// A 4x4 matrix of single-precision bit patterns, column by column.
#[derive(Clone, Copy, Debug)]
pub struct Transform {
    pub elements_: [u32; 16],
}

/// The 16 components of the identity matrix, column by column.
pub open spec fn identity_elements() -> Seq<u32> {
    Seq::new(16, |k: int| if k % 5 == 0 { ONE_BITS } else { 0u32 })
}

impl Transform {
    /// The identity matrix.
    pub fn identity() -> (r: Transform)
        ensures
            r.elements_@ == identity_elements(),
    {
        let r = Transform {
            elements_: [
                ONE_BITS, 0, 0, 0,
                0, ONE_BITS, 0, 0,
                0, 0, ONE_BITS, 0,
                0, 0, 0, ONE_BITS,
            ],
        };
        assert(r.elements_@ =~= identity_elements());
        r
    }

    /// The 64 bytes of the matrix as a uniform or push-constant block holds them.
    pub open spec fn bytes(&self) -> Seq<u8> {
        words_bytes(self.elements_@)
    }
}

/// The 64 little-endian bytes of `matrix`, column by column.
pub fn mat4_to_bytes(matrix: &Transform) -> (r: Vec<u8>)
    ensures
        r@ == matrix.bytes(),
        r@.len() == TRANSFORM_SIZE,
{
    let mut r: Vec<u8> = Vec::new();
    push_words(&mut r, matrix.elements_.as_slice());
    proof {
        lemma_words_bytes_len(matrix.elements_@);
    }
    r
}

} // verus!
