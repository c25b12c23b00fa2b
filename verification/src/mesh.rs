//! The geometry of a frame as the painter receives it, and the bytes that it
//! becomes in the vertex and index buffers.

use crate::clip::ClipRect;
use crate::texture::TextureId;
use vstd::prelude::*;

verus! {

/// Bytes that one vertex takes in the vertex buffer: two 32-bit floats of
/// position, two of texture coordinate, and four bytes of colour.
pub const VERTEX_SIZE: u64 = 20;

/// Bytes that one index takes in the index buffer.
pub const INDEX_SIZE: u64 = 4;

/// The most vertices a frame may hold: the first vertex of a mesh is counted
/// with a signed 32-bit number.
pub const MAX_VERTICES: u32 = 0x7fff_ffff;

/// The most indices a frame may hold: index ranges are counted with 32 bits.
pub const MAX_INDICES: u32 = 0xffff_ffff;

/// A textured triangle mesh. Each vertex is held as the bytes that go into
/// the vertex buffer; the indices count from the mesh's own first vertex.
#[derive(Clone, Debug, PartialEq, Eq)]
pub struct Mesh {
    pub indices: Vec<u32>,
    pub vertices: Vec<[u8; 20]>,
    pub texture_id: TextureId,
}

/// What a clipped primitive draws: a mesh, or a callback of the application,
/// known to the painter by a handle only.
#[derive(Clone, Debug, PartialEq, Eq)]
pub enum Primitive {
    Mesh(Mesh),
    Callback(u64),
}

/// A primitive together with the rectangle outside of which it must not show.
#[derive(Clone, Debug, PartialEq, Eq)]
pub struct ClippedPrimitive {
    pub clip_rect: ClipRect,
    pub primitive: Primitive,
}

/// Byte `k` of a 32-bit index, counted from the least significant.
pub open spec fn index_byte(index: u32, k: int) -> u8 {
    if k == 0 {
        (index % 256) as u8
    } else if k == 1 {
        (index / 256 % 256) as u8
    } else if k == 2 {
        (index / 65536 % 256) as u8
    } else {
        (index / 16777216) as u8
    }
}

/// The vertices as they lie in the vertex buffer: the bytes of each, one
/// vertex after the other.
pub open spec fn vertex_bytes(vertices: Seq<[u8; 20]>) -> Seq<u8> {
    Seq::new(vertices.len() * 20, |i: int| vertices[i / 20][i % 20])
}

/// The indices as they lie in the index buffer: four bytes each, the least
/// significant first, one index after the other.
pub open spec fn index_bytes(indices: Seq<u32>) -> Seq<u8> {
    Seq::new(indices.len() * 4, |i: int| index_byte(indices[i / 4], i % 4))
}

/// Appends the bytes of the vertices to a packed stream.
pub fn push_vertex_bytes(packed: &mut Vec<u8>, vertices: &Vec<[u8; 20]>)
    ensures
        final(packed)@ == old(packed)@ + vertex_bytes(vertices@),
{
    let ghost before = packed@;
    let mut i: usize = 0;
    while i < vertices.len()
        invariant
            i <= vertices.len(),
            packed@ == before + vertex_bytes(vertices@.take(i as int)),
        decreases vertices.len() - i,
    {
        let vertex: &[u8; 20] = &vertices[i];
        let ghost start = packed@;
        let mut k: usize = 0;
        while k < 20
            invariant
                k <= 20,
                i < vertices.len(),
                *vertex == vertices@[i as int],
                packed@ == start + vertex@.take(k as int),
            decreases 20 - k,
        {
            packed.push(vertex[k]);
            assert(vertex@.take(k + 1) == vertex@.take(k as int).push(vertex@[k as int]));
            k += 1;
        }
        proof {
            assert(vertex@.take(20) == vertex@);
            lemma_vertex_bytes_push(vertices@.take(i as int), *vertex);
            assert(vertices@.take(i + 1) == vertices@.take(i as int).push(*vertex));
        }
        i += 1;
    }
    assert(vertices@.take(vertices.len() as int) == vertices@);
}

/// Appends the bytes of the indices to a packed stream.
pub fn push_index_bytes(packed: &mut Vec<u8>, indices: &Vec<u32>)
    ensures
        final(packed)@ == old(packed)@ + index_bytes(indices@),
{
    let ghost before = packed@;
    let mut i: usize = 0;
    while i < indices.len()
        invariant
            i <= indices.len(),
            packed@ == before + index_bytes(indices@.take(i as int)),
        decreases indices.len() - i,
    {
        let index: u32 = indices[i];
        let ghost start = packed@;
        packed.push((index % 256) as u8);
        packed.push((index / 256 % 256) as u8);
        packed.push((index / 65536 % 256) as u8);
        packed.push((index / 16777216) as u8);
        proof {
            let four = seq![
                index_byte(index, 0),
                index_byte(index, 1),
                index_byte(index, 2),
                index_byte(index, 3),
            ];
            assert(packed@ == start + four);
            lemma_index_bytes_push(indices@.take(i as int), index);
            assert(indices@.take(i + 1) == indices@.take(i as int).push(index));
        }
        i += 1;
    }
    assert(indices@.take(indices.len() as int) == indices@);
}

/// One more vertex adds its twenty bytes at the end.
pub proof fn lemma_vertex_bytes_push(vertices: Seq<[u8; 20]>, vertex: [u8; 20])
    ensures
        vertex_bytes(vertices.push(vertex)) == vertex_bytes(vertices) + vertex@,
{
    let longer = vertices.push(vertex);
    let joined = vertex_bytes(vertices) + vertex@;
    assert(vertex@.len() == 20);
    assert(vertex_bytes(longer).len() == joined.len());
    assert forall|i: int| 0 <= i < joined.len() implies vertex_bytes(longer)[i] == joined[i] by {
        if i < vertices.len() * 20 {
            assert(i / 20 < vertices.len());
            assert(longer[i / 20] == vertices[i / 20]);
        } else {
            assert(i / 20 == vertices.len());
            assert(i % 20 == i - vertices.len() * 20);
            assert(longer[i / 20] == vertex);
        }
    }
    assert(vertex_bytes(longer) =~= joined);
}

/// One more index adds its four bytes at the end.
pub proof fn lemma_index_bytes_push(indices: Seq<u32>, index: u32)
    ensures
        index_bytes(indices.push(index)) == index_bytes(indices) + seq![
            index_byte(index, 0),
            index_byte(index, 1),
            index_byte(index, 2),
            index_byte(index, 3),
        ],
{
    let longer = indices.push(index);
    let four = seq![
        index_byte(index, 0),
        index_byte(index, 1),
        index_byte(index, 2),
        index_byte(index, 3),
    ];
    let joined = index_bytes(indices) + four;
    assert(index_bytes(longer).len() == joined.len());
    assert forall|i: int| 0 <= i < joined.len() implies index_bytes(longer)[i] == joined[i] by {
        if i < indices.len() * 4 {
            assert(i / 4 < indices.len());
            assert(longer[i / 4] == indices[i / 4]);
        } else {
            assert(i / 4 == indices.len());
            assert(i % 4 == i - indices.len() * 4);
            assert(longer[i / 4] == index);
        }
    }
    assert(index_bytes(longer) =~= joined);
}

} // verus!
