//! The geometry buffer manager: how many vertices and indices the two
//! buffers have room for.
//!
//! A buffer that is too small is replaced by one of exactly the size asked
//! for; a buffer never shrinks.

use crate::mesh::{INDEX_SIZE, VERTEX_SIZE};
use vstd::prelude::*;

verus! {

/// The capacities of the vertex buffer and of the index buffer, in elements.
pub struct GeometryBuffers {
    vb_len: u32,
    ib_len: u32,
}

/// The buffers that have to be replaced, each with the size in bytes of the
/// buffer that takes its place.
#[derive(Clone, Copy, Debug, PartialEq, Eq)]
pub struct BufferGrowth {
    pub vertex_buffer: Option<u64>,
    pub index_buffer: Option<u64>,
}

/// The capacity of a buffer after room for `required` elements was asked for.
pub open spec fn grown(capacity: nat, required: nat) -> nat {
    if required > capacity {
        required
    } else {
        capacity
    }
}

/// The capacity of a buffer after each of `requests` was asked for in turn.
pub open spec fn grown_by_all(capacity: nat, requests: Seq<nat>) -> nat
    decreases requests.len(),
{
    if requests.len() == 0 {
        capacity
    } else {
        grown(grown_by_all(capacity, requests.drop_last()), requests.last())
    }
}

/// The size in bytes of the buffer to allocate when room for `required`
/// elements of `element_size` bytes is asked of a buffer that holds
/// `capacity`; `None` where the buffer stays.
pub open spec fn replacement(capacity: nat, required: nat, element_size: nat) -> Option<u64> {
    if required > capacity {
        Some((required * element_size) as u64)
    } else {
        None
    }
}

impl GeometryBuffers {
    /// Vertices that the vertex buffer has room for.
    pub closed spec fn spec_vertex_capacity(&self) -> u32 {
        self.vb_len
    }

    /// Indices that the index buffer has room for.
    pub closed spec fn spec_index_capacity(&self) -> u32 {
        self.ib_len
    }

    /// Two buffers without room for anything.
    pub fn new() -> (buffers: GeometryBuffers)
        ensures
            buffers.spec_vertex_capacity() == 0,
            buffers.spec_index_capacity() == 0,
    {
        GeometryBuffers { vb_len: 0, ib_len: 0 }
    }

    /// Vertices that the vertex buffer has room for.
    #[verifier::when_used_as_spec(spec_vertex_capacity)]
    pub fn vertex_capacity(&self) -> (capacity: u32)
        ensures
            capacity == self.spec_vertex_capacity(),
    {
        self.vb_len
    }

    /// Indices that the index buffer has room for.
    #[verifier::when_used_as_spec(spec_index_capacity)]
    pub fn index_capacity(&self) -> (capacity: u32)
        ensures
            capacity == self.spec_index_capacity(),
    {
        self.ib_len
    }

    /// Makes room for the geometry of a frame. Each buffer is looked at on
    /// its own: it is replaced if and only if more is required than it holds,
    /// and then by a buffer of exactly the size required.
    pub fn ensure_capacity(&mut self, required_vertices: u32, required_indices: u32) -> (growth:
        BufferGrowth)
        ensures
            final(self).vertex_capacity() == grown(
                old(self).vertex_capacity() as nat,
                required_vertices as nat,
            ),
            final(self).index_capacity() == grown(
                old(self).index_capacity() as nat,
                required_indices as nat,
            ),
            final(self).vertex_capacity() >= old(self).vertex_capacity(),
            final(self).index_capacity() >= old(self).index_capacity(),
            growth.vertex_buffer.is_some() <==> required_vertices > old(self).vertex_capacity(),
            growth.index_buffer.is_some() <==> required_indices > old(self).index_capacity(),
            growth.vertex_buffer == replacement(
                old(self).vertex_capacity() as nat,
                required_vertices as nat,
                VERTEX_SIZE as nat,
            ),
            growth.index_buffer == replacement(
                old(self).index_capacity() as nat,
                required_indices as nat,
                INDEX_SIZE as nat,
            ),
    {
        let mut growth = BufferGrowth { vertex_buffer: None, index_buffer: None };
        if self.vb_len < required_vertices {
            growth.vertex_buffer = Some(required_vertices as u64 * VERTEX_SIZE);
            self.vb_len = required_vertices;
        }
        if self.ib_len < required_indices {
            growth.index_buffer = Some(required_indices as u64 * INDEX_SIZE);
            self.ib_len = required_indices;
        }
        growth
    }
}

/// Whatever is asked of a buffer, and in whatever order, its capacity never
/// goes down: after more requests it is at least what it was after fewer,
/// and it is at least each of the requests made.
pub proof fn lemma_capacity_never_shrinks(capacity: nat, requests: Seq<nat>, earlier: int, later: int)
    requires
        0 <= earlier <= later <= requests.len(),
    ensures
        capacity <= grown_by_all(capacity, requests.take(earlier)),
        grown_by_all(capacity, requests.take(earlier)) <= grown_by_all(
            capacity,
            requests.take(later),
        ),
        forall|i: int| 0 <= i < later ==> requests[i] <= grown_by_all(capacity, requests.take(later)),
    decreases later,
{
    if later == 0 {
        assert(requests.take(0).len() == 0);
    } else {
        assert(requests.take(later).drop_last() == requests.take(later - 1));
        assert(requests.take(later).last() == requests[later - 1]);
        if earlier < later {
            lemma_capacity_never_shrinks(capacity, requests, earlier, later - 1);
        } else {
            lemma_capacity_never_shrinks(capacity, requests, later - 1, later - 1);
        }
    }
}

} // verus!
