//! The draw-call compiler: from the clipped primitives of a frame to the
//! packed geometry and the ordered list of draw calls.
//!
//! The primitives are taken in the order given and nothing is reordered or
//! merged: paint order decides how overlapping geometry blends.

use crate::clip::{lemma_scissor_lies_within, scissor_rect, spec_scissor_rect};
use crate::mesh::{
    index_bytes, push_index_bytes, push_vertex_bytes, vertex_bytes, ClippedPrimitive, Mesh,
    Primitive, MAX_INDICES, MAX_VERTICES,
};
use crate::texture::TextureId;
use vstd::prelude::*;

verus! {

/// One unit of work of a frame: a scissor rectangle, and what is drawn
/// inside it.
#[derive(Clone, Copy, Debug, PartialEq, Eq)]
pub enum EguiDrawCalls {
    /// An indexed draw of a mesh. The mesh's vertices start at vertex
    /// `base_vertex` of the vertex buffer, and the vertex buffer is bound from
    /// there on, so that its indices, which count from the mesh's own first
    /// vertex, can be used as they are. Its indices are those from
    /// `index_start` up to, not including, `index_end` of the index buffer.
    Mesh { clip_rect: [u32; 4], texture_id: TextureId, base_vertex: i32, index_start: u32, index_end: u32 },
    /// A callback of the application, to be painted on a screen of
    /// `screen_size_px` physical pixels.
    Callback { clip_rect: [u32; 4], paint_callback: u64, screen_size_px: [u32; 2] },
}

/// The geometry of a frame as it goes into the buffers, from offset 0 on.
#[derive(Clone, Debug, PartialEq, Eq)]
pub struct Geometry {
    /// The bytes of the vertex buffer.
    pub vertices: Vec<u8>,
    /// The bytes of the index buffer.
    pub indices: Vec<u8>,
}

/// What the compiler makes of a frame.
#[derive(Clone, Debug, PartialEq, Eq)]
pub struct CompiledFrame {
    /// Vertices of all meshes of the frame, which the vertex buffer has to
    /// have room for.
    pub total_vertices: u32,
    /// Indices that the index buffer has to have room for: those of all
    /// meshes of the frame, or none where the frame has no vertex.
    pub total_indices: u32,
    /// The draw calls, in paint order.
    pub draw_calls: Vec<EguiDrawCalls>,
    /// What to write into the buffers; `None` where the frame has no vertex
    /// and nothing is written.
    pub geometry: Option<Geometry>,
}

/// The frame has vertices, and it holds more vertices or indices than can
/// be counted.
#[derive(Clone, Copy, Debug, PartialEq, Eq, Structural)]
pub struct GeometryTooLarge;

impl EguiDrawCalls {
    /// The scissor rectangle `[x, y, width, height]` of the draw call.
    pub open spec fn spec_clip_rect(&self) -> [u32; 4] {
        match *self {
            EguiDrawCalls::Mesh { clip_rect, .. } => clip_rect,
            EguiDrawCalls::Callback { clip_rect, .. } => clip_rect,
        }
    }

    /// The scissor rectangle lies within the screen on both axes and covers
    /// at least one pixel each way.
    pub open spec fn lies_within(self, screen: [u32; 2]) -> bool {
        let rect = self.spec_clip_rect();
        &&& rect[0] + rect[2] <= screen[0]
        &&& rect[1] + rect[3] <= screen[1]
        &&& rect[2] >= 1
        &&& rect[3] >= 1
    }

    /// A mesh starts at a vertex of the buffer, and its index range does not
    /// end before it starts.
    pub open spec fn wf(self) -> bool {
        match self {
            EguiDrawCalls::Mesh { base_vertex, index_start, index_end, .. } => base_vertex >= 0
                && index_start <= index_end,
            EguiDrawCalls::Callback { .. } => true,
        }
    }

    /// What a mesh reads lies within buffers that hold `vertices` vertices
    /// and `indices` indices: its first vertex and the end of its index
    /// range.
    pub open spec fn fits(self, vertices: int, indices: int) -> bool {
        match self {
            EguiDrawCalls::Mesh { base_vertex, index_end, .. } => base_vertex <= vertices
                && index_end <= indices,
            EguiDrawCalls::Callback { .. } => true,
        }
    }

    /// The scissor rectangle `[x, y, width, height]` of the draw call.
    #[verifier::when_used_as_spec(spec_clip_rect)]
    pub fn clip_rect(&self) -> (rect: [u32; 4])
        ensures
            rect == self.spec_clip_rect(),
    {
        match self {
            EguiDrawCalls::Mesh { clip_rect, .. } => *clip_rect,
            EguiDrawCalls::Callback { clip_rect, .. } => *clip_rect,
        }
    }
}

/// Vertices of the primitive, if it is a mesh.
pub open spec fn vertex_count(primitive: ClippedPrimitive) -> nat {
    match primitive.primitive {
        Primitive::Mesh(mesh) => mesh.vertices@.len(),
        Primitive::Callback(_) => 0,
    }
}

/// Indices of the primitive, if it is a mesh.
pub open spec fn index_count(primitive: ClippedPrimitive) -> nat {
    match primitive.primitive {
        Primitive::Mesh(mesh) => mesh.indices@.len(),
        Primitive::Callback(_) => 0,
    }
}

/// Vertices of the meshes among the first `n` primitives.
pub open spec fn total_vertices(primitives: Seq<ClippedPrimitive>, n: int) -> nat
    decreases n,
{
    if n <= 0 {
        0
    } else {
        total_vertices(primitives, n - 1) + vertex_count(primitives[n - 1])
    }
}

/// Indices of the meshes among the first `n` primitives.
pub open spec fn total_indices(primitives: Seq<ClippedPrimitive>, n: int) -> nat
    decreases n,
{
    if n <= 0 {
        0
    } else {
        total_indices(primitives, n - 1) + index_count(primitives[n - 1])
    }
}

/// Whether the primitive is drawn: whether a pixel is left of its clip
/// rectangle on the screen.
pub open spec fn is_drawn(primitive: ClippedPrimitive, screen: [u32; 2]) -> bool {
    spec_scissor_rect(primitive.clip_rect, screen).is_some()
}

/// Vertices that the meshes among the first `n` primitives put into the
/// vertex buffer: those of the meshes that are drawn.
pub open spec fn vertices_before(primitives: Seq<ClippedPrimitive>, screen: [u32; 2], n: int) -> nat
    decreases n,
{
    if n <= 0 {
        0
    } else if is_drawn(primitives[n - 1], screen) {
        vertices_before(primitives, screen, n - 1) + vertex_count(primitives[n - 1])
    } else {
        vertices_before(primitives, screen, n - 1)
    }
}

/// Indices that the meshes among the first `n` primitives put into the index
/// buffer: those of the meshes that are drawn.
pub open spec fn indices_before(primitives: Seq<ClippedPrimitive>, screen: [u32; 2], n: int) -> nat
    decreases n,
{
    if n <= 0 {
        0
    } else if is_drawn(primitives[n - 1], screen) {
        indices_before(primitives, screen, n - 1) + index_count(primitives[n - 1])
    } else {
        indices_before(primitives, screen, n - 1)
    }
}

/// The draw call of primitive `i`, or `None` if it is not drawn. A mesh
/// starts where the meshes drawn before it end, in both buffers.
pub open spec fn draw_call_at(primitives: Seq<ClippedPrimitive>, screen: [u32; 2], i: int) -> Option<
    EguiDrawCalls,
> {
    match spec_scissor_rect(primitives[i].clip_rect, screen) {
        None => None,
        Some(clip_rect) => Some(
            match primitives[i].primitive {
                Primitive::Mesh(mesh) => EguiDrawCalls::Mesh {
                    clip_rect,
                    texture_id: mesh.texture_id,
                    base_vertex: vertices_before(primitives, screen, i) as i32,
                    index_start: indices_before(primitives, screen, i) as u32,
                    index_end: (indices_before(primitives, screen, i) + mesh.indices@.len()) as u32,
                },
                Primitive::Callback(paint_callback) => EguiDrawCalls::Callback {
                    clip_rect,
                    paint_callback,
                    screen_size_px: screen,
                },
            },
        ),
    }
}

/// The draw calls of the first `n` primitives, in their order.
pub open spec fn draw_calls_before(primitives: Seq<ClippedPrimitive>, screen: [u32; 2], n: int) -> Seq<
    EguiDrawCalls,
>
    decreases n,
{
    if n <= 0 {
        Seq::empty()
    } else {
        match draw_call_at(primitives, screen, n - 1) {
            Some(draw_call) => draw_calls_before(primitives, screen, n - 1).push(draw_call),
            None => draw_calls_before(primitives, screen, n - 1),
        }
    }
}

/// The bytes that primitive `i` adds to the vertex buffer.
pub open spec fn vertex_bytes_at(primitives: Seq<ClippedPrimitive>, screen: [u32; 2], i: int) -> Seq<
    u8,
> {
    match primitives[i].primitive {
        Primitive::Mesh(mesh) if is_drawn(primitives[i], screen) => vertex_bytes(mesh.vertices@),
        _ => Seq::empty(),
    }
}

/// The bytes that primitive `i` adds to the index buffer.
pub open spec fn index_bytes_at(primitives: Seq<ClippedPrimitive>, screen: [u32; 2], i: int) -> Seq<
    u8,
> {
    match primitives[i].primitive {
        Primitive::Mesh(mesh) if is_drawn(primitives[i], screen) => index_bytes(mesh.indices@),
        _ => Seq::empty(),
    }
}

/// The bytes that the first `n` primitives put into the vertex buffer.
pub open spec fn packed_vertices(primitives: Seq<ClippedPrimitive>, screen: [u32; 2], n: int) -> Seq<
    u8,
>
    decreases n,
{
    if n <= 0 {
        Seq::empty()
    } else {
        packed_vertices(primitives, screen, n - 1) + vertex_bytes_at(primitives, screen, n - 1)
    }
}

/// The bytes that the first `n` primitives put into the index buffer.
pub open spec fn packed_indices(primitives: Seq<ClippedPrimitive>, screen: [u32; 2], n: int) -> Seq<
    u8,
>
    decreases n,
{
    if n <= 0 {
        Seq::empty()
    } else {
        packed_indices(primitives, screen, n - 1) + index_bytes_at(primitives, screen, n - 1)
    }
}

/// Whether the vertices and indices of the frame can be counted.
pub open spec fn countable(primitives: Seq<ClippedPrimitive>) -> bool {
    &&& total_vertices(primitives, primitives.len() as int) <= MAX_VERTICES
    &&& total_indices(primitives, primitives.len() as int) <= MAX_INDICES
}

/// Whether the frame is taken: a frame without any vertex always is, since
/// nothing of it is drawn; any other is if its geometry can be counted.
pub open spec fn within_limits(primitives: Seq<ClippedPrimitive>) -> bool {
    total_vertices(primitives, primitives.len() as int) == 0 || countable(primitives)
}

/// Indices that the index buffer has to have room for: those of all meshes
/// of the frame, or none where the frame has no vertex.
pub open spec fn required_indices(primitives: Seq<ClippedPrimitive>) -> nat {
    if total_vertices(primitives, primitives.len() as int) == 0 {
        0
    } else {
        total_indices(primitives, primitives.len() as int)
    }
}

/// The draw calls of a frame: none if the frame has no vertex at all, else
/// one for each primitive that is drawn.
pub open spec fn frame_draw_calls(primitives: Seq<ClippedPrimitive>, screen: [u32; 2]) -> Seq<
    EguiDrawCalls,
> {
    if total_vertices(primitives, primitives.len() as int) == 0 {
        Seq::empty()
    } else {
        draw_calls_before(primitives, screen, primitives.len() as int)
    }
}

/// The totals grow with the number of primitives counted, and what is drawn
/// is part of the total.
pub proof fn lemma_totals_grow(primitives: Seq<ClippedPrimitive>, screen: [u32; 2], m: int, n: int)
    requires
        m <= n,
    ensures
        total_vertices(primitives, m) <= total_vertices(primitives, n),
        total_indices(primitives, m) <= total_indices(primitives, n),
        vertices_before(primitives, screen, m) <= vertices_before(primitives, screen, n),
        indices_before(primitives, screen, m) <= indices_before(primitives, screen, n),
        vertices_before(primitives, screen, n) <= total_vertices(primitives, n),
        indices_before(primitives, screen, n) <= total_indices(primitives, n),
    decreases n,
{
    if n > 0 {
        if m < n {
            lemma_totals_grow(primitives, screen, m, n - 1);
        } else {
            lemma_totals_grow(primitives, screen, n - 1, n - 1);
        }
    }
}

/// How many of the first `n` primitives are drawn.
pub open spec fn drawn_before(primitives: Seq<ClippedPrimitive>, screen: [u32; 2], n: int) -> nat
    decreases n,
{
    if n <= 0 {
        0
    } else if is_drawn(primitives[n - 1], screen) {
        drawn_before(primitives, screen, n - 1) + 1
    } else {
        drawn_before(primitives, screen, n - 1)
    }
}

/// The draw calls keep the order of the primitives, and nothing is added or
/// merged: there is one draw call for each primitive that is drawn, and the
/// draw call of a primitive stands behind the draw calls of exactly those
/// primitives before it that are drawn.
pub proof fn lemma_draw_calls_keep_order(
    primitives: Seq<ClippedPrimitive>,
    screen: [u32; 2],
    n: int,
    i: int,
)
    requires
        0 <= i < n <= primitives.len(),
    ensures
        draw_calls_before(primitives, screen, n).len() == drawn_before(primitives, screen, n),
        drawn_before(primitives, screen, i) <= drawn_before(primitives, screen, n),
        is_drawn(primitives[i], screen) ==> drawn_before(primitives, screen, i) < drawn_before(
            primitives,
            screen,
            n,
        ) && Some(
            draw_calls_before(primitives, screen, n)[drawn_before(primitives, screen, i) as int],
        ) == draw_call_at(primitives, screen, i),
    decreases n,
{
    lemma_draw_call_count(primitives, screen, n);
    lemma_draw_call_count(primitives, screen, n - 1);
    if i < n - 1 {
        lemma_draw_calls_keep_order(primitives, screen, n - 1, i);
    }
}

/// There is one draw call for each primitive that is drawn.
pub proof fn lemma_draw_call_count(primitives: Seq<ClippedPrimitive>, screen: [u32; 2], n: int)
    ensures
        draw_calls_before(primitives, screen, n).len() == drawn_before(primitives, screen, n),
    decreases n,
{
    if n > 0 {
        lemma_draw_call_count(primitives, screen, n - 1);
    }
}

/// Every draw call of a frame has a scissor rectangle that lies within the
/// screen and covers at least one pixel each way, and every mesh among them
/// starts at a vertex of the buffer and reads nothing beyond the vertices
/// and indices of the frame.
pub proof fn lemma_draw_calls_lie_within(primitives: Seq<ClippedPrimitive>, screen: [u32; 2], n: int)
    requires
        n <= primitives.len(),
        countable(primitives),
    ensures
        forall|k: int|
            0 <= k < draw_calls_before(primitives, screen, n).len() ==> {
                &&& (#[trigger] draw_calls_before(primitives, screen, n)[k]).lies_within(screen)
                &&& draw_calls_before(primitives, screen, n)[k].wf()
                &&& draw_calls_before(primitives, screen, n)[k].fits(
                    total_vertices(primitives, primitives.len() as int) as int,
                    total_indices(primitives, primitives.len() as int) as int,
                )
            },
    decreases n,
{
    if n > 0 {
        lemma_draw_calls_lie_within(primitives, screen, n - 1);
        lemma_totals_grow(primitives, screen, n, primitives.len() as int);
        lemma_totals_grow(primitives, screen, n - 1, n);
        lemma_scissor_lies_within(primitives[n - 1].clip_rect, screen);
        let calls = draw_calls_before(primitives, screen, n);
        let before = draw_calls_before(primitives, screen, n - 1);
        assert forall|k: int| 0 <= k < calls.len() implies (#[trigger] calls[k]).lies_within(screen)
            && calls[k].wf() && calls[k].fits(
            total_vertices(primitives, primitives.len() as int) as int,
            total_indices(primitives, primitives.len() as int) as int,
        ) by {
            if k < before.len() {
                assert(calls[k] == before[k]);
            } else {
                let call = draw_call_at(primitives, screen, n - 1).unwrap();
                assert(calls[k] == call);
                assert(call.spec_clip_rect() == spec_scissor_rect(
                    primitives[n - 1].clip_rect,
                    screen,
                ).unwrap());
            }
        }
    }
}

/// A primitive whose clip rectangle has no width or no height is passed
/// over: it has no draw call, and it adds nothing to the packed streams.
pub proof fn lemma_empty_clip_is_skipped(primitives: Seq<ClippedPrimitive>, screen: [u32; 2], i: int)
    requires
        0 <= i < primitives.len(),
        primitives[i].clip_rect.max_x <= primitives[i].clip_rect.min_x
            || primitives[i].clip_rect.max_y <= primitives[i].clip_rect.min_y,
    ensures
        !is_drawn(primitives[i], screen),
        draw_call_at(primitives, screen, i).is_none(),
        draw_calls_before(primitives, screen, i + 1) == draw_calls_before(primitives, screen, i),
        packed_vertices(primitives, screen, i + 1) == packed_vertices(primitives, screen, i),
        packed_indices(primitives, screen, i + 1) == packed_indices(primitives, screen, i),
        vertices_before(primitives, screen, i + 1) == vertices_before(primitives, screen, i),
        indices_before(primitives, screen, i + 1) == indices_before(primitives, screen, i),
{
    lemma_scissor_lies_within(primitives[i].clip_rect, screen);
}

/// The packed streams hold what the draw calls count: twenty bytes for each
/// vertex and four for each index of the meshes that are drawn.
pub proof fn lemma_packed_lengths(primitives: Seq<ClippedPrimitive>, screen: [u32; 2], n: int)
    ensures
        packed_vertices(primitives, screen, n).len() == 20 * vertices_before(primitives, screen, n),
        packed_indices(primitives, screen, n).len() == 4 * indices_before(primitives, screen, n),
    decreases n,
{
    if n > 0 {
        lemma_packed_lengths(primitives, screen, n - 1);
    }
}

/// A mesh that is drawn lies in the packed streams where its draw call says:
/// its vertices from vertex `base_vertex` on, its indices from `index_start`
/// up to `index_end`, each as the bytes of the mesh and nothing else.
pub proof fn lemma_mesh_lies_at_its_offsets(
    primitives: Seq<ClippedPrimitive>,
    screen: [u32; 2],
    n: int,
    i: int,
)
    requires
        0 <= i < n <= primitives.len(),
        is_drawn(primitives[i], screen),
        primitives[i].primitive is Mesh,
    ensures
        packed_vertices(primitives, screen, n).subrange(
            20 * (vertices_before(primitives, screen, i) as int),
            20 * (vertices_before(primitives, screen, i + 1) as int),
        ) == vertex_bytes(primitives[i].primitive->Mesh_0.vertices@),
        packed_indices(primitives, screen, n).subrange(
            4 * (indices_before(primitives, screen, i) as int),
            4 * (indices_before(primitives, screen, i + 1) as int),
        ) == index_bytes(primitives[i].primitive->Mesh_0.indices@),
    decreases n,
{
    lemma_packed_lengths(primitives, screen, i);
    lemma_packed_lengths(primitives, screen, i + 1);
    lemma_packed_lengths(primitives, screen, n - 1);
    if i < n - 1 {
        lemma_mesh_lies_at_its_offsets(primitives, screen, n - 1, i);
        lemma_totals_grow(primitives, screen, i + 1, n - 1);
        assert(packed_vertices(primitives, screen, n).subrange(
            20 * (vertices_before(primitives, screen, i) as int),
            20 * (vertices_before(primitives, screen, i + 1) as int),
        ) =~= packed_vertices(primitives, screen, n - 1).subrange(
            20 * (vertices_before(primitives, screen, i) as int),
            20 * (vertices_before(primitives, screen, i + 1) as int),
        ));
        assert(packed_indices(primitives, screen, n).subrange(
            4 * (indices_before(primitives, screen, i) as int),
            4 * (indices_before(primitives, screen, i + 1) as int),
        ) =~= packed_indices(primitives, screen, n - 1).subrange(
            4 * (indices_before(primitives, screen, i) as int),
            4 * (indices_before(primitives, screen, i + 1) as int),
        ));
    } else {
        assert(packed_vertices(primitives, screen, n).subrange(
            20 * (vertices_before(primitives, screen, i) as int),
            20 * (vertices_before(primitives, screen, i + 1) as int),
        ) =~= vertex_bytes(primitives[i].primitive->Mesh_0.vertices@));
        assert(packed_indices(primitives, screen, n).subrange(
            4 * (indices_before(primitives, screen, i) as int),
            4 * (indices_before(primitives, screen, i + 1) as int),
        ) =~= index_bytes(primitives[i].primitive->Mesh_0.indices@));
    }
}

/// Counts the vertices of all meshes of a frame, and the indices that the
/// index buffer has to have room for. A frame without any vertex is taken
/// whatever else it holds; any other is turned down if its vertices or its
/// indices cannot be counted.
pub fn geometry_totals(primitives: &Vec<ClippedPrimitive>) -> (totals: Result<
    (u32, u32),
    GeometryTooLarge,
>)
    ensures
        match totals {
            Ok((vertices, indices)) => {
                &&& within_limits(primitives@)
                &&& vertices == total_vertices(primitives@, primitives.len() as int)
                &&& indices == required_indices(primitives@)
            },
            Err(_) => !within_limits(primitives@),
        },
{
    let mut vertices: u32 = 0;
    let mut indices: u32 = 0;
    let mut too_many_indices = false;
    let mut i: usize = 0;
    while i < primitives.len()
        invariant
            i <= primitives.len(),
            vertices == total_vertices(primitives@, i as int),
            vertices <= MAX_VERTICES,
            too_many_indices <==> total_indices(primitives@, i as int) > MAX_INDICES,
            !too_many_indices ==> indices == total_indices(primitives@, i as int),
        decreases primitives.len() - i,
    {
        match &primitives[i].primitive {
            Primitive::Mesh(mesh) => {
                if mesh.vertices.len() > (MAX_VERTICES - vertices) as usize {
                    proof {
                        lemma_totals_grow(
                            primitives@,
                            [0, 0],
                            i + 1,
                            primitives.len() as int,
                        );
                    }
                    return Err(GeometryTooLarge);
                }
                vertices = vertices + mesh.vertices.len() as u32;
                if !too_many_indices {
                    if mesh.indices.len() > (MAX_INDICES - indices) as usize {
                        too_many_indices = true;
                    } else {
                        indices = indices + mesh.indices.len() as u32;
                    }
                }
            },
            Primitive::Callback(_) => {},
        }
        i += 1;
    }
    if vertices == 0 {
        Ok((0, 0))
    } else if too_many_indices {
        Err(GeometryTooLarge)
    } else {
        Ok((vertices, indices))
    }
}

/// Compiles the primitives of a frame for a screen of the given physical
/// size.
///
/// A frame without any vertex gives no draw call and nothing to write,
/// whatever else it holds. Otherwise each primitive, in the order given, is clipped to the screen;
/// one of which no pixel is left is passed over, and leaves no trace in the
/// buffers. A mesh that is drawn has its vertices and indices appended to
/// the packed streams and gets a draw call that starts where the streams
/// ended before it; a callback that is drawn gets a draw call with its
/// handle.
pub fn compile(primitives: &Vec<ClippedPrimitive>, screen_size_physical: [u32; 2]) -> (result: Result<
    CompiledFrame,
    GeometryTooLarge,
>)
    ensures
        match result {
            Ok(frame) => {
                &&& within_limits(primitives@)
                &&& frame.total_vertices == total_vertices(primitives@, primitives.len() as int)
                &&& frame.total_indices == required_indices(primitives@)
                &&& frame.draw_calls@ == frame_draw_calls(primitives@, screen_size_physical)
                &&& forall|k: int|
                    0 <= k < frame.draw_calls@.len() ==> {
                        &&& (#[trigger] frame.draw_calls@[k]).lies_within(screen_size_physical)
                        &&& frame.draw_calls@[k].wf()
                        &&& frame.draw_calls@[k].fits(
                            frame.total_vertices as int,
                            frame.total_indices as int,
                        )
                    }
                &&& frame.total_vertices == 0 ==> frame.draw_calls@.len() == 0
                &&& match frame.geometry {
                    None => frame.total_vertices == 0,
                    Some(geometry) => {
                        &&& frame.total_vertices > 0
                        &&& geometry.vertices@ == packed_vertices(
                            primitives@,
                            screen_size_physical,
                            primitives.len() as int,
                        )
                        &&& geometry.indices@ == packed_indices(
                            primitives@,
                            screen_size_physical,
                            primitives.len() as int,
                        )
                    },
                }
            },
            Err(_) => !within_limits(primitives@),
        },
{
    let (total_vertices, total_indices) = match geometry_totals(primitives) {
        Ok(totals) => totals,
        Err(error) => {
            return Err(error);
        },
    };
    let mut draw_calls: Vec<EguiDrawCalls> = Vec::new();
    if total_vertices == 0 {
        return Ok(CompiledFrame { total_vertices, total_indices, draw_calls, geometry: None });
    }
    let mut vertices: Vec<u8> = Vec::new();
    let mut indices: Vec<u8> = Vec::new();
    let mut vertex_cursor: u32 = 0;
    let mut index_cursor: u32 = 0;
    let mut i: usize = 0;
    while i < primitives.len()
        invariant
            i <= primitives.len(),
            countable(primitives@),
            vertex_cursor == vertices_before(primitives@, screen_size_physical, i as int),
            index_cursor == indices_before(primitives@, screen_size_physical, i as int),
            draw_calls@ == draw_calls_before(primitives@, screen_size_physical, i as int),
            vertices@ == packed_vertices(primitives@, screen_size_physical, i as int),
            indices@ == packed_indices(primitives@, screen_size_physical, i as int),
        decreases primitives.len() - i,
    {
        proof {
            lemma_totals_grow(primitives@, screen_size_physical, i + 1, primitives.len() as int);
            lemma_totals_grow(primitives@, screen_size_physical, i as int, i + 1);
        }
        let primitive: &ClippedPrimitive = &primitives[i];
        match scissor_rect(&primitive.clip_rect, screen_size_physical) {
            None => {},
            Some(clip_rect) => {
                match &primitive.primitive {
                    Primitive::Mesh(mesh) => {
                        push_vertex_bytes(&mut vertices, &mesh.vertices);
                        push_index_bytes(&mut indices, &mesh.indices);
                        let index_end: u32 = index_cursor + mesh.indices.len() as u32;
                        draw_calls.push(
                            EguiDrawCalls::Mesh {
                                clip_rect,
                                texture_id: mesh.texture_id,
                                base_vertex: vertex_cursor as i32,
                                index_start: index_cursor,
                                index_end,
                            },
                        );
                        vertex_cursor = vertex_cursor + mesh.vertices.len() as u32;
                        index_cursor = index_end;
                    },
                    Primitive::Callback(paint_callback) => {
                        draw_calls.push(
                            EguiDrawCalls::Callback {
                                clip_rect,
                                paint_callback: *paint_callback,
                                screen_size_px: screen_size_physical,
                            },
                        );
                    },
                }
            },
        }
        i += 1;
    }
    proof {
        lemma_draw_calls_lie_within(primitives@, screen_size_physical, primitives.len() as int);
    }
    Ok(
        CompiledFrame {
            total_vertices,
            total_indices,
            draw_calls,
            geometry: Some(Geometry { vertices, indices }),
        },
    )
}

} // verus!
