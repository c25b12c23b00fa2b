//! The painter: the state that lives from frame to frame, and the two steps
//! of a frame, upload and draw.

use crate::cache::{frame_commands, TextureCache, TexturePlan, Textures};
use crate::commands::{
    commands_before, execute, find_missing_texture, first_missing, MissingTexture, RenderCommand,
};
use crate::compile::{
    compile, frame_draw_calls, lemma_packed_lengths, lemma_totals_grow, packed_indices,
    packed_vertices, total_indices, total_vertices, within_limits, EguiDrawCalls, Geometry,
    GeometryTooLarge,
};
use crate::geometry::{grown, replacement, BufferGrowth, GeometryBuffers};
use crate::mesh::{ClippedPrimitive, INDEX_SIZE, VERTEX_SIZE};
use crate::texture::{
    EguiTexture, RegisterError, TextureError, TextureFilter, TextureId, TexturesDelta,
};
use vstd::prelude::*;

verus! {

/// What one frame hands to the painter: its clipped primitives in paint
/// order, and its texture changes.
#[derive(Clone, Debug, PartialEq, Eq)]
pub struct EguiGfxData {
    pub meshes: Vec<ClippedPrimitive>,
    pub textures_delta: TexturesDelta,
}

/// What has to happen on the device before a frame can be drawn, in this
/// order: the texture plan, the replacement of buffers, the write of the
/// geometry.
#[derive(Clone, Debug, PartialEq, Eq)]
pub struct FrameUpload {
    pub textures: TexturePlan,
    pub buffers: BufferGrowth,
    /// The bytes to write into the buffers from offset 0 on; `None` where
    /// the frame has no vertex and nothing is written.
    pub geometry: Option<Geometry>,
}

/// Why a frame was turned down.
#[derive(Clone, Copy, Debug, PartialEq, Eq, Structural)]
pub enum UploadError {
    /// The frame has vertices, and it holds more vertices or indices than
    /// can be counted. The painter is as it was.
    Geometry(GeometryTooLarge),
    /// A texture delta cannot be applied. The texture step was made up to
    /// that delta; the painter has no draw calls.
    Texture(TextureError),
}

/// The state of the painter between frames.
pub struct EguiPainter {
    buffers: GeometryBuffers,
    textures: TextureCache,
    draw_calls: Vec<EguiDrawCalls>,
}

/// What a painter holds.
#[verifier::ext_equal]
pub struct Painter {
    /// Vertices that the vertex buffer has room for.
    pub vertex_capacity: u32,
    /// Indices that the index buffer has room for.
    pub index_capacity: u32,
    pub textures: Textures,
    /// The draw calls of the last frame, in paint order.
    pub draw_calls: Seq<EguiDrawCalls>,
}

impl Painter {
    /// A painter without textures, draw calls or room in its buffers.
    pub open spec fn empty() -> Painter {
        Painter {
            vertex_capacity: 0,
            index_capacity: 0,
            textures: Textures::empty(),
            draw_calls: Seq::empty(),
        }
    }

    /// The texture cache is well-formed, and so is each draw call, and what
    /// the draw calls read lies within the buffers.
    pub open spec fn wf(self) -> bool {
        &&& self.textures.wf()
        &&& forall|k: int|
            0 <= k < self.draw_calls.len() ==> {
                &&& (#[trigger] self.draw_calls[k]).wf()
                &&& self.draw_calls[k].fits(
                    self.vertex_capacity as int,
                    self.index_capacity as int,
                )
            }
    }

    /// The buffers after a frame with the given primitives: a frame without
    /// any vertex leaves them alone, any other makes room for all its
    /// vertices and all its indices.
    pub open spec fn capacities_after(self, primitives: Seq<ClippedPrimitive>) -> (u32, u32) {
        let vertices = total_vertices(primitives, primitives.len() as int);
        let indices = total_indices(primitives, primitives.len() as int);
        if vertices == 0 {
            (self.vertex_capacity, self.index_capacity)
        } else {
            (
                grown(self.vertex_capacity as nat, vertices) as u32,
                grown(self.index_capacity as nat, indices) as u32,
            )
        }
    }

    /// Why the upload step turns the frame down, or `None` if it does not: a
    /// frame that has vertices and is too large to count is turned down
    /// before anything else is looked at, any other for the first texture
    /// delta that cannot be applied.
    pub open spec fn upload_error(self, data: EguiGfxData) -> Option<UploadError> {
        if !within_limits(data.meshes@) {
            Some(UploadError::Geometry(GeometryTooLarge))
        } else {
            match self.textures.frame_error(data.textures_delta.set@) {
                Some(error) => Some(UploadError::Texture(error)),
                None => None,
            }
        }
    }

    /// The painter after the upload step of a frame. A frame that has
    /// vertices and is too large to count leaves it as it was. For any other frame the texture step is
    /// made; if that fails the painter has no draw calls and its buffers are
    /// as they were, else it has the frame's draw calls and buffers with
    /// room for the frame.
    pub open spec fn after_upload(self, data: EguiGfxData, screen: [u32; 2]) -> Painter {
        if !within_limits(data.meshes@) {
            self
        } else {
            let textures = self.textures.after_frame(
                data.textures_delta.set@,
                data.textures_delta.free@,
            );
            if self.textures.frame_error(data.textures_delta.set@).is_some() {
                Painter {
                    vertex_capacity: self.vertex_capacity,
                    index_capacity: self.index_capacity,
                    textures,
                    draw_calls: Seq::empty(),
                }
            } else {
                Painter {
                    vertex_capacity: self.capacities_after(data.meshes@).0,
                    index_capacity: self.capacities_after(data.meshes@).1,
                    textures,
                    draw_calls: frame_draw_calls(data.meshes@, screen),
                }
            }
        }
    }

    /// Whether `upload` is what the device has to do for a frame that the
    /// upload step accepts: the textures that the frame before declared free
    /// are dropped, there is one command for each texture delta, each buffer
    /// that is too small is replaced, and the geometry written is that of
    /// the primitives that are drawn.
    pub open spec fn is_upload(self, upload: FrameUpload, data: EguiGfxData, screen: [u32; 2]) -> bool {
        &&& upload.textures.removed@ == self.textures.delete_textures
        &&& upload.textures.commands@ == frame_commands(data.textures_delta.set@)
        &&& upload.buffers == self.growth_for(data.meshes@)
        &&& match upload.geometry {
            None => total_vertices(data.meshes@, data.meshes@.len() as int) == 0,
            Some(geometry) => {
                &&& total_vertices(data.meshes@, data.meshes@.len() as int) > 0
                &&& geometry.vertices@ == packed_vertices(
                    data.meshes@,
                    screen,
                    data.meshes@.len() as int,
                )
                &&& geometry.indices@ == packed_indices(
                    data.meshes@,
                    screen,
                    data.meshes@.len() as int,
                )
            },
        }
    }

    /// The buffers to replace for a frame with the given primitives.
    pub open spec fn growth_for(self, primitives: Seq<ClippedPrimitive>) -> BufferGrowth {
        let vertices = total_vertices(primitives, primitives.len() as int);
        let indices = total_indices(primitives, primitives.len() as int);
        if vertices == 0 {
            BufferGrowth { vertex_buffer: None, index_buffer: None }
        } else {
            BufferGrowth {
                vertex_buffer: replacement(
                    self.vertex_capacity as nat,
                    vertices,
                    VERTEX_SIZE as nat,
                ),
                index_buffer: replacement(self.index_capacity as nat, indices, INDEX_SIZE as nat),
            }
        }
    }
}

impl View for EguiPainter {
    type V = Painter;

    closed spec fn view(&self) -> Painter {
        Painter {
            vertex_capacity: self.buffers.vertex_capacity(),
            index_capacity: self.buffers.index_capacity(),
            textures: self.textures@,
            draw_calls: self.draw_calls@,
        }
    }
}

impl EguiPainter {
    /// A painter without textures, draw calls or room in its buffers.
    pub fn new() -> (painter: EguiPainter)
        ensures
            painter@.wf(),
            painter@ == Painter::empty(),
    {
        EguiPainter {
            buffers: GeometryBuffers::new(),
            textures: TextureCache::new(),
            draw_calls: Vec::new(),
        }
    }

    /// The draw calls of the last frame, in paint order.
    pub fn draw_calls(&self) -> (draw_calls: &Vec<EguiDrawCalls>)
        ensures
            draw_calls@ == self@.draw_calls,
    {
        &self.draw_calls
    }

    /// The record of a texture, if the cache holds it.
    pub fn texture(&self, id: TextureId) -> (found: Option<&EguiTexture>)
        ensures
            match found {
                Some(texture) => self@.textures.get(id) == Some(*texture),
                None => self@.textures.get(id).is_none(),
            },
    {
        self.textures.get(id)
    }

    /// The textures that the last frame declared free and that are dropped
    /// when the next frame begins.
    pub fn pending_free(&self) -> (pending: &Vec<TextureId>)
        ensures
            pending@ == self@.textures.delete_textures,
    {
        self.textures.pending_free()
    }

    /// The key that the next user texture gets.
    pub fn next_user_texture_id(&self) -> (next: u64)
        ensures
            next == self@.textures.next_user_texture_id,
    {
        self.textures.next_user_texture_id()
    }

    /// Vertices that the vertex buffer has room for.
    pub fn vertex_capacity(&self) -> (capacity: u32)
        ensures
            capacity == self@.vertex_capacity,
    {
        self.buffers.vertex_capacity()
    }

    /// Indices that the index buffer has room for.
    pub fn index_capacity(&self) -> (capacity: u32)
        ensures
            capacity == self@.index_capacity,
    {
        self.buffers.index_capacity()
    }

    /// The upload step of a frame, for a screen of the given physical size.
    ///
    /// The geometry is compiled first; a frame that has vertices and is too
    /// large to count is turned down and leaves the painter as it was. Then the texture step is made:
    /// it comes before any write of geometry and before any draw. Then the
    /// buffers get room for the frame, and the frame's draw calls take the
    /// place of those of the frame before. A frame without any vertex has no
    /// draw calls, writes nothing and leaves the buffers alone. What is
    /// written fits into the buffers.
    pub fn upload_egui_data(&mut self, data: EguiGfxData, screen_size_physical: [u32; 2]) -> (result:
        Result<FrameUpload, UploadError>)
        requires
            old(self)@.wf(),
        ensures
            final(self)@.wf(),
            final(self)@ == old(self)@.after_upload(data, screen_size_physical),
            match result {
                Ok(upload) => {
                    &&& old(self)@.upload_error(data).is_none()
                    &&& old(self)@.is_upload(upload, data, screen_size_physical)
                    &&& forall|k: int|
                        0 <= k < final(self)@.draw_calls.len() ==> (
                        #[trigger] final(self)@.draw_calls[k]).lies_within(screen_size_physical)
                    &&& match upload.geometry {
                        Some(geometry) => {
                            &&& geometry.vertices@.len() <= final(self)@.vertex_capacity
                                * VERTEX_SIZE
                            &&& geometry.indices@.len() <= final(self)@.index_capacity * INDEX_SIZE
                        },
                        None => true,
                    }
                },
                Err(error) => old(self)@.upload_error(data) == Some(error),
            },
    {
        let EguiGfxData { meshes, textures_delta } = data;
        let frame = match compile(&meshes, screen_size_physical) {
            Ok(frame) => frame,
            Err(error) => {
                return Err(UploadError::Geometry(error));
            },
        };
        self.draw_calls.clear();
        let textures = match self.textures.apply_deltas(textures_delta) {
            Ok(plan) => plan,
            Err(error) => {
                return Err(UploadError::Texture(error));
            },
        };
        let buffers = if frame.total_vertices == 0 {
            BufferGrowth { vertex_buffer: None, index_buffer: None }
        } else {
            self.buffers.ensure_capacity(frame.total_vertices, frame.total_indices)
        };
        self.draw_calls = frame.draw_calls;
        proof {
            lemma_packed_lengths(meshes@, screen_size_physical, meshes@.len() as int);
            lemma_totals_grow(
                meshes@,
                screen_size_physical,
                meshes@.len() as int,
                meshes@.len() as int,
            );
        }
        Ok(FrameUpload { textures, buffers, geometry: frame.geometry })
    }

    /// Looks for a draw call of the last upload whose texture the cache does
    /// not hold, and returns the first one.
    pub fn missing_texture(&self) -> (missing: Option<MissingTexture>)
        ensures
            missing == first_missing(
                self@.textures,
                self@.draw_calls,
                self@.draw_calls.len() as int,
            ),
    {
        find_missing_texture(&self.draw_calls, &self.textures)
    }

    /// The draw step of a frame: the commands that draw what the last upload
    /// compiled. Every mesh has to find its texture in the cache; a frame of
    /// which `missing_texture` finds one missing cannot be drawn.
    pub fn draw_egui_with_renderpass(&self) -> (commands: Vec<RenderCommand>)
        requires
            self@.wf(),
            first_missing(self@.textures, self@.draw_calls, self@.draw_calls.len() as int).is_none(),
        ensures
            commands@ == commands_before(self@.draw_calls, self@.draw_calls.len() as int),
    {
        execute(&self.draw_calls, &self.textures)
    }

    /// Registers a user texture that is sampled with `texture_filter` in both
    /// directions, under the next free key.
    pub fn register_native_texture(&mut self, texture_filter: TextureFilter) -> (result: Result<
        TextureId,
        RegisterError,
    >)
        requires
            old(self)@.wf(),
        ensures
            final(self)@.wf(),
            final(self)@.vertex_capacity == old(self)@.vertex_capacity,
            final(self)@.index_capacity == old(self)@.index_capacity,
            final(self)@.draw_calls == old(self)@.draw_calls,
            match result {
                Ok(id) => {
                    &&& old(self)@.textures.register_error().is_none()
                    &&& id == TextureId::User(old(self)@.textures.next_user_texture_id)
                    &&& old(self)@.textures.get(id).is_none()
                    &&& final(self)@.textures == old(self)@.textures.registered(texture_filter)
                    &&& final(self)@.textures.get(id) == Some(
                        EguiTexture { size: None, sampler: texture_filter },
                    )
                },
                Err(error) => {
                    &&& old(self)@.textures.register_error() == Some(error)
                    &&& final(self)@.textures == old(self)@.textures
                },
            },
    {
        let result = self.textures.register_native_texture(texture_filter);
        assert(self@.draw_calls == old(self)@.draw_calls);
        result
    }

    /// Registers a user texture whose sampler magnifies with `sampler`,
    /// under the next free key.
    pub fn register_native_texture_with_sampler_options(&mut self, sampler: TextureFilter) -> (result:
        Result<TextureId, RegisterError>)
        requires
            old(self)@.wf(),
        ensures
            final(self)@.wf(),
            final(self)@.vertex_capacity == old(self)@.vertex_capacity,
            final(self)@.index_capacity == old(self)@.index_capacity,
            final(self)@.draw_calls == old(self)@.draw_calls,
            match result {
                Ok(id) => {
                    &&& old(self)@.textures.register_error().is_none()
                    &&& id == TextureId::User(old(self)@.textures.next_user_texture_id)
                    &&& old(self)@.textures.get(id).is_none()
                    &&& final(self)@.textures == old(self)@.textures.registered(sampler)
                    &&& final(self)@.textures.get(id) == Some(
                        EguiTexture { size: None, sampler },
                    )
                },
                Err(error) => {
                    &&& old(self)@.textures.register_error() == Some(error)
                    &&& final(self)@.textures == old(self)@.textures
                },
            },
    {
        let result = self.textures.register_native_texture_with_sampler_options(sampler);
        assert(self@.draw_calls == old(self)@.draw_calls);
        result
    }
}

/// A frame without any vertex is never turned down for its geometry,
/// whatever else it holds. Its texture step is made like that of any other
/// frame; after it the painter has no draw call, whatever it had before, and
/// its buffers are as they were, with nothing to be replaced.
pub proof fn lemma_frame_without_vertices_draws_nothing(
    painter: Painter,
    data: EguiGfxData,
    screen: [u32; 2],
)
    requires
        total_vertices(data.meshes@, data.meshes@.len() as int) == 0,
    ensures
        painter.upload_error(data) == match painter.textures.frame_error(
            data.textures_delta.set@,
        ) {
            Some(error) => Some(UploadError::Texture(error)),
            None => None,
        },
        painter.after_upload(data, screen).textures == painter.textures.after_frame(
            data.textures_delta.set@,
            data.textures_delta.free@,
        ),
        painter.after_upload(data, screen).draw_calls.len() == 0,
        painter.after_upload(data, screen).vertex_capacity == painter.vertex_capacity,
        painter.after_upload(data, screen).index_capacity == painter.index_capacity,
        painter.growth_for(data.meshes@) == (BufferGrowth {
            vertex_buffer: None,
            index_buffer: None,
        }),
{
}

} // verus!
