//! The frame executor: the commands that draw a frame, in the order in which
//! the render pass has to record them.

use crate::cache::{TextureCache, Textures};
use crate::compile::EguiDrawCalls;
use crate::mesh::VERTEX_SIZE;
use crate::texture::TextureId;
use vstd::prelude::*;

verus! {

/// One command of the render pass.
#[derive(Clone, Copy, Debug, PartialEq, Eq)]
pub enum RenderCommand {
    /// Bind the painter's pipeline.
    SetPipeline,
    /// Bind the bind group of the screen size, as group 0.
    SetScreenSizeBindGroup,
    /// Bind the vertex buffer from byte `offset` to its end, in slot 0.
    SetVertexBuffer { offset: u64 },
    /// Bind the whole index buffer, with 32-bit indices.
    SetIndexBuffer,
    /// Restrict drawing to a rectangle of the target.
    SetScissorRect { x: u32, y: u32, width: u32, height: u32 },
    /// Bind the bind group of a texture, as group 1.
    SetTextureBindGroup { texture_id: TextureId },
    /// Draw the indices from `index_start` up to, not including,
    /// `index_end`, once, with base vertex 0.
    DrawIndexed { index_start: u32, index_end: u32 },
    /// Let a callback of the application paint.
    Paint { paint_callback: u64, screen_size_px: [u32; 2] },
}

/// A mesh is to be drawn with a texture that the cache does not hold.
#[derive(Clone, Copy, Debug, PartialEq, Eq, Structural)]
pub struct MissingTexture {
    /// Position of the draw call in the frame's list.
    pub draw_call: usize,
    pub texture_id: TextureId,
}

/// The commands before the first draw call: the pipeline, the screen size,
/// and both buffers from their start.
pub open spec fn setup_commands() -> Seq<RenderCommand> {
    seq![
        RenderCommand::SetPipeline,
        RenderCommand::SetScreenSizeBindGroup,
        RenderCommand::SetVertexBuffer { offset: 0 },
        RenderCommand::SetIndexBuffer,
    ]
}

/// The command that sets the scissor rectangle of a draw call.
pub open spec fn scissor_command(clip_rect: [u32; 4]) -> RenderCommand {
    RenderCommand::SetScissorRect {
        x: clip_rect[0],
        y: clip_rect[1],
        width: clip_rect[2],
        height: clip_rect[3],
    }
}

/// The commands of one draw call. A mesh has the vertex buffer bound from
/// its own first vertex on, because a base vertex other than 0 cannot be
/// given to every device.
pub open spec fn draw_call_commands(draw_call: EguiDrawCalls) -> Seq<RenderCommand> {
    match draw_call {
        EguiDrawCalls::Mesh { clip_rect, texture_id, base_vertex, index_start, index_end } => seq![
            scissor_command(clip_rect),
            RenderCommand::SetVertexBuffer { offset: (base_vertex * VERTEX_SIZE) as u64 },
            RenderCommand::SetTextureBindGroup { texture_id },
            RenderCommand::DrawIndexed { index_start, index_end },
        ],
        EguiDrawCalls::Callback { clip_rect, paint_callback, screen_size_px } => seq![
            scissor_command(clip_rect),
            RenderCommand::Paint { paint_callback, screen_size_px },
        ],
    }
}

/// The commands up to and including those of the first `n` draw calls.
pub open spec fn commands_before(draw_calls: Seq<EguiDrawCalls>, n: int) -> Seq<RenderCommand>
    decreases n,
{
    if n <= 0 {
        setup_commands()
    } else {
        commands_before(draw_calls, n - 1) + draw_call_commands(draw_calls[n - 1])
    }
}

/// Whether the cache holds the texture that the draw call binds.
pub open spec fn texture_bound(textures: Textures, draw_call: EguiDrawCalls) -> bool {
    match draw_call {
        EguiDrawCalls::Mesh { texture_id, .. } => textures.get(texture_id).is_some(),
        EguiDrawCalls::Callback { .. } => true,
    }
}

/// The first of the first `n` draw calls that binds a texture which the
/// cache does not hold; `None` if each of them finds its texture.
pub open spec fn first_missing(textures: Textures, draw_calls: Seq<EguiDrawCalls>, n: int) -> Option<
    MissingTexture,
>
    decreases n,
{
    if n <= 0 {
        None
    } else {
        match first_missing(textures, draw_calls, n - 1) {
            Some(missing) => Some(missing),
            None => match draw_calls[n - 1] {
                EguiDrawCalls::Mesh { texture_id, .. } if textures.get(texture_id).is_none() => Some(
                    MissingTexture { draw_call: (n - 1) as usize, texture_id },
                ),
                _ => None,
            },
        }
    }
}

/// The first missing texture is that of the draw call that is named, every
/// draw call before that one finds its texture, and looking at more draw
/// calls does not change it.
pub proof fn lemma_first_missing(textures: Textures, draw_calls: Seq<EguiDrawCalls>, m: int, n: int)
    requires
        0 <= m <= n <= draw_calls.len() <= usize::MAX,
    ensures
        match first_missing(textures, draw_calls, n) {
            Some(missing) => {
                &&& missing.draw_call < n
                &&& !texture_bound(textures, draw_calls[missing.draw_call as int])
                &&& draw_calls[missing.draw_call as int] matches EguiDrawCalls::Mesh {
                    texture_id,
                    ..
                } && texture_id == missing.texture_id
                &&& first_missing(textures, draw_calls, missing.draw_call as int).is_none()
            },
            None => forall|k: int| 0 <= k < n ==> texture_bound(textures, #[trigger] draw_calls[k]),
        },
        first_missing(textures, draw_calls, m).is_some() ==> first_missing(textures, draw_calls, n)
            == first_missing(textures, draw_calls, m),
    decreases n,
{
    if n > 0 {
        if m < n {
            lemma_first_missing(textures, draw_calls, m, n - 1);
        } else {
            lemma_first_missing(textures, draw_calls, n - 1, n - 1);
        }
    }
}

/// Looks for a draw call that binds a texture which the cache does not
/// hold, and returns the first one.
pub fn find_missing_texture(draw_calls: &Vec<EguiDrawCalls>, textures: &TextureCache) -> (missing:
    Option<MissingTexture>)
    ensures
        missing == first_missing(textures@, draw_calls@, draw_calls@.len() as int),
{
    let mut i: usize = 0;
    while i < draw_calls.len()
        invariant
            i <= draw_calls.len(),
            first_missing(textures@, draw_calls@, i as int).is_none(),
        decreases draw_calls.len() - i,
    {
        match draw_calls[i] {
            EguiDrawCalls::Mesh { texture_id, .. } => {
                if textures.get(texture_id).is_none() {
                    proof {
                        lemma_first_missing(textures@, draw_calls@, i + 1, draw_calls@.len() as int);
                    }
                    return Some(MissingTexture { draw_call: i, texture_id });
                }
            },
            EguiDrawCalls::Callback { .. } => {},
        }
        i += 1;
    }
    None
}

/// The commands that draw the frame: the setup, then the commands of each
/// draw call in the order of the list. Every mesh has to find its texture in
/// the cache: a draw call without its texture is a fault of whoever made the
/// list, and is not among the inputs.
pub fn execute(draw_calls: &Vec<EguiDrawCalls>, textures: &TextureCache) -> (commands: Vec<
    RenderCommand,
>)
    requires
        forall|k: int| 0 <= k < draw_calls@.len() ==> (#[trigger] draw_calls@[k]).wf(),
        first_missing(textures@, draw_calls@, draw_calls@.len() as int).is_none(),
    ensures
        commands@ == commands_before(draw_calls@, draw_calls@.len() as int),
{
    let mut commands: Vec<RenderCommand> = Vec::new();
    commands.push(RenderCommand::SetPipeline);
    commands.push(RenderCommand::SetScreenSizeBindGroup);
    commands.push(RenderCommand::SetVertexBuffer { offset: 0 });
    commands.push(RenderCommand::SetIndexBuffer);
    assert(commands@ == setup_commands());
    let mut i: usize = 0;
    while i < draw_calls.len()
        invariant
            i <= draw_calls.len(),
            forall|k: int| 0 <= k < draw_calls@.len() ==> (#[trigger] draw_calls@[k]).wf(),
            commands@ == commands_before(draw_calls@, i as int),
        decreases draw_calls.len() - i,
    {
        let ghost before = commands@;
        assert(draw_calls@[i as int].wf());
        match draw_calls[i] {
            EguiDrawCalls::Mesh { clip_rect, texture_id, base_vertex, index_start, index_end } => {
                commands.push(
                    RenderCommand::SetScissorRect {
                        x: clip_rect[0],
                        y: clip_rect[1],
                        width: clip_rect[2],
                        height: clip_rect[3],
                    },
                );
                commands.push(
                    RenderCommand::SetVertexBuffer { offset: base_vertex as u64 * VERTEX_SIZE },
                );
                commands.push(RenderCommand::SetTextureBindGroup { texture_id });
                commands.push(RenderCommand::DrawIndexed { index_start, index_end });
            },
            EguiDrawCalls::Callback { clip_rect, paint_callback, screen_size_px } => {
                commands.push(
                    RenderCommand::SetScissorRect {
                        x: clip_rect[0],
                        y: clip_rect[1],
                        width: clip_rect[2],
                        height: clip_rect[3],
                    },
                );
                commands.push(RenderCommand::Paint { paint_callback, screen_size_px });
            },
        }
        assert(commands@ == before + draw_call_commands(draw_calls@[i as int]));
        i += 1;
    }
    commands
}

} // verus!
