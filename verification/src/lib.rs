//! Frame painter for an immediate-mode GUI: the bookkeeping that turns one
//! frame's tessellated output into buffer contents, texture commands and an
//! ordered list of draw calls, with every rule stated as a contract.
//!
//! The crate holds no device handle. Each step returns plain values that say
//! what has to happen on the device; the caller performs it.

pub mod backend;
pub mod cache;
pub mod clip;
pub mod commands;
pub mod compile;
pub mod geometry;
pub mod int_map;
pub mod mesh;
pub mod painter;
pub mod target;
pub mod texture;

pub use backend::{after_failed_acquire, AcquireStep, RenderDestination, RenderError, RenderPlan, WgpuBackend};
pub use cache::{TextureCache, TexturePlan};
pub use clip::{scissor_rect, ClipRect};
pub use commands::{execute, find_missing_texture, MissingTexture, RenderCommand};
pub use compile::{compile, geometry_totals, CompiledFrame, EguiDrawCalls, Geometry, GeometryTooLarge};
pub use geometry::{BufferGrowth, GeometryBuffers};
pub use mesh::{
    push_index_bytes, push_vertex_bytes, ClippedPrimitive, Mesh, Primitive, INDEX_SIZE,
    MAX_INDICES, MAX_VERTICES, VERTEX_SIZE,
};
pub use painter::{EguiGfxData, EguiPainter, FrameUpload, UploadError};
pub use target::{
    createRenderTargetRectFromScreenSize, render_target_margins, Percent,
    RenderTargetFullscreenRect, RenderTargetRect, RenderTargetSize, MARGIN_BOTTOM, MARGIN_LEFT,
    MARGIN_RIGHT, MARGIN_TOP,
};
pub use texture::{
    first_user_delta, sampler_for, EguiTexture, ImageDelta, RegisterError, TextureCommand, TextureError,
    TextureErrorKind, TextureFilter, TextureId, TexturesDelta, BYTES_PER_PIXEL,
};
