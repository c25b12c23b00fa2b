//! The backend around the painter: what it knows of the surface, and the
//! render-target router, which decides for each frame whether the draw
//! stream goes to the surface or to the offscreen render target.

use crate::commands::{commands_before, first_missing, MissingTexture, RenderCommand};
use crate::painter::{EguiGfxData, EguiPainter, FrameUpload, Painter, UploadError};
use crate::target::{
    createRenderTargetRectFromScreenSize, spec_render_target_rect, RenderTargetRect,
    RenderTargetSize,
};
use crate::texture::{EguiTexture, RegisterError, TextureFilter, TextureId};
use vstd::prelude::*;

verus! {

/// Where the draw stream of a frame goes.
#[derive(Clone, Copy, Debug, PartialEq, Eq, Structural)]
pub enum RenderDestination {
    /// To the view of the surface's current image.
    Surface,
    /// To the view of the offscreen render target.
    Offscreen,
}

/// What to do when the surface did not hand out its current image.
#[derive(Clone, Copy, Debug, PartialEq, Eq, Structural)]
pub enum AcquireStep {
    /// Configure the surface anew, with the size that the framebuffer has
    /// now, and ask once more.
    ReconfigureAndRetry,
    /// Give up: the frame cannot be drawn.
    Fatal,
}

/// What has to happen on the device to draw a frame, in this order: the
/// upload, then a render pass on the destination that loads what is there
/// and records the commands.
#[derive(Clone, Debug, PartialEq, Eq)]
pub struct RenderPlan {
    pub upload: FrameUpload,
    pub destination: RenderDestination,
    pub commands: Vec<RenderCommand>,
}

/// Why a frame could not be rendered.
#[derive(Clone, Copy, Debug, PartialEq, Eq, Structural)]
pub enum RenderError {
    /// The upload step turned the frame down.
    Upload(UploadError),
    /// A mesh of the frame binds a texture that the cache does not hold.
    MissingTexture(MissingTexture),
}

/// The state of the backend, without its device handles.
pub struct WgpuBackend {
    painter: EguiPainter,
    surface_width: u32,
    surface_height: u32,
    use_offscreen_render_target: bool,
    render_target_rect: Option<RenderTargetRect>,
    last_surface_width: u32,
    last_surface_height: u32,
}

/// What a backend holds.
#[verifier::ext_equal]
pub struct Backend {
    pub painter: Painter,
    /// Width and height that the surface is configured with.
    pub surface_size: [u32; 2],
    /// Whether the draw stream goes to the offscreen render target.
    pub use_offscreen_render_target: bool,
    /// Where the offscreen render target lies on the screen.
    pub render_target_rect: Option<RenderTargetRect>,
    /// Width and height that the render target was last sized for.
    pub last_surface_size: [u32; 2],
}

impl Backend {
    /// The painter is well-formed, and a backend that renders offscreen knows
    /// where its render target lies.
    pub open spec fn wf(self) -> bool {
        &&& self.painter.wf()
        &&& self.use_offscreen_render_target ==> self.render_target_rect.is_some()
    }

    /// The size of the screen that a frame is compiled for: that of the
    /// render target where the backend renders offscreen, else that of the
    /// surface.
    pub open spec fn render_screen_size(self) -> [u32; 2] {
        if self.use_offscreen_render_target {
            [self.render_target_rect.unwrap().width, self.render_target_rect.unwrap().height]
        } else {
            self.surface_size
        }
    }

    /// Where the draw stream goes.
    pub open spec fn destination(self) -> RenderDestination {
        if self.use_offscreen_render_target {
            RenderDestination::Offscreen
        } else {
            RenderDestination::Surface
        }
    }

    /// The corner of the screen that positions on the destination count
    /// from: the corner of the render target where the backend renders
    /// offscreen, else that of the screen.
    pub open spec fn origin(self) -> [u32; 2] {
        if self.use_offscreen_render_target {
            [self.render_target_rect.unwrap().x, self.render_target_rect.unwrap().y]
        } else {
            [0, 0]
        }
    }

    /// Whether the render target has to be sized anew for a framebuffer of
    /// the given size: whether the size differs from the one it was last
    /// sized for.
    pub open spec fn must_resize(self, width: u32, height: u32) -> bool {
        self.last_surface_size[0] != width || self.last_surface_size[1] != height
    }

    /// The backend after it was told of a framebuffer of the given size.
    pub open spec fn resized(self, width: u32, height: u32) -> Backend {
        Backend {
            painter: self.painter,
            surface_size: self.surface_size,
            use_offscreen_render_target: self.use_offscreen_render_target,
            render_target_rect: if self.must_resize(width, height)
                && self.use_offscreen_render_target {
                Some(spec_render_target_rect(width, height))
            } else {
                self.render_target_rect
            },
            last_surface_size: [width, height],
        }
    }
}

impl View for WgpuBackend {
    type V = Backend;

    closed spec fn view(&self) -> Backend {
        Backend {
            painter: self.painter@,
            surface_size: [self.surface_width, self.surface_height],
            use_offscreen_render_target: self.use_offscreen_render_target,
            render_target_rect: self.render_target_rect,
            last_surface_size: [self.last_surface_width, self.last_surface_height],
        }
    }
}

/// What to do when the surface did not hand out its current image, after
/// `retries` retries in this frame: there is exactly one retry, so the first
/// failure leads to it and a failure of the retry is fatal.
pub fn after_failed_acquire(retries: u32) -> (step: AcquireStep)
    ensures
        step == (if retries == 0 {
            AcquireStep::ReconfigureAndRetry
        } else {
            AcquireStep::Fatal
        }),
{
    if retries == 0 {
        AcquireStep::ReconfigureAndRetry
    } else {
        AcquireStep::Fatal
    }
}

impl WgpuBackend {
    /// A backend for a framebuffer of the given size, with a new painter.
    /// Where it renders offscreen, the render target is laid out for that
    /// size.
    pub fn new(framebuffer_size: [u32; 2], use_offscreen_render_target: bool) -> (backend: WgpuBackend)
        ensures
            backend@.wf(),
            backend@.surface_size == framebuffer_size,
            backend@.last_surface_size == framebuffer_size,
            backend@.use_offscreen_render_target == use_offscreen_render_target,
            backend@.render_target_rect == (if use_offscreen_render_target {
                Some(spec_render_target_rect(framebuffer_size[0], framebuffer_size[1]))
            } else {
                None
            }),
            backend@.painter == Painter::empty(),
    {
        let render_target_rect = if use_offscreen_render_target {
            Some(createRenderTargetRectFromScreenSize(framebuffer_size[0], framebuffer_size[1]))
        } else {
            None
        };
        WgpuBackend {
            painter: EguiPainter::new(),
            surface_width: framebuffer_size[0],
            surface_height: framebuffer_size[1],
            use_offscreen_render_target,
            render_target_rect,
            last_surface_width: framebuffer_size[0],
            last_surface_height: framebuffer_size[1],
        }
    }

    /// The painter of this backend.
    pub fn painter(&self) -> (painter: &EguiPainter)
        ensures
            painter@ == self@.painter,
    {
        &self.painter
    }

    /// Whether the draw stream goes to the offscreen render target.
    pub fn is_rendering_to_offscreen_render_target(&self) -> (offscreen: bool)
        ensures
            offscreen == self@.use_offscreen_render_target,
    {
        self.use_offscreen_render_target
    }

    /// Where the offscreen render target lies on the screen.
    pub fn render_target_rect(&self) -> (rect: Option<RenderTargetRect>)
        ensures
            rect == self@.render_target_rect,
    {
        self.render_target_rect
    }

    /// Width and height that the surface is configured with.
    pub fn surface_size(&self) -> (size: [u32; 2])
        ensures
            size == self@.surface_size,
    {
        [self.surface_width, self.surface_height]
    }

    /// The render target on a screen of the given size.
    #[allow(non_snake_case)]
    pub fn createRenderTargetRectFromScreenSize(&self, screen_width: u32, screen_height: u32) -> (rect:
        RenderTargetRect)
        ensures
            rect == spec_render_target_rect(screen_width, screen_height),
            rect.x + rect.width <= screen_width,
            rect.y + rect.height <= screen_height,
    {
        createRenderTargetRectFromScreenSize(screen_width, screen_height)
    }

    /// Lays the render target out for a screen of the given size and
    /// returns its width and height.
    #[allow(non_snake_case)]
    pub fn updateRenderTargetRect(&mut self, screen_width: u32, screen_height: u32) -> (size: (
        u32,
        u32,
    ))
        requires
            old(self)@.wf(),
        ensures
            final(self)@.wf(),
            final(self)@ == (Backend {
                render_target_rect: Some(spec_render_target_rect(screen_width, screen_height)),
                ..old(self)@
            }),
            size.0 == spec_render_target_rect(screen_width, screen_height).width,
            size.1 == spec_render_target_rect(screen_width, screen_height).height,
    {
        let rect = createRenderTargetRectFromScreenSize(screen_width, screen_height);
        self.render_target_rect = Some(rect);
        (rect.width, rect.height)
    }

    /// Tells the backend the size of the framebuffer. The render target
    /// persists from frame to frame: only where the size differs from the one
    /// it was last sized for, and the backend renders offscreen, is it laid
    /// out anew, and the size of the texture that has to take the place of
    /// the old one is returned.
    pub fn resize_render_target(&mut self, width: u32, height: u32) -> (texture: Option<
        RenderTargetSize,
    >)
        requires
            old(self)@.wf(),
        ensures
            final(self)@.wf(),
            final(self)@ == old(self)@.resized(width, height),
            texture == (if old(self)@.must_resize(width, height)
                && old(self)@.use_offscreen_render_target {
                Some(
                    RenderTargetSize {
                        width: spec_render_target_rect(width, height).width,
                        height: spec_render_target_rect(width, height).height,
                    },
                )
            } else {
                None
            }),
    {
        let do_resize = self.last_surface_height != height || self.last_surface_width != width;
        if do_resize {
            self.last_surface_height = height;
            self.last_surface_width = width;
            if self.use_offscreen_render_target {
                let (width, height) = self.updateRenderTargetRect(width, height);
                return Some(RenderTargetSize { width, height });
            }
        }
        None
    }

    /// Notes the size that the surface was configured with. The render
    /// target is not touched.
    pub fn configure_surface(&mut self, framebuffer_size: [u32; 2])
        requires
            old(self)@.wf(),
        ensures
            final(self)@.wf(),
            final(self)@ == (Backend { surface_size: framebuffer_size, ..old(self)@ }),
    {
        self.surface_width = framebuffer_size[0];
        self.surface_height = framebuffer_size[1];
    }

    /// The start of a frame. Where the framebuffer has a new size, the
    /// surface is to be configured with it, and the render target follows as
    /// `resize_render_target` says.
    pub fn prepare_frame(&mut self, framebuffer_size_update: Option<[u32; 2]>) -> (texture: Option<
        RenderTargetSize,
    >)
        requires
            old(self)@.wf(),
        ensures
            final(self)@.wf(),
            match framebuffer_size_update {
                None => texture.is_none() && final(self)@ == old(self)@,
                Some(size) => {
                    &&& final(self)@ == (Backend {
                        surface_size: size,
                        ..old(self)@.resized(size[0], size[1])
                    })
                    &&& texture == (if old(self)@.must_resize(size[0], size[1])
                        && old(self)@.use_offscreen_render_target {
                        Some(
                            RenderTargetSize {
                                width: spec_render_target_rect(size[0], size[1]).width,
                                height: spec_render_target_rect(size[0], size[1]).height,
                            },
                        )
                    } else {
                        None
                    })
                },
            },
    {
        match framebuffer_size_update {
            None => None,
            Some(size) => {
                self.configure_surface(size);
                self.resize_render_target(size[0], size[1])
            },
        }
    }

    /// Maps a position on the screen, in physical pixels, to the space of the
    /// destination: where the backend renders offscreen the origin of the
    /// render target is subtracted, else the position is passed through.
    pub fn mouse_pos_screen_to_render_target_space(&self, x: i32, y: i32) -> (mapped: (i64, i64))
        requires
            self@.wf(),
        ensures
            mapped.0 == x - self@.origin()[0],
            mapped.1 == y - self@.origin()[1],
            !self@.use_offscreen_render_target ==> mapped.0 == x && mapped.1 == y,
    {
        let origin = self.render_target_origin();
        (x as i64 - origin[0] as i64, y as i64 - origin[1] as i64)
    }

    /// The corner of the screen that positions on the destination count
    /// from: the corner of the render target where the backend renders
    /// offscreen, else that of the screen.
    pub fn render_target_origin(&self) -> (origin: [u32; 2])
        requires
            self@.wf(),
        ensures
            origin == self@.origin(),
    {
        if self.use_offscreen_render_target {
            match self.render_target_rect {
                Some(rect) => [rect.x, rect.y],
                None => [0, 0],
            }
        } else {
            [0, 0]
        }
    }

    /// The size of the screen that a frame is compiled for.
    pub fn render_screen_size(&self) -> (size: [u32; 2])
        requires
            self@.wf(),
        ensures
            size == self@.render_screen_size(),
    {
        if self.use_offscreen_render_target {
            match self.render_target_rect {
                Some(rect) => [rect.width, rect.height],
                None => [self.surface_width, self.surface_height],
            }
        } else {
            [self.surface_width, self.surface_height]
        }
    }

    /// Registers a user texture that is sampled with `texture_filter` in both
    /// directions, under the next free key.
    pub fn register_native_texture(&mut self, texture_filter: TextureFilter) -> (result: Result<
        TextureId,
        RegisterError,
    >)
        requires
            old(self)@.wf(),
        ensures
            final(self)@.wf(),
            final(self)@.surface_size == old(self)@.surface_size,
            final(self)@.use_offscreen_render_target == old(self)@.use_offscreen_render_target,
            final(self)@.render_target_rect == old(self)@.render_target_rect,
            final(self)@.last_surface_size == old(self)@.last_surface_size,
            final(self)@.painter.vertex_capacity == old(self)@.painter.vertex_capacity,
            final(self)@.painter.index_capacity == old(self)@.painter.index_capacity,
            final(self)@.painter.draw_calls == old(self)@.painter.draw_calls,
            match result {
                Ok(id) => {
                    &&& old(self)@.painter.textures.register_error().is_none()
                    &&& id == TextureId::User(old(self)@.painter.textures.next_user_texture_id)
                    &&& old(self)@.painter.textures.get(id).is_none()
                    &&& final(self)@.painter.textures == old(self)@.painter.textures.registered(
                        texture_filter,
                    )
                    &&& final(self)@.painter.textures.get(id) == Some(
                        EguiTexture { size: None, sampler: texture_filter },
                    )
                },
                Err(error) => {
                    &&& old(self)@.painter.textures.register_error() == Some(error)
                    &&& final(self)@.painter.textures == old(self)@.painter.textures
                },
            },
    {
        self.painter.register_native_texture(texture_filter)
    }

    /// Renders a frame: uploads it for the screen that the destination
    /// stands for, looks whether every mesh finds its texture, and if so
    /// draws it. What is returned has to happen on the device, in the order
    /// given.
    pub fn render(&mut self, egui_gfx_data: EguiGfxData) -> (result: Result<RenderPlan, RenderError>)
        requires
            old(self)@.wf(),
        ensures
            final(self)@.wf(),
            final(self)@.surface_size == old(self)@.surface_size,
            final(self)@.use_offscreen_render_target == old(self)@.use_offscreen_render_target,
            final(self)@.render_target_rect == old(self)@.render_target_rect,
            final(self)@.last_surface_size == old(self)@.last_surface_size,
            final(self)@.painter == old(self)@.painter.after_upload(
                egui_gfx_data,
                old(self)@.render_screen_size(),
            ),
            match result {
                Ok(plan) => {
                    &&& old(self)@.painter.upload_error(egui_gfx_data).is_none()
                    &&& first_missing(
                        final(self)@.painter.textures,
                        final(self)@.painter.draw_calls,
                        final(self)@.painter.draw_calls.len() as int,
                    ).is_none()
                    &&& old(self)@.painter.is_upload(
                        plan.upload,
                        egui_gfx_data,
                        old(self)@.render_screen_size(),
                    )
                    &&& plan.destination == old(self)@.destination()
                    &&& plan.commands@ == commands_before(
                        final(self)@.painter.draw_calls,
                        final(self)@.painter.draw_calls.len() as int,
                    )
                },
                Err(RenderError::Upload(error)) => old(self)@.painter.upload_error(egui_gfx_data)
                    == Some(error),
                Err(RenderError::MissingTexture(missing)) => {
                    &&& old(self)@.painter.upload_error(egui_gfx_data).is_none()
                    &&& first_missing(
                        final(self)@.painter.textures,
                        final(self)@.painter.draw_calls,
                        final(self)@.painter.draw_calls.len() as int,
                    ) == Some(missing)
                },
            },
    {
        let screen_size = self.render_screen_size();
        let destination = if self.use_offscreen_render_target {
            RenderDestination::Offscreen
        } else {
            RenderDestination::Surface
        };
        let upload = match self.painter.upload_egui_data(egui_gfx_data, screen_size) {
            Ok(upload) => upload,
            Err(error) => {
                return Err(RenderError::Upload(error));
            },
        };
        if let Some(missing) = self.painter.missing_texture() {
            return Err(RenderError::MissingTexture(missing));
        }
        let commands = self.painter.draw_egui_with_renderpass();
        Ok(RenderPlan { upload, destination, commands })
    }
}

} // verus!
