use egui_render_wgpu::{
    BufferGrowth, ClipRect, ClippedPrimitive, EguiDrawCalls, EguiGfxData, EguiPainter,
    EguiTexture, ImageDelta, Mesh, MissingTexture, Primitive, RenderCommand, TextureCommand,
    TextureError, TextureErrorKind, TextureFilter, TextureId, TexturesDelta, UploadError,
};

fn quad(texture_id: TextureId) -> Mesh {
    Mesh {
        indices: vec![0, 1, 2, 2, 3, 0],
        vertices: (0..4u8).map(|i| [i; 20]).collect(),
        texture_id,
    }
}

fn on_screen(primitive: Primitive) -> ClippedPrimitive {
    ClippedPrimitive {
        clip_rect: ClipRect { min_x: 0, min_y: 0, max_x: 800, max_y: 600 },
        primitive,
    }
}

fn whole_image(width: usize, height: usize) -> ImageDelta {
    ImageDelta { size: [width, height], pos: None, magnification: TextureFilter::Linear }
}

fn no_textures() -> TexturesDelta {
    TexturesDelta { set: vec![], free: vec![] }
}

#[test]
fn new_painter_is_empty() {
    let painter = EguiPainter::new();
    assert!(painter.draw_calls().is_empty());
    assert!(painter.pending_free().is_empty());
    assert_eq!(painter.vertex_capacity(), 0);
    assert_eq!(painter.index_capacity(), 0);
    assert_eq!(painter.next_user_texture_id(), 0);
    assert_eq!(painter.texture(TextureId::Managed(0)), None);
}

#[test]
fn upload_of_a_single_quad() {
    let mut painter = EguiPainter::new();
    let data = EguiGfxData {
        meshes: vec![on_screen(Primitive::Mesh(quad(TextureId::Managed(0))))],
        textures_delta: TexturesDelta {
            set: vec![(TextureId::Managed(0), whole_image(8, 8))],
            free: vec![],
        },
    };
    let upload = painter.upload_egui_data(data, [800, 600]).unwrap();
    assert_eq!(
        painter.draw_calls(),
        &vec![EguiDrawCalls::Mesh {
            clip_rect: [0, 0, 800, 600],
            texture_id: TextureId::Managed(0),
            base_vertex: 0,
            index_start: 0,
            index_end: 6,
        }]
    );
    assert!(upload.textures.removed.is_empty());
    assert_eq!(
        upload.textures.commands,
        vec![TextureCommand::Create {
            texture_id: 0,
            width: 8,
            height: 8,
            bytes_per_row: 32,
            sampler: TextureFilter::Nearest,
        }]
    );
    assert_eq!(upload.buffers, BufferGrowth { vertex_buffer: Some(80), index_buffer: Some(24) });
    let geometry = upload.geometry.unwrap();
    assert_eq!(geometry.vertices.len(), 80);
    assert_eq!(geometry.indices.len(), 24);
    assert_eq!(painter.vertex_capacity(), 4);
    assert_eq!(painter.index_capacity(), 6);
    assert_eq!(
        painter.texture(TextureId::Managed(0)),
        Some(&EguiTexture { size: Some([8, 8]), sampler: TextureFilter::Nearest })
    );
}

#[test]
fn frame_without_vertices_writes_nothing_and_keeps_the_buffers() {
    let mut painter = EguiPainter::new();
    let first = EguiGfxData {
        meshes: vec![on_screen(Primitive::Mesh(quad(TextureId::Managed(0))))],
        textures_delta: no_textures(),
    };
    painter.upload_egui_data(first, [800, 600]).unwrap();
    assert_eq!(painter.draw_calls().len(), 1);

    let empty = EguiGfxData {
        meshes: vec![
            on_screen(Primitive::Callback(1)),
            on_screen(Primitive::Mesh(Mesh {
                indices: vec![0; 100],
                vertices: vec![],
                texture_id: TextureId::Managed(0),
            })),
        ],
        textures_delta: no_textures(),
    };
    let upload = painter.upload_egui_data(empty, [800, 600]).unwrap();
    assert!(painter.draw_calls().is_empty());
    assert!(upload.geometry.is_none());
    assert_eq!(upload.buffers, BufferGrowth { vertex_buffer: None, index_buffer: None });
    assert_eq!(painter.vertex_capacity(), 4);
    assert_eq!(painter.index_capacity(), 6);
}

#[test]
fn primitive_with_a_clip_of_zero_width_is_not_drawn() {
    let mut painter = EguiPainter::new();
    let data = EguiGfxData {
        meshes: vec![ClippedPrimitive {
            clip_rect: ClipRect { min_x: 10, min_y: 10, max_x: 10, max_y: 50 },
            primitive: Primitive::Mesh(quad(TextureId::Managed(0))),
        }],
        textures_delta: no_textures(),
    };
    painter.upload_egui_data(data, [800, 600]).unwrap();
    assert!(painter.draw_calls().is_empty());
}

#[test]
fn frame_without_vertices_drops_the_draw_calls_of_the_frame_before() {
    let mut painter = EguiPainter::new();
    let five = TextureId::Managed(5);
    let first = EguiGfxData {
        meshes: vec![on_screen(Primitive::Mesh(quad(five)))],
        textures_delta: TexturesDelta { set: vec![(five, whole_image(2, 2))], free: vec![five] },
    };
    painter.upload_egui_data(first, [800, 600]).unwrap();
    assert_eq!(painter.draw_calls().len(), 1);

    let without_vertices = EguiGfxData {
        meshes: vec![on_screen(Primitive::Mesh(Mesh {
            indices: vec![0; 1000],
            vertices: vec![],
            texture_id: five,
        }))],
        textures_delta: TexturesDelta { set: vec![(TextureId::Managed(6), whole_image(2, 2))], free: vec![] },
    };
    let upload = painter.upload_egui_data(without_vertices, [800, 600]).unwrap();
    assert!(painter.draw_calls().is_empty());
    assert!(upload.geometry.is_none());
    assert_eq!(upload.buffers, BufferGrowth { vertex_buffer: None, index_buffer: None });
    assert_eq!(upload.textures.removed, vec![five]);
    assert_eq!(upload.textures.commands.len(), 1);
    assert!(painter.texture(five).is_none());
    assert!(painter.texture(TextureId::Managed(6)).is_some());
    assert_eq!(painter.draw_egui_with_renderpass().len(), 4);
}

#[test]
fn buffers_keep_their_room_for_smaller_frames() {
    let mut painter = EguiPainter::new();
    let meshes = |count: usize| -> Vec<ClippedPrimitive> {
        (0..count).map(|_| on_screen(Primitive::Mesh(quad(TextureId::Managed(0))))).collect()
    };
    let upload = painter
        .upload_egui_data(EguiGfxData { meshes: meshes(3), textures_delta: no_textures() }, [800, 600])
        .unwrap();
    assert_eq!(upload.buffers, BufferGrowth { vertex_buffer: Some(240), index_buffer: Some(72) });
    let upload = painter
        .upload_egui_data(EguiGfxData { meshes: meshes(1), textures_delta: no_textures() }, [800, 600])
        .unwrap();
    assert_eq!(upload.buffers, BufferGrowth { vertex_buffer: None, index_buffer: None });
    assert_eq!(upload.geometry.unwrap().vertices.len(), 80);
    assert_eq!(painter.vertex_capacity(), 12);
    assert_eq!(painter.index_capacity(), 18);
    let upload = painter
        .upload_egui_data(EguiGfxData { meshes: meshes(4), textures_delta: no_textures() }, [800, 600])
        .unwrap();
    assert_eq!(upload.buffers, BufferGrowth { vertex_buffer: Some(320), index_buffer: Some(96) });
    assert_eq!(painter.vertex_capacity(), 16);
    assert_eq!(painter.index_capacity(), 24);
}

#[test]
fn geometry_counts_meshes_that_are_not_drawn() {
    let mut painter = EguiPainter::new();
    let hidden = ClippedPrimitive {
        clip_rect: ClipRect { min_x: 800, min_y: 0, max_x: 900, max_y: 10 },
        primitive: Primitive::Mesh(quad(TextureId::Managed(0))),
    };
    let data = EguiGfxData {
        meshes: vec![hidden, on_screen(Primitive::Mesh(quad(TextureId::Managed(0))))],
        textures_delta: no_textures(),
    };
    let upload = painter.upload_egui_data(data, [800, 600]).unwrap();
    assert_eq!(upload.buffers, BufferGrowth { vertex_buffer: Some(160), index_buffer: Some(48) });
    assert_eq!(upload.geometry.unwrap().vertices.len(), 80);
    assert_eq!(painter.draw_calls().len(), 1);
}

#[test]
fn painter_keeps_a_freed_texture_for_one_frame() {
    let mut painter = EguiPainter::new();
    let five = TextureId::Managed(5);
    let create = EguiGfxData {
        meshes: vec![],
        textures_delta: TexturesDelta { set: vec![(five, whole_image(4, 4))], free: vec![] },
    };
    painter.upload_egui_data(create, [100, 100]).unwrap();
    assert!(painter.texture(five).is_some());

    let frame_one = EguiGfxData {
        meshes: vec![on_screen(Primitive::Mesh(quad(five)))],
        textures_delta: TexturesDelta { set: vec![], free: vec![five] },
    };
    let upload = painter.upload_egui_data(frame_one, [100, 100]).unwrap();
    assert!(upload.textures.removed.is_empty());
    assert!(painter.texture(five).is_some());
    assert_eq!(painter.pending_free(), &vec![five]);
    assert_eq!(painter.missing_texture(), None);
    assert_eq!(painter.draw_egui_with_renderpass().len(), 8);

    let frame_two = EguiGfxData { meshes: vec![], textures_delta: no_textures() };
    let upload = painter.upload_egui_data(frame_two, [100, 100]).unwrap();
    assert_eq!(upload.textures.removed, vec![five]);
    assert!(painter.texture(five).is_none());
    assert!(painter.pending_free().is_empty());
}

#[test]
fn texture_error_leaves_the_painter_without_draw_calls() {
    let mut painter = EguiPainter::new();
    let first = EguiGfxData {
        meshes: vec![on_screen(Primitive::Mesh(quad(TextureId::Managed(0))))],
        textures_delta: no_textures(),
    };
    painter.upload_egui_data(first, [800, 600]).unwrap();
    let bad = EguiGfxData {
        meshes: vec![
            on_screen(Primitive::Mesh(quad(TextureId::Managed(0)))),
            on_screen(Primitive::Mesh(quad(TextureId::Managed(0)))),
        ],
        textures_delta: TexturesDelta {
            set: vec![
                (TextureId::Managed(1), whole_image(2, 2)),
                (TextureId::Managed(2), whole_image(0, 2)),
            ],
            free: vec![TextureId::Managed(1)],
        },
    };
    assert_eq!(
        painter.upload_egui_data(bad, [800, 600]),
        Err(UploadError::Texture(TextureError { index: 1, kind: TextureErrorKind::EmptyImage }))
    );
    assert!(painter.draw_calls().is_empty());
    assert!(painter.texture(TextureId::Managed(1)).is_some());
    assert_eq!(painter.pending_free(), &vec![TextureId::Managed(1)]);
    assert_eq!(painter.vertex_capacity(), 4);
    assert_eq!(painter.index_capacity(), 6);
}

#[test]
fn draw_of_an_uploaded_frame() {
    let mut painter = EguiPainter::new();
    let user = painter.register_native_texture(TextureFilter::Linear).unwrap();
    let data = EguiGfxData {
        meshes: vec![
            on_screen(Primitive::Mesh(quad(TextureId::Managed(0)))),
            on_screen(Primitive::Callback(3)),
            ClippedPrimitive {
                clip_rect: ClipRect { min_x: 100, min_y: 50, max_x: 300, max_y: 250 },
                primitive: Primitive::Mesh(quad(user)),
            },
        ],
        textures_delta: TexturesDelta {
            set: vec![(TextureId::Managed(0), whole_image(8, 8))],
            free: vec![],
        },
    };
    painter.upload_egui_data(data, [800, 600]).unwrap();
    assert_eq!(painter.missing_texture(), None);
    assert_eq!(
        painter.draw_egui_with_renderpass(),
        vec![
            RenderCommand::SetPipeline,
            RenderCommand::SetScreenSizeBindGroup,
            RenderCommand::SetVertexBuffer { offset: 0 },
            RenderCommand::SetIndexBuffer,
            RenderCommand::SetScissorRect { x: 0, y: 0, width: 800, height: 600 },
            RenderCommand::SetVertexBuffer { offset: 0 },
            RenderCommand::SetTextureBindGroup { texture_id: TextureId::Managed(0) },
            RenderCommand::DrawIndexed { index_start: 0, index_end: 6 },
            RenderCommand::SetScissorRect { x: 0, y: 0, width: 800, height: 600 },
            RenderCommand::Paint { paint_callback: 3, screen_size_px: [800, 600] },
            RenderCommand::SetScissorRect { x: 100, y: 50, width: 200, height: 200 },
            RenderCommand::SetVertexBuffer { offset: 80 },
            RenderCommand::SetTextureBindGroup { texture_id: TextureId::User(0) },
            RenderCommand::DrawIndexed { index_start: 6, index_end: 12 },
        ]
    );
}

#[test]
fn draw_with_a_missing_texture_is_turned_down() {
    let mut painter = EguiPainter::new();
    let data = EguiGfxData {
        meshes: vec![on_screen(Primitive::Mesh(quad(TextureId::Managed(4))))],
        textures_delta: no_textures(),
    };
    painter.upload_egui_data(data, [800, 600]).unwrap();
    assert_eq!(
        painter.missing_texture(),
        Some(MissingTexture { draw_call: 0, texture_id: TextureId::Managed(4) })
    );
}

#[test]
fn painter_registers_user_textures_in_order() {
    let mut painter = EguiPainter::new();
    assert_eq!(painter.register_native_texture(TextureFilter::Nearest), Ok(TextureId::User(0)));
    assert_eq!(
        painter.register_native_texture_with_sampler_options(TextureFilter::Linear),
        Ok(TextureId::User(1))
    );
    assert_eq!(
        painter.texture(TextureId::User(0)),
        Some(&EguiTexture { size: None, sampler: TextureFilter::Nearest })
    );
    assert_eq!(
        painter.texture(TextureId::User(1)),
        Some(&EguiTexture { size: None, sampler: TextureFilter::Linear })
    );
    assert_eq!(painter.next_user_texture_id(), 2);
}
