use egui_render_wgpu::{
    execute, find_missing_texture, EguiDrawCalls, ImageDelta, MissingTexture, RenderCommand,
    TextureCache, TextureFilter, TextureId, TexturesDelta,
};

fn cache_with(keys: &[u64]) -> TextureCache {
    let mut cache = TextureCache::new();
    let set = keys
        .iter()
        .map(|key| {
            (
                TextureId::Managed(*key),
                ImageDelta { size: [4, 4], pos: None, magnification: TextureFilter::Linear },
            )
        })
        .collect();
    cache.apply_deltas(TexturesDelta { set, free: vec![] }).unwrap();
    cache
}

fn mesh_call(texture_id: TextureId, base_vertex: i32, index_start: u32, index_end: u32) -> EguiDrawCalls {
    EguiDrawCalls::Mesh { clip_rect: [1, 2, 3, 4], texture_id, base_vertex, index_start, index_end }
}

#[test]
fn frame_without_draw_calls_records_the_setup_only() {
    let commands = execute(&vec![], &TextureCache::new());
    assert_eq!(
        commands,
        vec![
            RenderCommand::SetPipeline,
            RenderCommand::SetScreenSizeBindGroup,
            RenderCommand::SetVertexBuffer { offset: 0 },
            RenderCommand::SetIndexBuffer,
        ]
    );
}

#[test]
fn mesh_binds_the_vertex_buffer_from_its_first_vertex() {
    let cache = cache_with(&[0, 5]);
    let draw_calls = vec![
        mesh_call(TextureId::Managed(0), 0, 0, 6),
        mesh_call(TextureId::Managed(5), 4, 6, 9),
    ];
    let commands = execute(&draw_calls, &cache);
    assert_eq!(
        commands,
        vec![
            RenderCommand::SetPipeline,
            RenderCommand::SetScreenSizeBindGroup,
            RenderCommand::SetVertexBuffer { offset: 0 },
            RenderCommand::SetIndexBuffer,
            RenderCommand::SetScissorRect { x: 1, y: 2, width: 3, height: 4 },
            RenderCommand::SetVertexBuffer { offset: 0 },
            RenderCommand::SetTextureBindGroup { texture_id: TextureId::Managed(0) },
            RenderCommand::DrawIndexed { index_start: 0, index_end: 6 },
            RenderCommand::SetScissorRect { x: 1, y: 2, width: 3, height: 4 },
            RenderCommand::SetVertexBuffer { offset: 80 },
            RenderCommand::SetTextureBindGroup { texture_id: TextureId::Managed(5) },
            RenderCommand::DrawIndexed { index_start: 6, index_end: 9 },
        ]
    );
}

#[test]
fn largest_base_vertex_gives_the_largest_offset() {
    let cache = cache_with(&[1]);
    let commands =
        execute(&vec![mesh_call(TextureId::Managed(1), i32::MAX, u32::MAX, u32::MAX)], &cache);
    assert_eq!(commands[5], RenderCommand::SetVertexBuffer { offset: 42949672940 });
    assert_eq!(
        commands[7],
        RenderCommand::DrawIndexed { index_start: u32::MAX, index_end: u32::MAX }
    );
}

#[test]
fn callback_is_painted_inside_its_scissor() {
    let draw_calls = vec![EguiDrawCalls::Callback {
        clip_rect: [10, 20, 30, 40],
        paint_callback: 77,
        screen_size_px: [640, 480],
    }];
    let commands = execute(&draw_calls, &TextureCache::new());
    assert_eq!(
        &commands[4..],
        &[
            RenderCommand::SetScissorRect { x: 10, y: 20, width: 30, height: 40 },
            RenderCommand::Paint { paint_callback: 77, screen_size_px: [640, 480] },
        ]
    );
}

#[test]
fn user_texture_is_bound_by_its_own_key() {
    let mut cache = cache_with(&[0]);
    let id = cache.register_native_texture(TextureFilter::Nearest).unwrap();
    assert_eq!(find_missing_texture(&vec![mesh_call(id, 0, 0, 3)], &cache), None);
    let commands = execute(&vec![mesh_call(id, 0, 0, 3)], &cache);
    assert_eq!(commands[6], RenderCommand::SetTextureBindGroup { texture_id: TextureId::User(0) });
    assert_eq!(
        find_missing_texture(&vec![mesh_call(TextureId::User(1), 0, 0, 3)], &cache),
        Some(MissingTexture { draw_call: 0, texture_id: TextureId::User(1) })
    );
}

#[test]
fn first_missing_texture_is_reported() {
    let cache = cache_with(&[0, 1]);
    let draw_calls = vec![
        mesh_call(TextureId::Managed(0), 0, 0, 3),
        EguiDrawCalls::Callback { clip_rect: [0, 0, 1, 1], paint_callback: 0, screen_size_px: [1, 1] },
        mesh_call(TextureId::Managed(8), 3, 3, 6),
        mesh_call(TextureId::Managed(9), 6, 6, 9),
        mesh_call(TextureId::Managed(1), 9, 9, 12),
    ];
    assert_eq!(
        find_missing_texture(&draw_calls, &cache),
        Some(MissingTexture { draw_call: 2, texture_id: TextureId::Managed(8) })
    );
    assert_eq!(find_missing_texture(&draw_calls[..2].to_vec(), &cache), None);
    assert_eq!(find_missing_texture(&vec![], &cache), None);
}
