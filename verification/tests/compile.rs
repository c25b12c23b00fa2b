use egui_render_wgpu::{
    compile, geometry_totals, push_index_bytes, push_vertex_bytes, ClipRect, ClippedPrimitive,
    EguiDrawCalls, Mesh, Primitive, TextureId, INDEX_SIZE, MAX_INDICES, MAX_VERTICES, VERTEX_SIZE,
};

fn vertex(seed: u8) -> [u8; 20] {
    let mut bytes = [0u8; 20];
    for (k, byte) in bytes.iter_mut().enumerate() {
        *byte = seed.wrapping_mul(31).wrapping_add(k as u8);
    }
    bytes
}

fn mesh(first: u8, vertices: usize, indices: Vec<u32>, texture_id: TextureId) -> Mesh {
    Mesh {
        indices,
        vertices: (0..vertices).map(|i| vertex(first + i as u8)).collect(),
        texture_id,
    }
}

fn whole(width: i64, height: i64) -> ClipRect {
    ClipRect { min_x: 0, min_y: 0, max_x: width, max_y: height }
}

fn clipped(clip_rect: ClipRect, primitive: Primitive) -> ClippedPrimitive {
    ClippedPrimitive { clip_rect, primitive }
}

#[test]
fn single_quad_covering_the_screen() {
    let quad = mesh(0, 4, vec![0, 1, 2, 2, 3, 0], TextureId::Managed(0));
    let primitives = vec![clipped(whole(800, 600), Primitive::Mesh(quad))];
    let frame = compile(&primitives, [800, 600]).unwrap();
    assert_eq!(
        frame.draw_calls,
        vec![EguiDrawCalls::Mesh {
            clip_rect: [0, 0, 800, 600],
            texture_id: TextureId::Managed(0),
            base_vertex: 0,
            index_start: 0,
            index_end: 6,
        }]
    );
    assert_eq!(frame.total_vertices, 4);
    assert_eq!(frame.total_indices, 6);
    let geometry = frame.geometry.unwrap();
    assert_eq!(geometry.vertices.len(), 80);
    assert_eq!(geometry.indices.len(), 24);
    let mut expected = Vec::new();
    for i in 0..4 {
        expected.extend_from_slice(&vertex(i));
    }
    assert_eq!(geometry.vertices, expected);
    assert_eq!(
        geometry.indices,
        vec![0, 0, 0, 0, 1, 0, 0, 0, 2, 0, 0, 0, 2, 0, 0, 0, 3, 0, 0, 0, 0, 0, 0, 0]
    );
}

#[test]
fn frame_without_primitives_draws_nothing() {
    let frame = compile(&vec![], [800, 600]).unwrap();
    assert!(frame.draw_calls.is_empty());
    assert!(frame.geometry.is_none());
    assert_eq!(frame.total_vertices, 0);
    assert_eq!(frame.total_indices, 0);
}

#[test]
fn frame_without_vertices_draws_nothing() {
    let primitives = vec![
        clipped(whole(800, 600), Primitive::Mesh(mesh(0, 0, vec![], TextureId::Managed(1)))),
        clipped(whole(800, 600), Primitive::Callback(7)),
        clipped(whole(800, 600), Primitive::Mesh(mesh(0, 0, vec![0, 1, 2], TextureId::User(1)))),
    ];
    let frame = compile(&primitives, [800, 600]).unwrap();
    assert!(frame.draw_calls.is_empty());
    assert!(frame.geometry.is_none());
    assert_eq!(frame.total_vertices, 0);
    assert_eq!(frame.total_indices, 0);
}

#[test]
fn primitive_with_a_clip_of_zero_width_is_skipped() {
    let quad = mesh(0, 4, vec![0, 1, 2, 2, 3, 0], TextureId::Managed(0));
    let primitives = vec![clipped(
        ClipRect { min_x: 10, min_y: 10, max_x: 10, max_y: 50 },
        Primitive::Mesh(quad),
    )];
    let frame = compile(&primitives, [800, 600]).unwrap();
    assert!(frame.draw_calls.is_empty());
    assert_eq!(frame.total_vertices, 4);
    assert_eq!(frame.total_indices, 6);
    let geometry = frame.geometry.unwrap();
    assert!(geometry.vertices.is_empty());
    assert!(geometry.indices.is_empty());
}

#[test]
fn primitives_with_empty_clips_are_skipped_among_others() {
    let primitives = vec![
        clipped(
            ClipRect { min_x: 10, min_y: 10, max_x: 50, max_y: 10 },
            Primitive::Mesh(mesh(0, 3, vec![0, 1, 2], TextureId::Managed(0))),
        ),
        clipped(ClipRect { min_x: 30, min_y: 30, max_x: 30, max_y: 30 }, Primitive::Callback(1)),
        clipped(
            ClipRect { min_x: 10, min_y: 10, max_x: 50, max_y: 11 },
            Primitive::Mesh(mesh(3, 2, vec![1, 0], TextureId::Managed(7))),
        ),
        clipped(
            ClipRect { min_x: 60, min_y: 60, max_x: 20, max_y: 90 },
            Primitive::Mesh(mesh(5, 1, vec![0], TextureId::Managed(8))),
        ),
    ];
    let frame = compile(&primitives, [800, 600]).unwrap();
    assert_eq!(
        frame.draw_calls,
        vec![EguiDrawCalls::Mesh {
            clip_rect: [10, 10, 40, 1],
            texture_id: TextureId::Managed(7),
            base_vertex: 0,
            index_start: 0,
            index_end: 2,
        }]
    );
    assert_eq!(frame.total_vertices, 6);
    assert_eq!(frame.total_indices, 6);
    let geometry = frame.geometry.unwrap();
    let mut expected = Vec::new();
    expected.extend_from_slice(&vertex(3));
    expected.extend_from_slice(&vertex(4));
    assert_eq!(geometry.vertices, expected);
    assert_eq!(geometry.indices, vec![1, 0, 0, 0, 0, 0, 0, 0]);
}

#[test]
fn meshes_start_where_the_ones_before_end() {
    let primitives = vec![
        clipped(
            ClipRect { min_x: 10, min_y: 10, max_x: 60, max_y: 40 },
            Primitive::Mesh(mesh(0, 3, vec![0, 1, 2], TextureId::Managed(0))),
        ),
        clipped(
            ClipRect { min_x: 0, min_y: 0, max_x: 100, max_y: 100 },
            Primitive::Mesh(mesh(3, 4, vec![0, 1, 2, 2, 3, 0], TextureId::User(9))),
        ),
        clipped(
            ClipRect { min_x: 50, min_y: 50, max_x: 500, max_y: 500 },
            Primitive::Mesh(mesh(7, 1, vec![0], TextureId::Managed(2))),
        ),
    ];
    let frame = compile(&primitives, [200, 100]).unwrap();
    assert_eq!(
        frame.draw_calls,
        vec![
            EguiDrawCalls::Mesh {
                clip_rect: [10, 10, 50, 30],
                texture_id: TextureId::Managed(0),
                base_vertex: 0,
                index_start: 0,
                index_end: 3,
            },
            EguiDrawCalls::Mesh {
                clip_rect: [0, 0, 100, 100],
                texture_id: TextureId::User(9),
                base_vertex: 3,
                index_start: 3,
                index_end: 9,
            },
            EguiDrawCalls::Mesh {
                clip_rect: [50, 50, 150, 50],
                texture_id: TextureId::Managed(2),
                base_vertex: 7,
                index_start: 9,
                index_end: 10,
            },
        ]
    );
    let geometry = frame.geometry.unwrap();
    assert_eq!(geometry.vertices.len(), 8 * 20);
    assert_eq!(geometry.indices.len(), 10 * 4);
    for i in 0..8usize {
        assert_eq!(&geometry.vertices[i * 20..(i + 1) * 20], &vertex(i as u8)[..]);
    }
}

#[test]
fn primitive_without_pixels_leaves_no_trace() {
    let primitives = vec![
        clipped(
            whole(100, 100),
            Primitive::Mesh(mesh(0, 2, vec![0, 1, 0], TextureId::Managed(0))),
        ),
        clipped(
            ClipRect { min_x: 100, min_y: 0, max_x: 300, max_y: 50 },
            Primitive::Mesh(mesh(2, 5, vec![0, 1, 2, 3, 4, 0], TextureId::Managed(1))),
        ),
        clipped(ClipRect { min_x: 0, min_y: 100, max_x: 10, max_y: 110 }, Primitive::Callback(3)),
        clipped(
            whole(100, 100),
            Primitive::Mesh(mesh(7, 3, vec![2, 1, 0], TextureId::Managed(2))),
        ),
    ];
    let frame = compile(&primitives, [100, 100]).unwrap();
    assert_eq!(frame.total_vertices, 10);
    assert_eq!(frame.total_indices, 12);
    assert_eq!(
        frame.draw_calls,
        vec![
            EguiDrawCalls::Mesh {
                clip_rect: [0, 0, 100, 100],
                texture_id: TextureId::Managed(0),
                base_vertex: 0,
                index_start: 0,
                index_end: 3,
            },
            EguiDrawCalls::Mesh {
                clip_rect: [0, 0, 100, 100],
                texture_id: TextureId::Managed(2),
                base_vertex: 2,
                index_start: 3,
                index_end: 6,
            },
        ]
    );
    let geometry = frame.geometry.unwrap();
    let mut expected = Vec::new();
    for seed in [0u8, 1, 7, 8, 9] {
        expected.extend_from_slice(&vertex(seed));
    }
    assert_eq!(geometry.vertices, expected);
    assert_eq!(
        geometry.indices,
        vec![0, 0, 0, 0, 1, 0, 0, 0, 0, 0, 0, 0, 2, 0, 0, 0, 1, 0, 0, 0, 0, 0, 0, 0]
    );
}

#[test]
fn callbacks_keep_their_place_among_meshes() {
    let primitives = vec![
        clipped(whole(10, 10), Primitive::Callback(11)),
        clipped(
            whole(640, 480),
            Primitive::Mesh(mesh(0, 3, vec![0, 1, 2], TextureId::Managed(0))),
        ),
        clipped(ClipRect { min_x: 5, min_y: 6, max_x: 7, max_y: 9 }, Primitive::Callback(12)),
    ];
    let frame = compile(&primitives, [640, 480]).unwrap();
    assert_eq!(
        frame.draw_calls,
        vec![
            EguiDrawCalls::Callback {
                clip_rect: [0, 0, 10, 10],
                paint_callback: 11,
                screen_size_px: [640, 480],
            },
            EguiDrawCalls::Mesh {
                clip_rect: [0, 0, 640, 480],
                texture_id: TextureId::Managed(0),
                base_vertex: 0,
                index_start: 0,
                index_end: 3,
            },
            EguiDrawCalls::Callback {
                clip_rect: [5, 6, 2, 3],
                paint_callback: 12,
                screen_size_px: [640, 480],
            },
        ]
    );
}

#[test]
fn frame_on_a_screen_without_pixels_has_geometry_but_no_draw_call() {
    let primitives = vec![clipped(
        whole(100, 100),
        Primitive::Mesh(mesh(0, 3, vec![0, 1, 2], TextureId::Managed(0))),
    )];
    let frame = compile(&primitives, [0, 0]).unwrap();
    assert!(frame.draw_calls.is_empty());
    assert_eq!(frame.total_vertices, 3);
    let geometry = frame.geometry.unwrap();
    assert!(geometry.vertices.is_empty());
    assert!(geometry.indices.is_empty());
}

#[test]
fn every_draw_call_lies_within_the_screen() {
    let mut primitives = Vec::new();
    for i in 0..40i64 {
        primitives.push(clipped(
            ClipRect { min_x: i * 7 - 20, min_y: 90 - i * 5, max_x: i * 11, max_y: 300 - i * 9 },
            if i % 3 == 0 {
                Primitive::Callback(i as u64)
            } else {
                Primitive::Mesh(mesh(i as u8, 2, vec![0, 1], TextureId::Managed(i as u64)))
            },
        ));
    }
    let frame = compile(&primitives, [120, 80]).unwrap();
    assert!(!frame.draw_calls.is_empty());
    for draw_call in &frame.draw_calls {
        let [x, y, width, height] = draw_call.clip_rect();
        assert!(x + width <= 120);
        assert!(y + height <= 80);
        assert!(width >= 1);
        assert!(height >= 1);
    }
}

#[test]
fn totals_count_every_mesh() {
    let primitives = vec![
        clipped(
            ClipRect { min_x: 900, min_y: 0, max_x: 901, max_y: 1 },
            Primitive::Mesh(mesh(0, 5, vec![0; 7], TextureId::Managed(0))),
        ),
        clipped(whole(1, 1), Primitive::Callback(0)),
        clipped(whole(1, 1), Primitive::Mesh(mesh(0, 2, vec![0; 3], TextureId::Managed(0)))),
    ];
    assert_eq!(geometry_totals(&primitives), Ok((7, 10)));
    assert_eq!(geometry_totals(&vec![]), Ok((0, 0)));
}

#[test]
fn index_bytes_are_little_endian() {
    let mut packed = vec![0xaa];
    push_index_bytes(&mut packed, &vec![0x0403_0201, 0, u32::MAX, 256, 65536, 16777216]);
    assert_eq!(
        packed,
        vec![
            0xaa, 1, 2, 3, 4, 0, 0, 0, 0, 255, 255, 255, 255, 0, 1, 0, 0, 0, 0, 1, 0, 0, 0, 0, 1
        ]
    );
    for index in [0u32, 1, 255, 256, 0x1234_5678, 0xdead_beef, u32::MAX] {
        let mut bytes = Vec::new();
        push_index_bytes(&mut bytes, &vec![index]);
        assert_eq!(bytes, index.to_le_bytes().to_vec());
    }
}

#[test]
fn vertex_bytes_follow_one_another() {
    let mut packed = vec![1, 2, 3];
    push_vertex_bytes(&mut packed, &vec![vertex(5), vertex(6)]);
    let mut expected = vec![1, 2, 3];
    expected.extend_from_slice(&vertex(5));
    expected.extend_from_slice(&vertex(6));
    assert_eq!(packed, expected);
    push_vertex_bytes(&mut packed, &vec![]);
    assert_eq!(packed, expected);
}

#[test]
fn sizes_and_limits() {
    assert_eq!(VERTEX_SIZE, 20);
    assert_eq!(INDEX_SIZE, 4);
    assert_eq!(MAX_VERTICES, i32::MAX as u32);
    assert_eq!(MAX_INDICES, u32::MAX);
}
