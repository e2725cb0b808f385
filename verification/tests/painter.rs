use egui_wgpu::buffer::{BufferAction, BufferUsages, SizedBuffer};
use egui_wgpu::clip::{ClipRect, ScissorRect};
use egui_wgpu::frame::{ClippedMesh, DrawCall, Frame, LoadOp, Mesh, RenderTarget};
use egui_wgpu::painter::Painter;
use egui_wgpu::texture::{
    AlphaImage, ColorImage, ImageData, ImageDelta, PaintError, TexelFormat, TextureId,
    TextureInfo, TexturesDelta,
};

const FONT: TextureId = TextureId::Managed(0);

fn target(width: u32, height: u32) -> RenderTarget {
    RenderTarget { clear_color: None, width, height }
}

fn full_clip() -> ClipRect {
    ClipRect { min_x: 0, min_y: 0, max_x: 800, max_y: 600 }
}

fn mesh(clip: ClipRect, vertices: usize, indices: usize, texture_id: TextureId) -> ClippedMesh {
    ClippedMesh(
        clip,
        Mesh {
            indices: (0..indices as u32).collect(),
            vertices: (0..vertices * 20).map(|i| i as u8).collect(),
            texture_id,
        },
    )
}

fn alpha_delta(width: usize, height: usize) -> ImageDelta {
    ImageDelta {
        image: ImageData::Alpha(AlphaImage { size: [width, height], pixels: vec![0; width * height] }),
        pos: None,
    }
}

fn color_delta(width: usize, height: usize, texels: usize) -> ImageDelta {
    ImageDelta {
        image: ImageData::Color(ColorImage { size: [width, height], pixels: vec![[1, 2, 3, 4]; texels] }),
        pos: None,
    }
}

fn no_delta() -> TexturesDelta {
    TexturesDelta { set: Vec::new(), free: Vec::new() }
}

fn vertex_buffer(size: usize) -> SizedBuffer {
    SizedBuffer { size, usage: BufferUsages { vertex: true, index: false, copy_dst: true } }
}

fn index_buffer(size: usize) -> SizedBuffer {
    SizedBuffer { size, usage: BufferUsages { vertex: false, index: true, copy_dst: true } }
}

fn plan<'a>(
    painter: &mut Painter,
    meshes: &'a Vec<ClippedMesh>,
    delta: &'a TexturesDelta,
) -> Frame<'a> {
    match painter.paint_and_update_textures(target(800, 600), meshes, delta) {
        Ok(frame) => frame,
        Err(e) => panic!("frame refused: {:?}", e),
    }
}

#[test]
fn new_painter_has_nothing_on_the_device() {
    let painter = Painter::new();
    assert_eq!(painter.texture(FONT), None);
    assert!(painter.vertex_buffers().is_empty());
    assert!(painter.index_buffers().is_empty());
}

#[test]
fn set_texture_registers_a_color_image() {
    let mut painter = Painter::new();
    let delta = color_delta(2, 3, 6);
    let upload = painter.set_texture(TextureId::User(9), &delta).unwrap();
    assert_eq!(upload.id, TextureId::User(9));
    assert_eq!(
        upload.info,
        TextureInfo { format: TexelFormat::Rgba8UnormSrgb, width: 2, height: 3 }
    );
    assert_eq!(upload.texels.len(), 24);
    assert_eq!(&upload.texels[..8], &[1u8, 2, 3, 4, 1, 2, 3, 4][..]);
    assert_eq!(upload.components, 4u32.to_ne_bytes().to_vec());
    assert_eq!(
        painter.texture(TextureId::User(9)),
        Some(TextureInfo { format: TexelFormat::Rgba8UnormSrgb, width: 2, height: 3 })
    );
}

#[test]
fn set_texture_registers_an_alpha_image() {
    let mut painter = Painter::new();
    let delta = alpha_delta(4, 2);
    let upload = painter.set_texture(FONT, &delta).unwrap();
    assert_eq!(upload.info, TextureInfo { format: TexelFormat::R8Unorm, width: 4, height: 2 });
    assert_eq!(upload.texels, &[0u8; 8][..]);
    assert_eq!(upload.components, 1u32.to_ne_bytes().to_vec());
    assert_eq!(
        painter.texture(FONT),
        Some(TextureInfo { format: TexelFormat::R8Unorm, width: 4, height: 2 })
    );
}

#[test]
fn set_texture_rejects_a_texel_count_mismatch_and_changes_nothing() {
    let mut painter = Painter::new();
    painter.set_texture(FONT, &alpha_delta(4, 2)).unwrap();
    let bad = color_delta(2, 3, 5);
    let r = painter.set_texture(FONT, &bad);
    assert_eq!(r.err(), Some(PaintError::TexelCountMismatch { width: 2, height: 3, texels: 5 }));
    assert_eq!(
        painter.texture(FONT),
        Some(TextureInfo { format: TexelFormat::R8Unorm, width: 4, height: 2 })
    );
    let r = painter.set_texture(TextureId::User(1), &bad);
    assert!(r.is_err());
    assert_eq!(painter.texture(TextureId::User(1)), None);
}

#[test]
fn set_texture_replaces_the_whole_texture_even_with_a_position() {
    let mut painter = Painter::new();
    painter.set_texture(FONT, &alpha_delta(64, 64)).unwrap();
    let mut patch = alpha_delta(8, 4);
    patch.pos = Some([16, 16]);
    let upload = painter.set_texture(FONT, &patch).unwrap();
    assert_eq!(upload.info, TextureInfo { format: TexelFormat::R8Unorm, width: 8, height: 4 });
    assert_eq!(
        painter.texture(FONT),
        Some(TextureInfo { format: TexelFormat::R8Unorm, width: 8, height: 4 })
    );
}

#[test]
fn free_texture_twice_is_a_no_op_the_second_time() {
    let mut painter = Painter::new();
    painter.set_texture(FONT, &alpha_delta(4, 2)).unwrap();
    painter.set_texture(TextureId::User(2), &alpha_delta(1, 1)).unwrap();
    painter.free_texture(FONT);
    assert_eq!(painter.texture(FONT), None);
    painter.free_texture(FONT);
    assert_eq!(painter.texture(FONT), None);
    assert_eq!(
        painter.texture(TextureId::User(2)),
        Some(TextureInfo { format: TexelFormat::R8Unorm, width: 1, height: 1 })
    );
}

#[test]
fn one_mesh_with_full_clip_and_texture_gives_one_draw_with_full_scissor() {
    let mut painter = Painter::new();
    painter.set_texture(FONT, &alpha_delta(4, 4)).unwrap();
    let meshes = vec![mesh(full_clip(), 4, 6, FONT)];
    let delta = no_delta();
    let frame = plan(&mut painter, &meshes, &delta);
    assert_eq!(
        frame.pass.draws,
        vec![DrawCall {
            slot: 0,
            scissor: ScissorRect { x: 0, y: 0, width: 800, height: 600 },
            texture_id: FONT,
            index_count: 6,
        }]
    );
    assert!(frame.uploads.is_empty());
    assert!(frame.frees.is_empty());
    assert_eq!(frame.pass.screen_size, [800, 600]);
}

#[test]
fn mesh_clipped_outside_the_target_is_not_drawn() {
    let mut painter = Painter::new();
    painter.set_texture(FONT, &alpha_delta(4, 4)).unwrap();
    let outside = ClipRect { min_x: 1000, min_y: 1000, max_x: 1100, max_y: 1100 };
    let meshes = vec![mesh(outside, 4, 6, FONT)];
    let delta = no_delta();
    let frame = plan(&mut painter, &meshes, &delta);
    assert!(frame.pass.draws.is_empty());
    // its buffers are written all the same
    assert_eq!(frame.pass.vertex_writes.len(), 1);
    assert_eq!(frame.pass.index_writes.len(), 1);
    assert_eq!(painter.vertex_buffers().len(), 1);
}

#[test]
fn mesh_with_a_texture_that_was_never_uploaded_is_skipped_and_the_free_is_harmless() {
    let mut painter = Painter::new();
    let gone = TextureId::User(4);
    let meshes = vec![mesh(full_clip(), 4, 6, gone)];
    let delta = TexturesDelta { set: Vec::new(), free: vec![gone] };
    let frame = plan(&mut painter, &meshes, &delta);
    assert!(frame.pass.draws.is_empty());
    assert_eq!(frame.frees, vec![gone]);
    assert_eq!(painter.texture(gone), None);
}

#[test]
fn texture_freed_by_the_frame_is_still_drawn_in_it_and_gone_afterwards() {
    let mut painter = Painter::new();
    let id = TextureId::User(4);
    painter.set_texture(id, &alpha_delta(2, 2)).unwrap();
    let meshes = vec![mesh(full_clip(), 4, 6, id)];
    let delta = TexturesDelta { set: Vec::new(), free: vec![id] };
    let frame = plan(&mut painter, &meshes, &delta);
    assert_eq!(frame.pass.draws.len(), 1);
    assert_eq!(frame.pass.draws[0].texture_id, id);
    assert_eq!(frame.frees, vec![id]);
    assert_eq!(painter.texture(id), None);

    let nothing = no_delta();
    let frame = plan(&mut painter, &meshes, &nothing);
    assert!(frame.pass.draws.is_empty());
}

#[test]
fn growing_mesh_reallocates_and_shrinking_mesh_reuses() {
    let mut painter = Painter::new();
    painter.set_texture(FONT, &alpha_delta(4, 4)).unwrap();
    let delta = no_delta();

    let first = vec![mesh(full_clip(), 4, 6, FONT)];
    let frame = plan(&mut painter, &first, &delta);
    assert_eq!(frame.pass.vertex_writes[0].action, BufferAction::Append);
    assert_eq!(frame.pass.index_writes[0].action, BufferAction::Append);
    assert_eq!(painter.vertex_buffers(), &vec![vertex_buffer(80)]);
    assert_eq!(painter.index_buffers(), &vec![index_buffer(24)]);

    let larger = vec![mesh(full_clip(), 8, 12, FONT)];
    let frame = plan(&mut painter, &larger, &delta);
    assert_eq!(frame.pass.vertex_writes[0].action, BufferAction::Replace);
    assert_eq!(frame.pass.vertex_writes[0].buffer, vertex_buffer(160));
    assert_eq!(frame.pass.index_writes[0].action, BufferAction::Replace);
    assert_eq!(painter.vertex_buffers(), &vec![vertex_buffer(160)]);
    assert_eq!(painter.index_buffers(), &vec![index_buffer(48)]);

    let smaller = vec![mesh(full_clip(), 6, 9, FONT)];
    let frame = plan(&mut painter, &smaller, &delta);
    assert_eq!(frame.pass.vertex_writes[0].action, BufferAction::Overwrite);
    assert_eq!(frame.pass.vertex_writes[0].buffer, vertex_buffer(160));
    assert_eq!(frame.pass.vertex_writes[0].data.len(), 120);
    assert_eq!(frame.pass.index_writes[0].action, BufferAction::Overwrite);
    assert_eq!(painter.vertex_buffers(), &vec![vertex_buffer(160)]);
    assert_eq!(painter.index_buffers(), &vec![index_buffer(48)]);

    let same = vec![mesh(full_clip(), 8, 12, FONT)];
    let frame = plan(&mut painter, &same, &delta);
    assert_eq!(frame.pass.vertex_writes[0].action, BufferAction::Overwrite);
    assert_eq!(frame.pass.index_writes[0].action, BufferAction::Overwrite);
}

#[test]
fn texture_uploaded_in_the_frame_is_used_by_its_meshes() {
    let mut painter = Painter::new();
    painter.set_texture(FONT, &alpha_delta(4, 4)).unwrap();
    let fresh = TextureId::User(1);
    let delta = TexturesDelta {
        set: vec![(FONT, color_delta(2, 2, 4)), (fresh, alpha_delta(8, 8))],
        free: Vec::new(),
    };
    let meshes = vec![mesh(full_clip(), 4, 6, fresh), mesh(full_clip(), 4, 3, FONT)];
    let frame = plan(&mut painter, &meshes, &delta);
    assert_eq!(frame.uploads.len(), 2);
    assert_eq!(frame.uploads[0].id, FONT);
    assert_eq!(frame.uploads[0].info.format, TexelFormat::Rgba8UnormSrgb);
    assert_eq!(frame.uploads[0].texels.len(), 16);
    assert_eq!(frame.uploads[1].id, fresh);
    assert_eq!(frame.uploads[1].info, TextureInfo { format: TexelFormat::R8Unorm, width: 8, height: 8 });
    assert_eq!(frame.pass.draws.len(), 2);
    assert_eq!(frame.pass.draws[0].texture_id, fresh);
    assert_eq!(frame.pass.draws[0].slot, 0);
    assert_eq!(frame.pass.draws[1].texture_id, FONT);
    assert_eq!(frame.pass.draws[1].slot, 1);
    assert_eq!(frame.pass.draws[1].index_count, 3);
    assert_eq!(
        painter.texture(FONT),
        Some(TextureInfo { format: TexelFormat::Rgba8UnormSrgb, width: 2, height: 2 })
    );
}

#[test]
fn later_upload_of_the_same_texture_wins() {
    let mut painter = Painter::new();
    let delta = TexturesDelta {
        set: vec![(FONT, alpha_delta(2, 2)), (FONT, alpha_delta(5, 6))],
        free: Vec::new(),
    };
    let meshes: Vec<ClippedMesh> = Vec::new();
    let frame = plan(&mut painter, &meshes, &delta);
    assert_eq!(frame.uploads.len(), 2);
    assert_eq!(
        painter.texture(FONT),
        Some(TextureInfo { format: TexelFormat::R8Unorm, width: 5, height: 6 })
    );
}

#[test]
fn texture_uploaded_and_freed_in_one_frame_is_drawn_and_then_gone() {
    let mut painter = Painter::new();
    let delta = TexturesDelta { set: vec![(FONT, alpha_delta(2, 2))], free: vec![FONT] };
    let meshes = vec![mesh(full_clip(), 4, 6, FONT)];
    let frame = plan(&mut painter, &meshes, &delta);
    assert_eq!(frame.pass.draws.len(), 1);
    assert_eq!(painter.texture(FONT), None);
}

#[test]
fn frame_with_an_invalid_image_is_refused_and_changes_nothing() {
    let mut painter = Painter::new();
    painter.set_texture(FONT, &alpha_delta(4, 4)).unwrap();
    let first = vec![mesh(full_clip(), 4, 6, FONT)];
    let ok = no_delta();
    plan(&mut painter, &first, &ok);

    let delta = TexturesDelta {
        set: vec![
            (TextureId::User(1), alpha_delta(2, 2)),
            (TextureId::User(2), color_delta(3, 3, 8)),
            (TextureId::User(3), color_delta(4, 4, 1)),
        ],
        free: vec![FONT],
    };
    let meshes = vec![mesh(full_clip(), 100, 600, FONT), mesh(full_clip(), 1, 3, FONT)];
    let r = painter.paint_and_update_textures(target(800, 600), &meshes, &delta);
    assert_eq!(
        r.err(),
        Some(PaintError::TexelCountMismatch { width: 3, height: 3, texels: 8 })
    );
    assert_eq!(painter.texture(TextureId::User(1)), None);
    assert_eq!(
        painter.texture(FONT),
        Some(TextureInfo { format: TexelFormat::R8Unorm, width: 4, height: 4 })
    );
    assert_eq!(painter.vertex_buffers(), &vec![vertex_buffer(80)]);
    assert_eq!(painter.index_buffers(), &vec![index_buffer(24)]);
}

#[test]
fn draws_keep_the_order_of_the_meshes_and_skip_in_between() {
    let mut painter = Painter::new();
    painter.set_texture(FONT, &alpha_delta(4, 4)).unwrap();
    let outside = ClipRect { min_x: 800, min_y: 0, max_x: 900, max_y: 10 };
    let part = ClipRect { min_x: 790, min_y: 590, max_x: 900, max_y: 900 };
    let meshes = vec![
        mesh(full_clip(), 4, 6, FONT),
        mesh(outside, 4, 6, FONT),
        mesh(full_clip(), 4, 6, TextureId::User(77)),
        mesh(part, 3, 3, FONT),
    ];
    let delta = no_delta();
    let frame = plan(&mut painter, &meshes, &delta);
    assert_eq!(
        frame.pass.draws,
        vec![
            DrawCall {
                slot: 0,
                scissor: ScissorRect { x: 0, y: 0, width: 800, height: 600 },
                texture_id: FONT,
                index_count: 6,
            },
            DrawCall {
                slot: 3,
                scissor: ScissorRect { x: 790, y: 590, width: 10, height: 10 },
                texture_id: FONT,
                index_count: 3,
            },
        ]
    );
    assert_eq!(frame.pass.vertex_writes.len(), 4);
    assert_eq!(frame.pass.index_writes.len(), 4);
    for slot in 0..4 {
        assert_eq!(frame.pass.vertex_writes[slot].slot, slot);
        assert_eq!(frame.pass.index_writes[slot].slot, slot);
        assert_eq!(frame.pass.vertex_writes[slot].action, BufferAction::Append);
    }
    assert_eq!(
        painter.vertex_buffers(),
        &vec![vertex_buffer(80), vertex_buffer(80), vertex_buffer(80), vertex_buffer(60)]
    );
}

#[test]
fn buffer_writes_carry_the_mesh_data() {
    let mut painter = Painter::new();
    let meshes = vec![ClippedMesh(
        full_clip(),
        Mesh {
            indices: vec![0, 1, 2, 0x0102_0304, u32::MAX],
            vertices: vec![9, 8, 7, 6, 5],
            texture_id: FONT,
        },
    )];
    let pass = painter.paint_meshes(target(800, 600), &meshes);
    assert_eq!(pass.vertex_writes[0].data, &[9u8, 8, 7, 6, 5][..]);
    let mut expected: Vec<u8> = Vec::new();
    for index in [0u32, 1, 2, 0x0102_0304, u32::MAX] {
        expected.extend_from_slice(&index.to_ne_bytes());
    }
    assert_eq!(pass.index_writes[0].data, &expected[..]);
    assert_eq!(pass.index_writes[0].buffer, index_buffer(20));
    assert_eq!(pass.vertex_writes[0].buffer, vertex_buffer(5));
    assert!(pass.draws.is_empty());
}

#[test]
fn pool_never_shrinks_when_a_frame_has_fewer_meshes() {
    let mut painter = Painter::new();
    let three = vec![
        mesh(full_clip(), 1, 3, FONT),
        mesh(full_clip(), 2, 3, FONT),
        mesh(full_clip(), 3, 3, FONT),
    ];
    painter.paint_meshes(target(800, 600), &three);
    let one = vec![mesh(full_clip(), 2, 6, FONT)];
    let pass = painter.paint_meshes(target(800, 600), &one);
    assert_eq!(pass.vertex_writes.len(), 1);
    assert_eq!(pass.vertex_writes[0].action, BufferAction::Replace);
    assert_eq!(pass.index_writes[0].action, BufferAction::Replace);
    assert_eq!(
        painter.vertex_buffers(),
        &vec![vertex_buffer(40), vertex_buffer(40), vertex_buffer(60)]
    );
    assert_eq!(
        painter.index_buffers(),
        &vec![index_buffer(24), index_buffer(12), index_buffer(12)]
    );
    let none: Vec<ClippedMesh> = Vec::new();
    let pass = painter.paint_meshes(target(800, 600), &none);
    assert!(pass.vertex_writes.is_empty());
    assert_eq!(painter.vertex_buffers().len(), 3);
}

#[test]
fn clear_colour_decides_how_the_pass_begins() {
    let mut painter = Painter::new();
    let meshes: Vec<ClippedMesh> = Vec::new();
    let colour = wgpu::Color { r: 0.0, g: 0.25, b: 0.5, a: 1.0 };
    let clear = RenderTarget { clear_color: Some(colour), width: 640, height: 480 };
    let pass = painter.paint_meshes(clear, &meshes);
    assert!(matches!(pass.load, LoadOp::Clear(c) if c == colour));
    assert_eq!(pass.screen_size, [640, 480]);
    let keep = RenderTarget { clear_color: None, width: 1, height: 2 };
    let pass = painter.paint_meshes(keep, &meshes);
    assert!(matches!(pass.load, LoadOp::Load));
    assert_eq!(pass.screen_size, [1, 2]);
}

#[test]
fn frame_on_a_target_without_pixels_draws_nothing() {
    let mut painter = Painter::new();
    painter.set_texture(FONT, &alpha_delta(4, 4)).unwrap();
    let meshes = vec![mesh(full_clip(), 4, 6, FONT)];
    let delta = no_delta();
    let frame = painter.paint_and_update_textures(target(0, 0), &meshes, &delta).unwrap();
    assert!(frame.pass.draws.is_empty());
    assert_eq!(frame.pass.vertex_writes.len(), 1);
}
