use image::ImageEncoder;
use imdrip::command::{GlCommand, PrimitiveMode, TextureTarget};
use imdrip::draw::DrawingCtx;
use imdrip::gl_model::GlModel;
use imdrip::imdrip::ImdripCtx;
use imdrip::material::Material;
use imdrip::raw_image::{decode_image, flip_vertical, RawImage};
use imdrip::textured::TextureKind;
use imdrip::vec2::Vec2i;

fn encode_png(width: u32, height: u32, pixels: &[u8]) -> Vec<u8> {
    let mut png: Vec<u8> = Vec::new();
    let encoder = image::codecs::png::PngEncoder::new(&mut png);
    encoder
        .write_image(pixels, width, height, image::ExtendedColorType::Rgba8)
        .expect("encoding a PNG in memory must succeed");
    png
}

fn solid_rgba(width: u32, height: u32, rgba: [u8; 4]) -> Vec<u8> {
    let mut pixels = Vec::new();
    for _ in 0..(width as usize * height as usize) {
        pixels.extend_from_slice(&rgba);
    }
    pixels
}

fn ctx_texture_handle(ctx: &ImdripCtx) -> Option<u64> {
    match &ctx.material {
        Material::Textured(t) => t.textures.first().map(|kind| {
            let TextureKind::TwoDimensional { texture } = kind;
            texture.handle()
        }),
        _ => None,
    }
}

fn uploads(gl: &GlModel) -> Vec<(u32, u32, Vec<u8>)> {
    let mut found = Vec::new();
    for cmd in gl.log.iter() {
        if let GlCommand::TexImage2D { width, height, pixels, .. } = cmd {
            found.push((*width, *height, pixels.clone()));
        }
    }
    found
}

#[test]
fn flip_vertical_reverses_rows() {
    let image = RawImage {
        width: 1,
        height: 2,
        pixels: vec![1, 2, 3, 4, 5, 6, 7, 8],
    };
    let flipped = flip_vertical(&image);
    assert_eq!(flipped.width, 1);
    assert_eq!(flipped.height, 2);
    assert_eq!(flipped.pixels, vec![5, 6, 7, 8, 1, 2, 3, 4]);
}

#[test]
fn flip_vertical_of_empty_image_is_empty() {
    let image = RawImage { width: 0, height: 7, pixels: Vec::new() };
    let flipped = flip_vertical(&image);
    assert_eq!(flipped.width, 0);
    assert_eq!(flipped.height, 7);
    assert!(flipped.pixels.is_empty());
}

#[test]
fn decode_image_decodes_rather_than_copies() {
    let source = solid_rgba(4, 2, [10, 20, 30, 255]);
    let png = encode_png(4, 2, &source);
    let image = decode_image(&png).expect("a valid PNG must decode");
    assert_eq!(image.width, 4);
    assert_eq!(image.height, 2);
    assert_eq!(image.pixels.len(), 4 * 4 * 2);
    assert_eq!(image.pixels, source);
    assert_ne!(image.pixels, png);
}

#[test]
fn decode_image_rejects_garbage() {
    assert!(decode_image(&[0, 1, 2, 3, 4, 5, 6, 7]).is_err());
    assert!(decode_image(&[]).is_err());
}

#[test]
fn first_load_allocates_then_reuses_texture() {
    // Loading image A then image B reuses the same native texture handle
    // and updates only the contents and the recorded size.
    let mut gl = GlModel::new();
    let mut ctx = ImdripCtx::new(&mut gl, Vec2i::new(512, 512));
    assert_eq!(ctx_texture_handle(&ctx), None);

    let image_a = RawImage { width: 2, height: 1, pixels: vec![1, 1, 1, 1, 2, 2, 2, 2] };
    ctx.update_texture_from_image(&mut gl, image_a);
    let handle_a = ctx_texture_handle(&ctx).expect("the first load allocates the texture");
    assert_eq!(ctx.image_size(), Vec2i::new(2, 1));
    let live_after_first = gl.live.clone();

    let image_b = RawImage { width: 1, height: 1, pixels: vec![9, 9, 9, 9] };
    ctx.update_texture_from_image(&mut gl, image_b);
    let handle_b = ctx_texture_handle(&ctx).expect("the texture stays");
    assert_eq!(handle_a, handle_b);
    assert_eq!(ctx.image_size(), Vec2i::new(1, 1));
    // No allocation happened on the second load.
    assert_eq!(gl.live, live_after_first);
    // Only the contents were re-uploaded.
    let all = uploads(&gl);
    assert_eq!(all.len(), 2);
    assert_eq!(all[1], (1, 1, vec![9, 9, 9, 9]));
}

#[test]
fn failed_load_leaves_previous_image_untouched() {
    // A bad byte buffer after a good load leaves the displayed texture,
    // the tracked size, and even the command log unchanged.
    let mut gl = GlModel::new();
    let mut ctx = ImdripCtx::new(&mut gl, Vec2i::new(512, 512));
    let png = encode_png(3, 3, &solid_rgba(3, 3, [0, 255, 0, 255]));
    ctx.update_texture_from_bytes(&mut gl, &png).expect("a valid PNG must load");
    let handle = ctx_texture_handle(&ctx).unwrap();
    let size = ctx.image_size();
    let log_len = gl.log.len();
    let live = gl.live.clone();

    let result = ctx.update_texture_from_bytes(&mut gl, b"not an image at all");
    assert!(result.is_err());
    assert_eq!(ctx_texture_handle(&ctx), Some(handle));
    assert_eq!(ctx.image_size(), size);
    assert_eq!(gl.log.len(), log_len);
    assert_eq!(gl.live, live);
}

#[test]
fn red_png_round_trip_uploads_flipped_rows() {
    // End to end: a 64 by 64 opaque red PNG loads, the tracked size is
    // exactly (64, 64), and the uploaded buffer is the vertically
    // flipped source buffer.
    let source = solid_rgba(64, 64, [255, 0, 0, 255]);
    let png = encode_png(64, 64, &source);
    let mut gl = GlModel::new();
    let mut ctx = ImdripCtx::new(&mut gl, Vec2i::new(512, 512));
    ctx.update_texture_from_bytes(&mut gl, &png).expect("the PNG must load");
    assert_eq!(ctx.image_size(), Vec2i::new(64, 64));
    let all = uploads(&gl);
    assert_eq!(all.len(), 1);
    let (w, h, pixels) = &all[0];
    assert_eq!((*w, *h), (64, 64));
    let decoded = RawImage { width: 64, height: 64, pixels: source };
    assert_eq!(*pixels, flip_vertical(&decoded).pixels);
}

#[test]
fn flipped_rows_reach_the_driver_in_reverse_order() {
    // A two-row PNG with distinct rows: the upload holds the bottom row
    // first.
    let mut source = Vec::new();
    source.extend_from_slice(&[1, 2, 3, 255, 4, 5, 6, 255]); // top row
    source.extend_from_slice(&[7, 8, 9, 255, 10, 11, 12, 255]); // bottom row
    let png = encode_png(2, 2, &source);
    let mut gl = GlModel::new();
    let mut ctx = ImdripCtx::new(&mut gl, Vec2i::new(64, 64));
    ctx.update_texture_from_bytes(&mut gl, &png).expect("the PNG must load");
    let all = uploads(&gl);
    let mut expected = Vec::new();
    expected.extend_from_slice(&[7, 8, 9, 255, 10, 11, 12, 255]);
    expected.extend_from_slice(&[1, 2, 3, 255, 4, 5, 6, 255]);
    assert_eq!(all[0].2, expected);
}

#[test]
fn toggle_resize_on_load_is_involutive() {
    let mut gl = GlModel::new();
    let mut ctx = ImdripCtx::new(&mut gl, Vec2i::new(100, 100));
    assert!(ctx.resize_on_load());
    ctx.toggle_resize_on_load();
    assert!(!ctx.resize_on_load());
    ctx.toggle_resize_on_load();
    assert!(ctx.resize_on_load());
    ctx.set_resize_on_load(false);
    assert!(!ctx.resize_on_load());
}

#[test]
fn resize_to_fit_is_a_no_op_for_zero_dimensions() {
    let mut gl = GlModel::new();
    let mut ctx = ImdripCtx::new(&mut gl, Vec2i::new(100, 100));
    // No image yet: the tracked size is zero by zero, nothing to do.
    assert_eq!(ctx.resize_target(), None);
    let png = encode_png(5, 4, &solid_rgba(5, 4, [1, 2, 3, 255]));
    ctx.update_texture_from_bytes(&mut gl, &png).unwrap();
    assert_eq!(ctx.resize_target(), Some(Vec2i::new(5, 4)));
}

#[test]
fn resize_after_load_needs_both_success_and_flag() {
    let mut gl = GlModel::new();
    let mut ctx = ImdripCtx::new(&mut gl, Vec2i::new(100, 100));
    let png = encode_png(6, 2, &solid_rgba(6, 2, [9, 9, 9, 255]));
    ctx.update_texture_from_bytes(&mut gl, &png).unwrap();
    assert_eq!(ctx.resize_after_load(true), Some(Vec2i::new(6, 2)));
    assert_eq!(ctx.resize_after_load(false), None);
    ctx.set_resize_on_load(false);
    assert_eq!(ctx.resize_after_load(true), None);
}

#[test]
fn window_resize_updates_tracked_size_only() {
    let mut gl = GlModel::new();
    let mut ctx = ImdripCtx::new(&mut gl, Vec2i::new(100, 100));
    let log_len = gl.log.len();
    ctx.on_window_resize(Vec2i::new(640, 480));
    assert_eq!(ctx.current_window_size, Vec2i::new(640, 480));
    assert_eq!(gl.log.len(), log_len);
}

#[test]
fn draw_binds_draws_and_unbinds() {
    let mut gl = GlModel::new();
    let mut ctx = ImdripCtx::new(&mut gl, Vec2i::new(300, 200));
    let png = encode_png(2, 2, &solid_rgba(2, 2, [0, 0, 255, 255]));
    ctx.update_texture_from_bytes(&mut gl, &png).unwrap();
    let program = match &ctx.material {
        Material::Textured(t) => t.shader_program().handle,
        _ => unreachable!(),
    };
    let texture = ctx_texture_handle(&ctx).unwrap();
    let vao = ctx.mesh.vao.handle;
    let ebo = match &ctx.mesh.draw_mode {
        imdrip::mesh::DrawMode::Elements { ebo, .. } => ebo.handle,
        _ => unreachable!(),
    };
    let before = gl.log.len();
    ctx.draw(&mut gl);
    let tail = &gl.log[before..];
    assert_eq!(
        tail,
        &[
            GlCommand::ActiveTexture { unit: 0 },
            GlCommand::UseProgram { handle: program },
            GlCommand::ActiveTexture { unit: 0 },
            GlCommand::BindTexture {
                tex_target: TextureTarget::TwoDimensional,
                handle: texture,
            },
            GlCommand::BindVertexArray { handle: vao },
            GlCommand::Uniform2i {
                program,
                name: String::from("window_size"),
                x: 300,
                y: 200,
            },
            GlCommand::BindBuffer {
                target: imdrip::command::BufferTarget::ElementArray,
                handle: ebo,
            },
            GlCommand::DrawElements { mode: PrimitiveMode::Triangles, count: 6 },
            GlCommand::BindBuffer {
                target: imdrip::command::BufferTarget::ElementArray,
                handle: 0,
            },
            GlCommand::BindVertexArray { handle: 0 },
            GlCommand::ActiveTexture { unit: 0 },
            GlCommand::BindTexture { tex_target: TextureTarget::TwoDimensional, handle: 0 },
            GlCommand::UseProgram { handle: 0 },
        ]
    );
}

#[test]
fn context_destroy_releases_every_object() {
    let mut gl = GlModel::new();
    let mut ctx = ImdripCtx::new(&mut gl, Vec2i::new(100, 100));
    let png = encode_png(2, 2, &solid_rgba(2, 2, [1, 1, 1, 255]));
    ctx.update_texture_from_bytes(&mut gl, &png).unwrap();
    assert!(gl.live.len() > 0);
    ctx.destroy(&mut gl);
    assert_eq!(gl.live.len(), 0);
}

#[test]
fn drawing_ctx_mirrors_the_viewer_behaviour() {
    let mut gl = GlModel::new();
    let mut ctx = DrawingCtx::new(&mut gl, Vec2i::new(256, 256));
    let png_a = encode_png(2, 1, &solid_rgba(2, 1, [1, 2, 3, 255]));
    ctx.update_texture(&mut gl, &png_a).expect("a valid PNG must load");
    assert_eq!(ctx.current_texture_size, Vec2i::new(2, 1));
    let handle_a = match &ctx.material {
        Material::Textured(t) => {
            let TextureKind::TwoDimensional { texture } = &t.textures[0];
            texture.handle()
        }
        _ => unreachable!(),
    };
    let png_b = encode_png(1, 1, &solid_rgba(1, 1, [4, 4, 4, 255]));
    ctx.update_texture(&mut gl, &png_b).expect("a valid PNG must load");
    let handle_b = match &ctx.material {
        Material::Textured(t) => {
            let TextureKind::TwoDimensional { texture } = &t.textures[0];
            texture.handle()
        }
        _ => unreachable!(),
    };
    assert_eq!(handle_a, handle_b);
    assert_eq!(ctx.current_texture_size, Vec2i::new(1, 1));
    assert!(ctx.update_texture(&mut gl, b"garbage").is_err());
    assert_eq!(ctx.current_texture_size, Vec2i::new(1, 1));
    ctx.destroy(&mut gl);
    assert_eq!(gl.live.len(), 0);
}
