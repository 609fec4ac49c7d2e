use vstd::prelude::*;

use crate::command::{Cmd, FilterMode, TextureTarget, WrapMode};
use crate::gl_model::{allocated_one, GlModel};
use crate::raw_image::{decode_image, decoded_rgba, flip_vertical, flipped, RawImage};
use crate::texture_2d;
use crate::texture_2d::Texture2D;
use crate::vec2::Vec2i;

verus! {

broadcast use vstd::set::group_set_axioms;

/// The calls that create a texture and fill it: allocate, bind, repeat
/// wrapping, nearest filtering (the display is meant to be pixel exact),
/// upload, unbind.
pub open spec fn create_from_image_trace(
    h: u64,
    width: u32,
    height: u32,
    pixels: Seq<u8>,
) -> Seq<Cmd> {
    seq![
        Cmd::GenTexture { handle: h },
        Cmd::BindTexture { tex_target: TextureTarget::TwoDimensional, handle: h },
        Cmd::SetWrapS { tex_target: TextureTarget::TwoDimensional, wrap: WrapMode::Repeat },
        Cmd::SetWrapT { tex_target: TextureTarget::TwoDimensional, wrap: WrapMode::Repeat },
        Cmd::SetFilterMin {
            tex_target: TextureTarget::TwoDimensional,
            filter: FilterMode::Nearest,
        },
        Cmd::SetFilterMag {
            tex_target: TextureTarget::TwoDimensional,
            filter: FilterMode::Nearest,
        },
        Cmd::TexImage2D { tex_target: TextureTarget::TwoDimensional, width, height, pixels },
        Cmd::BindTexture { tex_target: TextureTarget::TwoDimensional, handle: 0 },
    ]
}

/// The calls that re-upload an image into an existing texture: bind,
/// upload, unbind. The texture object itself is reused.
pub open spec fn load_into_texture_trace(
    h: u64,
    width: u32,
    height: u32,
    pixels: Seq<u8>,
) -> Seq<Cmd> {
    seq![
        Cmd::BindTexture { tex_target: TextureTarget::TwoDimensional, handle: h },
        Cmd::TexImage2D { tex_target: TextureTarget::TwoDimensional, width, height, pixels },
        Cmd::BindTexture { tex_target: TextureTarget::TwoDimensional, handle: 0 },
    ]
}

/// Creates a fresh texture holding `image`, and reports the image size.
pub fn create_from_image(gl: &mut GlModel, image: RawImage) -> (r: (Texture2D, Vec2i))
    requires
        old(gl).inv(),
        old(gl).can_alloc(1),
        image.wf(),
        image.width <= i32::MAX,
        image.height <= i32::MAX,
    ensures
        r.0.wf(),
        final(gl).inv(),
        allocated_one(*old(gl), *final(gl), r.0.handle_spec()),
        r.1.x == image.width,
        r.1.y == image.height,
        final(gl).commands() == old(gl).commands() + create_from_image_trace(
            r.0.handle_spec(),
            image.width,
            image.height,
            image.pixels@,
        ),
{
    let mut texture = Texture2D::new(gl);
    texture.bind(gl);
    texture.set_wrap_mode(gl, WrapMode::Repeat, WrapMode::Repeat);
    texture.set_filter_ops(gl, FilterMode::Nearest, FilterMode::Nearest);
    let width = image.width;
    let height = image.height;
    let size = Vec2i::new(width as i32, height as i32);
    texture.set_image_data(gl, image);
    texture_2d::unbind(gl);
    proof {
        assert(final(gl).commands() =~= old(gl).commands() + create_from_image_trace(
            texture.handle_spec(),
            width,
            height,
            image.pixels@,
        ));
    }
    (texture, size)
}

/// Re-uploads `image` into `texture` in place, preserving the texture
/// object and its handle, and reports the image size.
pub fn load_from_image_into_texture(
    gl: &mut GlModel,
    image: RawImage,
    texture: &Texture2D,
) -> (size: Vec2i)
    requires
        old(gl).inv(),
        texture.wf(),
        image.wf(),
        image.width <= i32::MAX,
        image.height <= i32::MAX,
    ensures
        final(gl).inv(),
        final(gl).same_objects(old(gl)),
        size.x == image.width,
        size.y == image.height,
        final(gl).commands() == old(gl).commands() + load_into_texture_trace(
            texture.handle_spec(),
            image.width,
            image.height,
            image.pixels@,
        ),
{
    let width = image.width;
    let height = image.height;
    texture.bind(gl);
    texture.set_image_data(gl, image);
    texture_2d::unbind(gl);
    proof {
        assert(final(gl).commands() =~= old(gl).commands() + load_into_texture_trace(
            texture.handle_spec(),
            width,
            height,
            image.pixels@,
        ));
    }
    Vec2i::new(width as i32, height as i32)
}

/// Whether a decoded value can be displayed: both dimensions fit the
/// signed sizes that windows use.
pub open spec fn displayable(d: (u32, u32, Seq<u8>)) -> bool {
    d.0 <= i32::MAX && d.1 <= i32::MAX
}

/// The flipped pixel buffer of a decoded value: exactly four bytes per
/// pixel of the decoded buffer, rows in reverse order.
pub open spec fn uploaded_pixels(d: (u32, u32, Seq<u8>)) -> Seq<u8> {
    flipped(d.2.take(4 * d.0 * d.1), d.0 as nat, d.1 as nat)
}

/// Decodes `bytes`, flips the image, and loads it into a fresh texture.
/// Succeeds exactly when the bytes decode to a displayable image; on
/// failure nothing is emitted and no object is allocated.
pub fn create_and_load_texture_from_bytes(gl: &mut GlModel, bytes: &[u8]) -> (r: Result<
    (Texture2D, Vec2i),
    String,
>)
    requires
        old(gl).inv(),
        old(gl).can_alloc(1),
    ensures
        final(gl).inv(),
        r is Ok <==> (decoded_rgba(bytes@) matches Some(d) && displayable(d)),
        r matches Err(_) ==> *final(gl) == *old(gl),
        r matches Ok(t) ==> {
            &&& decoded_rgba(bytes@) matches Some(d)
            &&& t.0.wf()
            &&& allocated_one(*old(gl), *final(gl), t.0.handle_spec())
            &&& t.1.x == d.0 && t.1.y == d.1
            &&& final(gl).commands() == old(gl).commands() + create_from_image_trace(
                t.0.handle_spec(),
                d.0,
                d.1,
                uploaded_pixels(d),
            )
        },
{
    let image = match decode_image(bytes) {
        Ok(image) => image,
        Err(e) => {
            return Err(e);
        },
    };
    if image.width > i32::MAX as u32 || image.height > i32::MAX as u32 {
        return Err("image too large to display".to_owned());
    }
    let flipped_image = flip_vertical(&image);
    Ok(create_from_image(gl, flipped_image))
}

/// Decodes `bytes`, flips the image, and re-uploads it into `texture` in
/// place. Succeeds exactly when the bytes decode to a displayable image;
/// on failure nothing is emitted and the texture contents stay as they
/// were.
pub fn load_into_texture_from_bytes(
    gl: &mut GlModel,
    bytes: &[u8],
    texture: &Texture2D,
) -> (r: Result<Vec2i, String>)
    requires
        old(gl).inv(),
        texture.wf(),
    ensures
        final(gl).inv(),
        final(gl).same_objects(old(gl)),
        r is Ok <==> (decoded_rgba(bytes@) matches Some(d) && displayable(d)),
        r matches Err(_) ==> *final(gl) == *old(gl),
        r matches Ok(size) ==> {
            &&& decoded_rgba(bytes@) matches Some(d)
            &&& size.x == d.0 && size.y == d.1
            &&& final(gl).commands() == old(gl).commands() + load_into_texture_trace(
                texture.handle_spec(),
                d.0,
                d.1,
                uploaded_pixels(d),
            )
        },
{
    let image = match decode_image(bytes) {
        Ok(image) => image,
        Err(e) => {
            return Err(e);
        },
    };
    if image.width > i32::MAX as u32 || image.height > i32::MAX as u32 {
        return Err("image too large to display".to_owned());
    }
    let flipped_image = flip_vertical(&image);
    Ok(load_from_image_into_texture(gl, flipped_image, texture))
}

} // verus!
