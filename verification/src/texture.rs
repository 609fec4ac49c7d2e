use vstd::prelude::*;

use crate::command::{Cmd, FilterMode, GlCommand, TextureTarget, WrapMode};
use crate::gl_model::{allocated_one, released_one, GlModel};
use crate::raw_image::RawImage;

verus! {

/// How many texture units the model exposes; activating a unit at or
/// past this count is rejected.
pub const TEXTURE_UNIT_COUNT: u32 = 16;

/// Unbinds whatever texture is bound to `tex_target`.
pub fn unbind(gl: &mut GlModel, tex_target: TextureTarget)
    requires
        old(gl).inv(),
    ensures
        final(gl).inv(),
        final(gl).same_objects(old(gl)),
        final(gl).commands() == old(gl).commands().push(
            Cmd::BindTexture { tex_target, handle: 0 },
        ),
{
    gl.emit(GlCommand::BindTexture { tex_target, handle: 0 });
}

/// Makes `unit` the active texture unit. Succeeds exactly when the unit
/// exists; past the last unit nothing is emitted and an error comes back.
pub fn set_active_texture_unit(gl: &mut GlModel, unit: u32) -> (r: Result<(), String>)
    requires
        old(gl).inv(),
    ensures
        final(gl).inv(),
        final(gl).same_objects(old(gl)),
        r is Ok <==> unit < TEXTURE_UNIT_COUNT,
        unit < TEXTURE_UNIT_COUNT ==> final(gl).commands() == old(gl).commands().push(
            Cmd::ActiveTexture { unit },
        ),
        unit >= TEXTURE_UNIT_COUNT ==> *final(gl) == *old(gl),
        r matches Err(e) ==> e@ == "out-of-range texture unit"@,
{
    if unit >= TEXTURE_UNIT_COUNT {
        return Err("out-of-range texture unit".to_owned());
    }
    gl.emit(GlCommand::ActiveTexture { unit });
    Ok(())
}

/// A texture object: owns one texture handle, bound on a fixed target.
#[derive(Debug)]
pub struct Texture {
    pub handle: u64,
    pub target: TextureTarget,
}

impl Texture {
    pub fn new(gl: &mut GlModel, target: TextureTarget) -> (r: Texture)
        requires
            old(gl).inv(),
            old(gl).can_alloc(1),
        ensures
            r.target == target,
            final(gl).inv(),
            allocated_one(*old(gl), *final(gl), r.handle),
            final(gl).commands() == old(gl).commands().push(
                Cmd::GenTexture { handle: r.handle },
            ),
    {
        let h = gl.gen_handle();
        gl.emit(GlCommand::GenTexture { handle: h });
        Texture { handle: h, target }
    }

    /// Makes this texture current on its target.
    pub fn bind(&self, gl: &mut GlModel)
        requires
            old(gl).inv(),
        ensures
            final(gl).inv(),
            final(gl).same_objects(old(gl)),
            final(gl).commands() == old(gl).commands().push(
                Cmd::BindTexture { tex_target: self.target, handle: self.handle },
            ),
    {
        gl.emit(GlCommand::BindTexture { tex_target: self.target, handle: self.handle });
    }

    /// Sets the wrap mode of the depth coordinate on this texture's target.
    pub fn set_wrap_r(&mut self, gl: &mut GlModel, wrap_r: WrapMode)
        requires
            old(gl).inv(),
        ensures
            *final(self) == *old(self),
            final(gl).inv(),
            final(gl).same_objects(old(gl)),
            final(gl).commands() == old(gl).commands().push(
                Cmd::SetWrapR { tex_target: old(self).target, wrap: wrap_r },
            ),
    {
        gl.emit(GlCommand::SetWrapR { tex_target: self.target, wrap: wrap_r });
    }

    /// Sets the wrap mode of the horizontal coordinate on this texture's target.
    pub fn set_wrap_s(&mut self, gl: &mut GlModel, wrap_s: WrapMode)
        requires
            old(gl).inv(),
        ensures
            *final(self) == *old(self),
            final(gl).inv(),
            final(gl).same_objects(old(gl)),
            final(gl).commands() == old(gl).commands().push(
                Cmd::SetWrapS { tex_target: old(self).target, wrap: wrap_s },
            ),
    {
        gl.emit(GlCommand::SetWrapS { tex_target: self.target, wrap: wrap_s });
    }

    /// Sets the wrap mode of the vertical coordinate on this texture's target.
    pub fn set_wrap_t(&mut self, gl: &mut GlModel, wrap_t: WrapMode)
        requires
            old(gl).inv(),
        ensures
            *final(self) == *old(self),
            final(gl).inv(),
            final(gl).same_objects(old(gl)),
            final(gl).commands() == old(gl).commands().push(
                Cmd::SetWrapT { tex_target: old(self).target, wrap: wrap_t },
            ),
    {
        gl.emit(GlCommand::SetWrapT { tex_target: self.target, wrap: wrap_t });
    }

    /// Sets the minification filter on this texture's target.
    pub fn set_filter_min(&mut self, gl: &mut GlModel, min_filter: FilterMode)
        requires
            old(gl).inv(),
        ensures
            *final(self) == *old(self),
            final(gl).inv(),
            final(gl).same_objects(old(gl)),
            final(gl).commands() == old(gl).commands().push(
                Cmd::SetFilterMin { tex_target: old(self).target, filter: min_filter },
            ),
    {
        gl.emit(GlCommand::SetFilterMin { tex_target: self.target, filter: min_filter });
    }

    /// Sets the magnification filter on this texture's target.
    pub fn set_filter_mag(&mut self, gl: &mut GlModel, mag_filter: FilterMode)
        requires
            old(gl).inv(),
        ensures
            *final(self) == *old(self),
            final(gl).inv(),
            final(gl).same_objects(old(gl)),
            final(gl).commands() == old(gl).commands().push(
                Cmd::SetFilterMag { tex_target: old(self).target, filter: mag_filter },
            ),
    {
        gl.emit(GlCommand::SetFilterMag { tex_target: self.target, filter: mag_filter });
    }

    /// Uploads a raw RGBA buffer of the given size to the texture bound
    /// on this texture's target.
    pub fn set_image_data_from_slice(
        &self,
        gl: &mut GlModel,
        image_data: Vec<u8>,
        width: u32,
        height: u32,
    )
        requires
            old(gl).inv(),
            image_data@.len() == 4 * width * height,
        ensures
            final(gl).inv(),
            final(gl).same_objects(old(gl)),
            final(gl).commands() == old(gl).commands().push(
                Cmd::TexImage2D {
                    tex_target: self.target,
                    width,
                    height,
                    pixels: image_data@,
                },
            ),
    {
        gl.emit(GlCommand::TexImage2D {
            tex_target: self.target,
            width,
            height,
            pixels: image_data,
        });
    }

    /// Uploads a whole image to the texture bound on this texture's target.
    pub fn set_image_data(&self, gl: &mut GlModel, image_buffer: RawImage)
        requires
            old(gl).inv(),
            image_buffer.wf(),
        ensures
            final(gl).inv(),
            final(gl).same_objects(old(gl)),
            final(gl).commands() == old(gl).commands().push(
                Cmd::TexImage2D {
                    tex_target: self.target,
                    width: image_buffer.width,
                    height: image_buffer.height,
                    pixels: image_buffer.pixels@,
                },
            ),
    {
        let RawImage { width, height, pixels } = image_buffer;
        self.set_image_data_from_slice(gl, pixels, width, height);
    }

    pub fn handle(&self) -> (r: u64)
        ensures
            r == self.handle,
    {
        self.handle
    }

    /// Releases the texture object. Consuming the wrapper means the
    /// handle can be released at most once.
    pub fn destroy(self, gl: &mut GlModel)
        requires
            old(gl).inv(),
        ensures
            final(gl).inv(),
            released_one(*old(gl), *final(gl), self.handle),
            final(gl).commands() == old(gl).commands().push(
                Cmd::DeleteTexture { handle: self.handle },
            ),
    {
        gl.emit(GlCommand::DeleteTexture { handle: self.handle });
        gl.free(self.handle);
    }
}

} // verus!
