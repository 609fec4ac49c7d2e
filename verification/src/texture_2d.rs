use vstd::prelude::*;

use crate::command::{Cmd, FilterMode, TextureTarget, WrapMode};
use crate::gl_model::{allocated_one, released_one, GlModel};
use crate::raw_image::RawImage;
use crate::texture;
use crate::texture::Texture;

verus! {

/// Unbinds whatever texture is bound to the two-dimensional target.
pub fn unbind(gl: &mut GlModel)
    requires
        old(gl).inv(),
    ensures
        final(gl).inv(),
        final(gl).same_objects(old(gl)),
        final(gl).commands() == old(gl).commands().push(
            Cmd::BindTexture { tex_target: TextureTarget::TwoDimensional, handle: 0 },
        ),
{
    texture::unbind(gl, TextureTarget::TwoDimensional);
}

/// The calls of one whole two-dimensional texture setup: bind, wrap
/// modes, filters, unbind.
pub open spec fn texture_2d_setup_trace(
    h: u64,
    wrap_s: WrapMode,
    wrap_t: WrapMode,
    min_filter: FilterMode,
    mag_filter: FilterMode,
) -> Seq<Cmd> {
    seq![
        Cmd::BindTexture { tex_target: TextureTarget::TwoDimensional, handle: h },
        Cmd::SetWrapS { tex_target: TextureTarget::TwoDimensional, wrap: wrap_s },
        Cmd::SetWrapT { tex_target: TextureTarget::TwoDimensional, wrap: wrap_t },
        Cmd::SetFilterMin { tex_target: TextureTarget::TwoDimensional, filter: min_filter },
        Cmd::SetFilterMag { tex_target: TextureTarget::TwoDimensional, filter: mag_filter },
        Cmd::BindTexture { tex_target: TextureTarget::TwoDimensional, handle: 0 },
    ]
}

/// A texture object fixed to the two-dimensional target.
#[derive(Debug)]
pub struct Texture2D {
    pub texture: Texture,
}

impl Texture2D {
    /// The underlying texture is bound on the two-dimensional target.
    pub open spec fn wf(&self) -> bool {
        self.texture.target == TextureTarget::TwoDimensional
    }

    pub open spec fn handle_spec(&self) -> u64 {
        self.texture.handle
    }

    pub fn new(gl: &mut GlModel) -> (r: Texture2D)
        requires
            old(gl).inv(),
            old(gl).can_alloc(1),
        ensures
            r.wf(),
            final(gl).inv(),
            allocated_one(*old(gl), *final(gl), r.handle_spec()),
            final(gl).commands() == old(gl).commands().push(
                Cmd::GenTexture { handle: r.handle_spec() },
            ),
    {
        Texture2D { texture: Texture::new(gl, TextureTarget::TwoDimensional) }
    }

    /// Makes this texture current on the two-dimensional target.
    pub fn bind(&self, gl: &mut GlModel)
        requires
            old(gl).inv(),
            self.wf(),
        ensures
            final(gl).inv(),
            final(gl).same_objects(old(gl)),
            final(gl).commands() == old(gl).commands().push(
                Cmd::BindTexture {
                    tex_target: TextureTarget::TwoDimensional,
                    handle: self.handle_spec(),
                },
            ),
    {
        self.texture.bind(gl);
    }

    /// Binds the texture, applies wrap modes and filters, and unbinds,
    /// so nothing is left bound afterwards.
    pub fn setup(
        self,
        gl: &mut GlModel,
        wrap_s: WrapMode,
        wrap_t: WrapMode,
        min_filter: FilterMode,
        mag_filter: FilterMode,
    ) -> (r: Texture2D)
        requires
            old(gl).inv(),
            self.wf(),
        ensures
            r == self,
            final(gl).inv(),
            final(gl).same_objects(old(gl)),
            final(gl).commands() == old(gl).commands() + texture_2d_setup_trace(
                self.handle_spec(),
                wrap_s,
                wrap_t,
                min_filter,
                mag_filter,
            ),
    {
        let mut this = self;
        this.bind(gl);
        this.set_wrap_mode(gl, wrap_s, wrap_t);
        this.set_filter_ops(gl, min_filter, mag_filter);
        unbind(gl);
        proof {
            assert(final(gl).commands() =~= old(gl).commands() + texture_2d_setup_trace(
                self.handle_spec(),
                wrap_s,
                wrap_t,
                min_filter,
                mag_filter,
            ));
        }
        this
    }

    /// Sets both wrap modes on the two-dimensional target.
    pub fn set_wrap_mode(&mut self, gl: &mut GlModel, wrap_s: WrapMode, wrap_t: WrapMode)
        requires
            old(gl).inv(),
            old(self).wf(),
        ensures
            *final(self) == *old(self),
            final(gl).inv(),
            final(gl).same_objects(old(gl)),
            final(gl).commands() == old(gl).commands() + seq![
                Cmd::SetWrapS { tex_target: TextureTarget::TwoDimensional, wrap: wrap_s },
                Cmd::SetWrapT { tex_target: TextureTarget::TwoDimensional, wrap: wrap_t },
            ],
    {
        self.texture.set_wrap_s(gl, wrap_s);
        self.texture.set_wrap_t(gl, wrap_t);
        proof {
            assert(final(gl).commands() =~= old(gl).commands() + seq![
                Cmd::SetWrapS { tex_target: TextureTarget::TwoDimensional, wrap: wrap_s },
                Cmd::SetWrapT { tex_target: TextureTarget::TwoDimensional, wrap: wrap_t },
            ]);
        }
    }

    /// Sets both filters on the two-dimensional target.
    pub fn set_filter_ops(
        &mut self,
        gl: &mut GlModel,
        min_filter: FilterMode,
        mag_filter: FilterMode,
    )
        requires
            old(gl).inv(),
            old(self).wf(),
        ensures
            *final(self) == *old(self),
            final(gl).inv(),
            final(gl).same_objects(old(gl)),
            final(gl).commands() == old(gl).commands() + seq![
                Cmd::SetFilterMin {
                    tex_target: TextureTarget::TwoDimensional,
                    filter: min_filter,
                },
                Cmd::SetFilterMag {
                    tex_target: TextureTarget::TwoDimensional,
                    filter: mag_filter,
                },
            ],
    {
        self.texture.set_filter_min(gl, min_filter);
        self.texture.set_filter_mag(gl, mag_filter);
        proof {
            assert(final(gl).commands() =~= old(gl).commands() + seq![
                Cmd::SetFilterMin {
                    tex_target: TextureTarget::TwoDimensional,
                    filter: min_filter,
                },
                Cmd::SetFilterMag {
                    tex_target: TextureTarget::TwoDimensional,
                    filter: mag_filter,
                },
            ]);
        }
    }

    /// Uploads a raw RGBA buffer of the given size to the texture bound
    /// on the two-dimensional target.
    pub fn set_image_data_from_slice(
        &self,
        gl: &mut GlModel,
        image_data: Vec<u8>,
        width: u32,
        height: u32,
    )
        requires
            old(gl).inv(),
            self.wf(),
            image_data@.len() == 4 * width * height,
        ensures
            final(gl).inv(),
            final(gl).same_objects(old(gl)),
            final(gl).commands() == old(gl).commands().push(
                Cmd::TexImage2D {
                    tex_target: TextureTarget::TwoDimensional,
                    width,
                    height,
                    pixels: image_data@,
                },
            ),
    {
        self.texture.set_image_data_from_slice(gl, image_data, width, height);
    }

    /// Uploads a whole image to the texture bound on the two-dimensional
    /// target.
    pub fn set_image_data(&self, gl: &mut GlModel, image_buffer: RawImage)
        requires
            old(gl).inv(),
            self.wf(),
            image_buffer.wf(),
        ensures
            final(gl).inv(),
            final(gl).same_objects(old(gl)),
            final(gl).commands() == old(gl).commands().push(
                Cmd::TexImage2D {
                    tex_target: TextureTarget::TwoDimensional,
                    width: image_buffer.width,
                    height: image_buffer.height,
                    pixels: image_buffer.pixels@,
                },
            ),
    {
        self.texture.set_image_data(gl, image_buffer);
    }

    pub fn handle(&self) -> (r: u64)
        ensures
            r == self.handle_spec(),
    {
        self.texture.handle()
    }

    /// Releases the texture object. Consuming the wrapper means the
    /// handle can be released at most once.
    pub fn destroy(self, gl: &mut GlModel)
        requires
            old(gl).inv(),
        ensures
            final(gl).inv(),
            released_one(*old(gl), *final(gl), self.handle_spec()),
            final(gl).commands() == old(gl).commands().push(
                Cmd::DeleteTexture { handle: self.handle_spec() },
            ),
    {
        self.texture.destroy(gl);
    }
}

} // verus!
