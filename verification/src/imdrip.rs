use vstd::prelude::*;

use crate::command::{cmd_views, no_interior_nul, Cmd, GlCommand};
use crate::gl_model::{allocated_one, GlModel};
use crate::loading;
use crate::loading::{
    create_from_image_trace, displayable, load_into_texture_trace, uploaded_pixels,
};
use crate::material::{Material, MockMaterial};
use crate::mesh::Mesh;
use crate::mesh_factory;
use crate::raw_image::{decoded_rgba, RawImage};
use crate::shader;
use crate::texture::set_active_texture_unit;
use crate::texture_2d::Texture2D;
use crate::textured::{TextureKind, TexturedMaterial};
use crate::vec2::Vec2i;

verus! {

broadcast use vstd::set::group_set_axioms;

/// The viewer's drawing context: the quad mesh, the textured material
/// that displays the image, the tracked image and window sizes, and the
/// resize-on-load flag.
///
/// Its states are "no texture yet" and "textured". The first successful
/// load allocates the texture and moves to "textured"; every later load
/// re-uploads into the same texture, keeping its handle. A failed load
/// changes nothing.
pub struct ImdripCtx {
    pub material: Material,
    pub current_image_size: Vec2i,
    pub current_window_size: Vec2i,
    pub resize_on_load: bool,
    pub mesh: Mesh,
}

/// The context with its resize-on-load flag flipped and all else as it
/// was.
pub open spec fn toggled(c: ImdripCtx) -> ImdripCtx {
    ImdripCtx { resize_on_load: !c.resize_on_load, ..c }
}

/// Toggling resize-on-load twice returns the context to exactly the
/// state it started in.
pub proof fn lemma_toggle_involutive(c: ImdripCtx)
    ensures
        toggled(toggled(c)) == c,
{
}

impl ImdripCtx {
    /// Well formed: the material is the textured kind, bindable, and
    /// carries at most the one displayed texture.
    pub open spec fn wf(&self) -> bool {
        &&& self.material is Textured
        &&& self.material->Textured_0.bindable()
        &&& self.material->Textured_0.textures@.len() <= 1
    }

    /// The textured material behind the `Material` wrapper.
    pub open spec fn textured(&self) -> TexturedMaterial
        recommends
            self.wf(),
    {
        self.material->Textured_0
    }

    /// Whether an image has been loaded into a texture yet.
    pub open spec fn has_texture(&self) -> bool {
        self.textured().textures@.len() > 0
    }

    /// The displayed texture.
    pub open spec fn first_texture(&self) -> Texture2D
        recommends
            self.has_texture(),
    {
        self.textured().textures@[0]->TwoDimensional_texture
    }

    /// The handle of the displayed texture.
    pub open spec fn texture_handle(&self) -> u64
        recommends
            self.has_texture(),
    {
        self.first_texture().handle_spec()
    }

    /// The calls that set up a fresh context, with `base` the first
    /// handle the bank gives out: build the fixed shader program, point
    /// its sampler at texture unit 0, build the quad.
    pub open spec fn new_trace(base: u64) -> Seq<Cmd> {
        shader::create_shader_trace(
            base,
            shader::quad_vertex_shader_src(),
            shader::quad_fragment_shader_src(),
        ) + seq![
            Cmd::Uniform1i { program: base, name: "image_texture"@, value: 0 },
        ] + mesh_factory::quad_mesh_trace((base + 3) as u64, mesh_factory::F32_ONE_BITS)
    }

    /// Sets up a context: compiles and links the fixed shaders, points
    /// the sampler at unit 0, and builds the quad mesh. No image is
    /// loaded yet; the tracked image size starts at zero and
    /// resize-on-load starts enabled.
    pub fn new(gl: &mut GlModel, current_window_size: Vec2i) -> (r: ImdripCtx)
        requires
            old(gl).inv(),
            old(gl).can_alloc(8),
        ensures
            r.wf(),
            !r.has_texture(),
            r.textured().shader_program.handle == old(gl).next_handle,
            r.current_image_size == (Vec2i { x: 0, y: 0 }),
            r.current_window_size == current_window_size,
            r.resize_on_load,
            r.mesh.material is Mock,
            final(gl).inv(),
            final(gl).next_handle == old(gl).next_handle + 8,
            final(gl).commands() == old(gl).commands() + Self::new_trace(old(gl).next_handle),
    {
        let vert_source = shader::quad_vertex_shader_source();
        let frag_source = shader::quad_fragment_shader_source();
        proof {
            shader::lemma_shader_sources_wf();
        }
        let texture_draw_shader = shader::create_shader_from_parts(gl, vert_source, frag_source);
        proof {
            reveal_strlit("image_texture");
            assert(no_interior_nul("image_texture"@));
        }
        texture_draw_shader.set_int(gl, "image_texture", 0);
        let material = Material::Textured(TexturedMaterial::new(texture_draw_shader, Vec::new()));
        let mesh = mesh_factory::create_basic_quad_mesh(
            gl,
            Material::Mock(MockMaterial),
            mesh_factory::F32_ONE_BITS,
        );
        let r = ImdripCtx {
            material,
            current_image_size: Vec2i::new(0, 0),
            current_window_size,
            resize_on_load: true,
            mesh,
        };
        proof {
            assert(final(gl).commands() =~= old(gl).commands() + Self::new_trace(
                old(gl).next_handle,
            ));
        }
        r
    }

    /// Draws the quad with the image material, pushing the tracked
    /// window size to the shader first.
    pub fn draw(&self, gl: &mut GlModel)
        requires
            old(gl).inv(),
            self.wf(),
        ensures
            final(gl).inv(),
            final(gl).same_objects(old(gl)),
            final(gl).commands() == old(gl).commands().push(Cmd::ActiveTexture { unit: 0 })
                + self.mesh.draw_with_material_trace(
                &self.material,
                seq![
                    Cmd::Uniform2i {
                        program: self.textured().shader_program.handle,
                        name: "window_size"@,
                        x: self.current_window_size.x,
                        y: self.current_window_size.y,
                    },
                ],
            ),
    {
        set_active_texture_unit(gl, 0).unwrap();
        proof {
            reveal_strlit("window_size");
            assert(no_interior_nul("window_size"@));
        }
        let mut pre_draw: Vec<GlCommand> = Vec::new();
        let program = match &self.material {
            Material::Textured(t) => t.shader_program(),
            _ => vstd::pervasive::unreached(),
        };
        pre_draw.push(GlCommand::Uniform2i {
            program: program.handle,
            name: "window_size".to_owned(),
            x: self.current_window_size.x,
            y: self.current_window_size.y,
        });
        proof {
            assert(cmd_views(pre_draw@) =~= seq![
                Cmd::Uniform2i {
                    program: self.textured().shader_program.handle,
                    name: "window_size"@,
                    x: self.current_window_size.x,
                    y: self.current_window_size.y,
                },
            ]);
        }
        self.mesh.draw_with_material(gl, &self.material, pre_draw);
    }

    /// Whether the material already carries a texture.
    fn has_textures(&self) -> (r: bool)
        requires
            self.wf(),
        ensures
            r == self.has_texture(),
    {
        match &self.material {
            Material::Textured(t) => t.textures.len() > 0,
            _ => vstd::pervasive::unreached(),
        }
    }

    /// The displayed texture, if an image has been loaded.
    fn get_texture(&self) -> (r: Option<&Texture2D>)
        requires
            self.wf(),
        ensures
            r is Some <==> self.has_texture(),
            r matches Some(t) ==> *t == self.first_texture(),
    {
        match &self.material {
            Material::Textured(t) => {
                if t.textures.len() > 0 {
                    match &t.textures[0] {
                        TextureKind::TwoDimensional { texture } => Some(texture),
                    }
                } else {
                    None
                }
            },
            _ => vstd::pervasive::unreached(),
        }
    }

    pub fn on_window_resize(&mut self, window_size: Vec2i)
        ensures
            *final(self) == (ImdripCtx { current_window_size: window_size, ..*old(self) }),
    {
        self.current_window_size = window_size;
    }

    /// Re-uploads `image` into the existing texture in place: the
    /// texture object and its handle are reused, only the driver-side
    /// contents and the tracked image size change.
    fn update_existing_texture_from_image(&mut self, gl: &mut GlModel, image: RawImage)
        requires
            old(gl).inv(),
            old(self).wf(),
            old(self).has_texture(),
            image.wf(),
            image.width <= i32::MAX,
            image.height <= i32::MAX,
        ensures
            final(gl).inv(),
            final(gl).same_objects(old(gl)),
            final(self).material == old(self).material,
            final(self).mesh == old(self).mesh,
            final(self).resize_on_load == old(self).resize_on_load,
            final(self).current_window_size == old(self).current_window_size,
            final(self).current_image_size == (Vec2i {
                x: image.width as i32,
                y: image.height as i32,
            }),
            final(gl).commands() == old(gl).commands() + load_into_texture_trace(
                old(self).texture_handle(),
                image.width,
                image.height,
                image.pixels@,
            ),
    {
        let size = match self.get_texture() {
            Some(tex) => loading::load_from_image_into_texture(gl, image, tex),
            None => vstd::pervasive::unreached(),
        };
        self.current_image_size = size;
    }

    /// First load: creates the texture, appends it to the material, and
    /// records the image size.
    fn load_new_texture_from_image(&mut self, gl: &mut GlModel, image: RawImage)
        requires
            old(gl).inv(),
            old(gl).can_alloc(1),
            old(self).wf(),
            !old(self).has_texture(),
            image.wf(),
            image.width <= i32::MAX,
            image.height <= i32::MAX,
        ensures
            final(gl).inv(),
            final(self).wf(),
            final(self).has_texture(),
            allocated_one(*old(gl), *final(gl), final(self).texture_handle()),
            final(self).material->Textured_0.shader_program == old(
                self,
            ).material->Textured_0.shader_program,
            final(self).mesh == old(self).mesh,
            final(self).resize_on_load == old(self).resize_on_load,
            final(self).current_window_size == old(self).current_window_size,
            final(self).current_image_size == (Vec2i {
                x: image.width as i32,
                y: image.height as i32,
            }),
            final(gl).commands() == old(gl).commands() + create_from_image_trace(
                final(self).texture_handle(),
                image.width,
                image.height,
                image.pixels@,
            ),
    {
        let ghost width = image.width;
        let ghost height = image.height;
        let (texture, size) = loading::create_from_image(gl, image);
        let stored_texture = TextureKind::TwoDimensional { texture };
        match &mut self.material {
            Material::Textured(t) => {
                t.textures.push(stored_texture);
            },
            _ => vstd::pervasive::unreached(),
        }
        self.current_image_size = size;
    }

    /// Loads `image` into the display texture: the first load allocates
    /// the texture, every later load re-uploads into the existing one in
    /// place, preserving its handle. Either way the tracked image size
    /// becomes the image's size.
    pub fn update_texture_from_image(&mut self, gl: &mut GlModel, image: RawImage)
        requires
            old(gl).inv(),
            old(gl).can_alloc(1),
            old(self).wf(),
            image.wf(),
            image.width <= i32::MAX,
            image.height <= i32::MAX,
        ensures
            final(gl).inv(),
            final(self).wf(),
            final(self).has_texture(),
            final(self).mesh == old(self).mesh,
            final(self).resize_on_load == old(self).resize_on_load,
            final(self).current_window_size == old(self).current_window_size,
            final(self).current_image_size == (Vec2i {
                x: image.width as i32,
                y: image.height as i32,
            }),
            old(self).has_texture() ==> {
                &&& final(self).material == old(self).material
                &&& final(self).texture_handle() == old(self).texture_handle()
                &&& final(gl).same_objects(old(gl))
                &&& final(gl).commands() == old(gl).commands() + load_into_texture_trace(
                    old(self).texture_handle(),
                    image.width,
                    image.height,
                    image.pixels@,
                )
            },
            !old(self).has_texture() ==> {
                &&& allocated_one(*old(gl), *final(gl), final(self).texture_handle())
                &&& final(self).material->Textured_0.shader_program == old(
                    self,
                ).material->Textured_0.shader_program
                &&& final(gl).commands() == old(gl).commands() + create_from_image_trace(
                    final(self).texture_handle(),
                    image.width,
                    image.height,
                    image.pixels@,
                )
            },
    {
        if self.has_textures() {
            self.update_existing_texture_from_image(gl, image);
            return ;
        }
        self.load_new_texture_from_image(gl, image);
    }

    /// Decodes `bytes`, flips the decoded image (drivers take the bottom
    /// row first), and loads it as `update_texture_from_image` does.
    /// Succeeds exactly when the bytes decode to a displayable image; on
    /// failure the context, the texture and the tracked sizes are left
    /// exactly as they were.
    pub fn update_texture_from_bytes(&mut self, gl: &mut GlModel, bytes: &[u8]) -> (r: Result<
        (),
        String,
    >)
        requires
            old(gl).inv(),
            old(gl).can_alloc(1),
            old(self).wf(),
        ensures
            final(gl).inv(),
            final(self).wf(),
            r is Ok <==> (decoded_rgba(bytes@) matches Some(d) && displayable(d)),
            r matches Err(_) ==> *final(self) == *old(self) && *final(gl) == *old(gl),
            r matches Ok(_) ==> {
                &&& decoded_rgba(bytes@) matches Some(d)
                &&& final(self).has_texture()
                &&& final(self).current_image_size == (Vec2i { x: d.0 as i32, y: d.1 as i32 })
                &&& final(self).mesh == old(self).mesh
                &&& final(self).resize_on_load == old(self).resize_on_load
                &&& final(self).current_window_size == old(self).current_window_size
                &&& (old(self).has_texture() ==> {
                    &&& final(self).material == old(self).material
                    &&& final(self).texture_handle() == old(self).texture_handle()
                    &&& final(gl).same_objects(old(gl))
                    &&& final(gl).commands() == old(gl).commands() + load_into_texture_trace(
                        old(self).texture_handle(),
                        d.0,
                        d.1,
                        uploaded_pixels(d),
                    )
                })
                &&& (!old(self).has_texture() ==> {
                    &&& allocated_one(*old(gl), *final(gl), final(self).texture_handle())
                    &&& final(gl).commands() == old(gl).commands() + create_from_image_trace(
                        final(self).texture_handle(),
                        d.0,
                        d.1,
                        uploaded_pixels(d),
                    )
                })
            },
    {
        if self.has_textures() {
            let loaded = {
                let tex = match self.get_texture() {
                    Some(tex) => tex,
                    None => vstd::pervasive::unreached(),
                };
                loading::load_into_texture_from_bytes(gl, bytes, tex)
            };
            match loaded {
                Ok(size) => {
                    self.current_image_size = size;
                    Ok(())
                },
                Err(e) => Err(e),
            }
        } else {
            match loading::create_and_load_texture_from_bytes(gl, bytes) {
                Ok((texture, size)) => {
                    match &mut self.material {
                        Material::Textured(t) => {
                            t.textures.push(TextureKind::TwoDimensional { texture });
                        },
                        _ => vstd::pervasive::unreached(),
                    }
                    self.current_image_size = size;
                    Ok(())
                },
                Err(e) => Err(e),
            }
        }
    }

    /// The size of the image shown now; zero by zero before any load.
    pub fn image_size(&self) -> (r: Vec2i)
        ensures
            r == self.current_image_size,
    {
        self.current_image_size
    }

    pub fn set_resize_on_load(&mut self, resize_on_load: bool)
        ensures
            *final(self) == (ImdripCtx { resize_on_load, ..*old(self) }),
    {
        self.resize_on_load = resize_on_load;
    }

    /// Flips the resize-on-load flag and changes nothing else, so two
    /// toggles in a row restore the context exactly.
    pub fn toggle_resize_on_load(&mut self)
        ensures
            *final(self) == toggled(*old(self)),
    {
        let current = self.resize_on_load;
        self.set_resize_on_load(!current);
    }

    pub fn resize_on_load(&self) -> (r: bool)
        ensures
            r == self.resize_on_load,
    {
        self.resize_on_load
    }

    /// The window size that "resize to fit the image" asks for: the
    /// image size, unless either dimension is zero, in which case there
    /// is nothing to do.
    pub fn resize_target(&self) -> (r: Option<Vec2i>)
        ensures
            r is Some <==> (self.current_image_size.x != 0 && self.current_image_size.y != 0),
            r matches Some(s) ==> s == self.current_image_size,
    {
        if self.current_image_size.x == 0 || self.current_image_size.y == 0 {
            None
        } else {
            Some(self.current_image_size)
        }
    }

    /// The window size to apply after a load attempt: the image size
    /// exactly when the load succeeded and resize-on-load is enabled.
    pub fn resize_after_load(&self, successfully_loaded: bool) -> (r: Option<Vec2i>)
        ensures
            r is Some <==> (successfully_loaded && self.resize_on_load),
            r matches Some(s) ==> s == self.current_image_size,
    {
        if successfully_loaded && self.resize_on_load {
            Some(self.current_image_size)
        } else {
            None
        }
    }

    /// Releases every driver object the context owns: the mesh's objects
    /// and the material's program and texture.
    pub fn destroy(self, gl: &mut GlModel)
        requires
            old(gl).inv(),
        ensures
            final(gl).inv(),
            final(gl).next_handle == old(gl).next_handle,
            final(gl).live_set() == old(gl).live_set().difference(
                self.mesh.owned_set().union(self.material.owned_set()),
            ),
            final(gl).commands() == old(gl).commands() + self.mesh.delete_trace()
                + self.material.delete_trace(),
    {
        let ImdripCtx { material, mesh, .. } = self;
        mesh.destroy(gl);
        material.destroy(gl);
        proof {
            assert(final(gl).live_set() =~= old(gl).live_set().difference(
                self.mesh.owned_set().union(self.material.owned_set()),
            ));
            assert(final(gl).commands() =~= old(gl).commands() + self.mesh.delete_trace()
                + self.material.delete_trace());
        }
    }
}

} // verus!
