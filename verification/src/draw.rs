use vstd::prelude::*;

use crate::command::{cmd_views, no_interior_nul, Cmd, GlCommand};
use crate::gl_model::{allocated_one, GlModel};
use crate::loading;
use crate::loading::{
    create_from_image_trace, displayable, load_into_texture_trace, uploaded_pixels,
};
use crate::material::{Material, MockMaterial};
use crate::mesh::Mesh;
use crate::mesh_factory;
use crate::raw_image::decoded_rgba;
use crate::shader;
use crate::texture::set_active_texture_unit;
use crate::texture_2d::Texture2D;
use crate::textured::{TextureKind, TexturedMaterial};
use crate::vec2::Vec2i;

verus! {

broadcast use vstd::set::group_set_axioms;

/// A plain drawing context: the quad mesh, the textured material that
/// displays the image, and the tracked texture and window sizes. It is
/// the viewer context without the resize-on-load feature.
pub struct DrawingCtx {
    pub material: Material,
    pub current_texture_size: Vec2i,
    pub current_window_size: Vec2i,
    pub mesh: Mesh,
}

impl DrawingCtx {
    /// Well formed: the material is the textured kind, bindable, and
    /// carries at most the one displayed texture.
    pub open spec fn wf(&self) -> bool {
        &&& self.material is Textured
        &&& self.material->Textured_0.bindable()
        &&& self.material->Textured_0.textures@.len() <= 1
    }

    /// The textured material behind the `Material` wrapper.
    pub open spec fn textured(&self) -> TexturedMaterial
        recommends
            self.wf(),
    {
        self.material->Textured_0
    }

    /// Whether an image has been loaded into a texture yet.
    pub open spec fn has_texture(&self) -> bool {
        self.textured().textures@.len() > 0
    }

    /// The handle of the displayed texture.
    pub open spec fn texture_handle(&self) -> u64
        recommends
            self.has_texture(),
    {
        self.textured().textures@[0]->TwoDimensional_texture.handle_spec()
    }

    /// The calls that set up a fresh context, with `base` the first
    /// handle the bank gives out; the setup is the same as the viewer
    /// context's.
    pub open spec fn new_trace(base: u64) -> Seq<Cmd> {
        shader::create_shader_trace(
            base,
            shader::quad_vertex_shader_src(),
            shader::quad_fragment_shader_src(),
        ) + seq![
            Cmd::Uniform1i { program: base, name: "image_texture"@, value: 0 },
        ] + mesh_factory::quad_mesh_trace((base + 3) as u64, mesh_factory::F32_ONE_BITS)
    }

    /// Sets up a context: compiles and links the fixed shaders, points
    /// the sampler at unit 0, and builds the quad mesh.
    pub fn new(gl: &mut GlModel, current_window_size: Vec2i) -> (r: DrawingCtx)
        requires
            old(gl).inv(),
            old(gl).can_alloc(8),
        ensures
            r.wf(),
            !r.has_texture(),
            r.textured().shader_program.handle == old(gl).next_handle,
            r.current_texture_size == (Vec2i { x: 0, y: 0 }),
            r.current_window_size == current_window_size,
            r.mesh.material is Mock,
            final(gl).inv(),
            final(gl).next_handle == old(gl).next_handle + 8,
            final(gl).commands() == old(gl).commands() + Self::new_trace(old(gl).next_handle),
    {
        let vert_source = shader::quad_vertex_shader_source();
        let frag_source = shader::quad_fragment_shader_source();
        proof {
            shader::lemma_shader_sources_wf();
        }
        let texture_draw_shader = shader::create_shader_from_parts(gl, vert_source, frag_source);
        proof {
            reveal_strlit("image_texture");
            assert(no_interior_nul("image_texture"@));
        }
        texture_draw_shader.set_int(gl, "image_texture", 0);
        let material = Material::Textured(TexturedMaterial::new(texture_draw_shader, Vec::new()));
        let mesh = mesh_factory::create_basic_quad_mesh(
            gl,
            Material::Mock(MockMaterial),
            mesh_factory::F32_ONE_BITS,
        );
        let r = DrawingCtx {
            material,
            current_texture_size: Vec2i::new(0, 0),
            current_window_size,
            mesh,
        };
        proof {
            assert(final(gl).commands() =~= old(gl).commands() + Self::new_trace(
                old(gl).next_handle,
            ));
        }
        r
    }

    /// Draws the quad with the image material, pushing the tracked
    /// window size to the shader first.
    pub fn draw(&self, gl: &mut GlModel)
        requires
            old(gl).inv(),
            self.wf(),
        ensures
            final(gl).inv(),
            final(gl).same_objects(old(gl)),
            final(gl).commands() == old(gl).commands().push(Cmd::ActiveTexture { unit: 0 })
                + self.mesh.draw_with_material_trace(
                &self.material,
                seq![
                    Cmd::Uniform2i {
                        program: self.textured().shader_program.handle,
                        name: "window_size"@,
                        x: self.current_window_size.x,
                        y: self.current_window_size.y,
                    },
                ],
            ),
    {
        set_active_texture_unit(gl, 0).unwrap();
        proof {
            reveal_strlit("window_size");
            assert(no_interior_nul("window_size"@));
        }
        let mut pre_draw: Vec<GlCommand> = Vec::new();
        let program = match &self.material {
            Material::Textured(t) => t.shader_program(),
            _ => vstd::pervasive::unreached(),
        };
        pre_draw.push(GlCommand::Uniform2i {
            program: program.handle,
            name: "window_size".to_owned(),
            x: self.current_window_size.x,
            y: self.current_window_size.y,
        });
        proof {
            assert(cmd_views(pre_draw@) =~= seq![
                Cmd::Uniform2i {
                    program: self.textured().shader_program.handle,
                    name: "window_size"@,
                    x: self.current_window_size.x,
                    y: self.current_window_size.y,
                },
            ]);
        }
        self.mesh.draw_with_material(gl, &self.material, pre_draw);
    }

    /// Whether the material already carries a texture.
    fn has_textures(&self) -> (r: bool)
        requires
            self.wf(),
        ensures
            r == self.has_texture(),
    {
        match &self.material {
            Material::Textured(t) => t.textures.len() > 0,
            _ => vstd::pervasive::unreached(),
        }
    }

    /// The displayed texture, if an image has been loaded.
    fn get_texture(&self) -> (r: Option<&Texture2D>)
        requires
            self.wf(),
        ensures
            r is Some <==> self.has_texture(),
            r matches Some(t) ==> t.handle_spec() == self.texture_handle() && t.wf(),
    {
        match &self.material {
            Material::Textured(t) => {
                if t.textures.len() > 0 {
                    match &t.textures[0] {
                        TextureKind::TwoDimensional { texture } => Some(texture),
                    }
                } else {
                    None
                }
            },
            _ => vstd::pervasive::unreached(),
        }
    }

    /// Re-uploads the decoded bytes into the existing texture in place,
    /// preserving the texture object and its handle.
    fn update_existing_texture(&mut self, gl: &mut GlModel, bytes: &[u8]) -> (r: Result<
        (),
        String,
    >)
        requires
            old(gl).inv(),
            old(self).wf(),
            old(self).has_texture(),
        ensures
            final(gl).inv(),
            final(gl).same_objects(old(gl)),
            r is Ok <==> (decoded_rgba(bytes@) matches Some(d) && displayable(d)),
            r matches Err(_) ==> *final(self) == *old(self) && *final(gl) == *old(gl),
            r matches Ok(_) ==> {
                &&& decoded_rgba(bytes@) matches Some(d)
                &&& *final(self) == (DrawingCtx {
                    current_texture_size: Vec2i { x: d.0 as i32, y: d.1 as i32 },
                    ..*old(self)
                })
                &&& final(gl).commands() == old(gl).commands() + load_into_texture_trace(
                    old(self).texture_handle(),
                    d.0,
                    d.1,
                    uploaded_pixels(d),
                )
            },
    {
        let loaded = {
            let tex = match self.get_texture() {
                Some(tex) => tex,
                None => vstd::pervasive::unreached(),
            };
            loading::load_into_texture_from_bytes(gl, bytes, tex)
        };
        match loaded {
            Ok(size) => {
                self.current_texture_size = size;
                Ok(())
            },
            Err(e) => Err(e),
        }
    }

    /// First load: decodes the bytes, creates the texture, appends it to
    /// the material, and records the image size.
    fn load_new_texture(&mut self, gl: &mut GlModel, bytes: &[u8]) -> (r: Result<(), String>)
        requires
            old(gl).inv(),
            old(gl).can_alloc(1),
            old(self).wf(),
            !old(self).has_texture(),
        ensures
            final(gl).inv(),
            final(self).wf(),
            r is Ok <==> (decoded_rgba(bytes@) matches Some(d) && displayable(d)),
            r matches Err(_) ==> *final(self) == *old(self) && *final(gl) == *old(gl),
            r matches Ok(_) ==> {
                &&& decoded_rgba(bytes@) matches Some(d)
                &&& final(self).has_texture()
                &&& allocated_one(*old(gl), *final(gl), final(self).texture_handle())
                &&& final(self).current_texture_size == (Vec2i { x: d.0 as i32, y: d.1 as i32 })
                &&& final(self).mesh == old(self).mesh
                &&& final(self).current_window_size == old(self).current_window_size
                &&& final(gl).commands() == old(gl).commands() + create_from_image_trace(
                    final(self).texture_handle(),
                    d.0,
                    d.1,
                    uploaded_pixels(d),
                )
            },
    {
        match loading::create_and_load_texture_from_bytes(gl, bytes) {
            Ok((texture, size)) => {
                match &mut self.material {
                    Material::Textured(t) => {
                        t.textures.push(TextureKind::TwoDimensional { texture });
                    },
                    _ => vstd::pervasive::unreached(),
                }
                self.current_texture_size = size;
                Ok(())
            },
            Err(e) => Err(e),
        }
    }

    pub fn on_window_resize(&mut self, window_size: Vec2i)
        ensures
            *final(self) == (DrawingCtx { current_window_size: window_size, ..*old(self) }),
    {
        self.current_window_size = window_size;
    }

    /// Loads the image decoded from `bytes` into the display texture:
    /// the first load allocates the texture, every later load re-uploads
    /// into the existing one in place, preserving its handle. A failed
    /// decode leaves everything exactly as it was.
    pub fn update_texture(&mut self, gl: &mut GlModel, bytes: &[u8]) -> (r: Result<(), String>)
        requires
            old(gl).inv(),
            old(gl).can_alloc(1),
            old(self).wf(),
        ensures
            final(gl).inv(),
            final(self).wf(),
            r is Ok <==> (decoded_rgba(bytes@) matches Some(d) && displayable(d)),
            r matches Err(_) ==> *final(self) == *old(self) && *final(gl) == *old(gl),
            r matches Ok(_) ==> {
                &&& decoded_rgba(bytes@) matches Some(d)
                &&& final(self).has_texture()
                &&& final(self).current_texture_size == (Vec2i { x: d.0 as i32, y: d.1 as i32 })
                &&& (old(self).has_texture() ==> final(self).material == old(self).material
                    && final(self).texture_handle() == old(self).texture_handle())
            },
    {
        if self.has_textures() {
            return self.update_existing_texture(gl, bytes);
        }
        self.load_new_texture(gl, bytes)
    }

    /// Releases every driver object the context owns.
    pub fn destroy(self, gl: &mut GlModel)
        requires
            old(gl).inv(),
        ensures
            final(gl).inv(),
            final(gl).next_handle == old(gl).next_handle,
            final(gl).live_set() == old(gl).live_set().difference(
                self.mesh.owned_set().union(self.material.owned_set()),
            ),
            final(gl).commands() == old(gl).commands() + self.mesh.delete_trace()
                + self.material.delete_trace(),
    {
        let DrawingCtx { material, mesh, .. } = self;
        mesh.destroy(gl);
        material.destroy(gl);
        proof {
            assert(final(gl).live_set() =~= old(gl).live_set().difference(
                self.mesh.owned_set().union(self.material.owned_set()),
            ));
            assert(final(gl).commands() =~= old(gl).commands() + self.mesh.delete_trace()
                + self.material.delete_trace());
        }
    }
}

} // verus!
