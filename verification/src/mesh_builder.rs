use vstd::prelude::*;

use crate::command::{Cmd, PrimitiveMode};
use crate::ebo::{ebo_setup_trace, Ebo};
use crate::gl_model::GlModel;
use crate::material::Material;
use crate::mesh::{DrawMode, Mesh};
use crate::vao;
use crate::vao::{vao_attach_trace, Vao};
use crate::vbo::{VboConfig, Vbo};

verus! {

broadcast use vstd::set::group_set_axioms;

/// A fluent mesh builder: creates the vertex array eagerly, accumulates
/// configured vertex buffers, an optional index buffer, a primitive
/// mode, a vertex count, and a material.
pub struct MeshBuilder {
    pub material: Option<Material>,
    pub vao: Vao,
    pub vbos: Vec<Vbo>,
    pub primitive_mode: Option<PrimitiveMode>,
    pub vertex_count: Option<i32>,
    pub ebo: Option<Ebo>,
}

impl MeshBuilder {
    pub fn new(gl: &mut GlModel) -> (r: MeshBuilder)
        requires
            old(gl).inv(),
            old(gl).can_alloc(1),
        ensures
            final(gl).inv(),
            crate::gl_model::allocated_one(*old(gl), *final(gl), r.vao.handle),
            final(gl).commands() == old(gl).commands().push(
                Cmd::GenVertexArray { handle: r.vao.handle },
            ),
            r.material is None,
            r.vbos@.len() == 0,
            r.primitive_mode is None,
            r.vertex_count is None,
            r.ebo is None,
    {
        MeshBuilder {
            material: None,
            vao: Vao::new(gl),
            vbos: Vec::new(),
            primitive_mode: None,
            vertex_count: None,
            ebo: None,
        }
    }

    pub fn set_material(self, material: Material) -> (r: MeshBuilder)
        ensures
            r == (MeshBuilder { material: Some(material), ..self }),
    {
        MeshBuilder { material: Some(material), ..self }
    }

    /// Creates one vertex buffer, configures it under the builder's
    /// vertex array, and keeps it.
    pub fn add_vbo(self, gl: &mut GlModel, config: VboConfig) -> (r: MeshBuilder)
        requires
            old(gl).inv(),
            old(gl).can_alloc(1),
            config.wf(),
        ensures
            final(gl).inv(),
            r.vbos@.len() == self.vbos@.len() + 1,
            r.vbos@ == self.vbos@.push(r.vbos@.last()),
            crate::gl_model::allocated_one(*old(gl), *final(gl), r.vbos@.last().handle),
            r == (MeshBuilder { vbos: r.vbos, ..self }),
            final(gl).commands() == old(gl).commands() + vao_attach_trace(
                self.vao.handle,
                r.vbos@.last().handle,
                config.data@,
                config.attribs@,
            ),
    {
        let mut this = self;
        this.vao.bind(gl);
        let vbo = Vbo::new(gl);
        let vbo = vbo.setup(gl, config);
        vao::unbind(gl);
        this.vbos.push(vbo);
        proof {
            assert(final(gl).commands() =~= old(gl).commands() + vao_attach_trace(
                self.vao.handle,
                vbo.handle,
                config.data@,
                config.attribs@,
            ));
        }
        this
    }

    pub fn set_vertex_count(self, vertex_count: i32) -> (r: MeshBuilder)
        ensures
            r == (MeshBuilder { vertex_count: Some(vertex_count), ..self }),
    {
        MeshBuilder { vertex_count: Some(vertex_count), ..self }
    }

    pub fn set_primitive_mode(self, primitive_mode: PrimitiveMode) -> (r: MeshBuilder)
        ensures
            r == (MeshBuilder { primitive_mode: Some(primitive_mode), ..self }),
    {
        MeshBuilder { primitive_mode: Some(primitive_mode), ..self }
    }

    /// Creates an index buffer holding `indices` and records their count
    /// as the vertex count.
    pub fn set_indices(self, gl: &mut GlModel, indices: Vec<u32>) -> (r: MeshBuilder)
        requires
            old(gl).inv(),
            old(gl).can_alloc(1),
            indices@.len() <= i32::MAX,
        ensures
            final(gl).inv(),
            r.ebo matches Some(e) && crate::gl_model::allocated_one(
                *old(gl),
                *final(gl),
                e.handle,
            ),
            r.vertex_count == Some(indices@.len() as i32),
            r.material == self.material,
            r.vao == self.vao,
            r.vbos == self.vbos,
            r.primitive_mode == self.primitive_mode,
            final(gl).commands() == old(gl).commands().push(
                Cmd::GenBuffer { handle: r.ebo->Some_0.handle },
            ) + ebo_setup_trace(r.ebo->Some_0.handle, indices@),
    {
        let mut this = self;
        let count = indices.len();
        let ebo = Ebo::new(gl);
        let ebo = ebo.setup(gl, indices);
        proof {
            assert(final(gl).commands() =~= old(gl).commands().push(
                Cmd::GenBuffer { handle: ebo.handle },
            ) + ebo_setup_trace(ebo.handle, indices@));
        }
        this.ebo = Some(ebo);
        this.vertex_count = Some(count as i32);
        this
    }

    /// Assembles the mesh. The primitive mode, the vertex count, and the
    /// material must all have been set.
    pub fn build(self) -> (r: Mesh)
        requires
            self.primitive_mode is Some,
            self.vertex_count is Some,
            self.material is Some,
        ensures
            r.vao == self.vao,
            r.vbos == self.vbos,
            r.material == self.material->Some_0,
            r.draw_mode == (match self.ebo {
                Some(ebo) => DrawMode::Elements {
                    ebo,
                    elements_mode: self.primitive_mode->Some_0,
                    vertices: self.vertex_count->Some_0,
                },
                None => DrawMode::Arrays {
                    array_mode: self.primitive_mode->Some_0,
                    vertices: self.vertex_count->Some_0,
                },
            }),
    {
        let MeshBuilder { material, vao, vbos, primitive_mode, vertex_count, ebo } = self;
        let primitive_mode = primitive_mode.unwrap();
        let vertices = vertex_count.unwrap();
        let draw_mode = match ebo {
            Some(ebo) => DrawMode::Elements { ebo, elements_mode: primitive_mode, vertices },
            None => DrawMode::Arrays { array_mode: primitive_mode, vertices },
        };
        Mesh::new(vao, vbos, material.unwrap(), draw_mode)
    }
}

} // verus!
