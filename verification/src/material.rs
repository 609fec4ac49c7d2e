use vstd::prelude::*;

use crate::command::Cmd;
use crate::gl_model::GlModel;
use crate::shader_program;
use crate::shader_program::ShaderProgram;
use crate::textured::{textures_bind_trace, textures_delete_trace, textures_unbind_trace, TexturedMaterial};

verus! {

broadcast use vstd::set::group_set_axioms;

/// A material that binds a shader program alone.
pub struct BasicMaterial {
    pub shader_program: ShaderProgram,
}

impl BasicMaterial {
    pub fn new(shader_program: ShaderProgram) -> (r: BasicMaterial)
        ensures
            r.shader_program == shader_program,
    {
        BasicMaterial { shader_program }
    }

    /// Makes the material's program current.
    pub fn bind(&self, gl: &mut GlModel)
        requires
            old(gl).inv(),
        ensures
            final(gl).inv(),
            final(gl).same_objects(old(gl)),
            final(gl).commands() == old(gl).commands().push(
                Cmd::UseProgram { handle: self.shader_program.handle },
            ),
    {
        self.shader_program.bind(gl);
    }

    /// Releases the program binding.
    pub fn unbind(&self, gl: &mut GlModel)
        requires
            old(gl).inv(),
        ensures
            final(gl).inv(),
            final(gl).same_objects(old(gl)),
            final(gl).commands() == old(gl).commands().push(Cmd::UseProgram { handle: 0 }),
    {
        shader_program::unbind(gl);
    }

    pub fn shader_program(&self) -> (r: &ShaderProgram)
        ensures
            r == self.shader_program,
    {
        &self.shader_program
    }

    /// Releases the program the material owns.
    pub fn destroy(self, gl: &mut GlModel)
        requires
            old(gl).inv(),
        ensures
            final(gl).inv(),
            crate::gl_model::released_one(*old(gl), *final(gl), self.shader_program.handle),
            final(gl).commands() == old(gl).commands().push(
                Cmd::DeleteProgram { handle: self.shader_program.handle },
            ),
    {
        self.shader_program.destroy(gl);
    }
}

/// A material that carries no driver state at all; binding it is a
/// programmer error. It stands in where a mesh needs a material that is
/// never meant to be drawn with.
pub struct MockMaterial;

/// A material: what a mesh is drawn with. Binding activates the shader
/// program and, for the textured kind, every texture in list order;
/// unbinding releases them in the same order.
pub enum Material {
    Basic(BasicMaterial),
    Textured(TexturedMaterial),
    Mock(MockMaterial),
}

impl Material {
    /// Bindable: not the mock, and any textures well formed and within
    /// the unit count.
    pub open spec fn is_bindable(&self) -> bool {
        match self {
            Material::Basic(_) => true,
            Material::Textured(t) => t.bindable(),
            Material::Mock(_) => false,
        }
    }

    /// The handle of the material's program; the mock has none.
    pub open spec fn program_handle(&self) -> u64
        recommends
            !(self is Mock),
    {
        match self {
            Material::Basic(b) => b.shader_program.handle,
            Material::Textured(t) => t.shader_program.handle,
            Material::Mock(_) => 0,
        }
    }

    /// The calls that bind this material.
    pub open spec fn bind_trace(&self) -> Seq<Cmd>
        recommends
            self.is_bindable(),
    {
        match self {
            Material::Basic(b) => seq![Cmd::UseProgram { handle: b.shader_program.handle }],
            Material::Textured(t) => seq![
                Cmd::UseProgram { handle: t.shader_program.handle },
            ] + textures_bind_trace(t.textures@),
            Material::Mock(_) => Seq::empty(),
        }
    }

    /// The calls that unbind this material.
    pub open spec fn unbind_trace(&self) -> Seq<Cmd>
        recommends
            self.is_bindable(),
    {
        match self {
            Material::Basic(_) => seq![Cmd::UseProgram { handle: 0 }],
            Material::Textured(t) => textures_unbind_trace(t.textures@.len()) + seq![
                Cmd::UseProgram { handle: 0 },
            ],
            Material::Mock(_) => Seq::empty(),
        }
    }

    /// Binds the material: program first, then any textures.
    pub fn bind(&self, gl: &mut GlModel)
        requires
            old(gl).inv(),
            self.is_bindable(),
        ensures
            final(gl).inv(),
            final(gl).same_objects(old(gl)),
            final(gl).commands() == old(gl).commands() + self.bind_trace(),
    {
        match self {
            Material::Basic(b) => {
                b.bind(gl);
                proof {
                    assert(final(gl).commands() =~= old(gl).commands() + self.bind_trace());
                }
            },
            Material::Textured(t) => t.bind(gl),
            Material::Mock(_) => vstd::pervasive::unreached(),
        }
    }

    /// Unbinds the material: any textures first, then the program.
    pub fn unbind(&self, gl: &mut GlModel)
        requires
            old(gl).inv(),
            self.is_bindable(),
        ensures
            final(gl).inv(),
            final(gl).same_objects(old(gl)),
            final(gl).commands() == old(gl).commands() + self.unbind_trace(),
    {
        match self {
            Material::Basic(b) => {
                b.unbind(gl);
                proof {
                    assert(final(gl).commands() =~= old(gl).commands() + self.unbind_trace());
                }
            },
            Material::Textured(t) => t.unbind(gl),
            Material::Mock(_) => vstd::pervasive::unreached(),
        }
    }

    /// Whether `x` is the handle of a driver object this material owns.
    pub open spec fn owns_handle(&self, x: u64) -> bool {
        match self {
            Material::Basic(b) => x == b.shader_program.handle,
            Material::Textured(t) => t.owns_handle(x),
            Material::Mock(_) => false,
        }
    }

    /// The set of handles of the driver objects this material owns.
    pub open spec fn owned_set(&self) -> Set<u64> {
        Set::new(|x: u64| self.owns_handle(x))
    }

    /// The calls that release every driver object the material owns:
    /// the textures from the last to the first, then the program; the
    /// mock releases nothing.
    pub open spec fn delete_trace(&self) -> Seq<Cmd> {
        match self {
            Material::Basic(b) => seq![
                Cmd::DeleteProgram { handle: b.shader_program.handle },
            ],
            Material::Textured(t) => textures_delete_trace(t.textures@) + seq![
                Cmd::DeleteProgram { handle: t.shader_program.handle },
            ],
            Material::Mock(_) => Seq::empty(),
        }
    }

    /// Releases every driver object the material owns; the mock owns
    /// none and releases nothing.
    pub fn destroy(self, gl: &mut GlModel)
        requires
            old(gl).inv(),
        ensures
            final(gl).inv(),
            final(gl).next_handle == old(gl).next_handle,
            final(gl).live_set() == old(gl).live_set().difference(self.owned_set()),
            final(gl).commands() == old(gl).commands() + self.delete_trace(),
    {
        match self {
            Material::Basic(b) => {
                let ghost m = b;
                b.destroy(gl);
                proof {
                    assert(gl.live_set() =~= old(gl).live_set().difference(self.owned_set()));
                    assert(gl.commands() =~= old(gl).commands() + self.delete_trace());
                }
            },
            Material::Textured(t) => {
                let ghost tm = t;
                t.destroy(gl);
                proof {
                    assert forall|x: u64|
                        gl.live_set().contains(x) <==> (old(gl).live_set().contains(x)
                            && !self.owned_set().contains(x)) by {
                        assert(tm.owned_set().contains(x) <==> tm.owns_handle(x));
                        assert(self.owns_handle(x) <==> tm.owns_handle(x));
                    }
                    assert(gl.live_set() =~= old(gl).live_set().difference(self.owned_set()));
                    assert(gl.commands() =~= old(gl).commands() + self.delete_trace());
                }
            },
            Material::Mock(_) => {
                proof {
                    assert(gl.live_set() =~= old(gl).live_set().difference(self.owned_set()));
                    assert(gl.commands() =~= old(gl).commands() + self.delete_trace());
                }
            },
        }
    }

    /// The material's shader program, for uniform updates; the mock
    /// carries none.
    pub fn shader_program(&self) -> (r: Option<&ShaderProgram>)
        ensures
            match r {
                Some(p) => !(self is Mock) && p.handle == self.program_handle(),
                None => self is Mock,
            },
    {
        match self {
            Material::Basic(b) => Some(b.shader_program()),
            Material::Textured(t) => Some(t.shader_program()),
            Material::Mock(_) => None,
        }
    }
}

} // verus!
