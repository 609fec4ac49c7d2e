use vstd::prelude::*;

use crate::command::{Cmd, GlCommand};
use crate::gl_model::{allocated_one, released_one, GlModel};
use crate::vbo::{vbo_setup_trace, VboConfig, Vbo, VertexAttrib};

verus! {

broadcast use vstd::set::group_set_axioms;

/// Unbinds whatever vertex array is current.
pub fn unbind(gl: &mut GlModel)
    requires
        old(gl).inv(),
    ensures
        final(gl).inv(),
        final(gl).same_objects(old(gl)),
        final(gl).commands() == old(gl).commands().push(Cmd::BindVertexArray { handle: 0 }),
{
    gl.emit(GlCommand::BindVertexArray { handle: 0 });
}

/// The calls that attach one configured vertex buffer to a vertex array:
/// bind the array, create the buffer, set it up, unbind the array.
pub open spec fn vao_attach_trace(
    vao: u64,
    vbo: u64,
    data: Seq<u32>,
    attribs: Seq<VertexAttrib>,
) -> Seq<Cmd> {
    seq![Cmd::BindVertexArray { handle: vao }, Cmd::GenBuffer { handle: vbo }]
        + vbo_setup_trace(vbo, data, attribs) + seq![Cmd::BindVertexArray { handle: 0 }]
}

/// A vertex array object: owns one vertex-array handle.
pub struct Vao {
    pub handle: u64,
}

impl Vao {
    pub fn new(gl: &mut GlModel) -> (r: Vao)
        requires
            old(gl).inv(),
            old(gl).can_alloc(1),
        ensures
            final(gl).inv(),
            allocated_one(*old(gl), *final(gl), r.handle),
            final(gl).commands() == old(gl).commands().push(
                Cmd::GenVertexArray { handle: r.handle },
            ),
    {
        let h = gl.gen_handle();
        gl.emit(GlCommand::GenVertexArray { handle: h });
        Vao { handle: h }
    }

    /// Makes this vertex array current.
    pub fn bind(&self, gl: &mut GlModel)
        requires
            old(gl).inv(),
        ensures
            final(gl).inv(),
            final(gl).same_objects(old(gl)),
            final(gl).commands() == old(gl).commands().push(
                Cmd::BindVertexArray { handle: self.handle },
            ),
    {
        gl.emit(GlCommand::BindVertexArray { handle: self.handle });
    }

    /// Binds the array, creates and configures one vertex buffer under
    /// it, and unbinds the array, so nothing is left bound afterwards.
    pub fn setup(self, gl: &mut GlModel, config: VboConfig) -> (r: (Vao, Vbo))
        requires
            old(gl).inv(),
            old(gl).can_alloc(1),
            config.wf(),
        ensures
            r.0 == self,
            final(gl).inv(),
            allocated_one(*old(gl), *final(gl), r.1.handle),
            final(gl).commands() == old(gl).commands() + vao_attach_trace(
                self.handle,
                r.1.handle,
                config.data@,
                config.attribs@,
            ),
    {
        self.bind(gl);
        let vbo = Vbo::new(gl);
        let vbo = vbo.setup(gl, config);
        unbind(gl);
        proof {
            assert(final(gl).commands() =~= old(gl).commands() + vao_attach_trace(
                self.handle,
                vbo.handle,
                config.data@,
                config.attribs@,
            ));
        }
        (self, vbo)
    }

    /// Releases the vertex array object. Consuming the wrapper means the
    /// handle can be released at most once.
    pub fn destroy(self, gl: &mut GlModel)
        requires
            old(gl).inv(),
        ensures
            final(gl).inv(),
            released_one(*old(gl), *final(gl), self.handle),
            final(gl).commands() == old(gl).commands().push(
                Cmd::DeleteVertexArray { handle: self.handle },
            ),
    {
        gl.emit(GlCommand::DeleteVertexArray { handle: self.handle });
        gl.free(self.handle);
    }
}

} // verus!
