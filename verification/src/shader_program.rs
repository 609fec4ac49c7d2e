use vstd::prelude::*;

use crate::command::{no_interior_nul, Cmd, GlCommand, ShaderKind};
use crate::gl_model::{allocated_one, released_one, GlModel};
use crate::shader_part::{ShaderPart, STATUS_OK};
use crate::vec2::Vec2i;

verus! {

broadcast use vstd::set::group_set_axioms;

/// Unbinds whatever program is current.
pub fn unbind(gl: &mut GlModel)
    requires
        old(gl).inv(),
    ensures
        final(gl).inv(),
        final(gl).same_objects(old(gl)),
        final(gl).commands() == old(gl).commands().push(Cmd::UseProgram { handle: 0 }),
{
    gl.emit(GlCommand::UseProgram { handle: 0 });
}

/// The calls that attach a list of shader stages to a program, in order.
pub open spec fn attach_trace(program: u64, shaders: Seq<u64>) -> Seq<Cmd>
    decreases shaders.len(),
{
    if shaders.len() == 0 {
        Seq::empty()
    } else {
        attach_trace(program, shaders.drop_last()) + seq![
            Cmd::AttachShader { program, shader: shaders.last() },
        ]
    }
}

/// The calls that link a program from its stages: attach each stage,
/// link, validate.
pub open spec fn link_trace(program: u64, shaders: Seq<u64>) -> Seq<Cmd> {
    attach_trace(program, shaders) + seq![
        Cmd::LinkProgram { handle: program },
        Cmd::ValidateProgram { handle: program },
    ]
}

/// The calls of one whole program setup: create and compile a vertex and
/// a fragment stage, link the program from them, release the stages
/// (once linked, the program no longer needs them).
pub open spec fn shader_setup_trace(
    program: u64,
    vert_part: u64,
    frag_part: u64,
    vert_src: Seq<char>,
    frag_src: Seq<char>,
) -> Seq<Cmd> {
    seq![
        Cmd::CreateShader { handle: vert_part, kind: ShaderKind::Vertex },
        Cmd::ShaderSource { handle: vert_part, source: vert_src },
        Cmd::CompileShader { handle: vert_part },
        Cmd::CreateShader { handle: frag_part, kind: ShaderKind::Fragment },
        Cmd::ShaderSource { handle: frag_part, source: frag_src },
        Cmd::CompileShader { handle: frag_part },
    ] + link_trace(program, seq![vert_part, frag_part]) + seq![
        Cmd::DeleteShader { handle: vert_part },
        Cmd::DeleteShader { handle: frag_part },
    ]
}

proof fn lemma_attach_trace_step(program: u64, shaders: Seq<u64>, i: int)
    requires
        0 <= i < shaders.len(),
    ensures
        attach_trace(program, shaders.take(i + 1)) == attach_trace(program, shaders.take(i))
            + seq![Cmd::AttachShader { program, shader: shaders[i] }],
{
    assert(shaders.take(i + 1).drop_last() =~= shaders.take(i));
    assert(shaders.take(i + 1).last() == shaders[i]);
}

/// A linked shader program: owns one program handle.
pub struct ShaderProgram {
    pub handle: u64,
}

impl ShaderProgram {
    pub fn new(gl: &mut GlModel) -> (r: ShaderProgram)
        requires
            old(gl).inv(),
            old(gl).can_alloc(1),
        ensures
            final(gl).inv(),
            allocated_one(*old(gl), *final(gl), r.handle),
            final(gl).commands() == old(gl).commands().push(
                Cmd::CreateProgram { handle: r.handle },
            ),
    {
        let h = gl.gen_handle();
        gl.emit(GlCommand::CreateProgram { handle: h });
        ShaderProgram { handle: h }
    }

    /// Makes this program current.
    pub fn bind(&self, gl: &mut GlModel)
        requires
            old(gl).inv(),
        ensures
            final(gl).inv(),
            final(gl).same_objects(old(gl)),
            final(gl).commands() == old(gl).commands().push(
                Cmd::UseProgram { handle: self.handle },
            ),
    {
        gl.emit(GlCommand::UseProgram { handle: self.handle });
    }

    /// Configures the program in the standard way: creates and compiles
    /// a vertex and a fragment stage from the given sources, links the
    /// program from them, and releases the stages. Afterwards exactly
    /// the driver objects live before are live again.
    pub fn setup(self, gl: &mut GlModel, vert_source: &str, frag_source: &str) -> (r:
        ShaderProgram)
        requires
            old(gl).inv(),
            old(gl).can_alloc(2),
            no_interior_nul(vert_source@),
            no_interior_nul(frag_source@),
        ensures
            r == self,
            final(gl).inv(),
            final(gl).next_handle == old(gl).next_handle + 2,
            final(gl).live_set() == old(gl).live_set(),
            final(gl).commands() == old(gl).commands() + shader_setup_trace(
                self.handle,
                old(gl).next_handle,
                (old(gl).next_handle + 1) as u64,
                vert_source@,
                frag_source@,
            ),
    {
        let ghost g0 = *gl;
        let mut vert_shader = ShaderPart::new(gl, ShaderKind::Vertex);
        vert_shader.set_source(gl, vert_source);
        vert_shader.compile(gl);
        let mut frag_shader = ShaderPart::new(gl, ShaderKind::Fragment);
        frag_shader.set_source(gl, frag_source);
        frag_shader.compile(gl);
        let ghost vh = vert_shader.handle;
        let ghost fh = frag_shader.handle;
        let mut this = self;
        let mut parts: Vec<ShaderPart> = Vec::new();
        parts.push(vert_shader);
        parts.push(frag_shader);
        this.link_with_parts(gl, &parts);
        proof {
            assert(parts@.map_values(|p: ShaderPart| p.handle) =~= seq![vh, fh]);
        }
        let frag_shader = parts.pop().unwrap();
        let vert_shader = parts.pop().unwrap();
        vert_shader.destroy(gl);
        frag_shader.destroy(gl);
        proof {
            assert(!g0.is_live(vh));
            assert(!g0.is_live(fh)) by {
                if g0.is_live(fh) {
                    let i = choose|i: int| 0 <= i < g0.live@.len() && g0.live@[i] == fh;
                }
            }
            assert(gl.live_set() =~= old(gl).live_set());
            assert(final(gl).commands() =~= old(gl).commands() + shader_setup_trace(
                self.handle,
                old(gl).next_handle,
                (old(gl).next_handle + 1) as u64,
                vert_source@,
                frag_source@,
            ));
        }
        this
    }

    /// Attaches every stage of `parts`, then links and validates.
    /// Whether the link succeeded is read back separately and judged by
    /// `link_log`, `validate_log` and `link_outcome`.
    #[verifier::loop_isolation(false)]
    pub fn link_with_parts(&mut self, gl: &mut GlModel, parts: &Vec<ShaderPart>)
        requires
            old(gl).inv(),
        ensures
            *final(self) == *old(self),
            final(gl).inv(),
            final(gl).same_objects(old(gl)),
            final(gl).commands() == old(gl).commands() + link_trace(
                old(self).handle,
                parts@.map_values(|p: ShaderPart| p.handle),
            ),
    {
        let ghost handles = parts@.map_values(|p: ShaderPart| p.handle);
        let mut i: usize = 0;
        while i < parts.len()
            invariant
                i <= parts@.len(),
                gl.inv(),
                gl.same_objects(old(gl)),
                gl.commands() == old(gl).commands() + attach_trace(
                    self.handle,
                    handles.take(i as int),
                ),
            decreases parts@.len() - i,
        {
            let shader = parts[i].handle();
            gl.emit(GlCommand::AttachShader { program: self.handle, shader });
            proof {
                lemma_attach_trace_step(self.handle, handles, i as int);
                assert(gl.commands() =~= old(gl).commands() + attach_trace(
                    self.handle,
                    handles.take(i as int + 1),
                ));
            }
            i = i + 1;
        }
        gl.emit(GlCommand::LinkProgram { handle: self.handle });
        gl.emit(GlCommand::ValidateProgram { handle: self.handle });
        proof {
            assert(handles.take(handles.len() as int) =~= handles);
            assert(final(gl).commands() =~= old(gl).commands() + link_trace(
                old(self).handle,
                handles,
            ));
        }
    }

    /// Judges a link from the status code and diagnostic text the driver
    /// reported: the diagnostic comes back exactly when the status is
    /// not the success code.
    pub fn link_log(status_code: i32, info_log: String) -> (r: Option<String>)
        ensures
            r is Some <==> status_code != STATUS_OK,
            r matches Some(l) ==> l == info_log,
    {
        if status_code != STATUS_OK {
            Some(info_log)
        } else {
            None
        }
    }

    /// Judges a validation in the same way as `link_log`.
    pub fn validate_log(status_code: i32, info_log: String) -> (r: Option<String>)
        ensures
            r is Some <==> status_code != STATUS_OK,
            r matches Some(l) ==> l == info_log,
    {
        if status_code != STATUS_OK {
            Some(info_log)
        } else {
            None
        }
    }

    /// Judges link and validation together, as one result: a failed link
    /// reports the link diagnostic; a link that succeeded but failed
    /// validation reports the validation diagnostic.
    pub fn link_outcome(
        link_status: i32,
        link_info: String,
        validate_status: i32,
        validate_info: String,
    ) -> (r: Result<(), String>)
        ensures
            r is Ok <==> link_status == STATUS_OK && validate_status == STATUS_OK,
            r matches Err(e) ==> (if link_status != STATUS_OK {
                e == link_info
            } else {
                e == validate_info
            }),
    {
        if let Some(err_log) = Self::link_log(link_status, link_info) {
            return Err(err_log);
        }
        if let Some(err_log) = Self::validate_log(validate_status, validate_info) {
            return Err(err_log);
        }
        Ok(())
    }

    /// Sets a boolean uniform, encoded as the driver's 0 or 1.
    pub fn set_bool(&self, gl: &mut GlModel, name: &str, value: bool)
        requires
            old(gl).inv(),
            no_interior_nul(name@),
        ensures
            final(gl).inv(),
            final(gl).same_objects(old(gl)),
            final(gl).commands() == old(gl).commands().push(
                Cmd::Uniform1i {
                    program: self.handle,
                    name: name@,
                    value: if value {
                        1int
                    } else {
                        0int
                    } as i32,
                },
            ),
    {
        let gl_value: i32 = if value {
            1
        } else {
            0
        };
        gl.emit(GlCommand::Uniform1i {
            program: self.handle,
            name: name.to_owned(),
            value: gl_value,
        });
    }

    /// Sets an integer uniform.
    pub fn set_int(&self, gl: &mut GlModel, name: &str, value: i32)
        requires
            old(gl).inv(),
            no_interior_nul(name@),
        ensures
            final(gl).inv(),
            final(gl).same_objects(old(gl)),
            final(gl).commands() == old(gl).commands().push(
                Cmd::Uniform1i { program: self.handle, name: name@, value },
            ),
    {
        gl.emit(GlCommand::Uniform1i { program: self.handle, name: name.to_owned(), value });
    }

    /// Sets a two-component integer uniform.
    pub fn set_vec2i(&self, gl: &mut GlModel, name: &str, value: Vec2i)
        requires
            old(gl).inv(),
            no_interior_nul(name@),
        ensures
            final(gl).inv(),
            final(gl).same_objects(old(gl)),
            final(gl).commands() == old(gl).commands().push(
                Cmd::Uniform2i { program: self.handle, name: name@, x: value.x, y: value.y },
            ),
    {
        gl.emit(GlCommand::Uniform2i {
            program: self.handle,
            name: name.to_owned(),
            x: value.x,
            y: value.y,
        });
    }

    /// Releases the program object. Consuming the wrapper means the
    /// handle can be released at most once.
    pub fn destroy(self, gl: &mut GlModel)
        requires
            old(gl).inv(),
        ensures
            final(gl).inv(),
            released_one(*old(gl), *final(gl), self.handle),
            final(gl).commands() == old(gl).commands().push(
                Cmd::DeleteProgram { handle: self.handle },
            ),
    {
        gl.emit(GlCommand::DeleteProgram { handle: self.handle });
        gl.free(self.handle);
    }
}

} // verus!
