use vstd::prelude::*;

use crate::command::{no_interior_nul, Cmd, GlCommand, ShaderKind};
use crate::gl_model::{allocated_one, released_one, GlModel};

verus! {

/// The status code with which the driver reports a successful compile,
/// link, or validation.
pub const STATUS_OK: i32 = 1;

/// One shader stage: owns one shader handle.
pub struct ShaderPart {
    pub handle: u64,
}

impl ShaderPart {
    pub fn new(gl: &mut GlModel, kind: ShaderKind) -> (r: ShaderPart)
        requires
            old(gl).inv(),
            old(gl).can_alloc(1),
        ensures
            final(gl).inv(),
            allocated_one(*old(gl), *final(gl), r.handle),
            final(gl).commands() == old(gl).commands().push(
                Cmd::CreateShader { handle: r.handle, kind },
            ),
    {
        let h = gl.gen_handle();
        gl.emit(GlCommand::CreateShader { handle: h, kind });
        ShaderPart { handle: h }
    }

    pub fn handle(&self) -> (r: u64)
        ensures
            r == self.handle,
    {
        self.handle
    }

    /// Hands the stage its source text. The driver takes a C string, so
    /// the text must be free of interior NUL characters.
    pub fn set_source(&mut self, gl: &mut GlModel, source: &str)
        requires
            old(gl).inv(),
            no_interior_nul(source@),
        ensures
            *final(self) == *old(self),
            final(gl).inv(),
            final(gl).same_objects(old(gl)),
            final(gl).commands() == old(gl).commands().push(
                Cmd::ShaderSource { handle: old(self).handle, source: source@ },
            ),
    {
        gl.emit(GlCommand::ShaderSource { handle: self.handle, source: source.to_owned() });
    }

    /// Asks the driver to compile the stage. Whether the compile
    /// succeeded is read back separately and judged by `compile_log`.
    pub fn compile(&mut self, gl: &mut GlModel)
        requires
            old(gl).inv(),
        ensures
            *final(self) == *old(self),
            final(gl).inv(),
            final(gl).same_objects(old(gl)),
            final(gl).commands() == old(gl).commands().push(
                Cmd::CompileShader { handle: old(self).handle },
            ),
    {
        gl.emit(GlCommand::CompileShader { handle: self.handle });
    }

    /// Judges a compile from the status code and diagnostic text the
    /// driver reported: the diagnostic comes back exactly when the
    /// status is not the success code.
    pub fn compile_log(status_code: i32, info_log: String) -> (r: Option<String>)
        ensures
            r is Some <==> status_code != STATUS_OK,
            r matches Some(l) ==> l == info_log,
    {
        if status_code != STATUS_OK {
            Some(info_log)
        } else {
            None
        }
    }

    /// Judges a compile as a result: the error carries the driver's
    /// diagnostic exactly when the status is not the success code.
    pub fn compile_outcome(status_code: i32, info_log: String) -> (r: Result<(), String>)
        ensures
            r is Ok <==> status_code == STATUS_OK,
            r matches Err(e) ==> e == info_log,
    {
        match Self::compile_log(status_code, info_log) {
            Some(err_log) => Err(err_log),
            None => Ok(()),
        }
    }

    /// Releases the shader object. Consuming the wrapper means the
    /// handle can be released at most once.
    pub fn destroy(self, gl: &mut GlModel)
        requires
            old(gl).inv(),
        ensures
            final(gl).inv(),
            released_one(*old(gl), *final(gl), self.handle),
            final(gl).commands() == old(gl).commands().push(
                Cmd::DeleteShader { handle: self.handle },
            ),
    {
        gl.emit(GlCommand::DeleteShader { handle: self.handle });
        gl.free(self.handle);
    }
}

} // verus!
