use vstd::prelude::*;

use crate::buffers;
use crate::command::{BufferTarget, BufferUsage, Cmd, GlCommand};
use crate::gl_model::{allocated_one, released_one, GlModel};

verus! {

/// The calls of one whole index-buffer setup: bind, upload, unbind.
pub open spec fn ebo_setup_trace(h: u64, data: Seq<u32>) -> Seq<Cmd> {
    seq![
        Cmd::BindBuffer { target: BufferTarget::ElementArray, handle: h },
        Cmd::BufferData {
            target: BufferTarget::ElementArray,
            data,
            usage: BufferUsage::StaticDraw,
        },
        Cmd::BindBuffer { target: BufferTarget::ElementArray, handle: 0 },
    ]
}

/// An element (index) buffer object: owns one buffer handle.
pub struct Ebo {
    pub handle: u64,
}

impl Ebo {
    pub fn new(gl: &mut GlModel) -> (r: Ebo)
        requires
            old(gl).inv(),
            old(gl).can_alloc(1),
        ensures
            final(gl).inv(),
            allocated_one(*old(gl), *final(gl), r.handle),
            final(gl).commands() == old(gl).commands().push(
                Cmd::GenBuffer { handle: r.handle },
            ),
    {
        Ebo { handle: buffers::create_buffer(gl) }
    }

    /// Makes this buffer current on the index target.
    pub fn bind(&self, gl: &mut GlModel)
        requires
            old(gl).inv(),
        ensures
            final(gl).inv(),
            final(gl).same_objects(old(gl)),
            final(gl).commands() == old(gl).commands().push(
                Cmd::BindBuffer { target: BufferTarget::ElementArray, handle: self.handle },
            ),
    {
        gl.emit(GlCommand::BindBuffer {
            target: BufferTarget::ElementArray,
            handle: self.handle,
        });
    }

    /// Binds the buffer, uploads the indices, and unbinds, so nothing is
    /// left bound afterwards.
    pub fn setup(self, gl: &mut GlModel, data: Vec<u32>) -> (r: Ebo)
        requires
            old(gl).inv(),
        ensures
            r == self,
            final(gl).inv(),
            final(gl).same_objects(old(gl)),
            final(gl).commands() == old(gl).commands() + ebo_setup_trace(self.handle, data@),
    {
        let mut this = self;
        this.bind(gl);
        this.copy_data_static(gl, data);
        buffers::unbind(gl, BufferTarget::ElementArray);
        proof {
            assert(final(gl).commands() =~= old(gl).commands() + ebo_setup_trace(
                self.handle,
                data@,
            ));
        }
        this
    }

    /// Hands `data` to the driver for the currently bound index buffer.
    pub fn copy_data(&mut self, gl: &mut GlModel, data: Vec<u32>, usage: BufferUsage)
        requires
            old(gl).inv(),
        ensures
            *final(self) == *old(self),
            final(gl).inv(),
            final(gl).same_objects(old(gl)),
            final(gl).commands() == old(gl).commands().push(
                Cmd::BufferData { target: BufferTarget::ElementArray, data: data@, usage },
            ),
    {
        buffers::copy_data_to_bound_target(gl, BufferTarget::ElementArray, data, usage);
    }

    /// As `copy_data`, with the static-draw usage hint.
    pub fn copy_data_static(&mut self, gl: &mut GlModel, data: Vec<u32>)
        requires
            old(gl).inv(),
        ensures
            *final(self) == *old(self),
            final(gl).inv(),
            final(gl).same_objects(old(gl)),
            final(gl).commands() == old(gl).commands().push(
                Cmd::BufferData {
                    target: BufferTarget::ElementArray,
                    data: data@,
                    usage: BufferUsage::StaticDraw,
                },
            ),
    {
        buffers::copy_data_to_bound_target_static(gl, BufferTarget::ElementArray, data);
    }

    /// Releases the buffer object. Consuming the wrapper means the
    /// handle can be released at most once.
    pub fn destroy(self, gl: &mut GlModel)
        requires
            old(gl).inv(),
        ensures
            final(gl).inv(),
            released_one(*old(gl), *final(gl), self.handle),
            final(gl).commands() == old(gl).commands().push(
                Cmd::DeleteBuffer { handle: self.handle },
            ),
    {
        buffers::delete_buffer(gl, self.handle);
    }
}

} // verus!
