use vstd::prelude::*;

use crate::command::{BufferTarget, BufferUsage, Cmd, GlCommand};
use crate::gl_model::{allocated_one, released_one, GlModel};

verus! {

/// Unbinds whatever buffer object is bound to `target`.
pub fn unbind(gl: &mut GlModel, target: BufferTarget)
    requires
        old(gl).inv(),
    ensures
        final(gl).inv(),
        final(gl).same_objects(old(gl)),
        final(gl).commands() == old(gl).commands().push(
            Cmd::BindBuffer { target, handle: 0 },
        ),
{
    gl.emit(GlCommand::BindBuffer { target, handle: 0 });
}

/// Hands `data` to the driver for the buffer bound to `target`.
pub fn copy_data_to_bound_target(
    gl: &mut GlModel,
    target: BufferTarget,
    data: Vec<u32>,
    usage: BufferUsage,
)
    requires
        old(gl).inv(),
    ensures
        final(gl).inv(),
        final(gl).same_objects(old(gl)),
        final(gl).commands() == old(gl).commands().push(
            Cmd::BufferData { target, data: data@, usage },
        ),
{
    gl.emit(GlCommand::BufferData { target, data, usage });
}

/// Hands `data` to the driver with the static-draw usage hint.
pub fn copy_data_to_bound_target_static(gl: &mut GlModel, target: BufferTarget, data: Vec<u32>)
    requires
        old(gl).inv(),
    ensures
        final(gl).inv(),
        final(gl).same_objects(old(gl)),
        final(gl).commands() == old(gl).commands().push(
            Cmd::BufferData { target, data: data@, usage: BufferUsage::StaticDraw },
        ),
{
    copy_data_to_bound_target(gl, target, data, BufferUsage::StaticDraw);
}

/// Allocates one buffer object and returns its handle.
pub fn create_buffer(gl: &mut GlModel) -> (h: u64)
    requires
        old(gl).inv(),
        old(gl).can_alloc(1),
    ensures
        final(gl).inv(),
        allocated_one(*old(gl), *final(gl), h),
        final(gl).commands() == old(gl).commands().push(Cmd::GenBuffer { handle: h }),
{
    let h = gl.gen_handle();
    gl.emit(GlCommand::GenBuffer { handle: h });
    h
}

/// Releases the buffer object named by `handle`.
pub fn delete_buffer(gl: &mut GlModel, handle: u64)
    requires
        old(gl).inv(),
    ensures
        final(gl).inv(),
        released_one(*old(gl), *final(gl), handle),
        final(gl).commands() == old(gl).commands().push(Cmd::DeleteBuffer { handle }),
{
    gl.emit(GlCommand::DeleteBuffer { handle });
    gl.free(handle);
}

} // verus!
