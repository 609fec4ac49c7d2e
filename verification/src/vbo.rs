use vstd::prelude::*;

use crate::buffers;
use crate::command::{BufferTarget, BufferUsage, Cmd, GlCommand};
use crate::gl_model::{allocated_one, released_one, GlModel};

verus! {

/// One vertex attribute declared over a buffer: `components` consecutive
/// 32-bit words per vertex, fed to shader input `location`.
#[derive(Clone, Copy, Debug, PartialEq, Eq, Structural)]
pub struct VertexAttrib {
    pub location: u32,
    pub components: u32,
    pub normalized: bool,
}

/// Everything a vertex buffer is configured with while it is bound: its
/// contents, as 32-bit words, and the attributes declared over it.
#[derive(Clone, Debug, PartialEq, Eq)]
pub struct VboConfig {
    pub data: Vec<u32>,
    pub attribs: Vec<VertexAttrib>,
}

impl VboConfig {
    /// Attribute strides (four bytes per component) stay in range.
    pub open spec fn wf(&self) -> bool {
        forall|k: int|
            0 <= k < self.attribs@.len() ==> #[trigger] self.attribs@[k].components
                <= 0x3fff_ffff
    }
}

/// The two calls that declare one vertex attribute: a pointer with a
/// packed stride of four bytes per component, then its enable.
pub open spec fn attrib_pair(a: VertexAttrib) -> Seq<Cmd> {
    seq![
        Cmd::VertexAttribPointer {
            location: a.location,
            components: a.components,
            normalized: a.normalized,
            stride: (a.components * 4) as u32,
        },
        Cmd::SetVertexAttribEnabled { location: a.location, enabled: true },
    ]
}

/// The calls that declare a list of vertex attributes, in order.
pub open spec fn attrib_trace(attribs: Seq<VertexAttrib>) -> Seq<Cmd>
    decreases attribs.len(),
{
    if attribs.len() == 0 {
        Seq::empty()
    } else {
        attrib_trace(attribs.drop_last()) + attrib_pair(attribs.last())
    }
}

/// The calls of one whole vertex-buffer setup: bind, upload, declare
/// each attribute, unbind, in that order.
pub open spec fn vbo_setup_trace(h: u64, data: Seq<u32>, attribs: Seq<VertexAttrib>) -> Seq<Cmd> {
    seq![
        Cmd::BindBuffer { target: BufferTarget::Array, handle: h },
        Cmd::BufferData {
            target: BufferTarget::Array,
            data,
            usage: BufferUsage::StaticDraw,
        },
    ] + attrib_trace(attribs) + seq![
        Cmd::BindBuffer { target: BufferTarget::Array, handle: 0 },
    ]
}

proof fn lemma_attrib_trace_step(attribs: Seq<VertexAttrib>, i: int)
    requires
        0 <= i < attribs.len(),
    ensures
        attrib_trace(attribs.take(i + 1)) == attrib_trace(attribs.take(i)) + attrib_pair(
            attribs[i],
        ),
{
    assert(attribs.take(i + 1).drop_last() =~= attribs.take(i));
    assert(attribs.take(i + 1).last() == attribs[i]);
}

/// A vertex buffer object: owns one buffer handle.
pub struct Vbo {
    pub handle: u64,
}

impl Vbo {
    pub fn new(gl: &mut GlModel) -> (r: Vbo)
        requires
            old(gl).inv(),
            old(gl).can_alloc(1),
        ensures
            final(gl).inv(),
            allocated_one(*old(gl), *final(gl), r.handle),
            final(gl).commands() == old(gl).commands().push(
                Cmd::GenBuffer { handle: r.handle },
            ),
    {
        Vbo { handle: buffers::create_buffer(gl) }
    }

    /// Makes this buffer current on the vertex-data target.
    pub fn bind(&self, gl: &mut GlModel)
        requires
            old(gl).inv(),
        ensures
            final(gl).inv(),
            final(gl).same_objects(old(gl)),
            final(gl).commands() == old(gl).commands().push(
                Cmd::BindBuffer { target: BufferTarget::Array, handle: self.handle },
            ),
    {
        gl.emit(GlCommand::BindBuffer { target: BufferTarget::Array, handle: self.handle });
    }

    /// Binds the buffer, uploads its contents, declares every attribute
    /// of `config`, and unbinds, so nothing is left bound afterwards.
    #[verifier::loop_isolation(false)]
    pub fn setup(self, gl: &mut GlModel, config: VboConfig) -> (r: Vbo)
        requires
            old(gl).inv(),
            config.wf(),
        ensures
            r == self,
            final(gl).inv(),
            final(gl).same_objects(old(gl)),
            final(gl).commands() == old(gl).commands() + vbo_setup_trace(
                self.handle,
                config.data@,
                config.attribs@,
            ),
    {
        let mut this = self;
        let VboConfig { data, attribs } = config;
        this.bind(gl);
        this.copy_data_static(gl, data);
        let ghost head = gl.commands();
        let mut i: usize = 0;
        while i < attribs.len()
            invariant
                i <= attribs@.len(),
                gl.inv(),
                gl.same_objects(old(gl)),
                this == self,
                gl.commands() == head + attrib_trace(attribs@.take(i as int)),
            decreases attribs@.len() - i,
        {
            let a = attribs[i];
            this.set_basic_typed_vertex_attrib_pointer(gl, a.location, a.components, a.normalized);
            this.set_vertex_attrib_enabled(gl, a.location, true);
            proof {
                lemma_attrib_trace_step(attribs@, i as int);
                assert(gl.commands() =~= head + attrib_trace(attribs@.take(i as int + 1)));
            }
            i = i + 1;
        }
        proof {
            assert(attribs@.take(attribs@.len() as int) =~= attribs@);
        }
        buffers::unbind(gl, BufferTarget::Array);
        proof {
            assert(final(gl).commands() =~= old(gl).commands() + vbo_setup_trace(
                self.handle,
                config.data@,
                config.attribs@,
            ));
        }
        this
    }

    /// Hands `data` to the driver for the currently bound vertex buffer.
    pub fn copy_data(&mut self, gl: &mut GlModel, data: Vec<u32>, usage: BufferUsage)
        requires
            old(gl).inv(),
        ensures
            *final(self) == *old(self),
            final(gl).inv(),
            final(gl).same_objects(old(gl)),
            final(gl).commands() == old(gl).commands().push(
                Cmd::BufferData { target: BufferTarget::Array, data: data@, usage },
            ),
    {
        buffers::copy_data_to_bound_target(gl, BufferTarget::Array, data, usage);
    }

    /// As `copy_data`, with the static-draw usage hint.
    pub fn copy_data_static(&mut self, gl: &mut GlModel, data: Vec<u32>)
        requires
            old(gl).inv(),
        ensures
            *final(self) == *old(self),
            final(gl).inv(),
            final(gl).same_objects(old(gl)),
            final(gl).commands() == old(gl).commands().push(
                Cmd::BufferData {
                    target: BufferTarget::Array,
                    data: data@,
                    usage: BufferUsage::StaticDraw,
                },
            ),
    {
        buffers::copy_data_to_bound_target_static(gl, BufferTarget::Array, data);
    }

    /// Declares one attribute of packed 32-bit components over the
    /// currently bound buffer, starting at its first byte.
    pub fn set_basic_typed_vertex_attrib_pointer(
        &mut self,
        gl: &mut GlModel,
        location: u32,
        components: u32,
        normalized: bool,
    )
        requires
            old(gl).inv(),
            components <= 0x3fff_ffff,
        ensures
            *final(self) == *old(self),
            final(gl).inv(),
            final(gl).same_objects(old(gl)),
            final(gl).commands() == old(gl).commands().push(
                Cmd::VertexAttribPointer {
                    location,
                    components,
                    normalized,
                    stride: (components * 4) as u32,
                },
            ),
    {
        let stride = components * 4;
        gl.emit(GlCommand::VertexAttribPointer { location, components, normalized, stride });
    }

    /// Enables or disables the attribute at `location`.
    pub fn set_vertex_attrib_enabled(&mut self, gl: &mut GlModel, location: u32, state: bool)
        requires
            old(gl).inv(),
        ensures
            *final(self) == *old(self),
            final(gl).inv(),
            final(gl).same_objects(old(gl)),
            final(gl).commands() == old(gl).commands().push(
                Cmd::SetVertexAttribEnabled { location, enabled: state },
            ),
    {
        gl.emit(GlCommand::SetVertexAttribEnabled { location, enabled: state });
    }

    /// Releases the buffer object. Consuming the wrapper means the
    /// handle can be released at most once.
    pub fn destroy(self, gl: &mut GlModel)
        requires
            old(gl).inv(),
        ensures
            final(gl).inv(),
            released_one(*old(gl), *final(gl), self.handle),
            final(gl).commands() == old(gl).commands().push(
                Cmd::DeleteBuffer { handle: self.handle },
            ),
    {
        buffers::delete_buffer(gl, self.handle);
    }
}

} // verus!
