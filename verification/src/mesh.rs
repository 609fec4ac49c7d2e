use vstd::prelude::*;

use crate::buffers;
use crate::command::{cmd_views, BufferTarget, Cmd, GlCommand, PrimitiveMode};
use crate::ebo::Ebo;
use crate::gl_model::GlModel;
use crate::material::Material;
use crate::vao;
use crate::vao::Vao;
use crate::vbo::Vbo;

verus! {

broadcast use vstd::set::group_set_axioms;

/// How a mesh submits its primitives: straight from the vertex buffers,
/// or through an owned index buffer.
pub enum DrawMode {
    Arrays { array_mode: PrimitiveMode, vertices: i32 },
    Elements { ebo: Ebo, elements_mode: PrimitiveMode, vertices: i32 },
}

impl DrawMode {
    /// The calls of one draw: an indexed draw brackets the index buffer
    /// bind around the call, a non-indexed draw is a single call.
    pub open spec fn draw_trace(&self) -> Seq<Cmd> {
        match self {
            DrawMode::Arrays { array_mode, vertices } => seq![
                Cmd::DrawArrays { mode: *array_mode, first: 0, count: *vertices },
            ],
            DrawMode::Elements { ebo, elements_mode, vertices } => seq![
                Cmd::BindBuffer { target: BufferTarget::ElementArray, handle: ebo.handle },
                Cmd::DrawElements { mode: *elements_mode, count: *vertices },
                Cmd::BindBuffer { target: BufferTarget::ElementArray, handle: 0 },
            ],
        }
    }

    /// The handle of the owned index buffer, if there is one.
    pub open spec fn ebo_handle(&self) -> Option<u64> {
        match self {
            DrawMode::Arrays { .. } => None,
            DrawMode::Elements { ebo, .. } => Some(ebo.handle),
        }
    }
}

/// The handles of the vertex buffers at and past position `k` of a
/// buffer list.
pub open spec fn vbo_tail_handles(vbos: Seq<Vbo>, k: int) -> Set<u64> {
    Set::new(|x: u64| exists|i: int| k <= i < vbos.len() && vbos[i].handle == x)
}

/// The calls that release a list of vertex buffers, from the last to
/// the first.
pub open spec fn vbos_delete_trace(vbos: Seq<Vbo>) -> Seq<Cmd>
    decreases vbos.len(),
{
    if vbos.len() == 0 {
        Seq::empty()
    } else {
        seq![Cmd::DeleteBuffer { handle: vbos.last().handle }] + vbos_delete_trace(
            vbos.drop_last(),
        )
    }
}

/// A mesh: a vertex array, the vertex buffers configured under it, a
/// material of its own, and a draw mode.
pub struct Mesh {
    pub vao: Vao,
    pub vbos: Vec<Vbo>,
    pub material: Material,
    pub draw_mode: DrawMode,
}

impl Mesh {
    /// Whether `x` is the handle of one of the driver objects the mesh
    /// owns: its vertex array, a vertex buffer, the index buffer, or an
    /// object of its own material.
    pub open spec fn owns_handle(&self, x: u64) -> bool {
        ||| x == self.vao.handle
        ||| exists|i: int| 0 <= i < self.vbos@.len() && self.vbos@[i].handle == x
        ||| self.draw_mode.ebo_handle() == Some(x)
        ||| self.material.owns_handle(x)
    }

    /// The set of handles of the driver objects the mesh owns.
    pub open spec fn owned_set(&self) -> Set<u64> {
        Set::new(|x: u64| self.owns_handle(x))
    }

    /// The calls that release every driver object the mesh owns: the
    /// vertex array, the vertex buffers from the last to the first, the
    /// index buffer if one is owned, then the material's objects.
    pub open spec fn delete_trace(&self) -> Seq<Cmd> {
        seq![Cmd::DeleteVertexArray { handle: self.vao.handle }] + vbos_delete_trace(
            self.vbos@,
        ) + (match self.draw_mode {
            DrawMode::Arrays { .. } => Seq::<Cmd>::empty(),
            DrawMode::Elements { ebo, .. } => seq![Cmd::DeleteBuffer { handle: ebo.handle }],
        }) + self.material.delete_trace()
    }

    pub fn new(vao: Vao, vbos: Vec<Vbo>, material: Material, draw_mode: DrawMode) -> (r: Mesh)
        ensures
            r.vao == vao,
            r.vbos == vbos,
            r.material == material,
            r.draw_mode == draw_mode,
    {
        Mesh { vao, vbos, material, draw_mode }
    }

    /// The calls of one draw with an override material: bind it, bind
    /// the vertex array, run the caller's pre-draw calls, draw, then
    /// unbind the vertex array and the material.
    pub open spec fn draw_with_material_trace(
        &self,
        material: &Material,
        pre_draw: Seq<Cmd>,
    ) -> Seq<Cmd> {
        material.bind_trace() + seq![Cmd::BindVertexArray { handle: self.vao.handle }]
            + pre_draw + self.draw_mode.draw_trace() + seq![Cmd::BindVertexArray { handle: 0 }]
            + material.unbind_trace()
    }

    /// Draws the mesh with `material` instead of its own, running the
    /// caller's pre-draw calls (per-frame uniforms) after the vertex
    /// array is bound. Afterwards nothing is left bound.
    #[verifier::loop_isolation(false)]
    pub fn draw_with_material(&self, gl: &mut GlModel, material: &Material, pre_draw: Vec<
        GlCommand,
    >)
        requires
            old(gl).inv(),
            material.is_bindable(),
        ensures
            final(gl).inv(),
            final(gl).same_objects(old(gl)),
            final(gl).commands() == old(gl).commands() + self.draw_with_material_trace(
                material,
                cmd_views(pre_draw@),
            ),
    {
        material.bind(gl);
        self.vao.bind(gl);
        let ghost head = gl.commands();
        let ghost hook = cmd_views(pre_draw@);
        let mut hook_cmds = pre_draw;
        while hook_cmds.len() > 0
            invariant
                gl.inv(),
                gl.same_objects(old(gl)),
                hook_cmds@.len() <= pre_draw@.len(),
                hook_cmds@ == pre_draw@.skip(
                    pre_draw@.len() as int - hook_cmds@.len() as int,
                ),
                gl.commands() == head + hook.take(
                    pre_draw@.len() as int - hook_cmds@.len() as int,
                ),
            decreases hook_cmds@.len(),
        {
            let ghost done = pre_draw@.len() as int - hook_cmds@.len() as int;
            let cmd = hook_cmds.remove(0);
            proof {
                assert(cmd == pre_draw@[done]);
                assert(hook_cmds@ =~= pre_draw@.skip(done + 1));
            }
            gl.emit(cmd);
            proof {
                assert(gl.commands() =~= head + hook.take(done + 1));
            }
        }
        proof {
            assert(hook.take(pre_draw@.len() as int) =~= hook);
        }
        match &self.draw_mode {
            DrawMode::Arrays { array_mode, vertices } => {
                gl.emit(GlCommand::DrawArrays { mode: *array_mode, first: 0, count: *vertices });
            },
            DrawMode::Elements { ebo, elements_mode, vertices } => {
                ebo.bind(gl);
                gl.emit(GlCommand::DrawElements { mode: *elements_mode, count: *vertices });
                buffers::unbind(gl, BufferTarget::ElementArray);
            },
        }
        vao::unbind(gl);
        material.unbind(gl);
        proof {
            assert(final(gl).commands() =~= old(gl).commands() + self.draw_with_material_trace(
                material,
                hook,
            ));
        }
    }

    /// Draws the mesh with its own material.
    pub fn draw(&self, gl: &mut GlModel, pre_draw: Vec<GlCommand>)
        requires
            old(gl).inv(),
            self.material.is_bindable(),
        ensures
            final(gl).inv(),
            final(gl).same_objects(old(gl)),
            final(gl).commands() == old(gl).commands() + self.draw_with_material_trace(
                &self.material,
                cmd_views(pre_draw@),
            ),
    {
        self.draw_with_material(gl, &self.material, pre_draw);
    }

    pub fn material(&self) -> (r: &Material)
        ensures
            r == self.material,
    {
        &self.material
    }

    pub fn set_material(&mut self, material: Material)
        ensures
            final(self).material == material,
            final(self).vao == old(self).vao,
            final(self).vbos == old(self).vbos,
            final(self).draw_mode == old(self).draw_mode,
    {
        self.material = material;
    }

    /// Releases every driver object the mesh owns: the vertex array, the
    /// vertex buffers from the last to the first, the index buffer if
    /// one is owned, and the material's objects.
    pub fn destroy(self, gl: &mut GlModel)
        requires
            old(gl).inv(),
        ensures
            final(gl).inv(),
            final(gl).next_handle == old(gl).next_handle,
            final(gl).live_set() == old(gl).live_set().difference(self.owned_set()),
            final(gl).commands() == old(gl).commands() + self.delete_trace(),
    {
        let Mesh { vao, mut vbos, material, draw_mode } = self;
        let ghost mat = material;
        let ghost dm = draw_mode;
        vao.destroy(gl);
        let ghost all = vbos@;
        let ghost g_vao = *gl;
        proof {
            assert(gl.live_set() =~= g_vao.live_set().difference(
                vbo_tail_handles(all, all.len() as int),
            ));
        }
        while vbos.len() > 0
            invariant
                gl.inv(),
                gl.next_handle == g_vao.next_handle,
                vbos@ == all.take(vbos@.len() as int),
                vbos@.len() <= all.len(),
                gl.commands() + vbos_delete_trace(vbos@) == g_vao.commands()
                    + vbos_delete_trace(all),
                gl.live_set() == g_vao.live_set().difference(
                    vbo_tail_handles(all, vbos@.len() as int),
                ),
            decreases vbos@.len(),
        {
            let ghost before = *gl;
            let ghost n = vbos@.len() as int;
            let vbo = vbos.pop().unwrap();
            proof {
                assert(vbo == all[n - 1]);
                assert(vbos@ =~= all.take(n - 1));
            }
            vbo.destroy(gl);
            proof {
                assert(gl.commands() + vbos_delete_trace(vbos@) =~= before.commands()
                    + vbos_delete_trace(all.take(n)));
                assert forall|x: u64|
                    gl.live_set().contains(x) <==> (g_vao.live_set().contains(x)
                        && !vbo_tail_handles(all, n - 1).contains(x)) by {
                    if x == all[n - 1].handle {
                        assert(vbo_tail_handles(all, n - 1).contains(x));
                    } else {
                        if vbo_tail_handles(all, n).contains(x) {
                            let i = choose|i: int| n <= i < all.len() && all[i].handle == x;
                            assert(n - 1 <= i < all.len() && all[i].handle == x);
                        }
                        if vbo_tail_handles(all, n - 1).contains(x) {
                            let i = choose|i: int|
                                n - 1 <= i < all.len() && all[i].handle == x;
                            assert(i != n - 1);
                            assert(n <= i < all.len() && all[i].handle == x);
                        }
                    }
                }
                assert(gl.live_set() =~= g_vao.live_set().difference(
                    vbo_tail_handles(all, n - 1),
                ));
            }
        }
        match draw_mode {
            DrawMode::Arrays { .. } => (),
            DrawMode::Elements { ebo, .. } => {
                ebo.destroy(gl);
            },
        }
        let ghost g_ebo = *gl;
        material.destroy(gl);
        proof {
            assert(all.take(0) =~= Seq::<Vbo>::empty());
            assert(final(gl).commands() =~= old(gl).commands() + self.delete_trace());
            assert forall|x: u64|
                gl.live_set().contains(x) <==> (old(gl).live_set().contains(x)
                    && !self.owned_set().contains(x)) by {
                assert(self.vbos@ == all);
                assert(self.material == mat);
                assert(self.draw_mode == dm);
                assert(self.vao == vao);
                assert(gl.live_set().contains(x) <==> (g_ebo.live_set().contains(x)
                    && !mat.owned_set().contains(x)));
                if self.owns_handle(x) && x != vao.handle && dm.ebo_handle() != Some(x)
                    && !mat.owns_handle(x) {
                    let i = choose|i: int|
                        0 <= i < self.vbos@.len() && self.vbos@[i].handle == x;
                    assert(0 <= i < all.len() && all[i].handle == x);
                    assert(vbo_tail_handles(all, 0).contains(x));
                }
                if vbo_tail_handles(all, 0).contains(x) {
                    let i = choose|i: int| 0 <= i < all.len() && all[i].handle == x;
                    assert(0 <= i < self.vbos@.len() && self.vbos@[i].handle == x);
                    assert(self.owns_handle(x));
                }
            }
            assert(gl.live_set() =~= old(gl).live_set().difference(self.owned_set()));
        }
    }
}

} // verus!
