use vstd::prelude::*;

use crate::command::{Cmd, TextureTarget};
use crate::gl_model::GlModel;
use crate::shader_program;
use crate::shader_program::ShaderProgram;
use crate::texture::{set_active_texture_unit, TEXTURE_UNIT_COUNT};
use crate::texture_2d;
use crate::texture_2d::Texture2D;

verus! {

broadcast use vstd::set::group_set_axioms;

/// A texture binding a material can carry, by target kind.
pub enum TextureKind {
    TwoDimensional { texture: Texture2D },
}

impl TextureKind {
    pub open spec fn wf(&self) -> bool {
        match self {
            TextureKind::TwoDimensional { texture } => texture.wf(),
        }
    }

    pub open spec fn handle_spec(&self) -> u64 {
        match self {
            TextureKind::TwoDimensional { texture } => texture.handle_spec(),
        }
    }

    /// Makes the carried texture current on its target.
    pub fn bind(&self, gl: &mut GlModel)
        requires
            old(gl).inv(),
            self.wf(),
        ensures
            final(gl).inv(),
            final(gl).same_objects(old(gl)),
            final(gl).commands() == old(gl).commands().push(
                Cmd::BindTexture {
                    tex_target: TextureTarget::TwoDimensional,
                    handle: self.handle_spec(),
                },
            ),
    {
        match self {
            TextureKind::TwoDimensional { texture } => texture.bind(gl),
        }
    }

    /// Unbinds the carried texture's target.
    pub fn unbind(&self, gl: &mut GlModel)
        requires
            old(gl).inv(),
        ensures
            final(gl).inv(),
            final(gl).same_objects(old(gl)),
            final(gl).commands() == old(gl).commands().push(
                Cmd::BindTexture { tex_target: TextureTarget::TwoDimensional, handle: 0 },
            ),
    {
        match self {
            TextureKind::TwoDimensional { texture: _ } => texture_2d::unbind(gl),
        }
    }

    /// Releases the carried texture object.
    pub fn destroy(self, gl: &mut GlModel)
        requires
            old(gl).inv(),
        ensures
            final(gl).inv(),
            crate::gl_model::released_one(*old(gl), *final(gl), self.handle_spec()),
            final(gl).commands() == old(gl).commands().push(
                Cmd::DeleteTexture { handle: self.handle_spec() },
            ),
    {
        match self {
            TextureKind::TwoDimensional { texture } => texture.destroy(gl),
        }
    }
}

/// The calls that bind a list of textures to successive texture units,
/// starting at unit 0, in list order.
pub open spec fn textures_bind_trace(textures: Seq<TextureKind>) -> Seq<Cmd>
    decreases textures.len(),
{
    if textures.len() == 0 {
        Seq::empty()
    } else {
        textures_bind_trace(textures.drop_last()) + seq![
            Cmd::ActiveTexture { unit: (textures.len() - 1) as u32 },
            Cmd::BindTexture {
                tex_target: TextureTarget::TwoDimensional,
                handle: textures.last().handle_spec(),
            },
        ]
    }
}

/// The calls that unbind `n` texture units, in unit order, then release
/// the program binding.
pub open spec fn textures_unbind_trace(n: nat) -> Seq<Cmd>
    decreases n,
{
    if n == 0 {
        Seq::empty()
    } else {
        textures_unbind_trace((n - 1) as nat) + seq![
            Cmd::ActiveTexture { unit: (n - 1) as u32 },
            Cmd::BindTexture { tex_target: TextureTarget::TwoDimensional, handle: 0 },
        ]
    }
}

/// The handles of the textures at and past position `k` of a texture
/// list.
pub open spec fn texture_tail_handles(textures: Seq<TextureKind>, k: int) -> Set<u64> {
    Set::new(|x: u64| exists|i: int| k <= i < textures.len() && textures[i].handle_spec() == x)
}

/// The calls that release a list of textures, from the last to the
/// first.
pub open spec fn textures_delete_trace(textures: Seq<TextureKind>) -> Seq<Cmd>
    decreases textures.len(),
{
    if textures.len() == 0 {
        Seq::empty()
    } else {
        seq![Cmd::DeleteTexture { handle: textures.last().handle_spec() }]
            + textures_delete_trace(textures.drop_last())
    }
}

/// A material that binds a shader program and an ordered list of
/// textures as a unit.
pub struct TexturedMaterial {
    pub shader_program: ShaderProgram,
    pub textures: Vec<TextureKind>,
}

impl TexturedMaterial {
    pub open spec fn wf(&self) -> bool {
        forall|i: int| 0 <= i < self.textures@.len() ==> #[trigger] self.textures@[i].wf()
    }

    /// Bindable: well formed, with no more textures than there are units.
    pub open spec fn bindable(&self) -> bool {
        self.wf() && self.textures@.len() <= TEXTURE_UNIT_COUNT
    }

    /// Whether `x` is the handle of the program or of one of the textures.
    pub open spec fn owns_handle(&self, x: u64) -> bool {
        x == self.shader_program.handle || exists|i: int|
            0 <= i < self.textures@.len() && self.textures@[i].handle_spec() == x
    }

    /// The set of handles of the driver objects the material owns.
    pub open spec fn owned_set(&self) -> Set<u64> {
        Set::new(|x: u64| self.owns_handle(x))
    }

    pub fn new(shader_program: ShaderProgram, textures: Vec<TextureKind>) -> (r:
        TexturedMaterial)
        ensures
            r.shader_program == shader_program,
            r.textures == textures,
    {
        TexturedMaterial { shader_program, textures }
    }

    pub fn new_single_2d(shader_program: ShaderProgram, texture: Texture2D) -> (r:
        TexturedMaterial)
        ensures
            r.shader_program == shader_program,
            r.textures@.len() == 1,
            r.textures@[0] == (TextureKind::TwoDimensional { texture }),
    {
        let mut textures: Vec<TextureKind> = Vec::new();
        textures.push(TextureKind::TwoDimensional { texture });
        TexturedMaterial { shader_program, textures }
    }

    /// Binds the program, then every texture to successive units
    /// starting at 0, in list order.
    #[verifier::loop_isolation(false)]
    pub fn bind(&self, gl: &mut GlModel)
        requires
            old(gl).inv(),
            self.bindable(),
        ensures
            final(gl).inv(),
            final(gl).same_objects(old(gl)),
            final(gl).commands() == old(gl).commands().push(
                Cmd::UseProgram { handle: self.shader_program.handle },
            ) + textures_bind_trace(self.textures@),
    {
        self.shader_program.bind(gl);
        let ghost head = gl.commands();
        let mut unit: usize = 0;
        while unit < self.textures.len()
            invariant
                unit <= self.textures@.len(),
                gl.inv(),
                gl.same_objects(old(gl)),
                gl.commands() == head + textures_bind_trace(self.textures@.take(unit as int)),
            decreases self.textures@.len() - unit,
        {
            set_active_texture_unit(gl, unit as u32).unwrap();
            let texture = &self.textures[unit];
            texture.bind(gl);
            proof {
                let taken = self.textures@.take(unit as int + 1);
                assert(taken.drop_last() =~= self.textures@.take(unit as int));
                assert(taken.last() == self.textures@[unit as int]);
                assert(gl.commands() =~= head + textures_bind_trace(taken));
            }
            unit = unit + 1;
        }
        proof {
            assert(self.textures@.take(self.textures@.len() as int) =~= self.textures@);
        }
    }

    /// Unbinds every texture unit the material uses, in unit order, then
    /// the program.
    #[verifier::loop_isolation(false)]
    pub fn unbind(&self, gl: &mut GlModel)
        requires
            old(gl).inv(),
            self.bindable(),
        ensures
            final(gl).inv(),
            final(gl).same_objects(old(gl)),
            final(gl).commands() == old(gl).commands() + textures_unbind_trace(
                self.textures@.len(),
            ) + seq![Cmd::UseProgram { handle: 0 }],
    {
        let mut unit: usize = 0;
        while unit < self.textures.len()
            invariant
                unit <= self.textures@.len(),
                gl.inv(),
                gl.same_objects(old(gl)),
                gl.commands() == old(gl).commands() + textures_unbind_trace(unit as nat),
            decreases self.textures@.len() - unit,
        {
            set_active_texture_unit(gl, unit as u32).unwrap();
            let texture = &self.textures[unit];
            texture.unbind(gl);
            proof {
                assert(gl.commands() =~= old(gl).commands() + textures_unbind_trace(
                    (unit + 1) as nat,
                ));
            }
            unit = unit + 1;
        }
        shader_program::unbind(gl);
        proof {
            assert(final(gl).commands() =~= old(gl).commands() + textures_unbind_trace(
                self.textures@.len(),
            ) + seq![Cmd::UseProgram { handle: 0 }]);
        }
    }

    pub fn shader_program(&self) -> (r: &ShaderProgram)
        ensures
            r == self.shader_program,
    {
        &self.shader_program
    }

    /// Releases the program and every texture the material owns: the
    /// textures from the last to the first, then the program.
    pub fn destroy(self, gl: &mut GlModel)
        requires
            old(gl).inv(),
        ensures
            final(gl).inv(),
            final(gl).next_handle == old(gl).next_handle,
            final(gl).live_set() == old(gl).live_set().difference(self.owned_set()),
            final(gl).commands() == old(gl).commands() + textures_delete_trace(self.textures@)
                + seq![Cmd::DeleteProgram { handle: self.shader_program.handle }],
    {
        let TexturedMaterial { shader_program, mut textures } = self;
        let ghost all = textures@;
        proof {
            assert(gl.live_set() =~= old(gl).live_set().difference(
                texture_tail_handles(all, all.len() as int),
            ));
        }
        while textures.len() > 0
            invariant
                gl.inv(),
                gl.next_handle == old(gl).next_handle,
                textures@ == all.take(textures@.len() as int),
                textures@.len() <= all.len(),
                gl.commands() + textures_delete_trace(textures@) == old(gl).commands()
                    + textures_delete_trace(all),
                gl.live_set() == old(gl).live_set().difference(
                    texture_tail_handles(all, textures@.len() as int),
                ),
            decreases textures@.len(),
        {
            let ghost before = *gl;
            let ghost n = textures@.len() as int;
            let texture = textures.pop().unwrap();
            proof {
                assert(texture == all[n - 1]);
                assert(textures@ =~= all.take(n - 1));
            }
            texture.destroy(gl);
            proof {
                assert(gl.commands() + textures_delete_trace(textures@) =~= before.commands()
                    + textures_delete_trace(all.take(n)));
                assert forall|x: u64|
                    gl.live_set().contains(x) <==> (old(gl).live_set().contains(x)
                        && !texture_tail_handles(all, n - 1).contains(x)) by {
                    if x == all[n - 1].handle_spec() {
                        assert(texture_tail_handles(all, n - 1).contains(x));
                    } else {
                        if texture_tail_handles(all, n).contains(x) {
                            let i = choose|i: int|
                                n <= i < all.len() && all[i].handle_spec() == x;
                            assert(n - 1 <= i < all.len() && all[i].handle_spec() == x);
                        }
                        if texture_tail_handles(all, n - 1).contains(x) {
                            let i = choose|i: int|
                                n - 1 <= i < all.len() && all[i].handle_spec() == x;
                            assert(i != n - 1);
                            assert(n <= i < all.len() && all[i].handle_spec() == x);
                        }
                    }
                }
                assert(gl.live_set() =~= old(gl).live_set().difference(
                    texture_tail_handles(all, n - 1),
                ));
            }
        }
        shader_program.destroy(gl);
        proof {
            assert(all.take(0) =~= Seq::<TextureKind>::empty());
            assert(final(gl).commands() =~= old(gl).commands() + textures_delete_trace(all)
                + seq![Cmd::DeleteProgram { handle: self.shader_program.handle }]);
            assert forall|x: u64|
                final(gl).live_set().contains(x) <==> (old(gl).live_set().contains(x)
                    && !self.owned_set().contains(x)) by {
                assert(self.textures@ == all);
                if self.owns_handle(x) && x != self.shader_program.handle {
                    let i = choose|i: int|
                        0 <= i < self.textures@.len() && self.textures@[i].handle_spec() == x;
                    assert(0 <= i < all.len() && all[i].handle_spec() == x);
                    assert(texture_tail_handles(all, 0).contains(x));
                }
                if texture_tail_handles(all, 0).contains(x) {
                    let i = choose|i: int| 0 <= i < all.len() && all[i].handle_spec() == x;
                    assert(0 <= i < self.textures@.len() && self.textures@[i].handle_spec()
                        == x);
                    assert(self.owns_handle(x));
                }
            }
            assert(final(gl).live_set() =~= old(gl).live_set().difference(self.owned_set()));
        }
    }
}

} // verus!
