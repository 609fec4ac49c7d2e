use vstd::prelude::*;

use crate::material::{BasicMaterial, Material};
use crate::shader_program::ShaderProgram;
use crate::texture_2d::Texture2D;
use crate::textured::TexturedMaterial;

verus! {

/// A registry of named materials. Names are unique; inserting under an
/// existing name replaces that entry.
pub struct MaterialRegistry {
    pub material_map: Vec<(String, Material)>,
}

impl MaterialRegistry {
    /// Names are pairwise distinct.
    pub open spec fn wf(&self) -> bool {
        forall|i: int, j: int|
            0 <= i < j < self.material_map@.len() ==> #[trigger] self.material_map@[i].0@
                != #[trigger] self.material_map@[j].0@
    }

    /// Whether some material is registered under `name`.
    pub open spec fn has_key(&self, name: Seq<char>) -> bool {
        exists|i: int|
            0 <= i < self.material_map@.len() && #[trigger] self.material_map@[i].0@ == name
    }

    /// Whether `material` is registered under `name`. With distinct
    /// names, at most one material is.
    pub open spec fn maps_to(&self, name: Seq<char>, material: Material) -> bool {
        exists|i: int|
            0 <= i < self.material_map@.len() && #[trigger] self.material_map@[i].0@ == name
                && self.material_map@[i].1 == material
    }

    pub fn new() -> (r: MaterialRegistry)
        ensures
            r.wf(),
            r.material_map@.len() == 0,
            forall|n: Seq<char>| !r.has_key(n),
    {
        MaterialRegistry { material_map: Vec::new() }
    }

    /// Registers `material` under `name`, replacing whatever was there.
    pub fn insert(&mut self, name: &str, material: Material)
        requires
            old(self).wf(),
        ensures
            final(self).wf(),
            final(self).maps_to(name@, material),
            final(self).has_key(name@),
            forall|n: Seq<char>, m: Material|
                n != name@ ==> (#[trigger] final(self).maps_to(n, m) <==> old(self).maps_to(
                    n,
                    m,
                )),
            forall|n: Seq<char>|
                n != name@ ==> (#[trigger] final(self).has_key(n) <==> old(self).has_key(n)),
    {
        let key = String::from_str(name);
        let mut i: usize = 0;
        while i < self.material_map.len()
            invariant
                *self == *old(self),
                old(self).wf(),
                key@ == name@,
                i <= self.material_map@.len(),
                forall|k: int| 0 <= k < i ==> #[trigger] self.material_map@[k].0@ != name@,
            decreases self.material_map@.len() - i,
        {
            if self.material_map[i].0 == key {
                self.material_map[i] = (key, material);
                proof {
                    assert(self.material_map@[i as int].0@ == name@);
                    assert forall|n: Seq<char>, m: Material|
                        n != name@ implies (#[trigger] self.maps_to(n, m) <==> old(
                        self,
                    ).maps_to(n, m)) by {
                        if self.maps_to(n, m) {
                            let k = choose|k: int|
                                0 <= k < self.material_map@.len()
                                    && #[trigger] self.material_map@[k].0@ == n
                                    && self.material_map@[k].1 == m;
                            assert(old(self).material_map@[k].0@ == n);
                        }
                        if old(self).maps_to(n, m) {
                            let k = choose|k: int|
                                0 <= k < old(self).material_map@.len()
                                    && #[trigger] old(self).material_map@[k].0@ == n && old(
                                    self,
                                ).material_map@[k].1 == m;
                            assert(self.material_map@[k].0@ == n);
                        }
                    }
                    assert forall|n: Seq<char>|
                        n != name@ implies (#[trigger] self.has_key(n) <==> old(self).has_key(
                        n,
                    )) by {
                        if self.has_key(n) {
                            let k = choose|k: int|
                                0 <= k < self.material_map@.len()
                                    && #[trigger] self.material_map@[k].0@ == n;
                            assert(old(self).material_map@[k].0@ == n);
                        }
                        if old(self).has_key(n) {
                            let k = choose|k: int|
                                0 <= k < old(self).material_map@.len() && #[trigger] old(
                                    self,
                                ).material_map@[k].0@ == n;
                            assert(self.material_map@[k].0@ == n);
                        }
                    }
                }
                return ;
            }
            i = i + 1;
        }
        self.material_map.push((key, material));
        proof {
            let n0 = self.material_map@.len() - 1;
            assert(self.material_map@[n0].0@ == name@);
            assert forall|n: Seq<char>, m: Material|
                n != name@ implies (#[trigger] self.maps_to(n, m) <==> old(self).maps_to(
                n,
                m,
            )) by {
                if self.maps_to(n, m) {
                    let k = choose|k: int|
                        0 <= k < self.material_map@.len() && #[trigger] self.material_map@[k].0@
                            == n && self.material_map@[k].1 == m;
                    assert(k < n0);
                    assert(old(self).material_map@[k].0@ == n);
                }
                if old(self).maps_to(n, m) {
                    let k = choose|k: int|
                        0 <= k < old(self).material_map@.len() && #[trigger] old(
                            self,
                        ).material_map@[k].0@ == n && old(self).material_map@[k].1 == m;
                    assert(self.material_map@[k].0@ == n);
                }
            }
            assert forall|n: Seq<char>|
                n != name@ implies (#[trigger] self.has_key(n) <==> old(self).has_key(n)) by {
                if self.has_key(n) {
                    let k = choose|k: int|
                        0 <= k < self.material_map@.len() && #[trigger] self.material_map@[k].0@
                            == n;
                    assert(k < n0);
                    assert(old(self).material_map@[k].0@ == n);
                }
                if old(self).has_key(n) {
                    let k = choose|k: int|
                        0 <= k < old(self).material_map@.len() && #[trigger] old(
                            self,
                        ).material_map@[k].0@ == n;
                    assert(self.material_map@[k].0@ == n);
                }
            }
        }
    }

    /// Registers a material that binds `shader_program` alone.
    pub fn insert_basic(&mut self, name: &str, shader_program: ShaderProgram)
        requires
            old(self).wf(),
        ensures
            final(self).wf(),
            final(self).maps_to(
                name@,
                Material::Basic(BasicMaterial { shader_program }),
            ),
            forall|n: Seq<char>, m: Material|
                n != name@ ==> (#[trigger] final(self).maps_to(n, m) <==> old(self).maps_to(
                    n,
                    m,
                )),
    {
        let material = BasicMaterial::new(shader_program);
        self.insert(name, Material::Basic(material));
    }

    /// Registers a material that binds `shader_program` and the one
    /// two-dimensional `texture`.
    pub fn insert_2d_textured(
        &mut self,
        name: &str,
        shader_program: ShaderProgram,
        texture: Texture2D,
    )
        requires
            old(self).wf(),
        ensures
            final(self).wf(),
            final(self).has_key(name@),
            exists|m: Material|
                {
                    &&& #[trigger] final(self).maps_to(name@, m)
                    &&& m is Textured
                    &&& m->Textured_0.shader_program == shader_program
                    &&& m->Textured_0.textures@.len() == 1
                },
            forall|n: Seq<char>, m: Material|
                n != name@ ==> (#[trigger] final(self).maps_to(n, m) <==> old(self).maps_to(
                    n,
                    m,
                )),
    {
        let material = TexturedMaterial::new_single_2d(shader_program, texture);
        let material = Material::Textured(material);
        let ghost witness = material;
        self.insert(name, material);
        proof {
            assert(final(self).maps_to(name@, witness));
        }
    }

    /// The material registered under `name`, if any.
    pub fn get_clone_ref(&self, name: &str) -> (r: Option<&Material>)
        requires
            self.wf(),
        ensures
            r is Some <==> self.has_key(name@),
            r matches Some(m) ==> self.maps_to(name@, *m),
    {
        let key = String::from_str(name);
        let mut i: usize = 0;
        while i < self.material_map.len()
            invariant
                self.wf(),
                key@ == name@,
                i <= self.material_map@.len(),
                forall|k: int| 0 <= k < i ==> #[trigger] self.material_map@[k].0@ != name@,
            decreases self.material_map@.len() - i,
        {
            if self.material_map[i].0 == key {
                return Some(&self.material_map[i].1);
            }
            i = i + 1;
        }
        None
    }
}

} // verus!
