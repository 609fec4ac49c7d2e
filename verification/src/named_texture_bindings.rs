use vstd::prelude::*;

use crate::gl_model::GlModel;
use crate::texture::{set_active_texture_unit, TEXTURE_UNIT_COUNT};

verus! {

/// A texture unit index.
pub type TextureUnit = u32;

/// The unit bound to `name` by the latest of a list of bindings, if any.
pub open spec fn last_binding(bindings: Seq<(String, TextureUnit)>, name: Seq<char>) -> Option<
    TextureUnit,
>
    decreases bindings.len(),
{
    if bindings.len() == 0 {
        None
    } else if bindings.last().0@ == name {
        Some(bindings.last().1)
    } else {
        last_binding(bindings.drop_last(), name)
    }
}

/// Texture units by name. Names are unique; binding an existing name
/// replaces its unit.
pub struct NamedTextureBindings {
    pub bindings: Vec<(String, TextureUnit)>,
}

impl NamedTextureBindings {
    /// Names are pairwise distinct.
    pub open spec fn wf(&self) -> bool {
        forall|i: int, j: int|
            0 <= i < j < self.bindings@.len() ==> #[trigger] self.bindings@[i].0@
                != #[trigger] self.bindings@[j].0@
    }

    /// Whether some unit is bound under `name`.
    pub open spec fn has_key(&self, name: Seq<char>) -> bool {
        exists|i: int| 0 <= i < self.bindings@.len() && #[trigger] self.bindings@[i].0@ == name
    }

    /// Whether `unit` is bound under `name`. With distinct names, at
    /// most one unit is.
    pub open spec fn maps_to(&self, name: Seq<char>, unit: TextureUnit) -> bool {
        exists|i: int|
            0 <= i < self.bindings@.len() && #[trigger] self.bindings@[i].0@ == name
                && self.bindings@[i].1 == unit
    }

    pub fn new() -> (r: NamedTextureBindings)
        ensures
            r.wf(),
            r.bindings@.len() == 0,
            forall|n: Seq<char>| !r.has_key(n),
    {
        NamedTextureBindings { bindings: Vec::new() }
    }

    /// Builds bindings from a list of name-unit pairs; under a repeated
    /// name the later pair wins.
    pub fn from(key_values: Vec<(String, TextureUnit)>) -> (r: NamedTextureBindings)
        ensures
            r.wf(),
            forall|n: Seq<char>, u: TextureUnit|
                #[trigger] r.maps_to(n, u) <==> last_binding(key_values@, n) == Some(u),
    {
        let mut named_units = NamedTextureBindings::new();
        let mut i: usize = 0;
        while i < key_values.len()
            invariant
                i <= key_values@.len(),
                named_units.wf(),
                forall|n: Seq<char>, u: TextureUnit|
                    #[trigger] named_units.maps_to(n, u) <==> last_binding(
                        key_values@.take(i as int),
                        n,
                    ) == Some(u),
            decreases key_values@.len() - i,
        {
            let name_owned = key_values[i].0.clone();
            let unit = key_values[i].1;
            named_units.add(name_owned.as_str(), unit);
            proof {
                assert(key_values@.take(i as int + 1).drop_last() =~= key_values@.take(
                    i as int,
                ));
                assert(key_values@.take(i as int + 1).last() == key_values@[i as int]);
            }
            i = i + 1;
        }
        proof {
            assert(key_values@.take(key_values@.len() as int) =~= key_values@);
        }
        named_units
    }

    /// Binds `unit` under `name`, replacing whatever was there.
    pub fn add(&mut self, name: &str, unit: TextureUnit)
        requires
            old(self).wf(),
        ensures
            final(self).wf(),
            final(self).maps_to(name@, unit),
            final(self).has_key(name@),
            forall|n: Seq<char>, u: TextureUnit|
                n != name@ ==> (#[trigger] final(self).maps_to(n, u) <==> old(self).maps_to(
                    n,
                    u,
                )),
            forall|n: Seq<char>, u: TextureUnit|
                n == name@ ==> (#[trigger] final(self).maps_to(n, u) <==> u == unit),
            forall|n: Seq<char>|
                n != name@ ==> (#[trigger] final(self).has_key(n) <==> old(self).has_key(n)),
    {
        let key = String::from_str(name);
        let mut i: usize = 0;
        while i < self.bindings.len()
            invariant
                *self == *old(self),
                old(self).wf(),
                key@ == name@,
                i <= self.bindings@.len(),
                forall|k: int| 0 <= k < i ==> #[trigger] self.bindings@[k].0@ != name@,
            decreases self.bindings@.len() - i,
        {
            if self.bindings[i].0 == key {
                self.bindings[i] = (key, unit);
                proof {
                    assert(self.bindings@[i as int].0@ == name@);
                    assert forall|n: Seq<char>, u: TextureUnit|
                        n != name@ implies (#[trigger] self.maps_to(n, u) <==> old(
                        self,
                    ).maps_to(n, u)) by {
                        if self.maps_to(n, u) {
                            let k = choose|k: int|
                                0 <= k < self.bindings@.len()
                                    && #[trigger] self.bindings@[k].0@ == n
                                    && self.bindings@[k].1 == u;
                            assert(old(self).bindings@[k].0@ == n);
                        }
                        if old(self).maps_to(n, u) {
                            let k = choose|k: int|
                                0 <= k < old(self).bindings@.len() && #[trigger] old(
                                    self,
                                ).bindings@[k].0@ == n && old(self).bindings@[k].1 == u;
                            assert(self.bindings@[k].0@ == n);
                        }
                    }
                    assert forall|n: Seq<char>, u: TextureUnit|
                        n == name@ implies (#[trigger] self.maps_to(n, u) <==> u == unit) by {
                        if self.maps_to(n, u) {
                            let k = choose|k: int|
                                0 <= k < self.bindings@.len()
                                    && #[trigger] self.bindings@[k].0@ == n
                                    && self.bindings@[k].1 == u;
                            assert(k == i);
                        }
                    }
                    assert forall|n: Seq<char>|
                        n != name@ implies (#[trigger] self.has_key(n) <==> old(self).has_key(
                        n,
                    )) by {
                        if self.has_key(n) {
                            let k = choose|k: int|
                                0 <= k < self.bindings@.len()
                                    && #[trigger] self.bindings@[k].0@ == n;
                            assert(old(self).bindings@[k].0@ == n);
                        }
                        if old(self).has_key(n) {
                            let k = choose|k: int|
                                0 <= k < old(self).bindings@.len() && #[trigger] old(
                                    self,
                                ).bindings@[k].0@ == n;
                            assert(self.bindings@[k].0@ == n);
                        }
                    }
                }
                return ;
            }
            i = i + 1;
        }
        self.bindings.push((key, unit));
        proof {
            let n0 = self.bindings@.len() - 1;
            assert(self.bindings@[n0].0@ == name@);
            assert forall|n: Seq<char>, u: TextureUnit|
                n != name@ implies (#[trigger] self.maps_to(n, u) <==> old(self).maps_to(
                n,
                u,
            )) by {
                if self.maps_to(n, u) {
                    let k = choose|k: int|
                        0 <= k < self.bindings@.len() && #[trigger] self.bindings@[k].0@ == n
                            && self.bindings@[k].1 == u;
                    assert(k < n0);
                    assert(old(self).bindings@[k].0@ == n);
                }
                if old(self).maps_to(n, u) {
                    let k = choose|k: int|
                        0 <= k < old(self).bindings@.len() && #[trigger] old(
                            self,
                        ).bindings@[k].0@ == n && old(self).bindings@[k].1 == u;
                    assert(self.bindings@[k].0@ == n);
                }
            }
            assert forall|n: Seq<char>, u: TextureUnit|
                n == name@ implies (#[trigger] self.maps_to(n, u) <==> u == unit) by {
                if self.maps_to(n, u) {
                    let k = choose|k: int|
                        0 <= k < self.bindings@.len() && #[trigger] self.bindings@[k].0@ == n
                            && self.bindings@[k].1 == u;
                    assert(k == n0);
                }
            }
            assert forall|n: Seq<char>|
                n != name@ implies (#[trigger] self.has_key(n) <==> old(self).has_key(n)) by {
                if self.has_key(n) {
                    let k = choose|k: int|
                        0 <= k < self.bindings@.len() && #[trigger] self.bindings@[k].0@ == n;
                    assert(k < n0);
                    assert(old(self).bindings@[k].0@ == n);
                }
                if old(self).has_key(n) {
                    let k = choose|k: int|
                        0 <= k < old(self).bindings@.len() && #[trigger] old(
                            self,
                        ).bindings@[k].0@ == n;
                    assert(self.bindings@[k].0@ == n);
                }
            }
        }
    }

    /// Whether a unit is bound under `name`.
    pub fn has_unit(&mut self, name: &str) -> (r: bool)
        requires
            old(self).wf(),
        ensures
            *final(self) == *old(self),
            r == old(self).has_key(name@),
    {
        let key = String::from_str(name);
        let mut i: usize = 0;
        while i < self.bindings.len()
            invariant
                *self == *old(self),
                key@ == name@,
                i <= self.bindings@.len(),
                forall|k: int| 0 <= k < i ==> #[trigger] self.bindings@[k].0@ != name@,
            decreases self.bindings@.len() - i,
        {
            if self.bindings[i].0 == key {
                return true;
            }
            i = i + 1;
        }
        false
    }

    /// The unit bound under `name`, if any.
    pub fn get(&mut self, name: &str) -> (r: Option<TextureUnit>)
        requires
            old(self).wf(),
        ensures
            *final(self) == *old(self),
            r is Some <==> old(self).has_key(name@),
            r matches Some(u) ==> old(self).maps_to(name@, u),
    {
        let key = String::from_str(name);
        let mut i: usize = 0;
        while i < self.bindings.len()
            invariant
                *self == *old(self),
                key@ == name@,
                i <= self.bindings@.len(),
                forall|k: int| 0 <= k < i ==> #[trigger] self.bindings@[k].0@ != name@,
            decreases self.bindings@.len() - i,
        {
            if self.bindings[i].0 == key {
                return Some(self.bindings[i].1);
            }
            i = i + 1;
        }
        None
    }

    /// Makes the unit bound under `name` the active texture unit.
    /// Fails, emitting nothing, when no unit is bound under `name` or
    /// the bound unit is past the last one.
    pub fn activate(&mut self, gl: &mut GlModel, name: &str) -> (r: Result<(), String>)
        requires
            old(self).wf(),
            old(gl).inv(),
        ensures
            *final(self) == *old(self),
            final(gl).inv(),
            final(gl).same_objects(old(gl)),
            !old(self).has_key(name@) ==> r is Err && *final(gl) == *old(gl),
            forall|u: TextureUnit|
                old(self).maps_to(name@, u) ==> {
                    &&& (r is Ok <==> u < TEXTURE_UNIT_COUNT)
                    &&& (u < TEXTURE_UNIT_COUNT ==> final(gl).commands() == old(
                        gl,
                    ).commands().push(crate::command::Cmd::ActiveTexture { unit: u }))
                    &&& (u >= TEXTURE_UNIT_COUNT ==> *final(gl) == *old(gl))
                },
    {
        if let Some(unit) = self.get(name) {
            return set_active_texture_unit(gl, unit);
        }
        Err("no texture unit bound under this name".to_owned())
    }

    /// The bindings, in insertion order.
    pub fn iter(&self) -> (r: &Vec<(String, TextureUnit)>)
        ensures
            r == self.bindings,
    {
        &self.bindings
    }
}

} // verus!
