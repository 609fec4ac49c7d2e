use vstd::prelude::*;

use crate::command::{Cmd, GlCommand};

verus! {

broadcast use vstd::set::group_set_axioms;

/// The model of the graphics driver: a handle bank and a command log.
///
/// Handles are abstract names chosen by the model. `live` holds the
/// handle of every driver object that has been allocated and not yet
/// released, and `log` records every driver call in order. An
/// unverified interpreter maps each abstract handle to a real driver
/// object when it replays the log.
pub struct GlModel {
    pub next_handle: u64,
    pub live: Vec<u64>,
    pub log: Vec<GlCommand>,
}

impl GlModel {
    /// Live handles are pairwise distinct, nonzero (zero means "no
    /// object"), and below the allocation counter.
    pub open spec fn inv(&self) -> bool {
        &&& forall|i: int|
            0 <= i < self.live@.len() ==> 0 < #[trigger] self.live@[i] < self.next_handle
        &&& forall|i: int, j: int|
            0 <= i < j < self.live@.len() ==> #[trigger] self.live@[i] != #[trigger] self.live@[j]
        &&& self.next_handle >= 1
    }

    /// The command log, seen mathematically.
    pub open spec fn commands(&self) -> Seq<Cmd> {
        self.log@.map_values(|c: GlCommand| c@)
    }

    /// Whether `handle` names a currently allocated driver object.
    pub open spec fn is_live(&self, handle: u64) -> bool {
        self.live@.contains(handle)
    }

    /// The set of currently allocated driver objects.
    pub open spec fn live_set(&self) -> Set<u64> {
        self.live@.to_set()
    }

    /// Room for `n` more allocations in the handle counter.
    pub open spec fn can_alloc(&self, n: nat) -> bool {
        self.next_handle + n <= u64::MAX
    }

    /// Same allocator state: equal counters and equal live handles.
    pub open spec fn same_objects(&self, other: &GlModel) -> bool {
        self.next_handle == other.next_handle && self.live@ == other.live@
    }

    pub fn new() -> (r: GlModel)
        ensures
            r.inv(),
            r.next_handle == 1,
            r.live@ == Seq::<u64>::empty(),
            r.live_set() == Set::<u64>::empty(),
            r.commands() == Seq::<Cmd>::empty(),
    {
        let r = GlModel { next_handle: 1, live: Vec::new(), log: Vec::new() };
        proof {
            assert(r.commands() =~= Seq::<Cmd>::empty());
            assert(r.live_set() =~= Set::<u64>::empty());
        }
        r
    }

    /// Takes a fresh handle out of the bank.
    pub(crate) fn gen_handle(&mut self) -> (h: u64)
        requires
            old(self).inv(),
            old(self).can_alloc(1),
        ensures
            final(self).inv(),
            h == old(self).next_handle,
            0 < h,
            !old(self).is_live(h),
            final(self).live@ == old(self).live@.push(h),
            final(self).live_set() == old(self).live_set().insert(h),
            final(self).next_handle == old(self).next_handle + 1,
            final(self).log == old(self).log,
            final(self).commands() == old(self).commands(),
    {
        let h = self.next_handle;
        self.next_handle = self.next_handle + 1;
        self.live.push(h);
        proof {
            assert(!old(self).live@.contains(h));
            assert(self.live@[old(self).live@.len() as int] == h);
            old(self).live@.lemma_push_to_set_commute(h);
            assert forall|x: u64| self.is_live(x) <==> old(self).is_live(x) || x == h by {
                if old(self).is_live(x) {
                    let i = choose|i: int|
                        0 <= i < old(self).live@.len() && old(self).live@[i] == x;
                    assert(self.live@[i] == x);
                }
                if self.is_live(x) {
                    let i = choose|i: int| 0 <= i < self.live@.len() && self.live@[i] == x;
                    if i < old(self).live@.len() {
                        assert(old(self).live@[i] == x);
                    } else {
                        assert(x == h);
                    }
                }
            }
        }
        h
    }

    /// Returns `handle` to the bank. Releasing a handle that is not
    /// live leaves the bank unchanged, so a release can never free an
    /// object twice.
    pub(crate) fn free(&mut self, handle: u64)
        requires
            old(self).inv(),
        ensures
            final(self).inv(),
            !final(self).is_live(handle),
            final(self).live_set() == old(self).live_set().remove(handle),
            old(self).is_live(handle) ==> final(self).live@.len() == old(self).live@.len() - 1,
            !old(self).is_live(handle) ==> final(self).live@ == old(self).live@,
            final(self).next_handle == old(self).next_handle,
            final(self).log == old(self).log,
            final(self).commands() == old(self).commands(),
    {
        let ghost prev = self.live@;
        let mut i: usize = 0;
        while i < self.live.len()
            invariant
                *self == *old(self),
                old(self).inv(),
                prev == old(self).live@,
                i <= prev.len(),
                forall|k: int| 0 <= k < i ==> prev[k] != handle,
            decreases prev.len() - i,
        {
            if self.live[i] == handle {
                proof {
                    assert(self.live@ == prev);
                    assert(0 <= i < prev.len());
                    assert(prev[i as int] == handle);
                }
                self.live.remove(i);
                proof {
                    prev.remove_ensures(i as int);
                    assert(self.live@ == prev.remove(i as int));
                    assert(!self.is_live(handle)) by {
                        if self.is_live(handle) {
                            let k = choose|k: int|
                                0 <= k < self.live@.len() && self.live@[k] == handle;
                            if k < i {
                                assert(prev[k] == handle);
                            } else {
                                assert(prev[k + 1] == handle);
                                assert(prev[i as int] == handle);
                            }
                        }
                    }
                    assert forall|x: u64|
                        self.live_set().contains(x) <==> old(self).live_set().remove(
                            handle,
                        ).contains(x) by {
                        assert(self.live_set().contains(x) == self.live@.contains(x));
                        assert(old(self).live_set().contains(x) == prev.contains(x));
                        if x != handle {
                            if self.live@.contains(x) {
                                let k = choose|k: int|
                                    0 <= k < self.live@.len() && self.live@[k] == x;
                                if k < i {
                                    assert(prev[k] == x);
                                } else {
                                    assert(prev[k + 1] == x);
                                }
                            }
                            if prev.contains(x) {
                                let k = choose|k: int| 0 <= k < prev.len() && prev[k] == x;
                                if k < i {
                                    assert(self.live@[k] == x);
                                } else {
                                    assert(k != i);
                                    assert(self.live@[k - 1] == x);
                                }
                            }
                        } else {
                            assert(!self.is_live(handle));
                        }
                    }
                    assert(self.live_set() =~= old(self).live_set().remove(handle));
                }
                return ;
            }
            i = i + 1;
        }
        proof {
            assert(!self.is_live(handle)) by {
                if self.is_live(handle) {
                    let k = choose|k: int|
                        0 <= k < self.live@.len() && self.live@[k] == handle;
                }
            }
            assert forall|x: u64|
                self.live_set().contains(x) <==> old(self).live_set().remove(
                    handle,
                ).contains(x) by {
                assert(self.live_set().contains(x) == self.live@.contains(x));
                if x == handle {
                    assert(!self.is_live(handle));
                }
            }
            assert(self.live_set() =~= old(self).live_set().remove(handle));
        }
    }

    /// Appends one call to the command log.
    pub(crate) fn emit(&mut self, cmd: GlCommand)
        requires
            old(self).inv(),
        ensures
            final(self).inv(),
            final(self).commands() == old(self).commands().push(cmd@),
            final(self).same_objects(old(self)),
            final(self).live == old(self).live,
            final(self).next_handle == old(self).next_handle,
    {
        self.log.push(cmd);
        proof {
            assert(self.commands() =~= old(self).commands().push(cmd@));
        }
    }
}

/// What allocating one driver object does to the model: `h` is fresh,
/// nonzero, and exactly it joins the live handles.
pub open spec fn allocated_one(pre: GlModel, post: GlModel, h: u64) -> bool {
    &&& h == pre.next_handle
    &&& 0 < h
    &&& !pre.is_live(h)
    &&& post.live@ == pre.live@.push(h)
    &&& post.live_set() == pre.live_set().insert(h)
    &&& post.next_handle == pre.next_handle + 1
}

/// What releasing one driver object does to the model: `h` is live no
/// longer, and every other handle is untouched.
pub open spec fn released_one(pre: GlModel, post: GlModel, h: u64) -> bool {
    &&& !post.is_live(h)
    &&& post.live_set() == pre.live_set().remove(h)
    &&& pre.is_live(h) ==> post.live@.len() == pre.live@.len() - 1
    &&& !pre.is_live(h) ==> post.live@ == pre.live@
    &&& post.next_handle == pre.next_handle
}

/// A handle freshly allocated for a wrapper and then released by that
/// wrapper's destructor leaves the set of live driver objects exactly as
/// it was: a destroyed wrapper does not leak its object.
pub proof fn lemma_destroy_restores_live(before: GlModel, mid: GlModel, after: GlModel, h: u64)
    requires
        !before.is_live(h),
        mid.live_set() == before.live_set().insert(h),
        after.live_set() == mid.live_set().remove(h),
    ensures
        after.live_set() == before.live_set(),
{
    assert(after.live_set() =~= before.live_set());
}

} // verus!
