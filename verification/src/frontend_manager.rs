//! Identification of tuner front ends and the inventory of those currently
//! available, maintained from device hotplug notifications.

use vstd::prelude::*;

verus! {

/// Identity of one tuner front end: the adapter it sits on and its index
/// within that adapter. Created on discovery, never mutated.
#[derive(Clone, Copy, Debug, PartialEq, Eq, Structural)]
pub struct FrontendId {
    pub adapter: u16,
    pub frontend: u16,
}

/// An availability change published to the control surface, in the order the
/// inventory observed it.
#[derive(Clone, Copy, Debug, PartialEq, Eq, Structural)]
pub enum Message {
    FrontendAppeared(FrontendId),
    FrontendDisappeared(FrontendId),
}

/// The authoritative set of currently available front ends. Raw hotplug
/// events may repeat; the inventory deduplicates them and emits a `Message`
/// only for genuine changes.
pub struct FrontendInventory {
    pub frontends: Vec<FrontendId>,
}

impl FrontendInventory {
    /// No front end is listed twice.
    pub open spec fn wf(self) -> bool {
        forall|i: int, j: int|
            0 <= i < j < self.frontends@.len() ==> self.frontends@[i] != self.frontends@[j]
    }

    pub fn new() -> (r: FrontendInventory)
        ensures
            r.wf(),
            r.frontends@ =~= Seq::<FrontendId>::empty(),
    {
        FrontendInventory { frontends: Vec::new() }
    }

    pub fn contains(&self, id: FrontendId) -> (r: bool)
        ensures
            r == self.frontends@.contains(id),
    {
        let mut i: usize = 0;
        while i < self.frontends.len()
            invariant
                i <= self.frontends@.len(),
                forall|j: int| 0 <= j < i ==> self.frontends@[j] != id,
            decreases self.frontends@.len() - i,
        {
            if self.frontends[i] == id {
                return true;
            }
            i += 1;
        }
        false
    }

    /// A device node appeared. Emits `FrontendAppeared` exactly when the
    /// front end was not already listed.
    pub fn note_appeared(&mut self, id: FrontendId) -> (r: Option<Message>)
        requires
            old(self).wf(),
        ensures
            final(self).wf(),
            old(self).frontends@.contains(id) ==> {
                &&& r is None
                &&& final(self).frontends@ == old(self).frontends@
            },
            !old(self).frontends@.contains(id) ==> {
                &&& r == Some(Message::FrontendAppeared(id))
                &&& final(self).frontends@ == old(self).frontends@.push(id)
            },
            final(self).frontends@.contains(id),
    {
        if self.contains(id) {
            None
        } else {
            self.frontends.push(id);
            proof {
                assert(self.frontends@.last() == id);
            }
            Some(Message::FrontendAppeared(id))
        }
    }

    /// A device node disappeared. Emits `FrontendDisappeared` exactly when
    /// the front end was listed; the listing is then dropped.
    pub fn note_disappeared(&mut self, id: FrontendId) -> (r: Option<Message>)
        requires
            old(self).wf(),
        ensures
            final(self).wf(),
            !old(self).frontends@.contains(id) ==> {
                &&& r is None
                &&& final(self).frontends@ == old(self).frontends@
            },
            old(self).frontends@.contains(id) ==> {
                &&& r == Some(Message::FrontendDisappeared(id))
                &&& exists|i: int|
                    {
                        &&& 0 <= i < old(self).frontends@.len()
                        &&& old(self).frontends@[i] == id
                        &&& final(self).frontends@ == old(self).frontends@.remove(i)
                    }
            },
            !final(self).frontends@.contains(id),
    {
        let ghost pre = self.frontends@;
        let mut i: usize = 0;
        while i < self.frontends.len()
            invariant
                self.frontends@ == pre,
                pre == old(self).frontends@,
                forall|a: int, b: int| 0 <= a < b < pre.len() ==> pre[a] != pre[b],
                i <= pre.len(),
                forall|j: int| 0 <= j < i ==> pre[j] != id,
            decreases pre.len() - i,
        {
            if self.frontends[i] == id {
                self.frontends.remove(i);
                proof {
                    let cur = self.frontends@;
                    assert(cur == pre.remove(i as int));
                    assert(pre[i as int] == id);
                    assert forall|k: int| 0 <= k < cur.len() implies cur[k] != id by {
                        if k < i {
                            assert(cur[k] == pre[k]);
                        } else {
                            assert(cur[k] == pre[k + 1]);
                            assert(pre[i as int] != pre[k + 1]);
                        }
                    }
                    assert(!cur.contains(id));
                    assert forall|a: int, b: int| 0 <= a < b < cur.len() implies cur[a] != cur[b] by {
                        let pa: int = if a < i { a } else { a + 1 };
                        let pb: int = if b < i { b } else { b + 1 };
                        assert(cur[a] == pre[pa]);
                        assert(cur[b] == pre[pb]);
                        assert(pre[pa] != pre[pb]);
                    }
                }
                return Some(Message::FrontendDisappeared(id));
            }
            i += 1;
        }
        proof {
            assert(!pre.contains(id));
        }
        None
    }
}

} // verus!
