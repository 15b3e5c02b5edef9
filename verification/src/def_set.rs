use vstd::prelude::*;
use crate::ids::GlobalDefId;

verus! {

/// A finite set of definitions, kept as a list without repetitions.
pub struct DefIdSet {
    items: Vec<GlobalDefId>,
}

impl View for DefIdSet {
    type V = Set<GlobalDefId>;

    closed spec fn view(&self) -> Set<GlobalDefId> {
        self.items@.to_set()
    }
}

impl DefIdSet {
    /// No definition is listed twice.
    pub closed spec fn wf(&self) -> bool {
        self.items@.no_duplicates()
    }

    /// The members in insertion order.
    pub closed spec fn members(&self) -> Seq<GlobalDefId> {
        self.items@
    }

    pub proof fn lemma_members(&self)
        requires
            self.wf(),
        ensures
            self.members().no_duplicates(),
            self@ == self.members().to_set(),
            self@.finite(),
            self@.len() == self.members().len(),
    {
        self.items@.unique_seq_to_set();
    }

    pub fn new() -> (r: DefIdSet)
        ensures
            r.wf(),
            r@ == Set::<GlobalDefId>::empty(),
            r.members() == Seq::<GlobalDefId>::empty(),
    {
        let r = DefIdSet { items: Vec::new() };
        proof {
            assert(r.items@.to_set() =~= Set::<GlobalDefId>::empty());
        }
        r
    }

    pub fn contains(&self, def_id: GlobalDefId) -> (r: bool)
        ensures
            r == self@.contains(def_id),
    {
        let mut i: usize = 0;
        while i < self.items.len()
            invariant
                i <= self.items@.len(),
                forall|j: int| 0 <= j < i ==> self.items@[j] != def_id,
            decreases self.items@.len() - i,
        {
            if self.items[i].same(&def_id) {
                proof {
                    assert(self.items@.contains(def_id));
                }
                return true;
            }
            i = i + 1;
        }
        proof {
            assert(!self.items@.contains(def_id));
        }
        false
    }

    /// Adds `def_id`; the result tells whether it was new.
    pub fn insert(&mut self, def_id: GlobalDefId) -> (r: bool)
        requires
            old(self).wf(),
        ensures
            final(self).wf(),
            final(self)@ == old(self)@.insert(def_id),
            r == !old(self)@.contains(def_id),
    {
        if self.contains(def_id) {
            proof {
                assert(self@.insert(def_id) =~= self@);
            }
            return false;
        }
        let ghost before = self.items@;
        self.items.push(def_id);
        proof {
            assert(self.items@ =~= before.push(def_id));
            assert(self.items@.to_set() =~= before.to_set().insert(def_id)) by {
                assert forall|x: GlobalDefId| self.items@.contains(x) <==> before.contains(x) || x
                    == def_id by {
                    if self.items@.contains(x) {
                        let j = choose|j: int| 0 <= j < self.items@.len() && self.items@[j] == x;
                        if j < before.len() {
                            assert(before[j] == x);
                        }
                    }
                    if before.contains(x) {
                        let j = choose|j: int| 0 <= j < before.len() && before[j] == x;
                        assert(self.items@[j] == x);
                    }
                    if x == def_id {
                        assert(self.items@[before.len() as int] == x);
                    }
                }
            }
        }
        true
    }

    pub fn len(&self) -> (r: usize)
        requires
            self.wf(),
        ensures
            r == self@.len(),
    {
        proof {
            self.lemma_members();
        }
        self.items.len()
    }

    /// The member at position `i` of the insertion order.
    pub fn member_at(&self, i: usize) -> (r: GlobalDefId)
        requires
            i < self.members().len(),
        ensures
            r == self.members()[i as int],
            self@.contains(r),
    {
        self.items[i]
    }

    pub fn member_count(&self) -> (r: usize)
        ensures
            r == self.members().len(),
    {
        self.items.len()
    }

    /// A copy holding the same members.
    pub fn duplicate(&self) -> (r: DefIdSet)
        ensures
            r@ == self@,
            r.members() == self.members(),
            r.wf() == self.wf(),
    {
        DefIdSet { items: self.items.clone() }
    }
}

} // verus!
