use vstd::prelude::*;
use crate::ids::SymbolId;
use crate::ty::DeepClone;

verus! {

/// The map that a list of entries with distinct keys stands for.
pub open spec fn entries_map<T>(s: Seq<(SymbolId, T)>) -> Map<SymbolId, T>
    decreases s.len(),
{
    if s.len() == 0 {
        Map::empty()
    } else {
        entries_map(s.drop_last()).insert(s.last().0, s.last().1)
    }
}

/// No key occurs twice.
pub open spec fn distinct_keys<T>(s: Seq<(SymbolId, T)>) -> bool {
    forall|i: int, j: int| 0 <= i < j < s.len() ==> s[i].0 != s[j].0
}

pub proof fn lemma_entries_map<T>(s: Seq<(SymbolId, T)>)
    requires
        distinct_keys(s),
    ensures
        forall|i: int| 0 <= i < s.len() ==> #[trigger] entries_map(s).contains_key(s[i].0)
            && entries_map(s)[s[i].0] == s[i].1,
        forall|k: SymbolId| #[trigger] entries_map(s).contains_key(k) ==> exists|i: int|
            0 <= i < s.len() && s[i].0 == k,
        entries_map(s).dom().finite(),
        entries_map(s).dom().len() == s.len(),
    decreases s.len(),
{
    if s.len() > 0 {
        let t = s.drop_last();
        assert(distinct_keys(t));
        lemma_entries_map(t);
        assert(!entries_map(t).contains_key(s.last().0)) by {
            if entries_map(t).contains_key(s.last().0) {
                let i = choose|i: int| 0 <= i < t.len() && t[i].0 == s.last().0;
                assert(s[i].0 == s[s.len() - 1].0);
            }
        }
        assert forall|i: int| 0 <= i < s.len() implies #[trigger] entries_map(s).contains_key(
            s[i].0,
        ) && entries_map(s)[s[i].0] == s[i].1 by {
            if i < s.len() - 1 {
                assert(t[i] == s[i]);
            }
        }
        assert forall|k: SymbolId| #[trigger] entries_map(s).contains_key(k) implies exists|i: int|
            0 <= i < s.len() && s[i].0 == k by {
            if k != s.last().0 {
                let i = choose|i: int| 0 <= i < t.len() && t[i].0 == k;
                assert(s[i] == t[i]);
            }
        }
    }
}

/// A finite map from symbols to values, kept as a list of entries with
/// distinct keys.
pub struct SymbolMap<T> {
    entries: Vec<(SymbolId, T)>,
}

impl<T> View for SymbolMap<T> {
    type V = Map<SymbolId, T>;

    closed spec fn view(&self) -> Map<SymbolId, T> {
        entries_map(self.entries@)
    }
}

impl<T> SymbolMap<T> {
    /// The entries have distinct keys.
    pub closed spec fn wf(&self) -> bool {
        distinct_keys(self.entries@)
    }

    /// The entries in the order they were first inserted.
    pub closed spec fn entry_seq(&self) -> Seq<(SymbolId, T)> {
        self.entries@
    }

    pub proof fn lemma_view(&self)
        requires
            self.wf(),
        ensures
            self@.dom().finite(),
            self@.dom().len() == self.entry_seq().len(),
            distinct_keys(self.entry_seq()),
            self@ == entries_map(self.entry_seq()),
            forall|i: int|
                0 <= i < self.entry_seq().len() ==> #[trigger] self@.contains_key(
                    self.entry_seq()[i].0,
                ) && self@[self.entry_seq()[i].0] == self.entry_seq()[i].1,
            forall|k: SymbolId| #[trigger] self@.contains_key(k) ==> exists|i: int|
                0 <= i < self.entry_seq().len() && self.entry_seq()[i].0 == k,
    {
        lemma_entries_map(self.entries@);
    }

    pub fn new() -> (r: SymbolMap<T>)
        ensures
            r.wf(),
            r@ == Map::<SymbolId, T>::empty(),
    {
        SymbolMap { entries: Vec::new() }
    }

    fn index_of(&self, key: SymbolId) -> (r: Option<usize>)
        ensures
            match r {
                Some(i) => i < self.entries@.len() && self.entries@[i as int].0 == key,
                None => forall|j: int| 0 <= j < self.entries@.len() ==> self.entries@[j].0 != key,
            },
    {
        let mut i: usize = 0;
        while i < self.entries.len()
            invariant
                i <= self.entries@.len(),
                forall|j: int| 0 <= j < i ==> self.entries@[j].0 != key,
            decreases self.entries@.len() - i,
        {
            if self.entries[i].0 == key {
                return Some(i);
            }
            i = i + 1;
        }
        None
    }

    pub fn get(&self, key: SymbolId) -> (r: Option<&T>)
        requires
            self.wf(),
        ensures
            match r {
                Some(v) => self@.contains_key(key) && *v == self@[key],
                None => !self@.contains_key(key),
            },
    {
        proof {
            self.lemma_view();
        }
        match self.index_of(key) {
            Some(i) => {
                proof {
                    assert(self@.contains_key(self.entries@[i as int].0));
                }
                Some(&self.entries[i].1)
            },
            None => None,
        }
    }

    pub fn contains_key(&self, key: SymbolId) -> (r: bool)
        requires
            self.wf(),
        ensures
            r == self@.contains_key(key),
    {
        proof {
            self.lemma_view();
        }
        self.index_of(key).is_some()
    }

    pub fn insert(&mut self, key: SymbolId, value: T)
        requires
            old(self).wf(),
        ensures
            final(self).wf(),
            final(self)@ == old(self)@.insert(key, value),
    {
        proof {
            lemma_entries_map(self.entries@);
        }
        let ghost old_entries = self.entries@;
        match self.index_of(key) {
            Some(i) => {
                self.entries.set(i, (key, value));
                proof {
                    assert(distinct_keys(self.entries@));
                    lemma_entries_map(self.entries@);
                    assert(self@ =~= entries_map(old_entries).insert(key, value)) by {
                        assert forall|k: SymbolId| #[trigger] self@.contains_key(k)
                            == entries_map(old_entries).insert(key, value).contains_key(k) by {
                            if self@.contains_key(k) {
                                let j = choose|j: int| 0 <= j < self.entries@.len() && self.entries@[j].0 == k;
                                assert(old_entries[j].0 == k);
                            }
                            if entries_map(old_entries).contains_key(k) {
                                let j = choose|j: int| 0 <= j < old_entries.len() && old_entries[j].0 == k;
                                assert(self.entries@[j].0 == k);
                            }
                        }
                        assert forall|k: SymbolId| #[trigger] self@.contains_key(k) implies self@[k]
                            == entries_map(old_entries).insert(key, value)[k] by {
                            let j = choose|j: int| 0 <= j < self.entries@.len() && self.entries@[j].0 == k;
                            if k != key {
                                assert(old_entries[j] == self.entries@[j]);
                            }
                        }
                    }
                }
            },
            None => {
                self.entries.push((key, value));
                proof {
                    assert(self.entries@.drop_last() =~= old_entries);
                }
            },
        }
    }

    /// The number of keys.
    pub fn len(&self) -> (r: usize)
        requires
            self.wf(),
        ensures
            r == self@.dom().len(),
    {
        proof {
            self.lemma_view();
        }
        self.entries.len()
    }

    /// The entry at position `i` of the insertion order.
    pub fn entry_at(&self, i: usize) -> (r: (SymbolId, &T))
        requires
            self.wf(),
            i < self.entry_seq().len(),
        ensures
            self@.contains_key(r.0),
            self@[r.0] == *r.1,
            r.0 == self.entry_seq()[i as int].0,
            *r.1 == self.entry_seq()[i as int].1,
    {
        proof {
            self.lemma_view();
        }
        (self.entries[i].0, &self.entries[i].1)
    }
}

impl<T: DeepClone> SymbolMap<T> {
    /// A copy of the map with the same entries.
    pub fn duplicate(&self) -> (r: SymbolMap<T>)
        requires
            self.wf(),
        ensures
            r.wf(),
            r@ == self@,
            r.entry_seq() == self.entry_seq(),
    {
        let mut entries: Vec<(SymbolId, T)> = Vec::new();
        let mut i: usize = 0;
        while i < self.entries.len()
            invariant
                i <= self.entries@.len(),
                entries@ == self.entries@.subrange(0, i as int),
            decreases self.entries@.len() - i,
        {
            let key = self.entries[i].0;
            let value = self.entries[i].1.deep_clone();
            entries.push((key, value));
            proof {
                assert(self.entries@.subrange(0, i + 1) =~= self.entries@.subrange(0, i as int).push(
                    self.entries@[i as int],
                ));
            }
            i = i + 1;
        }
        proof {
            assert(entries@ =~= self.entries@);
        }
        SymbolMap { entries }
    }
}

} // verus!
