use vstd::prelude::*;
use crate::ids::GlobalDefId;
use crate::ty::{ty_eq, BuiltinTrait, PrimitiveTy, Ty};

verus! {

/// A key that can be compared for equality by executable code.
pub trait KeyEq: Sized {
    fn key_eq(&self, other: &Self) -> (r: bool)
        ensures
            r == (*self == *other),
    ;
}

impl KeyEq for u32 {
    fn key_eq(&self, other: &u32) -> (r: bool) {
        *self == *other
    }
}

impl KeyEq for GlobalDefId {
    fn key_eq(&self, other: &GlobalDefId) -> (r: bool) {
        self.same(other)
    }
}

impl KeyEq for PrimitiveTy {
    fn key_eq(&self, other: &PrimitiveTy) -> (r: bool) {
        *self == *other
    }
}

impl KeyEq for BuiltinTrait {
    fn key_eq(&self, other: &BuiltinTrait) -> (r: bool) {
        *self == *other
    }
}

impl KeyEq for Ty {
    fn key_eq(&self, other: &Ty) -> (r: bool) {
        ty_eq(self, other)
    }
}

/// The value of the first entry with key `key`.
pub open spec fn spec_first<K, V>(s: Seq<(K, V)>, key: K) -> Option<V>
    decreases s.len(),
{
    if s.len() == 0 {
        None
    } else if s[0].0 == key {
        Some(s[0].1)
    } else {
        spec_first(s.drop_first(), key)
    }
}

/// A lookup table of facts computed by earlier phases; the first entry for a
/// key is the one that counts.
pub struct Table<K, V> {
    pub entries: Vec<(K, V)>,
}

impl<K, V> Table<K, V> {
    /// The value recorded for `key`.
    pub open spec fn spec_get(&self, key: K) -> Option<V> {
        spec_first(self.entries@, key)
    }
}

impl<K: KeyEq, V> Table<K, V> {
    pub fn new() -> (r: Table<K, V>)
        ensures
            forall|k: K| r.spec_get(k) is None,
    {
        Table { entries: Vec::new() }
    }

    /// The value recorded for `key`.
    pub fn get(&self, key: &K) -> (r: Option<&V>)
        ensures
            match r {
                Some(v) => self.spec_get(*key) == Some(*v),
                None => self.spec_get(*key) is None,
            },
    {
        let mut i: usize = 0;
        proof {
            assert(self.entries@.skip(0) =~= self.entries@);
        }
        while i < self.entries.len()
            invariant
                i <= self.entries@.len(),
                spec_first(self.entries@, *key) == spec_first(self.entries@.skip(i as int), *key),
            decreases self.entries@.len() - i,
        {
            proof {
                assert(self.entries@.skip(i as int).drop_first() =~= self.entries@.skip(i + 1));
            }
            if self.entries[i].0.key_eq(key) {
                return Some(&self.entries[i].1);
            }
            i = i + 1;
        }
        None
    }

    /// Records `value` for `key`, replacing what was recorded before.
    pub fn set(&mut self, key: K, value: V)
        ensures
            final(self).spec_get(key) == Some(value),
            forall|k: K| k != key ==> final(self).spec_get(k) == old(self).spec_get(k),
    {
        let ghost before = self.entries@;
        self.entries.insert(0, (key, value));
        proof {
            assert(self.entries@.drop_first() =~= before);
        }
    }
}

} // verus!
