//! Laws of the callable-extension cache: each definition occurs once in an
//! entry, and the index by nominal type partitions an entry's methods.
use vstd::prelude::*;
use crate::checker::BodyChecker;
use crate::extension_cache::{
    lemma_dedup_has_def, same_callable, spec_base_indexes, spec_base_of, spec_dedup, spec_has_def,
};
use crate::extension_index::{CallableExtensionMethod, CallableExtensionMethods};
use crate::extension_source::VisibleExtensionMethods;
use crate::ids::{GlobalDefId, SymbolId};

verus! {

/// No two methods of `s` are the same definition.
pub open spec fn defs_distinct(s: Seq<CallableExtensionMethod>) -> bool {
    forall|i: int, j: int| 0 <= i < j < s.len() ==> #[trigger] s[i].def_id != #[trigger] s[j].def_id
}

/// Dropping repeated definitions leaves each definition once.
pub proof fn lemma_dedup_distinct(s: Seq<CallableExtensionMethod>)
    ensures
        defs_distinct(spec_dedup(s)),
    decreases s.len(),
{
    if s.len() > 0 {
        lemma_dedup_distinct(s.drop_last());
        let rest = spec_dedup(s.drop_last());
        if !spec_has_def(s.drop_last(), s.last().def_id) {
            lemma_dedup_has_def(s.drop_last(), s.last().def_id);
            let pushed = rest.push(s.last());
            assert forall|i: int, j: int| 0 <= i < j < pushed.len() implies #[trigger] pushed[i].def_id
                != #[trigger] pushed[j].def_id by {
                if j == rest.len() {
                    if pushed[i].def_id == pushed[j].def_id {
                        assert(rest[i].def_id == s.last().def_id);
                    }
                } else {
                    assert(rest[i].def_id != rest[j].def_id);
                }
            }
        }
    }
}

/// The callable extension methods of a name hold each definition once.
pub proof fn lemma_callable_methods_distinct(checker: BodyChecker, visible: VisibleExtensionMethods, name: SymbolId)
    ensures
        defs_distinct(checker.spec_callable_methods(visible, name)),
{
    lemma_dedup_distinct(
        checker.spec_merge_program(
            crate::extension_cache::spec_callable_from_visible(
                crate::extension_source::spec_methods_named(visible.targets@, name),
            ),
            checker.program_extension_methods@,
            name,
        ),
    );
}

/// The index of an entry lists, under a nominal type (or under none), the
/// position of every method whose target reaches it and of no other.
pub proof fn lemma_base_indexes_partition(s: Seq<CallableExtensionMethod>, base: Option<GlobalDefId>, k: int)
    requires
        s.len() <= usize::MAX,
    ensures
        spec_base_indexes(s, base).contains(k as usize) && 0 <= k <= usize::MAX <==> (0 <= k < s.len()
            && spec_base_of(s[k]) == base),
    decreases s.len(),
{
    if s.len() > 0 {
        lemma_base_indexes_partition(s.drop_last(), base, k);
        let rest = spec_base_indexes(s.drop_last(), base);
        if spec_base_of(s.last()) == base {
            let pushed = rest.push((s.len() - 1) as usize);
            if pushed.contains(k as usize) && 0 <= k <= usize::MAX {
                let i = choose|i: int| 0 <= i < pushed.len() && pushed[i] == k as usize;
                if i < rest.len() {
                    assert(rest[i] == k as usize);
                    assert(rest.contains(k as usize));
                }
            }
            if 0 <= k < s.len() && spec_base_of(s[k]) == base {
                if k == s.len() - 1 {
                    assert(pushed[rest.len() as int] == k as usize);
                } else {
                    assert(s.drop_last()[k] == s[k]);
                    let i = choose|i: int| 0 <= i < rest.len() && rest[i] == k as usize;
                    assert(pushed[i] == k as usize);
                }
            }
        } else {
            if 0 <= k < s.len() && spec_base_of(s[k]) == base {
                assert(k != s.len() - 1);
                assert(s.drop_last()[k] == s[k]);
            }
            if rest.contains(k as usize) && 0 <= k <= usize::MAX {
                assert(k < s.len() - 1);
                assert(s.drop_last()[k] == s[k]);
            }
        }
    }
}

/// The positions of `s` that `spec_base_indexes` lists are below the
/// length of `s` and increase, so each occurs once.
pub proof fn lemma_base_indexes_increasing(s: Seq<CallableExtensionMethod>, base: Option<GlobalDefId>)
    requires
        s.len() <= usize::MAX,
    ensures
        forall|i: int|
            0 <= i < spec_base_indexes(s, base).len() ==> #[trigger] spec_base_indexes(s, base)[i] < s.len(),
        forall|i: int, j: int|
            0 <= i < j < spec_base_indexes(s, base).len() ==> #[trigger] spec_base_indexes(s, base)[i]
                < #[trigger] spec_base_indexes(s, base)[j],
    decreases s.len(),
{
    if s.len() > 0 {
        lemma_base_indexes_increasing(s.drop_last(), base);
        let rest = spec_base_indexes(s.drop_last(), base);
        let r = spec_base_indexes(s, base);
        if spec_base_of(s.last()) == base {
            assert(r == rest.push((s.len() - 1) as usize));
            assert forall|i: int| 0 <= i < r.len() implies #[trigger] r[i] < s.len() by {
                if i < rest.len() {
                    assert(r[i] == rest[i]);
                }
            }
            assert forall|i: int, j: int| 0 <= i < j < r.len() implies #[trigger] r[i] < #[trigger] r[j] by {
                assert(r[i] == rest[i]);
                if j < rest.len() {
                    assert(r[j] == rest[j]);
                }
            }
        } else {
            assert(r == rest);
        }
    }
}

/// The positions a cached entry lists under the nominal type `base`, or
/// among the methods that reach none when `base` is `None`.
pub open spec fn spec_entry_indexes(e: CallableExtensionMethods, base: Option<GlobalDefId>) -> Seq<usize> {
    match base {
        None => e.unbased_methods@,
        Some(g) => match e.methods_by_base.spec_get(g) {
            Some(v) => v@,
            None => Seq::empty(),
        },
    }
}

/// In an entry of the callable-method cache no two methods are the same
/// definition, and the position of each method is listed exactly once:
/// under the nominal type its target reaches, or among the unbased ones
/// when it reaches none. No group lists a position twice or lists a
/// position whose method reaches another type.
pub proof fn lemma_cached_entry_partition(checker: BodyChecker, name: SymbolId, base: Option<GlobalDefId>, k: int)
    requires
        checker.callable_cache_sound(),
        checker.callable_extension_methods_by_name.spec_get(name) is Some,
    ensures
        ({
            let e = checker.callable_extension_methods_by_name.spec_get(name).unwrap();
            &&& defs_distinct(e.methods@)
            &&& spec_entry_indexes(e, base).no_duplicates()
            &&& (spec_entry_indexes(e, base).contains(k as usize) && 0 <= k <= usize::MAX) <==> (0 <= k
                < e.methods@.len() && spec_base_of(e.methods@[k]) == base)
        }),
{
    let e = checker.callable_extension_methods_by_name.spec_get(name).unwrap();
    let s = checker.spec_callable_methods(checker.extensions.spec_loaded().unwrap(), name);
    assert(e.methods.len() == e.methods@.len());
    lemma_callable_methods_distinct(checker, checker.extensions.spec_loaded().unwrap(), name);
    assert forall|i: int, j: int| 0 <= i < j < e.methods@.len() implies #[trigger] e.methods@[i].def_id
        != #[trigger] e.methods@[j].def_id by {
        assert(same_callable(e.methods@[i], s[i]));
        assert(same_callable(e.methods@[j], s[j]));
    }
    lemma_base_indexes_partition(s, base, k);
    lemma_base_indexes_increasing(s, base);
    assert(spec_entry_indexes(e, base) == spec_base_indexes(s, base));
    if 0 <= k < e.methods@.len() {
        assert(same_callable(e.methods@[k], s[k]));
    }
}

} // verus!
