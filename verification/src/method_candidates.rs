//! The extension methods of a name whose target type matches a given type:
//! the candidates of an associated call on that type.
use vstd::prelude::*;
use crate::candidates::MethodCandidate;
use crate::checker::BodyChecker;
use crate::extension_cache::{callables_match, same_callable, same_callables};
use crate::extension_index::CallableExtensionMethod;
use crate::extension_source::VisibleExtensionMethods;
use crate::ids::SymbolId;
use crate::symbol_map::SymbolMap;
use crate::ty::{ConstGenericArg, DeepClone, Ty};

verus! {

/// The methods of `methods` whose target type matches `target_ty`, with
/// fresh substitutions, in order.
pub open spec fn spec_matching_methods(
    checker: BodyChecker,
    methods: Seq<CallableExtensionMethod>,
    target_ty: Ty,
) -> Seq<CallableExtensionMethod>
    decreases methods.len(),
{
    if methods.len() == 0 {
        Seq::empty()
    } else {
        let rest = spec_matching_methods(checker, methods.drop_last(), target_ty);
        if checker.spec_match(methods.last().target_ty, target_ty, Map::empty(), Map::empty()).0 {
            rest.push(methods.last())
        } else {
            rest
        }
    }
}

/// `c` is the candidate for calling `m` on `target_ty`: the method's target,
/// the type it is called on, and the substitutions the match produced.
pub open spec fn spec_candidate_for(
    checker: BodyChecker,
    c: MethodCandidate,
    m: CallableExtensionMethod,
    target_ty: Ty,
) -> bool {
    let res = checker.spec_match(m.target_ty, target_ty, Map::empty(), Map::empty());
    &&& c.wf()
    &&& c.target_ty == m.target_ty
    &&& c.self_ty == target_ty
    &&& c.method_id == m.def_id
    &&& c.target_substitutions@ == res.1
    &&& c.target_const_substitutions@ == res.2
}

impl BodyChecker {
    /// The candidates among the callable extension methods named `name` for
    /// a call on `target_ty`: those whose target type matches it, in the
    /// order of the cached methods. Fills the cache for `name` first.
    pub fn method_candidates_for_target<L>(&mut self, load: &L, target_ty: &Ty, name: SymbolId) -> (r: Vec<
        MethodCandidate,
    >) where
        L: Fn() -> VisibleExtensionMethods,

        requires
            load.requires(()),
            old(self).lookup_cache_sound(),
            old(self).callable_cache_sound(),
            old(self).program_methods_distinct(),
        ensures
            final(self).same_outside_extension_caches(old(self)),
            final(self).lookup_cache_sound(),
            final(self).callable_cache_sound(),
            final(self).callable_extension_methods_by_name.spec_get(name) is Some,
            forall|n: SymbolId|
                n != name ==> #[trigger] final(self).callable_extension_methods_by_name.spec_get(n)
                    == old(self).callable_extension_methods_by_name.spec_get(n),
            old(self).callable_extension_methods_by_name.spec_get(name) is Some ==> *final(self) == *old(self),
            old(self).extensions.spec_loaded() is Some ==> final(self).extensions == old(self).extensions,
            old(self).extensions.spec_loaded() is None ==> load.ensures(
                (),
                final(self).extensions.spec_loaded().unwrap(),
            ),
            ({
                let matching = spec_matching_methods(
                    *final(self),
                    final(self).spec_callable_methods(final(self).extensions.spec_loaded().unwrap(), name),
                    *target_ty,
                );
                &&& r@.len() == matching.len()
                &&& forall|i: int|
                    0 <= i < r@.len() ==> #[trigger] spec_candidate_for(*final(self), r@[i], matching[i], *target_ty)
            }),
    {
        self.ensure_callable_extension_methods_named(load, name);
        let ghost ms = self.spec_callable_methods(self.extensions.spec_loaded().unwrap(), name);
        let mut candidates: Vec<MethodCandidate> = Vec::new();
        let methods = match self.callable_extension_methods_by_name.get(&name) {
            Some(methods) => methods,
            None => {
                return candidates;
            },
        };
        proof {
            assert(callables_match(*methods, ms));
        }
        let mut index: usize = 0;
        while index < methods.methods.len()
            invariant
                index <= methods.methods@.len(),
                same_callables(methods.methods@, ms),
                ({
                    let matching = spec_matching_methods(*self, ms.take(index as int), *target_ty);
                    &&& candidates@.len() == matching.len()
                    &&& forall|i: int|
                        0 <= i < candidates@.len() ==> #[trigger] spec_candidate_for(
                            *self,
                            candidates@[i],
                            matching[i],
                            *target_ty,
                        )
                }),
            decreases methods.methods@.len() - index,
        {
            let ghost prefix = ms.take(index as int);
            let ghost matching = spec_matching_methods(*self, prefix, *target_ty);
            proof {
                assert(ms.take(index + 1).drop_last() =~= prefix);
                assert(ms.take(index + 1).last() == ms[index as int]);
                assert(same_callable(methods.methods@[index as int], ms[index as int]));
            }
            let method = &methods.methods[index];
            let mut s: SymbolMap<Ty> = SymbolMap::new();
            let mut c: SymbolMap<ConstGenericArg> = SymbolMap::new();
            if self.match_type_pattern_with_consts(&method.target_ty, target_ty, &mut s, &mut c) {
                let candidate = MethodCandidate {
                    target_ty: method.target_ty.deep_clone(),
                    self_ty: target_ty.deep_clone(),
                    method_id: method.def_id,
                    target_substitutions: s,
                    target_const_substitutions: c,
                };
                proof {
                    assert(spec_candidate_for(*self, candidate, ms[index as int], *target_ty));
                }
                let ghost before = candidates@;
                candidates.push(candidate);
                proof {
                    let pushed = matching.push(ms[index as int]);
                    assert forall|i: int| 0 <= i < candidates@.len() implies #[trigger] spec_candidate_for(
                        *self,
                        candidates@[i],
                        pushed[i],
                        *target_ty,
                    ) by {
                        if i < before.len() {
                            assert(candidates@[i] == before[i]);
                            assert(spec_candidate_for(*self, before[i], matching[i], *target_ty));
                        }
                    }
                }
            }
            index = index + 1;
        }
        proof {
            assert(ms.take(methods.methods@.len() as int) =~= ms);
        }
        candidates
    }
}

} // verus!
