//! The extension methods callable by a name, indexed by the nominal type
//! their target reaches, and the candidates for a receiver.
use vstd::prelude::*;
use crate::checker::BodyChecker;
use crate::ids::{GlobalDefId, SymbolId};
use crate::table::Table;
use crate::ty::{TraitId, Ty};

verus! {

/// An extension method that a call by name may reach.
pub struct CallableExtensionMethod {
    pub target_ty: Ty,
    pub name: SymbolId,
    pub def_id: GlobalDefId,
    pub impl_id: u32,
    pub effective_generics: Vec<SymbolId>,
    pub effective_const_generics: Vec<SymbolId>,
    pub trait_id: Option<TraitId>,
}

/// The extension methods of one name, with the positions of those whose
/// target reaches a nominal type grouped by that type, and the positions of
/// the others.
pub struct CallableExtensionMethods {
    pub methods: Vec<CallableExtensionMethod>,
    pub methods_by_base: Table<GlobalDefId, Vec<usize>>,
    pub unbased_methods: Vec<usize>,
}

impl BodyChecker {
    /// The positions of the methods a receiver can reach: those indexed
    /// under the receiver's nominal type, then those without one.
    pub fn callable_method_indexes_for_receiver_base(
        &self,
        methods: &CallableExtensionMethods,
        receiver_base: Option<GlobalDefId>,
    ) -> (r: Vec<usize>)
        ensures
            r@ == match receiver_base {
                Some(base) => match methods.methods_by_base.spec_get(base) {
                    Some(indexes) => indexes@,
                    None => Seq::empty(),
                },
                None => Seq::empty(),
            } + methods.unbased_methods@,
    {
        let mut r: Vec<usize> = Vec::new();
        if let Some(base) = receiver_base {
            if let Some(indexes) = methods.methods_by_base.get(&base) {
                let mut i: usize = 0;
                while i < indexes.len()
                    invariant
                        i <= indexes@.len(),
                        r@ == indexes@.take(i as int),
                    decreases indexes@.len() - i,
                {
                    proof {
                        assert(indexes@.take(i + 1) =~= indexes@.take(i as int).push(indexes@[i as int]));
                    }
                    r.push(indexes[i]);
                    i = i + 1;
                }
                proof {
                    assert(indexes@.take(indexes@.len() as int) =~= indexes@);
                }
            }
        }
        let ghost prefix = r@;
        let mut j: usize = 0;
        while j < methods.unbased_methods.len()
            invariant
                j <= methods.unbased_methods@.len(),
                r@ == prefix + methods.unbased_methods@.take(j as int),
            decreases methods.unbased_methods@.len() - j,
        {
            proof {
                assert(methods.unbased_methods@.take(j + 1) =~= methods.unbased_methods@.take(j as int).push(
                    methods.unbased_methods@[j as int],
                ));
            }
            r.push(methods.unbased_methods[j]);
            j = j + 1;
        }
        proof {
            assert(methods.unbased_methods@.take(methods.unbased_methods@.len() as int)
                =~= methods.unbased_methods@);
        }
        r
    }
}

} // verus!
