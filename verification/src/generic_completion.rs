//! Checking that inference left no generic parameter of a call without a
//! type or value, and collecting the instance arguments in order.
use vstd::prelude::*;
use crate::checker::{BodyChecker, Diagnostic, GenericParamFact};
use crate::ids::{Span, SymbolId};
use crate::symbol_map::SymbolMap;
use crate::ty::{ConstGenericArg, DeepClone, Ty};

verus! {

/// One diagnostic for each of the first `k` generics that `s` leaves
/// unbound, in order.
pub open spec fn spec_uninferred_generics(span: Span, generics: Seq<SymbolId>, s: Map<SymbolId, Ty>, k: int) -> Seq<
    Diagnostic,
>
    decreases k,
{
    if k <= 0 {
        Seq::empty()
    } else {
        let prefix = spec_uninferred_generics(span, generics, s, k - 1);
        if s.contains_key(generics[k - 1]) {
            prefix
        } else {
            prefix.push(Diagnostic::UninferredGeneric { span, name: generics[k - 1] })
        }
    }
}

/// Of the first `k` parameters, the compile-time ones: the arguments bound
/// to them in order, and one diagnostic for each one left unbound.
pub open spec fn spec_const_completion(
    span: Span,
    params: Seq<GenericParamFact>,
    c: Map<SymbolId, ConstGenericArg>,
    k: int,
) -> (Seq<ConstGenericArg>, Seq<Diagnostic>)
    decreases k,
{
    if k <= 0 {
        (Seq::empty(), Seq::empty())
    } else {
        let (args, diags) = spec_const_completion(span, params, c, k - 1);
        let p = params[k - 1];
        if !p.is_comptime {
            (args, diags)
        } else if c.contains_key(p.name) {
            (args.push(c[p.name]), diags)
        } else {
            (args, diags.push(Diagnostic::UninferredConstGeneric { span, name: p.name }))
        }
    }
}

impl BodyChecker {
    /// Whether every generic of a method has a substitution; each one
    /// without is reported.
    pub fn method_generics_are_complete(
        &mut self,
        span: Span,
        generics: &Vec<SymbolId>,
        substitutions: &SymbolMap<Ty>,
    ) -> (r: bool)
        requires
            substitutions.wf(),
        ensures
            final(self).same_except_diagnostics(old(self)),
            r == forall|i: int| 0 <= i < generics@.len() ==> #[trigger] substitutions@.contains_key(generics@[i]),
            final(self).diagnostics@ == old(self).diagnostics@ + spec_uninferred_generics(
                span,
                generics@,
                substitutions@,
                generics@.len() as int,
            ),
    {
        let mut complete = true;
        let mut i: usize = 0;
        while i < generics.len()
            invariant
                i <= generics@.len(),
                substitutions.wf(),
                self.same_except_diagnostics(old(self)),
                complete == forall|j: int| 0 <= j < i ==> #[trigger] substitutions@.contains_key(generics@[j]),
                self.diagnostics@ == old(self).diagnostics@ + spec_uninferred_generics(
                    span,
                    generics@,
                    substitutions@,
                    i as int,
                ),
            decreases generics@.len() - i,
        {
            let generic = generics[i];
            if !substitutions.contains_key(generic) {
                complete = false;
                self.diagnostics.push(Diagnostic::UninferredGeneric { span, name: generic });
            }
            proof {
                assert(self.diagnostics@ =~= old(self).diagnostics@ + spec_uninferred_generics(
                    span,
                    generics@,
                    substitutions@,
                    i + 1,
                ));
            }
            i = i + 1;
        }
        complete
    }

    /// The types of the generics in order, when every generic has one; each
    /// one without is reported.
    pub fn complete_instance_args_for_generics(
        &mut self,
        span: Span,
        generics: &Vec<SymbolId>,
        substitutions: &SymbolMap<Ty>,
    ) -> (r: Option<Vec<Ty>>)
        requires
            substitutions.wf(),
        ensures
            final(self).same_except_diagnostics(old(self)),
            final(self).diagnostics@ == old(self).diagnostics@ + spec_uninferred_generics(
                span,
                generics@,
                substitutions@,
                generics@.len() as int,
            ),
            match r {
                Some(args) => (forall|i: int| 0 <= i < generics@.len() ==> #[trigger] substitutions@.contains_key(generics@[i]))
                    && args@ == generics@.map_values(|g: SymbolId| substitutions@[g]),
                None => exists|i: int| 0 <= i < generics@.len() && !#[trigger] substitutions@.contains_key(generics@[i]),
            },
    {
        if !self.method_generics_are_complete(span, generics, substitutions) {
            return None;
        }
        let mut args: Vec<Ty> = Vec::new();
        let mut i: usize = 0;
        while i < generics.len()
            invariant
                i <= generics@.len(),
                substitutions.wf(),
                forall|j: int| 0 <= j < generics@.len() ==> #[trigger] substitutions@.contains_key(generics@[j]),
                args@ == generics@.take(i as int).map_values(|g: SymbolId| substitutions@[g]),
            decreases generics@.len() - i,
        {
            proof {
                assert(substitutions@.contains_key(generics@[i as int]));
            }
            match substitutions.get(generics[i]) {
                Some(t) => {
                    args.push(t.deep_clone());
                },
                None => {},
            }
            proof {
                assert(generics@.take(i + 1).map_values(|g: SymbolId| substitutions@[g]) =~= generics@.take(
                    i as int,
                ).map_values(|g: SymbolId| substitutions@[g]).push(substitutions@[generics@[i as int]]));
            }
            i = i + 1;
        }
        proof {
            assert(generics@.take(generics@.len() as int) =~= generics@);
        }
        Some(args)
    }

    /// The values of the compile-time parameters in order, when each has
    /// one; each one without is reported.
    pub fn complete_const_instance_args_for_generic_params(
        &mut self,
        span: Span,
        generic_params: &Vec<GenericParamFact>,
        substitutions: &SymbolMap<ConstGenericArg>,
    ) -> (r: Option<Vec<ConstGenericArg>>)
        requires
            substitutions.wf(),
        ensures
            final(self).same_except_diagnostics(old(self)),
            ({
                let (args, diags) = spec_const_completion(
                    span,
                    generic_params@,
                    substitutions@,
                    generic_params@.len() as int,
                );
                &&& final(self).diagnostics@ == old(self).diagnostics@ + diags
                &&& diags.len() == 0 ==> r is Some && r.unwrap()@ == args
                &&& diags.len() > 0 ==> r is None
            }),
    {
        let mut complete = true;
        let mut args: Vec<ConstGenericArg> = Vec::new();
        let mut i: usize = 0;
        while i < generic_params.len()
            invariant
                i <= generic_params@.len(),
                substitutions.wf(),
                self.same_except_diagnostics(old(self)),
                ({
                    let (a, d) = spec_const_completion(span, generic_params@, substitutions@, i as int);
                    &&& args@ == a
                    &&& self.diagnostics@ == old(self).diagnostics@ + d
                    &&& complete == (d.len() == 0)
                }),
            decreases generic_params@.len() - i,
        {
            let param = generic_params[i];
            if param.is_comptime {
                match substitutions.get(param.name) {
                    Some(arg) => {
                        args.push(arg.deep_clone());
                    },
                    None => {
                        complete = false;
                        self.diagnostics.push(Diagnostic::UninferredConstGeneric { span, name: param.name });
                    },
                }
            }
            proof {
                let (a, d) = spec_const_completion(span, generic_params@, substitutions@, i as int);
                let (a1, d1) = spec_const_completion(span, generic_params@, substitutions@, i + 1);
                assert(self.diagnostics@ =~= old(self).diagnostics@ + d1);
            }
            i = i + 1;
        }
        if complete {
            Some(args)
        } else {
            None
        }
    }
}

/// The names of the type parameters among `params`, in order.
pub open spec fn spec_type_param_names(params: Seq<GenericParamFact>) -> Seq<SymbolId>
    decreases params.len(),
{
    if params.len() == 0 {
        Seq::empty()
    } else {
        let rest = spec_type_param_names(params.drop_last());
        if params.last().is_comptime {
            rest
        } else {
            rest.push(params.last().name)
        }
    }
}

/// The names of a signature's type parameters, leaving out the
/// compile-time ones.
pub fn type_generic_names(params: &Vec<GenericParamFact>) -> (r: Vec<SymbolId>)
    ensures
        r@ == spec_type_param_names(params@),
{
    let mut r: Vec<SymbolId> = Vec::new();
    let mut i: usize = 0;
    while i < params.len()
        invariant
            i <= params@.len(),
            r@ == spec_type_param_names(params@.take(i as int)),
        decreases params@.len() - i,
    {
        proof {
            assert(params@.take(i + 1).drop_last() =~= params@.take(i as int));
        }
        if !params[i].is_comptime {
            r.push(params[i].name);
        }
        i = i + 1;
    }
    proof {
        assert(params@.take(params@.len() as int) =~= params@);
    }
    r
}

impl BodyChecker {
    /// Whether a substitution binds `name` to that same parameter.
    pub fn generic_substitution_is_self_mapping(&self, name: SymbolId, ty: &Ty) -> (r: bool)
        ensures
            r == (*ty == Ty::GenericParam(name)),
    {
        match ty {
            Ty::GenericParam(existing) => *existing == name,
            _ => false,
        }
    }
}

} // verus!
