//! Nominal types named by a type prefix (`Vec[T].new`): their generic
//! parameters, the argument count check, the substitutions a definition's
//! parameters get from its arguments and the expansion of type aliases.
use vstd::prelude::*;
use crate::checker::{BodyChecker, Diagnostic, GenericParamFact};
use crate::ids::{GlobalDefId, Span, SymbolId};
use crate::subst::{generic_substitutions, spec_generic_substitutions, spec_subst, substitute_generics_and_consts};
use crate::symbol_map::SymbolMap;
use crate::ty::{ConstArgList, ConstGenericArg, DeepClone, TraitId, Ty, TyList};

verus! {

/// The substitutions that a definition's generic parameters get: each type
/// parameter takes the next type argument and each compile-time parameter
/// the next compile-time argument, as long as arguments remain. `s` and `c`
/// hold what earlier parameters bound.
pub open spec fn spec_def_substitutions(
    params: Seq<GenericParamFact>,
    args: TyList,
    const_args: ConstArgList,
    s: Map<SymbolId, Ty>,
    c: Map<SymbolId, ConstGenericArg>,
) -> (Map<SymbolId, Ty>, Map<SymbolId, ConstGenericArg>)
    decreases params.len(),
{
    if params.len() == 0 {
        (s, c)
    } else {
        let p = params[0];
        if p.is_comptime {
            match const_args {
                ConstArgList::Cons(h, t) => spec_def_substitutions(
                    params.drop_first(),
                    args,
                    *t,
                    s,
                    c.insert(p.name, h),
                ),
                ConstArgList::Nil => spec_def_substitutions(
                    params.drop_first(),
                    args,
                    ConstArgList::Nil,
                    s,
                    c,
                ),
            }
        } else {
            match args {
                TyList::Cons(h, t) => spec_def_substitutions(
                    params.drop_first(),
                    *t,
                    const_args,
                    s.insert(p.name, *h),
                    c,
                ),
                TyList::Nil => spec_def_substitutions(
                    params.drop_first(),
                    TyList::Nil,
                    const_args,
                    s,
                    c,
                ),
            }
        }
    }
}

/// The list of the generic parameters `generics`, as types.
pub open spec fn spec_generic_param_list(generics: Seq<SymbolId>) -> TyList
    decreases generics.len(),
{
    if generics.len() == 0 {
        TyList::Nil
    } else {
        TyList::Cons(
            Box::new(Ty::GenericParam(generics[0])),
            Box::new(spec_generic_param_list(generics.drop_first())),
        )
    }
}

impl BodyChecker {
    /// Nothing but the diagnostics differs from `other`.
    pub open spec fn same_except_diagnostics(&self, other: &BodyChecker) -> bool {
        *self == (BodyChecker { diagnostics: self.diagnostics, ..*other })
    }

    /// The generic parameters of a struct, union or enum (none for an enum);
    /// nothing for other definitions.
    pub fn nominal_type_generics(&self, def_id: GlobalDefId) -> (r: Option<&Vec<SymbolId>>)
        ensures
            match r {
                Some(g) => self.nominal_generics.spec_get(def_id) == Some(*g),
                None => self.nominal_generics.spec_get(def_id) is None,
            },
    {
        self.nominal_generics.get(&def_id)
    }

    /// Whether `def_id` is a nominal type without generic parameters.
    pub fn nominal_type_prefix_has_no_generics(&self, def_id: GlobalDefId) -> (r: bool)
        ensures
            r == match self.nominal_generics.spec_get(def_id) {
                Some(g) => g@.len() == 0,
                None => false,
            },
    {
        match self.nominal_type_generics(def_id) {
            Some(generics) => generics.len() == 0,
            None => false,
        }
    }

    /// Checks that a type prefix gives its nominal type as many generic
    /// arguments as the type declares, and reports the mismatch otherwise.
    pub fn check_type_prefix_arg_count(&mut self, span: Span, def_id: GlobalDefId, actual: usize) -> (r:
        bool)
        ensures
            final(self).same_except_diagnostics(old(self)),
            match old(self).nominal_generics.spec_get(def_id) {
                None => r && final(self).diagnostics@ == old(self).diagnostics@,
                Some(g) => if g@.len() == actual {
                    r && final(self).diagnostics@ == old(self).diagnostics@
                } else {
                    !r && final(self).diagnostics@ == old(self).diagnostics@.push(
                        Diagnostic::GenericArgCountMismatch {
                            span,
                            def_id,
                            name: old(self).spec_definition_name(def_id),
                            expected: g@.len() as usize,
                            actual,
                        },
                    )
                },
            },
    {
        let expected = match self.nominal_type_generics(def_id) {
            Some(generics) => generics.len(),
            None => {
                return true;
            },
        };
        if expected == actual {
            return true;
        }
        let name = self.definition_name(def_id);
        self.diagnostics.push(
            Diagnostic::GenericArgCountMismatch { span, def_id, name, expected, actual },
        );
        false
    }

    /// The substitutions that the generic parameters of `def_id` get from
    /// `args` and `const_args`; empty when the definition is unknown.
    pub fn generic_substitutions_and_consts_for_def(
        &self,
        def_id: GlobalDefId,
        args: &TyList,
        const_args: &ConstArgList,
    ) -> (r: (SymbolMap<Ty>, SymbolMap<ConstGenericArg>))
        ensures
            r.0.wf(),
            r.1.wf(),
            (r.0@, r.1@) == match self.def_generic_params.spec_get(def_id) {
                Some(params) => spec_def_substitutions(
                    params@,
                    *args,
                    *const_args,
                    Map::empty(),
                    Map::empty(),
                ),
                None => (Map::empty(), Map::empty()),
            },
    {
        let mut s: SymbolMap<Ty> = SymbolMap::new();
        let mut c: SymbolMap<ConstGenericArg> = SymbolMap::new();
        let params = match self.def_generic_params.get(&def_id) {
            Some(p) => p,
            None => {
                return (s, c);
            },
        };
        let mut rest_args: &TyList = args;
        let mut rest_consts: &ConstArgList = const_args;
        let mut i: usize = 0;
        proof {
            assert(params@.skip(0) =~= params@);
        }
        while i < params.len()
            invariant
                i <= params@.len(),
                s.wf(),
                c.wf(),
                spec_def_substitutions(params@, *args, *const_args, Map::empty(), Map::empty())
                    == spec_def_substitutions(
                    params@.skip(i as int),
                    *rest_args,
                    *rest_consts,
                    s@,
                    c@,
                ),
            decreases params@.len() - i,
        {
            let p = params[i];
            proof {
                assert(params@.skip(i as int)[0] == p);
                assert(params@.skip(i as int).drop_first() =~= params@.skip(i + 1));
            }
            if p.is_comptime {
                match rest_consts {
                    ConstArgList::Cons(h, t) => {
                        c.insert(p.name, h.deep_clone());
                        rest_consts = t;
                    },
                    ConstArgList::Nil => {},
                }
            } else {
                match rest_args {
                    TyList::Cons(h, t) => {
                        s.insert(p.name, (**h).deep_clone());
                        rest_args = t;
                    },
                    TyList::Nil => {},
                }
            }
            i = i + 1;
        }
        (s, c)
    }

    /// The compile-time substitutions a trait's parameters get from a
    /// candidate's arguments.
    pub fn trait_const_substitutions_for_candidate(
        &self,
        trait_id: GlobalDefId,
        trait_args: &TyList,
        trait_const_args: &ConstArgList,
    ) -> (r: SymbolMap<ConstGenericArg>)
        ensures
            r.wf(),
            r@ == match self.def_generic_params.spec_get(trait_id) {
                Some(params) => spec_def_substitutions(
                    params@,
                    *trait_args,
                    *trait_const_args,
                    Map::empty(),
                    Map::empty(),
                ).1,
                None => Map::empty(),
            },
    {
        let (_, c) = self.generic_substitutions_and_consts_for_def(
            trait_id,
            trait_args,
            trait_const_args,
        );
        c
    }

    /// The compile-time substitutions a trait's parameters get; builtin
    /// traits have none.
    pub fn trait_const_substitutions_for_trait_id(
        &self,
        trait_id: TraitId,
        trait_args: &TyList,
        trait_const_args: &ConstArgList,
    ) -> (r: SymbolMap<ConstGenericArg>)
        ensures
            r.wf(),
            r@ == match trait_id {
                TraitId::Source(def_id) => match self.def_generic_params.spec_get(def_id) {
                    Some(params) => spec_def_substitutions(
                        params@,
                        *trait_args,
                        *trait_const_args,
                        Map::empty(),
                        Map::empty(),
                    ).1,
                    None => Map::empty(),
                },
                TraitId::Builtin(_) => Map::empty(),
            },
    {
        match trait_id {
            TraitId::Source(def_id) => self.trait_const_substitutions_for_candidate(
                def_id,
                trait_args,
                trait_const_args,
            ),
            TraitId::Builtin(_) => SymbolMap::new(),
        }
    }

    /// What an instance of the type alias `def_id` stands for: the alias's
    /// target with its parameters substituted, or the error type when the
    /// argument count is wrong. Nothing when `def_id` is not an alias.
    pub open spec fn spec_expand_type_alias_instance(
        &self,
        def_id: GlobalDefId,
        args: TyList,
        const_args: ConstArgList,
    ) -> Option<Ty> {
        match self.type_aliases.spec_get(def_id) {
            None => None,
            Some(alias) => if alias.generic_count != args.len() + const_args.len() {
                Some(Ty::Error)
            } else {
                let subst = match self.def_generic_params.spec_get(def_id) {
                    Some(params) => spec_def_substitutions(
                        params@,
                        args,
                        const_args,
                        Map::empty(),
                        Map::empty(),
                    ),
                    None => (Map::empty(), Map::empty()),
                };
                Some(spec_subst(alias.target, subst.0, subst.1, None))
            },
        }
    }

    /// Expands an instance of a type alias.
    pub fn expand_type_alias_instance(
        &self,
        def_id: GlobalDefId,
        args: &TyList,
        const_args: &ConstArgList,
    ) -> (r: Option<Ty>)
        ensures
            r == self.spec_expand_type_alias_instance(def_id, *args, *const_args),
    {
        let alias = match self.type_aliases.get(&def_id) {
            Some(a) => a,
            None => {
                return None;
            },
        };
        if !lists_hold(args, const_args, alias.generic_count) {
            return Some(Ty::Error);
        }
        let (s, c) = self.generic_substitutions_and_consts_for_def(def_id, args, const_args);
        Some(substitute_generics_and_consts(&alias.target, &s, &c))
    }

    /// The type an associated call on `def_id[args]` targets: the alias's
    /// expansion for a type alias, the nominal type otherwise.
    pub open spec fn spec_associated_nominal_target_ty(&self, def_id: GlobalDefId, args: TyList) -> Ty {
        match self.spec_expand_type_alias_instance(def_id, args, ConstArgList::Nil) {
            Some(target) => target,
            None => Ty::Nominal { def_id, args, const_args: ConstArgList::Nil },
        }
    }

    /// The type an associated call on `def_id[args]` targets.
    pub fn associated_nominal_target_ty(&self, def_id: GlobalDefId, args: TyList) -> (r: Option<Ty>)
        ensures
            r == Some(self.spec_associated_nominal_target_ty(def_id, args)),
    {
        match self.expand_type_alias_instance(def_id, &args, &ConstArgList::Nil) {
            Some(target) => Some(target),
            None => Some(Ty::Nominal { def_id, args, const_args: ConstArgList::Nil }),
        }
    }

    /// The target type of an associated call on a nominal type written
    /// without arguments, instantiated with its own generic parameters.
    pub fn associated_nominal_generic_target_ty(&self, def_id: GlobalDefId) -> (r: Option<Ty>)
        ensures
            r == match self.nominal_generics.spec_get(def_id) {
                Some(g) => Some(
                    self.spec_associated_nominal_target_ty(def_id, spec_generic_param_list(g@)),
                ),
                None => None,
            },
    {
        let generics = match self.nominal_type_generics(def_id) {
            Some(g) => g,
            None => {
                return None;
            },
        };
        let args = generic_param_list(generics);
        self.associated_nominal_target_ty(def_id, args)
    }
}

/// The generic parameters as a list of types.
fn generic_param_list(generics: &Vec<SymbolId>) -> (r: TyList)
    ensures
        r == spec_generic_param_list(generics@),
{
    let mut r = TyList::Nil;
    let mut i: usize = generics.len();
    proof {
        assert(generics@.skip(generics@.len() as int) =~= Seq::<SymbolId>::empty());
    }
    while i > 0
        invariant
            i <= generics@.len(),
            r == spec_generic_param_list(generics@.skip(i as int)),
        decreases i,
    {
        i = i - 1;
        proof {
            assert(generics@.skip(i as int).drop_first() =~= generics@.skip(i + 1));
        }
        r = TyList::Cons(Box::new(Ty::GenericParam(generics[i])), Box::new(r));
    }
    proof {
        assert(generics@.skip(0) =~= generics@);
    }
    r
}

/// Whether the two lists hold `n` items together.
fn lists_hold(l: &TyList, cl: &ConstArgList, n: usize) -> (r: bool)
    ensures
        r == (l.len() + cl.len() == n),
    decreases l,
{
    match l {
        TyList::Cons(_, t) => n > 0 && lists_hold(t, cl, n - 1),
        TyList::Nil => const_list_holds(cl, n),
    }
}

/// Whether the list holds `n` items.
fn const_list_holds(cl: &ConstArgList, n: usize) -> (r: bool)
    ensures
        r == (cl.len() == n),
    decreases cl,
{
    match cl {
        ConstArgList::Cons(_, t) => n > 0 && const_list_holds(t, n - 1),
        ConstArgList::Nil => n == 0,
    }
}

impl BodyChecker {
    /// The arguments bound to the generic parameters of a nominal type, by
    /// position; nothing bound for a definition that is not one.
    pub fn nominal_type_generic_substitutions(&self, def_id: GlobalDefId, args: &Vec<Ty>) -> (r: SymbolMap<Ty>)
        ensures
            r.wf(),
            r@ == match self.nominal_generics.spec_get(def_id) {
                Some(g) => spec_generic_substitutions(g@, args@),
                None => Map::empty(),
            },
    {
        match self.nominal_type_generics(def_id) {
            Some(generics) => generic_substitutions(generics, args),
            None => SymbolMap::new(),
        }
    }
}

} // verus!
