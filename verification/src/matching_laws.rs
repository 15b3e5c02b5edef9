//! Laws of the type-pattern matcher: a match, successful or not, only adds
//! bindings; a binding that was there before is never changed.
use vstd::prelude::*;
use crate::checker::BodyChecker;
use crate::ids::SymbolId;
use crate::pattern_matching::{ConstMap, TyMap};
use crate::ty::{ArrayLen, AssocBinding, BindingList, ConstArgList, ConstGenericArg, Ty, TyList};

verus! {

/// Every binding of `before` is in `after`, unchanged.
pub open spec fn extends<V>(before: Map<SymbolId, V>, after: Map<SymbolId, V>) -> bool {
    forall|k: SymbolId| #[trigger]
        before.contains_key(k) ==> after.contains_key(k) && after[k] == before[k]
}

impl BodyChecker {
    /// Recording a compile-time binding only adds one.
    pub proof fn lemma_record_const_extends(&self, name: SymbolId, arg: ConstGenericArg, c: ConstMap)
        ensures
            extends(c, self.spec_record_const(name, arg, c).1),
    {
    }

    /// Matching an array length only adds compile-time bindings.
    pub proof fn lemma_match_array_len_extends(&self, pattern: ArrayLen, actual: ArrayLen, c: ConstMap)
        ensures
            extends(c, self.spec_match_array_len(pattern, actual, c).1),
    {
    }

    /// Matching a compile-time argument only adds compile-time bindings.
    pub proof fn lemma_match_const_arg_extends(
        &self,
        pattern: ConstGenericArg,
        actual: ConstGenericArg,
        s: TyMap,
        c: ConstMap,
    )
        ensures
            extends(c, self.spec_match_const_arg(pattern, actual, s, c).1),
    {
    }

    /// Matching compile-time argument lists only adds compile-time bindings.
    pub proof fn lemma_match_const_list_extends(
        &self,
        patterns: ConstArgList,
        actuals: ConstArgList,
        s: TyMap,
        c: ConstMap,
    )
        ensures
            extends(c, self.spec_match_const_list(patterns, actuals, s, c).1),
        decreases patterns,
    {
        match (patterns, actuals) {
            (ConstArgList::Cons(p, pt), ConstArgList::Cons(a, at)) => {
                let (ok, c1) = self.spec_match_const_arg(p, a, s, c);
                self.lemma_match_const_arg_extends(p, a, s, c);
                if ok {
                    self.lemma_match_const_list_extends(*pt, *at, s, c1);
                }
            },
            _ => {},
        }
    }

    /// A match, successful or not, keeps every binding it started with.
    pub proof fn lemma_match_extends(&self, pattern: Ty, actual: Ty, s: TyMap, c: ConstMap)
        ensures
            extends(s, self.spec_match(pattern, actual, s, c).1),
            extends(c, self.spec_match(pattern, actual, s, c).2),
        decreases pattern, 0nat, 0nat,
    {
        match pattern {
            Ty::Tuple(pe) => match actual {
                Ty::Tuple(ae) => {
                    self.lemma_match_list_extends(pe, ae, s, c);
                },
                _ => {},
            },
            Ty::Pointer { elem: pe, .. } => match actual {
                Ty::Pointer { elem: ae, .. } => {
                    self.lemma_match_extends(*pe, *ae, s, c);
                },
                _ => {},
            },
            Ty::VolatilePointer { elem: pe, .. } => match actual {
                Ty::VolatilePointer { elem: ae, .. } => {
                    self.lemma_match_extends(*pe, *ae, s, c);
                },
                _ => {},
            },
            Ty::Slice { elem: pe, .. } => match actual {
                Ty::Slice { elem: ae, .. } => {
                    self.lemma_match_extends(*pe, *ae, s, c);
                },
                _ => {},
            },
            Ty::SlicePointee { elem: pe } => match actual {
                Ty::SlicePointee { elem: ae } => {
                    self.lemma_match_extends(*pe, *ae, s, c);
                },
                _ => {},
            },
            Ty::Array { len: pl, elem: pe } => match actual {
                Ty::Array { len: al, elem: ae } => {
                    let (len_ok, s1, c1) = match (pl, al) {
                        (
                            ArrayLen::Builtin { builtin: pb, ty: pt },
                            ArrayLen::Builtin { builtin: ab, ty: at },
                        ) => if pb == ab {
                            self.lemma_match_extends(*pt, *at, s, c);
                            self.spec_match(*pt, *at, s, c)
                        } else {
                            self.lemma_match_array_len_extends(pl, al, c);
                            let (ok, c1) = self.spec_match_array_len(pl, al, c);
                            (ok, s, c1)
                        },
                        _ => {
                            self.lemma_match_array_len_extends(pl, al, c);
                            let (ok, c1) = self.spec_match_array_len(pl, al, c);
                            (ok, s, c1)
                        },
                    };
                    if len_ok {
                        self.lemma_match_extends(*pe, *ae, s1, c1);
                    }
                },
                _ => {},
            },
            Ty::Range { bound: pb, .. } => match actual {
                Ty::Range { bound: ab, .. } => match (pb, ab) {
                    (Some(p), Some(a)) => {
                        self.lemma_match_extends(*p, *a, s, c);
                    },
                    _ => {},
                },
                _ => {},
            },
            Ty::FunctionPointer { params: pp, return_type: pr, .. } => match actual {
                Ty::FunctionPointer { params: ap, return_type: ar, .. } => {
                    self.lemma_match_list_extends(pp, ap, s, c);
                    let (ok, s1, c1) = self.spec_match_list(pp, ap, s, c);
                    self.lemma_match_extends(*pr, *ar, s1, c1);
                },
                _ => {},
            },
            Ty::Callable { params: pp, return_type: pr, .. } => match actual {
                Ty::Callable { params: ap, return_type: ar, .. } => {
                    self.lemma_match_list_extends(pp, ap, s, c);
                    let (ok, s1, c1) = self.spec_match_list(pp, ap, s, c);
                    self.lemma_match_extends(*pr, *ar, s1, c1);
                },
                _ => {},
            },
            Ty::CallablePointee { params: pp, return_type: pr } => match actual {
                Ty::CallablePointee { params: ap, return_type: ar } => {
                    self.lemma_match_list_extends(pp, ap, s, c);
                    let (ok, s1, c1) = self.spec_match_list(pp, ap, s, c);
                    self.lemma_match_extends(*pr, *ar, s1, c1);
                },
                _ => {},
            },
            Ty::Optional { elem: pe } => match actual {
                Ty::Optional { elem: ae } => {
                    self.lemma_match_extends(*pe, *ae, s, c);
                },
                _ => {},
            },
            Ty::ErrorUnion { error: pe, value: pv } => match actual {
                Ty::ErrorUnion { error: ae, value: av } => {
                    self.lemma_match_extends(*pe, *ae, s, c);
                    let (ok, s1, c1) = self.spec_match(*pe, *ae, s, c);
                    self.lemma_match_extends(*pv, *av, s1, c1);
                },
                _ => {},
            },
            Ty::Nominal { args: pa, const_args: pc, .. } => match actual {
                Ty::Nominal { args: aa, const_args: ac, .. } => {
                    self.lemma_match_list_extends(pa, aa, s, c);
                    let (ok, s1, c1) = self.spec_match_list(pa, aa, s, c);
                    self.lemma_match_const_list_extends(pc, ac, s1, c1);
                },
                _ => {},
            },
            Ty::BuiltinTrait { args: pa, .. } => match actual {
                Ty::BuiltinTrait { args: aa, .. } => {
                    self.lemma_match_list_extends(pa, aa, s, c);
                },
                _ => {},
            },
            Ty::TraitObject { trait_args: pa, trait_const_args: pc, bindings: pb, .. } => match actual {
                Ty::TraitObject { trait_args: aa, trait_const_args: ac, bindings: ab, .. } => {
                    self.lemma_match_list_extends(pa, aa, s, c);
                    let (ok, s1, c1) = self.spec_match_list(pa, aa, s, c);
                    self.lemma_match_const_list_extends(pc, ac, s1, c1);
                    let (ok2, c2) = self.spec_match_const_list(pc, ac, s1, c1);
                    self.lemma_match_bindings_extends(pb, ab, s1, c2);
                },
                _ => {},
            },
            Ty::TraitObjectPointee { trait_args: pa, trait_const_args: pc, bindings: pb, .. } =>
                match actual {
                Ty::TraitObjectPointee { trait_args: aa, trait_const_args: ac, bindings: ab, .. } => {
                    self.lemma_match_list_extends(pa, aa, s, c);
                    let (ok, s1, c1) = self.spec_match_list(pa, aa, s, c);
                    self.lemma_match_const_list_extends(pc, ac, s1, c1);
                    let (ok2, c2) = self.spec_match_const_list(pc, ac, s1, c1);
                    self.lemma_match_bindings_extends(pb, ab, s1, c2);
                },
                _ => {},
            },
            Ty::Projection { self_ty: ps, trait_args: pa, trait_const_args: pc, .. } => match actual {
                Ty::Projection { self_ty: as_, trait_args: aa, trait_const_args: ac, .. } => {
                    self.lemma_match_extends(*ps, *as_, s, c);
                    let (ok, s1, c1) = self.spec_match(*ps, *as_, s, c);
                    self.lemma_match_list_extends(pa, aa, s1, c1);
                    let (ok2, s2, c2) = self.spec_match_list(pa, aa, s1, c1);
                    self.lemma_match_const_list_extends(pc, ac, s2, c2);
                },
                _ => {},
            },
            _ => {},
        }
    }

    /// Matching type lists keeps every binding it started with.
    pub proof fn lemma_match_list_extends(&self, patterns: TyList, actuals: TyList, s: TyMap, c: ConstMap)
        ensures
            extends(s, self.spec_match_list(patterns, actuals, s, c).1),
            extends(c, self.spec_match_list(patterns, actuals, s, c).2),
        decreases patterns, 0nat, 0nat,
    {
        match (patterns, actuals) {
            (TyList::Cons(p, pt), TyList::Cons(a, at)) => {
                self.lemma_match_extends(*p, *a, s, c);
                let (ok, s1, c1) = self.spec_match(*p, *a, s, c);
                if ok {
                    self.lemma_match_list_extends(*pt, *at, s1, c1);
                }
            },
            _ => {},
        }
    }

    /// A binding match that succeeds keeps every binding it started with.
    pub proof fn lemma_try_match_binding_extends(
        &self,
        pattern: AssocBinding,
        actual: AssocBinding,
        s: TyMap,
        c: ConstMap,
    )
        ensures
            match self.spec_try_match_binding(pattern, actual, s, c) {
                Some((s1, c1)) => extends(s, s1) && extends(c, c1),
                None => true,
            },
        decreases pattern, 0nat, 0nat,
    {
        self.lemma_match_list_extends(pattern.trait_args, actual.trait_args, s, c);
        let (ok, s1, c1) = self.spec_match_list(pattern.trait_args, actual.trait_args, s, c);
        self.lemma_match_const_list_extends(pattern.trait_const_args, actual.trait_const_args, s1, c1);
        let (ok2, c2) = self.spec_match_const_list(
            pattern.trait_const_args,
            actual.trait_const_args,
            s1,
            c1,
        );
        self.lemma_match_extends(*pattern.ty, *actual.ty, s1, c2);
    }

    /// A pairing of bindings that succeeds keeps every binding it started
    /// with.
    pub proof fn lemma_match_bindings_extends(
        &self,
        patterns: BindingList,
        actuals: BindingList,
        s: TyMap,
        c: ConstMap,
    )
        ensures
            match self.spec_match_bindings(patterns, actuals, s, c) {
                Some((s1, c1)) => extends(s, s1) && extends(c, c1),
                None => true,
            },
        decreases patterns, 3nat, 0nat,
    {
        if patterns.len() == actuals.len() {
            self.lemma_match_bindings_from_extends(
                patterns,
                actuals,
                Seq::new(actuals.len(), |i: int| false),
                s,
                c,
            );
        }
    }

    pub proof fn lemma_match_bindings_from_extends(
        &self,
        patterns: BindingList,
        actuals: BindingList,
        used: Seq<bool>,
        s: TyMap,
        c: ConstMap,
    )
        ensures
            match self.spec_match_bindings_from(patterns, actuals, used, s, c) {
                Some((s1, c1)) => extends(s, s1) && extends(c, c1),
                None => true,
            },
        decreases patterns, 2nat, 0nat,
    {
        match patterns {
            BindingList::Nil => {},
            BindingList::Cons(_, _) => {
                self.lemma_match_binding_at_extends(patterns, actuals, actuals, 0, used, s, c);
            },
        }
    }

    pub proof fn lemma_match_binding_at_extends(
        &self,
        patterns: BindingList,
        actuals: BindingList,
        remaining: BindingList,
        index: nat,
        used: Seq<bool>,
        s: TyMap,
        c: ConstMap,
    )
        ensures
            match self.spec_match_binding_at(patterns, actuals, remaining, index, used, s, c) {
                Some((s1, c1)) => extends(s, s1) && extends(c, c1),
                None => true,
            },
        decreases patterns, 1nat, remaining.len(),
    {
        match patterns {
            BindingList::Nil => {},
            BindingList::Cons(pattern, rest) => match remaining {
                BindingList::Nil => {},
                BindingList::Cons(actual, tail) => {
                    self.lemma_match_binding_at_extends(patterns, actuals, *tail, index + 1, used, s, c);
                    if !(index < used.len() && used[index as int]) {
                        self.lemma_try_match_binding_extends(pattern, actual, s, c);
                        match self.spec_try_match_binding(pattern, actual, s, c) {
                            Some((s1, c1)) => {
                                self.lemma_match_bindings_from_extends(
                                    *rest,
                                    actuals,
                                    used.update(index as int, true),
                                    s1,
                                    c1,
                                );
                            },
                            None => {},
                        }
                    }
                },
            },
        }
    }
}

} // verus!
