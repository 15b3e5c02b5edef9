//! Laws of inference: it keeps what it has found. A binding is replaced
//! only when it bound a parameter to itself, compile-time bindings are
//! never replaced, and diagnostics are only ever appended.
use vstd::prelude::*;
use crate::checker::{BodyChecker, Diagnostic};
use crate::const_inference::ConstInferState;
use crate::ids::{Span, SymbolId};
use crate::inference::InferState;
use crate::inferred::{
    InferredClosureSignature, InferredList, InferredType, spec_callable_parts, spec_closure_pattern_parts,
    spec_materialize,
};
use crate::matching_laws::extends;
use crate::pattern_matching::{ConstMap, TyMap};
use crate::ty::{ArrayLen, AssocBinding, BindingList, ConstArgList, ConstGenericArg, Ty, TyList};

verus! {

/// Every binding of `before` is in `after`, unchanged unless it bound the
/// parameter to itself.
pub open spec fn keeps_bindings(before: TyMap, after: TyMap) -> bool {
    forall|k: SymbolId| #[trigger]
        before.contains_key(k) ==> after.contains_key(k) && (after[k] == before[k] || before[k]
            == Ty::GenericParam(k))
}

/// `after` starts with `before`.
pub open spec fn appends(before: Seq<Diagnostic>, after: Seq<Diagnostic>) -> bool {
    before.len() <= after.len() && forall|i: int| 0 <= i < before.len() ==> after[i] == #[trigger] before[i]
}

/// The inference state only grows from `before` to `after`.
pub open spec fn infer_grows(before: InferState, after: InferState) -> bool {
    keeps_bindings(before.0, after.0) && appends(before.1, after.1)
}

/// The compile-time inference state only grows from `before` to `after`.
pub open spec fn const_infer_grows(before: ConstInferState, after: ConstInferState) -> bool {
    extends(before.0, after.0) && appends(before.1, after.1)
}

impl BodyChecker {
    /// A successful pairing of bindings keeps every binding it started
    /// with.
    pub proof fn lemma_infer_bindings_extends(&self, patterns: BindingList, actuals: BindingList, s: TyMap)
        ensures
            match self.spec_infer_bindings(patterns, actuals, s) {
                Some((s1, _)) => extends(s, s1),
                None => true,
            },
    {
        if patterns.len() == actuals.len() {
            self.lemma_infer_bindings_from_extends(
                patterns,
                actuals,
                Seq::new(actuals.len(), |i: int| false),
                s,
            );
        }
    }

    pub proof fn lemma_infer_bindings_from_extends(
        &self,
        patterns: BindingList,
        actuals: BindingList,
        used: Seq<bool>,
        s: TyMap,
    )
        ensures
            match self.spec_infer_bindings_from(patterns, actuals, used, s) {
                Some((s1, _)) => extends(s, s1),
                None => true,
            },
        decreases patterns, 1nat, 0nat,
    {
        match patterns {
            BindingList::Nil => {},
            BindingList::Cons(_, _) => {
                self.lemma_infer_binding_at_extends(patterns, actuals, actuals, 0, used, s);
            },
        }
    }

    pub proof fn lemma_infer_binding_at_extends(
        &self,
        patterns: BindingList,
        actuals: BindingList,
        remaining: BindingList,
        index: nat,
        used: Seq<bool>,
        s: TyMap,
    )
        ensures
            match self.spec_infer_binding_at(patterns, actuals, remaining, index, used, s) {
                Some((s1, _)) => extends(s, s1),
                None => true,
            },
        decreases patterns, 0nat, remaining.len(),
    {
        match patterns {
            BindingList::Nil => {},
            BindingList::Cons(pattern, rest) => match remaining {
                BindingList::Nil => {},
                BindingList::Cons(actual, tail) => {
                    self.lemma_infer_binding_at_extends(patterns, actuals, *tail, index + 1, used, s);
                    self.lemma_infer_binding_with_extends(pattern, *rest, actual, actuals, index, used, s);
                },
            },
        }
    }

    pub proof fn lemma_infer_binding_with_extends(
        &self,
        pattern: AssocBinding,
        rest: BindingList,
        actual: AssocBinding,
        actuals: BindingList,
        index: nat,
        used: Seq<bool>,
        s: TyMap,
    )
        ensures
            match self.spec_infer_binding_with(pattern, rest, actual, actuals, index, used, s) {
                Some((s1, _)) => extends(s, s1),
                None => true,
            },
        decreases rest, 2nat, 0nat,
    {
        reveal(BodyChecker::spec_binding_substitution);
        self.lemma_try_match_binding_extends(pattern, actual, s, Map::empty());
        match self.spec_binding_substitution(pattern, actual, s) {
            Some(s1) => {
                self.lemma_infer_bindings_from_extends(rest, actuals, used.update(index as int, true), s1);
            },
            None => {},
        }
    }

    /// Inference keeps what it had found: every binding survives, replaced
    /// only when it bound a parameter to itself, and diagnostics are only
    /// appended.
    pub proof fn lemma_infer_keeps(&self, pattern: Ty, actual: Ty, st: InferState, span: Span)
        ensures
            infer_grows(st, self.spec_infer(pattern, actual, st, span)),
        decreases pattern, 0nat,
    {
        match pattern {
            Ty::Pointer { elem: pe, .. } => match actual {
                Ty::Pointer { elem: ae, .. } => {
                    self.lemma_infer_keeps(*pe, *ae, st, span);
                },
                _ => {},
            },
            Ty::VolatilePointer { elem: pe, .. } => match actual {
                Ty::VolatilePointer { elem: ae, .. } => {
                    self.lemma_infer_keeps(*pe, *ae, st, span);
                },
                _ => {},
            },
            Ty::Slice { elem: pe, .. } => match actual {
                Ty::Slice { elem: ae, .. } => {
                    self.lemma_infer_keeps(*pe, *ae, st, span);
                },
                Ty::Pointer { elem: ae, .. } => match *ae {
                    Ty::Array { elem: inner, .. } | Ty::SlicePointee { elem: inner } => {
                        self.lemma_infer_keeps(*pe, *inner, st, span);
                    },
                    _ => {},
                },
                _ => {},
            },
            Ty::SlicePointee { elem: pe } => match actual {
                Ty::SlicePointee { elem: ae } => {
                    self.lemma_infer_keeps(*pe, *ae, st, span);
                },
                _ => {},
            },
            Ty::Array { len: pl, elem: pe } => match actual {
                Ty::Array { len: al, elem: ae } => {
                    let st1 = match (pl, al) {
                        (ArrayLen::Builtin { builtin: pb, ty: pt }, ArrayLen::Builtin { builtin: ab, ty: at }) =>
                            if pb == ab {
                            self.lemma_infer_keeps(*pt, *at, st, span);
                            self.spec_infer(*pt, *at, st, span)
                        } else {
                            st
                        },
                        _ => st,
                    };
                    self.lemma_infer_keeps(*pe, *ae, st1, span);
                },
                _ => {},
            },
            Ty::Range { bound: pb, .. } => match actual {
                Ty::Range { bound: ab, .. } => match (pb, ab) {
                    (Some(p), Some(a)) => {
                        self.lemma_infer_keeps(*p, *a, st, span);
                    },
                    _ => {},
                },
                _ => {},
            },
            Ty::FunctionPointer { params: pp, return_type: pret, .. } => match actual {
                Ty::FunctionPointer { params: ap, return_type: aret, .. } => {
                    self.lemma_infer_list_keeps(pp, ap, st, span);
                    self.lemma_infer_keeps(*pret, *aret, self.spec_infer_list(pp, ap, st, span), span);
                },
                _ => {},
            },
            Ty::Callable { params: pp, return_type: pret, .. } => match crate::inference::spec_actual_callable(
                actual,
            ) {
                Some((_, ap, aret)) => {
                    self.lemma_infer_list_keeps(pp, ap, st, span);
                    self.lemma_infer_keeps(*pret, aret, self.spec_infer_list(pp, ap, st, span), span);
                },
                None => {},
            },
            Ty::CallablePointee { params: pp, return_type: pret } => match actual {
                Ty::CallablePointee { params: ap, return_type: aret } => {
                    self.lemma_infer_list_keeps(pp, ap, st, span);
                    self.lemma_infer_keeps(*pret, *aret, self.spec_infer_list(pp, ap, st, span), span);
                },
                _ => {},
            },
            Ty::Optional { elem: pe } => match actual {
                Ty::Optional { elem: ae } => {
                    self.lemma_infer_keeps(*pe, *ae, st, span);
                },
                _ => {},
            },
            Ty::ErrorUnion { error: pe, value: pv } => match actual {
                Ty::ErrorUnion { error: ae, value: av } => {
                    self.lemma_infer_keeps(*pe, *ae, st, span);
                    self.lemma_infer_keeps(*pv, *av, self.spec_infer(*pe, *ae, st, span), span);
                },
                _ => {},
            },
            Ty::Tuple(ps) => match actual {
                Ty::Tuple(as_) => {
                    self.lemma_infer_list_keeps(ps, as_, st, span);
                },
                _ => {},
            },
            Ty::Nominal { args: pa, const_args: pc, .. } => match actual {
                Ty::Nominal { args: aa, const_args: ac, .. } => {
                    self.lemma_infer_list_keeps(pa, aa, st, span);
                    self.lemma_infer_const_tys_keeps(pc, ac, self.spec_infer_list(pa, aa, st, span), span);
                },
                _ => {},
            },
            Ty::BuiltinTrait { args: pa, .. } => match actual {
                Ty::BuiltinTrait { args: aa, .. } => {
                    self.lemma_infer_list_keeps(pa, aa, st, span);
                },
                _ => {},
            },
            Ty::TraitObject { trait_args: pa, trait_const_args: pc, bindings: pb, .. } => match actual {
                Ty::TraitObject { trait_args: aa, trait_const_args: ac, bindings: ab, .. } => {
                    self.lemma_infer_list_keeps(pa, aa, st, span);
                    let st1 = self.spec_infer_list(pa, aa, st, span);
                    self.lemma_infer_const_tys_keeps(pc, ac, st1, span);
                    let st2 = self.spec_infer_const_tys(pc, ac, st1, span);
                    self.lemma_infer_object_bindings_keeps(pb, ab, st2, span);
                },
                _ => {},
            },
            Ty::TraitObjectPointee { trait_args: pa, trait_const_args: pc, bindings: pb, .. } =>
                match actual {
                Ty::TraitObjectPointee { trait_args: aa, trait_const_args: ac, bindings: ab, .. } => {
                    self.lemma_infer_list_keeps(pa, aa, st, span);
                    let st1 = self.spec_infer_list(pa, aa, st, span);
                    self.lemma_infer_const_tys_keeps(pc, ac, st1, span);
                    let st2 = self.spec_infer_const_tys(pc, ac, st1, span);
                    self.lemma_infer_object_bindings_keeps(pb, ab, st2, span);
                },
                _ => {},
            },
            Ty::Projection { self_ty: ps, trait_args: pa, trait_const_args: pc, .. } => match actual {
                Ty::Projection { self_ty: as_, trait_args: aa, trait_const_args: ac, .. } => {
                    self.lemma_infer_keeps(*ps, *as_, st, span);
                    let st1 = self.spec_infer(*ps, *as_, st, span);
                    self.lemma_infer_list_keeps(pa, aa, st1, span);
                    let st2 = self.spec_infer_list(pa, aa, st1, span);
                    self.lemma_infer_const_tys_keeps(pc, ac, st2, span);
                },
                _ => {},
            },
            _ => {},
        }
    }

    pub proof fn lemma_infer_list_keeps(&self, patterns: TyList, actuals: TyList, st: InferState, span: Span)
        ensures
            infer_grows(st, self.spec_infer_list(patterns, actuals, st, span)),
        decreases patterns, 0nat,
    {
        match (patterns, actuals) {
            (TyList::Cons(p, pt), TyList::Cons(a, at)) => {
                self.lemma_infer_keeps(*p, *a, st, span);
                self.lemma_infer_list_keeps(*pt, *at, self.spec_infer(*p, *a, st, span), span);
            },
            _ => {},
        }
    }

    pub proof fn lemma_infer_const_tys_keeps(
        &self,
        patterns: ConstArgList,
        actuals: ConstArgList,
        st: InferState,
        span: Span,
    )
        ensures
            infer_grows(st, self.spec_infer_const_tys(patterns, actuals, st, span)),
        decreases patterns, 0nat,
    {
        match (patterns, actuals) {
            (ConstArgList::Cons(p, pt), ConstArgList::Cons(a, at)) => {
                self.lemma_infer_keeps(*p.ty, *a.ty, st, span);
                self.lemma_infer_const_tys_keeps(*pt, *at, self.spec_infer(*p.ty, *a.ty, st, span), span);
            },
            _ => {},
        }
    }

    pub proof fn lemma_infer_object_bindings_keeps(
        &self,
        patterns: BindingList,
        actuals: BindingList,
        st: InferState,
        span: Span,
    )
        ensures
            infer_grows(st, self.spec_infer_object_bindings(patterns, actuals, st, span)),
        decreases patterns, 2nat,
    {
        self.lemma_infer_bindings_extends(patterns, actuals, st.0);
        match self.spec_infer_bindings(patterns, actuals, st.0) {
            Some((s1, matches)) => {
                self.lemma_infer_matched_keeps(patterns, matches, actuals, (s1, st.1), span);
            },
            None => {},
        }
    }

    pub proof fn lemma_infer_matched_keeps(
        &self,
        patterns: BindingList,
        matches: Seq<usize>,
        actuals: BindingList,
        st: InferState,
        span: Span,
    )
        ensures
            infer_grows(st, self.spec_infer_matched(patterns, matches, actuals, st, span)),
        decreases patterns, 1nat,
    {
        match patterns {
            BindingList::Cons(p, rest) => if matches.len() > 0 && matches[0] < actuals.len() {
                let a = actuals.seq()[matches[0] as int];
                self.lemma_infer_list_keeps(p.trait_args, a.trait_args, st, span);
                let st1 = self.spec_infer_list(p.trait_args, a.trait_args, st, span);
                self.lemma_infer_const_tys_keeps(p.trait_const_args, a.trait_const_args, st1, span);
                let st2 = self.spec_infer_const_tys(p.trait_const_args, a.trait_const_args, st1, span);
                self.lemma_infer_keeps(*p.ty, *a.ty, st2, span);
                let st3 = self.spec_infer(*p.ty, *a.ty, st2, span);
                self.lemma_infer_matched_keeps(*rest, matches.drop_first(), actuals, st3, span);
            },
            BindingList::Nil => {},
        }
    }
}


impl BodyChecker {
    /// A successful pairing of bindings keeps every compile-time binding it
    /// started with.
    pub proof fn lemma_infer_const_bindings_extends(&self, patterns: BindingList, actuals: BindingList, c: ConstMap)
        ensures
            match self.spec_infer_const_bindings(patterns, actuals, c) {
                Some((c1, _)) => extends(c, c1),
                None => true,
            },
    {
        if patterns.len() == actuals.len() {
            self.lemma_infer_const_bindings_from_extends(
                patterns,
                actuals,
                Seq::new(actuals.len(), |i: int| false),
                c,
            );
        }
    }

    pub proof fn lemma_infer_const_bindings_from_extends(
        &self,
        patterns: BindingList,
        actuals: BindingList,
        used: Seq<bool>,
        c: ConstMap,
    )
        ensures
            match self.spec_infer_const_bindings_from(patterns, actuals, used, c) {
                Some((c1, _)) => extends(c, c1),
                None => true,
            },
        decreases patterns, 1nat, 0nat,
    {
        match patterns {
            BindingList::Nil => {},
            BindingList::Cons(_, _) => {
                self.lemma_infer_const_binding_at_extends(patterns, actuals, actuals, 0, used, c);
            },
        }
    }

    pub proof fn lemma_infer_const_binding_at_extends(
        &self,
        patterns: BindingList,
        actuals: BindingList,
        remaining: BindingList,
        index: nat,
        used: Seq<bool>,
        c: ConstMap,
    )
        ensures
            match self.spec_infer_const_binding_at(patterns, actuals, remaining, index, used, c) {
                Some((c1, _)) => extends(c, c1),
                None => true,
            },
        decreases patterns, 0nat, remaining.len(),
    {
        match patterns {
            BindingList::Nil => {},
            BindingList::Cons(pattern, rest) => match remaining {
                BindingList::Nil => {},
                BindingList::Cons(actual, tail) => {
                    self.lemma_infer_const_binding_at_extends(patterns, actuals, *tail, index + 1, used, c);
                    self.lemma_infer_const_binding_with_extends(pattern, *rest, actual, actuals, index, used, c);
                },
            },
        }
    }

    pub proof fn lemma_infer_const_binding_with_extends(
        &self,
        pattern: AssocBinding,
        rest: BindingList,
        actual: AssocBinding,
        actuals: BindingList,
        index: nat,
        used: Seq<bool>,
        c: ConstMap,
    )
        ensures
            match self.spec_infer_const_binding_with(pattern, rest, actual, actuals, index, used, c) {
                Some((c1, _)) => extends(c, c1),
                None => true,
            },
        decreases rest, 2nat, 0nat,
    {
        reveal(BodyChecker::spec_const_binding_substitution);
        self.lemma_try_match_binding_extends(pattern, actual, Map::empty(), c);
        match self.spec_const_binding_substitution(pattern, actual, c) {
            Some(c1) => {
                self.lemma_infer_const_bindings_from_extends(rest, actuals, used.update(index as int, true), c1);
            },
            None => {},
        }
    }

    /// Inference of compile-time parameters keeps what it had found: no
    /// binding is ever replaced, and diagnostics are only appended.
    pub proof fn lemma_infer_consts_keeps(&self, pattern: Ty, actual: Ty, st: ConstInferState, span: Span)
        ensures
            const_infer_grows(st, self.spec_infer_consts(pattern, actual, st, span)),
        decreases pattern, 0nat,
    {
        match (pattern, actual) {
            (Ty::Array { len: pl, elem: pe }, Ty::Array { len: al, elem: ae }) => {
                let st1 = self.spec_infer_const_from_len(pl, al, st, span);
                assert(const_infer_grows(st, st1));
                self.lemma_infer_consts_keeps(*pe, *ae, st1, span);
            },
            (Ty::Pointer { elem: pe, .. }, Ty::Pointer { elem: ae, .. })
            | (Ty::VolatilePointer { elem: pe, .. }, Ty::VolatilePointer { elem: ae, .. })
            | (Ty::Slice { elem: pe, .. }, Ty::Slice { elem: ae, .. })
            | (Ty::SlicePointee { elem: pe }, Ty::SlicePointee { elem: ae })
            | (Ty::Optional { elem: pe }, Ty::Optional { elem: ae }) => {
                self.lemma_infer_consts_keeps(*pe, *ae, st, span);
            },
            (Ty::Range { bound: pb, .. }, Ty::Range { bound: ab, .. }) => match (pb, ab) {
                (Some(p), Some(a)) => {
                    self.lemma_infer_consts_keeps(*p, *a, st, span);
                },
                _ => {},
            },
            (
                Ty::FunctionPointer { params: pp, return_type: pret, .. },
                Ty::FunctionPointer { params: ap, return_type: aret, .. },
            )
            | (
                Ty::Callable { params: pp, return_type: pret, .. },
                Ty::Callable { params: ap, return_type: aret, .. },
            )
            | (
                Ty::CallablePointee { params: pp, return_type: pret },
                Ty::CallablePointee { params: ap, return_type: aret },
            ) => {
                self.lemma_infer_consts_list_keeps(pp, ap, st, span);
                self.lemma_infer_consts_keeps(*pret, *aret, self.spec_infer_consts_list(pp, ap, st, span), span);
            },
            (Ty::ErrorUnion { error: pe, value: pv }, Ty::ErrorUnion { error: ae, value: av }) => {
                self.lemma_infer_consts_keeps(*pe, *ae, st, span);
                self.lemma_infer_consts_keeps(*pv, *av, self.spec_infer_consts(*pe, *ae, st, span), span);
            },
            (Ty::Tuple(ps), Ty::Tuple(as_)) => {
                self.lemma_infer_consts_list_keeps(ps, as_, st, span);
            },
            (Ty::Nominal { args: pa, const_args: pc, .. }, Ty::Nominal { args: aa, const_args: ac, .. }) => {
                self.lemma_infer_consts_list_keeps(pa, aa, st, span);
                self.lemma_infer_consts_args_keeps(pc, ac, self.spec_infer_consts_list(pa, aa, st, span), span);
            },
            (Ty::BuiltinTrait { args: pa, .. }, Ty::BuiltinTrait { args: aa, .. }) => {
                self.lemma_infer_consts_list_keeps(pa, aa, st, span);
            },
            (
                Ty::TraitObject { trait_args: pa, trait_const_args: pc, bindings: pb, .. },
                Ty::TraitObject { trait_args: aa, trait_const_args: ac, bindings: ab, .. },
            )
            | (
                Ty::TraitObjectPointee { trait_args: pa, trait_const_args: pc, bindings: pb, .. },
                Ty::TraitObjectPointee { trait_args: aa, trait_const_args: ac, bindings: ab, .. },
            ) => {
                self.lemma_infer_consts_list_keeps(pa, aa, st, span);
                let st1 = self.spec_infer_consts_list(pa, aa, st, span);
                self.lemma_infer_consts_args_keeps(pc, ac, st1, span);
                let st2 = self.spec_infer_consts_args(pc, ac, st1, span);
                self.lemma_infer_const_object_bindings_keeps(pb, ab, st2, span);
            },
            (
                Ty::Projection { self_ty: ps, trait_args: pa, trait_const_args: pc, .. },
                Ty::Projection { self_ty: as_, trait_args: aa, trait_const_args: ac, .. },
            ) => {
                self.lemma_infer_consts_keeps(*ps, *as_, st, span);
                let st1 = self.spec_infer_consts(*ps, *as_, st, span);
                self.lemma_infer_consts_list_keeps(pa, aa, st1, span);
                let st2 = self.spec_infer_consts_list(pa, aa, st1, span);
                self.lemma_infer_consts_args_keeps(pc, ac, st2, span);
            },
            _ => {},
        }
    }

    pub proof fn lemma_infer_consts_list_keeps(&self, patterns: TyList, actuals: TyList, st: ConstInferState, span: Span)
        ensures
            const_infer_grows(st, self.spec_infer_consts_list(patterns, actuals, st, span)),
        decreases patterns, 0nat,
    {
        match (patterns, actuals) {
            (TyList::Cons(p, pt), TyList::Cons(a, at)) => {
                self.lemma_infer_consts_keeps(*p, *a, st, span);
                self.lemma_infer_consts_list_keeps(*pt, *at, self.spec_infer_consts(*p, *a, st, span), span);
            },
            _ => {},
        }
    }

    pub proof fn lemma_infer_const_from_arg_keeps(
        &self,
        pattern: ConstGenericArg,
        actual: ConstGenericArg,
        st: ConstInferState,
        span: Span,
    )
        ensures
            const_infer_grows(st, self.spec_infer_const_from_arg(pattern, actual, st, span)),
        decreases pattern, 0nat,
    {
        self.lemma_infer_consts_keeps(*pattern.ty, *actual.ty, st, span);
    }

    pub proof fn lemma_infer_consts_args_keeps(
        &self,
        patterns: ConstArgList,
        actuals: ConstArgList,
        st: ConstInferState,
        span: Span,
    )
        ensures
            const_infer_grows(st, self.spec_infer_consts_args(patterns, actuals, st, span)),
        decreases patterns, 0nat,
    {
        match (patterns, actuals) {
            (ConstArgList::Cons(p, pt), ConstArgList::Cons(a, at)) => {
                self.lemma_infer_const_from_arg_keeps(p, a, st, span);
                self.lemma_infer_consts_args_keeps(*pt, *at, self.spec_infer_const_from_arg(p, a, st, span), span);
            },
            _ => {},
        }
    }

    pub proof fn lemma_infer_const_object_bindings_keeps(
        &self,
        patterns: BindingList,
        actuals: BindingList,
        st: ConstInferState,
        span: Span,
    )
        ensures
            const_infer_grows(st, self.spec_infer_const_object_bindings(patterns, actuals, st, span)),
        decreases patterns, 2nat,
    {
        self.lemma_infer_const_bindings_extends(patterns, actuals, st.0);
        match self.spec_infer_const_bindings(patterns, actuals, st.0) {
            Some((c1, matches)) => {
                self.lemma_infer_const_matched_keeps(patterns, matches, actuals, (c1, st.1), span);
            },
            None => {},
        }
    }

    pub proof fn lemma_infer_const_matched_keeps(
        &self,
        patterns: BindingList,
        matches: Seq<usize>,
        actuals: BindingList,
        st: ConstInferState,
        span: Span,
    )
        ensures
            const_infer_grows(st, self.spec_infer_const_matched(patterns, matches, actuals, st, span)),
        decreases patterns, 1nat,
    {
        match patterns {
            BindingList::Cons(p, rest) => if matches.len() > 0 && matches[0] < actuals.len() {
                let a = actuals.seq()[matches[0] as int];
                self.lemma_infer_consts_list_keeps(p.trait_args, a.trait_args, st, span);
                let st1 = self.spec_infer_consts_list(p.trait_args, a.trait_args, st, span);
                self.lemma_infer_consts_args_keeps(p.trait_const_args, a.trait_const_args, st1, span);
                let st2 = self.spec_infer_consts_args(p.trait_const_args, a.trait_const_args, st1, span);
                self.lemma_infer_consts_keeps(*p.ty, *a.ty, st2, span);
                let st3 = self.spec_infer_consts(*p.ty, *a.ty, st2, span);
                self.lemma_infer_const_matched_keeps(*rest, matches.drop_first(), actuals, st3, span);
            },
            BindingList::Nil => {},
        }
    }
}


impl BodyChecker {
    /// Inference from a partial type keeps what it had found, as inference
    /// from a type does.
    pub proof fn lemma_infer_from_inferred_keeps(&self, pattern: Ty, actual: InferredType, st: InferState, span: Span)
        ensures
            infer_grows(st, self.spec_infer_from_inferred(pattern, actual, st, span)),
        decreases actual,
    {
        match spec_materialize(actual) {
            Some(a) => {
                self.lemma_infer_keeps(pattern, a, st, span);
            },
            None => match actual {
                InferredType::Tuple(actuals) => match pattern {
                    Ty::Tuple(patterns) => {
                        self.lemma_infer_from_inferred_list_keeps(patterns, actuals, st, span);
                    },
                    _ => {},
                },
                InferredType::Pointer { elem: ae, .. } => match pattern {
                    Ty::Pointer { elem: pe, .. } => {
                        self.lemma_infer_from_inferred_keeps(*pe, *ae, st, span);
                    },
                    _ => {},
                },
                InferredType::Optional(ae) => match pattern {
                    Ty::Optional { elem: pe } => {
                        self.lemma_infer_from_inferred_keeps(*pe, *ae, st, span);
                    },
                    _ => {},
                },
                InferredType::ErrorUnion { error: ae, value: av } => match pattern {
                    Ty::ErrorUnion { error: pe, value: pv } => {
                        self.lemma_infer_from_inferred_keeps(*pe, *ae, st, span);
                        self.lemma_infer_from_inferred_keeps(
                            *pv,
                            *av,
                            self.spec_infer_from_inferred(*pe, *ae, st, span),
                            span,
                        );
                    },
                    _ => {},
                },
                InferredType::Callable { params: ap, return_type: ar } => match spec_callable_parts(pattern) {
                    Some((pp, pr)) => {
                        self.lemma_infer_from_inferred_list_keeps(pp, ap, st, span);
                        self.lemma_infer_from_inferred_keeps(
                            pr,
                            *ar,
                            self.spec_infer_from_inferred_list(pp, ap, st, span),
                            span,
                        );
                    },
                    None => {},
                },
                _ => {},
            },
        }
    }

    pub proof fn lemma_infer_from_inferred_list_keeps(
        &self,
        patterns: TyList,
        actuals: InferredList,
        st: InferState,
        span: Span,
    )
        ensures
            infer_grows(st, self.spec_infer_from_inferred_list(patterns, actuals, st, span)),
        decreases actuals,
    {
        match (patterns, actuals) {
            (TyList::Cons(p, pt), InferredList::Cons(a, at)) => {
                self.lemma_infer_from_inferred_keeps(*p, *a, st, span);
                self.lemma_infer_from_inferred_list_keeps(
                    *pt,
                    *at,
                    self.spec_infer_from_inferred(*p, *a, st, span),
                    span,
                );
            },
            _ => {},
        }
    }

    /// Closure inference is speculative: when the closure's signature is not
    /// used, nothing at all is recorded; when it is, what was found before
    /// is kept.
    pub proof fn lemma_closure_inference_is_speculative(
        &self,
        pattern: Ty,
        signature: Option<InferredClosureSignature>,
        closure_address_readonly: Option<bool>,
        st: InferState,
        span: Span,
    )
        ensures
            ({
                let (used, after) = self.spec_infer_from_closure(
                    pattern,
                    signature,
                    closure_address_readonly,
                    st,
                    span,
                );
                &&& !used ==> after == st
                &&& infer_grows(st, after)
            }),
    {
        match signature {
            Some(sig) => match spec_closure_pattern_parts(pattern, closure_address_readonly) {
                Some((params, return_type)) => {
                    self.lemma_infer_from_inferred_list_keeps(params, sig.params, st, span);
                    self.lemma_infer_from_inferred_keeps(
                        return_type,
                        sig.return_type,
                        self.spec_infer_from_inferred_list(params, sig.params, st, span),
                        span,
                    );
                },
                None => {},
            },
            None => {},
        }
    }
}

} // verus!
