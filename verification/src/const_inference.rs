//! Inference of a generic function's compile-time parameters: array lengths
//! and compile-time arguments that the pattern names by a parameter take
//! the actual type's values, and a parameter found with two different
//! values is reported.
use vstd::prelude::*;
use crate::checker::{BodyChecker, Diagnostic};
use crate::ids::{Span, SymbolId};
use crate::pattern_matching::{ConstMap, spec_const_args_match, usize_ty, const_pattern_args_match};
use crate::shapes::readonly_compatible;
use crate::symbol_map::SymbolMap;
use crate::ty::{
    ArrayLen, AssocBinding, BindingList, ConstArgList, ConstGenericArg, ConstGenericValue, DeepClone,
    PrimitiveTy, Ty, TyList, binding_list_same_len, const_list_same_len, ty_list_same_len,
};

verus! {

/// What inference of compile-time parameters has found so far.
pub type ConstInferState = (ConstMap, Seq<Diagnostic>);

impl BodyChecker {
    /// Records `name := arg`, or reports that `name` was found with another
    /// value.
    pub open spec fn spec_record_const_value(
        &self,
        name: SymbolId,
        arg: ConstGenericArg,
        st: ConstInferState,
        span: Span,
    ) -> ConstInferState {
        let (c, d) = st;
        if c.contains_key(name) {
            if spec_const_args_match(c[name], arg) {
                st
            } else {
                (c, d.push(Diagnostic::ConflictingInferredValue { span, name }))
            }
        } else {
            (c.insert(name, arg), d)
        }
    }

    /// A pattern length that is a parameter takes the actual length's value.
    pub open spec fn spec_infer_const_from_len(
        &self,
        pattern: ArrayLen,
        actual: ArrayLen,
        st: ConstInferState,
        span: Span,
    ) -> ConstInferState {
        match pattern {
            ArrayLen::GenericParam(name) => match self.spec_const_value_from_array_len(actual) {
                Some(value) => self.spec_record_const_value(
                    name,
                    ConstGenericArg { ty: Box::new(usize_ty()), value },
                    st,
                    span,
                ),
                None => st,
            },
            _ => st,
        }
    }

    /// Infers from the types of two compile-time arguments, then records
    /// the actual argument for a pattern value that is a parameter.
    pub open spec fn spec_infer_const_from_arg(
        &self,
        pattern: ConstGenericArg,
        actual: ConstGenericArg,
        st: ConstInferState,
        span: Span,
    ) -> ConstInferState
        decreases pattern, 0nat,
    {
        let st1 = self.spec_infer_consts(*pattern.ty, *actual.ty, st, span);
        match pattern.value {
            ConstGenericValue::GenericParam(name) => self.spec_record_const_value(name, actual, st1, span),
            _ => st1,
        }
    }

    /// Records what `pattern` says of the compile-time parameters in the
    /// state `st`.
    pub open spec fn spec_infer_consts(&self, pattern: Ty, actual: Ty, st: ConstInferState, span: Span) -> ConstInferState
        decreases pattern, 0nat,
    {
        match (pattern, actual) {
            (Ty::Array { len: pl, elem: pe }, Ty::Array { len: al, elem: ae }) => self.spec_infer_consts(
                *pe,
                *ae,
                self.spec_infer_const_from_len(pl, al, st, span),
                span,
            ),
            (Ty::Pointer { is_readonly: pr, elem: pe }, Ty::Pointer { is_readonly: ar, elem: ae })
            | (
                Ty::VolatilePointer { is_readonly: pr, elem: pe },
                Ty::VolatilePointer { is_readonly: ar, elem: ae },
            )
            | (Ty::Slice { is_readonly: pr, elem: pe }, Ty::Slice { is_readonly: ar, elem: ae }) =>
                if readonly_compatible(pr, ar) {
                self.spec_infer_consts(*pe, *ae, st, span)
            } else {
                st
            },
            (Ty::SlicePointee { elem: pe }, Ty::SlicePointee { elem: ae })
            | (Ty::Optional { elem: pe }, Ty::Optional { elem: ae }) => self.spec_infer_consts(
                *pe,
                *ae,
                st,
                span,
            ),
            (Ty::Range { kind: pk, bound: pb }, Ty::Range { kind: ak, bound: ab }) => match (pb, ab) {
                (Some(p), Some(a)) => if pk == ak {
                    self.spec_infer_consts(*p, *a, st, span)
                } else {
                    st
                },
                _ => st,
            },
            (
                Ty::FunctionPointer { params: pp, return_type: pret, is_variadic: pv },
                Ty::FunctionPointer { params: ap, return_type: aret, is_variadic: av },
            ) => if pv == av && pp.len() == ap.len() {
                self.spec_infer_consts(*pret, *aret, self.spec_infer_consts_list(pp, ap, st, span), span)
            } else {
                st
            },
            (
                Ty::Callable { is_readonly: pr, params: pp, return_type: pret },
                Ty::Callable { is_readonly: ar, params: ap, return_type: aret },
            ) => if readonly_compatible(pr, ar) && pp.len() == ap.len() {
                self.spec_infer_consts(*pret, *aret, self.spec_infer_consts_list(pp, ap, st, span), span)
            } else {
                st
            },
            (
                Ty::CallablePointee { params: pp, return_type: pret },
                Ty::CallablePointee { params: ap, return_type: aret },
            ) => if pp.len() == ap.len() {
                self.spec_infer_consts(*pret, *aret, self.spec_infer_consts_list(pp, ap, st, span), span)
            } else {
                st
            },
            (Ty::ErrorUnion { error: pe, value: pv }, Ty::ErrorUnion { error: ae, value: av }) =>
                self.spec_infer_consts(*pv, *av, self.spec_infer_consts(*pe, *ae, st, span), span),
            (Ty::Tuple(ps), Ty::Tuple(as_)) => if ps.len() == as_.len() {
                self.spec_infer_consts_list(ps, as_, st, span)
            } else {
                st
            },
            (
                Ty::Nominal { def_id: pd, args: pa, const_args: pc },
                Ty::Nominal { def_id: ad, args: aa, const_args: ac },
            ) => if pd == ad && pa.len() == aa.len() && pc.len() == ac.len() {
                self.spec_infer_consts_args(pc, ac, self.spec_infer_consts_list(pa, aa, st, span), span)
            } else {
                st
            },
            (Ty::BuiltinTrait { trait_id: pt, args: pa }, Ty::BuiltinTrait { trait_id: at, args: aa }) =>
                if pt == at && pa.len() == aa.len() {
                self.spec_infer_consts_list(pa, aa, st, span)
            } else {
                st
            },
            (
                Ty::TraitObject {
                    is_readonly: pr,
                    trait_id: pt,
                    trait_args: pa,
                    trait_const_args: pc,
                    bindings: pb,
                },
                Ty::TraitObject {
                    is_readonly: ar,
                    trait_id: at,
                    trait_args: aa,
                    trait_const_args: ac,
                    bindings: ab,
                },
            ) => if pr == ar && pt == at && pa.len() == aa.len() && pc.len() == ac.len() && pb.len()
                == ab.len() {
                self.spec_infer_const_object_bindings(
                    pb,
                    ab,
                    self.spec_infer_consts_args(pc, ac, self.spec_infer_consts_list(pa, aa, st, span), span),
                    span,
                )
            } else {
                st
            },
            (
                Ty::TraitObjectPointee {
                    trait_id: pt,
                    trait_args: pa,
                    trait_const_args: pc,
                    bindings: pb,
                },
                Ty::TraitObjectPointee {
                    trait_id: at,
                    trait_args: aa,
                    trait_const_args: ac,
                    bindings: ab,
                },
            ) => if pt == at && pa.len() == aa.len() && pc.len() == ac.len() && pb.len() == ab.len() {
                self.spec_infer_const_object_bindings(
                    pb,
                    ab,
                    self.spec_infer_consts_args(pc, ac, self.spec_infer_consts_list(pa, aa, st, span), span),
                    span,
                )
            } else {
                st
            },
            (
                Ty::Projection {
                    self_ty: ps,
                    trait_id: pt,
                    trait_args: pa,
                    trait_const_args: pc,
                    name: pn,
                },
                Ty::Projection {
                    self_ty: as_,
                    trait_id: at,
                    trait_args: aa,
                    trait_const_args: ac,
                    name: an,
                },
            ) => if pt == at && pn == an && pa.len() == aa.len() && pc.len() == ac.len() {
                self.spec_infer_consts_args(
                    pc,
                    ac,
                    self.spec_infer_consts_list(pa, aa, self.spec_infer_consts(*ps, *as_, st, span), span),
                    span,
                )
            } else {
                st
            },
            _ => st,
        }
    }

    /// Infers from the items of two lists pairwise, as far as both reach.
    pub open spec fn spec_infer_consts_list(
        &self,
        patterns: TyList,
        actuals: TyList,
        st: ConstInferState,
        span: Span,
    ) -> ConstInferState
        decreases patterns, 0nat,
    {
        match (patterns, actuals) {
            (TyList::Cons(p, pt), TyList::Cons(a, at)) => self.spec_infer_consts_list(
                *pt,
                *at,
                self.spec_infer_consts(*p, *a, st, span),
                span,
            ),
            _ => st,
        }
    }

    /// Infers from two compile-time argument lists pairwise, as far as both
    /// reach.
    pub open spec fn spec_infer_consts_args(
        &self,
        patterns: ConstArgList,
        actuals: ConstArgList,
        st: ConstInferState,
        span: Span,
    ) -> ConstInferState
        decreases patterns, 0nat,
    {
        match (patterns, actuals) {
            (ConstArgList::Cons(p, pt), ConstArgList::Cons(a, at)) => self.spec_infer_consts_args(
                *pt,
                *at,
                self.spec_infer_const_from_arg(p, a, st, span),
                span,
            ),
            _ => st,
        }
    }

    /// The bindings of trait object types: when every pattern binding can be
    /// paired with a distinct actual binding that it matches, the pairing's
    /// compile-time substitutions are taken and each pair is inferred from.
    pub open spec fn spec_infer_const_object_bindings(
        &self,
        patterns: BindingList,
        actuals: BindingList,
        st: ConstInferState,
        span: Span,
    ) -> ConstInferState
        decreases patterns, 2nat,
    {
        match self.spec_infer_const_bindings(patterns, actuals, st.0) {
            Some((c1, matches)) => self.spec_infer_const_matched(patterns, matches, actuals, (c1, st.1), span),
            None => st,
        }
    }

    /// Infers from each pattern binding and the actual binding it was paired
    /// with.
    pub open spec fn spec_infer_const_matched(
        &self,
        patterns: BindingList,
        matches: Seq<usize>,
        actuals: BindingList,
        st: ConstInferState,
        span: Span,
    ) -> ConstInferState
        decreases patterns, 1nat,
    {
        match patterns {
            BindingList::Cons(p, rest) => if matches.len() > 0 && matches[0] < actuals.len() {
                let a = actuals.seq()[matches[0] as int];
                let st1 = self.spec_infer_consts_list(p.trait_args, a.trait_args, st, span);
                let st2 = self.spec_infer_consts_args(p.trait_const_args, a.trait_const_args, st1, span);
                let st3 = self.spec_infer_consts(*p.ty, *a.ty, st2, span);
                self.spec_infer_const_matched(*rest, matches.drop_first(), actuals, st3, span)
            } else {
                st
            },
            BindingList::Nil => st,
        }
    }

    /// The compile-time substitutions after matching one binding against
    /// another, with type parameters matched afresh.
    #[verifier::opaque]
    pub open spec fn spec_const_binding_substitution(
        &self,
        pattern: AssocBinding,
        actual: AssocBinding,
        c: ConstMap,
    ) -> Option<ConstMap> {
        match self.spec_try_match_binding(pattern, actual, Map::empty(), c) {
            Some((_, c1)) => Some(c1),
            None => None,
        }
    }

    /// Pairs each pattern binding with a distinct actual binding that it
    /// matches (searching in order, with backtracking); the compile-time
    /// substitutions and the chosen positions.
    pub open spec fn spec_infer_const_bindings(&self, patterns: BindingList, actuals: BindingList, c: ConstMap) -> Option<
        (ConstMap, Seq<usize>),
    > {
        if patterns.len() != actuals.len() {
            None
        } else {
            self.spec_infer_const_bindings_from(
                patterns,
                actuals,
                Seq::new(actuals.len(), |i: int| false),
                c,
            )
        }
    }

    pub open spec fn spec_infer_const_bindings_from(
        &self,
        patterns: BindingList,
        actuals: BindingList,
        used: Seq<bool>,
        c: ConstMap,
    ) -> Option<(ConstMap, Seq<usize>)>
        decreases patterns, 1nat, 0nat,
    {
        match patterns {
            BindingList::Nil => Some((c, Seq::empty())),
            BindingList::Cons(_, _) => self.spec_infer_const_binding_at(patterns, actuals, actuals, 0, used, c),
        }
    }

    /// Tries the first pattern binding against each unused actual binding of
    /// `remaining` (which starts at position `index`).
    pub open spec fn spec_infer_const_binding_at(
        &self,
        patterns: BindingList,
        actuals: BindingList,
        remaining: BindingList,
        index: nat,
        used: Seq<bool>,
        c: ConstMap,
    ) -> Option<(ConstMap, Seq<usize>)>
        decreases patterns, 0nat, remaining.len(),
    {
        match patterns {
            BindingList::Nil => None,
            BindingList::Cons(pattern, rest) => match remaining {
                BindingList::Nil => None,
                BindingList::Cons(actual, tail) => if index < used.len() && used[index as int] {
                    self.spec_infer_const_binding_at(patterns, actuals, *tail, index + 1, used, c)
                } else {
                    match self.spec_infer_const_binding_with(pattern, *rest, actual, actuals, index, used, c) {
                        Some(r) => Some(r),
                        None => self.spec_infer_const_binding_at(patterns, actuals, *tail, index + 1, used, c),
                    }
                },
            },
        }
    }

    /// Pairs `pattern` with the actual binding at `index` and the rest of
    /// the pattern bindings with other unused ones.
    pub open spec fn spec_infer_const_binding_with(
        &self,
        pattern: AssocBinding,
        rest: BindingList,
        actual: AssocBinding,
        actuals: BindingList,
        index: nat,
        used: Seq<bool>,
        c: ConstMap,
    ) -> Option<(ConstMap, Seq<usize>)>
        decreases rest, 2nat, 0nat,
    {
        match self.spec_const_binding_substitution(pattern, actual, c) {
            Some(c1) => match self.spec_infer_const_bindings_from(
                rest,
                actuals,
                used.update(index as int, true),
                c1,
            ) {
                Some((c2, m)) => Some((c2, seq![index as usize].add(m))),
                None => None,
            },
            None => None,
        }
    }
}


impl BodyChecker {
    /// Infers the compile-time parameters in `pattern` from `actual`,
    /// recording a diagnostic when a parameter was already bound to another
    /// value.
    pub fn infer_const_generics_from_type(
        &mut self,
        pattern: &Ty,
        actual: &Ty,
        substitutions: &mut SymbolMap<ConstGenericArg>,
        span: Span,
    )
        requires
            old(substitutions).wf(),
        ensures
            final(substitutions).wf(),
            final(self).same_except_diagnostics(old(self)),
            final(substitutions)@ == old(self).spec_infer_consts(
                *pattern,
                *actual,
                (old(substitutions)@, Seq::empty()),
                span,
            ).0,
            final(self).diagnostics@ == old(self).diagnostics@ + old(self).spec_infer_consts(
                *pattern,
                *actual,
                (old(substitutions)@, Seq::empty()),
                span,
            ).1,
    {
        let mut found: Vec<Diagnostic> = Vec::new();
        self.infer_consts_into(pattern, actual, substitutions, &mut found, span);
        self.diagnostics.append(&mut found);
    }

    /// Records `name := arg`, or reports a conflict with an earlier value.
    fn record_const_generic_substitution(
        &self,
        name: SymbolId,
        arg: ConstGenericArg,
        c: &mut SymbolMap<ConstGenericArg>,
        d: &mut Vec<Diagnostic>,
        span: Span,
    )
        requires
            old(c).wf(),
        ensures
            final(c).wf(),
            (final(c)@, final(d)@) == self.spec_record_const_value(name, arg, (old(c)@, old(d)@), span),
    {
        let conflict = match c.get(name) {
            Some(existing) => Some(!const_pattern_args_match(existing, &arg)),
            None => None,
        };
        match conflict {
            Some(true) => {
                d.push(Diagnostic::ConflictingInferredValue { span, name });
            },
            Some(false) => {},
            None => {
                c.insert(name, arg);
            },
        }
    }

    /// A pattern length that is a parameter takes the actual length's value.
    fn infer_const_generic_from_array_len(
        &self,
        pattern: &ArrayLen,
        actual: &ArrayLen,
        c: &mut SymbolMap<ConstGenericArg>,
        d: &mut Vec<Diagnostic>,
        span: Span,
    )
        requires
            old(c).wf(),
        ensures
            final(c).wf(),
            (final(c)@, final(d)@) == self.spec_infer_const_from_len(*pattern, *actual, (old(c)@, old(d)@), span),
    {
        if let ArrayLen::GenericParam(name) = pattern {
            if let Some(value) = self.const_generic_value_from_array_len(actual) {
                self.record_const_generic_substitution(
                    *name,
                    ConstGenericArg { ty: Box::new(Ty::Primitive(PrimitiveTy::Usize)), value },
                    c,
                    d,
                    span,
                );
            }
        }
    }

    /// Infers from the types of two compile-time arguments, then records the
    /// actual argument for a pattern value that is a parameter.
    fn infer_const_generic_from_arg(
        &self,
        pattern: &ConstGenericArg,
        actual: &ConstGenericArg,
        c: &mut SymbolMap<ConstGenericArg>,
        d: &mut Vec<Diagnostic>,
        span: Span,
    )
        requires
            old(c).wf(),
        ensures
            final(c).wf(),
            (final(c)@, final(d)@) == self.spec_infer_const_from_arg(*pattern, *actual, (old(c)@, old(d)@), span),
        decreases pattern, 0nat,
    {
        self.infer_consts_into(&pattern.ty, &actual.ty, c, d, span);
        if let ConstGenericValue::GenericParam(name) = pattern.value {
            self.record_const_generic_substitution(name, actual.deep_clone(), c, d, span);
        }
    }

    fn infer_consts_list(
        &self,
        patterns: &TyList,
        actuals: &TyList,
        c: &mut SymbolMap<ConstGenericArg>,
        d: &mut Vec<Diagnostic>,
        span: Span,
    )
        requires
            old(c).wf(),
        ensures
            final(c).wf(),
            (final(c)@, final(d)@) == self.spec_infer_consts_list(*patterns, *actuals, (old(c)@, old(d)@), span),
        decreases patterns, 0nat,
    {
        match (patterns, actuals) {
            (TyList::Cons(p, pt), TyList::Cons(a, at)) => {
                self.infer_consts_into(p, a, c, d, span);
                self.infer_consts_list(pt, at, c, d, span);
            },
            _ => {},
        }
    }

    fn infer_consts_args(
        &self,
        patterns: &ConstArgList,
        actuals: &ConstArgList,
        c: &mut SymbolMap<ConstGenericArg>,
        d: &mut Vec<Diagnostic>,
        span: Span,
    )
        requires
            old(c).wf(),
        ensures
            final(c).wf(),
            (final(c)@, final(d)@) == self.spec_infer_consts_args(*patterns, *actuals, (old(c)@, old(d)@), span),
        decreases patterns, 0nat,
    {
        match (patterns, actuals) {
            (ConstArgList::Cons(p, pt), ConstArgList::Cons(a, at)) => {
                self.infer_const_generic_from_arg(p, a, c, d, span);
                self.infer_consts_args(pt, at, c, d, span);
            },
            _ => {},
        }
    }

    fn infer_const_object_bindings(
        &self,
        patterns: &BindingList,
        actuals: &BindingList,
        c: &mut SymbolMap<ConstGenericArg>,
        d: &mut Vec<Diagnostic>,
        span: Span,
    )
        requires
            old(c).wf(),
        ensures
            final(c).wf(),
            (final(c)@, final(d)@) == self.spec_infer_const_object_bindings(
                *patterns,
                *actuals,
                (old(c)@, old(d)@),
                span,
            ),
        decreases patterns, 2nat,
    {
        let matches = match self.infer_associated_const_bindings(patterns, actuals, c) {
            Some(m) => m,
            None => {
                return;
            },
        };
        proof {
            let m = self.spec_infer_const_bindings(*patterns, *actuals, old(c)@).unwrap().1;
            assert(matches@.skip(0) =~= m);
        }
        self.infer_const_matched(patterns, &matches, 0, actuals, c, d, span);
    }

    fn infer_const_matched(
        &self,
        patterns: &BindingList,
        matches: &Vec<usize>,
        j: usize,
        actuals: &BindingList,
        c: &mut SymbolMap<ConstGenericArg>,
        d: &mut Vec<Diagnostic>,
        span: Span,
    )
        requires
            old(c).wf(),
            j <= matches@.len(),
        ensures
            final(c).wf(),
            (final(c)@, final(d)@) == self.spec_infer_const_matched(
                *patterns,
                matches@.skip(j as int),
                *actuals,
                (old(c)@, old(d)@),
                span,
            ),
        decreases patterns, 1nat,
    {
        let ghost m = matches@.skip(j as int);
        match patterns {
            BindingList::Cons(p, rest) => {
                if j < matches.len() {
                    proof {
                        assert(m.len() > 0);
                        assert(m[0] == matches@[j as int]);
                        assert(m.drop_first() =~= matches@.skip(j + 1));
                    }
                    match crate::inference::binding_nth(actuals, matches[j]) {
                        Some(a) => {
                            self.infer_consts_list(&p.trait_args, &a.trait_args, c, d, span);
                            self.infer_consts_args(&p.trait_const_args, &a.trait_const_args, c, d, span);
                            self.infer_consts_into(&p.ty, &a.ty, c, d, span);
                            self.infer_const_matched(rest, matches, j + 1, actuals, c, d, span);
                        },
                        None => {},
                    }
                }
            },
            BindingList::Nil => {},
        }
    }

    fn infer_consts_into(
        &self,
        pattern: &Ty,
        actual: &Ty,
        c: &mut SymbolMap<ConstGenericArg>,
        d: &mut Vec<Diagnostic>,
        span: Span,
    )
        requires
            old(c).wf(),
        ensures
            final(c).wf(),
            (final(c)@, final(d)@) == self.spec_infer_consts(*pattern, *actual, (old(c)@, old(d)@), span),
        decreases pattern, 0nat,
    {
        match (pattern, actual) {
            (Ty::Array { len: pl, elem: pe }, Ty::Array { len: al, elem: ae }) => {
                self.infer_const_generic_from_array_len(pl, al, c, d, span);
                self.infer_consts_into(pe, ae, c, d, span);
            },
            (Ty::Pointer { is_readonly: pr, elem: pe }, Ty::Pointer { is_readonly: ar, elem: ae })
            | (
                Ty::VolatilePointer { is_readonly: pr, elem: pe },
                Ty::VolatilePointer { is_readonly: ar, elem: ae },
            )
            | (Ty::Slice { is_readonly: pr, elem: pe }, Ty::Slice { is_readonly: ar, elem: ae }) => {
                if *pr == *ar || *pr && !*ar {
                    self.infer_consts_into(pe, ae, c, d, span);
                }
            },
            (Ty::SlicePointee { elem: pe }, Ty::SlicePointee { elem: ae })
            | (Ty::Optional { elem: pe }, Ty::Optional { elem: ae }) => {
                self.infer_consts_into(pe, ae, c, d, span);
            },
            (Ty::Range { kind: pk, bound: pb }, Ty::Range { kind: ak, bound: ab }) => {
                match (pb, ab) {
                    (Some(p), Some(a)) => {
                        if *pk == *ak {
                            self.infer_consts_into(p, a, c, d, span);
                        }
                    },
                    _ => {},
                }
            },
            (
                Ty::FunctionPointer { params: pp, return_type: pret, is_variadic: pv },
                Ty::FunctionPointer { params: ap, return_type: aret, is_variadic: av },
            ) => {
                if *pv == *av && ty_list_same_len(pp, ap) {
                    self.infer_consts_list(pp, ap, c, d, span);
                    self.infer_consts_into(pret, aret, c, d, span);
                }
            },
            (
                Ty::Callable { is_readonly: pr, params: pp, return_type: pret },
                Ty::Callable { is_readonly: ar, params: ap, return_type: aret },
            ) => {
                if (*pr == *ar || *pr && !*ar) && ty_list_same_len(pp, ap) {
                    self.infer_consts_list(pp, ap, c, d, span);
                    self.infer_consts_into(pret, aret, c, d, span);
                }
            },
            (
                Ty::CallablePointee { params: pp, return_type: pret },
                Ty::CallablePointee { params: ap, return_type: aret },
            ) => {
                if ty_list_same_len(pp, ap) {
                    self.infer_consts_list(pp, ap, c, d, span);
                    self.infer_consts_into(pret, aret, c, d, span);
                }
            },
            (Ty::ErrorUnion { error: pe, value: pv }, Ty::ErrorUnion { error: ae, value: av }) => {
                self.infer_consts_into(pe, ae, c, d, span);
                self.infer_consts_into(pv, av, c, d, span);
            },
            (Ty::Tuple(ps), Ty::Tuple(as_)) => {
                if ty_list_same_len(ps, as_) {
                    self.infer_consts_list(ps, as_, c, d, span);
                }
            },
            (
                Ty::Nominal { def_id: pd, args: pa, const_args: pc },
                Ty::Nominal { def_id: ad, args: aa, const_args: ac },
            ) => {
                if pd.same(ad) && ty_list_same_len(pa, aa) && const_list_same_len(pc, ac) {
                    self.infer_consts_list(pa, aa, c, d, span);
                    self.infer_consts_args(pc, ac, c, d, span);
                }
            },
            (Ty::BuiltinTrait { trait_id: pt, args: pa }, Ty::BuiltinTrait { trait_id: at, args: aa }) => {
                if *pt == *at && ty_list_same_len(pa, aa) {
                    self.infer_consts_list(pa, aa, c, d, span);
                }
            },
            (
                Ty::TraitObject {
                    is_readonly: pr,
                    trait_id: pt,
                    trait_args: pa,
                    trait_const_args: pc,
                    bindings: pb,
                },
                Ty::TraitObject {
                    is_readonly: ar,
                    trait_id: at,
                    trait_args: aa,
                    trait_const_args: ac,
                    bindings: ab,
                },
            ) => {
                if *pr == *ar && *pt == *at && ty_list_same_len(pa, aa) && const_list_same_len(pc, ac)
                    && binding_list_same_len(pb, ab) {
                    self.infer_consts_list(pa, aa, c, d, span);
                    self.infer_consts_args(pc, ac, c, d, span);
                    self.infer_const_object_bindings(pb, ab, c, d, span);
                }
            },
            (
                Ty::TraitObjectPointee {
                    trait_id: pt,
                    trait_args: pa,
                    trait_const_args: pc,
                    bindings: pb,
                },
                Ty::TraitObjectPointee {
                    trait_id: at,
                    trait_args: aa,
                    trait_const_args: ac,
                    bindings: ab,
                },
            ) => {
                if *pt == *at && ty_list_same_len(pa, aa) && const_list_same_len(pc, ac)
                    && binding_list_same_len(pb, ab) {
                    self.infer_consts_list(pa, aa, c, d, span);
                    self.infer_consts_args(pc, ac, c, d, span);
                    self.infer_const_object_bindings(pb, ab, c, d, span);
                }
            },
            (
                Ty::Projection {
                    self_ty: ps,
                    trait_id: pt,
                    trait_args: pa,
                    trait_const_args: pc,
                    name: pn,
                },
                Ty::Projection {
                    self_ty: as_,
                    trait_id: at,
                    trait_args: aa,
                    trait_const_args: ac,
                    name: an,
                },
            ) => {
                if *pt == *at && *pn == *an && ty_list_same_len(pa, aa) && const_list_same_len(pc, ac) {
                    self.infer_consts_into(ps, as_, c, d, span);
                    self.infer_consts_list(pa, aa, c, d, span);
                    self.infer_consts_args(pc, ac, c, d, span);
                }
            },
            _ => {},
        }
    }
}

} // verus!
