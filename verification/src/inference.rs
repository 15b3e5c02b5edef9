//! Inference of a generic function's type parameters from the type that a
//! use of it meets: the pattern (a parameter or return type) is walked
//! against the actual type, each parameter takes the type found at its
//! place, and a parameter found with two different types is reported.
use vstd::prelude::*;
use crate::checker::{BodyChecker, Diagnostic};
use crate::ids::Span;
use crate::pattern_matching::TyMap;
use crate::shapes::readonly_compatible;
use crate::symbol_map::SymbolMap;
use crate::ty::{
    AssocBinding, BindingList, ConstArgList, DeepClone, Ty, TyList, binding_list_same_len,
    ty_eq, ty_list_same_len,
};

verus! {

/// What inference has found so far: the substitutions and the diagnostics.
pub type InferState = (TyMap, Seq<Diagnostic>);

/// The actual type's parts a callable pattern is matched against: a
/// callable, or a pointer to a closure's state.
pub open spec fn spec_actual_callable(actual: Ty) -> Option<(bool, TyList, Ty)> {
    match actual {
        Ty::Callable { is_readonly, params, return_type } => Some((is_readonly, params, *return_type)),
        Ty::Pointer { is_readonly, elem } => match *elem {
            Ty::ClosureState { params, return_type, .. } => Some((is_readonly, params, *return_type)),
            _ => None,
        },
        _ => None,
    }
}

impl BodyChecker {
    /// Records what `pattern` says of `actual` in the state `st`.
    pub open spec fn spec_infer(&self, pattern: Ty, actual: Ty, st: InferState, span: Span) -> InferState
        decreases pattern, 0nat,
    {
        let (s, d) = st;
        match pattern {
            Ty::GenericParam(name) => if s.contains_key(name) {
                let existing = s[name];
                if existing == Ty::GenericParam(name) {
                    (s.insert(name, actual), d)
                } else if existing != actual {
                    (
                        s,
                        d.push(
                            Diagnostic::ConflictingInferredType {
                                span,
                                name,
                                expected: existing,
                                actual,
                            },
                        ),
                    )
                } else {
                    st
                }
            } else {
                (s.insert(name, actual), d)
            },
            Ty::Pointer { is_readonly: pr, elem: pe } => match actual {
                Ty::Pointer { is_readonly: ar, elem: ae } => if readonly_compatible(pr, ar) {
                    self.spec_infer(*pe, *ae, st, span)
                } else {
                    st
                },
                _ => st,
            },
            Ty::VolatilePointer { is_readonly: pr, elem: pe } => match actual {
                Ty::VolatilePointer { is_readonly: ar, elem: ae } => if readonly_compatible(pr, ar) {
                    self.spec_infer(*pe, *ae, st, span)
                } else {
                    st
                },
                _ => st,
            },
            Ty::Slice { is_readonly: pr, elem: pe } => match actual {
                Ty::Slice { is_readonly: ar, elem: ae } => if readonly_compatible(pr, ar) {
                    self.spec_infer(*pe, *ae, st, span)
                } else {
                    st
                },
                Ty::Pointer { is_readonly: ar, elem: ae } => if readonly_compatible(pr, ar) {
                    match *ae {
                        Ty::Array { elem: inner, .. } | Ty::SlicePointee { elem: inner } =>
                            self.spec_infer(*pe, *inner, st, span),
                        _ => st,
                    }
                } else {
                    st
                },
                _ => st,
            },
            Ty::SlicePointee { elem: pe } => match actual {
                Ty::SlicePointee { elem: ae } => self.spec_infer(*pe, *ae, st, span),
                _ => st,
            },
            Ty::Array { len: pl, elem: pe } => match actual {
                Ty::Array { len: al, elem: ae } => {
                    let st1 = match (pl, al) {
                        (
                            crate::ty::ArrayLen::Builtin { builtin: pb, ty: pt },
                            crate::ty::ArrayLen::Builtin { builtin: ab, ty: at },
                        ) => if pb == ab {
                            self.spec_infer(*pt, *at, st, span)
                        } else {
                            st
                        },
                        _ => st,
                    };
                    self.spec_infer(*pe, *ae, st1, span)
                },
                _ => st,
            },
            Ty::Range { kind: pk, bound: pb } => match actual {
                Ty::Range { kind: ak, bound: ab } => if pk == ak {
                    match (pb, ab) {
                        (Some(p), Some(a)) => self.spec_infer(*p, *a, st, span),
                        _ => st,
                    }
                } else {
                    st
                },
                _ => st,
            },
            Ty::FunctionPointer { params: pp, return_type: pret, is_variadic: pv } => match actual {
                Ty::FunctionPointer { params: ap, return_type: aret, is_variadic: av } => if pp.len()
                    == ap.len() && pv == av {
                    self.spec_infer(*pret, *aret, self.spec_infer_list(pp, ap, st, span), span)
                } else {
                    st
                },
                _ => st,
            },
            Ty::Callable { is_readonly: pr, params: pp, return_type: pret } => match spec_actual_callable(
                actual,
            ) {
                Some((ar, ap, aret)) => if readonly_compatible(pr, ar) && pp.len() == ap.len() {
                    self.spec_infer(*pret, aret, self.spec_infer_list(pp, ap, st, span), span)
                } else {
                    st
                },
                None => st,
            },
            Ty::CallablePointee { params: pp, return_type: pret } => match actual {
                Ty::CallablePointee { params: ap, return_type: aret } => if pp.len() == ap.len() {
                    self.spec_infer(*pret, *aret, self.spec_infer_list(pp, ap, st, span), span)
                } else {
                    st
                },
                _ => st,
            },
            Ty::Optional { elem: pe } => match actual {
                Ty::Optional { elem: ae } => self.spec_infer(*pe, *ae, st, span),
                _ => st,
            },
            Ty::ErrorUnion { error: pe, value: pv } => match actual {
                Ty::ErrorUnion { error: ae, value: av } => self.spec_infer(
                    *pv,
                    *av,
                    self.spec_infer(*pe, *ae, st, span),
                    span,
                ),
                _ => st,
            },
            Ty::Tuple(ps) => match actual {
                Ty::Tuple(as_) => if ps.len() == as_.len() {
                    self.spec_infer_list(ps, as_, st, span)
                } else {
                    st
                },
                _ => st,
            },
            Ty::Nominal { def_id: pd, args: pa, const_args: pc } => match actual {
                Ty::Nominal { def_id: ad, args: aa, const_args: ac } => if pd == ad && pa.len()
                    == aa.len() && self.spec_const_patterns_accept(pc, ac) {
                    self.spec_infer_const_tys(pc, ac, self.spec_infer_list(pa, aa, st, span), span)
                } else {
                    st
                },
                _ => st,
            },
            Ty::BuiltinTrait { trait_id: pt, args: pa } => match actual {
                Ty::BuiltinTrait { trait_id: at, args: aa } => if pt == at && pa.len() == aa.len() {
                    self.spec_infer_list(pa, aa, st, span)
                } else {
                    st
                },
                _ => st,
            },
            Ty::TraitObject {
                is_readonly: pr,
                trait_id: pt,
                trait_args: pa,
                trait_const_args: pc,
                bindings: pb,
            } => match actual {
                Ty::TraitObject {
                    is_readonly: ar,
                    trait_id: at,
                    trait_args: aa,
                    trait_const_args: ac,
                    bindings: ab,
                } => if pr == ar && pt == at && pa.len() == aa.len() && self.spec_const_patterns_accept(
                    pc,
                    ac,
                ) && pb.len() == ab.len() {
                    self.spec_infer_object_bindings(
                        pb,
                        ab,
                        self.spec_infer_const_tys(pc, ac, self.spec_infer_list(pa, aa, st, span), span),
                        span,
                    )
                } else {
                    st
                },
                _ => st,
            },
            Ty::TraitObjectPointee {
                trait_id: pt,
                trait_args: pa,
                trait_const_args: pc,
                bindings: pb,
            } => match actual {
                Ty::TraitObjectPointee {
                    trait_id: at,
                    trait_args: aa,
                    trait_const_args: ac,
                    bindings: ab,
                } => if pt == at && pa.len() == aa.len() && self.spec_const_patterns_accept(pc, ac)
                    && pb.len() == ab.len() {
                    self.spec_infer_object_bindings(
                        pb,
                        ab,
                        self.spec_infer_const_tys(pc, ac, self.spec_infer_list(pa, aa, st, span), span),
                        span,
                    )
                } else {
                    st
                },
                _ => st,
            },
            Ty::Projection {
                self_ty: ps,
                trait_id: pt,
                trait_args: pa,
                trait_const_args: pc,
                name: pn,
            } => match actual {
                Ty::Projection {
                    self_ty: as_,
                    trait_id: at,
                    trait_args: aa,
                    trait_const_args: ac,
                    name: an,
                } => if pt == at && pn == an && pa.len() == aa.len() && self.spec_const_patterns_accept(
                    pc,
                    ac,
                ) {
                    self.spec_infer_const_tys(
                        pc,
                        ac,
                        self.spec_infer_list(pa, aa, self.spec_infer(*ps, *as_, st, span), span),
                        span,
                    )
                } else {
                    st
                },
                _ => st,
            },
            _ => st,
        }
    }

    /// Infers from the items of two lists pairwise, as far as both reach.
    pub open spec fn spec_infer_list(&self, patterns: TyList, actuals: TyList, st: InferState, span: Span) -> InferState
        decreases patterns, 0nat,
    {
        match (patterns, actuals) {
            (TyList::Cons(p, pt), TyList::Cons(a, at)) => self.spec_infer_list(
                *pt,
                *at,
                self.spec_infer(*p, *a, st, span),
                span,
            ),
            _ => st,
        }
    }

    /// Infers from the types of two compile-time argument lists pairwise, as
    /// far as both reach.
    pub open spec fn spec_infer_const_tys(
        &self,
        patterns: ConstArgList,
        actuals: ConstArgList,
        st: InferState,
        span: Span,
    ) -> InferState
        decreases patterns, 0nat,
    {
        match (patterns, actuals) {
            (ConstArgList::Cons(p, pt), ConstArgList::Cons(a, at)) => self.spec_infer_const_tys(
                *pt,
                *at,
                self.spec_infer(*p.ty, *a.ty, st, span),
                span,
            ),
            _ => st,
        }
    }

    /// The bindings of trait object types: when every pattern binding can be
    /// paired with a distinct actual binding that it matches, the pairing's
    /// substitutions are taken and each pair is inferred from.
    pub open spec fn spec_infer_object_bindings(
        &self,
        patterns: BindingList,
        actuals: BindingList,
        st: InferState,
        span: Span,
    ) -> InferState
        decreases patterns, 2nat,
    {
        match self.spec_infer_bindings(patterns, actuals, st.0) {
            Some((s1, matches)) => self.spec_infer_matched(patterns, matches, actuals, (s1, st.1), span),
            None => st,
        }
    }

    /// Infers from each pattern binding and the actual binding it was paired
    /// with.
    pub open spec fn spec_infer_matched(
        &self,
        patterns: BindingList,
        matches: Seq<usize>,
        actuals: BindingList,
        st: InferState,
        span: Span,
    ) -> InferState
        decreases patterns, 1nat,
    {
        match patterns {
            BindingList::Cons(p, rest) => if matches.len() > 0 && matches[0] < actuals.len() {
                let a = actuals.seq()[matches[0] as int];
                let st1 = self.spec_infer_list(p.trait_args, a.trait_args, st, span);
                let st2 = self.spec_infer_const_tys(p.trait_const_args, a.trait_const_args, st1, span);
                let st3 = self.spec_infer(*p.ty, *a.ty, st2, span);
                self.spec_infer_matched(*rest, matches.drop_first(), actuals, st3, span)
            } else {
                st
            },
            BindingList::Nil => st,
        }
    }

    /// Pairs each pattern binding with a distinct actual binding that it
    /// matches (searching in order, with backtracking); the substitutions
    /// and the chosen positions.
    pub open spec fn spec_infer_bindings(&self, patterns: BindingList, actuals: BindingList, s: TyMap) -> Option<
        (TyMap, Seq<usize>),
    > {
        if patterns.len() != actuals.len() {
            None
        } else {
            self.spec_infer_bindings_from(
                patterns,
                actuals,
                Seq::new(actuals.len(), |i: int| false),
                s,
            )
        }
    }

    pub open spec fn spec_infer_bindings_from(
        &self,
        patterns: BindingList,
        actuals: BindingList,
        used: Seq<bool>,
        s: TyMap,
    ) -> Option<(TyMap, Seq<usize>)>
        decreases patterns, 1nat, 0nat,
    {
        match patterns {
            BindingList::Nil => Some((s, Seq::empty())),
            BindingList::Cons(_, _) => self.spec_infer_binding_at(patterns, actuals, actuals, 0, used, s),
        }
    }

    /// Tries the first pattern binding against each unused actual binding of
    /// `remaining` (which starts at position `index`).
    pub open spec fn spec_infer_binding_at(
        &self,
        patterns: BindingList,
        actuals: BindingList,
        remaining: BindingList,
        index: nat,
        used: Seq<bool>,
        s: TyMap,
    ) -> Option<(TyMap, Seq<usize>)>
        decreases patterns, 0nat, remaining.len(),
    {
        match patterns {
            BindingList::Nil => None,
            BindingList::Cons(pattern, rest) => match remaining {
                BindingList::Nil => None,
                BindingList::Cons(actual, tail) => if index < used.len() && used[index as int] {
                    self.spec_infer_binding_at(patterns, actuals, *tail, index + 1, used, s)
                } else {
                    match self.spec_infer_binding_with(pattern, *rest, actual, actuals, index, used, s) {
                        Some(r) => Some(r),
                        None => self.spec_infer_binding_at(patterns, actuals, *tail, index + 1, used, s),
                    }
                },
            },
        }
    }

    /// The substitutions after matching one binding against another, with
    /// compile-time parameters matched afresh.
    #[verifier::opaque]
    pub open spec fn spec_binding_substitution(&self, pattern: AssocBinding, actual: AssocBinding, s: TyMap) -> Option<
        TyMap,
    > {
        match self.spec_try_match_binding(pattern, actual, s, Map::empty()) {
            Some((s1, _)) => Some(s1),
            None => None,
        }
    }

    /// Pairs `pattern` with the actual binding at `index` and the rest of
    /// the pattern bindings with other unused ones.
    pub open spec fn spec_infer_binding_with(
        &self,
        pattern: AssocBinding,
        rest: BindingList,
        actual: AssocBinding,
        actuals: BindingList,
        index: nat,
        used: Seq<bool>,
        s: TyMap,
    ) -> Option<(TyMap, Seq<usize>)>
        decreases rest, 2nat, 0nat,
    {
        match self.spec_binding_substitution(pattern, actual, s) {
            Some(s1) => match self.spec_infer_bindings_from(
                rest,
                actuals,
                used.update(index as int, true),
                s1,
            ) {
                Some((s2, m)) => Some((s2, seq![index as usize].add(m))),
                None => None,
            },
            None => None,
        }
    }
}

proof fn lemma_binding_seq_len(l: BindingList)
    ensures
        l.seq().len() == l.len(),
    decreases l,
{
    match l {
        BindingList::Nil => {},
        BindingList::Cons(_, t) => lemma_binding_seq_len(*t),
    }
}

/// The binding at position `i`, if there is one.
pub(crate) fn binding_nth(l: &BindingList, i: usize) -> (r: Option<&AssocBinding>)
    ensures
        match r {
            Some(b) => i < l.len() && *b == l.seq()[i as int],
            None => i >= l.len(),
        },
    decreases l,
{
    match l {
        BindingList::Nil => None,
        BindingList::Cons(h, t) => {
            proof {
                assert(l.seq() == seq![*h].add(t.seq()));
                assert(l.len() == 1 + t.len());
                lemma_binding_seq_len(*l);
            }
            if i == 0 {
                Some(h)
            } else {
                binding_nth(t, i - 1)
            }
        },
    }
}

impl BodyChecker {
    /// Infers the type parameters in `pattern` from `actual`, recording a
    /// diagnostic when a parameter was already bound to another type.
    pub fn infer_generics_from_type(&mut self, pattern: &Ty, actual: &Ty, substitutions: &mut SymbolMap<Ty>, span: Span)
        requires
            old(substitutions).wf(),
        ensures
            final(substitutions).wf(),
            final(self).same_except_diagnostics(old(self)),
            final(substitutions)@ == old(self).spec_infer(
                *pattern,
                *actual,
                (old(substitutions)@, Seq::empty()),
                span,
            ).0,
            final(self).diagnostics@ == old(self).diagnostics@ + old(self).spec_infer(
                *pattern,
                *actual,
                (old(substitutions)@, Seq::empty()),
                span,
            ).1,
    {
        let mut found: Vec<Diagnostic> = Vec::new();
        self.infer_into(pattern, actual, substitutions, &mut found, span);
        self.diagnostics.append(&mut found);
    }

    pub(crate) fn infer_into(
        &self,
        pattern: &Ty,
        actual: &Ty,
        s: &mut SymbolMap<Ty>,
        d: &mut Vec<Diagnostic>,
        span: Span,
    )
        requires
            old(s).wf(),
        ensures
            final(s).wf(),
            (final(s)@, final(d)@) == self.spec_infer(*pattern, *actual, (old(s)@, old(d)@), span),
        decreases pattern, 0nat,
    {
        match pattern {
            Ty::GenericParam(name) => {
                let existing = match s.get(*name) {
                    Some(e) => Some(e.deep_clone()),
                    None => None,
                };
                match existing {
                    Some(existing) => {
                        if matches!(existing, Ty::GenericParam(n) if n == *name) {
                            s.insert(*name, actual.deep_clone());
                        } else if !ty_eq(&existing, actual) {
                            d.push(
                                Diagnostic::ConflictingInferredType {
                                    span,
                                    name: *name,
                                    expected: existing,
                                    actual: actual.deep_clone(),
                                },
                            );
                        }
                    },
                    None => {
                        s.insert(*name, actual.deep_clone());
                    },
                }
            },
            Ty::Pointer { is_readonly: pr, elem: pe } => {
                if let Ty::Pointer { is_readonly: ar, elem: ae } = actual {
                    if *pr == *ar || *pr && !*ar {
                        self.infer_into(pe, ae, s, d, span);
                    }
                }
            },
            Ty::VolatilePointer { is_readonly: pr, elem: pe } => {
                if let Ty::VolatilePointer { is_readonly: ar, elem: ae } = actual {
                    if *pr == *ar || *pr && !*ar {
                        self.infer_into(pe, ae, s, d, span);
                    }
                }
            },
            Ty::Slice { is_readonly: pr, elem: pe } => match actual {
                Ty::Slice { is_readonly: ar, elem: ae } => {
                    if *pr == *ar || *pr && !*ar {
                        self.infer_into(pe, ae, s, d, span);
                    }
                },
                Ty::Pointer { is_readonly: ar, elem: ae } => {
                    if *pr == *ar || *pr && !*ar {
                        match &**ae {
                            Ty::Array { elem: inner, .. } | Ty::SlicePointee { elem: inner } => {
                                self.infer_into(pe, inner, s, d, span);
                            },
                            _ => {},
                        }
                    }
                },
                _ => {},
            },
            Ty::SlicePointee { elem: pe } => {
                if let Ty::SlicePointee { elem: ae } = actual {
                    self.infer_into(pe, ae, s, d, span);
                }
            },
            Ty::Array { len: pl, elem: pe } => {
                if let Ty::Array { len: al, elem: ae } = actual {
                    match (pl, al) {
                        (
                            crate::ty::ArrayLen::Builtin { builtin: pb, ty: pt },
                            crate::ty::ArrayLen::Builtin { builtin: ab, ty: at },
                        ) => {
                            if *pb == *ab {
                                self.infer_into(pt, at, s, d, span);
                            }
                        },
                        _ => {},
                    }
                    self.infer_into(pe, ae, s, d, span);
                }
            },
            Ty::Range { kind: pk, bound: pb } => {
                if let Ty::Range { kind: ak, bound: ab } = actual {
                    if *pk == *ak {
                        match (pb, ab) {
                            (Some(p), Some(a)) => {
                                self.infer_into(p, a, s, d, span);
                            },
                            _ => {},
                        }
                    }
                }
            },
            Ty::FunctionPointer { params: pp, return_type: pret, is_variadic: pv } => {
                if let Ty::FunctionPointer { params: ap, return_type: aret, is_variadic: av } = actual {
                    if ty_list_same_len(pp, ap) && *pv == *av {
                        self.infer_list(pp, ap, s, d, span);
                        self.infer_into(pret, aret, s, d, span);
                    }
                }
            },
            Ty::Callable { is_readonly: pr, params: pp, return_type: pret } => {
                let found: Option<(bool, &TyList, &Ty)> = match actual {
                    Ty::Callable { is_readonly, params, return_type } => Some(
                        (*is_readonly, params, &**return_type),
                    ),
                    Ty::Pointer { is_readonly, elem } => match &**elem {
                        Ty::ClosureState { params, return_type, .. } => Some(
                            (*is_readonly, params, &**return_type),
                        ),
                        _ => None,
                    },
                    _ => None,
                };
                if let Some((ar, ap, aret)) = found {
                    if (*pr == ar || *pr && !ar) && ty_list_same_len(pp, ap) {
                        self.infer_list(pp, ap, s, d, span);
                        self.infer_into(pret, aret, s, d, span);
                    }
                }
            },
            Ty::CallablePointee { params: pp, return_type: pret } => {
                if let Ty::CallablePointee { params: ap, return_type: aret } = actual {
                    if ty_list_same_len(pp, ap) {
                        self.infer_list(pp, ap, s, d, span);
                        self.infer_into(pret, aret, s, d, span);
                    }
                }
            },
            Ty::Optional { elem: pe } => {
                if let Ty::Optional { elem: ae } = actual {
                    self.infer_into(pe, ae, s, d, span);
                }
            },
            Ty::ErrorUnion { error: pe, value: pv } => {
                if let Ty::ErrorUnion { error: ae, value: av } = actual {
                    self.infer_into(pe, ae, s, d, span);
                    self.infer_into(pv, av, s, d, span);
                }
            },
            Ty::Tuple(ps) => {
                if let Ty::Tuple(as_) = actual {
                    if ty_list_same_len(ps, as_) {
                        self.infer_list(ps, as_, s, d, span);
                    }
                }
            },
            Ty::Nominal { def_id: pd, args: pa, const_args: pc } => {
                if let Ty::Nominal { def_id: ad, args: aa, const_args: ac } = actual {
                    if pd.same(ad) && ty_list_same_len(pa, aa) && self.const_generic_arg_patterns_accept(pc, ac) {
                        self.infer_list(pa, aa, s, d, span);
                        self.infer_const_tys(pc, ac, s, d, span);
                    }
                }
            },
            Ty::BuiltinTrait { trait_id: pt, args: pa } => {
                if let Ty::BuiltinTrait { trait_id: at, args: aa } = actual {
                    if *pt == *at && ty_list_same_len(pa, aa) {
                        self.infer_list(pa, aa, s, d, span);
                    }
                }
            },
            Ty::TraitObject {
                is_readonly: pr,
                trait_id: pt,
                trait_args: pa,
                trait_const_args: pc,
                bindings: pb,
            } => {
                if let Ty::TraitObject {
                    is_readonly: ar,
                    trait_id: at,
                    trait_args: aa,
                    trait_const_args: ac,
                    bindings: ab,
                } = actual {
                    if *pr == *ar && *pt == *at && ty_list_same_len(pa, aa)
                        && self.const_generic_arg_patterns_accept(pc, ac) && binding_list_same_len(pb, ab) {
                        self.infer_list(pa, aa, s, d, span);
                        self.infer_const_tys(pc, ac, s, d, span);
                        self.infer_object_bindings(pb, ab, s, d, span);
                    }
                }
            },
            Ty::TraitObjectPointee {
                trait_id: pt,
                trait_args: pa,
                trait_const_args: pc,
                bindings: pb,
            } => {
                if let Ty::TraitObjectPointee {
                    trait_id: at,
                    trait_args: aa,
                    trait_const_args: ac,
                    bindings: ab,
                } = actual {
                    if *pt == *at && ty_list_same_len(pa, aa) && self.const_generic_arg_patterns_accept(pc, ac)
                        && binding_list_same_len(pb, ab) {
                        self.infer_list(pa, aa, s, d, span);
                        self.infer_const_tys(pc, ac, s, d, span);
                        self.infer_object_bindings(pb, ab, s, d, span);
                    }
                }
            },
            Ty::Projection {
                self_ty: ps,
                trait_id: pt,
                trait_args: pa,
                trait_const_args: pc,
                name: pn,
            } => {
                if let Ty::Projection {
                    self_ty: as_,
                    trait_id: at,
                    trait_args: aa,
                    trait_const_args: ac,
                    name: an,
                } = actual {
                    if *pt == *at && *pn == *an && ty_list_same_len(pa, aa)
                        && self.const_generic_arg_patterns_accept(pc, ac) {
                        self.infer_into(ps, as_, s, d, span);
                        self.infer_list(pa, aa, s, d, span);
                        self.infer_const_tys(pc, ac, s, d, span);
                    }
                }
            },
            _ => {},
        }
    }

    fn infer_list(&self, patterns: &TyList, actuals: &TyList, s: &mut SymbolMap<Ty>, d: &mut Vec<Diagnostic>, span: Span)
        requires
            old(s).wf(),
        ensures
            final(s).wf(),
            (final(s)@, final(d)@) == self.spec_infer_list(*patterns, *actuals, (old(s)@, old(d)@), span),
        decreases patterns, 0nat,
    {
        match (patterns, actuals) {
            (TyList::Cons(p, pt), TyList::Cons(a, at)) => {
                self.infer_into(p, a, s, d, span);
                self.infer_list(pt, at, s, d, span);
            },
            _ => {},
        }
    }

    fn infer_const_tys(
        &self,
        patterns: &ConstArgList,
        actuals: &ConstArgList,
        s: &mut SymbolMap<Ty>,
        d: &mut Vec<Diagnostic>,
        span: Span,
    )
        requires
            old(s).wf(),
        ensures
            final(s).wf(),
            (final(s)@, final(d)@) == self.spec_infer_const_tys(*patterns, *actuals, (old(s)@, old(d)@), span),
        decreases patterns, 0nat,
    {
        match (patterns, actuals) {
            (ConstArgList::Cons(p, pt), ConstArgList::Cons(a, at)) => {
                self.infer_into(&p.ty, &a.ty, s, d, span);
                self.infer_const_tys(pt, at, s, d, span);
            },
            _ => {},
        }
    }

    fn infer_object_bindings(
        &self,
        patterns: &BindingList,
        actuals: &BindingList,
        s: &mut SymbolMap<Ty>,
        d: &mut Vec<Diagnostic>,
        span: Span,
    )
        requires
            old(s).wf(),
        ensures
            final(s).wf(),
            (final(s)@, final(d)@) == self.spec_infer_object_bindings(*patterns, *actuals, (old(s)@, old(d)@), span),
        decreases patterns, 2nat,
    {
        let matches = match self.infer_associated_type_bindings(patterns, actuals, s) {
            Some(m) => m,
            None => {
                return;
            },
        };
        proof {
            let m = self.spec_infer_bindings(*patterns, *actuals, old(s)@).unwrap().1;
            assert(matches@.skip(0) =~= m);
        }
        self.infer_matched(patterns, &matches, 0, actuals, s, d, span);
    }

    fn infer_matched(
        &self,
        patterns: &BindingList,
        matches: &Vec<usize>,
        j: usize,
        actuals: &BindingList,
        s: &mut SymbolMap<Ty>,
        d: &mut Vec<Diagnostic>,
        span: Span,
    )
        requires
            old(s).wf(),
            j <= matches@.len(),
        ensures
            final(s).wf(),
            (final(s)@, final(d)@) == self.spec_infer_matched(
                *patterns,
                matches@.skip(j as int),
                *actuals,
                (old(s)@, old(d)@),
                span,
            ),
        decreases patterns, 1nat,
    {
        let ghost m = matches@.skip(j as int);
        match patterns {
            BindingList::Cons(p, rest) => {
                if j < matches.len() {
                    proof {
                        assert(m.len() > 0);
                        assert(m[0] == matches@[j as int]);
                        assert(m.drop_first() =~= matches@.skip(j + 1));
                    }
                    match binding_nth(actuals, matches[j]) {
                        Some(a) => {
                            self.infer_list(&p.trait_args, &a.trait_args, s, d, span);
                            self.infer_const_tys(&p.trait_const_args, &a.trait_const_args, s, d, span);
                            self.infer_into(&p.ty, &a.ty, s, d, span);
                            self.infer_matched(rest, matches, j + 1, actuals, s, d, span);
                        },
                        None => {},
                    }
                }
            },
            BindingList::Nil => {},
        }
    }
}

} // verus!
