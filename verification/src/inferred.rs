//! Partial types that function-local inference found for closures, and
//! generic inference from them: a closure argument feeds the generic call's
//! inference with what is known of its parameters and result.
use vstd::prelude::*;
use crate::checker::{BodyChecker, Diagnostic};
use crate::ids::Span;
use crate::inference::InferState;
use crate::shapes::readonly_compatible;
use crate::symbol_map::SymbolMap;
use crate::ty::{DeepClone, Ty, TyList};

verus! {

/// A type that may still have unknown parts.
pub enum InferredType {
    Unknown,
    Known(Ty),
    Tuple(InferredList),
    Pointer { is_readonly: bool, elem: Box<InferredType> },
    Optional(Box<InferredType>),
    ErrorUnion { error: Box<InferredType>, value: Box<InferredType> },
    Callable { params: InferredList, return_type: Box<InferredType> },
}

/// A list of partial types.
pub enum InferredList {
    Nil,
    Cons(Box<InferredType>, Box<InferredList>),
}

impl InferredList {
    pub open spec fn len(self) -> nat
        decreases self,
    {
        match self {
            InferredList::Nil => 0,
            InferredList::Cons(_, t) => 1 + t.len(),
        }
    }
}

/// What inference found of a closure: its parameters and its result.
pub struct InferredClosureSignature {
    pub params: InferredList,
    pub return_type: InferredType,
}

/// The complete type a partial type stands for, when it has no unknown
/// part and no closure signature in it.
pub open spec fn spec_materialize(inferred: InferredType) -> Option<Ty>
    decreases inferred,
{
    match inferred {
        InferredType::Unknown => None,
        InferredType::Known(ty) => Some(ty),
        InferredType::Tuple(elems) => match spec_materialize_list(elems) {
            Some(l) => Some(Ty::Tuple(l)),
            None => None,
        },
        InferredType::Pointer { is_readonly, elem } => match spec_materialize(*elem) {
            Some(e) => Some(Ty::Pointer { is_readonly, elem: Box::new(e) }),
            None => None,
        },
        InferredType::Optional(elem) => match spec_materialize(*elem) {
            Some(e) => Some(Ty::Optional { elem: Box::new(e) }),
            None => None,
        },
        InferredType::ErrorUnion { error, value } => match (spec_materialize(*error), spec_materialize(*value)) {
            (Some(e), Some(v)) => Some(Ty::ErrorUnion { error: Box::new(e), value: Box::new(v) }),
            _ => None,
        },
        InferredType::Callable { .. } => None,
    }
}

pub open spec fn spec_materialize_list(l: InferredList) -> Option<TyList>
    decreases l,
{
    match l {
        InferredList::Nil => Some(TyList::Nil),
        InferredList::Cons(h, t) => match (spec_materialize(*h), spec_materialize_list(*t)) {
            (Some(hh), Some(tt)) => Some(TyList::Cons(Box::new(hh), Box::new(tt))),
            _ => None,
        },
    }
}

/// The parameter and result types of a pattern that a closure may meet: a
/// callable whose pointer mutability the closure's address allows, a
/// callable pointee, or a non-variadic function pointer.
pub open spec fn spec_closure_pattern_parts(pattern: Ty, closure_address_readonly: Option<bool>) -> Option<
    (TyList, Ty),
> {
    match pattern {
        Ty::Callable { is_readonly, params, return_type } => match closure_address_readonly {
            Some(actual_readonly) => if readonly_compatible(is_readonly, actual_readonly) {
                Some((params, *return_type))
            } else {
                None
            },
            None => None,
        },
        Ty::CallablePointee { params, return_type } => Some((params, *return_type)),
        Ty::FunctionPointer { params, return_type, is_variadic } => if !is_variadic {
            Some((params, *return_type))
        } else {
            None
        },
        _ => None,
    }
}

/// The parameters and result of a callable pattern, for matching against a
/// partial callable type.
pub open spec fn spec_callable_parts(pattern: Ty) -> Option<(TyList, Ty)> {
    match pattern {
        Ty::Callable { params, return_type, .. } | Ty::CallablePointee { params, return_type } => Some(
            (params, *return_type),
        ),
        Ty::FunctionPointer { params, return_type, is_variadic } => if !is_variadic {
            Some((params, *return_type))
        } else {
            None
        },
        _ => None,
    }
}

impl BodyChecker {
    /// Whether a generic pattern can describe a partial type: an unknown
    /// part fits anything, a complete type is checked as a type, and
    /// otherwise the shapes must agree.
    pub open spec fn spec_accepts_inferred(&self, pattern: Ty, actual: InferredType) -> bool
        decreases actual,
    {
        match spec_materialize(actual) {
            Some(a) => self.spec_accepts_shape(pattern, a),
            None => match actual {
                InferredType::Unknown => true,
                InferredType::Tuple(actuals) => match pattern {
                    Ty::Tuple(patterns) => self.spec_accepts_inferred_list(patterns, actuals),
                    _ => false,
                },
                InferredType::Pointer { is_readonly: ar, elem: ae } => match pattern {
                    Ty::Pointer { is_readonly: pr, elem: pe } => readonly_compatible(pr, ar)
                        && self.spec_accepts_inferred(*pe, *ae),
                    _ => false,
                },
                InferredType::Optional(ae) => match pattern {
                    Ty::Optional { elem: pe } => self.spec_accepts_inferred(*pe, *ae),
                    _ => false,
                },
                InferredType::ErrorUnion { error: ae, value: av } => match pattern {
                    Ty::ErrorUnion { error: pe, value: pv } => self.spec_accepts_inferred(*pe, *ae)
                        && self.spec_accepts_inferred(*pv, *av),
                    _ => false,
                },
                InferredType::Callable { params: ap, return_type: ar } => match spec_callable_parts(pattern) {
                    Some((pp, pr)) => self.spec_accepts_inferred_list(pp, ap) && self.spec_accepts_inferred(
                        pr,
                        *ar,
                    ),
                    None => false,
                },
                InferredType::Known(_) => false,
            },
        }
    }

    /// Lists of the same length whose items accept each other in order.
    pub open spec fn spec_accepts_inferred_list(&self, patterns: TyList, actuals: InferredList) -> bool
        decreases actuals,
    {
        match (patterns, actuals) {
            (TyList::Nil, InferredList::Nil) => true,
            (TyList::Cons(p, pt), InferredList::Cons(a, at)) => self.spec_accepts_inferred(*p, *a)
                && self.spec_accepts_inferred_list(*pt, *at),
            _ => false,
        }
    }

    /// Records what `pattern` says of the type parameters, given a partial
    /// type: a complete type is inferred from as a type, unknown parts tell
    /// nothing.
    pub open spec fn spec_infer_from_inferred(
        &self,
        pattern: Ty,
        actual: InferredType,
        st: InferState,
        span: Span,
    ) -> InferState
        decreases actual,
    {
        match spec_materialize(actual) {
            Some(a) => self.spec_infer(pattern, a, st, span),
            None => match actual {
                InferredType::Tuple(actuals) => match pattern {
                    Ty::Tuple(patterns) => if patterns.len() == actuals.len() {
                        self.spec_infer_from_inferred_list(patterns, actuals, st, span)
                    } else {
                        st
                    },
                    _ => st,
                },
                InferredType::Pointer { is_readonly: ar, elem: ae } => match pattern {
                    Ty::Pointer { is_readonly: pr, elem: pe } => if readonly_compatible(pr, ar) {
                        self.spec_infer_from_inferred(*pe, *ae, st, span)
                    } else {
                        st
                    },
                    _ => st,
                },
                InferredType::Optional(ae) => match pattern {
                    Ty::Optional { elem: pe } => self.spec_infer_from_inferred(*pe, *ae, st, span),
                    _ => st,
                },
                InferredType::ErrorUnion { error: ae, value: av } => match pattern {
                    Ty::ErrorUnion { error: pe, value: pv } => self.spec_infer_from_inferred(
                        *pv,
                        *av,
                        self.spec_infer_from_inferred(*pe, *ae, st, span),
                        span,
                    ),
                    _ => st,
                },
                InferredType::Callable { params: ap, return_type: ar } => match spec_callable_parts(pattern) {
                    Some((pp, pr)) => if pp.len() == ap.len() {
                        self.spec_infer_from_inferred(
                            pr,
                            *ar,
                            self.spec_infer_from_inferred_list(pp, ap, st, span),
                            span,
                        )
                    } else {
                        st
                    },
                    None => st,
                },
                _ => st,
            },
        }
    }

    /// Infers from the items of two lists pairwise, as far as both reach.
    pub open spec fn spec_infer_from_inferred_list(
        &self,
        patterns: TyList,
        actuals: InferredList,
        st: InferState,
        span: Span,
    ) -> InferState
        decreases actuals,
    {
        match (patterns, actuals) {
            (TyList::Cons(p, pt), InferredList::Cons(a, at)) => self.spec_infer_from_inferred_list(
                *pt,
                *at,
                self.spec_infer_from_inferred(*p, *a, st, span),
                span,
            ),
            _ => st,
        }
    }

    /// Generic inference from a closure argument: when the pattern is a
    /// callable the closure can meet, with as many parameters, and the
    /// whole partial signature fits it, the parameters and then the result
    /// are inferred from; otherwise nothing is.
    pub open spec fn spec_infer_from_closure(
        &self,
        pattern: Ty,
        signature: Option<InferredClosureSignature>,
        closure_address_readonly: Option<bool>,
        st: InferState,
        span: Span,
    ) -> (bool, InferState) {
        match signature {
            None => (false, st),
            Some(sig) => match spec_closure_pattern_parts(pattern, closure_address_readonly) {
                None => (false, st),
                Some((params, return_type)) => if params.len() != sig.params.len() || !(
                self.spec_accepts_inferred_list(params, sig.params) && self.spec_accepts_inferred(
                    return_type,
                    sig.return_type,
                )) {
                    (false, st)
                } else {
                    (
                        true,
                        self.spec_infer_from_inferred(
                            return_type,
                            sig.return_type,
                            self.spec_infer_from_inferred_list(params, sig.params, st, span),
                            span,
                        ),
                    )
                },
            },
        }
    }
}


/// The complete type a partial type stands for, if it has one.
pub fn materialize_inferred_type(inferred: &InferredType) -> (r: Option<Ty>)
    ensures
        r == spec_materialize(*inferred),
    decreases inferred,
{
    match inferred {
        InferredType::Unknown => None,
        InferredType::Known(ty) => Some(ty.deep_clone()),
        InferredType::Tuple(elems) => match materialize_inferred_list(elems) {
            Some(l) => Some(Ty::Tuple(l)),
            None => None,
        },
        InferredType::Pointer { is_readonly, elem } => match materialize_inferred_type(elem) {
            Some(e) => Some(Ty::Pointer { is_readonly: *is_readonly, elem: Box::new(e) }),
            None => None,
        },
        InferredType::Optional(elem) => match materialize_inferred_type(elem) {
            Some(e) => Some(Ty::Optional { elem: Box::new(e) }),
            None => None,
        },
        InferredType::ErrorUnion { error, value } => {
            let e = materialize_inferred_type(error);
            let v = materialize_inferred_type(value);
            match (e, v) {
                (Some(e), Some(v)) => Some(Ty::ErrorUnion { error: Box::new(e), value: Box::new(v) }),
                _ => None,
            }
        },
        InferredType::Callable { .. } => None,
    }
}

fn materialize_inferred_list(l: &InferredList) -> (r: Option<TyList>)
    ensures
        r == spec_materialize_list(*l),
    decreases l,
{
    match l {
        InferredList::Nil => Some(TyList::Nil),
        InferredList::Cons(h, t) => {
            let hh = materialize_inferred_type(h);
            let tt = materialize_inferred_list(t);
            match (hh, tt) {
                (Some(hh), Some(tt)) => Some(TyList::Cons(Box::new(hh), Box::new(tt))),
                _ => None,
            }
        },
    }
}

/// Whether the two lists have the same length.
fn inferred_list_same_len(patterns: &TyList, actuals: &InferredList) -> (r: bool)
    ensures
        r == (patterns.len() == actuals.len()),
    decreases actuals,
{
    match (patterns, actuals) {
        (TyList::Nil, InferredList::Nil) => true,
        (TyList::Cons(_, pt), InferredList::Cons(_, at)) => inferred_list_same_len(pt, at),
        _ => false,
    }
}

/// The parameters and result of a callable pattern.
fn callable_parts(pattern: &Ty) -> (r: Option<(&TyList, &Ty)>)
    ensures
        match r {
            Some((p, t)) => spec_callable_parts(*pattern) == Some((*p, *t)),
            None => spec_callable_parts(*pattern) is None,
        },
{
    match pattern {
        Ty::Callable { params, return_type, .. } | Ty::CallablePointee { params, return_type } => Some(
            (params, &**return_type),
        ),
        Ty::FunctionPointer { params, return_type, is_variadic } => if !*is_variadic {
            Some((params, &**return_type))
        } else {
            None
        },
        _ => None,
    }
}

impl BodyChecker {
    /// Whether a generic pattern can describe a partial type.
    pub fn generic_pattern_accepts_inferred_shape(&self, pattern: &Ty, actual: &InferredType) -> (r: bool)
        ensures
            r == self.spec_accepts_inferred(*pattern, *actual),
        decreases actual,
    {
        if let Some(a) = materialize_inferred_type(actual) {
            return self.generic_pattern_accepts_type_shape(pattern, &a);
        }
        match actual {
            InferredType::Unknown => true,
            InferredType::Tuple(actuals) => match pattern {
                Ty::Tuple(patterns) => self.accepts_inferred_list(patterns, actuals),
                _ => false,
            },
            InferredType::Pointer { is_readonly: ar, elem: ae } => match pattern {
                Ty::Pointer { is_readonly: pr, elem: pe } => (*pr == *ar || *pr && !*ar)
                    && self.generic_pattern_accepts_inferred_shape(pe, ae),
                _ => false,
            },
            InferredType::Optional(ae) => match pattern {
                Ty::Optional { elem: pe } => self.generic_pattern_accepts_inferred_shape(pe, ae),
                _ => false,
            },
            InferredType::ErrorUnion { error: ae, value: av } => match pattern {
                Ty::ErrorUnion { error: pe, value: pv } => self.generic_pattern_accepts_inferred_shape(pe, ae)
                    && self.generic_pattern_accepts_inferred_shape(pv, av),
                _ => false,
            },
            InferredType::Callable { params: ap, return_type: ar } => match callable_parts(pattern) {
                Some((pp, pr)) => self.accepts_inferred_list(pp, ap) && self.generic_pattern_accepts_inferred_shape(
                    pr,
                    ar,
                ),
                None => false,
            },
            InferredType::Known(_) => false,
        }
    }

    fn accepts_inferred_list(&self, patterns: &TyList, actuals: &InferredList) -> (r: bool)
        ensures
            r == self.spec_accepts_inferred_list(*patterns, *actuals),
        decreases actuals,
    {
        match (patterns, actuals) {
            (TyList::Nil, InferredList::Nil) => true,
            (TyList::Cons(p, pt), InferredList::Cons(a, at)) => self.generic_pattern_accepts_inferred_shape(p, a)
                && self.accepts_inferred_list(pt, at),
            _ => false,
        }
    }

    fn infer_from_inferred_into(
        &self,
        pattern: &Ty,
        actual: &InferredType,
        s: &mut SymbolMap<Ty>,
        d: &mut Vec<Diagnostic>,
        span: Span,
    )
        requires
            old(s).wf(),
        ensures
            final(s).wf(),
            (final(s)@, final(d)@) == self.spec_infer_from_inferred(*pattern, *actual, (old(s)@, old(d)@), span),
        decreases actual,
    {
        if let Some(a) = materialize_inferred_type(actual) {
            self.infer_into(pattern, &a, s, d, span);
            return;
        }
        match actual {
            InferredType::Tuple(actuals) => {
                if let Ty::Tuple(patterns) = pattern {
                    if inferred_list_same_len(patterns, actuals) {
                        self.infer_from_inferred_list(patterns, actuals, s, d, span);
                    }
                }
            },
            InferredType::Pointer { is_readonly: ar, elem: ae } => {
                if let Ty::Pointer { is_readonly: pr, elem: pe } = pattern {
                    if *pr == *ar || *pr && !*ar {
                        self.infer_from_inferred_into(pe, ae, s, d, span);
                    }
                }
            },
            InferredType::Optional(ae) => {
                if let Ty::Optional { elem: pe } = pattern {
                    self.infer_from_inferred_into(pe, ae, s, d, span);
                }
            },
            InferredType::ErrorUnion { error: ae, value: av } => {
                if let Ty::ErrorUnion { error: pe, value: pv } = pattern {
                    self.infer_from_inferred_into(pe, ae, s, d, span);
                    self.infer_from_inferred_into(pv, av, s, d, span);
                }
            },
            InferredType::Callable { params: ap, return_type: ar } => {
                if let Some((pp, pr)) = callable_parts(pattern) {
                    if inferred_list_same_len(pp, ap) {
                        self.infer_from_inferred_list(pp, ap, s, d, span);
                        self.infer_from_inferred_into(pr, ar, s, d, span);
                    }
                }
            },
            _ => {},
        }
    }

    fn infer_from_inferred_list(
        &self,
        patterns: &TyList,
        actuals: &InferredList,
        s: &mut SymbolMap<Ty>,
        d: &mut Vec<Diagnostic>,
        span: Span,
    )
        requires
            old(s).wf(),
        ensures
            final(s).wf(),
            (final(s)@, final(d)@) == self.spec_infer_from_inferred_list(*patterns, *actuals, (old(s)@, old(d)@), span),
        decreases actuals,
    {
        match (patterns, actuals) {
            (TyList::Cons(p, pt), InferredList::Cons(a, at)) => {
                self.infer_from_inferred_into(p, a, s, d, span);
                self.infer_from_inferred_list(pt, at, s, d, span);
            },
            _ => {},
        }
    }

    /// Infers the type parameters in `pattern` from a partial type.
    pub fn infer_generics_from_inferred_type(
        &mut self,
        pattern: &Ty,
        actual: &InferredType,
        substitutions: &mut SymbolMap<Ty>,
        span: Span,
    )
        requires
            old(substitutions).wf(),
        ensures
            final(substitutions).wf(),
            final(self).same_except_diagnostics(old(self)),
            final(substitutions)@ == old(self).spec_infer_from_inferred(
                *pattern,
                *actual,
                (old(substitutions)@, Seq::empty()),
                span,
            ).0,
            final(self).diagnostics@ == old(self).diagnostics@ + old(self).spec_infer_from_inferred(
                *pattern,
                *actual,
                (old(substitutions)@, Seq::empty()),
                span,
            ).1,
    {
        let mut found: Vec<Diagnostic> = Vec::new();
        self.infer_from_inferred_into(pattern, actual, substitutions, &mut found, span);
        self.diagnostics.append(&mut found);
    }

    /// Generic inference from a closure argument (see
    /// `spec_infer_from_closure`); the result tells whether the closure's
    /// signature was used.
    pub fn infer_generics_from_closure_signature(
        &mut self,
        pattern: &Ty,
        signature: Option<&InferredClosureSignature>,
        closure_address_readonly: Option<bool>,
        substitutions: &mut SymbolMap<Ty>,
        span: Span,
    ) -> (r: bool)
        requires
            old(substitutions).wf(),
        ensures
            final(substitutions).wf(),
            final(self).same_except_diagnostics(old(self)),
            ({
                let (used, st) = old(self).spec_infer_from_closure(
                    *pattern,
                    match signature {
                        Some(sig) => Some(*sig),
                        None => None,
                    },
                    closure_address_readonly,
                    (old(substitutions)@, Seq::empty()),
                    span,
                );
                &&& r == used
                &&& final(substitutions)@ == st.0
                &&& final(self).diagnostics@ == old(self).diagnostics@ + st.1
            }),
    {
        let signature = match signature {
            Some(sig) => sig,
            None => {
                return false;
            },
        };
        let (params, return_type): (&TyList, &Ty) = match pattern {
            Ty::Callable { is_readonly, params, return_type } => match closure_address_readonly {
                Some(actual_readonly) => if *is_readonly == actual_readonly || *is_readonly && !actual_readonly {
                    (params, &**return_type)
                } else {
                    return false;
                },
                None => {
                    return false;
                },
            },
            Ty::CallablePointee { params, return_type } => (params, &**return_type),
            Ty::FunctionPointer { params, return_type, is_variadic } => if !*is_variadic {
                (params, &**return_type)
            } else {
                return false;
            },
            _ => {
                return false;
            },
        };
        if !inferred_list_same_len(params, &signature.params) {
            return false;
        }
        if !self.accepts_inferred_list(params, &signature.params) || !self.generic_pattern_accepts_inferred_shape(
            return_type,
            &signature.return_type,
        ) {
            return false;
        }
        let mut found: Vec<Diagnostic> = Vec::new();
        self.infer_from_inferred_list(params, &signature.params, substitutions, &mut found, span);
        self.infer_from_inferred_into(return_type, &signature.return_type, substitutions, &mut found, span);
        self.diagnostics.append(&mut found);
        true
    }
}

} // verus!
