//! Whether a generic pattern can describe a type at all: a structural check
//! that looks only at the shapes that can hold substitutions and compares
//! concrete parts exactly. It binds nothing, so a speculative inference can
//! ask it before committing to any substitution.
use vstd::prelude::*;
use crate::checker::BodyChecker;
use crate::pattern_matching::{const_pattern_args_match, spec_const_args_match, unused_flags};
use crate::ty::{array_len_eq, ty_eq, ArrayLen, AssocBinding, BindingList, ConstArgList, ConstGenericValue, Ty, TyList};
use crate::type_queries::{
    spec_contains_const_generic, spec_contains_generic, type_contains_const_generic_param,
    type_contains_generic_param,
};

verus! {

/// A read-only pattern pointer accepts a mutable one; not the reverse.
pub open spec fn readonly_compatible(pattern_readonly: bool, actual_readonly: bool) -> bool {
    pattern_readonly == actual_readonly || pattern_readonly && !actual_readonly
}

impl BodyChecker {
    /// A pattern array length accepts an actual one: a parameter accepts any
    /// length with a value, equal lengths accept each other, a generic
    /// builtin length accepts the same builtin, and otherwise the known
    /// values must agree.
    pub open spec fn spec_array_len_pattern_accepts(&self, pattern: ArrayLen, actual: ArrayLen) -> bool {
        if pattern is GenericParam {
            self.spec_const_value_from_array_len(actual) is Some
        } else if pattern == actual {
            true
        } else if match (pattern, actual) {
            (
                ArrayLen::Builtin { builtin: pattern_builtin, ty: pattern_ty },
                ArrayLen::Builtin { builtin: actual_builtin, ty: actual_ty },
            ) => pattern_builtin == actual_builtin && (spec_contains_generic(*pattern_ty)
                || spec_contains_const_generic(*pattern_ty) || *pattern_ty == *actual_ty),
            _ => false,
        } {
            true
        } else {
            self.spec_array_len_value(pattern) is Some && self.spec_array_len_value(pattern)
                == self.spec_array_len_value(actual)
        }
    }

    /// The shape check of a generic pattern against a type.
    pub open spec fn spec_accepts_shape(&self, pattern: Ty, actual: Ty) -> bool
        decreases pattern, 0nat, 0nat,
    {
        if pattern is GenericParam {
            true
        } else if !spec_contains_generic(pattern) && !spec_contains_const_generic(pattern) {
            pattern == actual
        } else {
            match (pattern, actual) {
                (
                    Ty::Pointer { is_readonly: pr, elem: pe },
                    Ty::Pointer { is_readonly: ar, elem: ae },
                )
                | (
                    Ty::VolatilePointer { is_readonly: pr, elem: pe },
                    Ty::VolatilePointer { is_readonly: ar, elem: ae },
                )
                | (
                    Ty::Slice { is_readonly: pr, elem: pe },
                    Ty::Slice { is_readonly: ar, elem: ae },
                ) => readonly_compatible(pr, ar) && self.spec_accepts_shape(*pe, *ae),
                (
                    Ty::Slice { is_readonly: pr, elem: pe },
                    Ty::Pointer { is_readonly: ar, elem: ae },
                ) => readonly_compatible(pr, ar) && match *ae {
                    Ty::Array { elem: inner, .. } | Ty::SlicePointee { elem: inner } =>
                        self.spec_accepts_shape(*pe, *inner),
                    _ => false,
                },
                (Ty::SlicePointee { elem: pe }, Ty::SlicePointee { elem: ae })
                | (Ty::Optional { elem: pe }, Ty::Optional { elem: ae }) => self.spec_accepts_shape(
                    *pe,
                    *ae,
                ),
                (Ty::Array { len: pl, elem: pe }, Ty::Array { len: al, elem: ae }) =>
                    self.spec_array_len_pattern_accepts(pl, al) && self.spec_accepts_shape(*pe, *ae),
                (Ty::Range { kind: pk, bound: pb }, Ty::Range { kind: ak, bound: ab }) => pk == ak
                    && match (pb, ab) {
                    (Some(p), Some(a)) => self.spec_accepts_shape(*p, *a),
                    (None, None) => true,
                    _ => false,
                },
                (Ty::Tuple(ps), Ty::Tuple(as_)) => self.spec_accepts_shape_list(ps, as_),
                (Ty::ErrorUnion { error: pe, value: pv }, Ty::ErrorUnion { error: ae, value: av }) =>
                    self.spec_accepts_shape(*pe, *ae) && self.spec_accepts_shape(*pv, *av),
                (
                    Ty::FunctionPointer { params: pp, return_type: pret, is_variadic: pv },
                    Ty::FunctionPointer { params: ap, return_type: aret, is_variadic: av },
                ) => pv == av && self.spec_accepts_shape_list(pp, ap) && self.spec_accepts_shape(
                    *pret,
                    *aret,
                ),
                (
                    Ty::Callable { is_readonly: pr, params: pp, return_type: pret },
                    Ty::Callable { is_readonly: ar, params: ap, return_type: aret },
                ) => readonly_compatible(pr, ar) && self.spec_accepts_shape_list(pp, ap)
                    && self.spec_accepts_shape(*pret, *aret),
                (
                    Ty::Callable { is_readonly: pr, params: pp, return_type: pret },
                    Ty::Pointer { is_readonly: ar, elem: ae },
                ) => match *ae {
                    Ty::ClosureState { params: ap, return_type: aret, .. } => readonly_compatible(
                        pr,
                        ar,
                    ) && self.spec_accepts_shape_list(pp, ap) && self.spec_accepts_shape(
                        *pret,
                        *aret,
                    ),
                    _ => false,
                },
                (
                    Ty::CallablePointee { params: pp, return_type: pret },
                    Ty::CallablePointee { params: ap, return_type: aret },
                ) => self.spec_accepts_shape_list(pp, ap) && self.spec_accepts_shape(*pret, *aret),
                (
                    Ty::Nominal { def_id: pd, args: pa, const_args: pc },
                    Ty::Nominal { def_id: ad, args: aa, const_args: ac },
                ) => pd == ad && pa.len() == aa.len() && self.spec_const_patterns_accept(pc, ac)
                    && self.spec_accepts_shape_list(pa, aa),
                (
                    Ty::BuiltinTrait { trait_id: pt, args: pa },
                    Ty::BuiltinTrait { trait_id: at, args: aa },
                ) => pt == at && self.spec_accepts_shape_list(pa, aa),
                (
                    Ty::TraitObject {
                        is_readonly: pr,
                        trait_id: pt,
                        trait_args: pa,
                        trait_const_args: pc,
                        bindings: pb,
                    },
                    Ty::TraitObject {
                        is_readonly: ar,
                        trait_id: at,
                        trait_args: aa,
                        trait_const_args: ac,
                        bindings: ab,
                    },
                ) => pr == ar && pt == at && pa.len() == aa.len() && self.spec_const_patterns_accept(
                    pc,
                    ac,
                ) && pb.len() == ab.len() && self.spec_accepts_shape_list(pa, aa)
                    && self.spec_binding_shapes_accept(pb, ab),
                (
                    Ty::TraitObjectPointee {
                        trait_id: pt,
                        trait_args: pa,
                        trait_const_args: pc,
                        bindings: pb,
                    },
                    Ty::TraitObjectPointee {
                        trait_id: at,
                        trait_args: aa,
                        trait_const_args: ac,
                        bindings: ab,
                    },
                ) => pt == at && pa.len() == aa.len() && self.spec_const_patterns_accept(pc, ac)
                    && pb.len() == ab.len() && self.spec_accepts_shape_list(pa, aa)
                    && self.spec_binding_shapes_accept(pb, ab),
                (
                    Ty::Projection {
                        self_ty: ps,
                        trait_id: pt,
                        trait_args: pa,
                        trait_const_args: pc,
                        name: pn,
                    },
                    Ty::Projection {
                        self_ty: as_,
                        trait_id: at,
                        trait_args: aa,
                        trait_const_args: ac,
                        name: an,
                    },
                ) => pt == at && pn == an && pa.len() == aa.len() && self.spec_const_patterns_accept(
                    pc,
                    ac,
                ) && self.spec_accepts_shape(*ps, *as_) && self.spec_accepts_shape_list(pa, aa),
                _ => false,
            }
        }
    }

    /// Lists of the same length whose items accept each other in order.
    pub open spec fn spec_accepts_shape_list(&self, patterns: TyList, actuals: TyList) -> bool
        decreases patterns, 0nat, 0nat,
    {
        match (patterns, actuals) {
            (TyList::Nil, TyList::Nil) => true,
            (TyList::Cons(p, pt), TyList::Cons(a, at)) => self.spec_accepts_shape(*p, *a)
                && self.spec_accepts_shape_list(*pt, *at),
            _ => false,
        }
    }

    /// Compile-time argument lists of the same length whose types accept
    /// each other and whose values agree unless the pattern's is a
    /// parameter.
    pub open spec fn spec_const_patterns_accept(&self, patterns: ConstArgList, actuals: ConstArgList) -> bool
        decreases patterns, 0nat, 0nat,
    {
        match (patterns, actuals) {
            (ConstArgList::Nil, ConstArgList::Nil) => true,
            (ConstArgList::Cons(p, pt), ConstArgList::Cons(a, at)) => self.spec_accepts_shape(
                *p.ty,
                *a.ty,
            ) && (p.value is GenericParam || spec_const_args_match(p, a))
                && self.spec_const_patterns_accept(*pt, *at),
            _ => false,
        }
    }

    /// One associated binding accepts another.
    pub open spec fn spec_binding_shape_accepts(&self, pattern: AssocBinding, actual: AssocBinding) -> bool
        decreases pattern, 0nat, 0nat,
    {
        pattern.name == actual.name && pattern.trait_id == actual.trait_id
            && self.spec_accepts_shape_list(pattern.trait_args, actual.trait_args)
            && self.spec_const_patterns_accept(pattern.trait_const_args, actual.trait_const_args)
            && self.spec_accepts_shape(*pattern.ty, *actual.ty)
    }

    /// The pattern bindings can be paired with distinct actual bindings that
    /// they accept (searched in order, with backtracking).
    pub open spec fn spec_binding_shapes_accept(&self, patterns: BindingList, actuals: BindingList) -> bool
        decreases patterns, 3nat, 0nat,
    {
        patterns.len() == actuals.len() && self.spec_binding_shapes_from(
            patterns,
            actuals,
            Seq::new(actuals.len(), |i: int| false),
        )
    }

    pub open spec fn spec_binding_shapes_from(
        &self,
        patterns: BindingList,
        actuals: BindingList,
        used: Seq<bool>,
    ) -> bool
        decreases patterns, 2nat, 0nat,
    {
        match patterns {
            BindingList::Nil => true,
            BindingList::Cons(_, _) => self.spec_binding_shape_at(patterns, actuals, actuals, 0, used),
        }
    }

    /// Tries the first pattern binding against each unused actual binding of
    /// `remaining` (which starts at position `index`).
    pub open spec fn spec_binding_shape_at(
        &self,
        patterns: BindingList,
        actuals: BindingList,
        remaining: BindingList,
        index: nat,
        used: Seq<bool>,
    ) -> bool
        decreases patterns, 1nat, remaining.len(),
    {
        match patterns {
            BindingList::Nil => false,
            BindingList::Cons(pattern, rest) => match remaining {
                BindingList::Nil => false,
                BindingList::Cons(actual, tail) => if (index < used.len() && used[index as int])
                    || !self.spec_binding_shape_accepts(pattern, actual) {
                    self.spec_binding_shape_at(patterns, actuals, *tail, index + 1, used)
                } else {
                    self.spec_binding_shapes_from(*rest, actuals, used.update(index as int, true))
                        || self.spec_binding_shape_at(patterns, actuals, *tail, index + 1, used)
                },
            },
        }
    }

    /// The compile-time value of an array length, for generic inference.
    pub fn const_generic_value_from_array_len(&self, len: &ArrayLen) -> (r: Option<ConstGenericValue>)
        ensures
            r == self.spec_const_value_from_array_len(*len),
    {
        self.method_const_generic_value_from_array_len(len)
    }

    /// Whether a pattern array length accepts an actual one.
    pub fn const_generic_array_len_pattern_accepts(&self, pattern: &ArrayLen, actual: &ArrayLen) -> (r:
        bool)
        ensures
            r == self.spec_array_len_pattern_accepts(*pattern, *actual),
    {
        if matches!(pattern, ArrayLen::GenericParam(_)) {
            return self.const_generic_value_from_array_len(actual).is_some();
        }
        if array_len_eq(pattern, actual) {
            return true;
        }
        match (pattern, actual) {
            (
                ArrayLen::Builtin { builtin: pattern_builtin, ty: pattern_ty },
                ArrayLen::Builtin { builtin: actual_builtin, ty: actual_ty },
            ) => {
                if *pattern_builtin == *actual_builtin && (type_contains_generic_param(pattern_ty)
                    || type_contains_const_generic_param(pattern_ty) || ty_eq(pattern_ty, actual_ty)) {
                    return true;
                }
            },
            _ => {},
        }
        let pattern_value = self.array_len_value(pattern);
        let actual_value = self.array_len_value(actual);
        match (pattern_value, actual_value) {
            (Some(p), Some(a)) => p == a,
            _ => false,
        }
    }

    /// Whether two compile-time argument lists accept each other.
    pub fn const_generic_arg_patterns_accept(&self, patterns: &ConstArgList, actuals: &ConstArgList) -> (r:
        bool)
        ensures
            r == self.spec_const_patterns_accept(*patterns, *actuals),
        decreases patterns, 0nat, 0nat,
    {
        match (patterns, actuals) {
            (ConstArgList::Nil, ConstArgList::Nil) => true,
            (ConstArgList::Cons(p, pt), ConstArgList::Cons(a, at)) => {
                self.generic_pattern_accepts_type_shape(&p.ty, &a.ty) && (matches!(
                    p.value,
                    ConstGenericValue::GenericParam(_)
                ) || const_pattern_args_match(p, a)) && self.const_generic_arg_patterns_accept(pt, at)
            },
            _ => false,
        }
    }

    fn accepts_shape_list(&self, patterns: &TyList, actuals: &TyList) -> (r: bool)
        ensures
            r == self.spec_accepts_shape_list(*patterns, *actuals),
        decreases patterns, 0nat, 0nat,
    {
        match (patterns, actuals) {
            (TyList::Nil, TyList::Nil) => true,
            (TyList::Cons(p, pt), TyList::Cons(a, at)) => self.generic_pattern_accepts_type_shape(p, a)
                && self.accepts_shape_list(pt, at),
            _ => false,
        }
    }

    fn binding_shape_accepts(&self, pattern: &AssocBinding, actual: &AssocBinding) -> (r: bool)
        ensures
            r == self.spec_binding_shape_accepts(*pattern, *actual),
        decreases pattern, 0nat, 0nat,
    {
        pattern.name == actual.name && pattern.trait_id == actual.trait_id && self.accepts_shape_list(
            &pattern.trait_args,
            &actual.trait_args,
        ) && self.const_generic_arg_patterns_accept(
            &pattern.trait_const_args,
            &actual.trait_const_args,
        ) && self.generic_pattern_accepts_type_shape(&pattern.ty, &actual.ty)
    }

    /// Whether the pattern bindings can be paired with distinct actual
    /// bindings that they accept.
    pub fn generic_binding_patterns_accept_shapes(&self, patterns: &BindingList, actuals: &BindingList) -> (r:
        bool)
        ensures
            r == self.spec_binding_shapes_accept(*patterns, *actuals),
        decreases patterns, 3nat, 0nat,
    {
        if !crate::ty::binding_list_same_len(patterns, actuals) {
            return false;
        }
        let mut used = unused_flags(actuals);
        self.generic_binding_patterns_accept_shapes_inner(patterns, actuals, &mut used)
    }

    /// The search behind `generic_binding_patterns_accept_shapes`; `used`
    /// marks the actual bindings already paired and is restored on return.
    pub fn generic_binding_patterns_accept_shapes_inner(
        &self,
        patterns: &BindingList,
        actuals: &BindingList,
        used: &mut Vec<bool>,
    ) -> (r: bool)
        requires
            old(used)@.len() == actuals.len(),
        ensures
            final(used)@ == old(used)@,
            r == self.spec_binding_shapes_from(*patterns, *actuals, old(used)@),
        decreases patterns, 2nat, 0nat,
    {
        match patterns {
            BindingList::Nil => true,
            BindingList::Cons(_, _) => self.binding_shape_at(patterns, actuals, actuals, 0, used),
        }
    }

    fn binding_shape_at(
        &self,
        patterns: &BindingList,
        actuals: &BindingList,
        remaining: &BindingList,
        index: usize,
        used: &mut Vec<bool>,
    ) -> (r: bool)
        requires
            old(used)@.len() == actuals.len(),
            index + remaining.len() == actuals.len(),
        ensures
            final(used)@ == old(used)@,
            r == self.spec_binding_shape_at(*patterns, *actuals, *remaining, index as nat, old(used)@),
        decreases patterns, 1nat, remaining.len(),
    {
        match patterns {
            BindingList::Nil => false,
            BindingList::Cons(pattern, rest) => match remaining {
                BindingList::Nil => false,
                BindingList::Cons(actual, tail) => {
                    let n = used.len();
                    proof {
                        assert(remaining.len() == 1 + tail.len());
                        assert(index < n);
                    }
                    if used[index] || !self.binding_shape_accepts(pattern, actual) {
                        return self.binding_shape_at(patterns, actuals, tail, index + 1, used);
                    }
                    let ghost before = used@;
                    used.set(index, true);
                    let matched = self.generic_binding_patterns_accept_shapes_inner(rest, actuals, used);
                    used.set(index, false);
                    proof {
                        assert(used@ =~= before);
                    }
                    if matched {
                        return true;
                    }
                    self.binding_shape_at(patterns, actuals, tail, index + 1, used)
                },
            },
        }
    }

    /// Whether a generic pattern can describe `actual` (see
    /// `spec_accepts_shape`).
    pub fn generic_pattern_accepts_type_shape(&self, pattern: &Ty, actual: &Ty) -> (r: bool)
        ensures
            r == self.spec_accepts_shape(*pattern, *actual),
        decreases pattern, 0nat, 0nat,
    {
        if matches!(pattern, Ty::GenericParam(_)) {
            return true;
        }
        if !type_contains_generic_param(pattern) && !type_contains_const_generic_param(pattern) {
            return ty_eq(pattern, actual);
        }
        match (pattern, actual) {
            (
                Ty::Pointer { is_readonly: pr, elem: pe },
                Ty::Pointer { is_readonly: ar, elem: ae },
            )
            | (
                Ty::VolatilePointer { is_readonly: pr, elem: pe },
                Ty::VolatilePointer { is_readonly: ar, elem: ae },
            )
            | (
                Ty::Slice { is_readonly: pr, elem: pe },
                Ty::Slice { is_readonly: ar, elem: ae },
            ) => (*pr == *ar || *pr && !*ar) && self.generic_pattern_accepts_type_shape(pe, ae),
            (
                Ty::Slice { is_readonly: pr, elem: pe },
                Ty::Pointer { is_readonly: ar, elem: ae },
            ) => {
                if !(*pr == *ar || *pr && !*ar) {
                    return false;
                }
                match &**ae {
                    Ty::Array { elem: inner, .. } | Ty::SlicePointee { elem: inner } =>
                        self.generic_pattern_accepts_type_shape(pe, inner),
                    _ => false,
                }
            },
            (Ty::SlicePointee { elem: pe }, Ty::SlicePointee { elem: ae })
            | (Ty::Optional { elem: pe }, Ty::Optional { elem: ae }) =>
                self.generic_pattern_accepts_type_shape(pe, ae),
            (Ty::Array { len: pl, elem: pe }, Ty::Array { len: al, elem: ae }) =>
                self.const_generic_array_len_pattern_accepts(pl, al)
                    && self.generic_pattern_accepts_type_shape(pe, ae),
            (Ty::Range { kind: pk, bound: pb }, Ty::Range { kind: ak, bound: ab }) => *pk == *ak
                && match (pb, ab) {
                (Some(p), Some(a)) => self.generic_pattern_accepts_type_shape(p, a),
                (None, None) => true,
                _ => false,
            },
            (Ty::Tuple(ps), Ty::Tuple(as_)) => self.accepts_shape_list(ps, as_),
            (Ty::ErrorUnion { error: pe, value: pv }, Ty::ErrorUnion { error: ae, value: av }) =>
                self.generic_pattern_accepts_type_shape(pe, ae)
                    && self.generic_pattern_accepts_type_shape(pv, av),
            (
                Ty::FunctionPointer { params: pp, return_type: pret, is_variadic: pv },
                Ty::FunctionPointer { params: ap, return_type: aret, is_variadic: av },
            ) => *pv == *av && self.accepts_shape_list(pp, ap)
                && self.generic_pattern_accepts_type_shape(pret, aret),
            (
                Ty::Callable { is_readonly: pr, params: pp, return_type: pret },
                Ty::Callable { is_readonly: ar, params: ap, return_type: aret },
            ) => (*pr == *ar || *pr && !*ar) && self.accepts_shape_list(pp, ap)
                && self.generic_pattern_accepts_type_shape(pret, aret),
            (
                Ty::Callable { is_readonly: pr, params: pp, return_type: pret },
                Ty::Pointer { is_readonly: ar, elem: ae },
            ) => match &**ae {
                Ty::ClosureState { params: ap, return_type: aret, .. } => (*pr == *ar || *pr
                    && !*ar) && self.accepts_shape_list(pp, ap)
                    && self.generic_pattern_accepts_type_shape(pret, aret),
                _ => false,
            },
            (
                Ty::CallablePointee { params: pp, return_type: pret },
                Ty::CallablePointee { params: ap, return_type: aret },
            ) => self.accepts_shape_list(pp, ap) && self.generic_pattern_accepts_type_shape(pret, aret),
            (
                Ty::Nominal { def_id: pd, args: pa, const_args: pc },
                Ty::Nominal { def_id: ad, args: aa, const_args: ac },
            ) => pd.same(ad) && crate::ty::ty_list_same_len(pa, aa)
                && self.const_generic_arg_patterns_accept(pc, ac) && self.accepts_shape_list(pa, aa),
            (
                Ty::BuiltinTrait { trait_id: pt, args: pa },
                Ty::BuiltinTrait { trait_id: at, args: aa },
            ) => *pt == *at && self.accepts_shape_list(pa, aa),
            (
                Ty::TraitObject {
                    is_readonly: pr,
                    trait_id: pt,
                    trait_args: pa,
                    trait_const_args: pc,
                    bindings: pb,
                },
                Ty::TraitObject {
                    is_readonly: ar,
                    trait_id: at,
                    trait_args: aa,
                    trait_const_args: ac,
                    bindings: ab,
                },
            ) => *pr == *ar && *pt == *at && crate::ty::ty_list_same_len(pa, aa)
                && self.const_generic_arg_patterns_accept(pc, ac) && crate::ty::binding_list_same_len(
                pb,
                ab,
            ) && self.accepts_shape_list(pa, aa) && self.generic_binding_patterns_accept_shapes(pb, ab),
            (
                Ty::TraitObjectPointee {
                    trait_id: pt,
                    trait_args: pa,
                    trait_const_args: pc,
                    bindings: pb,
                },
                Ty::TraitObjectPointee {
                    trait_id: at,
                    trait_args: aa,
                    trait_const_args: ac,
                    bindings: ab,
                },
            ) => *pt == *at && crate::ty::ty_list_same_len(pa, aa)
                && self.const_generic_arg_patterns_accept(pc, ac) && crate::ty::binding_list_same_len(
                pb,
                ab,
            ) && self.accepts_shape_list(pa, aa) && self.generic_binding_patterns_accept_shapes(pb, ab),
            (
                Ty::Projection {
                    self_ty: ps,
                    trait_id: pt,
                    trait_args: pa,
                    trait_const_args: pc,
                    name: pn,
                },
                Ty::Projection {
                    self_ty: as_,
                    trait_id: at,
                    trait_args: aa,
                    trait_const_args: ac,
                    name: an,
                },
            ) => *pt == *at && *pn == *an && crate::ty::ty_list_same_len(pa, aa)
                && self.const_generic_arg_patterns_accept(pc, ac)
                && self.generic_pattern_accepts_type_shape(ps, as_) && self.accepts_shape_list(pa, aa),
            _ => false,
        }
    }
}

} // verus!
