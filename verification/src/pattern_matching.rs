//! Structural type-pattern matching: binding the generic parameters of a
//! pattern type so that it matches an actual type.
//!
//! The recursive matcher may record partial substitutions before a later
//! component fails; the `try_` entry points and the array and
//! associated-binding cases work on copies and commit only on success.
use vstd::prelude::*;
use crate::checker::BodyChecker;
use crate::ids::SymbolId;
use crate::subst::{spec_subst, substitute_generics_and_consts};
use crate::symbol_map::SymbolMap;
use crate::ty::{
    ArrayLen, AssocBinding, BindingList, ConstArgList, ConstGenericArg, ConstGenericValue,
    DeepClone, IntConst, PrimitiveTy, Ty, TyList, array_len_eq, binding_list_same_len,
    const_list_same_len, ty_eq, ty_list_same_len,
};

verus! {

/// Type substitutions: a type for each bound type parameter.
pub type TyMap = Map<SymbolId, Ty>;

/// Compile-time substitutions: an argument for each bound compile-time parameter.
pub type ConstMap = Map<SymbolId, ConstGenericArg>;

/// Two compile-time values agree; integers are compared by their bits.
pub open spec fn spec_const_values_match(left: ConstGenericValue, right: ConstGenericValue) -> bool {
    match (left, right) {
        (ConstGenericValue::Int(l), ConstGenericValue::Int(r)) => l.bits == r.bits,
        _ => left == right,
    }
}

/// Two compile-time arguments agree: same type and matching values.
pub open spec fn spec_const_args_match(left: ConstGenericArg, right: ConstGenericArg) -> bool {
    *left.ty == *right.ty && spec_const_values_match(left.value, right.value)
}

/// The type of array lengths.
pub open spec fn usize_ty() -> Ty {
    Ty::Primitive(PrimitiveTy::Usize)
}

impl BodyChecker {
    /// Two array lengths are the same, or both have the same known value.
    pub open spec fn spec_array_lens_match(&self, expected: ArrayLen, actual: ArrayLen) -> bool {
        expected == actual || (self.spec_array_len_value(expected) is Some
            && self.spec_array_len_value(expected) == self.spec_array_len_value(actual))
    }

    /// The compile-time value an array length stands for, as a method
    /// matches it against a compile-time parameter.
    pub open spec fn spec_const_value_from_array_len(&self, len: ArrayLen) -> Option<
        ConstGenericValue,
    > {
        match len {
            ArrayLen::GenericParam(name) => Some(ConstGenericValue::GenericParam(name)),
            ArrayLen::Infer => None,
            _ => match self.spec_array_len_value(len) {
                Some(v) => Some(
                    ConstGenericValue::Int(IntConst { bits: v as u128, is_signed: false }),
                ),
                None => None,
            },
        }
    }

    /// Records `name := arg`, or checks `arg` against an earlier binding.
    pub open spec fn spec_record_const(
        &self,
        name: SymbolId,
        arg: ConstGenericArg,
        c: ConstMap,
    ) -> (bool, ConstMap) {
        if c.contains_key(name) {
            (spec_const_args_match(c[name], arg), c)
        } else {
            (true, c.insert(name, arg))
        }
    }

    /// Matches an array length pattern against an actual length; only the
    /// compile-time substitutions can change.
    pub open spec fn spec_match_array_len(
        &self,
        pattern: ArrayLen,
        actual: ArrayLen,
        c: ConstMap,
    ) -> (bool, ConstMap) {
        if pattern == actual || self.spec_array_lens_match(pattern, actual) {
            (true, c)
        } else {
            match pattern {
                ArrayLen::GenericParam(name) => match self.spec_const_value_from_array_len(actual) {
                    Some(value) => self.spec_record_const(
                        name,
                        ConstGenericArg { ty: Box::new(usize_ty()), value },
                        c,
                    ),
                    None => (false, c),
                },
                _ => (false, c),
            }
        }
    }

    /// Matches a compile-time argument pattern against an actual argument.
    pub open spec fn spec_match_const_arg(
        &self,
        pattern: ConstGenericArg,
        actual: ConstGenericArg,
        s: TyMap,
        c: ConstMap,
    ) -> (bool, ConstMap) {
        let pattern_ty = spec_subst(*pattern.ty, s, c, None);
        let actual_ty = spec_subst(*actual.ty, s, c, None);
        if pattern_ty != actual_ty {
            (false, c)
        } else {
            match pattern.value {
                ConstGenericValue::GenericParam(name) => if c.contains_key(name) {
                    let existing = c[name];
                    (
                        spec_subst(*existing.ty, s, c, None) == spec_subst(*actual.ty, s, c, None)
                            && spec_const_values_match(existing.value, actual.value),
                        c,
                    )
                } else {
                    (true, c.insert(name, ConstGenericArg { ty: Box::new(actual_ty), value: actual.value }))
                },
                _ => (spec_const_values_match(pattern.value, actual.value), c),
            }
        }
    }

    /// Matches two argument lists of equal length pairwise, stopping at the
    /// first failure.
    pub open spec fn spec_match_const_list(
        &self,
        patterns: ConstArgList,
        actuals: ConstArgList,
        s: TyMap,
        c: ConstMap,
    ) -> (bool, ConstMap)
        decreases patterns,
    {
        match (patterns, actuals) {
            (ConstArgList::Cons(p, pt), ConstArgList::Cons(a, at)) => {
                let (ok, c1) = self.spec_match_const_arg(p, a, s, c);
                if ok {
                    self.spec_match_const_list(*pt, *at, s, c1)
                } else {
                    (false, c1)
                }
            },
            _ => (true, c),
        }
    }

    /// Matches `pattern` against `actual`, extending the substitutions; the
    /// result is whether it matched and the substitutions afterwards (which
    /// may hold partial bindings when it did not).
    pub open spec fn spec_match(&self, pattern: Ty, actual: Ty, s: TyMap, c: ConstMap) -> (
        bool,
        TyMap,
        ConstMap,
    )
        decreases pattern, 0nat, 0nat,
    {
        match pattern {
            Ty::GenericParam(name) => if s.contains_key(name) {
                (s[name] == actual, s, c)
            } else {
                (true, s.insert(name, actual), c)
            },
            Ty::SelfParam => (true, s, c),
            Ty::BuiltinType(pb) => (actual == Ty::BuiltinType(pb), s, c),
            Ty::Opaque => (actual is Opaque, s, c),
            Ty::Tuple(pe) => match actual {
                Ty::Tuple(ae) => if pe.len() == ae.len() {
                    self.spec_match_list(pe, ae, s, c)
                } else {
                    (false, s, c)
                },
                _ => (false, s, c),
            },
            Ty::Pointer { is_readonly: pr, elem: pe } => match actual {
                Ty::Pointer { is_readonly: ar, elem: ae } => if pr == ar {
                    self.spec_match(*pe, *ae, s, c)
                } else {
                    (false, s, c)
                },
                _ => (false, s, c),
            },
            Ty::VolatilePointer { is_readonly: pr, elem: pe } => match actual {
                Ty::VolatilePointer { is_readonly: ar, elem: ae } => if pr == ar {
                    self.spec_match(*pe, *ae, s, c)
                } else {
                    (false, s, c)
                },
                _ => (false, s, c),
            },
            Ty::Slice { is_readonly: pr, elem: pe } => match actual {
                Ty::Slice { is_readonly: ar, elem: ae } => if pr == ar {
                    self.spec_match(*pe, *ae, s, c)
                } else {
                    (false, s, c)
                },
                _ => (false, s, c),
            },
            Ty::SlicePointee { elem: pe } => match actual {
                Ty::SlicePointee { elem: ae } => self.spec_match(*pe, *ae, s, c),
                _ => (false, s, c),
            },
            Ty::Array { len: pl, elem: pe } => match actual {
                Ty::Array { len: al, elem: ae } => {
                    let (len_ok, s1, c1) = match (pl, al) {
                        (
                            ArrayLen::Builtin { builtin: pb, ty: pt },
                            ArrayLen::Builtin { builtin: ab, ty: at },
                        ) => if pb == ab {
                            self.spec_match(*pt, *at, s, c)
                        } else {
                            let (ok, c1) = self.spec_match_array_len(pl, al, c);
                            (ok, s, c1)
                        },
                        _ => {
                            let (ok, c1) = self.spec_match_array_len(pl, al, c);
                            (ok, s, c1)
                        },
                    };
                    if len_ok {
                        let (elem_ok, s2, c2) = self.spec_match(*pe, *ae, s1, c1);
                        if elem_ok {
                            (true, s2, c2)
                        } else {
                            (false, s, c)
                        }
                    } else {
                        (false, s, c)
                    }
                },
                _ => (false, s, c),
            },
            Ty::Range { kind: pk, bound: pb } => match actual {
                Ty::Range { kind: ak, bound: ab } => if pk == ak {
                    match (pb, ab) {
                        (Some(p), Some(a)) => self.spec_match(*p, *a, s, c),
                        (None, None) => (true, s, c),
                        _ => (false, s, c),
                    }
                } else {
                    (false, s, c)
                },
                _ => (false, s, c),
            },
            Ty::FunctionPointer { params: pp, return_type: pr, is_variadic: pv } => match actual {
                Ty::FunctionPointer { params: ap, return_type: ar, is_variadic: av } => if pv == av
                    && pp.len() == ap.len() {
                    let (ok, s1, c1) = self.spec_match_list(pp, ap, s, c);
                    if ok {
                        self.spec_match(*pr, *ar, s1, c1)
                    } else {
                        (false, s1, c1)
                    }
                } else {
                    (false, s, c)
                },
                _ => (false, s, c),
            },
            Ty::Callable { is_readonly: pro, params: pp, return_type: pr } => match actual {
                Ty::Callable { is_readonly: aro, params: ap, return_type: ar } => if pro == aro
                    && pp.len() == ap.len() {
                    let (ok, s1, c1) = self.spec_match_list(pp, ap, s, c);
                    if ok {
                        self.spec_match(*pr, *ar, s1, c1)
                    } else {
                        (false, s1, c1)
                    }
                } else {
                    (false, s, c)
                },
                _ => (false, s, c),
            },
            Ty::CallablePointee { params: pp, return_type: pr } => match actual {
                Ty::CallablePointee { params: ap, return_type: ar } => if pp.len() == ap.len() {
                    let (ok, s1, c1) = self.spec_match_list(pp, ap, s, c);
                    if ok {
                        self.spec_match(*pr, *ar, s1, c1)
                    } else {
                        (false, s1, c1)
                    }
                } else {
                    (false, s, c)
                },
                _ => (false, s, c),
            },
            Ty::Optional { elem: pe } => match actual {
                Ty::Optional { elem: ae } => self.spec_match(*pe, *ae, s, c),
                _ => (false, s, c),
            },
            Ty::ErrorUnion { error: pe, value: pv } => match actual {
                Ty::ErrorUnion { error: ae, value: av } => {
                    let (ok, s1, c1) = self.spec_match(*pe, *ae, s, c);
                    if ok {
                        self.spec_match(*pv, *av, s1, c1)
                    } else {
                        (false, s1, c1)
                    }
                },
                _ => (false, s, c),
            },
            Ty::Nominal { def_id: pd, args: pa, const_args: pc } => match actual {
                Ty::Nominal { def_id: ad, args: aa, const_args: ac } => if pd == ad && pa.len()
                    == aa.len() && pc.len() == ac.len() {
                    let (ok, s1, c1) = self.spec_match_list(pa, aa, s, c);
                    if ok {
                        let (ok2, c2) = self.spec_match_const_list(pc, ac, s1, c1);
                        (ok2, s1, c2)
                    } else {
                        (false, s1, c1)
                    }
                } else {
                    (false, s, c)
                },
                _ => (false, s, c),
            },
            Ty::BuiltinTrait { trait_id: pt, args: pa } => match actual {
                Ty::BuiltinTrait { trait_id: at, args: aa } => if pt == at && pa.len() == aa.len() {
                    self.spec_match_list(pa, aa, s, c)
                } else {
                    (false, s, c)
                },
                _ => (false, s, c),
            },
            Ty::TraitObject {
                is_readonly: pro,
                trait_id: pt,
                trait_args: pa,
                trait_const_args: pc,
                bindings: pb,
            } => match actual {
                Ty::TraitObject {
                    is_readonly: aro,
                    trait_id: at,
                    trait_args: aa,
                    trait_const_args: ac,
                    bindings: ab,
                } => if pro == aro && pt == at && pa.len() == aa.len() && pc.len() == ac.len()
                    && pb.len() == ab.len() {
                    {
                    let (ok, s1, c1) = self.spec_match_list(pa, aa, s, c);
                    if !ok {
                        (false, s1, c1)
                    } else {
                        let (ok2, c2) = self.spec_match_const_list(pc, ac, s1, c1);
                        if !ok2 {
                            (false, s1, c2)
                        } else {
                            match self.spec_match_bindings(pb, ab, s1, c2) {
                                Some((s3, c3)) => (true, s3, c3),
                                None => (false, s1, c2),
                            }
                        }
                    }
                }
                } else {
                    (false, s, c)
                },
                _ => (false, s, c),
            },
            Ty::TraitObjectPointee { trait_id: pt, trait_args: pa, trait_const_args: pc, bindings: pb } =>
                match actual {
                Ty::TraitObjectPointee {
                    trait_id: at,
                    trait_args: aa,
                    trait_const_args: ac,
                    bindings: ab,
                } => if pt == at && pa.len() == aa.len() && pc.len() == ac.len() && pb.len()
                    == ab.len() {
                    {
                    let (ok, s1, c1) = self.spec_match_list(pa, aa, s, c);
                    if !ok {
                        (false, s1, c1)
                    } else {
                        let (ok2, c2) = self.spec_match_const_list(pc, ac, s1, c1);
                        if !ok2 {
                            (false, s1, c2)
                        } else {
                            match self.spec_match_bindings(pb, ab, s1, c2) {
                                Some((s3, c3)) => (true, s3, c3),
                                None => (false, s1, c2),
                            }
                        }
                    }
                }
                } else {
                    (false, s, c)
                },
                _ => (false, s, c),
            },
            Ty::Projection {
                self_ty: ps,
                trait_id: pt,
                trait_args: pa,
                trait_const_args: pc,
                name: pn,
            } => match actual {
                Ty::Projection {
                    self_ty: as_,
                    trait_id: at,
                    trait_args: aa,
                    trait_const_args: ac,
                    name: an,
                } => if pt == at && pn == an && pa.len() == aa.len() && pc.len() == ac.len() {
                    let (ok, s1, c1) = self.spec_match(*ps, *as_, s, c);
                    if ok {
                        let (ok2, s2, c2) = self.spec_match_list(pa, aa, s1, c1);
                        if ok2 {
                            let (ok3, c3) = self.spec_match_const_list(pc, ac, s2, c2);
                            (ok3, s2, c3)
                        } else {
                            (false, s2, c2)
                        }
                    } else {
                        (false, s1, c1)
                    }
                } else {
                    (false, s, c)
                },
                _ => (false, s, c),
            },
            _ => (pattern == actual, s, c),
        }
    }

    /// Matches two type lists of equal length pairwise, stopping at the
    /// first failure.
    pub open spec fn spec_match_list(&self, patterns: TyList, actuals: TyList, s: TyMap, c: ConstMap) -> (
        bool,
        TyMap,
        ConstMap,
    )
        decreases patterns, 0nat, 0nat,
    {
        match (patterns, actuals) {
            (TyList::Cons(p, pt), TyList::Cons(a, at)) => {
                let (ok, s1, c1) = self.spec_match(*p, *a, s, c);
                if ok {
                    self.spec_match_list(*pt, *at, s1, c1)
                } else {
                    (false, s1, c1)
                }
            },
            _ => (true, s, c),
        }
    }

    /// Matches one associated binding against another; on failure nothing
    /// is bound.
    pub open spec fn spec_try_match_binding(
        &self,
        pattern: AssocBinding,
        actual: AssocBinding,
        s: TyMap,
        c: ConstMap,
    ) -> Option<(TyMap, ConstMap)>
        decreases pattern, 0nat, 0nat,
    {
        if pattern.name != actual.name || pattern.trait_id != actual.trait_id
            || pattern.trait_args.len() != actual.trait_args.len()
            || pattern.trait_const_args.len() != actual.trait_const_args.len() {
            None
        } else {
            let (ok, s1, c1) = self.spec_match_list(pattern.trait_args, actual.trait_args, s, c);
            if !ok {
                None
            } else {
                let (ok2, c2) = self.spec_match_const_list(
                    pattern.trait_const_args,
                    actual.trait_const_args,
                    s1,
                    c1,
                );
                if !ok2 {
                    None
                } else {
                    let (ok3, s3, c3) = self.spec_match(*pattern.ty, *actual.ty, s1, c2);
                    if ok3 {
                        Some((s3, c3))
                    } else {
                        None
                    }
                }
            }
        }
    }

    /// Pairs each pattern binding with a distinct actual binding so that all
    /// of them match, searching in order and backtracking.
    pub open spec fn spec_match_bindings(
        &self,
        patterns: BindingList,
        actuals: BindingList,
        s: TyMap,
        c: ConstMap,
    ) -> Option<(TyMap, ConstMap)>
        decreases patterns, 3nat, 0nat,
    {
        if patterns.len() != actuals.len() {
            None
        } else {
            self.spec_match_bindings_from(
                patterns,
                actuals,
                Seq::new(actuals.len(), |i: int| false),
                s,
                c,
            )
        }
    }

    pub open spec fn spec_match_bindings_from(
        &self,
        patterns: BindingList,
        actuals: BindingList,
        used: Seq<bool>,
        s: TyMap,
        c: ConstMap,
    ) -> Option<(TyMap, ConstMap)>
        decreases patterns, 2nat, 0nat,
    {
        match patterns {
            BindingList::Nil => Some((s, c)),
            BindingList::Cons(_, _) => self.spec_match_binding_at(
                patterns,
                actuals,
                actuals,
                0,
                used,
                s,
                c,
            ),
        }
    }

    /// Tries the first pattern of `patterns` against each unused actual
    /// binding of `remaining` (which starts at position `index`).
    pub open spec fn spec_match_binding_at(
        &self,
        patterns: BindingList,
        actuals: BindingList,
        remaining: BindingList,
        index: nat,
        used: Seq<bool>,
        s: TyMap,
        c: ConstMap,
    ) -> Option<(TyMap, ConstMap)>
        decreases patterns, 1nat, remaining.len(),
    {
        match patterns {
            BindingList::Nil => None,
            BindingList::Cons(pattern, rest) => match remaining {
                BindingList::Nil => None,
                BindingList::Cons(actual, remaining_tail) => if index < used.len() && used[index as int] {
                    self.spec_match_binding_at(patterns, actuals, *remaining_tail, index + 1, used, s, c)
                } else {
                    match self.spec_try_match_binding(pattern, actual, s, c) {
                        Some((s1, c1)) => match self.spec_match_bindings_from(
                            *rest,
                            actuals,
                            used.update(index as int, true),
                            s1,
                            c1,
                        ) {
                            Some(r) => Some(r),
                            None => self.spec_match_binding_at(
                                patterns,
                                actuals,
                                *remaining_tail,
                                index + 1,
                                used,
                                s,
                                c,
                            ),
                        },
                        None => self.spec_match_binding_at(
                            patterns,
                            actuals,
                            *remaining_tail,
                            index + 1,
                            used,
                            s,
                            c,
                        ),
                    }
                },
            },
        }
    }
}

/// Whether two compile-time values agree; integers compare by their bits.
pub fn const_pattern_values_match(left: &ConstGenericValue, right: &ConstGenericValue) -> (r: bool)
    ensures
        r == spec_const_values_match(*left, *right),
{
    match (left, right) {
        (ConstGenericValue::Int(l), ConstGenericValue::Int(r)) => l.bits == r.bits,
        _ => *left == *right,
    }
}

/// Whether two compile-time arguments agree: same type, matching values.
pub fn const_pattern_args_match(left: &ConstGenericArg, right: &ConstGenericArg) -> (r: bool)
    ensures
        r == spec_const_args_match(*left, *right),
{
    ty_eq(&left.ty, &right.ty) && const_pattern_values_match(&left.value, &right.value)
}

/// A list of `false`, one for each binding.
pub(crate) fn unused_flags(actuals: &BindingList) -> (r: Vec<bool>)
    ensures
        r@ == Seq::new(actuals.len(), |i: int| false),
    decreases actuals,
{
    match actuals {
        BindingList::Nil => Vec::new(),
        BindingList::Cons(_, tail) => {
            let mut r = unused_flags(tail);
            r.push(false);
            proof {
                assert(r@ =~= Seq::new(actuals.len(), |i: int| false));
            }
            r
        },
    }
}

impl BodyChecker {
    /// Whether two array lengths are the same, or have the same known value.
    pub fn array_lens_match(&self, expected: &ArrayLen, actual: &ArrayLen) -> (r: bool)
        ensures
            r == self.spec_array_lens_match(*expected, *actual),
    {
        if array_len_eq(expected, actual) {
            return true;
        }
        let e = self.array_len_value(expected);
        let a = self.array_len_value(actual);
        match (e, a) {
            (Some(x), Some(y)) => x == y,
            _ => false,
        }
    }

    /// The compile-time value that an array length stands for.
    pub fn method_const_generic_value_from_array_len(&self, len: &ArrayLen) -> (r: Option<
        ConstGenericValue,
    >)
        ensures
            r == self.spec_const_value_from_array_len(*len),
    {
        match len {
            ArrayLen::GenericParam(name) => Some(ConstGenericValue::GenericParam(*name)),
            ArrayLen::Infer => None,
            _ => match self.array_len_value(len) {
                Some(v) => Some(ConstGenericValue::Int(IntConst::unsigned(v as u128))),
                None => None,
            },
        }
    }

    /// Binds `name` to `arg`, or checks `arg` against the earlier binding.
    pub fn record_const_pattern_substitution(
        &self,
        name: SymbolId,
        arg: ConstGenericArg,
        c: &mut SymbolMap<ConstGenericArg>,
    ) -> (r: bool)
        requires
            old(c).wf(),
        ensures
            final(c).wf(),
            (r, final(c)@) == self.spec_record_const(name, arg, old(c)@),
    {
        match c.get(name) {
            Some(existing) => const_pattern_args_match(existing, &arg),
            None => {
                c.insert(name, arg);
                true
            },
        }
    }

    /// Matches an array length pattern against an actual length.
    pub fn match_array_len_pattern(
        &self,
        pattern: &ArrayLen,
        actual: &ArrayLen,
        c: &mut SymbolMap<ConstGenericArg>,
    ) -> (r: bool)
        requires
            old(c).wf(),
        ensures
            final(c).wf(),
            (r, final(c)@) == self.spec_match_array_len(*pattern, *actual, old(c)@),
    {
        if array_len_eq(pattern, actual) || self.array_lens_match(pattern, actual) {
            return true;
        }
        match pattern {
            ArrayLen::GenericParam(name) => match self.method_const_generic_value_from_array_len(
                actual,
            ) {
                Some(value) => {
                    let arg = ConstGenericArg {
                        ty: Box::new(Ty::Primitive(PrimitiveTy::Usize)),
                        value,
                    };
                    self.record_const_pattern_substitution(*name, arg, c)
                },
                None => false,
            },
            _ => false,
        }
    }

    /// Whether two bound compile-time arguments agree once the current
    /// substitutions are applied to their types.
    pub fn const_pattern_args_match_with_substitutions(
        &self,
        left: &ConstGenericArg,
        right: &ConstGenericArg,
        s: &SymbolMap<Ty>,
        c: &SymbolMap<ConstGenericArg>,
    ) -> (r: bool)
        requires
            s.wf(),
            c.wf(),
        ensures
            r == (spec_subst(*left.ty, s@, c@, None) == spec_subst(*right.ty, s@, c@, None)
                && spec_const_values_match(left.value, right.value)),
    {
        let left_ty = substitute_generics_and_consts(&left.ty, s, c);
        let right_ty = substitute_generics_and_consts(&right.ty, s, c);
        ty_eq(&left_ty, &right_ty) && const_pattern_values_match(&left.value, &right.value)
    }

    /// Matches a compile-time argument pattern against an actual argument.
    pub fn match_const_generic_arg_pattern(
        &self,
        pattern: &ConstGenericArg,
        actual: &ConstGenericArg,
        s: &SymbolMap<Ty>,
        c: &mut SymbolMap<ConstGenericArg>,
    ) -> (r: bool)
        requires
            s.wf(),
            old(c).wf(),
        ensures
            final(c).wf(),
            (r, final(c)@) == self.spec_match_const_arg(*pattern, *actual, s@, old(c)@),
    {
        let pattern_ty = substitute_generics_and_consts(&pattern.ty, s, c);
        let actual_ty = substitute_generics_and_consts(&actual.ty, s, c);
        if !ty_eq(&pattern_ty, &actual_ty) {
            return false;
        }
        match pattern.value {
            ConstGenericValue::GenericParam(name) => {
                let existing = match c.get(name) {
                    Some(e) => Some(e.deep_clone()),
                    None => None,
                };
                match existing {
                    Some(e) => self.const_pattern_args_match_with_substitutions(&e, actual, s, c),
                    None => {
                        c.insert(name, ConstGenericArg { ty: Box::new(actual_ty), value: actual.value });
                        true
                    },
                }
            },
            _ => const_pattern_values_match(&pattern.value, &actual.value),
        }
    }

    /// Matches two argument lists of equal length pairwise.
    pub fn match_const_arg_list(
        &self,
        patterns: &ConstArgList,
        actuals: &ConstArgList,
        s: &SymbolMap<Ty>,
        c: &mut SymbolMap<ConstGenericArg>,
    ) -> (r: bool)
        requires
            s.wf(),
            old(c).wf(),
        ensures
            final(c).wf(),
            (r, final(c)@) == self.spec_match_const_list(*patterns, *actuals, s@, old(c)@),
        decreases patterns,
    {
        match (patterns, actuals) {
            (ConstArgList::Cons(p, pt), ConstArgList::Cons(a, at)) => {
                if self.match_const_generic_arg_pattern(p, a, s, c) {
                    self.match_const_arg_list(pt, at, s, c)
                } else {
                    false
                }
            },
            _ => true,
        }
    }

    /// Matches `pattern` against `actual`, binding generic parameters in the
    /// substitutions as it goes; a failed match may leave partial bindings.
    pub fn match_type_pattern_with_consts(
        &self,
        pattern: &Ty,
        actual: &Ty,
        s: &mut SymbolMap<Ty>,
        c: &mut SymbolMap<ConstGenericArg>,
    ) -> (r: bool)
        requires
            old(s).wf(),
            old(c).wf(),
        ensures
            final(s).wf(),
            final(c).wf(),
            (r, final(s)@, final(c)@) == self.spec_match(*pattern, *actual, old(s)@, old(c)@),
        decreases pattern, 0nat, 0nat,
    {
        match pattern {
            Ty::GenericParam(name) => {
                let existing = match s.get(*name) {
                    Some(e) => Some(ty_eq(e, actual)),
                    None => None,
                };
                match existing {
                    Some(same) => same,
                    None => {
                        s.insert(*name, actual.deep_clone());
                        true
                    },
                }
            },
            Ty::SelfParam => true,
            Ty::BuiltinType(pb) => match actual {
                Ty::BuiltinType(ab) => *pb == *ab,
                _ => false,
            },
            Ty::Opaque => matches!(actual, Ty::Opaque),
            Ty::Tuple(pe) => match actual {
                Ty::Tuple(ae) => if ty_list_same_len(pe, ae) {
                    self.match_type_list(pe, ae, s, c)
                } else {
                    false
                },
                _ => false,
            },
            Ty::Pointer { is_readonly: pr, elem: pe } => match actual {
                Ty::Pointer { is_readonly: ar, elem: ae } => if *pr == *ar {
                    self.match_type_pattern_with_consts(pe, ae, s, c)
                } else {
                    false
                },
                _ => false,
            },
            Ty::VolatilePointer { is_readonly: pr, elem: pe } => match actual {
                Ty::VolatilePointer { is_readonly: ar, elem: ae } => if *pr == *ar {
                    self.match_type_pattern_with_consts(pe, ae, s, c)
                } else {
                    false
                },
                _ => false,
            },
            Ty::Slice { is_readonly: pr, elem: pe } => match actual {
                Ty::Slice { is_readonly: ar, elem: ae } => if *pr == *ar {
                    self.match_type_pattern_with_consts(pe, ae, s, c)
                } else {
                    false
                },
                _ => false,
            },
            Ty::SlicePointee { elem: pe } => match actual {
                Ty::SlicePointee { elem: ae } => self.match_type_pattern_with_consts(pe, ae, s, c),
                _ => false,
            },
            Ty::Array { len: pl, elem: pe } => match actual {
                Ty::Array { len: al, elem: ae } => {
                    let mut cs = s.duplicate();
                    let mut cc = c.duplicate();
                    let len_ok = match (pl, al) {
                        (
                            ArrayLen::Builtin { builtin: pb, ty: pt },
                            ArrayLen::Builtin { builtin: ab, ty: at },
                        ) => if *pb == *ab {
                            self.match_type_pattern_with_consts(pt, at, &mut cs, &mut cc)
                        } else {
                            self.match_array_len_pattern(pl, al, &mut cc)
                        },
                        _ => self.match_array_len_pattern(pl, al, &mut cc),
                    };
                    if len_ok && self.match_type_pattern_with_consts(pe, ae, &mut cs, &mut cc) {
                        *s = cs;
                        *c = cc;
                        true
                    } else {
                        false
                    }
                },
                _ => false,
            },
            Ty::Range { kind: pk, bound: pb } => match actual {
                Ty::Range { kind: ak, bound: ab } => if *pk == *ak {
                    match (pb, ab) {
                        (Some(p), Some(a)) => self.match_type_pattern_with_consts(p, a, s, c),
                        (None, None) => true,
                        _ => false,
                    }
                } else {
                    false
                },
                _ => false,
            },
            Ty::FunctionPointer { params: pp, return_type: pr, is_variadic: pv } => match actual {
                Ty::FunctionPointer { params: ap, return_type: ar, is_variadic: av } => if *pv == *av
                    && ty_list_same_len(pp, ap) {
                    self.match_type_list(pp, ap, s, c) && self.match_type_pattern_with_consts(
                        pr,
                        ar,
                        s,
                        c,
                    )
                } else {
                    false
                },
                _ => false,
            },
            Ty::Callable { is_readonly: pro, params: pp, return_type: pr } => match actual {
                Ty::Callable { is_readonly: aro, params: ap, return_type: ar } => if *pro == *aro
                    && ty_list_same_len(pp, ap) {
                    self.match_type_list(pp, ap, s, c) && self.match_type_pattern_with_consts(
                        pr,
                        ar,
                        s,
                        c,
                    )
                } else {
                    false
                },
                _ => false,
            },
            Ty::CallablePointee { params: pp, return_type: pr } => match actual {
                Ty::CallablePointee { params: ap, return_type: ar } => if ty_list_same_len(pp, ap) {
                    self.match_type_list(pp, ap, s, c) && self.match_type_pattern_with_consts(
                        pr,
                        ar,
                        s,
                        c,
                    )
                } else {
                    false
                },
                _ => false,
            },
            Ty::Optional { elem: pe } => match actual {
                Ty::Optional { elem: ae } => self.match_type_pattern_with_consts(pe, ae, s, c),
                _ => false,
            },
            Ty::ErrorUnion { error: pe, value: pv } => match actual {
                Ty::ErrorUnion { error: ae, value: av } => self.match_type_pattern_with_consts(
                    pe,
                    ae,
                    s,
                    c,
                ) && self.match_type_pattern_with_consts(pv, av, s, c),
                _ => false,
            },
            Ty::Nominal { def_id: pd, args: pa, const_args: pc } => match actual {
                Ty::Nominal { def_id: ad, args: aa, const_args: ac } => if *pd == *ad
                    && ty_list_same_len(pa, aa) && const_list_same_len(pc, ac) {
                    self.match_type_list(pa, aa, s, c) && self.match_const_arg_list(pc, ac, s, c)
                } else {
                    false
                },
                _ => false,
            },
            Ty::BuiltinTrait { trait_id: pt, args: pa } => match actual {
                Ty::BuiltinTrait { trait_id: at, args: aa } => if *pt == *at && ty_list_same_len(
                    pa,
                    aa,
                ) {
                    self.match_type_list(pa, aa, s, c)
                } else {
                    false
                },
                _ => false,
            },
            Ty::TraitObject {
                is_readonly: pro,
                trait_id: pt,
                trait_args: pa,
                trait_const_args: pc,
                bindings: pb,
            } => match actual {
                Ty::TraitObject {
                    is_readonly: aro,
                    trait_id: at,
                    trait_args: aa,
                    trait_const_args: ac,
                    bindings: ab,
                } => if *pro == *aro && *pt == *at && ty_list_same_len(pa, aa)
                    && const_list_same_len(pc, ac) && binding_list_same_len(pb, ab) {
                    self.match_type_list(pa, aa, s, c) && self.match_const_arg_list(pc, ac, s, c)
                        && self.match_associated_type_binding_patterns(pb, ab, s, c)
                } else {
                    false
                },
                _ => false,
            },
            Ty::TraitObjectPointee { trait_id: pt, trait_args: pa, trait_const_args: pc, bindings: pb } =>
                match actual {
                Ty::TraitObjectPointee {
                    trait_id: at,
                    trait_args: aa,
                    trait_const_args: ac,
                    bindings: ab,
                } => if *pt == *at && ty_list_same_len(pa, aa) && const_list_same_len(pc, ac)
                    && binding_list_same_len(pb, ab) {
                    self.match_type_list(pa, aa, s, c) && self.match_const_arg_list(pc, ac, s, c)
                        && self.match_associated_type_binding_patterns(pb, ab, s, c)
                } else {
                    false
                },
                _ => false,
            },
            Ty::Projection {
                self_ty: ps,
                trait_id: pt,
                trait_args: pa,
                trait_const_args: pc,
                name: pn,
            } => match actual {
                Ty::Projection {
                    self_ty: as_,
                    trait_id: at,
                    trait_args: aa,
                    trait_const_args: ac,
                    name: an,
                } => if *pt == *at && *pn == *an && ty_list_same_len(pa, aa) && const_list_same_len(
                    pc,
                    ac,
                ) {
                    self.match_type_pattern_with_consts(ps, as_, s, c) && self.match_type_list(
                        pa,
                        aa,
                        s,
                        c,
                    ) && self.match_const_arg_list(pc, ac, s, c)
                } else {
                    false
                },
                _ => false,
            },
            _ => ty_eq(pattern, actual),
        }
    }

    /// Matches two type lists of equal length pairwise.
    pub fn match_type_list(
        &self,
        patterns: &TyList,
        actuals: &TyList,
        s: &mut SymbolMap<Ty>,
        c: &mut SymbolMap<ConstGenericArg>,
    ) -> (r: bool)
        requires
            old(s).wf(),
            old(c).wf(),
        ensures
            final(s).wf(),
            final(c).wf(),
            (r, final(s)@, final(c)@) == self.spec_match_list(*patterns, *actuals, old(s)@, old(c)@),
        decreases patterns, 0nat, 0nat,
    {
        match (patterns, actuals) {
            (TyList::Cons(p, pt), TyList::Cons(a, at)) => {
                if self.match_type_pattern_with_consts(p, a, s, c) {
                    self.match_type_list(pt, at, s, c)
                } else {
                    false
                }
            },
            _ => true,
        }
    }

    /// Matches one associated binding against another, binding nothing
    /// unless the whole binding matches.
    pub fn try_match_associated_type_binding(
        &self,
        pattern: &AssocBinding,
        actual: &AssocBinding,
        s: &mut SymbolMap<Ty>,
        c: &mut SymbolMap<ConstGenericArg>,
    ) -> (r: bool)
        requires
            old(s).wf(),
            old(c).wf(),
        ensures
            final(s).wf(),
            final(c).wf(),
            match self.spec_try_match_binding(*pattern, *actual, old(s)@, old(c)@) {
                Some((s1, c1)) => r && final(s)@ == s1 && final(c)@ == c1,
                None => !r && final(s)@ == old(s)@ && final(c)@ == old(c)@,
            },
        decreases pattern, 0nat, 0nat,
    {
        if pattern.name != actual.name || pattern.trait_id != actual.trait_id
            || !ty_list_same_len(&pattern.trait_args, &actual.trait_args) || !const_list_same_len(
            &pattern.trait_const_args,
            &actual.trait_const_args,
        ) {
            return false;
        }
        let mut cs = s.duplicate();
        let mut cc = c.duplicate();
        if !self.match_type_list(&pattern.trait_args, &actual.trait_args, &mut cs, &mut cc) {
            return false;
        }
        if !self.match_const_arg_list(&pattern.trait_const_args, &actual.trait_const_args, &cs, &mut cc) {
            return false;
        }
        if !self.match_type_pattern_with_consts(&pattern.ty, &actual.ty, &mut cs, &mut cc) {
            return false;
        }
        *s = cs;
        *c = cc;
        true
    }

    /// Pairs the pattern bindings with distinct actual bindings, binding
    /// nothing unless every pattern binding found a match.
    pub fn match_associated_type_binding_patterns(
        &self,
        patterns: &BindingList,
        actuals: &BindingList,
        s: &mut SymbolMap<Ty>,
        c: &mut SymbolMap<ConstGenericArg>,
    ) -> (r: bool)
        requires
            old(s).wf(),
            old(c).wf(),
        ensures
            final(s).wf(),
            final(c).wf(),
            match self.spec_match_bindings(*patterns, *actuals, old(s)@, old(c)@) {
                Some((s1, c1)) => r && final(s)@ == s1 && final(c)@ == c1,
                None => !r && final(s)@ == old(s)@ && final(c)@ == old(c)@,
            },
        decreases patterns, 3nat, 0nat,
    {
        if !binding_list_same_len(patterns, actuals) {
            return false;
        }
        let mut used = unused_flags(actuals);
        self.match_associated_type_binding_patterns_inner(patterns, actuals, &mut used, s, c)
    }

    /// The search behind `match_associated_type_binding_patterns`; `used`
    /// marks the actual bindings already paired and is restored on return.
    pub fn match_associated_type_binding_patterns_inner(
        &self,
        patterns: &BindingList,
        actuals: &BindingList,
        used: &mut Vec<bool>,
        s: &mut SymbolMap<Ty>,
        c: &mut SymbolMap<ConstGenericArg>,
    ) -> (r: bool)
        requires
            old(s).wf(),
            old(c).wf(),
            old(used)@.len() == actuals.len(),
        ensures
            final(s).wf(),
            final(c).wf(),
            final(used)@ == old(used)@,
            match self.spec_match_bindings_from(*patterns, *actuals, old(used)@, old(s)@, old(c)@) {
                Some((s1, c1)) => r && final(s)@ == s1 && final(c)@ == c1,
                None => !r && final(s)@ == old(s)@ && final(c)@ == old(c)@,
            },
        decreases patterns, 2nat, 0nat,
    {
        match patterns {
            BindingList::Nil => true,
            BindingList::Cons(_, _) => self.match_binding_at(patterns, actuals, actuals, 0, used, s, c),
        }
    }

    #[verifier::rlimit(40)]
    fn match_binding_at(
        &self,
        patterns: &BindingList,
        actuals: &BindingList,
        remaining: &BindingList,
        index: usize,
        used: &mut Vec<bool>,
        s: &mut SymbolMap<Ty>,
        c: &mut SymbolMap<ConstGenericArg>,
    ) -> (r: bool)
        requires
            old(s).wf(),
            old(c).wf(),
            old(used)@.len() == actuals.len(),
            index + remaining.len() == actuals.len(),
        ensures
            final(s).wf(),
            final(c).wf(),
            final(used)@ == old(used)@,
            match self.spec_match_binding_at(
                *patterns,
                *actuals,
                *remaining,
                index as nat,
                old(used)@,
                old(s)@,
                old(c)@,
            ) {
                Some((s1, c1)) => r && final(s)@ == s1 && final(c)@ == c1,
                None => !r && final(s)@ == old(s)@ && final(c)@ == old(c)@,
            },
        decreases patterns, 1nat, remaining.len(),
    {
        match patterns {
            BindingList::Nil => false,
            BindingList::Cons(pattern, rest) => match remaining {
                BindingList::Nil => false,
                BindingList::Cons(actual, remaining_tail) => {
                    let n = used.len();
                    proof {
                        assert(remaining.len() == 1 + remaining_tail.len());
                        assert(index < n);
                    }
                    if used[index] {
                        return self.match_binding_at(
                            patterns,
                            actuals,
                            remaining_tail,
                            index + 1,
                            used,
                            s,
                            c,
                        );
                    }
                    let mut cs = s.duplicate();
                    let mut cc = c.duplicate();
                    if self.try_match_associated_type_binding(pattern, actual, &mut cs, &mut cc) {
                        let ghost before = used@;
                        used.set(index, true);
                        let matched = self.match_associated_type_binding_patterns_inner(
                            rest,
                            actuals,
                            used,
                            &mut cs,
                            &mut cc,
                        );
                        used.set(index, false);
                        proof {
                            assert(used@ =~= before);
                        }
                        if matched {
                            *s = cs;
                            *c = cc;
                            return true;
                        }
                    }
                    self.match_binding_at(patterns, actuals, remaining_tail, index + 1, used, s, c)
                },
            },
        }
    }

    /// Matches `pattern` against `actual` with fresh compile-time
    /// substitutions.
    pub fn match_type_pattern(&self, pattern: &Ty, actual: &Ty, s: &mut SymbolMap<Ty>) -> (r: bool)
        requires
            old(s).wf(),
        ensures
            final(s).wf(),
            (r, final(s)@) == ({
                let res = self.spec_match(*pattern, *actual, old(s)@, Map::empty());
                (res.0, res.1)
            }),
    {
        let mut c: SymbolMap<ConstGenericArg> = SymbolMap::new();
        self.match_type_pattern_with_consts(pattern, actual, s, &mut c)
    }

    /// Matches `pattern` against `actual` on copies of the substitutions and
    /// commits them only when the whole pattern matched.
    pub fn try_match_type_pattern_with_consts(
        &self,
        pattern: &Ty,
        actual: &Ty,
        s: &mut SymbolMap<Ty>,
        c: &mut SymbolMap<ConstGenericArg>,
    ) -> (r: bool)
        requires
            old(s).wf(),
            old(c).wf(),
        ensures
            final(s).wf(),
            final(c).wf(),
            r == self.spec_match(*pattern, *actual, old(s)@, old(c)@).0,
            r ==> final(s)@ == self.spec_match(*pattern, *actual, old(s)@, old(c)@).1
                && final(c)@ == self.spec_match(*pattern, *actual, old(s)@, old(c)@).2,
            !r ==> final(s)@ == old(s)@ && final(c)@ == old(c)@,
    {
        let mut cs = s.duplicate();
        let mut cc = c.duplicate();
        if !self.match_type_pattern_with_consts(pattern, actual, &mut cs, &mut cc) {
            return false;
        }
        *s = cs;
        *c = cc;
        true
    }
}

} // verus!
