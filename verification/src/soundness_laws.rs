//! Soundness of the type-pattern matcher: when a pattern built from type
//! parameters, pointers, slices, optionals, error unions, ranges, function
//! pointers, nominal and builtin-trait types matches a type, substituting
//! the bindings it found into the pattern gives that type back, and any
//! later extension of the bindings keeps it so.
use vstd::prelude::*;
use crate::checker::BodyChecker;
use crate::matching_laws::extends;
use crate::pattern_matching::{ConstMap, TyMap};
use crate::subst::{spec_subst, spec_subst_list};
use crate::ty::{ConstArgList, Ty, TyList};

verus! {

/// Patterns made of type parameters, concrete leaves and the constructors
/// that substitution descends into.
pub open spec fn spec_plain_pattern(p: Ty) -> bool
    decreases p,
{
    match p {
        Ty::GenericParam(_) | Ty::Primitive(_) | Ty::BuiltinType(_) | Ty::Error | Ty::ConstOnly
        | Ty::Vector { .. } | Ty::Opaque => true,
        Ty::Pointer { elem, .. } | Ty::VolatilePointer { elem, .. } | Ty::Slice { elem, .. }
        | Ty::SlicePointee { elem } | Ty::Optional { elem } => spec_plain_pattern(*elem),
        Ty::ErrorUnion { error, value } => spec_plain_pattern(*error) && spec_plain_pattern(*value),
        Ty::FunctionPointer { params, return_type, .. } => spec_plain_list(params) && spec_plain_pattern(
            *return_type,
        ),
        Ty::Nominal { args, const_args, .. } => spec_plain_list(args) && const_args is Nil,
        Ty::BuiltinTrait { args, .. } => spec_plain_list(args),
        Ty::Range { bound, .. } => match bound {
            Some(b) => spec_plain_pattern(*b),
            None => true,
        },
        _ => false,
    }
}

pub open spec fn spec_plain_list(l: TyList) -> bool
    decreases l,
{
    match l {
        TyList::Nil => true,
        TyList::Cons(h, t) => spec_plain_pattern(*h) && spec_plain_list(*t),
    }
}

proof fn lemma_extends_trans(a: TyMap, b: TyMap, c: TyMap)
    requires
        extends(a, b),
        extends(b, c),
    ensures
        extends(a, c),
{
}

/// A list of length zero is empty.
proof fn lemma_const_list_empty(l: ConstArgList)
    requires
        l.len() == 0,
    ensures
        l is Nil,
{
    match l {
        ConstArgList::Nil => {},
        ConstArgList::Cons(_, t) => {
            assert(l.len() == 1 + t.len());
        },
    }
}

impl BodyChecker {
    /// A successful match of a plain pattern is sound: substituting any
    /// extension of the bindings it found into the pattern gives the
    /// matched type.
    pub proof fn lemma_match_sound(&self, pattern: Ty, actual: Ty, s: TyMap, c: ConstMap)
        requires
            spec_plain_pattern(pattern),
            self.spec_match(pattern, actual, s, c).0,
        ensures
            forall|s2: TyMap, c2: ConstMap|
                extends(self.spec_match(pattern, actual, s, c).1, s2) ==> #[trigger] spec_subst(
                    pattern,
                    s2,
                    c2,
                    None,
                ) == actual,
        decreases pattern, 1nat,
    {
        match pattern {
            Ty::GenericParam(_) => self.lemma_param_sound(pattern, actual, s, c),
            Ty::Pointer { .. } | Ty::VolatilePointer { .. } | Ty::Slice { .. } | Ty::SlicePointee { .. }
            | Ty::Optional { .. } => self.lemma_wrapper_sound(pattern, actual, s, c),
            Ty::ErrorUnion { .. } => self.lemma_error_union_sound(pattern, actual, s, c),
            Ty::Range { .. } => self.lemma_range_sound(pattern, actual, s, c),
            Ty::FunctionPointer { .. } => self.lemma_function_pointer_sound(pattern, actual, s, c),
            Ty::Nominal { .. } | Ty::BuiltinTrait { .. } => self.lemma_nominal_sound(pattern, actual, s, c),
            _ => {},
        }
    }

    proof fn lemma_param_sound(&self, pattern: Ty, actual: Ty, s: TyMap, c: ConstMap)
        requires
            spec_plain_pattern(pattern),
            self.spec_match(pattern, actual, s, c).0,
            pattern is GenericParam,
        ensures
            forall|s2: TyMap, c2: ConstMap|
                extends(self.spec_match(pattern, actual, s, c).1, s2) ==> #[trigger] spec_subst(
                    pattern,
                    s2,
                    c2,
                    None,
                ) == actual,
        decreases pattern, 0nat,
    {
        let r = self.spec_match(pattern, actual, s, c);
        let n = pattern->GenericParam_0;
        assert(r.1.contains_key(n) && r.1[n] == actual);
        assert forall|s2: TyMap, c2: ConstMap| extends(r.1, s2) implies #[trigger] spec_subst(
            pattern,
            s2,
            c2,
            None,
        ) == actual by {
            assert(r.1.contains_key(n));
        }
    }

    proof fn lemma_wrapper_sound(&self, pattern: Ty, actual: Ty, s: TyMap, c: ConstMap)
        requires
            spec_plain_pattern(pattern),
            self.spec_match(pattern, actual, s, c).0,
            pattern is Pointer || pattern is VolatilePointer || pattern is Slice || pattern is SlicePointee || pattern is Optional,
        ensures
            forall|s2: TyMap, c2: ConstMap|
                extends(self.spec_match(pattern, actual, s, c).1, s2) ==> #[trigger] spec_subst(
                    pattern,
                    s2,
                    c2,
                    None,
                ) == actual,
        decreases pattern, 0nat,
    {
        let r = self.spec_match(pattern, actual, s, c);
        match (pattern, actual) {
            (Ty::Pointer { elem: pe, .. }, Ty::Pointer { elem: ae, .. })
            | (Ty::VolatilePointer { elem: pe, .. }, Ty::VolatilePointer { elem: ae, .. })
            | (Ty::Slice { elem: pe, .. }, Ty::Slice { elem: ae, .. })
            | (Ty::SlicePointee { elem: pe }, Ty::SlicePointee { elem: ae })
            | (Ty::Optional { elem: pe }, Ty::Optional { elem: ae }) => {
                self.lemma_match_sound(*pe, *ae, s, c);
                assert forall|s2: TyMap, c2: ConstMap| extends(r.1, s2) implies #[trigger] spec_subst(
                    pattern,
                    s2,
                    c2,
                    None,
                ) == actual by {
                    assert(spec_subst(*pe, s2, c2, None) == *ae);
                }
            },
            _ => {},
        }
    }

    proof fn lemma_error_union_sound(&self, pattern: Ty, actual: Ty, s: TyMap, c: ConstMap)
        requires
            spec_plain_pattern(pattern),
            self.spec_match(pattern, actual, s, c).0,
            pattern is ErrorUnion,
        ensures
            forall|s2: TyMap, c2: ConstMap|
                extends(self.spec_match(pattern, actual, s, c).1, s2) ==> #[trigger] spec_subst(
                    pattern,
                    s2,
                    c2,
                    None,
                ) == actual,
        decreases pattern, 0nat,
    {
        let r = self.spec_match(pattern, actual, s, c);
        match (pattern, actual) {
            (Ty::ErrorUnion { error: pe, value: pv }, Ty::ErrorUnion { error: ae, value: av }) => {
                self.lemma_match_sound(*pe, *ae, s, c);
                let (ok, s1, c1) = self.spec_match(*pe, *ae, s, c);
                self.lemma_match_sound(*pv, *av, s1, c1);
                self.lemma_match_extends(*pv, *av, s1, c1);
        assert forall|s2: TyMap, c2: ConstMap| extends(r.1, s2) implies #[trigger] spec_subst(
                    pattern,
                    s2,
                    c2,
                    None,
                ) == actual by {
                    lemma_extends_trans(s1, r.1, s2);
                    assert(spec_subst(*pe, s2, c2, None) == *ae);
                    assert(spec_subst(*pv, s2, c2, None) == *av);
                }
            },
            _ => {},
        }
    }

    proof fn lemma_range_sound(&self, pattern: Ty, actual: Ty, s: TyMap, c: ConstMap)
        requires
            spec_plain_pattern(pattern),
            self.spec_match(pattern, actual, s, c).0,
            pattern is Range,
        ensures
            forall|s2: TyMap, c2: ConstMap|
                extends(self.spec_match(pattern, actual, s, c).1, s2) ==> #[trigger] spec_subst(
                    pattern,
                    s2,
                    c2,
                    None,
                ) == actual,
        decreases pattern, 0nat,
    {
        let r = self.spec_match(pattern, actual, s, c);
        match (pattern, actual) {
            (Ty::Range { bound: pb, .. }, Ty::Range { bound: ab, .. }) => match (pb, ab) {
                (Some(p), Some(a)) => {
                    self.lemma_match_sound(*p, *a, s, c);
                    assert forall|s2: TyMap, c2: ConstMap| extends(r.1, s2) implies #[trigger] spec_subst(
                        pattern,
                        s2,
                        c2,
                        None,
                    ) == actual by {
                        assert(spec_subst(*p, s2, c2, None) == *a);
                    }
                },
                _ => {},
            },
            _ => {},
        }
    }

    proof fn lemma_function_pointer_sound(&self, pattern: Ty, actual: Ty, s: TyMap, c: ConstMap)
        requires
            spec_plain_pattern(pattern),
            self.spec_match(pattern, actual, s, c).0,
            pattern is FunctionPointer,
        ensures
            forall|s2: TyMap, c2: ConstMap|
                extends(self.spec_match(pattern, actual, s, c).1, s2) ==> #[trigger] spec_subst(
                    pattern,
                    s2,
                    c2,
                    None,
                ) == actual,
        decreases pattern, 0nat,
    {
        let r = self.spec_match(pattern, actual, s, c);
        match (pattern, actual) {
            (
                Ty::FunctionPointer { params: pp, return_type: pr, .. },
                Ty::FunctionPointer { params: ap, return_type: ar, .. },
            ) => {
                self.lemma_match_list_sound(pp, ap, s, c);
                let (ok, s1, c1) = self.spec_match_list(pp, ap, s, c);
                self.lemma_match_sound(*pr, *ar, s1, c1);
                self.lemma_match_extends(*pr, *ar, s1, c1);
        assert forall|s2: TyMap, c2: ConstMap| extends(r.1, s2) implies #[trigger] spec_subst(
                    pattern,
                    s2,
                    c2,
                    None,
                ) == actual by {
                    lemma_extends_trans(s1, r.1, s2);
                    assert(spec_subst_list(pp, s2, c2, None) == ap);
                    assert(spec_subst(*pr, s2, c2, None) == *ar);
                }
            },
            _ => {},
        }
    }

    proof fn lemma_nominal_sound(&self, pattern: Ty, actual: Ty, s: TyMap, c: ConstMap)
        requires
            spec_plain_pattern(pattern),
            self.spec_match(pattern, actual, s, c).0,
            pattern is Nominal || pattern is BuiltinTrait,
        ensures
            forall|s2: TyMap, c2: ConstMap|
                extends(self.spec_match(pattern, actual, s, c).1, s2) ==> #[trigger] spec_subst(
                    pattern,
                    s2,
                    c2,
                    None,
                ) == actual,
        decreases pattern, 0nat,
    {
        let r = self.spec_match(pattern, actual, s, c);
        match (pattern, actual) {
            (Ty::Nominal { args: pa, .. }, Ty::Nominal { args: aa, const_args: ac, .. }) => {
                self.lemma_match_list_sound(pa, aa, s, c);
                lemma_const_list_empty(ac);
                let (ok, s1, c1) = self.spec_match_list(pa, aa, s, c);
                assert(r.1 == s1);
                assert forall|s2: TyMap, c2: ConstMap| extends(r.1, s2) implies #[trigger] spec_subst(
                    pattern,
                    s2,
                    c2,
                    None,
                ) == actual by {
                    assert(spec_subst_list(pa, s2, c2, None) == aa);
                }
            },
            (Ty::BuiltinTrait { args: pa, .. }, Ty::BuiltinTrait { args: aa, .. }) => {
                self.lemma_match_list_sound(pa, aa, s, c);
                assert forall|s2: TyMap, c2: ConstMap| extends(r.1, s2) implies #[trigger] spec_subst(
                    pattern,
                    s2,
                    c2,
                    None,
                ) == actual by {
                    assert(spec_subst_list(pa, s2, c2, None) == aa);
                }
            },
            _ => {},
        }
    }

    /// A successful match of plain pattern lists is sound.
    pub proof fn lemma_match_list_sound(&self, patterns: TyList, actuals: TyList, s: TyMap, c: ConstMap)
        requires
            spec_plain_list(patterns),
            patterns.len() == actuals.len(),
            self.spec_match_list(patterns, actuals, s, c).0,
        ensures
            forall|s2: TyMap, c2: ConstMap|
                extends(self.spec_match_list(patterns, actuals, s, c).1, s2) ==> #[trigger] spec_subst_list(
                    patterns,
                    s2,
                    c2,
                    None,
                ) == actuals,
        decreases patterns, 0nat,
    {
        match (patterns, actuals) {
            (TyList::Cons(p, pt), TyList::Cons(a, at)) => {
                self.lemma_match_sound(*p, *a, s, c);
                let (ok, s1, c1) = self.spec_match(*p, *a, s, c);
                assert(pt.len() == at.len());
                self.lemma_match_list_sound(*pt, *at, s1, c1);
                self.lemma_match_list_extends(*pt, *at, s1, c1);
                let r = self.spec_match_list(patterns, actuals, s, c);
                assert forall|s2: TyMap, c2: ConstMap| extends(r.1, s2) implies #[trigger] spec_subst_list(
                    patterns,
                    s2,
                    c2,
                    None,
                ) == actuals by {
                    lemma_extends_trans(s1, r.1, s2);
                    assert(spec_subst(*p, s2, c2, None) == *a);
                    assert(spec_subst_list(*pt, s2, c2, None) == *at);
                }
            },
            (TyList::Nil, TyList::Nil) => {},
            (TyList::Nil, TyList::Cons(_, t)) => {
                assert(actuals.len() == 1 + t.len());
            },
            (TyList::Cons(_, t), TyList::Nil) => {
                assert(patterns.len() == 1 + t.len());
            },
        }
    }
}

} // verus!
