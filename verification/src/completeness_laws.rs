//! Completeness of the pattern operations: a pattern built from type
//! parameters, leaf types, tuples, pointers, slices, arrays of a fixed
//! length, ranges, optionals, error unions, function pointers, callables,
//! builtin traits and nominal types with type arguments matches, covers and
//! infers from every type obtained by replacing its parameters, and what it
//! binds is exactly what was put in.
use vstd::prelude::*;
use crate::checker::BodyChecker;
use crate::ids::{Span, SymbolId};
use crate::matching_laws::extends;
use crate::pattern_matching::{ConstMap, TyMap};
use crate::ty::{ConstArgList, Ty, TyList};

verus! {

/// A pattern of the plain forms: type parameters; primitives, `Self`,
/// opaque, builtin and vector types; tuples, pointers, slices, arrays whose
/// length is no parameter and no builtin, ranges, optionals, error unions,
/// function pointers, callables, builtin traits, and nominal types with type
/// arguments only.
pub open spec fn spec_plain(p: Ty) -> bool
    decreases p,
{
    match p {
        Ty::GenericParam(_) | Ty::Primitive(_) | Ty::SelfParam | Ty::Opaque | Ty::BuiltinType(_) | Ty::Vector {
            ..
        } => true,
        Ty::Tuple(l) | Ty::BuiltinTrait { args: l, .. } => spec_plain_list(l),
        Ty::Range { bound, .. } => match bound {
            Some(b) => spec_plain(*b),
            None => true,
        },
        Ty::FunctionPointer { params, return_type, .. } | Ty::Callable { params, return_type, .. }
        | Ty::CallablePointee { params, return_type } => spec_plain_list(params) && spec_plain(*return_type),
        Ty::Pointer { elem, .. } | Ty::VolatilePointer { elem, .. } | Ty::Slice { elem, .. }
        | Ty::SlicePointee { elem } | Ty::Optional { elem } => spec_plain(*elem),
        Ty::ErrorUnion { error, value } => spec_plain(*error) && spec_plain(*value),
        Ty::Array { len, elem } => !(len is GenericParam) && !(len is Builtin) && spec_plain(*elem),
        Ty::Nominal { args, const_args, .. } => const_args is Nil && spec_plain_list(args),
        _ => false,
    }
}

pub open spec fn spec_plain_list(l: TyList) -> bool
    decreases l,
{
    match l {
        TyList::Nil => true,
        TyList::Cons(h, t) => spec_plain(*h) && spec_plain_list(*t),
    }
}

/// Every type parameter of `p` is bound in `s`.
pub open spec fn spec_params_bound(p: Ty, s: TyMap) -> bool
    decreases p,
{
    match p {
        Ty::GenericParam(n) => s.contains_key(n),
        Ty::Tuple(l) | Ty::BuiltinTrait { args: l, .. } => spec_params_bound_list(l, s),
        Ty::Range { bound, .. } => match bound {
            Some(b) => spec_params_bound(*b, s),
            None => true,
        },
        Ty::FunctionPointer { params, return_type, .. } | Ty::Callable { params, return_type, .. }
        | Ty::CallablePointee { params, return_type } => spec_params_bound_list(params, s) && spec_params_bound(
            *return_type,
            s,
        ),
        Ty::Pointer { elem, .. } | Ty::VolatilePointer { elem, .. } | Ty::Slice { elem, .. }
        | Ty::SlicePointee { elem } | Ty::Optional { elem } => spec_params_bound(*elem, s),
        Ty::ErrorUnion { error, value } => spec_params_bound(*error, s) && spec_params_bound(*value, s),
        Ty::Array { elem, .. } => spec_params_bound(*elem, s),
        Ty::Nominal { args, .. } => spec_params_bound_list(args, s),
        _ => true,
    }
}

pub open spec fn spec_params_bound_list(l: TyList, s: TyMap) -> bool
    decreases l,
{
    match l {
        TyList::Nil => true,
        TyList::Cons(h, t) => spec_params_bound(*h, s) && spec_params_bound_list(*t, s),
    }
}

/// `p` with every bound type parameter replaced by its binding, at every
/// depth of the plain forms (tuples included).
pub open spec fn spec_instance(p: Ty, s: TyMap) -> Ty
    decreases p,
{
    match p {
        Ty::GenericParam(n) => if s.contains_key(n) {
            s[n]
        } else {
            p
        },
        Ty::Tuple(l) => Ty::Tuple(spec_instance_list(l, s)),
        Ty::BuiltinTrait { trait_id, args } => Ty::BuiltinTrait { trait_id, args: spec_instance_list(args, s) },
        Ty::Range { kind, bound } => Ty::Range {
            kind,
            bound: match bound {
                Some(b) => Some(Box::new(spec_instance(*b, s))),
                None => None,
            },
        },
        Ty::FunctionPointer { params, return_type, is_variadic } => Ty::FunctionPointer {
            params: spec_instance_list(params, s),
            return_type: Box::new(spec_instance(*return_type, s)),
            is_variadic,
        },
        Ty::Callable { is_readonly, params, return_type } => Ty::Callable {
            is_readonly,
            params: spec_instance_list(params, s),
            return_type: Box::new(spec_instance(*return_type, s)),
        },
        Ty::CallablePointee { params, return_type } => Ty::CallablePointee {
            params: spec_instance_list(params, s),
            return_type: Box::new(spec_instance(*return_type, s)),
        },
        Ty::Pointer { is_readonly, elem } => Ty::Pointer { is_readonly, elem: Box::new(spec_instance(*elem, s)) },
        Ty::VolatilePointer { is_readonly, elem } => Ty::VolatilePointer {
            is_readonly,
            elem: Box::new(spec_instance(*elem, s)),
        },
        Ty::Slice { is_readonly, elem } => Ty::Slice { is_readonly, elem: Box::new(spec_instance(*elem, s)) },
        Ty::SlicePointee { elem } => Ty::SlicePointee { elem: Box::new(spec_instance(*elem, s)) },
        Ty::Optional { elem } => Ty::Optional { elem: Box::new(spec_instance(*elem, s)) },
        Ty::Array { len, elem } => Ty::Array { len, elem: Box::new(spec_instance(*elem, s)) },
        Ty::ErrorUnion { error, value } => Ty::ErrorUnion {
            error: Box::new(spec_instance(*error, s)),
            value: Box::new(spec_instance(*value, s)),
        },
        Ty::Nominal { def_id, args, const_args } => Ty::Nominal {
            def_id,
            args: spec_instance_list(args, s),
            const_args,
        },
        _ => p,
    }
}

pub open spec fn spec_instance_list(l: TyList, s: TyMap) -> TyList
    decreases l,
{
    match l {
        TyList::Nil => TyList::Nil,
        TyList::Cons(h, t) => TyList::Cons(Box::new(spec_instance(*h, s)), Box::new(spec_instance_list(*t, s))),
    }
}

/// Replacing keeps a list's length.
pub proof fn lemma_instance_list_len(l: TyList, s: TyMap)
    ensures
        spec_instance_list(l, s).len() == l.len(),
    decreases l,
{
    match l {
        TyList::Nil => {},
        TyList::Cons(_, t) => {
            lemma_instance_list_len(*t, s);
        },
    }
}

/// Bound parameters stay bound in a larger map.
pub proof fn lemma_bound_grows(p: Ty, a: TyMap, b: TyMap)
    requires
        spec_params_bound(p, a),
        extends(a, b),
    ensures
        spec_params_bound(p, b),
    decreases p,
{
    match p {
        Ty::Tuple(l) | Ty::Nominal { args: l, .. } | Ty::BuiltinTrait { args: l, .. } => {
            lemma_bound_grows_list(l, a, b);
        },
        Ty::Pointer { elem, .. } | Ty::VolatilePointer { elem, .. } | Ty::Slice { elem, .. }
        | Ty::SlicePointee { elem } | Ty::Optional { elem } | Ty::Array { elem, .. } => {
            lemma_bound_grows(*elem, a, b);
        },
        Ty::Range { bound, .. } => match bound {
            Some(x) => {
                lemma_bound_grows(*x, a, b);
            },
            None => {},
        },
        Ty::FunctionPointer { params, return_type, .. } | Ty::Callable { params, return_type, .. }
        | Ty::CallablePointee { params, return_type } => {
            lemma_bound_grows_list(params, a, b);
            lemma_bound_grows(*return_type, a, b);
        },
        Ty::ErrorUnion { error, value } => {
            lemma_bound_grows(*error, a, b);
            lemma_bound_grows(*value, a, b);
        },
        _ => {},
    }
}

pub proof fn lemma_bound_grows_list(l: TyList, a: TyMap, b: TyMap)
    requires
        spec_params_bound_list(l, a),
        extends(a, b),
    ensures
        spec_params_bound_list(l, b),
    decreases l,
{
    match l {
        TyList::Nil => {},
        TyList::Cons(h, t) => {
            lemma_bound_grows(*h, a, b);
            lemma_bound_grows_list(*t, a, b);
        },
    }
}

/// Two maps that agree on the parameters of `p` give it the same instance.
pub proof fn lemma_instance_agrees(p: Ty, a: TyMap, b: TyMap)
    requires
        spec_params_bound(p, a),
        extends(a, b),
    ensures
        spec_instance(p, a) == spec_instance(p, b),
    decreases p,
{
    match p {
        Ty::Tuple(l) | Ty::Nominal { args: l, .. } | Ty::BuiltinTrait { args: l, .. } => {
            lemma_instance_agrees_list(l, a, b);
        },
        Ty::Pointer { elem, .. } | Ty::VolatilePointer { elem, .. } | Ty::Slice { elem, .. }
        | Ty::SlicePointee { elem } | Ty::Optional { elem } | Ty::Array { elem, .. } => {
            lemma_instance_agrees(*elem, a, b);
        },
        Ty::Range { bound, .. } => match bound {
            Some(x) => {
                lemma_instance_agrees(*x, a, b);
            },
            None => {},
        },
        Ty::FunctionPointer { params, return_type, .. } | Ty::Callable { params, return_type, .. }
        | Ty::CallablePointee { params, return_type } => {
            lemma_instance_agrees_list(params, a, b);
            lemma_instance_agrees(*return_type, a, b);
        },
        Ty::ErrorUnion { error, value } => {
            lemma_instance_agrees(*error, a, b);
            lemma_instance_agrees(*value, a, b);
        },
        _ => {},
    }
}

pub proof fn lemma_instance_agrees_list(l: TyList, a: TyMap, b: TyMap)
    requires
        spec_params_bound_list(l, a),
        extends(a, b),
    ensures
        spec_instance_list(l, a) == spec_instance_list(l, b),
    decreases l,
{
    match l {
        TyList::Nil => {},
        TyList::Cons(h, t) => {
            lemma_instance_agrees(*h, a, b);
            lemma_instance_agrees_list(*t, a, b);
        },
    }
}

impl BodyChecker {
    /// Matching a plain pattern against an instance of it, from bindings
    /// that agree with the instance's, succeeds, binds every parameter,
    /// and binds nothing the instance does not.
    pub proof fn lemma_match_instance(&self, p: Ty, s: TyMap, st: TyMap, c: ConstMap)
        requires
            spec_plain(p),
            spec_params_bound(p, s),
            extends(st, s),
        ensures
            self.spec_match(p, spec_instance(p, s), st, c).0,
            extends(self.spec_match(p, spec_instance(p, s), st, c).1, s),
            extends(st, self.spec_match(p, spec_instance(p, s), st, c).1),
            spec_params_bound(p, self.spec_match(p, spec_instance(p, s), st, c).1),
            self.spec_match(p, spec_instance(p, s), st, c).2 == c,
        decreases p,
    {
        match p {
            Ty::Tuple(l) => {
                lemma_instance_list_len(l, s);
                self.lemma_match_instance_list(l, s, st, c);
            },
            Ty::Nominal { args, .. } => {
                lemma_instance_list_len(args, s);
                self.lemma_match_instance_list(args, s, st, c);
            },
            Ty::Pointer { elem, .. } | Ty::VolatilePointer { elem, .. } | Ty::Slice { elem, .. }
            | Ty::SlicePointee { elem } | Ty::Optional { elem } | Ty::Array { elem, .. } => {
                self.lemma_match_instance(*elem, s, st, c);
            },
            Ty::BuiltinTrait { args, .. } => {
                lemma_instance_list_len(args, s);
                self.lemma_match_instance_list(args, s, st, c);
            },
            Ty::Range { bound, .. } => match bound {
                Some(x) => {
                    self.lemma_match_instance(*x, s, st, c);
                },
                None => {},
            },
            Ty::FunctionPointer { params, return_type, .. } | Ty::Callable { params, return_type, .. }
            | Ty::CallablePointee { params, return_type } => {
                lemma_instance_list_len(params, s);
                self.lemma_match_instance_list(params, s, st, c);
                let r1 = self.spec_match_list(params, spec_instance_list(params, s), st, c);
                self.lemma_match_instance(*return_type, s, r1.1, c);
                let r2 = self.spec_match(*return_type, spec_instance(*return_type, s), r1.1, c);
                lemma_bound_grows_list(params, r1.1, r2.1);
            },
            Ty::ErrorUnion { error, value } => {
                self.lemma_match_instance(*error, s, st, c);
                let r1 = self.spec_match(*error, spec_instance(*error, s), st, c);
                self.lemma_match_instance(*value, s, r1.1, c);
                let r2 = self.spec_match(*value, spec_instance(*value, s), r1.1, c);
                lemma_bound_grows(*error, r1.1, r2.1);
            },
            _ => {},
        }
    }

    pub proof fn lemma_match_instance_list(&self, l: TyList, s: TyMap, st: TyMap, c: ConstMap)
        requires
            spec_plain_list(l),
            spec_params_bound_list(l, s),
            extends(st, s),
        ensures
            self.spec_match_list(l, spec_instance_list(l, s), st, c).0,
            extends(self.spec_match_list(l, spec_instance_list(l, s), st, c).1, s),
            extends(st, self.spec_match_list(l, spec_instance_list(l, s), st, c).1),
            spec_params_bound_list(l, self.spec_match_list(l, spec_instance_list(l, s), st, c).1),
            self.spec_match_list(l, spec_instance_list(l, s), st, c).2 == c,
        decreases l,
    {
        match l {
            TyList::Nil => {},
            TyList::Cons(h, t) => {
                self.lemma_match_instance(*h, s, st, c);
                let r1 = self.spec_match(*h, spec_instance(*h, s), st, c);
                self.lemma_match_instance_list(*t, s, r1.1, c);
                let r2 = self.spec_match_list(*t, spec_instance_list(*t, s), r1.1, c);
                lemma_bound_grows(*h, r1.1, r2.1);
            },
        }
    }

    /// Subsumption of an instance by a plain pattern, from bindings that
    /// agree with the instance's, holds, binds every parameter and binds
    /// nothing the instance does not.
    pub proof fn lemma_subsumes_instance(&self, g: Ty, s: TyMap, st: TyMap, c: ConstMap)
        requires
            spec_plain(g),
            spec_params_bound(g, s),
            extends(st, s),
        ensures
            self.spec_subsumes_inner(g, spec_instance(g, s), st, c).0,
            extends(self.spec_subsumes_inner(g, spec_instance(g, s), st, c).1, s),
            extends(st, self.spec_subsumes_inner(g, spec_instance(g, s), st, c).1),
            spec_params_bound(g, self.spec_subsumes_inner(g, spec_instance(g, s), st, c).1),
            self.spec_subsumes_inner(g, spec_instance(g, s), st, c).2 == c,
        decreases g,
    {
        match g {
            Ty::Tuple(l) => {
                lemma_instance_list_len(l, s);
                self.lemma_subsumes_instance_list(l, s, st, c);
                assert(spec_instance(g, s) == Ty::Tuple(spec_instance_list(l, s)));
                assert(self.spec_subsumes_candidate(g, spec_instance(g, s), st, c) == self.spec_subsumes_list(
                    l,
                    spec_instance_list(l, s),
                    st,
                    c,
                ));
            },
            Ty::Nominal { args, .. } => {
                lemma_instance_list_len(args, s);
                assert(self.spec_const_list_subsumes(ConstArgList::Nil, ConstArgList::Nil, st, c) == (true, st, c));
                self.lemma_subsumes_instance_list(args, s, st, c);
            },
            Ty::Pointer { elem, .. } | Ty::VolatilePointer { elem, .. } | Ty::Slice { elem, .. }
            | Ty::SlicePointee { elem } | Ty::Optional { elem } | Ty::Array { elem, .. } => {
                self.lemma_subsumes_instance(*elem, s, st, c);
            },
            Ty::BuiltinTrait { args, .. } => {
                lemma_instance_list_len(args, s);
                self.lemma_subsumes_instance_list(args, s, st, c);
            },
            Ty::Range { bound, .. } => match bound {
                Some(x) => {
                    self.lemma_subsumes_instance(*x, s, st, c);
                },
                None => {},
            },
            Ty::FunctionPointer { params, return_type, .. } | Ty::Callable { params, return_type, .. }
            | Ty::CallablePointee { params, return_type } => {
                lemma_instance_list_len(params, s);
                self.lemma_subsumes_instance_list(params, s, st, c);
                let r1 = self.spec_subsumes_list(params, spec_instance_list(params, s), st, c);
                self.lemma_subsumes_instance(*return_type, s, r1.1, c);
                let r2 = self.spec_subsumes_inner(*return_type, spec_instance(*return_type, s), r1.1, c);
                lemma_bound_grows_list(params, r1.1, r2.1);
            },
            Ty::ErrorUnion { error, value } => {
                self.lemma_subsumes_instance(*error, s, st, c);
                let r1 = self.spec_subsumes_inner(*error, spec_instance(*error, s), st, c);
                self.lemma_subsumes_instance(*value, s, r1.1, c);
                let r2 = self.spec_subsumes_inner(*value, spec_instance(*value, s), r1.1, c);
                lemma_bound_grows(*error, r1.1, r2.1);
            },
            _ => {},
        }
    }

    pub proof fn lemma_subsumes_instance_list(&self, l: TyList, s: TyMap, st: TyMap, c: ConstMap)
        requires
            spec_plain_list(l),
            spec_params_bound_list(l, s),
            extends(st, s),
        ensures
            self.spec_subsumes_list(l, spec_instance_list(l, s), st, c).0,
            extends(self.spec_subsumes_list(l, spec_instance_list(l, s), st, c).1, s),
            extends(st, self.spec_subsumes_list(l, spec_instance_list(l, s), st, c).1),
            spec_params_bound_list(l, self.spec_subsumes_list(l, spec_instance_list(l, s), st, c).1),
            self.spec_subsumes_list(l, spec_instance_list(l, s), st, c).2 == c,
        decreases l,
    {
        match l {
            TyList::Nil => {},
            TyList::Cons(h, t) => {
                self.lemma_subsumes_instance(*h, s, st, c);
                let r1 = self.spec_subsumes_inner(*h, spec_instance(*h, s), st, c);
                self.lemma_subsumes_instance_list(*t, s, r1.1, c);
                let r2 = self.spec_subsumes_list(*t, spec_instance_list(*t, s), r1.1, c);
                lemma_bound_grows(*h, r1.1, r2.1);
            },
        }
    }

    /// Inference from an instance of a plain pattern, from bindings that
    /// agree with the instance's, reports nothing, binds every parameter
    /// and binds nothing the instance does not.
    pub proof fn lemma_infer_instance(&self, p: Ty, s: TyMap, st: TyMap, d: Seq<crate::checker::Diagnostic>, span: Span)
        requires
            spec_plain(p),
            spec_params_bound(p, s),
            extends(st, s),
        ensures
            self.spec_infer(p, spec_instance(p, s), (st, d), span).1 == d,
            extends(self.spec_infer(p, spec_instance(p, s), (st, d), span).0, s),
            extends(st, self.spec_infer(p, spec_instance(p, s), (st, d), span).0),
            spec_params_bound(p, self.spec_infer(p, spec_instance(p, s), (st, d), span).0),
        decreases p,
    {
        match p {
            Ty::Tuple(l) => {
                lemma_instance_list_len(l, s);
                self.lemma_infer_instance_list(l, s, st, d, span);
                assert(spec_instance(p, s) == Ty::Tuple(spec_instance_list(l, s)));
                assert(self.spec_infer(p, spec_instance(p, s), (st, d), span) == self.spec_infer_list(
                    l,
                    spec_instance_list(l, s),
                    (st, d),
                    span,
                ));
            },
            Ty::Nominal { args, .. } => {
                lemma_instance_list_len(args, s);
                self.lemma_infer_instance_list(args, s, st, d, span);
                assert(self.spec_const_patterns_accept(ConstArgList::Nil, ConstArgList::Nil));
                let r = self.spec_infer_list(args, spec_instance_list(args, s), (st, d), span);
                assert(self.spec_infer_const_tys(ConstArgList::Nil, ConstArgList::Nil, r, span) == r);
            },
            Ty::Pointer { elem, .. } | Ty::VolatilePointer { elem, .. } | Ty::Slice { elem, .. }
            | Ty::SlicePointee { elem } | Ty::Optional { elem } | Ty::Array { elem, .. } => {
                self.lemma_infer_instance(*elem, s, st, d, span);
            },
            Ty::BuiltinTrait { args, .. } => {
                lemma_instance_list_len(args, s);
                self.lemma_infer_instance_list(args, s, st, d, span);
            },
            Ty::Range { bound, .. } => match bound {
                Some(x) => {
                    self.lemma_infer_instance(*x, s, st, d, span);
                },
                None => {},
            },
            Ty::FunctionPointer { params, return_type, .. } | Ty::Callable { params, return_type, .. }
            | Ty::CallablePointee { params, return_type } => {
                lemma_instance_list_len(params, s);
                self.lemma_infer_instance_list(params, s, st, d, span);
                let r1 = self.spec_infer_list(params, spec_instance_list(params, s), (st, d), span);
                assert(r1 == (r1.0, d));
                self.lemma_infer_instance(*return_type, s, r1.0, d, span);
                let r2 = self.spec_infer(*return_type, spec_instance(*return_type, s), (r1.0, d), span);
                lemma_bound_grows_list(params, r1.0, r2.0);
            },
            Ty::ErrorUnion { error, value } => {
                self.lemma_infer_instance(*error, s, st, d, span);
                let r1 = self.spec_infer(*error, spec_instance(*error, s), (st, d), span);
                self.lemma_infer_instance(*value, s, r1.0, d, span);
                let r2 = self.spec_infer(*value, spec_instance(*value, s), (r1.0, d), span);
                assert(r1 == (r1.0, d));
                lemma_bound_grows(*error, r1.0, r2.0);
            },
            Ty::GenericParam(n) => {
                if st.contains_key(n) {
                    assert(st.insert(n, s[n]) =~= st);
                }
            },
            _ => {},
        }
    }

    pub proof fn lemma_infer_instance_list(
        &self,
        l: TyList,
        s: TyMap,
        st: TyMap,
        d: Seq<crate::checker::Diagnostic>,
        span: Span,
    )
        requires
            spec_plain_list(l),
            spec_params_bound_list(l, s),
            extends(st, s),
        ensures
            self.spec_infer_list(l, spec_instance_list(l, s), (st, d), span).1 == d,
            extends(self.spec_infer_list(l, spec_instance_list(l, s), (st, d), span).0, s),
            extends(st, self.spec_infer_list(l, spec_instance_list(l, s), (st, d), span).0),
            spec_params_bound_list(l, self.spec_infer_list(l, spec_instance_list(l, s), (st, d), span).0),
        decreases l,
    {
        match l {
            TyList::Nil => {},
            TyList::Cons(h, t) => {
                self.lemma_infer_instance(*h, s, st, d, span);
                let r1 = self.spec_infer(*h, spec_instance(*h, s), (st, d), span);
                assert(r1 == (r1.0, d));
                self.lemma_infer_instance_list(*t, s, r1.0, d, span);
                let r2 = self.spec_infer_list(*t, spec_instance_list(*t, s), (r1.0, d), span);
                lemma_bound_grows(*h, r1.0, r2.0);
            },
        }
    }

    /// Completeness of matching: a plain pattern matches every type made
    /// from it by replacing its parameters, and the match binds each
    /// parameter to what replaced it, so the pattern with the match's
    /// bindings put in is that type again.
    pub proof fn lemma_match_complete(&self, p: Ty, s: TyMap, c: ConstMap)
        requires
            spec_plain(p),
            spec_params_bound(p, s),
        ensures
            self.spec_match(p, spec_instance(p, s), Map::empty(), c).0,
            extends(self.spec_match(p, spec_instance(p, s), Map::empty(), c).1, s),
            spec_instance(p, self.spec_match(p, spec_instance(p, s), Map::empty(), c).1) == spec_instance(p, s),
    {
        self.lemma_match_instance(p, s, Map::empty(), c);
        let r = self.spec_match(p, spec_instance(p, s), Map::empty(), c);
        lemma_instance_agrees(p, r.1, s);
    }

    /// Completeness of subsumption: a plain pattern covers every type made
    /// from it by replacing its parameters.
    pub proof fn lemma_subsumes_complete(&self, g: Ty, s: TyMap)
        requires
            spec_plain(g),
            spec_params_bound(g, s),
        ensures
            self.spec_pattern_subsumes(g, spec_instance(g, s)),
    {
        self.lemma_subsumes_instance(g, s, Map::empty(), Map::empty());
    }

    /// Every plain pattern covers itself.
    pub proof fn lemma_subsumes_reflexive(&self, g: Ty)
        requires
            spec_plain(g),
        ensures
            self.spec_pattern_subsumes(g, g),
    {
        let id = spec_identity_map();
        lemma_identity_bound(g, id);
        lemma_instance_identity(g, id);
        self.lemma_subsumes_complete(g, id);
    }

    /// Inference recovers the matched type: inferring a plain pattern's
    /// parameters from a type made from it by replacing them reports no
    /// conflict, binds every parameter to what replaced it, and the pattern
    /// with the inferred bindings put in is that type again.
    pub proof fn lemma_infer_complete(&self, p: Ty, s: TyMap, span: Span)
        requires
            spec_plain(p),
            spec_params_bound(p, s),
        ensures
            self.spec_infer(p, spec_instance(p, s), (Map::empty(), Seq::empty()), span).1 == Seq::<
                crate::checker::Diagnostic,
            >::empty(),
            extends(self.spec_infer(p, spec_instance(p, s), (Map::empty(), Seq::empty()), span).0, s),
            spec_instance(p, self.spec_infer(p, spec_instance(p, s), (Map::empty(), Seq::empty()), span).0)
                == spec_instance(p, s),
    {
        self.lemma_infer_instance(p, s, Map::empty(), Seq::empty(), span);
        let r = self.spec_infer(p, spec_instance(p, s), (Map::empty(), Seq::empty()), span);
        lemma_instance_agrees(p, r.0, s);
    }
}

/// The map that binds every type parameter to itself.
pub open spec fn spec_identity_map() -> TyMap {
    Map::new(|n: SymbolId| true, |n: SymbolId| Ty::GenericParam(n))
}

/// The map that binds every parameter to itself binds the parameters of
/// every pattern.
pub proof fn lemma_identity_bound(p: Ty, id: TyMap)
    requires
        id == spec_identity_map(),
    ensures
        spec_params_bound(p, id),
    decreases p,
{
    match p {
        Ty::Tuple(l) | Ty::Nominal { args: l, .. } | Ty::BuiltinTrait { args: l, .. } => {
            lemma_identity_bound_list(l, id);
        },
        Ty::Pointer { elem, .. } | Ty::VolatilePointer { elem, .. } | Ty::Slice { elem, .. }
        | Ty::SlicePointee { elem } | Ty::Optional { elem } | Ty::Array { elem, .. } => {
            lemma_identity_bound(*elem, id);
        },
        Ty::Range { bound, .. } => match bound {
            Some(b) => {
                lemma_identity_bound(*b, id);
            },
            None => {},
        },
        Ty::FunctionPointer { params, return_type, .. } | Ty::Callable { params, return_type, .. }
        | Ty::CallablePointee { params, return_type } => {
            lemma_identity_bound_list(params, id);
            lemma_identity_bound(*return_type, id);
        },
        Ty::ErrorUnion { error, value } => {
            lemma_identity_bound(*error, id);
            lemma_identity_bound(*value, id);
        },
        _ => {},
    }
}

pub proof fn lemma_identity_bound_list(l: TyList, id: TyMap)
    requires
        id == spec_identity_map(),
    ensures
        spec_params_bound_list(l, id),
    decreases l,
{
    match l {
        TyList::Nil => {},
        TyList::Cons(h, t) => {
            lemma_identity_bound(*h, id);
            lemma_identity_bound_list(*t, id);
        },
    }
}

/// Replacing every parameter by itself changes nothing.
pub proof fn lemma_instance_identity(p: Ty, id: TyMap)
    requires
        id == spec_identity_map(),
    ensures
        spec_instance(p, id) == p,
    decreases p,
{
    match p {
        Ty::Tuple(l) | Ty::Nominal { args: l, .. } | Ty::BuiltinTrait { args: l, .. } => {
            lemma_instance_identity_list(l, id);
        },
        Ty::Pointer { elem, .. } | Ty::VolatilePointer { elem, .. } | Ty::Slice { elem, .. }
        | Ty::SlicePointee { elem } | Ty::Optional { elem } | Ty::Array { elem, .. } => {
            lemma_instance_identity(*elem, id);
        },
        Ty::Range { bound, .. } => match bound {
            Some(b) => {
                lemma_instance_identity(*b, id);
            },
            None => {},
        },
        Ty::FunctionPointer { params, return_type, .. } | Ty::Callable { params, return_type, .. }
        | Ty::CallablePointee { params, return_type } => {
            lemma_instance_identity_list(params, id);
            lemma_instance_identity(*return_type, id);
        },
        Ty::ErrorUnion { error, value } => {
            lemma_instance_identity(*error, id);
            lemma_instance_identity(*value, id);
        },
        Ty::GenericParam(n) => {
            assert(id.contains_key(n));
            assert(id[n] == Ty::GenericParam(n));
        },
        _ => {},
    }
}

pub proof fn lemma_instance_identity_list(l: TyList, id: TyMap)
    requires
        id == spec_identity_map(),
    ensures
        spec_instance_list(l, id) == l,
    decreases l,
{
    match l {
        TyList::Nil => {},
        TyList::Cons(h, t) => {
            lemma_instance_identity(*h, id);
            lemma_instance_identity_list(*t, id);
        },
    }
}

} // verus!

