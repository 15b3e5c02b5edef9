//! Laws of substitution: a type that mentions no parameter is left as it
//! is, and so is every type when nothing is bound.
use vstd::prelude::*;
use crate::ids::SymbolId;
use crate::subst::{spec_subst, spec_subst_bindings, spec_subst_const_list, spec_subst_list};
use crate::ty::{BindingList, ConstArgList, ConstGenericArg, Ty, TyList};
use crate::type_queries::{
    spec_bindings_contain_const_generic, spec_bindings_contain_generic, spec_consts_contain_const_generic,
    spec_contains_const_generic, spec_contains_generic,
    spec_list_contains_const_generic, spec_list_contains_generic,
};

verus! {

/// Substituting into a type that mentions no type parameter, no `Self` and
/// no compile-time parameter gives the type back unchanged, whatever the
/// substitutions.
pub proof fn lemma_subst_ground(
    ty: Ty,
    s: Map<SymbolId, Ty>,
    c: Map<SymbolId, ConstGenericArg>,
    self_ty: Option<Ty>,
)
    requires
        !spec_contains_generic(ty),
        !spec_contains_const_generic(ty),
    ensures
        spec_subst(ty, s, c, self_ty) == ty,
    decreases ty,
{
    match ty {
        Ty::Pointer { elem, .. } | Ty::VolatilePointer { elem, .. } | Ty::Slice { elem, .. }
        | Ty::SlicePointee { elem } | Ty::Optional { elem } => {
            lemma_subst_ground(*elem, s, c, self_ty);
        },
        Ty::Array { len, elem } => {
            lemma_subst_ground(*elem, s, c, self_ty);
        },
        Ty::Range { bound, .. } => match bound {
            Some(b) => {
                lemma_subst_ground(*b, s, c, self_ty);
            },
            None => {},
        },
        Ty::FunctionPointer { params, return_type, .. } => {
            lemma_subst_list_ground(params, s, c, self_ty);
            lemma_subst_ground(*return_type, s, c, self_ty);
        },
        Ty::ErrorUnion { error, value } => {
            lemma_subst_ground(*error, s, c, self_ty);
            lemma_subst_ground(*value, s, c, self_ty);
        },
        Ty::Tuple(elems) => {
            lemma_subst_list_ground(elems, s, c, self_ty);
        },
        Ty::Nominal { args, const_args, .. } => {
            lemma_subst_list_ground(args, s, c, self_ty);
            lemma_subst_const_list_ground(const_args, c);
        },
        Ty::BuiltinTrait { args, .. } => {
            lemma_subst_list_ground(args, s, c, self_ty);
        },
        Ty::TraitObject { trait_args, trait_const_args, bindings, .. }
        | Ty::TraitObjectPointee { trait_args, trait_const_args, bindings, .. } => {
            lemma_subst_list_ground(trait_args, s, c, self_ty);
            lemma_subst_const_list_ground(trait_const_args, c);
            lemma_subst_bindings_ground(bindings, s, c, self_ty);
        },
        Ty::Projection { self_ty: projected, trait_args, trait_const_args, .. } => {
            lemma_subst_ground(*projected, s, c, self_ty);
            lemma_subst_list_ground(trait_args, s, c, self_ty);
            lemma_subst_const_list_ground(trait_const_args, c);
        },
        _ => {},
    }
}

/// Substituting into a list of types that mention no parameter gives the
/// list back.
pub proof fn lemma_subst_list_ground(
    l: TyList,
    s: Map<SymbolId, Ty>,
    c: Map<SymbolId, ConstGenericArg>,
    self_ty: Option<Ty>,
)
    requires
        !spec_list_contains_generic(l),
        !spec_list_contains_const_generic(l),
    ensures
        spec_subst_list(l, s, c, self_ty) == l,
    decreases l,
{
    match l {
        TyList::Nil => {},
        TyList::Cons(h, t) => {
            lemma_subst_ground(*h, s, c, self_ty);
            lemma_subst_list_ground(*t, s, c, self_ty);
        },
    }
}

/// Substituting into compile-time arguments none of which is a parameter
/// gives them back.
pub proof fn lemma_subst_const_list_ground(l: ConstArgList, c: Map<SymbolId, ConstGenericArg>)
    requires
        !spec_consts_contain_const_generic(l),
    ensures
        spec_subst_const_list(l, c) == l,
    decreases l,
{
    match l {
        ConstArgList::Nil => {},
        ConstArgList::Cons(h, t) => {
            lemma_subst_const_list_ground(*t, c);
        },
    }
}

/// Substituting into associated bindings that mention no parameter gives
/// them back.
pub proof fn lemma_subst_bindings_ground(
    l: BindingList,
    s: Map<SymbolId, Ty>,
    c: Map<SymbolId, ConstGenericArg>,
    self_ty: Option<Ty>,
)
    requires
        !spec_bindings_contain_generic(l),
        !spec_bindings_contain_const_generic(l),
    ensures
        spec_subst_bindings(l, s, c, self_ty) == l,
    decreases l,
{
    match l {
        BindingList::Nil => {},
        BindingList::Cons(b, t) => {
            lemma_subst_list_ground(b.trait_args, s, c, self_ty);
            lemma_subst_const_list_ground(b.trait_const_args, c);
            lemma_subst_ground(*b.ty, s, c, self_ty);
            lemma_subst_bindings_ground(*t, s, c, self_ty);
        },
    }
}

/// Substituting with no type binding, no compile-time binding and no
/// `Self` type gives every type back unchanged.
pub proof fn lemma_subst_nothing_bound(ty: Ty)
    ensures
        spec_subst(ty, Map::empty(), Map::empty(), None) == ty,
    decreases ty,
{
    let s = Map::<SymbolId, Ty>::empty();
    let c = Map::<SymbolId, ConstGenericArg>::empty();
    match ty {
        Ty::Pointer { elem, .. } | Ty::VolatilePointer { elem, .. } | Ty::Slice { elem, .. }
        | Ty::SlicePointee { elem } | Ty::Optional { elem } | Ty::Array { elem, .. } => {
            lemma_subst_nothing_bound(*elem);
        },
        Ty::Range { bound, .. } => match bound {
            Some(b) => {
                lemma_subst_nothing_bound(*b);
            },
            None => {},
        },
        Ty::FunctionPointer { params, return_type, .. } => {
            lemma_subst_list_nothing_bound(params);
            lemma_subst_nothing_bound(*return_type);
        },
        Ty::ErrorUnion { error, value } => {
            lemma_subst_nothing_bound(*error);
            lemma_subst_nothing_bound(*value);
        },
        Ty::Tuple(elems) => {
            lemma_subst_list_nothing_bound(elems);
        },
        Ty::Nominal { args, const_args, .. } => {
            lemma_subst_list_nothing_bound(args);
            lemma_subst_const_list_nothing_bound(const_args);
        },
        Ty::BuiltinTrait { args, .. } => {
            lemma_subst_list_nothing_bound(args);
        },
        Ty::TraitObject { trait_args, trait_const_args, bindings, .. }
        | Ty::TraitObjectPointee { trait_args, trait_const_args, bindings, .. } => {
            lemma_subst_list_nothing_bound(trait_args);
            lemma_subst_const_list_nothing_bound(trait_const_args);
            lemma_subst_bindings_nothing_bound(bindings);
        },
        Ty::Projection { self_ty: projected, trait_args, trait_const_args, .. } => {
            lemma_subst_nothing_bound(*projected);
            lemma_subst_list_nothing_bound(trait_args);
            lemma_subst_const_list_nothing_bound(trait_const_args);
        },
        _ => {},
    }
    assert(spec_subst(ty, s, c, None) == ty);
}

/// A list of types is unchanged when nothing is bound.
pub proof fn lemma_subst_list_nothing_bound(l: TyList)
    ensures
        spec_subst_list(l, Map::empty(), Map::empty(), None) == l,
    decreases l,
{
    match l {
        TyList::Nil => {},
        TyList::Cons(h, t) => {
            lemma_subst_nothing_bound(*h);
            lemma_subst_list_nothing_bound(*t);
        },
    }
}

/// Compile-time arguments are unchanged when nothing is bound.
pub proof fn lemma_subst_const_list_nothing_bound(l: ConstArgList)
    ensures
        spec_subst_const_list(l, Map::empty()) == l,
    decreases l,
{
    match l {
        ConstArgList::Nil => {},
        ConstArgList::Cons(h, t) => {
            lemma_subst_const_list_nothing_bound(*t);
        },
    }
}

/// Associated bindings are unchanged when nothing is bound.
pub proof fn lemma_subst_bindings_nothing_bound(l: BindingList)
    ensures
        spec_subst_bindings(l, Map::empty(), Map::empty(), None) == l,
    decreases l,
{
    match l {
        BindingList::Nil => {},
        BindingList::Cons(b, t) => {
            lemma_subst_list_nothing_bound(b.trait_args);
            lemma_subst_const_list_nothing_bound(b.trait_const_args);
            lemma_subst_nothing_bound(*b.ty);
            lemma_subst_bindings_nothing_bound(*t);
        },
    }
}

} // verus!
