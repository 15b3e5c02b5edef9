//! Questions about where a type mentions generic parameters.
use vstd::prelude::*;
use crate::ty::{ArrayLen, BindingList, ConstArgList, ConstGenericValue, Ty, TyList};

verus! {

/// Whether `ty` mentions a type parameter or `Self`.
pub open spec fn spec_contains_generic(ty: Ty) -> bool
    decreases ty,
{
    match ty {
        Ty::GenericParam(_) | Ty::SelfParam => true,
        Ty::Pointer { elem, .. } | Ty::VolatilePointer { elem, .. } | Ty::Slice { elem, .. }
        | Ty::SlicePointee { elem } | Ty::Optional { elem } => spec_contains_generic(*elem),
        Ty::Array { len, elem } => spec_contains_generic(*elem) || match len {
            ArrayLen::Builtin { ty, .. } => spec_contains_generic(*ty),
            _ => false,
        },
        Ty::Range { bound, .. } => match bound {
            Some(b) => spec_contains_generic(*b),
            None => false,
        },
        Ty::FunctionPointer { params, return_type, .. } | Ty::Callable {
            params,
            return_type,
            ..
        }
        | Ty::CallablePointee { params, return_type } => spec_list_contains_generic(params)
            || spec_contains_generic(*return_type),
        Ty::ErrorUnion { error, value } => spec_contains_generic(*error) || spec_contains_generic(
            *value,
        ),
        Ty::Tuple(elems) => spec_list_contains_generic(elems),
        Ty::ClosureState { captures, params, return_type, .. } => spec_list_contains_generic(
            captures,
        ) || spec_list_contains_generic(params) || spec_contains_generic(*return_type),
        Ty::Nominal { args, const_args, .. } => spec_list_contains_generic(args)
            || spec_consts_contain_generic(const_args),
        Ty::BuiltinTrait { args, .. } => spec_list_contains_generic(args),
        Ty::TraitObject { trait_args, trait_const_args, bindings, .. }
        | Ty::TraitObjectPointee { trait_args, trait_const_args, bindings, .. } =>
            spec_list_contains_generic(trait_args) || spec_consts_contain_generic(trait_const_args)
            || spec_bindings_contain_generic(bindings),
        Ty::Projection { self_ty, trait_args, trait_const_args, .. } => spec_contains_generic(
            *self_ty,
        ) || spec_list_contains_generic(trait_args) || spec_consts_contain_generic(
            trait_const_args,
        ),
        _ => false,
    }
}

pub open spec fn spec_list_contains_generic(l: TyList) -> bool
    decreases l,
{
    match l {
        TyList::Nil => false,
        TyList::Cons(h, t) => spec_contains_generic(*h) || spec_list_contains_generic(*t),
    }
}

/// Some argument's type mentions a type parameter.
pub open spec fn spec_consts_contain_generic(l: ConstArgList) -> bool
    decreases l,
{
    match l {
        ConstArgList::Nil => false,
        ConstArgList::Cons(h, t) => spec_contains_generic(*h.ty) || spec_consts_contain_generic(*t),
    }
}

pub open spec fn spec_bindings_contain_generic(l: BindingList) -> bool
    decreases l,
{
    match l {
        BindingList::Nil => false,
        BindingList::Cons(b, t) => spec_list_contains_generic(b.trait_args)
            || spec_consts_contain_generic(b.trait_const_args) || spec_contains_generic(*b.ty)
            || spec_bindings_contain_generic(*t),
    }
}

/// Whether `ty` mentions a compile-time parameter, as an argument value or
/// an array length.
pub open spec fn spec_contains_const_generic(ty: Ty) -> bool
    decreases ty,
{
    match ty {
        Ty::Pointer { elem, .. } | Ty::VolatilePointer { elem, .. } | Ty::Slice { elem, .. }
        | Ty::SlicePointee { elem } | Ty::Optional { elem } => spec_contains_const_generic(*elem),
        Ty::Array { len, elem } => (len is GenericParam) || match len {
            ArrayLen::Builtin { ty, .. } => spec_contains_const_generic(*ty),
            _ => false,
        } || spec_contains_const_generic(*elem),
        Ty::Range { bound, .. } => match bound {
            Some(b) => spec_contains_const_generic(*b),
            None => false,
        },
        Ty::FunctionPointer { params, return_type, .. } | Ty::Callable {
            params,
            return_type,
            ..
        }
        | Ty::CallablePointee { params, return_type } => spec_list_contains_const_generic(params)
            || spec_contains_const_generic(*return_type),
        Ty::ErrorUnion { error, value } => spec_contains_const_generic(*error)
            || spec_contains_const_generic(*value),
        Ty::Tuple(elems) => spec_list_contains_const_generic(elems),
        Ty::ClosureState { captures, params, return_type, .. } => spec_list_contains_const_generic(
            captures,
        ) || spec_list_contains_const_generic(params) || spec_contains_const_generic(*return_type),
        Ty::Nominal { args, const_args, .. } => spec_list_contains_const_generic(args)
            || spec_consts_contain_const_generic(const_args),
        Ty::BuiltinTrait { args, .. } => spec_list_contains_const_generic(args),
        Ty::TraitObject { trait_args, trait_const_args, bindings, .. }
        | Ty::TraitObjectPointee { trait_args, trait_const_args, bindings, .. } =>
            spec_list_contains_const_generic(trait_args) || spec_consts_contain_const_generic(
            trait_const_args,
        ) || spec_bindings_contain_const_generic(bindings),
        Ty::Projection { self_ty, trait_args, trait_const_args, .. } => spec_contains_const_generic(
            *self_ty,
        ) || spec_list_contains_const_generic(trait_args) || spec_consts_contain_const_generic(
            trait_const_args,
        ),
        _ => false,
    }
}

pub open spec fn spec_list_contains_const_generic(l: TyList) -> bool
    decreases l,
{
    match l {
        TyList::Nil => false,
        TyList::Cons(h, t) => spec_contains_const_generic(*h) || spec_list_contains_const_generic(
            *t,
        ),
    }
}

/// Some argument is a compile-time parameter or has a type that mentions one.
pub open spec fn spec_consts_contain_const_generic(l: ConstArgList) -> bool
    decreases l,
{
    match l {
        ConstArgList::Nil => false,
        ConstArgList::Cons(h, t) => (h.value is GenericParam) || spec_contains_const_generic(*h.ty)
            || spec_consts_contain_const_generic(*t),
    }
}

pub open spec fn spec_bindings_contain_const_generic(l: BindingList) -> bool
    decreases l,
{
    match l {
        BindingList::Nil => false,
        BindingList::Cons(b, t) => spec_list_contains_const_generic(b.trait_args)
            || spec_consts_contain_const_generic(b.trait_const_args) || spec_contains_const_generic(
            *b.ty,
        ) || spec_bindings_contain_const_generic(*t),
    }
}

/// Whether `ty` mentions a type parameter or `Self`.
pub fn type_contains_generic_param(ty: &Ty) -> (r: bool)
    ensures
        r == spec_contains_generic(*ty),
    decreases ty,
{
    match ty {
        Ty::GenericParam(_) | Ty::SelfParam => true,
        Ty::Pointer { elem, .. } | Ty::VolatilePointer { elem, .. } | Ty::Slice { elem, .. }
        | Ty::SlicePointee { elem } | Ty::Optional { elem } => type_contains_generic_param(elem),
        Ty::Array { len, elem } => type_contains_generic_param(elem) || match len {
            ArrayLen::Builtin { ty, .. } => type_contains_generic_param(ty),
            _ => false,
        },
        Ty::Range { bound, .. } => match bound {
            Some(b) => type_contains_generic_param(b),
            None => false,
        },
        Ty::FunctionPointer { params, return_type, .. } | Ty::Callable {
            params,
            return_type,
            ..
        }
        | Ty::CallablePointee { params, return_type } => list_contains_generic(params)
            || type_contains_generic_param(return_type),
        Ty::ErrorUnion { error, value } => type_contains_generic_param(error)
            || type_contains_generic_param(value),
        Ty::Tuple(elems) => list_contains_generic(elems),
        Ty::ClosureState { captures, params, return_type, .. } => list_contains_generic(captures)
            || list_contains_generic(params) || type_contains_generic_param(return_type),
        Ty::Nominal { args, const_args, .. } => list_contains_generic(args)
            || consts_contain_generic(const_args),
        Ty::BuiltinTrait { args, .. } => list_contains_generic(args),
        Ty::TraitObject { trait_args, trait_const_args, bindings, .. }
        | Ty::TraitObjectPointee { trait_args, trait_const_args, bindings, .. } =>
            list_contains_generic(trait_args) || consts_contain_generic(trait_const_args)
            || bindings_contain_generic(bindings),
        Ty::Projection { self_ty, trait_args, trait_const_args, .. } => type_contains_generic_param(
            self_ty,
        ) || list_contains_generic(trait_args) || consts_contain_generic(trait_const_args),
        _ => false,
    }
}

fn list_contains_generic(l: &TyList) -> (r: bool)
    ensures
        r == spec_list_contains_generic(*l),
    decreases l,
{
    match l {
        TyList::Nil => false,
        TyList::Cons(h, t) => type_contains_generic_param(h) || list_contains_generic(t),
    }
}

fn consts_contain_generic(l: &ConstArgList) -> (r: bool)
    ensures
        r == spec_consts_contain_generic(*l),
    decreases l,
{
    match l {
        ConstArgList::Nil => false,
        ConstArgList::Cons(h, t) => type_contains_generic_param(&h.ty) || consts_contain_generic(t),
    }
}

fn bindings_contain_generic(l: &BindingList) -> (r: bool)
    ensures
        r == spec_bindings_contain_generic(*l),
    decreases l,
{
    match l {
        BindingList::Nil => false,
        BindingList::Cons(b, t) => list_contains_generic(&b.trait_args) || consts_contain_generic(
            &b.trait_const_args,
        ) || type_contains_generic_param(&b.ty) || bindings_contain_generic(t),
    }
}

/// Whether `ty` mentions a compile-time parameter.
pub fn type_contains_const_generic_param(ty: &Ty) -> (r: bool)
    ensures
        r == spec_contains_const_generic(*ty),
    decreases ty,
{
    match ty {
        Ty::Pointer { elem, .. } | Ty::VolatilePointer { elem, .. } | Ty::Slice { elem, .. }
        | Ty::SlicePointee { elem } | Ty::Optional { elem } => type_contains_const_generic_param(
            elem,
        ),
        Ty::Array { len, elem } => matches!(len, ArrayLen::GenericParam(_)) || match len {
            ArrayLen::Builtin { ty, .. } => type_contains_const_generic_param(ty),
            _ => false,
        } || type_contains_const_generic_param(elem),
        Ty::Range { bound, .. } => match bound {
            Some(b) => type_contains_const_generic_param(b),
            None => false,
        },
        Ty::FunctionPointer { params, return_type, .. } | Ty::Callable {
            params,
            return_type,
            ..
        }
        | Ty::CallablePointee { params, return_type } => list_contains_const_generic(params)
            || type_contains_const_generic_param(return_type),
        Ty::ErrorUnion { error, value } => type_contains_const_generic_param(error)
            || type_contains_const_generic_param(value),
        Ty::Tuple(elems) => list_contains_const_generic(elems),
        Ty::ClosureState { captures, params, return_type, .. } => list_contains_const_generic(
            captures,
        ) || list_contains_const_generic(params) || type_contains_const_generic_param(return_type),
        Ty::Nominal { args, const_args, .. } => list_contains_const_generic(args)
            || consts_contain_const_generic(const_args),
        Ty::BuiltinTrait { args, .. } => list_contains_const_generic(args),
        Ty::TraitObject { trait_args, trait_const_args, bindings, .. }
        | Ty::TraitObjectPointee { trait_args, trait_const_args, bindings, .. } =>
            list_contains_const_generic(trait_args) || consts_contain_const_generic(
            trait_const_args,
        ) || bindings_contain_const_generic(bindings),
        Ty::Projection { self_ty, trait_args, trait_const_args, .. } =>
            type_contains_const_generic_param(self_ty) || list_contains_const_generic(trait_args)
            || consts_contain_const_generic(trait_const_args),
        _ => false,
    }
}

fn list_contains_const_generic(l: &TyList) -> (r: bool)
    ensures
        r == spec_list_contains_const_generic(*l),
    decreases l,
{
    match l {
        TyList::Nil => false,
        TyList::Cons(h, t) => type_contains_const_generic_param(h) || list_contains_const_generic(t),
    }
}

fn consts_contain_const_generic(l: &ConstArgList) -> (r: bool)
    ensures
        r == spec_consts_contain_const_generic(*l),
    decreases l,
{
    match l {
        ConstArgList::Nil => false,
        ConstArgList::Cons(h, t) => matches!(h.value, ConstGenericValue::GenericParam(_))
            || type_contains_const_generic_param(&h.ty) || consts_contain_const_generic(t),
    }
}

fn bindings_contain_const_generic(l: &BindingList) -> (r: bool)
    ensures
        r == spec_bindings_contain_const_generic(*l),
    decreases l,
{
    match l {
        BindingList::Nil => false,
        BindingList::Cons(b, t) => list_contains_const_generic(&b.trait_args)
            || consts_contain_const_generic(&b.trait_const_args) || type_contains_const_generic_param(
            &b.ty,
        ) || bindings_contain_const_generic(t),
    }
}

} // verus!
