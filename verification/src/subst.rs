use vstd::prelude::*;
use crate::ids::SymbolId;
use crate::symbol_map::SymbolMap;
use crate::ty::{ArrayLen, AssocBinding, BindingList, ConstArgList, ConstGenericArg, ConstGenericValue, DeepClone, Ty, TyList};

verus! {

/// The value behind an optional reference.
pub open spec fn deref_opt(o: Option<&Ty>) -> Option<Ty> {
    match o {
        Some(t) => Some(*t),
        None => None,
    }
}

/// The array length that a compile-time argument stands for, if it can
/// stand for one: an integer that fits in 64 bits, a parameter or an
/// unevaluated expression.
pub open spec fn spec_array_len_from_const_arg(arg: ConstGenericArg) -> Option<ArrayLen> {
    match arg.value {
        ConstGenericValue::Int(v) => if v.bits <= u64::MAX {
            Some(ArrayLen::ConstValue(v.bits as u64))
        } else {
            None
        },
        ConstGenericValue::GenericParam(n) => Some(ArrayLen::GenericParam(n)),
        ConstGenericValue::ConstExpr(id) => Some(ArrayLen::ConstExpr(id)),
        ConstGenericValue::Bool(_) | ConstGenericValue::Char(_) => None,
    }
}

/// An array length with its parameter replaced, where the argument bound to
/// it stands for a length.
pub open spec fn spec_subst_array_len(len: ArrayLen, c: Map<SymbolId, ConstGenericArg>) -> ArrayLen {
    match len {
        ArrayLen::GenericParam(name) => if c.contains_key(name) && spec_array_len_from_const_arg(
            c[name],
        ) is Some {
            spec_array_len_from_const_arg(c[name]).unwrap()
        } else {
            len
        },
        _ => len,
    }
}

/// A compile-time argument with its parameter value replaced by the bound
/// argument; the argument's type is kept.
pub open spec fn spec_subst_const_arg(
    arg: ConstGenericArg,
    c: Map<SymbolId, ConstGenericArg>,
) -> ConstGenericArg {
    match arg.value {
        ConstGenericValue::GenericParam(name) => if c.contains_key(name) {
            c[name]
        } else {
            arg
        },
        _ => arg,
    }
}

pub open spec fn spec_subst_const_list(
    l: ConstArgList,
    c: Map<SymbolId, ConstGenericArg>,
) -> ConstArgList
    decreases l,
{
    match l {
        ConstArgList::Nil => ConstArgList::Nil,
        ConstArgList::Cons(h, t) => ConstArgList::Cons(
            spec_subst_const_arg(h, c),
            Box::new(spec_subst_const_list(*t, c)),
        ),
    }
}

/// `ty` with every bound type parameter replaced by its binding, every
/// bound compile-time parameter replaced by its argument, and `Self`
/// replaced by `self_ty` when one is given.
pub open spec fn spec_subst(
    ty: Ty,
    s: Map<SymbolId, Ty>,
    c: Map<SymbolId, ConstGenericArg>,
    self_ty: Option<Ty>,
) -> Ty
    decreases ty,
{
    match ty {
        Ty::GenericParam(name) => if s.contains_key(name) {
            s[name]
        } else {
            ty
        },
        Ty::SelfParam => match self_ty {
            Some(t) => t,
            None => ty,
        },
        Ty::Pointer { is_readonly, elem } => Ty::Pointer {
            is_readonly,
            elem: Box::new(spec_subst(*elem, s, c, self_ty)),
        },
        Ty::VolatilePointer { is_readonly, elem } => Ty::VolatilePointer {
            is_readonly,
            elem: Box::new(spec_subst(*elem, s, c, self_ty)),
        },
        Ty::Slice { is_readonly, elem } => Ty::Slice {
            is_readonly,
            elem: Box::new(spec_subst(*elem, s, c, self_ty)),
        },
        Ty::SlicePointee { elem } => Ty::SlicePointee {
            elem: Box::new(spec_subst(*elem, s, c, self_ty)),
        },
        Ty::Array { len, elem } => Ty::Array {
            len: spec_subst_array_len(len, c),
            elem: Box::new(spec_subst(*elem, s, c, self_ty)),
        },
        Ty::Range { kind, bound } => Ty::Range {
            kind,
            bound: match bound {
                Some(b) => Some(Box::new(spec_subst(*b, s, c, self_ty))),
                None => None,
            },
        },
        Ty::FunctionPointer { params, return_type, is_variadic } => Ty::FunctionPointer {
            params: spec_subst_list(params, s, c, self_ty),
            return_type: Box::new(spec_subst(*return_type, s, c, self_ty)),
            is_variadic,
        },
        Ty::Optional { elem } => Ty::Optional { elem: Box::new(spec_subst(*elem, s, c, self_ty)) },
        Ty::ErrorUnion { error, value } => Ty::ErrorUnion {
            error: Box::new(spec_subst(*error, s, c, self_ty)),
            value: Box::new(spec_subst(*value, s, c, self_ty)),
        },
        Ty::Nominal { def_id, args, const_args } => Ty::Nominal {
            def_id,
            args: spec_subst_list(args, s, c, self_ty),
            const_args: spec_subst_const_list(const_args, c),
        },
        Ty::BuiltinTrait { trait_id, args } => Ty::BuiltinTrait {
            trait_id,
            args: spec_subst_list(args, s, c, self_ty),
        },
        Ty::TraitObject { is_readonly, trait_id, trait_args, trait_const_args, bindings } =>
            Ty::TraitObject {
            is_readonly,
            trait_id,
            trait_args: spec_subst_list(trait_args, s, c, self_ty),
            trait_const_args: spec_subst_const_list(trait_const_args, c),
            bindings: spec_subst_bindings(bindings, s, c, self_ty),
        },
        Ty::TraitObjectPointee { trait_id, trait_args, trait_const_args, bindings } =>
            Ty::TraitObjectPointee {
            trait_id,
            trait_args: spec_subst_list(trait_args, s, c, self_ty),
            trait_const_args: spec_subst_const_list(trait_const_args, c),
            bindings: spec_subst_bindings(bindings, s, c, self_ty),
        },
        Ty::Projection { self_ty: projected, trait_id, trait_args, trait_const_args, name } =>
            Ty::Projection {
            self_ty: Box::new(spec_subst(*projected, s, c, self_ty)),
            trait_id,
            trait_args: spec_subst_list(trait_args, s, c, self_ty),
            trait_const_args: spec_subst_const_list(trait_const_args, c),
            name,
        },
        _ => ty,
    }
}

pub open spec fn spec_subst_list(
    l: TyList,
    s: Map<SymbolId, Ty>,
    c: Map<SymbolId, ConstGenericArg>,
    self_ty: Option<Ty>,
) -> TyList
    decreases l,
{
    match l {
        TyList::Nil => TyList::Nil,
        TyList::Cons(h, t) => TyList::Cons(
            Box::new(spec_subst(*h, s, c, self_ty)),
            Box::new(spec_subst_list(*t, s, c, self_ty)),
        ),
    }
}

pub open spec fn spec_subst_bindings(
    l: BindingList,
    s: Map<SymbolId, Ty>,
    c: Map<SymbolId, ConstGenericArg>,
    self_ty: Option<Ty>,
) -> BindingList
    decreases l,
{
    match l {
        BindingList::Nil => BindingList::Nil,
        BindingList::Cons(b, t) => BindingList::Cons(
            AssocBinding {
                trait_id: b.trait_id,
                trait_args: spec_subst_list(b.trait_args, s, c, self_ty),
                trait_const_args: spec_subst_const_list(b.trait_const_args, c),
                name: b.name,
                ty: Box::new(spec_subst(*b.ty, s, c, self_ty)),
            },
            Box::new(spec_subst_bindings(*t, s, c, self_ty)),
        ),
    }
}

/// The array length that a compile-time argument stands for.
pub fn array_len_from_const_arg(arg: &ConstGenericArg) -> (r: Option<ArrayLen>)
    ensures
        r == spec_array_len_from_const_arg(*arg),
{
    match arg.value {
        ConstGenericValue::Int(v) => if v.bits <= u64::MAX as u128 {
            Some(ArrayLen::ConstValue(v.bits as u64))
        } else {
            None
        },
        ConstGenericValue::GenericParam(n) => Some(ArrayLen::GenericParam(n)),
        ConstGenericValue::ConstExpr(id) => Some(ArrayLen::ConstExpr(id)),
        ConstGenericValue::Bool(_) | ConstGenericValue::Char(_) => None,
    }
}

pub fn substitute_array_len(len: &ArrayLen, c: &SymbolMap<ConstGenericArg>) -> (r: ArrayLen)
    requires
        c.wf(),
    ensures
        r == spec_subst_array_len(*len, c@),
{
    match len {
        ArrayLen::GenericParam(name) => match c.get(*name) {
            Some(arg) => match array_len_from_const_arg(arg) {
                Some(l) => l,
                None => ArrayLen::GenericParam(*name),
            },
            None => ArrayLen::GenericParam(*name),
        },
        _ => len.deep_clone(),
    }
}

pub fn substitute_const_generic_arg(arg: &ConstGenericArg, c: &SymbolMap<ConstGenericArg>) -> (r:
    ConstGenericArg)
    requires
        c.wf(),
    ensures
        r == spec_subst_const_arg(*arg, c@),
{
    match arg.value {
        ConstGenericValue::GenericParam(name) => match c.get(name) {
            Some(bound) => bound.deep_clone(),
            None => arg.deep_clone(),
        },
        _ => arg.deep_clone(),
    }
}

pub fn substitute_const_list(l: &ConstArgList, c: &SymbolMap<ConstGenericArg>) -> (r: ConstArgList)
    requires
        c.wf(),
    ensures
        r == spec_subst_const_list(*l, c@),
    decreases l,
{
    match l {
        ConstArgList::Nil => ConstArgList::Nil,
        ConstArgList::Cons(h, t) => ConstArgList::Cons(
            substitute_const_generic_arg(h, c),
            Box::new(substitute_const_list(t, c)),
        ),
    }
}

/// Replaces the bound parameters in `ty` (and `Self`, when `self_ty` is
/// given).
pub fn substitute_generics_and_consts_inner(
    ty: &Ty,
    s: &SymbolMap<Ty>,
    c: &SymbolMap<ConstGenericArg>,
    self_ty: Option<&Ty>,
) -> (r: Ty)
    requires
        s.wf(),
        c.wf(),
    ensures
        r == spec_subst(*ty, s@, c@, deref_opt(self_ty)),
    decreases ty,
{
    match ty {
        Ty::GenericParam(name) => match s.get(*name) {
            Some(bound) => bound.deep_clone(),
            None => ty.deep_clone(),
        },
        Ty::SelfParam => match self_ty {
            Some(t) => t.deep_clone(),
            None => Ty::SelfParam,
        },
        Ty::Pointer { is_readonly, elem } => Ty::Pointer {
            is_readonly: *is_readonly,
            elem: Box::new(substitute_generics_and_consts_inner(elem, s, c, self_ty)),
        },
        Ty::VolatilePointer { is_readonly, elem } => Ty::VolatilePointer {
            is_readonly: *is_readonly,
            elem: Box::new(substitute_generics_and_consts_inner(elem, s, c, self_ty)),
        },
        Ty::Slice { is_readonly, elem } => Ty::Slice {
            is_readonly: *is_readonly,
            elem: Box::new(substitute_generics_and_consts_inner(elem, s, c, self_ty)),
        },
        Ty::SlicePointee { elem } => Ty::SlicePointee {
            elem: Box::new(substitute_generics_and_consts_inner(elem, s, c, self_ty)),
        },
        Ty::Array { len, elem } => Ty::Array {
            len: substitute_array_len(len, c),
            elem: Box::new(substitute_generics_and_consts_inner(elem, s, c, self_ty)),
        },
        Ty::Range { kind, bound } => Ty::Range {
            kind: *kind,
            bound: match bound {
                Some(b) => Some(Box::new(substitute_generics_and_consts_inner(b, s, c, self_ty))),
                None => None,
            },
        },
        Ty::FunctionPointer { params, return_type, is_variadic } => Ty::FunctionPointer {
            params: substitute_list(params, s, c, self_ty),
            return_type: Box::new(substitute_generics_and_consts_inner(return_type, s, c, self_ty)),
            is_variadic: *is_variadic,
        },
        Ty::Optional { elem } => Ty::Optional {
            elem: Box::new(substitute_generics_and_consts_inner(elem, s, c, self_ty)),
        },
        Ty::ErrorUnion { error, value } => Ty::ErrorUnion {
            error: Box::new(substitute_generics_and_consts_inner(error, s, c, self_ty)),
            value: Box::new(substitute_generics_and_consts_inner(value, s, c, self_ty)),
        },
        Ty::Nominal { def_id, args, const_args } => Ty::Nominal {
            def_id: *def_id,
            args: substitute_list(args, s, c, self_ty),
            const_args: substitute_const_list(const_args, c),
        },
        Ty::BuiltinTrait { trait_id, args } => Ty::BuiltinTrait {
            trait_id: *trait_id,
            args: substitute_list(args, s, c, self_ty),
        },
        Ty::TraitObject { is_readonly, trait_id, trait_args, trait_const_args, bindings } =>
            Ty::TraitObject {
            is_readonly: *is_readonly,
            trait_id: *trait_id,
            trait_args: substitute_list(trait_args, s, c, self_ty),
            trait_const_args: substitute_const_list(trait_const_args, c),
            bindings: substitute_bindings(bindings, s, c, self_ty),
        },
        Ty::TraitObjectPointee { trait_id, trait_args, trait_const_args, bindings } =>
            Ty::TraitObjectPointee {
            trait_id: *trait_id,
            trait_args: substitute_list(trait_args, s, c, self_ty),
            trait_const_args: substitute_const_list(trait_const_args, c),
            bindings: substitute_bindings(bindings, s, c, self_ty),
        },
        Ty::Projection { self_ty: projected, trait_id, trait_args, trait_const_args, name } =>
            Ty::Projection {
            self_ty: Box::new(substitute_generics_and_consts_inner(projected, s, c, self_ty)),
            trait_id: *trait_id,
            trait_args: substitute_list(trait_args, s, c, self_ty),
            trait_const_args: substitute_const_list(trait_const_args, c),
            name: *name,
        },
        _ => ty.deep_clone(),
    }
}

pub fn substitute_list(
    l: &TyList,
    s: &SymbolMap<Ty>,
    c: &SymbolMap<ConstGenericArg>,
    self_ty: Option<&Ty>,
) -> (r: TyList)
    requires
        s.wf(),
        c.wf(),
    ensures
        r == spec_subst_list(*l, s@, c@, deref_opt(self_ty)),
    decreases l,
{
    match l {
        TyList::Nil => TyList::Nil,
        TyList::Cons(h, t) => TyList::Cons(
            Box::new(substitute_generics_and_consts_inner(h, s, c, self_ty)),
            Box::new(substitute_list(t, s, c, self_ty)),
        ),
    }
}

pub fn substitute_bindings(
    l: &BindingList,
    s: &SymbolMap<Ty>,
    c: &SymbolMap<ConstGenericArg>,
    self_ty: Option<&Ty>,
) -> (r: BindingList)
    requires
        s.wf(),
        c.wf(),
    ensures
        r == spec_subst_bindings(*l, s@, c@, deref_opt(self_ty)),
    decreases l,
{
    match l {
        BindingList::Nil => BindingList::Nil,
        BindingList::Cons(b, t) => BindingList::Cons(
            AssocBinding {
                trait_id: b.trait_id,
                trait_args: substitute_list(&b.trait_args, s, c, self_ty),
                trait_const_args: substitute_const_list(&b.trait_const_args, c),
                name: b.name,
                ty: Box::new(substitute_generics_and_consts_inner(&b.ty, s, c, self_ty)),
            },
            Box::new(substitute_bindings(t, s, c, self_ty)),
        ),
    }
}

/// `ty` with its bound type and compile-time parameters replaced.
pub fn substitute_generics_and_consts(
    ty: &Ty,
    s: &SymbolMap<Ty>,
    c: &SymbolMap<ConstGenericArg>,
) -> (r: Ty)
    requires
        s.wf(),
        c.wf(),
    ensures
        r == spec_subst(*ty, s@, c@, None),
{
    substitute_generics_and_consts_inner(ty, s, c, None)
}

/// `ty` with its bound parameters and `Self` replaced.
pub fn substitute_generics_and_consts_with_self(
    ty: &Ty,
    s: &SymbolMap<Ty>,
    c: &SymbolMap<ConstGenericArg>,
    self_ty: &Ty,
) -> (r: Ty)
    requires
        s.wf(),
        c.wf(),
    ensures
        r == spec_subst(*ty, s@, c@, Some(*self_ty)),
{
    substitute_generics_and_consts_inner(ty, s, c, Some(self_ty))
}

/// `ty` with its bound type parameters replaced.
pub fn substitute_generics(ty: &Ty, s: &SymbolMap<Ty>) -> (r: Ty)
    requires
        s.wf(),
    ensures
        r == spec_subst(*ty, s@, Map::empty(), None),
{
    let c: SymbolMap<ConstGenericArg> = SymbolMap::new();
    substitute_generics_and_consts_inner(ty, s, &c, None)
}

/// `ty` with its bound type parameters and `Self` replaced.
pub fn substitute_generics_with_self(ty: &Ty, s: &SymbolMap<Ty>, self_ty: &Ty) -> (r: Ty)
    requires
        s.wf(),
    ensures
        r == spec_subst(*ty, s@, Map::empty(), Some(*self_ty)),
{
    let c: SymbolMap<ConstGenericArg> = SymbolMap::new();
    substitute_generics_and_consts_inner(ty, s, &c, Some(self_ty))
}

/// Binds each generic name to the argument at the same position; extra
/// names or arguments are left out.
pub fn generic_substitutions(generics: &Vec<SymbolId>, args: &Vec<Ty>) -> (r: SymbolMap<Ty>)
    ensures
        r.wf(),
        r@ == spec_generic_substitutions(generics@, args@),
{
    let mut r: SymbolMap<Ty> = SymbolMap::new();
    let n = if generics.len() < args.len() {
        generics.len()
    } else {
        args.len()
    };
    let mut i: usize = 0;
    while i < n
        invariant
            n <= generics@.len(),
            n <= args@.len(),
            n == spec_min(generics@.len(), args@.len()),
            i <= n,
            r.wf(),
            r@ == spec_pairs_map(generics@, args@, i as nat),
        decreases n - i,
    {
        r.insert(generics[i], args[i].deep_clone());
        i = i + 1;
    }
    r
}

pub open spec fn spec_min(a: nat, b: nat) -> nat {
    if a < b {
        a
    } else {
        b
    }
}

/// The map that pairs the first `n` names with the first `n` arguments; a
/// later repetition of a name overrides an earlier one.
pub open spec fn spec_pairs_map(generics: Seq<SymbolId>, args: Seq<Ty>, n: nat) -> Map<SymbolId, Ty>
    decreases n,
{
    if n == 0 {
        Map::empty()
    } else {
        spec_pairs_map(generics, args, (n - 1) as nat).insert(generics[n - 1], args[n - 1])
    }
}

/// The map that pairs names with arguments position by position, as far as
/// both lists reach.
pub open spec fn spec_generic_substitutions(generics: Seq<SymbolId>, args: Seq<Ty>) -> Map<
    SymbolId,
    Ty,
> {
    spec_pairs_map(generics, args, spec_min(generics.len(), args.len()))
}

} // verus!
