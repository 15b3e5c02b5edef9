//! Calls through trait objects: the receiver type of a trait object method
//! and the resolution of associated-type projections through the object's
//! bindings.
use vstd::prelude::*;
use crate::checker::BodyChecker;
use crate::ids::SymbolId;
use crate::pattern_matching::spec_const_args_match;
use crate::pattern_matching::const_pattern_args_match;
use crate::ty::{
    AssocBinding, BindingList, ConstArgList, ConstGenericArg, DeepClone, TraitId, Ty,
    TyList, ty_eq,
};

verus! {

/// A method found through a trait object type: the object, the trait that
/// declares the method (the object's trait or one of its supertraits), the
/// trait's arguments and the bindings that the object type gives.
pub struct DynamicTraitMethodCandidate {
    pub object_ty: Ty,
    pub trait_id: TraitId,
    pub trait_args: TyList,
    pub trait_const_args: ConstArgList,
    pub associated_type_bindings: BindingList,
    pub slot: usize,
}

/// The `Self` type seen by a trait object method: a pointer to the object
/// with the object's mutability.
pub open spec fn spec_trait_object_self_ty(object_ty: Ty) -> Ty {
    match object_ty {
        Ty::TraitObject { is_readonly, .. } => Ty::Pointer {
            is_readonly,
            elem: Box::new(object_ty),
        },
        _ => object_ty,
    }
}

/// Two compile-time argument lists agree pairwise.
pub open spec fn spec_const_lists_match(left: ConstArgList, right: ConstArgList) -> bool
    decreases left,
{
    match (left, right) {
        (ConstArgList::Nil, ConstArgList::Nil) => true,
        (ConstArgList::Cons(l, lt), ConstArgList::Cons(r, rt)) => spec_const_args_match(l, r)
            && spec_const_lists_match(*lt, *rt),
        _ => false,
    }
}

/// Whether two compile-time argument lists agree pairwise.
pub fn const_generic_arg_slices_match(left: &ConstArgList, right: &ConstArgList) -> (r: bool)
    ensures
        r == spec_const_lists_match(*left, *right),
    decreases left,
{
    match (left, right) {
        (ConstArgList::Nil, ConstArgList::Nil) => true,
        (ConstArgList::Cons(l, lt), ConstArgList::Cons(r, rt)) => const_pattern_args_match(l, r)
            && const_generic_arg_slices_match(lt, rt),
        _ => false,
    }
}

/// The binding of the object type that answers the projection `name`: the
/// first one with that name whose trait, if it names one, is the candidate's
/// trait with the candidate's arguments.
pub open spec fn spec_binding_for(
    bindings: BindingList,
    candidate: DynamicTraitMethodCandidate,
    name: SymbolId,
) -> Option<Ty>
    decreases bindings,
{
    match bindings {
        BindingList::Nil => None,
        BindingList::Cons(b, tail) => if b.name == name && match b.trait_id {
            None => true,
            Some(t) => t == candidate.trait_id && b.trait_args == candidate.trait_args
                && spec_const_lists_match(b.trait_const_args, candidate.trait_const_args),
        } {
            Some(*b.ty)
        } else {
            spec_binding_for(*tail, candidate, name)
        },
    }
}

/// `ty` with each projection `<Self as Trait>::Name` on the object's `Self`
/// type replaced by the type that the object binds `Name` to.
pub open spec fn spec_normalize_dyn(candidate: DynamicTraitMethodCandidate, ty: Ty) -> Ty
    decreases ty,
{
    match ty {
        Ty::Projection { self_ty, trait_id, trait_args, trait_const_args, name } => if *self_ty
            == spec_trait_object_self_ty(candidate.object_ty) && trait_id == candidate.trait_id
            && trait_args == candidate.trait_args && spec_const_lists_match(
            trait_const_args,
            candidate.trait_const_args,
        ) {
            match spec_binding_for(candidate.associated_type_bindings, candidate, name) {
                Some(t) => t,
                None => ty,
            }
        } else {
            Ty::Projection {
                self_ty: Box::new(spec_normalize_dyn(candidate, *self_ty)),
                trait_id,
                trait_args: spec_normalize_dyn_list(candidate, trait_args),
                trait_const_args: spec_normalize_dyn_consts(candidate, trait_const_args),
                name,
            }
        },
        Ty::Pointer { is_readonly, elem } => Ty::Pointer {
            is_readonly,
            elem: Box::new(spec_normalize_dyn(candidate, *elem)),
        },
        Ty::Tuple(elems) => Ty::Tuple(spec_normalize_dyn_list(candidate, elems)),
        Ty::VolatilePointer { is_readonly, elem } => Ty::VolatilePointer {
            is_readonly,
            elem: Box::new(spec_normalize_dyn(candidate, *elem)),
        },
        Ty::Slice { is_readonly, elem } => Ty::Slice {
            is_readonly,
            elem: Box::new(spec_normalize_dyn(candidate, *elem)),
        },
        Ty::SlicePointee { elem } => Ty::SlicePointee {
            elem: Box::new(spec_normalize_dyn(candidate, *elem)),
        },
        Ty::Array { len, elem } => Ty::Array {
            len,
            elem: Box::new(spec_normalize_dyn(candidate, *elem)),
        },
        Ty::Range { kind, bound } => Ty::Range {
            kind,
            bound: match bound {
                Some(b) => Some(Box::new(spec_normalize_dyn(candidate, *b))),
                None => None,
            },
        },
        Ty::FunctionPointer { params, return_type, is_variadic } => Ty::FunctionPointer {
            params: spec_normalize_dyn_list(candidate, params),
            return_type: Box::new(spec_normalize_dyn(candidate, *return_type)),
            is_variadic,
        },
        Ty::Optional { elem } => Ty::Optional { elem: Box::new(spec_normalize_dyn(candidate, *elem)) },
        Ty::ErrorUnion { error, value } => Ty::ErrorUnion {
            error: Box::new(spec_normalize_dyn(candidate, *error)),
            value: Box::new(spec_normalize_dyn(candidate, *value)),
        },
        Ty::Nominal { def_id, args, const_args } => Ty::Nominal {
            def_id,
            args: spec_normalize_dyn_list(candidate, args),
            const_args,
        },
        Ty::BuiltinTrait { trait_id, args } => Ty::BuiltinTrait {
            trait_id,
            args: spec_normalize_dyn_list(candidate, args),
        },
        Ty::TraitObject { is_readonly, trait_id, trait_args, trait_const_args, bindings } =>
            Ty::TraitObject {
            is_readonly,
            trait_id,
            trait_args: spec_normalize_dyn_list(candidate, trait_args),
            trait_const_args: spec_normalize_dyn_consts(candidate, trait_const_args),
            bindings: spec_normalize_dyn_bindings(candidate, bindings),
        },
        Ty::TraitObjectPointee { trait_id, trait_args, trait_const_args, bindings } =>
            Ty::TraitObjectPointee {
            trait_id,
            trait_args: spec_normalize_dyn_list(candidate, trait_args),
            trait_const_args: spec_normalize_dyn_consts(candidate, trait_const_args),
            bindings: spec_normalize_dyn_bindings(candidate, bindings),
        },
        _ => ty,
    }
}

pub open spec fn spec_normalize_dyn_list(candidate: DynamicTraitMethodCandidate, l: TyList) -> TyList
    decreases l,
{
    match l {
        TyList::Nil => TyList::Nil,
        TyList::Cons(h, t) => TyList::Cons(
            Box::new(spec_normalize_dyn(candidate, *h)),
            Box::new(spec_normalize_dyn_list(candidate, *t)),
        ),
    }
}

pub open spec fn spec_normalize_dyn_consts(
    candidate: DynamicTraitMethodCandidate,
    l: ConstArgList,
) -> ConstArgList
    decreases l,
{
    match l {
        ConstArgList::Nil => ConstArgList::Nil,
        ConstArgList::Cons(h, t) => ConstArgList::Cons(
            ConstGenericArg { ty: Box::new(spec_normalize_dyn(candidate, *h.ty)), value: h.value },
            Box::new(spec_normalize_dyn_consts(candidate, *t)),
        ),
    }
}

pub open spec fn spec_normalize_dyn_bindings(
    candidate: DynamicTraitMethodCandidate,
    l: BindingList,
) -> BindingList
    decreases l,
{
    match l {
        BindingList::Nil => BindingList::Nil,
        BindingList::Cons(b, t) => BindingList::Cons(
            AssocBinding {
                trait_id: b.trait_id,
                trait_args: spec_normalize_dyn_list(candidate, b.trait_args),
                trait_const_args: spec_normalize_dyn_consts(candidate, b.trait_const_args),
                name: b.name,
                ty: Box::new(spec_normalize_dyn(candidate, *b.ty)),
            },
            Box::new(spec_normalize_dyn_bindings(candidate, *t)),
        ),
    }
}

impl BodyChecker {
    /// The receiver `Self` type of a trait object method.
    pub fn trait_object_self_ty(&self, object_ty: &Ty) -> (r: Ty)
        ensures
            r == spec_trait_object_self_ty(*object_ty),
    {
        match object_ty {
            Ty::TraitObject { is_readonly, .. } => Ty::Pointer {
                is_readonly: *is_readonly,
                elem: Box::new(object_ty.deep_clone()),
            },
            _ => object_ty.deep_clone(),
        }
    }

    /// Whether two trait argument lists name the same types.
    pub fn trait_args_match_for_dynamic_object(&self, left: &TyList, right: &TyList) -> (r: bool)
        ensures
            r == (*left == *right),
    {
        crate::ty::ty_list_eq(left, right)
    }

    fn binding_for<'b>(&self, 
        bindings: &'b BindingList,
        candidate: &DynamicTraitMethodCandidate,
        name: SymbolId,
    ) -> (r: Option<&'b Ty>)
        ensures
            match r {
                Some(t) => spec_binding_for(*bindings, *candidate, name) == Some(*t),
                None => spec_binding_for(*bindings, *candidate, name) is None,
            },
        decreases bindings,
    {
        match bindings {
            BindingList::Nil => None,
            BindingList::Cons(b, tail) => {
                let applies = b.name == name && match b.trait_id {
                    None => true,
                    Some(t) => t == candidate.trait_id && self.trait_args_match_for_dynamic_object(
                        &b.trait_args,
                        &candidate.trait_args,
                    ) && const_generic_arg_slices_match(&b.trait_const_args, &candidate.trait_const_args),
                };
                if applies {
                    Some(&b.ty)
                } else {
                    self.binding_for(tail, candidate, name)
                }
            },
        }
    }

    /// Replaces the projections on the object's `Self` type in `ty` by the
    /// object's bindings for them.
    pub fn normalize_dynamic_trait_object_projection(&self, candidate: &DynamicTraitMethodCandidate, ty: &Ty) -> (r:
        Ty)
        ensures
            r == spec_normalize_dyn(*candidate, *ty),
        decreases ty,
    {
        match ty {
            Ty::Projection { self_ty, trait_id, trait_args, trait_const_args, name } => {
                let object_self_ty = self.trait_object_self_ty(&candidate.object_ty);
                if ty_eq(self_ty, &object_self_ty) && *trait_id == candidate.trait_id
                    && self.trait_args_match_for_dynamic_object(trait_args, &candidate.trait_args)
                    && const_generic_arg_slices_match(trait_const_args, &candidate.trait_const_args) {
                    match self.binding_for(&candidate.associated_type_bindings, candidate, *name) {
                        Some(t) => t.deep_clone(),
                        None => ty.deep_clone(),
                    }
                } else {
                    Ty::Projection {
                        self_ty: Box::new(self.normalize_dynamic_trait_object_projection(candidate, self_ty)),
                        trait_id: *trait_id,
                        trait_args: self.normalize_dyn_list(candidate, trait_args),
                        trait_const_args: self.normalize_dyn_consts(candidate, trait_const_args),
                        name: *name,
                    }
                }
            },
            Ty::Pointer { is_readonly, elem } => Ty::Pointer {
                is_readonly: *is_readonly,
                elem: Box::new(self.normalize_dynamic_trait_object_projection(candidate, elem)),
            },
            Ty::Tuple(elems) => Ty::Tuple(self.normalize_dyn_list(candidate, elems)),
            Ty::VolatilePointer { is_readonly, elem } => Ty::VolatilePointer {
                is_readonly: *is_readonly,
                elem: Box::new(self.normalize_dynamic_trait_object_projection(candidate, elem)),
            },
            Ty::Slice { is_readonly, elem } => Ty::Slice {
                is_readonly: *is_readonly,
                elem: Box::new(self.normalize_dynamic_trait_object_projection(candidate, elem)),
            },
            Ty::SlicePointee { elem } => Ty::SlicePointee {
                elem: Box::new(self.normalize_dynamic_trait_object_projection(candidate, elem)),
            },
            Ty::Array { len, elem } => Ty::Array {
                len: len.deep_clone(),
                elem: Box::new(self.normalize_dynamic_trait_object_projection(candidate, elem)),
            },
            Ty::Range { kind, bound } => Ty::Range {
                kind: *kind,
                bound: match bound {
                    Some(b) => Some(Box::new(self.normalize_dynamic_trait_object_projection(candidate, b))),
                    None => None,
                },
            },
            Ty::FunctionPointer { params, return_type, is_variadic } => Ty::FunctionPointer {
                params: self.normalize_dyn_list(candidate, params),
                return_type: Box::new(self.normalize_dynamic_trait_object_projection(candidate, return_type)),
                is_variadic: *is_variadic,
            },
            Ty::Optional { elem } => Ty::Optional {
                elem: Box::new(self.normalize_dynamic_trait_object_projection(candidate, elem)),
            },
            Ty::ErrorUnion { error, value } => Ty::ErrorUnion {
                error: Box::new(self.normalize_dynamic_trait_object_projection(candidate, error)),
                value: Box::new(self.normalize_dynamic_trait_object_projection(candidate, value)),
            },
            Ty::Nominal { def_id, args, const_args } => Ty::Nominal {
                def_id: *def_id,
                args: self.normalize_dyn_list(candidate, args),
                const_args: const_args.deep_clone(),
            },
            Ty::BuiltinTrait { trait_id, args } => Ty::BuiltinTrait {
                trait_id: *trait_id,
                args: self.normalize_dyn_list(candidate, args),
            },
            Ty::TraitObject { is_readonly, trait_id, trait_args, trait_const_args, bindings } =>
                Ty::TraitObject {
                is_readonly: *is_readonly,
                trait_id: *trait_id,
                trait_args: self.normalize_dyn_list(candidate, trait_args),
                trait_const_args: self.normalize_dyn_consts(candidate, trait_const_args),
                bindings: self.normalize_dyn_bindings(candidate, bindings),
            },
            Ty::TraitObjectPointee { trait_id, trait_args, trait_const_args, bindings } =>
                Ty::TraitObjectPointee {
                trait_id: *trait_id,
                trait_args: self.normalize_dyn_list(candidate, trait_args),
                trait_const_args: self.normalize_dyn_consts(candidate, trait_const_args),
                bindings: self.normalize_dyn_bindings(candidate, bindings),
            },
            _ => ty.deep_clone(),
        }
    }

    fn normalize_dyn_list(&self, candidate: &DynamicTraitMethodCandidate, l: &TyList) -> (r: TyList)
        ensures
            r == spec_normalize_dyn_list(*candidate, *l),
        decreases l,
    {
        match l {
            TyList::Nil => TyList::Nil,
            TyList::Cons(h, t) => TyList::Cons(
                Box::new(self.normalize_dynamic_trait_object_projection(candidate, h)),
                Box::new(self.normalize_dyn_list(candidate, t)),
            ),
        }
    }

    fn normalize_dyn_consts(&self, candidate: &DynamicTraitMethodCandidate, l: &ConstArgList) -> (r:
        ConstArgList)
        ensures
            r == spec_normalize_dyn_consts(*candidate, *l),
        decreases l,
    {
        match l {
            ConstArgList::Nil => ConstArgList::Nil,
            ConstArgList::Cons(h, t) => ConstArgList::Cons(
                ConstGenericArg {
                    ty: Box::new(self.normalize_dynamic_trait_object_projection(candidate, &h.ty)),
                    value: h.value,
                },
                Box::new(self.normalize_dyn_consts(candidate, t)),
            ),
        }
    }

    fn normalize_dyn_bindings(&self, candidate: &DynamicTraitMethodCandidate, l: &BindingList) -> (r:
        BindingList)
        ensures
            r == spec_normalize_dyn_bindings(*candidate, *l),
        decreases l,
    {
        match l {
            BindingList::Nil => BindingList::Nil,
            BindingList::Cons(b, t) => BindingList::Cons(
                AssocBinding {
                    trait_id: b.trait_id,
                    trait_args: self.normalize_dyn_list(candidate, &b.trait_args),
                    trait_const_args: self.normalize_dyn_consts(candidate, &b.trait_const_args),
                    name: b.name,
                    ty: Box::new(self.normalize_dynamic_trait_object_projection(candidate, &b.ty)),
                },
                Box::new(self.normalize_dyn_bindings(candidate, t)),
            ),
        }
    }
}

} // verus!
