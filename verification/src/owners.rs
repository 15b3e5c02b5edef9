//! The types a method is declared on: the target of its `extend` block,
//! the type its receiver has there, and the compile-time generics that
//! target names; and type aliases expanded through pointers.
use vstd::prelude::*;
use crate::checker::BodyChecker;
use crate::ids::{DefId, GlobalDefId, ReceiverKind, SymbolId};
use crate::receivers::{receiver_ty_for_target, spec_receiver_ty_for_target};
use crate::ty::{ArrayLen, ConstArgList, ConstGenericValue, DeepClone, PrimitiveTy, Ty};

verus! {

/// The kinds of definition the checker tells apart when it looks for a
/// method's `Self` type.
#[derive(Clone, Copy, Debug, PartialEq, Eq, Structural)]
pub enum DefKind {
    Method,
    TraitMethod,
    Other,
}

/// The type of the first compile-time argument of `args` that is the
/// generic parameter `name`.
pub open spec fn spec_const_arg_type(args: ConstArgList, name: SymbolId) -> Option<Ty>
    decreases args,
{
    match args {
        ConstArgList::Nil => None,
        ConstArgList::Cons(h, t) => if h.value == ConstGenericValue::GenericParam(name) {
            Some(*h.ty)
        } else {
            spec_const_arg_type(*t, name)
        },
    }
}

/// The type of the compile-time generic `name` as `ty` uses it: the type
/// of a nominal type's argument that is `name`, `usize` for an array whose
/// length is `name`, and the same for what a pointer points to.
pub open spec fn spec_comptime_generic_type(ty: Ty, name: SymbolId) -> Option<Ty>
    decreases ty,
{
    match ty {
        Ty::Nominal { const_args, .. } => spec_const_arg_type(const_args, name),
        Ty::Array { len, .. } => if len == ArrayLen::GenericParam(name) {
            Some(Ty::Primitive(PrimitiveTy::Usize))
        } else {
            None
        },
        Ty::Pointer { elem, .. } => spec_comptime_generic_type(*elem, name),
        Ty::VolatilePointer { elem, .. } => spec_comptime_generic_type(*elem, name),
        _ => None,
    }
}

fn const_arg_type(args: &ConstArgList, name: SymbolId) -> (r: Option<Ty>)
    ensures
        r == spec_const_arg_type(*args, name),
    decreases args,
{
    match args {
        ConstArgList::Nil => None,
        ConstArgList::Cons(h, t) => {
            if let ConstGenericValue::GenericParam(n) = &h.value {
                if *n == name {
                    return Some((*h.ty).deep_clone());
                }
            }
            const_arg_type(t, name)
        },
    }
}

/// The type of the compile-time generic `name` as `ty` uses it.
pub fn comptime_generic_type_from_ty(ty: &Ty, name: SymbolId) -> (r: Option<Ty>)
    ensures
        r == spec_comptime_generic_type(*ty, name),
    decreases ty,
{
    match ty {
        Ty::Nominal { const_args, .. } => const_arg_type(const_args, name),
        Ty::Array { len, .. } => {
            if let ArrayLen::GenericParam(n) = len {
                if *n == name {
                    return Some(Ty::Primitive(PrimitiveTy::Usize));
                }
            }
            None
        },
        Ty::Pointer { elem, .. } => comptime_generic_type_from_ty(elem, name),
        Ty::VolatilePointer { elem, .. } => comptime_generic_type_from_ty(elem, name),
        _ => None,
    }
}

impl BodyChecker {
    /// `ty` with the type-alias instances it names, and those behind its
    /// pointers, expanded.
    pub open spec fn spec_normalize_aliases(&self, ty: Ty) -> Ty
        decreases ty,
    {
        match ty {
            Ty::Nominal { def_id, args, const_args } => match self.spec_expand_type_alias_instance(
                def_id,
                args,
                const_args,
            ) {
                Some(target) => target,
                None => ty,
            },
            Ty::Pointer { is_readonly, elem } => Ty::Pointer {
                is_readonly,
                elem: Box::new(self.spec_normalize_aliases(*elem)),
            },
            Ty::VolatilePointer { is_readonly, elem } => Ty::VolatilePointer {
                is_readonly,
                elem: Box::new(self.spec_normalize_aliases(*elem)),
            },
            _ => ty,
        }
    }

    /// Expands the type-alias instances `ty` names, through pointers.
    pub fn normalize_aliases_in_type(&self, ty: &Ty) -> (r: Ty)
        ensures
            r == self.spec_normalize_aliases(*ty),
        decreases ty,
    {
        match ty {
            Ty::Nominal { def_id, args, const_args } => match self.expand_type_alias_instance(
                *def_id,
                args,
                const_args,
            ) {
                Some(target) => target,
                None => ty.deep_clone(),
            },
            Ty::Pointer { is_readonly, elem } => Ty::Pointer {
                is_readonly: *is_readonly,
                elem: Box::new(self.normalize_aliases_in_type(elem)),
            },
            Ty::VolatilePointer { is_readonly, elem } => Ty::VolatilePointer {
                is_readonly: *is_readonly,
                elem: Box::new(self.normalize_aliases_in_type(elem)),
            },
            _ => ty.deep_clone(),
        }
    }

    /// The definition `def_id` of this module.
    pub fn global_def_id(&self, def_id: DefId) -> (r: GlobalDefId)
        ensures
            r == (GlobalDefId { module_id: self.module_id, def_id }),
    {
        GlobalDefId::new(self.module_id, def_id)
    }

    /// The target type of the `extend` block that declares a method.
    pub fn method_owner_type_by_global(&mut self, method_id: GlobalDefId) -> (r: Option<Ty>)
        requires
            old(self).lookup_cache_sound(),
            old(self).program_methods_distinct(),
        ensures
            final(self).same_outside_extension_caches(old(self)),
            final(self).extensions == old(self).extensions,
            final(self).callable_extension_methods_by_name == old(self).callable_extension_methods_by_name,
            final(self).lookup_cache_sound(),
            r == match old(self).spec_lookup_by_id(method_id) {
                Some(l) => Some(l.target_ty),
                None => None,
            },
    {
        match self.ensure_extension_method_lookup_for_id(method_id) {
            Some(lookup) => Some(lookup.target_ty),
            None => None,
        }
    }

    /// The target type of the `extend` block that declares a method of this
    /// module.
    pub fn method_owner_type(&mut self, def_id: DefId) -> (r: Option<Ty>)
        requires
            old(self).lookup_cache_sound(),
            old(self).program_methods_distinct(),
        ensures
            final(self).same_outside_extension_caches(old(self)),
            final(self).extensions == old(self).extensions,
            final(self).callable_extension_methods_by_name == old(self).callable_extension_methods_by_name,
            final(self).lookup_cache_sound(),
            r == match old(self).spec_lookup_by_id(GlobalDefId { module_id: old(self).module_id, def_id }) {
                Some(l) => Some(l.target_ty),
                None => None,
            },
    {
        let method_id = self.global_def_id(def_id);
        self.method_owner_type_by_global(method_id)
    }

    /// The owner type of a method of this module when it is a trait object.
    pub fn method_owner_trait_object_type(&mut self, def_id: DefId) -> (r: Option<Ty>)
        requires
            old(self).lookup_cache_sound(),
            old(self).program_methods_distinct(),
        ensures
            final(self).same_outside_extension_caches(old(self)),
            final(self).extensions == old(self).extensions,
            final(self).callable_extension_methods_by_name == old(self).callable_extension_methods_by_name,
            final(self).lookup_cache_sound(),
            r == match old(self).spec_lookup_by_id(GlobalDefId { module_id: old(self).module_id, def_id }) {
                Some(l) => if l.target_ty is TraitObjectPointee {
                    Some(l.target_ty)
                } else {
                    None
                },
                None => None,
            },
    {
        let owner = match self.method_owner_type(def_id) {
            Some(owner) => owner,
            None => {
                return None;
            },
        };
        if let Ty::TraitObjectPointee { .. } = owner {
            Some(owner)
        } else {
            None
        }
    }

    /// The `Self` type a method of this module sees through its receiver:
    /// the receiver type over the target of its `extend` block; for a trait
    /// method outside such a block, `Self` taken the receiver's way. Nothing
    /// for a definition that is no method or a method without a receiver
    /// (`first_receiver` is the receiver of the method's first parameter).
    pub fn method_self_type(&mut self, def_id: DefId, first_receiver: Option<ReceiverKind>) -> (r: Option<
        Ty,
    >)
        requires
            old(self).lookup_cache_sound(),
            old(self).program_methods_distinct(),
        ensures
            final(self).same_outside_extension_caches(old(self)),
            final(self).extensions == old(self).extensions,
            final(self).callable_extension_methods_by_name == old(self).callable_extension_methods_by_name,
            final(self).lookup_cache_sound(),
            r == match old(self).local_def_kinds.spec_get(def_id) {
                Some(DefKind::Method) | Some(DefKind::TraitMethod) => match old(self).spec_lookup_by_id(
                    GlobalDefId { module_id: old(self).module_id, def_id },
                ) {
                    Some(l) => match first_receiver {
                        Some(k) => Some(spec_receiver_ty_for_target(l.target_ty, k)),
                        None => None,
                    },
                    None => if old(self).local_def_kinds.spec_get(def_id) == Some(DefKind::TraitMethod) {
                        match first_receiver {
                            Some(ReceiverKind::Value) => Some(Ty::SelfParam),
                            Some(ReceiverKind::RefReadOnly) => Some(
                                Ty::Pointer { is_readonly: true, elem: Box::new(Ty::SelfParam) },
                            ),
                            Some(ReceiverKind::Ref) => Some(
                                Ty::Pointer { is_readonly: false, elem: Box::new(Ty::SelfParam) },
                            ),
                            None => None,
                        }
                    } else {
                        None
                    },
                },
                _ => None,
            },
    {
        let kind = match self.local_def_kinds.get(&def_id) {
            Some(kind) => *kind,
            None => {
                return None;
            },
        };
        if kind != DefKind::Method && kind != DefKind::TraitMethod {
            return None;
        }
        if let Some(self_nominal) = self.method_owner_type(def_id) {
            let receiver = match first_receiver {
                Some(receiver) => receiver,
                None => {
                    return None;
                },
            };
            let ghost mid = *self;
            if let Some(object_ty) = self.method_owner_trait_object_type(def_id) {
                proof {
                    assert(mid.spec_lookup_by_id(GlobalDefId { module_id: mid.module_id, def_id })
                        == old(self).spec_lookup_by_id(GlobalDefId { module_id: old(self).module_id, def_id }));
                }
                return Some(receiver_ty_for_target(&object_ty, receiver));
            }
            return Some(receiver_ty_for_target(&self_nominal, receiver));
        }
        if kind == DefKind::TraitMethod {
            let receiver = match first_receiver {
                Some(receiver) => receiver,
                None => {
                    return None;
                },
            };
            return Some(
                match receiver {
                    ReceiverKind::Value => Ty::SelfParam,
                    ReceiverKind::RefReadOnly => Ty::Pointer { is_readonly: true, elem: Box::new(Ty::SelfParam) },
                    ReceiverKind::Ref => Ty::Pointer { is_readonly: false, elem: Box::new(Ty::SelfParam) },
                },
            );
        }
        None
    }

    /// The type of the compile-time generic `name` that the current method
    /// of this module has from the target of its `extend` block.
    pub fn current_method_owner_comptime_generic_type(&mut self, current_def_id: GlobalDefId, name: SymbolId) -> (r:
        Option<Ty>)
        requires
            old(self).lookup_cache_sound(),
            old(self).program_methods_distinct(),
        ensures
            final(self).same_outside_extension_caches(old(self)),
            final(self).extensions == old(self).extensions,
            final(self).callable_extension_methods_by_name == old(self).callable_extension_methods_by_name,
            final(self).lookup_cache_sound(),
            r == if current_def_id.module_id != old(self).module_id || old(self).local_def_kinds.spec_get(
                current_def_id.def_id,
            ) != Some(DefKind::Method) {
                None
            } else {
                match old(self).spec_lookup_by_id(current_def_id) {
                    Some(l) => spec_comptime_generic_type(l.target_ty, name),
                    None => None,
                }
            },
    {
        if current_def_id.module_id != self.module_id {
            return None;
        }
        match self.local_def_kinds.get(&current_def_id.def_id) {
            Some(DefKind::Method) => {},
            _ => {
                return None;
            },
        }
        let owner = match self.method_owner_type(current_def_id.def_id) {
            Some(owner) => owner,
            None => {
                return None;
            },
        };
        comptime_generic_type_from_ty(&owner, name)
    }
}

} // verus!
