//! Receiver types: how a method's receiver kind turns its target type into
//! the type of its receiver, and the nominal type that a receiver reaches
//! through pointers.
use vstd::prelude::*;
use crate::checker::BodyChecker;
use crate::ids::{GlobalDefId, ReceiverKind};
use crate::ty::{ConstArgList, DeepClone, Ty, TyList};

verus! {

/// The nominal type a receiver reaches through zero or more pointers.
pub struct ReceiverBase {
    pub def_id: GlobalDefId,
    pub args: TyList,
    pub const_args: ConstArgList,
    /// The nominal type was reached through at least one pointer.
    pub from_pointer: bool,
    /// One of those pointers was read-only.
    pub has_readonly_pointer: bool,
}

pub open spec fn spec_receiver_base_inner(ty: Ty, from_pointer: bool, has_readonly_pointer: bool) -> Option<
    ReceiverBase,
>
    decreases ty,
{
    match ty {
        Ty::Nominal { def_id, args, const_args } => Some(
            ReceiverBase { def_id, args, const_args, from_pointer, has_readonly_pointer },
        ),
        Ty::Pointer { is_readonly, elem } => spec_receiver_base_inner(
            *elem,
            true,
            has_readonly_pointer || is_readonly,
        ),
        _ => None,
    }
}

/// The nominal type `ty` reaches through pointers, if any.
pub open spec fn spec_receiver_base(ty: Ty) -> Option<ReceiverBase> {
    spec_receiver_base_inner(ty, false, false)
}

fn receiver_base_type_inner(ty: &Ty, from_pointer: bool, has_readonly_pointer: bool) -> (r: Option<
    ReceiverBase,
>)
    ensures
        r == spec_receiver_base_inner(*ty, from_pointer, has_readonly_pointer),
    decreases ty,
{
    match ty {
        Ty::Nominal { def_id, args, const_args } => Some(
            ReceiverBase {
                def_id: *def_id,
                args: args.deep_clone(),
                const_args: const_args.deep_clone(),
                from_pointer,
                has_readonly_pointer,
            },
        ),
        Ty::Pointer { is_readonly, elem } => receiver_base_type_inner(
            elem,
            true,
            has_readonly_pointer || *is_readonly,
        ),
        _ => None,
    }
}

/// The nominal type `ty` reaches through pointers, if any.
pub fn receiver_base_type(ty: &Ty) -> (r: Option<ReceiverBase>)
    ensures
        r == spec_receiver_base(*ty),
{
    receiver_base_type_inner(ty, false, false)
}

/// The receiver type of a method with receiver kind `receiver` on `target`.
pub open spec fn spec_receiver_ty_for_target(target: Ty, receiver: ReceiverKind) -> Ty {
    match receiver {
        ReceiverKind::Value => target,
        ReceiverKind::RefReadOnly | ReceiverKind::Ref => {
            let is_readonly = receiver is RefReadOnly;
            match target {
                Ty::TraitObject { trait_id, trait_args, trait_const_args, bindings, .. } =>
                    Ty::TraitObject { is_readonly, trait_id, trait_args, trait_const_args, bindings },
                Ty::TraitObjectPointee { trait_id, trait_args, trait_const_args, bindings } =>
                    Ty::TraitObject { is_readonly, trait_id, trait_args, trait_const_args, bindings },
                Ty::SlicePointee { elem } => Ty::Slice { is_readonly, elem },
                _ => Ty::Pointer { is_readonly, elem: Box::new(target) },
            }
        },
    }
}

/// The receiver type of a method with receiver kind `receiver` on `target`:
/// the target itself, a pointer to it, or the object or slice type that
/// refers to an unsized target.
pub fn receiver_ty_for_target(target: &Ty, receiver: ReceiverKind) -> (r: Ty)
    ensures
        r == spec_receiver_ty_for_target(*target, receiver),
{
    let is_readonly = match receiver {
        ReceiverKind::Value => {
            return target.deep_clone();
        },
        ReceiverKind::RefReadOnly => true,
        ReceiverKind::Ref => false,
    };
    match target {
        Ty::TraitObject { trait_id, trait_args, trait_const_args, bindings, .. } => Ty::TraitObject {
            is_readonly,
            trait_id: *trait_id,
            trait_args: trait_args.deep_clone(),
            trait_const_args: trait_const_args.deep_clone(),
            bindings: bindings.deep_clone(),
        },
        Ty::TraitObjectPointee { trait_id, trait_args, trait_const_args, bindings } =>
            Ty::TraitObject {
            is_readonly,
            trait_id: *trait_id,
            trait_args: trait_args.deep_clone(),
            trait_const_args: trait_const_args.deep_clone(),
            bindings: bindings.deep_clone(),
        },
        Ty::SlicePointee { elem } => Ty::Slice {
            is_readonly,
            elem: Box::new((**elem).deep_clone()),
        },
        _ => Ty::Pointer { is_readonly, elem: Box::new(target.deep_clone()) },
    }
}

/// A mutable slice seen as a read-only one.
pub open spec fn spec_mutable_slice_as_readonly(ty: Ty) -> Option<Ty> {
    match ty {
        Ty::Slice { is_readonly, elem } => if !is_readonly {
            Some(Ty::Slice { is_readonly: true, elem })
        } else {
            None
        },
        _ => None,
    }
}

/// The `Self` type that trait methods see for a receiver: none for trait
/// objects (they dispatch dynamically), the pointee of a pointer, the
/// unsized slice of a slice, or the receiver itself.
pub open spec fn spec_trait_receiver_self_ty(receiver_ty: Ty) -> Option<Ty> {
    match receiver_ty {
        Ty::TraitObject { .. } => None,
        Ty::Pointer { elem, .. } => if *elem is TraitObject {
            None
        } else {
            Some(*elem)
        },
        Ty::Slice { elem, .. } => Some(Ty::SlicePointee { elem }),
        _ => Some(receiver_ty),
    }
}

/// The return type a function value must have to meet an expected type: a
/// function pointer's return type, also behind a pointer.
pub open spec fn spec_associated_expected_return_ty(expected: Ty) -> Ty {
    match expected {
        Ty::Pointer { elem, .. } => match *elem {
            Ty::FunctionPointer { return_type, .. } => *return_type,
            _ => expected,
        },
        Ty::FunctionPointer { return_type, .. } => *return_type,
        _ => expected,
    }
}

impl BodyChecker {
    /// Whether the receiver is a trait object, once the type aliases it
    /// names are expanded.
    pub fn receiver_is_trait_object(&self, receiver_ty: &Ty) -> (r: bool)
        ensures
            r == (self.spec_normalize_aliases(*receiver_ty) is TraitObject),
    {
        let normalized = self.normalize_aliases_in_type(receiver_ty);
        matches!(normalized, Ty::TraitObject { .. })
    }

    /// The read-only slice type of a mutable slice receiver.
    pub fn mutable_slice_as_readonly(&self, receiver_ty: &Ty) -> (r: Option<Ty>)
        ensures
            r == spec_mutable_slice_as_readonly(*receiver_ty),
    {
        match receiver_ty {
            Ty::Slice { is_readonly, elem } => if !*is_readonly {
                Some(Ty::Slice { is_readonly: true, elem: Box::new((**elem).deep_clone()) })
            } else {
                None
            },
            _ => None,
        }
    }

    /// The `Self` type that statically dispatched trait methods see for a
    /// receiver.
    pub fn trait_receiver_self_ty(&self, receiver_ty: &Ty) -> (r: Option<Ty>)
        ensures
            r == spec_trait_receiver_self_ty(*receiver_ty),
    {
        match receiver_ty {
            Ty::TraitObject { .. } => None,
            Ty::Pointer { elem, .. } => if matches!(**elem, Ty::TraitObject { .. }) {
                None
            } else {
                Some((**elem).deep_clone())
            },
            Ty::Slice { elem, .. } => Some(Ty::SlicePointee { elem: Box::new((**elem).deep_clone()) }),
            _ => Some(receiver_ty.deep_clone()),
        }
    }

    /// The return type an associated function must have to meet `expected`.
    pub fn associated_expected_return_ty(&self, expected: &Ty) -> (r: Ty)
        ensures
            r == spec_associated_expected_return_ty(*expected),
    {
        match expected {
            Ty::Pointer { elem, .. } => match &**elem {
                Ty::FunctionPointer { return_type, .. } => (**return_type).deep_clone(),
                _ => expected.deep_clone(),
            },
            Ty::FunctionPointer { return_type, .. } => (**return_type).deep_clone(),
            _ => expected.deep_clone(),
        }
    }

    /// Whether an extension method's target and the receiver reach different
    /// nominal types (when both reach one).
    pub fn extension_receiver_base_mismatch(&self, target_ty: &Ty, receiver_base: Option<&ReceiverBase>) -> (r:
        bool)
        ensures
            r == match receiver_base {
                None => false,
                Some(rb) => match spec_receiver_base(*target_ty) {
                    None => false,
                    Some(tb) => tb.def_id != rb.def_id,
                },
            },
    {
        let receiver_base = match receiver_base {
            None => {
                return false;
            },
            Some(b) => b,
        };
        match receiver_base_type(target_ty) {
            None => false,
            Some(target_base) => !target_base.def_id.same(&receiver_base.def_id),
        }
    }
}


/// For a receiver taken by reference, the `Self` type that statically
/// dispatched trait methods see is the method's target again, unless the
/// target is a trait object (which dispatches dynamically).
pub proof fn lemma_reference_receiver_self_is_target(target: Ty, receiver: ReceiverKind)
    requires
        !(receiver is Value),
        !(target is TraitObject),
        !(target is TraitObjectPointee),
    ensures
        spec_trait_receiver_self_ty(spec_receiver_ty_for_target(target, receiver)) == Some(target),
{
}

/// A method on a nominal type that takes its receiver by reference reaches
/// that nominal type through one pointer, read-only exactly when the
/// receiver is.
pub proof fn lemma_reference_receiver_base(target: Ty, receiver: ReceiverKind)
    requires
        !(receiver is Value),
        target is Nominal,
    ensures
        ({
            let base = spec_receiver_base(spec_receiver_ty_for_target(target, receiver));
            &&& base is Some
            &&& base.unwrap().def_id == target->def_id
            &&& base.unwrap().from_pointer
            &&& base.unwrap().has_readonly_pointer == (receiver is RefReadOnly)
        }),
{
    let is_readonly = receiver is RefReadOnly;
    let pointer = Ty::Pointer { is_readonly, elem: Box::new(target) };
    assert(spec_receiver_ty_for_target(target, receiver) == pointer);
    assert(spec_receiver_base_inner(target, true, is_readonly) is Some);
    assert(spec_receiver_base_inner(pointer, false, false) == spec_receiver_base_inner(
        target,
        true,
        false || is_readonly,
    ));
}

} // verus!
