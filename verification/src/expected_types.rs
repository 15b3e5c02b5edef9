//! The types that an expected type passes on to the parts of an expression:
//! the target of an address-of, the array under an index, the pointer
//! under a dereference, and what a method's receiver expression must be.
use vstd::prelude::*;
use crate::checker::BodyChecker;
use crate::ids::ReceiverKind;
use crate::ty::{ArrayLen, BuiltinTrait, DeepClone, PrimitiveTy, Ty, ty_eq};

verus! {

/// The unary operator of an address-of expression: the read-only or the
/// mutable address-of; any other operator passes no expected type on.
#[derive(Clone, Copy, Debug, PartialEq, Eq, Structural)]
pub enum UnaryOpKind {
    RefReadOnly,
    Ref,
    Other,
}

/// Whether the builtin trait's operator yields `bool`.
pub fn builtin_trait_output_is_boolean(trait_id: BuiltinTrait) -> (r: bool)
    ensures
        r == (trait_id is Not || trait_id is Eq || trait_id is Ord),
{
    matches!(trait_id, BuiltinTrait::Not | BuiltinTrait::Eq | BuiltinTrait::Ord)
}

/// The type an address-of expression's operand is expected to have: the
/// pointee of a pointer of the matching mutability, or an array of unknown
/// length for a slice.
pub open spec fn spec_expected_ref_target(op: UnaryOpKind, expected: Option<Ty>) -> Option<Ty> {
    match expected {
        None => None,
        Some(e) => match (op, e) {
            (UnaryOpKind::RefReadOnly, Ty::Pointer { is_readonly: true, elem })
            | (UnaryOpKind::Ref, Ty::Pointer { is_readonly: false, elem }) => Some(*elem),
            (UnaryOpKind::RefReadOnly, Ty::Slice { elem, .. })
            | (UnaryOpKind::Ref, Ty::Slice { elem, .. }) => Some(Ty::Array { len: ArrayLen::Infer, elem }),
            _ => None,
        },
    }
}

/// A receiver expression already has the receiver type: the same type, or
/// a pointer to the same type that is at least as mutable.
pub open spec fn spec_receiver_already_matches(receiver_ty: Ty, actual_ty: Ty) -> bool {
    receiver_ty == actual_ty || match (receiver_ty, actual_ty) {
        (
            Ty::Pointer { is_readonly: expected_readonly, elem: expected_elem },
            Ty::Pointer { is_readonly: actual_readonly, elem: actual_elem },
        ) => (expected_readonly || !actual_readonly) && *expected_elem == *actual_elem,
        _ => false,
    }
}

impl BodyChecker {
    /// The trait object a receiver reaches, directly or through a pointer.
    pub fn dynamic_trait_object_receiver_ty(&self, receiver_ty: &Ty) -> (r: Option<Ty>)
        ensures
            r == match *receiver_ty {
                Ty::TraitObject { .. } => Some(*receiver_ty),
                Ty::Pointer { elem, .. } => if *elem is TraitObject {
                    Some(*elem)
                } else {
                    None
                },
                _ => None,
            },
    {
        match receiver_ty {
            Ty::TraitObject { .. } => Some(receiver_ty.deep_clone()),
            Ty::Pointer { elem, .. } => if matches!(**elem, Ty::TraitObject { .. }) {
                Some((**elem).deep_clone())
            } else {
                None
            },
            _ => None,
        }
    }

    /// Whether `ty` is an array of `char`.
    pub fn is_runtime_char_array_type(&self, ty: &Ty) -> (r: bool)
        ensures
            r == match *ty {
                Ty::Array { elem, .. } => *elem == Ty::Primitive(PrimitiveTy::Char),
                _ => false,
            },
    {
        match ty {
            Ty::Array { elem, .. } => matches!(**elem, Ty::Primitive(PrimitiveTy::Char)),
            _ => false,
        }
    }

    /// The type an indexed expression is expected to have when the element
    /// is expected to have `expected`: an array of unknown length.
    pub fn index_lhs_expected_from_index_expected(&self, expected: Option<Ty>) -> (r: Option<Ty>)
        ensures
            r == match expected {
                Some(e) => Some(Ty::Array { len: ArrayLen::Infer, elem: Box::new(e) }),
                None => None,
            },
    {
        match expected {
            Some(e) => Some(Ty::Array { len: ArrayLen::Infer, elem: Box::new(e) }),
            None => None,
        }
    }

    /// The type a dereferenced expression is expected to have when the
    /// result is expected to have `expected`: a read-only pointer to it.
    pub fn pointer_to_deref_expected(&self, expected: Option<Ty>) -> (r: Option<Ty>)
        ensures
            r == match expected {
                Some(e) => Some(Ty::Pointer { is_readonly: true, elem: Box::new(e) }),
                None => None,
            },
    {
        match expected {
            Some(e) => Some(Ty::Pointer { is_readonly: true, elem: Box::new(e) }),
            None => None,
        }
    }

    /// The type an address-of expression's operand is expected to have.
    pub fn expected_ref_target_from_expected(&self, op: UnaryOpKind, expected: Option<&Ty>) -> (r: Option<Ty>)
        ensures
            r == spec_expected_ref_target(
                op,
                match expected {
                    Some(e) => Some(*e),
                    None => None,
                },
            ),
    {
        let expected = match expected {
            Some(e) => e,
            None => {
                return None;
            },
        };
        match (op, expected) {
            (UnaryOpKind::RefReadOnly, Ty::Pointer { is_readonly: true, elem })
            | (UnaryOpKind::Ref, Ty::Pointer { is_readonly: false, elem }) => Some((**elem).deep_clone()),
            (UnaryOpKind::RefReadOnly, Ty::Slice { elem, .. }) | (UnaryOpKind::Ref, Ty::Slice { elem, .. }) =>
                Some(Ty::Array { len: ArrayLen::Infer, elem: Box::new((**elem).deep_clone()) }),
            _ => None,
        }
    }

    /// Whether a receiver expression already has the receiver type.
    pub fn receiver_expr_already_matches_receiver_ty(&self, receiver_ty: &Ty, actual_ty: &Ty) -> (r: bool)
        ensures
            r == spec_receiver_already_matches(*receiver_ty, *actual_ty),
    {
        if ty_eq(receiver_ty, actual_ty) {
            return true;
        }
        match (receiver_ty, actual_ty) {
            (
                Ty::Pointer { is_readonly: expected_readonly, elem: expected_elem },
                Ty::Pointer { is_readonly: actual_readonly, elem: actual_elem },
            ) => (*expected_readonly || !*actual_readonly) && ty_eq(expected_elem, actual_elem),
            _ => false,
        }
    }

    /// The type a method's receiver expression is expected to have: the
    /// receiver type for a by-value receiver or when the expression already
    /// has it, otherwise the pointee of a pointer receiver type.
    pub fn method_receiver_expr_expected_ty(&self, receiver_ty: &Ty, actual_ty: &Ty, receiver_kind: ReceiverKind) -> (r:
        Ty)
        ensures
            r == match receiver_kind {
                ReceiverKind::Value => *receiver_ty,
                _ => if spec_receiver_already_matches(*receiver_ty, *actual_ty) {
                    *receiver_ty
                } else {
                    match *receiver_ty {
                        Ty::Pointer { elem, .. } | Ty::VolatilePointer { elem, .. } => *elem,
                        _ => *receiver_ty,
                    }
                },
            },
    {
        match receiver_kind {
            ReceiverKind::Value => receiver_ty.deep_clone(),
            ReceiverKind::RefReadOnly | ReceiverKind::Ref => {
                if self.receiver_expr_already_matches_receiver_ty(receiver_ty, actual_ty) {
                    return receiver_ty.deep_clone();
                }
                match receiver_ty {
                    Ty::Pointer { elem, .. } | Ty::VolatilePointer { elem, .. } => (**elem).deep_clone(),
                    _ => receiver_ty.deep_clone(),
                }
            },
        }
    }
}

/// What an expected range type gives a range expression: the type itself,
/// its kind and its bound type.
pub struct ExpectedRangeParts {
    pub ty: Ty,
    pub kind: u8,
    pub bound: Option<Box<Ty>>,
}

impl BodyChecker {
    /// The expected type, when it is an array type.
    pub fn expected_array_type(&self, expected: Option<&Ty>) -> (r: Option<Ty>)
        ensures
            r == match expected {
                Some(t) => if *t is Array {
                    Some(*t)
                } else {
                    None
                },
                None => None,
            },
    {
        match expected {
            Some(t) => match t {
                Ty::Array { .. } => Some(t.deep_clone()),
                _ => None,
            },
            None => None,
        }
    }

    /// The parts of an expected range type.
    pub fn expected_range_parts(&self, expected: &Ty) -> (r: Option<ExpectedRangeParts>)
        ensures
            match *expected {
                Ty::Range { kind, bound } => r is Some && r.unwrap().ty == *expected && r.unwrap().kind == kind
                    && r.unwrap().bound == bound,
                _ => r is None,
            },
    {
        match expected {
            Ty::Range { kind, bound } => Some(
                ExpectedRangeParts {
                    ty: expected.deep_clone(),
                    kind: *kind,
                    bound: match bound {
                        Some(b) => Some(Box::new((**b).deep_clone())),
                        None => None,
                    },
                },
            ),
            _ => None,
        }
    }
}

} // verus!
