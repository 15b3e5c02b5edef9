//! The interned names of the primitive types and of the builtin traits:
//! one name for each of them, so that every one has a name.
use vstd::prelude::*;
use crate::ids::SymbolId;
use crate::ty::{BuiltinTrait, PrimitiveTy};

verus! {

/// The position of a primitive type among the primitive names, in the
/// order of the `PrimitiveTy` variants.
pub open spec fn spec_primitive_slot(p: PrimitiveTy) -> int {
    match p {
        PrimitiveTy::Bool => 0,
        PrimitiveTy::I8 => 1,
        PrimitiveTy::I16 => 2,
        PrimitiveTy::I32 => 3,
        PrimitiveTy::I64 => 4,
        PrimitiveTy::I128 => 5,
        PrimitiveTy::Isize => 6,
        PrimitiveTy::U8 => 7,
        PrimitiveTy::U16 => 8,
        PrimitiveTy::U32 => 9,
        PrimitiveTy::U64 => 10,
        PrimitiveTy::U128 => 11,
        PrimitiveTy::Usize => 12,
        PrimitiveTy::Char => 13,
        PrimitiveTy::Float32 => 14,
        PrimitiveTy::Float64 => 15,
        PrimitiveTy::Never => 16,
        PrimitiveTy::Void => 17,
    }
}

/// The position of a primitive type among the primitive names.
pub fn primitive_slot(p: PrimitiveTy) -> (r: usize)
    ensures
        r == spec_primitive_slot(p),
        r < 18,
{
    match p {
        PrimitiveTy::Bool => 0,
        PrimitiveTy::I8 => 1,
        PrimitiveTy::I16 => 2,
        PrimitiveTy::I32 => 3,
        PrimitiveTy::I64 => 4,
        PrimitiveTy::I128 => 5,
        PrimitiveTy::Isize => 6,
        PrimitiveTy::U8 => 7,
        PrimitiveTy::U16 => 8,
        PrimitiveTy::U32 => 9,
        PrimitiveTy::U64 => 10,
        PrimitiveTy::U128 => 11,
        PrimitiveTy::Usize => 12,
        PrimitiveTy::Char => 13,
        PrimitiveTy::Float32 => 14,
        PrimitiveTy::Float64 => 15,
        PrimitiveTy::Never => 16,
        PrimitiveTy::Void => 17,
    }
}

/// The position of a builtin trait among the builtin trait names, in the
/// order of the `BuiltinTrait` variants.
pub open spec fn spec_builtin_trait_slot(t: BuiltinTrait) -> int {
    match t {
        BuiltinTrait::Add => 0,
        BuiltinTrait::Sub => 1,
        BuiltinTrait::Mul => 2,
        BuiltinTrait::Div => 3,
        BuiltinTrait::Rem => 4,
        BuiltinTrait::BitAnd => 5,
        BuiltinTrait::BitOr => 6,
        BuiltinTrait::BitXor => 7,
        BuiltinTrait::Shl => 8,
        BuiltinTrait::Shr => 9,
        BuiltinTrait::Neg => 10,
        BuiltinTrait::Not => 11,
        BuiltinTrait::BitNot => 12,
        BuiltinTrait::Eq => 13,
        BuiltinTrait::Ord => 14,
        BuiltinTrait::Len => 15,
        BuiltinTrait::Slice => 16,
        BuiltinTrait::SliceConst => 17,
        BuiltinTrait::GetPtr => 18,
        BuiltinTrait::GetPtrConst => 19,
    }
}

/// The position of a builtin trait among the builtin trait names.
pub fn builtin_trait_slot(t: BuiltinTrait) -> (r: usize)
    ensures
        r == spec_builtin_trait_slot(t),
        r < 20,
{
    match t {
        BuiltinTrait::Add => 0,
        BuiltinTrait::Sub => 1,
        BuiltinTrait::Mul => 2,
        BuiltinTrait::Div => 3,
        BuiltinTrait::Rem => 4,
        BuiltinTrait::BitAnd => 5,
        BuiltinTrait::BitOr => 6,
        BuiltinTrait::BitXor => 7,
        BuiltinTrait::Shl => 8,
        BuiltinTrait::Shr => 9,
        BuiltinTrait::Neg => 10,
        BuiltinTrait::Not => 11,
        BuiltinTrait::BitNot => 12,
        BuiltinTrait::Eq => 13,
        BuiltinTrait::Ord => 14,
        BuiltinTrait::Len => 15,
        BuiltinTrait::Slice => 16,
        BuiltinTrait::SliceConst => 17,
        BuiltinTrait::GetPtr => 18,
        BuiltinTrait::GetPtrConst => 19,
    }
}

/// The name of each primitive type, at its slot.
pub struct PrimitiveNames {
    pub names: [SymbolId; 18],
}

impl PrimitiveNames {
    pub open spec fn spec_name(&self, p: PrimitiveTy) -> SymbolId {
        self.names@[spec_primitive_slot(p)]
    }

    /// The name of primitive type `p`.
    pub fn name(&self, p: PrimitiveTy) -> (r: SymbolId)
        ensures
            r == self.spec_name(p),
    {
        self.names[primitive_slot(p)]
    }
}

/// The name of each builtin trait, at its slot.
pub struct BuiltinTraitNames {
    pub names: [SymbolId; 20],
}

impl BuiltinTraitNames {
    pub open spec fn spec_name(&self, t: BuiltinTrait) -> SymbolId {
        self.names@[spec_builtin_trait_slot(t)]
    }

    /// The name of builtin trait `t`.
    pub fn name(&self, t: BuiltinTrait) -> (r: SymbolId)
        ensures
            r == self.spec_name(t),
    {
        self.names[builtin_trait_slot(t)]
    }
}

} // verus!
