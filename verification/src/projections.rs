//! Normalizing an associated-type projection: the language's own
//! implementations of the operator traits for primitive types give their
//! `Output` directly; otherwise the program's implementations, as earlier
//! phases computed them, give the projection's type; a projection that
//! neither settles stays as it is.
use vstd::prelude::*;
use crate::checker::BodyChecker;
use crate::ty::{ty_eq, BuiltinTrait, ConstArgList, DeepClone, PrimitiveTy, TraitId, Ty, TyList};

verus! {

/// A projection of the program and the type its implementation gives it.
pub struct ProjectionFact {
    pub projection: Ty,
    pub normalized: Ty,
}

/// The integer primitive types.
pub open spec fn spec_is_integer(p: PrimitiveTy) -> bool {
    match p {
        PrimitiveTy::I8 | PrimitiveTy::I16 | PrimitiveTy::I32 | PrimitiveTy::I64 | PrimitiveTy::I128
        | PrimitiveTy::Isize | PrimitiveTy::U8 | PrimitiveTy::U16 | PrimitiveTy::U32 | PrimitiveTy::U64
        | PrimitiveTy::U128 | PrimitiveTy::Usize => true,
        _ => false,
    }
}

/// The numeric primitive types: the integers and the floats.
pub open spec fn spec_is_numeric(p: PrimitiveTy) -> bool {
    spec_is_integer(p) || p is Float32 || p is Float64
}

/// Whether `p` is an integer type.
pub fn is_integer(p: PrimitiveTy) -> (r: bool)
    ensures
        r == spec_is_integer(p),
{
    match p {
        PrimitiveTy::I8 | PrimitiveTy::I16 | PrimitiveTy::I32 | PrimitiveTy::I64 | PrimitiveTy::I128
        | PrimitiveTy::Isize | PrimitiveTy::U8 | PrimitiveTy::U16 | PrimitiveTy::U32 | PrimitiveTy::U64
        | PrimitiveTy::U128 | PrimitiveTy::Usize => true,
        _ => false,
    }
}

/// Whether `p` is a numeric type.
pub fn is_numeric(p: PrimitiveTy) -> (r: bool)
    ensures
        r == spec_is_numeric(p),
{
    is_integer(p) || matches!(p, PrimitiveTy::Float32) || matches!(p, PrimitiveTy::Float64)
}

/// The `Output` of the language's implementation of an operator trait for
/// a primitive type, where there is one: arithmetic on a numeric type with
/// the same type on the right, bitwise operations on an integer type with
/// the same type on the right, shifts of an integer type by any integer
/// type, negation of a numeric type and bitwise negation of an integer
/// type. Each gives the primitive type itself.
pub open spec fn spec_builtin_operator_output(self_ty: Ty, trait_id: BuiltinTrait, trait_args: TyList) -> Option<Ty> {
    match self_ty {
        Ty::Primitive(p) => {
            let args = trait_args.seq();
            let same_rhs = args.len() == 1 && args[0] == self_ty;
            let integer_rhs = args.len() == 1 && (args[0] matches Ty::Primitive(q) && spec_is_integer(q));
            let fits = match trait_id {
                BuiltinTrait::Add | BuiltinTrait::Sub | BuiltinTrait::Mul | BuiltinTrait::Div
                | BuiltinTrait::Rem => spec_is_numeric(p) && same_rhs,
                BuiltinTrait::BitAnd | BuiltinTrait::BitOr | BuiltinTrait::BitXor => spec_is_integer(p)
                    && same_rhs,
                BuiltinTrait::Shl | BuiltinTrait::Shr => spec_is_integer(p) && integer_rhs,
                BuiltinTrait::Neg => spec_is_numeric(p) && args.len() == 0,
                BuiltinTrait::BitNot => spec_is_integer(p) && args.len() == 0,
                _ => false,
            };
            if fits {
                Some(self_ty)
            } else {
                None
            }
        },
        _ => None,
    }
}

/// The type the first fact for `ty` gives, if any.
pub open spec fn spec_lookup_projection(facts: Seq<ProjectionFact>, ty: Ty) -> Option<Ty>
    decreases facts.len(),
{
    if facts.len() == 0 {
        None
    } else if facts[0].projection == ty {
        Some(facts[0].normalized)
    } else {
        spec_lookup_projection(facts.drop_first(), ty)
    }
}

impl BodyChecker {
    /// The `Output` projection of an operator trait that the language
    /// implements for a primitive type, settled.
    pub open spec fn spec_builtin_normalized(&self, ty: Ty) -> Option<Ty> {
        match ty {
            Ty::Projection { self_ty, trait_id: TraitId::Builtin(t), trait_args, trait_const_args, name } =>
                if name == self.output_assoc_name && trait_const_args is Nil {
                spec_builtin_operator_output(*self_ty, t, trait_args)
            } else {
                None
            },
            _ => None,
        }
    }

    /// `ty` normalized: an `Output` projection of an operator trait that the
    /// language implements for a primitive type is that type; a projection
    /// the program's facts settle is the type they give; anything else
    /// stays as it is.
    pub open spec fn spec_normalize_projection(&self, ty: Ty) -> Ty {
        match self.spec_builtin_normalized(ty) {
            Some(t) => t,
            None => match spec_lookup_projection(self.projection_facts@, ty) {
                Some(n) => n,
                None => ty,
            },
        }
    }

    /// Normalizes a projection.
    pub fn normalize_projection(&self, ty: &Ty) -> (r: Ty)
        ensures
            r == self.spec_normalize_projection(*ty),
    {
        let builtin = match ty {
            Ty::Projection { self_ty, trait_id: TraitId::Builtin(t), trait_args, trait_const_args, name } => {
                if *name == self.output_assoc_name && matches!(trait_const_args, ConstArgList::Nil) {
                    builtin_operator_output(self_ty, *t, trait_args)
                } else {
                    None
                }
            },
            _ => None,
        };
        if let Some(out) = builtin {
            return out;
        }
        let mut i: usize = 0;
        proof {
            assert(self.projection_facts@.skip(0) =~= self.projection_facts@);
        }
        while i < self.projection_facts.len()
            invariant
                i <= self.projection_facts@.len(),
                self.spec_builtin_normalized(*ty) is None,
                spec_lookup_projection(self.projection_facts@, *ty) == spec_lookup_projection(
                    self.projection_facts@.skip(i as int),
                    *ty,
                ),
            decreases self.projection_facts@.len() - i,
        {
            proof {
                assert(self.projection_facts@.skip(i as int).drop_first() =~= self.projection_facts@.skip(
                    i + 1,
                ));
            }
            if ty_eq(&self.projection_facts[i].projection, ty) {
                proof {
                    assert(self.projection_facts@.skip(i as int)[0] == self.projection_facts@[i as int]);
                }
                return self.projection_facts[i].normalized.deep_clone();
            }
            i = i + 1;
        }
        ty.deep_clone()
    }
}

/// A list's first element and whether it has exactly one.
proof fn lemma_one_arg(l: TyList)
    ensures
        l matches TyList::Cons(h, t) ==> l.seq().len() >= 1 && l.seq()[0] == *h && (l.seq().len() == 1
            <==> *t is Nil),
        l is Nil ==> l.seq().len() == 0,
{
    if let TyList::Cons(h, t) = l {
        assert(l.seq() == seq![*h] + t.seq());
        if let TyList::Cons(h2, t2) = *t {
            assert(t.seq() == seq![*h2] + t2.seq());
        }
    }
}

/// The `Output` of the language's implementation of an operator trait for
/// a primitive type.
pub fn builtin_operator_output(self_ty: &Ty, trait_id: BuiltinTrait, trait_args: &TyList) -> (r: Option<Ty>)
    ensures
        r == spec_builtin_operator_output(*self_ty, trait_id, *trait_args),
{
    let p = match self_ty {
        Ty::Primitive(p) => *p,
        _ => {
            return None;
        },
    };
    let (one, same_rhs, integer_rhs) = match trait_args {
        TyList::Cons(head, tail) => match **tail {
            TyList::Nil => (true, ty_eq(head, self_ty), match **head {
                Ty::Primitive(q) => is_integer(q),
                _ => false,
            }),
            _ => (false, false, false),
        },
        TyList::Nil => (false, false, false),
    };
    let none = matches!(trait_args, TyList::Nil);
    proof {
        lemma_one_arg(*trait_args);
    }
    let fits = match trait_id {
        BuiltinTrait::Add | BuiltinTrait::Sub | BuiltinTrait::Mul | BuiltinTrait::Div | BuiltinTrait::Rem => is_numeric(p)
            && one && same_rhs,
        BuiltinTrait::BitAnd | BuiltinTrait::BitOr | BuiltinTrait::BitXor => is_integer(p) && one && same_rhs,
        BuiltinTrait::Shl | BuiltinTrait::Shr => is_integer(p) && one && integer_rhs,
        BuiltinTrait::Neg => is_numeric(p) && none,
        BuiltinTrait::BitNot => is_integer(p) && none,
        _ => false,
    };
    if fits {
        Some(Ty::Primitive(p))
    } else {
        None
    }
}

} // verus!
