//! The result types of the builtin trait methods (operators, slicing,
//! length and raw pointers).
use vstd::prelude::*;
use crate::checker::BodyChecker;
use crate::ids::SymbolId;
use crate::ty::{BuiltinTrait, ConstArgList, PrimitiveTy, TraitId, Ty, TyList};

verus! {

impl BodyChecker {
    /// The projection `<self_ty as trait_id[trait_args]>::name`.
    pub open spec fn spec_builtin_projection(
        &self,
        self_ty: Ty,
        trait_id: BuiltinTrait,
        trait_args: TyList,
        name: SymbolId,
    ) -> Ty {
        Ty::Projection {
            self_ty: Box::new(self_ty),
            trait_id: TraitId::Builtin(trait_id),
            trait_args,
            trait_const_args: ConstArgList::Nil,
            name,
        }
    }

    /// The result of a builtin operator method: `bool` for negation,
    /// equality and ordering, the trait's `Output` projection, normalized,
    /// otherwise.
    pub open spec fn spec_builtin_trait_method_output(
        &self,
        self_ty: Ty,
        trait_id: BuiltinTrait,
        trait_args: TyList,
    ) -> Ty {
        match trait_id {
            BuiltinTrait::Not | BuiltinTrait::Eq | BuiltinTrait::Ord => Ty::Primitive(PrimitiveTy::Bool),
            _ => self.spec_normalize_projection(
                self.spec_builtin_projection(self_ty, trait_id, trait_args, self.output_assoc_name),
            ),
        }
    }

    /// The result type of a builtin operator method.
    pub fn builtin_trait_method_output(&self, self_ty: Ty, trait_id: BuiltinTrait, trait_args: TyList) -> (r:
        Ty)
        ensures
            r == self.spec_builtin_trait_method_output(self_ty, trait_id, trait_args),
    {
        match trait_id {
            BuiltinTrait::Not | BuiltinTrait::Eq | BuiltinTrait::Ord => Ty::Primitive(PrimitiveTy::Bool),
            _ => self.normalize_projection(
                &Ty::Projection {
                    self_ty: Box::new(self_ty),
                    trait_id: TraitId::Builtin(trait_id),
                    trait_args,
                    trait_const_args: ConstArgList::Nil,
                    name: self.output_assoc_name,
                },
            ),
        }
    }

    /// The result of a builtin place method: `usize` for the length, the
    /// normalized `Output` projection for slicing, a pointer to the
    /// normalized `Target` projection (read-only for the read-only trait)
    /// for raw pointers, and the error type for any other trait.
    pub open spec fn spec_builtin_trait_place_method_output(
        &self,
        self_ty: Ty,
        trait_id: BuiltinTrait,
        trait_args: TyList,
    ) -> Ty {
        match trait_id {
            BuiltinTrait::Len => Ty::Primitive(PrimitiveTy::Usize),
            BuiltinTrait::SliceConst | BuiltinTrait::Slice => self.spec_normalize_projection(
                self.spec_builtin_projection(self_ty, trait_id, trait_args, self.output_assoc_name),
            ),
            BuiltinTrait::GetPtrConst | BuiltinTrait::GetPtr => Ty::Pointer {
                is_readonly: trait_id is GetPtrConst,
                elem: Box::new(
                    self.spec_normalize_projection(
                        self.spec_builtin_projection(self_ty, trait_id, TyList::Nil, self.target_assoc_name),
                    ),
                ),
            },
            _ => Ty::Error,
        }
    }

    /// The result type of a builtin place method.
    pub fn builtin_trait_place_method_output(&self, self_ty: Ty, trait_id: BuiltinTrait, trait_args: TyList) -> (r:
        Ty)
        ensures
            r == self.spec_builtin_trait_place_method_output(self_ty, trait_id, trait_args),
    {
        match trait_id {
            BuiltinTrait::Len => Ty::Primitive(PrimitiveTy::Usize),
            BuiltinTrait::SliceConst | BuiltinTrait::Slice => self.normalize_projection(
                &Ty::Projection {
                    self_ty: Box::new(self_ty),
                    trait_id: TraitId::Builtin(trait_id),
                    trait_args,
                    trait_const_args: ConstArgList::Nil,
                    name: self.output_assoc_name,
                },
            ),
            BuiltinTrait::GetPtrConst | BuiltinTrait::GetPtr => Ty::Pointer {
                is_readonly: matches!(trait_id, BuiltinTrait::GetPtrConst),
                elem: Box::new(
                    self.normalize_projection(
                        &Ty::Projection {
                            self_ty: Box::new(self_ty),
                            trait_id: TraitId::Builtin(trait_id),
                            trait_args: TyList::Nil,
                            trait_const_args: ConstArgList::Nil,
                            name: self.target_assoc_name,
                        },
                    ),
                ),
            },
            _ => Ty::Error,
        }
    }

    /// The explicit type arguments of a method call, already lowered to
    /// types; none given counts as an empty list.
    pub fn lowered_method_type_args(&self, type_args: Option<&Vec<Ty>>) -> (r: Option<Vec<Ty>>)
        ensures
            r is Some,
            r.unwrap()@ == match type_args {
                Some(args) => args@,
                None => Seq::<Ty>::empty(),
            },
    {
        match type_args {
            Some(args) => {
                let mut lowered: Vec<Ty> = Vec::new();
                let mut i: usize = 0;
                while i < args.len()
                    invariant
                        i <= args@.len(),
                        lowered@ == args@.take(i as int),
                    decreases args@.len() - i,
                {
                    proof {
                        assert(args@.take(i + 1) =~= args@.take(i as int).push(args@[i as int]));
                    }
                    lowered.push(crate::ty::DeepClone::deep_clone(&args[i]));
                    i = i + 1;
                }
                proof {
                    assert(args@.take(args@.len() as int) =~= args@);
                }
                Some(lowered)
            },
            None => Some(Vec::new()),
        }
    }
}

} // verus!
