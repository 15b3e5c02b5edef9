//! Whether an extension method's target accepts a receiver: directly, as
//! the receiver type its receiver kind asks for, as a read-only view of a
//! mutable slice, as a trait object the receiver's type implements, or
//! through the pointers the receiver goes through.
use vstd::prelude::*;
use crate::checker::BodyChecker;
use crate::ids::{GlobalDefId, ReceiverKind};
use crate::pattern_matching::{ConstMap, TyMap};
use crate::receivers::{spec_mutable_slice_as_readonly, spec_receiver_ty_for_target};
use crate::subst::{spec_subst, spec_subst_list, substitute_generics, substitute_list};
use crate::symbol_map::SymbolMap;
use crate::ty::{
    const_arg_list_eq,
    ty_eq,
    ty_list_eq,
    BindingList,
    ConstArgList,
    ConstGenericArg,
    DeepClone,
    TraitId,
    Ty,
    TyList,
};

verus! {

/// A trait obligation: `self_ty` implements the trait with these arguments.
pub struct TraitObligation {
    pub self_ty: Ty,
    pub trait_id: TraitId,
    pub trait_args: TyList,
    pub trait_const_args: ConstArgList,
}

/// The type of each compile-time argument with `s` substituted into it.
pub open spec fn spec_subst_const_tys(l: ConstArgList, s: TyMap) -> ConstArgList
    decreases l,
{
    match l {
        ConstArgList::Nil => ConstArgList::Nil,
        ConstArgList::Cons(h, t) => ConstArgList::Cons(
            ConstGenericArg { ty: Box::new(spec_subst(*h.ty, s, Map::empty(), None)), value: h.value },
            Box::new(spec_subst_const_tys(*t, s)),
        ),
    }
}

/// Some type of the list is a bare generic parameter once `s` is
/// substituted into it.
pub open spec fn spec_has_bare_generic(l: TyList, s: TyMap) -> bool
    decreases l,
{
    match l {
        TyList::Nil => false,
        TyList::Cons(h, t) => spec_subst(*h, s, Map::empty(), None) is GenericParam
            || spec_has_bare_generic(*t, s),
    }
}

/// The type a receiver stands for: what it points to, or itself.
pub open spec fn spec_receiver_self(receiver_ty: Ty) -> Ty {
    match receiver_ty {
        Ty::Pointer { elem, .. } => *elem,
        _ => receiver_ty,
    }
}

fn substitute_const_tys(l: &ConstArgList, s: &SymbolMap<Ty>) -> (r: ConstArgList)
    requires
        s.wf(),
    ensures
        r == spec_subst_const_tys(*l, s@),
    decreases l,
{
    match l {
        ConstArgList::Nil => ConstArgList::Nil,
        ConstArgList::Cons(h, t) => ConstArgList::Cons(
            ConstGenericArg { ty: Box::new(substitute_generics(&h.ty, s)), value: h.value },
            Box::new(substitute_const_tys(t, s)),
        ),
    }
}

fn has_bare_generic(l: &TyList, s: &SymbolMap<Ty>) -> (r: bool)
    requires
        s.wf(),
    ensures
        r == spec_has_bare_generic(*l, s@),
    decreases l,
{
    match l {
        TyList::Nil => false,
        TyList::Cons(h, t) => {
            if let Ty::GenericParam(_) = substitute_generics(h, s) {
                true
            } else {
                has_bare_generic(t, s)
            }
        },
    }
}

impl BodyChecker {
    /// The current context proves the obligation: the trait solver
    /// established it for this context.
    pub open spec fn spec_proves(&self, self_ty: Ty, trait_id: TraitId, args: TyList, const_args: ConstArgList) -> bool {
        exists|i: int|
            0 <= i < self.proven_trait_obligations@.len() && #[trigger] self.proven_trait_obligations@[i]
                == (TraitObligation { self_ty, trait_id, trait_args: args, trait_const_args: const_args })
    }

    /// Whether the current context proves that `self_ty` implements the
    /// trait with the given arguments.
    pub fn proves_trait_obligation(
        &self,
        self_ty: &Ty,
        trait_id: TraitId,
        args: &TyList,
        const_args: &ConstArgList,
    ) -> (r: bool)
        ensures
            r == self.spec_proves(*self_ty, trait_id, *args, *const_args),
    {
        let mut i: usize = 0;
        while i < self.proven_trait_obligations.len()
            invariant
                i <= self.proven_trait_obligations@.len(),
                forall|j: int|
                    0 <= j < i ==> #[trigger] self.proven_trait_obligations@[j] != (TraitObligation {
                        self_ty: *self_ty,
                        trait_id,
                        trait_args: *args,
                        trait_const_args: *const_args,
                    }),
            decreases self.proven_trait_obligations@.len() - i,
        {
            let o = &self.proven_trait_obligations[i];
            if o.trait_id == trait_id && ty_eq(&o.self_ty, self_ty) && ty_list_eq(&o.trait_args, args)
                && const_arg_list_eq(&o.trait_const_args, const_args) {
                return true;
            }
            i = i + 1;
        }
        false
    }

    /// A trait-object target accepts a receiver whose type implements the
    /// trait, with the target's trait arguments substituted (none of them
    /// left a bare generic parameter) and without associated type bindings.
    pub open spec fn spec_trait_object_target_matches(&self, target_ty: Ty, receiver_ty: Ty, s: TyMap) -> bool {
        match target_ty {
            Ty::TraitObjectPointee { trait_id, trait_args, trait_const_args, bindings } => {
                &&& bindings is Nil
                &&& !spec_has_bare_generic(trait_args, s)
                &&& self.spec_proves(
                    spec_receiver_self(receiver_ty),
                    trait_id,
                    spec_subst_list(trait_args, s, Map::empty(), None),
                    spec_subst_const_tys(trait_const_args, s),
                )
            },
            _ => false,
        }
    }

    /// Whether an extension method declared on a trait object accepts the
    /// receiver: the receiver's type (through one pointer) must implement
    /// the trait with the target's arguments.
    pub fn trait_object_extension_target_matches_receiver(
        &self,
        target_ty: &Ty,
        receiver_ty: &Ty,
        substitutions: &SymbolMap<Ty>,
    ) -> (r: bool)
        requires
            substitutions.wf(),
        ensures
            r == self.spec_trait_object_target_matches(*target_ty, *receiver_ty, substitutions@),
    {
        let (trait_id, trait_args, trait_const_args) = match target_ty {
            Ty::TraitObjectPointee { trait_id, trait_args, trait_const_args, bindings } => {
                if let BindingList::Cons(..) = bindings {
                    return false;
                }
                (*trait_id, trait_args, trait_const_args)
            },
            _ => {
                return false;
            },
        };
        let receiver_self_ty = match receiver_ty {
            Ty::Pointer { elem, .. } => (**elem).deep_clone(),
            _ => receiver_ty.deep_clone(),
        };
        if has_bare_generic(trait_args, substitutions) {
            return false;
        }
        let no_consts: SymbolMap<ConstGenericArg> = SymbolMap::new();
        let concrete_args = substitute_list(trait_args, substitutions, &no_consts, None);
        let concrete_const_args = substitute_const_tys(trait_const_args, substitutions);
        self.proves_trait_obligation(&receiver_self_ty, trait_id, &concrete_args, &concrete_const_args)
    }
}

impl BodyChecker {
    /// Matching an extension method's target against a receiver, with the
    /// substitutions found so far: the receiver type the method's receiver
    /// kind makes of the target, then the target itself, then (for a
    /// read-only receiver) the read-only view of a mutable slice, then a
    /// trait-object target the receiver implements, and otherwise the same
    /// again for what a pointer receiver points to. A failed attempt leaves
    /// the substitutions as they were.
    pub open spec fn spec_match_receiver(
        &self,
        target_ty: Ty,
        method_id: GlobalDefId,
        receiver_ty: Ty,
        s: TyMap,
        c: ConstMap,
    ) -> (bool, TyMap, ConstMap)
        decreases receiver_ty,
    {
        let kind = self.spec_signature_receiver(method_id);
        let candidate = match kind {
            Some(k) => spec_receiver_ty_for_target(target_ty, k),
            None => target_ty,
        };
        let as_receiver = self.spec_match(candidate, receiver_ty, s, c);
        let as_target = self.spec_match(target_ty, receiver_ty, s, c);
        let readonly = spec_mutable_slice_as_readonly(receiver_ty);
        if as_receiver.0 {
            as_receiver
        } else if as_target.0 {
            as_target
        } else if kind == Some(ReceiverKind::RefReadOnly) && readonly is Some && self.spec_match(
            candidate,
            readonly.unwrap(),
            s,
            c,
        ).0 {
            self.spec_match(candidate, readonly.unwrap(), s, c)
        } else if self.spec_trait_object_target_matches(target_ty, receiver_ty, s) {
            (true, s, c)
        } else {
            match receiver_ty {
                Ty::Pointer { elem, .. } => self.spec_match_receiver(target_ty, method_id, *elem, s, c),
                _ => (false, s, c),
            }
        }
    }

    /// Whether the extension method `method_id` with target `target_ty`
    /// accepts `receiver_ty`, extending the substitutions with what the
    /// successful match bound.
    pub fn match_extension_receiver_target(
        &mut self,
        target_ty: &Ty,
        method_id: GlobalDefId,
        receiver_ty: &Ty,
        s: &mut SymbolMap<Ty>,
        c: &mut SymbolMap<ConstGenericArg>,
    ) -> (r: bool)
        requires
            old(self).receiver_cache_sound(),
            old(s).wf(),
            old(c).wf(),
        ensures
            final(self).receiver_cache_sound(),
            *final(self) == (BodyChecker { method_receiver_kinds: final(self).method_receiver_kinds, ..*old(self) }),
            final(s).wf(),
            final(c).wf(),
            final(self).method_receiver_kinds.spec_get(method_id) is Some,
            old(self).method_receiver_kinds.spec_get(method_id) is Some ==> *final(self) == *old(self),
            final(self).spec_signature_receiver(method_id) == old(self).spec_signature_receiver(method_id),
            (r, final(s)@, final(c)@) == final(self).spec_match_receiver(
                *target_ty,
                method_id,
                *receiver_ty,
                old(s)@,
                old(c)@,
            ),
        decreases receiver_ty,
    {
        let candidate = self.receiver_candidate_target_ty(target_ty, method_id);
        if self.try_match_type_pattern_with_consts(&candidate, receiver_ty, s, c) {
            return true;
        }
        if self.try_match_type_pattern_with_consts(target_ty, receiver_ty, s, c) {
            return true;
        }
        let kind = self.method_receiver_kind(method_id);
        if let Some(ReceiverKind::RefReadOnly) = kind {
            if let Some(readonly) = self.mutable_slice_as_readonly(receiver_ty) {
                if self.try_match_type_pattern_with_consts(&candidate, &readonly, s, c) {
                    return true;
                }
            }
        }
        if self.trait_object_extension_target_matches_receiver(target_ty, receiver_ty, s) {
            return true;
        }
        match receiver_ty {
            Ty::Pointer { elem, .. } => self.match_extension_receiver_target(target_ty, method_id, elem, s, c),
            _ => false,
        }
    }
}

} // verus!
