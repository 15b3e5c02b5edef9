//! The extension methods visible to a body, and the source that hands them
//! out: given up front, or loaded on first use and kept from then on.
use vstd::prelude::*;
use crate::ids::{GlobalDefId, SymbolId};
use crate::ty::{DeepClone, TraitId, Ty};

verus! {

/// An extension method as the visible-extension index lists it.
pub struct VisibleExtensionMethod {
    pub name: SymbolId,
    pub def_id: GlobalDefId,
    pub impl_id: u32,
    pub effective_generics: Vec<SymbolId>,
    pub effective_const_generics: Vec<SymbolId>,
    pub trait_id: Option<TraitId>,
    /// The method only witnesses a trait implementation and is not callable
    /// by name.
    pub is_trait_witness: bool,
}

/// Two visible methods that agree in every field.
pub open spec fn same_visible_method(a: VisibleExtensionMethod, b: VisibleExtensionMethod) -> bool {
    &&& a.name == b.name
    &&& a.def_id == b.def_id
    &&& a.impl_id == b.impl_id
    &&& a.effective_generics@ == b.effective_generics@
    &&& a.effective_const_generics@ == b.effective_const_generics@
    &&& a.trait_id == b.trait_id
    &&& a.is_trait_witness == b.is_trait_witness
}

impl VisibleExtensionMethod {
    /// A copy that agrees in every field.
    pub fn duplicate(&self) -> (r: VisibleExtensionMethod)
        ensures
            same_visible_method(r, *self),
    {
        VisibleExtensionMethod {
            name: self.name,
            def_id: self.def_id,
            impl_id: self.impl_id,
            effective_generics: self.effective_generics.clone(),
            effective_const_generics: self.effective_const_generics.clone(),
            trait_id: self.trait_id,
            is_trait_witness: self.is_trait_witness,
        }
    }
}

/// The extension methods declared for one target type.
pub struct VisibleExtensionTarget {
    pub target_ty: Ty,
    pub methods: Vec<VisibleExtensionMethod>,
}

/// The extension methods visible to a body, grouped by target type.
pub struct VisibleExtensionMethods {
    pub targets: Vec<VisibleExtensionTarget>,
}

/// The methods named `name` among `methods`, each with `target_ty`, in order.
pub open spec fn spec_target_methods_named(
    target_ty: Ty,
    methods: Seq<VisibleExtensionMethod>,
    name: SymbolId,
) -> Seq<(Ty, VisibleExtensionMethod)>
    decreases methods.len(),
{
    if methods.len() == 0 {
        Seq::empty()
    } else {
        let rest = spec_target_methods_named(target_ty, methods.drop_last(), name);
        if methods.last().name == name {
            rest.push((target_ty, methods.last()))
        } else {
            rest
        }
    }
}

/// The methods named `name` of every target, with their target types, in
/// the order of the targets and of their methods.
pub open spec fn spec_methods_named(targets: Seq<VisibleExtensionTarget>, name: SymbolId) -> Seq<
    (Ty, VisibleExtensionMethod),
>
    decreases targets.len(),
{
    if targets.len() == 0 {
        Seq::empty()
    } else {
        spec_methods_named(targets.drop_last(), name) + spec_target_methods_named(
            targets.last().target_ty,
            targets.last().methods@,
            name,
        )
    }
}

/// Two lists of (target, method) pairs that agree entry by entry.
pub open spec fn same_named_methods(
    a: Seq<(Ty, VisibleExtensionMethod)>,
    b: Seq<(Ty, VisibleExtensionMethod)>,
) -> bool {
    &&& a.len() == b.len()
    &&& forall|i: int|
        0 <= i < a.len() ==> #[trigger] a[i].0 == b[i].0 && same_visible_method(a[i].1, b[i].1)
}

impl VisibleExtensionMethods {
    /// Every method named `name`, with its target type.
    pub fn all_methods_named(&self, name: SymbolId) -> (r: Vec<(Ty, VisibleExtensionMethod)>)
        ensures
            same_named_methods(r@, spec_methods_named(self.targets@, name)),
    {
        let mut r: Vec<(Ty, VisibleExtensionMethod)> = Vec::new();
        let mut t: usize = 0;
        while t < self.targets.len()
            invariant
                t <= self.targets@.len(),
                same_named_methods(r@, spec_methods_named(self.targets@.take(t as int), name)),
            decreases self.targets@.len() - t,
        {
            let target = &self.targets[t];
            let ghost before = r@;
            proof {
                assert(self.targets@.take(t + 1).drop_last() =~= self.targets@.take(t as int));
            }
            let mut i: usize = 0;
            while i < target.methods.len()
                invariant
                    i <= target.methods@.len(),
                    same_named_methods(
                        r@,
                        spec_methods_named(self.targets@.take(t as int), name)
                            + spec_target_methods_named(
                            target.target_ty,
                            target.methods@.take(i as int),
                            name,
                        ),
                    ),
                decreases target.methods@.len() - i,
            {
                proof {
                    assert(target.methods@.take(i + 1).drop_last() =~= target.methods@.take(
                        i as int,
                    ));
                }
                let method = &target.methods[i];
                if method.name == name {
                    let ty = target.target_ty.deep_clone();
                    let m = method.duplicate();
                    r.push((ty, m));
                }
                i = i + 1;
            }
            proof {
                assert(target.methods@.take(target.methods@.len() as int) =~= target.methods@);
            }
            t = t + 1;
        }
        proof {
            assert(self.targets@.take(self.targets@.len() as int) =~= self.targets@);
        }
        r
    }
}

/// Where a body's visible extension methods come from: given up front, or
/// loaded on first use.
pub enum BodyVisibleExtensionSource {
    Eager(VisibleExtensionMethods),
    /// Loaded by the caller's loader the first time they are needed; holds
    /// them from then on.
    Lazy { loaded: Option<VisibleExtensionMethods> },
}

impl BodyVisibleExtensionSource {
    /// The methods the source holds now, if it holds any.
    pub open spec fn spec_loaded(&self) -> Option<VisibleExtensionMethods> {
        match self {
            BodyVisibleExtensionSource::Eager(methods) => Some(*methods),
            BodyVisibleExtensionSource::Lazy { loaded } => *loaded,
        }
    }

    /// Runs `f` on the visible methods, calling `load` first when the
    /// source is lazy and has not loaded them yet.
    pub fn with_methods<T, L, F>(&mut self, load: &L, f: F) -> (r: T) where
        L: Fn() -> VisibleExtensionMethods,
        F: FnOnce(&VisibleExtensionMethods) -> T,

        requires
            load.requires(()),
            forall|m: VisibleExtensionMethods| #[trigger] f.requires((&m,)),
        ensures
            final(self).spec_loaded() is Some,
            f.ensures((&final(self).spec_loaded().unwrap(),), r),
            old(self).spec_loaded() is Some ==> *final(self) == *old(self),
            old(self).spec_loaded() is None ==> *final(self) is Lazy && load.ensures(
                (),
                final(self).spec_loaded().unwrap(),
            ),
    {
        match self {
            BodyVisibleExtensionSource::Eager(methods) => f(methods),
            BodyVisibleExtensionSource::Lazy { loaded } => {
                if loaded.is_none() {
                    *loaded = Some(load());
                }
                f(loaded.as_ref().unwrap())
            },
        }
    }
}

} // verus!
