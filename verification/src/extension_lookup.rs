//! The table of extension methods a body can see, by method: those of this
//! module's `extend` blocks, then, when the visible methods are given up
//! front, those of the visible extensions that the module does not declare.
use vstd::prelude::*;
use crate::checker::{ExtensionMethodLookup, GenericParamFact};
use crate::extension_source::{
    BodyVisibleExtensionSource,
    VisibleExtensionMethod,
    VisibleExtensionTarget,
};
use crate::ids::{DefId, GlobalDefId, ModuleId, SymbolId};
use crate::table::Table;
use crate::ty::{DeepClone, Ty};

verus! {

/// An `extend` block of this module, as its signature gives it.
pub struct TraitImplSignature {
    /// The block implements a builtin trait.
    pub is_builtin: bool,
    pub target_ty: Ty,
    pub impl_id: u32,
    /// The block's generic type parameters.
    pub generics: Vec<SymbolId>,
    /// All the block's generic parameters, compile-time ones included.
    pub generic_params: Vec<GenericParamFact>,
    /// The methods the block declares.
    pub methods: Vec<DefId>,
}

/// The generic parameters of one of this module's definitions.
pub struct LocalDefGenerics {
    pub generics: Vec<SymbolId>,
    pub const_generics: Vec<SymbolId>,
}

/// `l` has these fields.
pub open spec fn lookup_is(
    l: ExtensionMethodLookup,
    target_ty: Ty,
    impl_id: u32,
    generics: Seq<SymbolId>,
    const_generics: Seq<SymbolId>,
) -> bool {
    &&& l.target_ty == target_ty
    &&& l.impl_id == impl_id
    &&& l.effective_generics@ == generics
    &&& l.effective_const_generics@ == const_generics
}

/// The names of the compile-time parameters among `params`, in order.
pub open spec fn spec_const_param_names(params: Seq<GenericParamFact>) -> Seq<SymbolId>
    decreases params.len(),
{
    if params.len() == 0 {
        Seq::empty()
    } else {
        let rest = spec_const_param_names(params.drop_last());
        if params.last().is_comptime {
            rest.push(params.last().name)
        } else {
            rest
        }
    }
}

/// The generics of a method of a block: the block's, then the method's own.
pub open spec fn spec_block_generics(
    imp: TraitImplSignature,
    defs: Table<DefId, LocalDefGenerics>,
    def_id: DefId,
) -> Seq<SymbolId> {
    imp.generics@ + match defs.spec_get(def_id) {
        Some(d) => d.generics@,
        None => Seq::empty(),
    }
}

/// The compile-time generics of a method of a block: the block's, then the
/// method's own.
pub open spec fn spec_block_const_generics(
    imp: TraitImplSignature,
    defs: Table<DefId, LocalDefGenerics>,
    def_id: DefId,
) -> Seq<SymbolId> {
    spec_const_param_names(imp.generic_params@) + match defs.spec_get(def_id) {
        Some(d) => d.const_generics@,
        None => Seq::empty(),
    }
}

/// The last block among `impls` that is not builtin and declares `def_id`.
pub open spec fn spec_declaring_block(impls: Seq<TraitImplSignature>, def_id: DefId) -> Option<
    TraitImplSignature,
>
    decreases impls.len(),
{
    if impls.len() == 0 {
        None
    } else if !impls.last().is_builtin && impls.last().methods@.contains(def_id) {
        Some(impls.last())
    } else {
        spec_declaring_block(impls.drop_last(), def_id)
    }
}

/// Every method of `methods` with `target_ty`, in order.
pub open spec fn spec_target_pairs(target_ty: Ty, methods: Seq<VisibleExtensionMethod>) -> Seq<
    (Ty, VisibleExtensionMethod),
>
    decreases methods.len(),
{
    if methods.len() == 0 {
        Seq::empty()
    } else {
        spec_target_pairs(target_ty, methods.drop_last()).push((target_ty, methods.last()))
    }
}

/// Every visible method with its target type, in the order of the targets.
pub open spec fn spec_all_pairs(targets: Seq<VisibleExtensionTarget>) -> Seq<(Ty, VisibleExtensionMethod)>
    decreases targets.len(),
{
    if targets.len() == 0 {
        Seq::empty()
    } else {
        spec_all_pairs(targets.drop_last()) + spec_target_pairs(
            targets.last().target_ty,
            targets.last().methods@,
        )
    }
}

/// The first of `pairs` whose method is `def_id`.
pub open spec fn spec_first_pair(pairs: Seq<(Ty, VisibleExtensionMethod)>, def_id: GlobalDefId) -> Option<
    (Ty, VisibleExtensionMethod),
>
    decreases pairs.len(),
{
    if pairs.len() == 0 {
        None
    } else {
        match spec_first_pair(pairs.drop_last(), def_id) {
            Some(p) => Some(p),
            None => if pairs.last().1.def_id == def_id {
                Some(pairs.last())
            } else {
                None
            },
        }
    }
}

/// What the visible methods tell of `def_id`, where they are given up front.
pub open spec fn spec_visible_lookup(extensions: BodyVisibleExtensionSource, def_id: GlobalDefId) -> Option<
    (Ty, VisibleExtensionMethod),
> {
    match extensions {
        BodyVisibleExtensionSource::Eager(m) => spec_first_pair(spec_all_pairs(m.targets@), def_id),
        BodyVisibleExtensionSource::Lazy { .. } => None,
    }
}

/// The lookup table holds for `d` what this module's blocks declare, else
/// what the visible methods give, else nothing.
pub open spec fn lookup_table_entry(
    table: Table<GlobalDefId, ExtensionMethodLookup>,
    module_id: ModuleId,
    defs: Table<DefId, LocalDefGenerics>,
    impls: Seq<TraitImplSignature>,
    visible: Option<(Ty, VisibleExtensionMethod)>,
    d: GlobalDefId,
) -> bool {
    let local = if d.module_id == module_id {
        spec_declaring_block(impls, d.def_id)
    } else {
        None
    };
    match local {
        Some(imp) => table.spec_get(d) is Some && lookup_is(
            table.spec_get(d).unwrap(),
            imp.target_ty,
            imp.impl_id,
            spec_block_generics(imp, defs, d.def_id),
            spec_block_const_generics(imp, defs, d.def_id),
        ),
        None => match visible {
            Some(p) => table.spec_get(d) is Some && lookup_is(
                table.spec_get(d).unwrap(),
                p.0,
                p.1.impl_id,
                p.1.effective_generics@,
                p.1.effective_const_generics@,
            ),
            None => table.spec_get(d) is None,
        },
    }
}

fn const_param_names(params: &Vec<GenericParamFact>) -> (r: Vec<SymbolId>)
    ensures
        r@ == spec_const_param_names(params@),
{
    let mut r: Vec<SymbolId> = Vec::new();
    let mut i: usize = 0;
    while i < params.len()
        invariant
            i <= params@.len(),
            r@ == spec_const_param_names(params@.take(i as int)),
        decreases params@.len() - i,
    {
        proof {
            assert(params@.take(i + 1).drop_last() =~= params@.take(i as int));
        }
        if params[i].is_comptime {
            r.push(params[i].name);
        }
        i = i + 1;
    }
    proof {
        assert(params@.take(params@.len() as int) =~= params@);
    }
    r
}

/// The lookup of a method declared by a block.
fn block_lookup(imp: &TraitImplSignature, defs: &Table<DefId, LocalDefGenerics>, def_id: DefId) -> (r:
    ExtensionMethodLookup)
    ensures
        lookup_is(
            r,
            imp.target_ty,
            imp.impl_id,
            spec_block_generics(*imp, *defs, def_id),
            spec_block_const_generics(*imp, *defs, def_id),
        ),
{
    let mut generics = imp.generics.clone();
    let mut const_generics = const_param_names(&imp.generic_params);
    proof {
        assert(generics@ =~= imp.generics@);
    }
    match defs.get(&def_id) {
        Some(d) => {
            let mut own = d.generics.clone();
            let mut own_const = d.const_generics.clone();
            proof {
                assert(own@ =~= d.generics@);
                assert(own_const@ =~= d.const_generics@);
            }
            generics.append(&mut own);
            const_generics.append(&mut own_const);
        },
        None => {
            proof {
                assert(generics@ + Seq::<SymbolId>::empty() =~= generics@);
                assert(const_generics@ + Seq::<SymbolId>::empty() =~= const_generics@);
            }
        },
    }
    ExtensionMethodLookup {
        target_ty: imp.target_ty.deep_clone(),
        impl_id: imp.impl_id,
        effective_generics: generics,
        effective_const_generics: const_generics,
    }
}

/// The extension methods a body can see, by method: each method of this
/// module's `extend` blocks that are not builtin (the last block that
/// declares a method counts), with the block's target and id and the
/// block's generics followed by the method's own; then, when the visible
/// methods are given up front rather than loaded lazily, each visible
/// method the module does not declare, as the first target listing it
/// gives it.
pub fn extension_method_lookup(
    module_id: ModuleId,
    defs: &Table<DefId, LocalDefGenerics>,
    trait_impls: &Vec<TraitImplSignature>,
    extensions: &BodyVisibleExtensionSource,
) -> (r: Table<GlobalDefId, ExtensionMethodLookup>)
    ensures
        forall|d: GlobalDefId| #[trigger]
            lookup_table_entry(r, module_id, *defs, trait_impls@, spec_visible_lookup(*extensions, d), d),
{
    let mut table: Table<GlobalDefId, ExtensionMethodLookup> = Table::new();
    let mut i: usize = 0;
    while i < trait_impls.len()
        invariant
            i <= trait_impls@.len(),
            forall|d: GlobalDefId| #[trigger]
                lookup_table_entry(table, module_id, *defs, trait_impls@.take(i as int), None, d),
        decreases trait_impls@.len() - i,
    {
        let imp = &trait_impls[i];
        let ghost before = trait_impls@.take(i as int);
        proof {
            assert(trait_impls@.take(i + 1).drop_last() =~= before);
            assert(trait_impls@.take(i + 1).last() == *imp);
        }
        if !imp.is_builtin {
            let mut j: usize = 0;
            while j < imp.methods.len()
                invariant
                    i < trait_impls@.len(),
                    *imp == trait_impls@[i as int],
                    before == trait_impls@.take(i as int),
                    !imp.is_builtin,
                    j <= imp.methods@.len(),
                    forall|d: GlobalDefId| #[trigger]
                        lookup_table_entry(table, module_id, *defs, before, None, d) || (d.module_id
                            == module_id && imp.methods@.take(j as int).contains(d.def_id)
                            && table.spec_get(d) is Some && lookup_is(
                            table.spec_get(d).unwrap(),
                            imp.target_ty,
                            imp.impl_id,
                            spec_block_generics(*imp, *defs, d.def_id),
                            spec_block_const_generics(*imp, *defs, d.def_id),
                        )),
                    forall|d: GlobalDefId|
                        d.module_id == module_id && #[trigger] imp.methods@.take(j as int).contains(d.def_id)
                            ==> table.spec_get(d) is Some && lookup_is(
                            table.spec_get(d).unwrap(),
                            imp.target_ty,
                            imp.impl_id,
                            spec_block_generics(*imp, *defs, d.def_id),
                            spec_block_const_generics(*imp, *defs, d.def_id),
                        ),
                decreases imp.methods@.len() - j,
            {
                let def_id = imp.methods[j];
                let key = GlobalDefId::new(module_id, def_id);
                let lookup = block_lookup(imp, defs, def_id);
                let ghost old_table = table;
                table.set(key, lookup);
                proof {
                    assert(imp.methods@.take(j + 1) =~= imp.methods@.take(j as int).push(def_id));
                    assert forall|d: GlobalDefId| #[trigger]
                        lookup_table_entry(table, module_id, *defs, before, None, d) || (d.module_id
                            == module_id && imp.methods@.take(j + 1).contains(d.def_id)
                            && table.spec_get(d) is Some && lookup_is(
                            table.spec_get(d).unwrap(),
                            imp.target_ty,
                            imp.impl_id,
                            spec_block_generics(*imp, *defs, d.def_id),
                            spec_block_const_generics(*imp, *defs, d.def_id),
                        )) by {
                        if d != key {
                            assert(table.spec_get(d) == old_table.spec_get(d));
                            if lookup_table_entry(old_table, module_id, *defs, before, None, d) {
                            } else {
                                assert(imp.methods@.take(j as int).contains(d.def_id));
                            }
                        } else {
                            assert(imp.methods@.take(j + 1)[j as int] == def_id);
                        }
                    }
                    assert forall|d: GlobalDefId|
                        d.module_id == module_id && #[trigger] imp.methods@.take(j + 1).contains(d.def_id)
                            implies table.spec_get(d) is Some && lookup_is(
                            table.spec_get(d).unwrap(),
                            imp.target_ty,
                            imp.impl_id,
                            spec_block_generics(*imp, *defs, d.def_id),
                            spec_block_const_generics(*imp, *defs, d.def_id),
                        ) by {
                        if d != key {
                            assert(table.spec_get(d) == old_table.spec_get(d));
                            let k = choose|k: int| 0 <= k < j + 1 && #[trigger] imp.methods@.take(j + 1)[k] == d.def_id;
                            if k == j {
                                assert(d == key);
                            }
                            assert(imp.methods@.take(j as int)[k] == d.def_id);
                            assert(imp.methods@.take(j as int).contains(d.def_id));
                        }
                    }
                }
                j = j + 1;
            }
            proof {
                assert(imp.methods@.take(imp.methods@.len() as int) =~= imp.methods@);
                assert forall|d: GlobalDefId| #[trigger]
                    lookup_table_entry(table, module_id, *defs, trait_impls@.take(i + 1), None, d) by {
                    if d.module_id == module_id && imp.methods@.contains(d.def_id) {
                    } else {
                        assert(lookup_table_entry(table, module_id, *defs, before, None, d));
                    }
                }
            }
        } else {
            proof {
                assert forall|d: GlobalDefId| #[trigger]
                    lookup_table_entry(table, module_id, *defs, trait_impls@.take(i + 1), None, d) by {
                    assert(lookup_table_entry(table, module_id, *defs, before, None, d));
                }
            }
        }
        i = i + 1;
    }
    proof {
        assert(trait_impls@.take(trait_impls@.len() as int) =~= trait_impls@);
    }
    let visible = match extensions {
        BodyVisibleExtensionSource::Eager(m) => m,
        BodyVisibleExtensionSource::Lazy { .. } => {
            return table;
        },
    };
    let mut t: usize = 0;
    while t < visible.targets.len()
        invariant
            *extensions == BodyVisibleExtensionSource::Eager(*visible),
            t <= visible.targets@.len(),
            forall|d: GlobalDefId| #[trigger]
                lookup_table_entry(
                    table,
                    module_id,
                    *defs,
                    trait_impls@,
                    spec_first_pair(spec_all_pairs(visible.targets@.take(t as int)), d),
                    d,
                ),
        decreases visible.targets@.len() - t,
    {
        let target = &visible.targets[t];
        let ghost done = spec_all_pairs(visible.targets@.take(t as int));
        proof {
            assert(visible.targets@.take(t + 1).drop_last() =~= visible.targets@.take(t as int));
            assert(visible.targets@.take(t + 1).last() == *target);
            assert(done + spec_target_pairs(target.target_ty, target.methods@.take(0)) =~= done);
        }
        let mut k: usize = 0;
        while k < target.methods.len()
            invariant
                k <= target.methods@.len(),
                forall|d: GlobalDefId| #[trigger]
                    lookup_table_entry(
                        table,
                        module_id,
                        *defs,
                        trait_impls@,
                        spec_first_pair(done + spec_target_pairs(target.target_ty, target.methods@.take(k as int)), d),
                        d,
                    ),
            decreases target.methods@.len() - k,
        {
            let method = &target.methods[k];
            let ghost pairs = done + spec_target_pairs(target.target_ty, target.methods@.take(k as int));
            let ghost next = done + spec_target_pairs(target.target_ty, target.methods@.take(k + 1));
            proof {
                assert(target.methods@.take(k + 1).drop_last() =~= target.methods@.take(k as int));
                assert(target.methods@.take(k + 1).last() == *method);
                assert(next =~= pairs.push((target.target_ty, *method)));
                assert(next.drop_last() =~= pairs);
            }
            if table.get(&method.def_id).is_none() {
                let lookup = ExtensionMethodLookup {
                    target_ty: target.target_ty.deep_clone(),
                    impl_id: method.impl_id,
                    effective_generics: method.effective_generics.clone(),
                    effective_const_generics: method.effective_const_generics.clone(),
                };
                proof {
                    assert(lookup.effective_generics@ =~= method.effective_generics@);
                    assert(lookup.effective_const_generics@ =~= method.effective_const_generics@);
                }
                let ghost old_table = table;
                table.set(method.def_id, lookup);
                proof {
                    assert forall|d: GlobalDefId| #[trigger]
                        lookup_table_entry(table, module_id, *defs, trait_impls@, spec_first_pair(next, d), d) by {
                        if d != method.def_id {
                            assert(table.spec_get(d) == old_table.spec_get(d));
                            assert(lookup_table_entry(old_table, module_id, *defs, trait_impls@, spec_first_pair(pairs, d), d));
                        } else {
                            assert(lookup_table_entry(old_table, module_id, *defs, trait_impls@, spec_first_pair(pairs, d), d));
                        }
                    }
                }
            } else {
                proof {
                    assert forall|d: GlobalDefId| #[trigger]
                        lookup_table_entry(table, module_id, *defs, trait_impls@, spec_first_pair(next, d), d) by {
                        assert(lookup_table_entry(table, module_id, *defs, trait_impls@, spec_first_pair(pairs, d), d));
                    }
                }
            }
            k = k + 1;
        }
        proof {
            assert(target.methods@.take(target.methods@.len() as int) =~= target.methods@);
            assert(spec_all_pairs(visible.targets@.take(t + 1)) == done + spec_target_pairs(
                target.target_ty,
                target.methods@,
            ));
        }
        t = t + 1;
    }
    proof {
        assert(visible.targets@.take(visible.targets@.len() as int) =~= visible.targets@);
    }
    table
}

} // verus!
