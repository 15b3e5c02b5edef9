use nia_body_check::names::{BuiltinTraitNames, PrimitiveNames};
use nia_body_check::checker::{BodyChecker, ExtensionMethodLookup, GenericParamFact};
use nia_body_check::extension_lookup::{extension_method_lookup, LocalDefGenerics, TraitImplSignature};
use nia_body_check::receiver_matching::TraitObligation;
use nia_body_check::symbol_map::SymbolMap;
use nia_body_check::extension_cache::ProgramExtensionMethod;
use nia_body_check::extension_source::{
    BodyVisibleExtensionSource, VisibleExtensionMethod, VisibleExtensionMethods, VisibleExtensionTarget,
};
use nia_body_check::ids::{GlobalDefId, ReceiverKind};
use nia_body_check::table::Table;
use nia_body_check::owners::{comptime_generic_type_from_ty, DefKind};
use nia_body_check::ty::{
    ty_eq, ArrayLen, BuiltinTrait, ConstArgList, ConstGenericArg, ConstGenericValue, PrimitiveTy, TraitId, Ty, TyList,
};
use std::cell::Cell;

const NAME: u32 = 40;
const OTHER: u32 = 41;
const T: u32 = 10;

fn def(def_id: u32) -> GlobalDefId {
    GlobalDefId::new(0, def_id)
}

fn nominal(def_id: u32) -> Ty {
    Ty::Nominal { def_id: def(def_id), args: TyList::Nil, const_args: ConstArgList::Nil }
}

fn ptr(elem: Ty) -> Ty {
    Ty::Pointer { is_readonly: true, elem: Box::new(elem) }
}

fn visible(name: u32, def_id: u32, is_trait_witness: bool) -> VisibleExtensionMethod {
    VisibleExtensionMethod {
        name,
        def_id: def(def_id),
        impl_id: def_id + 100,
        effective_generics: vec![T],
        effective_const_generics: vec![],
        trait_id: None,
        is_trait_witness,
    }
}

fn program(name: u32, def_id: GlobalDefId, trait_id: Option<TraitId>, is_public: bool, target: Ty) -> ProgramExtensionMethod {
    ProgramExtensionMethod {
        name,
        def_id,
        impl_id: def_id.def_id + 200,
        trait_id,
        is_public,
        target_ty: target,
        effective_generics: vec![],
        effective_const_generics: vec![T],
    }
}

fn visible_methods() -> VisibleExtensionMethods {
    VisibleExtensionMethods {
        targets: vec![
            VisibleExtensionTarget {
                target_ty: nominal(1),
                methods: vec![visible(NAME, 10, false), visible(OTHER, 11, false), visible(NAME, 12, true)],
            },
            VisibleExtensionTarget {
                target_ty: Ty::GenericParam(T),
                methods: vec![visible(NAME, 13, false), visible(NAME, 10, false)],
            },
        ],
    }
}

fn checker(extensions: BodyVisibleExtensionSource, programs: Vec<ProgramExtensionMethod>) -> BodyChecker {
    BodyChecker {
        module_id: 0,
        const_expr_values: vec![],
        layout_values: vec![],
        local_def_names: Table::new(),
        program_def_names: None,
        primitive_names: PrimitiveNames { names: [1000, 1001, 1002, 1003, 1004, 1005, 1006, 800, 1008, 1009, 1010, 1011, 1012, 1013, 1014, 1015, 1016, 1017] },
        builtin_trait_names: BuiltinTraitNames { names: [900, 1101, 1102, 1103, 1104, 1105, 1106, 1107, 1108, 1109, 1110, 1111, 1112, 1113, 1114, 1115, 1116, 1117, 1118, 1119] },
        source_path: 0,
        module_source_paths: None,
        current_def_id: None,
        provider_demands: vec![],
        provider_demands_by_function: vec![],
        method_signature_receivers: Table::new(),
        method_receiver_kinds: Table::new(),
        program_traits_by_method_name: Table::new(),
        traits_by_method_name: Table::new(),
        extension_methods: Table {
            entries: vec![(
                def(21),
                ExtensionMethodLookup {
                    target_ty: nominal(2),
                    impl_id: 7,
                    effective_generics: vec![T],
                    effective_const_generics: vec![],
                },
            )],
        },
        nominal_generics: Table::new(),
        def_generic_params: Table::new(),
        type_aliases: Table::new(),
        function_param_types: Table::new(),
        output_assoc_name: 90,
        target_assoc_name: 91,
        extensions,
        program_extension_methods: programs,
        extension_normalization_modules: Some(vec![0, 5]),
        extension_method_lookup_cache: Table::new(),
        callable_extension_methods_by_name: Table::new(),
        local_def_kinds: Table::new(),
        proven_trait_obligations: vec![],
        local_types: Table::new(),
        current_return: Ty::Primitive(PrimitiveTy::Void),
        enum_defs: Table::new(),
        projection_facts: vec![],
        expr_node_types: Table::new(),
        diagnostics: vec![],
    }
}

fn all_programs() -> Vec<ProgramExtensionMethod> {
    vec![
        program(NAME, def(20), None, true, nominal(3)),
        program(NAME, def(21), None, false, nominal(9)),
        program(NAME, def(13), None, true, nominal(9)),
        program(NAME, GlobalDefId::new(6, 30), None, false, nominal(9)),
        program(NAME, GlobalDefId::new(5, 31), None, true, ptr(nominal(4))),
        program(NAME, GlobalDefId::new(9, 32), None, true, nominal(9)),
        program(OTHER, def(22), None, true, nominal(6)),
        program(NAME, def(23), Some(TraitId::Builtin(BuiltinTrait::Add)), true, nominal(9)),
    ]
}

#[test]
fn methods_named_come_in_target_order() {
    let named = visible_methods().all_methods_named(NAME);
    let defs: Vec<u32> = named.iter().map(|(_, m)| m.def_id.def_id).collect();
    assert_eq!(defs, vec![10, 12, 13, 10]);
    assert!(ty_eq(&named[0].0, &nominal(1)));
    assert!(ty_eq(&named[2].0, &Ty::GenericParam(T)));
    assert!(named[1].1.is_trait_witness);
    assert!(visible_methods().all_methods_named(99).is_empty());
}

#[test]
fn eager_source_hands_out_its_methods() {
    let mut source = BodyVisibleExtensionSource::Eager(visible_methods());
    let load = || -> VisibleExtensionMethods { panic!("an eager source does not load") };
    let count = source.with_methods(&load, |m: &VisibleExtensionMethods| m.targets.len());
    assert_eq!(count, 2);
}

#[test]
fn lazy_source_loads_once() {
    let calls = Cell::new(0u32);
    let load = || {
        calls.set(calls.get() + 1);
        visible_methods()
    };
    let mut source = BodyVisibleExtensionSource::Lazy { loaded: None };
    let first = source.with_methods(&load, |m: &VisibleExtensionMethods| m.targets[1].methods.len());
    let second = source.with_methods(&load, |m: &VisibleExtensionMethods| m.targets[0].methods.len());
    assert_eq!((first, second), (2, 3));
    assert_eq!(calls.get(), 1);
    assert!(matches!(source, BodyVisibleExtensionSource::Lazy { loaded: Some(_) }));
}

#[test]
fn program_lookups_need_visibility_and_a_normalized_module() {
    let c = checker(BodyVisibleExtensionSource::Lazy { loaded: None }, all_programs());
    let local = c.program_extension_method_lookup(&c.program_extension_methods[0]).unwrap();
    assert!(ty_eq(&local.target_ty, &nominal(3)));
    assert_eq!(local.impl_id, 220);
    assert_eq!(local.effective_const_generics, vec![T]);
    assert!(c.program_extension_method_lookup(&c.program_extension_methods[3]).is_none());
    let public = c.program_extension_method_lookup(&c.program_extension_methods[4]).unwrap();
    assert!(ty_eq(&public.target_ty, &ptr(nominal(4))));
    assert!(c.program_extension_method_lookup(&c.program_extension_methods[5]).is_none());
    let mut unnormalized = checker(BodyVisibleExtensionSource::Lazy { loaded: None }, all_programs());
    unnormalized.extension_normalization_modules = None;
    assert!(unnormalized.program_extension_method_lookup(&unnormalized.program_extension_methods[0]).is_none());
}

#[test]
fn lookups_by_id_prefer_the_cache_then_the_body_then_the_program() {
    let mut c = checker(BodyVisibleExtensionSource::Lazy { loaded: None }, all_programs());
    assert_eq!(c.extension_method_lookup_for_id(def(21)).unwrap().impl_id, 7);
    assert!(c.extension_method_lookup_for_id(def(20)).is_none());
    let body = c.ensure_extension_method_lookup_for_id(def(21)).unwrap();
    assert_eq!(body.impl_id, 7);
    let fetched = c.ensure_extension_method_lookup_for_id(def(20)).unwrap();
    assert_eq!(fetched.impl_id, 220);
    assert_eq!(c.extension_method_lookup_for_id(def(20)).unwrap().impl_id, 220);
    assert!(c.ensure_extension_method_lookup_for_id(def(99)).is_none());
    assert!(c.ensure_extension_method_lookup_for_id(GlobalDefId::new(6, 30)).is_none());
    assert!(c.extension_method_lookup_cache.get(&def(21)).is_none());
}

#[test]
fn callable_methods_merge_dedup_and_index() {
    let calls = Cell::new(0u32);
    let load = || {
        calls.set(calls.get() + 1);
        visible_methods()
    };
    let mut c = checker(BodyVisibleExtensionSource::Lazy { loaded: None }, all_programs());
    c.ensure_callable_extension_methods_named(&load, NAME);
    assert_eq!(calls.get(), 1);
    let entry = c.callable_extension_methods_by_name.get(&NAME).unwrap();
    let defs: Vec<GlobalDefId> = entry.methods.iter().map(|m| m.def_id).collect();
    assert_eq!(defs, vec![def(10), def(13), def(20), def(21), GlobalDefId::new(5, 31)]);
    assert!(ty_eq(&entry.methods[0].target_ty, &nominal(1)));
    assert!(ty_eq(&entry.methods[2].target_ty, &nominal(3)));
    assert_eq!(entry.methods[2].impl_id, 220);
    assert!(ty_eq(&entry.methods[3].target_ty, &nominal(2)));
    assert_eq!(entry.methods[3].impl_id, 221);
    assert_eq!(entry.methods[3].effective_generics, vec![T]);
    assert!(ty_eq(&entry.methods[4].target_ty, &ptr(nominal(4))));
    assert_eq!(entry.unbased_methods, vec![1]);
    assert_eq!(entry.methods_by_base.get(&def(1)), Some(&vec![0]));
    assert_eq!(entry.methods_by_base.get(&def(3)), Some(&vec![2]));
    assert_eq!(entry.methods_by_base.get(&def(2)), Some(&vec![3]));
    assert_eq!(entry.methods_by_base.get(&def(4)), Some(&vec![4]));
    assert_eq!(entry.methods_by_base.get(&def(9)), None);
    assert_eq!(c.extension_method_lookup_cache.get(&def(20)).unwrap().impl_id, 220);
    assert!(c.extension_method_lookup_cache.get(&GlobalDefId::new(5, 31)).is_some());
    assert!(c.extension_method_lookup_cache.get(&def(21)).is_none());
}

#[test]
fn callable_methods_are_computed_once_per_name() {
    let calls = Cell::new(0u32);
    let load = || {
        calls.set(calls.get() + 1);
        visible_methods()
    };
    let mut c = checker(BodyVisibleExtensionSource::Lazy { loaded: None }, all_programs());
    c.ensure_callable_extension_methods_named(&load, NAME);
    let entries = c.callable_extension_methods_by_name.entries.len();
    c.ensure_callable_extension_methods_named(&load, NAME);
    assert_eq!(c.callable_extension_methods_by_name.entries.len(), entries);
    c.ensure_callable_extension_methods_named(&load, OTHER);
    assert_eq!(calls.get(), 1);
    let other = c.callable_extension_methods_by_name.get(&OTHER).unwrap();
    let defs: Vec<GlobalDefId> = other.methods.iter().map(|m| m.def_id).collect();
    assert_eq!(defs, vec![def(11), def(22)]);
    assert_eq!(other.methods_by_base.get(&def(1)), Some(&vec![0]));
    assert_eq!(other.methods_by_base.get(&def(6)), Some(&vec![1]));
}

fn slice(is_readonly: bool, elem: Ty) -> Ty {
    Ty::Slice { is_readonly, elem: Box::new(elem) }
}

fn trait_object_target(trait_def: u32, args: Vec<Ty>) -> Ty {
    let mut list = TyList::Nil;
    for a in args.into_iter().rev() {
        list = TyList::Cons(Box::new(a), Box::new(list));
    }
    Ty::TraitObjectPointee {
        trait_id: TraitId::Source(def(trait_def)),
        trait_args: list,
        trait_const_args: ConstArgList::Nil,
        bindings: nia_body_check::ty::BindingList::Nil,
    }
}

fn one(t: Ty) -> TyList {
    TyList::Cons(Box::new(t), Box::new(TyList::Nil))
}

#[test]
fn trait_obligations_are_looked_up_exactly() {
    let mut c = checker(BodyVisibleExtensionSource::Lazy { loaded: None }, vec![]);
    c.proven_trait_obligations = vec![TraitObligation {
        self_ty: nominal(1),
        trait_id: TraitId::Source(def(50)),
        trait_args: one(nominal(2)),
        trait_const_args: ConstArgList::Nil,
    }];
    assert!(c.proves_trait_obligation(&nominal(1), TraitId::Source(def(50)), &one(nominal(2)), &ConstArgList::Nil));
    assert!(!c.proves_trait_obligation(&nominal(1), TraitId::Source(def(50)), &one(nominal(3)), &ConstArgList::Nil));
    assert!(!c.proves_trait_obligation(&nominal(2), TraitId::Source(def(50)), &one(nominal(2)), &ConstArgList::Nil));
}

#[test]
fn trait_object_targets_accept_implementing_receivers() {
    let mut c = checker(BodyVisibleExtensionSource::Lazy { loaded: None }, vec![]);
    c.proven_trait_obligations = vec![TraitObligation {
        self_ty: nominal(1),
        trait_id: TraitId::Source(def(50)),
        trait_args: one(nominal(2)),
        trait_const_args: ConstArgList::Nil,
    }];
    let target = trait_object_target(50, vec![Ty::GenericParam(T)]);
    let mut s: SymbolMap<Ty> = SymbolMap::new();
    assert!(!c.trait_object_extension_target_matches_receiver(&target, &ptr(nominal(1)), &s));
    s.insert(T, nominal(2));
    assert!(c.trait_object_extension_target_matches_receiver(&target, &ptr(nominal(1)), &s));
    assert!(c.trait_object_extension_target_matches_receiver(&target, &nominal(1), &s));
    assert!(!c.trait_object_extension_target_matches_receiver(&target, &nominal(3), &s));
    assert!(!c.trait_object_extension_target_matches_receiver(&nominal(1), &nominal(1), &s));
}

#[test]
fn receivers_match_through_receiver_kinds_slices_and_pointers() {
    let mut c = checker(BodyVisibleExtensionSource::Lazy { loaded: None }, vec![]);
    c.method_signature_receivers = Table {
        entries: vec![(def(60), Some(ReceiverKind::RefReadOnly)), (def(61), None)],
    };
    let mut s: SymbolMap<Ty> = SymbolMap::new();
    let mut k: SymbolMap<ConstGenericArg> = SymbolMap::new();
    // A read-only receiver method on a generic target accepts a read-only pointer.
    assert!(c.match_extension_receiver_target(&Ty::GenericParam(T), def(60), &ptr(nominal(1)), &mut s, &mut k));
    assert!(ty_eq(s.get(T).unwrap(), &nominal(1)));
    // A value receiver matches through a pointer to the target.
    let mut s2: SymbolMap<Ty> = SymbolMap::new();
    assert!(c.match_extension_receiver_target(&nominal(1), def(61), &ptr(ptr(nominal(1))), &mut s2, &mut k));
    assert!(!c.match_extension_receiver_target(&nominal(1), def(61), &ptr(nominal(2)), &mut s2, &mut k));
    // A mutable slice is viewed read-only for a read-only receiver on a slice pointee.
    let pointee = Ty::SlicePointee { elem: Box::new(Ty::GenericParam(T)) };
    let mut s3: SymbolMap<Ty> = SymbolMap::new();
    assert!(c.match_extension_receiver_target(&pointee, def(60), &slice(false, nominal(4)), &mut s3, &mut k));
    assert!(ty_eq(s3.get(T).unwrap(), &nominal(4)));
    assert!(c.method_receiver_kinds.get(&def(60)).is_some());
}

#[test]
fn candidates_for_a_target_keep_matching_methods() {
    let load = || VisibleExtensionMethods {
        targets: vec![
            VisibleExtensionTarget { target_ty: nominal(1), methods: vec![visible(NAME, 10, false)] },
            VisibleExtensionTarget { target_ty: ptr(Ty::GenericParam(T)), methods: vec![visible(NAME, 13, false)] },
            VisibleExtensionTarget { target_ty: nominal(2), methods: vec![visible(NAME, 14, false)] },
        ],
    };
    let mut c = checker(BodyVisibleExtensionSource::Lazy { loaded: None }, vec![]);
    let found = c.method_candidates_for_target(&load, &ptr(nominal(1)), NAME);
    assert_eq!(found.len(), 1);
    assert_eq!(found[0].method_id, def(13));
    assert!(ty_eq(&found[0].self_ty, &ptr(nominal(1))));
    assert!(ty_eq(found[0].target_substitutions.get(T).unwrap(), &nominal(1)));
    let direct = c.method_candidates_for_target(&load, &nominal(1), NAME);
    let ids: Vec<GlobalDefId> = direct.iter().map(|m| m.method_id).collect();
    assert_eq!(ids, vec![def(10)]);
    assert!(c.method_candidates_for_target(&load, &nominal(5), NAME).is_empty());
}

fn block(is_builtin: bool, target: Ty, impl_id: u32, methods: Vec<u32>) -> TraitImplSignature {
    TraitImplSignature {
        is_builtin,
        target_ty: target,
        impl_id,
        generics: vec![T],
        generic_params: vec![
            GenericParamFact { name: T, is_comptime: false },
            GenericParamFact { name: 15, is_comptime: true },
        ],
        methods,
    }
}

#[test]
fn lookup_table_prefers_the_last_local_block_then_the_first_visible_target() {
    let defs: Table<u32, LocalDefGenerics> = Table {
        entries: vec![(1, LocalDefGenerics { generics: vec![16], const_generics: vec![17] })],
    };
    let impls = vec![
        block(false, nominal(1), 5, vec![1, 2]),
        block(true, nominal(9), 6, vec![3]),
        block(false, nominal(2), 7, vec![2]),
    ];
    let eager = BodyVisibleExtensionSource::Eager(visible_methods());
    let table = extension_method_lookup(0, &defs, &impls, &eager);
    let first = table.get(&def(1)).unwrap();
    assert!(ty_eq(&first.target_ty, &nominal(1)));
    assert_eq!(first.impl_id, 5);
    assert_eq!(first.effective_generics, vec![T, 16]);
    assert_eq!(first.effective_const_generics, vec![15, 17]);
    let second = table.get(&def(2)).unwrap();
    assert_eq!(second.impl_id, 7);
    assert_eq!(second.effective_generics, vec![T]);
    assert!(table.get(&def(3)).is_none());
    let visible_ten = table.get(&def(10)).unwrap();
    assert!(ty_eq(&visible_ten.target_ty, &nominal(1)));
    assert_eq!(visible_ten.impl_id, 110);
    let visible_thirteen = table.get(&def(13)).unwrap();
    assert!(ty_eq(&visible_thirteen.target_ty, &Ty::GenericParam(T)));
    let lazy = extension_method_lookup(0, &defs, &impls, &BodyVisibleExtensionSource::Lazy { loaded: None });
    assert!(lazy.get(&def(10)).is_none());
    assert_eq!(lazy.get(&def(1)).unwrap().impl_id, 5);
    let other_module = extension_method_lookup(4, &defs, &impls, &BodyVisibleExtensionSource::Lazy { loaded: None });
    assert!(other_module.get(&def(1)).is_none());
    assert_eq!(other_module.get(&GlobalDefId::new(4, 1)).unwrap().impl_id, 5);
}

#[test]
fn instance_args_use_program_lookups_too() {
    let mut pm = program(NAME, def(20), None, true, nominal(3));
    pm.effective_generics = vec![T];
    let mut c = checker(BodyVisibleExtensionSource::Lazy { loaded: None }, vec![pm]);
    let mut s: SymbolMap<Ty> = SymbolMap::new();
    s.insert(T, nominal(5));
    let args = c.extension_target_instance_args(def(20), &s);
    assert_eq!(args.len(), 1);
    assert!(ty_eq(&args[0], &nominal(5)));
    assert!(c.extension_method_lookup_cache.get(&def(20)).is_some());
    assert_eq!(c.extension_impl_generics_for_method(def(21)), Some(vec![T]));
    assert_eq!(c.extension_impl_generics_for_method(def(99)), None);
}

#[test]
fn method_self_types_follow_owners_and_receivers() {
    let mut c = checker(BodyVisibleExtensionSource::Lazy { loaded: None }, vec![]);
    c.local_def_kinds = Table {
        entries: vec![(21, DefKind::Method), (30, DefKind::TraitMethod), (31, DefKind::Other)],
    };
    assert_eq!(c.global_def_id(21), def(21));
    assert!(ty_eq(&c.method_owner_type(21).unwrap(), &nominal(2)));
    assert!(c.method_owner_type(30).is_none());
    assert!(c.method_owner_trait_object_type(21).is_none());
    let by_ref = c.method_self_type(21, Some(ReceiverKind::RefReadOnly)).unwrap();
    assert!(ty_eq(&by_ref, &ptr(nominal(2))));
    assert!(c.method_self_type(21, None).is_none());
    let trait_self = c.method_self_type(30, Some(ReceiverKind::Ref)).unwrap();
    assert!(ty_eq(&trait_self, &Ty::Pointer { is_readonly: false, elem: Box::new(Ty::SelfParam) }));
    assert!(ty_eq(&c.method_self_type(30, Some(ReceiverKind::Value)).unwrap(), &Ty::SelfParam));
    assert!(c.method_self_type(31, Some(ReceiverKind::Value)).is_none());
    assert!(c.method_self_type(99, Some(ReceiverKind::Value)).is_none());
}

#[test]
fn comptime_generics_come_from_the_owner_type() {
    const LEN: u32 = 50;
    let owner = || Ty::Nominal {
        def_id: def(8),
        args: TyList::Nil,
        const_args: ConstArgList::Cons(
            ConstGenericArg { ty: Box::new(Ty::Primitive(PrimitiveTy::U16)), value: ConstGenericValue::GenericParam(LEN) },
            Box::new(ConstArgList::Nil),
        ),
    };
    let mut c = checker(BodyVisibleExtensionSource::Lazy { loaded: None }, vec![program(NAME, def(20), None, true, owner())]);
    c.local_def_kinds = Table { entries: vec![(20, DefKind::Method), (21, DefKind::TraitMethod)] };
    let found = c.current_method_owner_comptime_generic_type(def(20), LEN).unwrap();
    assert!(ty_eq(&found, &Ty::Primitive(PrimitiveTy::U16)));
    assert!(c.current_method_owner_comptime_generic_type(def(20), 51).is_none());
    assert!(c.current_method_owner_comptime_generic_type(def(21), LEN).is_none());
    assert!(c.current_method_owner_comptime_generic_type(GlobalDefId::new(3, 20), LEN).is_none());
    let array = Ty::Array { len: ArrayLen::GenericParam(LEN), elem: Box::new(nominal(1)) };
    assert!(ty_eq(&comptime_generic_type_from_ty(&ptr(array), LEN).unwrap(), &Ty::Primitive(PrimitiveTy::Usize)));
    assert!(comptime_generic_type_from_ty(&nominal(1), LEN).is_none());
}
