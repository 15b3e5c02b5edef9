use nia_body_check::names::{BuiltinTraitNames, PrimitiveNames};
use nia_body_check::projections::ProjectionFact;
use nia_body_check::extension_source::BodyVisibleExtensionSource;
use nia_body_check::checker::{
    BodyChecker, Diagnostic, ExtensionMethodLookup, GenericParamFact, ProviderDemand, ProviderRequest,
    TypeAliasFact,
};
use nia_body_check::dynamic::DynamicTraitMethodCandidate;
use nia_body_check::extension_index::CallableExtensionMethods;
use nia_body_check::ids::{GlobalDefId, ReceiverKind, Span};
use nia_body_check::receivers::{receiver_base_type, receiver_ty_for_target, ReceiverBase};
use nia_body_check::symbol_map::SymbolMap;
use nia_body_check::table::Table;
use nia_body_check::ty::{
    ty_eq, ArrayLen, AssocBinding, BindingList, BuiltinTrait, ConstArgList, ConstGenericArg, ConstGenericValue,
    IntConst, PrimitiveTy, TraitId, Ty, TyList,
};
use nia_body_check::expected_types::{builtin_trait_output_is_boolean, UnaryOpKind};
use nia_body_check::generic_completion::type_generic_names;
use nia_body_check::atomic::CheckedAtomicOrder;

const T: u32 = 10;
const U: u32 = 11;
const N: u32 = 12;
const ITEM: u32 = 13;
const OUTPUT: u32 = 90;
const TARGET: u32 = 91;

fn def(def_id: u32) -> GlobalDefId {
    GlobalDefId::new(0, def_id)
}

fn checker() -> BodyChecker {
    BodyChecker {
        module_id: 0,
        const_expr_values: vec![],
        layout_values: vec![],
        local_def_names: Table { entries: vec![(1, 100), (2, 200)] },
        program_def_names: Some(Table { entries: vec![(GlobalDefId::new(7, 1), 701)] }),
        primitive_names: PrimitiveNames { names: [1000, 1001, 1002, 1003, 1004, 1005, 1006, 800, 1008, 1009, 1010, 1011, 1012, 1013, 1014, 1015, 1016, 1017] },
        builtin_trait_names: BuiltinTraitNames { names: [900, 1101, 1102, 1103, 1104, 1105, 1106, 1107, 1108, 1109, 1110, 1111, 1112, 1113, 1114, 1115, 1116, 1117, 1118, 1119] },
        source_path: 55,
        module_source_paths: Some(Table { entries: vec![(7, 77)] }),
        current_def_id: Some(def(30)),
        provider_demands: vec![],
        provider_demands_by_function: vec![],
        method_signature_receivers: Table { entries: vec![(def(60), Some(ReceiverKind::RefReadOnly)), (def(61), None)] },
        method_receiver_kinds: Table::new(),
        program_traits_by_method_name: Table { entries: vec![(500, vec![def(41), def(42)])] },
        traits_by_method_name: Table::new(),
        extension_methods: Table {
            entries: vec![(
                def(70),
                ExtensionMethodLookup {
                    target_ty: Ty::GenericParam(T),
                    impl_id: 3,
                    effective_generics: vec![T, U],
                    effective_const_generics: vec![],
                },
            )],
        },
        nominal_generics: Table { entries: vec![(def(1), vec![T, U]), (def(2), vec![])] },
        def_generic_params: Table {
            entries: vec![
                (def(1), vec![
                    GenericParamFact { name: T, is_comptime: false },
                    GenericParamFact { name: N, is_comptime: true },
                    GenericParamFact { name: U, is_comptime: false },
                ]),
                (def(3), vec![GenericParamFact { name: T, is_comptime: false }]),
            ],
        },
        type_aliases: Table {
            entries: vec![(def(3), TypeAliasFact { generic_count: 1, target: ptr(true, Ty::GenericParam(T)) })],
        },
        function_param_types: Table::new(),
        output_assoc_name: OUTPUT,
        target_assoc_name: TARGET,
        extensions: BodyVisibleExtensionSource::Lazy { loaded: None },
        program_extension_methods: vec![],
        extension_normalization_modules: None,
        extension_method_lookup_cache: Table::new(),
        callable_extension_methods_by_name: Table::new(),
        local_def_kinds: Table::new(),
        proven_trait_obligations: vec![],
        local_types: Table::new(),
        current_return: Ty::Primitive(PrimitiveTy::Void),
        enum_defs: Table::new(),
        projection_facts: vec![],
        expr_node_types: Table::new(),
        diagnostics: vec![],
    }
}

fn prim(p: PrimitiveTy) -> Ty {
    Ty::Primitive(p)
}

fn ptr(is_readonly: bool, elem: Ty) -> Ty {
    Ty::Pointer { is_readonly, elem: Box::new(elem) }
}

fn list(items: Vec<Ty>) -> TyList {
    let mut l = TyList::Nil;
    for item in items.into_iter().rev() {
        l = TyList::Cons(Box::new(item), Box::new(l));
    }
    l
}

fn nominal(def_id: u32, args: Vec<Ty>) -> Ty {
    Ty::Nominal { def_id: def(def_id), args: list(args), const_args: ConstArgList::Nil }
}

fn usize_arg(value: u128) -> ConstGenericArg {
    ConstGenericArg { ty: Box::new(prim(PrimitiveTy::Usize)), value: ConstGenericValue::Int(IntConst::unsigned(value)) }
}

#[test]
fn definition_names_of_this_and_other_modules() {
    let c = checker();
    assert_eq!(c.definition_name(def(1)), Some(100));
    assert_eq!(c.definition_name(def(9)), None);
    assert_eq!(c.definition_name(GlobalDefId::new(7, 1)), Some(701));
    assert_eq!(c.definition_name(GlobalDefId::new(8, 1)), None);
}

#[test]
fn provider_target_names_look_through_pointers() {
    let c = checker();
    assert_eq!(c.provider_target_type_name(&ptr(true, nominal(2, vec![]))), Some(200));
    assert_eq!(c.provider_target_type_name(&prim(PrimitiveTy::U8)), Some(800));
    assert_eq!(c.provider_target_type_name(&Ty::Tuple(TyList::Nil)), None);
}

#[test]
fn method_demands_are_recorded_once() {
    let mut c = checker();
    c.record_method_provider_demand(&nominal(1, vec![]), 300);
    c.record_method_provider_demand(&nominal(1, vec![]), 300);
    let expected = ProviderDemand {
        source_path: 55,
        request: ProviderRequest::Method { target_type_name: Some(100), method_name: 300 },
    };
    assert_eq!(c.provider_demands, vec![expected]);
    assert_eq!(c.provider_demands_by_function, vec![(def(30), expected)]);
}

#[test]
fn erroneous_receivers_record_nothing() {
    let mut c = checker();
    assert!(c.provider_demand_target_is_error(&Ty::Error));
    assert!(c.provider_demand_target_is_error(&Ty::ConstOnly));
    assert!(!c.provider_demand_target_is_error(&Ty::Opaque));
    c.record_method_provider_demand(&Ty::Error, 300);
    c.record_trait_provider_demand(&Ty::ConstOnly, TraitId::Builtin(BuiltinTrait::Add));
    assert!(c.provider_demands.is_empty());
}

#[test]
fn trait_demands_need_a_trait_name() {
    let mut c = checker();
    c.record_trait_provider_demand(&prim(PrimitiveTy::U8), TraitId::Source(def(99)));
    assert!(c.provider_demands.is_empty());
    c.record_trait_provider_demand(&prim(PrimitiveTy::U8), TraitId::Builtin(BuiltinTrait::Add));
    assert_eq!(
        c.provider_demands,
        vec![ProviderDemand {
            source_path: 55,
            request: ProviderRequest::TraitImpl { target_type_name: Some(800), trait_name: 900 },
        }]
    );
}

#[test]
fn every_builtin_trait_and_primitive_has_a_name() {
    let mut c = checker();
    assert_eq!(c.provider_target_type_name(&prim(PrimitiveTy::Never)), Some(1016));
    assert_eq!(c.provider_target_type_name(&ptr(false, prim(PrimitiveTy::Bool))), Some(1000));
    c.record_trait_provider_demand(&prim(PrimitiveTy::I32), TraitId::Builtin(BuiltinTrait::GetPtrConst));
    assert_eq!(
        c.provider_demands,
        vec![ProviderDemand {
            source_path: 55,
            request: ProviderRequest::TraitImpl { target_type_name: Some(1003), trait_name: 1119 },
        }]
    );
}

#[test]
fn semantic_demands_for_other_known_modules() {
    let mut c = checker();
    c.record_semantic_provider_module(0);
    c.record_semantic_provider_module(9);
    assert!(c.provider_demands.is_empty());
    c.record_semantic_provider_module(7);
    assert_eq!(
        c.provider_demands,
        vec![ProviderDemand { source_path: 55, request: ProviderRequest::ModuleSemantic { module_source: 77 } }]
    );
}

#[test]
fn receiver_kinds_are_cached() {
    let mut c = checker();
    assert_eq!(c.method_receiver_kind(def(60)), Some(ReceiverKind::RefReadOnly));
    assert_eq!(c.method_receiver_kind(def(61)), None);
    assert_eq!(c.method_receiver_kind(def(62)), None);
    assert_eq!(c.method_receiver_kind(def(60)), Some(ReceiverKind::RefReadOnly));
    let target = c.receiver_candidate_target_ty(&nominal(1, vec![]), def(60));
    assert!(ty_eq(&target, &ptr(true, nominal(1, vec![]))));
    let unchanged = c.receiver_candidate_target_ty(&nominal(1, vec![]), def(61));
    assert!(ty_eq(&unchanged, &nominal(1, vec![])));
}

#[test]
fn traits_by_method_name_are_cached() {
    let mut c = checker();
    assert_eq!(c.trait_ids_with_method_named(500), vec![def(41), def(42)]);
    assert_eq!(c.trait_ids_with_method_named(501), Vec::<GlobalDefId>::new());
    assert_eq!(c.trait_ids_with_method_named(500), vec![def(41), def(42)]);
}

#[test]
fn extension_instance_args_follow_effective_generics() {
    let mut c = checker();
    assert_eq!(c.extension_impl_generics_for_method(def(70)), Some(vec![T, U]));
    assert_eq!(c.extension_impl_generics_for_method(def(71)), None);
    let mut s = SymbolMap::new();
    s.insert(U, prim(PrimitiveTy::Bool));
    let args = c.extension_target_instance_args(def(70), &s);
    assert_eq!(args.len(), 1);
    assert!(ty_eq(&args[0], &prim(PrimitiveTy::Bool)));
    assert!(c.extension_target_instance_args(def(71), &s).is_empty());
}

#[test]
fn where_candidates_must_agree() {
    let c = checker();
    let mut a = SymbolMap::new();
    a.insert(T, prim(PrimitiveTy::U8));
    let mut b = SymbolMap::new();
    b.insert(T, prim(PrimitiveTy::U8));
    let mut d = SymbolMap::new();
    d.insert(T, prim(PrimitiveTy::I8));
    let agreeing = vec![a, b];
    assert!(c.single_where_candidate(&agreeing).is_some());
    let mut e = SymbolMap::new();
    e.insert(T, prim(PrimitiveTy::U8));
    let disagreeing = vec![e, d];
    assert!(c.single_where_candidate(&disagreeing).is_none());
    assert!(c.single_where_candidate(&Vec::new()).is_none());
}

#[test]
fn receiver_types_for_targets() {
    let obj = Ty::TraitObjectPointee {
        trait_id: TraitId::Source(def(40)),
        trait_args: TyList::Nil,
        trait_const_args: ConstArgList::Nil,
        bindings: BindingList::Nil,
    };
    let r = receiver_ty_for_target(&obj, ReceiverKind::Ref);
    assert!(matches!(r, Ty::TraitObject { is_readonly: false, .. }));
    let slice = receiver_ty_for_target(&Ty::SlicePointee { elem: Box::new(prim(PrimitiveTy::U8)) }, ReceiverKind::RefReadOnly);
    assert!(ty_eq(&slice, &Ty::Slice { is_readonly: true, elem: Box::new(prim(PrimitiveTy::U8)) }));
    let value = receiver_ty_for_target(&prim(PrimitiveTy::U8), ReceiverKind::Value);
    assert!(ty_eq(&value, &prim(PrimitiveTy::U8)));
}

#[test]
fn receiver_bases_through_pointers() {
    let c = checker();
    let base = receiver_base_type(&ptr(true, ptr(false, nominal(1, vec![])))).unwrap();
    assert_eq!(base.def_id, def(1));
    assert!(base.from_pointer);
    assert!(base.has_readonly_pointer);
    assert!(receiver_base_type(&prim(PrimitiveTy::U8)).is_none());
    let other = ReceiverBase {
        def_id: def(2),
        args: TyList::Nil,
        const_args: ConstArgList::Nil,
        from_pointer: false,
        has_readonly_pointer: false,
    };
    assert!(c.extension_receiver_base_mismatch(&nominal(1, vec![]), Some(&other)));
    assert!(!c.extension_receiver_base_mismatch(&nominal(2, vec![]), Some(&other)));
    assert!(!c.extension_receiver_base_mismatch(&prim(PrimitiveTy::U8), Some(&other)));
    assert!(!c.extension_receiver_base_mismatch(&nominal(1, vec![]), None));
}

#[test]
fn receiver_helpers() {
    let c = checker();
    let mutable = Ty::Slice { is_readonly: false, elem: Box::new(prim(PrimitiveTy::U8)) };
    let readonly = c.mutable_slice_as_readonly(&mutable).unwrap();
    assert!(ty_eq(&readonly, &Ty::Slice { is_readonly: true, elem: Box::new(prim(PrimitiveTy::U8)) }));
    assert!(c.mutable_slice_as_readonly(&readonly).is_none());
    assert!(c.trait_receiver_self_ty(&ptr(true, prim(PrimitiveTy::U8))).is_some());
    let self_ty = c.trait_receiver_self_ty(&ptr(true, prim(PrimitiveTy::U8))).unwrap();
    assert!(ty_eq(&self_ty, &prim(PrimitiveTy::U8)));
    let fn_ptr = Ty::FunctionPointer { params: TyList::Nil, return_type: Box::new(prim(PrimitiveTy::Bool)), is_variadic: false };
    assert!(ty_eq(&c.associated_expected_return_ty(&ptr(true, fn_ptr)), &prim(PrimitiveTy::Bool)));
    assert!(!c.receiver_is_trait_object(&prim(PrimitiveTy::U8)));
}

#[test]
fn type_prefix_argument_count() {
    let mut c = checker();
    let at = Span { start: 4, end: 9 };
    assert!(c.check_type_prefix_arg_count(at, def(1), 2));
    assert!(c.check_type_prefix_arg_count(at, def(5), 7));
    assert!(c.diagnostics.is_empty());
    assert!(!c.check_type_prefix_arg_count(at, def(1), 1));
    assert_eq!(c.diagnostics.len(), 1);
    assert!(matches!(
        c.diagnostics[0],
        Diagnostic::GenericArgCountMismatch { def_id, name: Some(100), expected: 2, actual: 1, .. } if def_id == def(1)
    ));
    assert!(c.nominal_type_prefix_has_no_generics(def(2)));
    assert!(!c.nominal_type_prefix_has_no_generics(def(1)));
    assert!(!c.nominal_type_prefix_has_no_generics(def(5)));
}

#[test]
fn substitutions_for_definition_parameters() {
    let c = checker();
    let args = list(vec![prim(PrimitiveTy::U8), prim(PrimitiveTy::Bool)]);
    let consts = ConstArgList::Cons(usize_arg(4), Box::new(ConstArgList::Nil));
    let (s, cm) = c.generic_substitutions_and_consts_for_def(def(1), &args, &consts);
    assert!(ty_eq(s.get(T).unwrap(), &prim(PrimitiveTy::U8)));
    assert!(ty_eq(s.get(U).unwrap(), &prim(PrimitiveTy::Bool)));
    assert!(matches!(cm.get(N).unwrap().value, ConstGenericValue::Int(IntConst { bits: 4, .. })));
    let (s2, c2) = c.generic_substitutions_and_consts_for_def(def(9), &args, &consts);
    assert_eq!(s2.len(), 0);
    assert_eq!(c2.len(), 0);
    let trait_consts = c.trait_const_substitutions_for_trait_id(TraitId::Source(def(1)), &args, &consts);
    assert_eq!(trait_consts.len(), 1);
    let builtin = c.trait_const_substitutions_for_trait_id(TraitId::Builtin(BuiltinTrait::Add), &args, &consts);
    assert_eq!(builtin.len(), 0);
}

#[test]
fn type_alias_expansion() {
    let c = checker();
    let expanded = c.expand_type_alias_instance(def(3), &list(vec![prim(PrimitiveTy::U8)]), &ConstArgList::Nil).unwrap();
    assert!(ty_eq(&expanded, &ptr(true, prim(PrimitiveTy::U8))));
    let wrong = c.expand_type_alias_instance(def(3), &TyList::Nil, &ConstArgList::Nil).unwrap();
    assert!(matches!(wrong, Ty::Error));
    assert!(c.expand_type_alias_instance(def(1), &TyList::Nil, &ConstArgList::Nil).is_none());
}

#[test]
fn associated_call_targets() {
    let c = checker();
    let alias = c.associated_nominal_target_ty(def(3), list(vec![prim(PrimitiveTy::I8)])).unwrap();
    assert!(ty_eq(&alias, &ptr(true, prim(PrimitiveTy::I8))));
    let plain = c.associated_nominal_target_ty(def(1), list(vec![prim(PrimitiveTy::I8)])).unwrap();
    assert!(ty_eq(&plain, &nominal(1, vec![prim(PrimitiveTy::I8)])));
    let generic = c.associated_nominal_generic_target_ty(def(1)).unwrap();
    assert!(ty_eq(&generic, &nominal(1, vec![Ty::GenericParam(T), Ty::GenericParam(U)])));
    assert!(c.associated_nominal_generic_target_ty(def(9)).is_none());
}

#[test]
fn builtin_method_outputs() {
    let c = checker();
    let eq = c.builtin_trait_method_output(prim(PrimitiveTy::U8), BuiltinTrait::Eq, TyList::Nil);
    assert!(ty_eq(&eq, &prim(PrimitiveTy::Bool)));
    let add = c.builtin_trait_method_output(prim(PrimitiveTy::U8), BuiltinTrait::Add, list(vec![prim(PrimitiveTy::U8)]));
    assert!(ty_eq(&add, &prim(PrimitiveTy::U8)));
    let mixed = c.builtin_trait_method_output(prim(PrimitiveTy::U8), BuiltinTrait::Add, list(vec![prim(PrimitiveTy::U16)]));
    assert!(matches!(mixed, Ty::Projection { name: OUTPUT, trait_id: TraitId::Builtin(BuiltinTrait::Add), .. }));
    let len = c.builtin_trait_place_method_output(prim(PrimitiveTy::U8), BuiltinTrait::Len, TyList::Nil);
    assert!(ty_eq(&len, &prim(PrimitiveTy::Usize)));
    let get_ptr = c.builtin_trait_place_method_output(prim(PrimitiveTy::U8), BuiltinTrait::GetPtrConst, TyList::Nil);
    match get_ptr {
        Ty::Pointer { is_readonly, elem } => {
            assert!(is_readonly);
            assert!(matches!(*elem, Ty::Projection { name: TARGET, .. }));
        },
        other => panic!("unexpected type {other:?}"),
    }
    let other = c.builtin_trait_place_method_output(prim(PrimitiveTy::U8), BuiltinTrait::Add, TyList::Nil);
    assert!(matches!(other, Ty::Error));
}

#[test]
fn lowered_type_args_default_to_empty() {
    let c = checker();
    assert_eq!(c.lowered_method_type_args(None).unwrap().len(), 0);
    let given = vec![prim(PrimitiveTy::U8)];
    let lowered = c.lowered_method_type_args(Some(&given)).unwrap();
    assert_eq!(lowered.len(), 1);
    assert!(ty_eq(&lowered[0], &prim(PrimitiveTy::U8)));
}

#[test]
fn callable_indexes_put_based_methods_first() {
    let c = checker();
    let methods = CallableExtensionMethods {
        methods: vec![],
        methods_by_base: Table { entries: vec![(def(1), vec![2, 0])] },
        unbased_methods: vec![1],
    };
    assert_eq!(c.callable_method_indexes_for_receiver_base(&methods, Some(def(1))), vec![2, 0, 1]);
    assert_eq!(c.callable_method_indexes_for_receiver_base(&methods, Some(def(2))), vec![1]);
    assert_eq!(c.callable_method_indexes_for_receiver_base(&methods, None), vec![1]);
}

#[test]
fn dynamic_projection_takes_the_objects_binding() {
    let c = checker();
    let object = Ty::TraitObject {
        is_readonly: true,
        trait_id: TraitId::Source(def(40)),
        trait_args: TyList::Nil,
        trait_const_args: ConstArgList::Nil,
        bindings: BindingList::Nil,
    };
    let candidate = DynamicTraitMethodCandidate {
        object_ty: object,
        trait_id: TraitId::Source(def(40)),
        trait_args: TyList::Nil,
        trait_const_args: ConstArgList::Nil,
        associated_type_bindings: BindingList::Cons(
            AssocBinding {
                trait_id: None,
                trait_args: TyList::Nil,
                trait_const_args: ConstArgList::Nil,
                name: ITEM,
                ty: Box::new(prim(PrimitiveTy::I64)),
            },
            Box::new(BindingList::Nil),
        ),
        slot: 0,
    };
    let self_ty = c.trait_object_self_ty(&candidate.object_ty);
    assert!(matches!(self_ty, Ty::Pointer { is_readonly: true, .. }));
    let projection = Ty::Projection {
        self_ty: Box::new(self_ty),
        trait_id: TraitId::Source(def(40)),
        trait_args: TyList::Nil,
        trait_const_args: ConstArgList::Nil,
        name: ITEM,
    };
    let normalized = c.normalize_dynamic_trait_object_projection(&candidate, &ptr(false, projection));
    assert!(ty_eq(&normalized, &ptr(false, prim(PrimitiveTy::I64))));
    assert!(c.trait_args_match_for_dynamic_object(&TyList::Nil, &TyList::Nil));
}

#[test]
fn expected_types_for_expression_parts() {
    let c = checker();
    let readonly = ptr(true, prim(PrimitiveTy::U8));
    let target = c.expected_ref_target_from_expected(UnaryOpKind::RefReadOnly, Some(&readonly)).unwrap();
    assert!(ty_eq(&target, &prim(PrimitiveTy::U8)));
    assert!(c.expected_ref_target_from_expected(UnaryOpKind::Ref, Some(&readonly)).is_none());
    assert!(c.expected_ref_target_from_expected(UnaryOpKind::Other, Some(&readonly)).is_none());
    let slice = Ty::Slice { is_readonly: false, elem: Box::new(prim(PrimitiveTy::U8)) };
    let array = c.expected_ref_target_from_expected(UnaryOpKind::Ref, Some(&slice)).unwrap();
    assert!(matches!(array, Ty::Array { len: nia_body_check::ty::ArrayLen::Infer, .. }));
    let deref = c.pointer_to_deref_expected(Some(prim(PrimitiveTy::I8))).unwrap();
    assert!(ty_eq(&deref, &ptr(true, prim(PrimitiveTy::I8))));
    assert!(c.index_lhs_expected_from_index_expected(None).is_none());
    assert!(c.is_runtime_char_array_type(&Ty::Array {
        len: nia_body_check::ty::ArrayLen::ConstValue(2),
        elem: Box::new(prim(PrimitiveTy::Char)),
    }));
    assert!(builtin_trait_output_is_boolean(BuiltinTrait::Ord));
    assert!(!builtin_trait_output_is_boolean(BuiltinTrait::Add));
}

#[test]
fn receiver_expression_expectations() {
    let c = checker();
    let receiver = ptr(true, nominal(1, vec![]));
    let mutable = ptr(false, nominal(1, vec![]));
    assert!(c.receiver_expr_already_matches_receiver_ty(&receiver, &mutable));
    assert!(!c.receiver_expr_already_matches_receiver_ty(&mutable, &receiver));
    let kept = c.method_receiver_expr_expected_ty(&receiver, &mutable, ReceiverKind::RefReadOnly);
    assert!(ty_eq(&kept, &receiver));
    let pointee = c.method_receiver_expr_expected_ty(&receiver, &nominal(1, vec![]), ReceiverKind::RefReadOnly);
    assert!(ty_eq(&pointee, &nominal(1, vec![])));
    let by_value = c.method_receiver_expr_expected_ty(&receiver, &nominal(1, vec![]), ReceiverKind::Value);
    assert!(ty_eq(&by_value, &receiver));
    let object = Ty::TraitObject {
        is_readonly: true,
        trait_id: TraitId::Source(def(40)),
        trait_args: TyList::Nil,
        trait_const_args: ConstArgList::Nil,
        bindings: BindingList::Nil,
    };
    assert!(c.dynamic_trait_object_receiver_ty(&ptr(true, object)).is_some());
    assert!(c.dynamic_trait_object_receiver_ty(&receiver).is_none());
}

#[test]
fn cmpxchg_order_pair_diagnostic() {
    let mut c = checker();
    c.check_cmpxchg_order_pair(Span { start: 0, end: 1 }, CheckedAtomicOrder::SeqCst, CheckedAtomicOrder::Acquire);
    assert!(c.diagnostics.is_empty());
    c.check_cmpxchg_order_pair(Span { start: 0, end: 1 }, CheckedAtomicOrder::Monotonic, CheckedAtomicOrder::SeqCst);
    assert!(matches!(c.diagnostics[0], Diagnostic::CmpxchgFailureTooStrong { .. }));
}

#[test]
fn aliases_expand_through_pointers() {
    let c = checker();
    let alias = nominal(3, vec![prim(PrimitiveTy::U8)]);
    assert!(ty_eq(&c.normalize_aliases_in_type(&alias), &ptr(true, prim(PrimitiveTy::U8))));
    let behind = Ty::VolatilePointer { is_readonly: false, elem: Box::new(nominal(3, vec![prim(PrimitiveTy::Bool)])) };
    let expanded = Ty::VolatilePointer { is_readonly: false, elem: Box::new(ptr(true, prim(PrimitiveTy::Bool))) };
    assert!(ty_eq(&c.normalize_aliases_in_type(&behind), &expanded));
    assert!(ty_eq(&c.normalize_aliases_in_type(&nominal(1, vec![])), &nominal(1, vec![])));
    let wrong_count = nominal(3, vec![]);
    assert!(ty_eq(&c.normalize_aliases_in_type(&wrong_count), &Ty::Error));
    let slice_of_alias = Ty::Slice { is_readonly: true, elem: Box::new(nominal(3, vec![prim(PrimitiveTy::U8)])) };
    assert!(ty_eq(&c.normalize_aliases_in_type(&slice_of_alias), &slice_of_alias));
}

#[test]
fn small_queries_on_generics_and_expected_types() {
    let c = checker();
    let s = c.nominal_type_generic_substitutions(def(1), &vec![prim(PrimitiveTy::U8), prim(PrimitiveTy::Bool)]);
    assert!(ty_eq(s.get(T).unwrap(), &prim(PrimitiveTy::U8)));
    assert!(ty_eq(s.get(U).unwrap(), &prim(PrimitiveTy::Bool)));
    assert_eq!(c.nominal_type_generic_substitutions(def(9), &vec![prim(PrimitiveTy::U8)]).len(), 0);
    let array = Ty::Array { len: ArrayLen::ConstValue(4), elem: Box::new(prim(PrimitiveTy::U8)) };
    assert!(ty_eq(&c.expected_array_type(Some(&array)).unwrap(), &array));
    assert!(c.expected_array_type(Some(&prim(PrimitiveTy::U8))).is_none());
    assert!(c.expected_array_type(None).is_none());
    let range = Ty::Range { kind: 2, bound: Some(Box::new(prim(PrimitiveTy::U8))) };
    let parts = c.expected_range_parts(&range).unwrap();
    assert_eq!(parts.kind, 2);
    assert!(ty_eq(parts.bound.as_ref().unwrap(), &prim(PrimitiveTy::U8)));
    assert!(ty_eq(&parts.ty, &range));
    assert!(c.expected_range_parts(&prim(PrimitiveTy::U8)).is_none());
    assert!(c.generic_substitution_is_self_mapping(T, &Ty::GenericParam(T)));
    assert!(!c.generic_substitution_is_self_mapping(T, &Ty::GenericParam(U)));
    let params = vec![
        GenericParamFact { name: T, is_comptime: false },
        GenericParamFact { name: N, is_comptime: true },
        GenericParamFact { name: U, is_comptime: false },
    ];
    assert_eq!(type_generic_names(&params), vec![T, U]);
}

#[test]
fn projections_normalize_through_builtin_and_program_impls() {
    let mut c = checker();
    let shift = c.builtin_trait_method_output(prim(PrimitiveTy::I32), BuiltinTrait::Shl, list(vec![prim(PrimitiveTy::U8)]));
    assert!(ty_eq(&shift, &prim(PrimitiveTy::I32)));
    let neg = c.builtin_trait_method_output(prim(PrimitiveTy::Float64), BuiltinTrait::Neg, TyList::Nil);
    assert!(ty_eq(&neg, &prim(PrimitiveTy::Float64)));
    let float_and = c.builtin_trait_method_output(prim(PrimitiveTy::Float64), BuiltinTrait::BitAnd, list(vec![prim(PrimitiveTy::Float64)]));
    assert!(matches!(float_and, Ty::Projection { .. }));
    let vector_add = Ty::Projection {
        self_ty: Box::new(nominal(2, vec![])),
        trait_id: TraitId::Builtin(BuiltinTrait::Add),
        trait_args: list(vec![nominal(2, vec![])]),
        trait_const_args: ConstArgList::Nil,
        name: OUTPUT,
    };
    c.projection_facts.push(ProjectionFact { projection: vector_add, normalized: nominal(1, vec![]) });
    let user = c.builtin_trait_method_output(nominal(2, vec![]), BuiltinTrait::Add, list(vec![nominal(2, vec![])]));
    assert!(ty_eq(&user, &nominal(1, vec![])));
}
