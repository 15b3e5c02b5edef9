use nia_body_check::names::{BuiltinTraitNames, PrimitiveNames};
use nia_body_check::extension_source::BodyVisibleExtensionSource;
use nia_body_check::checker::{BodyChecker, Diagnostic, LayoutFact};
use nia_body_check::ids::{GlobalDefId, Span};
use nia_body_check::symbol_map::SymbolMap;
use nia_body_check::table::Table;
use nia_body_check::ty::{
    ty_eq, ArrayLen, AssocBinding, BindingList, ConstArgList, ConstGenericArg, ConstGenericValue, IntConst,
    PrimitiveTy, TraitId, Ty, TyList,
};
use nia_body_check::inferred::{materialize_inferred_type, InferredClosureSignature, InferredType};

const T: u32 = 10;
const U: u32 = 11;
const N: u32 = 12;
const ITEM: u32 = 13;

fn checker() -> BodyChecker {
    BodyChecker {
        module_id: 0,
        const_expr_values: vec![(5, 3)],
        layout_values: vec![LayoutFact { builtin: 1, ty: Ty::Primitive(PrimitiveTy::U32), value: 4 }],
        local_def_names: Table::new(),
        program_def_names: None,
        primitive_names: PrimitiveNames { names: [1000, 1001, 1002, 1003, 1004, 1005, 1006, 800, 1008, 1009, 1010, 1011, 1012, 1013, 1014, 1015, 1016, 1017] },
        builtin_trait_names: BuiltinTraitNames { names: [900, 1101, 1102, 1103, 1104, 1105, 1106, 1107, 1108, 1109, 1110, 1111, 1112, 1113, 1114, 1115, 1116, 1117, 1118, 1119] },
        source_path: 0,
        module_source_paths: None,
        current_def_id: None,
        provider_demands: vec![],
        provider_demands_by_function: vec![],
        method_signature_receivers: Table::new(),
        method_receiver_kinds: Table::new(),
        program_traits_by_method_name: Table::new(),
        traits_by_method_name: Table::new(),
        extension_methods: Table::new(),
        nominal_generics: Table::new(),
        def_generic_params: Table::new(),
        type_aliases: Table::new(),
        function_param_types: Table::new(),
        output_assoc_name: 90,
        target_assoc_name: 91,
        extensions: BodyVisibleExtensionSource::Lazy { loaded: None },
        program_extension_methods: vec![],
        extension_normalization_modules: None,
        extension_method_lookup_cache: Table::new(),
        callable_extension_methods_by_name: Table::new(),
        local_def_kinds: Table::new(),
        proven_trait_obligations: vec![],
        local_types: Table::new(),
        current_return: Ty::Primitive(PrimitiveTy::Void),
        enum_defs: Table::new(),
        projection_facts: vec![],
        expr_node_types: Table::new(),
        diagnostics: vec![],
    }
}

fn span() -> Span {
    Span { start: 1, end: 2 }
}

fn gp(name: u32) -> Ty {
    Ty::GenericParam(name)
}

fn prim(p: PrimitiveTy) -> Ty {
    Ty::Primitive(p)
}

fn ptr(is_readonly: bool, elem: Ty) -> Ty {
    Ty::Pointer { is_readonly, elem: Box::new(elem) }
}

fn slice(is_readonly: bool, elem: Ty) -> Ty {
    Ty::Slice { is_readonly, elem: Box::new(elem) }
}

fn array(len: ArrayLen, elem: Ty) -> Ty {
    Ty::Array { len, elem: Box::new(elem) }
}

fn list(items: Vec<Ty>) -> TyList {
    let mut l = TyList::Nil;
    for item in items.into_iter().rev() {
        l = TyList::Cons(Box::new(item), Box::new(l));
    }
    l
}

fn nominal(def_id: u32, args: Vec<Ty>) -> Ty {
    Ty::Nominal { def_id: GlobalDefId::new(0, def_id), args: list(args), const_args: ConstArgList::Nil }
}

fn consts(items: Vec<ConstGenericArg>) -> ConstArgList {
    let mut l = ConstArgList::Nil;
    for item in items.into_iter().rev() {
        l = ConstArgList::Cons(item, Box::new(l));
    }
    l
}

fn usize_arg(value: u128) -> ConstGenericArg {
    ConstGenericArg { ty: Box::new(prim(PrimitiveTy::Usize)), value: ConstGenericValue::Int(IntConst::unsigned(value)) }
}

fn param_arg(name: u32) -> ConstGenericArg {
    ConstGenericArg { ty: Box::new(prim(PrimitiveTy::Usize)), value: ConstGenericValue::GenericParam(name) }
}

fn object(binding_ty: Ty) -> Ty {
    Ty::TraitObject {
        is_readonly: true,
        trait_id: TraitId::Source(GlobalDefId::new(0, 40)),
        trait_args: TyList::Nil,
        trait_const_args: ConstArgList::Nil,
        bindings: BindingList::Cons(
            AssocBinding {
                trait_id: None,
                trait_args: TyList::Nil,
                trait_const_args: ConstArgList::Nil,
                name: ITEM,
                ty: Box::new(binding_ty),
            },
            Box::new(BindingList::Nil),
        ),
    }
}

#[test]
fn pattern_binds_parameters() {
    let c = checker();
    let mut s = SymbolMap::new();
    let pattern = nominal(1, vec![gp(T), ptr(true, gp(U))]);
    let actual = nominal(1, vec![prim(PrimitiveTy::I8), ptr(true, prim(PrimitiveTy::Bool))]);
    assert!(c.match_type_pattern(&pattern, &actual, &mut s));
    assert!(ty_eq(s.get(T).unwrap(), &prim(PrimitiveTy::I8)));
    assert!(ty_eq(s.get(U).unwrap(), &prim(PrimitiveTy::Bool)));
}

#[test]
fn pattern_rejects_conflicting_binding() {
    let c = checker();
    let mut s = SymbolMap::new();
    let pattern = Ty::Tuple(list(vec![gp(T), gp(T)]));
    let actual = Ty::Tuple(list(vec![prim(PrimitiveTy::I8), prim(PrimitiveTy::U8)]));
    assert!(!c.match_type_pattern(&pattern, &actual, &mut s));
}

#[test]
fn pattern_requires_same_pointer_mutability() {
    let c = checker();
    let mut s = SymbolMap::new();
    assert!(!c.match_type_pattern(&ptr(true, gp(T)), &ptr(false, prim(PrimitiveTy::U8)), &mut s));
}

#[test]
fn failed_try_match_leaves_substitutions_unchanged() {
    let c = checker();
    let mut s = SymbolMap::new();
    let mut consts_map = SymbolMap::new();
    s.insert(U, prim(PrimitiveTy::Char));
    let pattern = Ty::Tuple(list(vec![gp(T), gp(T)]));
    let actual = Ty::Tuple(list(vec![prim(PrimitiveTy::I8), prim(PrimitiveTy::U8)]));
    assert!(!c.try_match_type_pattern_with_consts(&pattern, &actual, &mut s, &mut consts_map));
    assert_eq!(s.len(), 1);
    assert!(s.get(T).is_none());
    assert_eq!(consts_map.len(), 0);
}

#[test]
fn match_keeps_existing_bindings() {
    let c = checker();
    let mut s = SymbolMap::new();
    s.insert(T, prim(PrimitiveTy::I16));
    s.insert(U, prim(PrimitiveTy::Bool));
    let pattern = nominal(1, vec![gp(T), gp(N)]);
    let actual = nominal(1, vec![prim(PrimitiveTy::I16), prim(PrimitiveTy::U64)]);
    assert!(c.match_type_pattern(&pattern, &actual, &mut s));
    assert!(ty_eq(s.get(T).unwrap(), &prim(PrimitiveTy::I16)));
    assert!(ty_eq(s.get(U).unwrap(), &prim(PrimitiveTy::Bool)));
    assert!(ty_eq(s.get(N).unwrap(), &prim(PrimitiveTy::U64)));
}

#[test]
fn array_length_parameter_binds_value() {
    let c = checker();
    let mut s = SymbolMap::new();
    let mut cm = SymbolMap::new();
    let pattern = array(ArrayLen::GenericParam(N), gp(T));
    let actual = array(ArrayLen::ConstExpr(5), prim(PrimitiveTy::U8));
    assert!(c.match_type_pattern_with_consts(&pattern, &actual, &mut s, &mut cm));
    let bound = cm.get(N).unwrap();
    assert!(matches!(bound.value, ConstGenericValue::Int(IntConst { bits: 3, is_signed: false })));
}

#[test]
fn array_lengths_match_by_value() {
    let c = checker();
    assert!(c.array_lens_match(&ArrayLen::ConstValue(3), &ArrayLen::ConstExpr(5)));
    assert!(!c.array_lens_match(&ArrayLen::ConstValue(4), &ArrayLen::ConstExpr(5)));
    let size_of_u32 = ArrayLen::Builtin { builtin: 1, ty: Box::new(prim(PrimitiveTy::U32)) };
    assert!(c.array_lens_match(&ArrayLen::ConstValue(4), &size_of_u32));
    assert!(!c.array_lens_match(&ArrayLen::Infer, &ArrayLen::ConstValue(4)));
}

#[test]
fn subsumption_orders_patterns() {
    let c = checker();
    let general = nominal(1, vec![gp(T)]);
    let specific = nominal(1, vec![prim(PrimitiveTy::U8)]);
    assert!(c.pattern_subsumes(&general, &specific));
    assert!(!c.pattern_subsumes(&specific, &general));
    assert!(c.strictly_more_specific(&specific, &general));
    assert!(!c.strictly_more_specific(&general, &specific));
    assert!(!c.strictly_more_specific(&general, &general));
    assert!(c.patterns_equivalent(&specific, &nominal(1, vec![prim(PrimitiveTy::U8)])));
}

#[test]
fn shape_check_accepts_parameters_and_exact_leaves() {
    let c = checker();
    assert!(c.generic_pattern_accepts_type_shape(&gp(T), &prim(PrimitiveTy::U8)));
    assert!(c.generic_pattern_accepts_type_shape(&prim(PrimitiveTy::U8), &prim(PrimitiveTy::U8)));
    assert!(!c.generic_pattern_accepts_type_shape(&prim(PrimitiveTy::U8), &prim(PrimitiveTy::I8)));
    assert!(c.generic_pattern_accepts_type_shape(&ptr(true, gp(T)), &ptr(false, prim(PrimitiveTy::U8))));
    assert!(!c.generic_pattern_accepts_type_shape(&ptr(false, gp(T)), &ptr(true, prim(PrimitiveTy::U8))));
}

#[test]
fn shape_check_sees_slices_through_array_pointers() {
    let c = checker();
    let pattern = slice(true, gp(T));
    let actual = ptr(true, array(ArrayLen::ConstValue(2), prim(PrimitiveTy::U8)));
    assert!(c.generic_pattern_accepts_type_shape(&pattern, &actual));
    assert!(!c.generic_pattern_accepts_type_shape(&pattern, &ptr(true, prim(PrimitiveTy::U8))));
}

#[test]
fn shape_check_of_compile_time_arguments() {
    let c = checker();
    let pattern = Ty::Nominal { def_id: GlobalDefId::new(0, 1), args: TyList::Nil, const_args: consts(vec![param_arg(N)]) };
    let actual = Ty::Nominal { def_id: GlobalDefId::new(0, 1), args: TyList::Nil, const_args: consts(vec![usize_arg(8)]) };
    assert!(c.generic_pattern_accepts_type_shape(&pattern, &actual));
    let other = Ty::Nominal { def_id: GlobalDefId::new(0, 2), args: TyList::Nil, const_args: consts(vec![usize_arg(8)]) };
    assert!(!c.generic_pattern_accepts_type_shape(&pattern, &other));
    assert!(c.const_generic_array_len_pattern_accepts(&ArrayLen::GenericParam(N), &ArrayLen::ConstValue(1)));
    assert!(!c.const_generic_array_len_pattern_accepts(&ArrayLen::GenericParam(N), &ArrayLen::Infer));
}

#[test]
fn inference_binds_from_expected_type() {
    let mut c = checker();
    let mut s = SymbolMap::new();
    let pattern = ptr(true, nominal(1, vec![gp(T)]));
    let actual = ptr(false, nominal(1, vec![prim(PrimitiveTy::U32)]));
    c.infer_generics_from_type(&pattern, &actual, &mut s, span());
    assert!(ty_eq(s.get(T).unwrap(), &prim(PrimitiveTy::U32)));
    assert!(c.diagnostics.is_empty());
}

#[test]
fn inference_reports_conflicting_types() {
    let mut c = checker();
    let mut s = SymbolMap::new();
    s.insert(T, prim(PrimitiveTy::I8));
    c.infer_generics_from_type(&gp(T), &prim(PrimitiveTy::U8), &mut s, span());
    assert!(ty_eq(s.get(T).unwrap(), &prim(PrimitiveTy::I8)));
    assert_eq!(c.diagnostics.len(), 1);
    match &c.diagnostics[0] {
        Diagnostic::ConflictingInferredType { span: at, name, expected, actual } => {
            assert_eq!(*at, span());
            assert_eq!(*name, T);
            assert!(ty_eq(expected, &prim(PrimitiveTy::I8)));
            assert!(ty_eq(actual, &prim(PrimitiveTy::U8)));
        },
        other => panic!("unexpected diagnostic {other:?}"),
    }
}

#[test]
fn inference_replaces_a_parameter_bound_to_itself() {
    let mut c = checker();
    let mut s = SymbolMap::new();
    s.insert(T, gp(T));
    c.infer_generics_from_type(&gp(T), &prim(PrimitiveTy::U16), &mut s, span());
    assert!(ty_eq(s.get(T).unwrap(), &prim(PrimitiveTy::U16)));
    assert!(c.diagnostics.is_empty());
}

#[test]
fn inference_ignores_incompatible_pointers() {
    let mut c = checker();
    let mut s = SymbolMap::new();
    c.infer_generics_from_type(&ptr(false, gp(T)), &ptr(true, prim(PrimitiveTy::U16)), &mut s, span());
    assert_eq!(s.len(), 0);
}

#[test]
fn inference_through_trait_object_bindings() {
    let mut c = checker();
    let mut s = SymbolMap::new();
    c.infer_generics_from_type(&object(gp(T)), &object(prim(PrimitiveTy::Bool)), &mut s, span());
    assert!(ty_eq(s.get(T).unwrap(), &prim(PrimitiveTy::Bool)));
}

#[test]
fn binding_pairing_returns_positions() {
    let c = checker();
    let mut s = SymbolMap::new();
    let patterns = match object(gp(T)) {
        Ty::TraitObject { bindings, .. } => bindings,
        _ => unreachable!(),
    };
    let actuals = match object(prim(PrimitiveTy::I32)) {
        Ty::TraitObject { bindings, .. } => bindings,
        _ => unreachable!(),
    };
    assert_eq!(c.infer_associated_type_bindings(&patterns, &actuals, &mut s), Some(vec![0]));
    assert!(ty_eq(s.get(T).unwrap(), &prim(PrimitiveTy::I32)));
    let mut fresh = SymbolMap::new();
    assert_eq!(c.infer_associated_type_bindings(&patterns, &BindingList::Nil, &mut fresh), None);
    assert_eq!(fresh.len(), 0);
}

#[test]
fn const_inference_reads_array_lengths() {
    let mut c = checker();
    let mut cm = SymbolMap::new();
    let pattern = ptr(true, array(ArrayLen::GenericParam(N), gp(T)));
    let actual = ptr(true, array(ArrayLen::ConstValue(7), prim(PrimitiveTy::U8)));
    c.infer_const_generics_from_type(&pattern, &actual, &mut cm, span());
    let bound = cm.get(N).unwrap();
    assert!(matches!(bound.value, ConstGenericValue::Int(IntConst { bits: 7, is_signed: false })));
    assert!(ty_eq(&bound.ty, &prim(PrimitiveTy::Usize)));
    assert!(c.diagnostics.is_empty());
}

#[test]
fn const_inference_reports_conflicting_values() {
    let mut c = checker();
    let mut cm = SymbolMap::new();
    cm.insert(N, usize_arg(2));
    let pattern = array(ArrayLen::GenericParam(N), prim(PrimitiveTy::U8));
    let actual = array(ArrayLen::ConstValue(3), prim(PrimitiveTy::U8));
    c.infer_const_generics_from_type(&pattern, &actual, &mut cm, span());
    assert!(matches!(cm.get(N).unwrap().value, ConstGenericValue::Int(IntConst { bits: 2, .. })));
    assert_eq!(c.diagnostics.len(), 1);
    assert!(matches!(c.diagnostics[0], Diagnostic::ConflictingInferredValue { name: N, .. }));
}

#[test]
fn const_inference_reads_nominal_arguments() {
    let mut c = checker();
    let mut cm = SymbolMap::new();
    let pattern = Ty::Nominal { def_id: GlobalDefId::new(0, 1), args: TyList::Nil, const_args: consts(vec![param_arg(N)]) };
    let actual = Ty::Nominal { def_id: GlobalDefId::new(0, 1), args: TyList::Nil, const_args: consts(vec![usize_arg(11)]) };
    c.infer_const_generics_from_type(&pattern, &actual, &mut cm, span());
    assert!(matches!(cm.get(N).unwrap().value, ConstGenericValue::Int(IntConst { bits: 11, .. })));
}

#[test]
fn substituting_match_bindings_gives_the_matched_type() {
    let c = checker();
    let mut s = SymbolMap::new();
    let pattern = Ty::ErrorUnion {
        error: Box::new(nominal(1, vec![gp(T)])),
        value: Box::new(ptr(false, Ty::Optional { elem: Box::new(gp(U)) })),
    };
    let actual = Ty::ErrorUnion {
        error: Box::new(nominal(1, vec![prim(PrimitiveTy::I32)])),
        value: Box::new(ptr(false, Ty::Optional { elem: Box::new(prim(PrimitiveTy::Char)) })),
    };
    assert!(c.match_type_pattern(&pattern, &actual, &mut s));
    let rebuilt = nia_body_check::subst::substitute_generics(&pattern, &s);
    assert!(ty_eq(&rebuilt, &actual));
}

fn known(ty: Ty) -> nia_body_check::inferred::InferredType {
    nia_body_check::inferred::InferredType::Known(ty)
}

fn inferred_list(items: Vec<nia_body_check::inferred::InferredType>) -> nia_body_check::inferred::InferredList {
    let mut l = nia_body_check::inferred::InferredList::Nil;
    for item in items.into_iter().rev() {
        l = nia_body_check::inferred::InferredList::Cons(Box::new(item), Box::new(l));
    }
    l
}

#[test]
fn partial_types_materialize_only_when_complete() {
    let complete = InferredType::Pointer { is_readonly: true, elem: Box::new(known(prim(PrimitiveTy::U8))) };
    assert!(ty_eq(&materialize_inferred_type(&complete).unwrap(), &ptr(true, prim(PrimitiveTy::U8))));
    let partial = InferredType::Tuple(inferred_list(vec![known(prim(PrimitiveTy::U8)), InferredType::Unknown]));
    assert!(materialize_inferred_type(&partial).is_none());
    let callable = InferredType::Callable { params: inferred_list(vec![]), return_type: Box::new(known(prim(PrimitiveTy::U8))) };
    assert!(materialize_inferred_type(&callable).is_none());
}

#[test]
fn closure_signature_feeds_inference() {
    let mut c = checker();
    let mut s = SymbolMap::new();
    let pattern = Ty::FunctionPointer {
        params: list(vec![gp(T)]),
        return_type: Box::new(gp(U)),
        is_variadic: false,
    };
    let signature = InferredClosureSignature {
        params: inferred_list(vec![known(prim(PrimitiveTy::I16))]),
        return_type: InferredType::Unknown,
    };
    assert!(c.infer_generics_from_closure_signature(&pattern, Some(&signature), None, &mut s, span()));
    assert!(ty_eq(s.get(T).unwrap(), &prim(PrimitiveTy::I16)));
    assert!(s.get(U).is_none());
}

#[test]
fn rejected_closure_signature_changes_nothing() {
    let mut c = checker();
    let mut s = SymbolMap::new();
    let pattern = Ty::FunctionPointer {
        params: list(vec![gp(T), prim(PrimitiveTy::Bool)]),
        return_type: Box::new(gp(U)),
        is_variadic: false,
    };
    let signature = InferredClosureSignature {
        params: inferred_list(vec![known(prim(PrimitiveTy::I16)), known(prim(PrimitiveTy::U8))]),
        return_type: InferredType::Unknown,
    };
    assert!(!c.infer_generics_from_closure_signature(&pattern, Some(&signature), None, &mut s, span()));
    assert_eq!(s.len(), 0);
    assert!(c.diagnostics.is_empty());
    let readonly_callable = Ty::Callable { is_readonly: false, params: list(vec![gp(T)]), return_type: Box::new(gp(U)) };
    let one = InferredClosureSignature { params: inferred_list(vec![known(prim(PrimitiveTy::I16))]), return_type: InferredType::Unknown };
    assert!(!c.infer_generics_from_closure_signature(&readonly_callable, Some(&one), Some(true), &mut s, span()));
    assert!(c.infer_generics_from_closure_signature(&readonly_callable, Some(&one), Some(false), &mut s, span()));
    assert!(!c.infer_generics_from_closure_signature(&readonly_callable, None, Some(false), &mut s, span()));
}

#[test]
fn partial_shapes_accept_unknown_parts() {
    let c = checker();
    let pattern = Ty::Optional { elem: Box::new(ptr(true, gp(T))) };
    let actual = InferredType::Optional(Box::new(InferredType::Pointer { is_readonly: false, elem: Box::new(InferredType::Unknown) }));
    assert!(c.generic_pattern_accepts_inferred_shape(&pattern, &actual));
    let wrong = InferredType::Optional(Box::new(InferredType::Tuple(inferred_list(vec![InferredType::Unknown]))));
    assert!(!c.generic_pattern_accepts_inferred_shape(&pattern, &wrong));
}

#[test]
fn a_subsuming_pattern_is_an_instance_of_the_specific_one() {
    let c = checker();
    let general = ptr(true, Ty::ErrorUnion { error: Box::new(gp(T)), value: Box::new(gp(T)) });
    let specific = ptr(true, Ty::ErrorUnion { error: Box::new(prim(PrimitiveTy::U8)), value: Box::new(prim(PrimitiveTy::U8)) });
    assert!(c.pattern_subsumes(&general, &specific));
    let mut s = SymbolMap::new();
    s.insert(T, prim(PrimitiveTy::U8));
    let instance = nia_body_check::subst::substitute_generics_and_consts(&general, &s, &SymbolMap::new());
    assert!(nia_body_check::ty::ty_eq(&instance, &specific));
    let mixed = ptr(true, Ty::ErrorUnion { error: Box::new(prim(PrimitiveTy::U8)), value: Box::new(prim(PrimitiveTy::U16)) });
    assert!(!c.pattern_subsumes(&general, &mixed));
}
