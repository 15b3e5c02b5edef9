use nia_body_check::names::{BuiltinTraitNames, PrimitiveNames};
use nia_body_check::atomic::{AtomicOrderContext, CheckedAtomicOrder};
use nia_body_check::candidates::{MethodCandidate, TraitMethodCandidate};
use nia_body_check::extension_source::BodyVisibleExtensionSource;
use nia_body_check::checker::{BodyChecker, Diagnostic, GenericParamFact, ProviderDemand, ProviderRequest};
use nia_body_check::diagnostic_text::DiagnosticCode;
use nia_body_check::expressions::{Expr, ExprKind, Exprs, NumericSuffix, UnaryOp};
use nia_body_check::method_dispatch::{viable_method_candidates, MethodCallOutcome, MethodCallRoute, MethodDispatch};
use nia_body_check::ids::{GlobalDefId, Span};
use nia_body_check::symbol_map::SymbolMap;
use nia_body_check::table::Table;
use nia_body_check::ty::{
    ty_eq, ConstArgList, ConstGenericArg, ConstGenericValue, DeepClone, IntConst, PrimitiveTy, Ty, TyList,
};

const T: u32 = 10;
const U: u32 = 11;
const N: u32 = 12;
const NAME: u32 = 300;

fn def(def_id: u32) -> GlobalDefId {
    GlobalDefId::new(0, def_id)
}

fn checker(params: Vec<(GlobalDefId, Vec<Ty>)>) -> BodyChecker {
    BodyChecker {
        module_id: 0,
        const_expr_values: vec![],
        layout_values: vec![],
        local_def_names: Table::new(),
        program_def_names: None,
        primitive_names: PrimitiveNames { names: [1000, 1001, 1002, 1003, 1004, 1005, 1006, 800, 1008, 1009, 1010, 1011, 1012, 1013, 1014, 1015, 1016, 1017] },
        builtin_trait_names: BuiltinTraitNames { names: [900, 1101, 1102, 1103, 1104, 1105, 1106, 1107, 1108, 1109, 1110, 1111, 1112, 1113, 1114, 1115, 1116, 1117, 1118, 1119] },
        source_path: 0,
        module_source_paths: None,
        current_def_id: None,
        provider_demands: vec![],
        provider_demands_by_function: vec![],
        method_signature_receivers: Table::new(),
        method_receiver_kinds: Table::new(),
        program_traits_by_method_name: Table::new(),
        traits_by_method_name: Table::new(),
        extension_methods: Table::new(),
        nominal_generics: Table::new(),
        def_generic_params: Table::new(),
        type_aliases: Table::new(),
        function_param_types: Table { entries: params },
        output_assoc_name: 90,
        target_assoc_name: 91,
        extensions: BodyVisibleExtensionSource::Lazy { loaded: None },
        program_extension_methods: vec![],
        extension_normalization_modules: None,
        extension_method_lookup_cache: Table::new(),
        callable_extension_methods_by_name: Table::new(),
        local_def_kinds: Table::new(),
        proven_trait_obligations: vec![],
        local_types: Table::new(),
        current_return: Ty::Primitive(PrimitiveTy::Void),
        enum_defs: Table::new(),
        projection_facts: vec![],
        expr_node_types: Table::new(),
        diagnostics: vec![],
    }
}

fn span() -> Span {
    Span { start: 3, end: 8 }
}

fn prim(p: PrimitiveTy) -> Ty {
    Ty::Primitive(p)
}

fn list(items: Vec<Ty>) -> TyList {
    let mut l = TyList::Nil;
    for item in items.into_iter().rev() {
        l = TyList::Cons(Box::new(item), Box::new(l));
    }
    l
}

fn nominal(def_id: u32, args: Vec<Ty>) -> Ty {
    Ty::Nominal { def_id: def(def_id), args: list(args), const_args: ConstArgList::Nil }
}

fn method(target_ty: Ty, method_id: u32) -> MethodCandidate {
    MethodCandidate {
        self_ty: prim(PrimitiveTy::U8),
        target_ty,
        method_id: def(method_id),
        target_substitutions: SymbolMap::new(),
        target_const_substitutions: SymbolMap::new(),
    }
}

fn trait_method(self_ty: Ty, method_id: u32) -> TraitMethodCandidate {
    TraitMethodCandidate {
        trait_id: def(40),
        trait_method_id: def(41),
        method_id: def(method_id),
        self_ty,
        trait_generics: vec![],
        trait_args: TyList::Nil,
        trait_const_args: ConstArgList::Nil,
        has_default: false,
        is_assumed: false,
    }
}

#[test]
fn specific_extension_method_wins() {
    let mut c = checker(vec![]);
    let general = method(nominal(1, vec![Ty::GenericParam(T)]), 50);
    let specific = method(nominal(1, vec![prim(PrimitiveTy::U8)]), 51);
    assert!(c.method_candidate_more_specific(&specific, &general));
    assert!(!c.method_candidate_more_specific(&general, &specific));
    let candidates = vec![general, specific];
    let chosen = c.single_method_candidate(span(), NAME, &candidates).unwrap();
    assert_eq!(chosen.method_id, def(51));
    assert!(c.diagnostics.is_empty());
}

#[test]
fn unrelated_extension_methods_are_ambiguous() {
    let mut c = checker(vec![]);
    let candidates = vec![method(nominal(1, vec![]), 50), method(nominal(1, vec![]), 51)];
    assert!(c.single_method_candidate(span(), NAME, &candidates).is_none());
    assert_eq!(c.diagnostics.len(), 1);
    assert!(matches!(c.diagnostics[0], Diagnostic::AmbiguousMethod { name: NAME, .. }));
    let mut d = checker(vec![]);
    assert!(d.single_method_candidate(span(), NAME, &Vec::new()).is_none());
    assert!(d.diagnostics.is_empty());
}

#[test]
fn parameters_decide_between_equal_targets() {
    let mut c = checker(vec![
        (def(50), vec![prim(PrimitiveTy::U8), Ty::GenericParam(T)]),
        (def(51), vec![prim(PrimitiveTy::U8), prim(PrimitiveTy::I32)]),
    ]);
    let general = method(nominal(1, vec![]), 50);
    let specific = method(nominal(1, vec![]), 51);
    assert!(c.method_candidate_more_specific(&specific, &general));
    let candidates = vec![general, specific];
    assert_eq!(c.single_method_candidate(span(), NAME, &candidates).unwrap().method_id, def(51));
    let params = c.method_candidate_param_types(&candidates[0], &vec![prim(PrimitiveTy::U8), Ty::SelfParam]);
    assert_eq!(params.len(), 1);
    assert!(ty_eq(&params[0], &prim(PrimitiveTy::U8)));
    assert!(c.method_candidate_param_types(&candidates[0], &vec![]).is_empty());
}

#[test]
fn specific_trait_method_wins() {
    let mut c = checker(vec![]);
    let general = trait_method(Ty::GenericParam(T), 60);
    let specific = trait_method(prim(PrimitiveTy::U8), 61);
    assert!(c.trait_method_candidate_more_specific(&specific, &general));
    let candidates = vec![general, specific];
    assert_eq!(c.single_trait_method_candidate(span(), NAME, &candidates).unwrap().method_id, def(61));
    let same = vec![trait_method(prim(PrimitiveTy::U8), 62), trait_method(prim(PrimitiveTy::U8), 63)];
    assert!(c.single_trait_method_candidate(span(), NAME, &same).is_none());
    assert!(matches!(c.diagnostics[0], Diagnostic::AmbiguousTraitMethod { name: NAME, .. }));
}

#[test]
fn different_trait_methods_are_not_compared() {
    let c = checker(vec![]);
    let mut other = trait_method(prim(PrimitiveTy::U8), 61);
    other.trait_method_id = def(99);
    assert!(!c.trait_method_candidate_more_specific(&other, &trait_method(Ty::GenericParam(T), 60)));
}

#[test]
fn missing_generics_are_reported_in_order() {
    let mut c = checker(vec![]);
    let mut s = SymbolMap::new();
    s.insert(U, prim(PrimitiveTy::Bool));
    assert!(!c.method_generics_are_complete(span(), &vec![T, U, N], &s));
    assert_eq!(c.diagnostics.len(), 2);
    assert!(matches!(c.diagnostics[0], Diagnostic::UninferredGeneric { name: T, .. }));
    assert!(matches!(c.diagnostics[1], Diagnostic::UninferredGeneric { name: N, .. }));
    assert!(c.complete_instance_args_for_generics(span(), &vec![T], &s).is_none());
    let args = c.complete_instance_args_for_generics(span(), &vec![U, U], &s).unwrap();
    assert_eq!(args.len(), 2);
    assert!(ty_eq(&args[1], &prim(PrimitiveTy::Bool)));
    assert_eq!(c.diagnostics.len(), 3);
}

#[test]
fn compile_time_arguments_are_collected() {
    let mut c = checker(vec![]);
    let mut s = SymbolMap::new();
    s.insert(N, ConstGenericArg { ty: Box::new(prim(PrimitiveTy::Usize)), value: ConstGenericValue::Int(IntConst::unsigned(5)) });
    let params = vec![
        GenericParamFact { name: T, is_comptime: false },
        GenericParamFact { name: N, is_comptime: true },
    ];
    let args = c.complete_const_instance_args_for_generic_params(span(), &params, &s).unwrap();
    assert_eq!(args.len(), 1);
    assert!(matches!(args[0].value, ConstGenericValue::Int(IntConst { bits: 5, .. })));
    let missing = vec![GenericParamFact { name: U, is_comptime: true }];
    assert!(c.complete_const_instance_args_for_generic_params(span(), &missing, &s).is_none());
    assert!(matches!(c.diagnostics[0], Diagnostic::UninferredConstGeneric { name: U, .. }));
}

fn dispatch(receiver_ty: Ty, viable: Vec<MethodCandidate>, traits: Vec<TraitMethodCandidate>) -> MethodDispatch {
    MethodDispatch {
        receiver_ty,
        accessible_candidates: viable.len(),
        inaccessible_candidates: 0,
        viable_candidates: viable,
        trait_candidates: traits,
        trait_candidates_searched: true,
        dynamic_candidates: 0,
        builtin_fallbacks_tried: true,
        receiver_supports_field_access: false,
    }
}

#[test]
fn trait_search_comes_first_when_nothing_fits() {
    let c = checker(vec![]);
    let mut d = dispatch(prim(PrimitiveTy::U8), vec![], vec![]);
    d.trait_candidates_searched = false;
    d.dynamic_candidates = 1;
    assert_eq!(c.method_call_route(&d), MethodCallRoute::SearchTraitCandidates);
    d.trait_candidates_searched = true;
    assert_eq!(c.method_call_route(&d), MethodCallRoute::DynamicTraitCall);
}

#[test]
fn dynamic_then_assumed_then_visible_trait_methods() {
    let c = checker(vec![]);
    let mut assumed = trait_method(prim(PrimitiveTy::U8), 60);
    assumed.is_assumed = true;
    let mut d = dispatch(prim(PrimitiveTy::U8), vec![method(prim(PrimitiveTy::U8), 50)], vec![
        trait_method(prim(PrimitiveTy::U8), 61),
        assumed,
    ]);
    d.dynamic_candidates = 2;
    assert_eq!(c.method_call_route(&d), MethodCallRoute::DynamicTraitCall);
    d.dynamic_candidates = 0;
    assert_eq!(c.method_call_route(&d), MethodCallRoute::AssumedTraitCall);
    let d = dispatch(prim(PrimitiveTy::U8), vec![method(prim(PrimitiveTy::U8), 50)], vec![
        trait_method(prim(PrimitiveTy::U8), 61),
    ]);
    assert_eq!(c.method_call_route(&d), MethodCallRoute::SingleCandidate);
    let d = dispatch(prim(PrimitiveTy::U8), vec![], vec![trait_method(prim(PrimitiveTy::U8), 61)]);
    assert_eq!(c.method_call_route(&d), MethodCallRoute::VisibleTraitCall);
}

#[test]
fn builtin_methods_are_tried_before_errors() {
    let mut c = checker(vec![]);
    let mut d = dispatch(prim(PrimitiveTy::U8), vec![], vec![]);
    d.builtin_fallbacks_tried = false;
    d.accessible_candidates = 3;
    assert_eq!(c.method_call_route(&d), MethodCallRoute::BuiltinFallbacks);
    assert!(matches!(
        c.resolve_method_call(span(), NAME, &d),
        MethodCallOutcome::Continue(MethodCallRoute::BuiltinFallbacks)
    ));
    assert!(c.diagnostics.is_empty());
    assert!(c.provider_demands.is_empty());
}

#[test]
fn private_methods_are_reported_as_inaccessible() {
    let mut c = checker(vec![]);
    let mut d = dispatch(prim(PrimitiveTy::U8), vec![], vec![]);
    d.inaccessible_candidates = 2;
    assert!(matches!(c.resolve_method_call(span(), NAME, &d), MethodCallOutcome::ErrorType));
    assert!(matches!(c.diagnostics[..], [Diagnostic::InaccessibleMethod { name: NAME, .. }]));
    assert!(c.provider_demands.is_empty());
}

#[test]
fn several_methods_that_do_not_fit_are_no_overload() {
    let mut c = checker(vec![]);
    let mut d = dispatch(prim(PrimitiveTy::U8), vec![], vec![]);
    d.accessible_candidates = 2;
    d.inaccessible_candidates = 1;
    assert_eq!(c.method_call_route(&d), MethodCallRoute::NoMatchingOverload);
    assert!(matches!(c.resolve_method_call(span(), NAME, &d), MethodCallOutcome::ErrorType));
    assert_eq!(c.diagnostics.len(), 1);
    match &c.diagnostics[0] {
        Diagnostic::NoMatchingMethodOverload { name, receiver, .. } => {
            assert_eq!(*name, NAME);
            assert!(ty_eq(receiver, &prim(PrimitiveTy::U8)));
        },
        _ => panic!("expected a missing overload"),
    }
}

#[test]
fn unknown_method_reports_and_demands() {
    let mut c = checker(vec![]);
    let d = dispatch(prim(PrimitiveTy::U8), vec![], vec![]);
    assert!(matches!(c.resolve_method_call(span(), NAME, &d), MethodCallOutcome::ErrorType));
    assert!(matches!(c.diagnostics[..], [Diagnostic::UnknownMethod { name: NAME, .. }]));
    assert_eq!(
        c.provider_demands,
        vec![ProviderDemand {
            source_path: 0,
            request: ProviderRequest::Method { target_type_name: Some(800), method_name: NAME },
        }]
    );
}

#[test]
fn missing_method_on_field_receiver_only_demands() {
    let mut c = checker(vec![]);
    let mut d = dispatch(prim(PrimitiveTy::U8), vec![], vec![]);
    d.receiver_supports_field_access = true;
    assert_eq!(c.method_call_route(&d), MethodCallRoute::NoCandidate);
    assert!(matches!(c.resolve_method_call(span(), NAME, &d), MethodCallOutcome::NoType));
    assert!(c.diagnostics.is_empty());
    assert_eq!(c.provider_demands.len(), 1);
    let mut e = checker(vec![]);
    let d = dispatch(Ty::Error, vec![], vec![]);
    assert_eq!(e.method_call_route(&d), MethodCallRoute::NoCandidate);
    assert!(matches!(e.resolve_method_call(span(), NAME, &d), MethodCallOutcome::NoType));
    assert!(e.diagnostics.is_empty());
    assert!(e.provider_demands.is_empty());
}

#[test]
fn fitting_extension_method_is_selected() {
    let mut c = checker(vec![]);
    let d = dispatch(prim(PrimitiveTy::U8), vec![
        method(nominal(1, vec![Ty::GenericParam(T)]), 50),
        method(nominal(1, vec![prim(PrimitiveTy::U8)]), 51),
    ], vec![]);
    match c.resolve_method_call(span(), NAME, &d) {
        MethodCallOutcome::Selected(m) => assert_eq!(m.method_id, def(51)),
        _ => panic!("expected a selected method"),
    }
    let d = dispatch(prim(PrimitiveTy::U8), vec![method(nominal(1, vec![]), 50), method(nominal(1, vec![]), 51)], vec![]);
    assert!(matches!(c.resolve_method_call(span(), NAME, &d), MethodCallOutcome::ErrorType));
    assert!(matches!(c.diagnostics[..], [Diagnostic::AmbiguousMethod { name: NAME, .. }]));
}

fn node(node_key: u32, kind: ExprKind) -> Expr {
    Expr { node_key, span: span(), kind, projection: None }
}

fn one(node_key: u32, kind: ExprKind) -> Exprs {
    Exprs { exprs: vec![node(node_key, kind)] }
}

fn last(b: &Exprs) -> usize {
    b.exprs.len() - 1
}

#[test]
fn unsuffixed_literals_have_their_default_types() {
    let mut c = checker(vec![]);
    assert!(ty_eq(&c.check_expr(&one(1, ExprKind::Bool), 0), &prim(PrimitiveTy::Bool)));
    assert!(ty_eq(&c.check_expr(&one(2, ExprKind::Char), 0), &prim(PrimitiveTy::Char)));
    assert!(ty_eq(&c.check_expr(&one(3, ExprKind::ByteChar), 0), &prim(PrimitiveTy::U8)));
    assert!(ty_eq(
        &c.check_expr(&one(4, ExprKind::Integer { value: 7, suffix: NumericSuffix::Plain }), 0),
        &prim(PrimitiveTy::I32)
    ));
    assert!(ty_eq(&c.check_expr(&one(5, ExprKind::Float(NumericSuffix::Plain)), 0), &prim(PrimitiveTy::Float64)));
    assert!(ty_eq(c.expr_node_types.get(&4).unwrap(), &prim(PrimitiveTy::I32)));
    assert!(ty_eq(c.expr_node_types.get(&1).unwrap(), &prim(PrimitiveTy::Bool)));
    assert!(c.diagnostics.is_empty());
}

#[test]
fn suffixes_give_the_literal_type() {
    let mut c = checker(vec![]);
    let u64_lit = one(1, ExprKind::Integer { value: 7, suffix: NumericSuffix::Typed(PrimitiveTy::U64) });
    assert!(ty_eq(&c.check_expr(&u64_lit, 0), &prim(PrimitiveTy::U64)));
    let f32_lit = one(2, ExprKind::Float(NumericSuffix::Typed(PrimitiveTy::Float32)));
    assert!(ty_eq(&c.check_expr(&f32_lit, 0), &prim(PrimitiveTy::Float32)));
    assert!(ty_eq(&c.check_expr(&one(3, ExprKind::Integer { value: 7, suffix: NumericSuffix::Invalid }), 0), &Ty::Error));
    assert!(ty_eq(&c.check_expr(&one(4, ExprKind::Float(NumericSuffix::Invalid)), 0), &Ty::Error));
    assert!(matches!(
        c.diagnostics[..],
        [Diagnostic::InvalidIntegerSuffix { .. }, Diagnostic::InvalidFloatSuffix { .. }]
    ));
}

#[test]
fn non_values_are_errors_without_report() {
    let mut c = checker(vec![]);
    for (key, kind) in [
        ExprKind::Error,
        ExprKind::Raw,
        ExprKind::Underscore,
        ExprKind::PathRoot,
        ExprKind::TypeTarget,
        ExprKind::TraitTarget,
    ]
    .into_iter()
    .enumerate()
    {
        assert!(ty_eq(&c.check_expr(&one(key as u32, kind), 0), &Ty::Error));
    }
    assert!(c.diagnostics.is_empty());
}

#[test]
fn null_needs_an_optional_expected_type() {
    let mut c = checker(vec![]);
    let optional = Ty::Optional { elem: Box::new(prim(PrimitiveTy::U8)) };
    let null = one(7, ExprKind::Null);
    assert!(ty_eq(&c.check_expr_with_expected(&null, 0, Some(&optional)), &optional));
    assert!(ty_eq(c.expr_node_types.get(&7).unwrap(), &optional));
    assert!(c.diagnostics.is_empty());
    assert!(ty_eq(&c.check_expr(&null, 0), &Ty::Error));
    assert!(ty_eq(c.expr_node_types.get(&7).unwrap(), &Ty::Error));
    assert!(ty_eq(&c.check_expr_with_expected(&null, 0, Some(&prim(PrimitiveTy::U8))), &Ty::Error));
    assert_eq!(c.diagnostics.len(), 2);
    assert!(matches!(c.diagnostics[0], Diagnostic::NullWithoutExpectedType { .. }));
    match &c.diagnostics[1] {
        Diagnostic::NullNotOptional { found, .. } => assert!(ty_eq(found, &prim(PrimitiveTy::U8))),
        _ => panic!("expected a non-optional null"),
    }
}

#[test]
fn compile_time_projection_wins_for_literals() {
    let mut c = checker(vec![]);
    let expected = prim(PrimitiveTy::U16);
    let mut lit = one(1, ExprKind::Integer { value: 7, suffix: NumericSuffix::Plain });
    lit.exprs[0].projection = Some(expected.deep_clone());
    assert!(ty_eq(&c.check_expr_with_expected(&lit, 0, Some(&expected)), &expected));
    assert!(ty_eq(&c.check_expr_with_expected(&lit, 0, None), &prim(PrimitiveTy::I32)));
    let mut invalid = one(2, ExprKind::Integer { value: 7, suffix: NumericSuffix::Invalid });
    invalid.exprs[0].projection = Some(expected.deep_clone());
    assert!(ty_eq(&c.check_expr_with_expected(&invalid, 0, Some(&expected)), &expected));
    assert!(c.diagnostics.is_empty());
    let mut root = one(3, ExprKind::PathRoot);
    root.exprs[0].projection = Some(Ty::Error);
    assert!(ty_eq(&c.check_expr_with_expected(&root, 0, Some(&expected)), &Ty::Error));
}

#[test]
fn suffixed_integer_literals_must_fit_their_type() {
    let mut c = checker(vec![]);
    let fits = one(1, ExprKind::Integer { value: 255, suffix: NumericSuffix::Typed(PrimitiveTy::U8) });
    assert!(ty_eq(&c.check_expr(&fits, 0), &prim(PrimitiveTy::U8)));
    assert!(c.diagnostics.is_empty());
    let too_big = one(2, ExprKind::Integer { value: 256, suffix: NumericSuffix::Typed(PrimitiveTy::U8) });
    assert!(ty_eq(&c.check_expr(&too_big, 0), &prim(PrimitiveTy::U8)));
    assert!(matches!(c.diagnostics[..], [Diagnostic::IntegerLiteralOutOfRange { ty: PrimitiveTy::U8, .. }]));
    let signed = one(3, ExprKind::Integer { value: 128, suffix: NumericSuffix::Typed(PrimitiveTy::I8) });
    c.check_expr(&signed, 0);
    assert_eq!(c.diagnostics.len(), 2);
    let plain = one(4, ExprKind::Integer { value: 1 << 40, suffix: NumericSuffix::Plain });
    assert!(ty_eq(&c.check_expr(&plain, 0), &prim(PrimitiveTy::I32)));
    assert_eq!(c.diagnostics.len(), 2);
    let wide = one(5, ExprKind::Integer { value: u64::MAX as u128, suffix: NumericSuffix::Typed(PrimitiveTy::Usize) });
    c.check_expr(&wide, 0);
    assert_eq!(c.diagnostics.len(), 2);
}

#[test]
fn names_take_their_types_or_are_reported() {
    let mut c = checker(vec![]);
    c.local_types.set(4, prim(PrimitiveTy::U16));
    assert!(ty_eq(&c.check_expr(&one(1, ExprKind::LocalName(4)), 0), &prim(PrimitiveTy::U16)));
    assert!(ty_eq(&c.check_expr(&one(2, ExprKind::Value(prim(PrimitiveTy::Char))), 0), &prim(PrimitiveTy::Char)));
    assert!(c.diagnostics.is_empty());
    assert!(ty_eq(&c.check_expr(&one(3, ExprKind::LocalName(5)), 0), &Ty::Error));
    assert!(ty_eq(&c.check_expr(&one(4, ExprKind::UnresolvedName), 0), &Ty::Error));
    assert!(matches!(
        c.diagnostics[..],
        [Diagnostic::LocalUsedBeforeType { .. }, Diagnostic::NameUnresolved { .. }]
    ));
}

#[test]
fn a_reference_points_at_its_operand() {
    let mut c = checker(vec![]);
    let b = Exprs { exprs: vec![node(1, ExprKind::Bool), node(2, ExprKind::Ref { is_readonly: true, inner: 0 })] };
    let pointer = Ty::Pointer { is_readonly: true, elem: Box::new(prim(PrimitiveTy::Bool)) };
    assert!(ty_eq(&c.check_expr(&b, 1), &pointer));
    assert!(ty_eq(c.expr_node_types.get(&1).unwrap(), &prim(PrimitiveTy::Bool)));
    assert!(ty_eq(c.expr_node_types.get(&2).unwrap(), &pointer));
    assert!(c.diagnostics.is_empty());
    let void = Exprs {
        exprs: vec![node(3, ExprKind::Value(prim(PrimitiveTy::Void))), node(4, ExprKind::Ref { is_readonly: false, inner: 0 })],
    };
    let t = c.check_expr(&void, 1);
    assert!(ty_eq(&t, &Ty::Pointer { is_readonly: false, elem: Box::new(prim(PrimitiveTy::Void)) }));
    assert!(matches!(c.diagnostics[..], [Diagnostic::InvalidReferenceTarget { .. }]));
}

#[test]
fn a_dereference_gives_the_pointee() {
    let mut c = checker(vec![]);
    let pointer = Ty::Pointer { is_readonly: false, elem: Box::new(prim(PrimitiveTy::U8)) };
    let b = Exprs { exprs: vec![node(1, ExprKind::Value(pointer)), node(2, ExprKind::Deref(0))] };
    assert!(ty_eq(&c.check_expr(&b, 1), &prim(PrimitiveTy::U8)));
    assert!(c.diagnostics.is_empty());
    let bad = Exprs { exprs: vec![node(3, ExprKind::Bool), node(4, ExprKind::Deref(0))] };
    assert!(ty_eq(&c.check_expr(&bad, 1), &Ty::Error));
    match &c.diagnostics[..] {
        [Diagnostic::DerefOfNonPointer { found, .. }] => assert!(ty_eq(found, &prim(PrimitiveTy::Bool))),
        _ => panic!("expected a dereference of a non-pointer"),
    }
}

#[test]
fn logical_not_is_bool_and_needs_its_trait() {
    let mut c = checker(vec![]);
    let b = Exprs { exprs: vec![node(1, ExprKind::Bool), node(2, ExprKind::Unary { op: UnaryOp::Not, inner: 0 })] };
    assert!(ty_eq(&c.check_expr(&b, 1), &prim(PrimitiveTy::Bool)));
    assert!(matches!(c.diagnostics[..], [Diagnostic::TraitBoundNotSatisfied { .. }]));
}

#[test]
fn an_optional_wraps_its_operand() {
    let mut c = checker(vec![]);
    let b = Exprs { exprs: vec![node(1, ExprKind::Char), node(2, ExprKind::OptionalSome(0))] };
    let optional = Ty::Optional { elem: Box::new(prim(PrimitiveTy::Char)) };
    assert!(ty_eq(&c.check_expr(&b, 1), &optional));
    assert!(ty_eq(c.expr_node_types.get(&1).unwrap(), &prim(PrimitiveTy::Char)));
    assert!(c.diagnostics.is_empty());
}

#[test]
fn success_and_error_need_an_error_union() {
    let mut c = checker(vec![]);
    let union = Ty::ErrorUnion { error: Box::new(prim(PrimitiveTy::U8)), value: Box::new(prim(PrimitiveTy::Bool)) };
    let ok = Exprs { exprs: vec![node(1, ExprKind::Bool), node(2, ExprKind::ErrorOk(0))] };
    assert!(ty_eq(&c.check_expr_with_expected(&ok, 1, Some(&union)), &union));
    assert!(c.diagnostics.is_empty());
    let err = Exprs { exprs: vec![node(3, ExprKind::Bool), node(4, ExprKind::ErrorErr(0))] };
    assert!(ty_eq(&c.check_expr_with_expected(&err, 1, Some(&union)), &union));
    match &c.diagnostics[..] {
        [Diagnostic::TypeMismatch { expected, found, .. }] => {
            assert!(ty_eq(expected, &prim(PrimitiveTy::U8)));
            assert!(ty_eq(found, &prim(PrimitiveTy::Bool)));
        }
        _ => panic!("expected a mismatch on the error side"),
    }
    assert!(ty_eq(&c.check_expr(&ok, 1), &Ty::Error));
    assert!(matches!(c.diagnostics[1], Diagnostic::SuccessWithoutErrorUnion { .. }));
}

#[test]
fn propagation_unwraps_and_checks_the_return_type() {
    let mut c = checker(vec![]);
    let optional = Ty::Optional { elem: Box::new(prim(PrimitiveTy::U8)) };
    let b = Exprs { exprs: vec![node(1, ExprKind::Value(optional.deep_clone())), node(2, ExprKind::Try(0))] };
    c.current_return = optional.deep_clone();
    assert!(ty_eq(&c.check_expr(&b, 1), &prim(PrimitiveTy::U8)));
    assert!(c.diagnostics.is_empty());
    c.current_return = prim(PrimitiveTy::Void);
    assert!(ty_eq(&c.check_expr(&b, 1), &prim(PrimitiveTy::U8)));
    assert!(matches!(c.diagnostics[..], [Diagnostic::OptionalPropagationNeedsOptionalReturn { .. }]));
    let plain = Exprs { exprs: vec![node(3, ExprKind::Bool), node(4, ExprKind::Try(0))] };
    assert!(ty_eq(&c.check_expr(&plain, 1), &Ty::Error));
    assert!(matches!(c.diagnostics[1], Diagnostic::TryNeedsOptionalOrError { .. }));
}

#[test]
fn assignment_is_void_and_checks_its_right_side() {
    let mut c = checker(vec![]);
    c.local_types.set(4, prim(PrimitiveTy::U8));
    let b = Exprs {
        exprs: vec![
            node(1, ExprKind::LocalName(4)),
            node(2, ExprKind::Bool),
            node(3, ExprKind::Assign { lhs: 0, rhs: 1, is_plain: true }),
        ],
    };
    assert!(ty_eq(&c.check_expr(&b, last(&b)), &prim(PrimitiveTy::Void)));
    assert!(matches!(c.diagnostics[..], [Diagnostic::TypeMismatch { .. }]));
    let discard = Exprs {
        exprs: vec![
            node(5, ExprKind::Underscore),
            node(6, ExprKind::Bool),
            node(7, ExprKind::Assign { lhs: 0, rhs: 1, is_plain: false }),
        ],
    };
    assert!(ty_eq(&c.check_expr(&discard, 2), &prim(PrimitiveTy::Void)));
    assert!(matches!(c.diagnostics[1], Diagnostic::DiscardNeedsPlainAssign { .. }));
    assert!(c.expr_node_types.get(&5).is_none());
}

#[test]
fn casts_give_their_target_and_report_invalid_ones() {
    let mut c = checker(vec![]);
    let b = Exprs {
        exprs: vec![
            node(1, ExprKind::Value(prim(PrimitiveTy::U8))),
            node(2, ExprKind::Cast { inner: 0, target: prim(PrimitiveTy::U32) }),
        ],
    };
    assert!(ty_eq(&c.check_expr(&b, 1), &prim(PrimitiveTy::U32)));
    assert!(c.diagnostics.is_empty());
    let pointer = Ty::Pointer { is_readonly: true, elem: Box::new(prim(PrimitiveTy::U8)) };
    let bad = Exprs {
        exprs: vec![node(3, ExprKind::Bool), node(4, ExprKind::Cast { inner: 0, target: pointer.deep_clone() })],
    };
    assert!(ty_eq(&c.check_expr(&bad, 1), &pointer));
    assert!(matches!(c.diagnostics[..], [Diagnostic::InvalidCast { .. }]));
    let to_usize = Exprs {
        exprs: vec![
            node(5, ExprKind::Value(pointer)),
            node(6, ExprKind::Cast { inner: 0, target: prim(PrimitiveTy::Usize) }),
        ],
    };
    assert!(ty_eq(&c.check_expr(&to_usize, 1), &prim(PrimitiveTy::Usize)));
    assert_eq!(c.diagnostics.len(), 1);
}

#[test]
fn diagnostics_have_a_code_and_summary() {
    let unknown = Diagnostic::UnknownMethod { span: span(), name: NAME, receiver: prim(PrimitiveTy::U8) };
    assert_eq!(unknown.code(), DiagnosticCode::NameResolution);
    assert_eq!(unknown.summary(), "unknown method");
    let null = Diagnostic::NullWithoutExpectedType { span: span() };
    assert_eq!(null.code(), DiagnosticCode::TypeCheck);
    assert_eq!(null.summary(), "`null` requires an expected optional type");
    let ambiguous = Diagnostic::AmbiguousMethod { span: span(), name: NAME };
    assert_eq!(ambiguous.summary(), "ambiguous method");
}

#[test]
fn viable_candidates_keep_a_lone_candidate() {
    let three = vec![method(nominal(1, vec![]), 50), method(nominal(1, vec![]), 51), method(nominal(1, vec![]), 52)];
    let viable = viable_method_candidates(three, &vec![false, true, true]);
    let ids: Vec<GlobalDefId> = viable.iter().map(|m| m.method_id).collect();
    assert_eq!(ids, vec![def(51), def(52)]);
    let lone = viable_method_candidates(vec![method(nominal(1, vec![]), 60)], &vec![false]);
    assert_eq!(lone.len(), 1);
    assert_eq!(lone[0].method_id, def(60));
    let none = viable_method_candidates(vec![method(nominal(1, vec![]), 60), method(nominal(1, vec![]), 61)], &vec![false, false]);
    assert!(none.is_empty());
}

#[test]
fn atomic_order_arguments_name_an_allowed_ordering() {
    let mut c = checker(vec![]);
    let arg = one(1, ExprKind::Integer { value: 2, suffix: NumericSuffix::Plain });
    assert_eq!(
        c.check_atomic_order_arg(&arg, 0, AtomicOrderContext::Load, Some(2)),
        Some(CheckedAtomicOrder::Acquire)
    );
    assert!(c.diagnostics.is_empty());
    assert!(ty_eq(c.expr_node_types.get(&1).unwrap(), &prim(PrimitiveTy::I32)));
    assert_eq!(c.check_atomic_order_arg(&arg, 0, AtomicOrderContext::Load, Some(3)), None);
    assert!(matches!(
        c.diagnostics[..],
        [Diagnostic::AtomicOrderNotAllowed { order: CheckedAtomicOrder::Release, context: AtomicOrderContext::Load, .. }]
    ));
    assert_eq!(c.check_atomic_order_arg(&arg, 0, AtomicOrderContext::Store, Some(9)), None);
    assert!(matches!(c.diagnostics[1], Diagnostic::InvalidAtomicOrder { value: 9, .. }));
    assert_eq!(c.check_atomic_order_arg(&arg, 0, AtomicOrderContext::Fence, None), None);
    assert!(matches!(c.diagnostics[2], Diagnostic::AtomicOrderNotConstant { .. }));
}

#[test]
fn if_expressions_join_their_branches() {
    let mut c = checker(vec![]);
    let both = Exprs {
        exprs: vec![
            node(1, ExprKind::Bool),
            node(2, ExprKind::Char),
            node(3, ExprKind::Char),
            node(4, ExprKind::If { cond: 0, then_branch: 1, else_branch: Some(2) }),
        ],
    };
    assert!(ty_eq(&c.check_expr(&both, 3), &prim(PrimitiveTy::Char)));
    assert!(c.diagnostics.is_empty());
    let no_else = Exprs {
        exprs: vec![node(5, ExprKind::Bool), node(6, ExprKind::Char), node(7, ExprKind::If { cond: 0, then_branch: 1, else_branch: None })],
    };
    assert!(ty_eq(&c.check_expr(&no_else, 2), &prim(PrimitiveTy::Void)));
    let bad_cond = Exprs {
        exprs: vec![
            node(8, ExprKind::Char),
            node(9, ExprKind::Bool),
            node(10, ExprKind::Bool),
            node(11, ExprKind::If { cond: 0, then_branch: 1, else_branch: Some(2) }),
        ],
    };
    assert!(ty_eq(&c.check_expr(&bad_cond, 3), &prim(PrimitiveTy::Bool)));
    assert!(matches!(c.diagnostics[..], [Diagnostic::TypeMismatch { .. }]));
    let mixed = Exprs {
        exprs: vec![
            node(12, ExprKind::Bool),
            node(13, ExprKind::Char),
            node(14, ExprKind::Bool),
            node(15, ExprKind::If { cond: 0, then_branch: 1, else_branch: Some(2) }),
        ],
    };
    assert!(ty_eq(&c.check_expr(&mixed, 3), &prim(PrimitiveTy::Char)));
    assert_eq!(c.diagnostics.len(), 2);
    let expected = prim(PrimitiveTy::U8);
    let with_expected = Exprs {
        exprs: vec![
            node(16, ExprKind::Bool),
            node(17, ExprKind::ByteChar),
            node(18, ExprKind::ByteChar),
            node(19, ExprKind::If { cond: 0, then_branch: 1, else_branch: Some(2) }),
        ],
    };
    assert!(ty_eq(&c.check_expr_with_expected(&with_expected, 3, Some(&expected)), &expected));
    assert_eq!(c.diagnostics.len(), 2);
}
