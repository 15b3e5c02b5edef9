use nia_body_check::ids::GlobalDefId;
use nia_body_check::subst::{
    array_len_from_const_arg, generic_substitutions, substitute_generics, substitute_generics_and_consts,
    substitute_generics_with_self,
};
use nia_body_check::symbol_map::SymbolMap;
use nia_body_check::ty::{
    ty_eq, ArrayLen, ConstArgList, ConstGenericArg, ConstGenericValue, DeepClone, IntConst, PrimitiveTy,
    Ty, TyList,
};
use nia_body_check::type_queries::{type_contains_const_generic_param, type_contains_generic_param};

const T: u32 = 10;
const U: u32 = 11;
const N: u32 = 12;

fn gp(name: u32) -> Ty {
    Ty::GenericParam(name)
}

fn prim(p: PrimitiveTy) -> Ty {
    Ty::Primitive(p)
}

fn ptr(is_readonly: bool, elem: Ty) -> Ty {
    Ty::Pointer { is_readonly, elem: Box::new(elem) }
}

fn list(items: Vec<Ty>) -> TyList {
    let mut l = TyList::Nil;
    for item in items.into_iter().rev() {
        l = TyList::Cons(Box::new(item), Box::new(l));
    }
    l
}

fn nominal(def_id: u32, args: Vec<Ty>) -> Ty {
    Ty::Nominal { def_id: GlobalDefId::new(0, def_id), args: list(args), const_args: ConstArgList::Nil }
}

fn usize_arg(value: u128) -> ConstGenericArg {
    ConstGenericArg {
        ty: Box::new(prim(PrimitiveTy::Usize)),
        value: ConstGenericValue::Int(IntConst::unsigned(value)),
    }
}

#[test]
fn structural_equality_of_types() {
    let a = nominal(1, vec![ptr(true, prim(PrimitiveTy::U8))]);
    let b = nominal(1, vec![ptr(true, prim(PrimitiveTy::U8))]);
    let c = nominal(1, vec![ptr(false, prim(PrimitiveTy::U8))]);
    assert!(ty_eq(&a, &b));
    assert!(!ty_eq(&a, &c));
    assert!(ty_eq(&a, &a.deep_clone()));
}

#[test]
fn generic_substitutions_pair_by_position() {
    let s = generic_substitutions(&vec![T, U], &vec![prim(PrimitiveTy::I32)]);
    assert_eq!(s.len(), 1);
    assert!(ty_eq(s.get(T).unwrap(), &prim(PrimitiveTy::I32)));
    assert!(s.get(U).is_none());
}

#[test]
fn substitution_replaces_bound_parameters_only() {
    let mut s = SymbolMap::new();
    s.insert(T, prim(PrimitiveTy::Bool));
    let ty = nominal(1, vec![gp(T), ptr(true, gp(U))]);
    let r = substitute_generics(&ty, &s);
    assert!(ty_eq(&r, &nominal(1, vec![prim(PrimitiveTy::Bool), ptr(true, gp(U))])));
}

#[test]
fn substitution_replaces_self_when_given() {
    let s = SymbolMap::new();
    let ty = ptr(false, Ty::SelfParam);
    let r = substitute_generics_with_self(&ty, &s, &prim(PrimitiveTy::Char));
    assert!(ty_eq(&r, &ptr(false, prim(PrimitiveTy::Char))));
    let unchanged = substitute_generics(&ty, &s);
    assert!(ty_eq(&unchanged, &ty));
}

#[test]
fn substitution_replaces_array_length_parameter() {
    let s = SymbolMap::new();
    let mut c = SymbolMap::new();
    c.insert(N, usize_arg(4));
    let ty = Ty::Array { len: ArrayLen::GenericParam(N), elem: Box::new(prim(PrimitiveTy::U8)) };
    let r = substitute_generics_and_consts(&ty, &s, &c);
    assert!(ty_eq(&r, &Ty::Array { len: ArrayLen::ConstValue(4), elem: Box::new(prim(PrimitiveTy::U8)) }));
}

#[test]
fn array_length_from_compile_time_argument() {
    assert!(matches!(array_len_from_const_arg(&usize_arg(9)), Some(ArrayLen::ConstValue(9))));
    let too_big = ConstGenericArg {
        ty: Box::new(prim(PrimitiveTy::U128)),
        value: ConstGenericValue::Int(IntConst::unsigned(u128::MAX)),
    };
    assert!(array_len_from_const_arg(&too_big).is_none());
    let flag = ConstGenericArg { ty: Box::new(prim(PrimitiveTy::Bool)), value: ConstGenericValue::Bool(true) };
    assert!(array_len_from_const_arg(&flag).is_none());
}

#[test]
fn ground_types_are_fixed_by_substitution() {
    let mut s = SymbolMap::new();
    s.insert(T, prim(PrimitiveTy::Bool));
    let mut c = SymbolMap::new();
    c.insert(N, usize_arg(2));
    let ty = nominal(3, vec![ptr(true, prim(PrimitiveTy::I64)), Ty::Tuple(list(vec![prim(PrimitiveTy::U8)]))]);
    assert!(!type_contains_generic_param(&ty));
    assert!(!type_contains_const_generic_param(&ty));
    let r = substitute_generics_and_consts(&ty, &s, &c);
    assert!(ty_eq(&r, &ty));
}

#[test]
fn generic_parameter_queries() {
    assert!(type_contains_generic_param(&ptr(true, gp(T))));
    assert!(type_contains_generic_param(&Ty::SelfParam));
    assert!(!type_contains_generic_param(&prim(PrimitiveTy::U8)));
    let array = Ty::Array { len: ArrayLen::GenericParam(N), elem: Box::new(prim(PrimitiveTy::U8)) };
    assert!(type_contains_const_generic_param(&array));
    assert!(!type_contains_generic_param(&array));
}

#[test]
fn substituting_nothing_leaves_every_type() {
    let ty = Ty::Tuple(list(vec![
        gp(1),
        Ty::SelfParam,
        ptr(false, nominal(3, vec![gp(2), prim(PrimitiveTy::U8)])),
        Ty::Array { len: ArrayLen::GenericParam(4), elem: Box::new(gp(1)) },
    ]));
    let r = substitute_generics_and_consts(&ty, &SymbolMap::new(), &SymbolMap::new());
    assert!(ty_eq(&r, &ty));
}
