use nia_body_check::constraints::{BodyExpr, BodyExprKind, BodyExprs};
use nia_body_check::expressions::NumericSuffix;
use nia_body_check::function_inference::{BinaryOperator, FunctionInference, InferNode, InferShape};
use nia_body_check::inferred::{InferredList, InferredType};
use nia_body_check::ids::GlobalDefId;
use nia_body_check::ty::{ty_eq, ConstArgList, DeepClone, PrimitiveTy, Ty, TyList};

fn nominal(def_id: u32) -> Ty {
    Ty::Nominal { def_id: GlobalDefId::new(0, def_id), args: TyList::Nil, const_args: ConstArgList::Nil }
}

fn list(items: Vec<Ty>) -> TyList {
    let mut l = TyList::Nil;
    for item in items.into_iter().rev() {
        l = TyList::Cons(Box::new(item), Box::new(l));
    }
    l
}

fn node(parent: usize, shape: Option<InferShape>) -> InferNode {
    InferNode { parent, rank: 0, shape }
}

#[test]
fn find_compresses_paths_to_the_representative() {
    let mut g = FunctionInference::new();
    g.nodes = vec![node(1, None), node(2, None), node(2, Some(InferShape::Known(nominal(1)))), node(3, None)];
    assert_eq!(g.find(0), 2);
    assert_eq!(g.nodes[0].parent, 2);
    assert_eq!(g.nodes[1].parent, 2);
    assert_eq!(g.find(3), 3);
    assert_eq!(g.find(1), 2);
}

#[test]
fn fresh_terms_and_known_types_are_interned() {
    let mut g = FunctionInference::new();
    let a = g.fresh();
    let b = g.known(&nominal(1));
    let c = g.known(&nominal(1));
    let d = g.known(&nominal(2));
    assert_eq!((a, b, c, d), (0, 1, 1, 2));
    assert!(matches!(&g.nodes[1].shape, Some(InferShape::Known(t)) if ty_eq(t, &nominal(1))));
    assert_eq!(g.local_term(7), 3);
    assert_eq!(g.local_term(7), 3);
    assert_eq!(g.expr_term(9), 4);
    assert_eq!(g.expr_term(9), 4);
    let e = g.with_shape(InferShape::Optional { elem: a });
    assert_eq!(e, 5);
    assert_eq!(g.nodes.len(), 6);
}

#[test]
fn known_structures_expand_into_part_terms() {
    let mut g = FunctionInference::new();
    let pair = Ty::Tuple(list(vec![nominal(1), Ty::Primitive(PrimitiveTy::Bool)]));
    let existing = g.known(&nominal(1));
    let t = g.known(&pair);
    match g.expanded_shape(t) {
        Some(InferShape::Tuple(ids)) => {
            assert_eq!(ids.len(), 2);
            assert_eq!(ids[0], existing);
            assert!(matches!(&g.nodes[ids[1]].shape, Some(InferShape::Known(Ty::Primitive(PrimitiveTy::Bool)))));
        },
        _ => panic!("a tuple expands into its parts"),
    }
    let fresh = g.fresh();
    assert!(g.expanded_shape(fresh).is_none());
    let prim = g.known(&Ty::Primitive(PrimitiveTy::U8));
    assert!(matches!(g.expanded_shape(prim), Some(InferShape::Known(Ty::Primitive(PrimitiveTy::U8)))));
    let ptr = g.with_shape(InferShape::Pointer { is_readonly: true, elem: fresh });
    assert!(matches!(g.expanded_shape(ptr), Some(InferShape::Pointer { is_readonly: true, elem }) if elem == fresh));
}

#[test]
fn shape_compatibility_follows_structure() {
    let g = FunctionInference::new();
    let a = InferShape::Known(nominal(1));
    let b = InferShape::Known(nominal(2));
    let err = InferShape::Known(Ty::Error);
    assert!(g.shapes_compatible(None, Some(&a)));
    assert!(g.shapes_compatible(Some(&a), Some(&a)));
    assert!(!g.shapes_compatible(Some(&a), Some(&b)));
    assert!(g.shapes_compatible(Some(&err), Some(&b)));
    assert!(g.shapes_compatible(Some(&InferShape::Tuple(vec![0, 1])), Some(&InferShape::Tuple(vec![2, 3]))));
    assert!(!g.shapes_compatible(Some(&InferShape::Tuple(vec![0])), Some(&InferShape::Tuple(vec![2, 3]))));
    assert!(!g.shapes_compatible(
        Some(&InferShape::Pointer { is_readonly: true, elem: 0 }),
        Some(&InferShape::Pointer { is_readonly: false, elem: 0 })
    ));
    assert!(!g.shapes_compatible(Some(&InferShape::Optional { elem: 0 }), Some(&a)));
}

fn ptr(elem: Ty) -> Ty {
    Ty::Pointer { is_readonly: true, elem: Box::new(elem) }
}

#[test]
fn known_types_resolve_to_themselves() {
    let mut g = FunctionInference::new();
    let ty = Ty::Tuple(list(vec![nominal(1), ptr(nominal(2)), Ty::Optional { elem: Box::new(nominal(3)) }]));
    let t = g.known(&ty);
    let resolved = g.resolve(t).unwrap();
    assert!(ty_eq(&resolved, &ty));
    let again = g.resolve(t).unwrap();
    assert!(ty_eq(&again, &ty));
}

#[test]
fn unknown_and_callable_parts_do_not_resolve() {
    let mut g = FunctionInference::new();
    let hole = g.fresh();
    assert!(g.resolve(hole).is_none());
    let pointer = g.with_shape(InferShape::Pointer { is_readonly: false, elem: hole });
    assert!(g.resolve(pointer).is_none());
    let b = g.known(&nominal(4));
    let pointer_b = g.with_shape(InferShape::Pointer { is_readonly: false, elem: b });
    let resolved = g.resolve(pointer_b).unwrap();
    assert!(ty_eq(&resolved, &Ty::Pointer { is_readonly: false, elem: Box::new(nominal(4)) }));
    let callable = Ty::FunctionPointer { params: list(vec![nominal(1)]), return_type: Box::new(nominal(2)), is_variadic: false };
    let c = g.known(&callable);
    assert!(g.resolve(c).is_none());
    let variadic = Ty::FunctionPointer { params: TyList::Nil, return_type: Box::new(nominal(2)), is_variadic: true };
    let v = g.known(&variadic);
    assert!(ty_eq(&g.resolve(v).unwrap(), &variadic));
    let union = g.with_shape(InferShape::ErrorUnion { error: b, value: hole });
    assert!(g.resolve(union).is_none());
}

#[test]
fn inferred_types_keep_unknown_leaves() {
    let mut g = FunctionInference::new();
    let hole = g.fresh();
    let b = g.known(&nominal(4));
    let pair = g.with_shape(InferShape::Tuple(vec![b, hole]));
    match g.inferred_type(pair) {
        InferredType::Tuple(InferredList::Cons(first, rest)) => {
            assert!(matches!(*first, InferredType::Known(ref t) if ty_eq(t, &nominal(4))));
            match *rest {
                InferredList::Cons(second, tail) => {
                    assert!(matches!(*second, InferredType::Unknown));
                    assert!(matches!(*tail, InferredList::Nil));
                },
                _ => panic!("two parts"),
            }
        },
        _ => panic!("a tuple stays a tuple"),
    }
    let callable = Ty::Callable { is_readonly: true, params: list(vec![nominal(1)]), return_type: Box::new(nominal(2)) };
    let c = g.known(&callable);
    match g.inferred_type(c) {
        InferredType::Callable { params: InferredList::Cons(p, _), return_type } => {
            assert!(matches!(*p, InferredType::Known(ref t) if ty_eq(t, &nominal(1))));
            assert!(matches!(*return_type, InferredType::Known(ref t) if ty_eq(t, &nominal(2))));
        },
        _ => panic!("a callable is read through its parts"),
    }
}

#[test]
fn unify_merges_unknown_terms() {
    let mut g = FunctionInference::new();
    let a = g.fresh();
    let b = g.fresh();
    assert!(g.unify(a, b));
    assert_eq!(g.find(a), g.find(b));
    assert_eq!(g.find(a), 0);
    assert_eq!(g.nodes[0].rank, 1);
    let k = g.known(&nominal(1));
    assert!(g.unify(b, k));
    assert_eq!(g.find(k), 0);
    assert!(ty_eq(&g.resolve(a).unwrap(), &nominal(1)));
}

#[test]
fn unify_refuses_incompatible_shapes_without_merging() {
    let mut g = FunctionInference::new();
    let one = g.known(&nominal(1));
    let two = g.known(&nominal(2));
    assert!(!g.unify(one, two));
    assert_ne!(g.find(one), g.find(two));
    let error = g.known(&Ty::Error);
    assert!(g.unify(one, error));
    assert_eq!(g.find(one), g.find(error));
    let hole = g.fresh();
    let optional = g.with_shape(InferShape::Optional { elem: hole });
    let pointer = g.with_shape(InferShape::Pointer { is_readonly: true, elem: hole });
    assert!(!g.unify(optional, pointer));
    assert_ne!(g.find(optional), g.find(pointer));
}

#[test]
fn unify_solves_parts_of_structures() {
    let mut g = FunctionInference::new();
    let x = g.fresh();
    let y = g.fresh();
    let pair = g.with_shape(InferShape::Tuple(vec![x, y]));
    let known = g.known(&Ty::Tuple(list(vec![nominal(1), Ty::Primitive(PrimitiveTy::Bool)])));
    assert!(g.unify(pair, known));
    assert!(ty_eq(&g.resolve(x).unwrap(), &nominal(1)));
    assert!(ty_eq(&g.resolve(y).unwrap(), &Ty::Primitive(PrimitiveTy::Bool)));
    assert_eq!(g.find(pair), g.find(known));
    let root = g.find(pair);
    assert!(matches!(g.nodes[root].shape, Some(InferShape::Tuple(_))));
}

#[test]
fn unify_checks_parts_before_merging() {
    let mut g = FunctionInference::new();
    let one = g.known(&nominal(1));
    let pair = g.with_shape(InferShape::Tuple(vec![one]));
    let other = g.known(&Ty::Tuple(list(vec![nominal(2)])));
    assert!(!g.unify(pair, other));
    assert_ne!(g.find(pair), g.find(other));
    let short = g.known(&Ty::Tuple(TyList::Nil));
    assert!(!g.unify(pair, short));
}

fn body(exprs: Vec<(u32, BodyExprKind)>) -> BodyExprs {
    BodyExprs { exprs: exprs.into_iter().map(|(key, kind)| BodyExpr { key, kind }).collect() }
}

#[test]
fn literals_and_tuples_constrain_their_terms() {
    let mut g = FunctionInference::new();
    let b = body(vec![
        (10, BodyExprKind::Integer(NumericSuffix::Plain)),
        (11, BodyExprKind::Local(5)),
        (12, BodyExprKind::Tuple(vec![0, 1])),
    ]);
    let t = g.constrain_expr(&b, 2, None);
    assert_eq!(*g.exprs.get(&12).unwrap(), t);
    let lit = *g.exprs.get(&10).unwrap();
    assert!(ty_eq(&g.resolve(lit).unwrap(), &Ty::Primitive(PrimitiveTy::I32)));
    let local = *g.locals.get(&5).unwrap();
    let local_expr = *g.exprs.get(&11).unwrap();
    assert_eq!(g.find(local), g.find(local_expr));
    let root = g.find(t);
    assert!(matches!(&g.nodes[root].shape, Some(InferShape::Tuple(ids)) if ids.len() == 2));
}

#[test]
fn expected_types_flow_into_operands() {
    let mut g = FunctionInference::new();
    let b = body(vec![
        (20, BodyExprKind::Bool),
        (21, BodyExprKind::Other(None)),
        (22, BodyExprKind::Logical { lhs: 0, rhs: 1 }),
        (23, BodyExprKind::Not(2)),
    ]);
    let t = g.constrain_expr(&b, 3, None);
    let bool_ty = Ty::Primitive(PrimitiveTy::Bool);
    assert!(ty_eq(&g.resolve(t).unwrap(), &bool_ty));
    let other = *g.exprs.get(&21).unwrap();
    assert!(ty_eq(&g.resolve(other).unwrap(), &bool_ty));
}

#[test]
fn references_and_dereferences_relate_pointer_and_target() {
    let mut g = FunctionInference::new();
    let b = body(vec![
        (30, BodyExprKind::Name(Some(nominal(1)))),
        (31, BodyExprKind::Ref { is_readonly: true, inner: 0 }),
        (32, BodyExprKind::Deref(1)),
        (33, BodyExprKind::OptionalSome(2)),
    ]);
    let t = g.constrain_expr(&b, 3, None);
    let pointer = *g.exprs.get(&31).unwrap();
    assert!(ty_eq(&g.resolve(pointer).unwrap(), &ptr(nominal(1))));
    let deref = *g.exprs.get(&32).unwrap();
    assert!(ty_eq(&g.resolve(deref).unwrap(), &nominal(1)));
    assert!(ty_eq(&g.resolve(t).unwrap(), &Ty::Optional { elem: Box::new(nominal(1)) }));
}

#[test]
fn conflicting_literal_keeps_the_expected_class_apart() {
    let mut g = FunctionInference::new();
    let expected = g.known(&nominal(7));
    let b = body(vec![(40, BodyExprKind::Char)]);
    let t = g.constrain_expr(&b, 0, Some(expected));
    assert_ne!(g.find(t), g.find(expected));
    assert!(ty_eq(&g.resolve(t).unwrap(), &Ty::Primitive(PrimitiveTy::Char)));
}

#[test]
fn unify_refuses_a_conflicting_part() {
    let mut g = FunctionInference::new();
    let i32_ty = Ty::Primitive(PrimitiveTy::I32);
    let left = g.known(&Ty::Tuple(list(vec![i32_ty.deep_clone(), Ty::Primitive(PrimitiveTy::Bool)])));
    let right = g.known(&Ty::Tuple(list(vec![i32_ty, Ty::Primitive(PrimitiveTy::I64)])));
    assert!(!g.unify(left, right));
    assert_ne!(g.find(left), g.find(right));
}

#[test]
fn tuple_parts_are_the_classes_of_the_elements() {
    let mut g = FunctionInference::new();
    let b = body(vec![
        (50, BodyExprKind::Bool),
        (51, BodyExprKind::Other(None)),
        (52, BodyExprKind::Tuple(vec![0, 1])),
    ]);
    let t = g.constrain_expr(&b, 2, None);
    let first = *g.exprs.get(&50).unwrap();
    let second = *g.exprs.get(&51).unwrap();
    let root = g.find(t);
    let parts = match &g.nodes[root].shape {
        Some(InferShape::Tuple(ids)) => ids.clone(),
        _ => panic!("expected a tuple shape"),
    };
    assert_eq!(parts.len(), 2);
    assert_eq!(g.find(parts[0]), g.find(first));
    assert_eq!(g.find(parts[1]), g.find(second));
}

#[test]
fn merged_structures_keep_their_parts_joined() {
    let mut g = FunctionInference::new();
    let x = g.fresh();
    let y = g.fresh();
    let left = g.with_shape(InferShape::Optional { elem: x });
    let right = g.with_shape(InferShape::Optional { elem: y });
    assert!(g.unify(left, right));
    assert_eq!(g.find(x), g.find(y));
    let root = g.find(left);
    match g.nodes[root].shape {
        Some(InferShape::Optional { elem }) => assert_eq!(g.find(elem), g.find(x)),
        _ => panic!("expected an optional shape"),
    }
}

#[test]
fn if_branches_and_assignments_share_classes() {
    let mut g = FunctionInference::new();
    let b = body(vec![
        (60, BodyExprKind::Bool),
        (61, BodyExprKind::Integer(NumericSuffix::Plain)),
        (62, BodyExprKind::Other(None)),
        (63, BodyExprKind::If { cond: 0, then_branch: 1, else_branch: Some(2) }),
    ]);
    let t = g.constrain_expr(&b, 3, None);
    let i32_ty = Ty::Primitive(PrimitiveTy::I32);
    assert!(ty_eq(&g.resolve(t).unwrap(), &i32_ty));
    let other = *g.exprs.get(&62).unwrap();
    assert!(ty_eq(&g.resolve(other).unwrap(), &i32_ty));
    let a = body(vec![
        (70, BodyExprKind::Local(3)),
        (71, BodyExprKind::Char),
        (72, BodyExprKind::Assign { lhs: 0, rhs: 1 }),
    ]);
    let r = g.constrain_expr(&a, 2, None);
    assert!(ty_eq(&g.resolve(r).unwrap(), &Ty::Primitive(PrimitiveTy::Void)));
    let local = *g.locals.get(&3).unwrap();
    assert!(ty_eq(&g.resolve(local).unwrap(), &Ty::Primitive(PrimitiveTy::Char)));
}

#[test]
fn binary_operators_record_obligations() {
    let mut g = FunctionInference::new();
    let b = body(vec![
        (80, BodyExprKind::Integer(NumericSuffix::Plain)),
        (81, BodyExprKind::Integer(NumericSuffix::Plain)),
        (82, BodyExprKind::Binary { op: BinaryOperator::Lt, lhs: 0, rhs: 1 }),
        (83, BodyExprKind::Binary { op: BinaryOperator::Add, lhs: 0, rhs: 1 }),
    ]);
    let t = g.constrain_expr(&b, 2, None);
    assert!(ty_eq(&g.resolve(t).unwrap(), &Ty::Primitive(PrimitiveTy::Bool)));
    assert_eq!(g.operators.len(), 1);
    let first = g.operators[0];
    assert_eq!(first.op, BinaryOperator::Lt);
    assert_eq!(first.lhs, *g.exprs.get(&80).unwrap());
    assert_eq!(first.rhs, *g.exprs.get(&81).unwrap());
    assert_eq!(g.find(first.output), g.find(t));
    let sum = g.constrain_expr(&b, 3, None);
    assert_eq!(g.operators.len(), 2);
    assert_eq!(g.operators[1].op, BinaryOperator::Add);
    assert_eq!(g.find(g.operators[1].output), g.find(sum));
}
