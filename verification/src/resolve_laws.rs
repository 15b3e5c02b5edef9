//! Laws of reading terms back as types: a larger step budget never changes
//! a reading that ended, so a term's resolution does not depend on the
//! budget; and in a graph where every term of a known type still knows that
//! type, such a term resolves to the type itself.
use vstd::prelude::*;
use crate::function_inference::{forest_levels, lemma_root_step, spec_root, FunctionInference, InferId, InferShape};
use crate::inference_resolve::{
    spec_resolution,
    spec_resolve,
    spec_resolve_budget,
    spec_resolve_ids,
    spec_resolve_known,
    spec_resolve_ty,
    spec_resolve_tys,
};
use crate::ty::{Ty, TyList};

verus! {

/// One more step keeps a resolution that ended.
pub proof fn lemma_resolve_step(g: FunctionInference, id: int, fuel: nat)
    requires
        spec_resolve(g, id, fuel) is Some,
    ensures
        spec_resolve(g, id, fuel + 1) == spec_resolve(g, id, fuel),
    decreases fuel, 2nat, 0nat,
{
    let root = spec_root(g.nodes@, id);
    let f = (fuel - 1) as nat;
    match g.nodes@[root].shape {
        None => {},
        Some(InferShape::Known(ty)) => lemma_resolve_ty_step(g, ty, fuel),
        Some(InferShape::Tuple(ids)) => lemma_resolve_ids_step(g, ids@, f),
        Some(InferShape::Pointer { elem, .. }) => lemma_resolve_step(g, elem as int, f),
        Some(InferShape::Optional { elem }) => lemma_resolve_step(g, elem as int, f),
        Some(InferShape::ErrorUnion { error, value }) => {
            lemma_resolve_step(g, error as int, f);
            if spec_resolve(g, error as int, f) matches Some(Some(_)) {
                lemma_resolve_step(g, value as int, f);
            }
        },
        Some(InferShape::Callable { .. }) => {},
    }
}

proof fn lemma_resolve_ids_step(g: FunctionInference, ids: Seq<InferId>, fuel: nat)
    requires
        spec_resolve_ids(g, ids, fuel) is Some,
    ensures
        spec_resolve_ids(g, ids, fuel + 1) == spec_resolve_ids(g, ids, fuel),
    decreases fuel, 3nat, ids.len(),
{
    if ids.len() > 0 {
        lemma_resolve_step(g, ids[0] as int, fuel);
        if spec_resolve(g, ids[0] as int, fuel) matches Some(Some(_)) {
            lemma_resolve_ids_step(g, ids.drop_first(), fuel);
        }
    }
}

proof fn lemma_resolve_ty_step(g: FunctionInference, ty: Ty, fuel: nat)
    requires
        spec_resolve_ty(g, ty, fuel) is Some,
    ensures
        spec_resolve_ty(g, ty, fuel + 1) == spec_resolve_ty(g, ty, fuel),
    decreases fuel, 1nat, 0nat,
{
    let f = (fuel - 1) as nat;
    match ty {
        Ty::Tuple(elems) => lemma_resolve_tys_step(g, elems, f),
        Ty::Pointer { elem, .. } => lemma_resolve_known_step(g, *elem, f),
        Ty::Optional { elem } => lemma_resolve_known_step(g, *elem, f),
        Ty::ErrorUnion { error, value } => {
            lemma_resolve_known_step(g, *error, f);
            if spec_resolve_known(g, *error, f) matches Some(Some(_)) {
                lemma_resolve_known_step(g, *value, f);
            }
        },
        _ => {},
    }
}

proof fn lemma_resolve_tys_step(g: FunctionInference, tys: TyList, fuel: nat)
    requires
        spec_resolve_tys(g, tys, fuel) is Some,
    ensures
        spec_resolve_tys(g, tys, fuel + 1) == spec_resolve_tys(g, tys, fuel),
    decreases fuel, 5nat, tys.len(),
{
    match tys {
        TyList::Nil => {},
        TyList::Cons(head, tail) => {
            lemma_resolve_known_step(g, *head, fuel);
            if spec_resolve_known(g, *head, fuel) matches Some(Some(_)) {
                lemma_resolve_tys_step(g, *tail, fuel);
            }
        },
    }
}

proof fn lemma_resolve_known_step(g: FunctionInference, ty: Ty, fuel: nat)
    requires
        spec_resolve_known(g, ty, fuel) is Some,
    ensures
        spec_resolve_known(g, ty, fuel + 1) == spec_resolve_known(g, ty, fuel),
    decreases fuel, 4nat, 0nat,
{
    match g.concrete_terms.spec_get(ty) {
        Some(id) => lemma_resolve_step(g, id as int, fuel),
        None => lemma_resolve_ty_step(g, ty, fuel),
    }
}

/// A larger budget keeps a resolution that ended.
pub proof fn lemma_resolve_budget_monotone(g: FunctionInference, id: int, fuel: nat, more: nat)
    requires
        spec_resolve(g, id, fuel) is Some,
        fuel <= more,
    ensures
        spec_resolve(g, id, more) == spec_resolve(g, id, fuel),
    decreases more - fuel,
{
    if fuel < more {
        lemma_resolve_step(g, id, fuel);
        lemma_resolve_budget_monotone(g, id, fuel + 1, more);
    }
}

/// A term's resolution is what any budget within which it ends gives.
pub proof fn lemma_resolution_is_budget_free(g: FunctionInference, id: int, fuel: nat)
    requires
        spec_resolve(g, id, fuel) is Some,
    ensures
        Some(spec_resolution(g, id)) == spec_resolve(g, id, fuel),
{
    let chosen = spec_resolve_budget(g, id);
    assert(spec_resolve(g, id, chosen) is Some);
    if chosen <= fuel {
        lemma_resolve_budget_monotone(g, id, chosen, fuel);
    } else {
        lemma_resolve_budget_monotone(g, id, fuel, chosen);
    }
}

/// Every term of a known type still knows that type: its representative's
/// shape is the type.
pub open spec fn terms_plain(g: FunctionInference) -> bool {
    forall|t: Ty| #[trigger]
        g.concrete_terms.spec_get(t) is Some ==> g.nodes@[spec_root(
            g.nodes@,
            g.concrete_terms.spec_get(t).unwrap() as int,
        )].shape == Some(InferShape::Known(t))
}

/// The type has no callable part (a variadic function pointer counts as a
/// plain type).
pub open spec fn callable_free(ty: Ty) -> bool
    decreases ty,
{
    match ty {
        Ty::Tuple(elems) => callable_free_list(elems),
        Ty::Pointer { elem, .. } => callable_free(*elem),
        Ty::Optional { elem } => callable_free(*elem),
        Ty::ErrorUnion { error, value } => callable_free(*error) && callable_free(*value),
        Ty::FunctionPointer { is_variadic, .. } => is_variadic,
        Ty::Callable { .. } => false,
        Ty::CallablePointee { .. } => false,
        Ty::ClosureState { .. } => false,
        _ => true,
    }
}

pub open spec fn callable_free_list(l: TyList) -> bool
    decreases l,
{
    match l {
        TyList::Nil => true,
        TyList::Cons(h, t) => callable_free(*h) && callable_free_list(*t),
    }
}

/// How deeply resolution descends into a type's parts.
pub open spec fn resolve_depth(ty: Ty) -> nat
    decreases ty,
{
    match ty {
        Ty::Tuple(elems) => 1 + resolve_depth_list(elems),
        Ty::Pointer { elem, .. } => 1 + resolve_depth(*elem),
        Ty::Optional { elem } => 1 + resolve_depth(*elem),
        Ty::ErrorUnion { error, value } => {
            let e = resolve_depth(*error);
            let v = resolve_depth(*value);
            1 + if e >= v {
                e
            } else {
                v
            }
        },
        _ => 0,
    }
}

pub open spec fn resolve_depth_list(l: TyList) -> nat
    decreases l,
{
    match l {
        TyList::Nil => 0,
        TyList::Cons(h, t) => {
            let a = resolve_depth(*h);
            let b = resolve_depth_list(*t);
            if a >= b {
                a
            } else {
                b
            }
        },
    }
}

proof fn lemma_plain_known(g: FunctionInference, ty: Ty, fuel: nat)
    requires
        g.wf(),
        terms_plain(g),
        callable_free(ty),
        fuel > resolve_depth(ty),
    ensures
        spec_resolve_known(g, ty, fuel) == Some(Some(ty)),
    decreases ty, 1nat,
{
    lemma_plain_ty(g, ty, fuel);
    match g.concrete_terms.spec_get(ty) {
        Some(id) => {
            let root = spec_root(g.nodes@, id as int);
            assert(g.nodes@[root].shape == Some(InferShape::Known(ty)));
            assert(spec_resolve(g, id as int, fuel) == spec_resolve_ty(g, ty, fuel));
        },
        None => {},
    }
}

proof fn lemma_plain_ty(g: FunctionInference, ty: Ty, fuel: nat)
    requires
        g.wf(),
        terms_plain(g),
        callable_free(ty),
        fuel > resolve_depth(ty),
    ensures
        spec_resolve_ty(g, ty, fuel) == Some(Some(ty)),
    decreases ty, 0nat,
{
    let f = (fuel - 1) as nat;
    match ty {
        Ty::Tuple(elems) => lemma_plain_tys(g, elems, f),
        Ty::Pointer { elem, .. } => lemma_plain_known(g, *elem, f),
        Ty::Optional { elem } => lemma_plain_known(g, *elem, f),
        Ty::ErrorUnion { error, value } => {
            lemma_plain_known(g, *error, f);
            lemma_plain_known(g, *value, f);
        },
        _ => {},
    }
}

proof fn lemma_plain_tys(g: FunctionInference, tys: TyList, fuel: nat)
    requires
        g.wf(),
        terms_plain(g),
        callable_free_list(tys),
        fuel > resolve_depth_list(tys),
    ensures
        spec_resolve_tys(g, tys, fuel) == Some(Some(tys)),
    decreases tys,
{
    match tys {
        TyList::Nil => {},
        TyList::Cons(head, tail) => {
            lemma_plain_known(g, *head, fuel);
            lemma_plain_tys(g, *tail, fuel);
        },
    }
}

/// In a graph where every term of a known type still knows that type, the
/// term of a type without callable parts resolves to the type itself.
pub proof fn lemma_known_term_resolves_to_its_type(g: FunctionInference, ty: Ty)
    requires
        g.wf(),
        terms_plain(g),
        callable_free(ty),
        g.concrete_terms.spec_get(ty) is Some,
    ensures
        spec_resolution(g, g.concrete_terms.spec_get(ty).unwrap() as int) == Some(ty),
{
    let id = g.concrete_terms.spec_get(ty).unwrap();
    let fuel = resolve_depth(ty) + 1;
    lemma_plain_known(g, ty, fuel);
    assert(spec_resolve_known(g, ty, fuel) == spec_resolve(g, id as int, fuel));
    lemma_resolution_is_budget_free(g, id as int, fuel);
}

/// Growing a graph keeps every term of a known type knowing its type: the
/// graphs the inference builds (from an empty one, through new terms, known
/// types, lookups and readings) stay plain.
pub proof fn lemma_refines_keeps_plain(new: FunctionInference, old: FunctionInference)
    requires
        new.refines(&old),
        old.wf(),
        terms_plain(old),
    ensures
        terms_plain(new),
{
    assert forall|t: Ty| #[trigger] new.concrete_terms.spec_get(t) is Some implies new.nodes@[spec_root(
        new.nodes@,
        new.concrete_terms.spec_get(t).unwrap() as int,
    )].shape == Some(InferShape::Known(t)) by {
        let id = new.concrete_terms.spec_get(t).unwrap() as int;
        if old.concrete_terms.spec_get(t) is Some {
            assert(old.concrete_terms.spec_get(t).unwrap() == id);
            lemma_root_step(old.nodes@, forest_levels(old.nodes@), id);
            let root = spec_root(old.nodes@, id);
            assert(spec_root(new.nodes@, id) == root);
            assert(new.nodes@[root].shape == old.nodes@[root].shape);
        } else {
            assert(new.nodes@[id].parent == id);
            lemma_root_step(new.nodes@, forest_levels(new.nodes@), id);
        }
    }
}

} // verus!
