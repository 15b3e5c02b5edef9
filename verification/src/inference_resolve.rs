//! Reading a solved term back as a type: a term resolves when every part
//! of it does, and a known type stands for itself through the terms of its
//! parts. Resolution follows the graph, so it is stated with a step budget
//! (`fuel`): `None` outside means the budget ran out, which is how a cyclic
//! graph shows.
use vstd::prelude::*;
use crate::function_inference::{
    forest_levels,
    lemma_refines_trans,
    lemma_root_step,
    spec_root,
    terms_for,
    FunctionInference,
    InferId,
    InferShape,
};
use crate::inferred::{InferredList, InferredType};
use crate::ty::{Ty, TyList};

verus! {

/// What a term resolves to within `fuel` steps: `None` when the budget runs
/// out, `Some(None)` when the term has an unknown or callable part.
pub open spec fn spec_resolve(g: FunctionInference, id: int, fuel: nat) -> Option<Option<Ty>>
    decreases fuel, 2nat, 0nat,
{
    if fuel == 0 {
        None
    } else {
        let root = spec_root(g.nodes@, id);
        match g.nodes@[root].shape {
            None => Some(None),
            Some(InferShape::Known(ty)) => spec_resolve_ty(g, ty, fuel),
            Some(InferShape::Tuple(ids)) => match spec_resolve_ids(g, ids@, (fuel - 1) as nat) {
                None => None,
                Some(None) => Some(None),
                Some(Some(l)) => Some(Some(Ty::Tuple(l))),
            },
            Some(InferShape::Pointer { is_readonly, elem }) => match spec_resolve(
                g,
                elem as int,
                (fuel - 1) as nat,
            ) {
                None => None,
                Some(None) => Some(None),
                Some(Some(t)) => Some(Some(Ty::Pointer { is_readonly, elem: Box::new(t) })),
            },
            Some(InferShape::Optional { elem }) => match spec_resolve(g, elem as int, (fuel - 1) as nat) {
                None => None,
                Some(None) => Some(None),
                Some(Some(t)) => Some(Some(Ty::Optional { elem: Box::new(t) })),
            },
            Some(InferShape::ErrorUnion { error, value }) => match spec_resolve(
                g,
                error as int,
                (fuel - 1) as nat,
            ) {
                None => None,
                Some(None) => Some(None),
                Some(Some(e)) => match spec_resolve(g, value as int, (fuel - 1) as nat) {
                    None => None,
                    Some(None) => Some(None),
                    Some(Some(v)) => Some(Some(Ty::ErrorUnion { error: Box::new(e), value: Box::new(v) })),
                },
            },
            Some(InferShape::Callable { .. }) => Some(None),
        }
    }
}

/// What the terms `ids` resolve to, in order, stopping at the first that
/// does not resolve.
pub open spec fn spec_resolve_ids(g: FunctionInference, ids: Seq<InferId>, fuel: nat) -> Option<
    Option<TyList>,
>
    decreases fuel, 3nat, ids.len(),
{
    if ids.len() == 0 {
        Some(Some(TyList::Nil))
    } else {
        match spec_resolve(g, ids[0] as int, fuel) {
            None => None,
            Some(None) => Some(None),
            Some(Some(t)) => match spec_resolve_ids(g, ids.drop_first(), fuel) {
                None => None,
                Some(None) => Some(None),
                Some(Some(rest)) => Some(Some(TyList::Cons(Box::new(t), Box::new(rest)))),
            },
        }
    }
}

/// What a known type resolves to through the terms of its parts.
pub open spec fn spec_resolve_ty(g: FunctionInference, ty: Ty, fuel: nat) -> Option<Option<Ty>>
    decreases fuel, 1nat, 0nat,
{
    if fuel == 0 {
        None
    } else {
        let f = (fuel - 1) as nat;
        match ty {
            Ty::Tuple(elems) => match spec_resolve_tys(g, elems, f) {
                None => None,
                Some(None) => Some(None),
                Some(Some(l)) => Some(Some(Ty::Tuple(l))),
            },
            Ty::Pointer { is_readonly, elem } => match spec_resolve_known(g, *elem, f) {
                None => None,
                Some(None) => Some(None),
                Some(Some(t)) => Some(Some(Ty::Pointer { is_readonly, elem: Box::new(t) })),
            },
            Ty::Optional { elem } => match spec_resolve_known(g, *elem, f) {
                None => None,
                Some(None) => Some(None),
                Some(Some(t)) => Some(Some(Ty::Optional { elem: Box::new(t) })),
            },
            Ty::ErrorUnion { error, value } => match spec_resolve_known(g, *error, f) {
                None => None,
                Some(None) => Some(None),
                Some(Some(e)) => match spec_resolve_known(g, *value, f) {
                    None => None,
                    Some(None) => Some(None),
                    Some(Some(v)) => Some(Some(Ty::ErrorUnion { error: Box::new(e), value: Box::new(v) })),
                },
            },
            Ty::FunctionPointer { is_variadic, .. } => if is_variadic {
                Some(Some(ty))
            } else {
                Some(None)
            },
            Ty::Callable { .. } => Some(None),
            Ty::CallablePointee { .. } => Some(None),
            Ty::ClosureState { .. } => Some(None),
            _ => Some(Some(ty)),
        }
    }
}

/// What the part types `tys` resolve to through their terms, stopping at
/// the first that does not resolve.
pub open spec fn spec_resolve_tys(g: FunctionInference, tys: TyList, fuel: nat) -> Option<Option<TyList>>
    decreases fuel, 5nat, tys.len(),
{
    match tys {
        TyList::Nil => Some(Some(TyList::Nil)),
        TyList::Cons(head, tail) => match spec_resolve_known(g, *head, fuel) {
            None => None,
            Some(None) => Some(None),
            Some(Some(t)) => match spec_resolve_tys(g, *tail, fuel) {
                None => None,
                Some(None) => Some(None),
                Some(Some(rest)) => Some(Some(TyList::Cons(Box::new(t), Box::new(rest)))),
            },
        },
    }
}

/// What a part type resolves to: through its term where it has one, else
/// through its own parts.
pub open spec fn spec_resolve_known(g: FunctionInference, ty: Ty, fuel: nat) -> Option<Option<Ty>>
    decreases fuel, 4nat, 0nat,
{
    match g.concrete_terms.spec_get(ty) {
        Some(id) => spec_resolve(g, id as int, fuel),
        None => spec_resolve_ty(g, ty, fuel),
    }
}

/// Refining the graph keeps what every old term resolves to.
pub proof fn lemma_resolve_refined(new: FunctionInference, old: FunctionInference, id: int, fuel: nat)
    requires
        new.refines(&old),
        old.wf(),
        0 <= id < old.nodes@.len(),
    ensures
        spec_resolve(new, id, fuel) == spec_resolve(old, id, fuel),
    decreases fuel, 2nat, 0nat,
{
    if fuel > 0 {
        let root = spec_root(old.nodes@, id);
        lemma_root_step(old.nodes@, forest_levels(old.nodes@), id);
        assert(spec_root(new.nodes@, id) == root);
        assert(new.nodes@[root].shape == old.nodes@[root].shape);
        let f = (fuel - 1) as nat;
        match old.nodes@[root].shape {
            None => {},
            Some(InferShape::Known(ty)) => lemma_resolve_ty_refined(new, old, ty, fuel),
            Some(InferShape::Tuple(ids)) => {
                assert(old.nodes@[root].shape.unwrap().parts_below(old.nodes@.len() as nat));
                lemma_resolve_ids_refined(new, old, ids@, f);
            },
            Some(InferShape::Pointer { elem, .. }) => {
                assert(old.nodes@[root].shape.unwrap().parts_below(old.nodes@.len() as nat));
                lemma_resolve_refined(new, old, elem as int, f);
            },
            Some(InferShape::Optional { elem }) => {
                assert(old.nodes@[root].shape.unwrap().parts_below(old.nodes@.len() as nat));
                lemma_resolve_refined(new, old, elem as int, f);
            },
            Some(InferShape::ErrorUnion { error, value }) => {
                assert(old.nodes@[root].shape.unwrap().parts_below(old.nodes@.len() as nat));
                lemma_resolve_refined(new, old, error as int, f);
                lemma_resolve_refined(new, old, value as int, f);
            },
            Some(InferShape::Callable { .. }) => {},
        }
    }
}

pub proof fn lemma_resolve_ids_refined(new: FunctionInference, old: FunctionInference, ids: Seq<InferId>, fuel: nat)
    requires
        new.refines(&old),
        old.wf(),
        forall|i: int| 0 <= i < ids.len() ==> #[trigger] ids[i] < old.nodes@.len(),
    ensures
        spec_resolve_ids(new, ids, fuel) == spec_resolve_ids(old, ids, fuel),
    decreases fuel, 3nat, ids.len(),
{
    if ids.len() > 0 {
        lemma_resolve_refined(new, old, ids[0] as int, fuel);
        assert forall|i: int| 0 <= i < ids.drop_first().len() implies #[trigger] ids.drop_first()[i]
            < old.nodes@.len() by {
            assert(ids.drop_first()[i] == ids[i + 1]);
        }
        lemma_resolve_ids_refined(new, old, ids.drop_first(), fuel);
    }
}

pub proof fn lemma_resolve_ty_refined(new: FunctionInference, old: FunctionInference, ty: Ty, fuel: nat)
    requires
        new.refines(&old),
        old.wf(),
    ensures
        spec_resolve_ty(new, ty, fuel) == spec_resolve_ty(old, ty, fuel),
    decreases fuel, 1nat, 0nat,
{
    if fuel > 0 {
        let f = (fuel - 1) as nat;
        match ty {
            Ty::Tuple(elems) => lemma_resolve_tys_refined(new, old, elems, f),
            Ty::Pointer { elem, .. } => lemma_resolve_known_refined(new, old, *elem, f),
            Ty::Optional { elem } => lemma_resolve_known_refined(new, old, *elem, f),
            Ty::ErrorUnion { error, value } => {
                lemma_resolve_known_refined(new, old, *error, f);
                lemma_resolve_known_refined(new, old, *value, f);
            },
            _ => {},
        }
    }
}

pub proof fn lemma_resolve_tys_refined(new: FunctionInference, old: FunctionInference, tys: TyList, fuel: nat)
    requires
        new.refines(&old),
        old.wf(),
    ensures
        spec_resolve_tys(new, tys, fuel) == spec_resolve_tys(old, tys, fuel),
    decreases fuel, 5nat, tys.len(),
{
    match tys {
        TyList::Nil => {},
        TyList::Cons(head, tail) => {
            lemma_resolve_known_refined(new, old, *head, fuel);
            lemma_resolve_tys_refined(new, old, *tail, fuel);
        },
    }
}

pub proof fn lemma_resolve_known_refined(new: FunctionInference, old: FunctionInference, ty: Ty, fuel: nat)
    requires
        new.refines(&old),
        old.wf(),
    ensures
        spec_resolve_known(new, ty, fuel) == spec_resolve_known(old, ty, fuel),
    decreases fuel, 4nat, 0nat,
{
    match old.concrete_terms.spec_get(ty) {
        Some(id) => {
            assert(new.concrete_terms.spec_get(ty) == Some(id));
            lemma_resolve_refined(new, old, id as int, fuel);
        },
        None => {
            lemma_resolve_ty_refined(new, old, ty, fuel);
            match new.concrete_terms.spec_get(ty) {
                Some(id) => {
                    assert(new.nodes@[id as int].parent == id);
                    lemma_root_step(new.nodes@, forest_levels(new.nodes@), id as int);
                },
                None => {},
            }
        },
    }
}

/// The terms of a list's types resolve as the types do.
proof fn lemma_ids_for_tys(g: FunctionInference, ids: Seq<InferId>, tys: TyList, fuel: nat)
    requires
        terms_for(g.concrete_terms, tys.seq(), ids),
    ensures
        spec_resolve_ids(g, ids, fuel) == spec_resolve_tys(g, tys, fuel),
    decreases tys,
{
    match tys {
        TyList::Nil => {
            assert(tys.seq().len() == 0);
            assert(ids.len() == 0);
            assert(spec_resolve_ids(g, ids, fuel) == Some(Some(TyList::Nil)));
            assert(spec_resolve_tys(g, tys, fuel) == Some(Some(TyList::Nil)));
        },
        TyList::Cons(head, tail) => {
            assert(tys.seq()[0] == *head);
            assert(g.concrete_terms.spec_get(*head) == Some(ids[0]));
            assert(spec_resolve_known(g, *head, fuel) == spec_resolve(g, ids[0] as int, fuel));
            assert(terms_for(g.concrete_terms, tail.seq(), ids.drop_first())) by {
                assert forall|i: int| 0 <= i < ids.drop_first().len() implies #[trigger] g.concrete_terms.spec_get(
                    tail.seq()[i],
                ) == Some(ids.drop_first()[i]) by {
                    assert(tys.seq()[i + 1] == tail.seq()[i]);
                }
            }
            lemma_ids_for_tys(g, ids.drop_first(), *tail, fuel);
        },
    }
}

/// The number of steps within which a term resolves, where there is one.
pub open spec fn spec_resolve_budget(g: FunctionInference, id: int) -> nat {
    choose|fuel: nat| spec_resolve(g, id, fuel) is Some
}

/// What a term resolves to, for a term whose resolution ends.
pub open spec fn spec_resolution(g: FunctionInference, id: int) -> Option<Ty> {
    spec_resolve(g, id, spec_resolve_budget(g, id)).unwrap()
}

impl FunctionInference {
    fn resolve_with(&mut self, id: InferId, Ghost(fuel): Ghost<nat>) -> (r: Option<Ty>)
        requires
            old(self).wf(),
            id < old(self).nodes@.len(),
            spec_resolve(*old(self), id as int, fuel) is Some,
        ensures
            final(self).refines(old(self)),
            final(self).locals == old(self).locals,
            final(self).exprs == old(self).exprs,
            Some(r) == spec_resolve(*old(self), id as int, fuel),
        decreases fuel, 1nat, 0nat,
    {
        let ghost g0 = *self;
        let ghost root = spec_root(g0.nodes@, id as int);
        proof {
            lemma_root_step(g0.nodes@, forest_levels(g0.nodes@), id as int);
        }
        let shape = self.expanded_shape(id);
        let ghost g1 = *self;
        let ghost f = (fuel - 1) as nat;
        match shape {
            None => None,
            Some(InferShape::Known(ty)) => Some(ty),
            Some(InferShape::Tuple(ids)) => {
                proof {
                    match g0.nodes@[root].shape {
                        Some(InferShape::Known(t)) => {
                            assert(spec_resolve(g0, id as int, fuel) == spec_resolve_ty(g0, t, fuel));
                            if let Ty::Tuple(elems) = t {
                                lemma_ids_for_tys(g1, ids@, elems, f);
                                lemma_resolve_tys_refined(g1, g0, elems, f);
                                assert(spec_resolve_ty(g0, t, fuel) == match spec_resolve_tys(g0, elems, f) {
                                    None => None,
                                    Some(None) => Some(None),
                                    Some(Some(l)) => Some(Some(Ty::Tuple(l))),
                                });
                            }
                        },
                        Some(s0) => {
                            assert(s0.parts_below(g0.nodes@.len() as nat));
                            lemma_resolve_ids_refined(g1, g0, ids@, f);
                        },
                        None => {},
                    }
                    assert(ids@.skip(0) =~= ids@);
                }
                let elems = self.resolve_ids_with(&ids, 0, Ghost(f));
                proof {
                    lemma_refines_trans(&g0, &g1, self);
                }
                match elems {
                    Some(l) => Some(Ty::Tuple(l)),
                    None => None,
                }
            },
            Some(InferShape::Pointer { is_readonly, elem }) => {
                proof {
                    match g0.nodes@[root].shape {
                        Some(InferShape::Known(t)) => {
                            assert(spec_resolve(g0, id as int, fuel) == spec_resolve_ty(g0, t, fuel));
                            if let Ty::Pointer { elem: et, is_readonly: ro } = t {
                                lemma_resolve_known_refined(g1, g0, *et, f);
                                assert(spec_resolve_known(g1, *et, f) == spec_resolve(g1, elem as int, f));
                                assert(spec_resolve_ty(g0, t, fuel) == match spec_resolve_known(g0, *et, f) {
                                    None => None,
                                    Some(None) => Some(None),
                                    Some(Some(x)) => Some(Some(Ty::Pointer { is_readonly: ro, elem: Box::new(x) })),
                                });
                            }
                        },
                        Some(s0) => {
                            assert(s0.parts_below(g0.nodes@.len() as nat));
                            lemma_resolve_refined(g1, g0, elem as int, f);
                        },
                        None => {},
                    }
                }
                let t = self.resolve_with(elem, Ghost(f));
                proof {
                    lemma_refines_trans(&g0, &g1, self);
                }
                match t {
                    Some(t) => Some(Ty::Pointer { is_readonly, elem: Box::new(t) }),
                    None => None,
                }
            },
            Some(InferShape::Optional { elem }) => {
                proof {
                    match g0.nodes@[root].shape {
                        Some(InferShape::Known(t)) => {
                            assert(spec_resolve(g0, id as int, fuel) == spec_resolve_ty(g0, t, fuel));
                            if let Ty::Optional { elem: et } = t {
                                lemma_resolve_known_refined(g1, g0, *et, f);
                                assert(spec_resolve_known(g1, *et, f) == spec_resolve(g1, elem as int, f));
                                assert(spec_resolve_ty(g0, t, fuel) == match spec_resolve_known(g0, *et, f) {
                                    None => None,
                                    Some(None) => Some(None),
                                    Some(Some(x)) => Some(Some(Ty::Optional { elem: Box::new(x) })),
                                });
                            }
                        },
                        Some(s0) => {
                            assert(s0.parts_below(g0.nodes@.len() as nat));
                            lemma_resolve_refined(g1, g0, elem as int, f);
                        },
                        None => {},
                    }
                }
                let t = self.resolve_with(elem, Ghost(f));
                proof {
                    lemma_refines_trans(&g0, &g1, self);
                }
                match t {
                    Some(t) => Some(Ty::Optional { elem: Box::new(t) }),
                    None => None,
                }
            },
            Some(InferShape::ErrorUnion { error, value }) => {
                proof {
                    match g0.nodes@[root].shape {
                        Some(InferShape::Known(t)) => {
                            assert(spec_resolve(g0, id as int, fuel) == spec_resolve_ty(g0, t, fuel));
                            if let Ty::ErrorUnion { error: et, value: vt } = t {
                                lemma_resolve_known_refined(g1, g0, *et, f);
                                lemma_resolve_known_refined(g1, g0, *vt, f);
                                assert(spec_resolve_known(g1, *et, f) == spec_resolve(g1, error as int, f));
                                assert(spec_resolve_known(g1, *vt, f) == spec_resolve(g1, value as int, f));
                                assert(spec_resolve_ty(g0, t, fuel) == match spec_resolve_known(g0, *et, f) {
                                    None => None,
                                    Some(None) => Some(None),
                                    Some(Some(e)) => match spec_resolve_known(g0, *vt, f) {
                                        None => None,
                                        Some(None) => Some(None),
                                        Some(Some(v)) => Some(
                                            Some(Ty::ErrorUnion { error: Box::new(e), value: Box::new(v) }),
                                        ),
                                    },
                                });
                            }
                        },
                        Some(s0) => {
                            assert(s0.parts_below(g0.nodes@.len() as nat));
                            lemma_resolve_refined(g1, g0, error as int, f);
                            lemma_resolve_refined(g1, g0, value as int, f);
                        },
                        None => {},
                    }
                }
                let e = self.resolve_with(error, Ghost(f));
                proof {
                    lemma_refines_trans(&g0, &g1, self);
                }
                let e = match e {
                    Some(e) => e,
                    None => {
                        return None;
                    },
                };
                let ghost g2 = *self;
                proof {
                    lemma_resolve_refined(g2, g1, value as int, f);
                }
                let v = self.resolve_with(value, Ghost(f));
                proof {
                    lemma_refines_trans(&g0, &g2, self);
                }
                match v {
                    Some(v) => Some(Ty::ErrorUnion { error: Box::new(e), value: Box::new(v) }),
                    None => None,
                }
            },
            Some(InferShape::Callable { .. }) => None,
        }
    }

    fn resolve_ids_with(&mut self, ids: &Vec<InferId>, i: usize, Ghost(fuel): Ghost<nat>) -> (r: Option<TyList>)
        requires
            old(self).wf(),
            i <= ids@.len(),
            forall|k: int| 0 <= k < ids@.len() ==> #[trigger] ids@[k] < old(self).nodes@.len(),
            spec_resolve_ids(*old(self), ids@.skip(i as int), fuel) is Some,
        ensures
            final(self).refines(old(self)),
            final(self).locals == old(self).locals,
            final(self).exprs == old(self).exprs,
            Some(r) == spec_resolve_ids(*old(self), ids@.skip(i as int), fuel),
        decreases fuel, 2nat, ids@.len() - i,
    {
        let ghost g0 = *self;
        if i == ids.len() {
            proof {
                assert(ids@.skip(i as int).len() == 0);
                assert(self.extends(old(self)));
            }
            return Some(TyList::Nil);
        }
        proof {
            assert(ids@.skip(i as int)[0] == ids@[i as int]);
            assert(ids@.skip(i as int).drop_first() =~= ids@.skip(i + 1));
        }
        let first = self.resolve_with(ids[i], Ghost(fuel));
        let first = match first {
            Some(t) => t,
            None => {
                return None;
            },
        };
        let ghost g1 = *self;
        proof {
            lemma_resolve_ids_refined(g1, g0, ids@.skip(i + 1), fuel);
            assert forall|k: int| 0 <= k < ids@.len() implies #[trigger] ids@[k] < self.nodes@.len() by {
                assert(ids@[k] < g0.nodes@.len());
            }
        }
        let rest = self.resolve_ids_with(ids, i + 1, Ghost(fuel));
        proof {
            lemma_refines_trans(&g0, &g1, self);
        }
        match rest {
            Some(rest) => Some(TyList::Cons(Box::new(first), Box::new(rest))),
            None => None,
        }
    }
}

impl FunctionInference {
    /// The type a term resolves to, for a term whose resolution ends: the
    /// term's representative's known type, or the structure of its shape
    /// with every part resolved; nothing when a part is unknown or callable.
    /// A known tuple, pointer, optional or error union resolves through the
    /// terms of its parts.
    pub fn resolve(&mut self, id: InferId) -> (r: Option<Ty>)
        requires
            old(self).wf(),
            id < old(self).nodes@.len(),
            exists|fuel: nat| spec_resolve(*old(self), id as int, fuel) is Some,
        ensures
            final(self).refines(old(self)),
            final(self).locals == old(self).locals,
            final(self).exprs == old(self).exprs,
            r == spec_resolution(*old(self), id as int),
    {
        let ghost fuel = spec_resolve_budget(*self, id as int);
        self.resolve_with(id, Ghost(fuel))
    }
}

/// The partial type a term stands for within `fuel` steps (`None` when the
/// budget runs out): unknown where the representative has no shape.
pub open spec fn spec_infer(g: FunctionInference, id: int, fuel: nat) -> Option<InferredType>
    decreases fuel, 2nat, 0nat,
{
    if fuel == 0 {
        None
    } else {
        let root = spec_root(g.nodes@, id);
        let f = (fuel - 1) as nat;
        match g.nodes@[root].shape {
            None => Some(InferredType::Unknown),
            Some(InferShape::Known(ty)) => spec_infer_ty(g, ty, fuel),
            Some(InferShape::Tuple(ids)) => match spec_infer_ids(g, ids@, f) {
                None => None,
                Some(l) => Some(InferredType::Tuple(l)),
            },
            Some(InferShape::Pointer { is_readonly, elem }) => match spec_infer(g, elem as int, f) {
                None => None,
                Some(t) => Some(InferredType::Pointer { is_readonly, elem: Box::new(t) }),
            },
            Some(InferShape::Optional { elem }) => match spec_infer(g, elem as int, f) {
                None => None,
                Some(t) => Some(InferredType::Optional(Box::new(t))),
            },
            Some(InferShape::ErrorUnion { error, value }) => match (
                spec_infer(g, error as int, f),
                spec_infer(g, value as int, f),
            ) {
                (Some(e), Some(v)) => Some(InferredType::ErrorUnion { error: Box::new(e), value: Box::new(v) }),
                _ => None,
            },
            Some(InferShape::Callable { params, return_type }) => match (
                spec_infer_ids(g, params@, f),
                spec_infer(g, return_type as int, f),
            ) {
                (Some(ps), Some(r)) => Some(InferredType::Callable { params: ps, return_type: Box::new(r) }),
                _ => None,
            },
        }
    }
}

/// The partial types of the terms `ids`, in order.
pub open spec fn spec_infer_ids(g: FunctionInference, ids: Seq<InferId>, fuel: nat) -> Option<InferredList>
    decreases fuel, 3nat, ids.len(),
{
    if ids.len() == 0 {
        Some(InferredList::Nil)
    } else {
        match (spec_infer(g, ids[0] as int, fuel), spec_infer_ids(g, ids.drop_first(), fuel)) {
            (Some(t), Some(rest)) => Some(InferredList::Cons(Box::new(t), Box::new(rest))),
            _ => None,
        }
    }
}

/// The partial type a known type stands for through the terms of its parts.
pub open spec fn spec_infer_ty(g: FunctionInference, ty: Ty, fuel: nat) -> Option<InferredType>
    decreases fuel, 1nat, 0nat,
{
    if fuel == 0 {
        None
    } else {
        let f = (fuel - 1) as nat;
        match ty {
            Ty::Tuple(elems) => match spec_infer_tys(g, elems, f) {
                None => None,
                Some(l) => Some(InferredType::Tuple(l)),
            },
            Ty::Pointer { is_readonly, elem } => match spec_infer_known(g, *elem, f) {
                None => None,
                Some(t) => Some(InferredType::Pointer { is_readonly, elem: Box::new(t) }),
            },
            Ty::Optional { elem } => match spec_infer_known(g, *elem, f) {
                None => None,
                Some(t) => Some(InferredType::Optional(Box::new(t))),
            },
            Ty::ErrorUnion { error, value } => match (spec_infer_known(g, *error, f), spec_infer_known(g, *value, f)) {
                (Some(e), Some(v)) => Some(InferredType::ErrorUnion { error: Box::new(e), value: Box::new(v) }),
                _ => None,
            },
            Ty::FunctionPointer { params, return_type, is_variadic } => if is_variadic {
                Some(InferredType::Known(ty))
            } else {
                spec_infer_callable(g, params, *return_type, f)
            },
            Ty::Callable { params, return_type, .. } => spec_infer_callable(g, params, *return_type, f),
            Ty::CallablePointee { params, return_type } => spec_infer_callable(g, params, *return_type, f),
            Ty::ClosureState { params, return_type, .. } => spec_infer_callable(g, params, *return_type, f),
            _ => Some(InferredType::Known(ty)),
        }
    }
}

/// The partial callable type of known parameter and result types.
pub open spec fn spec_infer_callable(g: FunctionInference, params: TyList, return_type: Ty, fuel: nat) -> Option<
    InferredType,
>
    decreases fuel, 6nat, 0nat,
{
    match (spec_infer_tys(g, params, fuel), spec_infer_known(g, return_type, fuel)) {
        (Some(ps), Some(r)) => Some(InferredType::Callable { params: ps, return_type: Box::new(r) }),
        _ => None,
    }
}

/// The partial types of known part types, in order.
pub open spec fn spec_infer_tys(g: FunctionInference, tys: TyList, fuel: nat) -> Option<InferredList>
    decreases fuel, 5nat, tys.len(),
{
    match tys {
        TyList::Nil => Some(InferredList::Nil),
        TyList::Cons(head, tail) => match (spec_infer_known(g, *head, fuel), spec_infer_tys(g, *tail, fuel)) {
            (Some(t), Some(rest)) => Some(InferredList::Cons(Box::new(t), Box::new(rest))),
            _ => None,
        },
    }
}

/// The partial type of a part type: through its term where it has one,
/// else through its own parts.
pub open spec fn spec_infer_known(g: FunctionInference, ty: Ty, fuel: nat) -> Option<InferredType>
    decreases fuel, 4nat, 0nat,
{
    match g.concrete_terms.spec_get(ty) {
        Some(id) => spec_infer(g, id as int, fuel),
        None => spec_infer_ty(g, ty, fuel),
    }
}

/// Refining the graph keeps the partial type of every old term.
pub proof fn lemma_infer_refined(new: FunctionInference, old: FunctionInference, id: int, fuel: nat)
    requires
        new.refines(&old),
        old.wf(),
        0 <= id < old.nodes@.len(),
    ensures
        spec_infer(new, id, fuel) == spec_infer(old, id, fuel),
    decreases fuel, 2nat, 0nat,
{
    if fuel > 0 {
        let root = spec_root(old.nodes@, id);
        lemma_root_step(old.nodes@, forest_levels(old.nodes@), id);
        assert(spec_root(new.nodes@, id) == root);
        assert(new.nodes@[root].shape == old.nodes@[root].shape);
        let f = (fuel - 1) as nat;
        match old.nodes@[root].shape {
            None => {},
            Some(InferShape::Known(ty)) => lemma_infer_ty_refined(new, old, ty, fuel),
            Some(s0) => {
                assert(s0.parts_below(old.nodes@.len() as nat));
                match s0 {
                    InferShape::Tuple(ids) => lemma_infer_ids_refined(new, old, ids@, f),
                    InferShape::Pointer { elem, .. } => lemma_infer_refined(new, old, elem as int, f),
                    InferShape::Optional { elem } => lemma_infer_refined(new, old, elem as int, f),
                    InferShape::ErrorUnion { error, value } => {
                        lemma_infer_refined(new, old, error as int, f);
                        lemma_infer_refined(new, old, value as int, f);
                    },
                    InferShape::Callable { params, return_type } => {
                        lemma_infer_ids_refined(new, old, params@, f);
                        lemma_infer_refined(new, old, return_type as int, f);
                    },
                    InferShape::Known(_) => {},
                }
            },
        }
    }
}

pub proof fn lemma_infer_ids_refined(new: FunctionInference, old: FunctionInference, ids: Seq<InferId>, fuel: nat)
    requires
        new.refines(&old),
        old.wf(),
        forall|i: int| 0 <= i < ids.len() ==> #[trigger] ids[i] < old.nodes@.len(),
    ensures
        spec_infer_ids(new, ids, fuel) == spec_infer_ids(old, ids, fuel),
    decreases fuel, 3nat, ids.len(),
{
    if ids.len() > 0 {
        lemma_infer_refined(new, old, ids[0] as int, fuel);
        assert forall|i: int| 0 <= i < ids.drop_first().len() implies #[trigger] ids.drop_first()[i]
            < old.nodes@.len() by {
            assert(ids.drop_first()[i] == ids[i + 1]);
        }
        lemma_infer_ids_refined(new, old, ids.drop_first(), fuel);
    }
}

pub proof fn lemma_infer_ty_refined(new: FunctionInference, old: FunctionInference, ty: Ty, fuel: nat)
    requires
        new.refines(&old),
        old.wf(),
    ensures
        spec_infer_ty(new, ty, fuel) == spec_infer_ty(old, ty, fuel),
    decreases fuel, 1nat, 0nat,
{
    if fuel > 0 {
        let f = (fuel - 1) as nat;
        match ty {
            Ty::Tuple(elems) => lemma_infer_tys_refined(new, old, elems, f),
            Ty::Pointer { elem, .. } => lemma_infer_known_refined(new, old, *elem, f),
            Ty::Optional { elem } => lemma_infer_known_refined(new, old, *elem, f),
            Ty::ErrorUnion { error, value } => {
                lemma_infer_known_refined(new, old, *error, f);
                lemma_infer_known_refined(new, old, *value, f);
            },
            Ty::FunctionPointer { params, return_type, .. } => lemma_infer_callable_refined(
                new,
                old,
                params,
                *return_type,
                f,
            ),
            Ty::Callable { params, return_type, .. } => lemma_infer_callable_refined(new, old, params, *return_type, f),
            Ty::CallablePointee { params, return_type } => lemma_infer_callable_refined(
                new,
                old,
                params,
                *return_type,
                f,
            ),
            Ty::ClosureState { params, return_type, .. } => lemma_infer_callable_refined(
                new,
                old,
                params,
                *return_type,
                f,
            ),
            _ => {},
        }
    }
}

pub proof fn lemma_infer_callable_refined(
    new: FunctionInference,
    old: FunctionInference,
    params: TyList,
    return_type: Ty,
    fuel: nat,
)
    requires
        new.refines(&old),
        old.wf(),
    ensures
        spec_infer_callable(new, params, return_type, fuel) == spec_infer_callable(old, params, return_type, fuel),
    decreases fuel, 6nat, 0nat,
{
    lemma_infer_tys_refined(new, old, params, fuel);
    lemma_infer_known_refined(new, old, return_type, fuel);
}

pub proof fn lemma_infer_tys_refined(new: FunctionInference, old: FunctionInference, tys: TyList, fuel: nat)
    requires
        new.refines(&old),
        old.wf(),
    ensures
        spec_infer_tys(new, tys, fuel) == spec_infer_tys(old, tys, fuel),
    decreases fuel, 5nat, tys.len(),
{
    match tys {
        TyList::Nil => {},
        TyList::Cons(head, tail) => {
            lemma_infer_known_refined(new, old, *head, fuel);
            lemma_infer_tys_refined(new, old, *tail, fuel);
        },
    }
}

pub proof fn lemma_infer_known_refined(new: FunctionInference, old: FunctionInference, ty: Ty, fuel: nat)
    requires
        new.refines(&old),
        old.wf(),
    ensures
        spec_infer_known(new, ty, fuel) == spec_infer_known(old, ty, fuel),
    decreases fuel, 4nat, 0nat,
{
    match old.concrete_terms.spec_get(ty) {
        Some(id) => {
            assert(new.concrete_terms.spec_get(ty) == Some(id));
            lemma_infer_refined(new, old, id as int, fuel);
        },
        None => {
            lemma_infer_ty_refined(new, old, ty, fuel);
            match new.concrete_terms.spec_get(ty) {
                Some(id) => {
                    assert(new.nodes@[id as int].parent == id);
                    lemma_root_step(new.nodes@, forest_levels(new.nodes@), id as int);
                },
                None => {},
            }
        },
    }
}

/// The terms of a list's types stand for the partial types the types do.
proof fn lemma_infer_ids_for_tys(g: FunctionInference, ids: Seq<InferId>, tys: TyList, fuel: nat)
    requires
        terms_for(g.concrete_terms, tys.seq(), ids),
    ensures
        spec_infer_ids(g, ids, fuel) == spec_infer_tys(g, tys, fuel),
    decreases tys,
{
    match tys {
        TyList::Nil => {
            assert(tys.seq().len() == 0);
            assert(ids.len() == 0);
        },
        TyList::Cons(head, tail) => {
            assert(tys.seq()[0] == *head);
            assert(g.concrete_terms.spec_get(*head) == Some(ids[0]));
            assert(spec_infer_known(g, *head, fuel) == spec_infer(g, ids[0] as int, fuel));
            assert(terms_for(g.concrete_terms, tail.seq(), ids.drop_first())) by {
                assert forall|i: int| 0 <= i < ids.drop_first().len() implies #[trigger] g.concrete_terms.spec_get(
                    tail.seq()[i],
                ) == Some(ids.drop_first()[i]) by {
                    assert(tys.seq()[i + 1] == tail.seq()[i]);
                }
            }
            lemma_infer_ids_for_tys(g, ids.drop_first(), *tail, fuel);
        },
    }
}

/// The number of steps within which a term's partial type is complete.
pub open spec fn spec_infer_budget(g: FunctionInference, id: int) -> nat {
    choose|fuel: nat| spec_infer(g, id, fuel) is Some
}

/// The partial type a term stands for, for a term whose reading ends.
pub open spec fn spec_inferred(g: FunctionInference, id: int) -> InferredType {
    spec_infer(g, id, spec_infer_budget(g, id)).unwrap()
}

impl FunctionInference {
    fn infer_with(&mut self, id: InferId, Ghost(fuel): Ghost<nat>) -> (r: InferredType)
        requires
            old(self).wf(),
            id < old(self).nodes@.len(),
            spec_infer(*old(self), id as int, fuel) is Some,
        ensures
            final(self).refines(old(self)),
            final(self).locals == old(self).locals,
            final(self).exprs == old(self).exprs,
            Some(r) == spec_infer(*old(self), id as int, fuel),
        decreases fuel, 1nat, 0nat,
    {
        let ghost g0 = *self;
        let ghost root = spec_root(g0.nodes@, id as int);
        proof {
            lemma_root_step(g0.nodes@, forest_levels(g0.nodes@), id as int);
        }
        let shape = self.expanded_shape(id);
        let ghost g1 = *self;
        let ghost f = (fuel - 1) as nat;
        proof {
            if let Some(InferShape::Known(t)) = g0.nodes@[root].shape {
                assert(spec_infer(g0, id as int, fuel) == spec_infer_ty(g0, t, fuel));
            }
        }
        match shape {
            None => InferredType::Unknown,
            Some(InferShape::Known(ty)) => InferredType::Known(ty),
            Some(InferShape::Tuple(ids)) => {
                proof {
                    match g0.nodes@[root].shape {
                        Some(InferShape::Known(t)) => {
                            if let Ty::Tuple(elems) = t {
                                lemma_infer_ids_for_tys(g1, ids@, elems, f);
                                lemma_infer_tys_refined(g1, g0, elems, f);
                            }
                        },
                        Some(s0) => {
                            assert(s0.parts_below(g0.nodes@.len() as nat));
                            lemma_infer_ids_refined(g1, g0, ids@, f);
                        },
                        None => {},
                    }
                    assert(ids@.skip(0) =~= ids@);
                }
                let elems = self.infer_ids_with(&ids, 0, Ghost(f));
                proof {
                    lemma_refines_trans(&g0, &g1, self);
                }
                InferredType::Tuple(elems)
            },
            Some(InferShape::Pointer { is_readonly, elem }) => {
                proof {
                    match g0.nodes@[root].shape {
                        Some(InferShape::Known(t)) => {
                            if let Ty::Pointer { elem: et, .. } = t {
                                lemma_infer_known_refined(g1, g0, *et, f);
                                assert(spec_infer_known(g1, *et, f) == spec_infer(g1, elem as int, f));
                            }
                        },
                        Some(s0) => {
                            assert(s0.parts_below(g0.nodes@.len() as nat));
                            lemma_infer_refined(g1, g0, elem as int, f);
                        },
                        None => {},
                    }
                }
                let t = self.infer_with(elem, Ghost(f));
                proof {
                    lemma_refines_trans(&g0, &g1, self);
                }
                InferredType::Pointer { is_readonly, elem: Box::new(t) }
            },
            Some(InferShape::Optional { elem }) => {
                proof {
                    match g0.nodes@[root].shape {
                        Some(InferShape::Known(t)) => {
                            if let Ty::Optional { elem: et } = t {
                                lemma_infer_known_refined(g1, g0, *et, f);
                                assert(spec_infer_known(g1, *et, f) == spec_infer(g1, elem as int, f));
                            }
                        },
                        Some(s0) => {
                            assert(s0.parts_below(g0.nodes@.len() as nat));
                            lemma_infer_refined(g1, g0, elem as int, f);
                        },
                        None => {},
                    }
                }
                let t = self.infer_with(elem, Ghost(f));
                proof {
                    lemma_refines_trans(&g0, &g1, self);
                }
                InferredType::Optional(Box::new(t))
            },
            Some(InferShape::ErrorUnion { error, value }) => {
                proof {
                    match g0.nodes@[root].shape {
                        Some(InferShape::Known(t)) => {
                            if let Ty::ErrorUnion { error: et, value: vt } = t {
                                lemma_infer_known_refined(g1, g0, *et, f);
                                lemma_infer_known_refined(g1, g0, *vt, f);
                                assert(spec_infer_known(g1, *et, f) == spec_infer(g1, error as int, f));
                                assert(spec_infer_known(g1, *vt, f) == spec_infer(g1, value as int, f));
                            }
                        },
                        Some(s0) => {
                            assert(s0.parts_below(g0.nodes@.len() as nat));
                            lemma_infer_refined(g1, g0, error as int, f);
                            lemma_infer_refined(g1, g0, value as int, f);
                        },
                        None => {},
                    }
                }
                let e = self.infer_with(error, Ghost(f));
                let ghost g2 = *self;
                proof {
                    lemma_infer_refined(g2, g1, value as int, f);
                }
                let v = self.infer_with(value, Ghost(f));
                proof {
                    lemma_refines_trans(&g1, &g2, self);
                    lemma_refines_trans(&g0, &g1, self);
                }
                InferredType::ErrorUnion { error: Box::new(e), value: Box::new(v) }
            },
            Some(InferShape::Callable { params, return_type }) => {
                proof {
                    match g0.nodes@[root].shape {
                        Some(InferShape::Known(t)) => {
                            match t {
                                Ty::FunctionPointer { params: pt, return_type: rt, .. } => {
                                    lemma_infer_ids_for_tys(g1, params@, pt, f);
                                    lemma_infer_callable_refined(g1, g0, pt, *rt, f);
                                    assert(spec_infer_known(g1, *rt, f) == spec_infer(g1, return_type as int, f));
                                },
                                Ty::Callable { params: pt, return_type: rt, .. } => {
                                    lemma_infer_ids_for_tys(g1, params@, pt, f);
                                    lemma_infer_callable_refined(g1, g0, pt, *rt, f);
                                    assert(spec_infer_known(g1, *rt, f) == spec_infer(g1, return_type as int, f));
                                },
                                Ty::CallablePointee { params: pt, return_type: rt } => {
                                    lemma_infer_ids_for_tys(g1, params@, pt, f);
                                    lemma_infer_callable_refined(g1, g0, pt, *rt, f);
                                    assert(spec_infer_known(g1, *rt, f) == spec_infer(g1, return_type as int, f));
                                },
                                Ty::ClosureState { params: pt, return_type: rt, .. } => {
                                    lemma_infer_ids_for_tys(g1, params@, pt, f);
                                    lemma_infer_callable_refined(g1, g0, pt, *rt, f);
                                    assert(spec_infer_known(g1, *rt, f) == spec_infer(g1, return_type as int, f));
                                },
                                _ => {},
                            }
                        },
                        Some(s0) => {
                            assert(s0.parts_below(g0.nodes@.len() as nat));
                            lemma_infer_ids_refined(g1, g0, params@, f);
                            lemma_infer_refined(g1, g0, return_type as int, f);
                        },
                        None => {},
                    }
                    assert(params@.skip(0) =~= params@);
                }
                let ps = self.infer_ids_with(&params, 0, Ghost(f));
                let ghost g2 = *self;
                proof {
                    lemma_infer_refined(g2, g1, return_type as int, f);
                }
                let ret = self.infer_with(return_type, Ghost(f));
                proof {
                    lemma_refines_trans(&g1, &g2, self);
                    lemma_refines_trans(&g0, &g1, self);
                }
                InferredType::Callable { params: ps, return_type: Box::new(ret) }
            },
        }
    }

    fn infer_ids_with(&mut self, ids: &Vec<InferId>, i: usize, Ghost(fuel): Ghost<nat>) -> (r: InferredList)
        requires
            old(self).wf(),
            i <= ids@.len(),
            forall|k: int| 0 <= k < ids@.len() ==> #[trigger] ids@[k] < old(self).nodes@.len(),
            spec_infer_ids(*old(self), ids@.skip(i as int), fuel) is Some,
        ensures
            final(self).refines(old(self)),
            final(self).locals == old(self).locals,
            final(self).exprs == old(self).exprs,
            Some(r) == spec_infer_ids(*old(self), ids@.skip(i as int), fuel),
        decreases fuel, 2nat, ids@.len() - i,
    {
        let ghost g0 = *self;
        if i == ids.len() {
            proof {
                assert(ids@.skip(i as int).len() == 0);
                assert(self.extends(old(self)));
            }
            return InferredList::Nil;
        }
        proof {
            assert(ids@.skip(i as int)[0] == ids@[i as int]);
            assert(ids@.skip(i as int).drop_first() =~= ids@.skip(i + 1));
        }
        let first = self.infer_with(ids[i], Ghost(fuel));
        let ghost g1 = *self;
        proof {
            lemma_infer_ids_refined(g1, g0, ids@.skip(i + 1), fuel);
            assert forall|k: int| 0 <= k < ids@.len() implies #[trigger] ids@[k] < self.nodes@.len() by {
                assert(ids@[k] < g0.nodes@.len());
            }
        }
        let rest = self.infer_ids_with(ids, i + 1, Ghost(fuel));
        proof {
            lemma_refines_trans(&g0, &g1, self);
        }
        InferredList::Cons(Box::new(first), Box::new(rest))
    }

    /// The partial type a term stands for, for a term whose reading ends:
    /// unknown where nothing is known, the known type, or the structure of
    /// its shape with every part read the same way; a known tuple, pointer,
    /// optional, error union or callable type is read through the terms of
    /// its parts.
    pub fn inferred_type(&mut self, id: InferId) -> (r: InferredType)
        requires
            old(self).wf(),
            id < old(self).nodes@.len(),
            exists|fuel: nat| spec_infer(*old(self), id as int, fuel) is Some,
        ensures
            final(self).refines(old(self)),
            final(self).locals == old(self).locals,
            final(self).exprs == old(self).exprs,
            r == spec_inferred(*old(self), id as int),
    {
        let ghost fuel = spec_infer_budget(*self, id as int);
        self.infer_with(id, Ghost(fuel))
    }
}

} // verus!
