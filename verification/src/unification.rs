//! Unifying two terms of the equality graph: incompatible outer shapes are
//! refused before anything is merged, the parts of two structures are
//! unified before their representatives are, and the merge links the
//! representative of lower rank under the other.
use vstd::prelude::*;
use crate::function_inference::{
    forest_levels, lemma_link, lemma_refines_trans, lemma_root_step, levels_tight, linked_levels,
    spec_expansion, spec_root, spec_shapes_compatible, FunctionInference, InferId, InferShape,
};
use crate::ids::LocalId;
use crate::table::Table;
use crate::ty::Ty;

verus! {

/// The outer form of a term's shape, with a known tuple, pointer, optional,
/// error union or callable type counted as that structure.
pub enum OuterKind {
    Known(Ty),
    Tuple(nat),
    Pointer(bool),
    Optional,
    ErrorUnion,
    Callable(nat),
}

/// The outer form of a known type.
pub open spec fn spec_known_kind(ty: Ty) -> OuterKind {
    match ty {
        Ty::Tuple(elems) => OuterKind::Tuple(elems.seq().len()),
        Ty::Pointer { is_readonly, .. } => OuterKind::Pointer(is_readonly),
        Ty::Optional { .. } => OuterKind::Optional,
        Ty::ErrorUnion { .. } => OuterKind::ErrorUnion,
        Ty::FunctionPointer { params, is_variadic, .. } => if is_variadic {
            OuterKind::Known(ty)
        } else {
            OuterKind::Callable(params.seq().len())
        },
        Ty::Callable { params, .. } => OuterKind::Callable(params.seq().len()),
        Ty::CallablePointee { params, .. } => OuterKind::Callable(params.seq().len()),
        Ty::ClosureState { params, .. } => OuterKind::Callable(params.seq().len()),
        _ => OuterKind::Known(ty),
    }
}

/// The outer form of a shape.
pub open spec fn spec_shape_kind(s: InferShape) -> OuterKind {
    match s {
        InferShape::Known(ty) => spec_known_kind(ty),
        InferShape::Tuple(ids) => OuterKind::Tuple(ids@.len()),
        InferShape::Pointer { is_readonly, .. } => OuterKind::Pointer(is_readonly),
        InferShape::Optional { .. } => OuterKind::Optional,
        InferShape::ErrorUnion { .. } => OuterKind::ErrorUnion,
        InferShape::Callable { params, .. } => OuterKind::Callable(params@.len()),
    }
}

/// Whether two outer forms may stand for the same type: an unknown one fits
/// anything; known types must be equal unless one is the error type;
/// structures must agree in kind, arity and (for pointers) mutability.
pub open spec fn spec_kinds_compatible(a: Option<OuterKind>, b: Option<OuterKind>) -> bool {
    match (a, b) {
        (None, _) => true,
        (_, None) => true,
        (Some(OuterKind::Known(x)), Some(OuterKind::Known(y))) => x == y || x is Error || y is Error,
        (Some(OuterKind::Tuple(m)), Some(OuterKind::Tuple(n))) => m == n,
        (Some(OuterKind::Pointer(x)), Some(OuterKind::Pointer(y))) => x == y,
        (Some(OuterKind::Optional), Some(OuterKind::Optional)) => true,
        (Some(OuterKind::ErrorUnion), Some(OuterKind::ErrorUnion)) => true,
        (Some(OuterKind::Callable(m)), Some(OuterKind::Callable(n))) => m == n,
        _ => false,
    }
}

/// A shape as `expanded_shape` gives it: a known type only when it is no
/// structure.
pub open spec fn spec_is_expanded(s: InferShape) -> bool {
    match s {
        InferShape::Known(ty) => spec_known_kind(ty) is Known,
        _ => true,
    }
}

/// The view of a known type through the terms of its parts has the type's
/// outer form and is expanded.
pub proof fn lemma_expansion_kind(table: crate::table::Table<Ty, InferId>, ty: Ty, c: InferShape)
    requires
        spec_expansion(table, ty, c),
    ensures
        spec_shape_kind(c) == spec_known_kind(ty),
        spec_is_expanded(c),
{
}

/// On expanded shapes, outer-shape compatibility is compatibility of the
/// outer forms.
pub proof fn lemma_compatible_kinds(x: Option<InferShape>, y: Option<InferShape>)
    requires
        x is Some ==> spec_is_expanded(x.unwrap()),
        y is Some ==> spec_is_expanded(y.unwrap()),
    ensures
        spec_shapes_compatible(x, y) == spec_kinds_compatible(
            match x {
                Some(s) => Some(spec_shape_kind(s)),
                None => None,
            },
            match y {
                Some(s) => Some(spec_shape_kind(s)),
                None => None,
            },
        ),
{
}

/// The outer form of an optional shape.
pub open spec fn spec_kind_of(shape: Option<InferShape>) -> Option<OuterKind> {
    match shape {
        Some(s) => Some(spec_shape_kind(s)),
        None => None,
    }
}

/// An outer form that is a structure, not a known type.
pub open spec fn spec_is_structure(k: Option<OuterKind>) -> bool {
    k is Some && !(k.unwrap() is Known)
}

impl FunctionInference {
    /// The outer form of the class of `id`, if its representative knows a
    /// shape.
    pub open spec fn spec_class_kind(&self, id: InferId) -> Option<OuterKind> {
        match self.nodes@[self.spec_find(id) as int].shape {
            Some(s) => Some(spec_shape_kind(s)),
            None => None,
        }
    }

    /// `self` holds the nodes and table entries of `old`; each term of `old`
    /// is in the class of its representative in `old`, so classes that
    /// were one stay one; a class that knew a shape still knows one, and one
    /// that knew a structure still knows a structure of that form.
    pub open spec fn keeps_classes(&self, old: &FunctionInference) -> bool {
        &&& self.wf()
        &&& old.nodes@.len() <= self.nodes@.len()
        &&& forall|i: int|
            #![trigger spec_root(old.nodes@, i)]
            0 <= i < old.nodes@.len() ==> spec_root(self.nodes@, i) == spec_root(
                self.nodes@,
                spec_root(old.nodes@, i),
            )
        &&& forall|i: int|
            #![trigger spec_root(old.nodes@, i)]
            0 <= i < old.nodes@.len() && old.nodes@[spec_root(old.nodes@, i)].shape is Some
                ==> self.nodes@[spec_root(self.nodes@, i)].shape is Some
        &&& forall|i: int|
            #![trigger spec_root(old.nodes@, i)]
            0 <= i < old.nodes@.len() && spec_is_structure(spec_kind_of(old.nodes@[spec_root(old.nodes@, i)].shape))
                ==> spec_kind_of(self.nodes@[spec_root(self.nodes@, i)].shape) == spec_kind_of(
                old.nodes@[spec_root(old.nodes@, i)].shape,
            )
        &&& forall|t: Ty| #[trigger]
            old.concrete_terms.spec_get(t) is Some ==> self.concrete_terms.spec_get(t) == old.concrete_terms.spec_get(t)
        &&& forall|l: LocalId| #[trigger] old.locals.spec_get(l) is Some ==> self.locals.spec_get(l) == old.locals.spec_get(l)
        &&& forall|e: u32| #[trigger] old.exprs.spec_get(e) is Some ==> self.exprs.spec_get(e) == old.exprs.spec_get(e)
        &&& old.refusals@ <= self.refusals@
        &&& old.operators@.len() <= self.operators@.len()
        &&& forall|k: int| 0 <= k < old.operators@.len() ==> #[trigger] self.operators@[k] == old.operators@[k]
        &&& forall|i: int|
            #![trigger spec_root(old.nodes@, i)]
            0 <= i < old.nodes@.len() ==> self.spec_congruent(
                old.nodes@[spec_root(old.nodes@, i)].shape,
                self.nodes@[spec_root(self.nodes@, i)].shape,
            )
    }
}

/// A shape that is a structure of terms, not a known type.
pub open spec fn spec_term_structure(s: Option<InferShape>) -> bool {
    s matches Some(x) && !(x is Known)
}

impl FunctionInference {
    /// `new_shape` holds, class for class, what `old_shape` held: a
    /// structure of terms stays a structure whose parts are in the classes
    /// of the old parts; a known structured type stays as it is or becomes
    /// a structure whose parts are in the classes of the terms of its
    /// parts' types.
    pub open spec fn spec_congruent(&self, old_shape: Option<InferShape>, new_shape: Option<InferShape>) -> bool {
        match old_shape {
            Some(InferShape::Known(ty)) => spec_known_kind(ty) is Known || new_shape == old_shape || (
            spec_term_structure(new_shape) && exists|e: InferShape|
                spec_expansion(self.concrete_terms, ty, e) && #[trigger] self.spec_parts_joined(new_shape.unwrap(), e)),
            Some(o) => spec_term_structure(new_shape) && self.spec_parts_joined(new_shape.unwrap(), o),
            None => true,
        }
    }
}

/// Joined parts are joined either way round.
pub proof fn lemma_joined_sym(g: &FunctionInference, x: InferShape, y: InferShape)
    requires
        g.spec_parts_joined(x, y),
    ensures
        g.spec_parts_joined(y, x),
{
    match (x, y) {
        (InferShape::Tuple(a), InferShape::Tuple(b)) => {
            assert forall|i: int| 0 <= i < b@.len() && i < a@.len() implies #[trigger] g.spec_find(b@[i])
                == g.spec_find(a@[i]) by {
                assert(g.spec_find(a@[i]) == g.spec_find(b@[i]));
            }
        },
        (InferShape::Callable { params: a, .. }, InferShape::Callable { params: b, .. }) => {
            assert forall|i: int| 0 <= i < b@.len() && i < a@.len() implies #[trigger] g.spec_find(b@[i])
                == g.spec_find(a@[i]) by {
                assert(g.spec_find(a@[i]) == g.spec_find(b@[i]));
            }
        },
        _ => {},
    }
}

/// Joining the parts of shapes of one form is transitive.
pub proof fn lemma_joined_trans(g: &FunctionInference, x: InferShape, y: InferShape, z: InferShape)
    requires
        g.spec_parts_joined(x, y),
        g.spec_parts_joined(y, z),
        spec_shape_kind(x) == spec_shape_kind(y),
        spec_shape_kind(y) == spec_shape_kind(z),
        !(x is Known),
        !(y is Known),
        !(z is Known),
    ensures
        g.spec_parts_joined(x, z),
{
    match (x, y, z) {
        (InferShape::Tuple(a), InferShape::Tuple(b), InferShape::Tuple(c)) => {
            assert forall|i: int| 0 <= i < a@.len() && i < c@.len() implies #[trigger] g.spec_find(a@[i])
                == g.spec_find(c@[i]) by {
                assert(g.spec_find(a@[i]) == g.spec_find(b@[i]));
                assert(g.spec_find(b@[i]) == g.spec_find(c@[i]));
            }
        },
        (
            InferShape::Callable { params: a, .. },
            InferShape::Callable { params: b, .. },
            InferShape::Callable { params: c, .. },
        ) => {
            assert forall|i: int| 0 <= i < a@.len() && i < c@.len() implies #[trigger] g.spec_find(a@[i])
                == g.spec_find(c@[i]) by {
                assert(g.spec_find(a@[i]) == g.spec_find(b@[i]));
                assert(g.spec_find(b@[i]) == g.spec_find(c@[i]));
            }
        },
        _ => {},
    }
}

/// A graph's shapes are congruent with themselves.
pub proof fn lemma_congruent_refl(g: &FunctionInference, s: Option<InferShape>)
    ensures
        g.spec_congruent(s, s),
{
    match s {
        Some(x) => {
            lemma_joined_same(g, x, x);
        },
        None => {},
    }
}

/// The representative of a representative is itself.
pub proof fn lemma_root_of_root(g: &FunctionInference, i: int)
    requires
        g.wf(),
        0 <= i < g.nodes@.len(),
    ensures
        0 <= spec_root(g.nodes@, i) < g.nodes@.len(),
        spec_root(g.nodes@, spec_root(g.nodes@, i)) == spec_root(g.nodes@, i),
        g.nodes@[spec_root(g.nodes@, i)].parent == spec_root(g.nodes@, i),
{
    let levels = forest_levels(g.nodes@);
    lemma_root_step(g.nodes@, levels, i);
    lemma_root_step(g.nodes@, levels, spec_root(g.nodes@, i));
}

/// Growing (and so refining) keeps the classes.
pub proof fn lemma_refines_keeps(old: &FunctionInference, new: &FunctionInference)
    requires
        old.wf(),
        new.grows_from(old),
    ensures
        new.keeps_classes(old),
{
    assert forall|i: int| #![trigger spec_root(old.nodes@, i)] 0 <= i < old.nodes@.len() implies spec_root(
        new.nodes@,
        i,
    ) == spec_root(new.nodes@, spec_root(old.nodes@, i)) && new.nodes@[spec_root(new.nodes@, i)].shape
        == old.nodes@[spec_root(old.nodes@, i)].shape by {
        lemma_root_of_root(old, i);
        let r = spec_root(old.nodes@, i);
        assert(spec_root(new.nodes@, i) == r);
        assert(spec_root(new.nodes@, r) == spec_root(old.nodes@, r));
        assert(new.nodes@[r].shape == old.nodes@[r].shape);
        lemma_congruent_refl(new, old.nodes@[r].shape);
    }
}

/// Keeping the classes is transitive.
pub proof fn lemma_keeps_trans(a: &FunctionInference, b: &FunctionInference, c: &FunctionInference)
    requires
        a.wf(),
        b.keeps_classes(a),
        c.keeps_classes(b),
    ensures
        c.keeps_classes(a),
{
    assert forall|i: int| #![trigger spec_root(a.nodes@, i)] 0 <= i < a.nodes@.len() implies spec_root(
        c.nodes@,
        i,
    ) == spec_root(c.nodes@, spec_root(a.nodes@, i)) && (a.nodes@[spec_root(a.nodes@, i)].shape is Some
        ==> c.nodes@[spec_root(c.nodes@, i)].shape is Some) by {
        lemma_root_of_root(a, i);
        let ra = spec_root(a.nodes@, i);
        assert(spec_root(b.nodes@, i) == spec_root(b.nodes@, ra));
        assert(spec_root(c.nodes@, i) == spec_root(c.nodes@, spec_root(b.nodes@, i)));
        assert(spec_root(c.nodes@, ra) == spec_root(c.nodes@, spec_root(b.nodes@, ra)));
        if a.nodes@[ra].shape is Some {
            assert(b.nodes@[spec_root(b.nodes@, i)].shape is Some);
        }
        if spec_is_structure(spec_kind_of(a.nodes@[ra].shape)) {
            assert(spec_kind_of(b.nodes@[spec_root(b.nodes@, i)].shape) == spec_kind_of(a.nodes@[ra].shape));
        }
    }
    assert forall|i: int| #![trigger spec_root(a.nodes@, i)] 0 <= i < a.nodes@.len() implies c.spec_congruent(
        a.nodes@[spec_root(a.nodes@, i)].shape,
        c.nodes@[spec_root(c.nodes@, i)].shape,
    ) by {
        lemma_congruent_trans(a, b, c, i);
    }
}

/// The congruence of the class of term `i` carries over two steps.
pub proof fn lemma_congruent_trans(a: &FunctionInference, b: &FunctionInference, c: &FunctionInference, i: int)
    requires
        a.wf(),
        b.keeps_classes(a),
        c.keeps_classes(b),
        0 <= i < a.nodes@.len(),
    ensures
        c.spec_congruent(a.nodes@[spec_root(a.nodes@, i)].shape, c.nodes@[spec_root(c.nodes@, i)].shape),
{
    lemma_root_of_root(a, i);
    lemma_root_of_root(b, i);
    lemma_root_of_root(c, i);
    let ra = spec_root(a.nodes@, i);
    let rb = spec_root(b.nodes@, i);
    let rc = spec_root(c.nodes@, i);
    let o = a.nodes@[ra].shape;
    let m = b.nodes@[rb].shape;
    let n = c.nodes@[rc].shape;
    assert(b.spec_congruent(o, m));
    assert(c.spec_congruent(m, n));
    assert(spec_root(b.nodes@, i) == spec_root(b.nodes@, i));
    match o {
        Some(InferShape::Known(ty)) => {
            if spec_known_kind(ty) is Known || m == o {
            } else {
                let e = choose|e: InferShape| spec_expansion(b.concrete_terms, ty, e) && #[trigger] b.spec_parts_joined(m.unwrap(), e);
                lemma_expansion_grows(b.concrete_terms, c.concrete_terms, ty, e);
                lemma_expansion_kind(b.concrete_terms, ty, e);
                lemma_expansion_parts_below(b, ty, e);
                assert(b.nodes@[rb].shape.unwrap().parts_below(b.nodes@.len() as nat));
                lemma_joined_kept(b, c, m.unwrap(), e);
                assert(spec_kind_of(n) == spec_kind_of(m));
                lemma_joined_trans(c, n.unwrap(), m.unwrap(), e);
                assert(c.spec_parts_joined(n.unwrap(), e));
            }
        },
        Some(x) => {
            assert(a.nodes@[ra].shape.unwrap().parts_below(a.nodes@.len() as nat));
            lemma_parts_below_mono(x, a.nodes@.len() as nat, b.nodes@.len() as nat);
            assert(b.nodes@[rb].shape.unwrap().parts_below(b.nodes@.len() as nat));
            lemma_joined_kept(b, c, m.unwrap(), x);
            assert(spec_kind_of(m) == spec_kind_of(o));
            assert(spec_kind_of(n) == spec_kind_of(m));
            lemma_joined_trans(c, n.unwrap(), m.unwrap(), x);
        },
        None => {},
    }
}

/// The parts of an expansion are terms of the graph.
pub proof fn lemma_expansion_parts_below(g: &FunctionInference, ty: Ty, e: InferShape)
    requires
        g.wf(),
        spec_expansion(g.concrete_terms, ty, e),
    ensures
        e.parts_below(g.nodes@.len() as nat),
{
    match e {
        InferShape::Tuple(ids) => {
            if let Ty::Tuple(elems) = ty {
                assert forall|i: int| 0 <= i < ids@.len() implies #[trigger] ids@[i] < g.nodes@.len() by {
                    assert(g.concrete_terms.spec_get(elems.seq()[i]) == Some(ids@[i]));
                }
            }
        },
        InferShape::Callable { params: ps, .. } => {
            let tys = match ty {
                Ty::FunctionPointer { params, .. } => params.seq(),
                Ty::Callable { params, .. } => params.seq(),
                Ty::CallablePointee { params, .. } => params.seq(),
                Ty::ClosureState { params, .. } => params.seq(),
                _ => Seq::empty(),
            };
            assert forall|i: int| 0 <= i < ps@.len() implies #[trigger] ps@[i] < g.nodes@.len() by {
                assert(g.concrete_terms.spec_get(tys[i]) == Some(ps@[i]));
            }
        },
        _ => {},
    }
}

/// Congruence carries over to a graph with the same table that keeps the
/// classes of the first.
pub proof fn lemma_congruent_roots(
    a: &FunctionInference,
    b: &FunctionInference,
    o: Option<InferShape>,
    n: Option<InferShape>,
)
    requires
        a.wf(),
        b.wf(),
        forall|i: int|
            #![trigger spec_root(a.nodes@, i)]
            0 <= i < a.nodes@.len() ==> spec_root(b.nodes@, i) == spec_root(b.nodes@, spec_root(a.nodes@, i)),
        b.concrete_terms == a.concrete_terms,
        a.spec_congruent(o, n),
        o is Some ==> o.unwrap().parts_below(a.nodes@.len() as nat),
        n is Some ==> n.unwrap().parts_below(a.nodes@.len() as nat),
    ensures
        b.spec_congruent(o, n),
{
    match o {
        Some(InferShape::Known(ty)) => {
            if spec_known_kind(ty) is Known || n == o {
            } else {
                let e = choose|e: InferShape| spec_expansion(a.concrete_terms, ty, e) && #[trigger] a.spec_parts_joined(n.unwrap(), e);
                lemma_expansion_parts_below(a, ty, e);
                lemma_joined_kept(a, b, n.unwrap(), e);
                assert(b.spec_parts_joined(n.unwrap(), e));
            }
        },
        Some(x) => {
            lemma_joined_kept(a, b, n.unwrap(), x);
        },
        None => {},
    }
}

/// Linking representative `child` under representative `root` and giving
/// `root` a shape keeps the classes, provided no known shape is lost.
pub proof fn lemma_merge(s6: &FunctionInference, g: &FunctionInference, root: int, child: int)
    requires
        s6.wf(),
        0 <= root < s6.nodes@.len(),
        0 <= child < s6.nodes@.len(),
        root != child,
        s6.nodes@[root].parent == root,
        s6.nodes@[child].parent == child,
        g.nodes@.len() == s6.nodes@.len(),
        g.nodes@[child].parent == root,
        forall|j: int| 0 <= j < s6.nodes@.len() && j != child ==> #[trigger] g.nodes@[j].parent == s6.nodes@[j].parent,
        forall|j: int| 0 <= j < s6.nodes@.len() && j != root ==> #[trigger] g.nodes@[j].shape == s6.nodes@[j].shape,
        g.nodes@[root].shape is Some ==> g.nodes@[root].shape.unwrap().parts_below(s6.nodes@.len() as nat),
        s6.nodes@[root].shape is Some || s6.nodes@[child].shape is Some ==> g.nodes@[root].shape is Some,
        spec_is_structure(spec_kind_of(s6.nodes@[root].shape)) ==> spec_kind_of(g.nodes@[root].shape)
            == spec_kind_of(s6.nodes@[root].shape),
        spec_is_structure(spec_kind_of(s6.nodes@[child].shape)) ==> spec_kind_of(g.nodes@[root].shape)
            == spec_kind_of(s6.nodes@[child].shape),
        g.concrete_terms == s6.concrete_terms,
        g.locals == s6.locals,
        g.exprs == s6.exprs,
        g.refusals == s6.refusals,
        g.operators == s6.operators,
        s6.spec_congruent(s6.nodes@[root].shape, g.nodes@[root].shape),
        s6.spec_congruent(s6.nodes@[child].shape, g.nodes@[root].shape),
    ensures
        g.keeps_classes(s6),
        spec_root(g.nodes@, root) == root,
        spec_root(g.nodes@, child) == root,
{
    let n = s6.nodes@.len() as int;
    assert(s6.nodes.len() == s6.nodes@.len());
    let levels = forest_levels(s6.nodes@);
    lemma_link(s6.nodes@, g.nodes@, levels, child, root, root);
    lemma_link(s6.nodes@, g.nodes@, levels, child, root, child);
    lemma_root_of_root(s6, root);
    lemma_root_of_root(s6, child);
    assert(levels_tight(g.nodes@, linked_levels(levels, child, root)));
    assert forall|i: int|
        0 <= i < n && (#[trigger] g.nodes@[i]).shape is Some implies g.nodes@[i].shape.unwrap().parts_below(
        n as nat,
    ) by {
        if i != root {
            assert(g.nodes@[i].shape == s6.nodes@[i].shape);
        }
    }
    assert(g.wf());
    assert forall|i: int| #![trigger spec_root(s6.nodes@, i)] 0 <= i < n implies spec_root(g.nodes@, i)
        == spec_root(g.nodes@, spec_root(s6.nodes@, i)) && (s6.nodes@[spec_root(s6.nodes@, i)].shape is Some
        ==> g.nodes@[spec_root(g.nodes@, i)].shape is Some) && (spec_is_structure(
        spec_kind_of(s6.nodes@[spec_root(s6.nodes@, i)].shape),
    ) ==> spec_kind_of(g.nodes@[spec_root(g.nodes@, i)].shape) == spec_kind_of(
        s6.nodes@[spec_root(s6.nodes@, i)].shape,
    )) by {
        lemma_root_of_root(s6, i);
        let q = spec_root(s6.nodes@, i);
        lemma_link(s6.nodes@, g.nodes@, levels, child, root, i);
        lemma_link(s6.nodes@, g.nodes@, levels, child, root, q);
        if q != child && q != root {
            assert(g.nodes@[q].shape == s6.nodes@[q].shape);
        }
    }
    assert forall|i: int| #![trigger spec_root(s6.nodes@, i)] 0 <= i < n implies g.spec_congruent(
        s6.nodes@[spec_root(s6.nodes@, i)].shape,
        g.nodes@[spec_root(g.nodes@, i)].shape,
    ) by {
        lemma_root_of_root(s6, i);
        let q = spec_root(s6.nodes@, i);
        lemma_link(s6.nodes@, g.nodes@, levels, child, root, i);
        lemma_link(s6.nodes@, g.nodes@, levels, child, root, q);
        if q != child && q != root {
            assert(g.nodes@[q].shape == s6.nodes@[q].shape);
            lemma_congruent_refl(g, s6.nodes@[q].shape);
        } else {
            assert(s6.nodes@[q].shape is Some ==> s6.nodes@[q].shape.unwrap().parts_below(n as nat));
            lemma_congruent_roots(s6, g, s6.nodes@[q].shape, g.nodes@[root].shape);
        }
    }
}

/// `e` is `shape` as `expanded_shape` gives it: a known type viewed
/// through the terms of its parts, any other shape as it is.
pub open spec fn spec_expanded_from(table: Table<Ty, InferId>, shape: InferShape, e: InferShape) -> bool {
    match shape {
        InferShape::Known(ty) => spec_expansion(table, ty, e),
        _ => e.same(shape),
    }
}

/// The shape a merge leaves: the left shape expanded, or the right one
/// when the left class has none, or none when neither has one.
pub open spec fn spec_merged_shape(
    table: Table<Ty, InferId>,
    left: Option<InferShape>,
    right: Option<InferShape>,
    merged: Option<InferShape>,
) -> bool {
    match (left, right) {
        (Some(a), _) => merged matches Some(m) && spec_expanded_from(table, a, m),
        (None, Some(b)) => merged matches Some(m) && spec_expanded_from(table, b, m),
        (None, None) => merged is None,
    }
}

/// An expansion stays one in a table that keeps the entries it used.
pub proof fn lemma_expansion_grows(t1: Table<Ty, InferId>, t2: Table<Ty, InferId>, ty: Ty, c: InferShape)
    requires
        spec_expansion(t1, ty, c),
        forall|x: Ty| #[trigger] t1.spec_get(x) is Some ==> t2.spec_get(x) == t1.spec_get(x),
    ensures
        spec_expansion(t2, ty, c),
{
    match c {
        InferShape::Tuple(ids) => {
            if let Ty::Tuple(elems) = ty {
                assert forall|i: int| 0 <= i < ids@.len() implies #[trigger] t2.spec_get(elems.seq()[i]) == Some(
                    ids@[i],
                ) by {
                    assert(t1.spec_get(elems.seq()[i]) == Some(ids@[i]));
                }
            }
        },
        InferShape::Callable { params: ps, .. } => {
            let tys = match ty {
                Ty::FunctionPointer { params, .. } => params.seq(),
                Ty::Callable { params, .. } => params.seq(),
                Ty::CallablePointee { params, .. } => params.seq(),
                Ty::ClosureState { params, .. } => params.seq(),
                _ => Seq::empty(),
            };
            assert forall|i: int| 0 <= i < ps@.len() && i < tys.len() && t1.spec_get(tys[i]) == Some(ps@[i]) implies #[trigger] t2.spec_get(
                tys[i],
            ) == Some(ps@[i]) by {}
        },
        _ => {},
    }
}

/// A structure is compatible only with the same structure.
pub proof fn lemma_structure_compatible(a: OuterKind, b: OuterKind)
    requires
        spec_kinds_compatible(Some(a), Some(b)),
    ensures
        spec_is_structure(Some(a)) || spec_is_structure(Some(b)) ==> a == b,
{
}

/// Every form is compatible with itself.
pub proof fn lemma_kinds_reflexive(k: Option<OuterKind>)
    ensures
        spec_kinds_compatible(k, k),
{
}

/// A graph keeps its own classes.
pub proof fn lemma_keeps_refl(g: &FunctionInference)
    requires
        g.wf(),
    ensures
        g.keeps_classes(g),
{
    assert forall|i: int| #![trigger spec_root(g.nodes@, i)] 0 <= i < g.nodes@.len() implies spec_root(
        g.nodes@,
        i,
    ) == spec_root(g.nodes@, spec_root(g.nodes@, i)) && g.nodes@[spec_root(g.nodes@, spec_root(g.nodes@, i))].shape
        == g.nodes@[spec_root(g.nodes@, i)].shape by {
        lemma_root_of_root(g, i);
        lemma_congruent_refl(g, g.nodes@[spec_root(g.nodes@, i)].shape);
    }
}

/// What `expanded_shape` gives has the outer form of the shape it was
/// taken from, and is expanded.
pub proof fn lemma_expanded_kind(
    shape: Option<InferShape>,
    r: Option<InferShape>,
    table: crate::table::Table<Ty, InferId>,
)
    requires
        match shape {
            None => r is None,
            Some(InferShape::Known(ty)) => r is Some && spec_expansion(table, ty, r.unwrap()),
            Some(s) => r is Some && r.unwrap().same(s),
        },
    ensures
        (match r {
            Some(s) => Some(spec_shape_kind(s)),
            None => None,
        }) == (match shape {
            Some(s) => Some(spec_shape_kind(s)),
            None => None,
        }),
        r is Some ==> spec_is_expanded(r.unwrap()),
        r is Some <==> shape is Some,
{
    match shape {
        Some(InferShape::Known(ty)) => {
            lemma_expansion_kind(table, ty, r.unwrap());
        },
        _ => {},
    }
}

impl FunctionInference {
    /// The parts of two structures of one form are pairwise in one class:
    /// the elements of two tuples, the pointees of two pointers, the
    /// elements of two optionals, the error and value sides of two error
    /// unions, the parameters and results of two callables.
    pub open spec fn spec_parts_joined(&self, x: InferShape, y: InferShape) -> bool {
        match (x, y) {
            (InferShape::Tuple(a), InferShape::Tuple(b)) => forall|i: int|
                0 <= i < a@.len() && i < b@.len() ==> #[trigger] self.spec_find(a@[i]) == self.spec_find(b@[i]),
            (InferShape::Pointer { elem: a, .. }, InferShape::Pointer { elem: b, .. }) => self.spec_find(a)
                == self.spec_find(b),
            (InferShape::Optional { elem: a }, InferShape::Optional { elem: b }) => self.spec_find(a)
                == self.spec_find(b),
            (
                InferShape::ErrorUnion { error: ae, value: av },
                InferShape::ErrorUnion { error: be, value: bv },
            ) => self.spec_find(ae) == self.spec_find(be) && self.spec_find(av) == self.spec_find(bv),
            (
                InferShape::Callable { params: ap, return_type: ar },
                InferShape::Callable { params: bp, return_type: br },
            ) => self.spec_find(ar) == self.spec_find(br) && forall|i: int|
                0 <= i < ap@.len() && i < bp@.len() ==> #[trigger] self.spec_find(ap@[i]) == self.spec_find(bp@[i]),
            _ => true,
        }
    }
}

/// Two expansions of one shape in one table have the same structure and
/// parts.
pub proof fn lemma_expanded_unique(table: Table<Ty, InferId>, shape: InferShape, x1: InferShape, x2: InferShape)
    requires
        spec_expanded_from(table, shape, x1),
        spec_expanded_from(table, shape, x2),
    ensures
        x1.same(x2),
{
    match shape {
        InferShape::Known(ty) => {
            match (x1, x2) {
                (InferShape::Tuple(a), InferShape::Tuple(b)) => {
                    if let Ty::Tuple(elems) = ty {
                        assert forall|i: int| 0 <= i < a@.len() implies a@[i] == b@[i] by {
                            assert(table.spec_get(elems.seq()[i]) == Some(a@[i]));
                            assert(table.spec_get(elems.seq()[i]) == Some(b@[i]));
                        }
                        assert(a@ =~= b@);
                    }
                },
                (InferShape::Callable { params: a, .. }, InferShape::Callable { params: b, .. }) => {
                    let tys = match ty {
                        Ty::FunctionPointer { params, .. } => params.seq(),
                        Ty::Callable { params, .. } => params.seq(),
                        Ty::CallablePointee { params, .. } => params.seq(),
                        Ty::ClosureState { params, .. } => params.seq(),
                        _ => Seq::empty(),
                    };
                    assert forall|i: int| 0 <= i < a@.len() implies a@[i] == b@[i] by {
                        assert(table.spec_get(tys[i]) == Some(a@[i]));
                        assert(table.spec_get(tys[i]) == Some(b@[i]));
                    }
                    assert(a@ =~= b@);
                },
                _ => {},
            }
        },
        _ => {},
    }
}

/// Two terms of one class stay in one class in a graph that keeps the
/// classes.
pub proof fn lemma_pair_kept(a: &FunctionInference, b: &FunctionInference, u: InferId, v: InferId)
    requires
        a.wf(),
        b.wf(),
        forall|i: int|
            #![trigger spec_root(a.nodes@, i)]
            0 <= i < a.nodes@.len() ==> spec_root(b.nodes@, i) == spec_root(b.nodes@, spec_root(a.nodes@, i)),
        u < a.nodes@.len(),
        v < a.nodes@.len(),
        a.spec_find(u) == a.spec_find(v),
    ensures
        b.spec_find(u) == b.spec_find(v),
{
    lemma_root_of_root(a, u as int);
    lemma_root_of_root(a, v as int);
    assert(spec_root(a.nodes@, u as int) == spec_root(a.nodes@, v as int));
    assert(spec_root(b.nodes@, u as int) == spec_root(b.nodes@, spec_root(a.nodes@, u as int)));
    assert(spec_root(b.nodes@, v as int) == spec_root(b.nodes@, spec_root(a.nodes@, v as int)));
}

/// Joined parts stay joined in a graph that keeps the classes.
pub proof fn lemma_joined_kept(a: &FunctionInference, b: &FunctionInference, x: InferShape, y: InferShape)
    requires
        a.wf(),
        b.wf(),
        forall|i: int|
            #![trigger spec_root(a.nodes@, i)]
            0 <= i < a.nodes@.len() ==> spec_root(b.nodes@, i) == spec_root(b.nodes@, spec_root(a.nodes@, i)),
        a.spec_parts_joined(x, y),
        x.parts_below(a.nodes@.len() as nat),
        y.parts_below(a.nodes@.len() as nat),
    ensures
        b.spec_parts_joined(x, y),
{
    match (x, y) {
        (InferShape::Tuple(p), InferShape::Tuple(q)) => {
            assert forall|i: int| 0 <= i < p@.len() && i < q@.len() implies #[trigger] b.spec_find(p@[i])
                == b.spec_find(q@[i]) by {
                assert(a.spec_find(p@[i]) == a.spec_find(q@[i]));
                lemma_pair_kept(a, b, p@[i], q@[i]);
            }
        },
        (InferShape::Callable { params: p, return_type: pr }, InferShape::Callable { params: q, return_type: qr }) => {
            assert forall|i: int| 0 <= i < p@.len() && i < q@.len() implies #[trigger] b.spec_find(p@[i])
                == b.spec_find(q@[i]) by {
                assert(a.spec_find(p@[i]) == a.spec_find(q@[i]));
                lemma_pair_kept(a, b, p@[i], q@[i]);
            }
            lemma_pair_kept(a, b, pr, qr);
        },
        (InferShape::Pointer { elem: p, .. }, InferShape::Pointer { elem: q, .. }) => {
            lemma_pair_kept(a, b, p, q);
        },
        (InferShape::Optional { elem: p }, InferShape::Optional { elem: q }) => {
            lemma_pair_kept(a, b, p, q);
        },
        (InferShape::ErrorUnion { error: pe, value: pv }, InferShape::ErrorUnion { error: qe, value: qv }) => {
            lemma_pair_kept(a, b, pe, qe);
            lemma_pair_kept(a, b, pv, qv);
        },
        _ => {},
    }
}

/// Joined parts are joined for any shapes with the same parts.
pub proof fn lemma_joined_same_parts(g: &FunctionInference, x: InferShape, y: InferShape, x2: InferShape, y2: InferShape)
    requires
        g.spec_parts_joined(x, y),
        x.same(x2),
        y.same(y2),
    ensures
        g.spec_parts_joined(x2, y2),
{
    match (x, y, x2, y2) {
        (InferShape::Tuple(p), InferShape::Tuple(q), InferShape::Tuple(p2), InferShape::Tuple(q2)) => {
            assert forall|i: int| 0 <= i < p2@.len() && i < q2@.len() implies #[trigger] g.spec_find(p2@[i])
                == g.spec_find(q2@[i]) by {
                assert(p2@[i] == p@[i]);
                assert(q2@[i] == q@[i]);
                assert(g.spec_find(p@[i]) == g.spec_find(q@[i]));
            }
        },
        (
            InferShape::Callable { params: p, .. },
            InferShape::Callable { params: q, .. },
            InferShape::Callable { params: p2, .. },
            InferShape::Callable { params: q2, .. },
        ) => {
            assert forall|i: int| 0 <= i < p2@.len() && i < q2@.len() implies #[trigger] g.spec_find(p2@[i])
                == g.spec_find(q2@[i]) by {
                assert(p2@[i] == p@[i]);
                assert(q2@[i] == q@[i]);
                assert(g.spec_find(p@[i]) == g.spec_find(q@[i]));
            }
        },
        _ => {},
    }
}

/// A shape's parts are joined with those of a shape with the same parts.
pub proof fn lemma_joined_same(g: &FunctionInference, x: InferShape, y: InferShape)
    requires
        x.same(y),
    ensures
        g.spec_parts_joined(x, y),
{
}

/// A shape's parts lie below any larger bound too.
pub proof fn lemma_parts_below_mono(s: InferShape, n: nat, m: nat)
    requires
        s.parts_below(n),
        n <= m,
    ensures
        s.parts_below(m),
{
}

/// Once the parts of the two expansions are joined and the graph keeps its
/// classes, the parts of any expansions of the same shapes are joined.
pub proof fn lemma_joined_expansions(
    s5: &FunctionInference,
    fin: &FunctionInference,
    shl: InferShape,
    shr: InferShape,
    ls: InferShape,
    rs: InferShape,
)
    requires
        s5.wf(),
        fin.keeps_classes(s5),
        s5.spec_parts_joined(ls, rs),
        ls.parts_below(s5.nodes@.len() as nat),
        rs.parts_below(s5.nodes@.len() as nat),
        spec_expanded_from(fin.concrete_terms, shl, ls),
        spec_expanded_from(fin.concrete_terms, shr, rs),
    ensures
        forall|x: InferShape, y: InferShape|
            spec_expanded_from(fin.concrete_terms, shl, x) && spec_expanded_from(fin.concrete_terms, shr, y)
                ==> #[trigger] fin.spec_parts_joined(x, y),
{
    lemma_joined_kept(s5, fin, ls, rs);
    assert forall|x: InferShape, y: InferShape|
        spec_expanded_from(fin.concrete_terms, shl, x) && spec_expanded_from(
            fin.concrete_terms,
            shr,
            y,
        ) implies #[trigger] fin.spec_parts_joined(x, y) by {
        lemma_expanded_unique(fin.concrete_terms, shl, ls, x);
        lemma_expanded_unique(fin.concrete_terms, shr, rs, y);
        lemma_joined_same_parts(fin, ls, rs, x, y);
    }
}

/// Two expansions of one shape have joined parts.
pub proof fn lemma_joined_self(g: &FunctionInference, sh: InferShape)
    ensures
        forall|x: InferShape, y: InferShape|
            spec_expanded_from(g.concrete_terms, sh, x) && spec_expanded_from(g.concrete_terms, sh, y)
                ==> #[trigger] g.spec_parts_joined(x, y),
{
    assert forall|x: InferShape, y: InferShape|
        spec_expanded_from(g.concrete_terms, sh, x) && spec_expanded_from(
            g.concrete_terms,
            sh,
            y,
        ) implies #[trigger] g.spec_parts_joined(x, y) by {
        lemma_expanded_unique(g.concrete_terms, sh, x, y);
        lemma_joined_same(g, x, y);
    }
}

/// At the end of a unification of two structures whose parts were joined,
/// the parts of any expansions of the two old shapes are joined.
pub proof fn lemma_exit_joined(
    s0: &FunctionInference,
    s3: &FunctionInference,
    s4: &FunctionInference,
    s5: &FunctionInference,
    fin: &FunctionInference,
    l: InferId,
    rt: InferId,
    ls: InferShape,
    rs: InferShape,
)
    requires
        s3.wf(),
        s4.wf(),
        s5.wf(),
        s5.spec_parts_joined(ls, rs),
        fin.keeps_classes(s5),
        fin.keeps_classes(s3),
        fin.keeps_classes(s4),
        s5.keeps_classes(s4),
        s4.nodes@.len() >= s3.nodes@.len(),
        ls.parts_below(s3.nodes@.len() as nat),
        rs.parts_below(s4.nodes@.len() as nat),
        s0.nodes@[l as int].shape is Some,
        s0.nodes@[rt as int].shape is Some,
        match s0.nodes@[l as int].shape.unwrap() {
            InferShape::Known(ty) => spec_expansion(s3.concrete_terms, ty, ls),
            sh => ls.same(sh),
        },
        match s0.nodes@[rt as int].shape.unwrap() {
            InferShape::Known(ty) => spec_expansion(s4.concrete_terms, ty, rs),
            sh => rs.same(sh),
        },
    ensures
        forall|x: InferShape, y: InferShape|
            spec_expanded_from(fin.concrete_terms, s0.nodes@[l as int].shape.unwrap(), x) && spec_expanded_from(
                fin.concrete_terms,
                s0.nodes@[rt as int].shape.unwrap(),
                y,
            ) ==> #[trigger] fin.spec_parts_joined(x, y),
{
    let shl = s0.nodes@[l as int].shape.unwrap();
    let shr = s0.nodes@[rt as int].shape.unwrap();
    match shl {
        InferShape::Known(ty) => {
            lemma_expansion_grows(s3.concrete_terms, fin.concrete_terms, ty, ls);
        },
        _ => {},
    }
    match shr {
        InferShape::Known(ty) => {
            lemma_expansion_grows(s4.concrete_terms, fin.concrete_terms, ty, rs);
        },
        _ => {},
    }
    lemma_parts_below_mono(ls, s3.nodes@.len() as nat, s5.nodes@.len() as nat);
    lemma_parts_below_mono(rs, s4.nodes@.len() as nat, s5.nodes@.len() as nat);
    lemma_joined_expansions(s5, fin, shl, shr, ls, rs);
}

/// What a class's shape becomes when it is merged: a known structured
/// type's expansion, or a structure with the same parts, holds what the
/// shape held.
pub proof fn lemma_congruent_expanded(g: &FunctionInference, sh: InferShape, x: InferShape)
    requires
        g.wf(),
        spec_expanded_from(g.concrete_terms, sh, x),
        spec_is_structure(Some(spec_shape_kind(sh))),
    ensures
        g.spec_congruent(Some(sh), Some(x)),
        spec_term_structure(Some(x)),
{
    match sh {
        InferShape::Known(ty) => {
            lemma_expansion_kind(g.concrete_terms, ty, x);
            lemma_joined_same(g, x, x);
            assert(g.spec_parts_joined(x, x));
        },
        _ => {
            lemma_joined_same(g, x, sh);
        },
    }
}

/// The shape a link gives the merged class holds what the shapes of both
/// linked representatives hold.
pub proof fn lemma_link_congruent(
    s2: &FunctionInference,
    s3: &FunctionInference,
    s4: &FunctionInference,
    s5: &FunctionInference,
    s6: &FunctionInference,
    l: InferId,
    rt: InferId,
    ls: Option<InferShape>,
    rs: Option<InferShape>,
)
    requires
        s2.wf(),
        s5.wf(),
        s6.wf(),
        l < s2.nodes@.len(),
        rt < s2.nodes@.len(),
        spec_root(s2.nodes@, l as int) == l,
        spec_root(s2.nodes@, rt as int) == rt,
        s3.nodes@.len() <= s5.nodes@.len(),
        s4.nodes@.len() <= s5.nodes@.len(),
        forall|t: Ty| #[trigger] s3.concrete_terms.spec_get(t) is Some ==> s6.concrete_terms.spec_get(t) == s3.concrete_terms.spec_get(t),
        forall|t: Ty| #[trigger] s4.concrete_terms.spec_get(t) is Some ==> s6.concrete_terms.spec_get(t) == s4.concrete_terms.spec_get(t),
        s6.keeps_classes(s2),
        s6.keeps_classes(s5),
        match s2.nodes@[l as int].shape {
            None => ls is None,
            Some(InferShape::Known(ty)) => ls is Some && spec_expansion(s3.concrete_terms, ty, ls.unwrap()),
            Some(sh) => ls is Some && ls.unwrap().same(sh),
        },
        match s2.nodes@[rt as int].shape {
            None => rs is None,
            Some(InferShape::Known(ty)) => rs is Some && spec_expansion(s4.concrete_terms, ty, rs.unwrap()),
            Some(sh) => rs is Some && rs.unwrap().same(sh),
        },
        ls is Some ==> ls.unwrap().parts_below(s3.nodes@.len() as nat),
        rs is Some ==> rs.unwrap().parts_below(s4.nodes@.len() as nat),
        spec_kinds_compatible(spec_kind_of(ls), spec_kind_of(rs)),
        spec_is_structure(spec_kind_of(ls)) && rs is Some ==> s5.spec_parts_joined(ls.unwrap(), rs.unwrap()),
        !(spec_is_structure(spec_kind_of(ls)) && rs is Some) ==> s6.refines(s2),
    ensures
        s6.spec_congruent(
            s6.nodes@[spec_root(s6.nodes@, l as int)].shape,
            if ls is Some {
                ls
            } else {
                rs
            },
        ),
        s6.spec_congruent(
            s6.nodes@[spec_root(s6.nodes@, rt as int)].shape,
            if ls is Some {
                ls
            } else {
                rs
            },
        ),
{
    let sl = s2.nodes@[l as int].shape;
    let sr = s2.nodes@[rt as int].shape;
    let merged = if ls is Some {
        ls
    } else {
        rs
    };
    lemma_root_of_root(s6, l as int);
    lemma_root_of_root(s6, rt as int);
    let n6l = s6.nodes@[spec_root(s6.nodes@, l as int)].shape;
    let n6r = s6.nodes@[spec_root(s6.nodes@, rt as int)].shape;
    assert(spec_root(s2.nodes@, l as int) == l);
    assert(s6.spec_congruent(sl, n6l));
    assert(spec_root(s2.nodes@, rt as int) == rt);
    assert(s6.spec_congruent(sr, n6r));
    // the expansions hold in the last table too
    match sl {
        Some(InferShape::Known(ty)) => {
            lemma_expansion_grows(s3.concrete_terms, s6.concrete_terms, ty, ls.unwrap());
            lemma_expansion_kind(s3.concrete_terms, ty, ls.unwrap());
        },
        _ => {},
    }
    match sr {
        Some(InferShape::Known(ty)) => {
            lemma_expansion_grows(s4.concrete_terms, s6.concrete_terms, ty, rs.unwrap());
            lemma_expansion_kind(s4.concrete_terms, ty, rs.unwrap());
        },
        _ => {},
    }
    if spec_is_structure(spec_kind_of(ls)) && rs is Some {
        let x = ls.unwrap();
        let y = rs.unwrap();
        lemma_structure_compatible(spec_shape_kind(x), spec_shape_kind(y));
        lemma_parts_below_mono(x, s3.nodes@.len() as nat, s5.nodes@.len() as nat);
        lemma_parts_below_mono(y, s4.nodes@.len() as nat, s5.nodes@.len() as nat);
        lemma_joined_kept(s5, s6, x, y);
        assert(!(x is Known));
        assert(!(y is Known));
        // the left class
        match sl.unwrap() {
            InferShape::Known(ty) => {
                if n6l == sl {
                    lemma_joined_same(s6, x, x);
                    assert(s6.spec_parts_joined(x, x));
                } else {
                    let e6 = choose|e: InferShape| spec_expansion(s6.concrete_terms, ty, e) && #[trigger] s6.spec_parts_joined(n6l.unwrap(), e);
                    lemma_expanded_unique(s6.concrete_terms, sl.unwrap(), e6, x);
                    lemma_joined_same_parts(s6, n6l.unwrap(), e6, n6l.unwrap(), x);
                    lemma_joined_sym(s6, n6l.unwrap(), x);
                }
            },
            o => {
                lemma_joined_sym(s6, n6l.unwrap(), o);
                lemma_joined_same_parts(s6, o, n6l.unwrap(), x, n6l.unwrap());
            },
        }
        // the right class
        match sr.unwrap() {
            InferShape::Known(ty) => {
                if n6r == sr {
                    assert(s6.spec_parts_joined(x, y));
                } else {
                    let e6 = choose|e: InferShape| spec_expansion(s6.concrete_terms, ty, e) && #[trigger] s6.spec_parts_joined(n6r.unwrap(), e);
                    lemma_expanded_unique(s6.concrete_terms, sr.unwrap(), e6, y);
                    lemma_expansion_kind(s6.concrete_terms, ty, e6);
                    lemma_joined_same_parts(s6, x, y, x, e6);
                    lemma_joined_sym(s6, n6r.unwrap(), e6);
                    assert(spec_kind_of(n6r) == spec_kind_of(sr));
                    lemma_joined_trans(s6, x, e6, n6r.unwrap());
                }
            },
            o => {
                lemma_joined_same_parts(s6, x, y, x, o);
                lemma_joined_sym(s6, n6r.unwrap(), o);
                assert(spec_kind_of(n6r) == spec_kind_of(sr));
                lemma_joined_trans(s6, x, o, n6r.unwrap());
            },
        }
    } else {
        assert(n6l == sl);
        assert(n6r == sr);
        if sl is Some && spec_is_structure(Some(spec_shape_kind(sl.unwrap()))) {
            lemma_congruent_expanded(s6, sl.unwrap(), ls.unwrap());
        }
        if sr is Some && spec_is_structure(Some(spec_shape_kind(sr.unwrap()))) {
            lemma_expanded_kind(sl, ls, s3.concrete_terms);
            assert(ls is None);
            lemma_congruent_expanded(s6, sr.unwrap(), rs.unwrap());
        }
    }
}

impl FunctionInference {
    /// Unifies the terms of two lists pairwise, in order, stopping at the
    /// first pair that does not unify.
    fn unify_pairs(&mut self, a: &Vec<InferId>, b: &Vec<InferId>, depth: usize) -> (r: bool)
        requires
            old(self).wf(),
            forall|i: int| 0 <= i < a@.len() ==> #[trigger] a@[i] < old(self).nodes@.len(),
            forall|i: int| 0 <= i < b@.len() ==> #[trigger] b@[i] < old(self).nodes@.len(),
        ensures
            final(self).keeps_classes(old(self)),
            r ==> forall|i: int|
                0 <= i < a@.len() && i < b@.len() ==> #[trigger] final(self).spec_find(a@[i]) == final(self).spec_find(
                    b@[i],
                ),
        decreases depth, 0nat,
    {
        proof {
            lemma_keeps_refl(self);
        }
        if depth == 0 {
            return false;
        }
        let mut i: usize = 0;
        while i < a.len() && i < b.len()
            invariant
                old(self).wf(),
                self.keeps_classes(old(self)),
                forall|k: int| 0 <= k < a@.len() ==> #[trigger] a@[k] < old(self).nodes@.len(),
                forall|k: int| 0 <= k < b@.len() ==> #[trigger] b@[k] < old(self).nodes@.len(),
                depth > 0,
                i <= a@.len(),
                forall|k: int| 0 <= k < i && k < b@.len() ==> #[trigger] self.spec_find(a@[k]) == self.spec_find(b@[k]),
            decreases a@.len() - i,
        {
            let ghost before = *self;
            proof {
                assert(a@[i as int] < old(self).nodes@.len());
                assert(b@[i as int] < old(self).nodes@.len());
            }
            let ok = self.unify_within(a[i], b[i], depth - 1);
            proof {
                lemma_keeps_trans(old(self), &before, self);
                assert forall|k: int| 0 <= k < i && k < b@.len() implies #[trigger] self.spec_find(a@[k])
                    == self.spec_find(b@[k]) by {
                    assert(before.spec_find(a@[k]) == before.spec_find(b@[k]));
                    assert(a@[k] < old(self).nodes@.len());
                    assert(b@[k] < old(self).nodes@.len());
                    lemma_pair_kept(&before, self, a@[k], b@[k]);
                }
            }
            if !ok {
                return false;
            }
            i = i + 1;
        }
        true
    }

    /// Unifies two parts of a structure, one level deeper.
    fn unify_child(&mut self, a: InferId, b: InferId, depth: usize) -> (r: bool)
        requires
            old(self).wf(),
            a < old(self).nodes@.len(),
            b < old(self).nodes@.len(),
        ensures
            final(self).keeps_classes(old(self)),
            r ==> final(self).spec_find(a) == final(self).spec_find(b),
        decreases depth, 0nat,
    {
        if depth == 0 {
            proof {
                lemma_keeps_refl(self);
            }
            false
        } else {
            self.unify_within(a, b, depth - 1)
        }
    }

    /// Unifies two terms of the graph. Their representatives are found
    /// first; incompatible outer shapes give `false` before anything is
    /// merged; the parts of two structures are unified pairwise before
    /// the representatives are merged, and a conflict among them gives
    /// `false`; the merge links the representative of lower rank under the
    /// other (the left one on equal ranks, whose rank then grows) and gives
    /// the merged class the left shape, or the right one when the left has
    /// none. Two terms of one class, or of compatible classes that are not
    /// both structures, always unify. On success the parts of two
    /// structures are pairwise in one class, and the merged class's shape
    /// holds, class for class, what each old shape held. Parts nested deeper than `usize::MAX`
    /// levels give `false`; without that bound the recursion would not end
    /// on a graph whose shapes contain themselves.
    pub fn unify(&mut self, left: InferId, right: InferId) -> (r: bool)
        requires
            old(self).wf(),
            left < old(self).nodes@.len(),
            right < old(self).nodes@.len(),
        ensures
            final(self).keeps_classes(old(self)),
            r ==> final(self).spec_find(left) == final(self).spec_find(right),
            r ==> final(self).spec_class_kind(left) == if old(self).spec_class_kind(left) is Some {
                old(self).spec_class_kind(left)
            } else {
                old(self).spec_class_kind(right)
            },
            !spec_kinds_compatible(old(self).spec_class_kind(left), old(self).spec_class_kind(right)) ==> !r
                && final(self).refines(old(self)),
            old(self).spec_find(left) == old(self).spec_find(right) ==> r,
            spec_kinds_compatible(old(self).spec_class_kind(left), old(self).spec_class_kind(right)) && !(
            spec_is_structure(old(self).spec_class_kind(left)) && spec_is_structure(
                old(self).spec_class_kind(right),
            )) ==> r,
            old(self).spec_find(left) != old(self).spec_find(right) && spec_kinds_compatible(
                old(self).spec_class_kind(left),
                old(self).spec_class_kind(right),
            ) && !(spec_is_structure(old(self).spec_class_kind(left)) && spec_is_structure(
                old(self).spec_class_kind(right),
            )) ==> spec_merged_shape(
                final(self).concrete_terms,
                old(self).nodes@[old(self).spec_find(left) as int].shape,
                old(self).nodes@[old(self).spec_find(right) as int].shape,
                final(self).nodes@[final(self).spec_find(left) as int].shape,
            ),
            r && spec_is_structure(old(self).spec_class_kind(left)) && spec_is_structure(
                old(self).spec_class_kind(right),
            ) ==> forall|x: InferShape, y: InferShape|
                spec_expanded_from(
                    final(self).concrete_terms,
                    old(self).nodes@[old(self).spec_find(left) as int].shape.unwrap(),
                    x,
                ) && spec_expanded_from(
                    final(self).concrete_terms,
                    old(self).nodes@[old(self).spec_find(right) as int].shape.unwrap(),
                    y,
                ) ==> #[trigger] final(self).spec_parts_joined(x, y),
            r ==> final(self).spec_congruent(
                old(self).nodes@[old(self).spec_find(left) as int].shape,
                final(self).nodes@[final(self).spec_find(left) as int].shape,
            ),
            r ==> final(self).spec_congruent(
                old(self).nodes@[old(self).spec_find(right) as int].shape,
                final(self).nodes@[final(self).spec_find(left) as int].shape,
            ),
    {
        let ghost s0 = *self;
        let r = self.unify_within(left, right, usize::MAX);
        proof {
            assert(s0.nodes.len() == s0.nodes@.len());
            assert(self.nodes.len() == self.nodes@.len());
            lemma_root_of_root(&s0, left as int);
            lemma_root_of_root(&s0, right as int);
            lemma_root_of_root(self, left as int);
            lemma_root_of_root(self, right as int);
            assert(spec_root(s0.nodes@, left as int) == spec_root(s0.nodes@, left as int));
            assert(spec_root(s0.nodes@, right as int) == spec_root(s0.nodes@, right as int));
        }
        r
    }

    /// Unifies two terms with at most `depth` nested levels of parts.
    #[verifier::spinoff_prover]
    #[verifier::rlimit(80)]
    fn unify_within(&mut self, left: InferId, right: InferId, depth: usize) -> (r: bool)
        requires
            old(self).wf(),
            left < old(self).nodes@.len(),
            right < old(self).nodes@.len(),
        ensures
            final(self).keeps_classes(old(self)),
            r ==> final(self).spec_find(left) == final(self).spec_find(right),
            r ==> final(self).spec_class_kind(left) == if old(self).spec_class_kind(left) is Some {
                old(self).spec_class_kind(left)
            } else {
                old(self).spec_class_kind(right)
            },
            !spec_kinds_compatible(old(self).spec_class_kind(left), old(self).spec_class_kind(right)) ==> !r
                && final(self).refines(old(self)),
            old(self).spec_find(left) == old(self).spec_find(right) ==> r,
            spec_kinds_compatible(old(self).spec_class_kind(left), old(self).spec_class_kind(right)) && !(
            spec_is_structure(old(self).spec_class_kind(left)) && spec_is_structure(
                old(self).spec_class_kind(right),
            )) ==> r,
            old(self).spec_find(left) != old(self).spec_find(right) && spec_kinds_compatible(
                old(self).spec_class_kind(left),
                old(self).spec_class_kind(right),
            ) && !(spec_is_structure(old(self).spec_class_kind(left)) && spec_is_structure(
                old(self).spec_class_kind(right),
            )) ==> spec_merged_shape(
                final(self).concrete_terms,
                old(self).nodes@[old(self).spec_find(left) as int].shape,
                old(self).nodes@[old(self).spec_find(right) as int].shape,
                final(self).nodes@[final(self).spec_find(left) as int].shape,
            ),
            r && spec_is_structure(old(self).spec_class_kind(left)) && spec_is_structure(
                old(self).spec_class_kind(right),
            ) ==> forall|x: InferShape, y: InferShape|
                spec_expanded_from(
                    final(self).concrete_terms,
                    old(self).nodes@[old(self).spec_find(left) as int].shape.unwrap(),
                    x,
                ) && spec_expanded_from(
                    final(self).concrete_terms,
                    old(self).nodes@[old(self).spec_find(right) as int].shape.unwrap(),
                    y,
                ) ==> #[trigger] final(self).spec_parts_joined(x, y),
        decreases depth, 1nat,
    {
        let ghost s0 = *self;
        let l = self.find(left);
        let ghost s1 = *self;
        let rt = self.find(right);
        let ghost s2 = *self;
        proof {
            lemma_refines_trans(&s0, &s1, &s2);
            lemma_refines_keeps(&s0, &s2);
            lemma_root_of_root(&s0, left as int);
            lemma_root_of_root(&s0, right as int);
        }
        if l == rt {
            proof {
                lemma_kinds_reflexive(s0.spec_class_kind(left));
                if s0.nodes@[l as int].shape is Some {
                    lemma_joined_self(self, s0.nodes@[l as int].shape.unwrap());
                }
            }
            return true;
        }
        let left_shape = self.expanded_shape(l);
        let ghost s3 = *self;
        let right_shape = self.expanded_shape(rt);
        let ghost s4 = *self;
        proof {
            lemma_refines_trans(&s2, &s3, self);
            lemma_refines_trans(&s0, &s2, self);
            lemma_refines_keeps(&s0, self);
            lemma_refines_keeps(&s2, self);
            lemma_refines_keeps(&s3, self);
            lemma_root_of_root(&s2, l as int);
            lemma_root_of_root(&s2, rt as int);
            assert(s2.spec_find(l) == l);
            assert(s3.spec_find(rt) == rt);
            assert(s3.nodes@[rt as int].shape == s2.nodes@[rt as int].shape);
            lemma_expanded_kind(s2.nodes@[l as int].shape, left_shape, s3.concrete_terms);
            lemma_expanded_kind(s3.nodes@[rt as int].shape, right_shape, s4.concrete_terms);
            lemma_compatible_kinds(left_shape, right_shape);
            assert(s0.nodes@[l as int].shape == s2.nodes@[l as int].shape);
            assert(s0.nodes@[rt as int].shape == s2.nodes@[rt as int].shape);
        }
        if !self.shapes_compatible(left_shape.as_ref(), right_shape.as_ref()) {
            return false;
        }
        let ok: bool = match (&left_shape, &right_shape) {
            (Some(InferShape::Tuple(a)), Some(InferShape::Tuple(b))) => self.unify_pairs(a, b, depth),
            (Some(InferShape::Pointer { elem: a, .. }), Some(InferShape::Pointer { elem: b, .. })) => {
                self.unify_child(*a, *b, depth)
            },
            (Some(InferShape::Optional { elem: a }), Some(InferShape::Optional { elem: b })) => {
                self.unify_child(*a, *b, depth)
            },
            (
                Some(InferShape::ErrorUnion { error: ae, value: av }),
                Some(InferShape::ErrorUnion { error: be, value: bv }),
            ) => {
                let ghost before = *self;
                if self.unify_child(*ae, *be, depth) {
                    let ghost mid = *self;
                    let ok2 = self.unify_child(*av, *bv, depth);
                    proof {
                        lemma_keeps_trans(&before, &mid, self);
                        lemma_pair_kept(&mid, self, *ae, *be);
                    }
                    ok2
                } else {
                    false
                }
            },
            (
                Some(InferShape::Callable { params: ap, return_type: ar }),
                Some(InferShape::Callable { params: bp, return_type: br }),
            ) => {
                let ghost before = *self;
                if self.unify_pairs(ap, bp, depth) {
                    let ghost mid = *self;
                    let ok2 = self.unify_child(*ar, *br, depth);
                    proof {
                        lemma_keeps_trans(&before, &mid, self);
                        assert forall|i: int| 0 <= i < ap@.len() && i < bp@.len() implies #[trigger] self.spec_find(
                            ap@[i],
                        ) == self.spec_find(bp@[i]) by {
                            assert(mid.spec_find(ap@[i]) == mid.spec_find(bp@[i]));
                            lemma_pair_kept(&mid, self, ap@[i], bp@[i]);
                        }
                    }
                    ok2
                } else {
                    false
                }
            },
            _ => {
                proof {
                    lemma_keeps_refl(self);
                }
                true
            },
        };
        let ghost s5 = *self;
        let ghost both = spec_is_structure(s0.spec_class_kind(left)) && spec_is_structure(s0.spec_class_kind(right));
        proof {
            if ok && both {
                assert(self.spec_parts_joined(left_shape.unwrap(), right_shape.unwrap()));
            }
            assert(self.keeps_classes(&s4));
            assert((spec_is_structure(spec_kind_of(left_shape)) && right_shape is Some) || s5 == s4);
            lemma_keeps_trans(&s2, &s4, self);
            lemma_refines_keeps(&s3, &s4);
            lemma_keeps_trans(&s3, &s4, self);
            lemma_keeps_trans(&s0, &s4, self);
        }
        if !ok {
            return false;
        }
        let l2 = self.find(l);
        let ghost s5b = *self;
        let r2 = self.find(rt);
        let ghost s6 = *self;
        proof {
            lemma_refines_trans(&s5, &s5b, &s6);
            lemma_refines_keeps(&s5, &s6);
            lemma_keeps_trans(&s0, &s5, &s6);
            lemma_keeps_trans(&s2, &s5, &s6);
            lemma_root_of_root(&s6, l as int);
            lemma_root_of_root(&s6, rt as int);
            assert(spec_root(s2.nodes@, l as int) == l);
            assert(spec_root(s2.nodes@, rt as int) == rt);
            assert(spec_root(s0.nodes@, left as int) == l);
            assert(spec_root(s0.nodes@, right as int) == rt);
            assert(spec_root(s6.nodes@, left as int) == l2);
            assert(spec_root(s6.nodes@, right as int) == r2);
            if spec_is_structure(spec_kind_of(left_shape)) && right_shape is Some {
                lemma_structure_compatible(spec_shape_kind(left_shape.unwrap()), spec_shape_kind(right_shape.unwrap()));
                assert(spec_kind_of(s6.nodes@[l2 as int].shape) == spec_kind_of(left_shape));
                assert(spec_kind_of(s6.nodes@[r2 as int].shape) == spec_kind_of(right_shape));
            } else {
                assert(s5 == s4);
                lemma_root_of_root(&s4, l as int);
                lemma_root_of_root(&s4, rt as int);
                assert(spec_root(s4.nodes@, l as int) == spec_root(s2.nodes@, l as int));
                assert(spec_root(s4.nodes@, rt as int) == spec_root(s2.nodes@, rt as int));
                assert(l2 == l);
                assert(r2 == rt);
                assert(s6.nodes@[l as int].shape == s2.nodes@[l as int].shape);
                assert(s6.nodes@[rt as int].shape == s3.nodes@[rt as int].shape);
                if left_shape is Some && right_shape is Some {
                    if spec_is_structure(spec_kind_of(right_shape)) {
                        lemma_structure_compatible(
                            spec_shape_kind(left_shape.unwrap()),
                            spec_shape_kind(right_shape.unwrap()),
                        );
                    }
                }
            }
        }
        if l2 == r2 {
            proof {
                if both {
                    lemma_keeps_trans(&s3, &s4, &s5);
                    lemma_keeps_trans(&s3, &s5, self);
                    lemma_keeps_trans(&s4, &s5, self);
                    lemma_exit_joined(&s0, &s3, &s4, &s5, self, l, rt, left_shape.unwrap(), right_shape.unwrap());
                }
            }
            return true;
        }
        let merged = match left_shape {
            Some(sh) => Some(sh),
            None => right_shape,
        };
        let ghost merged_copy = merged;
        proof {
            lemma_keeps_trans(&s3, &s5, &s6);
            lemma_keeps_trans(&s4, &s5, &s6);
            if !(spec_is_structure(spec_kind_of(left_shape)) && right_shape is Some) {
                assert(s5 == s4);
                lemma_refines_trans(&s2, &s4, &s6);
            }
            assert(s3.nodes@[rt as int].shape == s2.nodes@[rt as int].shape);
            lemma_link_congruent(&s2, &s3, &s4, &s5, &s6, l, rt, left_shape, right_shape);
        }
        let root = self.link_roots(l2, r2, merged);
        proof {
            lemma_keeps_trans(&s0, &s6, self);
            if !(spec_is_structure(spec_kind_of(left_shape)) && right_shape is Some) {
                assert(self.nodes@[spec_root(self.nodes@, left as int)].shape == merged_copy);
                match s2.nodes@[l as int].shape {
                    Some(InferShape::Known(ty)) => {
                        lemma_expansion_grows(s3.concrete_terms, self.concrete_terms, ty, left_shape.unwrap());
                    },
                    _ => {},
                }
                match s3.nodes@[rt as int].shape {
                    Some(InferShape::Known(ty)) => {
                        lemma_expansion_grows(s4.concrete_terms, self.concrete_terms, ty, right_shape.unwrap());
                    },
                    _ => {},
                }
            }
            assert(spec_root(self.nodes@, left as int) == spec_root(self.nodes@, spec_root(s6.nodes@, left as int)));
            assert(spec_root(self.nodes@, right as int) == spec_root(self.nodes@, spec_root(s6.nodes@, right as int)));
            if both {
                lemma_keeps_trans(&s5, &s6, self);
                lemma_keeps_trans(&s3, &s4, &s5);
                lemma_keeps_trans(&s3, &s5, self);
                lemma_keeps_trans(&s4, &s5, self);
                lemma_exit_joined(&s0, &s3, &s4, &s5, self, l, rt, left_shape.unwrap(), right_shape.unwrap());
            }
        }
        true
    }

    /// Links the representatives `l` and `r` of two classes: the one of
    /// lower rank goes under the other (`r` under `l` on equal ranks, and
    /// `l`'s rank grows), and the merged class gets the shape `merged`.
    fn link_roots(&mut self, l: InferId, r: InferId, merged: Option<InferShape>) -> (root: InferId)
        requires
            old(self).wf(),
            l < old(self).nodes@.len(),
            r < old(self).nodes@.len(),
            l != r,
            old(self).nodes@[l as int].parent == l,
            old(self).nodes@[r as int].parent == r,
            merged is Some ==> merged.unwrap().parts_below(old(self).nodes@.len() as nat),
            old(self).nodes@[l as int].shape is Some || old(self).nodes@[r as int].shape is Some ==> merged is Some,
            spec_is_structure(spec_kind_of(old(self).nodes@[l as int].shape)) ==> spec_kind_of(merged)
                == spec_kind_of(old(self).nodes@[l as int].shape),
            spec_is_structure(spec_kind_of(old(self).nodes@[r as int].shape)) ==> spec_kind_of(merged)
                == spec_kind_of(old(self).nodes@[r as int].shape),
            old(self).spec_congruent(old(self).nodes@[l as int].shape, merged),
            old(self).spec_congruent(old(self).nodes@[r as int].shape, merged),
        ensures
            final(self).keeps_classes(old(self)),
            root == l || root == r,
            spec_root(final(self).nodes@, l as int) == root,
            spec_root(final(self).nodes@, r as int) == root,
            final(self).nodes@[root as int].shape == merged,
    {
        let ghost s6 = *self;
        let root: InferId;
        let child: InferId;
        if self.nodes[l].rank < self.nodes[r].rank {
            root = r;
            child = l;
        } else {
            root = l;
            child = r;
        }
        let equal_ranks = self.nodes[l].rank == self.nodes[r].rank;
        self.nodes[child].parent = root;
        if equal_ranks {
            let bumped = self.nodes[root].rank.saturating_add(1);
            self.nodes[root].rank = bumped;
        }
        self.nodes[root].shape = merged;
        proof {
            lemma_merge(&s6, self, root as int, child as int);
        }
        root
    }
}

} // verus!
