//! Collecting the equalities of function-local inference from a body's
//! expressions: literals and resolved names give known terms; tuples,
//! references, optionals and error unions give structures; each
//! expression's term is unified with what it is and with what is expected
//! of it. A conflict is left for the ordinary checker to report, and
//! counted in the graph's refusals.
use vstd::prelude::*;
use crate::expressions::NumericSuffix;
use crate::function_inference::{spec_root, FunctionInference, InferId, InferShape};
use crate::ids::LocalId;
use crate::ty::{PrimitiveTy, Ty};
use crate::unification::{
    lemma_keeps_trans, lemma_pair_kept, lemma_refines_keeps, lemma_root_of_root, spec_is_structure, spec_kinds_compatible,
    spec_known_kind, spec_shape_kind, spec_term_structure, OuterKind,
};
use crate::function_inference::{spec_expansion, BinaryOperator, OperatorObligation};

verus! {

/// An expression of a body: an index into the body's expressions.
pub type ExprId = usize;

/// The kinds of expression the collection reads, with the ids of their
/// sub-expressions. `Name` is a name that is no local, with the type its
/// resolution gives (an enum variant's or a lowered type), if any; `Other`
/// is any other node, with the type lowering gives it, if any.
pub enum BodyExprKind {
    Integer(NumericSuffix),
    Float(NumericSuffix),
    Bool,
    Char,
    ByteChar,
    Tuple(Vec<ExprId>),
    Ref { is_readonly: bool, inner: ExprId },
    Deref(ExprId),
    Not(ExprId),
    Negate(ExprId),
    OptionalSome(ExprId),
    ErrorOk(ExprId),
    ErrorErr(ExprId),
    Logical { lhs: ExprId, rhs: ExprId },
    Cast { inner: ExprId, target: Ty },
    Assign { lhs: ExprId, rhs: ExprId },
    Binary { op: BinaryOperator, lhs: ExprId, rhs: ExprId },
    If { cond: ExprId, then_branch: ExprId, else_branch: Option<ExprId> },
    Local(LocalId),
    Name(Option<Ty>),
    Other(Option<Ty>),
}

/// An expression with the key of its syntax node.
pub struct BodyExpr {
    pub key: u32,
    pub kind: BodyExprKind,
}

/// The expressions of a body, each after its sub-expressions.
pub struct BodyExprs {
    pub exprs: Vec<BodyExpr>,
}

/// The sub-expressions of an expression.
pub open spec fn spec_children(kind: BodyExprKind) -> Seq<ExprId> {
    match kind {
        BodyExprKind::Tuple(elems) => elems@,
        BodyExprKind::Ref { inner, .. } | BodyExprKind::Deref(inner) | BodyExprKind::Not(inner)
        | BodyExprKind::Negate(inner) | BodyExprKind::OptionalSome(inner) | BodyExprKind::ErrorOk(inner)
        | BodyExprKind::ErrorErr(inner) | BodyExprKind::Cast { inner, .. } => seq![inner],
        BodyExprKind::Logical { lhs, rhs } | BodyExprKind::Assign { lhs, rhs } | BodyExprKind::Binary {
            lhs,
            rhs,
            ..
        } => seq![lhs, rhs],
        BodyExprKind::If { cond, then_branch, else_branch } => match else_branch {
            Some(x) => seq![cond, then_branch, x],
            None => seq![cond, then_branch],
        },
        _ => Seq::empty(),
    }
}

impl BodyExprs {
    /// Every sub-expression comes before its expression.
    pub open spec fn wf(&self) -> bool {
        forall|i: int, k: int|
            0 <= i < self.exprs@.len() && 0 <= k < spec_children(self.exprs@[i].kind).len()
                ==> #[trigger] spec_children(self.exprs@[i].kind)[k] < i
    }
}

/// A comparison operator, whose result is `bool`.
pub open spec fn spec_is_comparison(op: BinaryOperator) -> bool {
    op is Lt || op is Le || op is Gt || op is Ge || op is Eq || op is Ne
}

/// Whether `op` is a comparison.
pub fn is_comparison(op: BinaryOperator) -> (r: bool)
    ensures
        r == spec_is_comparison(op),
{
    matches!(op, BinaryOperator::Lt | BinaryOperator::Le | BinaryOperator::Gt | BinaryOperator::Ge | BinaryOperator::Eq | BinaryOperator::Ne)
}

/// The known type an expression is, where it is one: a literal's type (its
/// suffix's, or `i32` and `f64` without one), `bool` for negations and
/// logical operators and comparisons, a cast's target, `void` for an
/// assignment, and a resolved name's type.
pub open spec fn spec_known_expr_ty(kind: BodyExprKind) -> Option<Ty> {
    match kind {
        BodyExprKind::Integer(NumericSuffix::Typed(p)) | BodyExprKind::Float(NumericSuffix::Typed(p)) => Some(
            Ty::Primitive(p),
        ),
        BodyExprKind::Integer(_) => Some(Ty::Primitive(PrimitiveTy::I32)),
        BodyExprKind::Float(_) => Some(Ty::Primitive(PrimitiveTy::Float64)),
        BodyExprKind::Bool | BodyExprKind::Not(_) | BodyExprKind::Logical { .. } => Some(
            Ty::Primitive(PrimitiveTy::Bool),
        ),
        BodyExprKind::Char => Some(Ty::Primitive(PrimitiveTy::Char)),
        BodyExprKind::ByteChar => Some(Ty::Primitive(PrimitiveTy::U8)),
        BodyExprKind::Cast { target, .. } => Some(target),
        BodyExprKind::Assign { .. } => Some(Ty::Primitive(PrimitiveTy::Void)),
        BodyExprKind::Binary { op, .. } => if spec_is_comparison(op) {
            Some(Ty::Primitive(PrimitiveTy::Bool))
        } else {
            None
        },
        BodyExprKind::Name(Some(ty)) | BodyExprKind::Other(Some(ty)) => Some(ty),
        _ => None,
    }
}

impl FunctionInference {
    /// `a` and `b` are in one class unless their classes' outer forms
    /// conflict or both are structures (whose parts may conflict).
    pub open spec fn spec_joined(&self, a: InferId, b: InferId) -> bool {
        spec_kinds_compatible(self.spec_class_kind(a), self.spec_class_kind(b)) && !(spec_is_structure(
            self.spec_class_kind(a),
        ) && spec_is_structure(self.spec_class_kind(b))) ==> self.spec_find(a) == self.spec_find(b)
    }

    /// The term an expression of kind `kind` is unified with when nothing
    /// is expected of it, where a table names it: the term of its known
    /// type, or its local's term.
    pub open spec fn spec_named_actual(&self, kind: BodyExprKind) -> Option<InferId> {
        match kind {
            BodyExprKind::Local(l) => self.locals.spec_get(l),
            _ => match spec_known_expr_ty(kind) {
                Some(ty) => self.concrete_terms.spec_get(ty),
                None => None,
            },
        }
    }

    /// The term recorded for the node of expression `id` of `body`, if any.
    pub open spec fn spec_node_term(&self, body: BodyExprs, id: ExprId) -> Option<InferId> {
        self.exprs.spec_get(body.exprs@[id as int].key)
    }

    /// `t` is in the class of the term recorded for expression `id`.
    pub open spec fn spec_in_node_class(&self, body: BodyExprs, id: ExprId, t: InferId) -> bool {
        self.spec_node_term(body, id) matches Some(u) && self.spec_find(u) == self.spec_find(t)
    }

    /// The shape the representative of `t`'s class knows.
    pub open spec fn spec_root_shape(&self, t: InferId) -> Option<InferShape> {
        self.nodes@[self.spec_find(t) as int].shape
    }

    /// What the class of term `t` is for an expression of kind `kind`: the
    /// class of its known type's term or of its local's term; for a tuple,
    /// a tuple whose parts are in the classes of the elements' terms; for a
    /// reference, a pointer of its mutability whose pointee is in the
    /// operand's class; for an optional, an optional around the operand's
    /// class; for a success or error, an error union whose value or error
    /// side is in the operand's class; for `!` and logical operators, the
    /// class (of `bool`) that holds their operands; for `-` and `~`, the
    /// operand's class; for a dereference, the pointee of a read-only
    /// pointer class that holds the operand; for an assignment, both sides
    /// in one class (and the class of `void`); for an `if`, the condition
    /// in `bool`'s class and the branches in `t`'s; for another binary
    /// operator, an obligation of that operator on its operands' classes
    /// whose result is in `t`'s class.
    pub open spec fn spec_is_actual(&self, body: BodyExprs, kind: BodyExprKind, t: InferId) -> bool {
        &&& (spec_known_expr_ty(kind) matches Some(ty) ==> (self.concrete_terms.spec_get(ty) matches Some(c)
            && self.spec_find(c) == self.spec_find(t)))
        &&& match kind {
            BodyExprKind::Local(l) => self.locals.spec_get(l) matches Some(c) && self.spec_find(c) == self.spec_find(t),
            BodyExprKind::Tuple(elems) => self.spec_root_shape(t) matches Some(InferShape::Tuple(p)) && p@.len()
                == elems@.len() && forall|j: int|
                0 <= j < p@.len() ==> #[trigger] self.spec_in_node_class(body, elems@[j], p@[j]),
            BodyExprKind::Ref { is_readonly, inner } => self.spec_root_shape(t) matches Some(
                InferShape::Pointer { is_readonly: ro, elem: e },
            ) && ro == is_readonly && self.spec_in_node_class(body, inner, e),
            BodyExprKind::Deref(inner) => exists|p: InferId|
                p < self.nodes@.len() && (#[trigger] self.spec_root_shape(p) matches Some(
                    InferShape::Pointer { is_readonly: true, elem: e },
                ) && self.spec_find(e) == self.spec_find(t)) && self.spec_in_node_class(body, inner, p),
            BodyExprKind::Not(inner) | BodyExprKind::Negate(inner) => self.spec_in_node_class(body, inner, t),
            BodyExprKind::OptionalSome(inner) => self.spec_root_shape(t) matches Some(InferShape::Optional { elem: e })
                && self.spec_in_node_class(body, inner, e),
            BodyExprKind::ErrorOk(inner) => self.spec_root_shape(t) matches Some(
                InferShape::ErrorUnion { value: v, .. },
            ) && self.spec_in_node_class(body, inner, v),
            BodyExprKind::ErrorErr(inner) => self.spec_root_shape(t) matches Some(
                InferShape::ErrorUnion { error: x, .. },
            ) && self.spec_in_node_class(body, inner, x),
            BodyExprKind::Logical { lhs, rhs } => self.spec_in_node_class(body, lhs, t) && self.spec_in_node_class(body, rhs, t),
            BodyExprKind::Binary { op, lhs, rhs } => exists|k: int|
                0 <= k < self.operators@.len() && (#[trigger] self.operators@[k]).op == op && self.spec_in_node_class(
                    body,
                    lhs,
                    self.operators@[k].lhs,
                ) && self.spec_in_node_class(body, rhs, self.operators@[k].rhs) && self.spec_find(
                    self.operators@[k].output,
                ) == self.spec_find(t),
            BodyExprKind::Assign { lhs, rhs } => self.spec_node_term(body, lhs) matches Some(a) && self.spec_in_node_class(
                body,
                rhs,
                a,
            ),
            BodyExprKind::If { cond, then_branch, else_branch } => (self.concrete_terms.spec_get(
                Ty::Primitive(PrimitiveTy::Bool),
            ) matches Some(c) && self.spec_in_node_class(body, cond, c)) && self.spec_in_node_class(body, then_branch, t)
                && (else_branch matches Some(x) ==> self.spec_in_node_class(body, x, t)),
            _ => true,
        }
    }

    /// Every sub-expression of expression `id` has a term.
    pub open spec fn spec_children_constrained(&self, body: BodyExprs, id: ExprId) -> bool {
        forall|k: int|
            0 <= k < spec_children(body.exprs@[id as int].kind).len() ==> (#[trigger] self.spec_node_term(
                body,
                spec_children(body.exprs@[id as int].kind)[k],
            )) is Some
    }

    /// Unifies two terms, whatever comes of it.
    fn equate(&mut self, a: InferId, b: InferId)
        requires
            old(self).wf(),
            a < old(self).nodes@.len(),
            b < old(self).nodes@.len(),
        ensures
            final(self).keeps_classes(old(self)),
            final(self).spec_joined(a, b),
            final(self).refusals@ == old(self).refusals@ ==> final(self).spec_find(a) == final(self).spec_find(b),
    {
        let ghost s0 = *self;
        let ok = self.unify(a, b);
        let ghost mid = *self;
        if !ok {
            self.refusals = Ghost(self.refusals@ + 1);
        }
        proof {
            assert forall|i: int| #![trigger spec_root(s0.nodes@, i)] 0 <= i < s0.nodes@.len() implies self.spec_congruent(
                s0.nodes@[spec_root(s0.nodes@, i)].shape,
                self.nodes@[spec_root(self.nodes@, i)].shape,
            ) by {
                assert(mid.spec_congruent(
                    s0.nodes@[spec_root(s0.nodes@, i)].shape,
                    mid.nodes@[spec_root(mid.nodes@, i)].shape,
                ));
                lemma_congruent_same_graph(&mid, self, s0.nodes@[spec_root(s0.nodes@, i)].shape, self.nodes@[spec_root(self.nodes@, i)].shape);
            }
        }
        proof {
            crate::unification::lemma_root_of_root(&s0, a as int);
            crate::unification::lemma_root_of_root(&s0, b as int);
            crate::unification::lemma_root_of_root(self, a as int);
            crate::unification::lemma_root_of_root(self, b as int);
            assert(s0.nodes.len() == s0.nodes@.len());
            assert(self.nodes.len() == self.nodes@.len());
            if !ok {
                if !spec_kinds_compatible(s0.spec_class_kind(a), s0.spec_class_kind(b)) {
                    assert(spec_root(self.nodes@, a as int) == spec_root(s0.nodes@, a as int));
                    assert(spec_root(self.nodes@, b as int) == spec_root(s0.nodes@, b as int));
                    assert(self.spec_class_kind(a) == s0.spec_class_kind(a));
                    assert(self.spec_class_kind(b) == s0.spec_class_kind(b));
                } else {
                    assert(spec_root(s0.nodes@, a as int) == spec_root(s0.nodes@, a as int));
                    assert(spec_root(s0.nodes@, b as int) == spec_root(s0.nodes@, b as int));
                    assert(spec_root(self.nodes@, a as int) == spec_root(
                        self.nodes@,
                        spec_root(s0.nodes@, a as int),
                    ));
                    assert(spec_root(self.nodes@, b as int) == spec_root(
                        self.nodes@,
                        spec_root(s0.nodes@, b as int),
                    ));
                    if spec_is_structure(s0.spec_class_kind(a)) && spec_is_structure(s0.spec_class_kind(b)) {
                        assert(crate::unification::spec_kind_of(self.nodes@[spec_root(self.nodes@, a as int)].shape)
                            == crate::unification::spec_kind_of(s0.nodes@[spec_root(s0.nodes@, a as int)].shape));
                        assert(crate::unification::spec_kind_of(self.nodes@[spec_root(self.nodes@, b as int)].shape)
                            == crate::unification::spec_kind_of(s0.nodes@[spec_root(s0.nodes@, b as int)].shape));
                    }
                }
            }
        }
    }

    /// The term of a known type, keeping the classes.
    fn known_term(&mut self, ty: &Ty) -> (r: InferId)
        requires
            old(self).wf(),
        ensures
            final(self).keeps_classes(old(self)),
            r < final(self).nodes@.len(),
            final(self).concrete_terms.spec_get(*ty) == Some(r),
    {
        let r = self.known(ty);
        proof {
            lemma_refines_keeps(old(self), self);
        }
        r
    }

    /// A new term with nothing known of it, keeping the classes.
    fn fresh_term(&mut self) -> (r: InferId)
        requires
            old(self).wf(),
        ensures
            final(self).keeps_classes(old(self)),
            r < final(self).nodes@.len(),
    {
        let r = self.fresh();
        proof {
            assert(self.grows_from(old(self)));
            lemma_refines_keeps(old(self), self);
        }
        r
    }

    /// A new term with outer shape `shape`, keeping the classes.
    fn shaped_term(&mut self, shape: InferShape) -> (r: InferId)
        requires
            old(self).wf(),
            shape.parts_below(old(self).nodes@.len() as nat),
        ensures
            final(self).keeps_classes(old(self)),
            r < final(self).nodes@.len(),
            final(self).spec_class_kind(r) == Some(spec_shape_kind(shape)),
            final(self).spec_root_shape(r) == Some(shape),
            final(self).refusals == old(self).refusals,
    {
        let r = self.with_shape(shape);
        proof {
            assert(self.grows_from(old(self)));
            lemma_refines_keeps(old(self), self);
        }
        r
    }
}

/// Congruence depends on the nodes and the table only.
pub proof fn lemma_congruent_same_graph(
    a: &FunctionInference,
    b: &FunctionInference,
    o: Option<InferShape>,
    n: Option<InferShape>,
)
    requires
        a.nodes == b.nodes,
        a.concrete_terms == b.concrete_terms,
        a.spec_congruent(o, n),
    ensures
        b.spec_congruent(o, n),
{
    match o {
        Some(InferShape::Known(ty)) => {
            if !(spec_known_kind(ty) is Known || n == o) {
                let e = choose|e: InferShape| spec_expansion(a.concrete_terms, ty, e) && #[trigger] a.spec_parts_joined(n.unwrap(), e);
                lemma_joined_same_nodes(a, b, n.unwrap(), e);
            }
        },
        Some(x) => {
            lemma_joined_same_nodes(a, b, n.unwrap(), x);
        },
        None => {},
    }
}

/// A graph with the same nodes and tables, as many refusals or more and
/// more operators after the old ones, keeps the classes.
pub proof fn lemma_keeps_same_graph(a: &FunctionInference, b: &FunctionInference)
    requires
        a.wf(),
        b.wf(),
        a.nodes == b.nodes,
        a.concrete_terms == b.concrete_terms,
        a.locals == b.locals,
        a.exprs == b.exprs,
        a.refusals@ <= b.refusals@,
        a.operators@.len() <= b.operators@.len(),
        forall|k: int| 0 <= k < a.operators@.len() ==> #[trigger] b.operators@[k] == a.operators@[k],
    ensures
        b.keeps_classes(a),
{
    assert forall|i: int| #![trigger spec_root(a.nodes@, i)] 0 <= i < a.nodes@.len() implies b.spec_congruent(
        a.nodes@[spec_root(a.nodes@, i)].shape,
        b.nodes@[spec_root(b.nodes@, i)].shape,
    ) by {
        lemma_root_of_root(a, i);
        crate::unification::lemma_congruent_refl(a, a.nodes@[spec_root(a.nodes@, i)].shape);
        lemma_congruent_same_graph(a, b, a.nodes@[spec_root(a.nodes@, i)].shape, b.nodes@[spec_root(b.nodes@, i)].shape);
    }
    assert forall|i: int| #![trigger spec_root(a.nodes@, i)] 0 <= i < a.nodes@.len() implies spec_root(b.nodes@, i)
        == spec_root(b.nodes@, spec_root(a.nodes@, i)) by {
        lemma_root_of_root(a, i);
    }
}

/// Joined parts depend on the nodes only.
pub proof fn lemma_joined_same_nodes(a: &FunctionInference, b: &FunctionInference, x: InferShape, y: InferShape)
    requires
        a.nodes == b.nodes,
        a.spec_parts_joined(x, y),
    ensures
        b.spec_parts_joined(x, y),
{
    match (x, y) {
        (InferShape::Tuple(p), InferShape::Tuple(q)) => {
            assert forall|i: int| 0 <= i < p@.len() && i < q@.len() implies #[trigger] b.spec_find(p@[i])
                == b.spec_find(q@[i]) by {
                assert(a.spec_find(p@[i]) == a.spec_find(q@[i]));
            }
        },
        (InferShape::Callable { params: p, .. }, InferShape::Callable { params: q, .. }) => {
            assert forall|i: int| 0 <= i < p@.len() && i < q@.len() implies #[trigger] b.spec_find(p@[i])
                == b.spec_find(q@[i]) by {
                assert(a.spec_find(p@[i]) == a.spec_find(q@[i]));
            }
        },
        _ => {},
    }
}

/// A class that knows a structure still knows it in a graph that keeps
/// the classes.
pub proof fn lemma_kind_kept(b: &FunctionInference, fin: &FunctionInference, id: InferId)
    requires
        b.wf(),
        fin.keeps_classes(b),
        id < b.nodes@.len(),
        spec_is_structure(b.spec_class_kind(id)),
    ensures
        fin.spec_class_kind(id) == b.spec_class_kind(id),
{
    lemma_root_of_root(b, id as int);
    lemma_root_of_root(fin, id as int);
    assert(spec_root(b.nodes@, id as int) == spec_root(b.nodes@, id as int));
}

/// The structure a class's representative knows stays a structure of the
/// same form, whose parts are in the classes of the old parts.
pub proof fn lemma_root_shape_kept(b: &FunctionInference, fin: &FunctionInference, t: InferId)
    requires
        b.wf(),
        fin.keeps_classes(b),
        t < b.nodes@.len(),
        spec_term_structure(b.spec_root_shape(t)),
    ensures
        spec_term_structure(fin.spec_root_shape(t)),
        spec_shape_kind(fin.spec_root_shape(t).unwrap()) == spec_shape_kind(b.spec_root_shape(t).unwrap()),
        fin.spec_parts_joined(fin.spec_root_shape(t).unwrap(), b.spec_root_shape(t).unwrap()),
{
    assert(b.nodes.len() == b.nodes@.len());
    assert(fin.nodes.len() == fin.nodes@.len());
    lemma_root_of_root(b, t as int);
    lemma_root_of_root(fin, t as int);
    assert(spec_root(b.nodes@, t as int) == spec_root(b.nodes@, t as int));
    assert(fin.spec_congruent(
        b.nodes@[spec_root(b.nodes@, t as int)].shape,
        fin.nodes@[spec_root(fin.nodes@, t as int)].shape,
    ));
}

/// A term recorded for an expression, in a class with `p`, stays so.
pub proof fn lemma_node_class_kept(
    b: &FunctionInference,
    fin: &FunctionInference,
    body: BodyExprs,
    id: ExprId,
    p: InferId,
)
    requires
        b.wf(),
        fin.keeps_classes(b),
        p < b.nodes@.len(),
        b.spec_in_node_class(body, id, p),
    ensures
        fin.spec_in_node_class(body, id, p),
{
    let c = b.spec_node_term(body, id).unwrap();
    lemma_pair_kept(b, fin, c, p);
}

/// What a term is for an expression stays so in a graph that keeps the
/// classes, and holds of every term of its class.
pub proof fn lemma_actual_kept(
    b: &FunctionInference,
    fin: &FunctionInference,
    body: BodyExprs,
    kind: BodyExprKind,
    t: InferId,
    u: InferId,
)
    requires
        b.wf(),
        fin.keeps_classes(b),
        t < b.nodes@.len(),
        b.spec_is_actual(body, kind, t),
        u < fin.nodes@.len(),
        fin.spec_find(u) == fin.spec_find(t),
    ensures
        fin.spec_is_actual(body, kind, u),
{
    lemma_root_of_root(fin, u as int);
    lemma_root_of_root(fin, t as int);
    lemma_root_of_root(b, t as int);
    assert(b.nodes.len() == b.nodes@.len());
    assert(fin.spec_root_shape(u) == fin.spec_root_shape(t));
    match spec_known_expr_ty(kind) {
        Some(ty) => {
            let c = b.concrete_terms.spec_get(ty).unwrap();
            lemma_pair_kept(b, fin, c, t);
        },
        None => {},
    }
    match kind {
        BodyExprKind::Local(l) => {
            let c = b.locals.spec_get(l).unwrap();
            lemma_pair_kept(b, fin, c, t);
        },
        BodyExprKind::Tuple(elems) => {
            lemma_root_shape_kept(b, fin, t);
            let p = b.spec_root_shape(t).unwrap()->Tuple_0;
            let q = fin.spec_root_shape(t).unwrap()->Tuple_0;
            assert forall|j: int| 0 <= j < q@.len() implies #[trigger] fin.spec_in_node_class(body, elems@[j], q@[j]) by {
                assert(b.spec_in_node_class(body, elems@[j], p@[j]));
                assert(p@[j] < b.nodes@.len());
                lemma_node_class_kept(b, fin, body, elems@[j], p@[j]);
                assert(fin.spec_find(q@[j]) == fin.spec_find(p@[j]));
            }
        },
        BodyExprKind::Ref { inner, .. } => {
            lemma_root_shape_kept(b, fin, t);
            let e = b.spec_root_shape(t).unwrap()->Pointer_elem;
            lemma_node_class_kept(b, fin, body, inner, e);
        },
        BodyExprKind::OptionalSome(inner) => {
            lemma_root_shape_kept(b, fin, t);
            let e = b.spec_root_shape(t).unwrap()->Optional_elem;
            lemma_node_class_kept(b, fin, body, inner, e);
        },
        BodyExprKind::ErrorOk(inner) => {
            lemma_root_shape_kept(b, fin, t);
            let e = b.spec_root_shape(t).unwrap()->ErrorUnion_value;
            lemma_node_class_kept(b, fin, body, inner, e);
        },
        BodyExprKind::ErrorErr(inner) => {
            lemma_root_shape_kept(b, fin, t);
            let e = b.spec_root_shape(t).unwrap()->ErrorUnion_error;
            lemma_node_class_kept(b, fin, body, inner, e);
        },
        BodyExprKind::Deref(inner) => {
            let p = choose|p: InferId|
                p < b.nodes@.len() && (#[trigger] b.spec_root_shape(p) matches Some(
                    InferShape::Pointer { is_readonly: true, elem: e },
                ) && b.spec_find(e) == b.spec_find(t)) && b.spec_in_node_class(body, inner, p);
            lemma_root_shape_kept(b, fin, p);
            let e = b.spec_root_shape(p).unwrap()->Pointer_elem;
            lemma_root_of_root(b, p as int);
            assert(b.nodes@[spec_root(b.nodes@, p as int)].shape.unwrap().parts_below(b.nodes@.len() as nat));
            lemma_pair_kept(b, fin, e, t);
            lemma_node_class_kept(b, fin, body, inner, p);
            assert(fin.spec_root_shape(p) matches Some(InferShape::Pointer { is_readonly: true, elem: e2 })
                && fin.spec_find(e2) == fin.spec_find(u));
        },
        BodyExprKind::Not(inner) | BodyExprKind::Negate(inner) => {
            lemma_node_class_kept(b, fin, body, inner, t);
        },
        BodyExprKind::Logical { lhs, rhs } => {
            lemma_node_class_kept(b, fin, body, lhs, t);
            lemma_node_class_kept(b, fin, body, rhs, t);
        },
        BodyExprKind::Assign { lhs, rhs } => {
            let a = b.spec_node_term(body, lhs).unwrap();
            lemma_node_class_kept(b, fin, body, rhs, a);
        },
        BodyExprKind::Binary { op, lhs, rhs } => {
            let k = choose|k: int|
                0 <= k < b.operators@.len() && (#[trigger] b.operators@[k]).op == op && b.spec_in_node_class(
                    body,
                    lhs,
                    b.operators@[k].lhs,
                ) && b.spec_in_node_class(body, rhs, b.operators@[k].rhs) && b.spec_find(b.operators@[k].output)
                    == b.spec_find(t);
            let o = b.operators@[k];
            lemma_node_class_kept(b, fin, body, lhs, o.lhs);
            lemma_node_class_kept(b, fin, body, rhs, o.rhs);
            lemma_pair_kept(b, fin, o.output, t);
            assert(fin.operators@[k] == o);
        },
        BodyExprKind::If { cond, then_branch, else_branch } => {
            let c = b.concrete_terms.spec_get(Ty::Primitive(PrimitiveTy::Bool)).unwrap();
            lemma_node_class_kept(b, fin, body, cond, c);
            lemma_node_class_kept(b, fin, body, then_branch, t);
            match else_branch {
                Some(x) => {
                    lemma_node_class_kept(b, fin, body, x, t);
                },
                None => {},
            }
        },
        _ => {},
    }
}

/// Terms recorded for sub-expressions stay recorded.
pub proof fn lemma_children_kept(b: &FunctionInference, fin: &FunctionInference, body: BodyExprs, id: ExprId)
    requires
        fin.keeps_classes(b),
        b.spec_children_constrained(body, id),
    ensures
        fin.spec_children_constrained(body, id),
{
    assert forall|k: int| 0 <= k < spec_children(body.exprs@[id as int].kind).len() implies (
    #[trigger] fin.spec_node_term(body, spec_children(body.exprs@[id as int].kind)[k])) is Some by {
        assert(b.spec_node_term(body, spec_children(body.exprs@[id as int].kind)[k]) is Some);
    }
}

impl FunctionInference {
    /// Collects the equalities of expression `expr` of `body` and returns
    /// its term, the term recorded for its node key. The expression's term
    /// is unified with what it is: the term of its known type (a literal's,
    /// `bool` for negations and logical operators, a cast's target, a
    /// resolved name's, `void` for an assignment), its local's term, a
    /// tuple of its elements' terms, a pointer to its operand's term, an
    /// optional or error union around its operand's term, or what its
    /// operand gives for `-` and `~`; a dereference's operand must be a
    /// read-only pointer to the result; an assignment's right side is
    /// unified with its left; an `if`'s condition with `bool` and its
    /// branches with the result (`expected`, or a new term); another binary
    /// operator is recorded as an obligation on its operands' terms and its
    /// result (`bool`'s term for a comparison, else `expected` or a new
    /// term). The
    /// term is then unified with `expected`, where given. Sub-expressions
    /// are constrained first. A refused unification is left as it is and
    /// counted; when none was refused, the class of the returned term is
    /// what the expression is (`spec_is_actual`: the class of its known
    /// type's or local's term, a tuple of its arity, a pointer of its
    /// mutability, an optional or an error union, `bool`'s class holding
    /// the operands of `!` and of logical operators, the operand's class
    /// for `-` and `~`, a read-only pointer class holding a dereference's
    /// operand) and the class of `expected`.
    #[verifier::spinoff_prover]
    #[verifier::rlimit(60)]
    pub fn constrain_expr(&mut self, body: &BodyExprs, expr: ExprId, expected: Option<InferId>) -> (r: InferId)
        requires
            old(self).wf(),
            body.wf(),
            expr < body.exprs@.len(),
            expected matches Some(x) ==> x < old(self).nodes@.len(),
        ensures
            final(self).keeps_classes(old(self)),
            r < final(self).nodes@.len(),
            final(self).exprs.spec_get(body.exprs@[expr as int].key) == Some(r),
            old(self).exprs.spec_get(body.exprs@[expr as int].key) matches Some(t) ==> r == t,
            match expected {
                Some(x) => final(self).spec_joined(r, x),
                None => match final(self).spec_named_actual(body.exprs@[expr as int].kind) {
                    Some(a) => final(self).spec_joined(r, a),
                    None => true,
                },
            },
            final(self).spec_children_constrained(*body, expr),
            final(self).refusals@ == old(self).refusals@ ==> final(self).spec_is_actual(
                *body,
                body.exprs@[expr as int].kind,
                r,
            ),
            final(self).refusals@ == old(self).refusals@ && expected is Some ==> final(self).spec_find(r)
                == final(self).spec_find(expected.unwrap()),
        decreases expr, 0nat,
    {
        let key = body.exprs[expr].key;
        let term = self.expr_term(key);
        let ghost s1 = *self;
        proof {
            lemma_refines_keeps(old(self), &s1);
        }
        let ghost kind = body.exprs@[expr as int].kind;
        let actual: InferId = match &body.exprs[expr].kind {
            BodyExprKind::Integer(suffix) => {
                let ty = match suffix {
                    NumericSuffix::Typed(p) => Ty::Primitive(*p),
                    _ => Ty::Primitive(PrimitiveTy::I32),
                };
                self.known_term(&ty)
            },
            BodyExprKind::Float(suffix) => {
                let ty = match suffix {
                    NumericSuffix::Typed(p) => Ty::Primitive(*p),
                    _ => Ty::Primitive(PrimitiveTy::Float64),
                };
                self.known_term(&ty)
            },
            BodyExprKind::Bool => self.known_term(&Ty::Primitive(PrimitiveTy::Bool)),
            BodyExprKind::Char => self.known_term(&Ty::Primitive(PrimitiveTy::Char)),
            BodyExprKind::ByteChar => self.known_term(&Ty::Primitive(PrimitiveTy::U8)),
            BodyExprKind::Tuple(elems) => {
                let mut ids: Vec<InferId> = Vec::new();
                let mut k: usize = 0;
                while k < elems.len()
                    invariant
                        s1.wf(),
                        body.wf(),
                        expr < body.exprs@.len(),
                        elems@ == spec_children(body.exprs@[expr as int].kind),
                        self.keeps_classes(&s1),
                        k <= elems@.len(),
                        ids@.len() == k,
                        forall|j: int| 0 <= j < k ==> #[trigger] ids@[j] < self.nodes@.len(),
                        forall|j: int| 0 <= j < k ==> (#[trigger] self.spec_node_term(*body, elems@[j])) == Some(ids@[j]),
                    decreases elems@.len() - k,
                {
                    proof {
                        assert(spec_children(body.exprs@[expr as int].kind)[k as int] < expr);
                    }
                    let ghost b = *self;
                    let t = self.constrain_expr(body, elems[k], None);
                    proof {
                        lemma_keeps_trans(&s1, &b, self);
                    }
                    let ghost prev = ids@;
                    ids.push(t);
                    proof {
                        assert forall|j: int| 0 <= j < k + 1 implies (#[trigger] self.spec_node_term(
                            *body,
                            elems@[j],
                        )) == Some(ids@[j]) by {
                            if j < k {
                                assert(b.spec_node_term(*body, elems@[j]) == Some(prev[j]));
                            }
                        }
                    }
                    k = k + 1;
                }
                let ghost b = *self;
                let ghost gids = ids@;
                let t = self.shaped_term(InferShape::Tuple(ids));
                proof {
                    lemma_keeps_trans(&s1, &b, self);
                    assert forall|j: int| 0 <= j < elems@.len() implies (#[trigger] self.spec_node_term(
                        *body,
                        elems@[j],
                    )) == Some(gids[j]) by {
                        assert(b.spec_node_term(*body, elems@[j]) == Some(gids[j]));
                    }
                    assert forall|j: int| 0 <= j < gids.len() implies #[trigger] self.spec_in_node_class(
                        *body,
                        elems@[j],
                        gids[j],
                    ) by {
                        assert(self.spec_node_term(*body, elems@[j]) == Some(gids[j]));
                    }
                    assert(self.spec_root_shape(t) matches Some(InferShape::Tuple(p)) && p@ == gids);
                }
                t
            },
            BodyExprKind::Ref { is_readonly, inner } => {
                proof {
                    assert(spec_children(body.exprs@[expr as int].kind)[0] < expr);
                }
                let elem = self.constrain_expr(body, *inner, None);
                let ghost b = *self;
                let p = self.shaped_term(InferShape::Pointer { is_readonly: *is_readonly, elem });
                proof {
                    lemma_keeps_trans(&s1, &b, self);
                    assert(self.spec_node_term(*body, *inner) == Some(elem));
                    assert(self.spec_in_node_class(*body, *inner, elem));
                }
                p
            },
            BodyExprKind::Deref(inner) => {
                proof {
                    assert(spec_children(body.exprs@[expr as int].kind)[0] < expr);
                }
                let elem = match expected {
                    Some(x) => {
                        proof {
                            crate::unification::lemma_keeps_refl(self);
                        }
                        x
                    },
                    None => self.fresh_term(),
                };
                let ghost b1 = *self;
                let pointer = self.shaped_term(InferShape::Pointer { is_readonly: true, elem });
                let ghost b2 = *self;
                let inner_t = self.constrain_expr(body, *inner, Some(pointer));
                let ghost b3 = *self;
                self.equate(pointer, inner_t);
                proof {
                    lemma_keeps_trans(&s1, &b1, &b2);
                    lemma_keeps_trans(&s1, &b2, &b3);
                    lemma_keeps_trans(&s1, &b3, self);
                    lemma_keeps_trans(&b2, &b3, self);
                    assert(self.spec_node_term(*body, *inner) == Some(inner_t));
                    if self.refusals@ == s1.refusals@ {
                        lemma_kind_kept(&b2, self, pointer);
                        lemma_root_shape_kept(&b2, self, pointer);
                        assert(self.spec_in_node_class(*body, *inner, pointer));
                        assert(self.spec_root_shape(pointer) matches Some(
                            InferShape::Pointer { is_readonly: true, elem: e },
                        ) && self.spec_find(e) == self.spec_find(elem));
                    }
                }
                elem
            },
            BodyExprKind::Not(inner) => {
                proof {
                    assert(spec_children(body.exprs@[expr as int].kind)[0] < expr);
                }
                let bool_ty = Ty::Primitive(PrimitiveTy::Bool);
                let bool_term = self.known_term(&bool_ty);
                let ghost b1 = *self;
                let inner_t = self.constrain_expr(body, *inner, Some(bool_term));
                let ghost b2 = *self;
                self.equate(bool_term, inner_t);
                proof {
                    lemma_keeps_trans(&s1, &b1, &b2);
                    lemma_keeps_trans(&s1, &b2, self);
                    assert(self.spec_node_term(*body, *inner) == Some(inner_t));
                    assert(self.concrete_terms.spec_get(bool_ty) == Some(bool_term));
                }
                bool_term
            },
            BodyExprKind::Negate(inner) => {
                proof {
                    assert(spec_children(body.exprs@[expr as int].kind)[0] < expr);
                }
                let t = self.constrain_expr(body, *inner, expected);
                proof {
                    assert(self.spec_node_term(*body, *inner) == Some(t));
                }
                t
            },
            BodyExprKind::OptionalSome(inner) => {
                proof {
                    assert(spec_children(body.exprs@[expr as int].kind)[0] < expr);
                }
                let elem = self.fresh_term();
                let ghost b1 = *self;
                let optional = self.shaped_term(InferShape::Optional { elem });
                let ghost b2 = *self;
                if let Some(x) = expected {
                    self.equate(optional, x);
                } else {
                    proof {
                        crate::unification::lemma_keeps_refl(self);
                    }
                }
                let ghost b3 = *self;
                let inner_t = self.constrain_expr(body, *inner, Some(elem));
                let ghost b4 = *self;
                self.equate(elem, inner_t);
                proof {
                    lemma_keeps_trans(&s1, &b1, &b2);
                    lemma_keeps_trans(&s1, &b2, &b3);
                    lemma_keeps_trans(&s1, &b3, &b4);
                    lemma_keeps_trans(&s1, &b4, self);
                    lemma_keeps_trans(&b2, &b3, &b4);
                    lemma_keeps_trans(&b2, &b4, self);
                    lemma_kind_kept(&b2, self, optional);
                    lemma_root_shape_kept(&b2, self, optional);
                    assert(self.spec_node_term(*body, *inner) == Some(inner_t));
                    if self.refusals@ == s1.refusals@ {
                        assert(self.spec_find(elem) == self.spec_find(inner_t));
                        assert(self.spec_root_shape(optional) matches Some(InferShape::Optional { elem: e })
                            && self.spec_find(e) == self.spec_find(elem));
                    }
                }
                optional
            },
            BodyExprKind::ErrorOk(inner) => {
                proof {
                    assert(spec_children(body.exprs@[expr as int].kind)[0] < expr);
                }
                self.error_union_term(body, *inner, expected, false)
            },
            BodyExprKind::ErrorErr(inner) => {
                proof {
                    assert(spec_children(body.exprs@[expr as int].kind)[0] < expr);
                }
                self.error_union_term(body, *inner, expected, true)
            },
            BodyExprKind::Logical { lhs, rhs } => {
                proof {
                    assert(spec_children(body.exprs@[expr as int].kind)[0] < expr);
                    assert(spec_children(body.exprs@[expr as int].kind)[1] < expr);
                }
                let bool_ty = Ty::Primitive(PrimitiveTy::Bool);
                let bool_term = self.known_term(&bool_ty);
                let ghost b1 = *self;
                let l = self.constrain_expr(body, *lhs, Some(bool_term));
                let ghost b2 = *self;
                let r = self.constrain_expr(body, *rhs, Some(bool_term));
                let ghost b3 = *self;
                self.equate(bool_term, l);
                let ghost b4 = *self;
                self.equate(bool_term, r);
                proof {
                    lemma_keeps_trans(&s1, &b1, &b2);
                    lemma_keeps_trans(&s1, &b2, &b3);
                    lemma_keeps_trans(&s1, &b3, &b4);
                    lemma_keeps_trans(&s1, &b4, self);
                    assert(self.spec_node_term(*body, *lhs) == Some(l));
                    assert(self.spec_node_term(*body, *rhs) == Some(r));
                    assert(self.concrete_terms.spec_get(bool_ty) == Some(bool_term));
                    if self.refusals@ == s1.refusals@ {
                        assert(b4.spec_find(bool_term) == b4.spec_find(l));
                        lemma_pair_kept(&b4, self, bool_term, l);
                    }
                }
                bool_term
            },
            BodyExprKind::Cast { inner, target } => {
                proof {
                    assert(spec_children(body.exprs@[expr as int].kind)[0] < expr);
                }
                self.constrain_expr(body, *inner, None);
                let ghost b1 = *self;
                let t = self.known_term(target);
                proof {
                    lemma_keeps_trans(&s1, &b1, self);
                    assert(self.spec_node_term(*body, *inner) is Some);
                }
                t
            },
            BodyExprKind::Binary { op, lhs, rhs } => {
                proof {
                    assert(spec_children(body.exprs@[expr as int].kind)[0] < expr);
                    assert(spec_children(body.exprs@[expr as int].kind)[1] < expr);
                }
                let t = self.binary_term(body, *op, *lhs, *rhs, expected);
                proof {
                    lemma_keeps_trans(old(self), &s1, self);
                }
                t
            },
            BodyExprKind::Assign { lhs, rhs } => {
                proof {
                    assert(spec_children(body.exprs@[expr as int].kind)[0] < expr);
                    assert(spec_children(body.exprs@[expr as int].kind)[1] < expr);
                }
                let t = self.assign_term(body, (expr - 1) as usize, *lhs, *rhs);
                proof {
                    lemma_keeps_trans(old(self), &s1, self);
                }
                t
            },
            BodyExprKind::If { cond, then_branch, else_branch } => {
                proof {
                    assert(spec_children(body.exprs@[expr as int].kind)[0] < expr);
                    assert(spec_children(body.exprs@[expr as int].kind)[1] < expr);
                    if else_branch is Some {
                        assert(spec_children(body.exprs@[expr as int].kind)[2] < expr);
                    }
                }
                let t = self.if_term(body, (expr - 1) as usize, *cond, *then_branch, *else_branch, expected);
                proof {
                    lemma_keeps_trans(old(self), &s1, self);
                }
                t
            },
            BodyExprKind::Local(local) => {
                let t = self.local_term(*local);
                proof {
                    lemma_refines_keeps(&s1, self);
                }
                t
            },
            BodyExprKind::Name(ty) => match ty {
                Some(t) => self.known_term(t),
                None => self.fresh_term(),
            },
            BodyExprKind::Other(ty) => match ty {
                Some(t) => self.known_term(t),
                None => match expected {
                    Some(x) => {
                        proof {
                            crate::unification::lemma_keeps_refl(self);
                        }
                        x
                    },
                    None => self.fresh_term(),
                },
            },
        };
        let ghost s2 = *self;
        proof {
            assert(self.keeps_classes(&s1));
            assert(actual < self.nodes@.len());
            assert(expected is None ==> (self.spec_named_actual(kind) matches Some(a) ==> a == actual));
            assert(self.spec_children_constrained(*body, expr));
            assert(self.refusals@ == s1.refusals@ ==> self.spec_is_actual(*body, kind, actual));
        }
        self.equate(term, actual);
        let ghost s3 = *self;
        if let Some(x) = expected {
            self.equate(term, x);
        } else {
            proof {
                crate::unification::lemma_keeps_refl(self);
            }
        }
        proof {
            lemma_keeps_trans(&s1, &s2, &s3);
            lemma_keeps_trans(&s1, &s3, self);
            lemma_keeps_trans(old(self), &s1, self);
            lemma_keeps_trans(&s2, &s3, self);
            lemma_children_kept(&s2, self, *body, expr);
            if self.refusals@ == old(self).refusals@ {
                assert(s3.spec_find(term) == s3.spec_find(actual));
                lemma_pair_kept(&s3, self, term, actual);
                lemma_actual_kept(&s2, self, *body, kind, actual, term);
            }
        }
        term
    }

    /// An assignment: the left side is constrained, the right side against
    /// it and unified with it; the result is the term of `void`.
    fn assign_term(&mut self, body: &BodyExprs, bound: ExprId, lhs: ExprId, rhs: ExprId) -> (r: InferId)
        requires
            old(self).wf(),
            body.wf(),
            bound < body.exprs@.len(),
            lhs <= bound,
            rhs <= bound,
        ensures
            final(self).keeps_classes(old(self)),
            r < final(self).nodes@.len(),
            final(self).spec_node_term(*body, lhs) is Some,
            final(self).spec_node_term(*body, rhs) is Some,
            final(self).concrete_terms.spec_get(Ty::Primitive(PrimitiveTy::Void)) == Some(r),
            final(self).refusals@ == old(self).refusals@ ==> final(self).spec_is_actual(
                *body,
                BodyExprKind::Assign { lhs, rhs },
                r,
            ),
        decreases bound, 1nat,
    {
        let l = self.constrain_expr(body, lhs, None);
        let ghost b1 = *self;
        let rt = self.constrain_expr(body, rhs, Some(l));
        let ghost b2 = *self;
        self.equate(l, rt);
        let ghost b3 = *self;
        let t = self.known_term(&Ty::Primitive(PrimitiveTy::Void));
        proof {
            lemma_keeps_trans(old(self), &b1, &b2);
            lemma_keeps_trans(old(self), &b2, &b3);
            lemma_keeps_trans(old(self), &b3, self);
            assert(self.spec_node_term(*body, lhs) == Some(l));
            assert(self.spec_node_term(*body, rhs) == Some(rt));
            if self.refusals@ == old(self).refusals@ {
                lemma_pair_kept(&b3, self, l, rt);
                assert(self.spec_in_node_class(*body, rhs, l));
            }
        }
        t
    }

    /// An `if`: the condition is constrained against `bool` and unified
    /// with it; the result is `expected` or a new term, and each branch is
    /// constrained against it and unified with it.
    fn if_term(
        &mut self,
        body: &BodyExprs,
        bound: ExprId,
        cond: ExprId,
        then_branch: ExprId,
        else_branch: Option<ExprId>,
        expected: Option<InferId>,
    ) -> (r: InferId)
        requires
            old(self).wf(),
            body.wf(),
            bound < body.exprs@.len(),
            cond <= bound,
            then_branch <= bound,
            else_branch matches Some(x) ==> x <= bound,
            expected matches Some(x) ==> x < old(self).nodes@.len(),
        ensures
            final(self).keeps_classes(old(self)),
            r < final(self).nodes@.len(),
            final(self).spec_node_term(*body, cond) is Some,
            final(self).spec_node_term(*body, then_branch) is Some,
            else_branch matches Some(x) ==> final(self).spec_node_term(*body, x) is Some,
            final(self).refusals@ == old(self).refusals@ ==> final(self).spec_is_actual(
                *body,
                BodyExprKind::If { cond, then_branch, else_branch },
                r,
            ),
        decreases bound, 1nat,
    {
        let bool_ty = Ty::Primitive(PrimitiveTy::Bool);
        let bool_term = self.known_term(&bool_ty);
        let ghost b1 = *self;
        let c = self.constrain_expr(body, cond, Some(bool_term));
        let ghost b2 = *self;
        self.equate(bool_term, c);
        let ghost b3 = *self;
        let result = match expected {
            Some(x) => {
                proof {
                    crate::unification::lemma_keeps_refl(self);
                }
                x
            },
            None => self.fresh_term(),
        };
        let ghost b4 = *self;
        let th = self.constrain_expr(body, then_branch, Some(result));
        let ghost b5 = *self;
        self.equate(result, th);
        let ghost b6 = *self;
        proof {
            lemma_keeps_trans(old(self), &b1, &b2);
            lemma_keeps_trans(old(self), &b2, &b3);
            lemma_keeps_trans(old(self), &b3, &b4);
            lemma_keeps_trans(old(self), &b4, &b5);
            lemma_keeps_trans(old(self), &b5, &b6);
            lemma_keeps_trans(&b3, &b4, &b5);
            lemma_keeps_trans(&b3, &b5, &b6);
        }
        match else_branch {
            Some(el) => {
                let e = self.constrain_expr(body, el, Some(result));
                let ghost b7 = *self;
                self.equate(result, e);
                proof {
                    lemma_keeps_trans(old(self), &b6, &b7);
                    lemma_keeps_trans(old(self), &b7, self);
                    lemma_keeps_trans(&b6, &b7, self);
                    lemma_keeps_trans(&b3, &b6, self);
                    assert(self.spec_node_term(*body, el) == Some(e));
                    if self.refusals@ == old(self).refusals@ {
                        assert(self.spec_in_node_class(*body, el, result));
                    }
                }
            },
            None => {
                proof {
                    crate::unification::lemma_keeps_refl(self);
                }
            },
        }
        proof {
            lemma_keeps_trans(old(self), &b6, self);
            assert(self.spec_node_term(*body, cond) == Some(c));
            assert(self.spec_node_term(*body, then_branch) == Some(th));
            assert(self.concrete_terms.spec_get(bool_ty) == Some(bool_term));
            if self.refusals@ == old(self).refusals@ {
                lemma_pair_kept(&b3, self, bool_term, c);
                lemma_pair_kept(&b6, self, result, th);
                assert(self.spec_in_node_class(*body, cond, bool_term));
                assert(self.spec_in_node_class(*body, then_branch, result));
            }
        }
        result
    }

    /// A binary operator other than `and` and `or`: its operands are
    /// constrained, the result is the term of `bool` for a comparison and
    /// otherwise `expected` or a new term, and the operator is recorded as
    /// an obligation on the operands' terms and the result.
    fn binary_term(
        &mut self,
        body: &BodyExprs,
        op: BinaryOperator,
        lhs: ExprId,
        rhs: ExprId,
        expected: Option<InferId>,
    ) -> (r: InferId)
        requires
            old(self).wf(),
            body.wf(),
            lhs < body.exprs@.len(),
            rhs < body.exprs@.len(),
            expected matches Some(x) ==> x < old(self).nodes@.len(),
        ensures
            final(self).keeps_classes(old(self)),
            r < final(self).nodes@.len(),
            final(self).spec_node_term(*body, lhs) is Some,
            final(self).spec_node_term(*body, rhs) is Some,
            final(self).spec_is_actual(*body, BodyExprKind::Binary { op, lhs, rhs }, r),
            spec_is_comparison(op) ==> final(self).concrete_terms.spec_get(Ty::Primitive(PrimitiveTy::Bool)) == Some(r),
            final(self).refusals@ == old(self).refusals@ && expected is Some && !spec_is_comparison(op) ==> r
                == expected.unwrap(),
        decreases if lhs > rhs {
            lhs
        } else {
            rhs
        }, 1nat,
    {
        let l = self.constrain_expr(body, lhs, None);
        let ghost b1 = *self;
        let r = self.constrain_expr(body, rhs, None);
        let ghost b2 = *self;
        let output = if is_comparison(op) {
            self.known_term(&Ty::Primitive(PrimitiveTy::Bool))
        } else {
            match expected {
                Some(x) => {
                    proof {
                        crate::unification::lemma_keeps_refl(self);
                    }
                    x
                },
                None => self.fresh_term(),
            }
        };
        let ghost b3 = *self;
        self.operators.push(OperatorObligation { op, lhs: l, rhs: r, output });
        proof {
            assert forall|k: int| 0 <= k < self.operators@.len() implies (#[trigger] self.operators@[k]).lhs
                < self.nodes@.len() && self.operators@[k].rhs < self.nodes@.len() && self.operators@[k].output
                < self.nodes@.len() by {
                if k < b3.operators@.len() {
                    assert(b3.operators@[k] == self.operators@[k]);
                }
            }
            assert(self.wf());
            lemma_keeps_same_graph(&b3, self);
            lemma_keeps_trans(old(self), &b1, &b2);
            lemma_keeps_trans(old(self), &b2, &b3);
            lemma_keeps_trans(old(self), &b3, self);
            assert(self.spec_node_term(*body, lhs) == Some(l));
            assert(self.spec_node_term(*body, rhs) == Some(r));
            let k = b3.operators@.len() as int;
            assert(self.operators@[k] == OperatorObligation { op, lhs: l, rhs: r, output });
            assert(self.spec_in_node_class(*body, lhs, self.operators@[k].lhs));
            assert(self.spec_in_node_class(*body, rhs, self.operators@[k].rhs));
        }
        output
    }

    /// An error union around an operand: a new union of two new terms,
    /// unified with `expected`, whose error side (for an error) or value
    /// side (for a success) is unified with the operand's term.
    fn error_union_term(&mut self, body: &BodyExprs, inner: ExprId, expected: Option<InferId>, is_error: bool) -> (r:
        InferId)
        requires
            old(self).wf(),
            body.wf(),
            inner < body.exprs@.len(),
            expected matches Some(x) ==> x < old(self).nodes@.len(),
        ensures
            final(self).keeps_classes(old(self)),
            r < final(self).nodes@.len(),
            final(self).spec_class_kind(r) == Some(OuterKind::ErrorUnion),
            final(self).exprs.spec_get(body.exprs@[inner as int].key) is Some,
            final(self).refusals@ == old(self).refusals@ ==> (final(self).spec_root_shape(r) matches Some(
                InferShape::ErrorUnion { error: x, value: v },
            ) && final(self).spec_in_node_class(*body, inner, if is_error { x } else { v })),
        decreases inner, 1nat,
    {
        let error = self.fresh_term();
        let ghost b1 = *self;
        let value = self.fresh_term();
        let ghost b2 = *self;
        let union = self.shaped_term(InferShape::ErrorUnion { error, value });
        let ghost b3 = *self;
        if let Some(x) = expected {
            self.equate(union, x);
        } else {
            proof {
                crate::unification::lemma_keeps_refl(self);
            }
        }
        let ghost b4 = *self;
        let side = if is_error {
            error
        } else {
            value
        };
        let inner_t = self.constrain_expr(body, inner, Some(side));
        let ghost b5 = *self;
        self.equate(side, inner_t);
        proof {
            lemma_keeps_trans(old(self), &b1, &b2);
            lemma_keeps_trans(old(self), &b2, &b3);
            lemma_keeps_trans(old(self), &b3, &b4);
            lemma_keeps_trans(old(self), &b4, &b5);
            lemma_keeps_trans(old(self), &b5, self);
            lemma_keeps_trans(&b3, &b4, &b5);
            lemma_keeps_trans(&b3, &b5, self);
            lemma_kind_kept(&b3, self, union);
            lemma_root_shape_kept(&b3, self, union);
            assert(self.exprs.spec_get(body.exprs@[inner as int].key) == Some(inner_t));
            if self.refusals@ == old(self).refusals@ {
                assert(self.spec_find(side) == self.spec_find(inner_t));
            }
        }
        union
    }
}

} // verus!
