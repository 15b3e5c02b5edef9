//! The equality graph of function-local inference: terms for locals,
//! expressions and known types, kept in a union-find forest whose
//! representatives carry what is known of a term's outer shape.
use vstd::prelude::*;
use crate::ids::LocalId;
use crate::table::Table;
use crate::ty::{ty_eq, DeepClone, Ty, TyList};

verus! {

/// A term of the equality graph: an index into its nodes.
pub type InferId = usize;

/// What is known of a term's outer shape: a complete type, or a structure
/// whose parts are terms again.
pub enum InferShape {
    Known(Ty),
    Tuple(Vec<InferId>),
    Pointer { is_readonly: bool, elem: InferId },
    Optional { elem: InferId },
    ErrorUnion { error: InferId, value: InferId },
    Callable { params: Vec<InferId>, return_type: InferId },
}

impl InferShape {
    /// Every part of the shape is one of the first `n` terms.
    pub open spec fn parts_below(self, n: nat) -> bool {
        match self {
            InferShape::Known(_) => true,
            InferShape::Tuple(ids) => forall|i: int| 0 <= i < ids@.len() ==> #[trigger] ids@[i] < n,
            InferShape::Pointer { elem, .. } => elem < n,
            InferShape::Optional { elem } => elem < n,
            InferShape::ErrorUnion { error, value } => error < n && value < n,
            InferShape::Callable { params, return_type } => return_type < n && forall|i: int|
                0 <= i < params@.len() ==> #[trigger] params@[i] < n,
        }
    }

    /// Two shapes with the same structure and parts.
    pub open spec fn same(self, other: InferShape) -> bool {
        match (self, other) {
            (InferShape::Known(a), InferShape::Known(b)) => a == b,
            (InferShape::Tuple(a), InferShape::Tuple(b)) => a@ == b@,
            (
                InferShape::Pointer { is_readonly: r1, elem: e1 },
                InferShape::Pointer { is_readonly: r2, elem: e2 },
            ) => r1 == r2 && e1 == e2,
            (InferShape::Optional { elem: e1 }, InferShape::Optional { elem: e2 }) => e1 == e2,
            (
                InferShape::ErrorUnion { error: a1, value: b1 },
                InferShape::ErrorUnion { error: a2, value: b2 },
            ) => a1 == a2 && b1 == b2,
            (
                InferShape::Callable { params: p1, return_type: r1 },
                InferShape::Callable { params: p2, return_type: r2 },
            ) => p1@ == p2@ && r1 == r2,
            _ => false,
        }
    }

    /// A copy with the same structure and parts.
    pub fn duplicate(&self) -> (r: InferShape)
        ensures
            r.same(*self),
    {
        match self {
            InferShape::Known(t) => InferShape::Known(t.deep_clone()),
            InferShape::Tuple(ids) => {
                let c = ids.clone();
                proof {
                    assert(c@ =~= ids@);
                }
                InferShape::Tuple(c)
            },
            InferShape::Pointer { is_readonly, elem } => InferShape::Pointer {
                is_readonly: *is_readonly,
                elem: *elem,
            },
            InferShape::Optional { elem } => InferShape::Optional { elem: *elem },
            InferShape::ErrorUnion { error, value } => InferShape::ErrorUnion { error: *error, value: *value },
            InferShape::Callable { params, return_type } => {
                let c = params.clone();
                proof {
                    assert(c@ =~= params@);
                }
                InferShape::Callable { params: c, return_type: *return_type }
            },
        }
    }
}

/// One node of the forest: its parent (itself for a representative), its
/// rank, and the shape a representative knows.
pub struct InferNode {
    pub parent: InferId,
    pub rank: u8,
    pub shape: Option<InferShape>,
}

/// Levels that strictly grow from every node to its parent, each below the
/// number of nodes: they show that following parents ends at a
/// representative.
pub open spec fn levels_valid(nodes: Seq<InferNode>, levels: Seq<nat>) -> bool {
    &&& levels.len() == nodes.len()
    &&& forall|i: int| 0 <= i < nodes.len() ==> #[trigger] levels[i] < nodes.len()
    &&& forall|i: int|
        0 <= i < nodes.len() && #[trigger] nodes[i].parent != i ==> levels[nodes[i].parent as int]
            > levels[i]
}

/// Every parent is a node.
pub open spec fn parents_in_range(nodes: Seq<InferNode>) -> bool {
    forall|i: int| 0 <= i < nodes.len() ==> #[trigger] nodes[i].parent < nodes.len()
}

/// How many of the first `k` nodes are not representatives.
pub open spec fn count_non_roots(nodes: Seq<InferNode>, k: int) -> nat
    decreases k,
{
    if k <= 0 {
        0
    } else {
        count_non_roots(nodes, k - 1) + if nodes[k - 1].parent != (k - 1) as usize {
            1nat
        } else {
            0nat
        }
    }
}

/// Valid levels no higher than the number of nodes that are not
/// representatives: linking one representative under another then has room
/// for a higher level.
pub open spec fn levels_tight(nodes: Seq<InferNode>, levels: Seq<nat>) -> bool {
    &&& levels_valid(nodes, levels)
    &&& forall|i: int| 0 <= i < nodes.len() ==> #[trigger] levels[i] <= count_non_roots(nodes, nodes.len() as int)
}

/// The parents form a forest.
pub open spec fn is_forest(nodes: Seq<InferNode>) -> bool {
    &&& parents_in_range(nodes)
    &&& exists|levels: Seq<nat>| levels_tight(nodes, levels)
}

/// Levels that show the parents form a forest, when they do.
pub open spec fn forest_levels(nodes: Seq<InferNode>) -> Seq<nat> {
    choose|levels: Seq<nat>| levels_tight(nodes, levels)
}

/// Two node lists whose first `k` nodes agree in being representatives or
/// not count the same non-representatives there.
pub proof fn lemma_count_same(a: Seq<InferNode>, b: Seq<InferNode>, k: int)
    requires
        0 <= k <= a.len(),
        k <= b.len(),
        forall|i: int| 0 <= i < k ==> (#[trigger] a[i].parent == i as usize) == (b[i].parent == i as usize),
    ensures
        count_non_roots(a, k) == count_non_roots(b, k),
    decreases k,
{
    if k > 0 {
        lemma_count_same(a, b, k - 1);
        assert((a[k - 1].parent == (k - 1) as usize) == (b[k - 1].parent == (k - 1) as usize));
    }
}

/// Making the representative `c` a child adds one non-representative.
pub proof fn lemma_count_link(a: Seq<InferNode>, b: Seq<InferNode>, c: int, k: int)
    requires
        0 <= c < a.len(),
        a.len() == b.len(),
        0 <= k <= a.len(),
        a[c].parent == c as usize,
        b[c].parent != c as usize,
        forall|i: int| 0 <= i < a.len() && i != c ==> (#[trigger] a[i].parent == i as usize) == (b[i].parent
            == i as usize),
    ensures
        count_non_roots(b, k) == count_non_roots(a, k) + if c < k {
            1nat
        } else {
            0nat
        },
    decreases k,
{
    if k > 0 {
        lemma_count_link(a, b, c, k - 1);
        if k - 1 != c {
            assert((a[k - 1].parent == (k - 1) as usize) == (b[k - 1].parent == (k - 1) as usize));
        }
    }
}

/// A representative among the first `k` nodes leaves fewer than `k`
/// non-representatives there.
pub proof fn lemma_count_bound(nodes: Seq<InferNode>, k: int, j: int)
    requires
        0 <= k <= nodes.len(),
    ensures
        count_non_roots(nodes, k) <= k,
        0 <= j < k && nodes[j].parent == j as usize ==> count_non_roots(nodes, k) < k,
    decreases k,
{
    if k > 0 {
        lemma_count_bound(nodes, k - 1, j);
    }
}

/// Following parents from `i` at most `fuel` times.
pub open spec fn root_fuel(nodes: Seq<InferNode>, i: int, fuel: nat) -> int
    decreases fuel,
{
    if fuel == 0 || nodes[i].parent == i {
        i
    } else {
        root_fuel(nodes, nodes[i].parent as int, (fuel - 1) as nat)
    }
}

/// The representative of `i`.
pub open spec fn spec_root(nodes: Seq<InferNode>, i: int) -> int {
    root_fuel(nodes, i, nodes.len())
}

/// Enough fuel reaches the representative, whatever the fuel.
pub proof fn lemma_root_fuel(nodes: Seq<InferNode>, levels: Seq<nat>, i: int, fuel: nat)
    requires
        parents_in_range(nodes),
        levels_valid(nodes, levels),
        0 <= i < nodes.len(),
        fuel >= nodes.len() - levels[i],
    ensures
        0 <= root_fuel(nodes, i, fuel) < nodes.len(),
        nodes[root_fuel(nodes, i, fuel)].parent == root_fuel(nodes, i, fuel),
        levels[root_fuel(nodes, i, fuel)] >= levels[i],
        root_fuel(nodes, i, fuel) != i ==> levels[root_fuel(nodes, i, fuel)] > levels[i],
        root_fuel(nodes, i, fuel) == spec_root(nodes, i),
    decreases nodes.len() - levels[i],
{
    assert(levels[i] < nodes.len());
    if nodes[i].parent != i {
        let p = nodes[i].parent as int;
        assert(levels[p] > levels[i]);
        lemma_root_fuel(nodes, levels, p, (fuel - 1) as nat);
        lemma_root_fuel(nodes, levels, p, (nodes.len() - 1) as nat);
    }
}

/// The representative of a node that is not one is its parent's.
pub proof fn lemma_root_step(nodes: Seq<InferNode>, levels: Seq<nat>, i: int)
    requires
        parents_in_range(nodes),
        levels_valid(nodes, levels),
        0 <= i < nodes.len(),
    ensures
        nodes[i].parent != i ==> spec_root(nodes, i) == spec_root(nodes, nodes[i].parent as int),
        nodes[i].parent == i ==> spec_root(nodes, i) == i,
        0 <= spec_root(nodes, i) < nodes.len(),
        nodes[spec_root(nodes, i)].parent == spec_root(nodes, i),
        levels[spec_root(nodes, i)] >= levels[i],
        spec_root(nodes, i) != i ==> levels[spec_root(nodes, i)] > levels[i],
{
    lemma_root_fuel(nodes, levels, i, nodes.len() as nat);
    if nodes[i].parent != i {
        let p = nodes[i].parent as int;
        lemma_root_fuel(nodes, levels, p, (nodes.len() - 1) as nat);
    }
}

/// Pointing a node at its representative keeps every representative.
pub proof fn lemma_compress(nodes: Seq<InferNode>, levels: Seq<nat>, id: int, j: int)
    requires
        parents_in_range(nodes),
        levels_valid(nodes, levels),
        0 <= id < nodes.len(),
        0 <= j < nodes.len(),
    ensures
        ({
            let updated = nodes.update(
                id,
                InferNode { parent: spec_root(nodes, id) as usize, ..nodes[id] },
            );
            &&& parents_in_range(updated)
            &&& levels_valid(updated, levels)
            &&& spec_root(updated, j) == spec_root(nodes, j)
        }),
    decreases nodes.len() - levels[j],
{
    let r = spec_root(nodes, id);
    let updated = nodes.update(id, InferNode { parent: r as usize, ..nodes[id] });
    lemma_root_step(nodes, levels, id);
    assert(parents_in_range(updated));
    assert(levels_valid(updated, levels)) by {
        assert forall|i: int|
            0 <= i < updated.len() && #[trigger] updated[i].parent != i implies levels[updated[i].parent as int]
            > levels[i] by {
            if i == id {
                assert(r != id);
            }
        }
    }
    lemma_root_step(nodes, levels, j);
    lemma_root_step(updated, levels, j);
    assert(levels[j] < nodes.len());
    if updated[j].parent != j {
        let p = updated[j].parent as int;
        assert(levels[p] > levels[j]);
        lemma_compress(nodes, levels, id, p);
        if j == id {
            lemma_root_step(nodes, levels, r);
        } else {
            assert(nodes[j].parent == updated[j].parent);
        }
    }
}

/// The levels after linking representative `c` under representative `r`.
pub open spec fn linked_levels(levels: Seq<nat>, c: int, r: int) -> Seq<nat> {
    levels.update(r, if levels[r] > levels[c] {
        levels[r]
    } else {
        levels[c] + 1
    })
}

/// Linking representative `c` under another representative `r` keeps a
/// forest, and gives every node of `c`'s tree the representative `r`.
pub proof fn lemma_link(nodes: Seq<InferNode>, linked: Seq<InferNode>, levels: Seq<nat>, c: int, r: int, i: int)
    requires
        parents_in_range(nodes),
        levels_tight(nodes, levels),
        0 <= c < nodes.len(),
        0 <= r < nodes.len(),
        c != r,
        nodes.len() <= usize::MAX,
        nodes[c].parent == c,
        nodes[r].parent == r,
        linked.len() == nodes.len(),
        linked[c].parent == r,
        forall|j: int| 0 <= j < nodes.len() && j != c ==> #[trigger] linked[j].parent == nodes[j].parent,
        0 <= i < nodes.len(),
    ensures
        parents_in_range(linked),
        levels_tight(linked, linked_levels(levels, c, r)),
        spec_root(linked, i) == if spec_root(nodes, i) == c {
            r
        } else {
            spec_root(nodes, i)
        },
    decreases nodes.len() - levels[i],
{
    let l2 = linked_levels(levels, c, r);
    let n = nodes.len() as int;
    assert(parents_in_range(linked)) by {
        assert forall|j: int| 0 <= j < n implies #[trigger] linked[j].parent < n by {
            if j != c {
                assert(linked[j].parent == nodes[j].parent);
            }
        }
    }
    assert(linked[c].parent != c as usize);
    assert(linked[r].parent == r as usize);
    assert forall|j: int| 0 <= j < n && j != c implies (#[trigger] nodes[j].parent == j as usize) == (
    linked[j].parent == j as usize) by {
        assert(linked[j].parent == nodes[j].parent);
    }
    lemma_count_link(nodes, linked, c, n);
    lemma_count_bound(linked, n, r);
    assert(levels_tight(linked, l2)) by {
        assert forall|j: int| 0 <= j < n implies #[trigger] l2[j] <= count_non_roots(linked, n) by {
            assert(levels[j] <= count_non_roots(nodes, n));
            assert(levels[c] <= count_non_roots(nodes, n));
        }
        assert forall|j: int| 0 <= j < n implies #[trigger] l2[j] < n by {
            assert(l2[j] <= count_non_roots(linked, n));
        }
        assert forall|j: int| 0 <= j < n && #[trigger] linked[j].parent != j implies l2[linked[j].parent as int]
            > l2[j] by {
            if j != c {
                assert(linked[j].parent == nodes[j].parent);
                assert(j != r);
                assert(levels[nodes[j].parent as int] > levels[j]);
            }
        }
    }
    lemma_root_step(nodes, levels, i);
    lemma_root_step(linked, l2, i);
    lemma_root_step(linked, l2, r);
    assert(levels[i] < n);
    if nodes[i].parent == i {
        if i != c {
            assert(linked[i].parent == nodes[i].parent);
        }
    } else {
        assert(i != c);
        assert(linked[i].parent == nodes[i].parent);
        let p = nodes[i].parent as int;
        assert(levels[p] > levels[i]);
        lemma_link(nodes, linked, levels, c, r, p);
    }
}

/// The equality graph of one function body: its nodes, and the terms of
/// known types, locals and expressions.
pub struct FunctionInference {
    pub nodes: Vec<InferNode>,
    pub concrete_terms: Table<Ty, InferId>,
    pub locals: Table<LocalId, InferId>,
    pub exprs: Table<u32, InferId>,
    /// How many unifications that collected constraints asked for were
    /// refused.
    pub refusals: Ghost<nat>,
    /// The binary operators applied to terms, in the order they were met.
    pub operators: Vec<OperatorObligation>,
}

/// A binary operator other than `and` and `or`.
#[derive(Clone, Copy, Debug, PartialEq, Eq, Structural)]
pub enum BinaryOperator {
    Add,
    Sub,
    Mul,
    Div,
    Rem,
    BitAnd,
    BitOr,
    BitXor,
    Shl,
    Shr,
    Lt,
    Le,
    Gt,
    Ge,
    Eq,
    Ne,
}

/// A binary operator applied to the terms of its operands, with the term
/// of its result; the result is settled once the operand types are known.
#[derive(Clone, Copy, Debug, PartialEq, Eq, Structural)]
pub struct OperatorObligation {
    pub op: BinaryOperator,
    pub lhs: InferId,
    pub rhs: InferId,
    pub output: InferId,
}

impl FunctionInference {
    /// The nodes form a forest whose shapes and tables name nodes.
    pub open spec fn wf(&self) -> bool {
        let n = self.nodes@.len();
        &&& is_forest(self.nodes@)
        &&& forall|i: int|
            0 <= i < n && (#[trigger] self.nodes@[i]).shape is Some ==> self.nodes@[i].shape.unwrap().parts_below(
                n,
            )
        &&& forall|t: Ty| #[trigger] self.concrete_terms.spec_get(t) is Some ==> self.concrete_terms.spec_get(t).unwrap() < n
        &&& forall|l: LocalId| #[trigger] self.locals.spec_get(l) is Some ==> self.locals.spec_get(l).unwrap() < n
        &&& forall|e: u32| #[trigger] self.exprs.spec_get(e) is Some ==> self.exprs.spec_get(e).unwrap() < n
        &&& forall|k: int|
            0 <= k < self.operators@.len() ==> (#[trigger] self.operators@[k]).lhs < n && self.operators@[k].rhs < n
                && self.operators@[k].output < n
    }

    /// The representative of term `id`.
    pub open spec fn spec_find(&self, id: InferId) -> InferId {
        spec_root(self.nodes@, id as int) as InferId
    }

    /// `self` has the nodes of `old` first, with their representatives, ranks
    /// and shapes unchanged.
    pub open spec fn extends(&self, old: &FunctionInference) -> bool {
        &&& old.nodes@.len() <= self.nodes@.len()
        &&& forall|j: int|
            0 <= j < old.nodes@.len() ==> #[trigger] spec_root(self.nodes@, j) == spec_root(old.nodes@, j)
        &&& forall|j: int|
            0 <= j < old.nodes@.len() ==> (#[trigger] self.nodes@[j]).shape == old.nodes@[j].shape
                && self.nodes@[j].rank == old.nodes@[j].rank
    }

    /// An empty graph.
    pub fn new() -> (r: FunctionInference)
        ensures
            r.wf(),
            r.nodes@.len() == 0,
    {
        let r = FunctionInference {
            nodes: Vec::new(),
            concrete_terms: Table::new(),
            locals: Table::new(),
            exprs: Table::new(),
            refusals: Ghost(0),
            operators: Vec::new(),
        };
        proof {
            assert(levels_tight(r.nodes@, Seq::<nat>::empty()));
        }
        r
    }

    /// The representative of `id`, pointing every node on the way at it.
    pub fn find(&mut self, id: InferId) -> (r: InferId)
        requires
            old(self).wf(),
            id < old(self).nodes@.len(),
        ensures
            final(self).wf(),
            r == old(self).spec_find(id),
            r < old(self).nodes@.len(),
            final(self).nodes@.len() == old(self).nodes@.len(),
            final(self).extends(old(self)),
            final(self).refines(old(self)),
            final(self).nodes@[r as int].parent == r,
            final(self).nodes@[id as int].parent == r,
            final(self).concrete_terms == old(self).concrete_terms,
            final(self).locals == old(self).locals,
            final(self).exprs == old(self).exprs,
        decreases old(self).nodes@.len() - forest_levels(old(self).nodes@)[id as int],
    {
        let ghost levels = forest_levels(self.nodes@);
        proof {
            lemma_root_step(self.nodes@, levels, id as int);
        }
        let parent = self.nodes[id].parent;
        if parent == id {
            return id;
        }
        proof {
            assert(levels[parent as int] > levels[id as int]);
        }
        let root = self.find(parent);
        let ghost mid = self.nodes@;
        proof {
            let l2 = forest_levels(mid);
            lemma_root_step(mid, l2, id as int);
            lemma_root_step(old(self).nodes@, levels, parent as int);
            assert(spec_root(mid, id as int) == root);
        }
        self.nodes[id].parent = root;
        proof {
            let l2 = forest_levels(mid);
            assert forall|j: int| 0 <= j < mid.len() implies #[trigger] spec_root(self.nodes@, j) == spec_root(
                old(self).nodes@,
                j,
            ) by {
                lemma_compress(mid, l2, id as int, j);
                assert(self.nodes@ =~= mid.update(
                    id as int,
                    InferNode { parent: spec_root(mid, id as int) as usize, ..mid[id as int] },
                ));
            }
            lemma_compress(mid, l2, id as int, id as int);
            assert(self.nodes@ =~= mid.update(
                id as int,
                InferNode { parent: spec_root(mid, id as int) as usize, ..mid[id as int] },
            ));
            assert(levels_valid(self.nodes@, l2));
            lemma_root_step(mid, l2, root as int);
            lemma_root_step(mid, l2, id as int);
            lemma_count_same(mid, self.nodes@, mid.len() as int);
            assert(levels_tight(self.nodes@, l2));
        }
        root
    }
}

/// A new representative after the nodes leaves every representative.
pub proof fn lemma_root_push(nodes: Seq<InferNode>, levels: Seq<nat>, x: InferNode, j: int)
    requires
        parents_in_range(nodes),
        levels_valid(nodes, levels),
        x.parent == nodes.len(),
        0 <= j < nodes.len(),
    ensures
        parents_in_range(nodes.push(x)),
        levels_valid(nodes.push(x), levels.push(0)),
        spec_root(nodes.push(x), j) == spec_root(nodes, j),
    decreases nodes.len() - levels[j],
{
    let pushed = nodes.push(x);
    let l2 = levels.push(0);
    assert(parents_in_range(pushed)) by {
        assert forall|i: int| 0 <= i < pushed.len() implies #[trigger] pushed[i].parent < pushed.len() by {
            if i < nodes.len() {
                assert(pushed[i] == nodes[i]);
            }
        }
    }
    assert(levels_valid(pushed, l2)) by {
        assert forall|i: int| 0 <= i < pushed.len() implies #[trigger] l2[i] < pushed.len() by {
            if i < nodes.len() {
                assert(l2[i] == levels[i]);
            }
        }
        assert forall|i: int|
            0 <= i < pushed.len() && #[trigger] pushed[i].parent != i implies l2[pushed[i].parent as int]
            > l2[i] by {
            assert(i < nodes.len());
            assert(pushed[i] == nodes[i]);
        }
    }
    lemma_root_step(nodes, levels, j);
    lemma_root_step(pushed, l2, j);
    assert(pushed[j] == nodes[j]);
    if nodes[j].parent != j {
        lemma_root_push(nodes, levels, x, nodes[j].parent as int);
    }
}

/// The term for each type of a list, in order.
pub open spec fn terms_for(table: Table<Ty, InferId>, tys: Seq<Ty>, ids: Seq<InferId>) -> bool {
    &&& ids.len() == tys.len()
    &&& forall|i: int| 0 <= i < ids.len() ==> #[trigger] table.spec_get(tys[i]) == Some(ids[i])
}

/// `c` is `ty` viewed through the terms of its parts: a tuple, pointer,
/// optional, error union or callable (a non-variadic function pointer, a
/// callable value or type, or a closure) exposes its parts as terms; any
/// other type stays known as it is.
pub open spec fn spec_expansion(table: Table<Ty, InferId>, ty: Ty, c: InferShape) -> bool {
    match ty {
        Ty::Tuple(elems) => c matches InferShape::Tuple(ids) && terms_for(table, elems.seq(), ids@),
        Ty::Pointer { is_readonly, elem } => c matches InferShape::Pointer { is_readonly: r, elem: e }
            && r == is_readonly && table.spec_get(*elem) == Some(e),
        Ty::Optional { elem } => c matches InferShape::Optional { elem: e } && table.spec_get(*elem)
            == Some(e),
        Ty::ErrorUnion { error, value } => c matches InferShape::ErrorUnion { error: e, value: v }
            && table.spec_get(*error) == Some(e) && table.spec_get(*value) == Some(v),
        Ty::FunctionPointer { params, return_type, is_variadic } => if is_variadic {
            c == InferShape::Known(ty)
        } else {
            c matches InferShape::Callable { params: ps, return_type: r } && terms_for(
                table,
                params.seq(),
                ps@,
            ) && table.spec_get(*return_type) == Some(r)
        },
        Ty::Callable { params, return_type, .. } => c matches InferShape::Callable {
            params: ps,
            return_type: r,
        } && terms_for(table, params.seq(), ps@) && table.spec_get(*return_type) == Some(r),
        Ty::CallablePointee { params, return_type } => c matches InferShape::Callable {
            params: ps,
            return_type: r,
        } && terms_for(table, params.seq(), ps@) && table.spec_get(*return_type) == Some(r),
        Ty::ClosureState { params, return_type, .. } => c matches InferShape::Callable {
            params: ps,
            return_type: r,
        } && terms_for(table, params.seq(), ps@) && table.spec_get(*return_type) == Some(r),
        _ => c == InferShape::Known(ty),
    }
}

impl FunctionInference {
    /// `self` is `old` with more nodes and more table entries: what `old`
    /// holds stays as it was.
    pub open spec fn grows_from(&self, old: &FunctionInference) -> bool {
        &&& self.wf()
        &&& self.extends(old)
        &&& self.refusals == old.refusals
        &&& self.operators == old.operators
        &&& forall|t: Ty| #[trigger]
            old.concrete_terms.spec_get(t) is Some ==> self.concrete_terms.spec_get(t) == old.concrete_terms.spec_get(t)
        &&& forall|l: LocalId| #[trigger] old.locals.spec_get(l) is Some ==> self.locals.spec_get(l) == old.locals.spec_get(l)
        &&& forall|e: u32| #[trigger] old.exprs.spec_get(e) is Some ==> self.exprs.spec_get(e) == old.exprs.spec_get(e)
        &&& forall|i: int|
            old.nodes@.len() <= i < self.nodes@.len() ==> (#[trigger] self.nodes@[i]).parent == i
    }

    /// `self` is `old` grown, where each type that got a term got a new
    /// representative that knows it.
    pub open spec fn refines(&self, old: &FunctionInference) -> bool {
        &&& self.grows_from(old)
        &&& forall|t: Ty| #[trigger]
            self.concrete_terms.spec_get(t) is Some && old.concrete_terms.spec_get(t) is None ==> {
                let id = self.concrete_terms.spec_get(t).unwrap();
                &&& old.nodes@.len() <= id < self.nodes@.len()
                &&& self.nodes@[id as int].shape == Some(InferShape::Known(t))
            }
    }

    /// A new term on its own, with nothing known of it.
    pub fn fresh(&mut self) -> (r: InferId)
        requires
            old(self).wf(),
        ensures
            final(self).wf(),
            r == old(self).nodes@.len(),
            final(self).nodes@ == old(self).nodes@.push(InferNode { parent: r, rank: 0, shape: None }),
            final(self).extends(old(self)),
            final(self).refusals == old(self).refusals,
            final(self).operators == old(self).operators,
            final(self).concrete_terms == old(self).concrete_terms,
            final(self).locals == old(self).locals,
            final(self).exprs == old(self).exprs,
    {
        let id = self.nodes.len();
        let ghost levels = forest_levels(self.nodes@);
        let node = InferNode { parent: id, rank: 0, shape: None };
        self.nodes.push(node);
        proof {
            let x = InferNode { parent: id, rank: 0, shape: None };
            assert forall|j: int| 0 <= j < old(self).nodes@.len() implies #[trigger] spec_root(self.nodes@, j)
                == spec_root(old(self).nodes@, j) by {
                lemma_root_push(old(self).nodes@, levels, x, j);
            }
            let n = old(self).nodes@.len() as int;
            lemma_count_same(old(self).nodes@, self.nodes@, n);
            assert(count_non_roots(self.nodes@, n + 1) == count_non_roots(old(self).nodes@, n));
            if old(self).nodes@.len() > 0 {
                lemma_root_push(old(self).nodes@, levels, x, 0);
                assert(levels_tight(self.nodes@, levels.push(0)));
            } else {
                assert(levels_tight(self.nodes@, seq![0nat]));
            }
            assert forall|i: int|
                0 <= i < self.nodes@.len() && (#[trigger] self.nodes@[i]).shape is Some implies self.nodes@[i].shape.unwrap().parts_below(
                self.nodes@.len() as nat,
            ) by {
                assert(i < old(self).nodes@.len());
                assert(self.nodes@[i] == old(self).nodes@[i]);
                let sh = old(self).nodes@[i].shape.unwrap();
                assert(sh.parts_below(old(self).nodes@.len() as nat));
            }
        }
        id
    }
}

impl FunctionInference {
    /// A new term on its own whose outer shape is `shape`.
    pub fn with_shape(&mut self, shape: InferShape) -> (r: InferId)
        requires
            old(self).wf(),
            shape.parts_below(old(self).nodes@.len() as nat),
        ensures
            final(self).wf(),
            r == old(self).nodes@.len(),
            final(self).nodes@ == old(self).nodes@.push(InferNode { parent: r, rank: 0, shape: Some(shape) }),
            final(self).extends(old(self)),
            final(self).refusals == old(self).refusals,
            final(self).operators == old(self).operators,
            final(self).concrete_terms == old(self).concrete_terms,
            final(self).locals == old(self).locals,
            final(self).exprs == old(self).exprs,
    {
        let id = self.fresh();
        let ghost mid = self.nodes@;
        self.nodes[id].shape = Some(shape);
        proof {
            let levels = forest_levels(mid);
            assert(levels_valid(self.nodes@, levels));
            lemma_count_same(mid, self.nodes@, mid.len() as int);
            assert(levels_tight(self.nodes@, levels));
            assert forall|j: int| 0 <= j < old(self).nodes@.len() implies #[trigger] spec_root(self.nodes@, j)
                == spec_root(old(self).nodes@, j) by {
                lemma_same_parents_same_root(mid, self.nodes@, levels, j);
                assert(spec_root(mid, j) == spec_root(old(self).nodes@, j));
            }
            assert forall|j: int| 0 <= j < old(self).nodes@.len() implies (#[trigger] self.nodes@[j]).shape
                == old(self).nodes@[j].shape && self.nodes@[j].rank == old(self).nodes@[j].rank by {
                assert(self.nodes@[j] == mid[j]);
            }
            assert forall|i: int|
                0 <= i < self.nodes@.len() && (#[trigger] self.nodes@[i]).shape is Some implies self.nodes@[i].shape.unwrap().parts_below(
                self.nodes@.len() as nat,
            ) by {
                if i < old(self).nodes@.len() {
                    assert(self.nodes@[i] == old(self).nodes@[i]);
                }
            }
        }
        id
    }

    /// The term of a known type, made the first time the type is asked for.
    pub fn known(&mut self, ty: &Ty) -> (r: InferId)
        requires
            old(self).wf(),
        ensures
            final(self).refines(old(self)),
            final(self).concrete_terms.spec_get(*ty) == Some(r),
            forall|t: Ty| t != *ty ==> #[trigger] final(self).concrete_terms.spec_get(t) == old(self).concrete_terms.spec_get(t),
            r < final(self).nodes@.len(),
            final(self).locals == old(self).locals,
            final(self).exprs == old(self).exprs,
            final(self).nodes@.len() <= old(self).nodes@.len() + 1,
            match old(self).concrete_terms.spec_get(*ty) {
                Some(id) => r == id && *final(self) == *old(self),
                None => r == old(self).nodes@.len() && final(self).nodes@ == old(self).nodes@.push(
                    InferNode { parent: r, rank: 0, shape: Some(InferShape::Known(*ty)) },
                ),
            },
    {
        if let Some(id) = self.concrete_terms.get(ty) {
            let id = *id;
            proof {
                assert(self.extends(old(self)));
            }
            return id;
        }
        let ghost n = self.nodes@.len();
        let id = self.with_shape(InferShape::Known(ty.deep_clone()));
        let ghost before = self.concrete_terms;
        self.concrete_terms.set(ty.deep_clone(), id);
        proof {
            assert forall|t: Ty| #[trigger]
                old(self).concrete_terms.spec_get(t) is Some implies self.concrete_terms.spec_get(t)
                == old(self).concrete_terms.spec_get(t) by {
                assert(t != *ty);
            }
            assert forall|t: Ty| #[trigger]
                self.concrete_terms.spec_get(t) is Some implies self.concrete_terms.spec_get(t).unwrap()
                < self.nodes@.len() by {
                if t != *ty {
                    assert(self.concrete_terms.spec_get(t) == before.spec_get(t));
                }
            }
            assert forall|t: Ty| t != *ty implies #[trigger] self.concrete_terms.spec_get(t)
                == old(self).concrete_terms.spec_get(t) by {
                assert(self.concrete_terms.spec_get(t) == before.spec_get(t));
            }
            assert(self.nodes@[n as int].shape == Some(InferShape::Known(*ty)));
        }
        id
    }

    /// The terms of the types of a list, in order.
    pub fn known_list(&mut self, tys: &TyList) -> (r: Vec<InferId>)
        requires
            old(self).wf(),
        ensures
            final(self).refines(old(self)),
            terms_for(final(self).concrete_terms, tys.seq(), r@),
            forall|i: int| 0 <= i < r@.len() ==> #[trigger] r@[i] < final(self).nodes@.len(),
            final(self).locals == old(self).locals,
            final(self).exprs == old(self).exprs,
            final(self).nodes@.len() <= old(self).nodes@.len() + tys.len(),
        decreases tys,
    {
        match tys {
            TyList::Nil => {
                let r: Vec<InferId> = Vec::new();
                proof {
                    assert(self.extends(old(self)));
                }
                r
            },
            TyList::Cons(head, tail) => {
                let first = self.known(head);
                let ghost mid = *self;
                let mut rest = self.known_list(tail);
                let ghost rest_view = rest@;
                proof {
                    lemma_refines_trans(old(self), &mid, self);
                    assert(self.concrete_terms.spec_get(**head) == Some(first));
                }
                let mut r: Vec<InferId> = Vec::new();
                r.push(first);
                r.append(&mut rest);
                proof {
                    assert forall|i: int| 0 <= i < r@.len() implies #[trigger] r@[i] < self.nodes@.len() by {
                        if i > 0 {
                            assert(r@[i] == rest_view[i - 1]) by {
                                assert(r@ =~= seq![first] + rest_view);
                            }
                        }
                    }
                    assert forall|i: int| 0 <= i < r@.len() implies #[trigger] self.concrete_terms.spec_get(
                        tys.seq()[i],
                    ) == Some(r@[i]) by {
                        if i > 0 {
                            assert(tys.seq()[i] == tail.seq()[i - 1]);
                        }
                    }
                }
                r
            },
        }
    }

    /// The term of a local, made the first time it is asked for.
    pub fn local_term(&mut self, local: LocalId) -> (r: InferId)
        requires
            old(self).wf(),
        ensures
            final(self).grows_from(old(self)),
            final(self).locals.spec_get(local) == Some(r),
            r < final(self).nodes@.len(),
            final(self).concrete_terms == old(self).concrete_terms,
            final(self).exprs == old(self).exprs,
            match old(self).locals.spec_get(local) {
                Some(id) => r == id && *final(self) == *old(self),
                None => r == old(self).nodes@.len() && final(self).nodes@ == old(self).nodes@.push(
                    InferNode { parent: r, rank: 0, shape: None },
                ),
            },
    {
        if let Some(id) = self.locals.get(&local) {
            let id = *id;
            proof {
                assert(self.extends(old(self)));
            }
            return id;
        }
        let id = self.fresh();
        let ghost before = self.locals;
        self.locals.set(local, id);
        proof {
            assert forall|l: LocalId| #[trigger]
                self.locals.spec_get(l) is Some implies self.locals.spec_get(l).unwrap() < self.nodes@.len() by {
                if l != local {
                    assert(self.locals.spec_get(l) == before.spec_get(l));
                }
            }
        }
        id
    }

    /// The term of an expression, made the first time it is asked for.
    pub fn expr_term(&mut self, expr: u32) -> (r: InferId)
        requires
            old(self).wf(),
        ensures
            final(self).grows_from(old(self)),
            final(self).exprs.spec_get(expr) == Some(r),
            r < final(self).nodes@.len(),
            final(self).concrete_terms == old(self).concrete_terms,
            final(self).locals == old(self).locals,
            match old(self).exprs.spec_get(expr) {
                Some(id) => r == id && *final(self) == *old(self),
                None => r == old(self).nodes@.len() && final(self).nodes@ == old(self).nodes@.push(
                    InferNode { parent: r, rank: 0, shape: None },
                ),
            },
    {
        if let Some(id) = self.exprs.get(&expr) {
            let id = *id;
            proof {
                assert(self.extends(old(self)));
            }
            return id;
        }
        let id = self.fresh();
        let ghost before = self.exprs;
        self.exprs.set(expr, id);
        proof {
            assert forall|e: u32| #[trigger]
                self.exprs.spec_get(e) is Some implies self.exprs.spec_get(e).unwrap() < self.nodes@.len() by {
                if e != expr {
                    assert(self.exprs.spec_get(e) == before.spec_get(e));
                }
            }
        }
        id
    }
}

/// Nodes with the same parents have the same representatives.
pub proof fn lemma_same_parents_same_root(a: Seq<InferNode>, b: Seq<InferNode>, levels: Seq<nat>, j: int)
    requires
        a.len() == b.len(),
        forall|i: int| 0 <= i < a.len() ==> #[trigger] a[i].parent == b[i].parent,
        parents_in_range(a),
        levels_valid(a, levels),
        0 <= j < a.len(),
    ensures
        root_fuel(b, j, b.len() as nat) == root_fuel(a, j, a.len() as nat),
    decreases a.len() - levels[j],
{
    assert(parents_in_range(b)) by {
        assert forall|i: int| 0 <= i < b.len() implies #[trigger] b[i].parent < b.len() by {
            assert(a[i].parent == b[i].parent);
        }
    }
    assert(levels_valid(b, levels)) by {
        assert forall|i: int| 0 <= i < b.len() && #[trigger] b[i].parent != i implies levels[b[i].parent as int]
            > levels[i] by {
            assert(a[i].parent == b[i].parent);
        }
    }
    lemma_root_step(a, levels, j);
    lemma_root_step(b, levels, j);
    assert(a[j].parent == b[j].parent);
    if a[j].parent != j {
        lemma_same_parents_same_root(a, b, levels, a[j].parent as int);
    }
}

/// Growing is transitive.
pub proof fn lemma_grows_trans(a: &FunctionInference, b: &FunctionInference, c: &FunctionInference)
    requires
        b.grows_from(a),
        c.grows_from(b),
    ensures
        c.grows_from(a),
{
    assert forall|i: int| a.nodes@.len() <= i < c.nodes@.len() implies (#[trigger] c.nodes@[i]).parent == i by {
        if i < b.nodes@.len() {
            let levels = forest_levels(b.nodes@);
            lemma_root_step(b.nodes@, levels, i);
            lemma_root_step(c.nodes@, forest_levels(c.nodes@), i);
            assert(spec_root(c.nodes@, i) == spec_root(b.nodes@, i));
            assert(b.nodes@[i].parent == i);
            assert(spec_root(b.nodes@, i) == i);
        }
    }
}

/// Whether two outer shapes may stand for the same type: an unknown shape
/// fits anything; two known types must be equal unless one is the error
/// type; structures must agree in kind, arity and (for pointers)
/// mutability.
pub open spec fn spec_shapes_compatible(left: Option<InferShape>, right: Option<InferShape>) -> bool {
    match (left, right) {
        (None, _) => true,
        (_, None) => true,
        (Some(InferShape::Known(a)), Some(InferShape::Known(b))) => a == b || a is Error || b is Error,
        (Some(InferShape::Tuple(a)), Some(InferShape::Tuple(b))) => a@.len() == b@.len(),
        (
            Some(InferShape::Pointer { is_readonly: a, .. }),
            Some(InferShape::Pointer { is_readonly: b, .. }),
        ) => a == b,
        (Some(InferShape::Optional { .. }), Some(InferShape::Optional { .. })) => true,
        (Some(InferShape::ErrorUnion { .. }), Some(InferShape::ErrorUnion { .. })) => true,
        (
            Some(InferShape::Callable { params: a, .. }),
            Some(InferShape::Callable { params: b, .. }),
        ) => a@.len() == b@.len(),
        _ => false,
    }
}

impl FunctionInference {
    /// Whether the outer shapes of two terms may be unified.
    pub fn shapes_compatible(&self, left: Option<&InferShape>, right: Option<&InferShape>) -> (r: bool)
        ensures
            r == spec_shapes_compatible(
                match left {
                    Some(l) => Some(*l),
                    None => None,
                },
                match right {
                    Some(x) => Some(*x),
                    None => None,
                },
            ),
    {
        match (left, right) {
            (None, _) => true,
            (_, None) => true,
            (Some(InferShape::Known(a)), Some(InferShape::Known(b))) => ty_eq(a, b) || matches!(a, Ty::Error)
                || matches!(b, Ty::Error),
            (Some(InferShape::Tuple(a)), Some(InferShape::Tuple(b))) => a.len() == b.len(),
            (
                Some(InferShape::Pointer { is_readonly: a, .. }),
                Some(InferShape::Pointer { is_readonly: b, .. }),
            ) => *a == *b,
            (Some(InferShape::Optional { .. }), Some(InferShape::Optional { .. })) => true,
            (Some(InferShape::ErrorUnion { .. }), Some(InferShape::ErrorUnion { .. })) => true,
            (
                Some(InferShape::Callable { params: a, .. }),
                Some(InferShape::Callable { params: b, .. }),
            ) => a.len() == b.len(),
            _ => false,
        }
    }

    /// A known type viewed through the terms of its parts.
    fn expand_known(&mut self, ty: &Ty) -> (r: InferShape)
        requires
            old(self).wf(),
        ensures
            final(self).refines(old(self)),
            spec_expansion(final(self).concrete_terms, *ty, r),
            r.parts_below(final(self).nodes@.len() as nat),
            final(self).locals == old(self).locals,
            final(self).exprs == old(self).exprs,
    {
        let r = match ty {
            Ty::Tuple(elems) => InferShape::Tuple(self.known_list(elems)),
            Ty::Pointer { is_readonly, elem } => {
                let e = self.known(elem);
                InferShape::Pointer { is_readonly: *is_readonly, elem: e }
            },
            Ty::Optional { elem } => {
                let e = self.known(elem);
                InferShape::Optional { elem: e }
            },
            Ty::ErrorUnion { error, value } => {
                let e = self.known(error);
                let ghost mid = *self;
                let v = self.known(value);
                proof {
                    lemma_refines_trans(old(self), &mid, self);
                }
                InferShape::ErrorUnion { error: e, value: v }
            },
            Ty::FunctionPointer { params, return_type, is_variadic } => {
                if *is_variadic {
                    proof {
                        assert(self.extends(old(self)));
                    }
                    InferShape::Known(ty.deep_clone())
                } else {
                    self.expand_callable(params, return_type)
                }
            },
            Ty::Callable { params, return_type, .. } => self.expand_callable(params, return_type),
            Ty::CallablePointee { params, return_type } => self.expand_callable(params, return_type),
            Ty::ClosureState { params, return_type, .. } => self.expand_callable(params, return_type),
            _ => {
                proof {
                    assert(self.extends(old(self)));
                }
                InferShape::Known(ty.deep_clone())
            },
        };
        r
    }

    /// A callable viewed through the terms of its parameters and result.
    fn expand_callable(&mut self, params: &TyList, return_type: &Ty) -> (r: InferShape)
        requires
            old(self).wf(),
        ensures
            final(self).refines(old(self)),
            r matches InferShape::Callable { params: ps, return_type: ret } && terms_for(
                final(self).concrete_terms,
                params.seq(),
                ps@,
            ) && final(self).concrete_terms.spec_get(*return_type) == Some(ret),
            r.parts_below(final(self).nodes@.len() as nat),
            final(self).locals == old(self).locals,
            final(self).exprs == old(self).exprs,
    {
        let ps = self.known_list(params);
        let ghost mid = *self;
        let ret = self.known(return_type);
        proof {
            assert forall|i: int| 0 <= i < ps@.len() implies #[trigger] ps@[i] < self.nodes@.len() by {
                assert(ps@[i] < mid.nodes@.len());
            }
            lemma_refines_trans(old(self), &mid, self);
            assert forall|i: int| 0 <= i < ps@.len() implies #[trigger] self.concrete_terms.spec_get(
                params.seq()[i],
            ) == Some(ps@[i]) by {
                assert(mid.concrete_terms.spec_get(params.seq()[i]) == Some(ps@[i]));
            }
        }
        InferShape::Callable { params: ps, return_type: ret }
    }

    /// The outer shape of a term's representative, with a known tuple,
    /// pointer, optional, error union or callable type viewed through the
    /// terms of its parts; nothing when the representative has no shape.
    pub fn expanded_shape(&mut self, id: InferId) -> (r: Option<InferShape>)
        requires
            old(self).wf(),
            id < old(self).nodes@.len(),
        ensures
            final(self).refines(old(self)),
            final(self).locals == old(self).locals,
            final(self).exprs == old(self).exprs,
            r is Some ==> r.unwrap().parts_below(final(self).nodes@.len() as nat),
            match old(self).nodes@[old(self).spec_find(id) as int].shape {
                None => r is None,
                Some(InferShape::Known(ty)) => r is Some && spec_expansion(
                    final(self).concrete_terms,
                    ty,
                    r.unwrap(),
                ),
                Some(shape) => r is Some && r.unwrap().same(shape),
            },
    {
        let root = self.find(id);
        let ghost after_find = *self;
        proof {
            assert(self.refines(old(self)));
        }
        proof {
            assert(root < self.nodes@.len());
        }
        let shape = match &self.nodes[root].shape {
            Some(s) => s.duplicate(),
            None => {
                return None;
            },
        };
        match shape {
            InferShape::Known(ty) => {
                let expanded = self.expand_known(&ty);
                proof {
                    lemma_refines_trans(old(self), &after_find, self);
                }
                Some(expanded)
            },
            other => {
                proof {
                    let sh = old(self).nodes@[root as int].shape.unwrap();
                    assert(sh.parts_below(old(self).nodes@.len() as nat));
                }
                Some(other)
            },
        }
    }
}

/// Refining is transitive.
pub proof fn lemma_refines_trans(a: &FunctionInference, b: &FunctionInference, c: &FunctionInference)
    requires
        b.refines(a),
        c.refines(b),
    ensures
        c.refines(a),
{
    lemma_grows_trans(a, b, c);
    assert forall|t: Ty| #[trigger]
        c.concrete_terms.spec_get(t) is Some && a.concrete_terms.spec_get(t) is None implies {
        let id = c.concrete_terms.spec_get(t).unwrap();
        &&& a.nodes@.len() <= id < c.nodes@.len()
        &&& c.nodes@[id as int].shape == Some(InferShape::Known(t))
    } by {
        if b.concrete_terms.spec_get(t) is Some {
            let id = b.concrete_terms.spec_get(t).unwrap();
            assert(c.concrete_terms.spec_get(t) == b.concrete_terms.spec_get(t));
            assert(c.nodes@[id as int].shape == b.nodes@[id as int].shape);
        }
    }
}

} // verus!
