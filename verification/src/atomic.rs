use vstd::prelude::*;
use crate::checker::{BodyChecker, Diagnostic};
use crate::expressions::{ExprId, Exprs};
use crate::ids::Span;

verus! {

/// An atomic memory ordering accepted by the atomic builtins.
#[derive(Clone, Copy, Debug, PartialEq, Eq, Structural)]
pub enum CheckedAtomicOrder {
    Unordered,
    Monotonic,
    Acquire,
    Release,
    AcqRel,
    SeqCst,
}

/// A read-modify-write operation of the atomic RMW builtin.
#[derive(Clone, Copy, Debug, PartialEq, Eq, Structural)]
pub enum CheckedAtomicRmwOp {
    Xchg,
    Add,
    Sub,
    And,
    Nand,
    Or,
    Xor,
    Max,
    Min,
    UMax,
    UMin,
}

/// The place where an atomic ordering is written.
#[derive(Clone, Copy, Debug, PartialEq, Eq, Structural)]
pub enum AtomicOrderContext {
    Load,
    Store,
    Rmw,
    CmpxchgSuccess,
    CmpxchgFailure,
    Fence,
}

/// Whether `order` may be written in `context`.
pub open spec fn spec_allows(context: AtomicOrderContext, order: CheckedAtomicOrder) -> bool {
    match context {
        AtomicOrderContext::Load => order is Unordered || order is Monotonic || order is Acquire
            || order is SeqCst,
        AtomicOrderContext::Store => order is Unordered || order is Monotonic || order is Release
            || order is SeqCst,
        AtomicOrderContext::Rmw | AtomicOrderContext::CmpxchgSuccess => !(order is Unordered),
        AtomicOrderContext::CmpxchgFailure => order is Monotonic || order is Acquire
            || order is SeqCst,
        AtomicOrderContext::Fence => order is Acquire || order is Release || order is AcqRel
            || order is SeqCst,
    }
}

/// The strength rank of an ordering; Acquire and Release share a rank.
pub open spec fn spec_strength(order: CheckedAtomicOrder) -> u8 {
    match order {
        CheckedAtomicOrder::Unordered => 0,
        CheckedAtomicOrder::Monotonic => 1,
        CheckedAtomicOrder::Acquire | CheckedAtomicOrder::Release => 2,
        CheckedAtomicOrder::AcqRel => 3,
        CheckedAtomicOrder::SeqCst => 4,
    }
}

impl AtomicOrderContext {
    /// The phrase that names this context in diagnostics.
    pub fn name(self) -> (r: &'static str)
        ensures
            r@ == match self {
                AtomicOrderContext::Load => "atomic load"@,
                AtomicOrderContext::Store => "atomic store"@,
                AtomicOrderContext::Rmw => "atomic read-modify-write"@,
                AtomicOrderContext::CmpxchgSuccess => "cmpxchg success"@,
                AtomicOrderContext::CmpxchgFailure => "cmpxchg failure"@,
                AtomicOrderContext::Fence => "atomic fence"@,
            },
    {
        match self {
            AtomicOrderContext::Load => "atomic load",
            AtomicOrderContext::Store => "atomic store",
            AtomicOrderContext::Rmw => "atomic read-modify-write",
            AtomicOrderContext::CmpxchgSuccess => "cmpxchg success",
            AtomicOrderContext::CmpxchgFailure => "cmpxchg failure",
            AtomicOrderContext::Fence => "atomic fence",
        }
    }

    /// Whether `order` is a valid ordering in this context.
    pub fn allows(self, order: CheckedAtomicOrder) -> (r: bool)
        ensures
            r == spec_allows(self, order),
    {
        match self {
            AtomicOrderContext::Load => matches!(
                order,
                CheckedAtomicOrder::Unordered | CheckedAtomicOrder::Monotonic
                    | CheckedAtomicOrder::Acquire | CheckedAtomicOrder::SeqCst
            ),
            AtomicOrderContext::Store => matches!(
                order,
                CheckedAtomicOrder::Unordered | CheckedAtomicOrder::Monotonic
                    | CheckedAtomicOrder::Release | CheckedAtomicOrder::SeqCst
            ),
            AtomicOrderContext::Rmw | AtomicOrderContext::CmpxchgSuccess => matches!(
                order,
                CheckedAtomicOrder::Monotonic | CheckedAtomicOrder::Acquire
                    | CheckedAtomicOrder::Release | CheckedAtomicOrder::AcqRel
                    | CheckedAtomicOrder::SeqCst
            ),
            AtomicOrderContext::CmpxchgFailure => matches!(
                order,
                CheckedAtomicOrder::Monotonic | CheckedAtomicOrder::Acquire
                    | CheckedAtomicOrder::SeqCst
            ),
            AtomicOrderContext::Fence => matches!(
                order,
                CheckedAtomicOrder::Acquire | CheckedAtomicOrder::Release
                    | CheckedAtomicOrder::AcqRel | CheckedAtomicOrder::SeqCst
            ),
        }
    }
}

impl CheckedAtomicOrder {
    /// The ordering's name as written in diagnostics.
    pub fn name(self) -> (r: &'static str)
        ensures
            r@ == match self {
                CheckedAtomicOrder::Unordered => "Unordered"@,
                CheckedAtomicOrder::Monotonic => "Monotonic"@,
                CheckedAtomicOrder::Acquire => "Acquire"@,
                CheckedAtomicOrder::Release => "Release"@,
                CheckedAtomicOrder::AcqRel => "AcqRel"@,
                CheckedAtomicOrder::SeqCst => "SeqCst"@,
            },
    {
        match self {
            CheckedAtomicOrder::Unordered => "Unordered",
            CheckedAtomicOrder::Monotonic => "Monotonic",
            CheckedAtomicOrder::Acquire => "Acquire",
            CheckedAtomicOrder::Release => "Release",
            CheckedAtomicOrder::AcqRel => "AcqRel",
            CheckedAtomicOrder::SeqCst => "SeqCst",
        }
    }

    /// The strength rank used to compare cmpxchg success and failure orderings.
    pub fn strength(self) -> (r: u8)
        ensures
            r == spec_strength(self),
    {
        match self {
            CheckedAtomicOrder::Unordered => 0,
            CheckedAtomicOrder::Monotonic => 1,
            CheckedAtomicOrder::Acquire | CheckedAtomicOrder::Release => 2,
            CheckedAtomicOrder::AcqRel => 3,
            CheckedAtomicOrder::SeqCst => 4,
        }
    }

    /// The ordering written as the constant `value`, if `value` names one.
    pub fn from_value(value: i128) -> (r: Option<CheckedAtomicOrder>)
        ensures
            r == spec_order_from_value(value),
    {
        match value {
            0 => Some(CheckedAtomicOrder::Unordered),
            1 => Some(CheckedAtomicOrder::Monotonic),
            2 => Some(CheckedAtomicOrder::Acquire),
            3 => Some(CheckedAtomicOrder::Release),
            4 => Some(CheckedAtomicOrder::AcqRel),
            5 => Some(CheckedAtomicOrder::SeqCst),
            _ => None,
        }
    }
}

/// The ordering that the integer constant `value` encodes.
pub open spec fn spec_order_from_value(value: i128) -> Option<CheckedAtomicOrder> {
    if value == 0 {
        Some(CheckedAtomicOrder::Unordered)
    } else if value == 1 {
        Some(CheckedAtomicOrder::Monotonic)
    } else if value == 2 {
        Some(CheckedAtomicOrder::Acquire)
    } else if value == 3 {
        Some(CheckedAtomicOrder::Release)
    } else if value == 4 {
        Some(CheckedAtomicOrder::AcqRel)
    } else if value == 5 {
        Some(CheckedAtomicOrder::SeqCst)
    } else {
        None
    }
}

impl CheckedAtomicRmwOp {
    /// The operation's name as written in diagnostics.
    pub fn name(self) -> (r: &'static str)
        ensures
            r@ == match self {
                CheckedAtomicRmwOp::Xchg => "Xchg"@,
                CheckedAtomicRmwOp::Add => "Add"@,
                CheckedAtomicRmwOp::Sub => "Sub"@,
                CheckedAtomicRmwOp::And => "And"@,
                CheckedAtomicRmwOp::Nand => "Nand"@,
                CheckedAtomicRmwOp::Or => "Or"@,
                CheckedAtomicRmwOp::Xor => "Xor"@,
                CheckedAtomicRmwOp::Max => "Max"@,
                CheckedAtomicRmwOp::Min => "Min"@,
                CheckedAtomicRmwOp::UMax => "UMax"@,
                CheckedAtomicRmwOp::UMin => "UMin"@,
            },
    {
        match self {
            CheckedAtomicRmwOp::Xchg => "Xchg",
            CheckedAtomicRmwOp::Add => "Add",
            CheckedAtomicRmwOp::Sub => "Sub",
            CheckedAtomicRmwOp::And => "And",
            CheckedAtomicRmwOp::Nand => "Nand",
            CheckedAtomicRmwOp::Or => "Or",
            CheckedAtomicRmwOp::Xor => "Xor",
            CheckedAtomicRmwOp::Max => "Max",
            CheckedAtomicRmwOp::Min => "Min",
            CheckedAtomicRmwOp::UMax => "UMax",
            CheckedAtomicRmwOp::UMin => "UMin",
        }
    }

    /// Every operation but `Xchg` needs an integer-like value type.
    pub fn requires_integer_like(self) -> (r: bool)
        ensures
            r == !(self is Xchg),
    {
        !matches!(self, CheckedAtomicRmwOp::Xchg)
    }
}

/// Whether a cmpxchg with these orderings is refused: the failure ordering may
/// not be stronger than the success ordering.
pub fn cmpxchg_failure_too_strong(success: CheckedAtomicOrder, failure: CheckedAtomicOrder) -> (r: bool)
    ensures
        r == (spec_strength(failure) > spec_strength(success)),
{
    failure.strength() > success.strength()
}

/// Every ordering valid for a cmpxchg failure is also valid for its success.
pub proof fn lemma_failure_orders_are_success_orders(order: CheckedAtomicOrder)
    requires
        spec_allows(AtomicOrderContext::CmpxchgFailure, order),
    ensures
        spec_allows(AtomicOrderContext::CmpxchgSuccess, order),
{
}

/// An ordering with acquire semantics: acquire, acquire-release and
/// sequentially consistent.
pub open spec fn spec_acquires(order: CheckedAtomicOrder) -> bool {
    order is Acquire || order is AcqRel || order is SeqCst
}

/// An ordering with release semantics: release, acquire-release and
/// sequentially consistent.
pub open spec fn spec_releases(order: CheckedAtomicOrder) -> bool {
    order is Release || order is AcqRel || order is SeqCst
}

/// An ordering with acquire and release exchanged.
pub open spec fn spec_mirror(order: CheckedAtomicOrder) -> CheckedAtomicOrder {
    match order {
        CheckedAtomicOrder::Acquire => CheckedAtomicOrder::Release,
        CheckedAtomicOrder::Release => CheckedAtomicOrder::Acquire,
        o => o,
    }
}

/// A store may not acquire and a load may not release, unless the ordering
/// is sequentially consistent; every other ordering is allowed on both. In
/// particular neither `Acquire` nor `AcqRel` is allowed on a store, and
/// neither `Release` nor `AcqRel` on a load.
pub proof fn lemma_store_and_load_orders(order: CheckedAtomicOrder)
    ensures
        spec_allows(AtomicOrderContext::Store, order) <==> (order is SeqCst || !spec_acquires(order)),
        spec_allows(AtomicOrderContext::Load, order) <==> (order is SeqCst || !spec_releases(order)),
        !spec_allows(AtomicOrderContext::Store, CheckedAtomicOrder::AcqRel),
        !spec_allows(AtomicOrderContext::Load, CheckedAtomicOrder::AcqRel),
{
}

/// Loads and stores are mirror images: a load allows an ordering exactly
/// when a store allows it with acquire and release exchanged.
pub proof fn lemma_load_mirrors_store(order: CheckedAtomicOrder)
    ensures
        spec_allows(AtomicOrderContext::Load, order) == spec_allows(AtomicOrderContext::Store, spec_mirror(order)),
{
}

/// An ordering argument accepted for a store never acquires unless it is
/// sequentially consistent; the integers naming `Acquire` and `AcqRel` are
/// refused for a store.
pub proof fn lemma_store_argument_never_acquires(value: i128)
    ensures
        spec_atomic_order_arg(AtomicOrderContext::Store, Some(value)) matches Some(o) ==> (o is SeqCst
            || !spec_acquires(o)),
        spec_order_from_value(value) matches Some(o) && (o is Acquire || o is AcqRel) ==> spec_atomic_order_arg(
            AtomicOrderContext::Store,
            Some(value),
        ) is None,
{
}

/// A fence needs at least acquire or release semantics.
pub proof fn lemma_fence_orders_are_strong(order: CheckedAtomicOrder)
    requires
        spec_allows(AtomicOrderContext::Fence, order),
    ensures
        spec_strength(order) >= 2,
{
}


/// The ordering an atomic ordering argument gives in `context`, from the
/// compile-time integer it evaluates to, if it evaluates to one.
pub open spec fn spec_atomic_order_arg(context: AtomicOrderContext, value: Option<i128>) -> Option<CheckedAtomicOrder> {
    match value {
        Some(v) => match spec_order_from_value(v) {
            Some(o) => if spec_allows(context, o) {
                Some(o)
            } else {
                None
            },
            None => None,
        },
        None => None,
    }
}

/// What an atomic ordering argument reports: a value that is no
/// compile-time integer, an integer that names no ordering, or an ordering
/// not allowed in `context`.
pub open spec fn spec_atomic_order_report(span: Span, context: AtomicOrderContext, value: Option<i128>) -> Seq<Diagnostic> {
    match value {
        Some(v) => match spec_order_from_value(v) {
            Some(o) => if spec_allows(context, o) {
                Seq::empty()
            } else {
                seq![Diagnostic::AtomicOrderNotAllowed { span, order: o, context }]
            },
            None => seq![Diagnostic::InvalidAtomicOrder { span, value: v }],
        },
        None => seq![Diagnostic::AtomicOrderNotConstant { span }],
    }
}

impl BodyChecker {
    /// Checks the atomic ordering argument `expr` of a builtin written in
    /// `context`: the argument is checked as an expression, then its
    /// compile-time integer value (`value`, from the constant evaluator;
    /// `None` where it is no integer constant) must name an ordering that
    /// `context` allows. Returns that ordering, or reports why there is
    /// none.
    pub fn check_atomic_order_arg(
        &mut self,
        body: &Exprs,
        expr: ExprId,
        context: AtomicOrderContext,
        value: Option<i128>,
    ) -> (r: Option<CheckedAtomicOrder>)
        requires
            body.wf(),
            expr < body.exprs@.len(),
        ensures
            r == spec_atomic_order_arg(context, value),
            ({
                let s = old(self).spec_check(*body, expr as int, None);
                final(self).spec_after(
                    old(self),
                    s.1 + spec_atomic_order_report(body.exprs@[expr as int].span, context, value),
                    s.2,
                )
            }),
    {
        self.check_expr(body, expr);
        let ghost mid = *self;
        let span = body.exprs[expr].span;
        let r = match value {
            Some(v) => match CheckedAtomicOrder::from_value(v) {
                Some(o) => if context.allows(o) {
                    Some(o)
                } else {
                    self.diagnostics.push(Diagnostic::AtomicOrderNotAllowed { span, order: o, context });
                    None
                },
                None => {
                    self.diagnostics.push(Diagnostic::InvalidAtomicOrder { span, value: v });
                    None
                },
            },
            None => {
                self.diagnostics.push(Diagnostic::AtomicOrderNotConstant { span });
                None
            },
        };
        proof {
            let s = old(self).spec_check(*body, expr as int, None);
            let d = spec_atomic_order_report(span, context, value);
            assert(self.diagnostics@ =~= mid.diagnostics@ + d);
            assert(self.diagnostics@ =~= old(self).diagnostics@ + (s.1 + d));
        }
        r
    }

    /// Reports a cmpxchg whose failure ordering is stronger than its success
    /// ordering.
    pub fn check_cmpxchg_order_pair(&mut self, span: Span, success: CheckedAtomicOrder, failure: CheckedAtomicOrder)
        ensures
            final(self).same_except_diagnostics(old(self)),
            final(self).diagnostics@ == if spec_strength(failure) > spec_strength(success) {
                old(self).diagnostics@.push(Diagnostic::CmpxchgFailureTooStrong { span })
            } else {
                old(self).diagnostics@
            },
    {
        if failure.strength() > success.strength() {
            self.diagnostics.push(Diagnostic::CmpxchgFailureTooStrong { span });
        }
    }
}

} // verus!
