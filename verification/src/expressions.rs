//! The expressions of a body and the type each is given: literals, names,
//! address-of and dereference, the builtin unary operators, optional and
//! error-union constructors, propagation with `.?`, assignment and casts.
//! Each checked expression's type is recorded under its node key; what is
//! wrong is reported. This module holds the model and the specification;
//! `expression_check` the checker.
use vstd::prelude::*;
use crate::checker::{BodyChecker, Diagnostic};
use crate::expected_types::{spec_expected_ref_target, UnaryOpKind};
use crate::ids::{LocalId, Span};
use crate::projections::{spec_is_integer, spec_is_numeric};
use crate::ty::{BuiltinTrait, ConstArgList, PrimitiveTy, TraitId, Ty, TyList};

verus! {

/// The suffix of a numeric literal: none, one naming a primitive type the
/// literal may have, or one that names no such type.
#[derive(Clone, Copy, Debug, PartialEq, Eq, Structural)]
pub enum NumericSuffix {
    Plain,
    Typed(PrimitiveTy),
    Invalid,
}

/// An expression of a body: an index into the body's expressions.
pub type ExprId = usize;

/// A builtin unary operator: negation, logical not and bitwise not.
#[derive(Clone, Copy, Debug, PartialEq, Eq, Structural)]
pub enum UnaryOp {
    Neg,
    Not,
    BitNot,
}

/// The kinds of expression, with the ids of their sub-expressions. A
/// `LocalName` names a local; a `Value` is a name that resolves to a module
/// value with the given type; an `UnresolvedName` resolves to nothing.
#[derive(Debug)]
pub enum ExprKind {
    Error,
    Raw,
    Underscore,
    PathRoot,
    TypeTarget,
    TraitTarget,
    Integer { value: u128, suffix: NumericSuffix },
    Float(NumericSuffix),
    Char,
    ByteChar,
    Bool,
    Null,
    LocalName(LocalId),
    Value(Ty),
    UnresolvedName,
    Ref { is_readonly: bool, inner: ExprId },
    Deref(ExprId),
    Unary { op: UnaryOp, inner: ExprId },
    OptionalSome(ExprId),
    ErrorOk(ExprId),
    ErrorErr(ExprId),
    Try(ExprId),
    Assign { lhs: ExprId, rhs: ExprId, is_plain: bool },
    Cast { inner: ExprId, target: Ty },
    If { cond: ExprId, then_branch: ExprId, else_branch: Option<ExprId> },
}

/// An expression: the key of its syntax node, its span, its kind, and the
/// runtime type the compile-time evaluation of it gives when a type is
/// expected of it, if it gives one.
#[derive(Debug)]
pub struct Expr {
    pub node_key: u32,
    pub span: Span,
    pub kind: ExprKind,
    pub projection: Option<Ty>,
}

/// The expressions of a body, each after its sub-expressions.
pub struct Exprs {
    pub exprs: Vec<Expr>,
}

/// The sub-expressions of an expression.
pub open spec fn spec_children(kind: ExprKind) -> Seq<ExprId> {
    match kind {
        ExprKind::Ref { inner, .. } | ExprKind::Deref(inner) | ExprKind::Unary { inner, .. }
        | ExprKind::OptionalSome(inner) | ExprKind::ErrorOk(inner) | ExprKind::ErrorErr(inner)
        | ExprKind::Try(inner) | ExprKind::Cast { inner, .. } => seq![inner],
        ExprKind::Assign { lhs, rhs, .. } => seq![lhs, rhs],
        ExprKind::If { cond, then_branch, else_branch } => match else_branch {
            Some(x) => seq![cond, then_branch, x],
            None => seq![cond, then_branch],
        },
        _ => Seq::empty(),
    }
}

impl Exprs {
    /// Every sub-expression comes before its expression.
    pub open spec fn wf(&self) -> bool {
        forall|i: int, k: int|
            0 <= i < self.exprs@.len() && 0 <= k < spec_children(self.exprs@[i].kind).len()
                ==> #[trigger] spec_children(self.exprs@[i].kind)[k] < i
    }
}

/// The largest value an integer type holds (`isize` and `usize` taken at
/// 64 bits).
pub open spec fn spec_integer_max(p: PrimitiveTy) -> u128 {
    match p {
        PrimitiveTy::I8 => 0x7f,
        PrimitiveTy::I16 => 0x7fff,
        PrimitiveTy::I32 => 0x7fff_ffff,
        PrimitiveTy::I64 | PrimitiveTy::Isize => 0x7fff_ffff_ffff_ffff,
        PrimitiveTy::I128 => 0x7fff_ffff_ffff_ffff_ffff_ffff_ffff_ffff,
        PrimitiveTy::U8 => 0xff,
        PrimitiveTy::U16 => 0xffff,
        PrimitiveTy::U32 => 0xffff_ffff,
        PrimitiveTy::U64 | PrimitiveTy::Usize => 0xffff_ffff_ffff_ffff,
        _ => 0xffff_ffff_ffff_ffff_ffff_ffff_ffff_ffff,
    }
}

/// Whether an expected type may give the expression a compile-time value's
/// runtime type: literals, names, `_`, erroneous and raw expressions and
/// type or trait targets.
pub open spec fn spec_allows_const_projection(kind: ExprKind) -> bool {
    match kind {
        ExprKind::Error | ExprKind::Raw | ExprKind::Underscore | ExprKind::TypeTarget | ExprKind::TraitTarget
        | ExprKind::Integer { .. } | ExprKind::Float(_) | ExprKind::Char | ExprKind::ByteChar | ExprKind::Bool
        | ExprKind::Null | ExprKind::LocalName(_) | ExprKind::Value(_) | ExprKind::UnresolvedName => true,
        _ => false,
    }
}

/// `s` followed by the diagnostic `d`, if there is one.
pub open spec fn spec_with_diagnostic(s: Seq<Diagnostic>, d: Option<Diagnostic>) -> Seq<Diagnostic> {
    match d {
        Some(x) => s.push(x),
        None => s,
    }
}

/// The type and the problem of an expression that needs no
/// sub-expression: erroneous, raw, `_`, path roots and type or trait
/// targets have the error type; an integer is `i32` without suffix and a
/// float `f64`, a typed suffix gives its type (an integer too large for it
/// is reported) and an invalid one the error type; characters are `char`,
/// byte characters `u8`, booleans `bool`; `null` takes the expected type
/// when that is optional; a local has the type known for it; a module
/// value its type; an unresolved name the error type.
pub open spec fn spec_leaf(
    checker: BodyChecker,
    kind: ExprKind,
    span: Span,
    expected: Option<Ty>,
) -> (Ty, Option<Diagnostic>) {
    match kind {
        ExprKind::Integer { suffix: NumericSuffix::Plain, .. } => (Ty::Primitive(PrimitiveTy::I32), None),
        ExprKind::Float(NumericSuffix::Plain) => (Ty::Primitive(PrimitiveTy::Float64), None),
        ExprKind::Integer { value, suffix: NumericSuffix::Typed(p) } => (
            Ty::Primitive(p),
            if spec_is_integer(p) && value > spec_integer_max(p) {
                Some(Diagnostic::IntegerLiteralOutOfRange { span, ty: p })
            } else {
                None
            },
        ),
        ExprKind::Float(NumericSuffix::Typed(p)) => (Ty::Primitive(p), None),
        ExprKind::Integer { suffix: NumericSuffix::Invalid, .. } => (
            Ty::Error,
            Some(Diagnostic::InvalidIntegerSuffix { span }),
        ),
        ExprKind::Float(NumericSuffix::Invalid) => (Ty::Error, Some(Diagnostic::InvalidFloatSuffix { span })),
        ExprKind::Char => (Ty::Primitive(PrimitiveTy::Char), None),
        ExprKind::ByteChar => (Ty::Primitive(PrimitiveTy::U8), None),
        ExprKind::Bool => (Ty::Primitive(PrimitiveTy::Bool), None),
        ExprKind::Null => match expected {
            None => (Ty::Error, Some(Diagnostic::NullWithoutExpectedType { span })),
            Some(t) => if t is Optional {
                (t, None)
            } else {
                (Ty::Error, Some(Diagnostic::NullNotOptional { span, found: t }))
            },
        },
        ExprKind::LocalName(l) => match checker.local_types.spec_get(l) {
            Some(t) => (t, None),
            None => (Ty::Error, Some(Diagnostic::LocalUsedBeforeType { span })),
        },
        ExprKind::Value(t) => (t, None),
        ExprKind::UnresolvedName => (Ty::Error, Some(Diagnostic::NameUnresolved { span })),
        _ => (Ty::Error, None),
    }
}

/// The builtin trait of a unary operator.
pub open spec fn spec_unary_trait(op: UnaryOp) -> BuiltinTrait {
    match op {
        UnaryOp::Neg => BuiltinTrait::Neg,
        UnaryOp::Not => BuiltinTrait::Not,
        UnaryOp::BitNot => BuiltinTrait::BitNot,
    }
}

/// The type a literal's suffix names, if it names one.
pub open spec fn spec_literal_suffix_ty(kind: ExprKind) -> Option<Ty> {
    match kind {
        ExprKind::Integer { suffix: NumericSuffix::Typed(p), .. } | ExprKind::Float(NumericSuffix::Typed(p)) => Some(
            Ty::Primitive(p),
        ),
        _ => None,
    }
}

/// A type no reference may point at: `void` and the never type.
pub open spec fn spec_invalid_temporary(t: Ty) -> bool {
    t == Ty::Primitive(PrimitiveTy::Void) || t == Ty::Primitive(PrimitiveTy::Never)
}

/// The address-of operator of a reference's mutability.
pub open spec fn spec_ref_op(is_readonly: bool) -> UnaryOpKind {
    if is_readonly {
        UnaryOpKind::RefReadOnly
    } else {
        UnaryOpKind::Ref
    }
}

/// A type that is a numeric primitive.
pub open spec fn spec_numeric_ty(t: Ty) -> bool {
    t matches Ty::Primitive(p) && spec_is_numeric(p)
}

/// A type that is an integer primitive.
pub open spec fn spec_integer_ty(t: Ty) -> bool {
    t matches Ty::Primitive(p) && spec_is_integer(p)
}

/// The never type.
pub open spec fn spec_never(t: Ty) -> bool {
    t == Ty::Primitive(PrimitiveTy::Never)
}

/// A numeric literal, or the negation of one.
pub open spec fn spec_numeric_literal(body: Exprs, id: ExprId) -> bool {
    id < body.exprs@.len() && match body.exprs@[id as int].kind {
        ExprKind::Integer { .. } | ExprKind::Float(_) => true,
        ExprKind::Unary { op: UnaryOp::Neg, inner } => inner < body.exprs@.len() && (body.exprs@[inner as int].kind is Integer
            || body.exprs@[inner as int].kind is Float),
        _ => false,
    }
}

/// A pointer type.
pub open spec fn spec_pointer_ty(t: Ty) -> bool {
    t is Pointer || t is VolatilePointer
}

/// The integer type a pointer converts to and from: `usize`.
pub open spec fn spec_pointer_integer_ty(t: Ty) -> bool {
    t == Ty::Primitive(PrimitiveTy::Usize)
}

impl BodyChecker {
    /// Two types match: equal once their aliases are expanded, or one of
    /// them is the error type.
    pub open spec fn spec_types_match(&self, a: Ty, b: Ty) -> bool {
        self.spec_normalize_aliases(a) == self.spec_normalize_aliases(b) || a is Error || b is Error
    }

    /// The mismatch reported when `found` does not match `expected`.
    pub open spec fn spec_mismatch(&self, span: Span, expected: Ty, found: Ty) -> Seq<Diagnostic> {
        if self.spec_types_match(expected, found) {
            Seq::empty()
        } else {
            seq![Diagnostic::TypeMismatch { span, expected, found }]
        }
    }

    /// The error and value types of an error union, its aliases expanded.
    pub open spec fn spec_error_union_parts(&self, t: Ty) -> Option<(Ty, Ty)> {
        match self.spec_normalize_aliases(t) {
            Ty::ErrorUnion { error, value } => Some((*error, *value)),
            _ => None,
        }
    }

    /// An enum type of the program.
    pub open spec fn spec_enum_ty(&self, t: Ty) -> bool {
        t matches Ty::Nominal { def_id, .. } && self.enum_defs.spec_get(def_id) is Some
    }

    /// An open enum type of the program.
    pub open spec fn spec_open_enum_ty(&self, t: Ty) -> bool {
        t matches Ty::Nominal { def_id, .. } && self.enum_defs.spec_get(def_id) == Some(true)
    }

    /// A cast the language allows: between equal types, numeric types,
    /// from `char` to `u32`, from an enum to an integer, from an integer to
    /// an open enum, between pointers, and between pointers and `usize`.
    pub open spec fn spec_valid_cast(&self, source: Ty, target: Ty) -> bool {
        let s = self.spec_normalize_aliases(source);
        let t = self.spec_normalize_aliases(target);
        ||| s == t
        ||| spec_numeric_ty(s) && spec_numeric_ty(t)
        ||| s == Ty::Primitive(PrimitiveTy::Char) && t == Ty::Primitive(PrimitiveTy::U32)
        ||| self.spec_enum_ty(s) && spec_integer_ty(t)
        ||| spec_integer_ty(s) && self.spec_open_enum_ty(t)
        ||| spec_pointer_ty(s) && spec_pointer_ty(t)
        ||| spec_pointer_ty(s) && spec_pointer_integer_ty(t)
        ||| spec_pointer_integer_ty(s) && spec_pointer_ty(t)
    }

    /// The checked type of expression `id` against `expected`, the
    /// diagnostics the check reports, in order, and the node types it
    /// records, in order (a later record of a key replaces an earlier one).
    ///
    /// A compile-time projection wins for the kinds that allow it. An
    /// address-of checks its operand against the pointee of an expected
    /// pointer of its mutability (an array of unknown length for an
    /// expected slice) and is a pointer of its mutability to the operand's
    /// type; a `void` or never operand is reported. A dereference checks
    /// its operand against a read-only pointer to the expected type and is
    /// the pointee; anything else is reported. A unary operator checks its
    /// operand (against a negated literal's suffix type), reports an
    /// operand type that does not implement the operator's trait, and is
    /// `bool` for `!` and the normalized `Output` projection otherwise. An
    /// optional constructor checks its operand against the expected
    /// optional's element. A success or error constructor needs an expected
    /// error union and checks its operand against the value or error side.
    /// `.?` is the element of an optional or the value of an error union,
    /// and checks that the function's return type can take what it
    /// propagates. An assignment is `void`: to `_` only its right side is
    /// checked and only plain assignment is allowed; otherwise the right
    /// side is checked against the left side's type. A cast is its target
    /// type and reports a cast the language does not allow. An `if` checks
    /// its condition against `bool`; without `else` it is `void`; with an
    /// expected type both branches are checked against it and the `if` has
    /// it; otherwise the first branch gives the type the other is checked
    /// against (the `else` branch first when only the `then` branch is a
    /// numeric literal), a branch of the never type giving way to the
    /// other.
    pub open spec fn spec_check(&self, body: Exprs, id: int, expected: Option<Ty>) -> (
        Ty,
        Seq<Diagnostic>,
        Seq<(u32, Ty)>,
    )
        decreases id,
    {
        if id < 0 || id >= body.exprs@.len() {
            (Ty::Error, Seq::empty(), Seq::empty())
        } else {
            let e = body.exprs@[id];
            if expected is Some && e.projection is Some && spec_allows_const_projection(e.kind) {
                (e.projection.unwrap(), Seq::empty(), seq![(e.node_key, e.projection.unwrap())])
            } else {
                let (t, d, r) = match e.kind {
                    ExprKind::Ref { is_readonly, inner } => if inner < id {
                        let c = self.spec_check(
                            body,
                            inner as int,
                            spec_expected_ref_target(spec_ref_op(is_readonly), expected),
                        );
                        (
                            Ty::Pointer { is_readonly, elem: Box::new(c.0) },
                            if spec_invalid_temporary(c.0) {
                                c.1.push(Diagnostic::InvalidReferenceTarget { span: body.exprs@[inner as int].span })
                            } else {
                                c.1
                            },
                            c.2,
                        )
                    } else {
                        (Ty::Error, Seq::empty(), Seq::empty())
                    },
                    ExprKind::Deref(inner) => if inner < id {
                        let c = self.spec_check(
                            body,
                            inner as int,
                            match expected {
                                Some(x) => Some(Ty::Pointer { is_readonly: true, elem: Box::new(x) }),
                                None => None,
                            },
                        );
                        match c.0 {
                            Ty::Pointer { elem, .. } | Ty::VolatilePointer { elem, .. } => (*elem, c.1, c.2),
                            _ => (Ty::Error, c.1.push(Diagnostic::DerefOfNonPointer { span: e.span, found: c.0 }), c.2),
                        }
                    } else {
                        (Ty::Error, Seq::empty(), Seq::empty())
                    },
                    ExprKind::Unary { op, inner } => if inner < id {
                        let inner_expected = match op {
                            UnaryOp::Neg => spec_literal_suffix_ty(body.exprs@[inner as int].kind),
                            _ => None,
                        };
                        let c = self.spec_check(body, inner as int, inner_expected);
                        let d1 = match inner_expected {
                            Some(x) => c.1 + self.spec_mismatch(body.exprs@[inner as int].span, x, c.0),
                            None => c.1,
                        };
                        let t = spec_unary_trait(op);
                        let d2 = if self.spec_proves(c.0, TraitId::Builtin(t), TyList::Nil, ConstArgList::Nil) {
                            d1
                        } else {
                            d1.push(Diagnostic::TraitBoundNotSatisfied { span: e.span, ty: c.0, trait_id: t })
                        };
                        let out = if op is Not {
                            Ty::Primitive(PrimitiveTy::Bool)
                        } else {
                            self.spec_normalize_projection(
                                Ty::Projection {
                                    self_ty: Box::new(c.0),
                                    trait_id: TraitId::Builtin(t),
                                    trait_args: TyList::Nil,
                                    trait_const_args: ConstArgList::Nil,
                                    name: self.output_assoc_name,
                                },
                            )
                        };
                        (out, d2, c.2)
                    } else {
                        (Ty::Error, Seq::empty(), Seq::empty())
                    },
                    ExprKind::OptionalSome(inner) => if inner < id {
                        let elem_expected = match expected {
                            Some(Ty::Optional { elem }) => Some(*elem),
                            _ => None,
                        };
                        let c = self.spec_check(body, inner as int, elem_expected);
                        (
                            Ty::Optional { elem: Box::new(c.0) },
                            c.1,
                            c.2.push((body.exprs@[inner as int].node_key, c.0)),
                        )
                    } else {
                        (Ty::Error, Seq::empty(), Seq::empty())
                    },
                    ExprKind::ErrorOk(inner) | ExprKind::ErrorErr(inner) => if inner < id {
                        let is_err = e.kind is ErrorErr;
                        let inner_span = body.exprs@[inner as int].span;
                        match match expected {
                            Some(x) => self.spec_error_union_parts(x),
                            None => None,
                        } {
                            Some((error, value)) => {
                                let side = if is_err {
                                    error
                                } else {
                                    value
                                };
                                let c = self.spec_check(body, inner as int, Some(side));
                                (
                                    Ty::ErrorUnion { error: Box::new(error), value: Box::new(value) },
                                    c.1 + self.spec_mismatch(inner_span, side, c.0),
                                    c.2,
                                )
                            },
                            None => {
                                let c = self.spec_check(body, inner as int, None);
                                let d = if is_err {
                                    Diagnostic::ErrorWithoutErrorUnion { span: inner_span }
                                } else {
                                    Diagnostic::SuccessWithoutErrorUnion { span: inner_span }
                                };
                                (Ty::Error, seq![d] + c.1, c.2)
                            },
                        }
                    } else {
                        (Ty::Error, Seq::empty(), Seq::empty())
                    },
                    ExprKind::Try(inner) => if inner < id {
                        let c = self.spec_check(body, inner as int, None);
                        let recs = c.2.push((body.exprs@[inner as int].node_key, c.0));
                        match self.spec_normalize_aliases(c.0) {
                            Ty::Optional { elem } => (
                                *elem,
                                if self.spec_normalize_aliases(self.current_return) is Optional {
                                    c.1
                                } else {
                                    c.1.push(Diagnostic::OptionalPropagationNeedsOptionalReturn { span: e.span })
                                },
                                recs,
                            ),
                            Ty::ErrorUnion { error, value } => (
                                *value,
                                match self.spec_error_union_parts(self.current_return) {
                                    Some((return_error, _)) => if self.spec_types_match(*error, return_error) {
                                        c.1
                                    } else {
                                        c.1.push(Diagnostic::ErrorPropagationMismatch { span: e.span, found: *error })
                                    },
                                    None => c.1.push(Diagnostic::ErrorPropagationNeedsErrorReturn { span: e.span }),
                                },
                                recs,
                            ),
                            _ => (Ty::Error, c.1.push(Diagnostic::TryNeedsOptionalOrError { span: e.span, found: c.0 }), recs),
                        }
                    } else {
                        (Ty::Error, Seq::empty(), Seq::empty())
                    },
                    ExprKind::Assign { lhs, rhs, is_plain } => if lhs < id && rhs < id {
                        if body.exprs@[lhs as int].kind is Underscore {
                            let c = self.spec_check(body, rhs as int, None);
                            (
                                Ty::Primitive(PrimitiveTy::Void),
                                if is_plain {
                                    c.1
                                } else {
                                    c.1.push(Diagnostic::DiscardNeedsPlainAssign { span: e.span })
                                },
                                c.2,
                            )
                        } else {
                            let a = self.spec_check(body, lhs as int, None);
                            let b = self.spec_check(body, rhs as int, Some(a.0));
                            (
                                Ty::Primitive(PrimitiveTy::Void),
                                a.1 + b.1 + self.spec_mismatch(body.exprs@[rhs as int].span, a.0, b.0),
                                a.2 + b.2,
                            )
                        }
                    } else {
                        (Ty::Error, Seq::empty(), Seq::empty())
                    },
                    ExprKind::Cast { inner, target } => if inner < id {
                        let c = self.spec_check(body, inner as int, None);
                        (
                            target,
                            if c.0 is Error || target is Error || self.spec_valid_cast(c.0, target) {
                                c.1
                            } else {
                                c.1.push(Diagnostic::InvalidCast { span: e.span, source: c.0, target })
                            },
                            c.2,
                        )
                    } else {
                        (Ty::Error, Seq::empty(), Seq::empty())
                    },
                    ExprKind::If { cond, then_branch, else_branch } => if cond < id && then_branch < id && (
                    else_branch matches Some(x) ==> x < id) {
                        let bool_ty = Ty::Primitive(PrimitiveTy::Bool);
                        let c = self.spec_check(body, cond as int, None);
                        let dc = c.1 + self.spec_mismatch(body.exprs@[cond as int].span, bool_ty, c.0);
                        let then_span = body.exprs@[then_branch as int].span;
                        match else_branch {
                            None => {
                                let t = self.spec_check(body, then_branch as int, None);
                                (Ty::Primitive(PrimitiveTy::Void), dc + t.1, c.2 + t.2)
                            },
                            Some(el) => {
                                let else_span = body.exprs@[el as int].span;
                                match expected {
                                    Some(x) => {
                                        let t = self.spec_check(body, then_branch as int, Some(x));
                                        let f = self.spec_check(body, el as int, Some(x));
                                        (
                                            x,
                                            dc + t.1 + self.spec_mismatch(then_span, x, t.0) + f.1 + self.spec_mismatch(
                                                else_span,
                                                x,
                                                f.0,
                                            ),
                                            c.2 + t.2 + f.2,
                                        )
                                    },
                                    None => if spec_numeric_literal(body, then_branch) && !spec_numeric_literal(body, el) {
                                        let f = self.spec_check(body, el as int, None);
                                        if spec_never(f.0) {
                                            let t = self.spec_check(body, then_branch as int, None);
                                            (t.0, dc + f.1 + t.1, c.2 + f.2 + t.2)
                                        } else {
                                            let t = self.spec_check(body, then_branch as int, Some(f.0));
                                            (
                                                if spec_never(t.0) {
                                                    f.0
                                                } else {
                                                    t.0
                                                },
                                                dc + f.1 + t.1 + self.spec_mismatch(then_span, f.0, t.0),
                                                c.2 + f.2 + t.2,
                                            )
                                        }
                                    } else {
                                        let t = self.spec_check(body, then_branch as int, None);
                                        if spec_never(t.0) {
                                            let f = self.spec_check(body, el as int, None);
                                            (
                                                if spec_never(f.0) {
                                                    t.0
                                                } else {
                                                    f.0
                                                },
                                                dc + t.1 + f.1,
                                                c.2 + t.2 + f.2,
                                            )
                                        } else {
                                            let f = self.spec_check(body, el as int, Some(t.0));
                                            (t.0, dc + t.1 + f.1 + self.spec_mismatch(else_span, t.0, f.0), c.2 + t.2 + f.2)
                                        }
                                    },
                                }
                            },
                        }
                    } else {
                        (Ty::Error, Seq::empty(), Seq::empty())
                    },
                    _ => {
                        let l = spec_leaf(*self, e.kind, e.span, expected);
                        (l.0, spec_with_diagnostic(Seq::empty(), l.1), Seq::empty())
                    },
                };
                (t, d, r.push((e.node_key, t)))
            }
        }
    }

    /// Nothing but the diagnostics and the recorded expression types
    /// differs from `other`.
    pub open spec fn only_expr_results_changed(&self, other: &BodyChecker) -> bool {
        *self == (BodyChecker {
            diagnostics: self.diagnostics,
            expr_node_types: self.expr_node_types,
            ..*other
        })
    }

    /// `self` is `old` after reporting `diags` and recording `records`.
    pub open spec fn spec_after(&self, old: &BodyChecker, diags: Seq<Diagnostic>, records: Seq<(u32, Ty)>) -> bool {
        &&& self.only_expr_results_changed(old)
        &&& self.diagnostics@ == old.diagnostics@ + diags
        &&& forall|k: u32| #[trigger]
            self.expr_node_types.spec_get(k) == spec_recorded(records, k, old.expr_node_types.spec_get(k))
    }
}

/// The type recorded for `key` after `records`, starting from `base`.
pub open spec fn spec_recorded(records: Seq<(u32, Ty)>, key: u32, base: Option<Ty>) -> Option<Ty>
    decreases records.len(),
{
    if records.len() == 0 {
        base
    } else if records.last().0 == key {
        Some(records.last().1)
    } else {
        spec_recorded(records.drop_last(), key, base)
    }
}

} // verus!
