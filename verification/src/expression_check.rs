//! Checking a body's expressions against what is expected of them, as
//! `spec_check` states it.
use vstd::prelude::*;
use crate::checker::{BodyChecker, Diagnostic};
use crate::expected_types::{spec_expected_ref_target, UnaryOpKind};
use crate::expressions::{
    spec_allows_const_projection, spec_integer_max, spec_leaf, spec_literal_suffix_ty, spec_numeric_literal, spec_numeric_ty,
    spec_integer_ty, spec_recorded, spec_ref_op, ExprId, ExprKind, Exprs, NumericSuffix, UnaryOp,
};
use crate::projections::{is_integer, is_numeric};
use crate::ids::Span;
use crate::subst::deref_opt;
use crate::ty::{ty_eq, BuiltinTrait, ConstArgList, DeepClone, PrimitiveTy, TraitId, Ty, TyList};

verus! {

proof fn lemma_concat_assoc<A>(a: Seq<A>, b: Seq<A>, c: Seq<A>)
    ensures
        (a + b) + c == a + (b + c),
{
    assert((a + b) + c =~= a + (b + c));
}

proof fn lemma_push_assoc<A>(a: Seq<A>, b: Seq<A>, x: A)
    ensures
        (a + b).push(x) == a + b.push(x),
{
    assert((a + b).push(x) =~= a + b.push(x));
}

/// The largest value an integer type holds.
pub fn integer_max(p: PrimitiveTy) -> (r: u128)
    ensures
        r == spec_integer_max(p),
{
    match p {
        PrimitiveTy::I8 => 0x7f,
        PrimitiveTy::I16 => 0x7fff,
        PrimitiveTy::I32 => 0x7fff_ffff,
        PrimitiveTy::I64 | PrimitiveTy::Isize => 0x7fff_ffff_ffff_ffff,
        PrimitiveTy::I128 => 0x7fff_ffff_ffff_ffff_ffff_ffff_ffff_ffff,
        PrimitiveTy::U8 => 0xff,
        PrimitiveTy::U16 => 0xffff,
        PrimitiveTy::U32 => 0xffff_ffff,
        PrimitiveTy::U64 | PrimitiveTy::Usize => 0xffff_ffff_ffff_ffff,
        _ => 0xffff_ffff_ffff_ffff_ffff_ffff_ffff_ffff,
    }
}

fn copy_opt(t: Option<&Ty>) -> (r: Option<Ty>)
    ensures
        r == deref_opt(t),
{
    match t {
        Some(x) => Some(x.deep_clone()),
        None => None,
    }
}

fn numeric_ty(t: &Ty) -> (r: bool)
    ensures
        r == spec_numeric_ty(*t),
{
    match t {
        Ty::Primitive(p) => is_numeric(*p),
        _ => false,
    }
}

fn integer_ty(t: &Ty) -> (r: bool)
    ensures
        r == spec_integer_ty(*t),
{
    match t {
        Ty::Primitive(p) => is_integer(*p),
        _ => false,
    }
}

fn unary_trait(op: UnaryOp) -> (r: BuiltinTrait)
    ensures
        r == crate::expressions::spec_unary_trait(op),
{
    match op {
        UnaryOp::Neg => BuiltinTrait::Neg,
        UnaryOp::Not => BuiltinTrait::Not,
        UnaryOp::BitNot => BuiltinTrait::BitNot,
    }
}

fn literal_suffix_ty(kind: &ExprKind) -> (r: Option<Ty>)
    ensures
        r == spec_literal_suffix_ty(*kind),
{
    match kind {
        ExprKind::Integer { suffix: NumericSuffix::Typed(p), .. } | ExprKind::Float(NumericSuffix::Typed(p)) => Some(
            Ty::Primitive(*p),
        ),
        _ => None,
    }
}

fn numeric_literal(body: &Exprs, id: ExprId) -> (r: bool)
    ensures
        r == spec_numeric_literal(*body, id),
{
    if id >= body.exprs.len() {
        return false;
    }
    match &body.exprs[id].kind {
        ExprKind::Integer { .. } | ExprKind::Float(_) => true,
        ExprKind::Unary { op: UnaryOp::Neg, inner } => *inner < body.exprs.len() && (matches!(
            body.exprs[*inner].kind,
            ExprKind::Integer { .. }
        ) || matches!(body.exprs[*inner].kind, ExprKind::Float(_))),
        _ => false,
    }
}

fn allows_const_projection(kind: &ExprKind) -> (r: bool)
    ensures
        r == spec_allows_const_projection(*kind),
{
    match kind {
        ExprKind::Error | ExprKind::Raw | ExprKind::Underscore | ExprKind::TypeTarget | ExprKind::TraitTarget
        | ExprKind::Integer { .. } | ExprKind::Float(_) | ExprKind::Char | ExprKind::ByteChar | ExprKind::Bool
        | ExprKind::Null | ExprKind::LocalName(_) | ExprKind::Value(_) | ExprKind::UnresolvedName => true,
        _ => false,
    }
}

impl BodyChecker {
    /// Whether two types match: equal once their aliases are expanded, or
    /// one of them is the error type.
    pub fn types_match(&self, a: &Ty, b: &Ty) -> (r: bool)
        ensures
            r == self.spec_types_match(*a, *b),
    {
        let na = self.normalize_aliases_in_type(a);
        let nb = self.normalize_aliases_in_type(b);
        ty_eq(&na, &nb) || matches!(a, Ty::Error) || matches!(b, Ty::Error)
    }

    /// Adds the mismatch of `found` against `expected` to `diags`, if they
    /// do not match.
    fn mismatch_into(&self, span: Span, expected: &Ty, found: &Ty, diags: &mut Vec<Diagnostic>)
        ensures
            final(diags)@ == old(diags)@ + self.spec_mismatch(span, *expected, *found),
    {
        if !self.types_match(expected, found) {
            diags.push(Diagnostic::TypeMismatch { span, expected: expected.deep_clone(), found: found.deep_clone() });
            proof {
                assert(diags@ =~= old(diags)@ + self.spec_mismatch(span, *expected, *found));
            }
        } else {
            proof {
                assert(diags@ =~= old(diags)@ + self.spec_mismatch(span, *expected, *found));
            }
        }
    }

    /// The error and value types of an error union, its aliases expanded.
    pub fn error_union_parts(&self, t: &Ty) -> (r: Option<(Ty, Ty)>)
        ensures
            r == self.spec_error_union_parts(*t),
    {
        match self.normalize_aliases_in_type(t) {
            Ty::ErrorUnion { error, value } => Some((*error, *value)),
            _ => None,
        }
    }

    /// Whether the language allows casting `source` to `target`.
    pub fn valid_cast(&self, source: &Ty, target: &Ty) -> (r: bool)
        ensures
            r == self.spec_valid_cast(*source, *target),
    {
        let s = self.normalize_aliases_in_type(source);
        let t = self.normalize_aliases_in_type(target);
        let is_enum = |x: &Ty| -> (b: bool)
            ensures
                b == self.spec_enum_ty(*x),
            {
                match x {
                    Ty::Nominal { def_id, .. } => self.enum_defs.get(def_id).is_some(),
                    _ => false,
                }
            };
        let s_enum = is_enum(&s);
        let t_open = match &t {
            Ty::Nominal { def_id, .. } => match self.enum_defs.get(def_id) {
                Some(open) => *open,
                None => false,
            },
            _ => false,
        };
        let s_ptr = matches!(s, Ty::Pointer { .. }) || matches!(s, Ty::VolatilePointer { .. });
        let t_ptr = matches!(t, Ty::Pointer { .. }) || matches!(t, Ty::VolatilePointer { .. });
        let s_usize = matches!(s, Ty::Primitive(PrimitiveTy::Usize));
        let t_usize = matches!(t, Ty::Primitive(PrimitiveTy::Usize));
        let s_char = matches!(s, Ty::Primitive(PrimitiveTy::Char));
        let t_u32 = matches!(t, Ty::Primitive(PrimitiveTy::U32));
        ty_eq(&s, &t) || (numeric_ty(&s) && numeric_ty(&t)) || (s_char && t_u32) || (s_enum && integer_ty(&t))
            || (integer_ty(&s) && t_open) || (s_ptr && t_ptr) || (s_ptr && t_usize) || (s_usize && t_ptr)
    }

    /// Checks expression `expr` of `body` against the expected type, if
    /// any: its type is `spec_check`'s, the diagnostics it reports and the
    /// node types it records are `spec_check`'s, in order.
    pub fn check_expr_with_expected(&mut self, body: &Exprs, expr: ExprId, expected: Option<&Ty>) -> (r: Ty)
        requires
            body.wf(),
            expr < body.exprs@.len(),
        ensures
            ({
                let s = old(self).spec_check(*body, expr as int, deref_opt(expected));
                r == s.0 && final(self).spec_after(old(self), s.1, s.2)
            }),
    {
        let mut diags: Vec<Diagnostic> = Vec::new();
        let mut recs: Vec<(u32, Ty)> = Vec::new();
        let t = self.check_into(body, expr, expected, &mut diags, &mut recs);
        proof {
            assert(diags@ =~= self.spec_check(*body, expr as int, deref_opt(expected)).1);
            assert(recs@ =~= self.spec_check(*body, expr as int, deref_opt(expected)).2);
        }
        self.apply_results(diags, recs);
        t
    }

    /// Reports `diags` and records `recs`, in order.
    fn apply_results(&mut self, diags: Vec<Diagnostic>, recs: Vec<(u32, Ty)>)
        ensures
            final(self).spec_after(old(self), diags@, recs@),
    {
        let mut diags = diags;
        let ghost d = diags@;
        self.diagnostics.append(&mut diags);
        let mut i: usize = 0;
        while i < recs.len()
            invariant
                0 <= i <= recs@.len(),
                self.only_expr_results_changed(old(self)),
                self.diagnostics@ == old(self).diagnostics@ + d,
                forall|k: u32| #[trigger]
                    self.expr_node_types.spec_get(k) == spec_recorded(
                        recs@.take(i as int),
                        k,
                        old(self).expr_node_types.spec_get(k),
                    ),
            decreases recs@.len() - i,
        {
            let key = recs[i].0;
            let t = recs[i].1.deep_clone();
            self.expr_node_types.set(key, t);
            proof {
                assert forall|k: u32| #[trigger] self.expr_node_types.spec_get(k) == spec_recorded(
                    recs@.take(i + 1),
                    k,
                    old(self).expr_node_types.spec_get(k),
                ) by {
                    assert(recs@.take(i + 1).drop_last() =~= recs@.take(i as int));
                    assert(recs@.take(i + 1).last() == recs@[i as int]);
                }
            }
            i = i + 1;
        }
        proof {
            assert(recs@.take(recs@.len() as int) =~= recs@);
        }
    }

    /// `check_expr_with_expected`'s work, with the diagnostics and the node
    /// types added to `diags` and `recs`.
    fn check_into(
        &self,
        body: &Exprs,
        expr: ExprId,
        expected: Option<&Ty>,
        diags: &mut Vec<Diagnostic>,
        recs: &mut Vec<(u32, Ty)>,
    ) -> (r: Ty)
        requires
            body.wf(),
            expr < body.exprs@.len(),
        ensures
            ({
                let s = self.spec_check(*body, expr as int, deref_opt(expected));
                &&& r == s.0
                &&& final(diags)@ == old(diags)@ + s.1
                &&& final(recs)@ == old(recs)@ + s.2
            }),
        decreases expr,
    {
        let e = &body.exprs[expr];
        let ghost exp = deref_opt(expected);
        let ghost d0 = diags@;
        let ghost r0 = recs@;
        if expected.is_some() && e.projection.is_some() && allows_const_projection(&e.kind) {
            let t = match &e.projection {
                Some(p) => p.deep_clone(),
                None => Ty::Error,
            };
            recs.push((e.node_key, t.deep_clone()));
            proof {
                assert(diags@ =~= d0 + Seq::<Diagnostic>::empty());
                assert(recs@ =~= r0 + seq![(e.node_key, t)]);
            }
            return t;
        }
        let ghost mut d: Seq<Diagnostic> = Seq::empty();
        let ghost mut rs: Seq<(u32, Ty)> = Seq::empty();
        proof {
            assert(diags@ =~= d0 + d);
            assert(recs@ =~= r0 + rs);
        }
        let t: Ty = match &e.kind {
            ExprKind::Ref { is_readonly, inner } => {
                proof {
                    assert(crate::expressions::spec_children(body.exprs@[expr as int].kind)[0] < expr);
                }
                let op = if *is_readonly {
                    UnaryOpKind::RefReadOnly
                } else {
                    UnaryOpKind::Ref
                };
                let target = self.expected_ref_target_from_expected(op, expected);
                let it = self.check_into(body, *inner, target.as_ref(), diags, recs);
                proof {
                    assert(target == spec_expected_ref_target(spec_ref_op(*is_readonly), exp));
                    let c = self.spec_check(*body, *inner as int, target);
                    lemma_concat_assoc(d0, d, c.1);
                    lemma_concat_assoc(r0, rs, c.2);
                    d = d + c.1;
                    rs = rs + c.2;
                }
                if matches!(it, Ty::Primitive(PrimitiveTy::Void)) || matches!(it, Ty::Primitive(PrimitiveTy::Never)) {
                    let dg = Diagnostic::InvalidReferenceTarget { span: body.exprs[*inner].span };
                    diags.push(dg);
                    proof {
                        lemma_push_assoc(d0, d, dg);
                        d = d.push(dg);
                    }
                }
                Ty::Pointer { is_readonly: *is_readonly, elem: Box::new(it) }
            },
            ExprKind::Deref(inner) => {
                proof {
                    assert(crate::expressions::spec_children(body.exprs@[expr as int].kind)[0] < expr);
                }
                let pointer = self.pointer_to_deref_expected(copy_opt(expected));
                let it = self.check_into(body, *inner, pointer.as_ref(), diags, recs);
                proof {
                    let c = self.spec_check(*body, *inner as int, pointer);
                    lemma_concat_assoc(d0, d, c.1);
                    lemma_concat_assoc(r0, rs, c.2);
                    d = d + c.1;
                    rs = rs + c.2;
                }
                match it {
                    Ty::Pointer { elem, .. } | Ty::VolatilePointer { elem, .. } => *elem,
                    other => {
                        let dg = Diagnostic::DerefOfNonPointer { span: e.span, found: other };
                        diags.push(dg);
                        proof {
                            lemma_push_assoc(d0, d, dg);
                            d = d.push(dg);
                        }
                        Ty::Error
                    },
                }
            },
            ExprKind::Unary { op, inner } => {
                proof {
                    assert(crate::expressions::spec_children(body.exprs@[expr as int].kind)[0] < expr);
                }
                let inner_expected = match op {
                    UnaryOp::Neg => literal_suffix_ty(&body.exprs[*inner].kind),
                    _ => None,
                };
                let it = self.check_into(body, *inner, inner_expected.as_ref(), diags, recs);
                proof {
                    let c = self.spec_check(*body, *inner as int, inner_expected);
                    lemma_concat_assoc(d0, d, c.1);
                    lemma_concat_assoc(r0, rs, c.2);
                    d = d + c.1;
                    rs = rs + c.2;
                }
                if let Some(x) = &inner_expected {
                    self.mismatch_into(body.exprs[*inner].span, x, &it, diags);
                    proof {
                        let mm = self.spec_mismatch(body.exprs@[*inner as int].span, *x, it);
                        lemma_concat_assoc(d0, d, mm);
                        d = d + mm;
                    }
                }
                let t = unary_trait(*op);
                if !self.proves_trait_obligation(&it, TraitId::Builtin(t), &TyList::Nil, &ConstArgList::Nil) {
                    let dg = Diagnostic::TraitBoundNotSatisfied { span: e.span, ty: it.deep_clone(), trait_id: t };
                    diags.push(dg);
                    proof {
                        lemma_push_assoc(d0, d, dg);
                        d = d.push(dg);
                    }
                }
                if matches!(op, UnaryOp::Not) {
                    Ty::Primitive(PrimitiveTy::Bool)
                } else {
                    self.normalize_projection(
                        &Ty::Projection {
                            self_ty: Box::new(it),
                            trait_id: TraitId::Builtin(t),
                            trait_args: TyList::Nil,
                            trait_const_args: ConstArgList::Nil,
                            name: self.output_assoc_name,
                        },
                    )
                }
            },
            ExprKind::OptionalSome(inner) => {
                proof {
                    assert(crate::expressions::spec_children(body.exprs@[expr as int].kind)[0] < expr);
                }
                let elem_expected = match expected {
                    Some(Ty::Optional { elem }) => Some((**elem).deep_clone()),
                    _ => None,
                };
                let it = self.check_into(body, *inner, elem_expected.as_ref(), diags, recs);
                proof {
                    let c = self.spec_check(*body, *inner as int, elem_expected);
                    lemma_concat_assoc(d0, d, c.1);
                    lemma_concat_assoc(r0, rs, c.2);
                    d = d + c.1;
                    rs = rs + c.2;
                }
                let key = body.exprs[*inner].node_key;
                recs.push((key, it.deep_clone()));
                proof {
                    lemma_push_assoc(r0, rs, (key, it));
                    rs = rs.push((key, it));
                }
                Ty::Optional { elem: Box::new(it) }
            },
            ExprKind::ErrorOk(inner) | ExprKind::ErrorErr(inner) => {
                proof {
                    assert(crate::expressions::spec_children(body.exprs@[expr as int].kind)[0] < expr);
                }
                let is_err = matches!(e.kind, ExprKind::ErrorErr(_));
                let inner_span = body.exprs[*inner].span;
                let parts = match expected {
                    Some(x) => self.error_union_parts(x),
                    None => None,
                };
                match parts {
                    Some((error, value)) => {
                        let side = if is_err {
                            error.deep_clone()
                        } else {
                            value.deep_clone()
                        };
                        let it = self.check_into(body, *inner, Some(&side), diags, recs);
                        proof {
                            let c = self.spec_check(*body, *inner as int, Some(side));
                            lemma_concat_assoc(d0, d, c.1);
                            lemma_concat_assoc(r0, rs, c.2);
                            d = d + c.1;
                            rs = rs + c.2;
                        }
                        self.mismatch_into(inner_span, &side, &it, diags);
                        proof {
                            let mm = self.spec_mismatch(inner_span, side, it);
                            lemma_concat_assoc(d0, d, mm);
                            d = d + mm;
                        }
                        Ty::ErrorUnion { error: Box::new(error), value: Box::new(value) }
                    },
                    None => {
                        let dg = if is_err {
                            Diagnostic::ErrorWithoutErrorUnion { span: inner_span }
                        } else {
                            Diagnostic::SuccessWithoutErrorUnion { span: inner_span }
                        };
                        diags.push(dg);
                        proof {
                            lemma_push_assoc(d0, d, dg);
                            d = d.push(dg);
                        }
                        self.check_into(body, *inner, None, diags, recs);
                        proof {
                            let c = self.spec_check(*body, *inner as int, None);
                            lemma_concat_assoc(d0, d, c.1);
                            lemma_concat_assoc(r0, rs, c.2);
                            d = d + c.1;
                            rs = rs + c.2;
                        }
                        Ty::Error
                    },
                }
            },
            ExprKind::Try(inner) => {
                proof {
                    assert(crate::expressions::spec_children(body.exprs@[expr as int].kind)[0] < expr);
                }
                let it = self.check_into(body, *inner, None, diags, recs);
                proof {
                    let c = self.spec_check(*body, *inner as int, None);
                    lemma_concat_assoc(d0, d, c.1);
                    lemma_concat_assoc(r0, rs, c.2);
                    d = d + c.1;
                    rs = rs + c.2;
                }
                let key = body.exprs[*inner].node_key;
                recs.push((key, it.deep_clone()));
                proof {
                    lemma_push_assoc(r0, rs, (key, it));
                    rs = rs.push((key, it));
                }
                match self.normalize_aliases_in_type(&it) {
                    Ty::Optional { elem } => {
                        let ret = self.normalize_aliases_in_type(&self.current_return);
                        if !matches!(ret, Ty::Optional { .. }) {
                            let dg = Diagnostic::OptionalPropagationNeedsOptionalReturn { span: e.span };
                            diags.push(dg);
                            proof {
                                lemma_push_assoc(d0, d, dg);
                                d = d.push(dg);
                            }
                        }
                        *elem
                    },
                    Ty::ErrorUnion { error, value } => {
                        match self.error_union_parts(&self.current_return) {
                            Some((return_error, _)) => {
                                if !self.types_match(&error, &return_error) {
                                    let dg = Diagnostic::ErrorPropagationMismatch { span: e.span, found: *error };
                                    diags.push(dg);
                                    proof {
                                        lemma_push_assoc(d0, d, dg);
                                        d = d.push(dg);
                                    }
                                }
                            },
                            None => {
                                let dg = Diagnostic::ErrorPropagationNeedsErrorReturn { span: e.span };
                                diags.push(dg);
                                proof {
                                    lemma_push_assoc(d0, d, dg);
                                    d = d.push(dg);
                                }
                            },
                        }
                        *value
                    },
                    _ => {
                        let dg = Diagnostic::TryNeedsOptionalOrError { span: e.span, found: it };
                        diags.push(dg);
                        proof {
                            lemma_push_assoc(d0, d, dg);
                            d = d.push(dg);
                        }
                        Ty::Error
                    },
                }
            },
            ExprKind::Assign { lhs, rhs, is_plain } => {
                proof {
                    assert(crate::expressions::spec_children(body.exprs@[expr as int].kind)[0] < expr);
                    assert(crate::expressions::spec_children(body.exprs@[expr as int].kind)[1] < expr);
                }
                if matches!(body.exprs[*lhs].kind, ExprKind::Underscore) {
                    self.check_into(body, *rhs, None, diags, recs);
                    proof {
                        let c = self.spec_check(*body, *rhs as int, None);
                        lemma_concat_assoc(d0, d, c.1);
                        lemma_concat_assoc(r0, rs, c.2);
                        d = d + c.1;
                        rs = rs + c.2;
                    }
                    if !*is_plain {
                        let dg = Diagnostic::DiscardNeedsPlainAssign { span: e.span };
                        diags.push(dg);
                        proof {
                            lemma_push_assoc(d0, d, dg);
                            d = d.push(dg);
                        }
                    }
                } else {
                    let lt = self.check_into(body, *lhs, None, diags, recs);
                    proof {
                        let c = self.spec_check(*body, *lhs as int, None);
                        lemma_concat_assoc(d0, d, c.1);
                        lemma_concat_assoc(r0, rs, c.2);
                        d = d + c.1;
                        rs = rs + c.2;
                    }
                    let rt = self.check_into(body, *rhs, Some(&lt), diags, recs);
                    proof {
                        let c = self.spec_check(*body, *rhs as int, Some(lt));
                        lemma_concat_assoc(d0, d, c.1);
                        lemma_concat_assoc(r0, rs, c.2);
                        d = d + c.1;
                        rs = rs + c.2;
                    }
                    self.mismatch_into(body.exprs[*rhs].span, &lt, &rt, diags);
                    proof {
                        let mm = self.spec_mismatch(body.exprs@[*rhs as int].span, lt, rt);
                        lemma_concat_assoc(d0, d, mm);
                        d = d + mm;
                    }
                }
                Ty::Primitive(PrimitiveTy::Void)
            },
            ExprKind::Cast { inner, target } => {
                proof {
                    assert(crate::expressions::spec_children(body.exprs@[expr as int].kind)[0] < expr);
                }
                let st = self.check_into(body, *inner, None, diags, recs);
                proof {
                    let c = self.spec_check(*body, *inner as int, None);
                    lemma_concat_assoc(d0, d, c.1);
                    lemma_concat_assoc(r0, rs, c.2);
                    d = d + c.1;
                    rs = rs + c.2;
                }
                if !(matches!(st, Ty::Error) || matches!(target, Ty::Error) || self.valid_cast(&st, target)) {
                    let dg = Diagnostic::InvalidCast { span: e.span, source: st, target: target.deep_clone() };
                    diags.push(dg);
                    proof {
                        lemma_push_assoc(d0, d, dg);
                        d = d.push(dg);
                    }
                }
                target.deep_clone()
            },
            ExprKind::If { cond, then_branch, else_branch } => {
                proof {
                    assert(crate::expressions::spec_children(body.exprs@[expr as int].kind)[0] < expr);
                    assert(crate::expressions::spec_children(body.exprs@[expr as int].kind)[1] < expr);
                    if else_branch is Some {
                        assert(crate::expressions::spec_children(body.exprs@[expr as int].kind)[2] < expr);
                    }
                }
                let bool_ty = Ty::Primitive(PrimitiveTy::Bool);
                let ct = self.check_into(body, *cond, None, diags, recs);
                proof {
                    let c = self.spec_check(*body, *cond as int, None);
                    lemma_concat_assoc(d0, d, c.1);
                    lemma_concat_assoc(r0, rs, c.2);
                    d = d + c.1;
                    rs = rs + c.2;
                }
                self.mismatch_into(body.exprs[*cond].span, &bool_ty, &ct, diags);
                proof {
                    let mm = self.spec_mismatch(body.exprs@[*cond as int].span, bool_ty, ct);
                    lemma_concat_assoc(d0, d, mm);
                    d = d + mm;
                }
                let then_span = body.exprs[*then_branch].span;
                match else_branch {
                    None => {
                        let _tt = self.check_into(body, *then_branch, None, diags, recs);
                proof {
                    let c = self.spec_check(*body, *then_branch as int, None);
                    lemma_concat_assoc(d0, d, c.1);
                    lemma_concat_assoc(r0, rs, c.2);
                    d = d + c.1;
                    rs = rs + c.2;
                }
                        Ty::Primitive(PrimitiveTy::Void)
                    },
                    Some(el) => {
                        let else_span = body.exprs[*el].span;
                        match expected {
                            Some(x) => {
                                let tt = self.check_into(body, *then_branch, Some(x), diags, recs);
                proof {
                    let c = self.spec_check(*body, *then_branch as int, Some(*x));
                    lemma_concat_assoc(d0, d, c.1);
                    lemma_concat_assoc(r0, rs, c.2);
                    d = d + c.1;
                    rs = rs + c.2;
                }
                                self.mismatch_into(then_span, x, &tt, diags);
                proof {
                    let mm = self.spec_mismatch(then_span, *x, tt);
                    lemma_concat_assoc(d0, d, mm);
                    d = d + mm;
                }
                                let ft = self.check_into(body, *el, Some(x), diags, recs);
                proof {
                    let c = self.spec_check(*body, *el as int, Some(*x));
                    lemma_concat_assoc(d0, d, c.1);
                    lemma_concat_assoc(r0, rs, c.2);
                    d = d + c.1;
                    rs = rs + c.2;
                }
                                self.mismatch_into(else_span, x, &ft, diags);
                proof {
                    let mm = self.spec_mismatch(else_span, *x, ft);
                    lemma_concat_assoc(d0, d, mm);
                    d = d + mm;
                }
                                x.deep_clone()
                            },
                            None => {
                                if numeric_literal(body, *then_branch) && !numeric_literal(body, *el) {
                                    let ft = self.check_into(body, *el, None, diags, recs);
                proof {
                    let c = self.spec_check(*body, *el as int, None);
                    lemma_concat_assoc(d0, d, c.1);
                    lemma_concat_assoc(r0, rs, c.2);
                    d = d + c.1;
                    rs = rs + c.2;
                }
                                    if matches!(ft, Ty::Primitive(PrimitiveTy::Never)) {
                                        let tt = self.check_into(body, *then_branch, None, diags, recs);
                proof {
                    let c = self.spec_check(*body, *then_branch as int, None);
                    lemma_concat_assoc(d0, d, c.1);
                    lemma_concat_assoc(r0, rs, c.2);
                    d = d + c.1;
                    rs = rs + c.2;
                }
                                        tt
                                    } else {
                                        let tt = self.check_into(body, *then_branch, Some(&ft), diags, recs);
                proof {
                    let c = self.spec_check(*body, *then_branch as int, Some(ft));
                    lemma_concat_assoc(d0, d, c.1);
                    lemma_concat_assoc(r0, rs, c.2);
                    d = d + c.1;
                    rs = rs + c.2;
                }
                                        self.mismatch_into(then_span, &ft, &tt, diags);
                proof {
                    let mm = self.spec_mismatch(then_span, ft, tt);
                    lemma_concat_assoc(d0, d, mm);
                    d = d + mm;
                }
                                        if matches!(tt, Ty::Primitive(PrimitiveTy::Never)) {
                                            ft
                                        } else {
                                            tt
                                        }
                                    }
                                } else {
                                    let tt = self.check_into(body, *then_branch, None, diags, recs);
                proof {
                    let c = self.spec_check(*body, *then_branch as int, None);
                    lemma_concat_assoc(d0, d, c.1);
                    lemma_concat_assoc(r0, rs, c.2);
                    d = d + c.1;
                    rs = rs + c.2;
                }
                                    if matches!(tt, Ty::Primitive(PrimitiveTy::Never)) {
                                        let ft = self.check_into(body, *el, None, diags, recs);
                proof {
                    let c = self.spec_check(*body, *el as int, None);
                    lemma_concat_assoc(d0, d, c.1);
                    lemma_concat_assoc(r0, rs, c.2);
                    d = d + c.1;
                    rs = rs + c.2;
                }
                                        if matches!(ft, Ty::Primitive(PrimitiveTy::Never)) {
                                            tt
                                        } else {
                                            ft
                                        }
                                    } else {
                                        let ft = self.check_into(body, *el, Some(&tt), diags, recs);
                proof {
                    let c = self.spec_check(*body, *el as int, Some(tt));
                    lemma_concat_assoc(d0, d, c.1);
                    lemma_concat_assoc(r0, rs, c.2);
                    d = d + c.1;
                    rs = rs + c.2;
                }
                                        self.mismatch_into(else_span, &tt, &ft, diags);
                proof {
                    let mm = self.spec_mismatch(else_span, tt, ft);
                    lemma_concat_assoc(d0, d, mm);
                    d = d + mm;
                }
                                        tt
                                    }
                                }
                            },
                        }
                    },
                }
            },
            _ => {
                let (t, dg) = self.check_leaf(&e.kind, e.span, expected);
                match dg {
                    Some(x) => {
                        diags.push(x);
                        proof {
                            lemma_push_assoc(d0, d, x);
                            d = d.push(x);
                        }
                    },
                    None => {},
                }
                t
            },
        };
        recs.push((e.node_key, t.deep_clone()));
        proof {
            lemma_push_assoc(r0, rs, (e.node_key, t));
            rs = rs.push((e.node_key, t));
            let s = self.spec_check(*body, expr as int, exp);
            assert(s.1 =~= d);
            assert(s.2 =~= rs);
        }
        t
    }

    /// The type of an expression that needs no sub-expression, with the
    /// problem it reports.
    fn check_leaf(&self, kind: &ExprKind, span: Span, expected: Option<&Ty>) -> (r: (Ty, Option<Diagnostic>))
        ensures
            r == spec_leaf(*self, *kind, span, deref_opt(expected)),
    {
        match kind {
            ExprKind::Integer { suffix: NumericSuffix::Plain, .. } => (Ty::Primitive(PrimitiveTy::I32), None),
            ExprKind::Float(NumericSuffix::Plain) => (Ty::Primitive(PrimitiveTy::Float64), None),
            ExprKind::Integer { value, suffix: NumericSuffix::Typed(p) } => (
                Ty::Primitive(*p),
                if is_integer(*p) && *value > integer_max(*p) {
                    Some(Diagnostic::IntegerLiteralOutOfRange { span, ty: *p })
                } else {
                    None
                },
            ),
            ExprKind::Float(NumericSuffix::Typed(p)) => (Ty::Primitive(*p), None),
            ExprKind::Integer { suffix: NumericSuffix::Invalid, .. } => (
                Ty::Error,
                Some(Diagnostic::InvalidIntegerSuffix { span }),
            ),
            ExprKind::Float(NumericSuffix::Invalid) => (Ty::Error, Some(Diagnostic::InvalidFloatSuffix { span })),
            ExprKind::Char => (Ty::Primitive(PrimitiveTy::Char), None),
            ExprKind::ByteChar => (Ty::Primitive(PrimitiveTy::U8), None),
            ExprKind::Bool => (Ty::Primitive(PrimitiveTy::Bool), None),
            ExprKind::Null => match expected {
                None => (Ty::Error, Some(Diagnostic::NullWithoutExpectedType { span })),
                Some(t) => match t {
                    Ty::Optional { .. } => (t.deep_clone(), None),
                    _ => (Ty::Error, Some(Diagnostic::NullNotOptional { span, found: t.deep_clone() })),
                },
            },
            ExprKind::LocalName(l) => match self.local_types.get(l) {
                Some(t) => (t.deep_clone(), None),
                None => (Ty::Error, Some(Diagnostic::LocalUsedBeforeType { span })),
            },
            ExprKind::Value(t) => (t.deep_clone(), None),
            ExprKind::UnresolvedName => (Ty::Error, Some(Diagnostic::NameUnresolved { span })),
            _ => (Ty::Error, None),
        }
    }

    /// Checks expression `expr` of `body` with no type expected of it.
    pub fn check_expr(&mut self, body: &Exprs, expr: ExprId) -> (r: Ty)
        requires
            body.wf(),
            expr < body.exprs@.len(),
        ensures
            ({
                let s = old(self).spec_check(*body, expr as int, None);
                r == s.0 && final(self).spec_after(old(self), s.1, s.2)
            }),
    {
        self.check_expr_with_expected(body, expr, None)
    }
}

} // verus!
