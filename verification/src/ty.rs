use vstd::prelude::*;
use crate::ids::{GlobalDefId, SymbolId};

verus! {

/// A primitive scalar type.
#[derive(Clone, Copy, Debug, PartialEq, Eq, Structural)]
pub enum PrimitiveTy {
    Bool,
    I8,
    I16,
    I32,
    I64,
    I128,
    Isize,
    U8,
    U16,
    U32,
    U64,
    U128,
    Usize,
    Char,
    Float32,
    Float64,
    Never,
    Void,
}

/// A trait that the language provides itself (operators, slicing, length).
#[derive(Clone, Copy, Debug, PartialEq, Eq, Structural)]
pub enum BuiltinTrait {
    Add,
    Sub,
    Mul,
    Div,
    Rem,
    BitAnd,
    BitOr,
    BitXor,
    Shl,
    Shr,
    Neg,
    Not,
    BitNot,
    Eq,
    Ord,
    Len,
    Slice,
    SliceConst,
    GetPtr,
    GetPtrConst,
}

/// A trait: one declared in source, or a builtin one.
#[derive(Clone, Copy, Debug, PartialEq, Eq, Structural)]
pub enum TraitId {
    Source(GlobalDefId),
    Builtin(BuiltinTrait),
}

/// An integer constant, kept as its two's-complement bits.
#[derive(Clone, Copy, Debug, PartialEq, Eq, Structural)]
pub struct IntConst {
    pub bits: u128,
    pub is_signed: bool,
}

impl IntConst {
    pub fn unsigned(value: u128) -> (r: IntConst)
        ensures
            r == (IntConst { bits: value, is_signed: false }),
    {
        IntConst { bits: value, is_signed: false }
    }
}

/// The value of a compile-time generic argument.
#[derive(Clone, Copy, Debug, PartialEq, Eq, Structural)]
pub enum ConstGenericValue {
    Int(IntConst),
    Bool(bool),
    Char(char),
    GenericParam(SymbolId),
    ConstExpr(u32),
}

/// A compile-time generic argument: its type and its value.
#[derive(Debug)]
pub struct ConstGenericArg {
    pub ty: Box<Ty>,
    pub value: ConstGenericValue,
}

/// The length of an array type.
#[derive(Debug)]
pub enum ArrayLen {
    ConstValue(u64),
    ConstExpr(u32),
    Builtin { builtin: u32, ty: Box<Ty> },
    GenericParam(SymbolId),
    Infer,
}

/// A binding `Name = Ty` of an associated type in a trait object type.
#[derive(Debug)]
pub struct AssocBinding {
    pub trait_id: Option<TraitId>,
    pub trait_args: TyList,
    pub trait_const_args: ConstArgList,
    pub name: SymbolId,
    pub ty: Box<Ty>,
}

/// A list of types.
#[derive(Debug)]
pub enum TyList {
    Nil,
    Cons(Box<Ty>, Box<TyList>),
}

/// A list of compile-time generic arguments.
#[derive(Debug)]
pub enum ConstArgList {
    Nil,
    Cons(ConstGenericArg, Box<ConstArgList>),
}

/// A list of associated type bindings.
#[derive(Debug)]
pub enum BindingList {
    Nil,
    Cons(AssocBinding, Box<BindingList>),
}

/// A type of the language, in normal form.
#[derive(Debug)]
#[allow(inconsistent_fields)]
pub enum Ty {
    Primitive(PrimitiveTy),
    GenericParam(SymbolId),
    SelfParam,
    Opaque,
    Error,
    ConstOnly,
    BuiltinType(u32),
    Vector { elem: PrimitiveTy, lanes: u32 },
    Tuple(TyList),
    Pointer { is_readonly: bool, elem: Box<Ty> },
    VolatilePointer { is_readonly: bool, elem: Box<Ty> },
    Slice { is_readonly: bool, elem: Box<Ty> },
    SlicePointee { elem: Box<Ty> },
    Array { len: ArrayLen, elem: Box<Ty> },
    Range { kind: u8, bound: Option<Box<Ty>> },
    FunctionPointer { params: TyList, return_type: Box<Ty>, is_variadic: bool },
    Callable { is_readonly: bool, params: TyList, return_type: Box<Ty> },
    CallablePointee { params: TyList, return_type: Box<Ty> },
    Optional { elem: Box<Ty> },
    ErrorUnion { error: Box<Ty>, value: Box<Ty> },
    Nominal { def_id: GlobalDefId, args: TyList, const_args: ConstArgList },
    BuiltinTrait { trait_id: BuiltinTrait, args: TyList },
    TraitObject {
        is_readonly: bool,
        trait_id: TraitId,
        trait_args: TyList,
        trait_const_args: ConstArgList,
        bindings: BindingList,
    },
    TraitObjectPointee {
        trait_id: TraitId,
        trait_args: TyList,
        trait_const_args: ConstArgList,
        bindings: BindingList,
    },
    Projection {
        self_ty: Box<Ty>,
        trait_id: TraitId,
        trait_args: TyList,
        trait_const_args: ConstArgList,
        name: SymbolId,
    },
    ClosureState { id: u32, captures: TyList, params: TyList, return_type: Box<Ty> },
}

impl TyList {
    pub open spec fn len(self) -> nat
        decreases self,
    {
        match self {
            TyList::Nil => 0,
            TyList::Cons(_, tail) => 1 + tail.len(),
        }
    }

    /// The list as a sequence.
    pub open spec fn seq(self) -> Seq<Ty>
        decreases self,
    {
        match self {
            TyList::Nil => Seq::empty(),
            TyList::Cons(head, tail) => seq![*head] + tail.seq(),
        }
    }
}

impl ConstArgList {
    pub open spec fn len(self) -> nat
        decreases self,
    {
        match self {
            ConstArgList::Nil => 0,
            ConstArgList::Cons(_, tail) => 1 + tail.len(),
        }
    }

    pub open spec fn seq(self) -> Seq<ConstGenericArg>
        decreases self,
    {
        match self {
            ConstArgList::Nil => Seq::empty(),
            ConstArgList::Cons(head, tail) => seq![head] + tail.seq(),
        }
    }
}

impl BindingList {
    pub open spec fn len(self) -> nat
        decreases self,
    {
        match self {
            BindingList::Nil => 0,
            BindingList::Cons(_, tail) => 1 + tail.len(),
        }
    }

    pub open spec fn seq(self) -> Seq<AssocBinding>
        decreases self,
    {
        match self {
            BindingList::Nil => Seq::empty(),
            BindingList::Cons(head, tail) => seq![head] + tail.seq(),
        }
    }
}

/// Structural equality of types, decided by walking both trees.
pub fn ty_eq(a: &Ty, b: &Ty) -> (r: bool)
    ensures
        r == (*a == *b),
    decreases a,
{
    match (a, b) {
        (Ty::Primitive(x), Ty::Primitive(y)) => *x == *y,
        (Ty::GenericParam(x), Ty::GenericParam(y)) => *x == *y,
        (Ty::SelfParam, Ty::SelfParam) => true,
        (Ty::Opaque, Ty::Opaque) => true,
        (Ty::Error, Ty::Error) => true,
        (Ty::ConstOnly, Ty::ConstOnly) => true,
        (Ty::BuiltinType(x), Ty::BuiltinType(y)) => *x == *y,
        (Ty::Vector { elem: e1, lanes: l1 }, Ty::Vector { elem: e2, lanes: l2 }) => *e1 == *e2
            && *l1 == *l2,
        (Ty::Tuple(x), Ty::Tuple(y)) => ty_list_eq(x, y),
        (Ty::Pointer { is_readonly: r1, elem: e1 }, Ty::Pointer { is_readonly: r2, elem: e2 }) =>
            *r1 == *r2 && ty_eq(e1, e2),
        (
            Ty::VolatilePointer { is_readonly: r1, elem: e1 },
            Ty::VolatilePointer { is_readonly: r2, elem: e2 },
        ) => *r1 == *r2 && ty_eq(e1, e2),
        (Ty::Slice { is_readonly: r1, elem: e1 }, Ty::Slice { is_readonly: r2, elem: e2 }) => *r1
            == *r2 && ty_eq(e1, e2),
        (Ty::SlicePointee { elem: e1 }, Ty::SlicePointee { elem: e2 }) => ty_eq(e1, e2),
        (Ty::Array { len: l1, elem: e1 }, Ty::Array { len: l2, elem: e2 }) => array_len_eq(l1, l2)
            && ty_eq(e1, e2),
        (Ty::Range { kind: k1, bound: b1 }, Ty::Range { kind: k2, bound: b2 }) => *k1 == *k2
            && match (b1, b2) {
            (Some(x), Some(y)) => ty_eq(x, y),
            (None, None) => true,
            _ => false,
        },
        (
            Ty::FunctionPointer { params: p1, return_type: t1, is_variadic: v1 },
            Ty::FunctionPointer { params: p2, return_type: t2, is_variadic: v2 },
        ) => *v1 == *v2 && ty_list_eq(p1, p2) && ty_eq(t1, t2),
        (
            Ty::Callable { is_readonly: r1, params: p1, return_type: t1 },
            Ty::Callable { is_readonly: r2, params: p2, return_type: t2 },
        ) => *r1 == *r2 && ty_list_eq(p1, p2) && ty_eq(t1, t2),
        (
            Ty::CallablePointee { params: p1, return_type: t1 },
            Ty::CallablePointee { params: p2, return_type: t2 },
        ) => ty_list_eq(p1, p2) && ty_eq(t1, t2),
        (Ty::Optional { elem: e1 }, Ty::Optional { elem: e2 }) => ty_eq(e1, e2),
        (Ty::ErrorUnion { error: e1, value: v1 }, Ty::ErrorUnion { error: e2, value: v2 }) =>
            ty_eq(e1, e2) && ty_eq(v1, v2),
        (
            Ty::Nominal { def_id: d1, args: a1, const_args: c1 },
            Ty::Nominal { def_id: d2, args: a2, const_args: c2 },
        ) => *d1 == *d2 && ty_list_eq(a1, a2) && const_arg_list_eq(c1, c2),
        (Ty::BuiltinTrait { trait_id: t1, args: a1 }, Ty::BuiltinTrait { trait_id: t2, args: a2 }) =>
            *t1 == *t2 && ty_list_eq(a1, a2),
        (
            Ty::TraitObject {
                is_readonly: r1,
                trait_id: t1,
                trait_args: a1,
                trait_const_args: c1,
                bindings: b1,
            },
            Ty::TraitObject {
                is_readonly: r2,
                trait_id: t2,
                trait_args: a2,
                trait_const_args: c2,
                bindings: b2,
            },
        ) => *r1 == *r2 && *t1 == *t2 && ty_list_eq(a1, a2) && const_arg_list_eq(c1, c2)
            && binding_list_eq(b1, b2),
        (
            Ty::TraitObjectPointee { trait_id: t1, trait_args: a1, trait_const_args: c1, bindings: b1 },
            Ty::TraitObjectPointee { trait_id: t2, trait_args: a2, trait_const_args: c2, bindings: b2 },
        ) => *t1 == *t2 && ty_list_eq(a1, a2) && const_arg_list_eq(c1, c2) && binding_list_eq(
            b1,
            b2,
        ),
        (
            Ty::Projection {
                self_ty: s1,
                trait_id: t1,
                trait_args: a1,
                trait_const_args: c1,
                name: n1,
            },
            Ty::Projection {
                self_ty: s2,
                trait_id: t2,
                trait_args: a2,
                trait_const_args: c2,
                name: n2,
            },
        ) => *t1 == *t2 && *n1 == *n2 && ty_eq(s1, s2) && ty_list_eq(a1, a2) && const_arg_list_eq(
            c1,
            c2,
        ),
        (
            Ty::ClosureState { id: i1, captures: x1, params: p1, return_type: t1 },
            Ty::ClosureState { id: i2, captures: x2, params: p2, return_type: t2 },
        ) => *i1 == *i2 && ty_list_eq(x1, x2) && ty_list_eq(p1, p2) && ty_eq(t1, t2),
        _ => false,
    }
}

pub fn ty_list_eq(a: &TyList, b: &TyList) -> (r: bool)
    ensures
        r == (*a == *b),
    decreases a,
{
    match (a, b) {
        (TyList::Nil, TyList::Nil) => true,
        (TyList::Cons(h1, t1), TyList::Cons(h2, t2)) => ty_eq(h1, h2) && ty_list_eq(t1, t2),
        _ => false,
    }
}

pub fn const_arg_eq(a: &ConstGenericArg, b: &ConstGenericArg) -> (r: bool)
    ensures
        r == (*a == *b),
    decreases a,
{
    a.value == b.value && ty_eq(&a.ty, &b.ty)
}

pub fn const_arg_list_eq(a: &ConstArgList, b: &ConstArgList) -> (r: bool)
    ensures
        r == (*a == *b),
    decreases a,
{
    match (a, b) {
        (ConstArgList::Nil, ConstArgList::Nil) => true,
        (ConstArgList::Cons(h1, t1), ConstArgList::Cons(h2, t2)) => const_arg_eq(h1, h2)
            && const_arg_list_eq(t1, t2),
        _ => false,
    }
}

pub fn array_len_eq(a: &ArrayLen, b: &ArrayLen) -> (r: bool)
    ensures
        r == (*a == *b),
    decreases a,
{
    match (a, b) {
        (ArrayLen::ConstValue(x), ArrayLen::ConstValue(y)) => *x == *y,
        (ArrayLen::ConstExpr(x), ArrayLen::ConstExpr(y)) => *x == *y,
        (ArrayLen::Builtin { builtin: b1, ty: t1 }, ArrayLen::Builtin { builtin: b2, ty: t2 }) =>
            *b1 == *b2 && ty_eq(t1, t2),
        (ArrayLen::GenericParam(x), ArrayLen::GenericParam(y)) => *x == *y,
        (ArrayLen::Infer, ArrayLen::Infer) => true,
        _ => false,
    }
}

pub fn binding_eq(a: &AssocBinding, b: &AssocBinding) -> (r: bool)
    ensures
        r == (*a == *b),
    decreases a,
{
    a.trait_id == b.trait_id && a.name == b.name && ty_list_eq(&a.trait_args, &b.trait_args)
        && const_arg_list_eq(&a.trait_const_args, &b.trait_const_args) && ty_eq(&a.ty, &b.ty)
}

pub fn binding_list_eq(a: &BindingList, b: &BindingList) -> (r: bool)
    ensures
        r == (*a == *b),
    decreases a,
{
    match (a, b) {
        (BindingList::Nil, BindingList::Nil) => true,
        (BindingList::Cons(h1, t1), BindingList::Cons(h2, t2)) => binding_eq(h1, h2)
            && binding_list_eq(t1, t2),
        _ => false,
    }
}


/// A copy of a value that is equal to it.
pub trait DeepClone: Sized {
    fn deep_clone(&self) -> (r: Self)
        ensures
            r == *self,
    ;
}

impl DeepClone for Ty {
    fn deep_clone(&self) -> (r: Ty)
        decreases self,
    {
        match self {
            Ty::Primitive(p) => Ty::Primitive(*p),
            Ty::GenericParam(n) => Ty::GenericParam(*n),
            Ty::SelfParam => Ty::SelfParam,
            Ty::Opaque => Ty::Opaque,
            Ty::Error => Ty::Error,
            Ty::ConstOnly => Ty::ConstOnly,
            Ty::BuiltinType(b) => Ty::BuiltinType(*b),
            Ty::Vector { elem, lanes } => Ty::Vector { elem: *elem, lanes: *lanes },
            Ty::Tuple(elems) => Ty::Tuple(elems.deep_clone()),
            Ty::Pointer { is_readonly, elem } => Ty::Pointer {
                is_readonly: *is_readonly,
                elem: Box::new((**elem).deep_clone()),
            },
            Ty::VolatilePointer { is_readonly, elem } => Ty::VolatilePointer {
                is_readonly: *is_readonly,
                elem: Box::new((**elem).deep_clone()),
            },
            Ty::Slice { is_readonly, elem } => Ty::Slice {
                is_readonly: *is_readonly,
                elem: Box::new((**elem).deep_clone()),
            },
            Ty::SlicePointee { elem } => Ty::SlicePointee { elem: Box::new((**elem).deep_clone()) },
            Ty::Array { len, elem } => Ty::Array {
                len: len.deep_clone(),
                elem: Box::new((**elem).deep_clone()),
            },
            Ty::Range { kind, bound } => Ty::Range {
                kind: *kind,
                bound: match bound {
                    Some(b) => Some(Box::new((**b).deep_clone())),
                    None => None,
                },
            },
            Ty::FunctionPointer { params, return_type, is_variadic } => Ty::FunctionPointer {
                params: params.deep_clone(),
                return_type: Box::new((**return_type).deep_clone()),
                is_variadic: *is_variadic,
            },
            Ty::Callable { is_readonly, params, return_type } => Ty::Callable {
                is_readonly: *is_readonly,
                params: params.deep_clone(),
                return_type: Box::new((**return_type).deep_clone()),
            },
            Ty::CallablePointee { params, return_type } => Ty::CallablePointee {
                params: params.deep_clone(),
                return_type: Box::new((**return_type).deep_clone()),
            },
            Ty::Optional { elem } => Ty::Optional { elem: Box::new((**elem).deep_clone()) },
            Ty::ErrorUnion { error, value } => Ty::ErrorUnion {
                error: Box::new((**error).deep_clone()),
                value: Box::new((**value).deep_clone()),
            },
            Ty::Nominal { def_id, args, const_args } => Ty::Nominal {
                def_id: *def_id,
                args: args.deep_clone(),
                const_args: const_args.deep_clone(),
            },
            Ty::BuiltinTrait { trait_id, args } => Ty::BuiltinTrait {
                trait_id: *trait_id,
                args: args.deep_clone(),
            },
            Ty::TraitObject { is_readonly, trait_id, trait_args, trait_const_args, bindings } =>
                Ty::TraitObject {
                is_readonly: *is_readonly,
                trait_id: *trait_id,
                trait_args: trait_args.deep_clone(),
                trait_const_args: trait_const_args.deep_clone(),
                bindings: bindings.deep_clone(),
            },
            Ty::TraitObjectPointee { trait_id, trait_args, trait_const_args, bindings } =>
                Ty::TraitObjectPointee {
                trait_id: *trait_id,
                trait_args: trait_args.deep_clone(),
                trait_const_args: trait_const_args.deep_clone(),
                bindings: bindings.deep_clone(),
            },
            Ty::Projection { self_ty, trait_id, trait_args, trait_const_args, name } =>
                Ty::Projection {
                self_ty: Box::new((**self_ty).deep_clone()),
                trait_id: *trait_id,
                trait_args: trait_args.deep_clone(),
                trait_const_args: trait_const_args.deep_clone(),
                name: *name,
            },
            Ty::ClosureState { id, captures, params, return_type } => Ty::ClosureState {
                id: *id,
                captures: captures.deep_clone(),
                params: params.deep_clone(),
                return_type: Box::new((**return_type).deep_clone()),
            },
        }
    }
}

impl DeepClone for TyList {
    fn deep_clone(&self) -> (r: TyList)
        decreases self,
    {
        match self {
            TyList::Nil => TyList::Nil,
            TyList::Cons(head, tail) => TyList::Cons(
                Box::new((**head).deep_clone()),
                Box::new((**tail).deep_clone()),
            ),
        }
    }
}

impl DeepClone for ConstGenericArg {
    fn deep_clone(&self) -> (r: ConstGenericArg)
        decreases self,
    {
        ConstGenericArg { ty: Box::new((*self.ty).deep_clone()), value: self.value }
    }
}

impl DeepClone for ConstArgList {
    fn deep_clone(&self) -> (r: ConstArgList)
        decreases self,
    {
        match self {
            ConstArgList::Nil => ConstArgList::Nil,
            ConstArgList::Cons(head, tail) => ConstArgList::Cons(
                head.deep_clone(),
                Box::new((**tail).deep_clone()),
            ),
        }
    }
}

impl DeepClone for ArrayLen {
    fn deep_clone(&self) -> (r: ArrayLen)
        decreases self,
    {
        match self {
            ArrayLen::ConstValue(v) => ArrayLen::ConstValue(*v),
            ArrayLen::ConstExpr(id) => ArrayLen::ConstExpr(*id),
            ArrayLen::Builtin { builtin, ty } => ArrayLen::Builtin {
                builtin: *builtin,
                ty: Box::new((**ty).deep_clone()),
            },
            ArrayLen::GenericParam(n) => ArrayLen::GenericParam(*n),
            ArrayLen::Infer => ArrayLen::Infer,
        }
    }
}

impl DeepClone for AssocBinding {
    fn deep_clone(&self) -> (r: AssocBinding)
        decreases self,
    {
        AssocBinding {
            trait_id: self.trait_id,
            trait_args: self.trait_args.deep_clone(),
            trait_const_args: self.trait_const_args.deep_clone(),
            name: self.name,
            ty: Box::new((*self.ty).deep_clone()),
        }
    }
}

impl DeepClone for BindingList {
    fn deep_clone(&self) -> (r: BindingList)
        decreases self,
    {
        match self {
            BindingList::Nil => BindingList::Nil,
            BindingList::Cons(head, tail) => BindingList::Cons(
                head.deep_clone(),
                Box::new((**tail).deep_clone()),
            ),
        }
    }
}


/// Whether two type lists have the same length.
pub fn ty_list_same_len(a: &TyList, b: &TyList) -> (r: bool)
    ensures
        r == (a.len() == b.len()),
    decreases a,
{
    match (a, b) {
        (TyList::Nil, TyList::Nil) => true,
        (TyList::Cons(_, t1), TyList::Cons(_, t2)) => ty_list_same_len(t1, t2),
        _ => false,
    }
}

/// Whether two argument lists have the same length.
pub fn const_list_same_len(a: &ConstArgList, b: &ConstArgList) -> (r: bool)
    ensures
        r == (a.len() == b.len()),
    decreases a,
{
    match (a, b) {
        (ConstArgList::Nil, ConstArgList::Nil) => true,
        (ConstArgList::Cons(_, t1), ConstArgList::Cons(_, t2)) => const_list_same_len(t1, t2),
        _ => false,
    }
}

/// Whether two binding lists have the same length.
pub fn binding_list_same_len(a: &BindingList, b: &BindingList) -> (r: bool)
    ensures
        r == (a.len() == b.len()),
    decreases a,
{
    match (a, b) {
        (BindingList::Nil, BindingList::Nil) => true,
        (BindingList::Cons(_, t1), BindingList::Cons(_, t2)) => binding_list_same_len(t1, t2),
        _ => false,
    }
}

} // verus!
