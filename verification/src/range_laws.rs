//! The range of each integer type, by its bit width, and the literal check
//! that rests on it.
use vstd::prelude::*;
use vstd::arithmetic::power2::{lemma2_to64, lemma2_to64_rest, lemma_pow2_adds, pow2};
use crate::checker::{BodyChecker, Diagnostic};
use crate::expressions::{spec_integer_max, spec_leaf, ExprKind, NumericSuffix};
use crate::ids::Span;
use crate::projections::spec_is_integer;
use crate::ty::{PrimitiveTy, Ty};

verus! {

/// The number of bits of an integer type (`isize` and `usize` at 64).
pub open spec fn spec_integer_bits(p: PrimitiveTy) -> nat {
    match p {
        PrimitiveTy::I8 | PrimitiveTy::U8 => 8,
        PrimitiveTy::I16 | PrimitiveTy::U16 => 16,
        PrimitiveTy::I32 | PrimitiveTy::U32 => 32,
        PrimitiveTy::I64 | PrimitiveTy::U64 | PrimitiveTy::Isize | PrimitiveTy::Usize => 64,
        _ => 128,
    }
}

/// A signed integer type.
pub open spec fn spec_is_signed(p: PrimitiveTy) -> bool {
    p is I8 || p is I16 || p is I32 || p is I64 || p is I128 || p is Isize
}

/// How many non-negative values an integer type holds: 2^(n-1) for a
/// signed type of n bits, 2^n for an unsigned one.
pub open spec fn spec_nonnegative_count(p: PrimitiveTy) -> nat {
    if spec_is_signed(p) {
        pow2((spec_integer_bits(p) - 1) as nat)
    } else {
        pow2(spec_integer_bits(p))
    }
}

/// The largest value of an integer type is one less than the number of its
/// non-negative values: 2^(n-1) - 1 for a signed type of n bits, 2^n - 1
/// for an unsigned one.
pub proof fn lemma_integer_max_by_width(p: PrimitiveTy)
    requires
        spec_is_integer(p),
    ensures
        spec_integer_max(p) + 1 == spec_nonnegative_count(p),
{
    lemma2_to64();
    lemma2_to64_rest();
    lemma_pow2_adds(63, 64);
    lemma_pow2_adds(64, 64);
}

impl BodyChecker {
    /// A suffixed integer literal is reported out of range exactly when its
    /// value is at least the number of non-negative values of its type
    /// (2^31 for `i32`, 2^8 for `u8`), and its type is the suffix's.
    pub proof fn lemma_literal_reported_out_of_range(&self, value: u128, p: PrimitiveTy, span: Span, expected: Option<Ty>)
        requires
            spec_is_integer(p),
        ensures
            spec_leaf(*self, ExprKind::Integer { value, suffix: NumericSuffix::Typed(p) }, span, expected).0
                == Ty::Primitive(p),
            spec_leaf(*self, ExprKind::Integer { value, suffix: NumericSuffix::Typed(p) }, span, expected).1
                == (if value >= spec_nonnegative_count(p) {
                Some(Diagnostic::IntegerLiteralOutOfRange { span, ty: p })
            } else {
                None
            }),
    {
        lemma_integer_max_by_width(p);
    }
}

} // verus!
