//! The error code and summary line of each diagnostic. The summaries leave
//! out the names and types the report shows beside them, which the library
//! holds as interned symbols and types, not as text.
use vstd::prelude::*;
use crate::checker::Diagnostic;

verus! {

/// The category a diagnostic is reported under.
#[derive(Clone, Copy, Debug, PartialEq, Eq, Structural)]
pub enum DiagnosticCode {
    NameResolution,
    TypeCheck,
}

impl Diagnostic {
    /// A method that is not visible and an unknown method are name
    /// resolution errors; everything else is a type error.
    pub open spec fn spec_code(&self) -> DiagnosticCode {
        match self {
            Diagnostic::InaccessibleMethod { .. } | Diagnostic::UnknownMethod { .. } => DiagnosticCode::NameResolution,
            _ => DiagnosticCode::TypeCheck,
        }
    }

    /// The category of the diagnostic.
    pub fn code(&self) -> (r: DiagnosticCode)
        ensures
            r == self.spec_code(),
    {
        match self {
            Diagnostic::InaccessibleMethod { .. } | Diagnostic::UnknownMethod { .. } => DiagnosticCode::NameResolution,
            _ => DiagnosticCode::TypeCheck,
        }
    }

    /// The summary line of the diagnostic.
    pub open spec fn spec_summary(&self) -> &'static str {
        match self {
            Diagnostic::GenericArgCountMismatch { .. } => "generic argument count mismatch",
            Diagnostic::ConflictingInferredType { .. } => "conflicting inferred type for generic parameter",
            Diagnostic::ConflictingInferredValue { .. } => "conflicting inferred value for const generic parameter",
            Diagnostic::UninferredGeneric { .. } => "cannot infer generic parameter",
            Diagnostic::UninferredConstGeneric { .. } => "cannot infer comptime generic parameter",
            Diagnostic::AmbiguousMethod { .. } => "ambiguous method",
            Diagnostic::AmbiguousTraitMethod { .. } => "ambiguous trait method",
            Diagnostic::CmpxchgFailureTooStrong { .. } => "cmpxchg failure ordering cannot be stronger than success ordering",
            Diagnostic::AtomicOrderNotConstant { .. } => "atomic ordering must be a compile-time integer constant",
            Diagnostic::InvalidAtomicOrder { .. } => "invalid atomic ordering",
            Diagnostic::AtomicOrderNotAllowed { .. } => "atomic ordering is invalid here",
            Diagnostic::InaccessibleMethod { .. } => "method is not visible from this module",
            Diagnostic::NoMatchingMethodOverload { .. } => "no matching method overload",
            Diagnostic::UnknownMethod { .. } => "unknown method",
            Diagnostic::InvalidIntegerSuffix { .. } => "invalid integer literal suffix",
            Diagnostic::IntegerLiteralOutOfRange { .. } => "integer literal out of range for its suffix type",
            Diagnostic::InvalidFloatSuffix { .. } => "invalid float literal suffix",
            Diagnostic::NullWithoutExpectedType { .. } => "`null` requires an expected optional type",
            Diagnostic::NullNotOptional { .. } => "`null` requires an optional type",
            Diagnostic::LocalUsedBeforeType { .. } => "local used before its type is known",
            Diagnostic::NameUnresolved { .. } => "name is unresolved",
            Diagnostic::InvalidReferenceTarget { .. } => "reference target cannot have void or never type",
            Diagnostic::DerefOfNonPointer { .. } => "cannot dereference a value that is not a pointer",
            Diagnostic::TraitBoundNotSatisfied { .. } => "trait bound not satisfied",
            Diagnostic::SuccessWithoutErrorUnion { .. } => "`!value` requires an expected error union type",
            Diagnostic::ErrorWithoutErrorUnion { .. } => "`error!` requires an expected error union type",
            Diagnostic::OptionalPropagationNeedsOptionalReturn { .. } => "optional propagation requires an optional function return type",
            Diagnostic::ErrorPropagationMismatch { .. } => "error propagation type mismatch",
            Diagnostic::ErrorPropagationNeedsErrorReturn { .. } => "error propagation requires an error union function return type",
            Diagnostic::TryNeedsOptionalOrError { .. } => "`.?` requires optional or error union operand",
            Diagnostic::DiscardNeedsPlainAssign { .. } => "`_` discard only supports plain assignment",
            Diagnostic::TypeMismatch { .. } => "mismatched types",
            Diagnostic::InvalidCast { .. } => "invalid cast",
        }
    }

    /// The summary line of the diagnostic.
    pub fn summary(&self) -> (r: &'static str)
        ensures
            r == self.spec_summary(),
    {
        match self {
            Diagnostic::GenericArgCountMismatch { .. } => "generic argument count mismatch",
            Diagnostic::ConflictingInferredType { .. } => "conflicting inferred type for generic parameter",
            Diagnostic::ConflictingInferredValue { .. } => "conflicting inferred value for const generic parameter",
            Diagnostic::UninferredGeneric { .. } => "cannot infer generic parameter",
            Diagnostic::UninferredConstGeneric { .. } => "cannot infer comptime generic parameter",
            Diagnostic::AmbiguousMethod { .. } => "ambiguous method",
            Diagnostic::AmbiguousTraitMethod { .. } => "ambiguous trait method",
            Diagnostic::CmpxchgFailureTooStrong { .. } => "cmpxchg failure ordering cannot be stronger than success ordering",
            Diagnostic::AtomicOrderNotConstant { .. } => "atomic ordering must be a compile-time integer constant",
            Diagnostic::InvalidAtomicOrder { .. } => "invalid atomic ordering",
            Diagnostic::AtomicOrderNotAllowed { .. } => "atomic ordering is invalid here",
            Diagnostic::InaccessibleMethod { .. } => "method is not visible from this module",
            Diagnostic::NoMatchingMethodOverload { .. } => "no matching method overload",
            Diagnostic::UnknownMethod { .. } => "unknown method",
            Diagnostic::InvalidIntegerSuffix { .. } => "invalid integer literal suffix",
            Diagnostic::IntegerLiteralOutOfRange { .. } => "integer literal out of range for its suffix type",
            Diagnostic::InvalidFloatSuffix { .. } => "invalid float literal suffix",
            Diagnostic::NullWithoutExpectedType { .. } => "`null` requires an expected optional type",
            Diagnostic::NullNotOptional { .. } => "`null` requires an optional type",
            Diagnostic::LocalUsedBeforeType { .. } => "local used before its type is known",
            Diagnostic::NameUnresolved { .. } => "name is unresolved",
            Diagnostic::InvalidReferenceTarget { .. } => "reference target cannot have void or never type",
            Diagnostic::DerefOfNonPointer { .. } => "cannot dereference a value that is not a pointer",
            Diagnostic::TraitBoundNotSatisfied { .. } => "trait bound not satisfied",
            Diagnostic::SuccessWithoutErrorUnion { .. } => "`!value` requires an expected error union type",
            Diagnostic::ErrorWithoutErrorUnion { .. } => "`error!` requires an expected error union type",
            Diagnostic::OptionalPropagationNeedsOptionalReturn { .. } => "optional propagation requires an optional function return type",
            Diagnostic::ErrorPropagationMismatch { .. } => "error propagation type mismatch",
            Diagnostic::ErrorPropagationNeedsErrorReturn { .. } => "error propagation requires an error union function return type",
            Diagnostic::TryNeedsOptionalOrError { .. } => "`.?` requires optional or error union operand",
            Diagnostic::DiscardNeedsPlainAssign { .. } => "`_` discard only supports plain assignment",
            Diagnostic::TypeMismatch { .. } => "mismatched types",
            Diagnostic::InvalidCast { .. } => "invalid cast",
        }
    }
}

} // verus!
