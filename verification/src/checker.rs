use vstd::prelude::*;
use crate::ids::{DefId, GlobalDefId, LocalId, ModuleId, ReceiverKind, Span, SymbolId};
use crate::table::Table;
use crate::extension_index::CallableExtensionMethods;
use crate::extension_cache::ProgramExtensionMethod;
use crate::extension_source::BodyVisibleExtensionSource;
use crate::receiver_matching::TraitObligation;
use crate::owners::DefKind;
use crate::names::{BuiltinTraitNames, PrimitiveNames};
use crate::projections::ProjectionFact;
use crate::ty::{ArrayLen, BuiltinTrait, PrimitiveTy, Ty, ty_eq};
use crate::atomic::{AtomicOrderContext, CheckedAtomicOrder};

verus! {

/// The evaluated value of a layout builtin (such as a size) applied to a type.
pub struct LayoutFact {
    pub builtin: u32,
    pub ty: Ty,
    pub value: u64,
}

/// The first value recorded for `id`.
pub open spec fn spec_lookup_u32(s: Seq<(u32, u64)>, id: u32) -> Option<u64>
    decreases s.len(),
{
    if s.len() == 0 {
        None
    } else if s[0].0 == id {
        Some(s[0].1)
    } else {
        spec_lookup_u32(s.drop_first(), id)
    }
}

/// The first value recorded for the builtin `builtin` applied to `ty`.
pub open spec fn spec_lookup_layout(s: Seq<LayoutFact>, builtin: u32, ty: Ty) -> Option<u64>
    decreases s.len(),
{
    if s.len() == 0 {
        None
    } else if s[0].builtin == builtin && s[0].ty == ty {
        Some(s[0].value)
    } else {
        spec_lookup_layout(s.drop_first(), builtin, ty)
    }
}

/// An interned source path.
pub type SourcePathId = u32;

/// What a body check asks another module or package to provide.
#[derive(Clone, Copy, Debug, PartialEq, Eq, Structural)]
pub enum ProviderRequest {
    Method { target_type_name: Option<SymbolId>, method_name: SymbolId },
    TraitImpl { target_type_name: Option<SymbolId>, trait_name: SymbolId },
    ModuleSemantic { module_source: SourcePathId },
}

/// A request recorded by the check of one source file.
#[derive(Clone, Copy, Debug, PartialEq, Eq, Structural)]
pub struct ProviderDemand {
    pub source_path: SourcePathId,
    pub request: ProviderRequest,
}

/// A problem found in the checked code.
#[derive(Debug)]
#[allow(inconsistent_fields)]
pub enum Diagnostic {
    /// A type prefix gives a different number of generic arguments than its
    /// definition declares.
    GenericArgCountMismatch {
        span: Span,
        def_id: GlobalDefId,
        name: Option<SymbolId>,
        expected: usize,
        actual: usize,
    },
    /// Inference found two different types for one generic parameter.
    ConflictingInferredType { span: Span, name: SymbolId, expected: Ty, actual: Ty },
    /// Inference found two different values for one compile-time parameter.
    ConflictingInferredValue { span: Span, name: SymbolId },
    /// A generic parameter was left without a type.
    UninferredGeneric { span: Span, name: SymbolId },
    /// A compile-time generic parameter was left without a value.
    UninferredConstGeneric { span: Span, name: SymbolId },
    /// More than one extension method fits a call and none is more specific.
    AmbiguousMethod { span: Span, name: SymbolId },
    /// More than one trait method fits a call and none is more specific.
    AmbiguousTraitMethod { span: Span, name: SymbolId },
    /// A cmpxchg's failure ordering is stronger than its success ordering.
    CmpxchgFailureTooStrong { span: Span },
    /// An atomic ordering argument is not a compile-time integer constant.
    AtomicOrderNotConstant { span: Span },
    /// An atomic ordering argument names no ordering.
    InvalidAtomicOrder { span: Span, value: i128 },
    /// An atomic ordering is not allowed where it is written.
    AtomicOrderNotAllowed { span: Span, order: CheckedAtomicOrder, context: AtomicOrderContext },
    /// Every extension method of the called name is private to another module.
    InaccessibleMethod { span: Span, name: SymbolId },
    /// Several extension methods of the called name exist and none accepts
    /// the call's arguments.
    NoMatchingMethodOverload { span: Span, name: SymbolId, receiver: Ty },
    /// No method of the called name is available on the receiver.
    UnknownMethod { span: Span, name: SymbolId, receiver: Ty },
    /// An integer literal's suffix names no integer type.
    InvalidIntegerSuffix { span: Span },
    /// An integer literal is larger than the integer type its suffix names
    /// holds.
    IntegerLiteralOutOfRange { span: Span, ty: PrimitiveTy },
    /// A float literal's suffix names no float type.
    InvalidFloatSuffix { span: Span },
    /// `null` where no type is expected.
    NullWithoutExpectedType { span: Span },
    /// `null` where a type that is not optional is expected.
    NullNotOptional { span: Span, found: Ty },
    /// A local is used before its type is known.
    LocalUsedBeforeType { span: Span },
    /// A name resolves to nothing.
    NameUnresolved { span: Span },
    /// A reference points at `void` or the never type.
    InvalidReferenceTarget { span: Span },
    /// A dereferenced expression is no pointer.
    DerefOfNonPointer { span: Span, found: Ty },
    /// An operand's type does not implement the operator's builtin trait.
    TraitBoundNotSatisfied { span: Span, ty: Ty, trait_id: BuiltinTrait },
    /// A success value where no error union is expected.
    SuccessWithoutErrorUnion { span: Span },
    /// An error value where no error union is expected.
    ErrorWithoutErrorUnion { span: Span },
    /// Optional propagation in a function that does not return an optional.
    OptionalPropagationNeedsOptionalReturn { span: Span },
    /// Error propagation of an error the function's return type cannot take.
    ErrorPropagationMismatch { span: Span, found: Ty },
    /// Error propagation in a function that does not return an error union.
    ErrorPropagationNeedsErrorReturn { span: Span },
    /// Propagation of something that is neither optional nor an error union.
    TryNeedsOptionalOrError { span: Span, found: Ty },
    /// A discarding assignment that is not plain.
    DiscardNeedsPlainAssign { span: Span },
    /// An expression's type does not match the type expected of it.
    TypeMismatch { span: Span, expected: Ty, found: Ty },
    /// A cast the language does not allow.
    InvalidCast { span: Span, source: Ty, target: Ty },
}

/// What the checker knows of an extension method from its `extend` block.
pub struct ExtensionMethodLookup {
    pub target_ty: Ty,
    pub impl_id: u32,
    /// The block's generics followed by the method's own.
    pub effective_generics: Vec<SymbolId>,
    pub effective_const_generics: Vec<SymbolId>,
}

/// A generic parameter of a definition.
#[derive(Clone, Copy, Debug, PartialEq, Eq, Structural)]
pub struct GenericParamFact {
    pub name: SymbolId,
    pub is_comptime: bool,
}

/// A type alias: its generic parameters and the type it stands for.
pub struct TypeAliasFact {
    pub generic_count: usize,
    pub target: Ty,
}

/// The state that the body checker reads while it resolves calls: the
/// current module, the facts that earlier phases computed for the program,
/// the caches it fills and what it records.
pub struct BodyChecker {
    pub module_id: ModuleId,
    /// Values of the array-length constant expressions, by expression id.
    pub const_expr_values: Vec<(u32, u64)>,
    /// Values of the layout builtins used as array lengths.
    pub layout_values: Vec<LayoutFact>,
    /// Names of this module's definitions.
    pub local_def_names: Table<DefId, SymbolId>,
    /// Names of other modules' definitions, when the program's definitions
    /// are available.
    pub program_def_names: Option<Table<GlobalDefId, SymbolId>>,
    /// The interned names of the primitive types.
    pub primitive_names: PrimitiveNames,
    /// The interned names of the builtin traits.
    pub builtin_trait_names: BuiltinTraitNames,
    /// The file being checked.
    pub source_path: SourcePathId,
    /// Source paths of the program's modules, when they are available.
    pub module_source_paths: Option<Table<ModuleId, SourcePathId>>,
    /// The function whose body is being checked.
    pub current_def_id: Option<GlobalDefId>,
    /// Every demand recorded so far, without repetitions.
    pub provider_demands: Vec<ProviderDemand>,
    /// The demands recorded per checked function, without repetitions.
    pub provider_demands_by_function: Vec<(GlobalDefId, ProviderDemand)>,
    /// The receiver kind of each resolved method signature (none for a
    /// function without a receiver).
    pub method_signature_receivers: Table<GlobalDefId, Option<ReceiverKind>>,
    /// Receiver kinds looked up so far (`None` inside: no signature or no
    /// receiver).
    pub method_receiver_kinds: Table<GlobalDefId, Option<ReceiverKind>>,
    /// The traits of the program that declare a method of a given name.
    pub program_traits_by_method_name: Table<SymbolId, Vec<GlobalDefId>>,
    /// Trait lists looked up so far.
    pub traits_by_method_name: Table<SymbolId, Vec<GlobalDefId>>,
    /// Extension methods visible to the body, by method.
    pub extension_methods: Table<GlobalDefId, ExtensionMethodLookup>,
    /// The generic parameters of the program's structs, unions and enums.
    pub nominal_generics: Table<GlobalDefId, Vec<SymbolId>>,
    /// The generic parameters of the program's definitions.
    pub def_generic_params: Table<GlobalDefId, Vec<GenericParamFact>>,
    /// The type aliases of the program.
    pub type_aliases: Table<GlobalDefId, TypeAliasFact>,
    /// The parameter types of the program's resolved function signatures,
    /// the receiver first.
    pub function_param_types: Table<GlobalDefId, Vec<Ty>>,
    /// The name of the `Output` associated type of the builtin traits.
    pub output_assoc_name: SymbolId,
    /// The name of the `Target` associated type of the builtin pointer traits.
    pub target_assoc_name: SymbolId,
    /// Where the extension methods visible to the body come from.
    pub extensions: BodyVisibleExtensionSource,
    /// The program's extension methods.
    pub program_extension_methods: Vec<ProgramExtensionMethod>,
    /// The modules whose extension targets the program has normalized, when
    /// the program provides them.
    pub extension_normalization_modules: Option<Vec<ModuleId>>,
    /// Lookups of program extension methods made so far.
    pub extension_method_lookup_cache: Table<GlobalDefId, ExtensionMethodLookup>,
    /// The callable extension methods of each name looked up so far.
    pub callable_extension_methods_by_name: Table<SymbolId, CallableExtensionMethods>,
    /// The kinds of this module's definitions.
    pub local_def_kinds: Table<DefId, DefKind>,
    /// The trait obligations the trait solver proves in the current context.
    pub proven_trait_obligations: Vec<TraitObligation>,
    /// The types known for the function's locals.
    pub local_types: Table<LocalId, Ty>,
    /// The return type of the function being checked.
    pub current_return: Ty,
    /// The program's enums, each with whether it is open.
    pub enum_defs: Table<GlobalDefId, bool>,
    /// The projections the program's implementations settle, with the type
    /// each gets.
    pub projection_facts: Vec<ProjectionFact>,
    /// The types of the expressions checked so far, by node key.
    pub expr_node_types: Table<u32, Ty>,
    /// What the check has found so far.
    pub diagnostics: Vec<Diagnostic>,
}

impl BodyChecker {
    /// The value of an array length, where it is known.
    pub open spec fn spec_array_len_value(&self, len: ArrayLen) -> Option<u64> {
        match len {
            ArrayLen::ConstValue(v) => Some(v),
            ArrayLen::ConstExpr(id) => spec_lookup_u32(self.const_expr_values@, id),
            ArrayLen::Builtin { builtin, ty } => spec_lookup_layout(
                self.layout_values@,
                builtin,
                *ty,
            ),
            ArrayLen::GenericParam(_) | ArrayLen::Infer => None,
        }
    }

    /// The value of the constant expression `id` used as an array length.
    pub fn array_len_const_expr_value(&self, id: u32) -> (r: Option<u64>)
        ensures
            r == spec_lookup_u32(self.const_expr_values@, id),
    {
        let mut i: usize = 0;
        proof {
            assert(self.const_expr_values@.skip(0) =~= self.const_expr_values@);
        }
        while i < self.const_expr_values.len()
            invariant
                i <= self.const_expr_values@.len(),
                spec_lookup_u32(self.const_expr_values@, id) == spec_lookup_u32(
                    self.const_expr_values@.skip(i as int),
                    id,
                ),
            decreases self.const_expr_values@.len() - i,
        {
            proof {
                assert(self.const_expr_values@.skip(i as int).drop_first()
                    =~= self.const_expr_values@.skip(i + 1));
            }
            if self.const_expr_values[i].0 == id {
                return Some(self.const_expr_values[i].1);
            }
            i = i + 1;
        }
        None
    }

    fn layout_value(&self, builtin: u32, ty: &Ty) -> (r: Option<u64>)
        ensures
            r == spec_lookup_layout(self.layout_values@, builtin, *ty),
    {
        let mut i: usize = 0;
        proof {
            assert(self.layout_values@.skip(0) =~= self.layout_values@);
        }
        while i < self.layout_values.len()
            invariant
                i <= self.layout_values@.len(),
                spec_lookup_layout(self.layout_values@, builtin, *ty) == spec_lookup_layout(
                    self.layout_values@.skip(i as int),
                    builtin,
                    *ty,
                ),
            decreases self.layout_values@.len() - i,
        {
            proof {
                assert(self.layout_values@.skip(i as int).drop_first() =~= self.layout_values@.skip(
                    i + 1,
                ));
            }
            if self.layout_values[i].builtin == builtin && ty_eq(&self.layout_values[i].ty, ty) {
                return Some(self.layout_values[i].value);
            }
            i = i + 1;
        }
        None
    }

    /// The value of an array length, where it is known.
    pub fn array_len_value(&self, len: &ArrayLen) -> (r: Option<u64>)
        ensures
            r == self.spec_array_len_value(*len),
    {
        match len {
            ArrayLen::ConstValue(v) => Some(*v),
            ArrayLen::ConstExpr(id) => self.array_len_const_expr_value(*id),
            ArrayLen::Builtin { builtin, ty } => self.layout_value(*builtin, ty),
            ArrayLen::GenericParam(_) | ArrayLen::Infer => None,
        }
    }
}

} // verus!
