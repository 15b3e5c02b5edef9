//! Verified core of the Nia body checker: type-pattern matching and
//! subsumption for method resolution, generic substitution and inference,
//! receiver matching, the per-name cache of callable extension methods and
//! the extension lookups it rests on, the decision a method call takes, the
//! types of expressions checked against what is expected of them, the
//! normalization of operator results,
//! the equality graph of function-local inference with its unification,
//! the collection of its equalities from a body and the reading of its
//! terms back as types, provider demands, the reachable-item check filter
//! and atomic builtin argument rules.
pub mod ids;
pub mod atomic;
pub mod ty;
pub mod symbol_map;
pub mod table;
pub mod subst;
pub mod checker;
pub mod pattern_matching;
pub mod type_patterns;
pub mod def_set;
pub mod filter;
pub mod dynamic;
pub mod type_queries;
pub mod receivers;
pub mod resolution;
pub mod nominal;
pub mod shapes;
pub mod inference;
pub mod binding_search;
pub mod const_inference;
pub mod matching_laws;
pub mod subst_laws;
pub mod inference_laws;
pub mod builtin_outputs;
pub mod extension_index;
pub mod candidates;
pub mod generic_completion;
pub mod soundness_laws;
pub mod inferred;
pub mod expected_types;
pub mod extension_source;
pub mod extension_cache;
pub mod method_candidates;
pub mod receiver_matching;
pub mod extension_lookup;
pub mod extension_laws;
pub mod function_inference;
pub mod inference_resolve;
pub mod resolve_laws;
pub mod owners;
pub mod names;
pub mod method_dispatch;
pub mod expressions;
pub mod unification;
pub mod projections;
pub mod constraints;
pub mod diagnostic_text;
pub mod subsumption_laws;
pub mod expression_check;
pub mod completeness_laws;
pub mod range_laws;
