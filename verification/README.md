# nia_body_check

The verified core of the body checker of the Nia compiler: the parts of
call resolution and local inference that decide on types, written in Verus
with their contracts proved.

Layout of `src/`:

- `ty`, `ids`, `table`, `symbol_map`, `def_set`: types in normal form, ids,
  and the small maps the checker keeps.
- `subst`, `pattern_matching`, `type_patterns`, `shapes`, `inference`,
  `const_inference`, `binding_search`, `inferred`: substitution, matching of
  generic patterns against types, and generic inference from types and from
  partial closure types.
- `receivers`, `receiver_matching`, `dynamic`, `type_queries`,
  `expected_types`, `builtin_outputs`, `projections`, `nominal`, `owners`:
  receiver types, trait objects, expected types, operator results and the
  normalization of projections, nominal types and type aliases, and the
  types methods are declared on.
- `extension_source`, `extension_lookup`, `extension_cache`,
  `extension_index`, `method_candidates`, `candidates`, `generic_completion`,
  `resolution`, `method_dispatch`: visible extension methods, lookups of
  extension methods, the per-name cache of callable methods, candidate
  selection, the decision a method call takes, and provider demands.
- `expressions`, `expression_check`: the types of a body's expressions
  against what is expected of them: literals, names, address-of and
  dereference, the builtin unary operators, optional and error-union
  constructors, propagation with `.?`, assignment, casts and `if`, with
  the diagnostics they report and the node types they record.
- `function_inference`, `unification`, `constraints`, `inference_resolve`:
  the union-find equality graph of function-local inference, the
  unification of its terms (which keeps every class's structure, class for
  class), the collection of equalities and operator obligations from a
  body's expressions, and reading its terms back as types.
- `checker`, `names`, `diagnostic_text`, `atomic`, `filter`: the checker
  state, the names of primitive types and builtin traits, the codes and
  summaries of diagnostics, atomic builtin argument rules, and the
  reachable-item filter.
- `*_laws`: laws that relate several functions.

`tests/` holds tests on concrete values.
