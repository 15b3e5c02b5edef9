//! Method resolution support: definition names, the demands a check records
//! for other modules to provide, receiver kinds, traits by method name and
//! the instance arguments of extension methods.
use vstd::prelude::*;
use crate::checker::{BodyChecker, ProviderDemand, ProviderRequest};
use crate::ids::{GlobalDefId, ModuleId, ReceiverKind, SymbolId};
use crate::receivers::{receiver_ty_for_target, spec_receiver_ty_for_target};
use crate::symbol_map::SymbolMap;
use crate::ty::{DeepClone, TraitId, Ty, ty_eq};

verus! {

/// Whether a demand would name an erroneous type.
pub open spec fn spec_provider_demand_target_is_error(ty: Ty) -> bool {
    ty is Error || ty is ConstOnly
}

fn push_unique(v: &mut Vec<ProviderDemand>, d: ProviderDemand)
    ensures
        final(v)@.to_set() == old(v)@.to_set().insert(d),
        old(v)@.no_duplicates() ==> final(v)@.no_duplicates(),
{
    let mut i: usize = 0;
    while i < v.len()
        invariant
            i <= v@.len(),
            forall|j: int| 0 <= j < i ==> v@[j] != d,
        decreases v@.len() - i,
    {
        if v[i] == d {
            proof {
                assert(v@.contains(d));
                assert(v@.to_set().insert(d) =~= v@.to_set());
            }
            return;
        }
        i = i + 1;
    }
    let ghost before = v@;
    v.push(d);
    let ghost after = v@;
    proof {
        assert(after =~= before.push(d));
        assert(after.to_set() =~= before.to_set().insert(d)) by {
            assert forall|x: ProviderDemand| after.contains(x) <==> before.contains(x) || x == d by {
                if after.contains(x) {
                    let j = choose|j: int| 0 <= j < after.len() && after[j] == x;
                    if j < before.len() {
                        assert(before[j] == x);
                    }
                }
                if before.contains(x) {
                    let j = choose|j: int| 0 <= j < before.len() && before[j] == x;
                    assert(after[j] == x);
                }
                if x == d {
                    assert(after[before.len() as int] == x);
                }
            }
        }
    }
}

fn push_unique_pair(v: &mut Vec<(GlobalDefId, ProviderDemand)>, p: (GlobalDefId, ProviderDemand))
    ensures
        final(v)@.to_set() == old(v)@.to_set().insert(p),
{
    let mut i: usize = 0;
    while i < v.len()
        invariant
            i <= v@.len(),
            forall|j: int| 0 <= j < i ==> v@[j] != p,
        decreases v@.len() - i,
    {
        if v[i].0.same(&p.0) && v[i].1 == p.1 {
            proof {
                assert(v@[i as int] == p);
                assert(v@.contains(p));
                assert(v@.to_set().insert(p) =~= v@.to_set());
            }
            return;
        }
        i = i + 1;
    }
    let ghost before = v@;
    v.push(p);
    let ghost after = v@;
    proof {
        assert(after =~= before.push(p));
        assert(after.to_set() =~= before.to_set().insert(p)) by {
            assert forall|x: (GlobalDefId, ProviderDemand)| after.contains(x) <==> before.contains(x)
                || x == p by {
                if after.contains(x) {
                    let j = choose|j: int| 0 <= j < after.len() && after[j] == x;
                    if j < before.len() {
                        assert(before[j] == x);
                    }
                }
                if before.contains(x) {
                    let j = choose|j: int| 0 <= j < before.len() && before[j] == x;
                    assert(after[j] == x);
                }
                if x == p {
                    assert(after[before.len() as int] == x);
                }
            }
        }
    }
}

impl BodyChecker {
    /// The name of a definition of this module or, when the program's
    /// definitions are available, of another module.
    pub open spec fn spec_definition_name(&self, def_id: GlobalDefId) -> Option<SymbolId> {
        if def_id.module_id == self.module_id {
            self.local_def_names.spec_get(def_id.def_id)
        } else {
            match self.program_def_names {
                Some(t) => t.spec_get(def_id),
                None => None,
            }
        }
    }

    /// The name of a definition.
    pub fn definition_name(&self, def_id: GlobalDefId) -> (r: Option<SymbolId>)
        ensures
            r == self.spec_definition_name(def_id),
    {
        if def_id.module_id == self.module_id {
            return match self.local_def_names.get(&def_id.def_id) {
                Some(n) => Some(*n),
                None => None,
            };
        }
        match &self.program_def_names {
            Some(t) => match t.get(&def_id) {
                Some(n) => Some(*n),
                None => None,
            },
            None => None,
        }
    }

    /// The name under which a demand refers to a type: a primitive's name, a
    /// nominal type's definition name, looking through pointers.
    pub open spec fn spec_provider_target_type_name(&self, ty: Ty) -> Option<SymbolId>
        decreases ty,
    {
        match ty {
            Ty::Primitive(p) => Some(self.primitive_names.spec_name(p)),
            Ty::Nominal { def_id, .. } => self.spec_definition_name(def_id),
            Ty::Pointer { elem, .. } | Ty::VolatilePointer { elem, .. } =>
                self.spec_provider_target_type_name(*elem),
            _ => None,
        }
    }

    /// The name under which a demand refers to a type.
    pub fn provider_target_type_name(&self, ty: &Ty) -> (r: Option<SymbolId>)
        ensures
            r == self.spec_provider_target_type_name(*ty),
        decreases ty,
    {
        match ty {
            Ty::Primitive(p) => Some(self.primitive_names.name(*p)),
            Ty::Nominal { def_id, .. } => self.definition_name(*def_id),
            Ty::Pointer { elem, .. } | Ty::VolatilePointer { elem, .. } =>
                self.provider_target_type_name(elem),
            _ => None,
        }
    }

    /// Everything but the demand lists is unchanged.
    pub open spec fn same_except_demands(&self, other: &BodyChecker) -> bool {
        &&& self.module_id == other.module_id
        &&& self.source_path == other.source_path
        &&& self.current_def_id == other.current_def_id
        &&& self.diagnostics@ == other.diagnostics@
        &&& self.local_def_names == other.local_def_names
        &&& self.program_def_names == other.program_def_names
        &&& self.primitive_names == other.primitive_names
        &&& self.builtin_trait_names == other.builtin_trait_names
        &&& self.module_source_paths == other.module_source_paths
        &&& self.method_receiver_kinds == other.method_receiver_kinds
        &&& self.traits_by_method_name == other.traits_by_method_name
    }

    /// Nothing but the demand lists differs from `other`.
    pub open spec fn only_demands_changed(&self, other: &BodyChecker) -> bool {
        *self == (BodyChecker {
            provider_demands: self.provider_demands,
            provider_demands_by_function: self.provider_demands_by_function,
            ..*other
        })
    }

    /// The demand lists after recording `demand`.
    pub open spec fn demands_recorded(&self, old: &BodyChecker, demand: ProviderDemand) -> bool {
        &&& self.provider_demands@.to_set() == old.provider_demands@.to_set().insert(demand)
        &&& self.provider_demands_by_function@.to_set() == match old.current_def_id {
            Some(f) => old.provider_demands_by_function@.to_set().insert((f, demand)),
            None => old.provider_demands_by_function@.to_set(),
        }
    }

    /// Records a demand, for the file and for the function being checked.
    pub fn record_provider_demand(&mut self, demand: ProviderDemand)
        ensures
            final(self).same_except_demands(old(self)),
            final(self).only_demands_changed(old(self)),
            final(self).demands_recorded(old(self), demand),
    {
        push_unique(&mut self.provider_demands, demand);
        if let Some(function) = self.current_def_id {
            push_unique_pair(&mut self.provider_demands_by_function, (function, demand));
        }
    }

    /// Records that the check needs method `method_name` on the receiver's
    /// type, unless that type is erroneous.
    pub fn record_method_provider_demand(&mut self, receiver_ty: &Ty, method_name: SymbolId)
        ensures
            final(self).same_except_demands(old(self)),
            final(self).only_demands_changed(old(self)),
            if spec_provider_demand_target_is_error(*receiver_ty) {
                final(self).provider_demands == old(self).provider_demands
                    && final(self).provider_demands_by_function
                    == old(self).provider_demands_by_function
            } else {
                final(self).demands_recorded(
                    old(self),
                    ProviderDemand {
                        source_path: old(self).source_path,
                        request: ProviderRequest::Method {
                            target_type_name: old(self).spec_provider_target_type_name(*receiver_ty),
                            method_name,
                        },
                    },
                )
            },
    {
        if self.provider_demand_target_is_error(receiver_ty) {
            return;
        }
        let target_type_name = self.provider_target_type_name(receiver_ty);
        self.record_provider_demand(
            ProviderDemand {
                source_path: self.source_path,
                request: ProviderRequest::Method { target_type_name, method_name },
            },
        );
    }

    /// The name a demand gives a trait: the trait's definition name, or the
    /// builtin trait's name.
    pub open spec fn spec_trait_name(&self, trait_id: TraitId) -> Option<SymbolId> {
        match trait_id {
            TraitId::Source(def_id) => self.spec_definition_name(def_id),
            TraitId::Builtin(b) => Some(self.builtin_trait_names.spec_name(b)),
        }
    }

    /// Records that the check needs an implementation of `trait_id` for
    /// `self_ty`, unless the type is erroneous or the trait has no name.
    pub fn record_trait_provider_demand(&mut self, self_ty: &Ty, trait_id: TraitId)
        ensures
            final(self).same_except_demands(old(self)),
            if spec_provider_demand_target_is_error(*self_ty) || old(self).spec_trait_name(
                trait_id,
            ) is None {
                final(self).provider_demands == old(self).provider_demands
                    && final(self).provider_demands_by_function
                    == old(self).provider_demands_by_function
            } else {
                final(self).demands_recorded(
                    old(self),
                    ProviderDemand {
                        source_path: old(self).source_path,
                        request: ProviderRequest::TraitImpl {
                            target_type_name: old(self).spec_provider_target_type_name(*self_ty),
                            trait_name: old(self).spec_trait_name(trait_id).unwrap(),
                        },
                    },
                )
            },
    {
        if self.provider_demand_target_is_error(self_ty) {
            return;
        }
        let target_type_name = self.provider_target_type_name(self_ty);
        let trait_name = match trait_id {
            TraitId::Source(def_id) => match self.definition_name(def_id) {
                Some(name) => name,
                None => {
                    return;
                },
            },
            TraitId::Builtin(builtin) => self.builtin_trait_names.name(builtin),
        };
        self.record_provider_demand(
            ProviderDemand {
                source_path: self.source_path,
                request: ProviderRequest::TraitImpl { target_type_name, trait_name },
            },
        );
    }

    /// Records that the check needs the semantic facts of another module,
    /// when its source path is known.
    pub fn record_semantic_provider_module(&mut self, module_id: ModuleId)
        ensures
            final(self).same_except_demands(old(self)),
            match old(self).module_source_paths {
                Some(paths) if module_id != old(self).module_id && paths.spec_get(module_id) is Some =>
                    final(self).demands_recorded(
                    old(self),
                    ProviderDemand {
                        source_path: old(self).source_path,
                        request: ProviderRequest::ModuleSemantic {
                            module_source: paths.spec_get(module_id).unwrap(),
                        },
                    },
                ),
                _ => final(self).provider_demands == old(self).provider_demands
                    && final(self).provider_demands_by_function
                    == old(self).provider_demands_by_function,
            },
    {
        if module_id == self.module_id {
            return;
        }
        let module_source = match &self.module_source_paths {
            Some(paths) => match paths.get(&module_id) {
                Some(p) => *p,
                None => {
                    return;
                },
            },
            None => {
                return;
            },
        };
        self.record_provider_demand(
            ProviderDemand {
                source_path: self.source_path,
                request: ProviderRequest::ModuleSemantic { module_source },
            },
        );
    }

    /// The receiver cache agrees with the resolved signatures.
    pub open spec fn receiver_cache_sound(&self) -> bool {
        forall|m: GlobalDefId| #[trigger]
            self.method_receiver_kinds.spec_get(m) is Some ==> self.method_receiver_kinds.spec_get(
                m,
            ).unwrap() == self.spec_signature_receiver(m)
    }

    /// The receiver kind of a method from its resolved signature (none when
    /// it has no signature or no receiver).
    pub open spec fn spec_signature_receiver(&self, method_id: GlobalDefId) -> Option<ReceiverKind> {
        match self.method_signature_receivers.spec_get(method_id) {
            Some(r) => r,
            None => None,
        }
    }

    /// The receiver kind of a method, remembered after the first lookup.
    pub fn method_receiver_kind(&mut self, method_id: GlobalDefId) -> (r: Option<ReceiverKind>)
        requires
            old(self).receiver_cache_sound(),
        ensures
            final(self).receiver_cache_sound(),
            r == old(self).spec_signature_receiver(method_id),
            *final(self) == (BodyChecker { method_receiver_kinds: final(self).method_receiver_kinds, ..*old(self) }),
            final(self).method_receiver_kinds.spec_get(method_id) is Some,
            old(self).method_receiver_kinds.spec_get(method_id) is Some ==> *final(self) == *old(self),
    {
        if let Some(kind) = self.method_receiver_kinds.get(&method_id) {
            return *kind;
        }
        let kind = match self.method_signature_receivers.get(&method_id) {
            Some(r) => *r,
            None => None,
        };
        self.method_receiver_kinds.set(method_id, kind);
        proof {
            assert forall|m: GlobalDefId| #[trigger]
                self.method_receiver_kinds.spec_get(m) is Some implies self.method_receiver_kinds.spec_get(
                m,
            ).unwrap() == self.spec_signature_receiver(m) by {
                if m != method_id {
                    assert(self.method_receiver_kinds.spec_get(m) == old(self).method_receiver_kinds.spec_get(m));
                }
            }
        }
        kind
    }

    /// The receiver type a method's candidate target has: its receiver type
    /// for the method's receiver kind, or the target itself.
    pub fn receiver_candidate_target_ty(&mut self, target_ty: &Ty, method_id: GlobalDefId) -> (r: Ty)
        requires
            old(self).receiver_cache_sound(),
        ensures
            final(self).receiver_cache_sound(),
            *final(self) == (BodyChecker { method_receiver_kinds: final(self).method_receiver_kinds, ..*old(self) }),
            final(self).method_receiver_kinds.spec_get(method_id) is Some,
            old(self).method_receiver_kinds.spec_get(method_id) is Some ==> *final(self) == *old(self),
            r == match old(self).spec_signature_receiver(method_id) {
                Some(receiver) => spec_receiver_ty_for_target(*target_ty, receiver),
                None => *target_ty,
            },
    {
        match self.method_receiver_kind(method_id) {
            Some(receiver) => receiver_ty_for_target(target_ty, receiver),
            None => target_ty.deep_clone(),
        }
    }

    /// The trait cache agrees with the program's traits.
    pub open spec fn trait_cache_sound(&self) -> bool {
        forall|n: SymbolId| #[trigger]
            self.traits_by_method_name.spec_get(n) is Some ==> self.traits_by_method_name.spec_get(
                n,
            ).unwrap()@ == self.spec_traits_with_method(n)
    }

    /// The traits that declare a method named `name`.
    pub open spec fn spec_traits_with_method(&self, name: SymbolId) -> Seq<GlobalDefId> {
        match self.program_traits_by_method_name.spec_get(name) {
            Some(v) => v@,
            None => Seq::empty(),
        }
    }

    /// The traits that declare a method named `name`, remembered after the
    /// first lookup.
    pub fn trait_ids_with_method_named(&mut self, name: SymbolId) -> (r: Vec<GlobalDefId>)
        requires
            old(self).trait_cache_sound(),
        ensures
            final(self).trait_cache_sound(),
            r@ == old(self).spec_traits_with_method(name),
            final(self).program_traits_by_method_name == old(self).program_traits_by_method_name,
    {
        if let Some(ids) = self.traits_by_method_name.get(&name) {
            return ids.clone();
        }
        let ids: Vec<GlobalDefId> = match self.program_traits_by_method_name.get(&name) {
            Some(v) => v.clone(),
            None => Vec::new(),
        };
        self.traits_by_method_name.set(name, ids.clone());
        proof {
            assert forall|n: SymbolId| #[trigger]
                self.traits_by_method_name.spec_get(n) is Some implies self.traits_by_method_name.spec_get(
                n,
            ).unwrap()@ == self.spec_traits_with_method(n) by {
                if n != name {
                    assert(self.traits_by_method_name.spec_get(n) == old(self).traits_by_method_name.spec_get(n));
                }
            }
        }
        ids
    }

    /// The generics of the `extend` block and the method, for an extension
    /// method the body or the program knows.
    pub fn extension_impl_generics_for_method(&mut self, method_id: GlobalDefId) -> (r: Option<
        Vec<SymbolId>,
    >)
        requires
            old(self).lookup_cache_sound(),
            old(self).program_methods_distinct(),
        ensures
            final(self).same_outside_extension_caches(old(self)),
            final(self).extensions == old(self).extensions,
            final(self).callable_extension_methods_by_name == old(self).callable_extension_methods_by_name,
            final(self).lookup_cache_sound(),
            match r {
                Some(g) => old(self).spec_lookup_by_id(method_id) is Some && g@ == old(
                    self,
                ).spec_lookup_by_id(method_id).unwrap().effective_generics@,
                None => old(self).spec_lookup_by_id(method_id) is None,
            },
    {
        match self.ensure_extension_method_lookup_for_id(method_id) {
            Some(lookup) => Some(lookup.effective_generics),
            None => None,
        }
    }

    /// The instance arguments of an extension method: the substituted types
    /// of its generics, in order, skipping those without a substitution.
    pub fn extension_target_instance_args(&mut self, method_id: GlobalDefId, substitutions: &SymbolMap<Ty>) -> (r:
        Vec<Ty>)
        requires
            substitutions.wf(),
            old(self).lookup_cache_sound(),
            old(self).program_methods_distinct(),
        ensures
            final(self).same_outside_extension_caches(old(self)),
            final(self).extensions == old(self).extensions,
            final(self).callable_extension_methods_by_name == old(self).callable_extension_methods_by_name,
            final(self).lookup_cache_sound(),
            r@ == match old(self).spec_lookup_by_id(method_id) {
                Some(lookup) => spec_bound_args(lookup.effective_generics@, substitutions@),
                None => Seq::empty(),
            },
    {
        let generics = match self.extension_impl_generics_for_method(method_id) {
            Some(g) => g,
            None => {
                return Vec::new();
            },
        };
        let mut r: Vec<Ty> = Vec::new();
        let mut i: usize = 0;
        while i < generics.len()
            invariant
                i <= generics@.len(),
                substitutions.wf(),
                r@ == spec_bound_args(generics@.take(i as int), substitutions@),
            decreases generics@.len() - i,
        {
            proof {
                assert(generics@.take(i + 1).drop_last() =~= generics@.take(i as int));
            }
            match substitutions.get(generics[i]) {
                Some(t) => r.push(t.deep_clone()),
                None => {},
            }
            i = i + 1;
        }
        proof {
            assert(generics@.take(generics@.len() as int) =~= generics@);
        }
        r
    }
}

/// The bound types of `generics`, in order, leaving out unbound ones.
pub open spec fn spec_bound_args(generics: Seq<SymbolId>, s: Map<SymbolId, Ty>) -> Seq<Ty>
    decreases generics.len(),
{
    if generics.len() == 0 {
        Seq::empty()
    } else {
        let prefix = spec_bound_args(generics.drop_last(), s);
        if s.contains_key(generics.last()) {
            prefix.push(s[generics.last()])
        } else {
            prefix
        }
    }
}

/// Every binding of `candidate` is also a binding of `first`.
pub open spec fn spec_bindings_within(first: Map<SymbolId, Ty>, candidate: Map<SymbolId, Ty>) -> bool {
    forall|k: SymbolId|
        #[trigger] candidate.contains_key(k) ==> first.contains_key(k) && first[k] == candidate[k]
}

/// `candidate` binds as many names as `first`, each to the same type.
pub open spec fn spec_candidate_agrees(first: Map<SymbolId, Ty>, candidate: Map<SymbolId, Ty>) -> bool {
    candidate.dom().len() == first.dom().len() && spec_bindings_within(first, candidate)
}

/// Every candidate agrees with the first one.
pub open spec fn spec_candidates_agree(candidates: Seq<SymbolMap<Ty>>) -> bool {
    forall|i: int|
        1 <= i < candidates.len() ==> #[trigger] spec_candidate_agrees(
            candidates[0]@,
            candidates[i]@,
        )
}

spec fn spec_entry_within(first: Map<SymbolId, Ty>, entry: (SymbolId, Ty)) -> bool {
    first.contains_key(entry.0) && first[entry.0] == entry.1
}

/// Every binding of `candidate` is also in `first`.
fn bindings_agree(first: &SymbolMap<Ty>, candidate: &SymbolMap<Ty>) -> (r: bool)
    requires
        first.wf(),
        candidate.wf(),
    ensures
        r == spec_bindings_within(first@, candidate@),
{
    let count = candidate.len();
    let mut k: usize = 0;
    proof {
        candidate.lemma_view();
    }
    while k < count
        invariant
            k <= count,
            count == candidate.entry_seq().len(),
            candidate.wf(),
            first.wf(),
            forall|j: int|
                0 <= j < k ==> #[trigger] spec_entry_within(first@, candidate.entry_seq()[j]),
        decreases count - k,
    {
        let (name, ty) = candidate.entry_at(k);
        let agrees = match first.get(name) {
            Some(first_ty) => ty_eq(first_ty, ty),
            None => false,
        };
        if !agrees {
            proof {
                assert(candidate@.contains_key(name));
                assert(!spec_bindings_within(first@, candidate@));
            }
            return false;
        }
        proof {
            assert(spec_entry_within(first@, candidate.entry_seq()[k as int]));
        }
        k = k + 1;
    }
    proof {
        candidate.lemma_view();
        assert forall|key: SymbolId| #[trigger] candidate@.contains_key(key) implies first@.contains_key(key)
            && first@[key] == candidate@[key] by {
            let j = choose|j: int|
                0 <= j < candidate.entry_seq().len() && candidate.entry_seq()[j].0 == key;
            assert(spec_entry_within(first@, candidate.entry_seq()[j]));
        }
    }
    true
}

impl BodyChecker {
    /// Whether a demand would name an erroneous type.
    pub fn provider_demand_target_is_error(&self, ty: &Ty) -> (r: bool)
        ensures
            r == spec_provider_demand_target_is_error(*ty),
    {
        matches!(ty, Ty::Error | Ty::ConstOnly)
    }

    /// The inference from a where-clause is usable when it has candidates that
    /// all bind the same names to the same types; that first candidate is it.
    pub fn single_where_candidate<'b>(&self, candidates: &'b Vec<SymbolMap<Ty>>) -> (r: Option<&'b SymbolMap<Ty>>)
        requires
            forall|i: int| 0 <= i < candidates@.len() ==> #[trigger] candidates@[i].wf(),
        ensures
            match r {
                Some(m) => candidates@.len() > 0 && *m == candidates@[0] && spec_candidates_agree(
                    candidates@,
                ),
                None => candidates@.len() == 0 || !spec_candidates_agree(candidates@),
            },
    {
        if candidates.len() == 0 {
            return None;
        }
        let first = &candidates[0];
        let n = first.len();
        let mut i: usize = 1;
        while i < candidates.len()
            invariant
                1 <= i <= candidates@.len(),
                forall|j: int| 0 <= j < candidates@.len() ==> #[trigger] candidates@[j].wf(),
                *first == candidates@[0],
                n == first@.dom().len(),
                forall|j: int|
                    1 <= j < i ==> #[trigger] spec_candidate_agrees(candidates@[0]@, candidates@[j]@),
            decreases candidates@.len() - i,
        {
            let candidate = &candidates[i];
            if candidate.len() != n || !bindings_agree(first, candidate) {
                proof {
                    assert(!spec_candidate_agrees(candidates@[0]@, candidates@[i as int]@));
                }
                return None;
            }
            proof {
                assert(spec_candidate_agrees(candidates@[0]@, candidates@[i as int]@));
            }
            i = i + 1;
        }
        Some(first)
    }
}

} // verus!
