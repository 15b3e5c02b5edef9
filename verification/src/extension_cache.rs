//! Lookups of extension methods and the per-name cache of callable
//! extension methods: the methods visible to the body, completed by the
//! program's own extension methods, without repetitions, and indexed by the
//! nominal type their target reaches.
use vstd::prelude::*;
use crate::checker::{BodyChecker, ExtensionMethodLookup};
use crate::extension_index::{CallableExtensionMethod, CallableExtensionMethods};
use crate::extension_source::{
    same_named_methods,
    same_visible_method,
    spec_methods_named,
    VisibleExtensionMethod,
    VisibleExtensionMethods,
};
use crate::ids::{GlobalDefId, ModuleId, SymbolId};
use crate::receivers::{receiver_base_type, spec_receiver_base};
use crate::table::Table;
use crate::ty::{DeepClone, TraitId, Ty};

verus! {

/// An extension method of the program, as its module declares it.
pub struct ProgramExtensionMethod {
    pub name: SymbolId,
    pub def_id: GlobalDefId,
    pub impl_id: u32,
    pub trait_id: Option<TraitId>,
    pub is_public: bool,
    pub target_ty: Ty,
    pub effective_generics: Vec<SymbolId>,
    pub effective_const_generics: Vec<SymbolId>,
}

/// Two lookups that agree in every field.
pub open spec fn same_lookup(a: ExtensionMethodLookup, b: ExtensionMethodLookup) -> bool {
    &&& a.target_ty == b.target_ty
    &&& a.impl_id == b.impl_id
    &&& a.effective_generics@ == b.effective_generics@
    &&& a.effective_const_generics@ == b.effective_const_generics@
}

/// Two optional lookups that agree.
pub open spec fn same_lookup_option(a: Option<ExtensionMethodLookup>, b: Option<ExtensionMethodLookup>) -> bool {
    match (a, b) {
        (Some(x), Some(y)) => same_lookup(x, y),
        (None, None) => true,
        _ => false,
    }
}

/// Two callable methods that agree in every field.
pub open spec fn same_callable(a: CallableExtensionMethod, b: CallableExtensionMethod) -> bool {
    &&& a.target_ty == b.target_ty
    &&& a.name == b.name
    &&& a.def_id == b.def_id
    &&& a.impl_id == b.impl_id
    &&& a.effective_generics@ == b.effective_generics@
    &&& a.effective_const_generics@ == b.effective_const_generics@
    &&& a.trait_id == b.trait_id
}

/// Two lists of callable methods that agree entry by entry.
pub open spec fn same_callables(a: Seq<CallableExtensionMethod>, b: Seq<CallableExtensionMethod>) -> bool {
    &&& a.len() == b.len()
    &&& forall|i: int| 0 <= i < a.len() ==> #[trigger] same_callable(a[i], b[i])
}

/// Some method of `s` is the definition `def_id`.
pub open spec fn spec_has_def(s: Seq<CallableExtensionMethod>, def_id: GlobalDefId) -> bool {
    exists|i: int| 0 <= i < s.len() && #[trigger] s[i].def_id == def_id
}

/// The callable method for a visible one on `target_ty`.
pub open spec fn spec_visible_callable(target_ty: Ty, m: VisibleExtensionMethod) -> CallableExtensionMethod {
    CallableExtensionMethod {
        target_ty,
        name: m.name,
        def_id: m.def_id,
        impl_id: m.impl_id,
        effective_generics: m.effective_generics,
        effective_const_generics: m.effective_const_generics,
        trait_id: m.trait_id,
    }
}

/// The callable methods among visible (target, method) pairs: all but the
/// trait witnesses, in order.
pub open spec fn spec_callable_from_visible(pairs: Seq<(Ty, VisibleExtensionMethod)>) -> Seq<
    CallableExtensionMethod,
>
    decreases pairs.len(),
{
    if pairs.len() == 0 {
        Seq::empty()
    } else {
        let rest = spec_callable_from_visible(pairs.drop_last());
        if pairs.last().1.is_trait_witness {
            rest
        } else {
            rest.push(spec_visible_callable(pairs.last().0, pairs.last().1))
        }
    }
}

/// `s` without the methods whose definition occurs earlier in it.
pub open spec fn spec_dedup(s: Seq<CallableExtensionMethod>) -> Seq<CallableExtensionMethod>
    decreases s.len(),
{
    if s.len() == 0 {
        Seq::empty()
    } else if spec_has_def(s.drop_last(), s.last().def_id) {
        spec_dedup(s.drop_last())
    } else {
        spec_dedup(s.drop_last()).push(s.last())
    }
}

/// The nominal type a callable method's target reaches, if any.
pub open spec fn spec_base_of(c: CallableExtensionMethod) -> Option<GlobalDefId> {
    match spec_receiver_base(c.target_ty) {
        Some(b) => Some(b.def_id),
        None => None,
    }
}

/// The positions, in order, of the methods of `s` whose target reaches
/// `base` (no nominal type for `None`).
pub open spec fn spec_base_indexes(s: Seq<CallableExtensionMethod>, base: Option<GlobalDefId>) -> Seq<
    usize,
>
    decreases s.len(),
{
    if s.len() == 0 {
        Seq::empty()
    } else {
        let rest = spec_base_indexes(s.drop_last(), base);
        if spec_base_of(s.last()) == base {
            rest.push((s.len() - 1) as usize)
        } else {
            rest
        }
    }
}

/// The positions of the methods of `s` grouped in `by_base` and `unbased`
/// as `spec_base_indexes` gives them.
pub open spec fn index_matches(
    by_base: Table<GlobalDefId, Vec<usize>>,
    unbased: Seq<usize>,
    s: Seq<CallableExtensionMethod>,
) -> bool {
    &&& unbased == spec_base_indexes(s, None)
    &&& forall|g: GlobalDefId| #[trigger]
        by_base.spec_get(g) == None::<Vec<usize>> ==> spec_base_indexes(s, Some(g)).len() == 0
    &&& forall|g: GlobalDefId| #[trigger]
        by_base.spec_get(g) is Some ==> by_base.spec_get(g).unwrap()@ == spec_base_indexes(
            s,
            Some(g),
        )
}

/// A cached entry holds the methods `s`, indexed.
pub open spec fn callables_match(c: CallableExtensionMethods, s: Seq<CallableExtensionMethod>) -> bool {
    &&& same_callables(c.methods@, s)
    &&& index_matches(c.methods_by_base, c.unbased_methods@, s)
}

/// A list of modules names `module_id`.
fn module_listed(modules: &Vec<ModuleId>, module_id: ModuleId) -> (r: bool)
    ensures
        r == modules@.contains(module_id),
{
    let mut i: usize = 0;
    while i < modules.len()
        invariant
            i <= modules@.len(),
            forall|j: int| 0 <= j < i ==> modules@[j] != module_id,
        decreases modules@.len() - i,
    {
        if modules[i] == module_id {
            return true;
        }
        i = i + 1;
    }
    false
}

/// Whether some method of `methods` is the definition `def_id`.
fn has_def(methods: &Vec<CallableExtensionMethod>, def_id: GlobalDefId) -> (r: bool)
    ensures
        r == spec_has_def(methods@, def_id),
{
    let mut i: usize = 0;
    while i < methods.len()
        invariant
            i <= methods@.len(),
            forall|j: int| 0 <= j < i ==> methods@[j].def_id != def_id,
        decreases methods@.len() - i,
    {
        if methods[i].def_id.same(&def_id) {
            return true;
        }
        i = i + 1;
    }
    false
}

impl ExtensionMethodLookup {
    /// A copy that agrees in every field.
    pub fn duplicate(&self) -> (r: ExtensionMethodLookup)
        ensures
            same_lookup(r, *self),
    {
        ExtensionMethodLookup {
            target_ty: self.target_ty.deep_clone(),
            impl_id: self.impl_id,
            effective_generics: self.effective_generics.clone(),
            effective_const_generics: self.effective_const_generics.clone(),
        }
    }
}

impl BodyChecker {
    /// `self` and `other` differ at most in the extension source and the
    /// two extension caches.
    pub open spec fn same_outside_extension_caches(&self, other: &BodyChecker) -> bool {
        *self == (BodyChecker {
            extensions: self.extensions,
            extension_method_lookup_cache: self.extension_method_lookup_cache,
            callable_extension_methods_by_name: self.callable_extension_methods_by_name,
            ..*other
        })
    }

    /// The lookup the program gives for one of its extension methods: none
    /// for a private method of another module, or when the program keeps no
    /// normalized target for the method's module.
    pub open spec fn spec_program_lookup(&self, m: ProgramExtensionMethod) -> Option<
        ExtensionMethodLookup,
    > {
        if m.def_id.module_id != self.module_id && !m.is_public {
            None
        } else {
            match self.extension_normalization_modules {
                None => None,
                Some(modules) => if modules@.contains(m.def_id.module_id) {
                    Some(
                        ExtensionMethodLookup {
                            target_ty: m.target_ty,
                            impl_id: m.impl_id,
                            effective_generics: m.effective_generics,
                            effective_const_generics: m.effective_const_generics,
                        },
                    )
                } else {
                    None
                },
            }
        }
    }

    /// The lookup for a program extension method.
    pub fn program_extension_method_lookup(&self, method: &ProgramExtensionMethod) -> (r: Option<
        ExtensionMethodLookup,
    >)
        ensures
            same_lookup_option(r, self.spec_program_lookup(*method)),
    {
        if method.def_id.module_id != self.module_id && !method.is_public {
            return None;
        }
        let modules = match &self.extension_normalization_modules {
            Some(modules) => modules,
            None => {
                return None;
            },
        };
        if !module_listed(modules, method.def_id.module_id) {
            return None;
        }
        Some(
            ExtensionMethodLookup {
                target_ty: method.target_ty.deep_clone(),
                impl_id: method.impl_id,
                effective_generics: method.effective_generics.clone(),
                effective_const_generics: method.effective_const_generics.clone(),
            },
        )
    }

    /// No two program extension methods are the same definition.
    pub open spec fn program_methods_distinct(&self) -> bool {
        forall|i: int, j: int|
            0 <= i < j < self.program_extension_methods@.len() ==> #[trigger] self.program_extension_methods@[i].def_id
                != #[trigger] self.program_extension_methods@[j].def_id
    }

    /// Every cached lookup is the program's lookup of its method, made
    /// because the body's own extension methods did not have it.
    pub open spec fn lookup_cache_sound(&self) -> bool {
        forall|d: GlobalDefId| #[trigger]
            self.extension_method_lookup_cache.spec_get(d) is Some ==> {
                &&& self.extension_methods.spec_get(d) is None
                &&& exists|i: int|
                    0 <= i < self.program_extension_methods@.len()
                        && #[trigger] self.program_extension_methods@[i].def_id == d
                        && same_lookup_option(
                        self.extension_method_lookup_cache.spec_get(d),
                        self.spec_program_lookup(self.program_extension_methods@[i]),
                    )
            }
    }

    /// The lookup known for an extension method: the body's own one, else
    /// the one the program gives.
    pub open spec fn spec_method_lookup(&self, m: ProgramExtensionMethod) -> Option<
        ExtensionMethodLookup,
    > {
        match self.extension_methods.spec_get(m.def_id) {
            Some(l) => Some(l),
            None => self.spec_program_lookup(m),
        }
    }

    /// The lookup for a method by its id: the body's own one, else the
    /// program's lookup of the program extension method with that id.
    pub open spec fn spec_lookup_by_id(&self, method_id: GlobalDefId) -> Option<ExtensionMethodLookup> {
        match self.extension_methods.spec_get(method_id) {
            Some(l) => Some(l),
            None => {
                let ms = self.program_extension_methods@;
                if exists|i: int| 0 <= i < ms.len() && #[trigger] ms[i].def_id == method_id {
                    self.spec_program_lookup(
                        ms[choose|i: int| 0 <= i < ms.len() && #[trigger] ms[i].def_id == method_id],
                    )
                } else {
                    None
                }
            },
        }
    }

    /// The lookup cached or known to the body for a method.
    pub fn extension_method_lookup_for_id(&self, method_id: GlobalDefId) -> (r: Option<
        &ExtensionMethodLookup,
    >)
        ensures
            match r {
                Some(l) => Some(*l) == match self.extension_method_lookup_cache.spec_get(method_id) {
                    Some(c) => Some(c),
                    None => self.extension_methods.spec_get(method_id),
                },
                None => self.extension_method_lookup_cache.spec_get(method_id) is None
                    && self.extension_methods.spec_get(method_id) is None,
            },
    {
        match self.extension_method_lookup_cache.get(&method_id) {
            Some(l) => Some(l),
            None => self.extension_methods.get(&method_id),
        }
    }

    /// The position of the program extension method that is `def_id`.
    fn program_extension_method_index(&self, def_id: GlobalDefId) -> (r: Option<usize>)
        ensures
            match r {
                Some(i) => i < self.program_extension_methods@.len()
                    && self.program_extension_methods@[i as int].def_id == def_id,
                None => forall|j: int|
                    0 <= j < self.program_extension_methods@.len()
                        ==> #[trigger] self.program_extension_methods@[j].def_id != def_id,
            },
    {
        let mut i: usize = 0;
        while i < self.program_extension_methods.len()
            invariant
                i <= self.program_extension_methods@.len(),
                forall|j: int| 0 <= j < i ==> #[trigger] self.program_extension_methods@[j].def_id != def_id,
            decreases self.program_extension_methods@.len() - i,
        {
            if self.program_extension_methods[i].def_id.same(&def_id) {
                return Some(i);
            }
            i = i + 1;
        }
        None
    }

    /// The lookup for a method, asking the program for it (and caching the
    /// answer) when neither the cache nor the body has it.
    pub fn ensure_extension_method_lookup_for_id(&mut self, method_id: GlobalDefId) -> (r: Option<
        ExtensionMethodLookup,
    >)
        requires
            old(self).lookup_cache_sound(),
            old(self).program_methods_distinct(),
        ensures
            final(self).same_outside_extension_caches(old(self)),
            final(self).extensions == old(self).extensions,
            final(self).callable_extension_methods_by_name == old(self).callable_extension_methods_by_name,
            final(self).lookup_cache_sound(),
            forall|d: GlobalDefId|
                d != method_id ==> #[trigger] final(self).extension_method_lookup_cache.spec_get(d)
                    == old(self).extension_method_lookup_cache.spec_get(d),
            same_lookup_option(r, old(self).spec_lookup_by_id(method_id)),
    {
        let ghost ms = self.program_extension_methods@;
        let ghost mut found: int = -1;
        if self.extension_method_lookup_for_id(method_id).is_none() {
            if let Some(i) = self.program_extension_method_index(method_id) {
                proof {
                    found = i as int;
                }
                let lookup = self.program_extension_method_lookup(&self.program_extension_methods[i]);
                if let Some(lookup) = lookup {
                    let ghost before = self.extension_method_lookup_cache;
                    self.extension_method_lookup_cache.set(method_id, lookup);
                    proof {
                        assert forall|d: GlobalDefId| #[trigger]
                            self.extension_method_lookup_cache.spec_get(d) is Some implies {
                            &&& self.extension_methods.spec_get(d) is None
                            &&& exists|k: int|
                                0 <= k < self.program_extension_methods@.len()
                                    && #[trigger] self.program_extension_methods@[k].def_id == d
                                    && same_lookup_option(
                                    self.extension_method_lookup_cache.spec_get(d),
                                    self.spec_program_lookup(self.program_extension_methods@[k]),
                                )
                        } by {
                            if d == method_id {
                                assert(self.program_extension_methods@[i as int].def_id == d);
                            } else {
                                assert(before.spec_get(d) == self.extension_method_lookup_cache.spec_get(d));
                            }
                        }
                    }
                }
            }
        }
        proof {
            if old(self).extension_methods.spec_get(method_id) is None {
                if exists|i: int| 0 <= i < ms.len() && #[trigger] ms[i].def_id == method_id {
                    let c = choose|i: int| 0 <= i < ms.len() && #[trigger] ms[i].def_id == method_id;
                    if found >= 0 && found != c {
                        if found < c {
                            assert(ms[found].def_id != ms[c].def_id);
                        } else {
                            assert(ms[c].def_id != ms[found].def_id);
                        }
                    }
                    if old(self).extension_method_lookup_cache.spec_get(method_id) is Some {
                        let k = choose|k: int|
                            0 <= k < ms.len() && #[trigger] ms[k].def_id == method_id && same_lookup_option(
                                old(self).extension_method_lookup_cache.spec_get(method_id),
                                old(self).spec_program_lookup(ms[k]),
                            );
                        if k != c {
                            if k < c {
                                assert(ms[k].def_id != ms[c].def_id);
                            } else {
                                assert(ms[c].def_id != ms[k].def_id);
                            }
                        }
                    }
                }
            }
        }
        match self.extension_method_lookup_for_id(method_id) {
            Some(l) => Some(l.duplicate()),
            None => None,
        }
    }
}

/// The callable method for a program method with its lookup.
pub open spec fn spec_program_callable(m: ProgramExtensionMethod, l: ExtensionMethodLookup) -> CallableExtensionMethod {
    CallableExtensionMethod {
        target_ty: l.target_ty,
        name: m.name,
        def_id: m.def_id,
        impl_id: m.impl_id,
        effective_generics: l.effective_generics,
        effective_const_generics: l.effective_const_generics,
        trait_id: m.trait_id,
    }
}

proof fn lemma_same_has_def(a: Seq<CallableExtensionMethod>, b: Seq<CallableExtensionMethod>, d: GlobalDefId)
    requires
        same_callables(a, b),
    ensures
        spec_has_def(a, d) == spec_has_def(b, d),
{
    if spec_has_def(a, d) {
        let i = choose|i: int| 0 <= i < a.len() && #[trigger] a[i].def_id == d;
        assert(same_callable(a[i], b[i]));
        assert(b[i].def_id == d);
    }
    if spec_has_def(b, d) {
        let i = choose|i: int| 0 <= i < b.len() && #[trigger] b[i].def_id == d;
        assert(same_callable(a[i], b[i]));
        assert(a[i].def_id == d);
    }
}

proof fn lemma_same_push(
    a: Seq<CallableExtensionMethod>,
    b: Seq<CallableExtensionMethod>,
    x: CallableExtensionMethod,
    y: CallableExtensionMethod,
)
    requires
        same_callables(a, b),
        same_callable(x, y),
    ensures
        same_callables(a.push(x), b.push(y)),
{
    assert forall|i: int| 0 <= i < a.len() + 1 implies #[trigger] same_callable(a.push(x)[i], b.push(y)[i]) by {
        if i < a.len() {
            assert(same_callable(a[i], b[i]));
        }
    }
}

proof fn lemma_same_trans(a: Seq<CallableExtensionMethod>, b: Seq<CallableExtensionMethod>, c: Seq<CallableExtensionMethod>)
    requires
        same_callables(a, b),
        same_callables(b, c),
    ensures
        same_callables(a, c),
{
    assert forall|i: int| 0 <= i < a.len() implies #[trigger] same_callable(a[i], c[i]) by {
        assert(same_callable(a[i], b[i]));
        assert(same_callable(b[i], c[i]));
    }
}

proof fn lemma_has_def_push(s: Seq<CallableExtensionMethod>, x: CallableExtensionMethod, d: GlobalDefId)
    ensures
        spec_has_def(s.push(x), d) == (spec_has_def(s, d) || x.def_id == d),
{
    if spec_has_def(s.push(x), d) {
        let i = choose|i: int| 0 <= i < s.push(x).len() && #[trigger] s.push(x)[i].def_id == d;
        if i < s.len() {
            assert(s[i].def_id == d);
        }
    }
    if spec_has_def(s, d) {
        let i = choose|i: int| 0 <= i < s.len() && #[trigger] s[i].def_id == d;
        assert(s.push(x)[i].def_id == d);
    }
    if x.def_id == d {
        assert(s.push(x)[s.len() as int].def_id == d);
    }
}

/// Dropping repeated definitions keeps the set of definitions.
pub proof fn lemma_dedup_has_def(s: Seq<CallableExtensionMethod>, d: GlobalDefId)
    ensures
        spec_has_def(spec_dedup(s), d) == spec_has_def(s, d),
    decreases s.len(),
{
    if s.len() > 0 {
        lemma_dedup_has_def(s.drop_last(), d);
        assert(s =~= s.drop_last().push(s.last()));
        lemma_has_def_push(s.drop_last(), s.last(), d);
        if !spec_has_def(s.drop_last(), s.last().def_id) {
            lemma_has_def_push(spec_dedup(s.drop_last()), s.last(), d);
        }
    }
}

impl BodyChecker {
    /// Runs `f` on the extension methods visible to the body, loading them
    /// with `load` when they are loaded lazily and have not been yet.
    pub fn with_visible_extensions<T, L, F>(&mut self, load: &L, f: F) -> (r: T) where
        L: Fn() -> VisibleExtensionMethods,
        F: FnOnce(&VisibleExtensionMethods) -> T,

        requires
            load.requires(()),
            forall|m: VisibleExtensionMethods| #[trigger] f.requires((&m,)),
        ensures
            final(self).same_outside_extension_caches(old(self)),
            final(self).extension_method_lookup_cache == old(self).extension_method_lookup_cache,
            final(self).callable_extension_methods_by_name == old(self).callable_extension_methods_by_name,
            final(self).extensions.spec_loaded() is Some,
            f.ensures((&final(self).extensions.spec_loaded().unwrap(),), r),
            old(self).extensions.spec_loaded() is Some ==> final(self).extensions == old(self).extensions,
            old(self).extensions.spec_loaded() is None ==> load.ensures(
                (),
                final(self).extensions.spec_loaded().unwrap(),
            ),
    {
        self.extensions.with_methods(load, f)
    }

    /// Merges the program's extension methods named `name` (and of no trait)
    /// into `acc`: each whose definition `acc` lacks and that has a lookup is
    /// appended, with its lookup's target and generics.
    pub open spec fn spec_merge_program(
        &self,
        acc: Seq<CallableExtensionMethod>,
        rest: Seq<ProgramExtensionMethod>,
        name: SymbolId,
    ) -> Seq<CallableExtensionMethod>
        decreases rest.len(),
    {
        if rest.len() == 0 {
            acc
        } else {
            let m = rest[0];
            let tail = rest.drop_first();
            if m.trait_id is Some || m.name != name || spec_has_def(acc, m.def_id) {
                self.spec_merge_program(acc, tail, name)
            } else {
                match self.spec_method_lookup(m) {
                    None => self.spec_merge_program(acc, tail, name),
                    Some(l) => self.spec_merge_program(acc.push(spec_program_callable(m, l)), tail, name),
                }
            }
        }
    }

    /// Merging agrees on lists that agree.
    proof fn lemma_merge_same(
        &self,
        acc1: Seq<CallableExtensionMethod>,
        acc2: Seq<CallableExtensionMethod>,
        rest: Seq<ProgramExtensionMethod>,
        name: SymbolId,
    )
        requires
            same_callables(acc1, acc2),
        ensures
            same_callables(self.spec_merge_program(acc1, rest, name), self.spec_merge_program(acc2, rest, name)),
        decreases rest.len(),
    {
        if rest.len() > 0 {
            let m = rest[0];
            let tail = rest.drop_first();
            lemma_same_has_def(acc1, acc2, m.def_id);
            if m.trait_id is Some || m.name != name || spec_has_def(acc1, m.def_id) {
                self.lemma_merge_same(acc1, acc2, tail, name);
            } else {
                match self.spec_method_lookup(m) {
                    None => self.lemma_merge_same(acc1, acc2, tail, name),
                    Some(l) => {
                        let c = spec_program_callable(m, l);
                        lemma_same_push(acc1, acc2, c, c);
                        self.lemma_merge_same(acc1.push(c), acc2.push(c), tail, name);
                    },
                }
            }
        }
    }

    /// The callable extension methods named `name`: the visible ones that
    /// are not trait witnesses, completed by the program's, each definition
    /// once.
    pub open spec fn spec_callable_methods(&self, visible: VisibleExtensionMethods, name: SymbolId) -> Seq<
        CallableExtensionMethod,
    > {
        spec_dedup(
            self.spec_merge_program(
                spec_callable_from_visible(spec_methods_named(visible.targets@, name)),
                self.program_extension_methods@,
                name,
            ),
        )
    }

    /// Every cached entry holds what a fresh lookup of its name gives, with
    /// the visible methods the source holds.
    pub open spec fn callable_cache_sound(&self) -> bool {
        forall|n: SymbolId| #[trigger]
            self.callable_extension_methods_by_name.spec_get(n) is Some ==> {
                &&& self.extensions.spec_loaded() is Some
                &&& callables_match(
                    self.callable_extension_methods_by_name.spec_get(n).unwrap(),
                    self.spec_callable_methods(self.extensions.spec_loaded().unwrap(), n),
                )
            }
    }
}

impl CallableExtensionMethod {
    /// A copy that agrees in every field.
    pub fn duplicate(&self) -> (r: CallableExtensionMethod)
        ensures
            same_callable(r, *self),
    {
        CallableExtensionMethod {
            target_ty: self.target_ty.deep_clone(),
            name: self.name,
            def_id: self.def_id,
            impl_id: self.impl_id,
            effective_generics: self.effective_generics.clone(),
            effective_const_generics: self.effective_const_generics.clone(),
            trait_id: self.trait_id,
        }
    }
}

impl BodyChecker {
    /// The callable methods among the visible (target, method) pairs.
    fn callable_from_visible(pairs: &Vec<(Ty, VisibleExtensionMethod)>) -> (r: Vec<CallableExtensionMethod>)
        ensures
            same_callables(r@, spec_callable_from_visible(pairs@)),
    {
        let mut r: Vec<CallableExtensionMethod> = Vec::new();
        let mut i: usize = 0;
        while i < pairs.len()
            invariant
                i <= pairs@.len(),
                same_callables(r@, spec_callable_from_visible(pairs@.take(i as int))),
            decreases pairs@.len() - i,
        {
            proof {
                assert(pairs@.take(i + 1).drop_last() =~= pairs@.take(i as int));
            }
            let (ty, m) = &pairs[i];
            if !m.is_trait_witness {
                let c = CallableExtensionMethod {
                    target_ty: ty.deep_clone(),
                    name: m.name,
                    def_id: m.def_id,
                    impl_id: m.impl_id,
                    effective_generics: m.effective_generics.clone(),
                    effective_const_generics: m.effective_const_generics.clone(),
                    trait_id: m.trait_id,
                };
                proof {
                    lemma_same_push(
                        r@,
                        spec_callable_from_visible(pairs@.take(i as int)),
                        c,
                        spec_visible_callable(pairs@[i as int].0, pairs@[i as int].1),
                    );
                }
                r.push(c);
            }
            i = i + 1;
        }
        proof {
            assert(pairs@.take(pairs@.len() as int) =~= pairs@);
        }
        r
    }

    /// `methods` without the methods whose definition occurs earlier.
    fn dedup_callables(methods: &Vec<CallableExtensionMethod>, Ghost(spec): Ghost<Seq<CallableExtensionMethod>>) -> (r: Vec<
        CallableExtensionMethod,
    >)
        requires
            same_callables(methods@, spec),
        ensures
            same_callables(r@, spec_dedup(spec)),
    {
        let mut r: Vec<CallableExtensionMethod> = Vec::new();
        let mut i: usize = 0;
        while i < methods.len()
            invariant
                i <= methods@.len(),
                same_callables(methods@, spec),
                same_callables(r@, spec_dedup(spec.take(i as int))),
            decreases methods@.len() - i,
        {
            proof {
                assert(spec.take(i + 1).drop_last() =~= spec.take(i as int));
                assert(spec.take(i + 1).last() == spec[i as int]);
                assert(same_callable(methods@[i as int], spec[i as int]));
                lemma_same_has_def(r@, spec_dedup(spec.take(i as int)), methods@[i as int].def_id);
                lemma_dedup_has_def(spec.take(i as int), methods@[i as int].def_id);
            }
            if !has_def(&r, methods[i].def_id) {
                let c = methods[i].duplicate();
                proof {
                    lemma_same_push(r@, spec_dedup(spec.take(i as int)), c, spec[i as int]);
                }
                r.push(c);
            }
            i = i + 1;
        }
        proof {
            assert(spec.take(methods@.len() as int) =~= spec);
        }
        r
    }

    /// The positions of `methods`, grouped by the nominal type their target
    /// reaches, and those that reach none.
    fn index_callables(methods: &Vec<CallableExtensionMethod>) -> (r: (Table<GlobalDefId, Vec<usize>>, Vec<usize>))
        ensures
            index_matches(r.0, r.1@, methods@),
    {
        let mut by_base: Table<GlobalDefId, Vec<usize>> = Table::new();
        let mut unbased: Vec<usize> = Vec::new();
        let mut i: usize = 0;
        while i < methods.len()
            invariant
                i <= methods@.len(),
                index_matches(by_base, unbased@, methods@.take(i as int)),
            decreases methods@.len() - i,
        {
            let ghost s = methods@.take(i + 1);
            proof {
                assert(s.drop_last() =~= methods@.take(i as int));
                assert(s.last() == methods@[i as int]);
            }
            match receiver_base_type(&methods[i].target_ty) {
                Some(base) => {
                    let ghost old_table = by_base;
                    let mut v: Vec<usize> = match by_base.get(&base.def_id) {
                        Some(existing) => {
                            let c = existing.clone();
                            proof {
                                assert(c@ =~= existing@);
                            }
                            c
                        },
                        None => Vec::new(),
                    };
                    v.push(i);
                    by_base.set(base.def_id, v);
                    proof {
                        assert forall|g: GlobalDefId| #[trigger]
                            by_base.spec_get(g) is Some implies by_base.spec_get(g).unwrap()@
                            == spec_base_indexes(s, Some(g)) by {
                            if g != base.def_id {
                                assert(by_base.spec_get(g) == old_table.spec_get(g));
                            }
                        }
                        assert forall|g: GlobalDefId| #[trigger]
                            by_base.spec_get(g) == None::<Vec<usize>> implies spec_base_indexes(
                            s,
                            Some(g),
                        ).len() == 0 by {
                            assert(g != base.def_id);
                            assert(by_base.spec_get(g) == old_table.spec_get(g));
                        }
                    }
                },
                None => {
                    unbased.push(i);
                },
            }
            i = i + 1;
        }
        proof {
            assert(methods@.take(methods@.len() as int) =~= methods@);
        }
        (by_base, unbased)
    }
}

/// Agreeing visible pairs give agreeing callable methods.
proof fn lemma_visible_same(a: Seq<(Ty, VisibleExtensionMethod)>, b: Seq<(Ty, VisibleExtensionMethod)>)
    requires
        same_named_methods(a, b),
    ensures
        same_callables(spec_callable_from_visible(a), spec_callable_from_visible(b)),
    decreases a.len(),
{
    if a.len() > 0 {
        assert(same_named_methods(a.drop_last(), b.drop_last())) by {
            assert forall|i: int| 0 <= i < a.drop_last().len() implies #[trigger] a.drop_last()[i].0
                == b.drop_last()[i].0 && same_visible_method(a.drop_last()[i].1, b.drop_last()[i].1) by {
                assert(a[i].0 == b[i].0 && same_visible_method(a[i].1, b[i].1));
            }
        }
        lemma_visible_same(a.drop_last(), b.drop_last());
        assert(a.last().0 == b.last().0 && same_visible_method(a.last().1, b.last().1)) by {
            assert(a[a.len() - 1].0 == b[a.len() - 1].0);
        }
        if !a.last().1.is_trait_witness {
            lemma_same_push(
                spec_callable_from_visible(a.drop_last()),
                spec_callable_from_visible(b.drop_last()),
                spec_visible_callable(a.last().0, a.last().1),
                spec_visible_callable(b.last().0, b.last().1),
            );
        }
    }
}

/// Agreeing lists group their positions alike.
proof fn lemma_base_indexes_same(a: Seq<CallableExtensionMethod>, b: Seq<CallableExtensionMethod>, base: Option<GlobalDefId>)
    requires
        same_callables(a, b),
    ensures
        spec_base_indexes(a, base) == spec_base_indexes(b, base),
    decreases a.len(),
{
    if a.len() > 0 {
        assert(same_callables(a.drop_last(), b.drop_last())) by {
            assert forall|i: int| 0 <= i < a.drop_last().len() implies #[trigger] same_callable(
                a.drop_last()[i],
                b.drop_last()[i],
            ) by {
                assert(same_callable(a[i], b[i]));
            }
        }
        lemma_base_indexes_same(a.drop_last(), b.drop_last(), base);
        assert(same_callable(a[a.len() - 1], b[a.len() - 1]));
    }
}

impl BodyChecker {
    /// Merging depends only on the body's lookups, the module and the
    /// normalized modules.
    proof fn lemma_merge_independent(
        &self,
        other: &BodyChecker,
        acc: Seq<CallableExtensionMethod>,
        rest: Seq<ProgramExtensionMethod>,
        name: SymbolId,
    )
        requires
            self.extension_methods == other.extension_methods,
            self.module_id == other.module_id,
            self.extension_normalization_modules == other.extension_normalization_modules,
        ensures
            self.spec_merge_program(acc, rest, name) == other.spec_merge_program(acc, rest, name),
        decreases rest.len(),
    {
        if rest.len() > 0 {
            let m = rest[0];
            let tail = rest.drop_first();
            assert(self.spec_method_lookup(m) == other.spec_method_lookup(m));
            self.lemma_merge_independent(other, acc, tail, name);
            match self.spec_method_lookup(m) {
                Some(l) => self.lemma_merge_independent(
                    other,
                    acc.push(spec_program_callable(m, l)),
                    tail,
                    name,
                ),
                None => {},
            }
        }
    }

    /// Fills the cache of callable extension methods for `name`, unless it
    /// holds them already: the visible methods named `name` that are not
    /// trait witnesses, then each program method of that name and of no
    /// trait whose definition is not among them yet and that has a lookup,
    /// each definition once, indexed by the nominal type its target
    /// reaches. The visible methods are loaded with `load` when needed.
    pub fn ensure_callable_extension_methods_named<L>(&mut self, load: &L, name: SymbolId) where
        L: Fn() -> VisibleExtensionMethods,

        requires
            load.requires(()),
            old(self).lookup_cache_sound(),
            old(self).callable_cache_sound(),
            old(self).program_methods_distinct(),
        ensures
            final(self).same_outside_extension_caches(old(self)),
            final(self).lookup_cache_sound(),
            final(self).callable_cache_sound(),
            final(self).callable_extension_methods_by_name.spec_get(name) is Some,
            forall|n: SymbolId|
                n != name ==> #[trigger] final(self).callable_extension_methods_by_name.spec_get(n)
                    == old(self).callable_extension_methods_by_name.spec_get(n),
            old(self).callable_extension_methods_by_name.spec_get(name) is Some ==> *final(self) == *old(self),
            old(self).extensions.spec_loaded() is Some ==> final(self).extensions == old(self).extensions,
            old(self).extensions.spec_loaded() is None ==> load.ensures(
                (),
                final(self).extensions.spec_loaded().unwrap(),
            ),
    {
        if self.callable_extension_methods_by_name.get(&name).is_some() {
            return;
        }
        let named = self.with_visible_extensions(
            load,
            (|extensions: &VisibleExtensionMethods| -> (r: Vec<(Ty, VisibleExtensionMethod)>)
                ensures
                    same_named_methods(r@, spec_methods_named(extensions.targets@, name)),
                { extensions.all_methods_named(name) }),
        );
        let ghost visible = self.extensions.spec_loaded().unwrap();
        let ghost pairs = spec_methods_named(visible.targets@, name);
        let ghost snapshot = *self;
        let mut methods = Self::callable_from_visible(&named);
        let ghost start = spec_callable_from_visible(pairs);
        let ghost target = self.spec_merge_program(start, self.program_extension_methods@, name);
        proof {
            lemma_visible_same(named@, pairs);
            lemma_same_trans(methods@, spec_callable_from_visible(named@), start);
            self.lemma_merge_same(methods@, start, self.program_extension_methods@, name);
            assert(self.program_extension_methods@.skip(0) =~= self.program_extension_methods@);
        }
        let mut i: usize = 0;
        while i < self.program_extension_methods.len()
            invariant
                i <= self.program_extension_methods@.len(),
                self.same_outside_extension_caches(&snapshot),
                self.extensions == snapshot.extensions,
                self.callable_extension_methods_by_name == snapshot.callable_extension_methods_by_name,
                self.lookup_cache_sound(),
                self.program_methods_distinct(),
                same_callables(
                    snapshot.spec_merge_program(methods@, self.program_extension_methods@.skip(i as int), name),
                    target,
                ),
            decreases self.program_extension_methods@.len() - i,
        {
            let ghost rest = self.program_extension_methods@.skip(i as int);
            let ghost m = self.program_extension_methods@[i as int];
            let ghost tail = self.program_extension_methods@.skip(i + 1);
            proof {
                assert(rest.drop_first() =~= tail);
                assert(rest[0] == m);
            }
            let method = &self.program_extension_methods[i];
            if method.trait_id.is_none() && method.name == name && !has_def(&methods, method.def_id) {
                let ghost spec_lookup = snapshot.spec_method_lookup(m);
                proof {
                    let d = m.def_id;
                    if self.extension_method_lookup_cache.spec_get(d) is Some {
                        let k = choose|k: int|
                            0 <= k < self.program_extension_methods@.len()
                                && #[trigger] self.program_extension_methods@[k].def_id == d
                                && same_lookup_option(
                                self.extension_method_lookup_cache.spec_get(d),
                                self.spec_program_lookup(self.program_extension_methods@[k]),
                            );
                        if k < i {
                            assert(self.program_extension_methods@[k].def_id
                                != self.program_extension_methods@[i as int].def_id);
                        } else if k > i {
                            assert(self.program_extension_methods@[i as int].def_id
                                != self.program_extension_methods@[k].def_id);
                        }
                    }
                }
                let lookup = match self.extension_method_lookup_for_id(method.def_id) {
                    Some(l) => Some(l.duplicate()),
                    None => {
                        let fresh = self.program_extension_method_lookup(method);
                        match fresh {
                            Some(l) => {
                                let ghost before = self.extension_method_lookup_cache;
                                self.extension_method_lookup_cache.set(method.def_id, l.duplicate());
                                proof {
                                    assert forall|d: GlobalDefId| #[trigger]
                                        self.extension_method_lookup_cache.spec_get(d) is Some implies {
                                        &&& self.extension_methods.spec_get(d) is None
                                        &&& exists|k: int|
                                            0 <= k < self.program_extension_methods@.len()
                                                && #[trigger] self.program_extension_methods@[k].def_id == d
                                                && same_lookup_option(
                                                self.extension_method_lookup_cache.spec_get(d),
                                                self.spec_program_lookup(self.program_extension_methods@[k]),
                                            )
                                    } by {
                                        if d != m.def_id {
                                            assert(before.spec_get(d) == self.extension_method_lookup_cache.spec_get(d));
                                        } else {
                                            assert(self.program_extension_methods@[i as int].def_id == d);
                                        }
                                    }
                                }
                                Some(l)
                            },
                            None => None,
                        }
                    },
                };
                proof {
                    assert(same_lookup_option(lookup, spec_lookup));
                    assert(!spec_has_def(methods@, m.def_id));
                }
                proof {
                    if spec_lookup is None {
                        assert(snapshot.spec_merge_program(methods@, rest, name)
                            == snapshot.spec_merge_program(methods@, tail, name));
                    }
                }
                if let Some(lookup) = lookup {
                    let c = CallableExtensionMethod {
                        target_ty: lookup.target_ty,
                        name: method.name,
                        def_id: method.def_id,
                        impl_id: method.impl_id,
                        effective_generics: lookup.effective_generics,
                        effective_const_generics: lookup.effective_const_generics,
                        trait_id: method.trait_id,
                    };
                    proof {
                        let sc = spec_program_callable(m, spec_lookup.unwrap());
                        assert(snapshot.spec_merge_program(methods@, rest, name) == snapshot.spec_merge_program(
                            methods@.push(sc),
                            tail,
                            name,
                        ));
                        assert(same_callable(c, sc));
                        lemma_same_push(methods@, methods@, c, sc);
                        snapshot.lemma_merge_same(methods@.push(c), methods@.push(sc), tail, name);
                        lemma_same_trans(
                            snapshot.spec_merge_program(methods@.push(c), tail, name),
                            snapshot.spec_merge_program(methods@.push(sc), tail, name),
                            target,
                        );
                    }
                    methods.push(c);
                }
            } else {
                proof {
                    assert(snapshot.spec_merge_program(methods@, rest, name)
                        == snapshot.spec_merge_program(methods@, tail, name));
                }
            }
            i = i + 1;
        }
        proof {
            assert(self.program_extension_methods@.skip(self.program_extension_methods@.len() as int) =~= Seq::<
                ProgramExtensionMethod,
            >::empty());
        }
        let deduped = Self::dedup_callables(&methods, Ghost(target));
        let (by_base, unbased) = Self::index_callables(&deduped);
        proof {
            lemma_base_indexes_same(deduped@, spec_dedup(target), None);
            assert forall|g: GlobalDefId| true implies spec_base_indexes(deduped@, Some(g)) == spec_base_indexes(
                spec_dedup(target),
                Some(g),
            ) by {
                lemma_base_indexes_same(deduped@, spec_dedup(target), Some(g));
            }
        }
        let indexed = CallableExtensionMethods { methods: deduped, methods_by_base: by_base, unbased_methods: unbased };
        let ghost before = self.callable_extension_methods_by_name;
        self.callable_extension_methods_by_name.set(name, indexed);
        proof {
            assert forall|n: SymbolId| #[trigger]
                self.callable_extension_methods_by_name.spec_get(n) is Some implies {
                &&& self.extensions.spec_loaded() is Some
                &&& callables_match(
                    self.callable_extension_methods_by_name.spec_get(n).unwrap(),
                    self.spec_callable_methods(self.extensions.spec_loaded().unwrap(), n),
                )
            } by {
                if n == name {
                    self.lemma_merge_independent(&snapshot, start, self.program_extension_methods@, name);
                } else {
                    assert(before.spec_get(n) == old(self).callable_extension_methods_by_name.spec_get(n));
                    let m0 = old(self).extensions.spec_loaded().unwrap();
                    self.lemma_merge_independent(
                        old(self),
                        spec_callable_from_visible(spec_methods_named(m0.targets@, n)),
                        self.program_extension_methods@,
                        n,
                    );
                }
            }
        }
    }
}

} // verus!
