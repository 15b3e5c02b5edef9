//! The choice of which function and global bodies a check visits.
use vstd::prelude::*;
use crate::def_set::DefIdSet;
use crate::ids::GlobalDefId;

verus! {

/// Which bodies a caller asks to check.
pub enum BodyCheckFilter {
    All,
    ReachableFunctions(DefIdSet),
    ReachableItems {
        functions: DefIdSet,
        globals: DefIdSet,
        already_checked_functions: Option<DefIdSet>,
        already_checked_globals: Option<DefIdSet>,
    },
}

impl BodyCheckFilter {
    /// The requested function set is well formed.
    pub open spec fn wf(&self) -> bool {
        match self {
            BodyCheckFilter::All => true,
            BodyCheckFilter::ReachableFunctions(functions) => functions.wf(),
            BodyCheckFilter::ReachableItems { functions, .. } => functions.wf(),
        }
    }
}

/// The filter as the check runs it: a reachable-items filter also collects
/// the functions discovered while checking.
pub enum ActiveBodyCheckFilter {
    All,
    ReachableItems {
        functions: DefIdSet,
        globals: DefIdSet,
        already_checked_functions: Option<DefIdSet>,
        already_checked_globals: Option<DefIdSet>,
        discovered_functions: DefIdSet,
    },
}

/// The definitions in an optional set (none when absent).
pub open spec fn opt_set(s: Option<DefIdSet>) -> Set<GlobalDefId> {
    match s {
        Some(set) => set@,
        None => Set::empty(),
    }
}

/// An empty set of global definitions.
pub fn empty_global_def_ids() -> (r: DefIdSet)
    ensures
        r.wf(),
        r@ == Set::<GlobalDefId>::empty(),
{
    DefIdSet::new()
}

fn opt_contains(s: &Option<DefIdSet>, def_id: GlobalDefId) -> (r: bool)
    ensures
        r == opt_set(*s).contains(def_id),
{
    match s {
        Some(set) => set.contains(def_id),
        None => false,
    }
}

impl ActiveBodyCheckFilter {
    /// The sets are well formed.
    pub open spec fn wf(&self) -> bool {
        match self {
            ActiveBodyCheckFilter::All => true,
            ActiveBodyCheckFilter::ReachableItems { functions, discovered_functions, .. } =>
                functions.wf() && discovered_functions.wf(),
        }
    }

    /// Whether the function body `def_id` is to be checked.
    pub open spec fn spec_includes_function(&self, def_id: GlobalDefId) -> bool {
        match self {
            ActiveBodyCheckFilter::All => true,
            ActiveBodyCheckFilter::ReachableItems {
                functions,
                already_checked_functions,
                discovered_functions,
                ..
            } => (functions@.contains(def_id) || discovered_functions@.contains(def_id))
                && !opt_set(*already_checked_functions).contains(def_id),
        }
    }

    /// Whether the global `def_id` is to be checked.
    pub open spec fn spec_includes_global(&self, def_id: GlobalDefId) -> bool {
        match self {
            ActiveBodyCheckFilter::All => true,
            ActiveBodyCheckFilter::ReachableItems { globals, already_checked_globals, .. } =>
                globals@.contains(def_id) && !opt_set(*already_checked_globals).contains(def_id),
        }
    }

    /// Whether the global `def_id` was selected, checked already or not.
    pub open spec fn spec_selects_global(&self, def_id: GlobalDefId) -> bool {
        match self {
            ActiveBodyCheckFilter::All => true,
            ActiveBodyCheckFilter::ReachableItems { globals, .. } => globals@.contains(def_id),
        }
    }

    /// Starts a check with the given filter and nothing discovered yet.
    pub fn from_filter(filter: BodyCheckFilter) -> (r: ActiveBodyCheckFilter)
        requires
            filter.wf(),
        ensures
            r.wf(),
            match filter {
                BodyCheckFilter::All => r is All,
                BodyCheckFilter::ReachableFunctions(functions) => match r {
                    ActiveBodyCheckFilter::ReachableItems {
                        functions: f,
                        globals,
                        already_checked_functions,
                        already_checked_globals,
                        discovered_functions,
                    } => f == functions && globals@ == Set::<GlobalDefId>::empty()
                        && already_checked_functions is None && already_checked_globals is None
                        && discovered_functions@ == Set::<GlobalDefId>::empty(),
                    _ => false,
                },
                BodyCheckFilter::ReachableItems {
                    functions,
                    globals,
                    already_checked_functions,
                    already_checked_globals,
                } => match r {
                    ActiveBodyCheckFilter::ReachableItems {
                        functions: f,
                        globals: g,
                        already_checked_functions: acf,
                        already_checked_globals: acg,
                        discovered_functions,
                    } => f == functions && g == globals && acf == already_checked_functions
                        && acg == already_checked_globals
                        && discovered_functions@ == Set::<GlobalDefId>::empty(),
                    _ => false,
                },
            },
    {
        match filter {
            BodyCheckFilter::All => ActiveBodyCheckFilter::All,
            BodyCheckFilter::ReachableFunctions(functions) => ActiveBodyCheckFilter::ReachableItems {
                functions,
                globals: empty_global_def_ids(),
                already_checked_functions: None,
                already_checked_globals: None,
                discovered_functions: DefIdSet::new(),
            },
            BodyCheckFilter::ReachableItems {
                functions,
                globals,
                already_checked_functions,
                already_checked_globals,
            } => ActiveBodyCheckFilter::ReachableItems {
                functions,
                globals,
                already_checked_functions,
                already_checked_globals,
                discovered_functions: DefIdSet::new(),
            },
        }
    }

    /// Whether the function body `def_id` is to be checked: it was asked for
    /// or discovered, and not checked already.
    pub fn includes_function(&self, def_id: GlobalDefId) -> (r: bool)
        ensures
            r == self.spec_includes_function(def_id),
    {
        match self {
            ActiveBodyCheckFilter::All => true,
            ActiveBodyCheckFilter::ReachableItems {
                functions,
                already_checked_functions,
                discovered_functions,
                ..
            } => (functions.contains(def_id) || discovered_functions.contains(def_id))
                && !opt_contains(already_checked_functions, def_id),
        }
    }

    /// Whether the global `def_id` is to be checked.
    pub fn includes_global(&self, def_id: GlobalDefId) -> (r: bool)
        ensures
            r == self.spec_includes_global(def_id),
    {
        match self {
            ActiveBodyCheckFilter::All => true,
            ActiveBodyCheckFilter::ReachableItems { globals, already_checked_globals, .. } =>
                globals.contains(def_id) && !opt_contains(already_checked_globals, def_id),
        }
    }

    /// Whether the global `def_id` was selected, checked already or not.
    pub fn selects_global(&self, def_id: GlobalDefId) -> (r: bool)
        ensures
            r == self.spec_selects_global(def_id),
    {
        match self {
            ActiveBodyCheckFilter::All => true,
            ActiveBodyCheckFilter::ReachableItems { globals, .. } => globals.contains(def_id),
        }
    }

    /// Records a function found to be reachable while checking; the result
    /// tells whether it is newly scheduled.
    pub fn add_function(&mut self, def_id: GlobalDefId) -> (r: bool)
        requires
            old(self).wf(),
        ensures
            final(self).wf(),
            match *old(self) {
                ActiveBodyCheckFilter::All => !r && *final(self) is All,
                ActiveBodyCheckFilter::ReachableItems {
                    functions,
                    globals,
                    already_checked_functions,
                    already_checked_globals,
                    discovered_functions,
                } => match *final(self) {
                    ActiveBodyCheckFilter::ReachableItems {
                        functions: f,
                        globals: g,
                        already_checked_functions: acf,
                        already_checked_globals: acg,
                        discovered_functions: d,
                    } => {
                        &&& f@ == functions@
                        &&& g@ == globals@
                        &&& opt_set(acf) == opt_set(already_checked_functions)
                        &&& opt_set(acg) == opt_set(already_checked_globals)
                        &&& if opt_set(already_checked_functions).contains(def_id)
                            || functions@.contains(def_id) {
                            !r && d@ == discovered_functions@
                        } else {
                            r == !discovered_functions@.contains(def_id) && d@
                                == discovered_functions@.insert(def_id)
                        }
                    },
                    _ => false,
                },
            },
    {
        match self {
            ActiveBodyCheckFilter::All => false,
            ActiveBodyCheckFilter::ReachableItems {
                functions,
                already_checked_functions,
                discovered_functions,
                ..
            } => {
                if opt_contains(already_checked_functions, def_id) {
                    return false;
                }
                if functions.contains(def_id) {
                    return false;
                }
                discovered_functions.insert(def_id)
            },
        }
    }

    /// The functions to check first: every available one, or the requested
    /// ones that are available and not checked already.
    pub fn initial_functions(&self, available: &DefIdSet) -> (r: Vec<GlobalDefId>)
        requires
            self.wf(),
            available.wf(),
        ensures
            r@.no_duplicates(),
            match self {
                ActiveBodyCheckFilter::All => r@.to_set() == available@,
                ActiveBodyCheckFilter::ReachableItems {
                    functions,
                    already_checked_functions,
                    ..
                } => r@.to_set() == functions@.filter(
                    |d: GlobalDefId|
                        !opt_set(*already_checked_functions).contains(d) && available@.contains(d),
                ),
            },
    {
        match self {
            ActiveBodyCheckFilter::All => {
                let mut r: Vec<GlobalDefId> = Vec::new();
                let n = available.member_count();
                let mut i: usize = 0;
                while i < n
                    invariant
                        n == available.members().len(),
                        i <= n,
                        r@ == available.members().take(i as int),
                    decreases n - i,
                {
                    r.push(available.member_at(i));
                    proof {
                        assert(available.members().take(i + 1) =~= available.members().take(
                            i as int,
                        ).push(available.members()[i as int]));
                    }
                    i = i + 1;
                }
                proof {
                    available.lemma_members();
                    assert(r@ =~= available.members());
                }
                r
            },
            ActiveBodyCheckFilter::ReachableItems { functions, already_checked_functions, .. } => {
                let mut r: Vec<GlobalDefId> = Vec::new();
                let n = functions.member_count();
                let mut i: usize = 0;
                proof {
                    functions.lemma_members();
                }
                while i < n
                    invariant
                        n == functions.members().len(),
                        i <= n,
                        functions.members().no_duplicates(),
                        functions@ == functions.members().to_set(),
                        r@.no_duplicates(),
                        forall|x: GlobalDefId| r@.contains(x) <==> (
                            functions.members().take(i as int).contains(x) && !opt_set(
                                *already_checked_functions,
                            ).contains(x) && available@.contains(x)),
                    decreases n - i,
                {
                    let d = functions.member_at(i);
                    proof {
                        assert(functions.members().take(i + 1) =~= functions.members().take(
                            i as int,
                        ).push(d));
                        assert(!functions.members().take(i as int).contains(d)) by {
                            if functions.members().take(i as int).contains(d) {
                                let j = choose|j: int| 0 <= j < i && functions.members().take(
                                    i as int,
                                )[j] == d;
                                assert(functions.members()[j] == functions.members()[i as int]);
                            }
                        }
                    }
                    let ghost before = r@;
                    let keep = !opt_contains(already_checked_functions, d) && available.contains(d);
                    if keep {
                        r.push(d);
                    }
                    proof {
                        let t0 = functions.members().take(i as int);
                        let t1 = functions.members().take(i + 1);
                        assert(t1 =~= t0.push(d));
                        if keep {
                            assert(r@ =~= before.push(d));
                        } else {
                            assert(r@ =~= before);
                        }
                        assert forall|x: GlobalDefId| r@.contains(x) <==> (t1.contains(x) && !opt_set(
                            *already_checked_functions,
                        ).contains(x) && available@.contains(x)) by {
                            assert(t1.contains(x) <==> (t0.contains(x) || x == d)) by {
                                if t1.contains(x) && x != d {
                                    let j = choose|j: int| 0 <= j < t1.len() && #[trigger] t1[j] == x;
                                    assert(t0[j] == x);
                                }
                                if t0.contains(x) {
                                    let j = choose|j: int| 0 <= j < t0.len() && #[trigger] t0[j] == x;
                                    assert(t1[j] == x);
                                }
                                if x == d {
                                    assert(t1[i as int] == x);
                                }
                            }
                            if keep {
                                assert(r@.contains(x) <==> (before.contains(x) || x == d)) by {
                                    if r@.contains(x) && x != d {
                                        let j = choose|j: int| 0 <= j < r@.len() && #[trigger] r@[j] == x;
                                        assert(before[j] == x);
                                    }
                                    if before.contains(x) {
                                        let j = choose|j: int| 0 <= j < before.len() && #[trigger] before[j] == x;
                                        assert(r@[j] == x);
                                    }
                                    if x == d {
                                        assert(r@[before.len() as int] == x);
                                    }
                                }
                            }
                        }
                    }
                    i = i + 1;
                }
                proof {
                    assert(functions.members().take(n as int) =~= functions.members());
                    assert(r@.to_set() =~= functions@.filter(
                        |d: GlobalDefId|
                            !opt_set(*already_checked_functions).contains(d) && available@.contains(
                                d,
                            ),
                    ));
                }
                r
            },
        }
    }
}

/// A function added while checking is then included, unless it was checked
/// already.
pub proof fn lemma_added_function_is_included(
    before: ActiveBodyCheckFilter,
    after: ActiveBodyCheckFilter,
    def_id: GlobalDefId,
)
    requires
        before is ReachableItems,
        after is ReachableItems,
        after->ReachableItems_functions@ == before->ReachableItems_functions@,
        opt_set(after->ReachableItems_already_checked_functions) == opt_set(
            before->ReachableItems_already_checked_functions,
        ),
        after->ReachableItems_discovered_functions@
            == before->ReachableItems_discovered_functions@.insert(def_id),
        !opt_set(before->ReachableItems_already_checked_functions).contains(def_id),
    ensures
        after.spec_includes_function(def_id),
{
}

} // verus!
