//! The search that pairs the associated bindings of two trait object types
//! during inference.
use vstd::prelude::*;
use crate::checker::BodyChecker;
use crate::pattern_matching::unused_flags;
use crate::symbol_map::SymbolMap;
use crate::ty::{AssocBinding, BindingList, ConstGenericArg, Ty, binding_list_same_len};

verus! {

impl BodyChecker {
    /// Pairs the pattern bindings with distinct actual bindings; on success
    /// the substitutions of the pairing are taken and the chosen positions
    /// returned, on failure nothing changes.
    pub fn infer_associated_type_bindings(
        &self,
        patterns: &BindingList,
        actuals: &BindingList,
        s: &mut SymbolMap<Ty>,
    ) -> (r: Option<Vec<usize>>)
        requires
            old(s).wf(),
        ensures
            final(s).wf(),
            match self.spec_infer_bindings(*patterns, *actuals, old(s)@) {
                Some((s1, m)) => r is Some && final(s)@ == s1 && r.unwrap()@ == m,
                None => r is None && final(s)@ == old(s)@,
            },
    {
        if !binding_list_same_len(patterns, actuals) {
            return None;
        }
        let mut used = unused_flags(actuals);
        let mut candidate = s.duplicate();
        match self.infer_associated_type_bindings_inner(patterns, actuals, &mut used, &mut candidate) {
            Some(matched) => {
                *s = candidate;
                Some(matched)
            },
            None => None,
        }
    }

    /// The search behind `infer_associated_type_bindings`: the chosen
    /// positions, with `used` restored.
    pub fn infer_associated_type_bindings_inner(
        &self,
        patterns: &BindingList,
        actuals: &BindingList,
        used: &mut Vec<bool>,
        s: &mut SymbolMap<Ty>,
    ) -> (r: Option<Vec<usize>>)
        requires
            old(s).wf(),
            old(used)@.len() == actuals.len(),
        ensures
            final(s).wf(),
            final(used)@ == old(used)@,
            match self.spec_infer_bindings_from(*patterns, *actuals, old(used)@, old(s)@) {
                Some((s1, m)) => r is Some && final(s)@ == s1 && r.unwrap()@ == m,
                None => r is None && final(s)@ == old(s)@,
            },
        decreases patterns, 1nat, 0nat,
    {
        match patterns {
            BindingList::Nil => Some(Vec::new()),
            BindingList::Cons(_, _) => self.infer_binding_at(patterns, actuals, actuals, 0, used, s),
        }
    }

    fn infer_binding_at(
        &self,
        patterns: &BindingList,
        actuals: &BindingList,
        remaining: &BindingList,
        index: usize,
        used: &mut Vec<bool>,
        s: &mut SymbolMap<Ty>,
    ) -> (r: Option<Vec<usize>>)
        requires
            old(s).wf(),
            old(used)@.len() == actuals.len(),
            index + remaining.len() == actuals.len(),
        ensures
            final(s).wf(),
            final(used)@ == old(used)@,
            match self.spec_infer_binding_at(*patterns, *actuals, *remaining, index as nat, old(used)@, old(s)@) {
                Some((s1, m)) => r is Some && final(s)@ == s1 && r.unwrap()@ == m,
                None => r is None && final(s)@ == old(s)@,
            },
        decreases patterns, 0nat, remaining.len(),
    {
        match patterns {
            BindingList::Nil => None,
            BindingList::Cons(pattern, rest) => match remaining {
                BindingList::Nil => None,
                BindingList::Cons(actual, tail) => {
                    let n = used.len();
                    proof {
                        assert(remaining.len() == 1 + tail.len());
                        assert(index < n);
                    }
                    if !used[index] {
                        let found = self.infer_binding_with(pattern, rest, actual, actuals, index, used, s);
                        if found.is_some() {
                            return found;
                        }
                    }
                    self.infer_binding_at(patterns, actuals, tail, index + 1, used, s)
                },
            },
        }
    }

    /// The substitutions after matching `pattern` against `actual`.
    fn binding_substitution(&self, pattern: &AssocBinding, actual: &AssocBinding, s: &SymbolMap<Ty>) -> (r:
        Option<SymbolMap<Ty>>)
        requires
            s.wf(),
        ensures
            match self.spec_binding_substitution(*pattern, *actual, s@) {
                Some(s1) => r is Some && r.unwrap().wf() && r.unwrap()@ == s1,
                None => r is None,
            },
    {
        proof {
            reveal(BodyChecker::spec_binding_substitution);
        }
        let mut candidate = s.duplicate();
        let mut consts: SymbolMap<ConstGenericArg> = SymbolMap::new();
        if self.try_match_associated_type_binding(pattern, actual, &mut candidate, &mut consts) {
            Some(candidate)
        } else {
            None
        }
    }

    fn infer_binding_with(
        &self,
        pattern: &AssocBinding,
        rest: &BindingList,
        actual: &AssocBinding,
        actuals: &BindingList,
        index: usize,
        used: &mut Vec<bool>,
        s: &mut SymbolMap<Ty>,
    ) -> (r: Option<Vec<usize>>)
        requires
            old(s).wf(),
            old(used)@.len() == actuals.len(),
            index < actuals.len(),
            !old(used)@[index as int],
        ensures
            final(s).wf(),
            final(used)@ == old(used)@,
            match self.spec_infer_binding_with(*pattern, *rest, *actual, *actuals, index as nat, old(used)@, old(s)@) {
                Some((s1, m)) => r is Some && final(s)@ == s1 && r.unwrap()@ == m,
                None => r is None && final(s)@ == old(s)@,
            },
        decreases rest, 2nat, 0nat,
    {
        let mut candidate = match self.binding_substitution(pattern, actual, s) {
            Some(c) => c,
            None => {
                return None;
            },
        };
        let ghost before = used@;
        used.set(index, true);
        let found = self.infer_associated_type_bindings_inner(rest, actuals, used, &mut candidate);
        used.set(index, false);
        proof {
            assert(used@ =~= before);
        }
        match found {
            Some(tail) => {
                let mut matched: Vec<usize> = Vec::new();
                matched.push(index);
                let mut k: usize = 0;
                while k < tail.len()
                    invariant
                        k <= tail@.len(),
                        matched@ == seq![index].add(tail@.take(k as int)),
                    decreases tail@.len() - k,
                {
                    proof {
                        assert(tail@.take(k + 1) =~= tail@.take(k as int).push(tail@[k as int]));
                    }
                    matched.push(tail[k]);
                    k = k + 1;
                }
                proof {
                    assert(tail@.take(tail@.len() as int) =~= tail@);
                }
                *s = candidate;
                Some(matched)
            },
            None => None,
        }
    }
}

impl BodyChecker {
    /// Pairs the pattern bindings with distinct actual bindings; on success
    /// the compile-time substitutions of the pairing are taken and the chosen positions
    /// returned, on failure nothing changes.
    pub fn infer_associated_const_bindings(
        &self,
        patterns: &BindingList,
        actuals: &BindingList,
        s: &mut SymbolMap<ConstGenericArg>,
    ) -> (r: Option<Vec<usize>>)
        requires
            old(s).wf(),
        ensures
            final(s).wf(),
            match self.spec_infer_const_bindings(*patterns, *actuals, old(s)@) {
                Some((s1, m)) => r is Some && final(s)@ == s1 && r.unwrap()@ == m,
                None => r is None && final(s)@ == old(s)@,
            },
    {
        if !binding_list_same_len(patterns, actuals) {
            return None;
        }
        let mut used = unused_flags(actuals);
        let mut candidate = s.duplicate();
        match self.infer_associated_const_bindings_inner(patterns, actuals, &mut used, &mut candidate) {
            Some(matched) => {
                *s = candidate;
                Some(matched)
            },
            None => None,
        }
    }

    /// The search behind `infer_associated_const_bindings`: the chosen
    /// positions, with `used` restored.
    pub fn infer_associated_const_bindings_inner(
        &self,
        patterns: &BindingList,
        actuals: &BindingList,
        used: &mut Vec<bool>,
        s: &mut SymbolMap<ConstGenericArg>,
    ) -> (r: Option<Vec<usize>>)
        requires
            old(s).wf(),
            old(used)@.len() == actuals.len(),
        ensures
            final(s).wf(),
            final(used)@ == old(used)@,
            match self.spec_infer_const_bindings_from(*patterns, *actuals, old(used)@, old(s)@) {
                Some((s1, m)) => r is Some && final(s)@ == s1 && r.unwrap()@ == m,
                None => r is None && final(s)@ == old(s)@,
            },
        decreases patterns, 1nat, 0nat,
    {
        match patterns {
            BindingList::Nil => Some(Vec::new()),
            BindingList::Cons(_, _) => self.infer_const_binding_at(patterns, actuals, actuals, 0, used, s),
        }
    }

    fn infer_const_binding_at(
        &self,
        patterns: &BindingList,
        actuals: &BindingList,
        remaining: &BindingList,
        index: usize,
        used: &mut Vec<bool>,
        s: &mut SymbolMap<ConstGenericArg>,
    ) -> (r: Option<Vec<usize>>)
        requires
            old(s).wf(),
            old(used)@.len() == actuals.len(),
            index + remaining.len() == actuals.len(),
        ensures
            final(s).wf(),
            final(used)@ == old(used)@,
            match self.spec_infer_const_binding_at(*patterns, *actuals, *remaining, index as nat, old(used)@, old(s)@) {
                Some((s1, m)) => r is Some && final(s)@ == s1 && r.unwrap()@ == m,
                None => r is None && final(s)@ == old(s)@,
            },
        decreases patterns, 0nat, remaining.len(),
    {
        match patterns {
            BindingList::Nil => None,
            BindingList::Cons(pattern, rest) => match remaining {
                BindingList::Nil => None,
                BindingList::Cons(actual, tail) => {
                    let n = used.len();
                    proof {
                        assert(remaining.len() == 1 + tail.len());
                        assert(index < n);
                    }
                    if !used[index] {
                        let found = self.infer_const_binding_with(pattern, rest, actual, actuals, index, used, s);
                        if found.is_some() {
                            return found;
                        }
                    }
                    self.infer_const_binding_at(patterns, actuals, tail, index + 1, used, s)
                },
            },
        }
    }

    /// The compile-time substitutions after matching `pattern` against `actual`.
    fn const_binding_substitution(&self, pattern: &AssocBinding, actual: &AssocBinding, s: &SymbolMap<ConstGenericArg>) -> (r:
        Option<SymbolMap<ConstGenericArg>>)
        requires
            s.wf(),
        ensures
            match self.spec_const_binding_substitution(*pattern, *actual, s@) {
                Some(s1) => r is Some && r.unwrap().wf() && r.unwrap()@ == s1,
                None => r is None,
            },
    {
        proof {
            reveal(BodyChecker::spec_const_binding_substitution);
        }
        let mut types: SymbolMap<Ty> = SymbolMap::new();
        let mut candidate = s.duplicate();
        if self.try_match_associated_type_binding(pattern, actual, &mut types, &mut candidate) {
            Some(candidate)
        } else {
            None
        }
    }

    fn infer_const_binding_with(
        &self,
        pattern: &AssocBinding,
        rest: &BindingList,
        actual: &AssocBinding,
        actuals: &BindingList,
        index: usize,
        used: &mut Vec<bool>,
        s: &mut SymbolMap<ConstGenericArg>,
    ) -> (r: Option<Vec<usize>>)
        requires
            old(s).wf(),
            old(used)@.len() == actuals.len(),
            index < actuals.len(),
            !old(used)@[index as int],
        ensures
            final(s).wf(),
            final(used)@ == old(used)@,
            match self.spec_infer_const_binding_with(*pattern, *rest, *actual, *actuals, index as nat, old(used)@, old(s)@) {
                Some((s1, m)) => r is Some && final(s)@ == s1 && r.unwrap()@ == m,
                None => r is None && final(s)@ == old(s)@,
            },
        decreases rest, 2nat, 0nat,
    {
        let mut candidate = match self.const_binding_substitution(pattern, actual, s) {
            Some(c) => c,
            None => {
                return None;
            },
        };
        let ghost before = used@;
        used.set(index, true);
        let found = self.infer_associated_const_bindings_inner(rest, actuals, used, &mut candidate);
        used.set(index, false);
        proof {
            assert(used@ =~= before);
        }
        match found {
            Some(tail) => {
                let mut matched: Vec<usize> = Vec::new();
                matched.push(index);
                let mut k: usize = 0;
                while k < tail.len()
                    invariant
                        k <= tail@.len(),
                        matched@ == seq![index].add(tail@.take(k as int)),
                    decreases tail@.len() - k,
                {
                    proof {
                        assert(tail@.take(k + 1) =~= tail@.take(k as int).push(tail@[k as int]));
                    }
                    matched.push(tail[k]);
                    k = k + 1;
                }
                proof {
                    assert(tail@.take(tail@.len() as int) =~= tail@);
                }
                *s = candidate;
                Some(matched)
            },
            None => None,
        }
    }
}

} // verus!
