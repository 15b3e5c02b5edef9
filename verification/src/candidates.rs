//! Choosing among the methods that fit a call: a candidate that another one
//! is strictly more specific than drops out, and more than one survivor is
//! an ambiguity.
use vstd::prelude::*;
use crate::checker::{BodyChecker, Diagnostic};
use crate::ids::{GlobalDefId, Span, SymbolId};
use crate::subst::{spec_subst, substitute_generics_and_consts_with_self};
use crate::symbol_map::SymbolMap;
use crate::ty::{ConstArgList, ConstGenericArg, Ty, TyList};

verus! {

/// An extension method that fits a call: its target type, the `Self` type
/// it is called on and the substitutions its target matched with.
pub struct MethodCandidate {
    pub target_ty: Ty,
    pub self_ty: Ty,
    pub method_id: GlobalDefId,
    pub target_substitutions: SymbolMap<Ty>,
    pub target_const_substitutions: SymbolMap<ConstGenericArg>,
}

/// A trait method that fits a call on `self_ty`.
pub struct TraitMethodCandidate {
    pub trait_id: GlobalDefId,
    pub trait_method_id: GlobalDefId,
    pub method_id: GlobalDefId,
    pub self_ty: Ty,
    pub trait_generics: Vec<SymbolId>,
    pub trait_args: TyList,
    pub trait_const_args: ConstArgList,
    pub has_default: bool,
    pub is_assumed: bool,
}

impl MethodCandidate {
    pub open spec fn wf(&self) -> bool {
        self.target_substitutions.wf() && self.target_const_substitutions.wf()
    }
}

/// The first list's items pairwise subsumed by the second's: false as soon
/// as a pair is not, otherwise `strict` or whether some pair is strictly
/// more specific.
pub open spec fn spec_pairs_more_specific(
    checker: BodyChecker,
    specific: Seq<Ty>,
    general: Seq<Ty>,
    strict: bool,
) -> bool
    decreases specific.len(),
{
    if specific.len() == 0 || general.len() == 0 {
        strict
    } else if !checker.spec_pattern_subsumes(general[0], specific[0]) {
        false
    } else {
        spec_pairs_more_specific(
            checker,
            specific.drop_first(),
            general.drop_first(),
            strict || checker.spec_strictly_more_specific(specific[0], general[0]),
        )
    }
}

impl BodyChecker {
    /// The parameter types of a candidate's method after its receiver, with
    /// the candidate's substitutions and `Self` applied.
    pub open spec fn spec_candidate_param_types(&self, candidate: MethodCandidate, params: Seq<Ty>) -> Seq<Ty> {
        if params.len() == 0 {
            Seq::empty()
        } else {
            params.drop_first().map_values(
            |p: Ty|
                spec_subst(
                    p,
                    candidate.target_substitutions@,
                    candidate.target_const_substitutions@,
                    Some(candidate.self_ty),
                ),
            )
        }
    }

    /// One extension method candidate is more specific than another: its
    /// target is covered by the other's, and so are its parameters when
    /// both signatures are known, and something is strictly more specific.
    pub open spec fn spec_method_candidate_more_specific(
        &self,
        specific: MethodCandidate,
        general: MethodCandidate,
    ) -> bool {
        if !self.spec_pattern_subsumes(general.target_ty, specific.target_ty) {
            false
        } else {
            let any_strict = self.spec_strictly_more_specific(specific.target_ty, general.target_ty);
            match (
                self.function_param_types.spec_get(specific.method_id),
                self.function_param_types.spec_get(general.method_id),
            ) {
                (Some(sp), Some(gp)) => {
                    let sps = self.spec_candidate_param_types(specific, sp@);
                    let gps = self.spec_candidate_param_types(general, gp@);
                    if sps.len() != gps.len() {
                        any_strict
                    } else {
                        spec_pairs_more_specific(*self, sps, gps, any_strict)
                    }
                },
                _ => any_strict,
            }
        }
    }

    /// One trait method candidate is more specific than another of the same
    /// trait method: its `Self` type and trait arguments are covered by the
    /// other's and one of them strictly.
    pub open spec fn spec_trait_method_candidate_more_specific(
        &self,
        specific: TraitMethodCandidate,
        general: TraitMethodCandidate,
    ) -> bool {
        if specific.trait_id != general.trait_id || specific.trait_method_id != general.trait_method_id
            || specific.trait_args.len() != general.trait_args.len() {
            false
        } else if !self.spec_pattern_subsumes(general.self_ty, specific.self_ty) {
            false
        } else {
            spec_pairs_more_specific(
                *self,
                specific.trait_args.seq(),
                general.trait_args.seq(),
                self.spec_strictly_more_specific(specific.self_ty, general.self_ty),
            )
        }
    }

    /// Some other candidate (at another position) is more specific than the
    /// one at `i`.
    pub open spec fn spec_trait_candidate_dominated(&self, candidates: Seq<TraitMethodCandidate>, i: int) -> bool {
        exists|j: int|
            0 <= j < candidates.len() && j != i && #[trigger] self.spec_trait_method_candidate_more_specific(
                candidates[j],
                candidates[i],
            )
    }

    /// The positions below `k` of the candidates that no other candidate is
    /// more specific than.
    pub open spec fn spec_undominated_trait_candidates(&self, candidates: Seq<TraitMethodCandidate>, k: int) -> Seq<
        int,
    >
        decreases k,
    {
        if k <= 0 {
            Seq::empty()
        } else {
            let prefix = self.spec_undominated_trait_candidates(candidates, k - 1);
            if self.spec_trait_candidate_dominated(candidates, k - 1) {
                prefix
            } else {
                prefix.push(k - 1)
            }
        }
    }

    /// Some other candidate (for another method) is more specific than the
    /// one at `i`.
    pub open spec fn spec_method_candidate_dominated(&self, candidates: Seq<MethodCandidate>, i: int) -> bool {
        exists|j: int|
            0 <= j < candidates.len() && candidates[j].method_id != candidates[i].method_id
                && #[trigger] self.spec_method_candidate_more_specific(candidates[j], candidates[i])
    }

    /// The positions below `k` of the candidates that no candidate for
    /// another method is more specific than.
    pub open spec fn spec_undominated_method_candidates(&self, candidates: Seq<MethodCandidate>, k: int) -> Seq<int>
        decreases k,
    {
        if k <= 0 {
            Seq::empty()
        } else {
            let prefix = self.spec_undominated_method_candidates(candidates, k - 1);
            if self.spec_method_candidate_dominated(candidates, k - 1) {
                prefix
            } else {
                prefix.push(k - 1)
            }
        }
    }
}


/// The number of undominated candidates only grows with the prefix.
proof fn lemma_undominated_trait_grows(checker: &BodyChecker, candidates: Seq<TraitMethodCandidate>, k: int, m: int)
    requires
        0 <= k <= m,
    ensures
        checker.spec_undominated_trait_candidates(candidates, k).len()
            <= checker.spec_undominated_trait_candidates(candidates, m).len(),
    decreases m - k,
{
    if k < m {
        lemma_undominated_trait_grows(checker, candidates, k, m - 1);
    }
}

proof fn lemma_undominated_method_grows(checker: &BodyChecker, candidates: Seq<MethodCandidate>, k: int, m: int)
    requires
        0 <= k <= m,
    ensures
        checker.spec_undominated_method_candidates(candidates, k).len()
            <= checker.spec_undominated_method_candidates(candidates, m).len(),
    decreases m - k,
{
    if k < m {
        lemma_undominated_method_grows(checker, candidates, k, m - 1);
    }
}

impl BodyChecker {
    /// Whether the first types are pairwise covered by the second ones (see
    /// `spec_pairs_more_specific`).
    fn pairs_more_specific(&self, specific: &Vec<Ty>, general: &Vec<Ty>, strict: bool) -> (r: bool)
        ensures
            r == spec_pairs_more_specific(*self, specific@, general@, strict),
    {
        let mut any = strict;
        let mut i: usize = 0;
        proof {
            assert(specific@.skip(0) =~= specific@);
            assert(general@.skip(0) =~= general@);
        }
        while i < specific.len() && i < general.len()
            invariant
                i <= specific@.len(),
                i <= general@.len(),
                spec_pairs_more_specific(*self, specific@, general@, strict) == spec_pairs_more_specific(
                    *self,
                    specific@.skip(i as int),
                    general@.skip(i as int),
                    any,
                ),
            decreases specific@.len() - i,
        {
            proof {
                assert(specific@.skip(i as int)[0] == specific@[i as int]);
                assert(general@.skip(i as int)[0] == general@[i as int]);
                assert(specific@.skip(i as int).drop_first() =~= specific@.skip(i + 1));
                assert(general@.skip(i as int).drop_first() =~= general@.skip(i + 1));
            }
            if !self.pattern_subsumes(&general[i], &specific[i]) {
                return false;
            }
            if self.strictly_more_specific(&specific[i], &general[i]) {
                any = true;
            }
            i = i + 1;
        }
        any
    }

    /// Whether the first type lists are pairwise covered by the second ones.
    fn list_pairs_more_specific(&self, specific: &TyList, general: &TyList, strict: bool) -> (r: bool)
        ensures
            r == spec_pairs_more_specific(*self, specific.seq(), general.seq(), strict),
        decreases specific,
    {
        match (specific, general) {
            (TyList::Cons(sh, st), TyList::Cons(gh, gt)) => {
                proof {
                    assert(specific.seq()[0] == **sh);
                    assert(general.seq()[0] == **gh);
                    assert(specific.seq().drop_first() =~= st.seq());
                    assert(general.seq().drop_first() =~= gt.seq());
                }
                if !self.pattern_subsumes(gh, sh) {
                    return false;
                }
                let strict = strict || self.strictly_more_specific(sh, gh);
                self.list_pairs_more_specific(st, gt, strict)
            },
            _ => strict,
        }
    }

    /// The parameter types of a candidate after the receiver, with its
    /// substitutions and `Self` applied.
    pub fn method_candidate_param_types(&self, candidate: &MethodCandidate, params: &Vec<Ty>) -> (r: Vec<Ty>)
        requires
            candidate.wf(),
        ensures
            r@ == self.spec_candidate_param_types(*candidate, params@),
    {
        let mut r: Vec<Ty> = Vec::new();
        if params.len() == 0 {
            return r;
        }
        let mut i: usize = 1;
        proof {
            assert(r@ =~= params@.subrange(1, 1).map_values(
                |p: Ty|
                    spec_subst(
                        p,
                        candidate.target_substitutions@,
                        candidate.target_const_substitutions@,
                        Some(candidate.self_ty),
                    ),
            ));
        }
        while i < params.len()
            invariant
                1 <= i <= params@.len(),
                candidate.wf(),
                r@ == params@.subrange(1, i as int).map_values(
                    |p: Ty|
                        spec_subst(
                            p,
                            candidate.target_substitutions@,
                            candidate.target_const_substitutions@,
                            Some(candidate.self_ty),
                        ),
                ),
            decreases params@.len() - i,
        {
            let t = substitute_generics_and_consts_with_self(
                &params[i],
                &candidate.target_substitutions,
                &candidate.target_const_substitutions,
                &candidate.self_ty,
            );
            r.push(t);
            proof {
                assert(params@.subrange(1, i + 1) =~= params@.subrange(1, i as int).push(params@[i as int]));
            }
            i = i + 1;
            proof {
                assert(r@ =~= params@.subrange(1, i as int).map_values(
                    |p: Ty|
                        spec_subst(
                            p,
                            candidate.target_substitutions@,
                            candidate.target_const_substitutions@,
                            Some(candidate.self_ty),
                        ),
                ));
            }
        }
        proof {
            assert(params@.subrange(1, params@.len() as int) =~= params@.drop_first());
        }
        r
    }

    /// Whether one extension method candidate is more specific than another.
    pub fn method_candidate_more_specific(&self, specific: &MethodCandidate, general: &MethodCandidate) -> (r:
        bool)
        requires
            specific.wf(),
            general.wf(),
        ensures
            r == self.spec_method_candidate_more_specific(*specific, *general),
    {
        if !self.pattern_subsumes(&general.target_ty, &specific.target_ty) {
            return false;
        }
        let any_strict = self.strictly_more_specific(&specific.target_ty, &general.target_ty);
        let specific_signature = match self.function_param_types.get(&specific.method_id) {
            Some(p) => p,
            None => {
                return any_strict;
            },
        };
        let general_signature = match self.function_param_types.get(&general.method_id) {
            Some(p) => p,
            None => {
                return any_strict;
            },
        };
        let specific_params = self.method_candidate_param_types(specific, specific_signature);
        let general_params = self.method_candidate_param_types(general, general_signature);
        if specific_params.len() != general_params.len() {
            return any_strict;
        }
        self.pairs_more_specific(&specific_params, &general_params, any_strict)
    }

    /// Whether one trait method candidate is more specific than another.
    pub fn trait_method_candidate_more_specific(
        &self,
        specific: &TraitMethodCandidate,
        general: &TraitMethodCandidate,
    ) -> (r: bool)
        ensures
            r == self.spec_trait_method_candidate_more_specific(*specific, *general),
    {
        if !specific.trait_id.same(&general.trait_id) || !specific.trait_method_id.same(&general.trait_method_id)
            || !crate::ty::ty_list_same_len(&specific.trait_args, &general.trait_args) {
            return false;
        }
        let specific_is_stricter = self.strictly_more_specific(&specific.self_ty, &general.self_ty);
        if !self.pattern_subsumes(&general.self_ty, &specific.self_ty) {
            return false;
        }
        self.list_pairs_more_specific(&specific.trait_args, &general.trait_args, specific_is_stricter)
    }

    /// Whether another trait candidate is more specific than the one at `i`.
    fn trait_candidate_dominated(&self, candidates: &Vec<TraitMethodCandidate>, i: usize) -> (r: bool)
        requires
            i < candidates@.len(),
        ensures
            r == self.spec_trait_candidate_dominated(candidates@, i as int),
    {
        let mut j: usize = 0;
        while j < candidates.len()
            invariant
                i < candidates@.len(),
                j <= candidates@.len(),
                forall|k: int|
                    0 <= k < j && k != i ==> !#[trigger] self.spec_trait_method_candidate_more_specific(
                        candidates@[k],
                        candidates@[i as int],
                    ),
            decreases candidates@.len() - j,
        {
            if j != i && self.trait_method_candidate_more_specific(&candidates[j], &candidates[i]) {
                return true;
            }
            j = j + 1;
        }
        false
    }

    /// The trait method candidate that no other is more specific than;
    /// when several remain, an ambiguity is reported and none is chosen.
    pub fn single_trait_method_candidate<'b>(
        &mut self,
        span: Span,
        name: SymbolId,
        candidates: &'b Vec<TraitMethodCandidate>,
    ) -> (r: Option<&'b TraitMethodCandidate>)
        ensures
            final(self).same_except_diagnostics(old(self)),
            ({
                let u = old(self).spec_undominated_trait_candidates(candidates@, candidates@.len() as int);
                if u.len() == 0 {
                    r is None && final(self).diagnostics@ == old(self).diagnostics@
                } else if u.len() == 1 {
                    r is Some && *r.unwrap() == candidates@[u[0]] && final(self).diagnostics@
                        == old(self).diagnostics@
                } else {
                    r is None && final(self).diagnostics@ == old(self).diagnostics@.push(
                        Diagnostic::AmbiguousTraitMethod { span, name },
                    )
                }
            }),
    {
        let mut selected: Option<&'b TraitMethodCandidate> = None;
        let mut i: usize = 0;
        while i < candidates.len()
            invariant
                i <= candidates@.len(),
                *self == *old(self),
                ({
                    let u = self.spec_undominated_trait_candidates(candidates@, i as int);
                    u.len() <= 1 && (u.len() == 0 ==> selected is None) && (u.len() == 1 ==> selected is Some
                        && *selected.unwrap() == candidates@[u[0]])
                }),
            decreases candidates@.len() - i,
        {
            if !self.trait_candidate_dominated(candidates, i) {
                if selected.is_some() {
                    proof {
                        lemma_undominated_trait_grows(self, candidates@, i + 1, candidates@.len() as int);
                    }
                    self.diagnostics.push(Diagnostic::AmbiguousTraitMethod { span, name });
                    return None;
                }
                selected = Some(&candidates[i]);
            }
            i = i + 1;
        }
        selected
    }

    /// Whether a candidate for another method is more specific than the one
    /// at `i`.
    fn method_candidate_dominated(&self, candidates: &Vec<MethodCandidate>, i: usize) -> (r: bool)
        requires
            i < candidates@.len(),
            forall|k: int| 0 <= k < candidates@.len() ==> #[trigger] candidates@[k].wf(),
        ensures
            r == self.spec_method_candidate_dominated(candidates@, i as int),
    {
        let mut j: usize = 0;
        while j < candidates.len()
            invariant
                i < candidates@.len(),
                j <= candidates@.len(),
                forall|k: int| 0 <= k < candidates@.len() ==> #[trigger] candidates@[k].wf(),
                forall|k: int|
                    0 <= k < j && candidates@[k].method_id != candidates@[i as int].method_id
                        ==> !#[trigger] self.spec_method_candidate_more_specific(
                        candidates@[k],
                        candidates@[i as int],
                    ),
            decreases candidates@.len() - j,
        {
            if !candidates[j].method_id.same(&candidates[i].method_id) && self.method_candidate_more_specific(
                &candidates[j],
                &candidates[i],
            ) {
                return true;
            }
            j = j + 1;
        }
        false
    }

    /// The extension method candidate that no candidate for another method
    /// is more specific than; when several remain, an ambiguity is reported
    /// and none is chosen.
    pub fn single_method_candidate<'b>(
        &mut self,
        span: Span,
        name: SymbolId,
        candidates: &'b Vec<MethodCandidate>,
    ) -> (r: Option<&'b MethodCandidate>)
        requires
            forall|k: int| 0 <= k < candidates@.len() ==> #[trigger] candidates@[k].wf(),
        ensures
            final(self).same_except_diagnostics(old(self)),
            ({
                let u = old(self).spec_undominated_method_candidates(candidates@, candidates@.len() as int);
                if u.len() == 0 {
                    r is None && final(self).diagnostics@ == old(self).diagnostics@
                } else if u.len() == 1 {
                    r is Some && *r.unwrap() == candidates@[u[0]] && final(self).diagnostics@
                        == old(self).diagnostics@
                } else {
                    r is None && final(self).diagnostics@ == old(self).diagnostics@.push(
                        Diagnostic::AmbiguousMethod { span, name },
                    )
                }
            }),
    {
        let mut selected: Option<&'b MethodCandidate> = None;
        let mut i: usize = 0;
        while i < candidates.len()
            invariant
                i <= candidates@.len(),
                *self == *old(self),
                forall|k: int| 0 <= k < candidates@.len() ==> #[trigger] candidates@[k].wf(),
                ({
                    let u = self.spec_undominated_method_candidates(candidates@, i as int);
                    u.len() <= 1 && (u.len() == 0 ==> selected is None) && (u.len() == 1 ==> selected is Some
                        && *selected.unwrap() == candidates@[u[0]])
                }),
            decreases candidates@.len() - i,
        {
            if !self.method_candidate_dominated(candidates, i) {
                if selected.is_some() {
                    proof {
                        lemma_undominated_method_grows(self, candidates@, i + 1, candidates@.len() as int);
                    }
                    self.diagnostics.push(Diagnostic::AmbiguousMethod { span, name });
                    return None;
                }
                selected = Some(&candidates[i]);
            }
            i = i + 1;
        }
        selected
    }
}


impl BodyChecker {
    /// Every position listed as undominated is a position below `k` whose
    /// candidate no other candidate is more specific than.
    pub proof fn lemma_undominated_trait_members(&self, candidates: Seq<TraitMethodCandidate>, k: int)
        requires
            k <= candidates.len(),
        ensures
            forall|i: int|
                0 <= i < self.spec_undominated_trait_candidates(candidates, k).len() ==> {
                    let x = #[trigger] self.spec_undominated_trait_candidates(candidates, k)[i];
                    0 <= x < k && !self.spec_trait_candidate_dominated(candidates, x)
                },
        decreases k,
    {
        if k > 0 {
            self.lemma_undominated_trait_members(candidates, k - 1);
            let prefix = self.spec_undominated_trait_candidates(candidates, k - 1);
            let u = self.spec_undominated_trait_candidates(candidates, k);
            assert forall|i: int| 0 <= i < u.len() implies {
                let x = #[trigger] u[i];
                0 <= x < k && !self.spec_trait_candidate_dominated(candidates, x)
            } by {
                if i < prefix.len() {
                    assert(u[i] == prefix[i]);
                }
            }
        }
    }

    /// The trait method candidate that the selection chooses is one that no
    /// other candidate is more specific than.
    pub proof fn lemma_chosen_trait_candidate_is_most_specific(&self, candidates: Seq<TraitMethodCandidate>)
        requires
            self.spec_undominated_trait_candidates(candidates, candidates.len() as int).len() == 1,
        ensures
            ({
                let chosen = self.spec_undominated_trait_candidates(candidates, candidates.len() as int)[0];
                &&& 0 <= chosen < candidates.len()
                &&& forall|j: int|
                    0 <= j < candidates.len() && j != chosen ==> !#[trigger] self.spec_trait_method_candidate_more_specific(
                        candidates[j],
                        candidates[chosen],
                    )
            }),
    {
        self.lemma_undominated_trait_members(candidates, candidates.len() as int);
        let u = self.spec_undominated_trait_candidates(candidates, candidates.len() as int);
        assert(0 <= u[0] < candidates.len() && !self.spec_trait_candidate_dominated(candidates, u[0]));
    }

    /// Every position listed as undominated is a position below `k` whose
    /// candidate no candidate for another method is more specific than.
    pub proof fn lemma_undominated_method_members(&self, candidates: Seq<MethodCandidate>, k: int)
        requires
            k <= candidates.len(),
        ensures
            forall|i: int|
                0 <= i < self.spec_undominated_method_candidates(candidates, k).len() ==> {
                    let x = #[trigger] self.spec_undominated_method_candidates(candidates, k)[i];
                    0 <= x < k && !self.spec_method_candidate_dominated(candidates, x)
                },
        decreases k,
    {
        if k > 0 {
            self.lemma_undominated_method_members(candidates, k - 1);
            let prefix = self.spec_undominated_method_candidates(candidates, k - 1);
            let u = self.spec_undominated_method_candidates(candidates, k);
            assert forall|i: int| 0 <= i < u.len() implies {
                let x = #[trigger] u[i];
                0 <= x < k && !self.spec_method_candidate_dominated(candidates, x)
            } by {
                if i < prefix.len() {
                    assert(u[i] == prefix[i]);
                }
            }
        }
    }

    /// The extension method candidate that the selection chooses is one that
    /// no candidate for another method is more specific than.
    pub proof fn lemma_chosen_method_candidate_is_most_specific(&self, candidates: Seq<MethodCandidate>)
        requires
            self.spec_undominated_method_candidates(candidates, candidates.len() as int).len() == 1,
        ensures
            ({
                let chosen = self.spec_undominated_method_candidates(candidates, candidates.len() as int)[0];
                &&& 0 <= chosen < candidates.len()
                &&& forall|j: int|
                    0 <= j < candidates.len() && candidates[j].method_id != candidates[chosen].method_id
                        ==> !#[trigger] self.spec_method_candidate_more_specific(candidates[j], candidates[chosen])
            }),
    {
        self.lemma_undominated_method_members(candidates, candidates.len() as int);
        let u = self.spec_undominated_method_candidates(candidates, candidates.len() as int);
        assert(0 <= u[0] < candidates.len() && !self.spec_method_candidate_dominated(candidates, u[0]));
    }
}

} // verus!
