//! The decision a method call on a known receiver type takes: which kind of
//! method answers it, or which error it reports when none does.
use vstd::prelude::*;
use crate::candidates::{MethodCandidate, TraitMethodCandidate};
use crate::checker::{BodyChecker, Diagnostic, ProviderDemand, ProviderRequest};
use crate::ids::{Span, SymbolId};
use crate::resolution::spec_provider_demand_target_is_error;
use crate::ty::Ty;

verus! {

/// What a method call has gathered so far: its receiver type, the
/// extension methods of the called name (how many the body may call, how
/// many are private to another module, and those whose signature accepts
/// the call), the trait methods found for the receiver, the dynamic trait
/// methods of a trait-object receiver, and which searches already ran.
pub struct MethodDispatch {
    pub receiver_ty: Ty,
    pub accessible_candidates: usize,
    pub inaccessible_candidates: usize,
    pub viable_candidates: Vec<MethodCandidate>,
    pub trait_candidates: Vec<TraitMethodCandidate>,
    pub trait_candidates_searched: bool,
    pub dynamic_candidates: usize,
    pub builtin_fallbacks_tried: bool,
    pub receiver_supports_field_access: bool,
}

/// Where a method call goes next.
#[derive(Clone, Copy, Debug, PartialEq, Eq, Structural)]
pub enum MethodCallRoute {
    /// Look for trait methods of the called name on the receiver first.
    SearchTraitCandidates,
    /// Call through the receiver's trait object.
    DynamicTraitCall,
    /// Call one of the trait methods whose implementation is assumed.
    AssumedTraitCall,
    /// Call one of the visible trait methods; no extension method fits.
    VisibleTraitCall,
    /// Try the builtin range, slice-pointer and builtin-trait methods.
    BuiltinFallbacks,
    /// Every extension method of the name is private to another module.
    Inaccessible,
    /// Several extension methods exist and none accepts the arguments.
    NoMatchingOverload,
    /// Nothing of the name exists on the receiver.
    UnknownMethod,
    /// Nothing fits, and the receiver gives no reason to report it here.
    NoCandidate,
    /// Choose among the extension methods that fit.
    SingleCandidate,
}

/// Some trait method candidate is one whose implementation is assumed.
pub open spec fn spec_any_assumed(candidates: Seq<TraitMethodCandidate>) -> bool {
    exists|i: int| 0 <= i < candidates.len() && #[trigger] candidates[i].is_assumed
}

fn any_assumed(candidates: &Vec<TraitMethodCandidate>) -> (r: bool)
    ensures
        r == spec_any_assumed(candidates@),
{
    let mut i: usize = 0;
    while i < candidates.len()
        invariant
            i <= candidates@.len(),
            forall|k: int| 0 <= k < i ==> !#[trigger] candidates@[k].is_assumed,
        decreases candidates@.len() - i,
    {
        if candidates[i].is_assumed {
            return true;
        }
        i = i + 1;
    }
    false
}

/// The outcome of a method call once the decision is taken.
pub enum MethodCallOutcome<'b> {
    /// Work the caller does next: a search, a trait or dynamic call, or the
    /// builtin methods.
    Continue(MethodCallRoute),
    /// The call is an error and has the error type.
    ErrorType,
    /// The call has no type.
    NoType,
    /// The extension method the call resolves to.
    Selected(&'b MethodCandidate),
}

impl BodyChecker {
    /// The route of a call, in order of precedence: a missing trait search
    /// runs first when nothing fits yet; a dynamic trait method wins, then
    /// an assumed trait method, then a visible trait method when no
    /// extension method fits; then the builtin methods; then the errors
    /// (only private methods, several that do not fit, none at all on a
    /// receiver that is neither erroneous nor has fields); otherwise the
    /// extension methods that fit are chosen among.
    pub open spec fn spec_method_call_route(&self, d: MethodDispatch) -> MethodCallRoute {
        let none_viable = d.viable_candidates@.len() == 0;
        let receiver = self.spec_normalize_aliases(d.receiver_ty);
        if !d.trait_candidates_searched && d.trait_candidates@.len() == 0 && none_viable {
            MethodCallRoute::SearchTraitCandidates
        } else if d.dynamic_candidates > 0 {
            MethodCallRoute::DynamicTraitCall
        } else if spec_any_assumed(d.trait_candidates@) {
            MethodCallRoute::AssumedTraitCall
        } else if none_viable && d.trait_candidates@.len() > 0 {
            MethodCallRoute::VisibleTraitCall
        } else if none_viable && !d.builtin_fallbacks_tried {
            MethodCallRoute::BuiltinFallbacks
        } else if none_viable && d.accessible_candidates == 0 && d.inaccessible_candidates > 0 {
            MethodCallRoute::Inaccessible
        } else if none_viable && d.accessible_candidates > 1 {
            MethodCallRoute::NoMatchingOverload
        } else if none_viable && d.accessible_candidates == 0 && !spec_provider_demand_target_is_error(
            receiver,
        ) && !d.receiver_supports_field_access {
            MethodCallRoute::UnknownMethod
        } else if none_viable {
            MethodCallRoute::NoCandidate
        } else {
            MethodCallRoute::SingleCandidate
        }
    }

    /// Decides where a method call goes next.
    pub fn method_call_route(&self, d: &MethodDispatch) -> (r: MethodCallRoute)
        ensures
            r == self.spec_method_call_route(*d),
    {
        let none_viable = d.viable_candidates.len() == 0;
        if !d.trait_candidates_searched && d.trait_candidates.len() == 0 && none_viable {
            return MethodCallRoute::SearchTraitCandidates;
        }
        if d.dynamic_candidates > 0 {
            return MethodCallRoute::DynamicTraitCall;
        }
        if any_assumed(&d.trait_candidates) {
            return MethodCallRoute::AssumedTraitCall;
        }
        if !none_viable {
            return MethodCallRoute::SingleCandidate;
        }
        if d.trait_candidates.len() > 0 {
            return MethodCallRoute::VisibleTraitCall;
        }
        if !d.builtin_fallbacks_tried {
            return MethodCallRoute::BuiltinFallbacks;
        }
        if d.accessible_candidates == 0 && d.inaccessible_candidates > 0 {
            return MethodCallRoute::Inaccessible;
        }
        if d.accessible_candidates > 1 {
            return MethodCallRoute::NoMatchingOverload;
        }
        let receiver = self.normalize_aliases_in_type(&d.receiver_ty);
        let erroneous = match receiver {
            Ty::Error | Ty::ConstOnly => true,
            _ => false,
        };
        if d.accessible_candidates == 0 && !erroneous && !d.receiver_supports_field_access {
            MethodCallRoute::UnknownMethod
        } else {
            MethodCallRoute::NoCandidate
        }
    }

    /// The demand for method `name` on `receiver`.
    pub open spec fn spec_method_demand(&self, receiver: Ty, name: SymbolId) -> ProviderDemand {
        ProviderDemand {
            source_path: self.source_path,
            request: ProviderRequest::Method {
                target_type_name: self.spec_provider_target_type_name(receiver),
                method_name: name,
            },
        }
    }

    /// What recording the demand for `name` on `receiver` leaves of `old`.
    pub open spec fn spec_method_demand_recorded(&self, old: &BodyChecker, receiver: Ty, name: SymbolId) -> bool {
        if spec_provider_demand_target_is_error(receiver) {
            self.provider_demands == old.provider_demands && self.provider_demands_by_function
                == old.provider_demands_by_function
        } else {
            self.demands_recorded(old, old.spec_method_demand(receiver, name))
        }
    }

    /// Takes the decision for a method call named `name` at `span`: hands
    /// the routes that need further work back, reports the errors (with a
    /// demand for the method where it may come from elsewhere), and chooses
    /// among the extension methods that fit.
    pub fn resolve_method_call<'b>(
        &mut self,
        span: Span,
        name: SymbolId,
        d: &'b MethodDispatch,
    ) -> (r: MethodCallOutcome<'b>)
        requires
            forall|k: int|
                0 <= k < d.viable_candidates@.len() ==> #[trigger] d.viable_candidates@[k].wf(),
        ensures
            ({
                let route = old(self).spec_method_call_route(*d);
                let receiver = old(self).spec_normalize_aliases(d.receiver_ty);
                match route {
                    MethodCallRoute::Inaccessible => r is ErrorType && final(self).same_except_diagnostics(
                        old(self),
                    ) && final(self).diagnostics@ == old(self).diagnostics@.push(
                        Diagnostic::InaccessibleMethod { span, name },
                    ),
                    MethodCallRoute::NoMatchingOverload => r is ErrorType
                        && final(self).same_except_diagnostics(old(self)) && final(self).diagnostics@
                        == old(self).diagnostics@.push(
                        Diagnostic::NoMatchingMethodOverload { span, name, receiver },
                    ),
                    MethodCallRoute::UnknownMethod => r is ErrorType && final(self).diagnostics@
                        == old(self).diagnostics@.push(Diagnostic::UnknownMethod { span, name, receiver })
                        && (BodyChecker { diagnostics: old(self).diagnostics, ..*final(self) }).only_demands_changed(
                        old(self),
                    ) && final(self).demands_recorded(old(self), old(self).spec_method_demand(receiver, name)),
                    MethodCallRoute::NoCandidate => r is NoType && final(self).only_demands_changed(old(self))
                        && final(self).spec_method_demand_recorded(old(self), receiver, name),
                    MethodCallRoute::SingleCandidate => final(self).same_except_diagnostics(old(self)) && ({
                        let u = old(self).spec_undominated_method_candidates(
                            d.viable_candidates@,
                            d.viable_candidates@.len() as int,
                        );
                        if u.len() == 1 {
                            r matches MethodCallOutcome::Selected(c) && *c == d.viable_candidates@[u[0]]
                                && final(self).diagnostics@ == old(self).diagnostics@
                        } else if u.len() == 0 {
                            r is ErrorType && final(self).diagnostics@ == old(self).diagnostics@
                        } else {
                            r is ErrorType && final(self).diagnostics@ == old(self).diagnostics@.push(
                                Diagnostic::AmbiguousMethod { span, name },
                            )
                        }
                    }),
                    _ => r == MethodCallOutcome::Continue(route) && *final(self) == *old(self),
                }
            }),
    {
        let route = self.method_call_route(d);
        match route {
            MethodCallRoute::Inaccessible => {
                self.diagnostics.push(Diagnostic::InaccessibleMethod { span, name });
                MethodCallOutcome::ErrorType
            },
            MethodCallRoute::NoMatchingOverload => {
                let receiver = self.normalize_aliases_in_type(&d.receiver_ty);
                self.diagnostics.push(Diagnostic::NoMatchingMethodOverload { span, name, receiver });
                MethodCallOutcome::ErrorType
            },
            MethodCallRoute::UnknownMethod => {
                let receiver = self.normalize_aliases_in_type(&d.receiver_ty);
                self.record_method_provider_demand(&receiver, name);
                self.diagnostics.push(Diagnostic::UnknownMethod { span, name, receiver });
                MethodCallOutcome::ErrorType
            },
            MethodCallRoute::NoCandidate => {
                let receiver = self.normalize_aliases_in_type(&d.receiver_ty);
                self.record_method_provider_demand(&receiver, name);
                MethodCallOutcome::NoType
            },
            MethodCallRoute::SingleCandidate => {
                match self.single_method_candidate(span, name, &d.viable_candidates) {
                    Some(c) => MethodCallOutcome::Selected(c),
                    None => MethodCallOutcome::ErrorType,
                }
            },
            _ => MethodCallOutcome::Continue(route),
        }
    }
}

/// The candidates whose entry in `matches` holds, in order.
pub open spec fn spec_matching_candidates(c: Seq<MethodCandidate>, matches: Seq<bool>) -> Seq<MethodCandidate>
    decreases c.len(),
{
    if c.len() == 0 {
        Seq::empty()
    } else {
        let rest = spec_matching_candidates(c.drop_first(), matches.drop_first());
        if matches[0] {
            seq![c[0]] + rest
        } else {
            rest
        }
    }
}

/// The extension methods a call can take: those whose signature accepts
/// the call's arguments; when none does and there is a single candidate,
/// that one, so that its own type and arity errors are reported.
pub open spec fn spec_viable_candidates(c: Seq<MethodCandidate>, matches: Seq<bool>) -> Seq<MethodCandidate> {
    let v = spec_matching_candidates(c, matches);
    if v.len() == 0 && c.len() == 1 {
        c
    } else {
        v
    }
}

/// The extension methods a call can take, given for each candidate
/// whether its signature accepts the call's arguments.
pub fn viable_method_candidates(candidates: Vec<MethodCandidate>, matches: &Vec<bool>) -> (r: Vec<MethodCandidate>)
    requires
        matches@.len() == candidates@.len(),
    ensures
        r@ == spec_viable_candidates(candidates@, matches@),
{
    if candidates.len() == 1 && !matches[0] {
        proof {
            assert(candidates@.drop_first().len() == 0);
            assert(spec_matching_candidates(candidates@.drop_first(), matches@.drop_first()) =~= Seq::<
                MethodCandidate,
            >::empty());
            assert(spec_matching_candidates(candidates@, matches@).len() == 0);
        }
        return candidates;
    }
    let ghost all = candidates@;
    proof {
        assert(candidates.len() == candidates@.len());
        assert(all.skip(0) =~= all);
        assert(matches@.skip(0) =~= matches@);
        assert(Seq::<MethodCandidate>::empty() + spec_matching_candidates(all, matches@) =~= spec_matching_candidates(
            all,
            matches@,
        ));
    }
    let mut rest = candidates;
    let mut viable: Vec<MethodCandidate> = Vec::new();
    let mut i: usize = 0;
    while rest.len() > 0
        invariant
            all.len() <= usize::MAX,
            matches@.len() == all.len(),
            i + rest@.len() == all.len(),
            rest@ == all.skip(i as int),
            viable@ + spec_matching_candidates(rest@, matches@.skip(i as int)) == spec_matching_candidates(
                all,
                matches@,
            ),
        decreases rest@.len(),
    {
        let ghost before = rest@;
        let c = rest.remove(0);
        proof {
            assert(rest@ =~= before.drop_first());
            assert(all.skip(i + 1) =~= all.skip(i as int).drop_first());
            assert(matches@.skip(i + 1) =~= matches@.skip(i as int).drop_first());
            assert(matches@.skip(i as int)[0] == matches@[i as int]);
        }
        if matches[i] {
            let ghost v0 = viable@;
            viable.push(c);
            proof {
                assert(viable@ + spec_matching_candidates(rest@, matches@.skip(i + 1)) =~= v0 + (seq![before[0]]
                    + spec_matching_candidates(rest@, matches@.skip(i + 1))));
            }
        }
        i = i + 1;
    }
    proof {
        assert(spec_matching_candidates(rest@, matches@.skip(i as int)) =~= Seq::<MethodCandidate>::empty());
        assert(viable@ + Seq::<MethodCandidate>::empty() =~= viable@);
        if all.len() == 1 {
            assert(all.drop_first().len() == 0);
            assert(spec_matching_candidates(all.drop_first(), matches@.drop_first()) =~= Seq::<
                MethodCandidate,
            >::empty());
        }
    }
    viable
}

} // verus!
