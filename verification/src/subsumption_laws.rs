//! Soundness of subsumption: when a pattern built from type parameters,
//! concrete leaves, wrappers, error unions and builtin-trait types
//! covers a type, the bindings the check found turn the pattern into that
//! type, and so does any extension of them. So a pattern that subsumes
//! another is, by some substitution of its parameters, the other one.
use vstd::prelude::*;
use crate::checker::BodyChecker;
use crate::matching_laws::extends;
use crate::pattern_matching::{ConstMap, TyMap};
use crate::subst::{spec_subst, spec_subst_list};
use crate::ty::{Ty, TyList};

verus! {

/// Patterns made of type parameters, concrete leaves, the wrappers,
/// error unions and builtin-trait types.
pub open spec fn spec_simple_pattern(p: Ty) -> bool
    decreases p,
{
    match p {
        Ty::GenericParam(_) | Ty::Primitive(_) | Ty::BuiltinType(_) | Ty::Vector { .. } | Ty::Opaque => true,
        Ty::Pointer { elem, .. } | Ty::VolatilePointer { elem, .. } | Ty::Slice { elem, .. }
        | Ty::SlicePointee { elem } | Ty::Optional { elem } => spec_simple_pattern(*elem),
        Ty::ErrorUnion { error, value } => spec_simple_pattern(*error) && spec_simple_pattern(*value),
        Ty::BuiltinTrait { args, .. } => spec_simple_list(args),
        _ => false,
    }
}

pub open spec fn spec_simple_list(l: TyList) -> bool
    decreases l,
{
    match l {
        TyList::Nil => true,
        TyList::Cons(h, t) => spec_simple_pattern(*h) && spec_simple_list(*t),
    }
}

impl BodyChecker {
    /// When a simple pattern covers a type, the check only adds bindings,
    /// and substituting any extension of them into the pattern gives the
    /// type.
    pub proof fn lemma_subsumes_sound(&self, general: Ty, specific: Ty, s: TyMap, c: ConstMap)
        requires
            spec_simple_pattern(general),
            self.spec_subsumes_inner(general, specific, s, c).0,
        ensures
            extends(s, self.spec_subsumes_inner(general, specific, s, c).1),
            forall|s2: TyMap, c2: ConstMap|
                extends(self.spec_subsumes_inner(general, specific, s, c).1, s2) ==> #[trigger] spec_subst(
                    general,
                    s2,
                    c2,
                    None,
                ) == specific,
        decreases general, 0nat,
    {
        let r = self.spec_subsumes_inner(general, specific, s, c);
        match general {
            Ty::GenericParam(n) => {
                assert(r.1.contains_key(n) && r.1[n] == specific);
                assert forall|s2: TyMap, c2: ConstMap| extends(r.1, s2) implies #[trigger] spec_subst(
                    general,
                    s2,
                    c2,
                    None,
                ) == specific by {
                    assert(r.1.contains_key(n));
                    assert(s2.contains_key(n));
                    assert(s2[n] == specific);
                    assert(spec_subst(Ty::GenericParam(n), s2, c2, None) == s2[n]);
                }
            },
            Ty::Pointer { elem: ge, .. } | Ty::VolatilePointer { elem: ge, .. } | Ty::Slice { elem: ge, .. }
            | Ty::SlicePointee { elem: ge } | Ty::Optional { elem: ge } => {
                let se = match specific {
                    Ty::Pointer { elem, .. } | Ty::VolatilePointer { elem, .. } | Ty::Slice { elem, .. }
                    | Ty::SlicePointee { elem } | Ty::Optional { elem } => *elem,
                    _ => specific,
                };
                self.lemma_subsumes_sound(*ge, se, s, c);
                assert forall|s2: TyMap, c2: ConstMap| extends(r.1, s2) implies #[trigger] spec_subst(
                    general,
                    s2,
                    c2,
                    None,
                ) == specific by {
                    assert(spec_subst(*ge, s2, c2, None) == se);
                }
            },
            Ty::ErrorUnion { error: ge, value: gv } => {
                if let Ty::ErrorUnion { error: se, value: sv } = specific {
                    let r1 = self.spec_subsumes_inner(*ge, *se, s, c);
                    self.lemma_subsumes_sound(*ge, *se, s, c);
                    self.lemma_subsumes_sound(*gv, *sv, r1.1, r1.2);
                    assert forall|s2: TyMap, c2: ConstMap| extends(r.1, s2) implies #[trigger] spec_subst(
                        general,
                        s2,
                        c2,
                        None,
                    ) == specific by {
                        assert(extends(r1.1, s2));
                        assert(spec_subst(*ge, s2, c2, None) == *se);
                        assert(spec_subst(*gv, s2, c2, None) == *sv);
                    }
                }
            },
            Ty::BuiltinTrait { args: ga, .. } => {
                if let Ty::BuiltinTrait { args: sa, .. } = specific {
                    self.lemma_subsumes_list_sound(ga, sa, s, c);
                    assert forall|s2: TyMap, c2: ConstMap| extends(r.1, s2) implies #[trigger] spec_subst(
                        general,
                        s2,
                        c2,
                        None,
                    ) == specific by {
                        assert(spec_subst_list(ga, s2, c2, None) == sa);
                    }
                }
            },
            _ => {
                assert forall|s2: TyMap, c2: ConstMap| extends(r.1, s2) implies #[trigger] spec_subst(
                    general,
                    s2,
                    c2,
                    None,
                ) == specific by {
                    assert(spec_subst(general, s2, c2, None) == general);
                }
            },
        }
    }

    /// When simple patterns cover a list of types of the same length, the
    /// check only adds bindings, and substituting any extension of them
    /// into the patterns gives the list.
    pub proof fn lemma_subsumes_list_sound(&self, general: TyList, specific: TyList, s: TyMap, c: ConstMap)
        requires
            spec_simple_list(general),
            general.len() == specific.len(),
            self.spec_subsumes_list(general, specific, s, c).0,
        ensures
            extends(s, self.spec_subsumes_list(general, specific, s, c).1),
            forall|s2: TyMap, c2: ConstMap|
                extends(self.spec_subsumes_list(general, specific, s, c).1, s2) ==> #[trigger] spec_subst_list(
                    general,
                    s2,
                    c2,
                    None,
                ) == specific,
        decreases general, 0nat,
    {
        let r = self.spec_subsumes_list(general, specific, s, c);
        match (general, specific) {
            (TyList::Cons(g, gt), TyList::Cons(sp, st)) => {
                let r1 = self.spec_subsumes_inner(*g, *sp, s, c);
                self.lemma_subsumes_sound(*g, *sp, s, c);
                self.lemma_subsumes_list_sound(*gt, *st, r1.1, r1.2);
                assert forall|s2: TyMap, c2: ConstMap| extends(r.1, s2) implies #[trigger] spec_subst_list(
                    general,
                    s2,
                    c2,
                    None,
                ) == specific by {
                    assert(extends(r1.1, s2));
                    assert(spec_subst(*g, s2, c2, None) == *sp);
                    assert(spec_subst_list(*gt, s2, c2, None) == *st);
                }
            },
            (TyList::Nil, TyList::Nil) => {},
            (TyList::Nil, TyList::Cons(_, t)) => {
                assert(specific.len() == 1 + t.len());
            },
            (TyList::Cons(_, t), TyList::Nil) => {
                assert(general.len() == 1 + t.len());
            },
        }
    }

    /// A simple pattern that subsumes a type is that type under some
    /// substitution of its parameters.
    pub proof fn lemma_pattern_subsumes_is_instance(&self, general: Ty, specific: Ty)
        requires
            spec_simple_pattern(general),
            self.spec_pattern_subsumes(general, specific),
        ensures
            exists|s: TyMap| spec_subst(general, s, Map::empty(), None) == specific,
    {
        let r = self.spec_subsumes_inner(general, specific, Map::empty(), Map::empty());
        self.lemma_subsumes_sound(general, specific, Map::empty(), Map::empty());
        assert(extends(r.1, r.1));
        assert(spec_subst(general, r.1, Map::empty(), None) == specific);
    }
}

} // verus!
