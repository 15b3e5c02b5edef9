//! Structural ordering of generic type patterns.
//!
//! One pattern is more specific than another when the general pattern can
//! bind to it but not the reverse. Repeated type and compile-time parameters
//! share the substitutions, so a repeated parameter cannot bind to two
//! different components; each recursive probe works on a copy and commits
//! only on success.
use vstd::prelude::*;
use crate::checker::BodyChecker;
use crate::ids::SymbolId;
use crate::pattern_matching::{ConstMap, TyMap, const_pattern_args_match, spec_const_args_match, usize_ty};
use crate::symbol_map::SymbolMap;
use crate::ty::{
    ArrayLen, AssocBinding, BindingList, ConstArgList, ConstGenericArg, ConstGenericValue,
    DeepClone, PrimitiveTy, Ty, TyList, binding_list_same_len, const_list_same_len, ty_eq,
    ty_list_same_len,
};

verus! {

impl BodyChecker {
    /// Records `name := specific`, or checks it against an earlier binding.
    pub open spec fn spec_record_const_subsumption(
        &self,
        name: SymbolId,
        specific: ConstGenericArg,
        c: ConstMap,
    ) -> (bool, ConstMap) {
        if c.contains_key(name) {
            (spec_const_args_match(c[name], specific), c)
        } else {
            (true, c.insert(name, specific))
        }
    }

    /// Whether the general array length covers the specific one.
    pub open spec fn spec_array_len_subsumes(
        &self,
        general: ArrayLen,
        specific: ArrayLen,
        c: ConstMap,
    ) -> (bool, ConstMap) {
        if self.spec_array_lens_match(general, specific) {
            (true, c)
        } else {
            match general {
                ArrayLen::GenericParam(name) => match self.spec_const_value_from_array_len(specific) {
                    Some(value) => self.spec_record_const_subsumption(
                        name,
                        ConstGenericArg { ty: Box::new(usize_ty()), value },
                        c,
                    ),
                    None => (false, c),
                },
                _ => (false, c),
            }
        }
    }

    /// Whether `general` covers `specific`; the substitutions change only
    /// when it does.
    pub open spec fn spec_subsumes_inner(&self, general: Ty, specific: Ty, s: TyMap, c: ConstMap) -> (
        bool,
        TyMap,
        ConstMap,
    )
        decreases general, 1nat, 0nat,
    {
        let r = self.spec_subsumes_candidate(general, specific, s, c);
        if r.0 {
            r
        } else {
            (false, s, c)
        }
    }

    /// One structural step of the subsumption check.
    pub open spec fn spec_subsumes_candidate(
        &self,
        general: Ty,
        specific: Ty,
        s: TyMap,
        c: ConstMap,
    ) -> (bool, TyMap, ConstMap)
        decreases general, 0nat, 0nat,
    {
        match general {
            Ty::GenericParam(name) => if s.contains_key(name) {
                (s[name] == specific, s, c)
            } else {
                (true, s.insert(name, specific), c)
            },
            Ty::SelfParam => (true, s, c),
            Ty::Primitive(gp) => (specific == Ty::Primitive(gp), s, c),
            Ty::Opaque => (specific is Opaque, s, c),
            Ty::Tuple(ge) => match specific {
                Ty::Tuple(se) => if ge.len() == se.len() {
                    self.spec_subsumes_list(ge, se, s, c)
                } else {
                    (false, s, c)
                },
                _ => (false, s, c),
            },
            Ty::BuiltinType(gb) => (specific == Ty::BuiltinType(gb), s, c),
            Ty::Vector { elem: ge, lanes: gl } => (specific == Ty::Vector { elem: ge, lanes: gl }, s, c),
            Ty::Pointer { is_readonly: gr, elem: ge } => match specific {
                Ty::Pointer { is_readonly: sr, elem: se } => if gr == sr {
                    self.spec_subsumes_inner(*ge, *se, s, c)
                } else {
                    (false, s, c)
                },
                _ => (false, s, c),
            },
            Ty::VolatilePointer { is_readonly: gr, elem: ge } => match specific {
                Ty::VolatilePointer { is_readonly: sr, elem: se } => if gr == sr {
                    self.spec_subsumes_inner(*ge, *se, s, c)
                } else {
                    (false, s, c)
                },
                _ => (false, s, c),
            },
            Ty::Slice { is_readonly: gr, elem: ge } => match specific {
                Ty::Slice { is_readonly: sr, elem: se } => if gr == sr {
                    self.spec_subsumes_inner(*ge, *se, s, c)
                } else {
                    (false, s, c)
                },
                _ => (false, s, c),
            },
            Ty::SlicePointee { elem: ge } => match specific {
                Ty::SlicePointee { elem: se } => self.spec_subsumes_inner(*ge, *se, s, c),
                _ => (false, s, c),
            },
            Ty::Array { len: gl, elem: ge } => match specific {
                Ty::Array { len: sl, elem: se } => {
                    let (ok, c1) = self.spec_array_len_subsumes(gl, sl, c);
                    if ok {
                        self.spec_subsumes_inner(*ge, *se, s, c1)
                    } else {
                        (false, s, c1)
                    }
                },
                _ => (false, s, c),
            },
            Ty::Range { kind: gk, bound: gb } => match specific {
                Ty::Range { kind: sk, bound: sb } => if gk == sk {
                    match (gb, sb) {
                        (Some(g), Some(sp)) => self.spec_subsumes_inner(*g, *sp, s, c),
                        (None, None) => (true, s, c),
                        _ => (false, s, c),
                    }
                } else {
                    (false, s, c)
                },
                _ => (false, s, c),
            },
            Ty::FunctionPointer { params: gp, return_type: gr, is_variadic: gv } => match specific {
                Ty::FunctionPointer { params: sp, return_type: sr, is_variadic: sv } => if gv == sv
                    && gp.len() == sp.len() {
                    let (ok, s1, c1) = self.spec_subsumes_list(gp, sp, s, c);
                    if ok {
                        self.spec_subsumes_inner(*gr, *sr, s1, c1)
                    } else {
                        (false, s1, c1)
                    }
                } else {
                    (false, s, c)
                },
                _ => (false, s, c),
            },
            Ty::Callable { is_readonly: gro, params: gp, return_type: gr } => match specific {
                Ty::Callable { is_readonly: sro, params: sp, return_type: sr } => if gro == sro
                    && gp.len() == sp.len() {
                    let (ok, s1, c1) = self.spec_subsumes_list(gp, sp, s, c);
                    if ok {
                        self.spec_subsumes_inner(*gr, *sr, s1, c1)
                    } else {
                        (false, s1, c1)
                    }
                } else {
                    (false, s, c)
                },
                _ => (false, s, c),
            },
            Ty::CallablePointee { params: gp, return_type: gr } => match specific {
                Ty::CallablePointee { params: sp, return_type: sr } => if gp.len() == sp.len() {
                    let (ok, s1, c1) = self.spec_subsumes_list(gp, sp, s, c);
                    if ok {
                        self.spec_subsumes_inner(*gr, *sr, s1, c1)
                    } else {
                        (false, s1, c1)
                    }
                } else {
                    (false, s, c)
                },
                _ => (false, s, c),
            },
            Ty::Optional { elem: ge } => match specific {
                Ty::Optional { elem: se } => self.spec_subsumes_inner(*ge, *se, s, c),
                _ => (false, s, c),
            },
            Ty::ErrorUnion { error: ge, value: gv } => match specific {
                Ty::ErrorUnion { error: se, value: sv } => {
                    let (ok, s1, c1) = self.spec_subsumes_inner(*ge, *se, s, c);
                    if ok {
                        self.spec_subsumes_inner(*gv, *sv, s1, c1)
                    } else {
                        (false, s1, c1)
                    }
                },
                _ => (false, s, c),
            },
            Ty::Nominal { def_id: gd, args: ga, const_args: gc } => match specific {
                Ty::Nominal { def_id: sd, args: sa, const_args: sc } => if gd == sd && ga.len()
                    == sa.len() {
                    let (ok, s1, c1) = self.spec_const_list_subsumes(gc, sc, s, c);
                    if ok {
                        self.spec_subsumes_list(ga, sa, s1, c1)
                    } else {
                        (false, s1, c1)
                    }
                } else {
                    (false, s, c)
                },
                _ => (false, s, c),
            },
            Ty::BuiltinTrait { trait_id: gt, args: ga } => match specific {
                Ty::BuiltinTrait { trait_id: st, args: sa } => if gt == st && ga.len() == sa.len() {
                    self.spec_subsumes_list(ga, sa, s, c)
                } else {
                    (false, s, c)
                },
                _ => (false, s, c),
            },
            Ty::TraitObject {
                is_readonly: gro,
                trait_id: gt,
                trait_args: ga,
                trait_const_args: gc,
                bindings: gb,
            } => match specific {
                Ty::TraitObject {
                    is_readonly: sro,
                    trait_id: st,
                    trait_args: sa,
                    trait_const_args: sc,
                    bindings: sb,
                } => if gro == sro && gt == st && ga.len() == sa.len() {
                    let (ok, s1, c1) = self.spec_const_list_subsumes(gc, sc, s, c);
                    if !ok {
                        (false, s1, c1)
                    } else if gb.len() != sb.len() {
                        (false, s1, c1)
                    } else {
                        let (ok2, s2, c2) = self.spec_subsumes_list(ga, sa, s1, c1);
                        if !ok2 {
                            (false, s2, c2)
                        } else {
                            self.spec_bindings_subsume(gb, sb, s2, c2)
                        }
                    }
                } else {
                    (false, s, c)
                },
                _ => (false, s, c),
            },
            Ty::TraitObjectPointee { trait_id: gt, trait_args: ga, trait_const_args: gc, bindings: gb } =>
                match specific {
                Ty::TraitObjectPointee {
                    trait_id: st,
                    trait_args: sa,
                    trait_const_args: sc,
                    bindings: sb,
                } => if gt == st && ga.len() == sa.len() {
                    let (ok, s1, c1) = self.spec_const_list_subsumes(gc, sc, s, c);
                    if !ok {
                        (false, s1, c1)
                    } else if gb.len() != sb.len() {
                        (false, s1, c1)
                    } else {
                        let (ok2, s2, c2) = self.spec_subsumes_list(ga, sa, s1, c1);
                        if !ok2 {
                            (false, s2, c2)
                        } else {
                            self.spec_bindings_subsume(gb, sb, s2, c2)
                        }
                    }
                } else {
                    (false, s, c)
                },
                _ => (false, s, c),
            },
            Ty::Projection {
                self_ty: gs,
                trait_id: gt,
                trait_args: ga,
                trait_const_args: gc,
                name: gn,
            } => match specific {
                Ty::Projection {
                    self_ty: ss,
                    trait_id: st,
                    trait_args: sa,
                    trait_const_args: sc,
                    name: sn,
                } => if gt == st && gn == sn && ga.len() == sa.len() {
                    let (ok, s1, c1) = self.spec_const_list_subsumes(gc, sc, s, c);
                    if !ok {
                        (false, s1, c1)
                    } else {
                        let (ok2, s2, c2) = self.spec_subsumes_inner(*gs, *ss, s1, c1);
                        if !ok2 {
                            (false, s2, c2)
                        } else {
                            self.spec_subsumes_list(ga, sa, s2, c2)
                        }
                    }
                } else {
                    (false, s, c)
                },
                _ => (false, s, c),
            },
            Ty::ConstOnly | Ty::Error | Ty::ClosureState { .. } => (false, s, c),
        }
    }

    /// Pairwise subsumption of two type lists of equal length.
    pub open spec fn spec_subsumes_list(&self, general: TyList, specific: TyList, s: TyMap, c: ConstMap) -> (
        bool,
        TyMap,
        ConstMap,
    )
        decreases general, 0nat, 0nat,
    {
        match (general, specific) {
            (TyList::Cons(g, gt), TyList::Cons(sp, st)) => {
                let (ok, s1, c1) = self.spec_subsumes_inner(*g, *sp, s, c);
                if ok {
                    self.spec_subsumes_list(*gt, *st, s1, c1)
                } else {
                    (false, s1, c1)
                }
            },
            _ => (true, s, c),
        }
    }

    /// Whether a general compile-time argument covers a specific one.
    pub open spec fn spec_const_arg_subsumes(
        &self,
        general: ConstGenericArg,
        specific: ConstGenericArg,
        s: TyMap,
        c: ConstMap,
    ) -> (bool, TyMap, ConstMap)
        decreases general, 0nat, 0nat,
    {
        let (ok, s1, c1) = self.spec_subsumes_inner(*general.ty, *specific.ty, s, c);
        if !ok {
            (false, s1, c1)
        } else {
            match general.value {
                ConstGenericValue::GenericParam(name) => {
                    let (ok2, c2) = self.spec_record_const_subsumption(name, specific, c1);
                    (ok2, s1, c2)
                },
                _ => (spec_const_args_match(general, specific), s1, c1),
            }
        }
    }

    /// Pairwise subsumption of two compile-time argument lists, which must
    /// have the same length.
    pub open spec fn spec_const_list_subsumes(
        &self,
        general: ConstArgList,
        specific: ConstArgList,
        s: TyMap,
        c: ConstMap,
    ) -> (bool, TyMap, ConstMap)
        decreases general, 1nat, 0nat,
    {
        if general.len() != specific.len() {
            (false, s, c)
        } else {
            self.spec_const_list_subsumes_pairs(general, specific, s, c)
        }
    }

    pub open spec fn spec_const_list_subsumes_pairs(
        &self,
        general: ConstArgList,
        specific: ConstArgList,
        s: TyMap,
        c: ConstMap,
    ) -> (bool, TyMap, ConstMap)
        decreases general, 0nat, 0nat,
    {
        match (general, specific) {
            (ConstArgList::Cons(g, gt), ConstArgList::Cons(sp, st)) => {
                let (ok, s1, c1) = self.spec_const_arg_subsumes(g, sp, s, c);
                if ok {
                    self.spec_const_list_subsumes_pairs(*gt, *st, s1, c1)
                } else {
                    (false, s1, c1)
                }
            },
            _ => (true, s, c),
        }
    }

    /// The first specific binding that agrees with `general` in name, trait
    /// and trait arguments; the probes along the way may bind parameters.
    pub open spec fn spec_find_binding(
        &self,
        general: AssocBinding,
        remaining: BindingList,
        s: TyMap,
        c: ConstMap,
    ) -> (Option<AssocBinding>, TyMap, ConstMap)
        decreases general, 2nat, remaining.len(),
    {
        match remaining {
            BindingList::Nil => (None, s, c),
            BindingList::Cons(sb, tail) => {
                if general.name == sb.name && general.trait_id == sb.trait_id
                    && general.trait_args.len() == sb.trait_args.len() {
                    let (ok, s1, c1) = self.spec_const_list_subsumes(
                        general.trait_const_args,
                        sb.trait_const_args,
                        s,
                        c,
                    );
                    if !ok {
                        self.spec_find_binding(general, *tail, s1, c1)
                    } else {
                        let (ok2, s2, c2) = self.spec_subsumes_list(
                            general.trait_args,
                            sb.trait_args,
                            s1,
                            c1,
                        );
                        if ok2 {
                            (Some(sb), s2, c2)
                        } else {
                            self.spec_find_binding(general, *tail, s2, c2)
                        }
                    }
                } else {
                    self.spec_find_binding(general, *tail, s, c)
                }
            },
        }
    }

    /// Every general binding finds a specific binding whose type it covers.
    pub open spec fn spec_bindings_subsume(
        &self,
        general: BindingList,
        specific: BindingList,
        s: TyMap,
        c: ConstMap,
    ) -> (bool, TyMap, ConstMap)
        decreases general, 0nat, 0nat,
    {
        match general {
            BindingList::Nil => (true, s, c),
            BindingList::Cons(gb, tail) => {
                let (found, s1, c1) = self.spec_find_binding(gb, specific, s, c);
                match found {
                    Some(sb) => {
                        let (ok, s2, c2) = self.spec_subsumes_inner(*gb.ty, *sb.ty, s1, c1);
                        if ok {
                            self.spec_bindings_subsume(*tail, specific, s2, c2)
                        } else {
                            (false, s2, c2)
                        }
                    },
                    None => (false, s1, c1),
                }
            },
        }
    }

    /// `general` covers `specific`, starting from no bindings.
    pub open spec fn spec_pattern_subsumes(&self, general: Ty, specific: Ty) -> bool {
        self.spec_subsumes_inner(general, specific, Map::empty(), Map::empty()).0
    }

    /// `specific` is covered by `general` but does not cover it.
    pub open spec fn spec_strictly_more_specific(&self, specific: Ty, general: Ty) -> bool {
        self.spec_pattern_subsumes(general, specific) && !self.spec_pattern_subsumes(
            specific,
            general,
        )
    }
}

/// The binding an optional reference points at.
pub open spec fn binding_opt(o: Option<&AssocBinding>) -> Option<AssocBinding> {
    match o {
        Some(b) => Some(*b),
        None => None,
    }
}

impl BodyChecker {
    /// Binds `name` to `specific`, or checks it against the earlier binding.
    pub fn record_const_pattern_subsumption(
        &self,
        name: SymbolId,
        specific: ConstGenericArg,
        c: &mut SymbolMap<ConstGenericArg>,
    ) -> (r: bool)
        requires
            old(c).wf(),
        ensures
            final(c).wf(),
            (r, final(c)@) == self.spec_record_const_subsumption(name, specific, old(c)@),
    {
        match c.get(name) {
            Some(existing) => const_pattern_args_match(existing, &specific),
            None => {
                c.insert(name, specific);
                true
            },
        }
    }

    /// Whether the general array length covers the specific one.
    pub fn array_len_pattern_subsumes(
        &self,
        general: &ArrayLen,
        specific: &ArrayLen,
        c: &mut SymbolMap<ConstGenericArg>,
    ) -> (r: bool)
        requires
            old(c).wf(),
        ensures
            final(c).wf(),
            (r, final(c)@) == self.spec_array_len_subsumes(*general, *specific, old(c)@),
    {
        if self.array_lens_match(general, specific) {
            return true;
        }
        match general {
            ArrayLen::GenericParam(name) => match self.method_const_generic_value_from_array_len(
                specific,
            ) {
                Some(value) => {
                    let arg = ConstGenericArg {
                        ty: Box::new(Ty::Primitive(PrimitiveTy::Usize)),
                        value,
                    };
                    self.record_const_pattern_subsumption(*name, arg, c)
                },
                None => false,
            },
            _ => false,
        }
    }

    /// Whether `general` covers `specific`; the substitutions change only
    /// when it does.
    pub fn pattern_subsumes_inner(
        &self,
        general: &Ty,
        specific: &Ty,
        s: &mut SymbolMap<Ty>,
        c: &mut SymbolMap<ConstGenericArg>,
    ) -> (r: bool)
        requires
            old(s).wf(),
            old(c).wf(),
        ensures
            final(s).wf(),
            final(c).wf(),
            (r, final(s)@, final(c)@) == self.spec_subsumes_inner(*general, *specific, old(s)@, old(c)@),
        decreases general, 1nat, 0nat,
    {
        let mut cs = s.duplicate();
        let mut cc = c.duplicate();
        if !self.pattern_subsumes_candidate(general, specific, &mut cs, &mut cc) {
            return false;
        }
        *s = cs;
        *c = cc;
        true
    }

    /// One structural step of the subsumption check.
    pub fn pattern_subsumes_candidate(
        &self,
        general: &Ty,
        specific: &Ty,
        s: &mut SymbolMap<Ty>,
        c: &mut SymbolMap<ConstGenericArg>,
    ) -> (r: bool)
        requires
            old(s).wf(),
            old(c).wf(),
        ensures
            final(s).wf(),
            final(c).wf(),
            (r, final(s)@, final(c)@) == self.spec_subsumes_candidate(*general, *specific, old(s)@, old(c)@),
        decreases general, 0nat, 0nat,
    {
        match general {
            Ty::GenericParam(name) => {
                let existing = match s.get(*name) {
                    Some(e) => Some(self.patterns_equivalent(e, specific)),
                    None => None,
                };
                match existing {
                    Some(same) => same,
                    None => {
                        s.insert(*name, specific.deep_clone());
                        true
                    },
                }
            },
            Ty::SelfParam => true,
            Ty::Primitive(gp) => match specific {
                Ty::Primitive(sp) => *gp == *sp,
                _ => false,
            },
            Ty::Opaque => matches!(specific, Ty::Opaque),
            Ty::Tuple(ge) => match specific {
                Ty::Tuple(se) => if ty_list_same_len(ge, se) {
                    self.pattern_list_subsumes(ge, se, s, c)
                } else {
                    false
                },
                _ => false,
            },
            Ty::BuiltinType(gb) => match specific {
                Ty::BuiltinType(sb) => *gb == *sb,
                _ => false,
            },
            Ty::Vector { elem: ge, lanes: gl } => match specific {
                Ty::Vector { elem: se, lanes: sl } => *ge == *se && *gl == *sl,
                _ => false,
            },
            Ty::Pointer { is_readonly: gr, elem: ge } => match specific {
                Ty::Pointer { is_readonly: sr, elem: se } => *gr == *sr
                    && self.pattern_subsumes_inner(ge, se, s, c),
                _ => false,
            },
            Ty::VolatilePointer { is_readonly: gr, elem: ge } => match specific {
                Ty::VolatilePointer { is_readonly: sr, elem: se } => *gr == *sr
                    && self.pattern_subsumes_inner(ge, se, s, c),
                _ => false,
            },
            Ty::Slice { is_readonly: gr, elem: ge } => match specific {
                Ty::Slice { is_readonly: sr, elem: se } => *gr == *sr && self.pattern_subsumes_inner(
                    ge,
                    se,
                    s,
                    c,
                ),
                _ => false,
            },
            Ty::SlicePointee { elem: ge } => match specific {
                Ty::SlicePointee { elem: se } => self.pattern_subsumes_inner(ge, se, s, c),
                _ => false,
            },
            Ty::Array { len: gl, elem: ge } => match specific {
                Ty::Array { len: sl, elem: se } => {
                    if self.array_len_pattern_subsumes(gl, sl, c) {
                        self.pattern_subsumes_inner(ge, se, s, c)
                    } else {
                        false
                    }
                },
                _ => false,
            },
            Ty::Range { kind: gk, bound: gb } => match specific {
                Ty::Range { kind: sk, bound: sb } => if *gk == *sk {
                    match (gb, sb) {
                        (Some(g), Some(sp)) => self.pattern_subsumes_inner(g, sp, s, c),
                        (None, None) => true,
                        _ => false,
                    }
                } else {
                    false
                },
                _ => false,
            },
            Ty::FunctionPointer { params: gp, return_type: gr, is_variadic: gv } => match specific {
                Ty::FunctionPointer { params: sp, return_type: sr, is_variadic: sv } => if *gv == *sv
                    && ty_list_same_len(gp, sp) {
                    self.pattern_list_subsumes(gp, sp, s, c) && self.pattern_subsumes_inner(gr, sr, s, c)
                } else {
                    false
                },
                _ => false,
            },
            Ty::Callable { is_readonly: gro, params: gp, return_type: gr } => match specific {
                Ty::Callable { is_readonly: sro, params: sp, return_type: sr } => if *gro == *sro
                    && ty_list_same_len(gp, sp) {
                    self.pattern_list_subsumes(gp, sp, s, c) && self.pattern_subsumes_inner(gr, sr, s, c)
                } else {
                    false
                },
                _ => false,
            },
            Ty::CallablePointee { params: gp, return_type: gr } => match specific {
                Ty::CallablePointee { params: sp, return_type: sr } => if ty_list_same_len(gp, sp) {
                    self.pattern_list_subsumes(gp, sp, s, c) && self.pattern_subsumes_inner(gr, sr, s, c)
                } else {
                    false
                },
                _ => false,
            },
            Ty::Optional { elem: ge } => match specific {
                Ty::Optional { elem: se } => self.pattern_subsumes_inner(ge, se, s, c),
                _ => false,
            },
            Ty::ErrorUnion { error: ge, value: gv } => match specific {
                Ty::ErrorUnion { error: se, value: sv } => self.pattern_subsumes_inner(ge, se, s, c)
                    && self.pattern_subsumes_inner(gv, sv, s, c),
                _ => false,
            },
            Ty::Nominal { def_id: gd, args: ga, const_args: gc } => match specific {
                Ty::Nominal { def_id: sd, args: sa, const_args: sc } => if *gd == *sd
                    && ty_list_same_len(ga, sa) {
                    self.const_pattern_args_subsume(gc, sc, s, c) && self.pattern_list_subsumes(
                        ga,
                        sa,
                        s,
                        c,
                    )
                } else {
                    false
                },
                _ => false,
            },
            Ty::BuiltinTrait { trait_id: gt, args: ga } => match specific {
                Ty::BuiltinTrait { trait_id: st, args: sa } => if *gt == *st && ty_list_same_len(ga, sa) {
                    self.pattern_list_subsumes(ga, sa, s, c)
                } else {
                    false
                },
                _ => false,
            },
            Ty::TraitObject {
                is_readonly: gro,
                trait_id: gt,
                trait_args: ga,
                trait_const_args: gc,
                bindings: gb,
            } => match specific {
                Ty::TraitObject {
                    is_readonly: sro,
                    trait_id: st,
                    trait_args: sa,
                    trait_const_args: sc,
                    bindings: sb,
                } => if *gro == *sro && *gt == *st && ty_list_same_len(ga, sa) {
                    self.const_pattern_args_subsume(gc, sc, s, c) && binding_list_same_len(gb, sb)
                        && self.pattern_list_subsumes(ga, sa, s, c) && self.bindings_subsume(
                        gb,
                        sb,
                        s,
                        c,
                    )
                } else {
                    false
                },
                _ => false,
            },
            Ty::TraitObjectPointee { trait_id: gt, trait_args: ga, trait_const_args: gc, bindings: gb } =>
                match specific {
                Ty::TraitObjectPointee {
                    trait_id: st,
                    trait_args: sa,
                    trait_const_args: sc,
                    bindings: sb,
                } => if *gt == *st && ty_list_same_len(ga, sa) {
                    self.const_pattern_args_subsume(gc, sc, s, c) && binding_list_same_len(gb, sb)
                        && self.pattern_list_subsumes(ga, sa, s, c) && self.bindings_subsume(
                        gb,
                        sb,
                        s,
                        c,
                    )
                } else {
                    false
                },
                _ => false,
            },
            Ty::Projection {
                self_ty: gs,
                trait_id: gt,
                trait_args: ga,
                trait_const_args: gc,
                name: gn,
            } => match specific {
                Ty::Projection {
                    self_ty: ss,
                    trait_id: st,
                    trait_args: sa,
                    trait_const_args: sc,
                    name: sn,
                } => if *gt == *st && *gn == *sn && ty_list_same_len(ga, sa) {
                    self.const_pattern_args_subsume(gc, sc, s, c) && self.pattern_subsumes_inner(
                        gs,
                        ss,
                        s,
                        c,
                    ) && self.pattern_list_subsumes(ga, sa, s, c)
                } else {
                    false
                },
                _ => false,
            },
            Ty::ConstOnly | Ty::Error | Ty::ClosureState { .. } => false,
        }
    }

    /// Pairwise subsumption of two type lists of equal length.
    pub fn pattern_list_subsumes(
        &self,
        general: &TyList,
        specific: &TyList,
        s: &mut SymbolMap<Ty>,
        c: &mut SymbolMap<ConstGenericArg>,
    ) -> (r: bool)
        requires
            old(s).wf(),
            old(c).wf(),
        ensures
            final(s).wf(),
            final(c).wf(),
            (r, final(s)@, final(c)@) == self.spec_subsumes_list(*general, *specific, old(s)@, old(c)@),
        decreases general, 0nat, 0nat,
    {
        match (general, specific) {
            (TyList::Cons(g, gt), TyList::Cons(sp, st)) => {
                if self.pattern_subsumes_inner(g, sp, s, c) {
                    self.pattern_list_subsumes(gt, st, s, c)
                } else {
                    false
                }
            },
            _ => true,
        }
    }

    /// Whether a general compile-time argument covers a specific one.
    pub fn const_pattern_arg_subsumes(
        &self,
        general: &ConstGenericArg,
        specific: &ConstGenericArg,
        s: &mut SymbolMap<Ty>,
        c: &mut SymbolMap<ConstGenericArg>,
    ) -> (r: bool)
        requires
            old(s).wf(),
            old(c).wf(),
        ensures
            final(s).wf(),
            final(c).wf(),
            (r, final(s)@, final(c)@) == self.spec_const_arg_subsumes(*general, *specific, old(s)@, old(c)@),
        decreases general, 0nat, 0nat,
    {
        if !self.pattern_subsumes_inner(&general.ty, &specific.ty, s, c) {
            return false;
        }
        match general.value {
            ConstGenericValue::GenericParam(name) => self.record_const_pattern_subsumption(
                name,
                specific.deep_clone(),
                c,
            ),
            _ => const_pattern_args_match(general, specific),
        }
    }

    /// Pairwise subsumption of two compile-time argument lists of the same
    /// length.
    pub fn const_pattern_args_subsume(
        &self,
        general: &ConstArgList,
        specific: &ConstArgList,
        s: &mut SymbolMap<Ty>,
        c: &mut SymbolMap<ConstGenericArg>,
    ) -> (r: bool)
        requires
            old(s).wf(),
            old(c).wf(),
        ensures
            final(s).wf(),
            final(c).wf(),
            (r, final(s)@, final(c)@) == self.spec_const_list_subsumes(*general, *specific, old(s)@, old(c)@),
        decreases general, 1nat, 0nat,
    {
        if !const_list_same_len(general, specific) {
            return false;
        }
        self.const_pattern_arg_pairs_subsume(general, specific, s, c)
    }

    fn const_pattern_arg_pairs_subsume(
        &self,
        general: &ConstArgList,
        specific: &ConstArgList,
        s: &mut SymbolMap<Ty>,
        c: &mut SymbolMap<ConstGenericArg>,
    ) -> (r: bool)
        requires
            old(s).wf(),
            old(c).wf(),
        ensures
            final(s).wf(),
            final(c).wf(),
            (r, final(s)@, final(c)@) == self.spec_const_list_subsumes_pairs(
                *general,
                *specific,
                old(s)@,
                old(c)@,
            ),
        decreases general, 0nat, 0nat,
    {
        match (general, specific) {
            (ConstArgList::Cons(g, gt), ConstArgList::Cons(sp, st)) => {
                if self.const_pattern_arg_subsumes(g, sp, s, c) {
                    self.const_pattern_arg_pairs_subsume(gt, st, s, c)
                } else {
                    false
                }
            },
            _ => true,
        }
    }

    /// The first specific binding agreeing with `general` in name, trait and
    /// trait arguments.
    pub fn find_specific_binding<'b>(
        &self,
        general: &AssocBinding,
        remaining: &'b BindingList,
        s: &mut SymbolMap<Ty>,
        c: &mut SymbolMap<ConstGenericArg>,
    ) -> (r: Option<&'b AssocBinding>)
        requires
            old(s).wf(),
            old(c).wf(),
        ensures
            final(s).wf(),
            final(c).wf(),
            (binding_opt(r), final(s)@, final(c)@) == self.spec_find_binding(
                *general,
                *remaining,
                old(s)@,
                old(c)@,
            ),
        decreases general, 2nat, remaining.len(),
    {
        match remaining {
            BindingList::Nil => None,
            BindingList::Cons(sb, tail) => {
                if general.name == sb.name && general.trait_id == sb.trait_id && ty_list_same_len(
                    &general.trait_args,
                    &sb.trait_args,
                ) && self.const_pattern_args_subsume(
                    &general.trait_const_args,
                    &sb.trait_const_args,
                    s,
                    c,
                ) && self.pattern_list_subsumes(&general.trait_args, &sb.trait_args, s, c) {
                    Some(sb)
                } else {
                    self.find_specific_binding(general, tail, s, c)
                }
            },
        }
    }

    /// Every general binding finds a specific binding whose type it covers.
    pub fn bindings_subsume(
        &self,
        general: &BindingList,
        specific: &BindingList,
        s: &mut SymbolMap<Ty>,
        c: &mut SymbolMap<ConstGenericArg>,
    ) -> (r: bool)
        requires
            old(s).wf(),
            old(c).wf(),
        ensures
            final(s).wf(),
            final(c).wf(),
            (r, final(s)@, final(c)@) == self.spec_bindings_subsume(*general, *specific, old(s)@, old(c)@),
        decreases general, 0nat, 0nat,
    {
        match general {
            BindingList::Nil => true,
            BindingList::Cons(gb, tail) => {
                match self.find_specific_binding(gb, specific, s, c) {
                    Some(sb) => self.pattern_subsumes_inner(&gb.ty, &sb.ty, s, c)
                        && self.bindings_subsume(tail, specific, s, c),
                    None => false,
                }
            },
        }
    }

    /// Whether two bound types are the same type.
    pub fn patterns_equivalent(&self, left: &Ty, right: &Ty) -> (r: bool)
        ensures
            r == (*left == *right),
    {
        ty_eq(left, right)
    }

    /// Whether `general` covers `specific`, starting from no bindings.
    pub fn pattern_subsumes(&self, general: &Ty, specific: &Ty) -> (r: bool)
        ensures
            r == self.spec_pattern_subsumes(*general, *specific),
    {
        let mut s: SymbolMap<Ty> = SymbolMap::new();
        let mut c: SymbolMap<ConstGenericArg> = SymbolMap::new();
        self.pattern_subsumes_inner(general, specific, &mut s, &mut c)
    }

    /// Whether the general compile-time arguments cover the specific ones,
    /// starting from no bindings.
    pub fn const_patterns_subsume(&self, general: &ConstArgList, specific: &ConstArgList) -> (r: bool)
        ensures
            r == self.spec_const_list_subsumes(*general, *specific, Map::empty(), Map::empty()).0,
    {
        let mut s: SymbolMap<Ty> = SymbolMap::new();
        let mut c: SymbolMap<ConstGenericArg> = SymbolMap::new();
        self.const_pattern_args_subsume(general, specific, &mut s, &mut c)
    }

    /// `specific` is covered by `general`, and does not cover it in turn.
    pub fn strictly_more_specific(&self, specific: &Ty, general: &Ty) -> (r: bool)
        ensures
            r == self.spec_strictly_more_specific(*specific, *general),
    {
        self.pattern_subsumes(general, specific) && !self.pattern_subsumes(specific, general)
    }
}

/// Being strictly more specific is irreflexive: no pattern is strictly more
/// specific than itself.
pub proof fn lemma_strictly_more_specific_irreflexive(checker: &BodyChecker, t: Ty)
    ensures
        !checker.spec_strictly_more_specific(t, t),
{
}

/// Being strictly more specific is asymmetric: of two patterns, at most one
/// is strictly more specific than the other.
pub proof fn lemma_strictly_more_specific_asymmetric(checker: &BodyChecker, a: Ty, b: Ty)
    requires
        checker.spec_strictly_more_specific(a, b),
    ensures
        !checker.spec_strictly_more_specific(b, a),
{
}

} // verus!
