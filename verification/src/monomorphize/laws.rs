//! What expansion leaves: settled types, and instances with numbers of their
//! own.

use crate::ast::{GenericParamKind, GenericParamV};
use crate::error::MplangErrorV;
use crate::hir::{ConstArg, DefId, HirTypeV, TypeOrConstV};
use crate::monomorphize::bodies::{body_from, lemma_constants, lemma_stmts as lemma_bodies};
use crate::monomorphize::closed::{
    all_literal, closed_type, closed_types, instance_id, kept_count, only_values, only_values_in, settled, settled_args,
    settled_expr, settled_fields, settled_instance, settled_item, settled_option, settled_params,
    settled_pattern, settled_stmt, settled_stmts, settled_types,
};
use crate::monomorphize::ids::unit_max;
use crate::monomorphize::params::{
    defines, from_template, instance_of, keeps_order, lemma_collected, lemma_keeps_order,
};
use crate::monomorphize::rules::{
    const_args_in, const_of, const_params, const_values, empty_state, expanded, fn_item,
    is_template, literals, m_arms, m_begin, m_bindings, m_call, m_collect, m_concrete, m_concretes,
    m_explicit, m_expr, m_exprs, m_fields, m_finish, m_fn, m_fresh, m_from_args, m_from_receiver,
    m_header, m_infer, m_inits, m_instance_call, m_item, m_items, m_kind, m_make, m_members,
    m_number, m_opt_type, m_own_fields, m_params, m_pattern, m_plain_call, m_record, m_stmt,
    m_stmts, m_struct, m_targs, m_type, value_params, InstanceKey, m_types, m_unify, m_unify_all,
    m_variants, outer_scope, struct_item, MonoScope, MonoState,
};
use crate::monomorphize::template::FnTemplateV;
use crate::table::lookup;
use crate::tycheck::generics::{fits, lemma_all_known, lemma_count, param_known};
use crate::tycheck::rules::{
    check_known, count_kind, known, resolve_const, resolve_consts, subst_type, subst_types,
    unknown, GenericArgs,
};
use crate::tyhir::{
    TyHirBodyV, TyHirCompilationUnitV, TyHirEnumVariantV, TyHirExprKindV, TyHirExprV, TyHirFieldV,
    TyHirItemV, TyHirMatchArmV, TyHirParamV, TyHirPatternV, TyHirStmtV,
};
use vstd::prelude::*;

verus! {

/// What was made so far is settled.
spec fn ready(s: MonoState) -> bool {
    &&& forall|d: DefId| #[trigger] s.origins.dom().contains(d) ==> settled_types(s.origins[d].0)
    &&& forall|i: int| 0 <= i < s.out.len() ==> settled_instance(#[trigger] s.out[i])
    &&& forall|i: int| 0 <= i < s.out.len() ==> from_template(s.fns, #[trigger] s.out[i])
}

/// The instances of `t` are those of `s` and new ones, which have numbers that
/// were unused in `s` and differ from each other.
spec fn grew(s: MonoState, t: MonoState) -> bool {
    &&& t.fns == s.fns
    &&& t.structs == s.structs
    &&& s.next_id <= t.next_id
    &&& s.out.len() <= t.out.len()
    &&& forall|i: int| 0 <= i < s.out.len() ==> #[trigger] t.out[i] == s.out[i]
    &&& forall|i: int| s.out.len() <= i < t.out.len() ==> s.next_id <= instance_id(#[trigger] t.out[i]) < t.next_id
    &&& forall|i: int, j: int| s.out.len() <= i < j < t.out.len() ==> instance_id(#[trigger] t.out[i]) != instance_id(#[trigger] t.out[j])
    &&& promised(s, t)
}

/// A function is being made that has no number yet.
spec fn unnumbered(s: MonoState, k: InstanceKey) -> bool {
    s.fn_instances.dom().contains(k) && s.fn_instances[k] is None
}

/// The number of a function, once it has one.
spec fn number_of(s: MonoState, k: InstanceKey) -> u32 {
    match s.fn_instances[k] {
        Some(id) => id.0,
        None => 0,
    }
}

/// A function without a number in `s` has one in `t`.
spec fn got_number(s: MonoState, t: MonoState, k: InstanceKey) -> bool {
    unnumbered(s, k) && t.fn_instances[k] is Some
}

/// The functions that were being made in `s` without a number are still known in
/// `t`. Those that got a number got one that was unused in `s`; they differ from
/// each other and from those of the instances made in between.
spec fn promised(s: MonoState, t: MonoState) -> bool {
    &&& forall|k: InstanceKey| #[trigger] unnumbered(s, k) ==> t.fn_instances.dom().contains(k)
    &&& forall|k: InstanceKey| #[trigger] got_number(s, t, k) ==> s.next_id <= number_of(t, k) < t.next_id
    &&& forall|k: InstanceKey, i: int| #![trigger got_number(s, t, k), t.out[i]] got_number(s, t, k) && s.out.len() <= i < t.out.len() ==> instance_id(t.out[i]) != number_of(t, k)
    &&& forall|k: InstanceKey, l: InstanceKey| #![trigger got_number(s, t, k), got_number(s, t, l)] got_number(s, t, k) && got_number(s, t, l) && k != l ==> number_of(t, k) != number_of(t, l)
    &&& forall|k: InstanceKey| s.fn_instances.dom().contains(k) && #[trigger] s.fn_instances[k] is Some ==> t.fn_instances.dom().contains(k) && t.fn_instances[k] == s.fn_instances[k]
}

proof fn lemma_promised(a: MonoState, b: MonoState, c: MonoState)
    requires
        grew(a, b),
        grew(b, c),
    ensures
        promised(a, c),
{
    assert forall|k: InstanceKey| #[trigger] unnumbered(a, k) implies c.fn_instances.dom().contains(k) && (
    got_number(a, b, k) && c.fn_instances[k] == b.fn_instances[k] || unnumbered(b, k)) by {
        if b.fn_instances[k] is Some {
            assert(got_number(a, b, k));
        } else {
            assert(unnumbered(b, k));
        }
    }
    assert forall|k: InstanceKey| #[trigger] got_number(a, c, k) implies (got_number(a, b, k) && c.fn_instances[k] == b.fn_instances[k]) || got_number(b, c, k) by {
        assert(unnumbered(a, k));
    }
    assert forall|k: InstanceKey, i: int| #![trigger got_number(a, c, k), c.out[i]] got_number(a, c, k) && a.out.len() <= i < c.out.len() implies instance_id(c.out[i]) != number_of(c, k) by {
        if i < b.out.len() {
            assert(c.out[i] == b.out[i]);
        }
    }
    assert forall|k: InstanceKey| a.fn_instances.dom().contains(k) && #[trigger] a.fn_instances[k] is Some implies c.fn_instances.dom().contains(k) && c.fn_instances[k] == a.fn_instances[k] by {
        assert(b.fn_instances[k] is Some);
    }
}

proof fn lemma_grew(a: MonoState, b: MonoState, c: MonoState)
    requires
        grew(a, b),
        grew(b, c),
    ensures
        grew(a, c),
{
    lemma_promised(a, b, c);
    assert forall|i: int, j: int| a.out.len() <= i < j < c.out.len() implies instance_id(#[trigger] c.out[i]) != instance_id(#[trigger] c.out[j]) by {
        if i < b.out.len() {
            assert(c.out[i] == b.out[i]);
            if j < b.out.len() {
                assert(c.out[j] == b.out[j]);
            }
        }
    }
    assert forall|i: int| a.out.len() <= i < c.out.len() implies a.next_id <= instance_id(#[trigger] c.out[i]) < c.next_id by {
        if i < b.out.len() {
            assert(c.out[i] == b.out[i]);
        }
    }
}

/// From `s` to `t` only settled instances were added.
spec fn fine(s: MonoState, t: MonoState) -> bool {
    ready(t) && grew(s, t)
}

proof fn lemma_fine(a: MonoState, b: MonoState, c: MonoState)
    requires
        fine(a, b),
        fine(b, c),
    ensures
        fine(a, c),
{
    lemma_grew(a, b, c);
}

/// The state with a new number taken and a settled instance of that number put
/// somewhere among what was made in between.
proof fn lemma_added(s: MonoState, b: MonoState, t: MonoState, place: int, item: TyHirItemV)
    requires
        s.next_id < u32::MAX,
        b.fns == s.fns,
        b.structs == s.structs,
        b.fn_instances == s.fn_instances,
        b.out == s.out,
        b.next_id == s.next_id + 1,
        fine(b, t),
        s.out.len() <= place <= t.out.len(),
        settled_instance(item),
        item is Struct,
        instance_id(item) == s.next_id,
    ensures
        fine(s, MonoState { out: t.out.insert(place, item), ..t }),
{
    let out = t.out.insert(place, item);
    let u = MonoState { out, ..t };
    assert forall|i: int| 0 <= i < out.len() implies settled_instance(#[trigger] out[i]) && from_template(t.fns, out[i]) by {
        if i < place {
            assert(out[i] == t.out[i]);
        } else if i > place {
            assert(out[i] == t.out[i - 1]);
        }
    }
    assert forall|i: int| 0 <= i < s.out.len() implies #[trigger] out[i] == s.out[i] by {
        assert(t.out[i] == b.out[i]);
    }
    assert forall|i: int| s.out.len() <= i < out.len() implies s.next_id <= instance_id(#[trigger] out[i]) < t.next_id && (i != place ==> instance_id(out[i]) != s.next_id) by {
        if i < place {
            assert(out[i] == t.out[i]);
        } else if i > place {
            assert(out[i] == t.out[i - 1]);
        }
    }
    assert forall|i: int, j: int| s.out.len() <= i < j < out.len() implies instance_id(#[trigger] out[i]) != instance_id(#[trigger] out[j]) by {
        if i != place && j != place {
            let a = if i < place { i } else { i - 1 };
            let c = if j < place { j } else { j - 1 };
            assert(out[i] == t.out[a] && out[j] == t.out[c]);
        }
    }
    assert forall|k: InstanceKey| #[trigger] unnumbered(s, k) implies unnumbered(b, k) by {}
    assert forall|k: InstanceKey| #[trigger] got_number(s, u, k) implies got_number(b, t, k) by {}
    assert forall|k: InstanceKey, i: int| #![trigger got_number(s, u, k), u.out[i]] got_number(s, u, k) && s.out.len() <= i < u.out.len() implies instance_id(u.out[i]) != number_of(u, k) by {
        assert(got_number(b, t, k));
        if i < place {
            assert(out[i] == t.out[i]);
        } else if i > place {
            assert(out[i] == t.out[i - 1]);
        }
    }
}

/// A function that is being made gets a number, if it has none.
proof fn lemma_number(s: MonoState, d: DefId, ta: Seq<HirTypeV>, ca: Seq<i64>)
    requires
        ready(s),
        s.fn_instances.dom().contains((d, ta, ca)),
    ensures
        m_number(s, d, ta, ca).1 matches Ok(id) ==> fine(s, m_number(s, d, ta, ca).0) && m_number(s, d, ta, ca).0.fn_instances[(d, ta, ca)] == Some(id),
{
}

/// The state with a settled instance of a function put behind what was made since
/// the function became known.
proof fn lemma_made(s: MonoState, t: MonoState, k: InstanceKey, item: TyHirItemV)
    requires
        !s.fn_instances.dom().contains(k),
        fine(MonoState { fn_instances: s.fn_instances.insert(k, None), ..s }, t),
        t.fn_instances[k] is Some,
        settled_instance(item),
        from_template(t.fns, item),
        instance_id(item) == number_of(t, k),
    ensures
        fine(s, MonoState { out: t.out.push(item), ..t }),
{
    let b = MonoState { fn_instances: s.fn_instances.insert(k, None), ..s };
    let out = t.out.push(item);
    let u = MonoState { out, ..t };
    assert(unnumbered(b, k));
    assert(got_number(b, t, k));
    assert forall|i: int| 0 <= i < out.len() implies settled_instance(#[trigger] out[i]) && from_template(t.fns, out[i]) by {
        if i < t.out.len() {
            assert(out[i] == t.out[i]);
        }
    }
    assert forall|i: int| 0 <= i < s.out.len() implies #[trigger] out[i] == s.out[i] by {
        assert(t.out[i] == b.out[i]);
    }
    assert forall|i: int| s.out.len() <= i < out.len() implies s.next_id <= instance_id(#[trigger] out[i]) < t.next_id by {
        if i < t.out.len() {
            assert(out[i] == t.out[i]);
        }
    }
    assert forall|i: int, j: int| s.out.len() <= i < j < out.len() implies instance_id(#[trigger] out[i]) != instance_id(#[trigger] out[j]) by {
        assert(out[i] == t.out[i]);
        if j < t.out.len() {
            assert(out[j] == t.out[j]);
        }
    }
    assert forall|l: InstanceKey| #[trigger] unnumbered(s, l) implies unnumbered(b, l) by {}
    assert forall|l: InstanceKey| #[trigger] got_number(s, u, l) implies got_number(b, t, l) && l != k by {}
    assert forall|l: InstanceKey, i: int| #![trigger got_number(s, u, l), u.out[i]] got_number(s, u, l) && s.out.len() <= i < u.out.len() implies instance_id(u.out[i]) != number_of(u, l) by {
        assert(got_number(b, t, l) && l != k);
        if i < t.out.len() {
            assert(out[i] == t.out[i]);
        }
    }
    assert forall|l: InstanceKey| s.fn_instances.dom().contains(l) && #[trigger] s.fn_instances[l] is Some implies u.fn_instances.dom().contains(l) && u.fn_instances[l] == s.fn_instances[l] by {
        assert(b.fn_instances[l] is Some);
    }
}

proof fn lemma_only_values(ps: Seq<TyHirParamV>, i: int, done: Seq<TyHirParamV>)
    requires
        0 <= i,
        only_values(done),
    ensures
        only_values(value_params(ps, i, done)),
    decreases ps.len() - i,
{
    if i < ps.len() {
        if ps[i].kind is ConstParam {
            lemma_only_values(ps, i + 1, done);
        } else {
            lemma_only_values(ps, i + 1, done.push(ps[i]));
        }
    }
}

// Substitution

proof fn lemma_consts_closed(
    cs: Seq<ConstArg>,
    gs: Seq<GenericParamV>,
    ca: Seq<ConstArg>,
    i: int,
    done: Seq<ConstArg>,
)
    requires
        0 <= i,
        all_literal(ca),
        all_literal(done),
    ensures
        resolve_consts(cs, gs, ca, i, done) matches Ok(ds) ==> all_literal(ds),
    decreases cs.len() - i,
{
    if i < cs.len() {
        if let Ok(c) = resolve_const(cs[i], gs, ca) {
            assert(c is Literal);
            lemma_consts_closed(cs, gs, ca, i + 1, done.push(c));
        }
    }
}

/// A type whose parameters are all replaced by arguments without parameters has
/// none left.
pub proof fn law_substitution_closes(
    t: HirTypeV,
    gs: Seq<GenericParamV>,
    ta: Seq<HirTypeV>,
    ca: Seq<ConstArg>,
)
    requires
        closed_types(ta),
        all_literal(ca),
    ensures
        subst_type(t, gs, ta, ca) matches Ok(u) ==> closed_type(u),
    decreases t, 0int,
{
    match t {
        HirTypeV::Pointer(e) => {
            law_substitution_closes(*e, gs, ta, ca);
        },
        HirTypeV::Array(e, n) => {
            law_substitution_closes(*e, gs, ta, ca);
        },
        HirTypeV::Generic(d, ts, cs) => {
            lemma_types_closed(ts, gs, ta, ca, 0, Seq::empty());
            lemma_consts_closed(cs, gs, ca, 0, Seq::empty());
        },
        HirTypeV::Enum(d, ts, cs) => {
            lemma_types_closed(ts, gs, ta, ca, 0, Seq::empty());
            lemma_consts_closed(cs, gs, ca, 0, Seq::empty());
        },
        _ => {},
    }
}

proof fn lemma_types_closed(
    ts: Seq<HirTypeV>,
    gs: Seq<GenericParamV>,
    ta: Seq<HirTypeV>,
    ca: Seq<ConstArg>,
    i: int,
    done: Seq<HirTypeV>,
)
    requires
        closed_types(ta),
        all_literal(ca),
        closed_types(done),
    ensures
        subst_types(ts, gs, ta, ca, i, done) matches Ok(us) ==> closed_types(us),
    decreases ts, ts.len() - i,
{
    if 0 <= i < ts.len() {
        law_substitution_closes(ts[i], gs, ta, ca);
        if let Ok(u) = subst_type(ts[i], gs, ta, ca) {
            lemma_types_closed(ts, gs, ta, ca, i + 1, done.push(u));
        }
    }
}

// Generic arguments of calls

/// The type arguments that are known are settled.
spec fn settled_opts(ta: Seq<Option<HirTypeV>>) -> bool {
    forall|i: int| 0 <= i < ta.len() ==> (#[trigger] ta[i] matches Some(t) ==> settled(t))
}

spec fn settled_origins(origins: Map<DefId, (Seq<HirTypeV>, Seq<ConstArg>)>) -> bool {
    forall|d: DefId| #[trigger] origins.dom().contains(d) ==> settled_types(origins[d].0)
}

proof fn lemma_unify_settled(
    origins: Map<DefId, (Seq<HirTypeV>, Seq<ConstArg>)>,
    expected: HirTypeV,
    actual: HirTypeV,
    gs: Seq<GenericParamV>,
    ta: Seq<Option<HirTypeV>>,
)
    requires
        settled_origins(origins),
        settled(actual),
        settled_opts(ta),
    ensures
        m_unify(origins, expected, actual, gs, ta) matches Ok(r) ==> settled_opts(r) && r.len() == ta.len(),
    decreases expected, 0int,
{
    match expected {
        HirTypeV::Generic(_, ts, _) => match actual {
            HirTypeV::Named(d) => {
                if let Some(o) = lookup(origins, d) {
                    assert(origins.dom().contains(d));
                    lemma_unify_all_settled(origins, ts, o.0, gs, 0, ta);
                }
            },
            _ => {},
        },
        HirTypeV::Array(e, _) => {
            if let HirTypeV::Array(a, _) = actual {
                lemma_unify_settled(origins, *e, *a, gs, ta);
            }
        },
        HirTypeV::Pointer(e) => {
            if let HirTypeV::Pointer(a) = actual {
                lemma_unify_settled(origins, *e, *a, gs, ta);
            }
        },
        HirTypeV::Enum(_, ts, _) => {
            if let HirTypeV::Enum(_, us, _) = actual {
                lemma_unify_all_settled(origins, ts, us, gs, 0, ta);
            }
        },
        _ => {},
    }
}

proof fn lemma_unify_all_settled(
    origins: Map<DefId, (Seq<HirTypeV>, Seq<ConstArg>)>,
    expected: Seq<HirTypeV>,
    actual: Seq<HirTypeV>,
    gs: Seq<GenericParamV>,
    i: int,
    ta: Seq<Option<HirTypeV>>,
)
    requires
        settled_origins(origins),
        settled_types(actual),
        settled_opts(ta),
    ensures
        m_unify_all(origins, expected, actual, gs, i, ta) matches Ok(r) ==> settled_opts(r) && r.len() == ta.len(),
    decreases expected, expected.len() - i,
{
    if 0 <= i < expected.len() && i < actual.len() {
        lemma_unify_settled(origins, expected[i], actual[i], gs, ta);
        if let Ok(next) = m_unify(origins, expected[i], actual[i], gs, ta) {
            lemma_unify_all_settled(origins, expected, actual, gs, i + 1, next);
        }
    }
}

proof fn lemma_explicit_settled(
    gs: Seq<GenericParamV>,
    tf: Seq<TypeOrConstV>,
    k: int,
    args: GenericArgs,
)
    requires
        0 <= k,
        settled_args(tf),
        settled_opts(args.types),
        fits(gs, args),
    ensures
        m_explicit(gs, tf, k, args) matches Ok(r) ==> settled_opts(r.types) && fits(gs, r),
    decreases tf.len() - k,
{
    if k < tf.len() && k < gs.len() {
        match (gs[k].kind, tf[k]) {
            (GenericParamKind::Type, TypeOrConstV::Type(t)) => {
                lemma_count(gs, GenericParamKind::Type, k, gs.len() as int);
                lemma_explicit_settled(
                    gs,
                    tf,
                    k + 1,
                    GenericArgs { types: args.types.update(count_kind(gs, GenericParamKind::Type, k) as int, Some(t)), ..args },
                );
            },
            (GenericParamKind::Const, TypeOrConstV::Const(v)) => {
                lemma_count(gs, GenericParamKind::Const, k, gs.len() as int);
                lemma_explicit_settled(
                    gs,
                    tf,
                    k + 1,
                    GenericArgs { consts: args.consts.update(count_kind(gs, GenericParamKind::Const, k) as int, Some(ConstArg::Literal(v))), ..args },
                );
            },
            (GenericParamKind::Const, TypeOrConstV::ConstParam(i)) => {
                lemma_count(gs, GenericParamKind::Const, k, gs.len() as int);
                lemma_explicit_settled(
                    gs,
                    tf,
                    k + 1,
                    GenericArgs { consts: args.consts.update(count_kind(gs, GenericParamKind::Const, k) as int, Some(ConstArg::Param(i))), ..args },
                );
            },
            _ => {},
        }
    }
}

proof fn lemma_from_args_settled(
    origins: Map<DefId, (Seq<HirTypeV>, Seq<ConstArg>)>,
    ps: Seq<TyHirParamV>,
    args: Seq<TyHirExprV>,
    gs: Seq<GenericParamV>,
    i: int,
    j: int,
    ta: Seq<Option<HirTypeV>>,
)
    requires
        0 <= i,
        0 <= j,
        settled_origins(origins),
        forall|k: int| 0 <= k < args.len() ==> settled((#[trigger] args[k]).ty),
        settled_opts(ta),
    ensures
        m_from_args(origins, ps, args, gs, i, j, ta) matches Ok(r) ==> settled_opts(r) && r.len() == ta.len(),
    decreases ps.len() - i,
{
    if i < ps.len() {
        if ps[i].kind is ConstParam {
            lemma_from_args_settled(origins, ps, args, gs, i + 1, j, ta);
        } else if j < args.len() {
            lemma_unify_settled(origins, ps[i].ty, args[j].ty, gs, ta);
            if let Ok(next) = m_unify(origins, ps[i].ty, args[j].ty, gs, ta) {
                lemma_from_args_settled(origins, ps, args, gs, i + 1, j + 1, next);
            }
        } else {
            lemma_from_args_settled(origins, ps, args, gs, i + 1, j + 1, ta);
        }
    }
}

proof fn lemma_check_known(gs: Seq<GenericParamV>, args: GenericArgs, i: int)
    requires
        0 <= i,
        check_known(gs, args, i) is Ok,
    ensures
        forall|k: int| i <= k < gs.len() ==> #[trigger] param_known(gs, args, k),
    decreases gs.len() - i,
{
    if i < gs.len() {
        lemma_check_known(gs, args, i + 1);
    }
}

proof fn lemma_infer_settled(
    origins: Map<DefId, (Seq<HirTypeV>, Seq<ConstArg>)>,
    t: FnTemplateV,
    args: Seq<TyHirExprV>,
    tf: Seq<TypeOrConstV>,
)
    requires
        settled_origins(origins),
        settled_args(tf),
        forall|k: int| 0 <= k < args.len() ==> settled((#[trigger] args[k]).ty),
    ensures
        m_infer(origins, t, args, tf) matches Ok(a) ==> settled_types(a.0),
{
    reveal(m_infer);
    let gs = t.generics;
    let none = GenericArgs { types: unknown(count_kind(gs, GenericParamKind::Type, gs.len() as int)), consts: unknown(count_kind(gs, GenericParamKind::Const, gs.len() as int)) };
    lemma_explicit_settled(gs, tf, 0, none);
    if let Ok(given) = m_explicit(gs, tf, 0, none) {
        lemma_from_args_settled(origins, t.params, args, gs, 0, 0, given.types);
        if let Ok(a) = m_from_args(origins, t.params, args, gs, 0, 0, given.types) {
            if let Some(r) = t.impl_receiver {
                if args.len() > 0 {
                    lemma_unify_settled(origins, r, args[0].ty, gs, a);
                }
            }
            if let Ok(types) = m_from_receiver(origins, t.impl_receiver, args, gs, a) {
                let all = GenericArgs { types, ..given };
                if check_known(gs, all, 0) is Ok {
                    lemma_check_known(gs, all, 0);
                    lemma_all_known(gs, all);
                    assert(settled_types(known(all.types)));
                }
            }
        }
    }
}

// Types and instances

proof fn lemma_settled_closed(t: HirTypeV)
    requires
        settled(t),
    ensures
        closed_type(t),
    decreases t,
{
    match t {
        HirTypeV::Pointer(e) => {
            lemma_settled_closed(*e);
        },
        HirTypeV::Array(e, _) => {
            lemma_settled_closed(*e);
        },
        HirTypeV::Enum(_, ts, _) => {
            assert forall|i: int| 0 <= i < ts.len() implies closed_type(#[trigger] ts[i]) by {
                lemma_settled_closed(ts[i]);
            }
        },
        _ => {},
    }
}

proof fn lemma_concrete(s: MonoState, t: HirTypeV, fuel: nat)
    requires
        ready(s),
        closed_type(t),
    ensures
        m_concrete(s, t, fuel).1 matches Ok(u) ==> settled(u) && fine(s, m_concrete(s, t, fuel).0),
    decreases fuel, 1int, t, 0int,
{
    match t {
        HirTypeV::Pointer(e) => {
            lemma_concrete(s, *e, fuel);
        },
        HirTypeV::Array(e, _) => {
            lemma_concrete(s, *e, fuel);
        },
        HirTypeV::Enum(_, ts, _) => {
            lemma_concretes(s, ts, 0, Seq::empty(), fuel);
        },
        HirTypeV::Generic(d, ts, cs) => {
            lemma_concretes(s, ts, 0, Seq::empty(), fuel);
            let a = m_concretes(s, ts, 0, Seq::empty(), fuel);
            if let Ok(us) = a.1 {
                if let Ok(vs) = const_values(cs, 0, Seq::empty()) {
                    lemma_struct(a.0, d, us, vs, fuel);
                    let r = m_struct(a.0, d, us, vs, fuel);
                    if r.1 is Ok {
                        lemma_fine(s, a.0, r.0);
                    }
                }
            }
        },
        _ => {},
    }
}

proof fn lemma_concretes(s: MonoState, ts: Seq<HirTypeV>, i: int, done: Seq<HirTypeV>, fuel: nat)
    requires
        ready(s),
        closed_types(ts),
        settled_types(done),
    ensures
        m_concretes(s, ts, i, done, fuel).1 matches Ok(us) ==> settled_types(us) && fine(s, m_concretes(s, ts, i, done, fuel).0),
    decreases fuel, 1int, ts, ts.len() - i,
{
    if 0 <= i < ts.len() {
        lemma_concrete(s, ts[i], fuel);
        let m = m_concrete(s, ts[i], fuel);
        if let Ok(u) = m.1 {
            lemma_concretes(m.0, ts, i + 1, done.push(u), fuel);
            let r = m_concretes(m.0, ts, i + 1, done.push(u), fuel);
            if r.1 is Ok {
                lemma_fine(s, m.0, r.0);
            }
        }
    }
}

proof fn lemma_type(
    s: MonoState,
    t: HirTypeV,
    gs: Seq<GenericParamV>,
    ta: Seq<HirTypeV>,
    ca: Seq<i64>,
    fuel: nat,
)
    requires
        ready(s),
        settled_types(ta),
    ensures
        m_type(s, t, gs, ta, ca, fuel).1 matches Ok(u) ==> settled(u) && fine(
            s,
            m_type(s, t, gs, ta, ca, fuel).0,
        ),
    decreases fuel, 2int, t, 0int,
{
    reveal(m_type);
    assert(all_literal(literals(ca)));
    assert forall|i: int| 0 <= i < ta.len() implies closed_type(#[trigger] ta[i]) by {
        lemma_settled_closed(ta[i]);
    }
    law_substitution_closes(t, gs, ta, literals(ca));
    if let Ok(u) = subst_type(t, gs, ta, literals(ca)) {
        lemma_concrete(s, u, fuel);
    }
}

proof fn lemma_types(
    s: MonoState,
    ts: Seq<HirTypeV>,
    c: MonoScope,
    i: int,
    done: Seq<HirTypeV>,
    fuel: nat,
)
    requires
        ready(s),
        settled_types(c.types),
        settled_types(done),
    ensures
        m_types(s, ts, c, i, done, fuel).1 matches Ok(us) ==> settled_types(us) && fine(s, m_types(s, ts, c, i, done, fuel).0),
    decreases ts.len() - i,
{
    if 0 <= i < ts.len() {
        lemma_type(s, ts[i], c.generics, c.types, c.consts, fuel);
        let m = m_type(s, ts[i], c.generics, c.types, c.consts, fuel);
        if let Ok(u) = m.1 {
            lemma_types(m.0, ts, c, i + 1, done.push(u), fuel);
            let r = m_types(m.0, ts, c, i + 1, done.push(u), fuel);
            if r.1 is Ok {
                lemma_fine(s, m.0, r.0);
            }
        }
    }
}

/// The fields that are no pointers, or all fields, are settled.
spec fn half_settled(fs: Seq<TyHirFieldV>, pointers: bool) -> bool {
    forall|j: int| 0 <= j < fs.len() ==> (#[trigger] fs[j]).ty is Pointer && !pointers || settled(fs[j].ty)
}

proof fn lemma_fields(
    s: MonoState,
    fs: Seq<TyHirFieldV>,
    gs: Seq<GenericParamV>,
    ta: Seq<HirTypeV>,
    ca: Seq<i64>,
    pointers: bool,
    i: int,
    done: Seq<TyHirFieldV>,
    fuel: nat,
)
    requires
        ready(s),
        settled_types(ta),
        pointers ==> half_settled(fs, false),
        half_settled(done, pointers),
    ensures
        m_fields(s, fs, gs, ta, ca, pointers, i, done, fuel).1 matches Ok(r) ==> fine(s, m_fields(s, fs, gs, ta, ca, pointers, i, done, fuel).0) && half_settled(r, pointers),
    decreases fuel, 3int, fs, fs.len() - i,
{
    reveal(m_type);
    if 0 <= i < fs.len() {
        if (fs[i].ty is Pointer) != pointers {
            lemma_fields(s, fs, gs, ta, ca, pointers, i + 1, done.push(fs[i]), fuel);
        } else {
            lemma_type(s, fs[i].ty, gs, ta, ca, fuel);
            let m = m_type(s, fs[i].ty, gs, ta, ca, fuel);
            if let Ok(t) = m.1 {
                let next = done.push(TyHirFieldV { ty: t, ..fs[i] });
                lemma_fields(m.0, fs, gs, ta, ca, pointers, i + 1, next, fuel);
                let r = m_fields(m.0, fs, gs, ta, ca, pointers, i + 1, next, fuel);
                if r.1 is Ok {
                    lemma_fine(s, m.0, r.0);
                }
            }
        }
    }
}

proof fn lemma_members(
    s: MonoState,
    fs: Seq<TyHirFieldV>,
    gs: Seq<GenericParamV>,
    ta: Seq<HirTypeV>,
    ca: Seq<i64>,
    fuel: nat,
)
    requires
        ready(s),
        settled_types(ta),
    ensures
        m_members(s, fs, gs, ta, ca, fuel).1 matches Ok(m) ==> fine(s, m_members(s, fs, gs, ta, ca, fuel).0) && settled_fields(m.0) && s.out.len() <= m.1 <= m_members(s, fs, gs, ta, ca, fuel).0.out.len(),
    decreases fuel, 4int, ta, 0int,
{
    lemma_fields(s, fs, gs, ta, ca, false, 0, Seq::empty(), fuel);
    let a = m_fields(s, fs, gs, ta, ca, false, 0, Seq::empty(), fuel);
    if let Ok(held) = a.1 {
        lemma_fields(a.0, held, gs, ta, ca, true, 0, Seq::empty(), fuel);
        let b = m_fields(a.0, held, gs, ta, ca, true, 0, Seq::empty(), fuel);
        if b.1 is Ok {
            lemma_fine(s, a.0, b.0);
        }
    }
}

proof fn lemma_own_fields(s: MonoState, fs: Seq<TyHirFieldV>, fuel: nat)
    requires
        ready(s),
    ensures
        m_own_fields(s, fs, fuel).1 matches Ok(r) ==> fine(s, m_own_fields(s, fs, fuel).0) && settled_fields(r),
{
    reveal(m_own_fields);
    lemma_members(s, fs, Seq::empty(), Seq::empty(), Seq::empty(), fuel);
}

proof fn lemma_struct(s: MonoState, d: DefId, ta: Seq<HirTypeV>, ca: Seq<i64>, fuel: nat)
    requires
        ready(s),
        settled_types(ta),
    ensures
        m_struct(s, d, ta, ca, fuel).1 is Ok ==> fine(s, m_struct(s, d, ta, ca, fuel).0),
    decreases fuel, 0int, ta, 0int,
{
    if lookup(s.struct_instances, (d, ta, ca)) is None && fuel > 0 {
        if let Some(t) = lookup(s.structs, d) {
            let f = m_fresh(s);
            if let Ok(id) = f.1 {
                let b = m_begin(f.0, d, ta, ca, id);
                assert(ready(b));
                lemma_members(b, t.fields, t.generics, ta, ca, (fuel - 1) as nat);
                let m = m_members(b, t.fields, t.generics, ta, ca, (fuel - 1) as nat);
                if let Ok(r) = m.1 {
                    lemma_added(s, b, m.0, r.1 as int, struct_item(d, id, r.0));
                }
            }
        }
    }
}

proof fn lemma_params(
    s: MonoState,
    ps: Seq<TyHirParamV>,
    gs: Seq<GenericParamV>,
    ta: Seq<HirTypeV>,
    ca: Seq<i64>,
    i: int,
    done: Seq<TyHirParamV>,
    fuel: nat,
)
    requires
        ready(s),
        settled_types(ta),
        settled_params(done),
        only_values(ps) ==> only_values(done),
    ensures
        m_params(s, ps, gs, ta, ca, i, done, fuel).1 matches Ok(r) ==> fine(s, m_params(s, ps, gs, ta, ca, i, done, fuel).0) && settled_params(r) && (only_values(ps) ==> only_values(r)),
    decreases fuel, 3int, ps, ps.len() - i,
{
    if 0 <= i < ps.len() {
        lemma_type(s, ps[i].ty, gs, ta, ca, fuel);
        let m = m_type(s, ps[i].ty, gs, ta, ca, fuel);
        if let Ok(t) = m.1 {
            let next = done.push(TyHirParamV { ty: t, ..ps[i] });
            lemma_params(m.0, ps, gs, ta, ca, i + 1, next, fuel);
            let r = m_params(m.0, ps, gs, ta, ca, i + 1, next, fuel);
            if r.1 is Ok {
                lemma_fine(s, m.0, r.0);
            }
        }
    }
}

proof fn lemma_fn(
    s: MonoState,
    d: DefId,
    t: FnTemplateV,
    ta: Seq<HirTypeV>,
    ca: Seq<i64>,
    fuel: nat,
)
    requires
        ready(s),
        settled_types(ta),
        s.fns.dom().contains(d),
        s.fns[d] == t,
    ensures
        m_fn(s, d, t, ta, ca, fuel).1 is Ok ==> fine(s, m_fn(s, d, t, ta, ca, fuel).0),
    decreases fuel, 0int, ta, 0int,
{
    if lookup(s.fn_instances, (d, ta, ca)) is None {
        if fuel > 0 {
            lemma_make(s, d, t, ta, ca, (fuel - 1) as nat);
        }
    } else {
        lemma_number(s, d, ta, ca);
    }
}

proof fn lemma_make(
    s: MonoState,
    d: DefId,
    t: FnTemplateV,
    ta: Seq<HirTypeV>,
    ca: Seq<i64>,
    fuel: nat,
)
    requires
        ready(s),
        settled_types(ta),
        s.fns.dom().contains(d),
        s.fns[d] == t,
        lookup(s.fn_instances, (d, ta, ca)) is None,
    ensures
        m_make(s, d, t, ta, ca, fuel).1 is Ok ==> fine(s, m_make(s, d, t, ta, ca, fuel).0),
    decreases fuel, 6int, ta, 3int,
{
    if let Ok(values) = const_params(t.params, t.generics, ca, 0, Map::empty()) {
        let c = MonoScope { generics: t.generics, types: ta, consts: ca, values };
        let key = (d, ta, ca);
        let b = m_record(s, d, ta, ca, None);
        lemma_stmts(b, t.body.stmts, c, 0, Seq::empty(), fuel);
        let m = m_stmts(b, t.body.stmts, c, 0, Seq::empty(), fuel);
        if let Ok(body) = m.1 {
            reveal(m_finish);
            assert(unnumbered(b, key));
            lemma_number(m.0, d, ta, ca);
            let n = m_number(m.0, d, ta, ca);
            if let Ok(id) = n.1 {
                lemma_fine(b, m.0, n.0);
                let ps = value_params(t.params, 0, Seq::empty());
                lemma_only_values(t.params, 0, Seq::empty());
                lemma_header(n.0, ps, t.return_ty, t.impl_receiver, c, fuel);
                let h = m_header(n.0, ps, t.return_ty, t.impl_receiver, c, fuel);
                if let Ok(header) = h.1 {
                    lemma_fine(b, n.0, h.0);
                    assert(n.0.fn_instances[key] is Some);
                    let item = fn_item(d, ta, id, header, body);
                    assert(settled_instance(item));
                    lemma_keeps_order(n.0, t.params, c.generics, ta, ca, fuel);
                    assert(keeps_order(header.0, t.params)) by {
                        reveal(m_header);
                    }
                    lemma_bodies(b, t.body.stmts, c, 0, Seq::empty(), fuel);
                    lemma_constants(t.params, t.generics, ca);
                    assert(body_from(t.params, t.generics, t.body.stmts, ca, body));
                    assert(instance_of(item, key, h.0.fns[d]));
                    lemma_made(s, h.0, key, item);
                }
            }
        }
    }
}

proof fn lemma_opt_type(s: MonoState, t: Option<HirTypeV>, c: MonoScope, fuel: nat)
    requires
        ready(s),
        settled_types(c.types),
    ensures
        m_opt_type(s, t, c.generics, c.types, c.consts, fuel).1 matches Ok(u) ==> fine(s, m_opt_type(s, t, c.generics, c.types, c.consts, fuel).0) && settled_option(u),
{
    if let Some(x) = t {
        lemma_type(s, x, c.generics, c.types, c.consts, fuel);
    }
}

proof fn lemma_header(
    s: MonoState,
    params: Seq<TyHirParamV>,
    return_ty: HirTypeV,
    impl_receiver: Option<HirTypeV>,
    c: MonoScope,
    fuel: nat,
)
    requires
        ready(s),
        settled_types(c.types),
    ensures
        m_header(s, params, return_ty, impl_receiver, c, fuel).1 matches Ok(h) ==> fine(s, m_header(s, params, return_ty, impl_receiver, c, fuel).0) && settled_params(h.0) && (only_values(params) ==> only_values(h.0)) && settled(h.1) && settled_option(h.2),
{
    reveal(m_header);
    lemma_params(s, params, c.generics, c.types, c.consts, 0, Seq::empty(), fuel);
    let p = m_params(s, params, c.generics, c.types, c.consts, 0, Seq::empty(), fuel);
    if p.1 is Ok {
        lemma_type(p.0, return_ty, c.generics, c.types, c.consts, fuel);
        let r = m_type(p.0, return_ty, c.generics, c.types, c.consts, fuel);
        if r.1 is Ok {
            lemma_fine(s, p.0, r.0);
            lemma_opt_type(r.0, impl_receiver, c, fuel);
            let o = m_opt_type(r.0, impl_receiver, c.generics, c.types, c.consts, fuel);
            if o.1 is Ok {
                lemma_fine(s, r.0, o.0);
            }
        }
    }
}

// Expressions and statements

/// The arguments of a scope are settled.
spec fn settled_scope(c: MonoScope) -> bool {
    settled_types(c.types)
}

spec fn all_settled(es: Seq<TyHirExprV>) -> bool {
    forall|i: int| 0 <= i < es.len() ==> settled_expr(#[trigger] es[i])
}

/// A settled expression came out, and only settled instances were added.
spec fn settles(s: MonoState, r: (MonoState, Result<TyHirExprV, MplangErrorV>)) -> bool {
    r.1 is Ok ==> fine(s, r.0) && settled_expr(r.1->Ok_0)
}

proof fn lemma_targs(
    s: MonoState,
    tf: Seq<TypeOrConstV>,
    c: MonoScope,
    i: int,
    done: Seq<TypeOrConstV>,
    fuel: nat,
)
    requires
        ready(s),
        settled_scope(c),
        settled_args(done),
    ensures
        m_targs(s, tf, c, i, done, fuel).1 matches Ok(r) ==> fine(s, m_targs(s, tf, c, i, done, fuel).0) && settled_args(r),
    decreases fuel, 3int, tf, tf.len() - i,
{
    if 0 <= i < tf.len() {
        match tf[i] {
            TypeOrConstV::Type(t) => {
                lemma_type(s, t, c.generics, c.types, c.consts, fuel);
                let m = m_type(s, t, c.generics, c.types, c.consts, fuel);
                if let Ok(u) = m.1 {
                    lemma_targs(m.0, tf, c, i + 1, done.push(TypeOrConstV::Type(u)), fuel);
                    let r = m_targs(m.0, tf, c, i + 1, done.push(TypeOrConstV::Type(u)), fuel);
                    if r.1 is Ok {
                        lemma_fine(s, m.0, r.0);
                    }
                }
            },
            TypeOrConstV::ConstParam(k) => {
                if let Ok(v) = const_of(c.generics, c.consts, k) {
                    lemma_targs(s, tf, c, i + 1, done.push(TypeOrConstV::Const(v)), fuel);
                }
            },
            TypeOrConstV::Const(_) => {
                lemma_targs(s, tf, c, i + 1, done.push(tf[i]), fuel);
            },
        }
    }
}

proof fn lemma_call(
    s: MonoState,
    callee: DefId,
    args: Seq<TyHirExprV>,
    tf: Seq<TypeOrConstV>,
    ret: HirTypeV,
    c: MonoScope,
    fuel: nat,
)
    requires
        ready(s),
        settled_scope(c),
        all_settled(args),
    ensures
        settles(s, m_call(s, callee, args, tf, ret, c, fuel)),
    decreases fuel, 4int, args, 1int,
{
    match lookup(s.fns, callee) {
        Some(t) => {
            lemma_targs(s, tf, c, 0, Seq::empty(), fuel);
            let g = m_targs(s, tf, c, 0, Seq::empty(), fuel);
            if let Ok(given) = g.1 {
                lemma_call_args(g.0.origins, t, args, given);
                if let Ok(a) = m_infer(g.0.origins, t, args, given) {
                    if let Ok(ca) = const_args_in(c, a.1, 0, Seq::empty()) {
                        lemma_instance_call(g.0, callee, t, a.0, ca, args, ret, fuel);
                        let r = m_instance_call(g.0, callee, t, a.0, ca, args, ret, fuel);
                        if r.1 is Ok {
                            lemma_fine(s, g.0, r.0);
                        }
                    }
                }
            }
        },
        None => {
            lemma_plain_call(s, callee, args, ret, c, fuel);
        },
    }
}

proof fn lemma_call_args(
    origins: Map<DefId, (Seq<HirTypeV>, Seq<ConstArg>)>,
    t: FnTemplateV,
    args: Seq<TyHirExprV>,
    tf: Seq<TypeOrConstV>,
)
    requires
        settled_origins(origins),
        all_settled(args),
        settled_args(tf),
    ensures
        m_infer(origins, t, args, tf) matches Ok(a) ==> settled_types(a.0),
{
    assert forall|k: int| 0 <= k < args.len() implies settled((#[trigger] args[k]).ty) by {
        assert(settled_expr(args[k]));
    }
    lemma_infer_settled(origins, t, args, tf);
}

proof fn lemma_call_ok(callee: DefId, args: Seq<TyHirExprV>, ty: HirTypeV)
    requires
        all_settled(args),
        settled(ty),
    ensures
        settled_expr(
            TyHirExprV { ty, kind: TyHirExprKindV::Call { callee, args, turbofish: Seq::empty() } },
        ),
{
}

proof fn lemma_instance_call(
    s: MonoState,
    callee: DefId,
    t: FnTemplateV,
    ta: Seq<HirTypeV>,
    ca: Seq<i64>,
    args: Seq<TyHirExprV>,
    ret: HirTypeV,
    fuel: nat,
)
    requires
        ready(s),
        settled_types(ta),
        s.fns.dom().contains(callee),
        s.fns[callee] == t,
        all_settled(args),
    ensures
        settles(s, m_instance_call(s, callee, t, ta, ca, args, ret, fuel)),
    decreases fuel, 4int, args, 0int,
{
    lemma_fn(s, callee, t, ta, ca, fuel);
    let f = m_fn(s, callee, t, ta, ca, fuel);
    if let Ok(id) = f.1 {
        lemma_type(f.0, ret, t.generics, ta, ca, fuel);
        let r = m_type(f.0, ret, t.generics, ta, ca, fuel);
        if let Ok(ty) = r.1 {
            lemma_fine(s, f.0, r.0);
            lemma_call_ok(id, args, ty);
        }
    }
}

proof fn lemma_plain_call(
    s: MonoState,
    callee: DefId,
    args: Seq<TyHirExprV>,
    ret: HirTypeV,
    c: MonoScope,
    fuel: nat,
)
    requires
        ready(s),
        settled_scope(c),
        all_settled(args),
    ensures
        settles(s, m_plain_call(s, callee, args, ret, c, fuel)),
    decreases fuel, 4int, args, 0int,
{
    lemma_type(s, ret, c.generics, c.types, c.consts, fuel);
    if let Ok(ty) = m_type(s, ret, c.generics, c.types, c.consts, fuel).1 {
        lemma_call_ok(callee, args, ty);
    }
}

proof fn lemma_expr(s: MonoState, e: TyHirExprV, c: MonoScope, fuel: nat)
    requires
        ready(s),
        settled_scope(c),
    ensures
        settles(s, m_expr(s, e, c, fuel)),
    decreases fuel, 5int, e, 1int,
{
    lemma_type(s, e.ty, c.generics, c.types, c.consts, fuel);
    let m = m_type(s, e.ty, c.generics, c.types, c.consts, fuel);
    if let Ok(ty) = m.1 {
        lemma_kind(m.0, e.kind, ty, c, fuel);
        let r = m_kind(m.0, e.kind, ty, c, fuel);
        if r.1 is Ok {
            lemma_fine(s, m.0, r.0);
        }
    }
}

/// Two expressions in a row.
proof fn lemma_pair(s: MonoState, a: TyHirExprV, b: TyHirExprV, c: MonoScope, fuel: nat)
    requires
        ready(s),
        m_expr(s, a, c, fuel).1 is Ok,
        settles(s, m_expr(s, a, c, fuel)),
        m_expr(m_expr(s, a, c, fuel).0, b, c, fuel).1 is Ok,
        settles(m_expr(s, a, c, fuel).0, m_expr(m_expr(s, a, c, fuel).0, b, c, fuel)),
    ensures
        fine(s, m_expr(m_expr(s, a, c, fuel).0, b, c, fuel).0),
{
    lemma_fine(s, m_expr(s, a, c, fuel).0, m_expr(m_expr(s, a, c, fuel).0, b, c, fuel).0);
}

#[verifier::spinoff_prover]
proof fn lemma_kind(s: MonoState, k: TyHirExprKindV, ty: HirTypeV, c: MonoScope, fuel: nat)
    requires
        ready(s),
        settled_scope(c),
        settled(ty),
    ensures
        settles(s, m_kind(s, k, ty, c, fuel)),
    decreases fuel, 5int, k, 0int,
{
    match k {
        TyHirExprKindV::Literal(_) => {},
        TyHirExprKindV::Path(_) => {},
        TyHirExprKindV::Binary { op, lhs, rhs } => {
            lemma_expr(s, *lhs, c, fuel);
            if m_expr(s, *lhs, c, fuel).1 is Ok {
                lemma_expr(m_expr(s, *lhs, c, fuel).0, *rhs, c, fuel);
                if m_expr(m_expr(s, *lhs, c, fuel).0, *rhs, c, fuel).1 is Ok {
                    lemma_pair(s, *lhs, *rhs, c, fuel);
                }
            }
        },
        TyHirExprKindV::Call { callee, args, turbofish } => {
            lemma_exprs(s, args, c, 0, Seq::empty(), fuel);
            let m = m_exprs(s, args, c, 0, Seq::empty(), fuel);
            if let Ok(a) = m.1 {
                lemma_call(m.0, callee, a, turbofish, ty, c, fuel);
                let r = m_call(m.0, callee, a, turbofish, ty, c, fuel);
                if r.1 is Ok {
                    lemma_fine(s, m.0, r.0);
                }
            }
        },
        TyHirExprKindV::FieldAccess { object, field } => {
            lemma_expr(s, *object, c, fuel);
        },
        TyHirExprKindV::StructLiteral { def_id, fields, turbofish } => {
            lemma_inits(s, fields, c, 0, Seq::empty(), fuel);
        },
        TyHirExprKindV::ArrayLiteral { elements, repeat } => {
            lemma_exprs(s, elements, c, 0, Seq::empty(), fuel);
        },
        TyHirExprKindV::Index { array, index } => {
            lemma_expr(s, *array, c, fuel);
            if m_expr(s, *array, c, fuel).1 is Ok {
                lemma_expr(m_expr(s, *array, c, fuel).0, *index, c, fuel);
                if m_expr(m_expr(s, *array, c, fuel).0, *index, c, fuel).1 is Ok {
                    lemma_pair(s, *array, *index, c, fuel);
                }
            }
        },
        TyHirExprKindV::AddressOf(x) => {
            lemma_expr(s, *x, c, fuel);
        },
        TyHirExprKindV::Deref(x) => {
            lemma_expr(s, *x, c, fuel);
        },
        TyHirExprKindV::Variant { def_id, variant, args, turbofish } => {
            lemma_exprs(s, args, c, 0, Seq::empty(), fuel);
            let m = m_exprs(s, args, c, 0, Seq::empty(), fuel);
            if m.1 is Ok {
                lemma_targs(m.0, turbofish, c, 0, Seq::empty(), fuel);
                let g = m_targs(m.0, turbofish, c, 0, Seq::empty(), fuel);
                if g.1 is Ok {
                    lemma_fine(s, m.0, g.0);
                }
            }
        },
        TyHirExprKindV::Match { scrutinee, arms } => {
            lemma_expr(s, *scrutinee, c, fuel);
            let m = m_expr(s, *scrutinee, c, fuel);
            if m.1 is Ok {
                lemma_arms(m.0, arms, c, 0, Seq::empty(), fuel);
                let r = m_arms(m.0, arms, c, 0, Seq::empty(), fuel);
                if r.1 is Ok {
                    lemma_fine(s, m.0, r.0);
                }
            }
        },
        TyHirExprKindV::TraitCast { value, trait_def } => {
            lemma_expr(s, *value, c, fuel);
        },
        TyHirExprKindV::DynamicMethodCall { trait_def, method_index, receiver, args } => {
            lemma_expr(s, *receiver, c, fuel);
            let m = m_expr(s, *receiver, c, fuel);
            if m.1 is Ok {
                lemma_exprs(m.0, args, c, 0, Seq::empty(), fuel);
                let r = m_exprs(m.0, args, c, 0, Seq::empty(), fuel);
                if r.1 is Ok {
                    lemma_fine(s, m.0, r.0);
                }
            }
        },
    }
}

proof fn lemma_exprs(
    s: MonoState,
    es: Seq<TyHirExprV>,
    c: MonoScope,
    i: int,
    done: Seq<TyHirExprV>,
    fuel: nat,
)
    requires
        ready(s),
        settled_scope(c),
        all_settled(done),
    ensures
        m_exprs(s, es, c, i, done, fuel).1 matches Ok(r) ==> fine(s, m_exprs(s, es, c, i, done, fuel).0) && all_settled(r),
    decreases fuel, 5int, es, es.len() - i,
{
    if 0 <= i < es.len() {
        lemma_expr(s, es[i], c, fuel);
        let m = m_expr(s, es[i], c, fuel);
        if let Ok(x) = m.1 {
            lemma_exprs(m.0, es, c, i + 1, done.push(x), fuel);
            let r = m_exprs(m.0, es, c, i + 1, done.push(x), fuel);
            if r.1 is Ok {
                lemma_fine(s, m.0, r.0);
            }
        }
    }
}

proof fn lemma_inits(
    s: MonoState,
    fs: Seq<(DefId, TyHirExprV)>,
    c: MonoScope,
    i: int,
    done: Seq<(DefId, TyHirExprV)>,
    fuel: nat,
)
    requires
        ready(s),
        settled_scope(c),
        forall|j: int| 0 <= j < done.len() ==> settled_expr((#[trigger] done[j]).1),
    ensures
        m_inits(s, fs, c, i, done, fuel).1 matches Ok(r) ==> fine(s, m_inits(s, fs, c, i, done, fuel).0) && (forall|j: int| 0 <= j < r.len() ==> settled_expr((#[trigger] r[j]).1)),
    decreases fuel, 5int, fs, fs.len() - i,
{
    if 0 <= i < fs.len() {
        lemma_expr(s, fs[i].1, c, fuel);
        let m = m_expr(s, fs[i].1, c, fuel);
        if let Ok(x) = m.1 {
            let next = done.push((fs[i].0, x));
            lemma_inits(m.0, fs, c, i + 1, next, fuel);
            let r = m_inits(m.0, fs, c, i + 1, next, fuel);
            if r.1 is Ok {
                lemma_fine(s, m.0, r.0);
            }
        }
    }
}

proof fn lemma_bindings(
    s: MonoState,
    bs: Seq<(DefId, Option<HirTypeV>)>,
    c: MonoScope,
    i: int,
    done: Seq<(DefId, Option<HirTypeV>)>,
    fuel: nat,
)
    requires
        ready(s),
        settled_scope(c),
        forall|j: int| 0 <= j < done.len() ==> settled_option((#[trigger] done[j]).1),
    ensures
        m_bindings(s, bs, c, i, done, fuel).1 matches Ok(r) ==> fine(s, m_bindings(s, bs, c, i, done, fuel).0) && (forall|j: int| 0 <= j < r.len() ==> settled_option((#[trigger] r[j]).1)),
    decreases bs.len() - i,
{
    if 0 <= i < bs.len() {
        lemma_opt_type(s, bs[i].1, c, fuel);
        let m = m_opt_type(s, bs[i].1, c.generics, c.types, c.consts, fuel);
        if let Ok(t) = m.1 {
            let next = done.push((bs[i].0, t));
            lemma_bindings(m.0, bs, c, i + 1, next, fuel);
            let r = m_bindings(m.0, bs, c, i + 1, next, fuel);
            if r.1 is Ok {
                lemma_fine(s, m.0, r.0);
            }
        }
    }
}

proof fn lemma_pattern(s: MonoState, p: TyHirPatternV, c: MonoScope, fuel: nat)
    requires
        ready(s),
        settled_scope(c),
    ensures
        m_pattern(s, p, c, fuel).1 matches Ok(q) ==> fine(s, m_pattern(s, p, c, fuel).0) && settled_pattern(q),
{
    reveal(m_pattern);
    if let TyHirPatternV::Variant { bindings, .. } = p {
        lemma_bindings(s, bindings, c, 0, Seq::empty(), fuel);
    }
}

spec fn settled_arms(arms: Seq<TyHirMatchArmV>) -> bool {
    forall|j: int| 0 <= j < arms.len() ==> settled_pattern((#[trigger] arms[j]).pattern) && settled_stmts(arms[j].body.stmts)
}

proof fn lemma_arms(
    s: MonoState,
    arms: Seq<TyHirMatchArmV>,
    c: MonoScope,
    i: int,
    done: Seq<TyHirMatchArmV>,
    fuel: nat,
)
    requires
        ready(s),
        settled_scope(c),
        settled_arms(done),
    ensures
        m_arms(s, arms, c, i, done, fuel).1 matches Ok(r) ==> fine(s, m_arms(s, arms, c, i, done, fuel).0) && settled_arms(r),
    decreases fuel, 5int, arms, arms.len() - i,
{
    if 0 <= i < arms.len() {
        lemma_pattern(s, arms[i].pattern, c, fuel);
        let p = m_pattern(s, arms[i].pattern, c, fuel);
        if let Ok(pattern) = p.1 {
            lemma_stmts(p.0, arms[i].body.stmts, c, 0, Seq::empty(), fuel);
            let m = m_stmts(p.0, arms[i].body.stmts, c, 0, Seq::empty(), fuel);
            if let Ok(b) = m.1 {
                lemma_fine(s, p.0, m.0);
                let next = done.push(TyHirMatchArmV { pattern, body: TyHirBodyV { stmts: b } });
                lemma_arms(m.0, arms, c, i + 1, next, fuel);
                let r = m_arms(m.0, arms, c, i + 1, next, fuel);
                if r.1 is Ok {
                    lemma_fine(s, m.0, r.0);
                }
            }
        }
    }
}

#[verifier::spinoff_prover]
proof fn lemma_stmt(s: MonoState, st: TyHirStmtV, c: MonoScope, fuel: nat)
    requires
        ready(s),
        settled_scope(c),
    ensures
        m_stmt(s, st, c, fuel).1 matches Ok(t) ==> fine(s, m_stmt(s, st, c, fuel).0) && settled_stmt(t),
    decreases fuel, 5int, st, 0int,
{
    match st {
        TyHirStmtV::Let { def_id, name, ty, init } => {
            lemma_type(s, ty, c.generics, c.types, c.consts, fuel);
            let m = m_type(s, ty, c.generics, c.types, c.consts, fuel);
            if m.1 is Ok {
                lemma_expr(m.0, init, c, fuel);
                let r = m_expr(m.0, init, c, fuel);
                if r.1 is Ok {
                    lemma_fine(s, m.0, r.0);
                }
            }
        },
        TyHirStmtV::Assign { target, value } => {
            lemma_expr(s, target, c, fuel);
            if m_expr(s, target, c, fuel).1 is Ok {
                lemma_expr(m_expr(s, target, c, fuel).0, value, c, fuel);
                if m_expr(m_expr(s, target, c, fuel).0, value, c, fuel).1 is Ok {
                    lemma_pair(s, target, value, c, fuel);
                }
            }
        },
        TyHirStmtV::Expr(e) => {
            lemma_expr(s, e, c, fuel);
        },
        TyHirStmtV::If { cond, then_branch, else_branch } => {
            lemma_expr(s, cond, c, fuel);
            let m = m_expr(s, cond, c, fuel);
            if m.1 is Ok {
                lemma_stmts(m.0, then_branch.stmts, c, 0, Seq::empty(), fuel);
                let a = m_stmts(m.0, then_branch.stmts, c, 0, Seq::empty(), fuel);
                if a.1 is Ok {
                    lemma_fine(s, m.0, a.0);
                    if let Some(other) = else_branch {
                        lemma_stmts(a.0, other.stmts, c, 0, Seq::empty(), fuel);
                        let b = m_stmts(a.0, other.stmts, c, 0, Seq::empty(), fuel);
                        if b.1 is Ok {
                            lemma_fine(s, a.0, b.0);
                        }
                    }
                }
            }
        },
        TyHirStmtV::While { cond, body } => {
            lemma_expr(s, cond, c, fuel);
            let m = m_expr(s, cond, c, fuel);
            if m.1 is Ok {
                lemma_stmts(m.0, body.stmts, c, 0, Seq::empty(), fuel);
                let a = m_stmts(m.0, body.stmts, c, 0, Seq::empty(), fuel);
                if a.1 is Ok {
                    lemma_fine(s, m.0, a.0);
                }
            }
        },
        TyHirStmtV::Return(value) => {
            if let Some(e) = value {
                lemma_expr(s, e, c, fuel);
            }
        },
    }
}

proof fn lemma_stmts(
    s: MonoState,
    stmts: Seq<TyHirStmtV>,
    c: MonoScope,
    i: int,
    done: Seq<TyHirStmtV>,
    fuel: nat,
)
    requires
        ready(s),
        settled_scope(c),
        settled_stmts(done),
    ensures
        m_stmts(s, stmts, c, i, done, fuel).1 matches Ok(r) ==> fine(s, m_stmts(s, stmts, c, i, done, fuel).0) && settled_stmts(r),
    decreases fuel, 5int, stmts, stmts.len() - i,
{
    if 0 <= i < stmts.len() {
        lemma_stmt(s, stmts[i], c, fuel);
        let m = m_stmt(s, stmts[i], c, fuel);
        if let Ok(x) = m.1 {
            lemma_stmts(m.0, stmts, c, i + 1, done.push(x), fuel);
            let r = m_stmts(m.0, stmts, c, i + 1, done.push(x), fuel);
            if r.1 is Ok {
                lemma_fine(s, m.0, r.0);
            }
        }
    }
}

// Items

proof fn lemma_variants(
    s: MonoState,
    vs: Seq<TyHirEnumVariantV>,
    i: int,
    done: Seq<TyHirEnumVariantV>,
    fuel: nat,
)
    requires
        ready(s),
        forall|j: int| 0 <= j < done.len() ==> settled_fields((#[trigger] done[j]).fields),
    ensures
        m_variants(s, vs, i, done, fuel).1 matches Ok(r) ==> fine(s, m_variants(s, vs, i, done, fuel).0) && (forall|j: int| 0 <= j < r.len() ==> settled_fields((#[trigger] r[j]).fields)),
    decreases vs.len() - i,
{
    if 0 <= i < vs.len() {
        lemma_own_fields(s, vs[i].fields, fuel);
        let m = m_own_fields(s, vs[i].fields, fuel);
        if let Ok(fs) = m.1 {
            let next = done.push(TyHirEnumVariantV { fields: fs, ..vs[i] });
            lemma_variants(m.0, vs, i + 1, next, fuel);
            let r = m_variants(m.0, vs, i + 1, next, fuel);
            if r.1 is Ok {
                lemma_fine(s, m.0, r.0);
            }
        }
    }
}

/// Only generic functions among the items have constant parameters.
pub open spec fn all_only_values(items: Seq<TyHirItemV>) -> bool {
    forall|i: int| 0 <= i < items.len() ==> only_values_in(#[trigger] items[i])
}

proof fn lemma_item(s: MonoState, item: TyHirItemV, fuel: nat)
    requires
        ready(s),
        !is_template(item),
    ensures
        m_item(s, item, fuel).1 matches Ok(r) ==> fine(s, m_item(s, item, fuel).0) && settled_item(r) && (only_values_in(item) ==> only_values_in(r)),
    decreases item, 0int,
{
    match item {
        TyHirItemV::Module(m) => {
            lemma_items(s, m.items, 0, Seq::empty(), fuel);
        },
        TyHirItemV::Fn { params, return_ty, body, impl_receiver, .. } => {
            let c = outer_scope();
            lemma_stmts(s, body.stmts, c, 0, Seq::empty(), fuel);
            let b = m_stmts(s, body.stmts, c, 0, Seq::empty(), fuel);
            if b.1 is Ok {
                lemma_header(b.0, params, return_ty, impl_receiver, c, fuel);
                let h = m_header(b.0, params, return_ty, impl_receiver, c, fuel);
                if h.1 is Ok {
                    lemma_fine(s, b.0, h.0);
                }
            }
        },
        TyHirItemV::Static { ty, init, .. } => {
            lemma_type(s, ty, Seq::empty(), Seq::empty(), Seq::empty(), fuel);
            let m = m_type(s, ty, Seq::empty(), Seq::empty(), Seq::empty(), fuel);
            if m.1 is Ok {
                lemma_expr(m.0, init, outer_scope(), fuel);
                let v = m_expr(m.0, init, outer_scope(), fuel);
                if v.1 is Ok {
                    lemma_fine(s, m.0, v.0);
                }
            }
        },
        TyHirItemV::Struct { fields, .. } => {
            lemma_own_fields(s, fields, fuel);
        },
        TyHirItemV::ExternFn { param_types, return_ty, .. } => {
            lemma_types(s, param_types, outer_scope(), 0, Seq::empty(), fuel);
            let m = m_types(s, param_types, outer_scope(), 0, Seq::empty(), fuel);
            if m.1 is Ok {
                lemma_type(m.0, return_ty, Seq::empty(), Seq::empty(), Seq::empty(), fuel);
                let r = m_type(m.0, return_ty, Seq::empty(), Seq::empty(), Seq::empty(), fuel);
                if r.1 is Ok {
                    lemma_fine(s, m.0, r.0);
                }
            }
        },
        TyHirItemV::Enum { generics, variants, .. } => {
            if generics.len() == 0 {
                lemma_variants(s, variants, 0, Seq::empty(), fuel);
            }
        },
        TyHirItemV::VTable { .. } => {},
    }
}

proof fn lemma_items(s: MonoState, items: Seq<TyHirItemV>, i: int, done: Seq<TyHirItemV>, fuel: nat)
    requires
        ready(s),
        0 <= i <= items.len(),
        forall|j: int| 0 <= j < done.len() ==> settled_item(#[trigger] done[j]),
        done.len() == kept_count(items, i),
        all_only_values(items) ==> all_only_values(done),
    ensures
        m_items(s, items, i, done, fuel).1 matches Ok(r) ==> fine(s, m_items(s, items, i, done, fuel).0) && (forall|j: int| 0 <= j < r.len() ==> settled_item(#[trigger] r[j])) && r.len() == kept_count(items, items.len() as int) && (all_only_values(items) ==> all_only_values(r)),
    decreases items, items.len() - i,
{
    if i < items.len() {
        if is_template(items[i]) {
            lemma_items(s, items, i + 1, done, fuel);
        } else {
            lemma_item(s, items[i], fuel);
            let m = m_item(s, items[i], fuel);
            if let Ok(x) = m.1 {
                lemma_items(m.0, items, i + 1, done.push(x), fuel);
                let r = m_items(m.0, items, i + 1, done.push(x), fuel);
                if r.1 is Ok {
                    lemma_fine(s, m.0, r.0);
                }
            }
        }
    }
}

proof fn lemma_collect(s: MonoState, items: Seq<TyHirItemV>, i: int)
    requires
        ready(s),
        s.out.len() == 0,
    ensures
        ready(m_collect(s, items, i)),
        m_collect(s, items, i).out == s.out,
        m_collect(s, items, i).next_id == s.next_id,
    decreases items, items.len() - i,
{
    if 0 <= i < items.len() {
        match items[i] {
            TyHirItemV::Fn { def_id, generics, params, return_ty, body, impl_receiver, .. } => {
                if generics.len() > 0 {
                    lemma_collect(
                        MonoState { fns: s.fns.insert(def_id, FnTemplateV { generics, params, return_ty, body, impl_receiver }), ..s },
                        items,
                        i + 1,
                    );
                } else {
                    lemma_collect(s, items, i + 1);
                }
            },
            TyHirItemV::Struct { def_id, generics, fields, .. } => {
                lemma_collect(
                    MonoState { structs: s.structs.insert(def_id, crate::monomorphize::template::StructTemplateV { generics, fields }), ..s },
                    items,
                    i + 1,
                );
            },
            TyHirItemV::Module(m) => {
                lemma_collect(s, m.items, 0);
                lemma_collect(m_collect(s, m.items, 0), items, i + 1);
            },
            _ => {
                lemma_collect(s, items, i + 1);
            },
        }
    }
}

/// An expanded program holds no generic function or struct, and no type in it
/// holds a type parameter, an application of a generic struct or a constant
/// parameter, at any depth. Its instances stand behind the items that were kept.
/// Only a generic enumeration keeps its own parameters. No instance has a
/// constant parameter, and no function at all has one where only generic
/// functions of the program had.
pub proof fn law_expanded_is_settled(unit: TyHirCompilationUnitV, fuel: nat)
    requires
        expanded(unit, fuel) is Ok,
    ensures
        forall|j: int| 0 <= j < expanded(unit, fuel)->Ok_0.root_module.items.len() ==> settled_item(
            #[trigger] expanded(unit, fuel)->Ok_0.root_module.items[j],
        ),
        kept_count(unit.root_module.items, unit.root_module.items.len() as int) <= expanded(unit, fuel)->Ok_0.root_module.items.len(),
        forall|j: int| kept_count(unit.root_module.items, unit.root_module.items.len() as int) <= j < expanded(unit, fuel)->Ok_0.root_module.items.len() ==> settled_instance(#[trigger] expanded(unit, fuel)->Ok_0.root_module.items[j]),
        all_only_values(unit.root_module.items) ==> all_only_values(expanded(unit, fuel)->Ok_0.root_module.items),
{
    let items = unit.root_module.items;
    let s = empty_state((unit_max(unit) + 1) as u32);
    lemma_collect(s, items, 0);
    lemma_items(m_collect(s, items, 0), items, 0, Seq::empty(), fuel);
}

/// Each function that expansion adds is an instance of a generic function of the
/// program. Its parameters are those of the generic function that take values, in the
/// same order: the first argument of a call is for the first of them, and so on. Its body
/// does what that of the generic function does, with the given constants for the others.
pub proof fn law_instances_follow_their_template(unit: TyHirCompilationUnitV, fuel: nat, j: int)
    requires
        expanded(unit, fuel) is Ok,
        kept_count(unit.root_module.items, unit.root_module.items.len() as int) <= j < expanded(unit, fuel)->Ok_0.root_module.items.len(),
        expanded(unit, fuel)->Ok_0.root_module.items[j] is Fn,
    ensures
        exists|k: InstanceKey, t: FnTemplateV| #[trigger] instance_of(expanded(unit, fuel)->Ok_0.root_module.items[j], k, t) && defines(unit.root_module.items, k.0, t, 0),
{
    let items = unit.root_module.items;
    let s = empty_state((unit_max(unit) + 1) as u32);
    lemma_collect(s, items, 0);
    let c = m_collect(s, items, 0);
    lemma_items(c, items, 0, Seq::empty(), fuel);
    let n = kept_count(items, items.len() as int);
    let r = m_items(c, items, 0, Seq::empty(), fuel);
    let item = expanded(unit, fuel)->Ok_0.root_module.items[j];
    assert(item == r.0.out[j - n]);
    let k = choose|k: InstanceKey| #[trigger] instance_of(item, k, c.fns[k.0]) && c.fns.dom().contains(k.0);
    lemma_collected(s, items, 0, k.0);
    assert(instance_of(item, k, c.fns[k.0]) && defines(items, k.0, c.fns[k.0], 0));
}

/// Instances have numbers that no definition of the program has, and no two
/// have the same.
pub proof fn law_instances_have_new_numbers(unit: TyHirCompilationUnitV, fuel: nat, i: int, j: int)
    requires
        expanded(unit, fuel) is Ok,
        kept_count(unit.root_module.items, unit.root_module.items.len() as int) <= i < j < expanded(unit, fuel)->Ok_0.root_module.items.len(),
    ensures
        instance_id(expanded(unit, fuel)->Ok_0.root_module.items[i]) > unit_max(unit),
        instance_id(expanded(unit, fuel)->Ok_0.root_module.items[j]) > unit_max(unit),
        instance_id(expanded(unit, fuel)->Ok_0.root_module.items[i]) != instance_id(expanded(unit, fuel)->Ok_0.root_module.items[j]),
{
    let items = unit.root_module.items;
    let s = empty_state((unit_max(unit) + 1) as u32);
    lemma_collect(s, items, 0);
    lemma_items(m_collect(s, items, 0), items, 0, Seq::empty(), fuel);
    let n = kept_count(items, items.len() as int);
    let r = m_items(m_collect(s, items, 0), items, 0, Seq::empty(), fuel);
    assert(expanded(unit, fuel)->Ok_0.root_module.items[i] == r.0.out[i - n]);
    assert(expanded(unit, fuel)->Ok_0.root_module.items[j] == r.0.out[j - n]);
}

} // verus!

