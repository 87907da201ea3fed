//! Expansion leaves an expanded program as it is.

use crate::error::MplangErrorV;
use crate::hir::{ConstArg, DefId, HirTypeV, TypeOrConstV};
use crate::monomorphize::closed::{
    all_literal, settled, settled_args, settled_expr, settled_fields, settled_item,
    settled_option, settled_params, settled_pattern, settled_stmt, settled_stmts, settled_types,
};
use crate::monomorphize::ids::unit_max;
use crate::monomorphize::laws::law_expanded_is_settled;
use crate::monomorphize::rules::{
    empty_state, expanded, literals, m_arms, m_bindings, m_collect, m_concrete, m_concretes,
    m_expr, m_exprs, m_fields, m_header, m_inits, m_item, m_items, m_kind, m_opt_type, m_own_fields, m_params,
    m_pattern, m_stmt, m_stmts, m_targs, m_type, m_types, m_variants, outer_scope, Header, MonoState,
};
use crate::tycheck::rules::{resolve_consts, subst_type, subst_types};
use crate::tyhir::{
    TyHirBodyV, TyHirCompilationUnitV, TyHirEnumVariantV, TyHirExprKindV, TyHirExprV, TyHirFieldV,
    TyHirItemV, TyHirMatchArmV, TyHirModuleV, TyHirParamV, TyHirPatternV, TyHirStmtV,
};
use vstd::prelude::*;

verus! {

// Types

proof fn lemma_consts(cs: Seq<ConstArg>, i: int)
    requires
        0 <= i <= cs.len(),
        all_literal(cs),
    ensures
        resolve_consts(cs, Seq::empty(), Seq::empty(), i, cs.take(i)) == Ok::<Seq<ConstArg>, MplangErrorV>(cs),
    decreases cs.len() - i,
{
    if i < cs.len() {
        assert(cs[i] is Literal);
        assert(cs.take(i).push(cs[i]) =~= cs.take(i + 1));
        lemma_consts(cs, i + 1);
    } else {
        assert(cs.take(i) =~= cs);
    }
}

proof fn lemma_subst(t: HirTypeV)
    requires
        settled(t),
    ensures
        subst_type(t, Seq::empty(), Seq::empty(), Seq::empty()) == Ok::<HirTypeV, MplangErrorV>(t),
    decreases t, 0int,
{
    match t {
        HirTypeV::Enum(_, ts, cs) => {
            assert(ts.take(0) =~= Seq::<HirTypeV>::empty());
            assert(cs.take(0) =~= Seq::<ConstArg>::empty());
            lemma_substs(ts, 0);
            lemma_consts(cs, 0);
        },
        HirTypeV::Pointer(e) => {
            lemma_subst(*e);
        },
        HirTypeV::Array(e, _) => {
            lemma_subst(*e);
        },
        _ => {},
    }
}

proof fn lemma_substs(ts: Seq<HirTypeV>, i: int)
    requires
        0 <= i <= ts.len(),
        forall|j: int| 0 <= j < ts.len() ==> settled(#[trigger] ts[j]),
    ensures
        subst_types(ts, Seq::empty(), Seq::empty(), Seq::empty(), i, ts.take(i)) == Ok::<Seq<HirTypeV>, MplangErrorV>(ts),
    decreases ts, ts.len() - i,
{
    if i < ts.len() {
        lemma_subst(ts[i]);
        assert(ts.take(i).push(ts[i]) =~= ts.take(i + 1));
        lemma_substs(ts, i + 1);
    } else {
        assert(ts.take(i) =~= ts);
    }
}

/// A settled type has nothing to expand.
proof fn lemma_concrete(s: MonoState, t: HirTypeV, fuel: nat)
    requires
        settled(t),
    ensures
        m_concrete(s, t, fuel) == (s, Ok::<HirTypeV, MplangErrorV>(t)),
    decreases t, 0int,
{
    match t {
        HirTypeV::Pointer(e) => {
            lemma_concrete(s, *e, fuel);
        },
        HirTypeV::Array(e, _) => {
            lemma_concrete(s, *e, fuel);
        },
        HirTypeV::Enum(_, ts, _) => {
            assert(ts.take(0) =~= Seq::<HirTypeV>::empty());
            lemma_concretes(s, ts, 0, fuel);
        },
        _ => {},
    }
}

proof fn lemma_concretes(s: MonoState, ts: Seq<HirTypeV>, i: int, fuel: nat)
    requires
        0 <= i <= ts.len(),
        forall|j: int| 0 <= j < ts.len() ==> settled(#[trigger] ts[j]),
    ensures
        m_concretes(s, ts, i, ts.take(i), fuel) == (s, Ok::<Seq<HirTypeV>, MplangErrorV>(ts)),
    decreases ts, ts.len() - i,
{
    if i < ts.len() {
        lemma_concrete(s, ts[i], fuel);
        assert(ts.take(i).push(ts[i]) =~= ts.take(i + 1));
        lemma_concretes(s, ts, i + 1, fuel);
    } else {
        assert(ts.take(i) =~= ts);
    }
}

/// A settled type outside generic definitions.
proof fn lemma_type(s: MonoState, t: HirTypeV, fuel: nat)
    requires
        settled(t),
    ensures
        m_type(s, t, outer_scope().generics, outer_scope().types, outer_scope().consts, fuel) == (s, Ok::<HirTypeV, MplangErrorV>(t)),
{
    reveal(m_type);
    assert(literals(outer_scope().consts) =~= Seq::<ConstArg>::empty());
    lemma_subst(t);
    lemma_concrete(s, t, fuel);
}

proof fn lemma_types(s: MonoState, ts: Seq<HirTypeV>, i: int, fuel: nat)
    requires
        0 <= i <= ts.len(),
        settled_types(ts),
    ensures
        m_types(s, ts, outer_scope(), i, ts.take(i), fuel) == (
            s,
            Ok::<Seq<HirTypeV>, MplangErrorV>(ts),
        ),
    decreases ts.len() - i,
{
    if i < ts.len() {
        lemma_type(s, ts[i], fuel);
        assert(ts.take(i).push(ts[i]) =~= ts.take(i + 1));
        lemma_types(s, ts, i + 1, fuel);
    } else {
        assert(ts.take(i) =~= ts);
    }
}

proof fn lemma_fields(s: MonoState, fs: Seq<TyHirFieldV>, pointers: bool, i: int, fuel: nat)
    requires
        0 <= i <= fs.len(),
        settled_fields(fs),
    ensures
        m_fields(s, fs, Seq::empty(), Seq::empty(), Seq::empty(), pointers, i, fs.take(i), fuel) == (
            s,
            Ok::<Seq<TyHirFieldV>, MplangErrorV>(fs),
        ),
    decreases fs.len() - i,
{
    reveal(m_type);
    if i < fs.len() {
        lemma_type(s, fs[i].ty, fuel);
        let f = TyHirFieldV { ty: fs[i].ty, ..fs[i] };
        assert(f == fs[i]);
        assert(fs.take(i).push(f) =~= fs.take(i + 1));
        assert(fs.take(i).push(fs[i]) =~= fs.take(i + 1));
        lemma_fields(s, fs, pointers, i + 1, fuel);
    } else {
        assert(fs.take(i) =~= fs);
    }
}

proof fn lemma_members(s: MonoState, fs: Seq<TyHirFieldV>, fuel: nat)
    requires
        settled_fields(fs),
    ensures
        m_own_fields(s, fs, fuel) == (s, Ok::<Seq<TyHirFieldV>, MplangErrorV>(fs)),
{
    reveal(m_own_fields);
    assert(fs.take(0) =~= Seq::<TyHirFieldV>::empty());
    lemma_fields(s, fs, false, 0, fuel);
    lemma_fields(s, fs, true, 0, fuel);
}

proof fn lemma_params(s: MonoState, ps: Seq<TyHirParamV>, i: int, fuel: nat)
    requires
        0 <= i <= ps.len(),
        settled_params(ps),
    ensures
        m_params(s, ps, Seq::empty(), Seq::empty(), Seq::empty(), i, ps.take(i), fuel) == (
            s,
            Ok::<Seq<TyHirParamV>, MplangErrorV>(ps),
        ),
    decreases ps.len() - i,
{
    if i < ps.len() {
        lemma_type(s, ps[i].ty, fuel);
        assert(TyHirParamV { ty: ps[i].ty, ..ps[i] } == ps[i]);
        assert(ps.take(i).push(ps[i]) =~= ps.take(i + 1));
        lemma_params(s, ps, i + 1, fuel);
    } else {
        assert(ps.take(i) =~= ps);
    }
}

proof fn lemma_option(s: MonoState, t: Option<HirTypeV>, fuel: nat)
    requires
        settled_option(t),
    ensures
        m_opt_type(s, t, Seq::empty(), Seq::empty(), Seq::empty(), fuel) == (
            s,
            Ok::<Option<HirTypeV>, MplangErrorV>(t),
        ),
{
    if let Some(u) = t {
        lemma_type(s, u, fuel);
    }
}

proof fn lemma_targs(s: MonoState, tf: Seq<TypeOrConstV>, i: int, fuel: nat)
    requires
        0 <= i <= tf.len(),
        settled_args(tf),
    ensures
        m_targs(s, tf, outer_scope(), i, tf.take(i), fuel) == (
            s,
            Ok::<Seq<TypeOrConstV>, MplangErrorV>(tf),
        ),
    decreases tf.len() - i,
{
    if i < tf.len() {
        if let TypeOrConstV::Type(t) = tf[i] {
            lemma_type(s, t, fuel);
        }
        assert(!(tf[i] is ConstParam));
        assert(tf.take(i).push(tf[i]) =~= tf.take(i + 1));
        lemma_targs(s, tf, i + 1, fuel);
    } else {
        assert(tf.take(i) =~= tf);
    }
}

proof fn lemma_bindings(s: MonoState, bs: Seq<(DefId, Option<HirTypeV>)>, i: int, fuel: nat)
    requires
        0 <= i <= bs.len(),
        forall|j: int| 0 <= j < bs.len() ==> settled_option((#[trigger] bs[j]).1),
    ensures
        m_bindings(s, bs, outer_scope(), i, bs.take(i), fuel) == (
            s,
            Ok::<Seq<(DefId, Option<HirTypeV>)>, MplangErrorV>(bs),
        ),
    decreases bs.len() - i,
{
    if i < bs.len() {
        lemma_option(s, bs[i].1, fuel);
        assert(bs.take(i).push((bs[i].0, bs[i].1)) =~= bs.take(i + 1));
        lemma_bindings(s, bs, i + 1, fuel);
    } else {
        assert(bs.take(i) =~= bs);
    }
}

proof fn lemma_pattern(s: MonoState, p: TyHirPatternV, fuel: nat)
    requires
        settled_pattern(p),
    ensures
        m_pattern(s, p, outer_scope(), fuel) == (s, Ok::<TyHirPatternV, MplangErrorV>(p)),
{
    reveal(m_pattern);
    if let TyHirPatternV::Variant { bindings, .. } = p {
        assert(bindings.take(0) =~= Seq::<(DefId, Option<HirTypeV>)>::empty());
        lemma_bindings(s, bindings, 0, fuel);
    }
}

proof fn lemma_header(
    s: MonoState,
    params: Seq<TyHirParamV>,
    return_ty: HirTypeV,
    impl_receiver: Option<HirTypeV>,
    fuel: nat,
)
    requires
        settled_params(params),
        settled(return_ty),
        settled_option(impl_receiver),
    ensures
        m_header(s, params, return_ty, impl_receiver, outer_scope(), fuel) == (
            s,
            Ok::<Header, MplangErrorV>((params, return_ty, impl_receiver)),
        ),
{
    reveal(m_header);
    assert(params.take(0) =~= Seq::<TyHirParamV>::empty());
    lemma_params(s, params, 0, fuel);
    lemma_type(s, return_ty, fuel);
    lemma_option(s, impl_receiver, fuel);
}

// Expressions and statements

proof fn lemma_expr(s: MonoState, e: TyHirExprV, fuel: nat)
    requires
        s.fns == empty_state(0).fns,
        settled_expr(e),
    ensures
        m_expr(s, e, outer_scope(), fuel) == (s, Ok::<TyHirExprV, MplangErrorV>(e)),
    decreases e, 1int,
{
    lemma_type(s, e.ty, fuel);
    lemma_kind(s, e, fuel);
}

proof fn lemma_kind(s: MonoState, e: TyHirExprV, fuel: nat)
    requires
        s.fns == empty_state(0).fns,
        settled_expr(e),
    ensures
        m_kind(s, e.kind, e.ty, outer_scope(), fuel) == (s, Ok::<TyHirExprV, MplangErrorV>(e)),
    decreases e, 0int,
{
    let none = Seq::<TyHirExprV>::empty();
    match e.kind {
        TyHirExprKindV::Literal(_) => {},
        TyHirExprKindV::Path(_) => {},
        TyHirExprKindV::Binary { lhs, rhs, .. } => {
            lemma_expr(s, *lhs, fuel);
            lemma_expr(s, *rhs, fuel);
        },
        TyHirExprKindV::Call { callee, args, turbofish } => {
            assert(args.take(0) =~= none);
            lemma_exprs(s, args, 0, fuel);
            lemma_type(s, e.ty, fuel);
            assert(turbofish =~= Seq::empty());
        },
        TyHirExprKindV::FieldAccess { object, .. } => {
            lemma_expr(s, *object, fuel);
        },
        TyHirExprKindV::StructLiteral { fields, turbofish, .. } => {
            assert(fields.take(0) =~= Seq::<(DefId, TyHirExprV)>::empty());
            lemma_inits(s, fields, 0, fuel);
            assert(turbofish =~= Seq::empty());
        },
        TyHirExprKindV::ArrayLiteral { elements, .. } => {
            assert(elements.take(0) =~= none);
            lemma_exprs(s, elements, 0, fuel);
        },
        TyHirExprKindV::Index { array, index } => {
            lemma_expr(s, *array, fuel);
            lemma_expr(s, *index, fuel);
        },
        TyHirExprKindV::AddressOf(x) => {
            lemma_expr(s, *x, fuel);
        },
        TyHirExprKindV::Deref(x) => {
            lemma_expr(s, *x, fuel);
        },
        TyHirExprKindV::Variant { args, turbofish, .. } => {
            assert(args.take(0) =~= none);
            lemma_exprs(s, args, 0, fuel);
            assert(turbofish.take(0) =~= Seq::<TypeOrConstV>::empty());
            lemma_targs(s, turbofish, 0, fuel);
        },
        TyHirExprKindV::Match { scrutinee, arms } => {
            lemma_expr(s, *scrutinee, fuel);
            assert(arms.take(0) =~= Seq::<TyHirMatchArmV>::empty());
            lemma_arms(s, arms, 0, fuel);
        },
        TyHirExprKindV::TraitCast { value, .. } => {
            lemma_expr(s, *value, fuel);
        },
        TyHirExprKindV::DynamicMethodCall { receiver, args, .. } => {
            lemma_expr(s, *receiver, fuel);
            assert(args.take(0) =~= none);
            lemma_exprs(s, args, 0, fuel);
        },
    }
}

proof fn lemma_exprs(s: MonoState, es: Seq<TyHirExprV>, i: int, fuel: nat)
    requires
        0 <= i <= es.len(),
        s.fns == empty_state(0).fns,
        forall|j: int| 0 <= j < es.len() ==> settled_expr(#[trigger] es[j]),
    ensures
        m_exprs(s, es, outer_scope(), i, es.take(i), fuel) == (
            s,
            Ok::<Seq<TyHirExprV>, MplangErrorV>(es),
        ),
    decreases es, es.len() - i,
{
    if i < es.len() {
        lemma_expr(s, es[i], fuel);
        assert(es.take(i).push(es[i]) =~= es.take(i + 1));
        lemma_exprs(s, es, i + 1, fuel);
    } else {
        assert(es.take(i) =~= es);
    }
}

proof fn lemma_inits(s: MonoState, fs: Seq<(DefId, TyHirExprV)>, i: int, fuel: nat)
    requires
        0 <= i <= fs.len(),
        s.fns == empty_state(0).fns,
        forall|j: int| 0 <= j < fs.len() ==> settled_expr((#[trigger] fs[j]).1),
    ensures
        m_inits(s, fs, outer_scope(), i, fs.take(i), fuel) == (
            s,
            Ok::<Seq<(DefId, TyHirExprV)>, MplangErrorV>(fs),
        ),
    decreases fs, fs.len() - i,
{
    if i < fs.len() {
        lemma_expr(s, fs[i].1, fuel);
        assert(fs.take(i).push((fs[i].0, fs[i].1)) =~= fs.take(i + 1));
        lemma_inits(s, fs, i + 1, fuel);
    } else {
        assert(fs.take(i) =~= fs);
    }
}

proof fn lemma_arms(s: MonoState, arms: Seq<TyHirMatchArmV>, i: int, fuel: nat)
    requires
        0 <= i <= arms.len(),
        s.fns == empty_state(0).fns,
        forall|j: int| 0 <= j < arms.len() ==> settled_pattern((#[trigger] arms[j]).pattern) && settled_stmts(arms[j].body.stmts),
    ensures
        m_arms(s, arms, outer_scope(), i, arms.take(i), fuel) == (
            s,
            Ok::<Seq<TyHirMatchArmV>, MplangErrorV>(arms),
        ),
    decreases arms, arms.len() - i,
{
    if i < arms.len() {
        lemma_pattern(s, arms[i].pattern, fuel);
        assert(arms[i].body.stmts.take(0) =~= Seq::<TyHirStmtV>::empty());
        lemma_stmts(s, arms[i].body.stmts, 0, fuel);
        let arm = TyHirMatchArmV { pattern: arms[i].pattern, body: TyHirBodyV { stmts: arms[i].body.stmts } };
        assert(arm == arms[i]);
        assert(arms.take(i).push(arm) =~= arms.take(i + 1));
        lemma_arms(s, arms, i + 1, fuel);
    } else {
        assert(arms.take(i) =~= arms);
    }
}

proof fn lemma_stmt(s: MonoState, st: TyHirStmtV, fuel: nat)
    requires
        s.fns == empty_state(0).fns,
        settled_stmt(st),
    ensures
        m_stmt(s, st, outer_scope(), fuel) == (s, Ok::<TyHirStmtV, MplangErrorV>(st)),
    decreases st, 0int,
{
    let none = Seq::<TyHirStmtV>::empty();
    match st {
        TyHirStmtV::Let { ty, init, .. } => {
            lemma_type(s, ty, fuel);
            lemma_expr(s, init, fuel);
        },
        TyHirStmtV::Assign { target, value } => {
            lemma_expr(s, target, fuel);
            lemma_expr(s, value, fuel);
        },
        TyHirStmtV::Expr(e) => {
            lemma_expr(s, e, fuel);
        },
        TyHirStmtV::If { cond, then_branch, else_branch } => {
            lemma_expr(s, cond, fuel);
            assert(then_branch.stmts.take(0) =~= none);
            lemma_stmts(s, then_branch.stmts, 0, fuel);
            if let Some(other) = else_branch {
                assert(other.stmts.take(0) =~= none);
                lemma_stmts(s, other.stmts, 0, fuel);
            }
        },
        TyHirStmtV::While { cond, body } => {
            lemma_expr(s, cond, fuel);
            assert(body.stmts.take(0) =~= none);
            lemma_stmts(s, body.stmts, 0, fuel);
        },
        TyHirStmtV::Return(value) => {
            if let Some(e) = value {
                lemma_expr(s, e, fuel);
            }
        },
    }
}

proof fn lemma_stmts(s: MonoState, stmts: Seq<TyHirStmtV>, i: int, fuel: nat)
    requires
        0 <= i <= stmts.len(),
        s.fns == empty_state(0).fns,
        settled_stmts(stmts),
    ensures
        m_stmts(s, stmts, outer_scope(), i, stmts.take(i), fuel) == (s, Ok::<Seq<TyHirStmtV>, MplangErrorV>(stmts)),
    decreases stmts, stmts.len() - i,
{
    if i < stmts.len() {
        lemma_stmt(s, stmts[i], fuel);
        assert(stmts.take(i).push(stmts[i]) =~= stmts.take(i + 1));
        lemma_stmts(s, stmts, i + 1, fuel);
    } else {
        assert(stmts.take(i) =~= stmts);
    }
}

// Items

proof fn lemma_variants(s: MonoState, vs: Seq<TyHirEnumVariantV>, i: int, fuel: nat)
    requires
        0 <= i <= vs.len(),
        forall|j: int| 0 <= j < vs.len() ==> settled_fields((#[trigger] vs[j]).fields),
    ensures
        m_variants(s, vs, i, vs.take(i), fuel) == (
            s,
            Ok::<Seq<TyHirEnumVariantV>, MplangErrorV>(vs),
        ),
    decreases vs.len() - i,
{
    if i < vs.len() {
        lemma_members(s, vs[i].fields, fuel);
        assert(TyHirEnumVariantV { fields: vs[i].fields, ..vs[i] } == vs[i]);
        assert(vs.take(i).push(vs[i]) =~= vs.take(i + 1));
        lemma_variants(s, vs, i + 1, fuel);
    } else {
        assert(vs.take(i) =~= vs);
    }
}

proof fn lemma_item(s: MonoState, item: TyHirItemV, fuel: nat)
    requires
        s.fns == empty_state(0).fns,
        settled_item(item),
    ensures
        m_item(s, item, fuel) == (s, Ok::<TyHirItemV, MplangErrorV>(item)),
    decreases item, 0int,
{
    match item {
        TyHirItemV::Module(m) => {
            assert(m.items.take(0) =~= Seq::<TyHirItemV>::empty());
            lemma_items(s, m.items, 0, fuel);
            assert(TyHirModuleV { items: m.items, ..m } == m);
        },
        TyHirItemV::Fn { generics, params, return_ty, body, impl_receiver, .. } => {
            lemma_header(s, params, return_ty, impl_receiver, fuel);
            assert(body.stmts.take(0) =~= Seq::<TyHirStmtV>::empty());
            lemma_stmts(s, body.stmts, 0, fuel);
            assert(generics =~= Seq::empty());
        },
        TyHirItemV::Static { ty, init, .. } => {
            lemma_type(s, ty, fuel);
            lemma_expr(s, init, fuel);
        },
        TyHirItemV::Struct { fields, .. } => {
            lemma_members(s, fields, fuel);
        },
        TyHirItemV::ExternFn { param_types, return_ty, .. } => {
            assert(param_types.take(0) =~= Seq::<HirTypeV>::empty());
            lemma_types(s, param_types, 0, fuel);
            lemma_type(s, return_ty, fuel);
        },
        TyHirItemV::Enum { generics, variants, .. } => {
            if generics.len() == 0 {
                assert(variants.take(0) =~= Seq::<TyHirEnumVariantV>::empty());
                lemma_variants(s, variants, 0, fuel);
            }
        },
        TyHirItemV::VTable { .. } => {},
    }
}

proof fn lemma_items(s: MonoState, items: Seq<TyHirItemV>, i: int, fuel: nat)
    requires
        0 <= i <= items.len(),
        s.fns == empty_state(0).fns,
        forall|j: int| 0 <= j < items.len() ==> settled_item(#[trigger] items[j]),
    ensures
        m_items(s, items, i, items.take(i), fuel) == (
            s,
            Ok::<Seq<TyHirItemV>, MplangErrorV>(items),
        ),
    decreases items, items.len() - i,
{
    if i < items.len() {
        assert(settled_item(items[i]));
        lemma_item(s, items[i], fuel);
        assert(items.take(i).push(items[i]) =~= items.take(i + 1));
        lemma_items(s, items, i + 1, fuel);
    } else {
        assert(items.take(i) =~= items);
    }
}

proof fn lemma_collect(s: MonoState, items: Seq<TyHirItemV>, i: int)
    requires
        forall|j: int| 0 <= j < items.len() ==> settled_item(#[trigger] items[j]),
    ensures
        m_collect(s, items, i).fns == s.fns,
        m_collect(s, items, i).out == s.out,
    decreases items, items.len() - i,
{
    if 0 <= i < items.len() {
        assert(settled_item(items[i]));
        match items[i] {
            TyHirItemV::Struct { def_id, generics, fields, .. } => {
                lemma_collect(
                    MonoState { structs: s.structs.insert(def_id, crate::monomorphize::template::StructTemplateV { generics, fields }), ..s },
                    items,
                    i + 1,
                );
            },
            TyHirItemV::Module(m) => {
                lemma_collect(s, m.items, 0);
                lemma_collect(m_collect(s, m.items, 0), items, i + 1);
            },
            _ => {
                lemma_collect(s, items, i + 1);
            },
        }
    }
}

/// A program that uses nothing generic stays as it is.
pub proof fn law_settled_program_is_kept(unit: TyHirCompilationUnitV, fuel: nat)
    requires
        unit_max(unit) < u32::MAX,
        forall|j: int| 0 <= j < unit.root_module.items.len() ==> settled_item(
            #[trigger] unit.root_module.items[j],
        ),
    ensures
        expanded(unit, fuel) == Ok::<TyHirCompilationUnitV, MplangErrorV>(unit),
{
    let items = unit.root_module.items;
    let s = empty_state((unit_max(unit) + 1) as u32);
    lemma_collect(s, items, 0);
    assert(items.take(0) =~= Seq::<TyHirItemV>::empty());
    lemma_items(m_collect(s, items, 0), items, 0, fuel);
    assert(items + s.out =~= items);
    assert(TyHirModuleV { items, ..unit.root_module } == unit.root_module);
}

/// Expansion is done once and for all: an expanded program, expanded again,
/// stays as it is.
pub proof fn law_expanded_once(unit: TyHirCompilationUnitV, fuel: nat, more: nat)
    requires
        expanded(unit, fuel) is Ok,
        unit_max(expanded(unit, fuel)->Ok_0) < u32::MAX,
    ensures
        expanded(expanded(unit, fuel)->Ok_0, more) == expanded(unit, fuel),
{
    law_expanded_is_settled(unit, fuel);
    law_settled_program_is_kept(expanded(unit, fuel)->Ok_0, more);
}

} // verus!

