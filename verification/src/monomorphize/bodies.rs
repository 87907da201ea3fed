//! The body of an instance does what the body of its template does.

use crate::ast::{GenericParamKind, GenericParamV, LiteralV};
use crate::hir::{DefId, HirTypeV, ParamKind, TypeOrConstV};
use crate::monomorphize::rules::{
    const_args_in, const_of, const_params, m_arms, m_bindings, m_call, m_expr, m_exprs, m_infer,
    m_inits, m_instance_call, m_kind, m_opt_type, m_pattern, m_plain_call, m_stmt, m_stmts,
    m_targs, m_type, MonoScope, MonoState,
};
use crate::table::lookup;
use crate::tycheck::rules::count_kind;
use crate::tyhir::{
    TyHirBodyV, TyHirExprKindV, TyHirExprV, TyHirMatchArmV, TyHirParamV, TyHirPatternV, TyHirStmtV,
};
use vstd::prelude::*;

verus! {

/// `x` says what `e` says where the constant parameters have these values: the same
/// operators, literals, variables and fields, on operands that say the same, in the same
/// order. The function that a call is of may be an instance.
pub open spec fn expands(values: Map<DefId, i64>, e: TyHirExprV, x: TyHirExprV) -> bool
    decreases e, 1int,
{
    kind_expands(values, e.kind, x.kind)
}

/// What [`expands`] says, of the kinds of two expressions.
pub open spec fn kind_expands(
    values: Map<DefId, i64>,
    e: TyHirExprKindV,
    x: TyHirExprKindV,
) -> bool
    decreases e, 0int,
{
    match e {
        TyHirExprKindV::Literal(l) => x == TyHirExprKindV::Literal(l),
        TyHirExprKindV::Path(d) => match lookup(values, d) {
            Some(v) => x == TyHirExprKindV::Literal(LiteralV::Int(v)),
            None => x == TyHirExprKindV::Path(d),
        },
        TyHirExprKindV::Binary { op, lhs, rhs } => {
            &&& x matches TyHirExprKindV::Binary { op: o, lhs: l, rhs: r }
            &&& o == op
            &&& expands(values, *lhs, *l)
            &&& expands(values, *rhs, *r)
        },
        TyHirExprKindV::Call { args, .. } => {
            &&& x matches TyHirExprKindV::Call { args: a, .. }
            &&& a.len() == args.len()
            &&& all_expand(values, args, a, 0)
        },
        TyHirExprKindV::FieldAccess { object, field } => {
            &&& x matches TyHirExprKindV::FieldAccess { object: o, field: f }
            &&& f == field
            &&& expands(values, *object, *o)
        },
        TyHirExprKindV::StructLiteral { fields, .. } => {
            &&& x matches TyHirExprKindV::StructLiteral { fields: fs, .. }
            &&& fs.len() == fields.len()
            &&& inits_expand(values, fields, fs, 0)
        },
        TyHirExprKindV::ArrayLiteral { elements, repeat } => {
            &&& x matches TyHirExprKindV::ArrayLiteral { elements: es, repeat: r }
            &&& r == repeat
            &&& es.len() == elements.len()
            &&& all_expand(values, elements, es, 0)
        },
        TyHirExprKindV::Index { array, index } => {
            &&& x matches TyHirExprKindV::Index { array: a, index: i }
            &&& expands(values, *array, *a)
            &&& expands(values, *index, *i)
        },
        TyHirExprKindV::AddressOf(inner) => x matches TyHirExprKindV::AddressOf(i) && expands(values, *inner, *i),
        TyHirExprKindV::Deref(inner) => x matches TyHirExprKindV::Deref(i) && expands(values, *inner, *i),
        TyHirExprKindV::Variant { def_id, variant, args, .. } => {
            &&& x matches TyHirExprKindV::Variant { def_id: d, variant: v, args: a, .. }
            &&& d == def_id
            &&& v == variant
            &&& a.len() == args.len()
            &&& all_expand(values, args, a, 0)
        },
        TyHirExprKindV::Match { scrutinee, arms } => {
            &&& x matches TyHirExprKindV::Match { scrutinee: v, arms: a }
            &&& expands(values, *scrutinee, *v)
            &&& a.len() == arms.len()
            &&& arms_expand(values, arms, a, 0)
        },
        TyHirExprKindV::TraitCast { value, trait_def } => {
            &&& x matches TyHirExprKindV::TraitCast { value: v, trait_def: d }
            &&& d == trait_def
            &&& expands(values, *value, *v)
        },
        TyHirExprKindV::DynamicMethodCall { trait_def, method_index, receiver, args } => {
            &&& x matches TyHirExprKindV::DynamicMethodCall { trait_def: d, method_index: n, receiver: r, args: a }
            &&& d == trait_def
            &&& n == method_index
            &&& expands(values, *receiver, *r)
            &&& a.len() == args.len()
            &&& all_expand(values, args, a, 0)
        },
    }
}

/// The expressions from `i` on say the same, one by one.
pub open spec fn all_expand(
    values: Map<DefId, i64>,
    es: Seq<TyHirExprV>,
    xs: Seq<TyHirExprV>,
    i: int,
) -> bool
    decreases es, es.len() - i,
{
    i < 0 || i >= es.len() || (expands(values, es[i], xs[i]) && all_expand(values, es, xs, i + 1))
}

/// The values for fields from `i` on are for the same fields and say the same.
pub open spec fn inits_expand(
    values: Map<DefId, i64>,
    fs: Seq<(DefId, TyHirExprV)>,
    xs: Seq<(DefId, TyHirExprV)>,
    i: int,
) -> bool
    decreases fs, fs.len() - i,
{
    i < 0 || i >= fs.len() || (fs[i].0 == xs[i].0 && expands(values, fs[i].1, xs[i].1) && inits_expand(values, fs, xs, i + 1))
}

/// A pattern that matches the same values and binds the same variables.
pub open spec fn pattern_expands(p: TyHirPatternV, q: TyHirPatternV) -> bool {
    match p {
        TyHirPatternV::Variant { enum_def, variant, bindings } => {
            &&& q matches TyHirPatternV::Variant { enum_def: d, variant: v, bindings: b }
            &&& d == enum_def
            &&& v == variant
            &&& b.len() == bindings.len()
            &&& forall|j: int| 0 <= j < b.len() ==> (#[trigger] b[j]).0 == bindings[j].0
        },
        _ => q == p,
    }
}

/// The arms from `i` on say the same.
pub open spec fn arms_expand(
    values: Map<DefId, i64>,
    arms: Seq<TyHirMatchArmV>,
    xs: Seq<TyHirMatchArmV>,
    i: int,
) -> bool
    decreases arms, arms.len() - i,
{
    i < 0 || i >= arms.len() || (pattern_expands(arms[i].pattern, xs[i].pattern) && xs[i].body.stmts.len() == arms[i].body.stmts.len() && stmts_expand(values, arms[i].body.stmts, xs[i].body.stmts, 0) && arms_expand(values, arms, xs, i + 1))
}

/// `x` does what `st` does where the constant parameters have these values.
pub open spec fn stmt_expands(values: Map<DefId, i64>, st: TyHirStmtV, x: TyHirStmtV) -> bool
    decreases st, 0int,
{
    match st {
        TyHirStmtV::Let { def_id, name, init, .. } => {
            &&& x matches TyHirStmtV::Let { def_id: d, name: n, init: v, .. }
            &&& d == def_id
            &&& n == name
            &&& expands(values, init, v)
        },
        TyHirStmtV::Assign { target, value } => {
            &&& x matches TyHirStmtV::Assign { target: t, value: v }
            &&& expands(values, target, t)
            &&& expands(values, value, v)
        },
        TyHirStmtV::Expr(e) => x matches TyHirStmtV::Expr(v) && expands(values, e, v),
        TyHirStmtV::If { cond, then_branch, else_branch } => {
            &&& x matches TyHirStmtV::If { cond: c, then_branch: a, else_branch: b }
            &&& expands(values, cond, c)
            &&& a.stmts.len() == then_branch.stmts.len()
            &&& stmts_expand(values, then_branch.stmts, a.stmts, 0)
            &&& match else_branch {
                Some(other) => b is Some && b->0.stmts.len() == other.stmts.len() && stmts_expand(values, other.stmts, b->0.stmts, 0),
                None => b is None,
            }
        },
        TyHirStmtV::While { cond, body } => {
            &&& x matches TyHirStmtV::While { cond: c, body: b }
            &&& expands(values, cond, c)
            &&& b.stmts.len() == body.stmts.len()
            &&& stmts_expand(values, body.stmts, b.stmts, 0)
        },
        TyHirStmtV::Return(value) => match value {
            Some(e) => x matches TyHirStmtV::Return(v) && v is Some && expands(values, e, v->0),
            None => x == TyHirStmtV::Return(None),
        },
    }
}

/// The statements from `i` on do the same, one by one.
pub open spec fn stmts_expand(
    values: Map<DefId, i64>,
    stmts: Seq<TyHirStmtV>,
    xs: Seq<TyHirStmtV>,
    i: int,
) -> bool
    decreases stmts, stmts.len() - i,
{
    i < 0 || i >= stmts.len() || (stmt_expands(values, stmts[i], xs[i]) && stmts_expand(values, stmts, xs, i + 1))
}

// Proofs

/// `out` begins with `done` and has `n` parts.
spec fn continues<T>(out: Seq<T>, done: Seq<T>, n: nat) -> bool {
    &&& out.len() == n
    &&& done.len() <= n
    &&& forall|j: int| 0 <= j < done.len() ==> #[trigger] out[j] == done[j]
}

proof fn lemma_continues<T>(out: Seq<T>, done: Seq<T>, x: T, n: nat)
    requires
        continues(out, done.push(x), n),
    ensures
        continues(out, done, n),
        out[done.len() as int] == x,
{
    assert(out[done.len() as int] == done.push(x)[done.len() as int]);
    assert forall|j: int| 0 <= j < done.len() implies #[trigger] out[j] == done[j] by {
        assert(out[j] == done.push(x)[j]);
    }
}

/// A call keeps its arguments.
proof fn lemma_call(
    s: MonoState,
    callee: DefId,
    args: Seq<TyHirExprV>,
    tf: Seq<TypeOrConstV>,
    ret: HirTypeV,
    c: MonoScope,
    fuel: nat,
)
    requires
        m_call(s, callee, args, tf, ret, c, fuel).1 is Ok,
    ensures
        m_call(s, callee, args, tf, ret, c, fuel).1->Ok_0.kind matches TyHirExprKindV::Call { args: a, .. } && a == args,
{
    match lookup(s.fns, callee) {
        Some(t) => {
            let g = m_targs(s, tf, c, 0, Seq::empty(), fuel);
            let a = m_infer(g.0.origins, t, args, g.1->Ok_0)->Ok_0;
            let ca = const_args_in(c, a.1, 0, Seq::empty())->Ok_0;
            assert(m_instance_call(g.0, callee, t, a.0, ca, args, ret, fuel).1 is Ok);
        },
        None => {
            assert(m_plain_call(s, callee, args, ret, c, fuel).1 is Ok);
        },
    }
}

proof fn lemma_expr(s: MonoState, e: TyHirExprV, c: MonoScope, fuel: nat)
    requires
        m_expr(s, e, c, fuel).1 is Ok,
    ensures
        expands(c.values, e, m_expr(s, e, c, fuel).1->Ok_0),
    decreases e, 1int,
{
    let t = m_type(s, e.ty, c.generics, c.types, c.consts, fuel);
    lemma_kind(t.0, e.kind, t.1->Ok_0, c, fuel);
}

proof fn lemma_kind(s: MonoState, k: TyHirExprKindV, ty: HirTypeV, c: MonoScope, fuel: nat)
    requires
        m_kind(s, k, ty, c, fuel).1 is Ok,
    ensures
        kind_expands(c.values, k, m_kind(s, k, ty, c, fuel).1->Ok_0.kind),
    decreases k, 0int,
{
    match k {
        TyHirExprKindV::Literal(_) => {},
        TyHirExprKindV::Path(_) => {},
        TyHirExprKindV::Binary { lhs, rhs, .. } => {
            lemma_expr(s, *lhs, c, fuel);
            lemma_expr(m_expr(s, *lhs, c, fuel).0, *rhs, c, fuel);
        },
        TyHirExprKindV::Call { callee, args, turbofish } => {
            lemma_exprs(s, args, c, 0, Seq::empty(), fuel);
            let a = m_exprs(s, args, c, 0, Seq::empty(), fuel);
            lemma_call(a.0, callee, a.1->Ok_0, turbofish, ty, c, fuel);
        },
        TyHirExprKindV::FieldAccess { object, .. } => {
            lemma_expr(s, *object, c, fuel);
        },
        TyHirExprKindV::StructLiteral { fields, .. } => {
            lemma_inits(s, fields, c, 0, Seq::empty(), fuel);
        },
        TyHirExprKindV::ArrayLiteral { elements, .. } => {
            lemma_exprs(s, elements, c, 0, Seq::empty(), fuel);
        },
        TyHirExprKindV::Index { array, index } => {
            lemma_expr(s, *array, c, fuel);
            lemma_expr(m_expr(s, *array, c, fuel).0, *index, c, fuel);
        },
        TyHirExprKindV::AddressOf(inner) => {
            lemma_expr(s, *inner, c, fuel);
        },
        TyHirExprKindV::Deref(inner) => {
            lemma_expr(s, *inner, c, fuel);
        },
        TyHirExprKindV::Variant { args, .. } => {
            lemma_exprs(s, args, c, 0, Seq::empty(), fuel);
        },
        TyHirExprKindV::Match { scrutinee, arms } => {
            lemma_expr(s, *scrutinee, c, fuel);
            lemma_arms(m_expr(s, *scrutinee, c, fuel).0, arms, c, 0, Seq::empty(), fuel);
        },
        TyHirExprKindV::TraitCast { value, .. } => {
            lemma_expr(s, *value, c, fuel);
        },
        TyHirExprKindV::DynamicMethodCall { receiver, args, .. } => {
            lemma_expr(s, *receiver, c, fuel);
            lemma_exprs(m_expr(s, *receiver, c, fuel).0, args, c, 0, Seq::empty(), fuel);
        },
    }
}

proof fn lemma_exprs(
    s: MonoState,
    es: Seq<TyHirExprV>,
    c: MonoScope,
    i: int,
    done: Seq<TyHirExprV>,
    fuel: nat,
)
    requires
        0 <= i <= es.len(),
        done.len() == i,
        m_exprs(s, es, c, i, done, fuel).1 is Ok,
    ensures
        continues(m_exprs(s, es, c, i, done, fuel).1->Ok_0, done, es.len()),
        all_expand(c.values, es, m_exprs(s, es, c, i, done, fuel).1->Ok_0, i),
    decreases es, es.len() - i,
{
    if i < es.len() {
        lemma_expr(s, es[i], c, fuel);
        let x = m_expr(s, es[i], c, fuel).1->Ok_0;
        lemma_exprs(m_expr(s, es[i], c, fuel).0, es, c, i + 1, done.push(x), fuel);
        lemma_continues(m_exprs(s, es, c, i, done, fuel).1->Ok_0, done, x, es.len());
    }
}

proof fn lemma_inits(
    s: MonoState,
    fs: Seq<(DefId, TyHirExprV)>,
    c: MonoScope,
    i: int,
    done: Seq<(DefId, TyHirExprV)>,
    fuel: nat,
)
    requires
        0 <= i <= fs.len(),
        done.len() == i,
        m_inits(s, fs, c, i, done, fuel).1 is Ok,
    ensures
        continues(m_inits(s, fs, c, i, done, fuel).1->Ok_0, done, fs.len()),
        inits_expand(c.values, fs, m_inits(s, fs, c, i, done, fuel).1->Ok_0, i),
    decreases fs, fs.len() - i,
{
    if i < fs.len() {
        lemma_expr(s, fs[i].1, c, fuel);
        let x = (fs[i].0, m_expr(s, fs[i].1, c, fuel).1->Ok_0);
        lemma_inits(m_expr(s, fs[i].1, c, fuel).0, fs, c, i + 1, done.push(x), fuel);
        lemma_continues(m_inits(s, fs, c, i, done, fuel).1->Ok_0, done, x, fs.len());
    }
}

proof fn lemma_bindings(
    s: MonoState,
    bs: Seq<(DefId, Option<HirTypeV>)>,
    c: MonoScope,
    i: int,
    done: Seq<(DefId, Option<HirTypeV>)>,
    fuel: nat,
)
    requires
        0 <= i <= bs.len(),
        done.len() == i,
        forall|j: int| 0 <= j < i ==> (#[trigger] done[j]).0 == bs[j].0,
        m_bindings(s, bs, c, i, done, fuel).1 is Ok,
    ensures
        m_bindings(s, bs, c, i, done, fuel).1->Ok_0.len() == bs.len(),
        forall|j: int| 0 <= j < bs.len() ==> (#[trigger] m_bindings(s, bs, c, i, done, fuel).1->Ok_0[j]).0 == bs[j].0,
    decreases bs.len() - i,
{
    if i < bs.len() {
        let t = m_opt_type(s, bs[i].1, c.generics, c.types, c.consts, fuel);
        lemma_bindings(t.0, bs, c, i + 1, done.push((bs[i].0, t.1->Ok_0)), fuel);
    }
}

proof fn lemma_arms(
    s: MonoState,
    arms: Seq<TyHirMatchArmV>,
    c: MonoScope,
    i: int,
    done: Seq<TyHirMatchArmV>,
    fuel: nat,
)
    requires
        0 <= i <= arms.len(),
        done.len() == i,
        m_arms(s, arms, c, i, done, fuel).1 is Ok,
    ensures
        continues(m_arms(s, arms, c, i, done, fuel).1->Ok_0, done, arms.len()),
        arms_expand(c.values, arms, m_arms(s, arms, c, i, done, fuel).1->Ok_0, i),
    decreases arms, arms.len() - i,
{
    if i < arms.len() {
        let p = m_pattern(s, arms[i].pattern, c, fuel);
        assert(pattern_expands(arms[i].pattern, p.1->Ok_0)) by {
            reveal(m_pattern);
            if let TyHirPatternV::Variant { bindings, .. } = arms[i].pattern {
                lemma_bindings(s, bindings, c, 0, Seq::empty(), fuel);
            }
        }
        lemma_stmts(p.0, arms[i].body.stmts, c, 0, Seq::empty(), fuel);
        let b = m_stmts(p.0, arms[i].body.stmts, c, 0, Seq::empty(), fuel);
        let x = TyHirMatchArmV { pattern: p.1->Ok_0, body: TyHirBodyV { stmts: b.1->Ok_0 } };
        lemma_arms(b.0, arms, c, i + 1, done.push(x), fuel);
        lemma_continues(m_arms(s, arms, c, i, done, fuel).1->Ok_0, done, x, arms.len());
    }
}

proof fn lemma_stmt(s: MonoState, st: TyHirStmtV, c: MonoScope, fuel: nat)
    requires
        m_stmt(s, st, c, fuel).1 is Ok,
    ensures
        stmt_expands(c.values, st, m_stmt(s, st, c, fuel).1->Ok_0),
    decreases st, 0int,
{
    match st {
        TyHirStmtV::Let { ty, init, .. } => {
            let t = m_type(s, ty, c.generics, c.types, c.consts, fuel);
            lemma_expr(t.0, init, c, fuel);
        },
        TyHirStmtV::Assign { target, value } => {
            lemma_expr(s, target, c, fuel);
            lemma_expr(m_expr(s, target, c, fuel).0, value, c, fuel);
        },
        TyHirStmtV::Expr(e) => {
            lemma_expr(s, e, c, fuel);
        },
        TyHirStmtV::If { cond, then_branch, else_branch } => {
            lemma_expr(s, cond, c, fuel);
            let s1 = m_expr(s, cond, c, fuel).0;
            lemma_stmts(s1, then_branch.stmts, c, 0, Seq::empty(), fuel);
            if let Some(other) = else_branch {
                lemma_stmts(m_stmts(s1, then_branch.stmts, c, 0, Seq::empty(), fuel).0, other.stmts, c, 0, Seq::empty(), fuel);
            }
        },
        TyHirStmtV::While { cond, body } => {
            lemma_expr(s, cond, c, fuel);
            lemma_stmts(m_expr(s, cond, c, fuel).0, body.stmts, c, 0, Seq::empty(), fuel);
        },
        TyHirStmtV::Return(value) => {
            if let Some(e) = value {
                lemma_expr(s, e, c, fuel);
            }
        },
    }
}

/// Expanded statements do what the statements do.
pub proof fn lemma_stmts(
    s: MonoState,
    stmts: Seq<TyHirStmtV>,
    c: MonoScope,
    i: int,
    done: Seq<TyHirStmtV>,
    fuel: nat,
)
    requires
        0 <= i <= stmts.len(),
        done.len() == i,
        m_stmts(s, stmts, c, i, done, fuel).1 is Ok,
    ensures
        m_stmts(s, stmts, c, i, done, fuel).1->Ok_0.len() == stmts.len(),
        forall|j: int| 0 <= j < i ==> #[trigger] m_stmts(s, stmts, c, i, done, fuel).1->Ok_0[j] == done[j],
        stmts_expand(c.values, stmts, m_stmts(s, stmts, c, i, done, fuel).1->Ok_0, i),
    decreases stmts, stmts.len() - i,
{
    if i < stmts.len() {
        lemma_stmt(s, stmts[i], c, fuel);
        let x = m_stmt(s, stmts[i], c, fuel).1->Ok_0;
        lemma_stmts(m_stmt(s, stmts[i], c, fuel).0, stmts, c, i + 1, done.push(x), fuel);
        let out = m_stmts(s, stmts, c, i, done, fuel).1->Ok_0;
        assert forall|j: int| 0 <= j < i implies #[trigger] out[j] == done[j] by {
            assert(out[j] == done.push(x)[j]);
        }
        assert(out[i] == done.push(x)[i]);
    }
}

// Constants

/// Parameter `i` is the last one with its number.
pub open spec fn last_of(ps: Seq<TyHirParamV>, i: int) -> bool {
    forall|j: int| i < j < ps.len() ==> (#[trigger] ps[j]).def_id != ps[i].def_id
}

/// The values of the constant parameters: each has the constant that was given for its
/// generic parameter, where the constants stand in the order of the generic parameters
/// that take constants.
pub open spec fn given(
    values: Map<DefId, i64>,
    ps: Seq<TyHirParamV>,
    gs: Seq<GenericParamV>,
    cs: Seq<i64>,
) -> bool {
    &&& forall|d: DefId| #[trigger] values.dom().contains(d) ==> exists|i: int| 0 <= i < ps.len() && (#[trigger] ps[i]).kind is ConstParam && ps[i].def_id == d
    &&& forall|i: int| 0 <= i < ps.len() ==> ((#[trigger] ps[i]).kind matches ParamKind::ConstParam(k) ==> values.dom().contains(ps[i].def_id) && (last_of(ps, i) ==> values[ps[i].def_id] == cs[count_kind(gs, GenericParamKind::Const, k as int) as int]))
}

/// What [`given`] says, where the first `i` parameters were looked at.
spec fn given_up_to(
    values: Map<DefId, i64>,
    ps: Seq<TyHirParamV>,
    gs: Seq<GenericParamV>,
    cs: Seq<i64>,
    i: int,
) -> bool {
    &&& forall|d: DefId| #[trigger] values.dom().contains(d) ==> exists|j: int| 0 <= j < i && (#[trigger] ps[j]).kind is ConstParam && ps[j].def_id == d
    &&& forall|j: int| 0 <= j < i ==> ((#[trigger] ps[j]).kind matches ParamKind::ConstParam(k) ==> values.dom().contains(ps[j].def_id) && (last_of(ps, j) ==> values[ps[j].def_id] == cs[count_kind(gs, GenericParamKind::Const, k as int) as int]))
}

proof fn lemma_given(
    ps: Seq<TyHirParamV>,
    gs: Seq<GenericParamV>,
    cs: Seq<i64>,
    i: int,
    values: Map<DefId, i64>,
)
    requires
        0 <= i <= ps.len(),
        given_up_to(values, ps, gs, cs, i),
        const_params(ps, gs, cs, i, values) is Ok,
    ensures
        given_up_to(const_params(ps, gs, cs, i, values)->Ok_0, ps, gs, cs, ps.len() as int),
    decreases ps.len() - i,
{
    if i < ps.len() {
        match ps[i].kind {
            ParamKind::ConstParam(k) => {
                let v = const_of(gs, cs, k)->Ok_0;
                let next = values.insert(ps[i].def_id, v);
                assert forall|d: DefId| #[trigger] next.dom().contains(d) implies exists|j: int| 0 <= j < i + 1 && (#[trigger] ps[j]).kind is ConstParam && ps[j].def_id == d by {
                    if d == ps[i].def_id {
                        assert(ps[i].kind is ConstParam);
                    } else {
                        assert(values.dom().contains(d));
                    }
                }
                lemma_given(ps, gs, cs, i + 1, next);
            },
            _ => {
                assert forall|d: DefId| #[trigger] values.dom().contains(d) implies exists|j: int| 0 <= j < i + 1 && (#[trigger] ps[j]).kind is ConstParam && ps[j].def_id == d by {}
                lemma_given(ps, gs, cs, i + 1, values);
            },
        }
    }
}

/// The constants of an instance are those that were given.
pub proof fn lemma_constants(ps: Seq<TyHirParamV>, gs: Seq<GenericParamV>, cs: Seq<i64>)
    requires
        const_params(ps, gs, cs, 0, Map::empty()) is Ok,
    ensures
        given(const_params(ps, gs, cs, 0, Map::empty())->Ok_0, ps, gs, cs),
{
    lemma_given(ps, gs, cs, 0, Map::empty());
}

/// The body of an instance does what the body of the template does where the constant
/// parameters have the constants that were given.
pub open spec fn body_from(
    ps: Seq<TyHirParamV>,
    gs: Seq<GenericParamV>,
    stmts: Seq<TyHirStmtV>,
    cs: Seq<i64>,
    made: Seq<TyHirStmtV>,
) -> bool {
    &&& made.len() == stmts.len()
    &&& exists|values: Map<DefId, i64>| #[trigger] given(values, ps, gs, cs) && stmts_expand(values, stmts, made, 0)
}

} // verus!
