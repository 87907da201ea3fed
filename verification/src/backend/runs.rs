//! Code computes the values of the expressions that it was made from.

use crate::ast::BinOp;
use crate::backend::laid::adds;
use crate::backend::plan::Plan;
use crate::backend::whole::{lemma_expr, linked};
use crate::compiler::code::{FuncInfoV, LocalVarV, StepV};
use crate::compiler::meaning::{
    advance, applied, run, value, values, values_at, Calls, Machine, Run,
};
use crate::compiler::rules::{
    arg_type, g_args, g_callee, g_copy, g_expr, g_finish_call, g_literal, g_local, g_operator,
    g_path, g_result_room, is_aggregate, operand_type, GenEnv, GenState,
};
use crate::hir::{DefId, HirTypeV};
use crate::tyhir::{TyHirExprKindV, TyHirExprV};
use vstd::prelude::*;

verus! {

// Settings

/// What a piece of code runs in.
pub struct Setting {
    pub env: GenEnv,
    pub plan: Plan,
    /// How many string literals are linked.
    pub texts: nat,
    /// The code of the whole function.
    pub code: Seq<StepV>,
    pub calls: Calls,
}

/// A function takes and returns values that are handled by themselves.
pub open spec fn by_value(f: FuncInfoV) -> bool {
    &&& !is_aggregate(f.ret_ty)
    &&& forall|i: int| 0 <= i < f.param_types.len() ==> !is_aggregate(#[trigger] f.param_types[i])
}

/// Something is said only of calls of functions that take and return values by
/// themselves; what has no result returns zero.
pub open spec fn fair_calls(env: GenEnv, f: Calls) -> bool {
    forall|d: DefId, vs: Seq<int>| (#[trigger] f(d, vs)) is Some && env.funcs.dom().contains(d) ==> by_value(env.funcs[d]) && (env.funcs[d].ret_ty is Unit ==> f(d, vs) == Some(0int))
}

pub open spec fn fair(x: Setting) -> bool {
    &&& linked(x.env, x.plan, x.texts)
    &&& x.texts <= usize::MAX
    &&& x.code.len() <= usize::MAX
    &&& fair_calls(x.env, x.calls)
}

/// The code of the function goes on from this piece.
pub open spec fn goes_on(code: Seq<StepV>, a: Seq<StepV>) -> bool {
    &&& a.len() <= code.len()
    &&& forall|i: int| 0 <= i < a.len() ==> #[trigger] code[i] == a[i]
}

pub proof fn lemma_part(code: Seq<StepV>, a: Seq<StepV>, b: Seq<StepV>)
    requires
        adds(a, b),
        goes_on(code, b),
    ensures
        goes_on(code, a),
{
    assert forall|i: int| 0 <= i < a.len() implies #[trigger] code[i] == a[i] by {
        assert(b[i] == a[i]);
    }
}

// Variables

/// Where a variable is kept.
pub open spec fn key_of(info: LocalVarV) -> int {
    match info.slot {
        Some(k) => k as int,
        None => info.var->0 as int,
    }
}

/// A variable that is kept where `info` says holds `v`.
pub open spec fn holds(info: LocalVarV, m: Machine, v: int) -> bool {
    &&& !is_aggregate(info.ty)
    &&& match info.slot {
        Some(k) => m.slots[k as int] == v,
        None => info.var is Some && m.vars[info.var->0 as int] == v,
    }
}

/// The machine holds the values of the variables, each in a place of its own
/// among the first `bound` steps.
pub open spec fn agrees(
    places: Map<DefId, LocalVarV>,
    vars: Map<DefId, int>,
    m: Machine,
    bound: int,
) -> bool {
    &&& forall|d: DefId| #[trigger] vars.dom().contains(d) ==> places.dom().contains(d) && holds(places[d], m, vars[d]) && key_of(places[d]) < bound
    &&& forall|d: DefId, g: DefId| #[trigger] vars.dom().contains(d) && #[trigger] vars.dom().contains(g) && d != g ==> key_of(places[d]) != key_of(places[g])
}

/// The values of earlier steps are still there.
pub open spec fn keeps(m: Machine, r: Machine, n: int) -> bool {
    forall|i: int| 0 <= i < n ==> #[trigger] r.vals[i] == m.vals[i]
}

/// Nothing changed but the values of new steps.
pub open spec fn calm(m: Machine, r: Machine, n: int) -> bool {
    &&& keeps(m, r, n)
    &&& r.vars == m.vars
    &&& r.slots == m.slots
    &&& r.params == m.params
}

// Runs

/// Two runs, one behind the other.
pub proof fn lemma_then(code: Seq<StepV>, f: Calls, m: Machine, a: nat, r: Machine, b: nat)
    requires
        run(code, f, m, a) == Run::Going(r),
    ensures
        run(code, f, m, a + b) == run(code, f, r, b),
    decreases a,
{
    if a > 0 {
        if let Run::Going(next) = advance(code, f, m) {
            lemma_then(code, f, next, (a - 1) as nat, r, b);
        }
    }
}

/// One step more.
pub proof fn lemma_more(code: Seq<StepV>, f: Calls, m: Machine, a: nat, r: Machine)
    requires
        run(code, f, m, a) == Run::Going(r),
    ensures
        run(code, f, m, a + 1) == advance(code, f, r),
{
    lemma_then(code, f, m, a, r, 1);
    assert(run(code, f, r, 1) == advance(code, f, r)) by {
        reveal_with_fuel(run, 2);
    }
}

/// Nothing has to be done.
pub proof fn lemma_none(code: Seq<StepV>, f: Calls, m: Machine)
    ensures
        run(code, f, m, 0) == Run::Going(m),
{
}

// Expressions

/// The code of an expression between `s` and `t` makes its value `v` at step `at`.
pub open spec fn computes(
    x: Setting,
    m: Machine,
    s: GenState,
    t: GenState,
    at: usize,
    v: int,
    n: nat,
    r: Machine,
) -> bool {
    &&& run(x.code, x.calls, m, n) == Run::Going(r)
    &&& r.at == t.steps.len()
    &&& calm(m, r, s.steps.len() as int)
    &&& at < t.steps.len()
    &&& r.vals[at as int] == v
    &&& t.vars == s.vars
    &&& s.steps.len() <= t.steps.len()
}

proof fn lemma_path(x: Setting, s: GenState, d: DefId, want: HirTypeV, vars: Map<DefId, int>, m: Machine) -> (r: (nat, Machine))
    requires
        fair(x),
        g_path(x.env, s, d, want).1 is Ok,
        goes_on(x.code, g_path(x.env, s, d, want).0.steps),
        agrees(s.vars, vars, m, s.steps.len() as int),
        vars.dom().contains(d),
        m.at == s.steps.len(),
    ensures
        computes(x, m, s, g_path(x.env, s, d, want).0, g_path(x.env, s, d, want).1->Ok_0, vars[d], r.0, r.1),
{
    reveal(g_path);
    let t = g_path(x.env, s, d, want).0;
    let info = s.vars[d];
    let p = s.steps.len() as int;
    lemma_none(x.code, x.calls, m);
    lemma_more(x.code, x.calls, m, 0, m);
    assert(g_path(x.env, s, d, want) == g_local(x.env, s, info));
    match info.slot {
        Some(k) => {
            assert(x.code[p] == t.steps[p]);
            assert(x.code[p + 1] == t.steps[p + 1]);
            let m1 = Machine { at: p + 1, points: m.points.insert(p, k as int), ..m };
            assert(advance(x.code, x.calls, m) == Run::Going(m1));
            lemma_more(x.code, x.calls, m, 1, m1);
            let r = Machine { at: p + 2, vals: m1.vals.insert(p + 1, m1.slots[k as int]), ..m1 };
            assert(advance(x.code, x.calls, m1) == Run::Going(r));
            (2, r)
        },
        None => {
            assert(x.code[p] == t.steps[p]);
            let r = Machine { at: p + 1, vals: m.vals.insert(p, m.vars[info.var->0 as int]), ..m };
            assert(advance(x.code, x.calls, m) == Run::Going(r));
            (1, r)
        },
    }
}

proof fn lemma_operator(x: Setting, s: GenState, op: BinOp, l: usize, h: usize, a: int, b: int, m: Machine) -> (r: (nat, Machine))
    requires
        fair(x),
        goes_on(x.code, g_operator(s, op, l, h).0.steps),
        l < s.steps.len(),
        h < s.steps.len(),
        m.vals[l as int] == a,
        m.vals[h as int] == b,
        applied(op, a, b) is Some,
        m.at == s.steps.len(),
    ensures
        computes(x, m, s, g_operator(s, op, l, h).0, g_operator(s, op, l, h).1, applied(op, a, b)->0, r.0, r.1),
{
    let t = g_operator(s, op, l, h).0;
    let p = s.steps.len() as int;
    assert(x.code[p] == t.steps[p]);
    lemma_none(x.code, x.calls, m);
    lemma_more(x.code, x.calls, m, 0, m);
    match op {
        BinOp::Add | BinOp::Sub | BinOp::Mul | BinOp::Div => {
            let r = Machine { at: p + 1, vals: m.vals.insert(p, applied(op, a, b)->0), ..m };
            assert(advance(x.code, x.calls, m) == Run::Going(r));
            (1, r)
        },
        _ => {
            assert(x.code[p + 1] == t.steps[p + 1]);
            let m1 = Machine { at: p + 1, vals: m.vals.insert(p, applied(op, a, b)->0), ..m };
            assert(advance(x.code, x.calls, m) == Run::Going(m1));
            lemma_more(x.code, x.calls, m, 1, m1);
            let r = Machine { at: p + 2, vals: m1.vals.insert(p + 1, applied(op, a, b)->0), ..m1 };
            assert(advance(x.code, x.calls, m1) == Run::Going(r));
            (2, r)
        },
    }
}

/// Running the code of an expression makes the value that the expression has.
pub proof fn lemma_value(x: Setting, s: GenState, e: TyHirExprV, want: HirTypeV, vars: Map<DefId, int>, m: Machine) -> (r: (nat, Machine))
    requires
        fair(x),
        g_expr(x.env, s, e, want).1 is Ok,
        goes_on(x.code, g_expr(x.env, s, e, want).0.steps),
        agrees(s.vars, vars, m, s.steps.len() as int),
        value(e, vars, x.calls) is Some,
        m.at == s.steps.len(),
    ensures
        computes(x, m, s, g_expr(x.env, s, e, want).0, g_expr(x.env, s, e, want).1->Ok_0, value(e, vars, x.calls)->0, r.0, r.1),
    decreases e, 1int,
{
    let t = g_expr(x.env, s, e, want).0;
    let p = s.steps.len() as int;
    lemma_none(x.code, x.calls, m);
    match e.kind {
        TyHirExprKindV::Literal(l) => {
            reveal(g_literal);
            assert(x.code[p] == t.steps[p]);
            lemma_more(x.code, x.calls, m, 0, m);
            let r = Machine { at: p + 1, vals: m.vals.insert(p, value(e, vars, x.calls)->0), ..m };
            assert(advance(x.code, x.calls, m) == Run::Going(r));
            (1, r)
        },
        TyHirExprKindV::Path(d) => {
            lemma_path(x, s, d, want, vars, m)
        },
        TyHirExprKindV::Binary { op, lhs, rhs } => {
            let a = g_expr(x.env, s, *lhs, operand_type(op, lhs.ty));
            let b = g_expr(x.env, a.0, *rhs, operand_type(op, rhs.ty));
            lemma_expr(x.env, s, *lhs, operand_type(op, lhs.ty), x.plan, x.texts);
            lemma_expr(x.env, a.0, *rhs, operand_type(op, rhs.ty), x.plan, x.texts);
            crate::backend::laid::lemma_quiet(s, a.0);
            crate::backend::laid::lemma_quiet(a.0, b.0);
            lemma_operator_part(x.code, b.0, op, a.1->Ok_0, b.1->Ok_0);
            lemma_part(x.code, a.0.steps, b.0.steps);
            let r1 = lemma_value(x, s, *lhs, operand_type(op, lhs.ty), vars, m);
            assert(agrees(a.0.vars, vars, r1.1, a.0.steps.len() as int));
            let r2 = lemma_value(x, a.0, *rhs, operand_type(op, rhs.ty), vars, r1.1);
            let u = value(*lhs, vars, x.calls)->0;
            let w = value(*rhs, vars, x.calls)->0;
            assert(r2.1.vals[a.1->Ok_0 as int] == u);
            let r3 = lemma_operator(x, b.0, op, a.1->Ok_0, b.1->Ok_0, u, w, r2.1);
            lemma_then(x.code, x.calls, m, r1.0, r1.1, r2.0);
            lemma_then(x.code, x.calls, m, r1.0 + r2.0, r2.1, r3.0);
            (r1.0 + r2.0 + r3.0, r3.1)
        },
        TyHirExprKindV::Call { callee, args, .. } => {
            lemma_call(x, s, e, want, vars, m)
        },
        _ => (0, m),
    }
}

proof fn lemma_operator_part(code: Seq<StepV>, s: GenState, op: BinOp, l: usize, h: usize)
    requires
        goes_on(code, g_operator(s, op, l, h).0.steps),
    ensures
        goes_on(code, s.steps),
{
    let t = g_operator(s, op, l, h).0.steps;
    assert forall|i: int| 0 <= i < s.steps.len() implies #[trigger] code[i] == s.steps[i] by {
        assert(t[i] == s.steps[i]);
    }
}

proof fn lemma_call(x: Setting, s: GenState, e: TyHirExprV, want: HirTypeV, vars: Map<DefId, int>, m: Machine) -> (r: (nat, Machine))
    requires
        fair(x),
        e.kind is Call,
        g_expr(x.env, s, e, want).1 is Ok,
        goes_on(x.code, g_expr(x.env, s, e, want).0.steps),
        agrees(s.vars, vars, m, s.steps.len() as int),
        value(e, vars, x.calls) is Some,
        m.at == s.steps.len(),
    ensures
        computes(x, m, s, g_expr(x.env, s, e, want).0, g_expr(x.env, s, e, want).1->Ok_0, value(e, vars, x.calls)->0, r.0, r.1),
    decreases e, 0int,
{
    let t = g_expr(x.env, s, e, want).0;
    let callee = e.kind->Call_callee;
    let args = e.kind->Call_args;
    let f = g_callee(x.env, callee, args, want)->Ok_0;
    assert(x.env.funcs.dom().contains(callee) && f.0 == x.env.funcs[callee]) by {
        reveal(g_callee);
    }
    let vs = values(args, vars, x.calls, 0)->0;
    assert((x.calls)(callee, vs) is Some);
    assert(by_value(f.0));
    let empty = Seq::<usize>::empty();
    assert(g_result_room(x.env, s, f.0.ret_ty) == (s, Ok::<Seq<usize>, crate::error::MplangErrorV>(empty)));
    let a = g_args(x.env, s, args, f.0.param_types, 0, empty);
    let c = g_finish_call(a.0, callee, f.0, f.1, a.1->Ok_0);
    let q = a.0.steps.len() as int;
    assert(t == c.0);
    assert(goes_on(x.code, a.0.steps)) by {
        assert forall|i: int| 0 <= i < a.0.steps.len() implies #[trigger] x.code[i] == a.0.steps[i] by {
            assert(t.steps[i] == a.0.steps[i]);
        }
    }
    let none = Seq::<int>::empty();
    assert(values_at(m, empty) =~= none);
    let r1 = lemma_values(x, s, args, f.0.param_types, 0, empty, vars, none, m);
    assert(none + vs =~= vs);
    assert(x.code[q] == t.steps[q]);
    let m1 = r1.1;
    lemma_more(x.code, x.calls, m, r1.0, m1);
    let v = value(e, vars, x.calls)->0;
    let m2 = Machine { at: q + 1, vals: m1.vals.insert(q, v), ..m1 };
    assert(advance(x.code, x.calls, m1) == Run::Going(m2));
    if f.0.ret_ty is Unit {
        assert(x.code[q + 1] == t.steps[q + 1]);
        lemma_more(x.code, x.calls, m, r1.0 + 1, m2);
        let m3 = Machine { at: q + 2, vals: m2.vals.insert(q + 1, 0), ..m2 };
        assert(advance(x.code, x.calls, m2) == Run::Going(m3));
        (r1.0 + 2, m3)
    } else {
        (r1.0 + 1, m2)
    }
}

/// Running the code of arguments from `i` on makes their values, behind those made
/// before.
proof fn lemma_values(x: Setting, s: GenState, es: Seq<TyHirExprV>, ps: Seq<HirTypeV>, i: int, done: Seq<usize>, vars: Map<DefId, int>, before: Seq<int>, m: Machine) -> (r: (nat, Machine))
    requires
        fair(x),
        0 <= i,
        forall|j: int| 0 <= j < ps.len() ==> !is_aggregate(#[trigger] ps[j]),
        g_args(x.env, s, es, ps, i, done).1 is Ok,
        goes_on(x.code, g_args(x.env, s, es, ps, i, done).0.steps),
        agrees(s.vars, vars, m, s.steps.len() as int),
        values(es, vars, x.calls, i) is Some,
        forall|j: int| 0 <= j < done.len() ==> (#[trigger] done[j]) < s.steps.len(),
        values_at(m, done) == before,
        m.at == s.steps.len(),
    ensures
        ({
            let t = g_args(x.env, s, es, ps, i, done);
            &&& run(x.code, x.calls, m, r.0) == Run::Going(r.1)
            &&& r.1.at == t.0.steps.len()
            &&& calm(m, r.1, s.steps.len() as int)
            &&& t.0.vars == s.vars
            &&& s.steps.len() <= t.0.steps.len()
            &&& forall|j: int| 0 <= j < t.1->Ok_0.len() ==> (#[trigger] t.1->Ok_0[j]) < t.0.steps.len()
            &&& values_at(r.1, t.1->Ok_0) == before + values(es, vars, x.calls, i)->0
        }),
    decreases es, es.len() - i,
{
    lemma_none(x.code, x.calls, m);
    if i < es.len() {
        let ty = arg_type(ps, es, i);
        let a = g_expr(x.env, s, es[i], ty);
        let v = a.1->Ok_0;
        assert(!is_aggregate(ty));
        assert(g_copy(x.env, a.0, v, ty) == (a.0, Ok::<usize, crate::error::MplangErrorV>(v)));
        lemma_grown(x, a.0, es, ps, i + 1, done.push(v));
        let r1 = lemma_value(x, s, es[i], ty, vars, m);
        let w = value(es[i], vars, x.calls)->0;
        let rest = values(es, vars, x.calls, i + 1)->0;
        assert(values_at(r1.1, done.push(v)) =~= before.push(w)) by {
            assert forall|j: int| 0 <= j < done.len() implies r1.1.vals[done[j] as int] == before[j] by {
                assert(values_at(m, done)[j] == m.vals[done[j] as int]);
            }
        }
        assert(agrees(a.0.vars, vars, r1.1, a.0.steps.len() as int));
        let r2 = lemma_values(x, a.0, es, ps, i + 1, done.push(v), vars, before.push(w), r1.1);
        lemma_then(x.code, x.calls, m, r1.0, r1.1, r2.0);
        assert(before.push(w) + rest =~= before + (seq![w] + rest));
        (r1.0 + r2.0, r2.1)
    } else {
        assert(before + Seq::<int>::empty() =~= before);
        (0, m)
    }
}

/// The code before the arguments from `i` on is part of the whole.
proof fn lemma_grown(x: Setting, s: GenState, es: Seq<TyHirExprV>, ps: Seq<HirTypeV>, i: int, done: Seq<usize>)
    requires
        fair(x),
        0 <= i,
        forall|j: int| 0 <= j < ps.len() ==> !is_aggregate(#[trigger] ps[j]),
        g_args(x.env, s, es, ps, i, done).1 is Ok,
        goes_on(x.code, g_args(x.env, s, es, ps, i, done).0.steps),
    ensures
        goes_on(x.code, s.steps),
    decreases es.len() - i,
{
    if i < es.len() {
        let ty = arg_type(ps, es, i);
        let a = g_expr(x.env, s, es[i], ty);
        let b = g_copy(x.env, a.0, a.1->Ok_0, ty);
        lemma_expr(x.env, s, es[i], ty, x.plan, x.texts);
        crate::backend::laid::lemma_quiet(s, a.0);
        crate::backend::whole::lemma_copy(x.env, a.0, a.1->Ok_0, ty, x.plan, x.texts);
        crate::backend::laid::lemma_quiet(a.0, b.0);
        lemma_grown(x, b.0, es, ps, i + 1, done.push(b.1->Ok_0));
        lemma_part(x.code, a.0.steps, b.0.steps);
        lemma_part(x.code, s.steps, a.0.steps);
    }
}

} // verus!
