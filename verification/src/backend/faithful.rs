//! What the code of a condition decides.

use crate::backend::laid::{
    adds, if_code, lemma_if_blocks, lemma_quiet, lemma_while_blocks, while_code,
};
use crate::backend::performs::{lemma_idle, lemma_tested};
use crate::backend::runs::{
    agrees, calm, fair, goes_on, holds, key_of, lemma_part, lemma_then, lemma_value, Setting,
};
use crate::backend::whole::lemma_expr;
use crate::compiler::code::StepV;
use crate::compiler::meaning::{advance, gone_to, run, value, Machine, Run};
use crate::compiler::rules::{g_if_end, g_stmt, g_while_end, FnScope, GenState};
use crate::hir::{DefId, HirTypeV};
use crate::tyhir::TyHirStmtV;
use vstd::prelude::*;

verus! {

/// A machine that comes to the code of an `if` goes to the block of the first branch if the
/// value of the condition is not zero, and to that of the second one if it is zero; the
/// values of the variables are as they were. The code of each branch stands in its block.
pub proof fn law_condition_chooses(
    x: Setting,
    s: GenState,
    st: TyHirStmtV,
    c: FnScope,
    vars: Map<DefId, int>,
    m: Machine,
) -> (r: (nat, Machine))
    requires
        fair(x),
        st is If,
        g_stmt(x.env, s, st, c).1 is Ok,
        goes_on(x.code, if_code(x.env, s, st, c).then_start.steps),
        agrees(s.vars, vars, m, s.steps.len() as int),
        value(st->If_cond, vars, x.calls) is Some,
        m.at == s.steps.len(),
    ensures
        ({
            let k = if_code(x.env, s, st, c);
            let first = k.test.steps.len() as int;
            &&& run(x.code, x.calls, m, r.0) == Run::Going(r.1)
            &&& calm(m, r.1, s.steps.len() as int)
            &&& value(st->If_cond, vars, x.calls)->0 != 0 ==> advance(x.code, x.calls, r.1) == gone_to(x.code, r.1, first)
            &&& value(st->If_cond, vars, x.calls)->0 == 0 ==> advance(x.code, x.calls, r.1) == gone_to(x.code, r.1, first + 1)
            &&& k.then_start.steps.last() == StepV::SwitchTo(first as usize)
            &&& k.else_start.steps.last() == StepV::SwitchTo((first + 1) as usize)
            &&& g_stmt(x.env, s, st, c).0.steps == g_if_end(k.else_end, first as usize, k.else_last).0.steps
        }),
{
    let k = if_code(x.env, s, st, c);
    let at = k.test.steps.len() as int;
    let t = k.then_start.steps;
    lemma_expr(x.env, s, st->If_cond, HirTypeV::Int, x.plan, x.texts);
    lemma_quiet(s, k.cond);
    assert(k.test.steps.len() == k.cond.steps.len() + 2);
    assert(t.len() == at + 6);
    lemma_if_blocks(k.test, k.tested);
    assert(adds(k.cond.steps, t) && adds(k.test.steps, t));
    lemma_part(x.code, k.cond.steps, t);
    lemma_part(x.code, k.test.steps, t);
    let r1 = lemma_value(x, s, st->If_cond, HirTypeV::Int, vars, m);
    let m2 = lemma_tested(x, k.cond, k.value, r1.1);
    lemma_then(x.code, x.calls, m, r1.0, r1.1, 2);
    assert forall|i: int| at <= i < at + 6 implies #[trigger] x.code[i] == t[i] by {}
    lemma_idle(x.code, x.calls, m, r1.0 + 2, m2, 4);
    let m3 = Machine { at: at + 4, ..m2 };
    assert(x.code[at + 4] == StepV::Branch(k.tested, at as usize, (at + 1) as usize));
    (r1.0 + 6, m3)
}

/// A machine at the test of a loop goes to the block of the body if the value of the
/// condition is not zero, and to the block behind the loop if it is zero; the values of the
/// variables are as they were. The body, which stands in its block, ends with a jump to the
/// test.
pub proof fn law_condition_repeats(
    x: Setting,
    s: GenState,
    st: TyHirStmtV,
    c: FnScope,
    vars: Map<DefId, int>,
    m: Machine,
) -> (r: (nat, Machine))
    requires
        fair(x),
        st is While,
        g_stmt(x.env, s, st, c).1 is Ok,
        goes_on(x.code, while_code(x.env, s, st, c).body_start.steps),
        agrees(s.vars, vars, m, s.steps.len() as int),
        value(st->While_cond, vars, x.calls) is Some,
        m.at == while_code(x.env, s, st, c).head.steps.len(),
    ensures
        ({
            let k = while_code(x.env, s, st, c);
            let at = s.steps.len() as int;
            &&& run(x.code, x.calls, m, r.0) == Run::Going(r.1)
            &&& calm(m, r.1, at)
            &&& value(st->While_cond, vars, x.calls)->0 != 0 ==> advance(x.code, x.calls, r.1) == gone_to(x.code, r.1, at + 1)
            &&& value(st->While_cond, vars, x.calls)->0 == 0 ==> advance(x.code, x.calls, r.1) == gone_to(x.code, r.1, at + 2)
            &&& k.head.steps.last() == StepV::SwitchTo(at as usize)
            &&& k.body_start.steps.last() == StepV::SwitchTo((at + 1) as usize)
            &&& g_stmt(x.env, s, st, c).0.steps == g_while_end(k.body_end, at as usize).0.steps
            &&& g_stmt(x.env, s, st, c).0.steps[k.body_end.steps.len() as int] == StepV::Jump(at as usize, None)
        }),
{
    let k = while_code(x.env, s, st, c);
    let at = s.steps.len() as int;
    let t = k.body_start.steps;
    lemma_expr(x.env, k.head, st->While_cond, HirTypeV::Int, x.plan, x.texts);
    lemma_quiet(k.head, k.cond);
    assert(k.head.steps.len() == at + 5);
    assert(k.test.steps.len() == k.cond.steps.len() + 2);
    assert(t.len() == k.test.steps.len() + 2);
    lemma_while_blocks(s);
    assert(adds(k.cond.steps, t) && adds(k.test.steps, t));
    lemma_part(x.code, k.cond.steps, t);
    lemma_part(x.code, k.test.steps, t);
    assert forall|d: DefId| #[trigger] vars.dom().contains(d) implies s.vars.dom().contains(d) && holds(s.vars[d], m, vars[d]) && key_of(s.vars[d]) < at + 5 by {}
    let r1 = lemma_value(x, k.head, st->While_cond, HirTypeV::Int, vars, m);
    let m2 = lemma_tested(x, k.cond, k.value, r1.1);
    lemma_then(x.code, x.calls, m, r1.0, r1.1, 2);
    let q = k.test.steps.len() as int;
    assert(x.code[q] == t[q]);
    assert(x.code[q] == StepV::Branch(k.tested, (at + 1) as usize, (at + 2) as usize));
    (r1.0 + 2, m2)
}

} // verus!
