//! How the code of a branch and of a loop is laid out.

use crate::backend::whole::quiet;
use crate::compiler::code::StepV;
use crate::compiler::rules::{
    g_block, g_else, g_expr, g_if_blocks, g_if_else, g_test, g_while_blocks, g_while_body,
    next_step, FnScope, GenEnv, GenState,
};
use crate::hir::HirTypeV;
use crate::tyhir::TyHirStmtV;
use vstd::prelude::*;

verus! {

/// What was there stays; steps were added behind it.
pub open spec fn adds(a: Seq<StepV>, b: Seq<StepV>) -> bool {
    &&& a.len() <= b.len()
    &&& forall|i: int| 0 <= i < a.len() ==> #[trigger] b[i] == a[i]
}

/// The code of an expression stands behind what was there.
pub proof fn lemma_quiet(s: GenState, t: GenState)
    requires
        quiet(s, t),
    ensures
        adds(s.steps, t.steps),
{
    reveal(quiet);
}

/// The steps between a condition and the first branch.
pub proof fn lemma_if_blocks(s: GenState, test: usize)
    requires
        s.steps.len() + 6 <= usize::MAX,
    ensures
        g_if_blocks(s, test).steps == s.steps + seq![
            StepV::CreateBlock,
            StepV::CreateBlock,
            StepV::CreateBlock,
            StepV::AddPointerParam((s.steps.len() + 2) as usize),
            StepV::Branch(test, s.steps.len() as usize, (s.steps.len() + 1) as usize),
            StepV::SwitchTo(s.steps.len() as usize),
        ],
{
    let at = s.steps.len() as usize;
    assert(g_if_blocks(s, test).steps =~= s.steps.push(StepV::CreateBlock).push(StepV::CreateBlock).push(StepV::CreateBlock).push(StepV::AddPointerParam((at + 2) as usize)).push(StepV::Branch(test, at, (at + 1) as usize)).push(StepV::SwitchTo(at)));
}

/// The steps between what stands before a loop and its condition.
pub proof fn lemma_while_blocks(s: GenState)
    requires
        s.steps.len() + 5 <= usize::MAX,
    ensures
        g_while_blocks(s).steps == s.steps + seq![
            StepV::CreateBlock,
            StepV::CreateBlock,
            StepV::CreateBlock,
            StepV::Jump(s.steps.len() as usize, None),
            StepV::SwitchTo(s.steps.len() as usize),
        ],
{
    let at = s.steps.len() as usize;
    assert(g_while_blocks(s).steps =~= s.steps.push(StepV::CreateBlock).push(StepV::CreateBlock).push(StepV::CreateBlock).push(StepV::Jump(at, None)).push(StepV::SwitchTo(at)));
}

/// The code of an `if` on its way.
pub struct IfCode {
    pub cond: GenState,
    pub test: GenState,
    pub then_start: GenState,
    pub then_end: GenState,
    pub else_start: GenState,
    pub else_end: GenState,
    pub value: usize,
    pub tested: usize,
    pub then_last: usize,
    pub else_last: usize,
}

/// The parts of the code of an `if`.
pub open spec fn if_code(env: GenEnv, s: GenState, st: TyHirStmtV, c: FnScope) -> IfCode
    recommends
        st is If,
{
    let a = g_expr(env, s, st->If_cond, HirTypeV::Int);
    let t = g_test(a.0, a.1->Ok_0);
    let then_start = g_if_blocks(t.0, t.1);
    let b = g_block(env, then_start, st->then_branch.stmts, c);
    let else_start = GenState { vars: s.vars, ..g_if_else(b.0, next_step(t.0), b.1->Ok_0) };
    let d = g_else(env, else_start, st->else_branch, c);
    IfCode {
        cond: a.0,
        test: t.0,
        then_start,
        then_end: b.0,
        else_start,
        else_end: d.0,
        value: a.1->Ok_0,
        tested: t.1,
        then_last: b.1->Ok_0,
        else_last: d.1->Ok_0,
    }
}

/// The code of a `while` on its way.
pub struct WhileCode {
    pub head: GenState,
    pub cond: GenState,
    pub test: GenState,
    pub body_start: GenState,
    pub body_end: GenState,
    pub value: usize,
    pub tested: usize,
}

/// The parts of the code of a `while`.
pub open spec fn while_code(env: GenEnv, s: GenState, st: TyHirStmtV, c: FnScope) -> WhileCode
    recommends
        st is While,
{
    let head = g_while_blocks(s);
    let a = g_expr(env, head, st->While_cond, HirTypeV::Int);
    let t = g_test(a.0, a.1->Ok_0);
    let body_start = g_while_body(a.0, next_step(s), a.1->Ok_0);
    let b = g_block(env, body_start, st->While_body.stmts, c);
    WhileCode {
        head,
        cond: a.0,
        test: t.0,
        body_start,
        body_end: b.0,
        value: a.1->Ok_0,
        tested: t.1,
    }
}

} // verus!
