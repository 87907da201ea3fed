//! The code of a function makes a function.

use crate::backend::plan::{
    filling, finished, grown, is_valid, no_progress, roomy, run, touching, value_width,
    variable_width, Made, Plan, Progress,
};
use crate::backend::trace::is_width;
use crate::backend::whole::{
    after, flat, gives, grows, kept, lemma_chain, lemma_copy, lemma_emit, lemma_expr, lemma_placed,
    lemma_same, lemma_step, lemma_write, lens, linked, open_block, placed, prog, quiet, ready,
    run_any, slot, small, val, variable, vars_ok,
};
use crate::compiler::code::{DataRef, IrType, LocalVarV, StepV};
use crate::compiler::rules::{
    emit, g_after_return, g_align, g_assign, g_assign_name, g_bind, g_block, g_copy, g_copy_to,
    g_else, g_entry, g_expr, g_function, g_if_blocks, g_if_else, g_if_end, g_null, g_params,
    g_place, g_return_value, g_set_local, g_size, g_sret, g_stmt, g_stmts, g_test, g_type,
    g_while_blocks, g_while_body, g_while_end, is_aggregate, next_step, taken_stmts, FnScope,
    GenEnv, GenState,
};
use crate::hir::{DefId, HirTypeV};
use crate::table::lookup;
use crate::tyhir::{TyHirBodyV, TyHirExprKindV, TyHirExprV, TyHirParamV, TyHirStmtV};
use vstd::prelude::*;

verus! {

/// Code was added: of the blocks that were there, only the open one may have
/// ended, and of the new ones all have but the one that is open now.
pub open spec fn whole(p: Progress, q: Progress) -> bool {
    &&& kept(p, q)
    &&& p.at is Some && q.at is Some
    &&& q.at == p.at || q.at->0 >= p.made.len()
    &&& q.at != p.at ==> q.filled[p.at->0 as int] && q.sealed[q.at->0 as int]
    &&& forall|i: int| 0 <= i < p.made.len() ==> #[trigger] q.sealed[i] == p.sealed[i]
    &&& forall|i: int| 0 <= i < p.made.len() ==> #[trigger] q.params[i] == p.params[i]
    &&& forall|i: int| 0 <= i < p.made.len() && i != p.at->0 ==> #[trigger] q.filled[i] == p.filled[i]
    &&& forall|i: int| p.made.len() <= i < q.made.len() && #[trigger] q.made[i] == Made::Block && i != q.at->0 ==> q.filled[i] && q.sealed[i]
}

/// Code was added, and more can be added.
#[verifier::opaque]
pub open spec fn moved(s: GenState, t: GenState, e: Plan) -> bool {
    ready(s, e) && ready(t, e) && whole(prog(s, e)->0, prog(t, e)->0)
}

/// Where code can be added and a condition holds, sensible code was added.
pub open spec fn moves(s: GenState, t: GenState, e: Plan, n: nat, c: bool) -> bool {
    grows(s, t) && (ready(s, e) && small(t, n) && c ==> moved(s, t, e))
}

/// Where code can be added and a condition holds, code for a value was added.
pub open spec fn yields(s: GenState, t: GenState, v: usize, e: Plan, n: nat, c: bool) -> bool {
    grows(s, t) && (ready(s, e) && small(t, n) && c ==> moved(s, t, e) && val(t, v, e))
}

/// Where code can be added and a condition holds, code for a value was added to
/// the same block.
pub open spec fn sets(s: GenState, t: GenState, v: usize, e: Plan, n: nat, c: bool) -> bool {
    grows(s, t) && (ready(s, e) && small(t, n) && c ==> after(s, t, e) && val(t, v, e))
}

pub proof fn lemma_after_moved(s: GenState, t: GenState, e: Plan)
    ensures
        after(s, t, e) ==> moved(s, t, e),
{
    reveal(after);
    reveal(ready);
    reveal(moved);
}

pub proof fn lemma_moved(s: GenState, t: GenState, u: GenState, e: Plan)
    ensures
        moved(s, t, e) ==> ready(t, e) && ready(s, e),
        moved(s, t, e) && moved(t, u, e) ==> moved(s, u, e),
        moved(s, t, e) ==> forall|v: usize| val(s, v, e) ==> #[trigger] val(t, v, e),
        moved(s, t, e) ==> forall|v: usize| slot(s, v, e) ==> #[trigger] slot(t, v, e),
        moved(s, t, e) ==> forall|v: usize| variable(s, v, e) ==> #[trigger] variable(t, v, e),
{
    reveal(moved);
    reveal(ready);
    reveal(val);
    reveal(slot);
    reveal(variable);
    if moved(s, t, e) && moved(t, u, e) {
        let p = prog(s, e)->0;
        let q = prog(t, e)->0;
        let r = prog(u, e)->0;
        assert forall|i: int| p.made.len() <= i < r.made.len() && #[trigger] r.made[i] == Made::Block && i != r.at->0 implies r.filled[i] && r.sealed[i] by {
            if i < q.made.len() {
                assert(q.made[i] == Made::Block);
                assert(r.sealed[i] == q.sealed[i]);
                if i != q.at->0 {
                    assert(r.filled[i] == q.filled[i]);
                }
            }
        }
        assert(r.sealed[q.at->0 as int] == q.sealed[q.at->0 as int]);
        assert(whole(p, r));
    }
}

// Local variables

pub proof fn lemma_bind(
    env: GenEnv,
    s: GenState,
    d: DefId,
    t: HirTypeV,
    v: usize,
    taken: bool,
    e: Plan,
    n: nat,
)
    ensures
        g_bind(env, s, d, t, v, taken).1 is Ok ==> moves(
            s,
            g_bind(env, s, d, t, v, taken).0,
            e,
            n,
            val(s, v, e),
        ),
{
    let r = g_bind(env, s, d, t, v, taken).0;
    if taken && !is_aggregate(t) {
        if let Ok(size) = g_size(env, t) {
            if let Ok(align) = g_align(env, t) {
                let a = StepV::CreateSlot(size, align as u8);
                let s1 = emit(s, a);
                let s2 = emit(s1, StepV::SlotAddr(next_step(s)));
                let s3 = emit(s2, StepV::Store(v, next_step(s1)));
                lemma_step(s, a, e, n);
                lemma_step(s1, StepV::SlotAddr(next_step(s)), e, n);
                lemma_step(s2, StepV::Store(v, next_step(s1)), e, n);
                if ready(s, e) && small(r, n) && val(s, v, e) {
                    lemma_chain(s, s1, s2, e);
                    lemma_chain(s1, s2, s3, e);
                    lemma_chain(s, s2, s3, e);
                    lemma_chain(s2, s3, s3, e);
                    lemma_after_moved(s, s3, e);
                    assert(slot(s3, next_step(s), e));
                    assert(moved(s, r, e)) by {
                        reveal(moved);
                        reveal(ready);
                        reveal(slot);
                    }
                }
            }
        }
    } else if let Ok(ir) = g_type(env, t) {
        let s1 = emit(s, StepV::DeclareVar(ir));
        let s2 = emit(s1, StepV::SetVar(next_step(s), v));
        lemma_step(s, StepV::DeclareVar(ir), e, n);
        lemma_step(s1, StepV::SetVar(next_step(s), v), e, n);
        if ready(s, e) && small(r, n) && val(s, v, e) {
            lemma_chain(s, s1, s2, e);
            lemma_chain(s1, s2, s2, e);
            lemma_after_moved(s, s2, e);
            assert(variable(s2, next_step(s), e));
            assert(moved(s, r, e)) by {
                reveal(moved);
                reveal(ready);
                reveal(variable);
            }
        }
    }
}

// Statements without blocks

pub proof fn lemma_null(s: GenState, e: Plan, n: nat)
    ensures
        gives(s, g_null(s).0, g_null(s).1, e, n, true),
{
    lemma_step(s, StepV::Const(IrType::Ptr, 0), e, n);
}

pub proof fn lemma_test(s: GenState, v: usize, e: Plan, n: nat)
    ensures
        gives(s, g_test(s, v).0, g_test(s, v).1, e, n, val(s, v, e)),
{
    let s1 = emit(s, StepV::Const(IrType::I64, 0));
    let st = StepV::Compare(crate::compiler::code::Condition::NotEqual, v, next_step(s));
    lemma_step(s, StepV::Const(IrType::I64, 0), e, n);
    lemma_step(s1, st, e, n);
    lemma_chain(s, s1, emit(s1, st), e);
}

pub proof fn lemma_set_local(env: GenEnv, s: GenState, info: LocalVarV, v: usize, e: Plan, n: nat)
    ensures
        g_set_local(env, s, info, v).1 is Ok ==> sets(
            s,
            g_set_local(env, s, info, v).0,
            g_set_local(env, s, info, v).1->Ok_0,
            e,
            n,
            placed(s, info, e) && val(s, v, e),
        ),
{
    match info.slot {
        Some(x) => {
            let s1 = emit(s, StepV::SlotAddr(x));
            let s2 = emit(s1, StepV::Store(v, next_step(s)));
            lemma_step(s, StepV::SlotAddr(x), e, n);
            lemma_step(s1, StepV::Store(v, next_step(s)), e, n);
            lemma_chain(s, s1, s2, e);
            lemma_chain(s1, s2, s2, e);
        },
        None => {
            if let Some(x) = info.var {
                if info.ty is Named || info.ty is Array {
                    let s1 = emit(s, StepV::GetVar(x));
                    lemma_step(s, StepV::GetVar(x), e, n);
                    lemma_write(env, s1, v, info.ty, next_step(s), e, n);
                    let s2 = g_copy_to(env, s1, v, info.ty, next_step(s), env.depth).0;
                    lemma_chain(s, s1, s2, e);
                    lemma_chain(s1, s2, s2, e);
                } else {
                    lemma_copy(env, s, v, info.ty, e, n);
                    let a = g_copy(env, s, v, info.ty);
                    if let Ok(c) = a.1 {
                        let s2 = emit(a.0, StepV::SetVar(x, c));
                        lemma_step(a.0, StepV::SetVar(x, c), e, n);
                        lemma_chain(s, a.0, s2, e);
                        lemma_chain(a.0, s2, s2, e);
                    }
                }
            }
        },
    }
}

pub proof fn lemma_assign_name(
    env: GenEnv,
    s: GenState,
    d: DefId,
    value: TyHirExprV,
    e: Plan,
    n: nat,
)
    requires
        linked(env, e, n),
        n <= usize::MAX,
    ensures
        g_assign_name(env, s, d, value).1 is Ok ==> sets(
            s,
            g_assign_name(env, s, d, value).0,
            g_assign_name(env, s, d, value).1->Ok_0,
            e,
            n,
            true,
        ),
{
    match lookup(s.vars, d) {
        Some(info) => {
            lemma_expr(env, s, value, info.ty, e, n);
            let a = g_expr(env, s, value, info.ty);
            if let Ok(v) = a.1 {
                lemma_placed(s, d, e);
                lemma_set_local(env, a.0, info, v, e, n);
                lemma_chain(s, a.0, g_set_local(env, a.0, info, v).0, e);
            }
        },
        None => {
            if let Some(t) = lookup(env.data, d) {
                let st = StepV::Symbol(DataRef::Global(d));
                let s0 = emit(s, st);
                lemma_step(s, st, e, n);
                lemma_expr(env, s0, value, t, e, n);
                let a = g_expr(env, s0, value, t);
                if let Ok(v) = a.1 {
                    lemma_write(env, a.0, v, t, next_step(s), e, n);
                    let b = g_copy_to(env, a.0, v, t, next_step(s), env.depth).0;
                    lemma_chain(s, s0, a.0, e);
                    lemma_chain(s0, a.0, b, e);
                    lemma_chain(s, a.0, b, e);
                    lemma_chain(a.0, b, b, e);
                }
            }
        },
    }
}

pub proof fn lemma_assign(
    env: GenEnv,
    s: GenState,
    target: TyHirExprV,
    value: TyHirExprV,
    e: Plan,
    n: nat,
)
    requires
        linked(env, e, n),
        n <= usize::MAX,
    ensures
        g_assign(env, s, target, value).1 is Ok ==> sets(
            s,
            g_assign(env, s, target, value).0,
            g_assign(env, s, target, value).1->Ok_0,
            e,
            n,
            true,
        ),
{
    match target.kind {
        TyHirExprKindV::Path(d) => {
            lemma_assign_name(env, s, d, value, e, n);
        },
        _ => {
            crate::backend::whole::lemma_place(env, s, target, e, n);
            let a = g_place(env, s, target);
            if let Ok(addr) = a.1 {
                lemma_expr(env, a.0, value, target.ty, e, n);
                let b = g_expr(env, a.0, value, target.ty);
                if let Ok(v) = b.1 {
                    lemma_write(env, b.0, v, target.ty, addr, e, n);
                    let c = g_copy_to(env, b.0, v, target.ty, addr, env.depth).0;
                    lemma_chain(s, a.0, b.0, e);
                    lemma_chain(a.0, b.0, c, e);
                    lemma_chain(s, b.0, c, e);
                    lemma_chain(b.0, c, c, e);
                }
            }
        },
    }
}

/// The address for an aggregate result is a value.
pub open spec fn room_ok(s: GenState, c: FnScope, e: Plan) -> bool {
    c.room matches Some(x) ==> val(s, x, e)
}

pub proof fn lemma_return_value(
    env: GenEnv,
    s: GenState,
    value: Option<TyHirExprV>,
    c: FnScope,
    e: Plan,
    n: nat,
)
    requires
        linked(env, e, n),
        n <= usize::MAX,
    ensures
        g_return_value(env, s, value, c).1 is Ok ==> {
            let r = g_return_value(env, s, value, c);
            &&& grows(s, r.0)
            &&& quiet(s, r.0)
            &&& ready(s, e) && small(r.0, n) && room_ok(s, c, e) ==> after(s, r.0, e) && (
                r.1->Ok_0 matches Some(v) ==> val(r.0, v, e)
            )
        },
{
    lemma_same(s, e);
    lemma_null(s, e, n);
    if let Some(x) = value {
        lemma_expr(env, s, x, c.ret, e, n);
        let a = g_expr(env, s, x, c.ret);
        if let Ok(v) = a.1 {
            if let Some(room) = c.room {
                lemma_write(env, a.0, v, c.ret, room, e, n);
                lemma_chain(s, a.0, g_copy_to(env, a.0, v, c.ret, room, env.depth).0, e);
            }
        }
    }
}

// Blocks

/// What follows a return.
pub proof fn lemma_return(s: GenState, v: Option<usize>, e: Plan, n: nat)
    ensures
        yields(
            s,
            g_after_return(emit(s, StepV::Return(v))).0,
            g_after_return(emit(s, StepV::Return(v))).1,
            e,
            n,
            v matches Some(x) ==> val(s, x, e),
        ),
{
    let s1 = emit(s, StepV::Return(v));
    let k = next_step(s1);
    let s2 = emit(s1, StepV::CreateBlock);
    let s3 = emit(s2, StepV::SwitchTo(k));
    let s4 = emit(s3, StepV::Seal(k));
    let t = g_null(s4).0;
    lemma_null(s4, e, n);
    if ready(s, e) && small(t, n) && (v matches Some(x) ==> val(s, x, e)) {
        assert(moved(s, s4, e)) by {
            reveal(moved);
            reveal(ready);
            reveal(val);
            lemma_emit(s, StepV::Return(v), e);
            lemma_emit(s1, StepV::CreateBlock, e);
            lemma_emit(s2, StepV::SwitchTo(k), e);
            lemma_emit(s3, StepV::Seal(k), e);
            let p = prog(s, e)->0;
            let q1 = grown(filling(p), Made::Nothing);
            assert(prog(s1, e) == Some(q1));
            let q2 = grown(q1, Made::Block);
            assert(prog(s2, e) == Some(q2));
            let q3 = grown(touching(Progress { at: Some(k), ..q2 }, k), Made::Nothing);
            assert(prog(s3, e) == Some(q3));
            let q4 = grown(
                touching(Progress { sealed: q3.sealed.update(k as int, true), ..q3 }, k),
                Made::Nothing,
            );
            assert(prog(s4, e) == Some(q4));
            assert(kept(p, q4));
            assert(vars_ok(s4.vars, q4));
            assert(open_block(q4));
            assert(whole(p, q4));
        }
        lemma_moved(s, s4, t, e);
        lemma_after_moved(s4, t, e);
    }
}

/// The first `k` entries: only the open block has ended.
pub open spec fn old_blocks(p: Progress, q: Progress) -> bool {
    &&& kept(p, q)
    &&& p.at is Some && p.at->0 < p.made.len()
    &&& q.filled[p.at->0 as int]
    &&& forall|i: int| 0 <= i < p.made.len() ==> #[trigger] q.sealed[i] == p.sealed[i]
    &&& forall|i: int| 0 <= i < p.made.len() ==> #[trigger] q.params[i] == p.params[i]
    &&& forall|i: int| 0 <= i < p.made.len() && i != p.at->0 ==> #[trigger] q.filled[i] == p.filled[i]
}

/// A block that nothing has been done with.
pub open spec fn blank(q: Progress, b: int) -> bool {
    b < q.made.len() && q.made[b] == Made::Block && !q.filled[b] && !q.sealed[b]
}

/// A block that ends and that can still be jumped to.
pub open spec fn ended(q: Progress, b: int) -> bool {
    b < q.made.len() && q.made[b] == Made::Block && q.filled[b] && !q.sealed[b]
}

/// New blocks from `k` on have ended, and nothing jumps to them any more.
pub open spec fn closed_from(q: Progress, k: int) -> bool {
    forall|i: int| k <= i < q.made.len() && #[trigger] q.made[i] == Made::Block ==> q.filled[i] && q.sealed[i]
}

/// Three new blocks; code goes to the first.
pub open spec fn three(p: Progress, q: Progress) -> bool {
    let k = p.made.len() as int;
    &&& old_blocks(p, q)
    &&& q.at == Some(k as usize)
    &&& blank(q, k)
    &&& blank(q, k + 1)
    &&& blank(q, k + 2)
    &&& closed_from(q, k + 3)
}

/// Three new blocks, of which the first has ended; code goes to the second.
pub open spec fn second(p: Progress, q: Progress) -> bool {
    let k = p.made.len() as int;
    &&& old_blocks(p, q)
    &&& q.at == Some((k + 1) as usize)
    &&& ended(q, k)
    &&& blank(q, k + 1)
    &&& blank(q, k + 2)
    &&& closed_from(q, k + 3)
}

pub proof fn lemma_if_blocks(s: GenState, test: usize, e: Plan, n: nat)
    ensures
        grows(s, g_if_blocks(s, test)),
        ready(s, e) && small(g_if_blocks(s, test), n) && val(s, test, e) ==> {
            let t = g_if_blocks(s, test);
            &&& ready(t, e)
            &&& t.vars == s.vars
            &&& three(prog(s, e)->0, prog(t, e)->0)
            &&& prog(t, e)->0.params[s.steps.len() as int + 2].len() == 1
        },
{
    let k = next_step(s);
    let s1 = emit(s, StepV::CreateBlock);
    let s2 = emit(s1, StepV::CreateBlock);
    let s3 = emit(s2, StepV::CreateBlock);
    let s4 = emit(s3, StepV::AddPointerParam(next_step(s2)));
    let s5 = emit(s4, StepV::Branch(test, k, next_step(s1)));
    let s6 = emit(s5, StepV::SwitchTo(k));
    assert(s6 == g_if_blocks(s, test));
    if ready(s, e) && small(s6, n) && val(s, test, e) {
        reveal(ready);
        reveal(val);
        lemma_emit(s, StepV::CreateBlock, e);
        lemma_emit(s1, StepV::CreateBlock, e);
        lemma_emit(s2, StepV::CreateBlock, e);
        lemma_emit(s3, StepV::AddPointerParam(next_step(s2)), e);
        lemma_emit(s4, StepV::Branch(test, k, next_step(s1)), e);
        lemma_emit(s5, StepV::SwitchTo(k), e);
        let p = prog(s, e)->0;
        let q1 = grown(p, Made::Block);
        let q2 = grown(q1, Made::Block);
        let q3 = grown(q2, Made::Block);
        assert(prog(s3, e) == Some(q3));
        let c = (k + 2) as usize;
        let q4 = grown(
            Progress { params: q3.params.update(c as int, q3.params[c as int].push(e.machine.ptr_bytes)), ..q3 },
            Made::Nothing,
        );
        assert(prog(s4, e) == Some(q4));
        let q5 = grown(touching(touching(filling(q4), k), (k + 1) as usize), Made::Nothing);
        assert(prog(s5, e) == Some(q5));
        let q6 = grown(touching(Progress { at: Some(k), ..q5 }, k), Made::Nothing);
        assert(prog(s6, e) == Some(q6));
        assert(kept(p, q6));
        assert(vars_ok(s6.vars, q6));
    }
}

/// From the first of three blocks to the second.
pub proof fn lemma_if_else(
    p: Progress,
    s: GenState,
    t: GenState,
    last: usize,
    vars: Map<DefId, LocalVarV>,
    e: Plan,
    n: nat,
)
    requires
        p.made.len() + 2 <= usize::MAX,
        ready(s, e) ==> three(p, prog(s, e)->0) && vars_ok(vars, p),
    ensures
        grows(t, g_if_else(t, p.made.len() as usize, last)),
        moved(s, t, e) && val(t, last, e) && small(g_if_else(t, p.made.len() as usize, last), n) ==> {
            let r = GenState { vars, ..g_if_else(t, p.made.len() as usize, last) };
            &&& ready(r, e)
            &&& second(p, prog(r, e)->0)
            &&& prog(r, e)->0.params[p.made.len() as int + 2] == prog(s, e)->0.params[p.made.len() as int + 2]
        },
{
    let k = p.made.len() as usize;
    let c = (k + 2) as usize;
    let b = (k + 1) as usize;
    let s1 = emit(t, StepV::Jump(c, Some(last)));
    let s2 = emit(s1, StepV::SwitchTo(b));
    if moved(s, t, e) && val(t, last, e) && small(s2, n) {
        reveal(moved);
        reveal(ready);
        reveal(val);
        lemma_emit(t, StepV::Jump(c, Some(last)), e);
        lemma_emit(s1, StepV::SwitchTo(b), e);
        let o = prog(s, e)->0;
        let q = prog(t, e)->0;
        assert(blank(q, k + 2) && blank(q, k + 1)) by {
            assert(q.made[k + 1] == o.made[k + 1]);
            assert(q.made[k + 2] == o.made[k + 2]);
            assert(q.filled[k + 1] == o.filled[k + 1]);
            assert(q.filled[k + 2] == o.filled[k + 2]);
            assert(q.sealed[k + 1] == o.sealed[k + 1]);
            assert(q.sealed[k + 2] == o.sealed[k + 2]);
        }
        let q1 = grown(touching(filling(q), c), Made::Nothing);
        assert(prog(s1, e) == Some(q1));
        let q2 = grown(touching(Progress { at: Some(b), ..q1 }, b), Made::Nothing);
        assert(prog(s2, e) == Some(q2));
        assert(kept(p, q2));
        assert(old_blocks(p, q2));
        assert(ended(q2, k as int)) by {
            assert(q.made[k as int] == o.made[k as int]);
            assert(q.sealed[k as int] == o.sealed[k as int]);
        }
        assert(closed_from(q2, k + 3)) by {
            assert forall|i: int| k + 3 <= i < q2.made.len() && #[trigger] q2.made[i] == Made::Block implies q2.filled[i] && q2.sealed[i] by {
                assert(q.made[i] == Made::Block);
                if i < o.made.len() {
                    assert(o.made[i] == Made::Block);
                    assert(q.filled[i] == o.filled[i]);
                    assert(q.sealed[i] == o.sealed[i]);
                }
            }
        }
        assert(vars_ok(vars, q2));
        let r = GenState { vars, ..s2 };
        assert(prog(r, e) == prog(s2, e));
    }
}

/// The end of an `if`.
#[verifier::spinoff_prover]
#[verifier::rlimit(40)]
pub proof fn lemma_if_end(p: Progress, s: GenState, t: GenState, last: usize, e: Plan, n: nat)
    requires
        p.made.len() + 2 <= usize::MAX,
        ready(s, e) ==> second(p, prog(s, e)->0) && prog(s, e)->0.params[p.made.len() as int + 2].len() == 1,
    ensures
        grows(t, g_if_end(t, p.made.len() as usize, last).0),
        moved(s, t, e) && val(t, last, e) && small(g_if_end(t, p.made.len() as usize, last).0, n) ==> {
            let r = g_if_end(t, p.made.len() as usize, last);
            let q = prog(r.0, e);
            &&& val(r.0, r.1, e)
            &&& q is Some
            &&& lens(q->0, r.0.steps.len())
            &&& open_block(q->0)
            &&& whole(p, q->0)
        },
{
    let k = p.made.len() as usize;
    let b = (k + 1) as usize;
    let c = (k + 2) as usize;
    let s1 = emit(t, StepV::Jump(c, Some(last)));
    let s2 = emit(s1, StepV::SwitchTo(c));
    let s3 = emit(s2, StepV::Seal(k));
    let s4 = emit(s3, StepV::Seal(b));
    let s5 = emit(s4, StepV::Seal(c));
    let s6 = emit(s5, StepV::Param(c, 0));
    if moved(s, t, e) && val(t, last, e) && small(s6, n) {
        reveal(moved);
        reveal(ready);
        reveal(val);
        lemma_emit(t, StepV::Jump(c, Some(last)), e);
        lemma_emit(s1, StepV::SwitchTo(c), e);
        lemma_emit(s2, StepV::Seal(k), e);
        lemma_emit(s3, StepV::Seal(b), e);
        lemma_emit(s4, StepV::Seal(c), e);
        lemma_emit(s5, StepV::Param(c, 0), e);
        let o = prog(s, e)->0;
        let q = prog(t, e)->0;
        assert(blank(q, k + 2) && ended(q, k as int)) by {
            assert(q.made[k as int] == o.made[k as int]);
            assert(q.made[k + 2] == o.made[k + 2]);
            assert(q.filled[k as int] == o.filled[k as int]);
            assert(q.filled[k + 2] == o.filled[k + 2]);
            assert(q.sealed[k as int] == o.sealed[k as int]);
            assert(q.sealed[k + 2] == o.sealed[k + 2]);
        }
        assert(q.made[k + 1] == Made::Block && !q.sealed[k + 1]) by {
            assert(q.made[k + 1] == o.made[k + 1]);
            assert(q.sealed[k + 1] == o.sealed[k + 1]);
        }
        let q1 = grown(touching(filling(q), c), Made::Nothing);
        assert(prog(s1, e) == Some(q1));
        let q2 = grown(touching(Progress { at: Some(c), ..q1 }, c), Made::Nothing);
        assert(prog(s2, e) == Some(q2));
        let q3 = grown(
            touching(Progress { sealed: q2.sealed.update(k as int, true), ..q2 }, k),
            Made::Nothing,
        );
        assert(prog(s3, e) == Some(q3));
        let q4 = grown(
            touching(Progress { sealed: q3.sealed.update(b as int, true), ..q3 }, b),
            Made::Nothing,
        );
        assert(prog(s4, e) == Some(q4));
        let q5 = grown(
            touching(Progress { sealed: q4.sealed.update(c as int, true), ..q4 }, c),
            Made::Nothing,
        );
        assert(prog(s5, e) == Some(q5));
        assert(q5.params[c as int] == o.params[c as int]);
        let q6 = grown(q5, Made::Value(q5.params[c as int][0]));
        assert(prog(s6, e) == Some(q6));
        assert(kept(p, q6));
        assert(q1.filled[b as int]);
        assert forall|i: int| p.made.len() <= i < q6.made.len() && #[trigger] q6.made[i] == Made::Block && i != c implies q6.filled[i] && q6.sealed[i] by {
            if i >= k + 3 {
                assert(q.made[i] == Made::Block);
                if i < o.made.len() {
                    assert(o.made[i] == Made::Block);
                    assert(q.filled[i] == o.filled[i]);
                    assert(q.sealed[i] == o.sealed[i]);
                }
            }
        }
        assert(whole(p, q6));
    }
}

pub proof fn lemma_while_blocks(s: GenState, e: Plan, n: nat)
    ensures
        grows(s, g_while_blocks(s)),
        ready(s, e) && small(g_while_blocks(s), n) ==> {
            let t = g_while_blocks(s);
            &&& ready(t, e)
            &&& t.vars == s.vars
            &&& three(prog(s, e)->0, prog(t, e)->0)
        },
{
    let k = next_step(s);
    let s1 = emit(s, StepV::CreateBlock);
    let s2 = emit(s1, StepV::CreateBlock);
    let s3 = emit(s2, StepV::CreateBlock);
    let s4 = emit(s3, StepV::Jump(k, None));
    let s5 = emit(s4, StepV::SwitchTo(k));
    assert(s5 == g_while_blocks(s));
    if ready(s, e) && small(s5, n) {
        reveal(ready);
        lemma_emit(s, StepV::CreateBlock, e);
        lemma_emit(s1, StepV::CreateBlock, e);
        lemma_emit(s2, StepV::CreateBlock, e);
        lemma_emit(s3, StepV::Jump(k, None), e);
        lemma_emit(s4, StepV::SwitchTo(k), e);
        let p = prog(s, e)->0;
        let q1 = grown(p, Made::Block);
        let q2 = grown(q1, Made::Block);
        let q3 = grown(q2, Made::Block);
        assert(prog(s3, e) == Some(q3));
        let q4 = grown(touching(filling(q3), k), Made::Nothing);
        assert(prog(s4, e) == Some(q4));
        let q5 = grown(touching(Progress { at: Some(k), ..q4 }, k), Made::Nothing);
        assert(prog(s5, e) == Some(q5));
        assert(kept(p, q5));
        assert(vars_ok(s5.vars, q5));
    }
}

/// From the test of a loop to its body.
pub proof fn lemma_while_body(p: Progress, s: GenState, t: GenState, v: usize, e: Plan, n: nat)
    requires
        p.made.len() + 2 <= usize::MAX,
        ready(s, e) ==> three(p, prog(s, e)->0),
    ensures
        grows(t, g_while_body(t, p.made.len() as usize, v)),
        after(s, t, e) && val(t, v, e) && small(g_while_body(t, p.made.len() as usize, v), n) ==> {
            let r = g_while_body(t, p.made.len() as usize, v);
            &&& ready(r, e)
            &&& r.vars == s.vars
            &&& second(p, prog(r, e)->0)
        },
{
    let k = p.made.len() as usize;
    let b = (k + 1) as usize;
    let c = (k + 2) as usize;
    let u = g_test(t, v);
    lemma_test(t, v, e, n);
    let s1 = emit(u.0, StepV::Branch(u.1, b, c));
    let s2 = emit(s1, StepV::SwitchTo(b));
    if after(s, t, e) && val(t, v, e) && small(s2, n) {
        lemma_chain(s, t, u.0, e);
        lemma_chain(s, u.0, u.0, e);
        reveal(after);
        reveal(ready);
        reveal(val);
        lemma_emit(u.0, StepV::Branch(u.1, b, c), e);
        lemma_emit(s1, StepV::SwitchTo(b), e);
        let o = prog(s, e)->0;
        let q = prog(u.0, e)->0;
        assert(flat(o, q));
        assert(blank(q, k as int) && blank(q, k + 1) && blank(q, k + 2)) by {
            assert(q.made[k as int] == o.made[k as int]);
            assert(q.made[k + 1] == o.made[k + 1]);
            assert(q.made[k + 2] == o.made[k + 2]);
            assert(q.filled[k as int] == o.filled[k as int]);
            assert(q.filled[k + 1] == o.filled[k + 1]);
            assert(q.filled[k + 2] == o.filled[k + 2]);
            assert(q.sealed[k as int] == o.sealed[k as int]);
            assert(q.sealed[k + 1] == o.sealed[k + 1]);
            assert(q.sealed[k + 2] == o.sealed[k + 2]);
        }
        let q1 = grown(touching(touching(filling(q), b), c), Made::Nothing);
        assert(prog(s1, e) == Some(q1));
        let q2 = grown(touching(Progress { at: Some(b), ..q1 }, b), Made::Nothing);
        assert(prog(s2, e) == Some(q2));
        assert(kept(p, q2));
        assert(old_blocks(p, q2));
        assert(closed_from(q2, k + 3)) by {
            assert forall|i: int| k + 3 <= i < q2.made.len() && #[trigger] q2.made[i] == Made::Block implies q2.filled[i] && q2.sealed[i] by {
                assert(q.made[i] == Made::Block);
                assert(i < o.made.len());
                assert(o.made[i] == Made::Block);
                assert(q.filled[i] == o.filled[i]);
                assert(q.sealed[i] == o.sealed[i]);
            }
        }
        assert(vars_ok(s2.vars, q2));
    }
}

/// The end of a loop.
#[verifier::spinoff_prover]
#[verifier::rlimit(40)]
pub proof fn lemma_while_end(p: Progress, s: GenState, t: GenState, e: Plan, n: nat)
    requires
        p.made.len() + 2 <= usize::MAX,
        ready(s, e) ==> second(p, prog(s, e)->0),
    ensures
        grows(t, g_while_end(t, p.made.len() as usize).0),
        moved(s, t, e) && small(g_while_end(t, p.made.len() as usize).0, n) ==> {
            let r = g_while_end(t, p.made.len() as usize);
            let q = prog(r.0, e);
            &&& val(r.0, r.1, e)
            &&& q is Some
            &&& lens(q->0, r.0.steps.len())
            &&& open_block(q->0)
            &&& whole(p, q->0)
        },
{
    let k = p.made.len() as usize;
    let b = (k + 1) as usize;
    let c = (k + 2) as usize;
    let s1 = emit(t, StepV::Jump(k, None));
    let s2 = emit(s1, StepV::Seal(k));
    let s3 = emit(s2, StepV::Seal(b));
    let s4 = emit(s3, StepV::SwitchTo(c));
    let s5 = emit(s4, StepV::Seal(c));
    let s6 = emit(s5, StepV::Const(IrType::Ptr, 0));
    if moved(s, t, e) && small(s6, n) {
        reveal(moved);
        reveal(ready);
        reveal(val);
        lemma_emit(t, StepV::Jump(k, None), e);
        lemma_emit(s1, StepV::Seal(k), e);
        lemma_emit(s2, StepV::Seal(b), e);
        lemma_emit(s3, StepV::SwitchTo(c), e);
        lemma_emit(s4, StepV::Seal(c), e);
        lemma_emit(s5, StepV::Const(IrType::Ptr, 0), e);
        let o = prog(s, e)->0;
        let q = prog(t, e)->0;
        assert(blank(q, k + 2) && ended(q, k as int)) by {
            assert(q.made[k as int] == o.made[k as int]);
            assert(q.made[k + 2] == o.made[k + 2]);
            assert(q.filled[k as int] == o.filled[k as int]);
            assert(q.filled[k + 2] == o.filled[k + 2]);
            assert(q.sealed[k as int] == o.sealed[k as int]);
            assert(q.sealed[k + 2] == o.sealed[k + 2]);
        }
        assert(q.made[k + 1] == Made::Block && !q.sealed[k + 1]) by {
            assert(q.made[k + 1] == o.made[k + 1]);
            assert(q.sealed[k + 1] == o.sealed[k + 1]);
        }
        let q1 = grown(touching(filling(q), k), Made::Nothing);
        assert(prog(s1, e) == Some(q1));
        let q2 = grown(
            touching(Progress { sealed: q1.sealed.update(k as int, true), ..q1 }, k),
            Made::Nothing,
        );
        assert(prog(s2, e) == Some(q2));
        let q3 = grown(
            touching(Progress { sealed: q2.sealed.update(b as int, true), ..q2 }, b),
            Made::Nothing,
        );
        assert(prog(s3, e) == Some(q3));
        let q4 = grown(touching(Progress { at: Some(c), ..q3 }, c), Made::Nothing);
        assert(prog(s4, e) == Some(q4));
        let q5 = grown(
            touching(Progress { sealed: q4.sealed.update(c as int, true), ..q4 }, c),
            Made::Nothing,
        );
        assert(prog(s5, e) == Some(q5));
        let q6 = grown(q5, Made::Value(e.machine.ptr_bytes));
        assert(prog(s6, e) == Some(q6));
        assert(kept(p, q6));
        assert(q1.filled[b as int]);
        assert forall|i: int| p.made.len() <= i < q6.made.len() && #[trigger] q6.made[i] == Made::Block && i != c implies q6.filled[i] && q6.sealed[i] by {
            if i >= k + 3 {
                assert(q.made[i] == Made::Block);
                if i < o.made.len() {
                    assert(o.made[i] == Made::Block);
                    assert(q.filled[i] == o.filled[i]);
                    assert(q.sealed[i] == o.sealed[i]);
                }
            }
        }
        assert(whole(p, q6));
    }
}

/// A statement with blocks, after which the variables are those from before.
pub proof fn lemma_scope_end(s: GenState, t: GenState, v: usize, e: Plan)
    requires
        ready(s, e),
        t.steps.len() <= usize::MAX,
        val(t, v, e),
        prog(t, e) is Some,
        lens(prog(t, e)->0, t.steps.len()),
        open_block(prog(t, e)->0),
        whole(prog(s, e)->0, prog(t, e)->0),
    ensures
        moved(s, GenState { vars: s.vars, ..t }, e),
        val(GenState { vars: s.vars, ..t }, v, e),
{
    reveal(moved);
    reveal(ready);
    reveal(val);
    let u = GenState { vars: s.vars, ..t };
    assert(prog(u, e) == prog(t, e));
    assert(vars_ok(s.vars, prog(t, e)->0));
}

// Statements

#[verifier::spinoff_prover]
#[verifier::rlimit(40)]
pub proof fn lemma_if(env: GenEnv, s: GenState, st: TyHirStmtV, c: FnScope, e: Plan, n: nat)
    requires
        st is If,
        linked(env, e, n),
        n <= usize::MAX,
    ensures
        g_stmt(env, s, st, c).1 is Ok ==> yields(
            s,
            g_stmt(env, s, st, c).0,
            g_stmt(env, s, st, c).1->Ok_0,
            e,
            n,
            room_ok(s, c, e),
        ),
    decreases st, 0int,
{
    if let TyHirStmtV::If { cond, then_branch, else_branch } = st {
        lemma_expr(env, s, cond, HirTypeV::Int, e, n);
        let a = g_expr(env, s, cond, HirTypeV::Int);
        if let Ok(v) = a.1 {
            let t = g_test(a.0, v);
            lemma_test(a.0, v, e, n);
            let at = next_step(t.0);
            let b0 = g_if_blocks(t.0, t.1);
            lemma_if_blocks(t.0, t.1, e, n);
            lemma_block(env, b0, then_branch.stmts, c, e, n);
            let b = g_block(env, b0, then_branch.stmts, c);
            if let Ok(x) = b.1 {
                let s3 = GenState { vars: s.vars, ..g_if_else(b.0, at, x) };
                lemma_else(env, s3, else_branch, c, e, n);
                let d = g_else(env, s3, else_branch, c);
                if let Ok(y) = d.1 {
                    let r = g_if_end(d.0, at, y);
                    let u = GenState { vars: s.vars, ..r.0 };
                    assert(grows(s, u));
                    if ready(s, e) && small(u, n) && room_ok(s, c, e) {
                        lemma_chain(s, a.0, t.0, e);
                        lemma_chain(a.0, t.0, t.0, e);
                        lemma_chain(s, t.0, t.0, e);
                        assert(after(s, t.0, e));
                        let p = prog(t.0, e)->0;
                        assert(p.made.len() == t.0.steps.len() && vars_ok(s.vars, p)) by {
                            reveal(ready);
                        }
                        assert(p.made.len() == at as nat);
                        lemma_room_kept(t.0, b0, c, e);
                        assert(room_ok(b0, c, e));
                        assert(moved(b0, b.0, e));
                        lemma_if_else(p, b0, b.0, x, s.vars, e, n);
                        assert(small(g_if_else(b.0, at, x), n));
                        lemma_room_kept(t.0, s3, c, e);
                        assert(moved(s3, d.0, e));
                        lemma_if_end(p, s3, d.0, y, e, n);
                        lemma_scope_end(t.0, r.0, r.1, e);
                        assert(u == GenState { vars: t.0.vars, ..r.0 });
                        lemma_after_moved(s, t.0, e);
                        lemma_moved(s, t.0, u, e);
                    }
                }
            }
        }
    }
}

/// A value stays a value when blocks are made.
pub proof fn lemma_room_kept(s: GenState, t: GenState, c: FnScope, e: Plan)
    ensures
        ready(s, e) && ready(t, e) && kept(prog(s, e)->0, prog(t, e)->0) && room_ok(s, c, e) ==> room_ok(t, c, e),
{
    reveal(ready);
    reveal(val);
}

#[verifier::spinoff_prover]
#[verifier::rlimit(40)]
pub proof fn lemma_while(env: GenEnv, s: GenState, st: TyHirStmtV, c: FnScope, e: Plan, n: nat)
    requires
        st is While,
        linked(env, e, n),
        n <= usize::MAX,
    ensures
        g_stmt(env, s, st, c).1 is Ok ==> yields(
            s,
            g_stmt(env, s, st, c).0,
            g_stmt(env, s, st, c).1->Ok_0,
            e,
            n,
            room_ok(s, c, e),
        ),
    decreases st, 0int,
{
    if let TyHirStmtV::While { cond, body } = st {
        let at = next_step(s);
        let w = g_while_blocks(s);
        lemma_while_blocks(s, e, n);
        lemma_expr(env, w, cond, HirTypeV::Int, e, n);
        let a = g_expr(env, w, cond, HirTypeV::Int);
        if let Ok(v) = a.1 {
            let b0 = g_while_body(a.0, at, v);
            lemma_block(env, b0, body.stmts, c, e, n);
            let b = g_block(env, b0, body.stmts, c);
            if let Ok(x) = b.1 {
                let r = g_while_end(b.0, at);
                let u = GenState { vars: s.vars, ..r.0 };
                assert(grows(s, u));
                if ready(s, e) && small(u, n) && room_ok(s, c, e) {
                    let p = prog(s, e)->0;
                    assert(p.made.len() == s.steps.len()) by {
                        reveal(ready);
                    }
                    assert(small(w, n) && small(a.0, n) && small(b0, n) && small(b.0, n));
                    lemma_while_body(p, w, a.0, v, e, n);
                    lemma_room_kept(s, b0, c, e);
                    lemma_while_end(p, b0, b.0, e, n);
                    lemma_scope_end(s, r.0, r.1, e);
                }
            }
        }
    }
}

#[verifier::spinoff_prover]
pub proof fn lemma_stmt(env: GenEnv, s: GenState, st: TyHirStmtV, c: FnScope, e: Plan, n: nat)
    requires
        linked(env, e, n),
        n <= usize::MAX,
    ensures
        g_stmt(env, s, st, c).1 is Ok ==> yields(
            s,
            g_stmt(env, s, st, c).0,
            g_stmt(env, s, st, c).1->Ok_0,
            e,
            n,
            room_ok(s, c, e),
        ),
    decreases st, 1int,
{
    let r = g_stmt(env, s, st, c);
    match st {
        TyHirStmtV::Let { def_id, ty, init, .. } => {
            lemma_expr(env, s, init, ty, e, n);
            let a = g_expr(env, s, init, ty);
            if let Ok(raw) = a.1 {
                lemma_copy(env, a.0, raw, ty, e, n);
                let b = g_copy(env, a.0, raw, ty);
                if let Ok(v) = b.1 {
                    lemma_bind(env, b.0, def_id, ty, v, c.taken.contains(def_id), e, n);
                    if r.1 is Ok {
                        lemma_chain(s, a.0, b.0, e);
                        lemma_chain(a.0, b.0, b.0, e);
                        lemma_chain(s, b.0, b.0, e);
                        lemma_after_moved(s, b.0, e);
                        lemma_moved(s, b.0, r.0, e);
                        lemma_moved(b.0, r.0, r.0, e);
                    }
                }
            }
        },
        TyHirStmtV::Assign { target, value } => {
            lemma_assign(env, s, target, value, e, n);
            lemma_after_moved(s, r.0, e);
        },
        TyHirStmtV::Expr(x) => {
            lemma_expr(env, s, x, x.ty, e, n);
            lemma_after_moved(s, r.0, e);
        },
        TyHirStmtV::If { .. } => {
            lemma_if(env, s, st, c, e, n);
        },
        TyHirStmtV::While { .. } => {
            lemma_while(env, s, st, c, e, n);
        },
        TyHirStmtV::Return(value) => {
            lemma_return_value(env, s, value, c, e, n);
            let a = g_return_value(env, s, value, c);
            if let Ok(v) = a.1 {
                lemma_return(a.0, v, e, n);
                lemma_chain(s, a.0, a.0, e);
                lemma_after_moved(s, a.0, e);
                lemma_moved(s, a.0, r.0, e);
            }
        },
    }
}

pub proof fn lemma_else(
    env: GenEnv,
    s: GenState,
    b: Option<TyHirBodyV>,
    c: FnScope,
    e: Plan,
    n: nat,
)
    requires
        linked(env, e, n),
        n <= usize::MAX,
    ensures
        g_else(env, s, b, c).1 is Ok ==> yields(
            s,
            g_else(env, s, b, c).0,
            g_else(env, s, b, c).1->Ok_0,
            e,
            n,
            room_ok(s, c, e),
        ),
    decreases b, 0int,
{
    match b {
        Some(b) => {
            lemma_block(env, s, b.stmts, c, e, n);
        },
        None => {
            lemma_null(s, e, n);
            lemma_after_moved(s, g_null(s).0, e);
        },
    }
}

pub proof fn lemma_block(
    env: GenEnv,
    s: GenState,
    stmts: Seq<TyHirStmtV>,
    c: FnScope,
    e: Plan,
    n: nat,
)
    requires
        linked(env, e, n),
        n <= usize::MAX,
    ensures
        g_block(env, s, stmts, c).1 is Ok ==> yields(
            s,
            g_block(env, s, stmts, c).0,
            g_block(env, s, stmts, c).1->Ok_0,
            e,
            n,
            room_ok(s, c, e),
        ),
    decreases stmts, stmts.len() + 1,
{
    let a = g_null(s);
    lemma_null(s, e, n);
    lemma_stmts(env, a.0, stmts, c, 0, a.1, e, n);
    lemma_chain(s, a.0, a.0, e);
    lemma_after_moved(s, a.0, e);
    lemma_moved(s, a.0, g_block(env, s, stmts, c).0, e);
}

pub proof fn lemma_stmts(
    env: GenEnv,
    s: GenState,
    stmts: Seq<TyHirStmtV>,
    c: FnScope,
    i: int,
    last: usize,
    e: Plan,
    n: nat,
)
    requires
        linked(env, e, n),
        n <= usize::MAX,
    ensures
        g_stmts(env, s, stmts, c, i, last).1 is Ok ==> yields(
            s,
            g_stmts(env, s, stmts, c, i, last).0,
            g_stmts(env, s, stmts, c, i, last).1->Ok_0,
            e,
            n,
            room_ok(s, c, e) && val(s, last, e),
        ),
    decreases stmts, stmts.len() - i,
{
    lemma_same(s, e);
    lemma_after_moved(s, s, e);
    if 0 <= i < stmts.len() {
        lemma_stmt(env, s, stmts[i], c, e, n);
        let a = g_stmt(env, s, stmts[i], c);
        if let Ok(v) = a.1 {
            lemma_stmts(env, a.0, stmts, c, i + 1, v, e, n);
            lemma_moved(s, a.0, g_stmts(env, a.0, stmts, c, i + 1, v).0, e);
        }
    }
}

// Functions

/// The entry block has at least `k` parameters.
#[verifier::opaque]
pub open spec fn entry_ok(s: GenState, k: int, e: Plan) -> bool {
    prog(s, e) matches Some(p) && p.made.len() > 0 && p.made[0] == Made::Block && k <= p.params[0].len()
}

pub proof fn lemma_entry_kept(s: GenState, t: GenState, k: int, e: Plan)
    ensures
        moved(s, t, e) && entry_ok(s, k, e) ==> entry_ok(t, k, e),
{
    reveal(moved);
    reveal(ready);
    reveal(entry_ok);
}

/// A parameter of the entry block.
pub proof fn lemma_param(s: GenState, i: usize, k: int, e: Plan, n: nat)
    requires
        i < k,
    ensures
        gives(s, emit(s, StepV::Param(0, i)), next_step(s), e, n, entry_ok(s, k, e)),
{
    let st = StepV::Param(0, i);
    let t = emit(s, st);
    assert(quiet(s, t)) by {
        reveal(quiet);
    }
    if ready(s, e) && small(t, n) && entry_ok(s, k, e) {
        reveal(after);
        reveal(ready);
        reveal(val);
        reveal(entry_ok);
        lemma_emit(s, st, e);
        let p = prog(s, e)->0;
        let q = grown(p, Made::Value(p.params[0][i as int]));
        assert(prog(t, e) == Some(q));
        assert(kept(p, q));
        assert(vars_ok(t.vars, q));
    }
}

pub proof fn lemma_params(
    env: GenEnv,
    s: GenState,
    ps: Seq<TyHirParamV>,
    taken: Set<DefId>,
    skip: usize,
    i: int,
    e: Plan,
    n: nat,
)
    requires
        skip <= 1,
        0 <= i,
    ensures
        g_params(env, s, ps, taken, 0, skip, i).1 is Ok ==> moves(
            s,
            g_params(env, s, ps, taken, 0, skip, i).0,
            e,
            n,
            entry_ok(s, ps.len() + skip, e) && i + 4 <= s.steps.len(),
        ),
    decreases ps.len() - i,
{
    lemma_same(s, e);
    lemma_after_moved(s, s, e);
    if i < ps.len() {
        let j = (i + skip) as usize;
        let s1 = emit(s, StepV::Param(0, j));
        lemma_bind(
            env,
            s1,
            ps[i].def_id,
            ps[i].ty,
            next_step(s),
            taken.contains(ps[i].def_id),
            e,
            n,
        );
        let a = g_bind(env, s1, ps[i].def_id, ps[i].ty, next_step(s), taken.contains(ps[i].def_id));
        if a.1 is Ok {
            lemma_params(env, a.0, ps, taken, skip, i + 1, e, n);
            let b = g_params(env, a.0, ps, taken, 0, skip, i + 1);
            if b.1 is Ok && ready(s, e) && small(b.0, n) && entry_ok(s, ps.len() + skip, e) && i + 4 <= s.steps.len() {
                assert(j == i + skip);
                lemma_param(s, j, ps.len() + skip, e, n);
                lemma_chain(s, s1, s1, e);
                lemma_after_moved(s, s1, e);
                lemma_moved(s, s1, a.0, e);
                lemma_entry_kept(s, a.0, ps.len() + skip, e);
                lemma_moved(s, a.0, b.0, e);
                lemma_moved(s, s1, b.0, e);
            }
        }
    }
}

/// The entry block, which nothing jumps to.
pub proof fn lemma_entry(strings: Seq<Seq<char>>, e: Plan)
    ensures
        ({
                let s = g_entry(strings);
                &&& ready(s, e)
                &&& s.steps.len() == 4
                &&& s.strings == strings
                &&& entry_ok(s, e.shape.params.len() as int, e)
                &&& prog(s, e)->0.at == Some(0usize)
                &&& prog(s, e)->0.sealed[0]
                &&& prog(s, e)->0.made.len() == 4
                &&& forall|i: int| 1 <= i < 4 ==> #[trigger] prog(s, e)->0.made[i] != Made::Block
        }),
{
    reveal(ready);
    reveal(entry_ok);
    let s = GenState { steps: Seq::empty(), strings, vars: Map::empty() };
    let s1 = emit(s, StepV::CreateBlock);
    let s2 = emit(s1, StepV::EnterFunction(0));
    let s3 = emit(s2, StepV::SwitchTo(0));
    let s4 = emit(s3, StepV::Seal(0));
    lemma_emit(s, StepV::CreateBlock, e);
    lemma_emit(s1, StepV::EnterFunction(0), e);
    lemma_emit(s2, StepV::SwitchTo(0), e);
    lemma_emit(s3, StepV::Seal(0), e);
    let q0 = no_progress();
    assert(prog(s, e) == Some(q0));
    let q1 = grown(q0, Made::Block);
    assert(prog(s1, e) == Some(q1));
    let q2 = grown(
        touching(Progress { params: q1.params.update(0, q1.params[0] + e.shape.params), ..q1 }, 0),
        Made::Nothing,
    );
    assert(prog(s2, e) == Some(q2));
    let q3 = grown(touching(Progress { at: Some(0usize), ..q2 }, 0), Made::Nothing);
    assert(prog(s3, e) == Some(q3));
    let q4 = grown(
        touching(Progress { sealed: q3.sealed.update(0, true), ..q3 }, 0),
        Made::Nothing,
    );
    assert(prog(s4, e) == Some(q4));
    assert(g_entry(strings) == s4);
}

/// The parameters of the entry block are those of the function.
pub proof fn lemma_entry_params(strings: Seq<Seq<char>>, e: Plan)
    ensures
        ({
                let s = g_entry(strings);
                prog(s, e) matches Some(p) && p.made.len() > 0 && p.made[0] == Made::Block && p.params[0] == e.shape.params
        }),
{
    let s = GenState { steps: Seq::empty(), strings, vars: Map::empty() };
    let s1 = emit(s, StepV::CreateBlock);
    let s2 = emit(s1, StepV::EnterFunction(0));
    let s3 = emit(s2, StepV::SwitchTo(0));
    lemma_emit(s, StepV::CreateBlock, e);
    lemma_emit(s1, StepV::EnterFunction(0), e);
    lemma_emit(s2, StepV::SwitchTo(0), e);
    lemma_emit(s3, StepV::Seal(0), e);
    let q0 = no_progress();
    assert(prog(s, e) == Some(q0));
    let q1 = grown(q0, Made::Block);
    assert(prog(s1, e) == Some(q1));
    assert(q1.params[0] + e.shape.params =~= e.shape.params);
}

/// The last step of a function.
pub proof fn lemma_leave(s: GenState, t: GenState, v: Option<usize>, e: Plan)
    requires
        moved(s, t, e),
        v matches Some(x) ==> val(t, x, e),
        prog(s, e)->0.at == Some(0usize),
        prog(s, e)->0.sealed[0],
        prog(s, e)->0.made.len() == 4,
        forall|i: int| 1 <= i < 4 ==> #[trigger] prog(s, e)->0.made[i] != Made::Block,
    ensures
        prog(emit(t, StepV::Return(v)), e) matches Some(q) && finished(q),
{
    reveal(moved);
    reveal(ready);
    reveal(val);
    lemma_emit(t, StepV::Return(v), e);
    let p = prog(s, e)->0;
    let q = prog(t, e)->0;
    let r = grown(filling(q), Made::Nothing);
    assert(prog(emit(t, StepV::Return(v)), e) == Some(r));
    assert forall|a: int| 0 <= a < r.made.len() && #[trigger] r.made[a] == Made::Block implies r.filled[a] && r.sealed[a] by {
        if a < 4 {
            assert(q.made[a] == p.made[a]);
            assert(q.sealed[a] == p.sealed[a]);
        } else if a < q.made.len() {
            assert(q.made[a] == Made::Block);
        }
    }
}

pub proof fn lemma_function(
    env: GenEnv,
    strings: Seq<Seq<char>>,
    ps: Seq<TyHirParamV>,
    ret: HirTypeV,
    stmts: Seq<TyHirStmtV>,
    e: Plan,
    n: nat,
)
    requires
        g_function(env, strings, ps, ret, stmts).1 is Ok,
        small(g_function(env, strings, ps, ret, stmts).0, n),
        n <= usize::MAX,
        linked(env, e, n),
        e.shape.params.len() == ps.len() + if is_aggregate(ret) { 1int } else { 0int },
    ensures
        prog(g_function(env, strings, ps, ret, stmts).0, e) matches Some(q) && finished(q),
{
    reveal(g_function);
    let taken = taken_stmts(stmts, 0, Set::empty());
    let s = g_entry(strings);
    let r = g_sret(s, ret);
    let skip = if is_aggregate(ret) { 1usize } else { 0usize };
    let c = FnScope { ret, room: r.1, taken };
    let k = e.shape.params.len() as int;
    lemma_entry(strings, e);
    lemma_params(env, r.0, ps, taken, skip, 0, e, n);
    let a = g_params(env, r.0, ps, taken, 0, skip, 0);
    lemma_block(env, a.0, stmts, c, e, n);
    let b = g_block(env, a.0, stmts, c);
    let last = b.1->Ok_0;
    assert(grows(r.0, a.0) && grows(a.0, b.0));
    lemma_same(s, e);
    lemma_after_moved(s, s, e);
    if is_aggregate(ret) {
        lemma_param(s, 0, k, e, n);
        lemma_after_moved(s, r.0, e);
    }
    assert(moved(s, r.0, e) && room_ok(r.0, c, e));
    lemma_moved(s, r.0, a.0, e);
    lemma_entry_kept(s, r.0, k, e);
    assert(moved(r.0, a.0, e));
    lemma_moved(r.0, a.0, b.0, e);
    assert(moved(a.0, b.0, e));
    lemma_moved(s, a.0, b.0, e);
    if is_aggregate(ret) {
        lemma_leave(s, b.0, None, e);
    } else {
        lemma_leave(s, b.0, Some(last), e);
    }
}

/// Each variable is given values of its own width.
pub open spec fn fits(steps: Seq<StepV>, n: int, e: Plan) -> bool {
    forall|i: int| 0 <= i < n ==> (#[trigger] steps[i] matches StepV::SetVar(x, v) ==> (run_any(steps, i, e) matches Some(p) && value_width(p, v) == variable_width(p, x)))
}

pub proof fn lemma_runs(steps: Seq<StepV>, n: int, e: Plan)
    requires
        0 <= n <= steps.len(),
    ensures
        run(steps, n, e) is Some <==> run_any(steps, n, e) is Some && fits(steps, n, e),
        run(steps, n, e) is Some ==> run(steps, n, e) == run_any(steps, n, e),
    decreases n,
{
    if n > 0 {
        lemma_runs(steps, n - 1, e);
        if fits(steps, n, e) {
            assert(fits(steps, n - 1, e));
        }
        if run_any(steps, n, e) is Some && fits(steps, n, e) {
            assert(steps[n - 1] matches StepV::SetVar(x, v) ==> (run_any(steps, n - 1, e) matches Some(p) && value_width(p, v) == variable_width(p, x)));
        }
    }
}

/// The code of a function makes a function: every step takes what earlier steps
/// made, code goes only to blocks that do not end yet, and in the end every
/// block does. It can fail in two ways only: a variable is given a value of
/// another width, or a block has no room for its parameters.
pub proof fn law_code_makes_a_function(
    env: GenEnv,
    strings: Seq<Seq<char>>,
    ps: Seq<TyHirParamV>,
    ret: HirTypeV,
    stmts: Seq<TyHirStmtV>,
    e: Plan,
)
    requires
        g_function(env, strings, ps, ret, stmts).1 is Ok,
        g_function(env, strings, ps, ret, stmts).0.steps.len() <= usize::MAX,
        g_function(env, strings, ps, ret, stmts).0.strings.len() <= usize::MAX,
        linked(env, e, g_function(env, strings, ps, ret, stmts).0.strings.len()),
        e.shape.params.len() == ps.len() + if is_aggregate(ret) { 1int } else { 0int },
        is_width(e.machine.ptr_bytes),
    ensures
        ({
                let steps = g_function(env, strings, ps, ret, stmts).0.steps;
                is_valid(steps, e) <==> fits(steps, steps.len() as int, e) && roomy(steps, e.shape.params.len())
        }),
{
    let s = g_function(env, strings, ps, ret, stmts).0;
    lemma_function(env, strings, ps, ret, stmts, e, s.strings.len());
    lemma_runs(s.steps, s.steps.len() as int, e);
}

} // verus!

