//! The code of a well-typed function makes a function, where pointers have eight
//! bytes.

use crate::backend::flow::{
    fits, law_code_makes_a_function, lemma_after_moved, lemma_bind, lemma_block, lemma_else,
    lemma_entry, lemma_entry_kept, lemma_if_blocks, lemma_if_else, lemma_if_end, lemma_moved,
    lemma_null, lemma_param, lemma_params, lemma_return, lemma_return_value, lemma_room_kept,
    lemma_scope_end, lemma_set_local, lemma_assign, lemma_stmt, lemma_stmts, lemma_test,
    lemma_while_blocks, lemma_while_body, lemma_while_end, moved, room_ok, entry_ok,
};
use crate::backend::plan::{
    is_valid, roomy, shape_for, value_width, variable_width, Made, Plan,
};
use crate::backend::whole::{
    after, kept, lemma_chain, lemma_copy, lemma_emit, lemma_expr, lemma_place, lemma_placed,
    lemma_run_prefix, lemma_same, lemma_step, lemma_write, linked, placed, prog, quiet, ready,
    run_any, slot, small, val,
};
use crate::backend::wide::{
    lemma_val, lemma_wcopy, lemma_wexpr, lemma_wide, lemma_wide_after, typed_links, wid, wval,
    wvar, wvars,
};
use crate::compiler::address::{law_taken_is_exact, takes_expr, takes_stmt, takes_stmts};
use crate::compiler::code::{CodeSignatureV, DataRef, LocalVarV, StepV};
use crate::compiler::laws::law_signature_shape;
use crate::compiler::rules::{
    emit, g_align, g_assign, g_bind, g_block, g_copy, g_else, g_entry, g_expr, g_function,
    g_if_blocks, g_if_else, g_if_end, g_null, g_params, g_place, g_return_value, g_set_local,
    g_signature, g_size, g_sret, g_stmt, g_stmts, g_test, g_type, g_while_blocks, g_while_body,
    g_while_end, is_aggregate, next_step, param_types_of, taken_stmts, FnScope, GenEnv, GenState,
};
use crate::hir::{DefId, HirTypeV};
use crate::table::lookup;
use crate::tycheck::typing::{
    ok_kind, ok_stmt, ok_stmts, vars_after, vars_after_all, with_params, Definitions,
};
use crate::tyhir::{TyHirExprKindV, TyHirParamV, TyHirStmtV};
use vstd::prelude::*;

verus! {

// Scopes

/// The variables in scope behind a statement.
pub open spec fn scope_after(scope: Set<DefId>, st: TyHirStmtV) -> Set<DefId> {
    match st {
        TyHirStmtV::Let { def_id, .. } => scope.insert(def_id),
        _ => scope,
    }
}

/// No variable in scope is bound again by a statement.
pub open spec fn fresh_stmt(scope: Set<DefId>, st: TyHirStmtV) -> bool
    decreases st, 0int,
{
    match st {
        TyHirStmtV::Let { def_id, .. } => !scope.contains(def_id),
        TyHirStmtV::If { then_branch, else_branch, .. } => fresh_stmts(scope, then_branch.stmts, 0) && match else_branch {
            Some(b) => fresh_stmts(scope, b.stmts, 0),
            None => true,
        },
        TyHirStmtV::While { body, .. } => fresh_stmts(scope, body.stmts, 0),
        _ => true,
    }
}

/// No variable in scope is bound again by the statements from `i` on.
pub open spec fn fresh_stmts(scope: Set<DefId>, stmts: Seq<TyHirStmtV>, i: int) -> bool
    decreases stmts, stmts.len() - i,
{
    i < 0 || i >= stmts.len() || (fresh_stmt(scope, stmts[i]) && fresh_stmts(scope_after(scope, stmts[i]), stmts, i + 1))
}

/// What is known of the variables in scope stays.
spec fn same_on(scope: Set<DefId>, a: Map<DefId, HirTypeV>, b: Map<DefId, HirTypeV>) -> bool {
    forall|d: DefId| #[trigger] scope.contains(d) ==> lookup(b, d) == lookup(a, d)
}

proof fn lemma_vars(scope: Set<DefId>, st: TyHirStmtV, vars: Map<DefId, HirTypeV>)
    requires
        fresh_stmt(scope, st),
    ensures
        same_on(scope, vars, vars_after(vars, st)),
    decreases st, 0int,
{
    match st {
        TyHirStmtV::If { then_branch, else_branch, .. } => {
            lemma_vars_all(scope, then_branch.stmts, 0, vars);
            if let Some(b) = else_branch {
                lemma_vars_all(scope, b.stmts, 0, vars_after_all(vars, then_branch.stmts, 0));
            }
        },
        TyHirStmtV::While { body, .. } => {
            lemma_vars_all(scope, body.stmts, 0, vars);
        },
        _ => {},
    }
}

proof fn lemma_vars_all(
    scope: Set<DefId>,
    stmts: Seq<TyHirStmtV>,
    i: int,
    vars: Map<DefId, HirTypeV>,
)
    requires
        fresh_stmts(scope, stmts, i),
    ensures
        same_on(scope, vars, vars_after_all(vars, stmts, i)),
    decreases stmts, stmts.len() - i,
{
    if 0 <= i < stmts.len() {
        lemma_vars(scope, stmts[i], vars);
        let next = scope_after(scope, stmts[i]);
        lemma_vars_all(next, stmts, i + 1, vars_after(vars, stmts[i]));
        assert forall|d: DefId| #[trigger] scope.contains(d) implies lookup(vars_after_all(vars, stmts, i), d) == lookup(vars, d) by {
            assert(next.contains(d));
        }
    }
}

/// Only these variables are in scope.
spec fn within_scope(s: GenState, scope: Set<DefId>) -> bool {
    forall|d: DefId| #[trigger] s.vars.dom().contains(d) ==> scope.contains(d)
}

/// The variables of a state, in another state with other knowledge of them.
proof fn lemma_restored(
    s: GenState,
    t: GenState,
    a: Map<DefId, HirTypeV>,
    b: Map<DefId, HirTypeV>,
    scope: Set<DefId>,
    taken: Set<DefId>,
    e: Plan,
)
    requires
        wvars(s, a, taken, e),
        within_scope(s, scope),
        same_on(scope, a, b),
        t.vars == s.vars,
        prog(s, e) is Some,
        prog(t, e) is Some,
        kept(prog(s, e)->0, prog(t, e)->0),
    ensures
        wvars(t, b, taken, e),
{
    lemma_wide(s, t, a, taken, e);
    reveal(wvars);
}

// Steps that give variables values

/// What was there stays, and each step that was added and gives a variable a
/// value gives it one of its own width.
#[verifier::opaque]
spec fn fitted(s: GenState, t: GenState, e: Plan) -> bool {
    &&& s.steps.len() <= t.steps.len()
    &&& forall|i: int| 0 <= i < s.steps.len() ==> #[trigger] t.steps[i] == s.steps[i]
    &&& forall|i: int| s.steps.len() <= i < t.steps.len() ==> (#[trigger] t.steps[i] matches StepV::SetVar(x, v) ==> (run_any(t.steps, i, e) matches Some(p) && value_width(p, v) == variable_width(p, x)))
}

proof fn lemma_fitted(s: GenState, t: GenState, u: GenState, e: Plan)
    ensures
        quiet(s, t) ==> fitted(s, t, e),
        quiet(t, u) ==> fitted(t, u, e),
        fitted(s, t, e) && fitted(t, u, e) ==> fitted(s, u, e),
{
    reveal(fitted);
    reveal(quiet);
    if fitted(s, t, e) && fitted(t, u, e) {
        assert forall|i: int| 0 <= i < s.steps.len() implies #[trigger] u.steps[i] == s.steps[i] by {
            assert(u.steps[i] == t.steps[i]);
        }
        assert forall|i: int| s.steps.len() <= i < u.steps.len() implies (#[trigger] u.steps[i] matches StepV::SetVar(x, v) ==> (run_any(u.steps, i, e) matches Some(p) && value_width(p, v) == variable_width(p, x))) by {
            if i < t.steps.len() {
                assert(u.steps[i] == t.steps[i]);
                assert forall|j: int| 0 <= j < i implies u.steps[j] == t.steps[j] by {}
                lemma_run_prefix(u.steps, t.steps, i, e);
            }
        }
    }
}

/// Other variables make no difference to the steps.
proof fn lemma_same_steps(s: GenState, t: GenState, u: GenState, e: Plan)
    requires
        u.steps == t.steps,
    ensures
        fitted(s, t, e) ==> fitted(s, u, e),
        fitted(t, s, e) ==> fitted(u, s, e),
        quiet(t, u),
        prog(u, e) == prog(t, e),
{
    reveal(fitted);
    reveal(quiet);
}

/// A step that gives a variable a value of its own width.
proof fn lemma_set(s: GenState, x: usize, v: usize, w: u16, e: Plan)
    requires
        wvar(s, x, w, e),
        wval(s, v, w, e),
    ensures
        fitted(s, emit(s, StepV::SetVar(x, v)), e),
{
    reveal(fitted);
    reveal(wvar);
    reveal(wval);
    let t = emit(s, StepV::SetVar(x, v));
    lemma_run_prefix(t.steps, s.steps, s.steps.len() as int, e);
}

// Local variables

proof fn lemma_wbind(
    env: GenEnv,
    s: GenState,
    d: DefId,
    t: HirTypeV,
    v: usize,
    vars: Map<DefId, HirTypeV>,
    taken: Set<DefId>,
    e: Plan,
    n: nat,
)
    requires
        e.machine.ptr_bytes == 8,
        g_bind(env, s, d, t, v, taken.contains(d)).1 is Ok,
        ready(s, e),
        small(g_bind(env, s, d, t, v, taken.contains(d)).0, n),
        wval(s, v, wid(t), e),
        wvars(s, vars, taken, e),
    ensures
        ({
                let r = g_bind(env, s, d, t, v, taken.contains(d)).0;
                &&& fitted(s, r, e)
                &&& wvars(r, vars.insert(d, t), taken, e)
                &&& r.vars.dom() == s.vars.dom().insert(d)
        }),
{
    let r = g_bind(env, s, d, t, v, taken.contains(d)).0;
    lemma_val(s, v, wid(t), e);
    if taken.contains(d) && !is_aggregate(t) {
        let size = g_size(env, t)->Ok_0;
        let align = g_align(env, t)->Ok_0;
        let a = StepV::CreateSlot(size, align as u8);
        let s1 = emit(s, a);
        let s2 = emit(s1, StepV::SlotAddr(next_step(s)));
        let s3 = emit(s2, StepV::Store(v, next_step(s1)));
        lemma_step(s, a, e, n);
        lemma_step(s1, StepV::SlotAddr(next_step(s)), e, n);
        lemma_step(s2, StepV::Store(v, next_step(s1)), e, n);
        lemma_chain(s, s1, s2, e);
        lemma_chain(s1, s2, s3, e);
        lemma_chain(s, s2, s3, e);
        lemma_fitted(s, s3, s3, e);
        lemma_same_steps(s, s3, r, e);
        lemma_wide_after(s, s3, vars, taken, e);
        reveal(wvars);
        reveal(wvar);
    } else {
        let ir = g_type(env, t)->Ok_0;
        let s1 = emit(s, StepV::DeclareVar(ir));
        let s2 = emit(s1, StepV::SetVar(next_step(s), v));
        lemma_step(s, StepV::DeclareVar(ir), e, n);
        lemma_chain(s, s1, s1, e);
        lemma_wide_after(s, s1, vars, taken, e);
        assert(wvar(s1, next_step(s), wid(t), e)) by {
            lemma_emit(s, StepV::DeclareVar(ir), e);
            reveal(ready);
            reveal(wvar);
        }
        lemma_step(s1, StepV::SetVar(next_step(s), v), e, n);
        lemma_val(s1, next_step(s), wid(t), e);
        lemma_val(s1, v, wid(t), e);
        lemma_set(s1, next_step(s), v, wid(t), e);
        lemma_fitted(s, s1, s2, e);
        lemma_same_steps(s, s2, r, e);
        lemma_wide_after(s1, s2, vars, taken, e);
        assert(wvar(s2, next_step(s), wid(t), e));
        reveal(wvars);
        reveal(wvar);
    }
}

proof fn lemma_wset_local(env: GenEnv, s: GenState, info: LocalVarV, v: usize, e: Plan, n: nat)
    requires
        e.machine.ptr_bytes == 8,
        g_set_local(env, s, info, v).1 is Ok,
        ready(s, e),
        small(g_set_local(env, s, info, v).0, n),
        placed(s, info, e),
        wval(s, v, wid(info.ty), e),
        info.var matches Some(x) ==> wvar(s, x, wid(info.ty), e),
    ensures
        fitted(s, g_set_local(env, s, info, v).0, e),
{
    let r = g_set_local(env, s, info, v).0;
    lemma_val(s, v, wid(info.ty), e);
    match info.slot {
        Some(x) => {
            let s1 = emit(s, StepV::SlotAddr(x));
            lemma_step(s, StepV::SlotAddr(x), e, n);
            lemma_step(s1, StepV::Store(v, next_step(s)), e, n);
            lemma_chain(s, s1, r, e);
            lemma_fitted(s, r, r, e);
        },
        None => {
            let x = info.var->0;
            if info.ty is Named || info.ty is Array {
                let s1 = emit(s, StepV::GetVar(x));
                lemma_step(s, StepV::GetVar(x), e, n);
                lemma_write(env, s1, v, info.ty, next_step(s), e, n);
                lemma_chain(s, s1, r, e);
                lemma_fitted(s, r, r, e);
            } else {
                lemma_copy(env, s, v, info.ty, e, n);
                let a = g_copy(env, s, v, info.ty);
                lemma_wcopy(env, s, v, info.ty, e, n);
                lemma_chain(s, a.0, a.0, e);
                lemma_wide_after(s, a.0, Map::empty(), Set::empty(), e);
                lemma_set(a.0, x, a.1->Ok_0, wid(info.ty), e);
                lemma_fitted(s, a.0, r, e);
            }
        },
    }
}

/// What is known before a statement.
spec fn known_stmt(
    g: Definitions,
    s: GenState,
    vars: Map<DefId, HirTypeV>,
    scope: Set<DefId>,
    st: TyHirStmtV,
    c: FnScope,
    e: Plan,
) -> bool {
    &&& wvars(s, vars, c.taken, e)
    &&& within_scope(s, scope)
    &&& room_ok(s, c, e)
    &&& ok_stmt(g, vars, st, c.ret)
    &&& fresh_stmt(scope, st)
    &&& forall|d: DefId| #[trigger] takes_stmt(st, d) ==> c.taken.contains(d)
}

/// What is known before a list of statements.
spec fn known_stmts(
    g: Definitions,
    s: GenState,
    vars: Map<DefId, HirTypeV>,
    scope: Set<DefId>,
    stmts: Seq<TyHirStmtV>,
    c: FnScope,
    i: int,
    e: Plan,
) -> bool {
    &&& wvars(s, vars, c.taken, e)
    &&& within_scope(s, scope)
    &&& room_ok(s, c, e)
    &&& ok_stmts(g, vars, stmts, c.ret, i)
    &&& fresh_stmts(scope, stmts, i)
    &&& forall|d: DefId| #[trigger] takes_stmts(stmts, d) ==> c.taken.contains(d)
}

/// The machine and the links that code is made for.
spec fn typed_plan(env: GenEnv, e: Plan, n: nat) -> bool {
    e.machine.ptr_bytes == 8 && linked(env, e, n) && typed_links(env, e) && n <= usize::MAX
}

proof fn lemma_wassign(
    env: GenEnv,
    s: GenState,
    st: TyHirStmtV,
    c: FnScope,
    g: Definitions,
    vars: Map<DefId, HirTypeV>,
    scope: Set<DefId>,
    e: Plan,
    n: nat,
)
    requires
        st is Assign,
        typed_plan(env, e, n),
        g_stmt(env, s, st, c).1 is Ok,
        ready(s, e),
        small(g_stmt(env, s, st, c).0, n),
        known_stmt(g, s, vars, scope, st, c, e),
    ensures
        fitted(s, g_stmt(env, s, st, c).0, e),
        wvars(g_stmt(env, s, st, c).0, vars, c.taken, e),
        g_stmt(env, s, st, c).0.vars == s.vars,
{
    if let TyHirStmtV::Assign { target, value } = st {
        let r = g_assign(env, s, target, value).0;
        lemma_assign(env, s, target, value, e, n);
        lemma_chain(s, r, r, e);
        lemma_wide_after(s, r, vars, c.taken, e);
        assert forall|d: DefId| #[trigger] takes_expr(value, d) implies c.taken.contains(d) by {
            assert(takes_stmt(st, d));
        }
        match target.kind {
            TyHirExprKindV::Path(d) => {
                match lookup(s.vars, d) {
                    Some(info) => {
                        lemma_expr(env, s, value, info.ty, e, n);
                        let a = g_expr(env, s, value, info.ty);
                        assert(ok_kind(g, vars, target.kind, target.ty));
                        assert(ok_kind(g, vars, value.kind, value.ty));
                        assert(lookup(vars, d) == Some(info.ty) && (info.var matches Some(x) ==> wvar(s, x, wid(info.ty), e))) by {
                            reveal(wvars);
                        }
                        lemma_placed(s, d, e);
                        let b = g_set_local(env, a.0, info, a.1->Ok_0);
                        lemma_set_local(env, a.0, info, a.1->Ok_0, e, n);
                        lemma_wexpr(env, s, value, info.ty, g, vars, c.taken, e, n);
                        lemma_chain(s, a.0, a.0, e);
                        lemma_wide_after(s, a.0, vars, c.taken, e);
                        lemma_wset_local(env, a.0, info, a.1->Ok_0, e, n);
                        lemma_fitted(s, a.0, b.0, e);
                    },
                    None => {
                        let t = env.data[d];
                        let sym = StepV::Symbol(DataRef::Global(d));
                        let s0 = emit(s, sym);
                        lemma_step(s, sym, e, n);
                        lemma_expr(env, s0, value, t, e, n);
                        let a = g_expr(env, s0, value, t);
                        lemma_write(env, a.0, a.1->Ok_0, t, next_step(s), e, n);
                        lemma_chain(s, s0, a.0, e);
                        lemma_chain(s, a.0, r, e);
                        lemma_fitted(s, r, r, e);
                    },
                }
            },
            _ => {
                lemma_place(env, s, target, e, n);
                let a = g_place(env, s, target);
                lemma_expr(env, a.0, value, target.ty, e, n);
                let b = g_expr(env, a.0, value, target.ty);
                lemma_write(env, b.0, b.1->Ok_0, target.ty, a.1->Ok_0, e, n);
                lemma_chain(s, a.0, b.0, e);
                lemma_chain(s, b.0, r, e);
                lemma_fitted(s, r, r, e);
            },
        }
    }
}

#[verifier::spinoff_prover]
#[verifier::rlimit(60)]
proof fn lemma_wif(
    env: GenEnv,
    s: GenState,
    st: TyHirStmtV,
    c: FnScope,
    g: Definitions,
    vars: Map<DefId, HirTypeV>,
    scope: Set<DefId>,
    e: Plan,
    n: nat,
)
    requires
        st is If,
        typed_plan(env, e, n),
        g_stmt(env, s, st, c).1 is Ok,
        ready(s, e),
        small(g_stmt(env, s, st, c).0, n),
        known_stmt(g, s, vars, scope, st, c, e),
    ensures
        fitted(s, g_stmt(env, s, st, c).0, e),
        wvars(g_stmt(env, s, st, c).0, vars_after(vars, st), c.taken, e),
        g_stmt(env, s, st, c).0.vars == s.vars,
    decreases st, 0int,
{
    if let TyHirStmtV::If { cond, then_branch, else_branch } = st {
        lemma_expr(env, s, cond, HirTypeV::Int, e, n);
        let a = g_expr(env, s, cond, HirTypeV::Int);
        let v = a.1->Ok_0;
        let t = g_test(a.0, v);
        lemma_test(a.0, v, e, n);
        let at = next_step(t.0);
        let b0 = g_if_blocks(t.0, t.1);
        lemma_if_blocks(t.0, t.1, e, n);
        lemma_block(env, b0, then_branch.stmts, c, e, n);
        let b = g_block(env, b0, then_branch.stmts, c);
        let x = b.1->Ok_0;
        let s3 = GenState { vars: s.vars, ..g_if_else(b.0, at, x) };
        lemma_else(env, s3, else_branch, c, e, n);
        let d = g_else(env, s3, else_branch, c);
        let y = d.1->Ok_0;
        let r = g_if_end(d.0, at, y);
        let u = GenState { vars: s.vars, ..r.0 };
        lemma_chain(s, a.0, t.0, e);
        lemma_chain(a.0, t.0, t.0, e);
        lemma_chain(s, t.0, t.0, e);
        assert(after(s, t.0, e));
        let p = prog(t.0, e)->0;
        assert(p.made.len() == t.0.steps.len() && crate::backend::whole::vars_ok(s.vars, p)) by {
            reveal(ready);
        }
        assert(p.made.len() == at as nat);
        lemma_room_kept(t.0, b0, c, e);
        assert(room_ok(b0, c, e));
        assert(moved(b0, b.0, e));
        lemma_if_else(p, b0, b.0, x, s.vars, e, n);
        assert(small(g_if_else(b.0, at, x), n));
        lemma_room_kept(t.0, s3, c, e);
        assert(moved(s3, d.0, e));
        lemma_if_end(p, s3, d.0, y, e, n);
        lemma_scope_end(t.0, r.0, r.1, e);
        // What is known of the variables at each of these places.
        let inner = vars_after_all(vars, then_branch.stmts, 0);
        lemma_vars_all(scope, then_branch.stmts, 0, vars);
        lemma_vars(scope, st, vars);
        lemma_wide_after(s, t.0, vars, c.taken, e);
        assert(prog(t.0, e) is Some && prog(b0, e) is Some && prog(s3, e) is Some && prog(r.0, e) is Some) by {
            reveal(ready);
        }
        lemma_wide(t.0, b0, vars, c.taken, e);
        assert forall|k: DefId| #[trigger] takes_stmts(then_branch.stmts, k) implies c.taken.contains(k) by {
            assert(takes_stmt(st, k));
        }
        lemma_wblock(env, b0, then_branch.stmts, c, g, vars, scope, e, n);
        lemma_restored(t.0, s3, vars, inner, scope, c.taken, e);
        if let Some(other) = else_branch {
            assert forall|k: DefId| #[trigger] takes_stmts(other.stmts, k) implies c.taken.contains(k) by {
                assert(takes_stmt(st, k));
            }
            lemma_wblock(env, s3, other.stmts, c, g, inner, scope, e, n);
        } else {
            lemma_null(s3, e, n);
            lemma_fitted(s3, d.0, d.0, e);
        }
        lemma_same_steps(r.0, r.0, u, e);
        lemma_restored(t.0, u, vars, vars_after(vars, st), scope, c.taken, e);
        // The steps.
        assert(quiet(t.0, b0) && quiet(b.0, g_if_else(b.0, at, x)) && quiet(d.0, r.0)) by {
            reveal(quiet);
        }
        lemma_fitted(s, t.0, b0, e);
        lemma_fitted(s, b0, b.0, e);
        lemma_fitted(b.0, g_if_else(b.0, at, x), g_if_else(b.0, at, x), e);
        lemma_fitted(s, b.0, g_if_else(b.0, at, x), e);
        lemma_same_steps(s, g_if_else(b.0, at, x), s3, e);
        lemma_fitted(s, s3, d.0, e);
        lemma_fitted(s, d.0, r.0, e);
        lemma_same_steps(s, r.0, u, e);
    }
}

#[verifier::spinoff_prover]
#[verifier::rlimit(60)]
proof fn lemma_wwhile(
    env: GenEnv,
    s: GenState,
    st: TyHirStmtV,
    c: FnScope,
    g: Definitions,
    vars: Map<DefId, HirTypeV>,
    scope: Set<DefId>,
    e: Plan,
    n: nat,
)
    requires
        st is While,
        typed_plan(env, e, n),
        g_stmt(env, s, st, c).1 is Ok,
        ready(s, e),
        small(g_stmt(env, s, st, c).0, n),
        known_stmt(g, s, vars, scope, st, c, e),
    ensures
        fitted(s, g_stmt(env, s, st, c).0, e),
        wvars(g_stmt(env, s, st, c).0, vars_after(vars, st), c.taken, e),
        g_stmt(env, s, st, c).0.vars == s.vars,
    decreases st, 0int,
{
    if let TyHirStmtV::While { cond, body } = st {
        let at = next_step(s);
        let w = g_while_blocks(s);
        lemma_while_blocks(s, e, n);
        lemma_expr(env, w, cond, HirTypeV::Int, e, n);
        let a = g_expr(env, w, cond, HirTypeV::Int);
        let v = a.1->Ok_0;
        let b0 = g_while_body(a.0, at, v);
        lemma_block(env, b0, body.stmts, c, e, n);
        let b = g_block(env, b0, body.stmts, c);
        let r = g_while_end(b.0, at);
        let u = GenState { vars: s.vars, ..r.0 };
        let p = prog(s, e)->0;
        assert(p.made.len() == s.steps.len()) by {
            reveal(ready);
        }
        assert(small(w, n) && small(a.0, n) && small(b0, n) && small(b.0, n));
        lemma_while_body(p, w, a.0, v, e, n);
        lemma_room_kept(s, b0, c, e);
        lemma_while_end(p, b0, b.0, e, n);
        lemma_scope_end(s, r.0, r.1, e);
        // What is known of the variables at each of these places.
        lemma_vars(scope, st, vars);
        assert(prog(s, e) is Some && prog(w, e) is Some && prog(b0, e) is Some && prog(r.0, e) is Some) by {
            reveal(ready);
        }
        lemma_wide(s, b0, vars, c.taken, e);
        assert forall|k: DefId| #[trigger] takes_stmts(body.stmts, k) implies c.taken.contains(k) by {
            assert(takes_stmt(st, k));
        }
        lemma_wblock(env, b0, body.stmts, c, g, vars, scope, e, n);
        lemma_same_steps(r.0, r.0, u, e);
        lemma_restored(s, u, vars, vars_after(vars, st), scope, c.taken, e);
        // The steps.
        assert(quiet(s, w) && quiet(a.0, b0) && quiet(b.0, r.0)) by {
            reveal(quiet);
        }
        lemma_fitted(s, w, a.0, e);
        lemma_fitted(s, a.0, b0, e);
        lemma_fitted(a.0, b0, b0, e);
        lemma_fitted(s, b0, b.0, e);
        lemma_fitted(s, b.0, r.0, e);
        lemma_same_steps(s, r.0, u, e);
    }
}

#[verifier::spinoff_prover]
#[verifier::rlimit(40)]
proof fn lemma_wstmt(
    env: GenEnv,
    s: GenState,
    st: TyHirStmtV,
    c: FnScope,
    g: Definitions,
    vars: Map<DefId, HirTypeV>,
    scope: Set<DefId>,
    e: Plan,
    n: nat,
)
    requires
        typed_plan(env, e, n),
        g_stmt(env, s, st, c).1 is Ok,
        ready(s, e),
        small(g_stmt(env, s, st, c).0, n),
        known_stmt(g, s, vars, scope, st, c, e),
    ensures
        fitted(s, g_stmt(env, s, st, c).0, e),
        wvars(g_stmt(env, s, st, c).0, vars_after(vars, st), c.taken, e),
        within_scope(g_stmt(env, s, st, c).0, scope_after(scope, st)),
    decreases st, 1int,
{
    let r = g_stmt(env, s, st, c);
    match st {
        TyHirStmtV::Let { def_id, ty, init, .. } => {
            lemma_expr(env, s, init, ty, e, n);
            let a = g_expr(env, s, init, ty);
            let raw = a.1->Ok_0;
            lemma_copy(env, a.0, raw, ty, e, n);
            let b = g_copy(env, a.0, raw, ty);
            let v = b.1->Ok_0;
            lemma_bind(env, b.0, def_id, ty, v, c.taken.contains(def_id), e, n);
            lemma_chain(s, a.0, b.0, e);
            lemma_chain(a.0, b.0, b.0, e);
            lemma_chain(s, b.0, b.0, e);
            assert(ok_kind(g, vars, init.kind, init.ty));
            assert forall|d: DefId| #[trigger] takes_expr(init, d) implies c.taken.contains(d) by {
                assert(takes_stmt(st, d));
            }
            lemma_wexpr(env, s, init, ty, g, vars, c.taken, e, n);
            lemma_wcopy(env, a.0, raw, ty, e, n);
            lemma_wide_after(s, b.0, vars, c.taken, e);
            lemma_wbind(env, b.0, def_id, ty, v, vars, c.taken, e, n);
            lemma_fitted(s, b.0, r.0, e);
        },
        TyHirStmtV::Assign { .. } => {
            lemma_wassign(env, s, st, c, g, vars, scope, e, n);
        },
        TyHirStmtV::Expr(x) => {
            lemma_expr(env, s, x, x.ty, e, n);
            lemma_chain(s, r.0, r.0, e);
            lemma_wide_after(s, r.0, vars, c.taken, e);
            lemma_fitted(s, r.0, r.0, e);
        },
        TyHirStmtV::If { .. } => {
            lemma_wif(env, s, st, c, g, vars, scope, e, n);
        },
        TyHirStmtV::While { .. } => {
            lemma_wwhile(env, s, st, c, g, vars, scope, e, n);
        },
        TyHirStmtV::Return(value) => {
            lemma_return_value(env, s, value, c, e, n);
            let a = g_return_value(env, s, value, c);
            let v = a.1->Ok_0;
            lemma_return(a.0, v, e, n);
            lemma_chain(s, a.0, a.0, e);
            lemma_wide_after(s, a.0, vars, c.taken, e);
            assert(quiet(a.0, r.0)) by {
                reveal(quiet);
            }
            lemma_fitted(s, a.0, r.0, e);
            assert(prog(a.0, e) is Some && prog(r.0, e) is Some && kept(prog(a.0, e)->0, prog(r.0, e)->0)) by {
                reveal(moved);
                reveal(ready);
            }
            lemma_wide(a.0, r.0, vars, c.taken, e);
        },
    }
}

proof fn lemma_wblock(
    env: GenEnv,
    s: GenState,
    stmts: Seq<TyHirStmtV>,
    c: FnScope,
    g: Definitions,
    vars: Map<DefId, HirTypeV>,
    scope: Set<DefId>,
    e: Plan,
    n: nat,
)
    requires
        typed_plan(env, e, n),
        g_block(env, s, stmts, c).1 is Ok,
        ready(s, e),
        small(g_block(env, s, stmts, c).0, n),
        known_stmts(g, s, vars, scope, stmts, c, 0, e),
    ensures
        fitted(s, g_block(env, s, stmts, c).0, e),
    decreases stmts, stmts.len() + 1,
{
    let a = g_null(s);
    lemma_null(s, e, n);
    lemma_stmts(env, a.0, stmts, c, 0, a.1, e, n);
    lemma_chain(s, a.0, a.0, e);
    lemma_wide_after(s, a.0, vars, c.taken, e);
    lemma_wstmts(env, a.0, stmts, c, g, vars, scope, 0, a.1, e, n);
    lemma_fitted(s, a.0, g_block(env, s, stmts, c).0, e);
}

proof fn lemma_wstmts(
    env: GenEnv,
    s: GenState,
    stmts: Seq<TyHirStmtV>,
    c: FnScope,
    g: Definitions,
    vars: Map<DefId, HirTypeV>,
    scope: Set<DefId>,
    i: int,
    last: usize,
    e: Plan,
    n: nat,
)
    requires
        typed_plan(env, e, n),
        0 <= i,
        g_stmts(env, s, stmts, c, i, last).1 is Ok,
        ready(s, e),
        small(g_stmts(env, s, stmts, c, i, last).0, n),
        known_stmts(g, s, vars, scope, stmts, c, i, e),
        val(s, last, e),
    ensures
        fitted(s, g_stmts(env, s, stmts, c, i, last).0, e),
    decreases stmts, stmts.len() - i,
{
    lemma_same(s, e);
    lemma_fitted(s, s, s, e);
    if i < stmts.len() {
        lemma_stmt(env, s, stmts[i], c, e, n);
        let a = g_stmt(env, s, stmts[i], c);
        let v = a.1->Ok_0;
        lemma_stmts(env, a.0, stmts, c, i + 1, v, e, n);
        assert forall|d: DefId| #[trigger] takes_stmt(stmts[i], d) implies c.taken.contains(d) by {
            assert(takes_stmts(stmts, d));
        }
        lemma_wstmt(env, s, stmts[i], c, g, vars, scope, e, n);
        lemma_moved(s, a.0, a.0, e);
        lemma_wstmts(
            env,
            a.0,
            stmts,
            c,
            g,
            vars_after(vars, stmts[i]),
            scope_after(scope, stmts[i]),
            i + 1,
            v,
            e,
            n,
        );
        lemma_fitted(s, a.0, g_stmts(env, s, stmts, c, i, last).0, e);
    }
}

// Functions

/// The variables that the parameters of a function are.
pub open spec fn param_scope(ps: Seq<TyHirParamV>) -> Set<DefId> {
    Set::new(|d: DefId| exists|i: int| 0 <= i < ps.len() && (#[trigger] ps[i]).def_id == d)
}

/// The parameters of the entry block behind the first `skip` have the widths of
/// the parameters of the function.
#[verifier::opaque]
spec fn entry_widths(s: GenState, ps: Seq<TyHirParamV>, skip: usize, e: Plan) -> bool {
    prog(s, e) matches Some(p) && p.made.len() > 0 && p.made[0] == Made::Block && p.params[0].len() == ps.len() + skip && forall|j: int| 0 <= j < ps.len() ==> p.params[0][j + skip] == wid((#[trigger] ps[j]).ty)
}

proof fn lemma_entry_widths(s: GenState, t: GenState, ps: Seq<TyHirParamV>, skip: usize, e: Plan)
    ensures
        moved(s, t, e) && entry_widths(s, ps, skip, e) ==> entry_widths(t, ps, skip, e),
        entry_widths(s, ps, skip, e) ==> entry_ok(s, ps.len() + skip, e),
{
    reveal(moved);
    reveal(ready);
    reveal(entry_widths);
    reveal(entry_ok);
}

proof fn lemma_wparams(
    env: GenEnv,
    s: GenState,
    ps: Seq<TyHirParamV>,
    taken: Set<DefId>,
    skip: usize,
    i: int,
    vars: Map<DefId, HirTypeV>,
    e: Plan,
    n: nat,
)
    requires
        e.machine.ptr_bytes == 8,
        skip <= 1,
        0 <= i,
        i + 4 <= s.steps.len(),
        g_params(env, s, ps, taken, 0, skip, i).1 is Ok,
        ready(s, e),
        small(g_params(env, s, ps, taken, 0, skip, i).0, n),
        entry_widths(s, ps, skip, e),
        wvars(s, vars, taken, e),
        within_scope(s, param_scope(ps)),
    ensures
        ({
                let r = g_params(env, s, ps, taken, 0, skip, i).0;
                &&& fitted(s, r, e)
                &&& wvars(r, with_params(vars, ps, i), taken, e)
                &&& within_scope(r, param_scope(ps))
        }),
    decreases ps.len() - i,
{
    lemma_same(s, e);
    lemma_fitted(s, s, s, e);
    if i < ps.len() {
        let j = (i + skip) as usize;
        let st = StepV::Param(0, j);
        let s1 = emit(s, st);
        let d = ps[i].def_id;
        let t = ps[i].ty;
        lemma_bind(env, s1, d, t, next_step(s), taken.contains(d), e, n);
        let a = g_bind(env, s1, d, t, next_step(s), taken.contains(d));
        lemma_params(env, a.0, ps, taken, skip, i + 1, e, n);
        let b = g_params(env, a.0, ps, taken, 0, skip, i + 1);
        assert(ready(s, e) && small(s1, n));
        assert(j == i + skip) by {
            reveal(ready);
        }
        lemma_entry_widths(s, s, ps, skip, e);
        lemma_param(s, j, ps.len() + skip, e, n);
        lemma_chain(s, s1, s1, e);
        lemma_after_moved(s, s1, e);
        assert(wval(s1, next_step(s), wid(t), e)) by {
            lemma_emit(s, st, e);
            reveal(ready);
            reveal(entry_widths);
            reveal(wval);
        }
        lemma_wide_after(s, s1, vars, taken, e);
        lemma_wbind(env, s1, d, t, next_step(s), vars, taken, e, n);
        lemma_fitted(s, s1, a.0, e);
        lemma_moved(s, s1, a.0, e);
        lemma_moved(s1, a.0, a.0, e);
        lemma_entry_widths(s, a.0, ps, skip, e);
        assert(param_scope(ps).contains(d)) by {
            assert(ps[i].def_id == d);
        }
        assert(i + 1 + 4 <= a.0.steps.len());
        lemma_wparams(env, a.0, ps, taken, skip, i + 1, vars.insert(d, t), e, n);
        lemma_fitted(s, a.0, b.0, e);
    }
}

/// The code of a well-typed function makes a function, where pointers have eight
/// bytes and every block has room for its parameters: it is never refused.
///
/// `vars` are the types of the global variables. No variable that is in scope is
/// bound again, as every definition has a number of its own.
#[verifier::spinoff_prover]
pub proof fn law_typed_code_makes_a_function(
    env: GenEnv,
    strings: Seq<Seq<char>>,
    ps: Seq<TyHirParamV>,
    ret: HirTypeV,
    stmts: Seq<TyHirStmtV>,
    g: Definitions,
    vars: Map<DefId, HirTypeV>,
    sig: CodeSignatureV,
    e: Plan,
)
    requires
        ok_stmts(g, with_params(vars, ps, 0), stmts, ret, 0),
        fresh_stmts(param_scope(ps), stmts, 0),
        g_function(env, strings, ps, ret, stmts).1 is Ok,
        g_function(env, strings, ps, ret, stmts).0.steps.len() <= usize::MAX,
        g_function(env, strings, ps, ret, stmts).0.strings.len() <= usize::MAX,
        g_signature(env, param_types_of(ps), ret, Seq::empty()) == Ok::<CodeSignatureV, crate::error::MplangErrorV>(sig),
        e.shape == shape_for(sig, e.machine),
        e.machine.ptr_bytes == 8,
        roomy(g_function(env, strings, ps, ret, stmts).0.steps, e.shape.params.len()),
        linked(env, e, g_function(env, strings, ps, ret, stmts).0.strings.len()),
        typed_links(env, e),
    ensures
        is_valid(g_function(env, strings, ps, ret, stmts).0.steps, e),
{
    law_signature_shape(env, param_types_of(ps), ret, Seq::empty(), sig);
    law_code_makes_a_function(env, strings, ps, ret, stmts, e);
    let f = g_function(env, strings, ps, ret, stmts).0;
    let n = f.strings.len();
    reveal(g_function);
    let taken = taken_stmts(stmts, 0, Set::empty());
    let s = g_entry(strings);
    let r = g_sret(s, ret);
    let skip = if is_aggregate(ret) { 1usize } else { 0usize };
    let c = FnScope { ret, room: r.1, taken };
    let k = e.shape.params.len() as int;
    lemma_entry(strings, e);
    lemma_params(env, r.0, ps, taken, skip, 0, e, n);
    let a = g_params(env, r.0, ps, taken, 0, skip, 0);
    lemma_block(env, a.0, stmts, c, e, n);
    let b = g_block(env, a.0, stmts, c);
    lemma_same(s, e);
    lemma_after_moved(s, s, e);
    if is_aggregate(ret) {
        lemma_param(s, 0, k, e, n);
        lemma_after_moved(s, r.0, e);
    }
    assert(moved(s, r.0, e) && room_ok(r.0, c, e) && quiet(s, r.0));
    lemma_moved(s, r.0, a.0, e);
    lemma_entry_kept(s, r.0, k, e);
    lemma_moved(r.0, a.0, b.0, e);
    assert(entry_widths(s, ps, skip, e)) by {
        reveal(entry_widths);
        reveal(ready);
        crate::backend::flow::lemma_entry_params(strings, e);
        assert forall|j: int| 0 <= j < ps.len() implies e.shape.params[j + skip] == wid((#[trigger] ps[j]).ty) by {
            assert(param_types_of(ps)[j] == ps[j].ty);
        }
    }
    lemma_entry_widths(s, r.0, ps, skip, e);
    assert(wvars(r.0, vars, taken, e)) by {
        reveal(wvars);
    }
    lemma_wparams(env, r.0, ps, taken, skip, 0, vars, e, n);
    assert forall|d: DefId| #[trigger] takes_stmts(stmts, d) implies taken.contains(d) by {
        law_taken_is_exact(stmts, d);
    }
    lemma_wblock(env, a.0, stmts, c, g, with_params(vars, ps, 0), param_scope(ps), e, n);
    lemma_fitted(s, r.0, a.0, e);
    lemma_fitted(s, a.0, b.0, e);
    assert(quiet(b.0, f)) by {
        reveal(quiet);
    }
    lemma_fitted(s, b.0, f, e);
    assert(fits(f.steps, f.steps.len() as int, e)) by {
        reveal(fitted);
        assert forall|i: int| 0 <= i < f.steps.len() implies (#[trigger] f.steps[i] matches StepV::SetVar(x, v) ==> (run_any(f.steps, i, e) matches Some(p) && value_width(p, v) == variable_width(p, x))) by {
            if i < 4 {
                assert(f.steps[i] == s.steps[i]);
            }
        }
    }
}

} // verus!

