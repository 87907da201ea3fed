//! What checking keeps of a program.

use crate::hir::{DefId, HirCompilationUnitV, HirItemV, HirParamV, HirStmtV, HirTypeV};
use crate::lowering::defined::params_ids;
use crate::tycheck::rules::{
    c_expr, c_item, c_items, c_stmt, c_stmts, checked, collect_module, enter_params, typed_param,
    CheckState,
};
use crate::tyhir::{TyHirItemV, TyHirParamV, TyHirStmtV};
use vstd::prelude::*;

verus! {

/// The variables that a statement and the statements in it bind.
pub open spec fn resolved_local(st: HirStmtV) -> Seq<DefId>
    decreases st, 0int,
{
    match st {
        HirStmtV::Let { def_id, .. } => seq![def_id],
        HirStmtV::If { then_branch, else_branch, .. } => match else_branch {
            Some(b) => resolved_locals(then_branch.stmts, 0) + resolved_locals(b.stmts, 0),
            None => resolved_locals(then_branch.stmts, 0),
        },
        HirStmtV::While { body, .. } => resolved_locals(body.stmts, 0),
        _ => Seq::empty(),
    }
}

/// The variables that the statements from `i` on bind.
pub open spec fn resolved_locals(stmts: Seq<HirStmtV>, i: int) -> Seq<DefId>
    decreases stmts, stmts.len() - i,
{
    if i < 0 || i >= stmts.len() {
        Seq::empty()
    } else {
        resolved_local(stmts[i]) + resolved_locals(stmts, i + 1)
    }
}

/// The functions among the items from `i` on and in their modules, each with its
/// parameters and local variables.
pub open spec fn resolved_functions(items: Seq<HirItemV>, i: int) -> Seq<(DefId, Seq<DefId>)>
    decreases items, items.len() - i,
{
    if i < 0 || i >= items.len() {
        Seq::empty()
    } else {
        (match items[i] {
            HirItemV::Module(m) => resolved_functions(m.items, 0),
            HirItemV::ExternFn { def_id, .. } => seq![(def_id, Seq::empty())],
            HirItemV::Fn { def_id, params, body, .. } => seq![
                (def_id, params_ids(params, 0) + resolved_locals(body.stmts, 0)),
            ],
            _ => Seq::empty(),
        }) + resolved_functions(items, i + 1)
    }
}

/// The variables that a typed statement and the statements in it bind.
pub open spec fn typed_local(st: TyHirStmtV) -> Seq<DefId>
    decreases st, 0int,
{
    match st {
        TyHirStmtV::Let { def_id, .. } => seq![def_id],
        TyHirStmtV::If { then_branch, else_branch, .. } => match else_branch {
            Some(b) => typed_locals(then_branch.stmts, 0) + typed_locals(b.stmts, 0),
            None => typed_locals(then_branch.stmts, 0),
        },
        TyHirStmtV::While { body, .. } => typed_locals(body.stmts, 0),
        _ => Seq::empty(),
    }
}

/// The variables that the typed statements from `i` on bind.
pub open spec fn typed_locals(stmts: Seq<TyHirStmtV>, i: int) -> Seq<DefId>
    decreases stmts, stmts.len() - i,
{
    if i < 0 || i >= stmts.len() {
        Seq::empty()
    } else {
        typed_local(stmts[i]) + typed_locals(stmts, i + 1)
    }
}

/// The typed parameters from `i` on.
pub open spec fn typed_params_ids(ps: Seq<TyHirParamV>, i: int) -> Seq<DefId>
    decreases ps.len() - i,
{
    if i < 0 || i >= ps.len() {
        Seq::empty()
    } else {
        seq![ps[i].def_id] + typed_params_ids(ps, i + 1)
    }
}

/// A function with its parameters and local variables, unless the item is
/// something else.
pub open spec fn own_function(item: TyHirItemV) -> Seq<(DefId, Seq<DefId>)> {
    match item {
        TyHirItemV::ExternFn { def_id, .. } => seq![(def_id, Seq::empty())],
        TyHirItemV::Fn { def_id, params, body, .. } => seq![
            (def_id, typed_params_ids(params, 0) + typed_locals(body.stmts, 0)),
        ],
        _ => Seq::empty(),
    }
}

/// The functions among the typed items from `i` on and in their modules, each
/// with its parameters and local variables.
pub open spec fn typed_functions(items: Seq<TyHirItemV>, i: int) -> Seq<(DefId, Seq<DefId>)>
    decreases items, items.len() - i,
{
    if i < 0 || i >= items.len() {
        Seq::empty()
    } else {
        (match items[i] {
            TyHirItemV::Module(m) => typed_functions(m.items, 0),
            _ => own_function(items[i]),
        }) + typed_functions(items, i + 1)
    }
}

proof fn lemma_push_local(done: Seq<TyHirStmtV>, t: TyHirStmtV, i: int)
    requires
        0 <= i <= done.len(),
    ensures
        typed_locals(done.push(t), i) == typed_locals(done, i) + typed_local(t),
    decreases done.len() - i,
{
    let all = done.push(t);
    if i < done.len() {
        lemma_push_local(done, t, i + 1);
        assert(all[i] == done[i]);
        assert(typed_locals(all, i) =~= typed_locals(done, i) + typed_local(t));
    } else {
        assert(all[i] == t);
        assert(typed_locals(all, i + 1) =~= Seq::empty());
        assert(typed_locals(all, i) =~= typed_locals(done, i) + typed_local(t));
    }
}

proof fn lemma_stmt(s: CheckState, st: HirStmtV, ret: HirTypeV)
    ensures
        c_stmt(s, st, ret).1 matches Ok(t) ==> typed_local(t) == resolved_local(st),
    decreases st, 0int,
{
    match st {
        HirStmtV::If { cond, then_branch, else_branch } => {
            let s1 = c_expr(s, cond).0;
            lemma_stmts(s1, then_branch.stmts, ret, 0, Seq::empty());
            let s2 = c_stmts(s1, then_branch.stmts, ret, 0, Seq::empty()).0;
            if let Some(b) = else_branch {
                lemma_stmts(s2, b.stmts, ret, 0, Seq::empty());
            }
        },
        HirStmtV::While { cond, body } => {
            lemma_stmts(c_expr(s, cond).0, body.stmts, ret, 0, Seq::empty());
        },
        _ => {},
    }
}

proof fn lemma_stmts(
    s: CheckState,
    stmts: Seq<HirStmtV>,
    ret: HirTypeV,
    i: int,
    done: Seq<TyHirStmtV>,
)
    ensures
        c_stmts(s, stmts, ret, i, done).1 matches Ok(ts) ==> typed_locals(ts, 0) == typed_locals(
            done,
            0,
        ) + resolved_locals(stmts, i),
    decreases stmts, stmts.len() - i,
{
    let old_ids = typed_locals(done, 0);
    if i < 0 || i >= stmts.len() {
        assert(old_ids + resolved_locals(stmts, i) =~= old_ids);
    } else {
        lemma_stmt(s, stmts[i], ret);
        let a = c_stmt(s, stmts[i], ret);
        if let Ok(t) = a.1 {
            lemma_stmts(a.0, stmts, ret, i + 1, done.push(t));
            lemma_push_local(done, t, 0);
            assert((old_ids + typed_local(t)) + resolved_locals(stmts, i + 1) =~= old_ids
                + resolved_locals(stmts, i));
        }
    }
}

proof fn lemma_params(ps: Seq<HirParamV>, i: int)
    ensures
        typed_params_ids(ps.map_values(|p: HirParamV| typed_param(p)), i) == params_ids(ps, i),
    decreases ps.len() - i,
{
    if 0 <= i < ps.len() {
        lemma_params(ps, i + 1);
    }
}

proof fn lemma_push_function(done: Seq<TyHirItemV>, t: TyHirItemV, i: int)
    requires
        0 <= i <= done.len(),
    ensures
        typed_functions(done.push(t), i) == typed_functions(done, i) + typed_functions(seq![t], 0),
    decreases done.len() - i,
{
    let all = done.push(t);
    let one = typed_functions(seq![t], 0);
    if i < done.len() {
        lemma_push_function(done, t, i + 1);
        assert(all[i] == done[i]);
        assert(typed_functions(all, i) =~= typed_functions(done, i) + one);
    } else {
        assert(all[i] == t);
        assert(typed_functions(all, i + 1) =~= Seq::empty());
        assert(seq![t][0] == t);
        assert(typed_functions(seq![t], 1) =~= Seq::empty());
        assert(typed_functions(all, i) =~= typed_functions(done, i) + one);
    }
}

proof fn lemma_item(s: CheckState, items: Seq<HirItemV>, i: int)
    requires
        0 <= i < items.len(),
    ensures
        c_item(s, items[i]).1 matches Ok(t) ==> typed_functions(seq![t], 0) + resolved_functions(
            items,
            i + 1,
        ) == resolved_functions(items, i),
    decreases items, items.len() - i, 0int,
{
    if let Ok(t) = c_item(s, items[i]).1 {
        assert(seq![t][0] == t);
        assert(typed_functions(seq![t], 1) =~= Seq::empty());
        match items[i] {
            HirItemV::Module(m) => {
                lemma_items(s, m.items, 0, Seq::empty());
                let u = t->Module_0;
                assert(typed_functions(u.items, 0) =~= resolved_functions(m.items, 0));
                assert(typed_functions(seq![t], 0) =~= typed_functions(u.items, 0));
            },
            HirItemV::Fn { params, return_ty, body, .. } => {
                lemma_stmts(enter_params(s, params, 0), body.stmts, return_ty, 0, Seq::empty());
                lemma_params(params, 0);
                assert(typed_functions(seq![t], 0) =~= own_function(t));
                assert(typed_locals(t->Fn_body.stmts, 0) =~= resolved_locals(body.stmts, 0));
            },
            _ => {
                assert(typed_functions(seq![t], 0) =~= own_function(t));
            },
        }
        assert(typed_functions(seq![t], 0) + resolved_functions(items, i + 1)
            =~= resolved_functions(items, i));
    }
}

proof fn lemma_items(s: CheckState, items: Seq<HirItemV>, i: int, done: Seq<TyHirItemV>)
    requires
        0 <= i,
    ensures
        c_items(s, items, i, done).1 matches Ok(ts) ==> typed_functions(ts, 0) == typed_functions(
            done,
            0,
        ) + resolved_functions(items, i),
    decreases items, items.len() - i, 1int,
{
    let before = typed_functions(done, 0);
    if i >= items.len() {
        assert(before + resolved_functions(items, i) =~= before);
    } else {
        lemma_item(s, items, i);
        let a = c_item(s, items[i]);
        if let Ok(t) = a.1 {
            lemma_items(a.0, items, i + 1, done.push(t));
            lemma_push_function(done, t, 0);
            assert((before + typed_functions(seq![t], 0)) + resolved_functions(items, i + 1)
                =~= before + (typed_functions(seq![t], 0) + resolved_functions(items, i + 1)));
        }
    }
}

/// Checking keeps the functions of a program in their order, each under its
/// definition and with its parameters and local variables.
pub proof fn law_checking_keeps_functions(s: CheckState, unit: HirCompilationUnitV)
    requires
        checked(s, unit).1 is Ok,
    ensures
        typed_functions(checked(s, unit).1->Ok_0.root_module.items, 0) == resolved_functions(
            unit.root_module.items,
            0,
        ),
{
    let a = collect_module(s, unit.root_module).0;
    lemma_items(a, unit.root_module.items, 0, Seq::empty());
    let ids = resolved_functions(unit.root_module.items, 0);
    assert(typed_functions(Seq::empty(), 0) + ids =~= ids);
}

} // verus!
