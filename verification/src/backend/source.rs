//! From declarations to functions of the machine.

use crate::ast::TopLevelDeclV;
use crate::backend::links::{links_of, Placement};
use crate::backend::plan::Machine;
use crate::backend::program::{
    all_items, fresh_function, function_id, law_typed_program_makes_functions, makes_function,
    roomy_code, translation,
};
use crate::backend::typed::{fresh_stmt, fresh_stmts, param_scope, scope_after};
use crate::compiler::rules::{empty_program, flat, program_of, translated};
use crate::hir::{DefId, HirItemV, HirStmtV};
use crate::lowering::defined::{
    all_paths, expr_ids, item_ids, items_ids, params_ids, stmt_ids, stmts_ids,
};
use crate::lowering::rules::{initial_state, lowered, reg_decls};
use crate::lowering::source::SourceTreeV;
use crate::lowering::unique::{law_definitions_are_distinct, undisturbed};
use crate::tycheck::kept::{
    law_checking_keeps_functions, own_function, resolved_functions, resolved_local,
    resolved_locals, typed_functions, typed_local, typed_locals, typed_params_ids,
};
use crate::tycheck::rules::{checked, collect_module, CheckState};
use crate::tycheck::soundness::law_checked_is_well_typed;
use crate::tycheck::typing::definitions;
use crate::tyhir::{TyHirCompilationUnitV, TyHirItemV, TyHirParamV, TyHirStmtV};
use vstd::prelude::*;

verus! {

// Definitions that occur once

/// Each definition of the one occurs in the other.
spec fn within(x: Seq<DefId>, y: Seq<DefId>) -> bool {
    forall|d: DefId| #[trigger] x.contains(d) ==> y.contains(d)
}

/// Some definitions of a sequence, each once.
spec fn thins(x: Seq<DefId>, y: Seq<DefId>) -> bool {
    within(x, y) && (y.no_duplicates() ==> x.no_duplicates())
}

proof fn lemma_contains(a: Seq<DefId>, b: Seq<DefId>, d: DefId)
    ensures
        (a + b).contains(d) <==> a.contains(d) || b.contains(d),
{
    if a.contains(d) {
        let i = choose|i: int| 0 <= i < a.len() && a[i] == d;
        assert((a + b)[i] == d);
    }
    if b.contains(d) {
        let i = choose|i: int| 0 <= i < b.len() && b[i] == d;
        assert((a + b)[a.len() + i] == d);
    }
}

proof fn lemma_parts(a: Seq<DefId>, b: Seq<DefId>)
    requires
        (a + b).no_duplicates(),
    ensures
        a.no_duplicates(),
        b.no_duplicates(),
        forall|d: DefId| #[trigger] a.contains(d) ==> !b.contains(d),
{
    assert forall|i: int, j: int| 0 <= i < a.len() && 0 <= j < a.len() && i != j implies a[i] != a[j] by {
        assert((a + b)[i] == a[i] && (a + b)[j] == a[j]);
    }
    assert forall|i: int, j: int| 0 <= i < b.len() && 0 <= j < b.len() && i != j implies b[i] != b[j] by {
        assert((a + b)[a.len() + i] == b[i] && (a + b)[a.len() + j] == b[j]);
    }
    assert forall|d: DefId| #[trigger] a.contains(d) implies !b.contains(d) by {
        let i = choose|i: int| 0 <= i < a.len() && a[i] == d;
        if b.contains(d) {
            let j = choose|j: int| 0 <= j < b.len() && b[j] == d;
            assert((a + b)[i] == (a + b)[a.len() + j]);
        }
    }
}

proof fn lemma_thins(x: Seq<DefId>, y: Seq<DefId>, a: Seq<DefId>, b: Seq<DefId>)
    requires
        thins(x, a),
        thins(y, b),
    ensures
        thins(x + y, a + b),
{
    assert forall|d: DefId| #[trigger] (x + y).contains(d) implies (a + b).contains(d) by {
        lemma_contains(x, y, d);
        lemma_contains(a, b, d);
    }
    if (a + b).no_duplicates() {
        lemma_parts(a, b);
        let z = x + y;
        assert forall|i: int, j: int| 0 <= i < z.len() && 0 <= j < z.len() && i != j implies z[i] != z[j] by {
            if i < x.len() && j >= x.len() {
                assert(x.contains(x[i]) && y.contains(y[j - x.len()]));
            }
            if j < x.len() && i >= x.len() {
                assert(x.contains(x[j]) && y.contains(y[i - x.len()]));
            }
        }
    }
}

/// Leaving out what comes first thins.
proof fn lemma_thins_tail(x: Seq<DefId>, a: Seq<DefId>, b: Seq<DefId>)
    requires
        thins(x, b),
    ensures
        thins(x, a + b),
{
    lemma_thins(Seq::empty(), x, a, b);
    assert(Seq::empty() + x =~= x);
}

// Resolved programs

proof fn lemma_stmt(st: HirStmtV)
    ensures
        thins(resolved_local(st), stmt_ids(st)),
    decreases st, 0int,
{
    match st {
        HirStmtV::Let { def_id, init, .. } => {
            lemma_thins(seq![def_id], Seq::empty(), seq![def_id], expr_ids(init));
            assert(seq![def_id] + Seq::empty() =~= seq![def_id]);
        },
        HirStmtV::If { cond, then_branch, else_branch } => {
            let a = resolved_locals(then_branch.stmts, 0);
            let x = stmts_ids(then_branch.stmts, 0);
            lemma_stmts(then_branch.stmts, 0);
            lemma_thins_tail(a, expr_ids(cond), x);
            if let Some(b) = else_branch {
                lemma_stmts(b.stmts, 0);
                lemma_thins(a, resolved_locals(b.stmts, 0), expr_ids(cond) + x, stmts_ids(b.stmts, 0));
            }
        },
        HirStmtV::While { cond, body } => {
            lemma_stmts(body.stmts, 0);
            lemma_thins_tail(
                resolved_locals(body.stmts, 0),
                expr_ids(cond),
                stmts_ids(body.stmts, 0),
            );
        },
        _ => {},
    }
}

proof fn lemma_stmts(stmts: Seq<HirStmtV>, i: int)
    ensures
        thins(resolved_locals(stmts, i), stmts_ids(stmts, i)),
    decreases stmts, stmts.len() - i,
{
    if 0 <= i < stmts.len() {
        lemma_stmt(stmts[i]);
        lemma_stmts(stmts, i + 1);
        lemma_thins(
            resolved_local(stmts[i]),
            resolved_locals(stmts, i + 1),
            stmt_ids(stmts[i]),
            stmts_ids(stmts, i + 1),
        );
    }
}

/// The definitions of functions.
spec fn ids_of(fs: Seq<(DefId, Seq<DefId>)>) -> Seq<DefId> {
    fs.map_values(|f: (DefId, Seq<DefId>)| f.0)
}

/// No function has two parameters or local variables of the same definition.
spec fn each_once(fs: Seq<(DefId, Seq<DefId>)>) -> bool {
    forall|k: int| 0 <= k < fs.len() ==> (#[trigger] fs[k]).1.no_duplicates()
}

proof fn lemma_functions(items: Seq<HirItemV>, i: int)
    ensures
        thins(ids_of(resolved_functions(items, i)), items_ids(items, i)),
        items_ids(items, i).no_duplicates() ==> each_once(resolved_functions(items, i)),
    decreases items, items.len() - i,
{
    if 0 <= i < items.len() {
        let rest = resolved_functions(items, i + 1);
        let a = item_ids(items[i]);
        let b = items_ids(items, i + 1);
        lemma_functions(items, i + 1);
        let mine = match items[i] {
            HirItemV::Module(m) => resolved_functions(m.items, 0),
            HirItemV::ExternFn { def_id, .. } => seq![(def_id, Seq::empty())],
            HirItemV::Fn { def_id, params, body, .. } => seq![
                (def_id, params_ids(params, 0) + resolved_locals(body.stmts, 0)),
            ],
            _ => Seq::empty(),
        };
        assert(resolved_functions(items, i) == mine + rest);
        assert(ids_of(mine + rest) =~= ids_of(mine) + ids_of(rest));
        match items[i] {
            HirItemV::Module(m) => {
                lemma_functions(m.items, 0);
                lemma_thins_tail(ids_of(mine), seq![m.def_id], items_ids(m.items, 0));
                if a.no_duplicates() {
                    lemma_parts(seq![m.def_id], items_ids(m.items, 0));
                }
            },
            HirItemV::Fn { def_id, params, body, .. } => {
                let ps = params_ids(params, 0);
                let inner = ps + stmts_ids(body.stmts, 0);
                assert(ids_of(mine) =~= seq![def_id]);
                lemma_thins(seq![def_id], Seq::empty(), seq![def_id], inner);
                assert(seq![def_id] + Seq::empty() =~= seq![def_id]);
                lemma_stmts(body.stmts, 0);
                lemma_thins(ps, resolved_locals(body.stmts, 0), ps, stmts_ids(body.stmts, 0));
                if a.no_duplicates() {
                    lemma_parts(seq![def_id], inner);
                }
            },
            HirItemV::ExternFn { def_id, .. } => {
                assert(ids_of(mine) =~= seq![def_id]);
            },
            _ => {},
        }
        lemma_thins(ids_of(mine), ids_of(rest), a, b);
        if (a + b).no_duplicates() {
            lemma_parts(a, b);
            let all = mine + rest;
            assert forall|k: int| 0 <= k < all.len() implies (#[trigger] all[k]).1.no_duplicates() by {
                if k < mine.len() {
                    assert(mine[k].1.no_duplicates());
                } else {
                    assert(rest[k - mine.len()].1.no_duplicates());
                }
            }
        }
    }
}

// Typed programs

/// Statements bind no variable again that is in scope, where their variables are
/// new and distinct.
proof fn lemma_fresh(scope: Set<DefId>, stmts: Seq<TyHirStmtV>, i: int)
    requires
        typed_locals(stmts, i).no_duplicates(),
        forall|d: DefId| #[trigger] scope.contains(d) ==> !typed_locals(stmts, i).contains(d),
    ensures
        fresh_stmts(scope, stmts, i),
    decreases stmts, stmts.len() - i,
{
    if 0 <= i < stmts.len() {
        let st = stmts[i];
        let a = typed_local(st);
        let b = typed_locals(stmts, i + 1);
        lemma_parts(a, b);
        assert forall|d: DefId| #[trigger] scope.contains(d) implies !a.contains(d) && !b.contains(d) by {
            lemma_contains(a, b, d);
        }
        match st {
            TyHirStmtV::Let { def_id, .. } => {
                assert(a[0] == def_id);
                assert(a.contains(def_id));
            },
            TyHirStmtV::If { then_branch, else_branch, .. } => {
                let x = typed_locals(then_branch.stmts, 0);
                if let Some(c) = else_branch {
                    let y = typed_locals(c.stmts, 0);
                    lemma_parts(x, y);
                    assert forall|d: DefId| #[trigger] scope.contains(d) implies !x.contains(d) && !y.contains(d) by {
                        lemma_contains(x, y, d);
                    }
                    lemma_fresh(scope, c.stmts, 0);
                }
                lemma_fresh(scope, then_branch.stmts, 0);
            },
            TyHirStmtV::While { body, .. } => {
                lemma_fresh(scope, body.stmts, 0);
            },
            _ => {},
        }
        assert(fresh_stmt(scope, st));
        lemma_fresh(scope_after(scope, st), stmts, i + 1);
    }
}

proof fn lemma_scope(ps: Seq<TyHirParamV>, i: int, j: int)
    requires
        0 <= i <= j < ps.len(),
    ensures
        typed_params_ids(ps, i).contains(ps[j].def_id),
    decreases ps.len() - i,
{
    lemma_contains(seq![ps[i].def_id], typed_params_ids(ps, i + 1), ps[j].def_id);
    if i < j {
        lemma_scope(ps, i + 1, j);
    } else {
        assert(seq![ps[i].def_id][0] == ps[j].def_id);
    }
}

/// The functions of items, apart from those in modules.
spec fn listed(items: Seq<TyHirItemV>, i: int) -> Seq<(DefId, Seq<DefId>)>
    decreases items.len() - i,
{
    if i < 0 || i >= items.len() {
        Seq::empty()
    } else {
        own_function(items[i]) + listed(items, i + 1)
    }
}

proof fn lemma_listed_push(done: Seq<TyHirItemV>, t: TyHirItemV, i: int)
    requires
        0 <= i <= done.len(),
    ensures
        listed(done.push(t), i) == listed(done, i) + own_function(t),
    decreases done.len() - i,
{
    let all = done.push(t);
    if i < done.len() {
        lemma_listed_push(done, t, i + 1);
        assert(all[i] == done[i]);
        assert(listed(all, i) =~= listed(done, i) + own_function(t));
    } else {
        assert(all[i] == t);
        assert(listed(all, i + 1) =~= Seq::empty());
        assert(listed(all, i) =~= listed(done, i) + own_function(t));
    }
}

proof fn lemma_flat(items: Seq<TyHirItemV>, i: int, done: Seq<TyHirItemV>)
    ensures
        listed(flat(items, i, done), 0) == listed(done, 0) + typed_functions(items, i),
    decreases items, items.len() - i,
{
    let before = listed(done, 0);
    if i < 0 || i >= items.len() {
        assert(before + typed_functions(items, i) =~= before);
    } else {
        let a = done.push(items[i]);
        lemma_listed_push(done, items[i], 0);
        let rest = typed_functions(items, i + 1);
        match items[i] {
            TyHirItemV::Module(m) => {
                lemma_flat(m.items, 0, a);
                let c = flat(m.items, 0, a);
                lemma_flat(items, i + 1, c);
                assert(flat(items, i, done) == flat(items, i + 1, c));
                assert(before + own_function(items[i]) =~= before);
                assert((before + typed_functions(m.items, 0)) + rest =~= before + typed_functions(
                    items,
                    i,
                ));
            },
            _ => {
                lemma_flat(items, i + 1, a);
                assert(flat(items, i, done) == flat(items, i + 1, a));
                assert((before + own_function(items[i])) + rest =~= before + typed_functions(items, i));
            },
        }
    }
}

proof fn lemma_listed(items: Seq<TyHirItemV>, i: int, j: int)
    requires
        0 <= i <= j < items.len(),
        function_id(items[j]) is Some,
    ensures
        ids_of(listed(items, i)).contains(function_id(items[j])->0),
    decreases items.len() - i,
{
    let a = own_function(items[i]);
    let b = listed(items, i + 1);
    assert(ids_of(a + b) =~= ids_of(a) + ids_of(b));
    lemma_contains(ids_of(a), ids_of(b), function_id(items[j])->0);
    if i < j {
        lemma_listed(items, i + 1, j);
    } else {
        assert(ids_of(a)[0] == function_id(items[j])->0);
    }
}

proof fn lemma_distinct(items: Seq<TyHirItemV>, i: int)
    requires
        0 <= i,
        ids_of(listed(items, i)).no_duplicates(),
        each_once(listed(items, i)),
    ensures
        forall|j: int, k: int| i <= j < k < items.len() && function_id(#[trigger] items[j]) is Some
            ==> function_id(items[j]) != function_id(#[trigger] items[k]),
        forall|k: int| i <= k < items.len() ==> fresh_function(#[trigger] items[k]),
    decreases items.len() - i,
{
    if i < items.len() {
        let a = own_function(items[i]);
        let b = listed(items, i + 1);
        assert(ids_of(a + b) =~= ids_of(a) + ids_of(b));
        lemma_parts(ids_of(a), ids_of(b));
        assert forall|k: int| 0 <= k < b.len() implies (#[trigger] b[k]).1.no_duplicates() by {
            assert((a + b)[a.len() + k] == b[k]);
        }
        lemma_distinct(items, i + 1);
        assert forall|k: int| i < k < items.len() && function_id(items[i]) is Some implies function_id(
            items[i],
        ) != function_id(#[trigger] items[k]) by {
            if function_id(items[k]) is Some {
                lemma_listed(items, i + 1, k);
                assert(ids_of(a)[0] == function_id(items[i])->0);
                assert(ids_of(a).contains(function_id(items[i])->0));
            }
        }
        if let TyHirItemV::Fn { params, body, .. } = items[i] {
            let x = typed_params_ids(params, 0);
            let y = typed_locals(body.stmts, 0);
            assert((a + b)[0] == a[0]);
            assert((x + y).no_duplicates());
            lemma_parts(x, y);
            assert forall|d: DefId| #[trigger] param_scope(params).contains(d) implies !y.contains(d) by {
                let j = choose|j: int| 0 <= j < params.len() && (#[trigger] params[j]).def_id == d;
                lemma_scope(params, 0, j);
                assert(x.contains(d));
            }
            lemma_fresh(param_scope(params), body.stmts, 0);
        }
        assert(fresh_function(items[i]));
    }
}

/// A program that can be resolved, checked and translated for pointers of eight
/// bytes has code that makes a function for each of its functions, wherever its
/// parts stand in their module, if every block has room for its parameters.
///
/// Left out are programs in which two items have the same full path, and those
/// in which a static method takes the full path of an item.
pub proof fn law_accepted_program_makes_functions(
    decls: Seq<TopLevelDeclV>,
    tree: SourceTreeV,
    s: CheckState,
    t: TyHirCompilationUnitV,
    at: Seq<Placement>,
    globals: Seq<u32>,
    texts: Seq<u32>,
    m: Machine,
)
    requires
        lowered(initial_state(), decls, tree).1 is Ok,
        all_paths(decls, 0, Seq::empty(), tree, 0).no_duplicates(),
        undisturbed(
            reg_decls(initial_state(), decls, 0, Seq::empty(), tree, 0).0.paths,
            lowered(initial_state(), decls, tree).0.paths,
            all_paths(decls, 0, Seq::empty(), tree, 0),
        ),
        checked(s, lowered(initial_state(), decls, tree).1->Ok_0).1 == Ok::<
            TyHirCompilationUnitV,
            crate::error::MplangErrorV,
        >(t),
        translated(empty_program(8), t).1 is Ok,
        translation(t).strings.len() <= usize::MAX,
        forall|k: int| 0 <= k < translation(t).code.len() ==> (
        #[trigger] translation(t).code[k]).steps.len() <= usize::MAX,
        m.ptr_bytes == 8,
        forall|k: int| 0 <= k < translation(t).code.len() ==> roomy_code(
            #[trigger] translation(t).code[k],
            links_of(program_of(translation(t)), at, globals, texts),
        ),
    ensures
        forall|k: int| 0 <= k < translation(t).code.len() ==> makes_function(
            #[trigger] translation(t).code[k],
            links_of(program_of(translation(t)), at, globals, texts),
            m,
        ),
{
    let unit = lowered(initial_state(), decls, tree).1->Ok_0;
    law_definitions_are_distinct(decls, tree);
    lemma_parts(seq![unit.root_module.def_id], items_ids(unit.root_module.items, 0));
    lemma_functions(unit.root_module.items, 0);
    law_checking_keeps_functions(s, unit);
    lemma_flat(t.root_module.items, 0, Seq::empty());
    let fs = typed_functions(t.root_module.items, 0);
    assert(listed(Seq::empty(), 0) + fs =~= fs);
    lemma_distinct(all_items(t), 0);
    law_checked_is_well_typed(s, unit);
    let c = collect_module(s, unit.root_module).0;
    law_typed_program_makes_functions(t, definitions(c), c.def_types, at, globals, texts, m);
}

} // verus!
