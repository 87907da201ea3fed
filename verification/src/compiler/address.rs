//! Which variables need an address.

use crate::compiler::rules::{
    root_of, taken_arms, taken_expr, taken_exprs, taken_inits, taken_stmt, taken_stmts, with_root,
};
use crate::hir::DefId;
use crate::tyhir::{TyHirExprKindV, TyHirExprV, TyHirMatchArmV, TyHirStmtV};
use vstd::prelude::*;

verus! {

/// Whether the address of a variable, or of a part of it, is taken somewhere in
/// an expression.
pub open spec fn takes_expr(e: TyHirExprV, d: DefId) -> bool
    decreases e, 0int,
{
    match e.kind {
        TyHirExprKindV::AddressOf(inner) => root_of(*inner) == Some(d) || takes_expr(*inner, d),
        TyHirExprKindV::Deref(inner) => takes_expr(*inner, d),
        TyHirExprKindV::Binary { lhs, rhs, .. } => takes_expr(*lhs, d) || takes_expr(*rhs, d),
        TyHirExprKindV::Call { args, .. } => exists|i: int| 0 <= i < args.len() && takes_expr(
            #[trigger] args[i],
            d,
        ),
        TyHirExprKindV::FieldAccess { object, .. } => takes_expr(*object, d),
        TyHirExprKindV::Index { array, index } => takes_expr(*array, d) || takes_expr(*index, d),
        TyHirExprKindV::StructLiteral { fields, .. } => exists|i: int| 0 <= i < fields.len() && takes_expr((#[trigger] fields[i]).1, d),
        TyHirExprKindV::ArrayLiteral { elements, .. } => exists|i: int| 0 <= i < elements.len() && takes_expr(#[trigger] elements[i], d),
        TyHirExprKindV::Variant { args, .. } => exists|i: int| 0 <= i < args.len() && takes_expr(
            #[trigger] args[i],
            d,
        ),
        TyHirExprKindV::Match { scrutinee, arms } => takes_expr(*scrutinee, d) || exists|i: int| 0 <= i < arms.len() && takes_stmts((#[trigger] arms[i]).body.stmts, d),
        TyHirExprKindV::TraitCast { value, .. } => takes_expr(*value, d),
        TyHirExprKindV::DynamicMethodCall { receiver, args, .. } => takes_expr(*receiver, d) || exists|i: int| 0 <= i < args.len() && takes_expr(#[trigger] args[i], d),
        TyHirExprKindV::Path(_) => false,
        TyHirExprKindV::Literal(_) => false,
    }
}

/// The same for a statement.
pub open spec fn takes_stmt(st: TyHirStmtV, d: DefId) -> bool
    decreases st, 0int,
{
    match st {
        TyHirStmtV::Let { init, .. } => takes_expr(init, d),
        TyHirStmtV::Assign { target, value } => takes_expr(target, d) || takes_expr(value, d),
        TyHirStmtV::Expr(e) => takes_expr(e, d),
        TyHirStmtV::If { cond, then_branch, else_branch } => takes_expr(cond, d) || takes_stmts(then_branch.stmts, d) || match else_branch {
            Some(b) => takes_stmts(b.stmts, d),
            None => false,
        },
        TyHirStmtV::While { cond, body } => takes_expr(cond, d) || takes_stmts(body.stmts, d),
        TyHirStmtV::Return(value) => match value {
            Some(e) => takes_expr(e, d),
            None => false,
        },
    }
}

/// The same for statements.
pub open spec fn takes_stmts(stmts: Seq<TyHirStmtV>, d: DefId) -> bool
    decreases stmts, 0int,
{
    exists|i: int| 0 <= i < stmts.len() && takes_stmt(#[trigger] stmts[i], d)
}

proof fn lemma_expr(e: TyHirExprV, set: Set<DefId>, d: DefId)
    ensures
        taken_expr(e, set).contains(d) == (set.contains(d) || takes_expr(e, d)),
    decreases e, 0int,
{
    match e.kind {
        TyHirExprKindV::AddressOf(inner) => {
            lemma_expr(*inner, with_root(*inner, set), d);
        },
        TyHirExprKindV::Deref(inner) => {
            lemma_expr(*inner, set, d);
        },
        TyHirExprKindV::Binary { lhs, rhs, .. } => {
            lemma_expr(*lhs, set, d);
            lemma_expr(*rhs, taken_expr(*lhs, set), d);
        },
        TyHirExprKindV::Call { args, .. } => {
            lemma_exprs(args, 0, set, d);
        },
        TyHirExprKindV::FieldAccess { object, .. } => {
            lemma_expr(*object, set, d);
        },
        TyHirExprKindV::Index { array, index } => {
            lemma_expr(*array, set, d);
            lemma_expr(*index, taken_expr(*array, set), d);
        },
        TyHirExprKindV::StructLiteral { fields, .. } => {
            lemma_inits(fields, 0, set, d);
        },
        TyHirExprKindV::ArrayLiteral { elements, .. } => {
            lemma_exprs(elements, 0, set, d);
        },
        TyHirExprKindV::Variant { args, .. } => {
            lemma_exprs(args, 0, set, d);
        },
        TyHirExprKindV::Match { scrutinee, arms } => {
            lemma_expr(*scrutinee, set, d);
            lemma_arms(arms, 0, taken_expr(*scrutinee, set), d);
        },
        TyHirExprKindV::TraitCast { value, .. } => {
            lemma_expr(*value, set, d);
        },
        TyHirExprKindV::DynamicMethodCall { receiver, args, .. } => {
            lemma_expr(*receiver, set, d);
            lemma_exprs(args, 0, taken_expr(*receiver, set), d);
        },
        TyHirExprKindV::Path(_) => {},
        TyHirExprKindV::Literal(_) => {},
    }
}

proof fn lemma_exprs(es: Seq<TyHirExprV>, i: int, set: Set<DefId>, d: DefId)
    requires
        0 <= i,
    ensures
        taken_exprs(es, i, set).contains(d) == (set.contains(d) || exists|k: int| i <= k < es.len() && takes_expr(#[trigger] es[k], d)),
    decreases es, es.len() - i,
{
    if i < es.len() {
        lemma_expr(es[i], set, d);
        lemma_exprs(es, i + 1, taken_expr(es[i], set), d);
    }
}

proof fn lemma_inits(es: Seq<(DefId, TyHirExprV)>, i: int, set: Set<DefId>, d: DefId)
    requires
        0 <= i,
    ensures
        taken_inits(es, i, set).contains(d) == (set.contains(d) || exists|k: int| i <= k < es.len() && takes_expr((#[trigger] es[k]).1, d)),
    decreases es, es.len() - i,
{
    if i < es.len() {
        lemma_expr(es[i].1, set, d);
        lemma_inits(es, i + 1, taken_expr(es[i].1, set), d);
    }
}

proof fn lemma_arms(es: Seq<TyHirMatchArmV>, i: int, set: Set<DefId>, d: DefId)
    requires
        0 <= i,
    ensures
        taken_arms(es, i, set).contains(d) == (set.contains(d) || exists|k: int| i <= k < es.len() && takes_stmts((#[trigger] es[k]).body.stmts, d)),
    decreases es, es.len() - i,
{
    if i < es.len() {
        lemma_stmts(es[i].body.stmts, 0, set, d);
        lemma_arms(es, i + 1, taken_stmts(es[i].body.stmts, 0, set), d);
    }
}

proof fn lemma_stmt(st: TyHirStmtV, set: Set<DefId>, d: DefId)
    ensures
        taken_stmt(st, set).contains(d) == (set.contains(d) || takes_stmt(st, d)),
    decreases st, 0int,
{
    match st {
        TyHirStmtV::Let { init, .. } => {
            lemma_expr(init, set, d);
        },
        TyHirStmtV::Assign { target, value } => {
            lemma_expr(target, set, d);
            lemma_expr(value, taken_expr(target, set), d);
        },
        TyHirStmtV::Expr(e) => {
            lemma_expr(e, set, d);
        },
        TyHirStmtV::If { cond, then_branch, else_branch } => {
            lemma_expr(cond, set, d);
            lemma_stmts(then_branch.stmts, 0, taken_expr(cond, set), d);
            if let Some(b) = else_branch {
                lemma_stmts(
                    b.stmts,
                    0,
                    taken_stmts(then_branch.stmts, 0, taken_expr(cond, set)),
                    d,
                );
            }
        },
        TyHirStmtV::While { cond, body } => {
            lemma_expr(cond, set, d);
            lemma_stmts(body.stmts, 0, taken_expr(cond, set), d);
        },
        TyHirStmtV::Return(value) => {
            if let Some(e) = value {
                lemma_expr(e, set, d);
            }
        },
    }
}

proof fn lemma_stmts(es: Seq<TyHirStmtV>, i: int, set: Set<DefId>, d: DefId)
    requires
        0 <= i,
    ensures
        taken_stmts(es, i, set).contains(d) == (set.contains(d) || exists|k: int| i <= k < es.len() && takes_stmt(#[trigger] es[k], d)),
    decreases es, es.len() - i,
{
    if i < es.len() {
        lemma_stmt(es[i], set, d);
        lemma_stmts(es, i + 1, taken_stmt(es[i], set), d);
    }
}

/// The variables that are kept in memory for their address are those, and only
/// those, whose address the function takes.
pub proof fn law_taken_is_exact(stmts: Seq<TyHirStmtV>, d: DefId)
    ensures
        taken_stmts(stmts, 0, Set::empty()).contains(d) <==> takes_stmts(stmts, d),
{
    lemma_stmts(stmts, 0, Set::empty(), d);
}

} // verus!

