//! Variables whose address is taken.

use crate::compiler::rules::{
    root_of, taken_arms, taken_expr, taken_exprs, taken_inits, taken_stmt, taken_stmts, with_root,
};
use crate::hir::DefId;
use crate::table::Table;
use crate::tyhir::{
    lemma_ty_hir_body_view, lemma_ty_hir_expr_kind_view, lemma_ty_hir_expr_view,
    lemma_ty_hir_match_arm_view, lemma_ty_hir_stmt_view, TyHirExpr, TyHirExprKind, TyHirMatchArm,
    TyHirStmt,
};
use vstd::prelude::*;

verus! {

/// The variable at the root of a place.
fn lvalue_root_defid(e: &TyHirExpr) -> (r: Option<DefId>)
    ensures
        r == root_of(e.deep_view()),
    decreases e,
{
    proof {
        lemma_ty_hir_expr_view(*e);
        lemma_ty_hir_expr_kind_view(e.kind);
    }
    match &e.kind {
        TyHirExprKind::Path(d) => Some(*d),
        TyHirExprKind::FieldAccess { object, .. } => lvalue_root_defid(&**object),
        TyHirExprKind::Index { array, .. } => lvalue_root_defid(&**array),
        TyHirExprKind::AddressOf(inner) => lvalue_root_defid(&**inner),
        TyHirExprKind::Deref(inner) => lvalue_root_defid(&**inner),
        _ => None,
    }
}

/// Adds the root of a place.
fn add_root(e: &TyHirExpr, set: &mut Table<DefId, ()>)
    ensures
        final(set)@.dom() == with_root(e.deep_view(), old(set)@.dom()),
{
    if let Some(d) = lvalue_root_defid(e) {
        let ghost before = set@;
        set.insert(d, ());
        assert(set@.dom() =~= before.dom().insert(d));
    }
}

/// Adds the variables whose address an expression takes.
fn collect_addr_taken_expr(e: &TyHirExpr, set: &mut Table<DefId, ()>)
    ensures
        final(set)@.dom() == taken_expr(e.deep_view(), old(set)@.dom()),
    decreases e,
{
    proof {
        lemma_ty_hir_expr_view(*e);
        lemma_ty_hir_expr_kind_view(e.kind);
    }
    match &e.kind {
        TyHirExprKind::AddressOf(inner) => {
            add_root(&**inner, set);
            collect_addr_taken_expr(&**inner, set);
        },
        TyHirExprKind::Deref(inner) => {
            collect_addr_taken_expr(&**inner, set);
        },
        TyHirExprKind::Binary { lhs, rhs, .. } => {
            collect_addr_taken_expr(&**lhs, set);
            collect_addr_taken_expr(&**rhs, set);
        },
        TyHirExprKind::Call { args, .. } => {
            collect_addr_taken_exprs(args, set);
        },
        TyHirExprKind::FieldAccess { object, .. } => {
            collect_addr_taken_expr(&**object, set);
        },
        TyHirExprKind::Index { array, index } => {
            collect_addr_taken_expr(&**array, set);
            collect_addr_taken_expr(&**index, set);
        },
        TyHirExprKind::StructLiteral { fields, .. } => {
            collect_addr_taken_inits(fields, set);
        },
        TyHirExprKind::ArrayLiteral { elements, .. } => {
            collect_addr_taken_exprs(elements, set);
        },
        TyHirExprKind::Variant { args, .. } => {
            collect_addr_taken_exprs(args, set);
        },
        TyHirExprKind::Match { scrutinee, arms } => {
            collect_addr_taken_expr(&**scrutinee, set);
            collect_addr_taken_arms(arms, set);
        },
        TyHirExprKind::TraitCast { value, .. } => {
            collect_addr_taken_expr(&**value, set);
        },
        TyHirExprKind::DynamicMethodCall { receiver, args, .. } => {
            collect_addr_taken_expr(&**receiver, set);
            collect_addr_taken_exprs(args, set);
        },
        TyHirExprKind::Path(_) => {},
        TyHirExprKind::Literal(_) => {},
    }
}

fn collect_addr_taken_exprs(es: &Vec<TyHirExpr>, set: &mut Table<DefId, ()>)
    ensures
        final(set)@.dom() == taken_exprs(es.deep_view(), 0, old(set)@.dom()),
    decreases es,
{
    let ghost goal = taken_exprs(es.deep_view(), 0, set@.dom());
    for i in 0..es.len()
        invariant
            goal == taken_exprs(es.deep_view(), i as int, set@.dom()),
    {
        collect_addr_taken_expr(&es[i], set);
    }
}

fn collect_addr_taken_inits(es: &Vec<(DefId, TyHirExpr)>, set: &mut Table<DefId, ()>)
    ensures
        final(set)@.dom() == taken_inits(es.deep_view(), 0, old(set)@.dom()),
    decreases es,
{
    let ghost goal = taken_inits(es.deep_view(), 0, set@.dom());
    for i in 0..es.len()
        invariant
            goal == taken_inits(es.deep_view(), i as int, set@.dom()),
    {
        collect_addr_taken_expr(&es[i].1, set);
    }
}

fn collect_addr_taken_arms(es: &Vec<TyHirMatchArm>, set: &mut Table<DefId, ()>)
    ensures
        final(set)@.dom() == taken_arms(es.deep_view(), 0, old(set)@.dom()),
    decreases es,
{
    let ghost goal = taken_arms(es.deep_view(), 0, set@.dom());
    for i in 0..es.len()
        invariant
            goal == taken_arms(es.deep_view(), i as int, set@.dom()),
    {
        proof {
            lemma_ty_hir_match_arm_view(es@[i as int]);
            lemma_ty_hir_body_view(es@[i as int].body);
        }
        collect_addr_taken(&es[i].body.stmts, set);
    }
}

fn collect_addr_taken_stmt(st: &TyHirStmt, set: &mut Table<DefId, ()>)
    ensures
        final(set)@.dom() == taken_stmt(st.deep_view(), old(set)@.dom()),
    decreases st,
{
    proof {
        lemma_ty_hir_stmt_view(*st);
    }
    match st {
        TyHirStmt::Let { init, .. } => {
            collect_addr_taken_expr(init, set);
        },
        TyHirStmt::Assign { target, value } => {
            collect_addr_taken_expr(target, set);
            collect_addr_taken_expr(value, set);
        },
        TyHirStmt::Expr(e) => {
            collect_addr_taken_expr(e, set);
        },
        TyHirStmt::If { cond, then_branch, else_branch } => {
            proof {
                lemma_ty_hir_body_view(*then_branch);
            }
            collect_addr_taken_expr(cond, set);
            collect_addr_taken(&then_branch.stmts, set);
            if let Some(b) = else_branch {
                proof {
                    lemma_ty_hir_body_view(*b);
                }
                collect_addr_taken(&b.stmts, set);
            }
        },
        TyHirStmt::While { cond, body } => {
            proof {
                lemma_ty_hir_body_view(*body);
            }
            collect_addr_taken_expr(cond, set);
            collect_addr_taken(&body.stmts, set);
        },
        TyHirStmt::Return(value) => {
            if let Some(e) = value {
                collect_addr_taken_expr(e, set);
            }
        },
    }
}

/// Adds the variables whose address statements take.
pub(crate) fn collect_addr_taken(es: &Vec<TyHirStmt>, set: &mut Table<DefId, ()>)
    ensures
        final(set)@.dom() == taken_stmts(es.deep_view(), 0, old(set)@.dom()),
    decreases es,
{
    let ghost goal = taken_stmts(es.deep_view(), 0, set@.dom());
    for i in 0..es.len()
        invariant
            goal == taken_stmts(es.deep_view(), i as int, set@.dom()),
    {
        collect_addr_taken_stmt(&es[i], set);
    }
}

} // verus!
