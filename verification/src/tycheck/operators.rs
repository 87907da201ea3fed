//! Which operands the binary operators take.

use crate::ast::BinOp;
use crate::error::ErrorKind;
use crate::hir::{HirExprV, HirTypeV};
use crate::tycheck::rules::{c_binary, c_expr, mismatch, CheckState};
use crate::tyhir::{TyHirExprKindV, TyHirExprV};
use vstd::prelude::*;

verus! {

/// The types that the operands of an operator may have: arithmetic takes two
/// integers, a comparison two integers or two pointers.
pub open spec fn takes_operands(op: BinOp, l: HirTypeV, r: HirTypeV) -> bool {
    match op {
        BinOp::Add | BinOp::Sub | BinOp::Mul | BinOp::Div => l is Int && r is Int,
        _ => (l is Int && r is Int) || (l is Pointer && r is Pointer),
    }
}

/// A binary operation whose operands are well typed passes the checker exactly if
/// the operator takes operands of their types. Its type is then the integer type,
/// and its operands are the checked ones, in their order. All else is a type
/// error.
pub proof fn law_binary_operands(s: CheckState, op: BinOp, lhs: HirExprV, rhs: HirExprV)
    requires
        c_expr(s, lhs).1 is Ok,
        c_expr(c_expr(s, lhs).0, rhs).1 is Ok,
    ensures
        ({
            let e = HirExprV::Binary { op, lhs: Box::new(lhs), rhs: Box::new(rhs) };
            let l = c_expr(s, lhs).1->Ok_0;
            let r = c_expr(c_expr(s, lhs).0, rhs).1->Ok_0;
            match c_expr(s, e).1 {
                Ok(v) => takes_operands(op, l.ty, r.ty) && v == (TyHirExprV {
                    ty: HirTypeV::Int,
                    kind: TyHirExprKindV::Binary { op, lhs: Box::new(l), rhs: Box::new(r) },
                }),
                Err(e) => !takes_operands(op, l.ty, r.ty) && e.kind == ErrorKind::TypeCheck,
            }
        }),
{
    reveal(c_binary);
    reveal(mismatch);
    let e = HirExprV::Binary { op, lhs: Box::new(lhs), rhs: Box::new(rhs) };
    let a = c_expr(s, lhs);
    let b = c_expr(a.0, rhs);
    assert(c_expr(s, e).1 == c_binary(op, a.1->Ok_0, b.1->Ok_0));
}

} // verus!
