//! Where assignment targets end.

use crate::ast::{ExprV, PathV, TypeOrConstV};
use crate::parser::grammar::{
    Parsed, ahead, at, p_args, p_callee, p_expr, p_expr_stmt, p_lvalue, p_lvalue_rest, p_operand,
    p_postfix, p_product, p_sum, p_turbofish, p_unary,
};
use crate::parser::joined::same_below;
use crate::parser::joined::exprs::{
    lemma_comparisons, lemma_expr, lemma_product, lemma_products, lemma_sum, lemma_sums,
    lemma_unary,
};
use crate::parser::joined::operands::{lemma_args, lemma_operand, lemma_postfix};
use crate::token::{TokenKind, TokenV};
use vstd::prelude::*;

verus! {

/// Behind a name, an operand reads at least as far as an assignment target.
proof fn lemma_rest_ends(ts: Seq<TokenV>, i: int, base: ExprV, other: ExprV, upto: int)
    requires
        same_below(ts, ts, 0, upto),
        0 <= i <= upto,
    ensures
        p_lvalue_rest(ts, i, base) matches Parsed::Yes(_t, j) ==> (p_postfix(ts, i, other) matches Parsed::Yes(_v, k) ==> j <= k),
    decreases ts.len() - i,
{
    lemma_postfix(ts, i, other, ts, i, 0, upto);
    if at(ts, i, TokenKind::Dot) && at(ts, i + 1, TokenKind::Ident) {
        let field = ts[i + 1].lexeme;
        if at(ts, i + 1 + 1, TokenKind::LeftParen) {
            let access = ExprV::FieldAccess { object: Box::new(base), field };
            assert(p_lvalue_rest(ts, i + 1 + 1, access) == Parsed::Yes(access, i + 1 + 1));
            lemma_args(ts, i + 1 + 1 + 1, Seq::empty(), ts, i + 1 + 1 + 1, 0, upto);
            if let Parsed::Yes(args, m) = p_args(ts, i + 1 + 1 + 1, Seq::empty()) {
                if at(ts, m, TokenKind::RightParen) {
                    let call = ExprV::MethodCall { object: Box::new(other), name: field, args };
                    lemma_postfix(ts, m + 1, call, ts, m + 1, 0, upto);
                }
            }
        } else {
            lemma_rest_ends(
                ts,
                i + 1 + 1,
                ExprV::FieldAccess { object: Box::new(base), field },
                ExprV::FieldAccess { object: Box::new(other), field },
                upto,
            );
        }
    } else if at(ts, i, TokenKind::LeftBracket) {
        lemma_expr(ts, i + 1, ts, i + 1, 0, upto);
        if let Parsed::Yes(index, j) = ahead(p_expr(ts, i + 1), i + 1, ts) {
            if at(ts, j, TokenKind::RightBracket) {
                lemma_rest_ends(
                    ts,
                    j + 1,
                    ExprV::Index { array: Box::new(base), index: Box::new(index) },
                    ExprV::Index { array: Box::new(other), index: Box::new(index) },
                    upto,
                );
            }
        }
    }
}

/// A path of one segment ends where no `::` follows, or a turbofish does.
proof fn lemma_after_name(ts: Seq<TokenV>, i: int)
    requires
        at(ts, i, TokenKind::Ident),
    ensures
        p_callee(ts, i) matches Parsed::Yes(_p, j) ==> (j == i + 1 || at(ts, i + 1, TokenKind::ColonColon)),
{
}

/// An operand that begins with a name ends with it, or goes on behind it.
proof fn lemma_name_ends(ts: Seq<TokenV>, i: int, upto: int)
    requires
        same_below(ts, ts, 0, upto),
        0 <= i <= upto,
        at(ts, i, TokenKind::Ident),
        at(ts, i + 1, TokenKind::Dot) || at(ts, i + 1, TokenKind::LeftBracket),
    ensures
        p_operand(ts, i) is Yes ==> exists|path: PathV| p_operand(ts, i) == #[trigger] p_postfix(ts, i + 1, ExprV::Ident(path)),
{
    lemma_after_name(ts, i);
    if let Parsed::Yes(path, j) = p_callee(ts, i) {
        assert(p_turbofish(ts, i + 1) == Parsed::Yes(Seq::<TypeOrConstV>::empty(), i + 1));
        assert(p_operand(ts, i) == p_postfix(ts, i + 1, ExprV::Ident(path)));
    }
}

proof fn lemma_named_ends(ts: Seq<TokenV>, i: int, upto: int)
    requires
        same_below(ts, ts, 0, upto),
        0 <= i <= upto,
        at(ts, i, TokenKind::Ident),
    ensures
        p_lvalue(ts, i) matches Parsed::Yes(_t, j) ==> (p_operand(ts, i) matches Parsed::Yes(_v, k) ==> j <= k),
{
    let base = ExprV::Ident(PathV { segments: seq![ts[i].lexeme] });
    assert(p_lvalue(ts, i) == p_lvalue_rest(ts, i + 1, base));
    if at(ts, i + 1, TokenKind::Dot) || at(ts, i + 1, TokenKind::LeftBracket) {
        if p_operand(ts, i) is Yes {
            lemma_name_ends(ts, i, upto);
            let path = choose|path: PathV| p_operand(ts, i) == #[trigger] p_postfix(ts, i + 1, ExprV::Ident(path));
            lemma_rest_ends(ts, i + 1, base, ExprV::Ident(path), upto);
        }
    } else {
        lemma_operand(ts, i, ts, i, 0, upto);
    }
}

proof fn lemma_unary_ends(ts: Seq<TokenV>, i: int, upto: int)
    requires
        same_below(ts, ts, 0, upto),
        0 <= i <= upto,
    ensures
        p_lvalue(ts, i) matches Parsed::Yes(_t, j) ==> (p_unary(ts, i) matches Parsed::Yes(_v, k) ==> j <= k),
    decreases ts.len() - i,
{
    if at(ts, i, TokenKind::Star) {
        lemma_unary_ends(ts, i + 1, upto);
    } else if at(ts, i, TokenKind::Ident) {
        lemma_named_ends(ts, i, upto);
    }
}

/// Where an assignment target begins an expression statement, the statement goes
/// on behind it.
pub proof fn lemma_target_ends(ts: Seq<TokenV>, i: int, upto: int)
    requires
        same_below(ts, ts, 0, upto),
        0 <= i <= upto,
    ensures
        p_lvalue(ts, i) matches Parsed::Yes(_t, j) ==> (p_expr_stmt(ts, i) matches Parsed::Yes(_s, k) ==> j < k && at(ts, k - 1, TokenKind::Semicolon)),
{
    reveal(p_expr_stmt);
    lemma_unary_ends(ts, i, upto);
    lemma_unary(ts, i, ts, i, 0, upto);
    if let Parsed::Yes(a, j) = p_unary(ts, i) {
        lemma_products(ts, j, a, ts, j, 0, upto);
    }
    lemma_product(ts, i, ts, i, 0, upto);
    if let Parsed::Yes(b, k) = p_product(ts, i) {
        lemma_sums(ts, k, b, ts, k, 0, upto);
    }
    lemma_sum(ts, i, ts, i, 0, upto);
    if let Parsed::Yes(c, m) = p_sum(ts, i) {
        lemma_comparisons(ts, m, c, ts, m, 0, upto);
    }
}

} // verus!
