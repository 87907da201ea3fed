//! Expressions.

use crate::ast::{BinOp, ExprV};
use crate::parser::grammar::{
    Parsed, additive_op, ahead, at, at_end, binary, comparison_op, multiplicative_op, p_comparisons,
    p_expr, p_product, p_products, p_sum, p_sums, p_unary,
};
use crate::parser::joined::{reads, same_below, settled_at};
use crate::parser::joined::operands::lemma_operand;
use crate::token::{TokenKind, TokenV};
use vstd::prelude::*;

verus! {

pub proof fn lemma_expr(
    ts: Seq<TokenV>,
    i: int,
    us: Seq<TokenV>,
    x: int,
    by: int,
    upto: int,
)
    requires
        same_below(ts, us, by, upto),
        0 <= i <= upto,
        x == i + by,
    ensures
        p_expr(ts, i) matches Parsed::Yes(v, j) ==> i <= j <= upto && (settled_at(ts, j, upto) ==> reads(p_expr(us, x), v, j + by)),
    decreases ts.len() - i, 6int,
{
    if i < upto {
        assert(us[x] == ts[i]);
    }
    lemma_sum(ts, i, us, x, by, upto);
    match ahead(p_sum(ts, i), i, ts) {
        Parsed::Yes(left, j) => {
            lemma_comparisons(ts, j, left, us, j + by, by, upto);
        },
        _ => {},
    }
}

pub proof fn lemma_comparisons(
    ts: Seq<TokenV>,
    i: int,
    left: ExprV,
    us: Seq<TokenV>,
    x: int,
    by: int,
    upto: int,
)
    requires
        same_below(ts, us, by, upto),
        0 <= i <= upto,
        x == i + by,
    ensures
        p_comparisons(ts, i, left) matches Parsed::Yes(v, j) ==> i <= j <= upto && (settled_at(ts, j, upto) ==> reads(p_comparisons(us, x, left), v, j + by)),
    decreases ts.len() - i, 0int,
{
    if i < upto {
        assert(us[x] == ts[i]);
    }
    if !at_end(ts, i) && comparison_op(ts[i].kind) is Some {
        lemma_sum(ts, i + 1, us, x + 1, by, upto);
        match ahead(p_sum(ts, i + 1), i + 1, ts) {
            Parsed::Yes(right, j) => {
                let op = comparison_op(ts[i].kind)->0;
                let next = binary(op, left, right);
                lemma_comparisons(ts, j, next, us, j + by, by, upto);
                if let Parsed::Yes(v, k) = p_comparisons(ts, j, next) {
                    comparisons_there(ts, i, j, left, op, right, v, k);
                    if settled_at(ts, k, upto) {
                        assert(settled_at(ts, j, upto));
                        comparisons_there(us, x, j + by, left, op, right, v, k + by);
                    }
                }
            },
            _ => {},
        }
    }
}

proof fn comparisons_there(
    us: Seq<TokenV>,
    x: int,
    y: int,
    left: ExprV,
    op: BinOp,
    right: ExprV,
    v: ExprV,
    n: int,
)
    requires
        !at_end(us, x),
        comparison_op(us[x].kind) == Some(op),
        ahead(p_sum(us, x + 1), x + 1, us) == Parsed::Yes(right, y),
        reads(p_comparisons(us, y, binary(op, left, right)), v, n),
    ensures
        reads(p_comparisons(us, x, left), v, n),
{
}

pub proof fn lemma_sum(
    ts: Seq<TokenV>,
    i: int,
    us: Seq<TokenV>,
    x: int,
    by: int,
    upto: int,
)
    requires
        same_below(ts, us, by, upto),
        0 <= i <= upto,
        x == i + by,
    ensures
        p_sum(ts, i) matches Parsed::Yes(v, j) ==> i <= j <= upto && (settled_at(ts, j, upto) ==> reads(p_sum(us, x), v, j + by)),
    decreases ts.len() - i, 5int,
{
    if i < upto {
        assert(us[x] == ts[i]);
    }
    lemma_product(ts, i, us, x, by, upto);
    match ahead(p_product(ts, i), i, ts) {
        Parsed::Yes(left, j) => {
            lemma_sums(ts, j, left, us, j + by, by, upto);
        },
        _ => {},
    }
}

pub proof fn lemma_sums(
    ts: Seq<TokenV>,
    i: int,
    left: ExprV,
    us: Seq<TokenV>,
    x: int,
    by: int,
    upto: int,
)
    requires
        same_below(ts, us, by, upto),
        0 <= i <= upto,
        x == i + by,
    ensures
        p_sums(ts, i, left) matches Parsed::Yes(v, j) ==> i <= j <= upto && (settled_at(ts, j, upto) ==> reads(p_sums(us, x, left), v, j + by)),
    decreases ts.len() - i, 0int,
{
    if i < upto {
        assert(us[x] == ts[i]);
    }
    if !at_end(ts, i) && additive_op(ts[i].kind) is Some {
        lemma_product(ts, i + 1, us, x + 1, by, upto);
        match ahead(p_product(ts, i + 1), i + 1, ts) {
            Parsed::Yes(right, j) => {
                lemma_sums(ts, j, binary(additive_op(ts[i].kind)->0, left, right), us, j + by, by, upto);
            },
            _ => {},
        }
    }
}

pub proof fn lemma_product(
    ts: Seq<TokenV>,
    i: int,
    us: Seq<TokenV>,
    x: int,
    by: int,
    upto: int,
)
    requires
        same_below(ts, us, by, upto),
        0 <= i <= upto,
        x == i + by,
    ensures
        p_product(ts, i) matches Parsed::Yes(v, j) ==> i <= j <= upto && (settled_at(ts, j, upto) ==> reads(p_product(us, x), v, j + by)),
    decreases ts.len() - i, 4int,
{
    if i < upto {
        assert(us[x] == ts[i]);
    }
    lemma_unary(ts, i, us, x, by, upto);
    match ahead(p_unary(ts, i), i, ts) {
        Parsed::Yes(left, j) => {
            lemma_products(ts, j, left, us, j + by, by, upto);
        },
        _ => {},
    }
}

pub proof fn lemma_products(
    ts: Seq<TokenV>,
    i: int,
    left: ExprV,
    us: Seq<TokenV>,
    x: int,
    by: int,
    upto: int,
)
    requires
        same_below(ts, us, by, upto),
        0 <= i <= upto,
        x == i + by,
    ensures
        p_products(ts, i, left) matches Parsed::Yes(v, j) ==> i <= j <= upto && (settled_at(ts, j, upto) ==> reads(p_products(us, x, left), v, j + by)),
    decreases ts.len() - i, 0int,
{
    if i < upto {
        assert(us[x] == ts[i]);
    }
    if !at_end(ts, i) && multiplicative_op(ts[i].kind) is Some {
        lemma_unary(ts, i + 1, us, x + 1, by, upto);
        match ahead(p_unary(ts, i + 1), i + 1, ts) {
            Parsed::Yes(right, j) => {
                lemma_products(ts, j, binary(multiplicative_op(ts[i].kind)->0, left, right), us, j + by, by, upto);
            },
            _ => {},
        }
    }
}

pub proof fn lemma_unary(
    ts: Seq<TokenV>,
    i: int,
    us: Seq<TokenV>,
    x: int,
    by: int,
    upto: int,
)
    requires
        same_below(ts, us, by, upto),
        0 <= i <= upto,
        x == i + by,
    ensures
        p_unary(ts, i) matches Parsed::Yes(v, j) ==> i <= j <= upto && (settled_at(ts, j, upto) ==> reads(p_unary(us, x), v, j + by)),
    decreases ts.len() - i, 3int,
{
    if i < upto {
        assert(us[x] == ts[i]);
    }
    if at(ts, i, TokenKind::Amp) {
        lemma_unary(ts, i + 1, us, x + 1, by, upto);
    } else if at(ts, i, TokenKind::Star) {
        lemma_unary(ts, i + 1, us, x + 1, by, upto);
    } else {
        lemma_operand(ts, i, us, x, by, upto);
    }
}

} // verus!
