//! Targets of assignments, and bindings.

use crate::ast::{ExprV, PathV};
use crate::parser::grammar::{
    Parsed, ahead, at, expect, p_annotation, p_binding, p_expr, p_lvalue, p_lvalue_rest,
};
use crate::parser::joined::{reads, same_below, settled_at};
use crate::parser::joined::exprs::lemma_expr;
use crate::parser::joined::types::lemma_type;
use crate::token::{TokenKind, TokenV};
use vstd::prelude::*;

verus! {

pub proof fn lemma_lvalue(
    ts: Seq<TokenV>,
    i: int,
    us: Seq<TokenV>,
    x: int,
    by: int,
    upto: int,
)
    requires
        same_below(ts, us, by, upto),
        0 <= i <= upto,
        x == i + by,
    ensures
        p_lvalue(ts, i) matches Parsed::Yes(v, j) ==> i <= j <= upto && (settled_at(ts, j, upto) ==> reads(p_lvalue(us, x), v, j + by)),
    decreases ts.len() - i,
{
    if i < upto {
        assert(us[x] == ts[i]);
    }
    if at(ts, i, TokenKind::Star) {
        lemma_lvalue(ts, i + 1, us, x + 1, by, upto);
    } else {
        match expect(ts, i, TokenKind::Ident, "Expected variable name in assignment target"@) {
            Parsed::Yes(name, j) => {
                lemma_lvalue_rest(ts, j, ExprV::Ident(PathV { segments: seq![name.lexeme] }), us, x + 1, by, upto);
            },
            _ => {},
        }
    }
}

pub proof fn lemma_lvalue_rest(
    ts: Seq<TokenV>,
    i: int,
    base: ExprV,
    us: Seq<TokenV>,
    x: int,
    by: int,
    upto: int,
)
    requires
        same_below(ts, us, by, upto),
        0 <= i <= upto,
        x == i + by,
    ensures
        p_lvalue_rest(ts, i, base) matches Parsed::Yes(v, j) ==> i <= j <= upto && (settled_at(ts, j, upto) ==> reads(p_lvalue_rest(us, x, base), v, j + by)),
    decreases ts.len() - i,
{
    if i < upto {
        assert(us[x] == ts[i]);
    }
    if at(ts, i, TokenKind::Dot) {
        match expect(ts, i + 1, TokenKind::Ident, "Expected field name after '.'"@) {
            Parsed::Yes(field, j) => {
                lemma_lvalue_rest(ts, j, ExprV::FieldAccess { object: Box::new(base), field: field.lexeme }, us, x + 1 + 1, by, upto);
            },
            _ => {},
        }
    } else if at(ts, i, TokenKind::LeftBracket) {
        lemma_expr(ts, i + 1, us, x + 1, by, upto);
        match ahead(p_expr(ts, i + 1), i + 1, ts) {
            Parsed::Yes(index, j) => {
                match expect(ts, j, TokenKind::RightBracket, "Expected ']' after array index in assignment target"@) {
                    Parsed::Yes(_c, k) => {
                        lemma_lvalue_rest(ts, k, ExprV::Index { array: Box::new(base), index: Box::new(index) }, us, j + by + 1, by, upto);
                    },
                    _ => {},
                }
            },
            _ => {},
        }
    }
}

pub proof fn lemma_binding(
    ts: Seq<TokenV>,
    i: int,
    require_ty: bool,
    us: Seq<TokenV>,
    x: int,
    by: int,
    upto: int,
)
    requires
        same_below(ts, us, by, upto),
        0 <= i <= upto,
        x == i + by,
    ensures
        p_binding(ts, i, require_ty) matches Parsed::Yes(v, j) ==> i <= j <= upto && reads(p_binding(us, x, require_ty), v, j + by),
{
    if i < upto {
        assert(us[x] == ts[i]);
    }
    reveal(p_binding);
    match expect(ts, i, TokenKind::Ident, "Expected variable name"@) {
        Parsed::Yes(name, j) => {
            lemma_annotation(ts, j, require_ty, name, us, x + 1, by, upto);
            match p_annotation(ts, j, require_ty, name) {
                Parsed::Yes(ty, k) => {
                    match expect(ts, k, TokenKind::Assign, "Expected '=' after variable name"@) {
                        Parsed::Yes(_a, m) => {
                            lemma_expr(ts, m, us, k + by + 1, by, upto);
                            match p_expr(ts, m) {
                                Parsed::Yes(init, n) => {
                                    match expect(ts, n, TokenKind::Semicolon, "Expected ';' after variable declaration"@) {
                                        Parsed::Yes(_s, o) => {
                                            assert(o + by == n + by + 1);
                                        },
                                        _ => {},
                                    }
                                },
                                _ => {},
                            }
                        },
                        _ => {},
                    }
                },
                _ => {},
            }
        },
        _ => {},
    }
}

pub proof fn lemma_annotation(
    ts: Seq<TokenV>,
    i: int,
    require_ty: bool,
    name: TokenV,
    us: Seq<TokenV>,
    x: int,
    by: int,
    upto: int,
)
    requires
        same_below(ts, us, by, upto),
        0 <= i <= upto,
        x == i + by,
    ensures
        p_annotation(ts, i, require_ty, name) matches Parsed::Yes(v, j) ==> i <= j <= upto && (settled_at(ts, j, upto) ==> reads(p_annotation(us, x, require_ty, name), v, j + by)),
{
    if i < upto {
        assert(us[x] == ts[i]);
    }
    reveal(p_annotation);
    if at(ts, i, TokenKind::Colon) {
        lemma_type(ts, i + 1, us, x + 1, by, upto);
    } else if !(require_ty) {
    }
}

} // verus!
