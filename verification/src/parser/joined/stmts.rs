//! Statements.

use crate::ast::{ExprV, StmtV};
use crate::parser::grammar::{
    Parsed, ahead, at, at_end, expect, p_assign, p_else, p_expr, p_expr_stmt, p_head, p_if,
    p_lvalue, p_return, p_simple, p_stmt, p_stmts, p_while,
};
use crate::parser::joined::{reads, same_below, settled_at};
use crate::parser::joined::ends::lemma_target_ends;
use crate::parser::joined::exprs::lemma_expr;
use crate::parser::joined::targets::{lemma_binding, lemma_lvalue};
use crate::token::{TokenKind, TokenV};
use vstd::prelude::*;

verus! {

pub proof fn lemma_stmts(
    ts: Seq<TokenV>,
    i: int,
    done: Seq<StmtV>,
    us: Seq<TokenV>,
    x: int,
    by: int,
    upto: int,
)
    requires
        same_below(ts, us, by, upto),
        0 <= i <= upto,
        x == i + by,
    ensures
        p_stmts(ts, i, done) matches Parsed::Yes(v, j) ==> i <= j <= upto && (settled_at(ts, j, upto) ==> reads(p_stmts(us, x, done), v, j + by)),
    decreases ts.len() - i, 2int,
{
    if i < upto {
        assert(us[x] == ts[i]);
    }
    if !(at_end(ts, i) || at(ts, i, TokenKind::RightBrace)) {
        lemma_stmt(ts, i, us, x, by, upto);
        match ahead(p_stmt(ts, i), i, ts) {
            Parsed::Yes(stmt, j) => {
                lemma_stmts(ts, j, done.push(stmt), us, j + by, by, upto);
            },
            _ => {},
        }
    }
}

pub proof fn lemma_stmt(
    ts: Seq<TokenV>,
    i: int,
    us: Seq<TokenV>,
    x: int,
    by: int,
    upto: int,
)
    requires
        same_below(ts, us, by, upto),
        0 <= i <= upto,
        x == i + by,
    ensures
        p_stmt(ts, i) matches Parsed::Yes(v, j) ==> i <= j <= upto && (settled_at(ts, j, upto) ==> reads(p_stmt(us, x), v, j + by)),
    decreases ts.len() - i, 1int,
{
    if i < upto {
        assert(us[x] == ts[i]);
    }
    if at(ts, i, TokenKind::If) {
        lemma_if(ts, i, us, x, by, upto);
    } else if at(ts, i, TokenKind::While) {
        lemma_while(ts, i, us, x, by, upto);
    } else {
        lemma_simple(ts, i, us, x, by, upto);
    }
}

pub proof fn lemma_simple(
    ts: Seq<TokenV>,
    i: int,
    us: Seq<TokenV>,
    x: int,
    by: int,
    upto: int,
)
    requires
        same_below(ts, us, by, upto),
        0 <= i <= upto,
        x == i + by,
    ensures
        p_simple(ts, i) matches Parsed::Yes(v, j) ==> i <= j <= upto && (settled_at(ts, j, upto) ==> reads(p_simple(us, x), v, j + by)),
{
    if i < upto {
        assert(us[x] == ts[i]);
    }
    reveal(p_simple);
    if at(ts, i, TokenKind::Let) {
        lemma_binding(ts, i + 1, false, us, x + 1, by, upto);
    } else if at(ts, i, TokenKind::Static) {
        lemma_binding(ts, i + 1, true, us, x + 1, by, upto);
    } else if at(ts, i, TokenKind::Const) {
        lemma_binding(ts, i + 1, true, us, x + 1, by, upto);
    } else if at(ts, i, TokenKind::Return) {
        lemma_return(ts, i, us, x, by, upto);
    } else if at(ts, i, TokenKind::Ident) || at(ts, i, TokenKind::Star) {
        lemma_assign(ts, i, us, x, by, upto);
    } else {
        lemma_expr_stmt(ts, i, us, x, by, upto);
    }
}

pub proof fn lemma_assign(
    ts: Seq<TokenV>,
    i: int,
    us: Seq<TokenV>,
    x: int,
    by: int,
    upto: int,
)
    requires
        same_below(ts, us, by, upto),
        0 <= i <= upto,
        x == i + by,
    ensures
        p_assign(ts, i) matches Parsed::Yes(v, j) ==> i <= j <= upto && (settled_at(ts, j, upto) ==> reads(p_assign(us, x), v, j + by)),
{
    lemma_lvalue(ts, i, us, x, by, upto);
    lemma_expr_stmt(ts, i, us, x, by, upto);
    lemma_assign_here(ts, i);
    match p_lvalue(ts, i) {
        Parsed::Yes(target, j) => {
            if j < upto {
                assert(us[j + by] == ts[j]);
            }
            if at(ts, j, TokenKind::Assign) {
                assert(settled_at(ts, j, upto));
                lemma_expr(ts, j + 1, us, j + by + 1, by, upto);
                if let Parsed::Yes(value, k) = p_expr(ts, j + 1) {
                    if at(ts, k, TokenKind::Semicolon) {
                        assert(settled_at(ts, k, upto));
                        assert(us[k + by] == ts[k]);
                        assert(k + 1 + by == k + by + 1);
                        lemma_assign_there(us, x, j + by, k + by, target, value);
                    }
                }
            } else if let Parsed::Yes(stmt, k) = p_expr_stmt(ts, i) {
                lemma_target_ends(ts, i, upto);
                if settled_at(ts, k, upto) {
                    assert(settled_at(ts, j, upto));
                    lemma_expr_there(us, x, j + by, k + by, target, stmt);
                }
            }
        },
        _ => {},
    }
}


/// What an assignment statement is made of.
proof fn lemma_assign_here(ts: Seq<TokenV>, i: int)
    ensures
        p_assign(ts, i) is Yes ==> p_lvalue(ts, i) is Yes,
        p_lvalue(ts, i) matches Parsed::Yes(target, j) ==> (if at(ts, j, TokenKind::Assign) {
            p_assign(ts, i) matches Parsed::Yes(stmt, n) ==> (p_expr(ts, j + 1) matches Parsed::Yes(
                value,
                k,
            ) && at(ts, k, TokenKind::Semicolon) && n == k + 1 && stmt == (StmtV::Assign { target: Box::new(target), value }))
        } else {
            p_assign(ts, i) == p_expr_stmt(ts, i)
        }),
{
    reveal(p_assign);
}

proof fn lemma_assign_there(
    us: Seq<TokenV>,
    x: int,
    y: int,
    z: int,
    target: ExprV,
    value: ExprV,
)
    requires
        reads(p_lvalue(us, x), target, y),
        at(us, y, TokenKind::Assign),
        reads(p_expr(us, y + 1), value, z),
        at(us, z, TokenKind::Semicolon),
    ensures
        reads(p_assign(us, x), StmtV::Assign { target: Box::new(target), value }, z + 1),
{
    reveal(p_assign);
}

proof fn lemma_expr_there(us: Seq<TokenV>, x: int, y: int, z: int, target: ExprV, stmt: StmtV)
    requires
        reads(p_lvalue(us, x), target, y),
        !at(us, y, TokenKind::Assign),
        reads(p_expr_stmt(us, x), stmt, z),
    ensures
        reads(p_assign(us, x), stmt, z),
{
    reveal(p_assign);
}

pub proof fn lemma_expr_stmt(
    ts: Seq<TokenV>,
    i: int,
    us: Seq<TokenV>,
    x: int,
    by: int,
    upto: int,
)
    requires
        same_below(ts, us, by, upto),
        0 <= i <= upto,
        x == i + by,
    ensures
        p_expr_stmt(ts, i) matches Parsed::Yes(v, j) ==> i <= j <= upto && (settled_at(ts, j, upto) ==> reads(p_expr_stmt(us, x), v, j + by)),
{
    if i < upto {
        assert(us[x] == ts[i]);
    }
    reveal(p_expr_stmt);
    lemma_expr(ts, i, us, x, by, upto);
    match p_expr(ts, i) {
        Parsed::Yes(value, j) => {
            match expect(ts, j, TokenKind::Semicolon, "Expected ';' after expression statement"@) {
                Parsed::Yes(_s, k) => {
                    assert(k + by == j + by + 1);
                },
                _ => {},
            }
        },
        _ => {},
    }
}

pub proof fn lemma_return(
    ts: Seq<TokenV>,
    i: int,
    us: Seq<TokenV>,
    x: int,
    by: int,
    upto: int,
)
    requires
        same_below(ts, us, by, upto),
        0 <= i <= upto,
        x == i + by,
    ensures
        p_return(ts, i) matches Parsed::Yes(v, j) ==> i <= j <= upto && (settled_at(ts, j, upto) ==> reads(p_return(us, x), v, j + by)),
{
    if i < upto {
        assert(us[x] == ts[i]);
    }
    reveal(p_return);
    match expect(ts, i, TokenKind::Return, "Expected 'return'"@) {
        Parsed::Yes(_r, j) => {
            if at(ts, j, TokenKind::Semicolon) {
                assert(j + 1 + by == x + 1 + 1);
            } else {
                lemma_expr(ts, j, us, x + 1, by, upto);
                match p_expr(ts, j) {
                    Parsed::Yes(value, k) => {
                        match expect(ts, k, TokenKind::Semicolon, "Expected ';' after return expression"@) {
                            Parsed::Yes(_s, m) => {
                                assert(m + by == k + by + 1);
                            },
                            _ => {},
                        }
                    },
                    _ => {},
                }
            }
        },
        _ => {},
    }
}

pub proof fn lemma_head(
    ts: Seq<TokenV>,
    i: int,
    keyword: TokenKind,
    no_keyword: Seq<char>,
    no_open: Seq<char>,
    no_close: Seq<char>,
    no_brace: Seq<char>,
    us: Seq<TokenV>,
    x: int,
    by: int,
    upto: int,
)
    requires
        same_below(ts, us, by, upto),
        0 <= i <= upto,
        x == i + by,
    ensures
        p_head(ts, i, keyword, no_keyword, no_open, no_close, no_brace) matches Parsed::Yes(v, j) ==> i <= j <= upto && (settled_at(ts, j, upto) ==> reads(p_head(us, x, keyword, no_keyword, no_open, no_close, no_brace), v, j + by)),
{
    if i < upto {
        assert(us[x] == ts[i]);
    }
    reveal(p_head);
    match expect(ts, i, keyword, no_keyword) {
        Parsed::Yes(_k, i1) => {
            match expect(ts, i1, TokenKind::LeftParen, no_open) {
                Parsed::Yes(_p, i2) => {
                    lemma_expr(ts, i2, us, x + 1 + 1, by, upto);
                    match ahead(p_expr(ts, i2), i2, ts) {
                        Parsed::Yes(cond, i3) => {
                            match expect(ts, i3, TokenKind::RightParen, no_close) {
                                Parsed::Yes(_q, i4) => {
                                    match expect(ts, i4, TokenKind::LeftBrace, no_brace) {
                                        Parsed::Yes(_b, i5) => {
                                            assert(i5 + by == i3 + by + 1 + 1);
                                        },
                                        _ => {},
                                    }
                                },
                                _ => {},
                            }
                        },
                        _ => {},
                    }
                },
                _ => {},
            }
        },
        _ => {},
    }
}

pub proof fn lemma_if(
    ts: Seq<TokenV>,
    i: int,
    us: Seq<TokenV>,
    x: int,
    by: int,
    upto: int,
)
    requires
        same_below(ts, us, by, upto),
        0 <= i <= upto,
        x == i + by,
    ensures
        p_if(ts, i) matches Parsed::Yes(v, j) ==> i <= j <= upto && (settled_at(ts, j, upto) ==> reads(p_if(us, x), v, j + by)),
    decreases ts.len() - i, 0int,
{
    if i < upto {
        assert(us[x] == ts[i]);
    }
    lemma_head(ts, i, TokenKind::If, "Expected 'if'"@, "Expected '(' after 'if'"@, "Expected ')' after 'if'"@, "Expected '{' after 'if'"@, us, x, by, upto);
    match ahead(p_head(ts, i, TokenKind::If, "Expected 'if'"@, "Expected '(' after 'if'"@, "Expected ')' after 'if'"@, "Expected '{' after 'if'"@), i, ts) {
        Parsed::Yes(cond, j) => {
            lemma_stmts(ts, j, Seq::empty(), us, j + by, by, upto);
            match p_stmts(ts, j, Seq::empty()) {
                Parsed::Yes(then_branch, k) => {
                    match ahead(expect(ts, k, TokenKind::RightBrace, "Expected '}' after 'if'"@), j, ts) {
                        Parsed::Yes(_c, m) => {
                            if at(ts, m, TokenKind::Else) {
                                lemma_else(ts, m + 1, us, k + by + 1 + 1, by, upto);
                            } else {
                                assert(m + by == k + by + 1);
                            }
                        },
                        _ => {},
                    }
                },
                _ => {},
            }
        },
        _ => {},
    }
}

pub proof fn lemma_else(
    ts: Seq<TokenV>,
    i: int,
    us: Seq<TokenV>,
    x: int,
    by: int,
    upto: int,
)
    requires
        same_below(ts, us, by, upto),
        0 <= i <= upto,
        x == i + by,
    ensures
        p_else(ts, i) matches Parsed::Yes(v, j) ==> i <= j <= upto && (settled_at(ts, j, upto) ==> reads(p_else(us, x), v, j + by)),
    decreases ts.len() - i, 1int,
{
    if i < upto {
        assert(us[x] == ts[i]);
    }
    if at(ts, i, TokenKind::If) {
        lemma_if(ts, i, us, x, by, upto);
    } else {
        match expect(ts, i, TokenKind::LeftBrace, "Expected '{' after 'else'"@) {
            Parsed::Yes(_d, j) => {
                lemma_stmts(ts, j, Seq::empty(), us, x + 1, by, upto);
                match p_stmts(ts, j, Seq::empty()) {
                    Parsed::Yes(other, k) => {
                        match expect(ts, k, TokenKind::RightBrace, "Expected '}' after 'else'"@) {
                            Parsed::Yes(_e, m) => {
                                assert(m + by == k + by + 1);
                            },
                            _ => {},
                        }
                    },
                    _ => {},
                }
            },
            _ => {},
        }
    }
}

pub proof fn lemma_while(
    ts: Seq<TokenV>,
    i: int,
    us: Seq<TokenV>,
    x: int,
    by: int,
    upto: int,
)
    requires
        same_below(ts, us, by, upto),
        0 <= i <= upto,
        x == i + by,
    ensures
        p_while(ts, i) matches Parsed::Yes(v, j) ==> i <= j <= upto && (settled_at(ts, j, upto) ==> reads(p_while(us, x), v, j + by)),
    decreases ts.len() - i, 0int,
{
    if i < upto {
        assert(us[x] == ts[i]);
    }
    lemma_head(ts, i, TokenKind::While, "Expected 'while'"@, "Expected '(' after 'while'"@, "Expected ')' after 'while'"@, "Expected '{' after 'while'"@, us, x, by, upto);
    match ahead(p_head(ts, i, TokenKind::While, "Expected 'while'"@, "Expected '(' after 'while'"@, "Expected ')' after 'while'"@, "Expected '{' after 'while'"@), i, ts) {
        Parsed::Yes(cond, j) => {
            lemma_stmts(ts, j, Seq::empty(), us, j + by, by, upto);
            match p_stmts(ts, j, Seq::empty()) {
                Parsed::Yes(body, k) => {
                    match expect(ts, k, TokenKind::RightBrace, "Expected '}' after 'while'"@) {
                        Parsed::Yes(_c, m) => {
                            assert(m + by == k + by + 1);
                        },
                        _ => {},
                    }
                },
                _ => {},
            }
        },
        _ => {},
    }
}

} // verus!
