//! Operands and what follows them.

use crate::ast::{ExprV, LiteralV, PathV, TypeOrConstV};
use crate::parser::grammar::{
    Parsed, ahead, at, at_end, expect, p_args, p_array_literal, p_callee, p_elements, p_expr,
    p_field_inits, p_operand, p_postfix, p_turbofish, quoted, unescaped,
};
use crate::parser::joined::{reads, same_below, settled_at};
use crate::parser::joined::exprs::lemma_expr;
use crate::parser::joined::types::{lemma_callee, lemma_turbofish};
use crate::text::integer_of;
use crate::token::{TokenKind, TokenV};
use vstd::prelude::*;

verus! {

pub proof fn lemma_operand(
    ts: Seq<TokenV>,
    i: int,
    us: Seq<TokenV>,
    x: int,
    by: int,
    upto: int,
)
    requires
        same_below(ts, us, by, upto),
        0 <= i <= upto,
        x == i + by,
    ensures
        p_operand(ts, i) matches Parsed::Yes(v, j) ==> i < j <= upto && (settled_at(ts, j, upto) ==> reads(p_operand(us, x), v, j + by)),
    decreases ts.len() - i, 2int,
{
    if i >= ts.len() {
    } else if ts[i].kind == TokenKind::IntLiteral {
        lemma_int_operand(ts, i, us, x, by, upto);
    } else if ts[i].kind == TokenKind::StringLiteral {
        lemma_string_operand(ts, i, us, x, by, upto);
    } else if ts[i].kind == TokenKind::Ident {
        lemma_name_operand(ts, i, us, x, by, upto);
    } else if ts[i].kind == TokenKind::LeftParen {
        lemma_paren_operand(ts, i, us, x, by, upto);
    } else if ts[i].kind == TokenKind::LeftBracket {
        lemma_array_operand(ts, i, us, x, by, upto);
    }
}

pub proof fn lemma_int_operand(
    ts: Seq<TokenV>,
    i: int,
    us: Seq<TokenV>,
    x: int,
    by: int,
    upto: int,
)
    requires
        same_below(ts, us, by, upto),
        0 <= i <= upto,
        x == i + by,
        i < ts.len(),
        ts[i].kind == TokenKind::IntLiteral,
    ensures
        p_operand(ts, i) matches Parsed::Yes(v, j) ==> i < j <= upto && (settled_at(ts, j, upto) ==> reads(p_operand(us, x), v, j + by)),
    decreases ts.len() - i, 1int,
{
    if i < upto {
        assert(us[x] == ts[i]);
    }
    match integer_of(ts[i].lexeme, true, i64::MIN as int, i64::MAX as int) {
        Some(v) => {
            lemma_postfix(ts, i + 1, ExprV::Literal(LiteralV::Int(v as i64)), us, x + 1, by, upto);
        },
        _ => {},
    }
}

pub proof fn lemma_string_operand(
    ts: Seq<TokenV>,
    i: int,
    us: Seq<TokenV>,
    x: int,
    by: int,
    upto: int,
)
    requires
        same_below(ts, us, by, upto),
        0 <= i <= upto,
        x == i + by,
        i < ts.len(),
        ts[i].kind == TokenKind::StringLiteral,
    ensures
        p_operand(ts, i) matches Parsed::Yes(v, j) ==> i < j <= upto && (settled_at(ts, j, upto) ==> reads(p_operand(us, x), v, j + by)),
    decreases ts.len() - i, 1int,
{
    if i < upto {
        assert(us[x] == ts[i]);
    }
    match quoted(ts[i].lexeme) {
        Some(text) => {
            match unescaped(text, 0, Seq::empty()) {
                Ok(s) => {
                    lemma_postfix(ts, i + 1, ExprV::Literal(LiteralV::String(s)), us, x + 1, by, upto);
                },
                _ => {},
            }
        },
        _ => {},
    }
}

pub proof fn lemma_name_operand(
    ts: Seq<TokenV>,
    i: int,
    us: Seq<TokenV>,
    x: int,
    by: int,
    upto: int,
)
    requires
        same_below(ts, us, by, upto),
        0 <= i <= upto,
        x == i + by,
        i < ts.len(),
        ts[i].kind == TokenKind::Ident,
    ensures
        p_operand(ts, i) matches Parsed::Yes(v, j) ==> i < j <= upto && (settled_at(ts, j, upto) ==> reads(p_operand(us, x), v, j + by)),
    decreases ts.len() - i, 1int,
{
    if i < upto {
        assert(us[x] == ts[i]);
    }
    lemma_callee(ts, i, us, x, by, upto);
    match ahead(p_callee(ts, i), i, ts) {
        Parsed::Yes(path, j) => {
            lemma_turbofish(ts, j, us, j + by, by, upto);
            match ahead(p_turbofish(ts, j), i, ts) {
                Parsed::Yes(turbofish, k) => {
                    assert(settled_at(ts, k, upto) ==> settled_at(ts, j, upto));
                    if at(ts, k, TokenKind::LeftBrace) {
                        lemma_literal(ts, i, path, j, turbofish, k, us, x, by, upto);
                    } else if turbofish.len() > 0 && at(ts, k, TokenKind::LeftParen) {
                        lemma_called(ts, i, path, j, turbofish, k, us, x, by, upto);
                    } else if turbofish.len() == 0 {
                        lemma_name(ts, i, path, j, turbofish, k, us, x, by, upto);
                    }
                },
                _ => {},
            }
        },
        _ => {},
    }
}

pub proof fn lemma_paren_operand(
    ts: Seq<TokenV>,
    i: int,
    us: Seq<TokenV>,
    x: int,
    by: int,
    upto: int,
)
    requires
        same_below(ts, us, by, upto),
        0 <= i <= upto,
        x == i + by,
        i < ts.len(),
        ts[i].kind == TokenKind::LeftParen,
    ensures
        p_operand(ts, i) matches Parsed::Yes(v, j) ==> i < j <= upto && (settled_at(ts, j, upto) ==> reads(p_operand(us, x), v, j + by)),
    decreases ts.len() - i, 1int,
{
    if i < upto {
        assert(us[x] == ts[i]);
    }
    lemma_expr(ts, i + 1, us, x + 1, by, upto);
    match ahead(p_expr(ts, i + 1), i + 1, ts) {
        Parsed::Yes(inner, j) => {
            match expect(ts, j, TokenKind::RightParen, "Expected ')' after grouped expression"@) {
                Parsed::Yes(_c, k) => {
                    lemma_postfix(ts, k, ExprV::Paren(Box::new(inner)), us, j + by + 1, by, upto);
                },
                _ => {},
            }
        },
        _ => {},
    }
}

pub proof fn lemma_array_operand(
    ts: Seq<TokenV>,
    i: int,
    us: Seq<TokenV>,
    x: int,
    by: int,
    upto: int,
)
    requires
        same_below(ts, us, by, upto),
        0 <= i <= upto,
        x == i + by,
        i < ts.len(),
        ts[i].kind == TokenKind::LeftBracket,
    ensures
        p_operand(ts, i) matches Parsed::Yes(v, j) ==> i < j <= upto && (settled_at(ts, j, upto) ==> reads(p_operand(us, x), v, j + by)),
    decreases ts.len() - i, 1int,
{
    if i < upto {
        assert(us[x] == ts[i]);
    }
    lemma_array_literal(ts, i + 1, us, x + 1, by, upto);
    match ahead(p_array_literal(ts, i + 1), i + 1, ts) {
        Parsed::Yes(value, j) => {
            lemma_postfix(ts, j, value, us, j + by, by, upto);
        },
        _ => {},
    }
}

proof fn literal_parts(
    us: Seq<TokenV>,
    x: int,
    y: int,
    z: int,
    path: PathV,
    turbofish: Seq<TypeOrConstV>,
)
    requires
        0 <= x < us.len(),
        us[x].kind == TokenKind::Ident,
        ahead(p_callee(us, x), x, us) == Parsed::Yes(path, y),
        ahead(p_turbofish(us, y), x, us) == Parsed::Yes(turbofish, z),
        at(us, z, TokenKind::LeftBrace),
    ensures
        p_operand(us, x) is Yes ==> (p_field_inits(us, z + 1, Seq::empty()) matches Parsed::Yes(_f, w) && at(us, w, TokenKind::RightBrace)),
{
}

proof fn call_parts(
    us: Seq<TokenV>,
    x: int,
    y: int,
    z: int,
    path: PathV,
    turbofish: Seq<TypeOrConstV>,
)
    requires
        0 <= x < us.len(),
        us[x].kind == TokenKind::Ident,
        ahead(p_callee(us, x), x, us) == Parsed::Yes(path, y),
        ahead(p_turbofish(us, y), x, us) == Parsed::Yes(turbofish, z),
        turbofish.len() > 0,
        at(us, z, TokenKind::LeftParen),
    ensures
        p_operand(us, x) is Yes ==> (p_args(us, z + 1, Seq::empty()) matches Parsed::Yes(args, w) && at(us, w, TokenKind::RightParen) && p_postfix(us, w + 1, ExprV::Call { callee: path, args, turbofish }) is Yes),
{
}

proof fn literal_there(
    us: Seq<TokenV>,
    x: int,
    y: int,
    z: int,
    path: PathV,
    turbofish: Seq<TypeOrConstV>,
    fields: Seq<(Seq<char>, ExprV)>,
    w: int,
)
    requires
        0 <= x < us.len(),
        us[x].kind == TokenKind::Ident,
        ahead(p_callee(us, x), x, us) == Parsed::Yes(path, y),
        ahead(p_turbofish(us, y), x, us) == Parsed::Yes(turbofish, z),
        at(us, z, TokenKind::LeftBrace),
        reads(p_field_inits(us, z + 1, Seq::empty()), fields, w),
        at(us, w, TokenKind::RightBrace),
    ensures
        reads(p_operand(us, x), ExprV::StructLiteral { name: path, fields, turbofish }, w + 1),
{
}

proof fn call_there(
    us: Seq<TokenV>,
    x: int,
    y: int,
    z: int,
    path: PathV,
    turbofish: Seq<TypeOrConstV>,
    args: Seq<ExprV>,
    w: int,
    v: ExprV,
    n: int,
)
    requires
        0 <= x < us.len(),
        us[x].kind == TokenKind::Ident,
        ahead(p_callee(us, x), x, us) == Parsed::Yes(path, y),
        ahead(p_turbofish(us, y), x, us) == Parsed::Yes(turbofish, z),
        turbofish.len() > 0,
        at(us, z, TokenKind::LeftParen),
        reads(p_args(us, z + 1, Seq::empty()), args, w),
        at(us, w, TokenKind::RightParen),
        x <= w,
        reads(p_postfix(us, w + 1, ExprV::Call { callee: path, args, turbofish }), v, n),
    ensures
        reads(p_operand(us, x), v, n),
{
}

proof fn name_there(
    us: Seq<TokenV>,
    x: int,
    y: int,
    z: int,
    path: PathV,
    turbofish: Seq<TypeOrConstV>,
    v: ExprV,
    n: int,
)
    requires
        0 <= x < us.len(),
        us[x].kind == TokenKind::Ident,
        ahead(p_callee(us, x), x, us) == Parsed::Yes(path, y),
        ahead(p_turbofish(us, y), x, us) == Parsed::Yes(turbofish, z),
        turbofish.len() == 0,
        !at(us, z, TokenKind::LeftBrace),
        reads(p_postfix(us, z, ExprV::Ident(path)), v, n),
    ensures
        reads(p_operand(us, x), v, n),
{
}

pub proof fn lemma_literal(
    ts: Seq<TokenV>,
    i: int,
    path: PathV,
    j: int,
    turbofish: Seq<TypeOrConstV>,
    k: int,
    us: Seq<TokenV>,
    x: int,
    by: int,
    upto: int,
)
    requires
        same_below(ts, us, by, upto),
        0 <= i < j <= k <= upto,
        x == i + by,
        ts[i].kind == TokenKind::Ident,
        ahead(p_callee(ts, i), i, ts) == Parsed::Yes(path, j),
        ahead(p_turbofish(ts, j), i, ts) == Parsed::Yes(turbofish, k),
        settled_at(ts, k, upto) ==> ahead(p_callee(us, x), x, us) == Parsed::Yes(path, j + by),
        settled_at(ts, k, upto) ==> ahead(p_turbofish(us, j + by), x, us) == Parsed::Yes(turbofish, k + by),
        at(ts, k, TokenKind::LeftBrace),
    ensures
        p_operand(ts, i) matches Parsed::Yes(v, n) ==> i < n <= upto && (settled_at(ts, n, upto) ==> reads(p_operand(us, x), v, n + by)),
    decreases ts.len() - i, 0int,
{
    assert(us[x] == ts[i]);
    literal_parts(ts, i, j, k, path, turbofish);
    assert(settled_at(ts, k, upto));
    assert(us[k + by] == ts[k]);
    lemma_field_inits(ts, k + 1, Seq::empty(), us, k + by + 1, by, upto);
    if let Parsed::Yes(fields, m) = p_field_inits(ts, k + 1, Seq::empty()) {
        if at(ts, m, TokenKind::RightBrace) {
            assert(settled_at(ts, m, upto));
            assert(us[m + by] == ts[m]);
            assert(m + 1 + by == m + by + 1);
            literal_there(ts, i, j, k, path, turbofish, fields, m);
            literal_there(us, x, j + by, k + by, path, turbofish, fields, m + by);
        }
    }
}

pub proof fn lemma_called(
    ts: Seq<TokenV>,
    i: int,
    path: PathV,
    j: int,
    turbofish: Seq<TypeOrConstV>,
    k: int,
    us: Seq<TokenV>,
    x: int,
    by: int,
    upto: int,
)
    requires
        same_below(ts, us, by, upto),
        0 <= i < j <= k <= upto,
        x == i + by,
        ts[i].kind == TokenKind::Ident,
        ahead(p_callee(ts, i), i, ts) == Parsed::Yes(path, j),
        ahead(p_turbofish(ts, j), i, ts) == Parsed::Yes(turbofish, k),
        settled_at(ts, k, upto) ==> ahead(p_callee(us, x), x, us) == Parsed::Yes(path, j + by),
        settled_at(ts, k, upto) ==> ahead(p_turbofish(us, j + by), x, us) == Parsed::Yes(turbofish, k + by),
        turbofish.len() > 0,
        at(ts, k, TokenKind::LeftParen),
    ensures
        p_operand(ts, i) matches Parsed::Yes(v, n) ==> i < n <= upto && (settled_at(ts, n, upto) ==> reads(p_operand(us, x), v, n + by)),
    decreases ts.len() - i, 0int,
{
    assert(us[x] == ts[i]);
    call_parts(ts, i, j, k, path, turbofish);
    assert(settled_at(ts, k, upto));
    assert(us[k + by] == ts[k]);
    lemma_args(ts, k + 1, Seq::empty(), us, k + by + 1, by, upto);
    if let Parsed::Yes(args, m) = p_args(ts, k + 1, Seq::empty()) {
        if at(ts, m, TokenKind::RightParen) {
            assert(settled_at(ts, m, upto));
            assert(us[m + by] == ts[m]);
            let call = ExprV::Call { callee: path, args, turbofish };
            lemma_postfix(ts, m + 1, call, us, m + by + 1, by, upto);
            if let Parsed::Yes(v, n) = p_postfix(ts, m + 1, call) {
                call_there(ts, i, j, k, path, turbofish, args, m, v, n);
                if settled_at(ts, n, upto) {
                    call_there(us, x, j + by, k + by, path, turbofish, args, m + by, v, n + by);
                }
            }
        }
    }
}

pub proof fn lemma_name(
    ts: Seq<TokenV>,
    i: int,
    path: PathV,
    j: int,
    turbofish: Seq<TypeOrConstV>,
    k: int,
    us: Seq<TokenV>,
    x: int,
    by: int,
    upto: int,
)
    requires
        same_below(ts, us, by, upto),
        0 <= i < j <= k <= upto,
        x == i + by,
        ts[i].kind == TokenKind::Ident,
        ahead(p_callee(ts, i), i, ts) == Parsed::Yes(path, j),
        ahead(p_turbofish(ts, j), i, ts) == Parsed::Yes(turbofish, k),
        settled_at(ts, k, upto) ==> ahead(p_callee(us, x), x, us) == Parsed::Yes(path, j + by),
        settled_at(ts, k, upto) ==> ahead(p_turbofish(us, j + by), x, us) == Parsed::Yes(turbofish, k + by),
        turbofish.len() == 0,
        !at(ts, k, TokenKind::LeftBrace),
    ensures
        p_operand(ts, i) matches Parsed::Yes(v, n) ==> i < n <= upto && (settled_at(ts, n, upto) ==> reads(p_operand(us, x), v, n + by)),
    decreases ts.len() - i, 0int,
{
    assert(us[x] == ts[i]);
    if k < upto {
        assert(us[k + by] == ts[k]);
    }
    lemma_postfix(ts, k, ExprV::Ident(path), us, k + by, by, upto);
    if let Parsed::Yes(v, n) = p_postfix(ts, k, ExprV::Ident(path)) {
        if settled_at(ts, n, upto) {
            assert(settled_at(ts, k, upto));
            name_there(us, x, j + by, k + by, path, turbofish, v, n + by);
        }
    }
}

pub proof fn lemma_postfix(
    ts: Seq<TokenV>,
    i: int,
    base: ExprV,
    us: Seq<TokenV>,
    x: int,
    by: int,
    upto: int,
)
    requires
        same_below(ts, us, by, upto),
        0 <= i <= upto,
        x == i + by,
    ensures
        p_postfix(ts, i, base) matches Parsed::Yes(v, j) ==> i <= j <= upto && (settled_at(ts, j, upto) ==> reads(p_postfix(us, x, base), v, j + by)),
    decreases ts.len() - i, 0int,
{
    if i < upto {
        assert(us[x] == ts[i]);
    }
    if at(ts, i, TokenKind::Dot) {
        match expect(ts, i + 1, TokenKind::Ident, "Expected field or method name after '.'"@) {
            Parsed::Yes(name, j) => {
                if at(ts, j, TokenKind::LeftParen) {
                    lemma_args(ts, j + 1, Seq::empty(), us, x + 1 + 1 + 1, by, upto);
                    match p_args(ts, j + 1, Seq::empty()) {
                        Parsed::Yes(args, k) => {
                            match ahead(expect(ts, k, TokenKind::RightParen, "Expected ')' after method arguments"@), j, ts) {
                                Parsed::Yes(_c, m) => {
                                    lemma_postfix(ts, m, ExprV::MethodCall { object: Box::new(base), name: name.lexeme, args }, us, k + by + 1, by, upto);
                                },
                                _ => {},
                            }
                        },
                        _ => {},
                    }
                } else {
                    lemma_postfix(ts, j, ExprV::FieldAccess { object: Box::new(base), field: name.lexeme }, us, x + 1 + 1, by, upto);
                }
            },
            _ => {},
        }
    } else if at(ts, i, TokenKind::LeftParen) && base is Ident {
        lemma_args(ts, i + 1, Seq::empty(), us, x + 1, by, upto);
        match p_args(ts, i + 1, Seq::empty()) {
            Parsed::Yes(args, k) => {
                match ahead(expect(ts, k, TokenKind::RightParen, "Expected ')' after arguments"@), i, ts) {
                    Parsed::Yes(_c, m) => {
                        lemma_postfix(ts, m, ExprV::Call { callee: base->Ident_0, args, turbofish: Seq::empty() }, us, k + by + 1, by, upto);
                    },
                    _ => {},
                }
            },
            _ => {},
        }
    } else if at(ts, i, TokenKind::LeftBracket) {
        lemma_expr(ts, i + 1, us, x + 1, by, upto);
        match ahead(p_expr(ts, i + 1), i + 1, ts) {
            Parsed::Yes(index, j) => {
                match expect(ts, j, TokenKind::RightBracket, "Expected ']' after array index"@) {
                    Parsed::Yes(_c, k) => {
                        lemma_postfix(ts, k, ExprV::Index { array: Box::new(base), index: Box::new(index) }, us, j + by + 1, by, upto);
                    },
                    _ => {},
                }
            },
            _ => {},
        }
    }
}

pub proof fn lemma_args(
    ts: Seq<TokenV>,
    i: int,
    done: Seq<ExprV>,
    us: Seq<TokenV>,
    x: int,
    by: int,
    upto: int,
)
    requires
        same_below(ts, us, by, upto),
        0 <= i <= upto,
        x == i + by,
    ensures
        p_args(ts, i, done) matches Parsed::Yes(v, j) ==> i <= j <= upto && (settled_at(ts, j, upto) ==> reads(p_args(us, x, done), v, j + by)),
    decreases ts.len() - i, 7int,
{
    if i < upto {
        assert(us[x] == ts[i]);
    }
    if !(at_end(ts, i) || at(ts, i, TokenKind::RightParen)) {
        lemma_expr(ts, i, us, x, by, upto);
        match ahead(p_expr(ts, i), i, ts) {
            Parsed::Yes(arg, j) => {
                if at(ts, j, TokenKind::Comma) {
                    lemma_args(ts, j + 1, done.push(arg), us, j + by + 1, by, upto);
                }
            },
            _ => {},
        }
    }
}

pub proof fn lemma_field_inits(
    ts: Seq<TokenV>,
    i: int,
    done: Seq<(Seq<char>, ExprV)>,
    us: Seq<TokenV>,
    x: int,
    by: int,
    upto: int,
)
    requires
        same_below(ts, us, by, upto),
        0 <= i <= upto,
        x == i + by,
    ensures
        p_field_inits(ts, i, done) matches Parsed::Yes(v, j) ==> i <= j <= upto && (settled_at(ts, j, upto) ==> reads(p_field_inits(us, x, done), v, j + by)),
    decreases ts.len() - i, 0int,
{
    if i < upto {
        assert(us[x] == ts[i]);
    }
    if !(at_end(ts, i) || at(ts, i, TokenKind::RightBrace)) {
        match expect(ts, i, TokenKind::Ident, "Expected field name"@) {
            Parsed::Yes(name, j) => {
                match expect(ts, j, TokenKind::Colon, "Expected ':' after field name"@) {
                    Parsed::Yes(_c, k) => {
                        lemma_expr(ts, k, us, x + 1 + 1, by, upto);
                        match ahead(p_expr(ts, k), k, ts) {
                            Parsed::Yes(value, m) => {
                                if at(ts, m, TokenKind::Comma) {
                                    lemma_field_inits(ts, m + 1, done.push((name.lexeme, value)), us, m + by + 1, by, upto);
                                } else {
                                    lemma_field_inits(ts, m, done.push((name.lexeme, value)), us, m + by, by, upto);
                                }
                            },
                            _ => {},
                        }
                    },
                    _ => {},
                }
            },
            _ => {},
        }
    }
}

pub proof fn lemma_array_literal(
    ts: Seq<TokenV>,
    i: int,
    us: Seq<TokenV>,
    x: int,
    by: int,
    upto: int,
)
    requires
        same_below(ts, us, by, upto),
        0 <= i <= upto,
        x == i + by,
    ensures
        p_array_literal(ts, i) matches Parsed::Yes(v, j) ==> i <= j <= upto && (settled_at(ts, j, upto) ==> reads(p_array_literal(us, x), v, j + by)),
    decreases ts.len() - i, 7int,
{
    lemma_expr(ts, i, us, x, by, upto);
    match ahead(p_expr(ts, i), i, ts) {
        Parsed::Yes(first, j) => {
            if at(ts, j, TokenKind::Semicolon) {
                lemma_repeated(ts, i, first, j, us, x, by, upto);
            } else {
                lemma_listed(ts, i, first, j, us, x, by, upto);
            }
        },
        _ => {},
    }
}

proof fn repeated_parts(us: Seq<TokenV>, x: int, y: int, first: ExprV)
    requires
        ahead(p_expr(us, x), x, us) == Parsed::Yes(first, y),
        at(us, y, TokenKind::Semicolon),
    ensures
        p_array_literal(us, x) is Yes ==> (p_expr(us, y + 1) matches Parsed::Yes(_c, z) && at(
            us,
            z,
            TokenKind::RightBracket,
        )),
{
}

proof fn listed_parts(us: Seq<TokenV>, x: int, y: int, first: ExprV)
    requires
        ahead(p_expr(us, x), x, us) == Parsed::Yes(first, y),
        !at(us, y, TokenKind::Semicolon),
    ensures
        p_array_literal(us, x) is Yes ==> (p_elements(us, y, seq![first]) matches Parsed::Yes(
            _a,
            z,
        ) && at(us, z, TokenKind::RightBracket)),
{
}

proof fn repeated_there(us: Seq<TokenV>, x: int, y: int, z: int, first: ExprV, count: ExprV)
    requires
        ahead(p_expr(us, x), x, us) == Parsed::Yes(first, y),
        at(us, y, TokenKind::Semicolon),
        reads(p_expr(us, y + 1), count, z),
        at(us, z, TokenKind::RightBracket),
    ensures
        reads(
            p_array_literal(us, x),
            ExprV::ArrayLiteral { elements: seq![first], repeat: Some(Box::new(count)) },
            z + 1,
        ),
{
}

proof fn listed_there(us: Seq<TokenV>, x: int, y: int, z: int, first: ExprV, all: Seq<ExprV>)
    requires
        ahead(p_expr(us, x), x, us) == Parsed::Yes(first, y),
        !at(us, y, TokenKind::Semicolon),
        reads(p_elements(us, y, seq![first]), all, z),
        at(us, z, TokenKind::RightBracket),
    ensures
        reads(
            p_array_literal(us, x),
            ExprV::ArrayLiteral { elements: all, repeat: None },
            z + 1,
        ),
{
}

#[verifier::spinoff_prover]
#[verifier::rlimit(50)]
pub proof fn lemma_repeated(
    ts: Seq<TokenV>,
    i: int,
    first: ExprV,
    first_end: int,
    us: Seq<TokenV>,
    x: int,
    by: int,
    upto: int,
)
    requires
        same_below(ts, us, by, upto),
        0 <= i <= upto,
        x == i + by,
        ahead(p_expr(ts, i), i, ts) == Parsed::Yes(first, first_end),
        first_end <= upto,
        settled_at(ts, first_end, upto) ==> reads(p_expr(us, x), first, first_end + by),
        at(ts, first_end, TokenKind::Semicolon),
    ensures
        p_array_literal(ts, i) matches Parsed::Yes(v, j) ==> i <= j <= upto && (settled_at(ts, j, upto) ==> reads(p_array_literal(us, x), v, j + by)),
    decreases ts.len() - i, 0int,
{
    if i < upto {
        assert(us[x] == ts[i]);
    }
    repeated_parts(ts, i, first_end, first);
    assert(settled_at(ts, first_end, upto));
    assert(us[first_end + by] == ts[first_end]);
    lemma_expr(ts, first_end + 1, us, first_end + by + 1, by, upto);
    if let Parsed::Yes(count, k) = p_expr(ts, first_end + 1) {
        if at(ts, k, TokenKind::RightBracket) {
            assert(settled_at(ts, k, upto));
            assert(us[k + by] == ts[k]);
            assert(k + 1 + by == k + by + 1);
            repeated_there(ts, i, first_end, k, first, count);
            repeated_there(us, x, first_end + by, k + by, first, count);
        }
    }
}

#[verifier::spinoff_prover]
#[verifier::rlimit(50)]
pub proof fn lemma_listed(
    ts: Seq<TokenV>,
    i: int,
    first: ExprV,
    first_end: int,
    us: Seq<TokenV>,
    x: int,
    by: int,
    upto: int,
)
    requires
        same_below(ts, us, by, upto),
        0 <= i <= upto,
        x == i + by,
        ahead(p_expr(ts, i), i, ts) == Parsed::Yes(first, first_end),
        first_end <= upto,
        settled_at(ts, first_end, upto) ==> reads(p_expr(us, x), first, first_end + by),
        !at(ts, first_end, TokenKind::Semicolon),
    ensures
        p_array_literal(ts, i) matches Parsed::Yes(v, j) ==> i <= j <= upto && (settled_at(ts, j, upto) ==> reads(p_array_literal(us, x), v, j + by)),
    decreases ts.len() - i, 0int,
{
    if i < upto {
        assert(us[x] == ts[i]);
    }
    listed_parts(ts, i, first_end, first);
    if settled_at(ts, first_end, upto) {
        assert(us[first_end + by] == ts[first_end]);
        lemma_elements(ts, first_end, seq![first], us, first_end + by, by, upto);
        if let Parsed::Yes(all, k) = p_elements(ts, first_end, seq![first]) {
            if at(ts, k, TokenKind::RightBracket) {
                assert(settled_at(ts, k, upto));
                assert(us[k + by] == ts[k]);
                assert(k + 1 + by == k + by + 1);
                listed_there(ts, i, first_end, k, first, all);
                listed_there(us, x, first_end + by, k + by, first, all);
            }
        }
    }
}

pub proof fn lemma_elements(
    ts: Seq<TokenV>,
    i: int,
    done: Seq<ExprV>,
    us: Seq<TokenV>,
    x: int,
    by: int,
    upto: int,
)
    requires
        same_below(ts, us, by, upto),
        0 <= i <= upto,
        x == i + by,
    ensures
        p_elements(ts, i, done) matches Parsed::Yes(v, j) ==> i <= j <= upto && (settled_at(ts, j, upto) ==> reads(p_elements(us, x, done), v, j + by)),
    decreases ts.len() - i, 0int,
{
    if i < upto {
        assert(us[x] == ts[i]);
    }
    if at(ts, i, TokenKind::Comma) {
        if at(ts, i + 1, TokenKind::RightBracket) {
            assert(i + 1 + by == x + 1);
        } else {
            lemma_expr(ts, i + 1, us, x + 1, by, upto);
            match ahead(p_expr(ts, i + 1), i + 1, ts) {
                Parsed::Yes(value, j) => {
                    lemma_elements(ts, j, done.push(value), us, j + by, by, upto);
                },
                _ => {},
            }
        }
    }
}

} // verus!
