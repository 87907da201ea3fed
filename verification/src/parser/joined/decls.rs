//! Declarations.

use crate::ast::{EnumVariantV, GenericParamV, ImplMethodV, MetaV, ParamV, TraitMethodV, TypeV};
use crate::parser::grammar::{
    Parsed, ahead, at, at_end, at_next, expect, p_attributes, p_binding, p_decl, p_default_body,
    p_enum, p_extern_crate, p_extern_fn, p_field, p_fields, p_fn, p_fn_parts, p_foreign_params,
    p_generic_param, p_generic_params, p_generics, p_global, p_impl, p_impl_head, p_methods, p_mod,
    p_opt_generics, p_params, p_path, p_payload, p_return_type, p_stmts, p_struct, p_trait,
    p_trait_method, p_trait_methods, p_type, p_use, p_variant, p_variants,
};
use crate::parser::joined::{reads, same_below, settled_at};
use crate::parser::joined::stmts::lemma_stmts;
use crate::parser::joined::targets::lemma_binding;
use crate::parser::joined::types::{lemma_attributes, lemma_path, lemma_type};
use crate::token::{TokenKind, TokenV};
use vstd::prelude::*;

verus! {

pub proof fn lemma_params(
    ts: Seq<TokenV>,
    i: int,
    done: Seq<ParamV>,
    us: Seq<TokenV>,
    x: int,
    by: int,
    upto: int,
)
    requires
        same_below(ts, us, by, upto),
        0 <= i <= upto,
        x == i + by,
    ensures
        p_params(ts, i, done) matches Parsed::Yes(v, j) ==> i <= j <= upto && (settled_at(ts, j, upto) ==> reads(p_params(us, x, done), v, j + by)),
    decreases ts.len() - i,
{
    if i < upto {
        assert(us[x] == ts[i]);
    }
    if !(at_end(ts, i) || at(ts, i, TokenKind::RightParen)) {
        match expect(ts, i, TokenKind::Ident, "Expected parameter name"@) {
            Parsed::Yes(name, j) => {
                match expect(ts, j, TokenKind::Colon, "Expected ':' after parameter name"@) {
                    Parsed::Yes(_c, k) => {
                        lemma_type(ts, k, us, x + 1 + 1, by, upto);
                        match ahead(p_type(ts, k), k, ts) {
                            Parsed::Yes(ty, m) => {
                                if at(ts, m, TokenKind::Comma) {
                                    lemma_params(ts, m + 1, done.push(ParamV { name: name.lexeme, ty }), us, m + by + 1, by, upto);
                                } else {
                                    lemma_params(ts, m, done.push(ParamV { name: name.lexeme, ty }), us, m + by, by, upto);
                                }
                            },
                            _ => {},
                        }
                    },
                    _ => {},
                }
            },
            _ => {},
        }
    }
}

pub proof fn lemma_generics(
    ts: Seq<TokenV>,
    i: int,
    us: Seq<TokenV>,
    x: int,
    by: int,
    upto: int,
)
    requires
        same_below(ts, us, by, upto),
        0 <= i <= upto,
        x == i + by,
    ensures
        p_generics(ts, i) matches Parsed::Yes(v, j) ==> i <= j <= upto && (settled_at(ts, j, upto) ==> reads(p_generics(us, x), v, j + by)),
{
    if i < upto {
        assert(us[x] == ts[i]);
    }
    match expect(ts, i, TokenKind::Less, "期望 '<' 开始泛型参数列表"@) {
        Parsed::Yes(_o, j) => {
            lemma_generic_params(ts, j, Seq::empty(), us, x + 1, by, upto);
            match p_generic_params(ts, j, Seq::empty()) {
                Parsed::Yes(params, k) => {
                    match expect(ts, k, TokenKind::Greater, "期望 '>' 结束泛型参数列表"@) {
                        Parsed::Yes(_c, m) => {
                            assert(m + by == k + by + 1);
                        },
                        _ => {},
                    }
                },
                _ => {},
            }
        },
        _ => {},
    }
}

pub proof fn lemma_opt_generics(
    ts: Seq<TokenV>,
    i: int,
    us: Seq<TokenV>,
    x: int,
    by: int,
    upto: int,
)
    requires
        same_below(ts, us, by, upto),
        0 <= i <= upto,
        x == i + by,
    ensures
        p_opt_generics(ts, i) matches Parsed::Yes(v, j) ==> i <= j <= upto && (settled_at(ts, j, upto) ==> reads(p_opt_generics(us, x), v, j + by)),
{
    if i < upto {
        assert(us[x] == ts[i]);
    }
    if at(ts, i, TokenKind::Less) {
        lemma_generics(ts, i, us, x, by, upto);
    }
}

pub proof fn lemma_generic_param(
    ts: Seq<TokenV>,
    i: int,
    us: Seq<TokenV>,
    x: int,
    by: int,
    upto: int,
)
    requires
        same_below(ts, us, by, upto),
        0 <= i <= upto,
        x == i + by,
    ensures
        p_generic_param(ts, i) matches Parsed::Yes(v, j) ==> i <= j <= upto && (settled_at(ts, j, upto) ==> reads(p_generic_param(us, x), v, j + by)),
{
    if i < upto {
        assert(us[x] == ts[i]);
    }
    if at(ts, i, TokenKind::Const) {
        match expect(ts, i + 1, TokenKind::Ident, "期望泛型参数名"@) {
            Parsed::Yes(name, j) => {
                match expect(ts, j, TokenKind::Colon, "期望 ':' 后接常量参数类型"@) {
                    Parsed::Yes(_c, k) => {
                        lemma_type(ts, k, us, x + 1 + 1 + 1, by, upto);
                    },
                    _ => {},
                }
            },
            _ => {},
        }
    } else {
        match expect(ts, i, TokenKind::Ident, "期望泛型参数名"@) {
            Parsed::Yes(name, j) => {
                assert(j + by == x + 1);
            },
            _ => {},
        }
    }
}

pub proof fn lemma_generic_params(
    ts: Seq<TokenV>,
    i: int,
    done: Seq<GenericParamV>,
    us: Seq<TokenV>,
    x: int,
    by: int,
    upto: int,
)
    requires
        same_below(ts, us, by, upto),
        0 <= i <= upto,
        x == i + by,
    ensures
        p_generic_params(ts, i, done) matches Parsed::Yes(v, j) ==> i <= j <= upto && (settled_at(ts, j, upto) ==> reads(p_generic_params(us, x, done), v, j + by)),
    decreases ts.len() - i,
{
    if i < upto {
        assert(us[x] == ts[i]);
    }
    if !(at(ts, i, TokenKind::Greater) || at_end(ts, i)) {
        lemma_generic_param(ts, i, us, x, by, upto);
        match ahead(p_generic_param(ts, i), i, ts) {
            Parsed::Yes(param, j) => {
                if at(ts, j, TokenKind::Comma) {
                    lemma_generic_params(ts, j + 1, done.push(param), us, j + by + 1, by, upto);
                }
            },
            _ => {},
        }
    }
}

pub proof fn lemma_return_type(
    ts: Seq<TokenV>,
    i: int,
    us: Seq<TokenV>,
    x: int,
    by: int,
    upto: int,
)
    requires
        same_below(ts, us, by, upto),
        0 <= i <= upto,
        x == i + by,
    ensures
        p_return_type(ts, i) matches Parsed::Yes(v, j) ==> i <= j <= upto && (settled_at(ts, j, upto) ==> reads(p_return_type(us, x), v, j + by)),
{
    if i < upto {
        assert(us[x] == ts[i]);
    }
    if at(ts, i, TokenKind::Arrow) {
        lemma_type(ts, i + 1, us, x + 1, by, upto);
    }
}

pub proof fn lemma_fn_parts(
    ts: Seq<TokenV>,
    i: int,
    us: Seq<TokenV>,
    x: int,
    by: int,
    upto: int,
)
    requires
        same_below(ts, us, by, upto),
        0 <= i <= upto,
        x == i + by,
    ensures
        p_fn_parts(ts, i) matches Parsed::Yes(v, j) ==> i <= j <= upto && reads(p_fn_parts(us, x), v, j + by),
{
    if i < upto {
        assert(us[x] == ts[i]);
    }
    match expect(ts, i, TokenKind::Ident, "Expected function name"@) {
        Parsed::Yes(name, i1) => {
            lemma_opt_generics(ts, i1, us, x + 1, by, upto);
            match p_opt_generics(ts, i1) {
                Parsed::Yes(generics, i2) => {
                    match expect(ts, i2, TokenKind::LeftParen, "Expected '(' after function name"@) {
                        Parsed::Yes(_p, i3) => {
                            lemma_params(ts, i3, Seq::empty(), us, i2 + by + 1, by, upto);
                            match p_params(ts, i3, Seq::empty()) {
                                Parsed::Yes(params, i4) => {
                                    match expect(ts, i4, TokenKind::RightParen, "Expected ')' after parameters"@) {
                                        Parsed::Yes(_q, i5) => {
                                            lemma_return_type(ts, i5, us, i4 + by + 1, by, upto);
                                            match p_return_type(ts, i5) {
                                                Parsed::Yes(return_ty, i6) => {
                                                    match expect(ts, i6, TokenKind::LeftBrace, "Expected '{' before function body"@) {
                                                        Parsed::Yes(_b, i7) => {
                                                            lemma_stmts(ts, i7, Seq::empty(), us, i6 + by + 1, by, upto);
                                                            match p_stmts(ts, i7, Seq::empty()) {
                                                                Parsed::Yes(body, i8) => {
                                                                    match expect(ts, i8, TokenKind::RightBrace, "Expected '}' after function body"@) {
                                                                        Parsed::Yes(_c, i9) => {
                                                                            assert(i9 + by == i8 + by + 1);
                                                                        },
                                                                        _ => {},
                                                                    }
                                                                },
                                                                _ => {},
                                                            }
                                                        },
                                                        _ => {},
                                                    }
                                                },
                                                _ => {},
                                            }
                                        },
                                        _ => {},
                                    }
                                },
                                _ => {},
                            }
                        },
                        _ => {},
                    }
                },
                _ => {},
            }
        },
        _ => {},
    }
}

pub proof fn lemma_methods(
    ts: Seq<TokenV>,
    i: int,
    done: Seq<ImplMethodV>,
    us: Seq<TokenV>,
    x: int,
    by: int,
    upto: int,
)
    requires
        same_below(ts, us, by, upto),
        0 <= i <= upto,
        x == i + by,
    ensures
        p_methods(ts, i, done) matches Parsed::Yes(v, j) ==> i <= j <= upto && (settled_at(ts, j, upto) ==> reads(p_methods(us, x, done), v, j + by)),
    decreases ts.len() - i,
{
    if i < upto {
        assert(us[x] == ts[i]);
    }
    if !(at_end(ts, i) || at(ts, i, TokenKind::RightBrace)) {
        match expect(ts, i, TokenKind::Fn, "Expected 'fn' inside impl block"@) {
            Parsed::Yes(_f, j) => {
                lemma_fn_parts(ts, j, us, x + 1, by, upto);
                match ahead(p_fn_parts(ts, j), j, ts) {
                    Parsed::Yes(method, k) => {
                        if at(ts, k, TokenKind::Semicolon) {
                            lemma_methods(ts, k + 1, done.push(method), us, k + by + 1, by, upto);
                        } else {
                            lemma_methods(ts, k, done.push(method), us, k + by, by, upto);
                        }
                    },
                    _ => {},
                }
            },
            _ => {},
        }
    }
}

pub proof fn lemma_default_body(
    ts: Seq<TokenV>,
    i: int,
    us: Seq<TokenV>,
    x: int,
    by: int,
    upto: int,
)
    requires
        same_below(ts, us, by, upto),
        0 <= i <= upto,
        x == i + by,
    ensures
        p_default_body(ts, i) matches Parsed::Yes(v, j) ==> i <= j <= upto && (settled_at(ts, j, upto) ==> reads(p_default_body(us, x), v, j + by)),
{
    if i < upto {
        assert(us[x] == ts[i]);
    }
    if at(ts, i, TokenKind::LeftBrace) {
        lemma_stmts(ts, i + 1, Seq::empty(), us, x + 1, by, upto);
        match p_stmts(ts, i + 1, Seq::empty()) {
            Parsed::Yes(body, j) => {
                match expect(ts, j, TokenKind::RightBrace, "Expected '}' after default body"@) {
                    Parsed::Yes(_c, k) => {
                        assert(k + by == j + by + 1);
                    },
                    _ => {},
                }
            },
            _ => {},
        }
    } else {
        match expect(ts, i, TokenKind::Semicolon, "Expected ';' (必填方法) 或 '{' (默认实现)"@) {
            Parsed::Yes(_s, j) => {
                assert(j + by == x + 1);
            },
            _ => {},
        }
    }
}

pub proof fn lemma_trait_method(
    ts: Seq<TokenV>,
    i: int,
    us: Seq<TokenV>,
    x: int,
    by: int,
    upto: int,
)
    requires
        same_below(ts, us, by, upto),
        0 <= i <= upto,
        x == i + by,
    ensures
        p_trait_method(ts, i) matches Parsed::Yes(v, j) ==> i <= j <= upto && (settled_at(ts, j, upto) ==> reads(p_trait_method(us, x), v, j + by)),
{
    if i < upto {
        assert(us[x] == ts[i]);
    }
    match expect(ts, i, TokenKind::Fn, "Expected 'fn' inside trait block"@) {
        Parsed::Yes(_f, i1) => {
            match expect(ts, i1, TokenKind::Ident, "Expected trait method name"@) {
                Parsed::Yes(name, i2) => {
                    lemma_opt_generics(ts, i2, us, x + 1 + 1, by, upto);
                    match p_opt_generics(ts, i2) {
                        Parsed::Yes(generics, i3) => {
                            match expect(ts, i3, TokenKind::LeftParen, "Expected '(' after trait method name"@) {
                                Parsed::Yes(_p, i4) => {
                                    lemma_params(ts, i4, Seq::empty(), us, i3 + by + 1, by, upto);
                                    match p_params(ts, i4, Seq::empty()) {
                                        Parsed::Yes(params, i5) => {
                                            match expect(ts, i5, TokenKind::RightParen, "Expected ')' after trait method parameters"@) {
                                                Parsed::Yes(_q, i6) => {
                                                    lemma_return_type(ts, i6, us, i5 + by + 1, by, upto);
                                                    match p_return_type(ts, i6) {
                                                        Parsed::Yes(return_ty, i7) => {
                                                            lemma_default_body(ts, i7, us, i7 + by, by, upto);
                                                        },
                                                        _ => {},
                                                    }
                                                },
                                                _ => {},
                                            }
                                        },
                                        _ => {},
                                    }
                                },
                                _ => {},
                            }
                        },
                        _ => {},
                    }
                },
                _ => {},
            }
        },
        _ => {},
    }
}

pub proof fn lemma_trait_methods(
    ts: Seq<TokenV>,
    i: int,
    done: Seq<TraitMethodV>,
    us: Seq<TokenV>,
    x: int,
    by: int,
    upto: int,
)
    requires
        same_below(ts, us, by, upto),
        0 <= i <= upto,
        x == i + by,
    ensures
        p_trait_methods(ts, i, done) matches Parsed::Yes(v, j) ==> i <= j <= upto && (settled_at(ts, j, upto) ==> reads(p_trait_methods(us, x, done), v, j + by)),
    decreases ts.len() - i,
{
    if i < upto {
        assert(us[x] == ts[i]);
    }
    if !(at_end(ts, i) || at(ts, i, TokenKind::RightBrace)) {
        lemma_trait_method(ts, i, us, x, by, upto);
        match ahead(p_trait_method(ts, i), i, ts) {
            Parsed::Yes(method, j) => {
                if at(ts, j, TokenKind::Semicolon) {
                    lemma_trait_methods(ts, j + 1, done.push(method), us, j + by + 1, by, upto);
                } else {
                    lemma_trait_methods(ts, j, done.push(method), us, j + by, by, upto);
                }
            },
            _ => {},
        }
    }
}

pub proof fn lemma_field(
    ts: Seq<TokenV>,
    i: int,
    us: Seq<TokenV>,
    x: int,
    by: int,
    upto: int,
)
    requires
        same_below(ts, us, by, upto),
        0 <= i <= upto,
        x == i + by,
    ensures
        p_field(ts, i) matches Parsed::Yes(v, j) ==> i <= j <= upto && (settled_at(ts, j, upto) ==> reads(p_field(us, x), v, j + by)),
{
    if i < upto {
        assert(us[x] == ts[i]);
    }
    match expect(ts, i, TokenKind::Ident, "Expected field name"@) {
        Parsed::Yes(name, j) => {
            match expect(ts, j, TokenKind::Colon, "Expected ':' after field name"@) {
                Parsed::Yes(_c, k) => {
                    lemma_type(ts, k, us, x + 1 + 1, by, upto);
                },
                _ => {},
            }
        },
        _ => {},
    }
}

pub proof fn lemma_fields(
    ts: Seq<TokenV>,
    i: int,
    done: Seq<(Seq<char>, TypeV)>,
    us: Seq<TokenV>,
    x: int,
    by: int,
    upto: int,
)
    requires
        same_below(ts, us, by, upto),
        0 <= i <= upto,
        x == i + by,
    ensures
        p_fields(ts, i, done) matches Parsed::Yes(v, j) ==> i <= j <= upto && (settled_at(ts, j, upto) ==> reads(p_fields(us, x, done), v, j + by)),
    decreases ts.len() - i,
{
    if i < upto {
        assert(us[x] == ts[i]);
    }
    if !(at_end(ts, i) || at(ts, i, TokenKind::RightBrace)) {
        lemma_field(ts, i, us, x, by, upto);
        match ahead(p_field(ts, i), i, ts) {
            Parsed::Yes(field, j) => {
                if at(ts, j, TokenKind::Comma) {
                    lemma_fields(ts, j + 1, done.push(field), us, j + by + 1, by, upto);
                } else {
                    lemma_fields(ts, j, done.push(field), us, j + by, by, upto);
                }
            },
            _ => {},
        }
    }
}

pub proof fn lemma_payload(
    ts: Seq<TokenV>,
    i: int,
    done: Seq<(Seq<char>, TypeV)>,
    us: Seq<TokenV>,
    x: int,
    by: int,
    upto: int,
)
    requires
        same_below(ts, us, by, upto),
        0 <= i <= upto,
        x == i + by,
    ensures
        p_payload(ts, i, done) matches Parsed::Yes(v, j) ==> i <= j <= upto && (settled_at(ts, j, upto) ==> reads(p_payload(us, x, done), v, j + by)),
    decreases ts.len() - i,
{
    if i < upto {
        assert(us[x] == ts[i]);
    }
    if !(at_end(ts, i) || at(ts, i, TokenKind::RightParen)) {
        lemma_field(ts, i, us, x, by, upto);
        match ahead(p_field(ts, i), i, ts) {
            Parsed::Yes(field, j) => {
                if at(ts, j, TokenKind::Comma) {
                    lemma_payload(ts, j + 1, done.push(field), us, j + by + 1, by, upto);
                }
            },
            _ => {},
        }
    }
}

pub proof fn lemma_variant(
    ts: Seq<TokenV>,
    i: int,
    us: Seq<TokenV>,
    x: int,
    by: int,
    upto: int,
)
    requires
        same_below(ts, us, by, upto),
        0 <= i <= upto,
        x == i + by,
    ensures
        p_variant(ts, i) matches Parsed::Yes(v, j) ==> i <= j <= upto && (settled_at(ts, j, upto) ==> reads(p_variant(us, x), v, j + by)),
{
    if i < upto {
        assert(us[x] == ts[i]);
    }
    match expect(ts, i, TokenKind::Ident, "Expected variant name"@) {
        Parsed::Yes(name, j) => {
            if at(ts, j, TokenKind::LeftParen) {
                lemma_payload(ts, j + 1, Seq::empty(), us, x + 1 + 1, by, upto);
                match p_payload(ts, j + 1, Seq::empty()) {
                    Parsed::Yes(fields, k) => {
                        match expect(ts, k, TokenKind::RightParen, "Expected ')' after variant fields"@) {
                            Parsed::Yes(_c, m) => {
                                assert(m + by == k + by + 1);
                            },
                            _ => {},
                        }
                    },
                    _ => {},
                }
            } else {
                assert(j + by == x + 1);
            }
        },
        _ => {},
    }
}

pub proof fn lemma_variants(
    ts: Seq<TokenV>,
    i: int,
    done: Seq<EnumVariantV>,
    us: Seq<TokenV>,
    x: int,
    by: int,
    upto: int,
)
    requires
        same_below(ts, us, by, upto),
        0 <= i <= upto,
        x == i + by,
    ensures
        p_variants(ts, i, done) matches Parsed::Yes(v, j) ==> i <= j <= upto && (settled_at(ts, j, upto) ==> reads(p_variants(us, x, done), v, j + by)),
    decreases ts.len() - i,
{
    if i < upto {
        assert(us[x] == ts[i]);
    }
    if !(at_end(ts, i) || at(ts, i, TokenKind::RightBrace)) {
        lemma_variant(ts, i, us, x, by, upto);
        match ahead(p_variant(ts, i), i, ts) {
            Parsed::Yes(variant, j) => {
                if at(ts, j, TokenKind::Comma) {
                    lemma_variants(ts, j + 1, done.push(variant), us, j + by + 1, by, upto);
                }
            },
            _ => {},
        }
    }
}

pub proof fn lemma_foreign_params(
    ts: Seq<TokenV>,
    i: int,
    done: Seq<TypeV>,
    us: Seq<TokenV>,
    x: int,
    by: int,
    upto: int,
)
    requires
        same_below(ts, us, by, upto),
        0 <= i <= upto,
        x == i + by,
    ensures
        p_foreign_params(ts, i, done) matches Parsed::Yes(v, j) ==> i <= j <= upto && (settled_at(ts, j, upto) ==> reads(p_foreign_params(us, x, done), v, j + by)),
    decreases ts.len() - i,
{
    if i < upto {
        assert(us[x] == ts[i]);
    }
    if at_end(ts, i) || at(ts, i, TokenKind::RightParen) {
    } else if !at(ts, i, TokenKind::Ellipsis) {
        let from = if at(ts, i, TokenKind::Ident) && at_next(ts, i, TokenKind::Colon) { i + 2 } else { i };
        lemma_type(ts, from, us, from + by, by, upto);
        match ahead(p_type(ts, from), from, ts) {
            Parsed::Yes(ty, j) => {
                if at(ts, j, TokenKind::Comma) {
                    lemma_foreign_params(ts, j + 1, done.push(ty), us, j + by + 1, by, upto);
                }
            },
            _ => {},
        }
    }
}

pub proof fn lemma_mod(
    ts: Seq<TokenV>,
    i: int,
    attributes: Seq<MetaV>,
    us: Seq<TokenV>,
    x: int,
    by: int,
    upto: int,
)
    requires
        same_below(ts, us, by, upto),
        0 <= i <= upto,
        x == i + by,
    ensures
        p_mod(ts, i, attributes) matches Parsed::Yes(v, j) ==> i <= j <= upto && reads(p_mod(us, x, attributes), v, j + by),
{
    if i < upto {
        assert(us[x] == ts[i]);
    }
    match expect(ts, i, TokenKind::Mod, "Expected 'mod'"@) {
        Parsed::Yes(_m, j) => {
            match expect(ts, j, TokenKind::Ident, "Expected module name after 'mod'"@) {
                Parsed::Yes(name, k) => {
                    match expect(ts, k, TokenKind::Semicolon, "Expected ';' after mod declaration"@) {
                        Parsed::Yes(_s, m) => {
                            assert(m + by == x + 1 + 1 + 1);
                        },
                        _ => {},
                    }
                },
                _ => {},
            }
        },
        _ => {},
    }
}

pub proof fn lemma_use(
    ts: Seq<TokenV>,
    i: int,
    attributes: Seq<MetaV>,
    us: Seq<TokenV>,
    x: int,
    by: int,
    upto: int,
)
    requires
        same_below(ts, us, by, upto),
        0 <= i <= upto,
        x == i + by,
    ensures
        p_use(ts, i, attributes) matches Parsed::Yes(v, j) ==> i <= j <= upto && reads(p_use(us, x, attributes), v, j + by),
{
    if i < upto {
        assert(us[x] == ts[i]);
    }
    match expect(ts, i, TokenKind::Use, "Expected 'use'"@) {
        Parsed::Yes(_u, j) => {
            lemma_path(ts, j, us, x + 1, by, upto);
            match p_path(ts, j) {
                Parsed::Yes(path, k) => {
                    match expect(ts, k, TokenKind::Semicolon, "Expected ';' after use declaration"@) {
                        Parsed::Yes(_s, m) => {
                            assert(m + by == k + by + 1);
                        },
                        _ => {},
                    }
                },
                _ => {},
            }
        },
        _ => {},
    }
}

pub proof fn lemma_extern_crate(
    ts: Seq<TokenV>,
    i: int,
    attributes: Seq<MetaV>,
    us: Seq<TokenV>,
    x: int,
    by: int,
    upto: int,
)
    requires
        same_below(ts, us, by, upto),
        0 <= i <= upto,
        x == i + by,
    ensures
        p_extern_crate(ts, i, attributes) matches Parsed::Yes(v, j) ==> i <= j <= upto && reads(p_extern_crate(us, x, attributes), v, j + by),
{
    if i < upto {
        assert(us[x] == ts[i]);
    }
    match expect(ts, i, TokenKind::Extern, "Expected 'extern'"@) {
        Parsed::Yes(_x, j) => {
            match expect(ts, j, TokenKind::Crate, "Expected 'crate' after 'extern'"@) {
                Parsed::Yes(_c, k) => {
                    match expect(ts, k, TokenKind::Ident, "Expected crate name after 'extern crate'"@) {
                        Parsed::Yes(name, m) => {
                            match expect(ts, m, TokenKind::Semicolon, "Expected ';' after extern crate declaration"@) {
                                Parsed::Yes(_s, n) => {
                                    assert(n + by == x + 1 + 1 + 1 + 1);
                                },
                                _ => {},
                            }
                        },
                        _ => {},
                    }
                },
                _ => {},
            }
        },
        _ => {},
    }
}

pub proof fn lemma_extern_fn(
    ts: Seq<TokenV>,
    i: int,
    attributes: Seq<MetaV>,
    us: Seq<TokenV>,
    x: int,
    by: int,
    upto: int,
)
    requires
        same_below(ts, us, by, upto),
        0 <= i <= upto,
        x == i + by,
    ensures
        p_extern_fn(ts, i, attributes) matches Parsed::Yes(v, j) ==> i <= j <= upto && reads(p_extern_fn(us, x, attributes), v, j + by),
{
    if i < upto {
        assert(us[x] == ts[i]);
    }
    match expect(ts, i, TokenKind::Extern, "Expected 'extern'"@) {
        Parsed::Yes(_x, i1) => {
            match expect(ts, i1, TokenKind::Fn, "Expected 'fn' after 'extern'"@) {
                Parsed::Yes(_f, i2) => {
                    match expect(ts, i2, TokenKind::Ident, "Expected function name after 'extern fn'"@) {
                        Parsed::Yes(name, i3) => {
                            match expect(ts, i3, TokenKind::LeftParen, "Expected '(' after extern function name"@) {
                                Parsed::Yes(_p, i4) => {
                                    lemma_foreign_params(ts, i4, Seq::empty(), us, x + 1 + 1 + 1 + 1, by, upto);
                                    match p_foreign_params(ts, i4, Seq::empty()) {
                                        Parsed::Yes(params, i5) => {
                                            match expect(ts, i5, TokenKind::RightParen, "Expected ')' after extern function parameters"@) {
                                                Parsed::Yes(_q, i6) => {
                                                    lemma_return_type(ts, i6, us, i5 + by + 1, by, upto);
                                                    match p_return_type(ts, i6) {
                                                        Parsed::Yes(return_ty, i7) => {
                                                            match expect(ts, i7, TokenKind::Semicolon, "Expected ';' after extern function declaration"@) {
                                                                Parsed::Yes(_s, i8) => {
                                                                    assert(i8 + by == i7 + by + 1);
                                                                },
                                                                _ => {},
                                                            }
                                                        },
                                                        _ => {},
                                                    }
                                                },
                                                _ => {},
                                            }
                                        },
                                        _ => {},
                                    }
                                },
                                _ => {},
                            }
                        },
                        _ => {},
                    }
                },
                _ => {},
            }
        },
        _ => {},
    }
}

pub proof fn lemma_fn(
    ts: Seq<TokenV>,
    i: int,
    attributes: Seq<MetaV>,
    us: Seq<TokenV>,
    x: int,
    by: int,
    upto: int,
)
    requires
        same_below(ts, us, by, upto),
        0 <= i <= upto,
        x == i + by,
    ensures
        p_fn(ts, i, attributes) matches Parsed::Yes(v, j) ==> i <= j <= upto && reads(p_fn(us, x, attributes), v, j + by),
{
    if i < upto {
        assert(us[x] == ts[i]);
    }
    match expect(ts, i, TokenKind::Fn, "Expected 'fn'"@) {
        Parsed::Yes(_f, j) => {
            lemma_fn_parts(ts, j, us, x + 1, by, upto);
        },
        _ => {},
    }
}

pub proof fn lemma_struct(
    ts: Seq<TokenV>,
    i: int,
    attributes: Seq<MetaV>,
    us: Seq<TokenV>,
    x: int,
    by: int,
    upto: int,
)
    requires
        same_below(ts, us, by, upto),
        0 <= i <= upto,
        x == i + by,
    ensures
        p_struct(ts, i, attributes) matches Parsed::Yes(v, j) ==> i <= j <= upto && reads(p_struct(us, x, attributes), v, j + by),
{
    if i < upto {
        assert(us[x] == ts[i]);
    }
    match expect(ts, i, TokenKind::Struct, "Expected 'struct'"@) {
        Parsed::Yes(_t, i1) => {
            match expect(ts, i1, TokenKind::Ident, "Expected struct name"@) {
                Parsed::Yes(name, i2) => {
                    lemma_opt_generics(ts, i2, us, x + 1 + 1, by, upto);
                    match p_opt_generics(ts, i2) {
                        Parsed::Yes(generics, i3) => {
                            match expect(ts, i3, TokenKind::LeftBrace, "Expected '{' after struct name"@) {
                                Parsed::Yes(_b, i4) => {
                                    lemma_fields(ts, i4, Seq::empty(), us, i3 + by + 1, by, upto);
                                    match p_fields(ts, i4, Seq::empty()) {
                                        Parsed::Yes(fields, i5) => {
                                            match expect(ts, i5, TokenKind::RightBrace, "Expected '}' after struct fields"@) {
                                                Parsed::Yes(_c, i6) => {
                                                    assert(i6 + by == i5 + by + 1);
                                                },
                                                _ => {},
                                            }
                                        },
                                        _ => {},
                                    }
                                },
                                _ => {},
                            }
                        },
                        _ => {},
                    }
                },
                _ => {},
            }
        },
        _ => {},
    }
}

pub proof fn lemma_enum(
    ts: Seq<TokenV>,
    i: int,
    attributes: Seq<MetaV>,
    us: Seq<TokenV>,
    x: int,
    by: int,
    upto: int,
)
    requires
        same_below(ts, us, by, upto),
        0 <= i <= upto,
        x == i + by,
    ensures
        p_enum(ts, i, attributes) matches Parsed::Yes(v, j) ==> i <= j <= upto && reads(p_enum(us, x, attributes), v, j + by),
{
    if i < upto {
        assert(us[x] == ts[i]);
    }
    match expect(ts, i, TokenKind::Enum, "Expected 'enum'"@) {
        Parsed::Yes(_t, i1) => {
            match expect(ts, i1, TokenKind::Ident, "Expected enum name"@) {
                Parsed::Yes(name, i2) => {
                    lemma_opt_generics(ts, i2, us, x + 1 + 1, by, upto);
                    match p_opt_generics(ts, i2) {
                        Parsed::Yes(generics, i3) => {
                            match expect(ts, i3, TokenKind::LeftBrace, "Expected '{' after enum name"@) {
                                Parsed::Yes(_b, i4) => {
                                    lemma_variants(ts, i4, Seq::empty(), us, i3 + by + 1, by, upto);
                                    match p_variants(ts, i4, Seq::empty()) {
                                        Parsed::Yes(variants, i5) => {
                                            match expect(ts, i5, TokenKind::RightBrace, "Expected '}' after enum variants"@) {
                                                Parsed::Yes(_c, i6) => {
                                                    assert(i6 + by == i5 + by + 1);
                                                },
                                                _ => {},
                                            }
                                        },
                                        _ => {},
                                    }
                                },
                                _ => {},
                            }
                        },
                        _ => {},
                    }
                },
                _ => {},
            }
        },
        _ => {},
    }
}

pub proof fn lemma_impl_head(
    ts: Seq<TokenV>,
    i: int,
    us: Seq<TokenV>,
    x: int,
    by: int,
    upto: int,
)
    requires
        same_below(ts, us, by, upto),
        0 <= i <= upto,
        x == i + by,
    ensures
        p_impl_head(ts, i) matches Parsed::Yes(v, j) ==> i <= j <= upto && (settled_at(ts, j, upto) ==> reads(p_impl_head(us, x), v, j + by)),
{
    if i < upto {
        assert(us[x] == ts[i]);
    }
    lemma_type(ts, i, us, x, by, upto);
    match p_type(ts, i) {
        Parsed::Yes(first, j) => {
            if at(ts, j, TokenKind::For) {
                match first {
                    TypeV::Named(path) => {
                        lemma_type(ts, j + 1, us, j + by + 1, by, upto);
                    },
                    _ => {},
                }
            }
        },
        _ => {},
    }
}

pub proof fn lemma_impl(
    ts: Seq<TokenV>,
    i: int,
    attributes: Seq<MetaV>,
    us: Seq<TokenV>,
    x: int,
    by: int,
    upto: int,
)
    requires
        same_below(ts, us, by, upto),
        0 <= i <= upto,
        x == i + by,
    ensures
        p_impl(ts, i, attributes) matches Parsed::Yes(v, j) ==> i <= j <= upto && reads(p_impl(us, x, attributes), v, j + by),
{
    if i < upto {
        assert(us[x] == ts[i]);
    }
    match expect(ts, i, TokenKind::Impl, "Expected 'impl'"@) {
        Parsed::Yes(_t, i1) => {
            lemma_opt_generics(ts, i1, us, x + 1, by, upto);
            match p_opt_generics(ts, i1) {
                Parsed::Yes(generics, i2) => {
                    lemma_impl_head(ts, i2, us, i2 + by, by, upto);
                    match p_impl_head(ts, i2) {
                        Parsed::Yes(head, i3) => {
                            match expect(ts, i3, TokenKind::LeftBrace, "Expected '{' after impl type"@) {
                                Parsed::Yes(_b, i4) => {
                                    lemma_methods(ts, i4, Seq::empty(), us, i3 + by + 1, by, upto);
                                    match p_methods(ts, i4, Seq::empty()) {
                                        Parsed::Yes(methods, i5) => {
                                            match expect(ts, i5, TokenKind::RightBrace, "Expected '}' after impl block"@) {
                                                Parsed::Yes(_c, i6) => {
                                                    assert(i6 + by == i5 + by + 1);
                                                },
                                                _ => {},
                                            }
                                        },
                                        _ => {},
                                    }
                                },
                                _ => {},
                            }
                        },
                        _ => {},
                    }
                },
                _ => {},
            }
        },
        _ => {},
    }
}

pub proof fn lemma_trait(
    ts: Seq<TokenV>,
    i: int,
    attributes: Seq<MetaV>,
    us: Seq<TokenV>,
    x: int,
    by: int,
    upto: int,
)
    requires
        same_below(ts, us, by, upto),
        0 <= i <= upto,
        x == i + by,
    ensures
        p_trait(ts, i, attributes) matches Parsed::Yes(v, j) ==> i <= j <= upto && reads(p_trait(us, x, attributes), v, j + by),
{
    if i < upto {
        assert(us[x] == ts[i]);
    }
    match expect(ts, i, TokenKind::Trait, "Expected 'trait'"@) {
        Parsed::Yes(_t, i1) => {
            match expect(ts, i1, TokenKind::Ident, "Expected trait name"@) {
                Parsed::Yes(name, i2) => {
                    lemma_opt_generics(ts, i2, us, x + 1 + 1, by, upto);
                    match p_opt_generics(ts, i2) {
                        Parsed::Yes(generics, i3) => {
                            match expect(ts, i3, TokenKind::LeftBrace, "Expected '{' after trait name"@) {
                                Parsed::Yes(_b, i4) => {
                                    lemma_trait_methods(ts, i4, Seq::empty(), us, i3 + by + 1, by, upto);
                                    match p_trait_methods(ts, i4, Seq::empty()) {
                                        Parsed::Yes(methods, i5) => {
                                            match expect(ts, i5, TokenKind::RightBrace, "Expected '}' after trait block"@) {
                                                Parsed::Yes(_c, i6) => {
                                                    assert(i6 + by == i5 + by + 1);
                                                },
                                                _ => {},
                                            }
                                        },
                                        _ => {},
                                    }
                                },
                                _ => {},
                            }
                        },
                        _ => {},
                    }
                },
                _ => {},
            }
        },
        _ => {},
    }
}

pub proof fn lemma_global(
    ts: Seq<TokenV>,
    i: int,
    is_const: bool,
    attributes: Seq<MetaV>,
    us: Seq<TokenV>,
    x: int,
    by: int,
    upto: int,
)
    requires
        same_below(ts, us, by, upto),
        0 <= i < upto,
        x == i + by,
    ensures
        p_global(ts, i, is_const, attributes) matches Parsed::Yes(v, j) ==> i <= j <= upto && reads(p_global(us, x, is_const, attributes), v, j + by),
{
    if i < upto {
        assert(us[x] == ts[i]);
    }
    lemma_binding(ts, i + 1, true, us, x + 1, by, upto);
    match p_binding(ts, i + 1, true) {
        Parsed::Yes(b, j) => {
            if !(is_const) {
            }
        },
        _ => {},
    }
}

pub proof fn lemma_decl(
    ts: Seq<TokenV>,
    i: int,
    us: Seq<TokenV>,
    x: int,
    by: int,
    upto: int,
)
    requires
        same_below(ts, us, by, upto),
        0 <= i <= upto,
        x == i + by,
    ensures
        p_decl(ts, i) matches Parsed::Yes(v, j) ==> i <= j <= upto && reads(p_decl(us, x), v, j + by),
{
    if i < upto {
        assert(us[x] == ts[i]);
    }
    lemma_attributes(ts, i, Seq::empty(), us, x, by, upto);
    match p_attributes(ts, i, Seq::empty()) {
        Parsed::Yes(attributes, j) => {
            if at(ts, j, TokenKind::Mod) {
                lemma_mod(ts, j, attributes, us, j + by, by, upto);
            } else if at(ts, j, TokenKind::Use) {
                lemma_use(ts, j, attributes, us, j + by, by, upto);
            } else if at(ts, j, TokenKind::Extern) {
                if at_next(ts, j, TokenKind::Crate) {
                    lemma_extern_crate(ts, j, attributes, us, j + by, by, upto);
                } else {
                    lemma_extern_fn(ts, j, attributes, us, j + by, by, upto);
                }
            } else if at(ts, j, TokenKind::Fn) {
                lemma_fn(ts, j, attributes, us, j + by, by, upto);
            } else if at(ts, j, TokenKind::Struct) {
                lemma_struct(ts, j, attributes, us, j + by, by, upto);
            } else if at(ts, j, TokenKind::Enum) {
                lemma_enum(ts, j, attributes, us, j + by, by, upto);
            } else if at(ts, j, TokenKind::Impl) {
                lemma_impl(ts, j, attributes, us, j + by, by, upto);
            } else if at(ts, j, TokenKind::Trait) {
                lemma_trait(ts, j, attributes, us, j + by, by, upto);
            } else if at(ts, j, TokenKind::Static) {
                lemma_global(ts, j, false, attributes, us, j + by, by, upto);
            } else if at(ts, j, TokenKind::Const) {
                lemma_global(ts, j, true, attributes, us, j + by, by, upto);
            }
        },
        _ => {},
    }
}

} // verus!
