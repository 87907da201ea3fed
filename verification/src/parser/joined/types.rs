//! Paths, annotations and types.

use crate::ast::{MetaV, TypeOrConstV};
use crate::parser::grammar::{
    Parsed, ahead, at, at_end, at_next, expect, p_array_len, p_attribute, p_attributes, p_callee,
    p_callee_segments, p_generic_arg, p_generic_args, p_generic_list, p_meta, p_meta_items, p_path,
    p_segments, p_turbofish, p_type, quoted,
};
use crate::parser::joined::{reads, same_below, settled_at};
use crate::text::integer_of;
use crate::token::{TokenKind, TokenV};
use vstd::prelude::*;

verus! {

pub proof fn lemma_path(
    ts: Seq<TokenV>,
    i: int,
    us: Seq<TokenV>,
    x: int,
    by: int,
    upto: int,
)
    requires
        same_below(ts, us, by, upto),
        0 <= i <= upto,
        x == i + by,
    ensures
        p_path(ts, i) matches Parsed::Yes(v, j) ==> i <= j <= upto && (settled_at(ts, j, upto) ==> reads(p_path(us, x), v, j + by)),
{
    if i < upto {
        assert(us[x] == ts[i]);
    }
    match expect(ts, i, TokenKind::Ident, "Expected identifier in path"@) {
        Parsed::Yes(first, j) => {
            lemma_segments(ts, j, seq![first.lexeme], us, x + 1, by, upto);
        },
        _ => {},
    }
}

pub proof fn lemma_segments(
    ts: Seq<TokenV>,
    i: int,
    done: Seq<Seq<char>>,
    us: Seq<TokenV>,
    x: int,
    by: int,
    upto: int,
)
    requires
        same_below(ts, us, by, upto),
        0 <= i <= upto,
        x == i + by,
    ensures
        p_segments(ts, i, done) matches Parsed::Yes(v, j) ==> i <= j <= upto && (settled_at(ts, j, upto) ==> reads(p_segments(us, x, done), v, j + by)),
    decreases ts.len() - i,
{
    if i < upto {
        assert(us[x] == ts[i]);
    }
    if at(ts, i, TokenKind::ColonColon) {
        match expect(ts, i + 1, TokenKind::Ident, "Expected identifier after '::'"@) {
            Parsed::Yes(seg, j) => {
                lemma_segments(ts, j, done.push(seg.lexeme), us, x + 1 + 1, by, upto);
            },
            _ => {},
        }
    }
}

pub proof fn lemma_callee(
    ts: Seq<TokenV>,
    i: int,
    us: Seq<TokenV>,
    x: int,
    by: int,
    upto: int,
)
    requires
        same_below(ts, us, by, upto),
        0 <= i <= upto,
        x == i + by,
    ensures
        p_callee(ts, i) matches Parsed::Yes(v, j) ==> i <= j <= upto && (settled_at(ts, j, upto) ==> reads(p_callee(us, x), v, j + by)),
{
    if i < upto {
        assert(us[x] == ts[i]);
    }
    match expect(ts, i, TokenKind::Ident, "Expected identifier in path"@) {
        Parsed::Yes(first, j) => {
            lemma_callee_segments(ts, j, seq![first.lexeme], us, x + 1, by, upto);
        },
        _ => {},
    }
}

pub proof fn lemma_callee_segments(
    ts: Seq<TokenV>,
    i: int,
    done: Seq<Seq<char>>,
    us: Seq<TokenV>,
    x: int,
    by: int,
    upto: int,
)
    requires
        same_below(ts, us, by, upto),
        0 <= i <= upto,
        x == i + by,
    ensures
        p_callee_segments(ts, i, done) matches Parsed::Yes(v, j) ==> i <= j <= upto && (settled_at(ts, j, upto) ==> reads(p_callee_segments(us, x, done), v, j + by)),
    decreases ts.len() - i,
{
    if i < upto {
        assert(us[x] == ts[i]);
    }
    if at(ts, i, TokenKind::ColonColon) && !at_next(ts, i, TokenKind::Less) {
        match expect(ts, i + 1, TokenKind::Ident, "Expected identifier after '::'"@) {
            Parsed::Yes(seg, j) => {
                lemma_callee_segments(ts, j, done.push(seg.lexeme), us, x + 1 + 1, by, upto);
            },
            _ => {},
        }
    }
}

pub proof fn lemma_meta(
    ts: Seq<TokenV>,
    i: int,
    us: Seq<TokenV>,
    x: int,
    by: int,
    upto: int,
)
    requires
        same_below(ts, us, by, upto),
        0 <= i <= upto,
        x == i + by,
    ensures
        p_meta(ts, i) matches Parsed::Yes(v, j) ==> i <= j <= upto && (settled_at(ts, j, upto) ==> reads(p_meta(us, x), v, j + by)),
    decreases ts.len() - i, 0int,
{
    if i < upto {
        assert(us[x] == ts[i]);
    }
    lemma_path(ts, i, us, x, by, upto);
    match ahead(p_path(ts, i), i, ts) {
        Parsed::Yes(name, j) => {
            if at(ts, j, TokenKind::Assign) {
                match expect(ts, j + 1, TokenKind::StringLiteral, "注解键值对的值目前仅支持字符串字面量（如 #[link_name = \"foo\"]）"@) {
                    Parsed::Yes(t, k) => {
                        match quoted(t.lexeme) {
                            Some(text) => {
                                assert(k + by == j + by + 1 + 1);
                            },
                            _ => {},
                        }
                    },
                    _ => {},
                }
            } else if at(ts, j, TokenKind::LeftParen) {
                lemma_meta_items(ts, j + 1, Seq::empty(), us, j + by + 1, by, upto);
                match p_meta_items(ts, j + 1, Seq::empty()) {
                    Parsed::Yes(items, k) => {
                        match expect(ts, k, TokenKind::RightParen, "期望 ')' 闭合注解列表"@) {
                            Parsed::Yes(_t, m) => {
                                assert(m + by == k + by + 1);
                            },
                            _ => {},
                        }
                    },
                    _ => {},
                }
            }
        },
        _ => {},
    }
}

pub proof fn lemma_meta_items(
    ts: Seq<TokenV>,
    i: int,
    done: Seq<MetaV>,
    us: Seq<TokenV>,
    x: int,
    by: int,
    upto: int,
)
    requires
        same_below(ts, us, by, upto),
        0 <= i <= upto,
        x == i + by,
    ensures
        p_meta_items(ts, i, done) matches Parsed::Yes(v, j) ==> i <= j <= upto && (settled_at(ts, j, upto) ==> reads(p_meta_items(us, x, done), v, j + by)),
    decreases ts.len() - i, 1int,
{
    if i < upto {
        assert(us[x] == ts[i]);
    }
    if !(at(ts, i, TokenKind::RightParen) || at_end(ts, i)) {
        lemma_meta(ts, i, us, x, by, upto);
        match ahead(p_meta(ts, i), i, ts) {
            Parsed::Yes(item, j) => {
                if at(ts, j, TokenKind::Comma) {
                    lemma_meta_items(ts, j + 1, done.push(item), us, j + by + 1, by, upto);
                }
            },
            _ => {},
        }
    }
}

pub proof fn lemma_attribute(
    ts: Seq<TokenV>,
    i: int,
    us: Seq<TokenV>,
    x: int,
    by: int,
    upto: int,
)
    requires
        same_below(ts, us, by, upto),
        0 <= i <= upto,
        x == i + by,
    ensures
        p_attribute(ts, i) matches Parsed::Yes(v, j) ==> i <= j <= upto && reads(p_attribute(us, x), v, j + by),
{
    if i < upto {
        assert(us[x] == ts[i]);
    }
    match expect(ts, i, TokenKind::Hash, "期望 '#' 作为注解起始"@) {
        Parsed::Yes(_h, j) => {
            match expect(ts, j, TokenKind::LeftBracket, "期望 '['（'#' 后应为 '[' 形成 '#['）"@) {
                Parsed::Yes(_b, k) => {
                    lemma_meta(ts, k, us, x + 1 + 1, by, upto);
                    match p_meta(ts, k) {
                        Parsed::Yes(meta, m) => {
                            match expect(ts, m, TokenKind::RightBracket, "期望 ']' 闭合注解"@) {
                                Parsed::Yes(_c, n) => {
                                    assert(n + by == m + by + 1);
                                },
                                _ => {},
                            }
                        },
                        _ => {},
                    }
                },
                _ => {},
            }
        },
        _ => {},
    }
}

pub proof fn lemma_attributes(
    ts: Seq<TokenV>,
    i: int,
    done: Seq<MetaV>,
    us: Seq<TokenV>,
    x: int,
    by: int,
    upto: int,
)
    requires
        same_below(ts, us, by, upto),
        0 <= i <= upto,
        x == i + by,
    ensures
        p_attributes(ts, i, done) matches Parsed::Yes(v, j) ==> i <= j <= upto && (settled_at(ts, j, upto) ==> reads(p_attributes(us, x, done), v, j + by)),
    decreases ts.len() - i,
{
    if i < upto {
        assert(us[x] == ts[i]);
    }
    if at(ts, i, TokenKind::Hash) {
        lemma_attribute(ts, i, us, x, by, upto);
        match ahead(p_attribute(ts, i), i, ts) {
            Parsed::Yes(meta, j) => {
                lemma_attributes(ts, j, done.push(meta), us, j + by, by, upto);
            },
            _ => {},
        }
    }
}

pub proof fn lemma_array_len(
    ts: Seq<TokenV>,
    i: int,
    us: Seq<TokenV>,
    x: int,
    by: int,
    upto: int,
)
    requires
        same_below(ts, us, by, upto),
        0 <= i <= upto,
        x == i + by,
    ensures
        p_array_len(ts, i) matches Parsed::Yes(v, j) ==> i <= j <= upto && (settled_at(ts, j, upto) ==> reads(p_array_len(us, x), v, j + by)),
{
    if i < upto {
        assert(us[x] == ts[i]);
    }
    if at(ts, i, TokenKind::Ident) {
        assert(i + 1 + by == x + 1);
    } else {
        match expect(ts, i, TokenKind::IntLiteral, "数组类型 [T; N] 中 ';' 之后期望长度（非负整数或常量泛型参数名）"@) {
            Parsed::Yes(t, j) => {
                match integer_of(t.lexeme, false, 0, usize::MAX as int) {
                    Some(n) => {
                        assert(j + by == x + 1);
                    },
                    _ => {},
                }
            },
            _ => {},
        }
    }
}

pub proof fn lemma_type(
    ts: Seq<TokenV>,
    i: int,
    us: Seq<TokenV>,
    x: int,
    by: int,
    upto: int,
)
    requires
        same_below(ts, us, by, upto),
        0 <= i <= upto,
        x == i + by,
    ensures
        p_type(ts, i) matches Parsed::Yes(v, j) ==> i <= j <= upto && (settled_at(ts, j, upto) ==> reads(p_type(us, x), v, j + by)),
    decreases ts.len() - i, 0int,
{
    if i < upto {
        assert(us[x] == ts[i]);
    }
    if at(ts, i, TokenKind::Star) {
        lemma_type(ts, i + 1, us, x + 1, by, upto);
    } else if at(ts, i, TokenKind::LeftBracket) {
        lemma_type(ts, i + 1, us, x + 1, by, upto);
        match p_type(ts, i + 1) {
            Parsed::Yes(elem, j) => {
                match expect(ts, j, TokenKind::Semicolon, "数组类型期望形如 [T; N]，但缺少 ';'"@) {
                    Parsed::Yes(_s, k) => {
                        lemma_array_len(ts, k, us, j + by + 1, by, upto);
                        match p_array_len(ts, k) {
                            Parsed::Yes(len, m) => {
                                match expect(ts, m, TokenKind::RightBracket, "数组类型 [T; N] 缺少结尾的 ']'"@) {
                                    Parsed::Yes(_r, n) => {
                                        assert(n + by == m + by + 1);
                                    },
                                    _ => {},
                                }
                            },
                            _ => {},
                        }
                    },
                    _ => {},
                }
            },
            _ => {},
        }
    } else if at(ts, i, TokenKind::Ident) && ts[i].lexeme == "int"@ {
        assert(i + 1 + by == x + 1);
    } else if at(ts, i, TokenKind::Ident) && ts[i].lexeme == "char"@ {
        assert(i + 1 + by == x + 1);
    } else if at(ts, i, TokenKind::Ident) && ts[i].lexeme == "unit"@ {
        assert(i + 1 + by == x + 1);
    } else {
        lemma_path(ts, i, us, x, by, upto);
        match ahead(p_path(ts, i), i, ts) {
            Parsed::Yes(path, j) => {
                if at(ts, j, TokenKind::Less) {
                    lemma_generic_args(ts, j, us, j + by, by, upto);
                }
            },
            _ => {},
        }
    }
}

pub proof fn lemma_generic_args(
    ts: Seq<TokenV>,
    i: int,
    us: Seq<TokenV>,
    x: int,
    by: int,
    upto: int,
)
    requires
        same_below(ts, us, by, upto),
        0 <= i <= upto,
        x == i + by,
    ensures
        p_generic_args(ts, i) matches Parsed::Yes(v, j) ==> i <= j <= upto && (settled_at(ts, j, upto) ==> reads(p_generic_args(us, x), v, j + by)),
    decreases ts.len() - i, 2int,
{
    if i < upto {
        assert(us[x] == ts[i]);
    }
    match expect(ts, i, TokenKind::Less, "Expected '<' in generic arguments"@) {
        Parsed::Yes(_o, j) => {
            lemma_generic_list(ts, j, Seq::empty(), us, x + 1, by, upto);
            match p_generic_list(ts, j, Seq::empty()) {
                Parsed::Yes(args, k) => {
                    match expect(ts, k, TokenKind::Greater, "Expected '>' after generic arguments"@) {
                        Parsed::Yes(_c, m) => {
                            assert(m + by == k + by + 1);
                        },
                        _ => {},
                    }
                },
                _ => {},
            }
        },
        _ => {},
    }
}

pub proof fn lemma_generic_arg(
    ts: Seq<TokenV>,
    i: int,
    us: Seq<TokenV>,
    x: int,
    by: int,
    upto: int,
)
    requires
        same_below(ts, us, by, upto),
        0 <= i <= upto,
        x == i + by,
    ensures
        p_generic_arg(ts, i) matches Parsed::Yes(v, j) ==> i <= j <= upto && (settled_at(ts, j, upto) ==> reads(p_generic_arg(us, x), v, j + by)),
    decreases ts.len() - i, 1int,
{
    if i < upto {
        assert(us[x] == ts[i]);
    }
    if at(ts, i, TokenKind::Const) {
        match expect(ts, i + 1, TokenKind::Colon, "Expected ':' after const generic arg"@) {
            Parsed::Yes(_c, j) => {
                lemma_type(ts, j, us, x + 1 + 1, by, upto);
                match p_type(ts, j) {
                    Parsed::Yes(_ty, k) => {
                        match expect(ts, k, TokenKind::IntLiteral, "期望整型字面量作为常量泛型实参"@) {
                            Parsed::Yes(t, m) => {
                                match integer_of(t.lexeme, true, i64::MIN as int, i64::MAX as int) {
                                    Some(v) => {
                                        assert(m + by == k + by + 1);
                                    },
                                    None => {
                                        assert(m + by == k + by + 1);
                                    },
                                }
                            },
                            _ => {},
                        }
                    },
                    _ => {},
                }
            },
            _ => {},
        }
    } else if at(ts, i, TokenKind::IntLiteral) {
        match integer_of(ts[i].lexeme, true, i64::MIN as int, i64::MAX as int) {
            Some(v) => {
                assert(i + 1 + by == x + 1);
            },
            _ => {},
        }
    } else {
        lemma_type(ts, i, us, x, by, upto);
    }
}

pub proof fn lemma_generic_list(
    ts: Seq<TokenV>,
    i: int,
    done: Seq<TypeOrConstV>,
    us: Seq<TokenV>,
    x: int,
    by: int,
    upto: int,
)
    requires
        same_below(ts, us, by, upto),
        0 <= i <= upto,
        x == i + by,
    ensures
        p_generic_list(ts, i, done) matches Parsed::Yes(v, j) ==> i <= j <= upto && (settled_at(ts, j, upto) ==> reads(p_generic_list(us, x, done), v, j + by)),
    decreases ts.len() - i, 2int,
{
    if i < upto {
        assert(us[x] == ts[i]);
    }
    if !(at(ts, i, TokenKind::Greater) || at_end(ts, i)) {
        lemma_generic_arg(ts, i, us, x, by, upto);
        match ahead(p_generic_arg(ts, i), i, ts) {
            Parsed::Yes(arg, j) => {
                if at(ts, j, TokenKind::Comma) {
                    lemma_generic_list(ts, j + 1, done.push(arg), us, j + by + 1, by, upto);
                }
            },
            _ => {},
        }
    }
}

pub proof fn lemma_turbofish(
    ts: Seq<TokenV>,
    i: int,
    us: Seq<TokenV>,
    x: int,
    by: int,
    upto: int,
)
    requires
        same_below(ts, us, by, upto),
        0 <= i <= upto,
        x == i + by,
    ensures
        p_turbofish(ts, i) matches Parsed::Yes(v, j) ==> i <= j <= upto && (settled_at(ts, j, upto) ==> reads(p_turbofish(us, x), v, j + by)),
{
    if i < upto {
        assert(us[x] == ts[i]);
    }
    if at(ts, i, TokenKind::ColonColon) && at_next(ts, i, TokenKind::Less) {
        lemma_generic_args(ts, i + 1, us, x + 1, by, upto);
    }
}

} // verus!
