//! The grammar.
//!
//! Each construct has a function from a sequence of tokens and a position to
//! what is read there: the construct with the position behind it, or the error
//! with the position at which reading stopped.

use crate::ast::{
    ArrayLenV, BinOp, CompilationUnitV, EnumVariantV, ExprV, GenericParamKind, GenericParamV,
    ImplMethodV, LiteralV, MetaV, ParamV, PathV, StmtV, TopLevelDeclV, TraitMethodV,
    TypeOrConstV, TypeV,
};
use crate::error::{error_of, ErrorKind, MplangErrorV};
use crate::text::{decimal, integer_of};
use crate::token::{kind_name, TokenKind, TokenV};
use vstd::prelude::*;

verus! {

/// What is read at a position.
#[verifier::ext_equal]
pub enum Parsed<T> {
    /// A value, with the position behind it.
    Yes(T, int),
    /// An error, with the position at which reading stopped.
    No(MplangErrorV, int),
}

/// `p`, where it moves forward from `i` within the tokens. Every construct
/// takes up at least one token, so this is `p` itself; stated where a
/// definition goes on behind `p`, it shows that the definition is well founded.
pub open spec fn ahead<T>(p: Parsed<T>, i: int, ts: Seq<TokenV>) -> Parsed<T> {
    match p {
        Parsed::Yes(v, j) => if i < j <= ts.len() {
            Parsed::Yes(v, j)
        } else {
            Parsed::No(error_of(ErrorKind::Other, Seq::empty()), i)
        },
        Parsed::No(e, at) => Parsed::No(e, at),
    }
}

/// Whether the tokens end at `i`.
pub open spec fn at_end(ts: Seq<TokenV>, i: int) -> bool {
    i >= ts.len() || ts[i].kind == TokenKind::Eof
}

/// Whether a token of kind `k` stands at `i`.
pub open spec fn at(ts: Seq<TokenV>, i: int, k: TokenKind) -> bool {
    !at_end(ts, i) && ts[i].kind == k
}

/// Whether the token behind `i` has kind `k`.
pub open spec fn at_next(ts: Seq<TokenV>, i: int, k: TokenKind) -> bool {
    i + 1 < ts.len() && ts[i + 1].kind == k
}

/// The error for reading a token where there is none left.
#[verifier::opaque]
pub open spec fn no_token(ts: Seq<TokenV>, i: int) -> MplangErrorV {
    error_of(
        ErrorKind::Other,
        "index out of bounds: the len is "@ + decimal(ts.len()) + " but the index is "@ + decimal(i as nat),
    )
}

/// The error for a string token that is not enclosed in two characters of one
/// byte each.
pub open spec fn unquoted() -> MplangErrorV {
    error_of(ErrorKind::Other, "string token without quotation marks"@)
}

/// A syntax error.
pub open spec fn syntax(message: Seq<char>) -> MplangErrorV {
    error_of(ErrorKind::Parse, message)
}

/// The error for finding another token than one of kind `k`.
#[verifier::opaque]
pub open spec fn unexpected(
    ts: Seq<TokenV>,
    i: int,
    k: TokenKind,
    message: Seq<char>,
) -> MplangErrorV {
    if i < ts.len() {
        syntax(
            message + "（第 "@ + decimal(ts[i].line as nat) + " 行，第 "@ + decimal(ts[i].column as nat) + " 列）：期望 "@ + kind_name(k) + "，实际 "@ + kind_name(ts[i].kind),
        )
    } else {
        no_token(ts, i)
    }
}

/// The error for an array length that cannot be read.
#[verifier::opaque]
pub open spec fn bad_length(t: TokenV) -> MplangErrorV {
    syntax(
        "无效数组长度 '"@ + t.lexeme + "'（第 "@ + decimal(t.line as nat) + " 行，第 "@ + decimal(t.column as nat) + " 列）"@,
    )
}

/// The error for an integer that cannot be read.
#[verifier::opaque]
pub open spec fn bad_integer(t: TokenV) -> MplangErrorV {
    syntax(
        "无效整数 '"@ + t.lexeme + "'（第 "@ + decimal(t.line as nat) + " 行，第 "@ + decimal(t.column as nat) + " 列）"@,
    )
}

/// The error for a token that begins no operand.
#[verifier::opaque]
pub open spec fn no_operand(t: TokenV) -> MplangErrorV {
    syntax(
        "表达式中出现意外记号 "@ + kind_name(t.kind) + "（'"@ + t.lexeme + "'，第 "@ + decimal(t.line as nat) + " 行，第 "@ + decimal(t.column as nat) + " 列）"@,
    )
}

/// The error for a binding without the type that it needs.
#[verifier::opaque]
pub open spec fn missing_type(name: TokenV) -> MplangErrorV {
    syntax(
        "期望类型注解 ': ty'，但 '"@ + name.lexeme + "' 缺少类型（第 "@ + decimal(name.line as nat) + " 行，第 "@ + decimal(name.column as nat) + " 列）"@,
    )
}

/// The error for a token that begins no declaration.
#[verifier::opaque]
pub open spec fn no_decl(t: TokenV) -> MplangErrorV {
    syntax(
        "期望顶层声明（mod/use/extern/fn/struct/static/const），但遇到 "@ + kind_name(t.kind) + "（第 "@ + decimal(t.line as nat) + " 行，第 "@ + decimal(t.column as nat) + " 列）"@,
    )
}

/// A token of kind `k`.
pub open spec fn expect(
    ts: Seq<TokenV>,
    i: int,
    k: TokenKind,
    message: Seq<char>,
) -> Parsed<TokenV> {
    if at(ts, i, k) {
        Parsed::Yes(ts[i], i + 1)
    } else {
        Parsed::No(unexpected(ts, i, k, message), i)
    }
}

/// The text between the first and the last character of a string token, which
/// both take up one byte.
pub open spec fn quoted(lexeme: Seq<char>) -> Option<Seq<char>> {
    if lexeme.len() >= 2 && (lexeme[0] as u32) < 128 && (lexeme.last() as u32) < 128 {
        Some(lexeme.subrange(1, lexeme.len() - 1))
    } else {
        None
    }
}

// Paths and annotations

/// A path: identifiers separated by `::`.
pub open spec fn p_path(ts: Seq<TokenV>, i: int) -> Parsed<PathV> {
    match expect(ts, i, TokenKind::Ident, "Expected identifier in path"@) {
        Parsed::No(e, at) => Parsed::No(e, at),
        Parsed::Yes(first, j) => {
            p_segments(ts, j, seq![first.lexeme])
        }
    }
}

/// The further segments of a path.
pub open spec fn p_segments(ts: Seq<TokenV>, i: int, done: Seq<Seq<char>>) -> Parsed<PathV>
    decreases ts.len() - i,
{
    if at(ts, i, TokenKind::ColonColon) {
        match expect(ts, i + 1, TokenKind::Ident, "Expected identifier after '::'"@) {
            Parsed::No(e, at) => Parsed::No(e, at),
            Parsed::Yes(seg, j) => {
                p_segments(ts, j, done.push(seg.lexeme))
            }
        }
    } else {
        Parsed::Yes(PathV { segments: done }, i)
    }
}

/// A path that a turbofish may follow: it ends before `::<`.
pub open spec fn p_callee(ts: Seq<TokenV>, i: int) -> Parsed<PathV> {
    match expect(ts, i, TokenKind::Ident, "Expected identifier in path"@) {
        Parsed::No(e, at) => Parsed::No(e, at),
        Parsed::Yes(first, j) => {
            p_callee_segments(ts, j, seq![first.lexeme])
        }
    }
}

/// The further segments of a path that a turbofish may follow.
pub open spec fn p_callee_segments(ts: Seq<TokenV>, i: int, done: Seq<Seq<char>>) -> Parsed<PathV>
    decreases ts.len() - i,
{
    if at(ts, i, TokenKind::ColonColon) && !at_next(ts, i, TokenKind::Less) {
        match expect(ts, i + 1, TokenKind::Ident, "Expected identifier after '::'"@) {
            Parsed::No(e, at) => Parsed::No(e, at),
            Parsed::Yes(seg, j) => {
                p_callee_segments(ts, j, done.push(seg.lexeme))
            }
        }
    } else {
        Parsed::Yes(PathV { segments: done }, i)
    }
}

/// A meta item: `name`, `name = "value"` or `name(items)`.
pub open spec fn p_meta(ts: Seq<TokenV>, i: int) -> Parsed<MetaV>
    decreases ts.len() - i, 0int,
{
    match ahead(p_path(ts, i), i, ts) {
        Parsed::No(e, at) => Parsed::No(e, at),
        Parsed::Yes(name, j) => {
            if at(ts, j, TokenKind::Assign) {
                match expect(
                    ts,
                    j + 1,
                    TokenKind::StringLiteral,
                    "注解键值对的值目前仅支持字符串字面量（如 #[link_name = \"foo\"]）"@,
                ) {
                    Parsed::No(e, at) => Parsed::No(e, at),
                    Parsed::Yes(t, k) => {
                        match quoted(t.lexeme) {
                            Some(text) => Parsed::Yes(
                                MetaV::NameValue { name, value: LiteralV::String(text) },
                                k,
                            ),
                            None => Parsed::No(unquoted(), k),
                        }
                    }
                }
            } else if at(ts, j, TokenKind::LeftParen) {
                match p_meta_items(ts, j + 1, Seq::empty()) {
                    Parsed::No(e, at) => Parsed::No(e, at),
                    Parsed::Yes(items, k) => {
                        match expect(ts, k, TokenKind::RightParen, "期望 ')' 闭合注解列表"@) {
                            Parsed::No(e, at) => Parsed::No(e, at),
                            Parsed::Yes(_t, m) => {
                                Parsed::Yes(MetaV::List { name, items }, m)
                            }
                        }
                    }
                }
            } else {
                Parsed::Yes(MetaV::Path(name), j)
            }
        }
    }
}

/// The items of a list, separated by commas.
pub open spec fn p_meta_items(ts: Seq<TokenV>, i: int, done: Seq<MetaV>) -> Parsed<Seq<MetaV>>
    decreases ts.len() - i, 1int,
{
    if at(ts, i, TokenKind::RightParen) || at_end(ts, i) {
        Parsed::Yes(done, i)
    } else {
        match ahead(p_meta(ts, i), i, ts) {
            Parsed::No(e, at) => Parsed::No(e, at),
            Parsed::Yes(item, j) => {
                if at(ts, j, TokenKind::Comma) {
                    p_meta_items(ts, j + 1, done.push(item))
                } else {
                    Parsed::Yes(done.push(item), j)
                }
            }
        }
    }
}

/// One annotation `#[...]`.
pub open spec fn p_attribute(ts: Seq<TokenV>, i: int) -> Parsed<MetaV> {
    match expect(ts, i, TokenKind::Hash, "期望 '#' 作为注解起始"@) {
        Parsed::No(e, at) => Parsed::No(e, at),
        Parsed::Yes(_h, j) => {
            match expect(ts, j, TokenKind::LeftBracket, "期望 '['（'#' 后应为 '[' 形成 '#['）"@) {
                Parsed::No(e, at) => Parsed::No(e, at),
                Parsed::Yes(_b, k) => {
                    match p_meta(ts, k) {
                        Parsed::No(e, at) => Parsed::No(e, at),
                        Parsed::Yes(meta, m) => {
                            match expect(ts, m, TokenKind::RightBracket, "期望 ']' 闭合注解"@) {
                                Parsed::No(e, at) => Parsed::No(e, at),
                                Parsed::Yes(_c, n) => {
                                    Parsed::Yes(meta, n)
                                }
                            }
                        }
                    }
                }
            }
        }
    }
}

/// The annotations in front of a declaration.
pub open spec fn p_attributes(ts: Seq<TokenV>, i: int, done: Seq<MetaV>) -> Parsed<Seq<MetaV>>
    decreases ts.len() - i,
{
    if at(ts, i, TokenKind::Hash) {
        match ahead(p_attribute(ts, i), i, ts) {
            Parsed::No(e, at) => Parsed::No(e, at),
            Parsed::Yes(meta, j) => {
                p_attributes(ts, j, done.push(meta))
            }
        }
    } else {
        Parsed::Yes(done, i)
    }
}

// Types

/// The length of an array type.
pub open spec fn p_array_len(ts: Seq<TokenV>, i: int) -> Parsed<ArrayLenV> {
    if at(ts, i, TokenKind::Ident) {
        Parsed::Yes(ArrayLenV::Param(ts[i].lexeme), i + 1)
    } else {
        match expect(ts, i, TokenKind::IntLiteral, "数组类型 [T; N] 中 ';' 之后期望长度（非负整数或常量泛型参数名）"@) {
            Parsed::No(e, at) => Parsed::No(e, at),
            Parsed::Yes(t, j) => {
                match integer_of(t.lexeme, false, 0, usize::MAX as int) {
                    Some(n) => Parsed::Yes(ArrayLenV::Known(n as usize), j),
                    None => Parsed::No(bad_length(t), j),
                }
            }
        }
    }
}

/// A type.
pub open spec fn p_type(ts: Seq<TokenV>, i: int) -> Parsed<TypeV>
    decreases ts.len() - i, 0int,
{
    if at(ts, i, TokenKind::Star) {
        match p_type(ts, i + 1) {
            Parsed::No(e, at) => Parsed::No(e, at),
            Parsed::Yes(inner, j) => {
                Parsed::Yes(TypeV::Pointer(Box::new(inner)), j)
            }
        }
    } else if at(ts, i, TokenKind::LeftBracket) {
        match p_type(ts, i + 1) {
            Parsed::No(e, at) => Parsed::No(e, at),
            Parsed::Yes(elem, j) => {
                match expect(ts, j, TokenKind::Semicolon, "数组类型期望形如 [T; N]，但缺少 ';'"@) {
                    Parsed::No(e, at) => Parsed::No(e, at),
                    Parsed::Yes(_s, k) => {
                        match p_array_len(ts, k) {
                            Parsed::No(e, at) => Parsed::No(e, at),
                            Parsed::Yes(len, m) => {
                                match expect(
                                    ts,
                                    m,
                                    TokenKind::RightBracket,
                                    "数组类型 [T; N] 缺少结尾的 ']'"@,
                                ) {
                                    Parsed::No(e, at) => Parsed::No(e, at),
                                    Parsed::Yes(_r, n) => {
                                        Parsed::Yes(TypeV::Array(Box::new(elem), len), n)
                                    }
                                }
                            }
                        }
                    }
                }
            }
        }
    } else if at(ts, i, TokenKind::Ident) && ts[i].lexeme == "int"@ {
        Parsed::Yes(TypeV::Int, i + 1)
    } else if at(ts, i, TokenKind::Ident) && ts[i].lexeme == "char"@ {
        Parsed::Yes(TypeV::Char, i + 1)
    } else if at(ts, i, TokenKind::Ident) && ts[i].lexeme == "unit"@ {
        Parsed::Yes(TypeV::Unit, i + 1)
    } else {
        match ahead(p_path(ts, i), i, ts) {
            Parsed::No(e, at) => Parsed::No(e, at),
            Parsed::Yes(path, j) => {
                if at(ts, j, TokenKind::Less) {
                    match p_generic_args(ts, j) {
                        Parsed::No(e, at) => Parsed::No(e, at),
                        Parsed::Yes(args, k) => {
                            Parsed::Yes(TypeV::Applied(path, args), k)
                        }
                    }
                } else {
                    Parsed::Yes(TypeV::Named(path), j)
                }
            }
        }
    }
}

/// Generic arguments `<A, 3, B>`.
pub open spec fn p_generic_args(ts: Seq<TokenV>, i: int) -> Parsed<Seq<TypeOrConstV>>
    decreases ts.len() - i, 2int,
{
    match expect(ts, i, TokenKind::Less, "Expected '<' in generic arguments"@) {
        Parsed::No(e, at) => Parsed::No(e, at),
        Parsed::Yes(_o, j) => {
            match p_generic_list(ts, j, Seq::empty()) {
                Parsed::No(e, at) => Parsed::No(e, at),
                Parsed::Yes(args, k) => {
                    match expect(
                        ts,
                        k,
                        TokenKind::Greater,
                        "Expected '>' after generic arguments"@,
                    ) {
                        Parsed::No(e, at) => Parsed::No(e, at),
                        Parsed::Yes(_c, m) => {
                            Parsed::Yes(args, m)
                        }
                    }
                }
            }
        }
    }
}

/// One generic argument.
pub open spec fn p_generic_arg(ts: Seq<TokenV>, i: int) -> Parsed<TypeOrConstV>
    decreases ts.len() - i, 1int,
{
    if at(ts, i, TokenKind::Const) {
        match expect(ts, i + 1, TokenKind::Colon, "Expected ':' after const generic arg"@) {
            Parsed::No(e, at) => Parsed::No(e, at),
            Parsed::Yes(_c, j) => {
                match p_type(ts, j) {
                    Parsed::No(e, at) => Parsed::No(e, at),
                    Parsed::Yes(_ty, k) => {
                        match expect(ts, k, TokenKind::IntLiteral, "期望整型字面量作为常量泛型实参"@) {
                            Parsed::No(e, at) => Parsed::No(e, at),
                            Parsed::Yes(t, m) => {
                                match integer_of(t.lexeme, true, i64::MIN as int, i64::MAX as int) {
                                    Some(v) => Parsed::Yes(TypeOrConstV::Const(v as i64), m),
                                    None => Parsed::Yes(TypeOrConstV::Const(0), m),
                                }
                            }
                        }
                    }
                }
            }
        }
    } else if at(ts, i, TokenKind::IntLiteral) {
        match integer_of(ts[i].lexeme, true, i64::MIN as int, i64::MAX as int) {
            Some(v) => Parsed::Yes(TypeOrConstV::Const(v as i64), i + 1),
            None => Parsed::No(syntax("无效整型常量泛型实参"@), i + 1),
        }
    } else {
        match p_type(ts, i) {
            Parsed::No(e, at) => Parsed::No(e, at),
            Parsed::Yes(ty, j) => {
                Parsed::Yes(TypeOrConstV::Type(ty), j)
            }
        }
    }
}

/// Generic arguments, separated by commas.
pub open spec fn p_generic_list(
    ts: Seq<TokenV>,
    i: int,
    done: Seq<TypeOrConstV>,
) -> Parsed<Seq<TypeOrConstV>>
    decreases ts.len() - i, 2int,
{
    if at(ts, i, TokenKind::Greater) || at_end(ts, i) {
        Parsed::Yes(done, i)
    } else {
        match ahead(p_generic_arg(ts, i), i, ts) {
            Parsed::No(e, at) => Parsed::No(e, at),
            Parsed::Yes(arg, j) => {
                if at(ts, j, TokenKind::Comma) {
                    p_generic_list(ts, j + 1, done.push(arg))
                } else {
                    Parsed::Yes(done.push(arg), j)
                }
            }
        }
    }
}

/// Explicit generic arguments `::<...>`, or none.
pub open spec fn p_turbofish(ts: Seq<TokenV>, i: int) -> Parsed<Seq<TypeOrConstV>> {
    if at(ts, i, TokenKind::ColonColon) && at_next(ts, i, TokenKind::Less) {
        p_generic_args(ts, i + 1)
    } else {
        Parsed::Yes(Seq::empty(), i)
    }
}

// Expressions

/// The comparison operator of a token kind.
pub open spec fn comparison_op(k: TokenKind) -> Option<BinOp> {
    match k {
        TokenKind::Equal => Some(BinOp::Equal),
        TokenKind::NotEqual => Some(BinOp::NotEqual),
        TokenKind::Greater => Some(BinOp::Greater),
        TokenKind::GreaterEqual => Some(BinOp::GreaterEqual),
        TokenKind::Less => Some(BinOp::Less),
        TokenKind::LessEqual => Some(BinOp::LessEqual),
        _ => None,
    }
}

/// The additive operator of a token kind.
pub open spec fn additive_op(k: TokenKind) -> Option<BinOp> {
    match k {
        TokenKind::Plus => Some(BinOp::Add),
        TokenKind::Minus => Some(BinOp::Sub),
        _ => None,
    }
}

/// The multiplicative operator of a token kind.
pub open spec fn multiplicative_op(k: TokenKind) -> Option<BinOp> {
    match k {
        TokenKind::Star => Some(BinOp::Mul),
        TokenKind::Slash => Some(BinOp::Div),
        _ => None,
    }
}

/// The application of a binary operator.
pub open spec fn binary(op: BinOp, lhs: ExprV, rhs: ExprV) -> ExprV {
    ExprV::Binary { op, lhs: Box::new(lhs), rhs: Box::new(rhs) }
}

/// An expression. Comparisons bind loosest, then sums, then products, then
/// prefix operators; binary operators associate to the left.
pub open spec fn p_expr(ts: Seq<TokenV>, i: int) -> Parsed<ExprV>
    decreases ts.len() - i, 6int,
{
    match ahead(p_sum(ts, i), i, ts) {
        Parsed::No(e, at) => Parsed::No(e, at),
        Parsed::Yes(left, j) => {
            p_comparisons(ts, j, left)
        }
    }
}

/// Comparisons behind their first operand.
pub open spec fn p_comparisons(ts: Seq<TokenV>, i: int, left: ExprV) -> Parsed<ExprV>
    decreases ts.len() - i, 0int,
{
    if !at_end(ts, i) && comparison_op(ts[i].kind) is Some {
        match ahead(p_sum(ts, i + 1), i + 1, ts) {
            Parsed::No(e, at) => Parsed::No(e, at),
            Parsed::Yes(right, j) => {
                p_comparisons(ts, j, binary(comparison_op(ts[i].kind)->0, left, right))
            }
        }
    } else {
        Parsed::Yes(left, i)
    }
}

/// A sum or a difference.
pub open spec fn p_sum(ts: Seq<TokenV>, i: int) -> Parsed<ExprV>
    decreases ts.len() - i, 5int,
{
    match ahead(p_product(ts, i), i, ts) {
        Parsed::No(e, at) => Parsed::No(e, at),
        Parsed::Yes(left, j) => {
            p_sums(ts, j, left)
        }
    }
}

/// Sums behind their first operand.
pub open spec fn p_sums(ts: Seq<TokenV>, i: int, left: ExprV) -> Parsed<ExprV>
    decreases ts.len() - i, 0int,
{
    if !at_end(ts, i) && additive_op(ts[i].kind) is Some {
        match ahead(p_product(ts, i + 1), i + 1, ts) {
            Parsed::No(e, at) => Parsed::No(e, at),
            Parsed::Yes(right, j) => {
                p_sums(ts, j, binary(additive_op(ts[i].kind)->0, left, right))
            }
        }
    } else {
        Parsed::Yes(left, i)
    }
}

/// A product or a quotient.
pub open spec fn p_product(ts: Seq<TokenV>, i: int) -> Parsed<ExprV>
    decreases ts.len() - i, 4int,
{
    match ahead(p_unary(ts, i), i, ts) {
        Parsed::No(e, at) => Parsed::No(e, at),
        Parsed::Yes(left, j) => {
            p_products(ts, j, left)
        }
    }
}

/// Products behind their first operand.
pub open spec fn p_products(ts: Seq<TokenV>, i: int, left: ExprV) -> Parsed<ExprV>
    decreases ts.len() - i, 0int,
{
    if !at_end(ts, i) && multiplicative_op(ts[i].kind) is Some {
        match ahead(p_unary(ts, i + 1), i + 1, ts) {
            Parsed::No(e, at) => Parsed::No(e, at),
            Parsed::Yes(right, j) => {
                p_products(ts, j, binary(multiplicative_op(ts[i].kind)->0, left, right))
            }
        }
    } else {
        Parsed::Yes(left, i)
    }
}

/// A prefix operator, or an operand.
pub open spec fn p_unary(ts: Seq<TokenV>, i: int) -> Parsed<ExprV>
    decreases ts.len() - i, 3int,
{
    if at(ts, i, TokenKind::Amp) {
        match p_unary(ts, i + 1) {
            Parsed::No(e, at) => Parsed::No(e, at),
            Parsed::Yes(inner, j) => {
                Parsed::Yes(ExprV::AddrOf(Box::new(inner)), j)
            }
        }
    } else if at(ts, i, TokenKind::Star) {
        match p_unary(ts, i + 1) {
            Parsed::No(e, at) => Parsed::No(e, at),
            Parsed::Yes(inner, j) => {
                Parsed::Yes(ExprV::Deref(Box::new(inner)), j)
            }
        }
    } else {
        p_operand(ts, i)
    }
}

/// An operand. A struct literal ends it; anything else may be followed by
/// field accesses, calls and subscripts.
pub open spec fn p_operand(ts: Seq<TokenV>, i: int) -> Parsed<ExprV>
    decreases ts.len() - i, 2int,
{
    if i >= ts.len() {
        Parsed::No(no_token(ts, i), i)
    } else if ts[i].kind == TokenKind::IntLiteral {
        match integer_of(ts[i].lexeme, true, i64::MIN as int, i64::MAX as int) {
            Some(v) => p_postfix(ts, i + 1, ExprV::Literal(LiteralV::Int(v as i64))),
            None => Parsed::No(bad_integer(ts[i]), i + 1),
        }
    } else if ts[i].kind == TokenKind::StringLiteral {
        match quoted(ts[i].lexeme) {
            Some(text) => match unescaped(text, 0, Seq::empty()) {
                Ok(s) => p_postfix(ts, i + 1, ExprV::Literal(LiteralV::String(s))),
                Err(why) => Parsed::No(syntax("字符串字面量错误："@ + why), i + 1),
            },
            None => Parsed::No(unquoted(), i + 1),
        }
    } else if ts[i].kind == TokenKind::Ident {
        match ahead(p_callee(ts, i), i, ts) {
            Parsed::No(e, at) => Parsed::No(e, at),
            Parsed::Yes(path, j) => {
                match ahead(p_turbofish(ts, j), i, ts) {
                    Parsed::No(e, at) => Parsed::No(e, at),
                    Parsed::Yes(turbofish, k) => {
                        if at(ts, k, TokenKind::LeftBrace) {
                            match p_field_inits(ts, k + 1, Seq::empty()) {
                                Parsed::No(e, at) => Parsed::No(e, at),
                                Parsed::Yes(fields, m) => {
                                    match expect(
                                        ts,
                                        m,
                                        TokenKind::RightBrace,
                                        "Expected '}' after struct literal"@,
                                    ) {
                                        Parsed::No(e, at) => Parsed::No(e, at),
                                        Parsed::Yes(_c, n) => {
                                            Parsed::Yes(
                                                ExprV::StructLiteral { name: path, fields, turbofish },
                                                n,
                                            )
                                        }
                                    }
                                }
                            }
                        } else if turbofish.len() > 0 && at(ts, k, TokenKind::LeftParen) {
                            match p_args(ts, k + 1, Seq::empty()) {
                                Parsed::No(e, at) => Parsed::No(e, at),
                                Parsed::Yes(args, m) => {
                                    match ahead(
                                        expect(
                                            ts,
                                            m,
                                            TokenKind::RightParen,
                                            "Expected ')' after arguments"@,
                                        ),
                                        i,
                                        ts,
                                    ) {
                                        Parsed::No(e, at) => Parsed::No(e, at),
                                        Parsed::Yes(_c, n) => {
                                            p_postfix(
                                                ts,
                                                n,
                                                ExprV::Call { callee: path, args, turbofish },
                                            )
                                        }
                                    }
                                }
                            }
                        } else if turbofish.len() > 0 {
                            Parsed::No(syntax("涡轮鱼 `::<...>` 只能用于函数调用或结构体字面量之前"@), k)
                        } else {
                            p_postfix(ts, k, ExprV::Ident(path))
                        }
                    }
                }
            }
        }
    } else if ts[i].kind == TokenKind::LeftParen {
        match ahead(p_expr(ts, i + 1), i + 1, ts) {
            Parsed::No(e, at) => Parsed::No(e, at),
            Parsed::Yes(inner, j) => {
                match expect(
                    ts,
                    j,
                    TokenKind::RightParen,
                    "Expected ')' after grouped expression"@,
                ) {
                    Parsed::No(e, at) => Parsed::No(e, at),
                    Parsed::Yes(_c, k) => {
                        p_postfix(ts, k, ExprV::Paren(Box::new(inner)))
                    }
                }
            }
        }
    } else if ts[i].kind == TokenKind::LeftBracket {
        match ahead(p_array_literal(ts, i + 1), i + 1, ts) {
            Parsed::No(e, at) => Parsed::No(e, at),
            Parsed::Yes(value, j) => {
                p_postfix(ts, j, value)
            }
        }
    } else {
        Parsed::No(no_operand(ts[i]), i)
    }
}

/// What follows an operand: `.field`, `.method(args)`, `(args)` behind a name,
/// `[index]`.
pub open spec fn p_postfix(ts: Seq<TokenV>, i: int, base: ExprV) -> Parsed<ExprV>
    decreases ts.len() - i, 0int,
{
    if at(ts, i, TokenKind::Dot) {
        match expect(ts, i + 1, TokenKind::Ident, "Expected field or method name after '.'"@) {
            Parsed::No(e, at) => Parsed::No(e, at),
            Parsed::Yes(name, j) => {
                if at(ts, j, TokenKind::LeftParen) {
                    match p_args(ts, j + 1, Seq::empty()) {
                        Parsed::No(e, at) => Parsed::No(e, at),
                        Parsed::Yes(args, k) => {
                            match ahead(
                                expect(
                                    ts,
                                    k,
                                    TokenKind::RightParen,
                                    "Expected ')' after method arguments"@,
                                ),
                                j,
                                ts,
                            ) {
                                Parsed::No(e, at) => Parsed::No(e, at),
                                Parsed::Yes(_c, m) => {
                                    p_postfix(
                                        ts,
                                        m,
                                        ExprV::MethodCall { object: Box::new(base), name: name.lexeme, args },
                                    )
                                }
                            }
                        }
                    }
                } else {
                    p_postfix(
                        ts,
                        j,
                        ExprV::FieldAccess { object: Box::new(base), field: name.lexeme },
                    )
                }
            }
        }
    } else if at(ts, i, TokenKind::LeftParen) && base is Ident {
        match p_args(ts, i + 1, Seq::empty()) {
            Parsed::No(e, at) => Parsed::No(e, at),
            Parsed::Yes(args, k) => {
                match ahead(
                    expect(ts, k, TokenKind::RightParen, "Expected ')' after arguments"@),
                    i,
                    ts,
                ) {
                    Parsed::No(e, at) => Parsed::No(e, at),
                    Parsed::Yes(_c, m) => {
                        p_postfix(
                            ts,
                            m,
                            ExprV::Call { callee: base->Ident_0, args, turbofish: Seq::empty() },
                        )
                    }
                }
            }
        }
    } else if at(ts, i, TokenKind::LeftBracket) {
        match ahead(p_expr(ts, i + 1), i + 1, ts) {
            Parsed::No(e, at) => Parsed::No(e, at),
            Parsed::Yes(index, j) => {
                match expect(ts, j, TokenKind::RightBracket, "Expected ']' after array index"@) {
                    Parsed::No(e, at) => Parsed::No(e, at),
                    Parsed::Yes(_c, k) => {
                        p_postfix(
                            ts,
                            k,
                            ExprV::Index { array: Box::new(base), index: Box::new(index) },
                        )
                    }
                }
            }
        }
    } else {
        Parsed::Yes(base, i)
    }
}

/// The arguments of a call, separated by commas.
pub open spec fn p_args(ts: Seq<TokenV>, i: int, done: Seq<ExprV>) -> Parsed<Seq<ExprV>>
    decreases ts.len() - i, 7int,
{
    if at_end(ts, i) || at(ts, i, TokenKind::RightParen) {
        Parsed::Yes(done, i)
    } else {
        match ahead(p_expr(ts, i), i, ts) {
            Parsed::No(e, at) => Parsed::No(e, at),
            Parsed::Yes(arg, j) => {
                if at(ts, j, TokenKind::Comma) {
                    p_args(ts, j + 1, done.push(arg))
                } else {
                    Parsed::Yes(done.push(arg), j)
                }
            }
        }
    }
}

/// The fields of a struct literal; commas between them may be left out.
pub open spec fn p_field_inits(
    ts: Seq<TokenV>,
    i: int,
    done: Seq<(Seq<char>, ExprV)>,
) -> Parsed<Seq<(Seq<char>, ExprV)>>
    decreases ts.len() - i, 0int,
{
    if at_end(ts, i) || at(ts, i, TokenKind::RightBrace) {
        Parsed::Yes(done, i)
    } else {
        match expect(ts, i, TokenKind::Ident, "Expected field name"@) {
            Parsed::No(e, at) => Parsed::No(e, at),
            Parsed::Yes(name, j) => {
                match expect(ts, j, TokenKind::Colon, "Expected ':' after field name"@) {
                    Parsed::No(e, at) => Parsed::No(e, at),
                    Parsed::Yes(_c, k) => {
                        match ahead(p_expr(ts, k), k, ts) {
                            Parsed::No(e, at) => Parsed::No(e, at),
                            Parsed::Yes(value, m) => {
                                if at(ts, m, TokenKind::Comma) {
                                    p_field_inits(ts, m + 1, done.push((name.lexeme, value)))
                                } else {
                                    p_field_inits(ts, m, done.push((name.lexeme, value)))
                                }
                            }
                        }
                    }
                }
            }
        }
    }
}

/// An array literal behind its opening bracket: `a, b, c]` or `v; n]`.
pub open spec fn p_array_literal(ts: Seq<TokenV>, i: int) -> Parsed<ExprV>
    decreases ts.len() - i, 7int,
{
    match ahead(p_expr(ts, i), i, ts) {
        Parsed::No(e, at) => Parsed::No(e, at),
        Parsed::Yes(first, j) => {
            if at(ts, j, TokenKind::Semicolon) {
                match p_expr(ts, j + 1) {
                    Parsed::No(e, at) => Parsed::No(e, at),
                    Parsed::Yes(count, k) => {
                        match expect(
                            ts,
                            k,
                            TokenKind::RightBracket,
                            "重复形式数组字面量 [v; n] 缺少结尾的 ']'"@,
                        ) {
                            Parsed::No(e, at) => Parsed::No(e, at),
                            Parsed::Yes(_c, m) => {
                                Parsed::Yes(
                                    ExprV::ArrayLiteral { elements: seq![first], repeat: Some(Box::new(count)) },
                                    m,
                                )
                            }
                        }
                    }
                }
            } else {
                match p_elements(ts, j, seq![first]) {
                    Parsed::No(e, at) => Parsed::No(e, at),
                    Parsed::Yes(elements, k) => {
                        match expect(ts, k, TokenKind::RightBracket, "数组字面量缺少结尾的 ']'"@) {
                            Parsed::No(e, at) => Parsed::No(e, at),
                            Parsed::Yes(_c, m) => {
                                Parsed::Yes(ExprV::ArrayLiteral { elements, repeat: None }, m)
                            }
                        }
                    }
                }
            }
        }
    }
}

/// The further elements of an array literal; a comma may end them.
pub open spec fn p_elements(ts: Seq<TokenV>, i: int, done: Seq<ExprV>) -> Parsed<Seq<ExprV>>
    decreases ts.len() - i, 0int,
{
    if at(ts, i, TokenKind::Comma) {
        if at(ts, i + 1, TokenKind::RightBracket) {
            Parsed::Yes(done, i + 1)
        } else {
            match ahead(p_expr(ts, i + 1), i + 1, ts) {
                Parsed::No(e, at) => Parsed::No(e, at),
                Parsed::Yes(value, j) => {
                    p_elements(ts, j, done.push(value))
                }
            }
        }
    } else {
        Parsed::Yes(done, i)
    }
}

// Escapes

/// The value of a hexadecimal digit.
pub open spec fn hex_digit(c: char) -> Option<int> {
    if '0' <= c <= '9' {
        Some(c as int - '0' as int)
    } else if 'a' <= c <= 'f' {
        Some(c as int - 'a' as int + 10)
    } else if 'A' <= c <= 'F' {
        Some(c as int - 'A' as int + 10)
    } else {
        None
    }
}

/// The byte that at most two characters denote: one or two hexadecimal digits,
/// or a digit behind a plus sign.
pub open spec fn hex_byte(h: Seq<char>) -> Option<int> {
    if h.len() == 2 && h[0] == '+' {
        hex_digit(h[1])
    } else if h.len() == 2 {
        match (hex_digit(h[0]), hex_digit(h[1])) {
            (Some(a), Some(b)) => Some(a * 16 + b),
            _ => None,
        }
    } else if h.len() == 1 {
        hex_digit(h[0])
    } else {
        None
    }
}

/// The characters of `s` from `i` on with their escapes replaced, behind
/// `done`; or why an escape cannot be read.
pub open spec fn unescaped(s: Seq<char>, i: int, done: Seq<char>) -> Result<Seq<char>, Seq<char>>
    decreases s.len() - i,
{
    if i >= s.len() {
        Ok(done)
    } else if s[i] != '\\' {
        unescaped(s, i + 1, done.push(s[i]))
    } else if i + 1 >= s.len() {
        Err("unexpected end of string after backslash"@)
    } else if s[i + 1] == 'n' {
        unescaped(s, i + 2, done.push('\n'))
    } else if s[i + 1] == 't' {
        unescaped(s, i + 2, done.push('\t'))
    } else if s[i + 1] == 'r' {
        unescaped(s, i + 2, done.push('\r'))
    } else if s[i + 1] == '\\' {
        unescaped(s, i + 2, done.push('\\'))
    } else if s[i + 1] == '"' {
        unescaped(s, i + 2, done.push('"'))
    } else if s[i + 1] == '0' {
        unescaped(s, i + 2, done.push('\0'))
    } else if s[i + 1] == 'x' {
        let end = if i + 4 <= s.len() { i + 4 } else { s.len() as int };
        let hex = s.subrange(i + 2, end);
        match hex_byte(hex) {
            Some(b) => unescaped(s, end, done.push(b as char)),
            None => Err("invalid hex escape: \\x"@ + hex),
        }
    } else {
        Err("unknown escape sequence: \\"@ + seq![s[i + 1]])
    }
}

// Statements

/// The target of an assignment: a name, behind any number of `*`, followed by
/// field accesses and subscripts.
pub open spec fn p_lvalue(ts: Seq<TokenV>, i: int) -> Parsed<ExprV>
    decreases ts.len() - i,
{
    if at(ts, i, TokenKind::Star) {
        match p_lvalue(ts, i + 1) {
            Parsed::No(e, at) => Parsed::No(e, at),
            Parsed::Yes(inner, j) => {
                Parsed::Yes(ExprV::Deref(Box::new(inner)), j)
            }
        }
    } else {
        match expect(ts, i, TokenKind::Ident, "Expected variable name in assignment target"@) {
            Parsed::No(e, at) => Parsed::No(e, at),
            Parsed::Yes(name, j) => {
                p_lvalue_rest(ts, j, ExprV::Ident(PathV { segments: seq![name.lexeme] }))
            }
        }
    }
}

/// The field accesses and subscripts of an assignment target.
pub open spec fn p_lvalue_rest(ts: Seq<TokenV>, i: int, base: ExprV) -> Parsed<ExprV>
    decreases ts.len() - i,
{
    if at(ts, i, TokenKind::Dot) {
        match expect(ts, i + 1, TokenKind::Ident, "Expected field name after '.'"@) {
            Parsed::No(e, at) => Parsed::No(e, at),
            Parsed::Yes(field, j) => {
                p_lvalue_rest(
                    ts,
                    j,
                    ExprV::FieldAccess { object: Box::new(base), field: field.lexeme },
                )
            }
        }
    } else if at(ts, i, TokenKind::LeftBracket) {
        match ahead(p_expr(ts, i + 1), i + 1, ts) {
            Parsed::No(e, at) => Parsed::No(e, at),
            Parsed::Yes(index, j) => {
                match expect(
                    ts,
                    j,
                    TokenKind::RightBracket,
                    "Expected ']' after array index in assignment target"@,
                ) {
                    Parsed::No(e, at) => Parsed::No(e, at),
                    Parsed::Yes(_c, k) => {
                        p_lvalue_rest(
                            ts,
                            k,
                            ExprV::Index { array: Box::new(base), index: Box::new(index) },
                        )
                    }
                }
            }
        }
    } else {
        Parsed::Yes(base, i)
    }
}

/// `name: type = value;` behind its keyword.
#[verifier::opaque]
pub open spec fn p_binding(
    ts: Seq<TokenV>,
    i: int,
    require_ty: bool,
) -> Parsed<(Seq<char>, Option<TypeV>, ExprV)> {
    match expect(ts, i, TokenKind::Ident, "Expected variable name"@) {
        Parsed::No(e, at) => Parsed::No(e, at),
        Parsed::Yes(name, j) => {
            match p_annotation(ts, j, require_ty, name) {
                Parsed::No(e, at) => Parsed::No(e, at),
                Parsed::Yes(ty, k) => {
                    match expect(ts, k, TokenKind::Assign, "Expected '=' after variable name"@) {
                        Parsed::No(e, at) => Parsed::No(e, at),
                        Parsed::Yes(_a, m) => {
                            match p_expr(ts, m) {
                                Parsed::No(e, at) => Parsed::No(e, at),
                                Parsed::Yes(init, n) => {
                                    match expect(
                                        ts,
                                        n,
                                        TokenKind::Semicolon,
                                        "Expected ';' after variable declaration"@,
                                    ) {
                                        Parsed::No(e, at) => Parsed::No(e, at),
                                        Parsed::Yes(_s, o) => {
                                            Parsed::Yes((name.lexeme, ty, init), o)
                                        }
                                    }
                                }
                            }
                        }
                    }
                }
            }
        }
    }
}

/// The type of a binding, which may be missing unless it is required.
#[verifier::opaque]
pub open spec fn p_annotation(
    ts: Seq<TokenV>,
    i: int,
    require_ty: bool,
    name: TokenV,
) -> Parsed<Option<TypeV>> {
    if at(ts, i, TokenKind::Colon) {
        match p_type(ts, i + 1) {
            Parsed::No(e, at) => Parsed::No(e, at),
            Parsed::Yes(ty, j) => {
                Parsed::Yes(Some(ty), j)
            }
        }
    } else if require_ty {
        Parsed::No(missing_type(name), i)
    } else {
        Parsed::Yes(None, i)
    }
}

/// Statements up to a closing brace.
pub open spec fn p_stmts(ts: Seq<TokenV>, i: int, done: Seq<StmtV>) -> Parsed<Seq<StmtV>>
    decreases ts.len() - i, 2int,
{
    if at_end(ts, i) || at(ts, i, TokenKind::RightBrace) {
        Parsed::Yes(done, i)
    } else {
        match ahead(p_stmt(ts, i), i, ts) {
            Parsed::No(e, at) => Parsed::No(e, at),
            Parsed::Yes(stmt, j) => {
                p_stmts(ts, j, done.push(stmt))
            }
        }
    }
}

/// One statement.
pub open spec fn p_stmt(ts: Seq<TokenV>, i: int) -> Parsed<StmtV>
    decreases ts.len() - i, 1int,
{
    if at(ts, i, TokenKind::If) {
        p_if(ts, i)
    } else if at(ts, i, TokenKind::While) {
        p_while(ts, i)
    } else {
        p_simple(ts, i)
    }
}

/// A statement without statements in it.
#[verifier::opaque]
pub open spec fn p_simple(ts: Seq<TokenV>, i: int) -> Parsed<StmtV> {
    if at(ts, i, TokenKind::Let) {
        match p_binding(ts, i + 1, false) {
            Parsed::No(e, at) => Parsed::No(e, at),
            Parsed::Yes(b, j) => {
                Parsed::Yes(StmtV::Let { name: b.0, ty: b.1, init: b.2 }, j)
            }
        }
    } else if at(ts, i, TokenKind::Static) {
        match p_binding(ts, i + 1, true) {
            Parsed::No(e, at) => Parsed::No(e, at),
            Parsed::Yes(b, j) => {
                Parsed::Yes(StmtV::Static { name: b.0, ty: b.1->0, init: b.2 }, j)
            }
        }
    } else if at(ts, i, TokenKind::Const) {
        match p_binding(ts, i + 1, true) {
            Parsed::No(e, at) => Parsed::No(e, at),
            Parsed::Yes(b, j) => {
                Parsed::Yes(StmtV::Const { name: b.0, ty: b.1->0, init: b.2 }, j)
            }
        }
    } else if at(ts, i, TokenKind::Return) {
        p_return(ts, i)
    } else if at(ts, i, TokenKind::Ident) || at(ts, i, TokenKind::Star) {
        p_assign(ts, i)
    } else {
        p_expr_stmt(ts, i)
    }
}

/// An assignment or an expression statement: what begins like an assignment
/// target is an assignment when `=` follows, and an expression otherwise.
#[verifier::opaque]
pub open spec fn p_assign(ts: Seq<TokenV>, i: int) -> Parsed<StmtV> {
    match p_lvalue(ts, i) {
        Parsed::No(e, at) => Parsed::No(e, at),
        Parsed::Yes(target, j) => {
            if at(ts, j, TokenKind::Assign) {
                match p_expr(ts, j + 1) {
                    Parsed::No(e, at) => Parsed::No(e, at),
                    Parsed::Yes(value, k) => {
                        match expect(
                            ts,
                            k,
                            TokenKind::Semicolon,
                            "Expected ';' after assignment"@,
                        ) {
                            Parsed::No(e, at) => Parsed::No(e, at),
                            Parsed::Yes(_s, m) => {
                                Parsed::Yes(
                                    StmtV::Assign { target: Box::new(target), value },
                                    m,
                                )
                            }
                        }
                    }
                }
            } else {
                p_expr_stmt(ts, i)
            }
        }
    }
}

/// An expression statement.
#[verifier::opaque]
pub open spec fn p_expr_stmt(ts: Seq<TokenV>, i: int) -> Parsed<StmtV> {
    match p_expr(ts, i) {
        Parsed::No(e, at) => Parsed::No(e, at),
        Parsed::Yes(value, j) => {
            match expect(ts, j, TokenKind::Semicolon, "Expected ';' after expression statement"@) {
                Parsed::No(e, at) => Parsed::No(e, at),
                Parsed::Yes(_s, k) => {
                    Parsed::Yes(StmtV::Expr(value), k)
                }
            }
        }
    }
}

/// `return;` or `return value;`.
#[verifier::opaque]
pub open spec fn p_return(ts: Seq<TokenV>, i: int) -> Parsed<StmtV> {
    match expect(ts, i, TokenKind::Return, "Expected 'return'"@) {
        Parsed::No(e, at) => Parsed::No(e, at),
        Parsed::Yes(_r, j) => {
            if at(ts, j, TokenKind::Semicolon) {
                Parsed::Yes(StmtV::Return(None), j + 1)
            } else {
                match p_expr(ts, j) {
                    Parsed::No(e, at) => Parsed::No(e, at),
                    Parsed::Yes(value, k) => {
                        match expect(
                            ts,
                            k,
                            TokenKind::Semicolon,
                            "Expected ';' after return expression"@,
                        ) {
                            Parsed::No(e, at) => Parsed::No(e, at),
                            Parsed::Yes(_s, m) => {
                                Parsed::Yes(StmtV::Return(Some(value)), m)
                            }
                        }
                    }
                }
            }
        }
    }
}

/// `keyword (condition) {`, with the message for each token that is missing.
#[verifier::opaque]
pub open spec fn p_head(
    ts: Seq<TokenV>,
    i: int,
    keyword: TokenKind,
    no_keyword: Seq<char>,
    no_open: Seq<char>,
    no_close: Seq<char>,
    no_brace: Seq<char>,
) -> Parsed<ExprV> {
    match expect(ts, i, keyword, no_keyword) {
        Parsed::No(e, at) => Parsed::No(e, at),
        Parsed::Yes(_k, i1) => {
            match expect(ts, i1, TokenKind::LeftParen, no_open) {
                Parsed::No(e, at) => Parsed::No(e, at),
                Parsed::Yes(_p, i2) => {
                    match ahead(p_expr(ts, i2), i2, ts) {
                        Parsed::No(e, at) => Parsed::No(e, at),
                        Parsed::Yes(cond, i3) => {
                            match expect(ts, i3, TokenKind::RightParen, no_close) {
                                Parsed::No(e, at) => Parsed::No(e, at),
                                Parsed::Yes(_q, i4) => {
                                    match expect(ts, i4, TokenKind::LeftBrace, no_brace) {
                                        Parsed::No(e, at) => Parsed::No(e, at),
                                        Parsed::Yes(_b, i5) => {
                                            Parsed::Yes(cond, i5)
                                        }
                                    }
                                }
                            }
                        }
                    }
                }
            }
        }
    }
}

/// `if (condition) { ... }` with an optional `else`.
pub open spec fn p_if(ts: Seq<TokenV>, i: int) -> Parsed<StmtV>
    decreases ts.len() - i, 0int,
{
    match ahead(
        p_head(
            ts,
            i,
            TokenKind::If,
            "Expected 'if'"@,
            "Expected '(' after 'if'"@,
            "Expected ')' after 'if'"@,
            "Expected '{' after 'if'"@,
        ),
        i,
        ts,
    ) {
        Parsed::No(e, at) => Parsed::No(e, at),
        Parsed::Yes(cond, j) => {
            match p_stmts(ts, j, Seq::empty()) {
                Parsed::No(e, at) => Parsed::No(e, at),
                Parsed::Yes(then_branch, k) => {
                    match ahead(
                        expect(ts, k, TokenKind::RightBrace, "Expected '}' after 'if'"@),
                        j,
                        ts,
                    ) {
                        Parsed::No(e, at) => Parsed::No(e, at),
                        Parsed::Yes(_c, m) => {
                            if at(ts, m, TokenKind::Else) {
                                match p_else(ts, m + 1) {
                                    Parsed::No(e, at) => Parsed::No(e, at),
                                    Parsed::Yes(other, n) => {
                                        Parsed::Yes(
                                            StmtV::If { cond, then_branch, else_branch: Some(other) },
                                            n,
                                        )
                                    }
                                }
                            } else {
                                Parsed::Yes(StmtV::If { cond, then_branch, else_branch: None }, m)
                            }
                        }
                    }
                }
            }
        }
    }
}

/// What follows `else`: another `if`, or statements in braces.
pub open spec fn p_else(ts: Seq<TokenV>, i: int) -> Parsed<Seq<StmtV>>
    decreases ts.len() - i, 1int,
{
    if at(ts, i, TokenKind::If) {
        match p_if(ts, i) {
            Parsed::No(e, at) => Parsed::No(e, at),
            Parsed::Yes(inner, j) => {
                Parsed::Yes(seq![inner], j)
            }
        }
    } else {
        match expect(ts, i, TokenKind::LeftBrace, "Expected '{' after 'else'"@) {
            Parsed::No(e, at) => Parsed::No(e, at),
            Parsed::Yes(_d, j) => {
                match p_stmts(ts, j, Seq::empty()) {
                    Parsed::No(e, at) => Parsed::No(e, at),
                    Parsed::Yes(other, k) => {
                        match expect(ts, k, TokenKind::RightBrace, "Expected '}' after 'else'"@) {
                            Parsed::No(e, at) => Parsed::No(e, at),
                            Parsed::Yes(_e, m) => {
                                Parsed::Yes(other, m)
                            }
                        }
                    }
                }
            }
        }
    }
}

/// `while (condition) { ... }`.
pub open spec fn p_while(ts: Seq<TokenV>, i: int) -> Parsed<StmtV>
    decreases ts.len() - i, 0int,
{
    match ahead(
        p_head(
            ts,
            i,
            TokenKind::While,
            "Expected 'while'"@,
            "Expected '(' after 'while'"@,
            "Expected ')' after 'while'"@,
            "Expected '{' after 'while'"@,
        ),
        i,
        ts,
    ) {
        Parsed::No(e, at) => Parsed::No(e, at),
        Parsed::Yes(cond, j) => {
            match p_stmts(ts, j, Seq::empty()) {
                Parsed::No(e, at) => Parsed::No(e, at),
                Parsed::Yes(body, k) => {
                    match expect(ts, k, TokenKind::RightBrace, "Expected '}' after 'while'"@) {
                        Parsed::No(e, at) => Parsed::No(e, at),
                        Parsed::Yes(_c, m) => {
                            Parsed::Yes(StmtV::While { cond, body }, m)
                        }
                    }
                }
            }
        }
    }
}

// Declarations

/// The parameters of a function; commas between them may be left out.
pub open spec fn p_params(ts: Seq<TokenV>, i: int, done: Seq<ParamV>) -> Parsed<Seq<ParamV>>
    decreases ts.len() - i,
{
    if at_end(ts, i) || at(ts, i, TokenKind::RightParen) {
        Parsed::Yes(done, i)
    } else {
        match expect(ts, i, TokenKind::Ident, "Expected parameter name"@) {
            Parsed::No(e, at) => Parsed::No(e, at),
            Parsed::Yes(name, j) => {
                match expect(ts, j, TokenKind::Colon, "Expected ':' after parameter name"@) {
                    Parsed::No(e, at) => Parsed::No(e, at),
                    Parsed::Yes(_c, k) => {
                        match ahead(p_type(ts, k), k, ts) {
                            Parsed::No(e, at) => Parsed::No(e, at),
                            Parsed::Yes(ty, m) => {
                                if at(ts, m, TokenKind::Comma) {
                                    p_params(ts, m + 1, done.push(ParamV { name: name.lexeme, ty }))
                                } else {
                                    p_params(ts, m, done.push(ParamV { name: name.lexeme, ty }))
                                }
                            }
                        }
                    }
                }
            }
        }
    }
}

/// Generic parameters `<T, const N: int>`.
pub open spec fn p_generics(ts: Seq<TokenV>, i: int) -> Parsed<Seq<GenericParamV>> {
    match expect(ts, i, TokenKind::Less, "期望 '<' 开始泛型参数列表"@) {
        Parsed::No(e, at) => Parsed::No(e, at),
        Parsed::Yes(_o, j) => {
            match p_generic_params(ts, j, Seq::empty()) {
                Parsed::No(e, at) => Parsed::No(e, at),
                Parsed::Yes(params, k) => {
                    match expect(ts, k, TokenKind::Greater, "期望 '>' 结束泛型参数列表"@) {
                        Parsed::No(e, at) => Parsed::No(e, at),
                        Parsed::Yes(_c, m) => {
                            Parsed::Yes(params, m)
                        }
                    }
                }
            }
        }
    }
}

/// Generic parameters where a `<` begins them, otherwise none.
pub open spec fn p_opt_generics(ts: Seq<TokenV>, i: int) -> Parsed<Seq<GenericParamV>> {
    if at(ts, i, TokenKind::Less) {
        p_generics(ts, i)
    } else {
        Parsed::Yes(Seq::empty(), i)
    }
}

/// One generic parameter.
pub open spec fn p_generic_param(ts: Seq<TokenV>, i: int) -> Parsed<GenericParamV> {
    if at(ts, i, TokenKind::Const) {
        match expect(ts, i + 1, TokenKind::Ident, "期望泛型参数名"@) {
            Parsed::No(e, at) => Parsed::No(e, at),
            Parsed::Yes(name, j) => {
                match expect(ts, j, TokenKind::Colon, "期望 ':' 后接常量参数类型"@) {
                    Parsed::No(e, at) => Parsed::No(e, at),
                    Parsed::Yes(_c, k) => {
                        match p_type(ts, k) {
                            Parsed::No(e, at) => Parsed::No(e, at),
                            Parsed::Yes(_ty, m) => {
                                Parsed::Yes(
                                    GenericParamV { name: name.lexeme, kind: GenericParamKind::Const },
                                    m,
                                )
                            }
                        }
                    }
                }
            }
        }
    } else {
        match expect(ts, i, TokenKind::Ident, "期望泛型参数名"@) {
            Parsed::No(e, at) => Parsed::No(e, at),
            Parsed::Yes(name, j) => {
                Parsed::Yes(GenericParamV { name: name.lexeme, kind: GenericParamKind::Type }, j)
            }
        }
    }
}

/// Generic parameters, separated by commas.
pub open spec fn p_generic_params(
    ts: Seq<TokenV>,
    i: int,
    done: Seq<GenericParamV>,
) -> Parsed<Seq<GenericParamV>>
    decreases ts.len() - i,
{
    if at(ts, i, TokenKind::Greater) || at_end(ts, i) {
        Parsed::Yes(done, i)
    } else {
        match ahead(p_generic_param(ts, i), i, ts) {
            Parsed::No(e, at) => Parsed::No(e, at),
            Parsed::Yes(param, j) => {
                if at(ts, j, TokenKind::Comma) {
                    p_generic_params(ts, j + 1, done.push(param))
                } else {
                    Parsed::Yes(done.push(param), j)
                }
            }
        }
    }
}

/// The type behind `->`, or the unit type.
pub open spec fn p_return_type(ts: Seq<TokenV>, i: int) -> Parsed<TypeV> {
    if at(ts, i, TokenKind::Arrow) {
        p_type(ts, i + 1)
    } else {
        Parsed::Yes(TypeV::Unit, i)
    }
}

/// A function behind its keyword `fn`.
pub open spec fn p_fn_parts(ts: Seq<TokenV>, i: int) -> Parsed<ImplMethodV> {
    match expect(ts, i, TokenKind::Ident, "Expected function name"@) {
        Parsed::No(e, at) => Parsed::No(e, at),
        Parsed::Yes(name, i1) => {
            match p_opt_generics(ts, i1) {
                Parsed::No(e, at) => Parsed::No(e, at),
                Parsed::Yes(generics, i2) => {
                    match expect(
                        ts,
                        i2,
                        TokenKind::LeftParen,
                        "Expected '(' after function name"@,
                    ) {
                        Parsed::No(e, at) => Parsed::No(e, at),
                        Parsed::Yes(_p, i3) => {
                            match p_params(ts, i3, Seq::empty()) {
                                Parsed::No(e, at) => Parsed::No(e, at),
                                Parsed::Yes(params, i4) => {
                                    match expect(
                                        ts,
                                        i4,
                                        TokenKind::RightParen,
                                        "Expected ')' after parameters"@,
                                    ) {
                                        Parsed::No(e, at) => Parsed::No(e, at),
                                        Parsed::Yes(_q, i5) => {
                                            match p_return_type(ts, i5) {
                                                Parsed::No(e, at) => Parsed::No(e, at),
                                                Parsed::Yes(return_ty, i6) => {
                                                    match expect(
                                                        ts,
                                                        i6,
                                                        TokenKind::LeftBrace,
                                                        "Expected '{' before function body"@,
                                                    ) {
                                                        Parsed::No(e, at) => Parsed::No(e, at),
                                                        Parsed::Yes(_b, i7) => {
                                                            match p_stmts(ts, i7, Seq::empty()) {
                                                                Parsed::No(
                                                                    e,
                                                                    at,
                                                                ) => Parsed::No(e, at),
                                                                Parsed::Yes(body, i8) => {
                                                                    match expect(
                                                                        ts,
                                                                        i8,
                                                                        TokenKind::RightBrace,
                                                                        "Expected '}' after function body"@,
                                                                    ) {
                                                                        Parsed::No(
                                                                            e,
                                                                            at,
                                                                        ) => Parsed::No(e, at),
                                                                        Parsed::Yes(_c, i9) => {
                                                                            Parsed::Yes(
                                                                                ImplMethodV { name: name.lexeme, generics, params, return_ty, body, is_static: false },
                                                                                i9,
                                                                            )
                                                                        }
                                                                    }
                                                                }
                                                            }
                                                        }
                                                    }
                                                }
                                            }
                                        }
                                    }
                                }
                            }
                        }
                    }
                }
            }
        }
    }
}

/// The methods of an `impl` block; semicolons between them may be left out.
pub open spec fn p_methods(
    ts: Seq<TokenV>,
    i: int,
    done: Seq<ImplMethodV>,
) -> Parsed<Seq<ImplMethodV>>
    decreases ts.len() - i,
{
    if at_end(ts, i) || at(ts, i, TokenKind::RightBrace) {
        Parsed::Yes(done, i)
    } else {
        match expect(ts, i, TokenKind::Fn, "Expected 'fn' inside impl block"@) {
            Parsed::No(e, at) => Parsed::No(e, at),
            Parsed::Yes(_f, j) => {
                match ahead(p_fn_parts(ts, j), j, ts) {
                    Parsed::No(e, at) => Parsed::No(e, at),
                    Parsed::Yes(method, k) => {
                        if at(ts, k, TokenKind::Semicolon) {
                            p_methods(ts, k + 1, done.push(method))
                        } else {
                            p_methods(ts, k, done.push(method))
                        }
                    }
                }
            }
        }
    }
}

/// The body of a trait method: `;`, or a default in braces.
pub open spec fn p_default_body(ts: Seq<TokenV>, i: int) -> Parsed<Option<Seq<StmtV>>> {
    if at(ts, i, TokenKind::LeftBrace) {
        match p_stmts(ts, i + 1, Seq::empty()) {
            Parsed::No(e, at) => Parsed::No(e, at),
            Parsed::Yes(body, j) => {
                match expect(ts, j, TokenKind::RightBrace, "Expected '}' after default body"@) {
                    Parsed::No(e, at) => Parsed::No(e, at),
                    Parsed::Yes(_c, k) => {
                        Parsed::Yes(Some(body), k)
                    }
                }
            }
        }
    } else {
        match expect(ts, i, TokenKind::Semicolon, "Expected ';' (必填方法) 或 '{' (默认实现)"@) {
            Parsed::No(e, at) => Parsed::No(e, at),
            Parsed::Yes(_s, j) => {
                Parsed::Yes(None, j)
            }
        }
    }
}

/// One method of a trait.
pub open spec fn p_trait_method(ts: Seq<TokenV>, i: int) -> Parsed<TraitMethodV> {
    match expect(ts, i, TokenKind::Fn, "Expected 'fn' inside trait block"@) {
        Parsed::No(e, at) => Parsed::No(e, at),
        Parsed::Yes(_f, i1) => {
            match expect(ts, i1, TokenKind::Ident, "Expected trait method name"@) {
                Parsed::No(e, at) => Parsed::No(e, at),
                Parsed::Yes(name, i2) => {
                    match p_opt_generics(ts, i2) {
                        Parsed::No(e, at) => Parsed::No(e, at),
                        Parsed::Yes(generics, i3) => {
                            match expect(
                                ts,
                                i3,
                                TokenKind::LeftParen,
                                "Expected '(' after trait method name"@,
                            ) {
                                Parsed::No(e, at) => Parsed::No(e, at),
                                Parsed::Yes(_p, i4) => {
                                    match p_params(ts, i4, Seq::empty()) {
                                        Parsed::No(e, at) => Parsed::No(e, at),
                                        Parsed::Yes(params, i5) => {
                                            match expect(
                                                ts,
                                                i5,
                                                TokenKind::RightParen,
                                                "Expected ')' after trait method parameters"@,
                                            ) {
                                                Parsed::No(e, at) => Parsed::No(e, at),
                                                Parsed::Yes(_q, i6) => {
                                                    match p_return_type(ts, i6) {
                                                        Parsed::No(e, at) => Parsed::No(e, at),
                                                        Parsed::Yes(return_ty, i7) => {
                                                            match p_default_body(ts, i7) {
                                                                Parsed::No(
                                                                    e,
                                                                    at,
                                                                ) => Parsed::No(e, at),
                                                                Parsed::Yes(default_body, i8) => {
                                                                    Parsed::Yes(
                                                                        TraitMethodV { name: name.lexeme, generics, params, return_ty, default_body, is_static: false },
                                                                        i8,
                                                                    )
                                                                }
                                                            }
                                                        }
                                                    }
                                                }
                                            }
                                        }
                                    }
                                }
                            }
                        }
                    }
                }
            }
        }
    }
}

/// The methods of a trait; semicolons between them may be left out.
pub open spec fn p_trait_methods(
    ts: Seq<TokenV>,
    i: int,
    done: Seq<TraitMethodV>,
) -> Parsed<Seq<TraitMethodV>>
    decreases ts.len() - i,
{
    if at_end(ts, i) || at(ts, i, TokenKind::RightBrace) {
        Parsed::Yes(done, i)
    } else {
        match ahead(p_trait_method(ts, i), i, ts) {
            Parsed::No(e, at) => Parsed::No(e, at),
            Parsed::Yes(method, j) => {
                if at(ts, j, TokenKind::Semicolon) {
                    p_trait_methods(ts, j + 1, done.push(method))
                } else {
                    p_trait_methods(ts, j, done.push(method))
                }
            }
        }
    }
}

/// `name: type`.
pub open spec fn p_field(ts: Seq<TokenV>, i: int) -> Parsed<(Seq<char>, TypeV)> {
    match expect(ts, i, TokenKind::Ident, "Expected field name"@) {
        Parsed::No(e, at) => Parsed::No(e, at),
        Parsed::Yes(name, j) => {
            match expect(ts, j, TokenKind::Colon, "Expected ':' after field name"@) {
                Parsed::No(e, at) => Parsed::No(e, at),
                Parsed::Yes(_c, k) => {
                    match p_type(ts, k) {
                        Parsed::No(e, at) => Parsed::No(e, at),
                        Parsed::Yes(ty, m) => {
                            Parsed::Yes((name.lexeme, ty), m)
                        }
                    }
                }
            }
        }
    }
}

/// The fields of a struct; commas between them may be left out.
pub open spec fn p_fields(
    ts: Seq<TokenV>,
    i: int,
    done: Seq<(Seq<char>, TypeV)>,
) -> Parsed<Seq<(Seq<char>, TypeV)>>
    decreases ts.len() - i,
{
    if at_end(ts, i) || at(ts, i, TokenKind::RightBrace) {
        Parsed::Yes(done, i)
    } else {
        match ahead(p_field(ts, i), i, ts) {
            Parsed::No(e, at) => Parsed::No(e, at),
            Parsed::Yes(field, j) => {
                if at(ts, j, TokenKind::Comma) {
                    p_fields(ts, j + 1, done.push(field))
                } else {
                    p_fields(ts, j, done.push(field))
                }
            }
        }
    }
}

/// The payload fields of an enumeration variant, separated by commas.
pub open spec fn p_payload(
    ts: Seq<TokenV>,
    i: int,
    done: Seq<(Seq<char>, TypeV)>,
) -> Parsed<Seq<(Seq<char>, TypeV)>>
    decreases ts.len() - i,
{
    if at_end(ts, i) || at(ts, i, TokenKind::RightParen) {
        Parsed::Yes(done, i)
    } else {
        match ahead(p_field(ts, i), i, ts) {
            Parsed::No(e, at) => Parsed::No(e, at),
            Parsed::Yes(field, j) => {
                if at(ts, j, TokenKind::Comma) {
                    p_payload(ts, j + 1, done.push(field))
                } else {
                    Parsed::Yes(done.push(field), j)
                }
            }
        }
    }
}

/// One variant of an enumeration.
pub open spec fn p_variant(ts: Seq<TokenV>, i: int) -> Parsed<EnumVariantV> {
    match expect(ts, i, TokenKind::Ident, "Expected variant name"@) {
        Parsed::No(e, at) => Parsed::No(e, at),
        Parsed::Yes(name, j) => {
            if at(ts, j, TokenKind::LeftParen) {
                match p_payload(ts, j + 1, Seq::empty()) {
                    Parsed::No(e, at) => Parsed::No(e, at),
                    Parsed::Yes(fields, k) => {
                        match expect(
                            ts,
                            k,
                            TokenKind::RightParen,
                            "Expected ')' after variant fields"@,
                        ) {
                            Parsed::No(e, at) => Parsed::No(e, at),
                            Parsed::Yes(_c, m) => {
                                Parsed::Yes(EnumVariantV { name: name.lexeme, fields }, m)
                            }
                        }
                    }
                }
            } else {
                Parsed::Yes(EnumVariantV { name: name.lexeme, fields: Seq::empty() }, j)
            }
        }
    }
}

/// The variants of an enumeration, separated by commas.
pub open spec fn p_variants(
    ts: Seq<TokenV>,
    i: int,
    done: Seq<EnumVariantV>,
) -> Parsed<Seq<EnumVariantV>>
    decreases ts.len() - i,
{
    if at_end(ts, i) || at(ts, i, TokenKind::RightBrace) {
        Parsed::Yes(done, i)
    } else {
        match ahead(p_variant(ts, i), i, ts) {
            Parsed::No(e, at) => Parsed::No(e, at),
            Parsed::Yes(variant, j) => {
                if at(ts, j, TokenKind::Comma) {
                    p_variants(ts, j + 1, done.push(variant))
                } else {
                    Parsed::Yes(done.push(variant), j)
                }
            }
        }
    }
}

/// The parameters of a foreign function: types, with or without a name in
/// front, and possibly `...` at the end.
pub open spec fn p_foreign_params(
    ts: Seq<TokenV>,
    i: int,
    done: Seq<TypeV>,
) -> Parsed<(Seq<TypeV>, bool)>
    decreases ts.len() - i,
{
    if at_end(ts, i) || at(ts, i, TokenKind::RightParen) {
        Parsed::Yes((done, false), i)
    } else if at(ts, i, TokenKind::Ellipsis) {
        Parsed::Yes((done, true), if at(ts, i + 1, TokenKind::Comma) { i + 2 } else { i + 1 })
    } else {
        let from = if at(ts, i, TokenKind::Ident) && at_next(ts, i, TokenKind::Colon) { i + 2 } else { i };
        match ahead(p_type(ts, from), from, ts) {
            Parsed::No(e, at) => Parsed::No(e, at),
            Parsed::Yes(ty, j) => {
                if at(ts, j, TokenKind::Comma) {
                    p_foreign_params(ts, j + 1, done.push(ty))
                } else {
                    Parsed::Yes((done.push(ty), false), j)
                }
            }
        }
    }
}

/// `mod name;`.
pub open spec fn p_mod(ts: Seq<TokenV>, i: int, attributes: Seq<MetaV>) -> Parsed<TopLevelDeclV> {
    match expect(ts, i, TokenKind::Mod, "Expected 'mod'"@) {
        Parsed::No(e, at) => Parsed::No(e, at),
        Parsed::Yes(_m, j) => {
            match expect(ts, j, TokenKind::Ident, "Expected module name after 'mod'"@) {
                Parsed::No(e, at) => Parsed::No(e, at),
                Parsed::Yes(name, k) => {
                    match expect(
                        ts,
                        k,
                        TokenKind::Semicolon,
                        "Expected ';' after mod declaration"@,
                    ) {
                        Parsed::No(e, at) => Parsed::No(e, at),
                        Parsed::Yes(_s, m) => {
                            Parsed::Yes(TopLevelDeclV::ModDecl { attributes, name: name.lexeme }, m)
                        }
                    }
                }
            }
        }
    }
}

/// `use path;`.
pub open spec fn p_use(ts: Seq<TokenV>, i: int, attributes: Seq<MetaV>) -> Parsed<TopLevelDeclV> {
    match expect(ts, i, TokenKind::Use, "Expected 'use'"@) {
        Parsed::No(e, at) => Parsed::No(e, at),
        Parsed::Yes(_u, j) => {
            match p_path(ts, j) {
                Parsed::No(e, at) => Parsed::No(e, at),
                Parsed::Yes(path, k) => {
                    match expect(
                        ts,
                        k,
                        TokenKind::Semicolon,
                        "Expected ';' after use declaration"@,
                    ) {
                        Parsed::No(e, at) => Parsed::No(e, at),
                        Parsed::Yes(_s, m) => {
                            Parsed::Yes(TopLevelDeclV::UseDecl { attributes, path }, m)
                        }
                    }
                }
            }
        }
    }
}

/// `extern crate name;`.
pub open spec fn p_extern_crate(
    ts: Seq<TokenV>,
    i: int,
    attributes: Seq<MetaV>,
) -> Parsed<TopLevelDeclV> {
    match expect(ts, i, TokenKind::Extern, "Expected 'extern'"@) {
        Parsed::No(e, at) => Parsed::No(e, at),
        Parsed::Yes(_x, j) => {
            match expect(ts, j, TokenKind::Crate, "Expected 'crate' after 'extern'"@) {
                Parsed::No(e, at) => Parsed::No(e, at),
                Parsed::Yes(_c, k) => {
                    match expect(
                        ts,
                        k,
                        TokenKind::Ident,
                        "Expected crate name after 'extern crate'"@,
                    ) {
                        Parsed::No(e, at) => Parsed::No(e, at),
                        Parsed::Yes(name, m) => {
                            match expect(
                                ts,
                                m,
                                TokenKind::Semicolon,
                                "Expected ';' after extern crate declaration"@,
                            ) {
                                Parsed::No(e, at) => Parsed::No(e, at),
                                Parsed::Yes(_s, n) => {
                                    Parsed::Yes(
                                        TopLevelDeclV::ExternCrate { attributes, name: name.lexeme },
                                        n,
                                    )
                                }
                            }
                        }
                    }
                }
            }
        }
    }
}

/// `extern fn name(types) -> type;`.
pub open spec fn p_extern_fn(
    ts: Seq<TokenV>,
    i: int,
    attributes: Seq<MetaV>,
) -> Parsed<TopLevelDeclV> {
    match expect(ts, i, TokenKind::Extern, "Expected 'extern'"@) {
        Parsed::No(e, at) => Parsed::No(e, at),
        Parsed::Yes(_x, i1) => {
            match expect(ts, i1, TokenKind::Fn, "Expected 'fn' after 'extern'"@) {
                Parsed::No(e, at) => Parsed::No(e, at),
                Parsed::Yes(_f, i2) => {
                    match expect(
                        ts,
                        i2,
                        TokenKind::Ident,
                        "Expected function name after 'extern fn'"@,
                    ) {
                        Parsed::No(e, at) => Parsed::No(e, at),
                        Parsed::Yes(name, i3) => {
                            match expect(
                                ts,
                                i3,
                                TokenKind::LeftParen,
                                "Expected '(' after extern function name"@,
                            ) {
                                Parsed::No(e, at) => Parsed::No(e, at),
                                Parsed::Yes(_p, i4) => {
                                    match p_foreign_params(ts, i4, Seq::empty()) {
                                        Parsed::No(e, at) => Parsed::No(e, at),
                                        Parsed::Yes(params, i5) => {
                                            match expect(
                                                ts,
                                                i5,
                                                TokenKind::RightParen,
                                                "Expected ')' after extern function parameters"@,
                                            ) {
                                                Parsed::No(e, at) => Parsed::No(e, at),
                                                Parsed::Yes(_q, i6) => {
                                                    match p_return_type(ts, i6) {
                                                        Parsed::No(e, at) => Parsed::No(e, at),
                                                        Parsed::Yes(return_ty, i7) => {
                                                            match expect(
                                                                ts,
                                                                i7,
                                                                TokenKind::Semicolon,
                                                                "Expected ';' after extern function declaration"@,
                                                            ) {
                                                                Parsed::No(
                                                                    e,
                                                                    at,
                                                                ) => Parsed::No(e, at),
                                                                Parsed::Yes(_s, i8) => {
                                                                    Parsed::Yes(
                                                                        TopLevelDeclV::ExternFnDef { attributes, name: name.lexeme, param_types: params.0, return_ty, is_variadic: params.1 },
                                                                        i8,
                                                                    )
                                                                }
                                                            }
                                                        }
                                                    }
                                                }
                                            }
                                        }
                                    }
                                }
                            }
                        }
                    }
                }
            }
        }
    }
}

/// A function definition.
pub open spec fn p_fn(ts: Seq<TokenV>, i: int, attributes: Seq<MetaV>) -> Parsed<TopLevelDeclV> {
    match expect(ts, i, TokenKind::Fn, "Expected 'fn'"@) {
        Parsed::No(e, at) => Parsed::No(e, at),
        Parsed::Yes(_f, j) => {
            match p_fn_parts(ts, j) {
                Parsed::No(e, at) => Parsed::No(e, at),
                Parsed::Yes(f, k) => {
                    Parsed::Yes(
                        TopLevelDeclV::FnDef { attributes, name: f.name, generics: f.generics, params: f.params, return_ty: f.return_ty, body: f.body },
                        k,
                    )
                }
            }
        }
    }
}

/// A struct definition.
pub open spec fn p_struct(
    ts: Seq<TokenV>,
    i: int,
    attributes: Seq<MetaV>,
) -> Parsed<TopLevelDeclV> {
    match expect(ts, i, TokenKind::Struct, "Expected 'struct'"@) {
        Parsed::No(e, at) => Parsed::No(e, at),
        Parsed::Yes(_t, i1) => {
            match expect(ts, i1, TokenKind::Ident, "Expected struct name"@) {
                Parsed::No(e, at) => Parsed::No(e, at),
                Parsed::Yes(name, i2) => {
                    match p_opt_generics(ts, i2) {
                        Parsed::No(e, at) => Parsed::No(e, at),
                        Parsed::Yes(generics, i3) => {
                            match expect(
                                ts,
                                i3,
                                TokenKind::LeftBrace,
                                "Expected '{' after struct name"@,
                            ) {
                                Parsed::No(e, at) => Parsed::No(e, at),
                                Parsed::Yes(_b, i4) => {
                                    match p_fields(ts, i4, Seq::empty()) {
                                        Parsed::No(e, at) => Parsed::No(e, at),
                                        Parsed::Yes(fields, i5) => {
                                            match expect(
                                                ts,
                                                i5,
                                                TokenKind::RightBrace,
                                                "Expected '}' after struct fields"@,
                                            ) {
                                                Parsed::No(e, at) => Parsed::No(e, at),
                                                Parsed::Yes(_c, i6) => {
                                                    Parsed::Yes(
                                                        TopLevelDeclV::StructDef { attributes, name: name.lexeme, generics, fields },
                                                        i6,
                                                    )
                                                }
                                            }
                                        }
                                    }
                                }
                            }
                        }
                    }
                }
            }
        }
    }
}

/// An enumeration definition.
pub open spec fn p_enum(ts: Seq<TokenV>, i: int, attributes: Seq<MetaV>) -> Parsed<TopLevelDeclV> {
    match expect(ts, i, TokenKind::Enum, "Expected 'enum'"@) {
        Parsed::No(e, at) => Parsed::No(e, at),
        Parsed::Yes(_t, i1) => {
            match expect(ts, i1, TokenKind::Ident, "Expected enum name"@) {
                Parsed::No(e, at) => Parsed::No(e, at),
                Parsed::Yes(name, i2) => {
                    match p_opt_generics(ts, i2) {
                        Parsed::No(e, at) => Parsed::No(e, at),
                        Parsed::Yes(generics, i3) => {
                            match expect(
                                ts,
                                i3,
                                TokenKind::LeftBrace,
                                "Expected '{' after enum name"@,
                            ) {
                                Parsed::No(e, at) => Parsed::No(e, at),
                                Parsed::Yes(_b, i4) => {
                                    match p_variants(ts, i4, Seq::empty()) {
                                        Parsed::No(e, at) => Parsed::No(e, at),
                                        Parsed::Yes(variants, i5) => {
                                            match expect(
                                                ts,
                                                i5,
                                                TokenKind::RightBrace,
                                                "Expected '}' after enum variants"@,
                                            ) {
                                                Parsed::No(e, at) => Parsed::No(e, at),
                                                Parsed::Yes(_c, i6) => {
                                                    Parsed::Yes(
                                                        TopLevelDeclV::Enum { attributes, name: name.lexeme, generics, variants },
                                                        i6,
                                                    )
                                                }
                                            }
                                        }
                                    }
                                }
                            }
                        }
                    }
                }
            }
        }
    }
}

/// The head of an `impl` block: `Type`, or `Trait for Type`.
pub open spec fn p_impl_head(ts: Seq<TokenV>, i: int) -> Parsed<(Option<PathV>, TypeV)> {
    match p_type(ts, i) {
        Parsed::No(e, at) => Parsed::No(e, at),
        Parsed::Yes(first, j) => {
            if at(ts, j, TokenKind::For) {
                match first {
                    TypeV::Named(path) => {
                        match p_type(ts, j + 1) {
                            Parsed::No(e, at) => Parsed::No(e, at),
                            Parsed::Yes(ty, k) => {
                                Parsed::Yes((Some(path), ty), k)
                            }
                        }
                    },
                    _ => Parsed::No(syntax("impl <trait> for <type> 中的 trait 名必须是路径"@), j + 1),
                }
            } else {
                Parsed::Yes((None, first), j)
            }
        }
    }
}

/// An `impl` block.
pub open spec fn p_impl(ts: Seq<TokenV>, i: int, attributes: Seq<MetaV>) -> Parsed<TopLevelDeclV> {
    match expect(ts, i, TokenKind::Impl, "Expected 'impl'"@) {
        Parsed::No(e, at) => Parsed::No(e, at),
        Parsed::Yes(_t, i1) => {
            match p_opt_generics(ts, i1) {
                Parsed::No(e, at) => Parsed::No(e, at),
                Parsed::Yes(generics, i2) => {
                    match p_impl_head(ts, i2) {
                        Parsed::No(e, at) => Parsed::No(e, at),
                        Parsed::Yes(head, i3) => {
                            match expect(
                                ts,
                                i3,
                                TokenKind::LeftBrace,
                                "Expected '{' after impl type"@,
                            ) {
                                Parsed::No(e, at) => Parsed::No(e, at),
                                Parsed::Yes(_b, i4) => {
                                    match p_methods(ts, i4, Seq::empty()) {
                                        Parsed::No(e, at) => Parsed::No(e, at),
                                        Parsed::Yes(methods, i5) => {
                                            match expect(
                                                ts,
                                                i5,
                                                TokenKind::RightBrace,
                                                "Expected '}' after impl block"@,
                                            ) {
                                                Parsed::No(e, at) => Parsed::No(e, at),
                                                Parsed::Yes(_c, i6) => {
                                                    Parsed::Yes(
                                                        TopLevelDeclV::Impl { attributes, generics, trrait: head.0, ty: head.1, methods },
                                                        i6,
                                                    )
                                                }
                                            }
                                        }
                                    }
                                }
                            }
                        }
                    }
                }
            }
        }
    }
}

/// A trait declaration.
pub open spec fn p_trait(ts: Seq<TokenV>, i: int, attributes: Seq<MetaV>) -> Parsed<TopLevelDeclV> {
    match expect(ts, i, TokenKind::Trait, "Expected 'trait'"@) {
        Parsed::No(e, at) => Parsed::No(e, at),
        Parsed::Yes(_t, i1) => {
            match expect(ts, i1, TokenKind::Ident, "Expected trait name"@) {
                Parsed::No(e, at) => Parsed::No(e, at),
                Parsed::Yes(name, i2) => {
                    match p_opt_generics(ts, i2) {
                        Parsed::No(e, at) => Parsed::No(e, at),
                        Parsed::Yes(generics, i3) => {
                            match expect(
                                ts,
                                i3,
                                TokenKind::LeftBrace,
                                "Expected '{' after trait name"@,
                            ) {
                                Parsed::No(e, at) => Parsed::No(e, at),
                                Parsed::Yes(_b, i4) => {
                                    match p_trait_methods(ts, i4, Seq::empty()) {
                                        Parsed::No(e, at) => Parsed::No(e, at),
                                        Parsed::Yes(methods, i5) => {
                                            match expect(
                                                ts,
                                                i5,
                                                TokenKind::RightBrace,
                                                "Expected '}' after trait block"@,
                                            ) {
                                                Parsed::No(e, at) => Parsed::No(e, at),
                                                Parsed::Yes(_c, i6) => {
                                                    Parsed::Yes(
                                                        TopLevelDeclV::Trait { attributes, name: name.lexeme, generics, methods },
                                                        i6,
                                                    )
                                                }
                                            }
                                        }
                                    }
                                }
                            }
                        }
                    }
                }
            }
        }
    }
}

/// `static name: type = value;` or `const name: type = value;`.
pub open spec fn p_global(
    ts: Seq<TokenV>,
    i: int,
    is_const: bool,
    attributes: Seq<MetaV>,
) -> Parsed<TopLevelDeclV> {
    match p_binding(ts, i + 1, true) {
        Parsed::No(e, at) => Parsed::No(e, at),
        Parsed::Yes(b, j) => {
            if is_const {
                Parsed::Yes(
                    TopLevelDeclV::Const { attributes, name: b.0, ty: b.1->0, init: b.2 },
                    j,
                )
            } else {
                Parsed::Yes(
                    TopLevelDeclV::Static { attributes, name: b.0, ty: b.1->0, init: b.2 },
                    j,
                )
            }
        }
    }
}

/// A top-level declaration, chosen by its first keyword.
pub open spec fn p_decl(ts: Seq<TokenV>, i: int) -> Parsed<TopLevelDeclV> {
    match p_attributes(ts, i, Seq::empty()) {
        Parsed::No(e, at) => Parsed::No(e, at),
        Parsed::Yes(attributes, j) => {
            if at(ts, j, TokenKind::Mod) {
                p_mod(ts, j, attributes)
            } else if at(ts, j, TokenKind::Use) {
                p_use(ts, j, attributes)
            } else if at(ts, j, TokenKind::Extern) {
                if at_next(ts, j, TokenKind::Crate) {
                    p_extern_crate(ts, j, attributes)
                } else {
                    p_extern_fn(ts, j, attributes)
                }
            } else if at(ts, j, TokenKind::Fn) {
                p_fn(ts, j, attributes)
            } else if at(ts, j, TokenKind::Struct) {
                p_struct(ts, j, attributes)
            } else if at(ts, j, TokenKind::Enum) {
                p_enum(ts, j, attributes)
            } else if at(ts, j, TokenKind::Impl) {
                p_impl(ts, j, attributes)
            } else if at(ts, j, TokenKind::Trait) {
                p_trait(ts, j, attributes)
            } else if at(ts, j, TokenKind::Static) {
                p_global(ts, j, false, attributes)
            } else if at(ts, j, TokenKind::Const) {
                p_global(ts, j, true, attributes)
            } else if j < ts.len() {
                Parsed::No(no_decl(ts[j]), j)
            } else {
                Parsed::No(no_token(ts, j), j)
            }
        }
    }
}

/// The declarations of a source file.
pub open spec fn p_decls(
    ts: Seq<TokenV>,
    i: int,
    done: Seq<TopLevelDeclV>,
) -> Parsed<Seq<TopLevelDeclV>>
    decreases ts.len() - i,
{
    if at_end(ts, i) {
        Parsed::Yes(done, i)
    } else {
        match ahead(p_decl(ts, i), i, ts) {
            Parsed::No(e, at) => Parsed::No(e, at),
            Parsed::Yes(decl, j) => {
                p_decls(ts, j, done.push(decl))
            }
        }
    }
}

/// A whole source file.
pub open spec fn p_program(ts: Seq<TokenV>, i: int) -> Parsed<CompilationUnitV> {
    match p_decls(ts, i, Seq::empty()) {
        Parsed::No(e, at) => Parsed::No(e, at),
        Parsed::Yes(declarations, j) => {
            Parsed::Yes(CompilationUnitV { declarations }, j)
        }
    }
}

} // verus!

