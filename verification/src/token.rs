//! Tokens.

use vstd::prelude::*;

verus! {

/// A token with its place in the source.
#[derive(Debug, PartialEq, Eq)]
pub struct Token {
    pub line: usize,
    pub column: usize,
    /// The length of the lexeme in bytes of UTF-8.
    pub span_len: usize,
    pub lexeme: String,
    pub kind: TokenKind,
}

/// Model of [`Token`].
#[verifier::ext_equal]
pub struct TokenV {
    pub line: usize,
    pub column: usize,
    pub span_len: usize,
    pub lexeme: Seq<char>,
    pub kind: TokenKind,
}

impl DeepView for Token {
    type V = TokenV;

    open spec fn deep_view(&self) -> TokenV {
        TokenV {
            line: self.line,
            column: self.column,
            span_len: self.span_len,
            lexeme: self.lexeme@,
            kind: self.kind,
        }
    }
}

impl Clone for Token {
    fn clone(&self) -> (r: Self)
        ensures
            r.deep_view() == self.deep_view(),
    {
        Token {
            line: self.line,
            column: self.column,
            span_len: self.span_len,
            lexeme: self.lexeme.clone(),
            kind: self.kind,
        }
    }
}

impl Token {
    /// A token of the given parts.
    pub fn new(
        line: usize,
        column: usize,
        span_len: usize,
        lexeme: String,
        kind: TokenKind,
    ) -> (r: Self)
        ensures
            r == (Token { line, column, span_len, lexeme, kind }),
    {
        Self { line, column, span_len, lexeme, kind }
    }
}

/// The kind of a token.
#[derive(Debug, Clone, Copy, PartialEq, Eq, Hash, Structural)]
pub enum TokenKind {
    // Arithmetic
    Plus,
    Minus,
    Star,
    Slash,
    // Address-of
    Amp,
    // Delimiters
    Semicolon,
    Comma,
    Colon,
    Dot,
    LeftParen,
    RightParen,
    LeftBrace,
    RightBrace,
    LeftBracket,
    RightBracket,
    /// `#`, which begins an annotation `#[...]`.
    Hash,
    Arrow,
    Ellipsis,
    ColonColon,
    // Assignment and comparison
    Assign,
    Equal,
    NotEqual,
    Less,
    Greater,
    LessEqual,
    GreaterEqual,
    Not,
    // Literals
    IntLiteral,
    StringLiteral,
    // Keywords
    Let,
    Static,
    Const,
    Struct,
    Enum,
    Fn,
    Return,
    If,
    Else,
    For,
    While,
    Extern,
    Mod,
    Use,
    Crate,
    Impl,
    Trait,
    // Identifier
    Ident,
    // End of file
    Eof,
}

impl DeepView for TokenKind {
    type V = TokenKind;

    open spec fn deep_view(&self) -> TokenKind {
        *self
    }
}

/// The name of a token kind, as it appears in messages.
pub open spec fn kind_name(k: TokenKind) -> Seq<char> {
    match k {
        TokenKind::Plus => "Plus"@,
        TokenKind::Minus => "Minus"@,
        TokenKind::Star => "Star"@,
        TokenKind::Slash => "Slash"@,
        TokenKind::Amp => "Amp"@,
        TokenKind::Semicolon => "Semicolon"@,
        TokenKind::Comma => "Comma"@,
        TokenKind::Colon => "Colon"@,
        TokenKind::Dot => "Dot"@,
        TokenKind::LeftParen => "LeftParen"@,
        TokenKind::RightParen => "RightParen"@,
        TokenKind::LeftBrace => "LeftBrace"@,
        TokenKind::RightBrace => "RightBrace"@,
        TokenKind::LeftBracket => "LeftBracket"@,
        TokenKind::RightBracket => "RightBracket"@,
        TokenKind::Hash => "Hash"@,
        TokenKind::Arrow => "Arrow"@,
        TokenKind::Ellipsis => "Ellipsis"@,
        TokenKind::ColonColon => "ColonColon"@,
        TokenKind::Assign => "Assign"@,
        TokenKind::Equal => "Equal"@,
        TokenKind::NotEqual => "NotEqual"@,
        TokenKind::Less => "Less"@,
        TokenKind::Greater => "Greater"@,
        TokenKind::LessEqual => "LessEqual"@,
        TokenKind::GreaterEqual => "GreaterEqual"@,
        TokenKind::Not => "Not"@,
        TokenKind::IntLiteral => "IntLiteral"@,
        TokenKind::StringLiteral => "StringLiteral"@,
        TokenKind::Let => "Let"@,
        TokenKind::Static => "Static"@,
        TokenKind::Const => "Const"@,
        TokenKind::Struct => "Struct"@,
        TokenKind::Enum => "Enum"@,
        TokenKind::Fn => "Fn"@,
        TokenKind::Return => "Return"@,
        TokenKind::If => "If"@,
        TokenKind::Else => "Else"@,
        TokenKind::For => "For"@,
        TokenKind::While => "While"@,
        TokenKind::Extern => "Extern"@,
        TokenKind::Mod => "Mod"@,
        TokenKind::Use => "Use"@,
        TokenKind::Crate => "Crate"@,
        TokenKind::Impl => "Impl"@,
        TokenKind::Trait => "Trait"@,
        TokenKind::Ident => "Ident"@,
        TokenKind::Eof => "Eof"@,
    }
}

impl TokenKind {
    /// The name of the kind.
    pub fn name(self) -> (r: &'static str)
        ensures
            r@ == kind_name(self),
    {
        match self {
            TokenKind::Plus => "Plus",
            TokenKind::Minus => "Minus",
            TokenKind::Star => "Star",
            TokenKind::Slash => "Slash",
            TokenKind::Amp => "Amp",
            TokenKind::Semicolon => "Semicolon",
            TokenKind::Comma => "Comma",
            TokenKind::Colon => "Colon",
            TokenKind::Dot => "Dot",
            TokenKind::LeftParen => "LeftParen",
            TokenKind::RightParen => "RightParen",
            TokenKind::LeftBrace => "LeftBrace",
            TokenKind::RightBrace => "RightBrace",
            TokenKind::LeftBracket => "LeftBracket",
            TokenKind::RightBracket => "RightBracket",
            TokenKind::Hash => "Hash",
            TokenKind::Arrow => "Arrow",
            TokenKind::Ellipsis => "Ellipsis",
            TokenKind::ColonColon => "ColonColon",
            TokenKind::Assign => "Assign",
            TokenKind::Equal => "Equal",
            TokenKind::NotEqual => "NotEqual",
            TokenKind::Less => "Less",
            TokenKind::Greater => "Greater",
            TokenKind::LessEqual => "LessEqual",
            TokenKind::GreaterEqual => "GreaterEqual",
            TokenKind::Not => "Not",
            TokenKind::IntLiteral => "IntLiteral",
            TokenKind::StringLiteral => "StringLiteral",
            TokenKind::Let => "Let",
            TokenKind::Static => "Static",
            TokenKind::Const => "Const",
            TokenKind::Struct => "Struct",
            TokenKind::Enum => "Enum",
            TokenKind::Fn => "Fn",
            TokenKind::Return => "Return",
            TokenKind::If => "If",
            TokenKind::Else => "Else",
            TokenKind::For => "For",
            TokenKind::While => "While",
            TokenKind::Extern => "Extern",
            TokenKind::Mod => "Mod",
            TokenKind::Use => "Use",
            TokenKind::Crate => "Crate",
            TokenKind::Impl => "Impl",
            TokenKind::Trait => "Trait",
            TokenKind::Ident => "Ident",
            TokenKind::Eof => "Eof",
        }
    }
}

} // verus!
