//! The parser: from tokens to the syntax tree.
//!
//! What each construct of the language is, and which error an ill-formed text
//! gives, is stated in [`grammar`]; the functions here read exactly that.

use crate::ast::{CompilationUnit, Literal, Meta, Path, TopLevelDecl};
use crate::error::MplangError;
use crate::list::{empty_list, list_of, push_item};
use crate::parser::grammar::{
    at, at_end, at_next, expect, no_token, p_attribute, p_attributes, p_decls, p_meta, p_meta_items,
    p_callee, p_callee_segments, p_path, p_program, p_segments, quoted, unexpected, unquoted,
    Parsed,
};
use crate::text::{cat4, cat5, usize_string};
use crate::token::{Token, TokenKind, TokenV};
use vstd::prelude::*;
use vstd::string::*;

pub use crate::parser::expr::unescape_string;

pub mod grammar;
mod decl;
mod expr;
pub mod joined;
pub mod laws;
mod stmt;

verus! {

/// A parser over a sequence of tokens.
pub struct Parser {
    tokens: Vec<Token>,
    current: usize,
}

/// What an executed step returns is what the grammar says, and the parser
/// stands where the grammar stops.
pub open spec fn agrees<T: DeepView>(
    r: Result<T, MplangError>,
    p: Parsed<T::V>,
    position: int,
) -> bool {
    match r {
        Ok(v) => p == Parsed::Yes(v.deep_view(), position),
        Err(e) => p == Parsed::<T::V>::No(e.deep_view(), position),
    }
}

impl Parser {
    /// The tokens.
    pub closed spec fn toks(&self) -> Seq<TokenV> {
        self.tokens.deep_view()
    }

    /// The index of the next token.
    pub closed spec fn pos(&self) -> int {
        self.current as int
    }

    /// The position lies within the tokens.
    pub closed spec fn wf(&self) -> bool {
        self.current <= self.tokens@.len() <= usize::MAX
    }

    /// The parser reads the tokens of `before`, and has not moved backwards.
    pub closed spec fn follows(&self, before: &Parser) -> bool {
        &&& self.wf()
        &&& self.tokens == before.tokens
        &&& before.current <= self.current
    }

    /// A parser at the first of `tokens`.
    pub fn new(tokens: Vec<Token>) -> (r: Parser)
        ensures
            r.wf(),
            r.toks() == tokens.deep_view(),
            r.pos() == 0,
    {
        assert(tokens@.len() == tokens.len());
        Parser { tokens, current: 0 }
    }

    fn is_at_end(&self) -> (r: bool)
        requires
            self.wf(),
        ensures
            r == at_end(self.toks(), self.pos()),
    {
        if self.current >= self.tokens.len() {
            return true;
        }
        self.tokens[self.current].kind == TokenKind::Eof
    }

    fn current(&self) -> (r: &Token)
        requires
            self.current < self.tokens@.len(),
        ensures
            *r == self.tokens@[self.current as int],
            r.deep_view() == self.toks()[self.pos()],
    {
        &self.tokens[self.current]
    }

    fn advance(&mut self)
        requires
            old(self).wf(),
            old(self).current < old(self).tokens@.len(),
        ensures
            final(self).follows(old(self)),
            final(self).current == old(self).current + 1,
    {
        self.current += 1;
    }

    fn check(&self, kind: TokenKind) -> (r: bool)
        requires
            self.wf(),
        ensures
            r == at(self.toks(), self.pos(), kind),
            r ==> self.current < self.tokens@.len(),
    {
        if self.is_at_end() {
            return false;
        }
        self.current().kind == kind
    }

    fn check_next(&self, kind: TokenKind) -> (r: bool)
        requires
            self.wf(),
            self.current < self.tokens@.len(),
        ensures
            r == at_next(self.toks(), self.pos(), kind),
            r ==> self.current + 1 < self.tokens@.len(),
    {
        if self.current + 1 >= self.tokens.len() {
            return false;
        }
        self.tokens[self.current + 1].kind == kind
    }

    /// The error for reading behind the last token.
    fn missing_token(&self) -> (r: MplangError)
        ensures
            r.deep_view() == no_token(self.toks(), self.pos()),
    {
        proof {
            reveal(no_token);
        }
        let len = usize_string(self.tokens.len());
        let index = usize_string(self.current);
        let text = cat4(
            "index out of bounds: the len is ",
            len.as_str(),
            " but the index is ",
            index.as_str(),
        );
        MplangError::other(text.as_str())
    }

    /// The error for finding another token than one of kind `kind`.
    fn mismatch(&self, kind: TokenKind, message: &str) -> (r: MplangError)
        requires
            self.wf(),
        ensures
            r.deep_view() == unexpected(self.toks(), self.pos(), kind, message@),
    {
        proof {
            reveal(unexpected);
        }
        if self.current >= self.tokens.len() {
            return self.missing_token();
        }
        let line = usize_string(self.current().line);
        let column = usize_string(self.current().column);
        let place = cat5(message, "（第 ", line.as_str(), " 行，第 ", column.as_str());
        let text = cat5(
            place.as_str(),
            " 列）：期望 ",
            kind.name(),
            "，实际 ",
            self.current().kind.name(),
        );
        MplangError::parse(text.as_str())
    }

    fn consume(&mut self, kind: TokenKind, message: &str) -> (r: Result<Token, MplangError>)
        requires
            old(self).wf(),
        ensures
            final(self).follows(old(self)),
            agrees(r, expect(old(self).toks(), old(self).pos(), kind, message@), final(self).pos()),
            r is Ok ==> final(self).pos() == old(self).pos() + 1,
    {
        if self.check(kind) {
            let t = self.current().clone();
            self.advance();
            Ok(t)
        } else {
            Err(self.mismatch(kind, message))
        }
    }

    /// The text of a string token without its quotation marks.
    fn inner_text(lexeme: &str) -> (r: Result<String, MplangError>)
        ensures
            match r {
                Ok(s) => quoted(lexeme@) == Some(s@),
                Err(e) => quoted(lexeme@) is None && e.deep_view() == unquoted(),
            },
    {
        let n: usize = lexeme.unicode_len();
        if n >= 2 && (lexeme.get_char(0) as u32) < 128 && (lexeme.get_char(n - 1) as u32) < 128 {
            Ok(lexeme.substring_char(1, n - 1).to_owned())
        } else {
            Err(MplangError::other("string token without quotation marks"))
        }
    }

    fn parse_path(&mut self) -> (r: Result<Path, MplangError>)
        requires
            old(self).wf(),
        ensures
            final(self).follows(old(self)),
            agrees(r, p_path(old(self).toks(), old(self).pos()), final(self).pos()),
            r is Ok ==> old(self).pos() < final(self).pos(),
    {
        let first = self.consume(TokenKind::Ident, "Expected identifier in path")?;
        let mut segments = list_of(first.lexeme);
        let ghost goal = p_path(old(self).toks(), old(self).pos());
        while self.check(TokenKind::ColonColon)
            invariant
                self.follows(old(self)),
                old(self).pos() < self.pos(),
                goal == p_path(old(self).toks(), old(self).pos()),
                goal == p_segments(self.toks(), self.pos(), segments.deep_view()),
            decreases self.tokens@.len() - self.current,
        {
            self.advance();
            let seg = self.consume(TokenKind::Ident, "Expected identifier after '::'")?;
            push_item(&mut segments, seg.lexeme);
        }
        Ok(Path::new(segments))
    }

    fn parse_callee(&mut self) -> (r: Result<Path, MplangError>)
        requires
            old(self).wf(),
        ensures
            final(self).follows(old(self)),
            agrees(r, p_callee(old(self).toks(), old(self).pos()), final(self).pos()),
            r is Ok ==> old(self).pos() < final(self).pos(),
    {
        let first = self.consume(TokenKind::Ident, "Expected identifier in path")?;
        let mut segments = list_of(first.lexeme);
        let ghost goal = p_callee(old(self).toks(), old(self).pos());
        while self.check(TokenKind::ColonColon) && !self.check_next(TokenKind::Less)
            invariant
                self.follows(old(self)),
                old(self).pos() < self.pos(),
                goal == p_callee(old(self).toks(), old(self).pos()),
                goal == p_callee_segments(self.toks(), self.pos(), segments.deep_view()),
            decreases self.tokens@.len() - self.current,
        {
            self.advance();
            let seg = self.consume(TokenKind::Ident, "Expected identifier after '::'")?;
            push_item(&mut segments, seg.lexeme);
        }
        Ok(Path::new(segments))
    }

    fn parse_program(&mut self) -> (r: Result<CompilationUnit, MplangError>)
        requires
            old(self).wf(),
        ensures
            final(self).follows(old(self)),
            agrees(r, p_program(old(self).toks(), old(self).pos()), final(self).pos()),
    {
        let mut declarations: Vec<TopLevelDecl> = empty_list();
        let ghost goal = p_decls(self.toks(), self.pos(), Seq::empty());
        while !self.is_at_end()
            invariant
                self.follows(old(self)),
                goal == p_decls(old(self).toks(), old(self).pos(), Seq::empty()),
                goal == p_decls(self.toks(), self.pos(), declarations.deep_view()),
            decreases self.tokens@.len() - self.current,
        {
            let d = self.top_level_decl()?;
            push_item(&mut declarations, d);
        }
        Ok(CompilationUnit { declarations })
    }

    fn parse_attributes(&mut self) -> (r: Result<Vec<Meta>, MplangError>)
        requires
            old(self).wf(),
        ensures
            final(self).follows(old(self)),
            agrees(
                r,
                p_attributes(old(self).toks(), old(self).pos(), Seq::empty()),
                final(self).pos(),
            ),
    {
        let mut attrs: Vec<Meta> = empty_list();
        let ghost goal = p_attributes(self.toks(), self.pos(), Seq::empty());
        while self.check(TokenKind::Hash)
            invariant
                self.follows(old(self)),
                goal == p_attributes(old(self).toks(), old(self).pos(), Seq::empty()),
                goal == p_attributes(self.toks(), self.pos(), attrs.deep_view()),
            decreases self.tokens@.len() - self.current,
        {
            let a = self.parse_attribute()?;
            push_item(&mut attrs, a);
        }
        Ok(attrs)
    }

    fn parse_attribute(&mut self) -> (r: Result<Meta, MplangError>)
        requires
            old(self).wf(),
        ensures
            final(self).follows(old(self)),
            agrees(r, p_attribute(old(self).toks(), old(self).pos()), final(self).pos()),
            r is Ok ==> old(self).pos() < final(self).pos(),
    {
        self.consume(TokenKind::Hash, "期望 '#' 作为注解起始")?;
        self.consume(TokenKind::LeftBracket, "期望 '['（'#' 后应为 '[' 形成 '#['）")?;
        let meta = self.parse_meta_item()?;
        self.consume(TokenKind::RightBracket, "期望 ']' 闭合注解")?;
        Ok(meta)
    }

    fn parse_meta_item(&mut self) -> (r: Result<Meta, MplangError>)
        requires
            old(self).wf(),
        ensures
            final(self).follows(old(self)),
            agrees(r, p_meta(old(self).toks(), old(self).pos()), final(self).pos()),
            r is Ok ==> old(self).pos() < final(self).pos(),
        decreases old(self).tokens@.len() - old(self).current, 0int,
    {
        let name = self.parse_path()?;
        if self.check(TokenKind::Assign) {
            self.advance();
            let value_tok = self.consume(
                TokenKind::StringLiteral,
                "注解键值对的值目前仅支持字符串字面量（如 #[link_name = \"foo\"]）",
            )?;
            let inner = Self::inner_text(value_tok.lexeme.as_str())?;
            let r = Meta::NameValue { name, value: Literal::String(inner) };
            proof {
                crate::ast::lemma_meta_view(r);
            }
            Ok(r)
        } else if self.check(TokenKind::LeftParen) {
            self.advance();
            let items = self.parse_meta_items()?;
            self.consume(TokenKind::RightParen, "期望 ')' 闭合注解列表")?;
            let r = Meta::List { name, items };
            proof {
                crate::ast::lemma_meta_view(r);
            }
            Ok(r)
        } else {
            let r = Meta::Path(name);
            proof {
                crate::ast::lemma_meta_view(r);
            }
            Ok(r)
        }
    }

    fn parse_meta_items(&mut self) -> (r: Result<Vec<Meta>, MplangError>)
        requires
            old(self).wf(),
        ensures
            final(self).follows(old(self)),
            agrees(
                r,
                p_meta_items(old(self).toks(), old(self).pos(), Seq::empty()),
                final(self).pos(),
            ),
        decreases old(self).tokens@.len() - old(self).current, 1int,
    {
        let mut items: Vec<Meta> = empty_list();
        let ghost goal = p_meta_items(self.toks(), self.pos(), Seq::empty());
        while !self.check(TokenKind::RightParen) && !self.is_at_end()
            invariant
                self.follows(old(self)),
                goal == p_meta_items(old(self).toks(), old(self).pos(), Seq::empty()),
                goal == p_meta_items(self.toks(), self.pos(), items.deep_view()),
            decreases self.tokens@.len() - self.current,
        {
            let item = self.parse_meta_item()?;
            push_item(&mut items, item);
            if self.check(TokenKind::Comma) {
                self.advance();
            } else {
                return Ok(items);
            }
        }
        Ok(items)
    }

    /// Reads a whole source file. An ill-formed text gives the error that the
    /// grammar names, with nothing else read.
    pub fn parse(&mut self) -> (r: Result<CompilationUnit, MplangError>)
        requires
            old(self).wf(),
        ensures
            final(self).wf(),
            final(self).toks() == old(self).toks(),
            agrees(r, p_program(old(self).toks(), old(self).pos()), final(self).pos()),
    {
        self.parse_program()
    }
}

} // verus!
