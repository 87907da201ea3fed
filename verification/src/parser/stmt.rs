//! Statements.

use crate::ast::{lemma_expr_view, lemma_stmt_view, Expr, Path, Stmt, Type};
use crate::error::MplangError;
use crate::list::{empty_list, list_of, push_item};
use crate::parser::grammar::{
    at, missing_type, p_annotation, p_assign, p_binding, p_else, p_expr_stmt, p_head, p_if, p_lvalue,
    p_lvalue_rest, p_return, p_simple, p_stmt, p_stmts, p_while,
};
use crate::parser::{agrees, Parser};
use crate::text::{cat7, usize_string};
use crate::token::{Token, TokenKind};
use vstd::prelude::*;

verus! {

impl Parser {
    pub(super) fn statements(&mut self) -> (r: Result<Vec<Stmt>, MplangError>)
        requires
            old(self).wf(),
        ensures
            final(self).follows(old(self)),
            agrees(r, p_stmts(old(self).toks(), old(self).pos(), Seq::empty()), final(self).pos()),
        decreases old(self).tokens@.len() - old(self).current, 2int,
    {
        let mut statements: Vec<Stmt> = empty_list();
        let ghost goal = p_stmts(self.toks(), self.pos(), Seq::empty());
        while !self.is_at_end() && !self.check(TokenKind::RightBrace)
            invariant
                self.follows(old(self)),
                goal == p_stmts(old(self).toks(), old(self).pos(), Seq::empty()),
                goal == p_stmts(self.toks(), self.pos(), statements.deep_view()),
            decreases self.tokens@.len() - self.current,
        {
            let s = self.statement()?;
            push_item(&mut statements, s);
        }
        Ok(statements)
    }

    fn statement(&mut self) -> (r: Result<Stmt, MplangError>)
        requires
            old(self).wf(),
        ensures
            final(self).follows(old(self)),
            agrees(r, p_stmt(old(self).toks(), old(self).pos()), final(self).pos()),
            r is Ok ==> old(self).pos() < final(self).pos(),
        decreases old(self).tokens@.len() - old(self).current, 1int,
    {
        if self.check(TokenKind::If) {
            return self.if_stmt();
        }
        if self.check(TokenKind::While) {
            return self.while_stmt();
        }
        self.simple_stmt()
    }

    fn simple_stmt(&mut self) -> (r: Result<Stmt, MplangError>)
        requires
            old(self).wf(),
        ensures
            final(self).follows(old(self)),
            agrees(r, p_simple(old(self).toks(), old(self).pos()), final(self).pos()),
            r is Ok ==> old(self).pos() < final(self).pos(),
    {
        proof {
            reveal(p_simple);
        }
        if self.check(TokenKind::Let) {
            return self.let_stmt();
        }
        if self.check(TokenKind::Static) {
            return self.static_stmt();
        }
        if self.check(TokenKind::Const) {
            return self.const_stmt();
        }
        if self.check(TokenKind::Return) {
            return self.return_stmt();
        }
        if self.check(TokenKind::Ident) || self.check(TokenKind::Star) {
            return self.assignment();
        }
        self.expr_stmt()
    }

    fn assignment(&mut self) -> (r: Result<Stmt, MplangError>)
        requires
            old(self).wf(),
        ensures
            final(self).follows(old(self)),
            agrees(r, p_assign(old(self).toks(), old(self).pos()), final(self).pos()),
            r is Ok ==> old(self).pos() < final(self).pos(),
    {
        proof {
            reveal(p_assign);
        }
        let save: usize = self.current;
        let target = self.parse_lvalue()?;
        if self.check(TokenKind::Assign) {
            self.advance();
            let value = self.expression()?;
            self.consume(TokenKind::Semicolon, "Expected ';' after assignment")?;
            let r = Stmt::Assign { target: Box::new(target), value };
            proof {
                lemma_stmt_view(r);
            }
            return Ok(r);
        }
        self.current = save;
        self.expr_stmt()
    }

    fn expr_stmt(&mut self) -> (r: Result<Stmt, MplangError>)
        requires
            old(self).wf(),
        ensures
            final(self).follows(old(self)),
            agrees(r, p_expr_stmt(old(self).toks(), old(self).pos()), final(self).pos()),
            r is Ok ==> old(self).pos() < final(self).pos(),
    {
        proof {
            reveal(p_expr_stmt);
        }
        let value = self.expression()?;
        self.consume(TokenKind::Semicolon, "Expected ';' after expression statement")?;
        let r = Stmt::Expr(value);
        proof {
            lemma_stmt_view(r);
        }
        Ok(r)
    }

    fn parse_lvalue(&mut self) -> (r: Result<Expr, MplangError>)
        requires
            old(self).wf(),
        ensures
            final(self).follows(old(self)),
            agrees(r, p_lvalue(old(self).toks(), old(self).pos()), final(self).pos()),
            r is Ok ==> old(self).pos() < final(self).pos(),
        decreases old(self).tokens@.len() - old(self).current, 0int,
    {
        if self.check(TokenKind::Star) {
            self.advance();
            let inner = self.parse_lvalue()?;
            let r = Expr::Deref(Box::new(inner));
            proof {
                lemma_expr_view(r);
            }
            return Ok(r);
        }
        let name = self.consume(
            TokenKind::Ident,
            "Expected variable name in assignment target",
        )?;
        let mut target = Expr::Ident(Path::simple(name.lexeme.as_str()));
        proof {
            lemma_expr_view(target);
        }
        let ghost goal = p_lvalue(old(self).toks(), old(self).pos());
        loop
            invariant
                self.follows(old(self)),
                old(self).pos() < self.pos(),
                goal == p_lvalue(old(self).toks(), old(self).pos()),
                goal == p_lvalue_rest(self.toks(), self.pos(), target.deep_view()),
            decreases self.tokens@.len() - self.current,
        {
            if self.check(TokenKind::Dot) {
                self.advance();
                let field = self.consume(TokenKind::Ident, "Expected field name after '.'")?;
                target = Expr::FieldAccess { object: Box::new(target), field: field.lexeme };
                proof {
                    lemma_expr_view(target);
                }
            } else if self.check(TokenKind::LeftBracket) {
                self.advance();
                let index = self.expression()?;
                self.consume(
                    TokenKind::RightBracket,
                    "Expected ']' after array index in assignment target",
                )?;
                target = Expr::Index { array: Box::new(target), index: Box::new(index) };
                proof {
                    lemma_expr_view(target);
                }
            } else {
                return Ok(target);
            }
        }
    }

    fn let_stmt(&mut self) -> (r: Result<Stmt, MplangError>)
        requires
            old(self).wf(),
            at(old(self).toks(), old(self).pos(), TokenKind::Let),
        ensures
            final(self).follows(old(self)),
            agrees(r, p_simple(old(self).toks(), old(self).pos()), final(self).pos()),
            r is Ok ==> old(self).pos() < final(self).pos(),
    {
        proof {
            reveal(p_simple);
        }
        let (name, ty, init) = self.parse_typed_binding(false)?;
        let r = Stmt::Let { name, ty, init };
        proof {
            lemma_stmt_view(r);
        }
        Ok(r)
    }

    fn static_stmt(&mut self) -> (r: Result<Stmt, MplangError>)
        requires
            old(self).wf(),
            at(old(self).toks(), old(self).pos(), TokenKind::Static),
        ensures
            final(self).follows(old(self)),
            agrees(r, p_simple(old(self).toks(), old(self).pos()), final(self).pos()),
            r is Ok ==> old(self).pos() < final(self).pos(),
    {
        proof {
            reveal(p_simple);
        }
        let (name, ty, init) = self.parse_typed_binding(true)?;
        match ty {
            Some(ty) => {
                let r = Stmt::Static { name, ty, init };
                proof {
                    lemma_stmt_view(r);
                }
                Ok(r)
            },
            None => Err(MplangError::other("")),
        }
    }

    fn const_stmt(&mut self) -> (r: Result<Stmt, MplangError>)
        requires
            old(self).wf(),
            at(old(self).toks(), old(self).pos(), TokenKind::Const),
        ensures
            final(self).follows(old(self)),
            agrees(r, p_simple(old(self).toks(), old(self).pos()), final(self).pos()),
            r is Ok ==> old(self).pos() < final(self).pos(),
    {
        proof {
            reveal(p_simple);
        }
        let (name, ty, init) = self.parse_typed_binding(true)?;
        match ty {
            Some(ty) => {
                let r = Stmt::Const { name, ty, init };
                proof {
                    lemma_stmt_view(r);
                }
                Ok(r)
            },
            None => Err(MplangError::other("")),
        }
    }

    fn head(
        &mut self,
        keyword: TokenKind,
        no_keyword: &str,
        no_open: &str,
        no_close: &str,
        no_brace: &str,
    ) -> (r: Result<Expr, MplangError>)
        requires
            old(self).wf(),
        ensures
            final(self).follows(old(self)),
            agrees(
                r,
                p_head(
                    old(self).toks(),
                    old(self).pos(),
                    keyword,
                    no_keyword@,
                    no_open@,
                    no_close@,
                    no_brace@,
                ),
                final(self).pos(),
            ),
            r is Ok ==> old(self).pos() < final(self).pos(),
    {
        proof {
            reveal(p_head);
        }
        self.consume(keyword, no_keyword)?;
        self.consume(TokenKind::LeftParen, no_open)?;
        let cond = self.expression()?;
        self.consume(TokenKind::RightParen, no_close)?;
        self.consume(TokenKind::LeftBrace, no_brace)?;
        Ok(cond)
    }

    fn if_stmt(&mut self) -> (r: Result<Stmt, MplangError>)
        requires
            old(self).wf(),
        ensures
            final(self).follows(old(self)),
            agrees(r, p_if(old(self).toks(), old(self).pos()), final(self).pos()),
            r is Ok ==> old(self).pos() < final(self).pos(),
        decreases old(self).tokens@.len() - old(self).current, 0int,
    {
        let cond = self.head(
            TokenKind::If,
            "Expected 'if'",
            "Expected '(' after 'if'",
            "Expected ')' after 'if'",
            "Expected '{' after 'if'",
        )?;
        let then_branch = self.statements()?;
        self.consume(TokenKind::RightBrace, "Expected '}' after 'if'")?;
        let else_branch = if self.check(TokenKind::Else) {
            self.advance();
            Some(self.else_branch()?)
        } else {
            None
        };
        let r = Stmt::If { cond, then_branch, else_branch };
        proof {
            lemma_stmt_view(r);
        }
        Ok(r)
    }

    fn else_branch(&mut self) -> (r: Result<Vec<Stmt>, MplangError>)
        requires
            old(self).wf(),
        ensures
            final(self).follows(old(self)),
            agrees(r, p_else(old(self).toks(), old(self).pos()), final(self).pos()),
            r is Ok ==> old(self).pos() < final(self).pos(),
        decreases old(self).tokens@.len() - old(self).current, 1int,
    {
        if self.check(TokenKind::If) {
            let inner = self.if_stmt()?;
            return Ok(list_of(inner));
        }
        self.consume(TokenKind::LeftBrace, "Expected '{' after 'else'")?;
        let other = self.statements()?;
        self.consume(TokenKind::RightBrace, "Expected '}' after 'else'")?;
        Ok(other)
    }

    fn while_stmt(&mut self) -> (r: Result<Stmt, MplangError>)
        requires
            old(self).wf(),
        ensures
            final(self).follows(old(self)),
            agrees(r, p_while(old(self).toks(), old(self).pos()), final(self).pos()),
            r is Ok ==> old(self).pos() < final(self).pos(),
        decreases old(self).tokens@.len() - old(self).current, 0int,
    {
        let cond = self.head(
            TokenKind::While,
            "Expected 'while'",
            "Expected '(' after 'while'",
            "Expected ')' after 'while'",
            "Expected '{' after 'while'",
        )?;
        let body = self.statements()?;
        self.consume(TokenKind::RightBrace, "Expected '}' after 'while'")?;
        let r = Stmt::While { cond, body };
        proof {
            lemma_stmt_view(r);
        }
        Ok(r)
    }

    fn return_stmt(&mut self) -> (r: Result<Stmt, MplangError>)
        requires
            old(self).wf(),
        ensures
            final(self).follows(old(self)),
            agrees(r, p_return(old(self).toks(), old(self).pos()), final(self).pos()),
            r is Ok ==> old(self).pos() < final(self).pos(),
    {
        proof {
            reveal(p_return);
        }
        self.consume(TokenKind::Return, "Expected 'return'")?;
        if self.check(TokenKind::Semicolon) {
            self.advance();
            let r = Stmt::Return(None);
            proof {
                lemma_stmt_view(r);
            }
            return Ok(r);
        }
        let value = self.expression()?;
        self.consume(TokenKind::Semicolon, "Expected ';' after return expression")?;
        let r = Stmt::Return(Some(value));
        proof {
            lemma_stmt_view(r);
        }
        Ok(r)
    }

    /// `name: type = value;` behind the keyword at the position.
    pub(super) fn parse_typed_binding(&mut self, require_ty: bool) -> (r: Result<
        (String, Option<Type>, Expr),
        MplangError,
    >)
        requires
            old(self).wf(),
            old(self).current < old(self).tokens@.len(),
        ensures
            final(self).follows(old(self)),
            agrees(
                r,
                p_binding(old(self).toks(), old(self).pos() + 1, require_ty),
                final(self).pos(),
            ),
            r is Ok ==> old(self).pos() < final(self).pos(),
            r matches Ok(b) ==> require_ty ==> b.1 is Some,
    {
        proof {
            reveal(p_binding);
        }
        self.advance();
        let name = self.consume(TokenKind::Ident, "Expected variable name")?;
        let ty = self.type_annotation(require_ty, &name)?;
        self.consume(TokenKind::Assign, "Expected '=' after variable name")?;
        let init = self.expression()?;
        self.consume(TokenKind::Semicolon, "Expected ';' after variable declaration")?;
        Ok((name.lexeme, ty, init))
    }

    fn type_annotation(&mut self, require_ty: bool, name: &Token) -> (r: Result<
        Option<Type>,
        MplangError,
    >)
        requires
            old(self).wf(),
        ensures
            final(self).follows(old(self)),
            agrees(
                r,
                p_annotation(old(self).toks(), old(self).pos(), require_ty, name.deep_view()),
                final(self).pos(),
            ),
            r matches Ok(t) ==> require_ty ==> t is Some,
    {
        proof {
            reveal(p_annotation);
        }
        if self.check(TokenKind::Colon) {
            self.advance();
            let ty = self.parse_type()?;
            Ok(Some(ty))
        } else if require_ty {
            proof {
                reveal(missing_type);
            }
            let line = usize_string(name.line);
            let column = usize_string(name.column);
            let text = cat7(
                "期望类型注解 ': ty'，但 '",
                name.lexeme.as_str(),
                "' 缺少类型（第 ",
                line.as_str(),
                " 行，第 ",
                column.as_str(),
                " 列）",
            );
            Err(MplangError::parse(text.as_str()))
        } else {
            Ok(None)
        }
    }
}

} // verus!
