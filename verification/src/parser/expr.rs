//! Types and expressions.

use crate::ast::{
    lemma_expr_view, lemma_type_or_const_view, lemma_type_view, ArrayLen, BinOp, Expr, ExprV,
    Literal, Path, Type, TypeOrConst,
};
use crate::error::MplangError;
use crate::list::{empty_list, list_of, push_item};
use crate::parser::grammar::{
    additive_op, bad_integer, bad_length, comparison_op, hex_byte, hex_digit, multiplicative_op,
    no_operand, p_args, p_array_len, p_array_literal, p_comparisons, p_elements, p_expr,
    p_field_inits, p_generic_arg, p_generic_args, p_generic_list, p_operand, p_postfix, p_product,
    p_products, p_sum, p_sums, p_turbofish, p_type, p_unary, unescaped,
};
use crate::parser::{agrees, Parser};
use crate::text::{
    cat2, cat5, cat7, char_string, chars_of, parse_i64, parse_usize, same_text, slice_string,
    usize_string,
};
use crate::token::{Token, TokenKind};
use vstd::prelude::*;

verus! {

impl Parser {
    pub(super) fn parse_type(&mut self) -> (r: Result<Type, MplangError>)
        requires
            old(self).wf(),
        ensures
            final(self).follows(old(self)),
            agrees(r, p_type(old(self).toks(), old(self).pos()), final(self).pos()),
            r is Ok ==> old(self).pos() < final(self).pos(),
        decreases old(self).tokens@.len() - old(self).current, 0int,
    {
        if self.check(TokenKind::Star) {
            self.advance();
            let inner = self.parse_type()?;
            let r = Type::Pointer(Box::new(inner));
            proof {
                lemma_type_view(r);
            }
            return Ok(r);
        }
        if self.check(TokenKind::LeftBracket) {
            self.advance();
            let elem = self.parse_type()?;
            self.consume(TokenKind::Semicolon, "数组类型期望形如 [T; N]，但缺少 ';'")?;
            let len = self.parse_array_len()?;
            self.consume(TokenKind::RightBracket, "数组类型 [T; N] 缺少结尾的 ']'")?;
            let r = Type::Array(Box::new(elem), len);
            proof {
                lemma_type_view(r);
            }
            return Ok(r);
        }
        proof {
            lemma_type_view(Type::Int);
            lemma_type_view(Type::Char);
            lemma_type_view(Type::Unit);
        }
        if self.check(TokenKind::Ident) {
            if same_text(self.current().lexeme.as_str(), "int") {
                self.advance();
                return Ok(Type::Int);
            }
            if same_text(self.current().lexeme.as_str(), "char") {
                self.advance();
                return Ok(Type::Char);
            }
            if same_text(self.current().lexeme.as_str(), "unit") {
                self.advance();
                return Ok(Type::Unit);
            }
        }
        let path = self.parse_path()?;
        if self.check(TokenKind::Less) {
            let args = self.parse_generic_args()?;
            let r = Type::Applied(path, args);
            proof {
                lemma_type_view(r);
            }
            return Ok(r);
        }
        let r = Type::Named(path);
        proof {
            lemma_type_view(r);
        }
        Ok(r)
    }

    fn parse_array_len(&mut self) -> (r: Result<ArrayLen, MplangError>)
        requires
            old(self).wf(),
        ensures
            final(self).follows(old(self)),
            agrees(r, p_array_len(old(self).toks(), old(self).pos()), final(self).pos()),
            r is Ok ==> old(self).pos() < final(self).pos(),
    {
        if self.check(TokenKind::Ident) {
            let name = self.current().lexeme.clone();
            self.advance();
            return Ok(ArrayLen::Param(name));
        }
        let size_tok = self.consume(
            TokenKind::IntLiteral,
            "数组类型 [T; N] 中 ';' 之后期望长度（非负整数或常量泛型参数名）",
        )?;
        match parse_usize(size_tok.lexeme.as_str()) {
            Some(size) => Ok(ArrayLen::Known(size)),
            None => {
                Err(length_error(&size_tok))
            },
        }
    }

    fn parse_generic_args(&mut self) -> (r: Result<Vec<TypeOrConst>, MplangError>)
        requires
            old(self).wf(),
        ensures
            final(self).follows(old(self)),
            agrees(r, p_generic_args(old(self).toks(), old(self).pos()), final(self).pos()),
            r is Ok ==> old(self).pos() < final(self).pos(),
        decreases old(self).tokens@.len() - old(self).current, 2int,
    {
        self.consume(TokenKind::Less, "Expected '<' in generic arguments")?;
        let args = self.parse_generic_list()?;
        self.consume(TokenKind::Greater, "Expected '>' after generic arguments")?;
        Ok(args)
    }

    fn parse_generic_list(&mut self) -> (r: Result<Vec<TypeOrConst>, MplangError>)
        requires
            old(self).wf(),
        ensures
            final(self).follows(old(self)),
            agrees(
                r,
                p_generic_list(old(self).toks(), old(self).pos(), Seq::empty()),
                final(self).pos(),
            ),
        decreases old(self).tokens@.len() - old(self).current, 2int,
    {
        let mut args: Vec<TypeOrConst> = empty_list();
        let ghost goal = p_generic_list(self.toks(), self.pos(), Seq::empty());
        while !self.check(TokenKind::Greater) && !self.is_at_end()
            invariant
                self.follows(old(self)),
                goal == p_generic_list(old(self).toks(), old(self).pos(), Seq::empty()),
                goal == p_generic_list(self.toks(), self.pos(), args.deep_view()),
            decreases self.tokens@.len() - self.current,
        {
            let arg = self.parse_generic_arg()?;
            push_item(&mut args, arg);
            if self.check(TokenKind::Comma) {
                self.advance();
            } else {
                return Ok(args);
            }
        }
        Ok(args)
    }

    fn parse_generic_arg(&mut self) -> (r: Result<TypeOrConst, MplangError>)
        requires
            old(self).wf(),
        ensures
            final(self).follows(old(self)),
            agrees(r, p_generic_arg(old(self).toks(), old(self).pos()), final(self).pos()),
            r is Ok ==> old(self).pos() < final(self).pos(),
        decreases old(self).tokens@.len() - old(self).current, 1int,
    {
        if self.check(TokenKind::Const) {
            self.advance();
            self.consume(TokenKind::Colon, "Expected ':' after const generic arg")?;
            let _ty = self.parse_type()?;
            let t = self.consume(TokenKind::IntLiteral, "期望整型字面量作为常量泛型实参")?;
            let v: i64 = match parse_i64(t.lexeme.as_str()) {
                Some(v) => v,
                None => 0,
            };
            let r = TypeOrConst::Const(v);
            proof {
                lemma_type_or_const_view(r);
            }
            Ok(r)
        } else if self.check(TokenKind::IntLiteral) {
            let parsed = parse_i64(self.current().lexeme.as_str());
            self.advance();
            match parsed {
                Some(v) => {
                    let r = TypeOrConst::Const(v);
                    proof {
                        lemma_type_or_const_view(r);
                    }
                    Ok(r)
                },
                None => Err(MplangError::parse("无效整型常量泛型实参")),
            }
        } else {
            let ty = self.parse_type()?;
            let r = TypeOrConst::Type(ty);
            proof {
                lemma_type_or_const_view(r);
            }
            Ok(r)
        }
    }

    fn parse_turbofish(&mut self) -> (r: Result<Vec<TypeOrConst>, MplangError>)
        requires
            old(self).wf(),
        ensures
            final(self).follows(old(self)),
            agrees(r, p_turbofish(old(self).toks(), old(self).pos()), final(self).pos()),
    {
        if self.check(TokenKind::ColonColon) && self.check_next(TokenKind::Less) {
            self.advance();
            self.parse_generic_args()
        } else {
            Ok(empty_list())
        }
    }

    fn call_argument(&mut self) -> (r: Result<Vec<Expr>, MplangError>)
        requires
            old(self).wf(),
        ensures
            final(self).follows(old(self)),
            agrees(r, p_args(old(self).toks(), old(self).pos(), Seq::empty()), final(self).pos()),
        decreases old(self).tokens@.len() - old(self).current, 7int,
    {
        let mut args: Vec<Expr> = empty_list();
        let ghost goal = p_args(self.toks(), self.pos(), Seq::empty());
        while !self.is_at_end() && !self.check(TokenKind::RightParen)
            invariant
                self.follows(old(self)),
                goal == p_args(old(self).toks(), old(self).pos(), Seq::empty()),
                goal == p_args(self.toks(), self.pos(), args.deep_view()),
            decreases self.tokens@.len() - self.current,
        {
            let arg = self.expression()?;
            push_item(&mut args, arg);
            if !self.check(TokenKind::Comma) {
                return Ok(args);
            }
            self.advance();
        }
        Ok(args)
    }

    pub(super) fn expression(&mut self) -> (r: Result<Expr, MplangError>)
        requires
            old(self).wf(),
        ensures
            final(self).follows(old(self)),
            agrees(r, p_expr(old(self).toks(), old(self).pos()), final(self).pos()),
            r is Ok ==> old(self).pos() < final(self).pos(),
        decreases old(self).tokens@.len() - old(self).current, 6int,
    {
        let mut left = self.addition()?;
        let ghost goal = p_expr(old(self).toks(), old(self).pos());
        loop
            invariant
                self.follows(old(self)),
                old(self).pos() < self.pos(),
                goal == p_expr(old(self).toks(), old(self).pos()),
                goal == p_comparisons(self.toks(), self.pos(), left.deep_view()),
            decreases self.tokens@.len() - self.current,
        {
            let op = match self.operator() {
                Some(k) => match comparison_operator(k) {
                    Some(op) => op,
                    None => {
                        return Ok(left);
                    },
                },
                None => {
                    return Ok(left);
                },
            };
            self.advance();
            let right = self.addition()?;
            left = binary_expr(op, left, right);
        }
    }

    fn addition(&mut self) -> (r: Result<Expr, MplangError>)
        requires
            old(self).wf(),
        ensures
            final(self).follows(old(self)),
            agrees(r, p_sum(old(self).toks(), old(self).pos()), final(self).pos()),
            r is Ok ==> old(self).pos() < final(self).pos(),
        decreases old(self).tokens@.len() - old(self).current, 5int,
    {
        let mut left = self.term()?;
        let ghost goal = p_sum(old(self).toks(), old(self).pos());
        loop
            invariant
                self.follows(old(self)),
                old(self).pos() < self.pos(),
                goal == p_sum(old(self).toks(), old(self).pos()),
                goal == p_sums(self.toks(), self.pos(), left.deep_view()),
            decreases self.tokens@.len() - self.current,
        {
            let op = match self.operator() {
                Some(k) => match additive_operator(k) {
                    Some(op) => op,
                    None => {
                        return Ok(left);
                    },
                },
                None => {
                    return Ok(left);
                },
            };
            self.advance();
            let right = self.term()?;
            left = binary_expr(op, left, right);
        }
    }

    fn term(&mut self) -> (r: Result<Expr, MplangError>)
        requires
            old(self).wf(),
        ensures
            final(self).follows(old(self)),
            agrees(r, p_product(old(self).toks(), old(self).pos()), final(self).pos()),
            r is Ok ==> old(self).pos() < final(self).pos(),
        decreases old(self).tokens@.len() - old(self).current, 4int,
    {
        let mut left = self.unary()?;
        let ghost goal = p_product(old(self).toks(), old(self).pos());
        loop
            invariant
                self.follows(old(self)),
                old(self).pos() < self.pos(),
                goal == p_product(old(self).toks(), old(self).pos()),
                goal == p_products(self.toks(), self.pos(), left.deep_view()),
            decreases self.tokens@.len() - self.current,
        {
            let op = match self.operator() {
                Some(k) => match multiplicative_operator(k) {
                    Some(op) => op,
                    None => {
                        return Ok(left);
                    },
                },
                None => {
                    return Ok(left);
                },
            };
            self.advance();
            let right = self.unary()?;
            left = binary_expr(op, left, right);
        }
    }

    /// The kind of the next token, unless the tokens end here.
    fn operator(&self) -> (r: Option<TokenKind>)
        requires
            self.wf(),
        ensures
            match r {
                Some(k) => !crate::parser::grammar::at_end(self.toks(), self.pos())
                    && self.toks()[self.pos()].kind == k && self.current < self.tokens@.len(),
                None => crate::parser::grammar::at_end(self.toks(), self.pos()),
            },
    {
        if self.is_at_end() {
            None
        } else {
            Some(self.current().kind)
        }
    }

    fn unary(&mut self) -> (r: Result<Expr, MplangError>)
        requires
            old(self).wf(),
        ensures
            final(self).follows(old(self)),
            agrees(r, p_unary(old(self).toks(), old(self).pos()), final(self).pos()),
            r is Ok ==> old(self).pos() < final(self).pos(),
        decreases old(self).tokens@.len() - old(self).current, 3int,
    {
        if self.check(TokenKind::Amp) {
            self.advance();
            let inner = self.unary()?;
            let r = Expr::AddrOf(Box::new(inner));
            proof {
                lemma_expr_view(r);
            }
            return Ok(r);
        }
        if self.check(TokenKind::Star) {
            self.advance();
            let inner = self.unary()?;
            let r = Expr::Deref(Box::new(inner));
            proof {
                lemma_expr_view(r);
            }
            return Ok(r);
        }
        self.factor()
    }

    fn factor(&mut self) -> (r: Result<Expr, MplangError>)
        requires
            old(self).wf(),
        ensures
            final(self).follows(old(self)),
            agrees(r, p_operand(old(self).toks(), old(self).pos()), final(self).pos()),
            r is Ok ==> old(self).pos() < final(self).pos(),
        decreases old(self).tokens@.len() - old(self).current, 2int,
    {
        if self.current >= self.tokens.len() {
            return Err(self.missing_token());
        }
        let kind = self.current().kind;
        if kind == TokenKind::IntLiteral {
            self.int_operand()
        } else if kind == TokenKind::StringLiteral {
            self.string_operand()
        } else if kind == TokenKind::Ident {
            self.name_operand()
        } else if kind == TokenKind::LeftParen {
            self.paren_operand()
        } else if kind == TokenKind::LeftBracket {
            self.array_operand()
        } else {
            Err(operand_error(self.current()))
        }
    }

    fn int_operand(&mut self) -> (r: Result<Expr, MplangError>)
        requires
            old(self).wf(),
            old(self).current < old(self).tokens@.len(),
            old(self).toks()[old(self).pos()].kind == TokenKind::IntLiteral,
        ensures
            final(self).follows(old(self)),
            agrees(r, p_operand(old(self).toks(), old(self).pos()), final(self).pos()),
            r is Ok ==> old(self).pos() < final(self).pos(),
        decreases old(self).tokens@.len() - old(self).current, 1int,
    {
        let token = self.current().clone();
        self.advance();
        match parse_i64(token.lexeme.as_str()) {
            Some(value) => {
                let e = Expr::Literal(Literal::Int(value));
                proof {
                    lemma_expr_view(e);
                }
                self.postfix(e)
            },
            None => {
                Err(integer_error(&token))
            },
        }
    }

    fn string_operand(&mut self) -> (r: Result<Expr, MplangError>)
        requires
            old(self).wf(),
            old(self).current < old(self).tokens@.len(),
            old(self).toks()[old(self).pos()].kind == TokenKind::StringLiteral,
        ensures
            final(self).follows(old(self)),
            agrees(r, p_operand(old(self).toks(), old(self).pos()), final(self).pos()),
            r is Ok ==> old(self).pos() < final(self).pos(),
        decreases old(self).tokens@.len() - old(self).current, 1int,
    {
        let token = self.current().clone();
        self.advance();
        let raw = Self::inner_text(token.lexeme.as_str())?;
        match unescape_string(raw.as_str()) {
            Ok(value) => {
                let e = Expr::Literal(Literal::String(value));
                proof {
                    lemma_expr_view(e);
                }
                self.postfix(e)
            },
            Err(why) => {
                let text = cat2("字符串字面量错误：", why.as_str());
                Err(MplangError::parse(text.as_str()))
            },
        }
    }

    fn name_operand(&mut self) -> (r: Result<Expr, MplangError>)
        requires
            old(self).wf(),
            old(self).current < old(self).tokens@.len(),
            old(self).toks()[old(self).pos()].kind == TokenKind::Ident,
        ensures
            final(self).follows(old(self)),
            agrees(r, p_operand(old(self).toks(), old(self).pos()), final(self).pos()),
            r is Ok ==> old(self).pos() < final(self).pos(),
        decreases old(self).tokens@.len() - old(self).current, 1int,
    {
        let path = self.parse_callee()?;
        let turbofish = self.parse_turbofish()?;
        if self.check(TokenKind::LeftBrace) {
            return self.struct_literal_with_path(path, turbofish);
        }
        if turbofish.len() > 0 && self.check(TokenKind::LeftParen) {
            self.advance();
            let args = self.call_argument()?;
            self.consume(TokenKind::RightParen, "Expected ')' after arguments")?;
            let e = Expr::Call { callee: path, args, turbofish };
            proof {
                lemma_expr_view(e);
            }
            return self.postfix(e);
        }
        if turbofish.len() > 0 {
            return Err(
                MplangError::parse("涡轮鱼 `::<...>` 只能用于函数调用或结构体字面量之前"),
            );
        }
        let e = Expr::Ident(path);
        proof {
            lemma_expr_view(e);
        }
        self.postfix(e)
    }

    fn paren_operand(&mut self) -> (r: Result<Expr, MplangError>)
        requires
            old(self).wf(),
            old(self).current < old(self).tokens@.len(),
            old(self).toks()[old(self).pos()].kind == TokenKind::LeftParen,
        ensures
            final(self).follows(old(self)),
            agrees(r, p_operand(old(self).toks(), old(self).pos()), final(self).pos()),
            r is Ok ==> old(self).pos() < final(self).pos(),
        decreases old(self).tokens@.len() - old(self).current, 1int,
    {
        self.advance();
        let inner = self.expression()?;
        self.consume(TokenKind::RightParen, "Expected ')' after grouped expression")?;
        let e = Expr::Paren(Box::new(inner));
        proof {
            lemma_expr_view(e);
        }
        self.postfix(e)
    }

    fn array_operand(&mut self) -> (r: Result<Expr, MplangError>)
        requires
            old(self).wf(),
            old(self).current < old(self).tokens@.len(),
            old(self).toks()[old(self).pos()].kind == TokenKind::LeftBracket,
        ensures
            final(self).follows(old(self)),
            agrees(r, p_operand(old(self).toks(), old(self).pos()), final(self).pos()),
            r is Ok ==> old(self).pos() < final(self).pos(),
        decreases old(self).tokens@.len() - old(self).current, 1int,
    {
        self.advance();
        let e = self.parse_array_literal()?;
        self.postfix(e)
    }

    fn postfix(&mut self, expr: Expr) -> (r: Result<Expr, MplangError>)
        requires
            old(self).wf(),
        ensures
            final(self).follows(old(self)),
            agrees(
                r,
                p_postfix(old(self).toks(), old(self).pos(), expr.deep_view()),
                final(self).pos(),
            ),
        decreases old(self).tokens@.len() - old(self).current, 0int,
    {
        let ghost goal = p_postfix(self.toks(), self.pos(), expr.deep_view());
        let mut result = expr;
        loop
            invariant
                self.follows(old(self)),
                goal == p_postfix(old(self).toks(), old(self).pos(), expr.deep_view()),
                goal == p_postfix(self.toks(), self.pos(), result.deep_view()),
            decreases self.tokens@.len() - self.current,
        {
            proof {
                lemma_expr_view(result);
            }
            if self.check(TokenKind::Dot) {
                self.advance();
                let field = self.consume(
                    TokenKind::Ident,
                    "Expected field or method name after '.'",
                )?;
                if self.check(TokenKind::LeftParen) {
                    self.advance();
                    let args = self.call_argument()?;
                    self.consume(TokenKind::RightParen, "Expected ')' after method arguments")?;
                    result = Expr::MethodCall {
                        object: Box::new(result),
                        name: field.lexeme,
                        args,
                    };
                } else {
                    result = Expr::FieldAccess { object: Box::new(result), field: field.lexeme };
                }
                proof {
                    lemma_expr_view(result);
                }
            } else if self.check(TokenKind::LeftParen) {
                match result {
                    Expr::Ident(callee) => {
                        self.advance();
                        let args = self.call_argument()?;
                        self.consume(TokenKind::RightParen, "Expected ')' after arguments")?;
                        result = Expr::Call { callee, args, turbofish: empty_list() };
                        proof {
                            lemma_expr_view(result);
                        }
                    },
                    other => {
                        return Ok(other);
                    },
                }
            } else if self.check(TokenKind::LeftBracket) {
                self.advance();
                let index = self.expression()?;
                self.consume(TokenKind::RightBracket, "Expected ']' after array index")?;
                result = Expr::Index { array: Box::new(result), index: Box::new(index) };
                proof {
                    lemma_expr_view(result);
                }
            } else {
                return Ok(result);
            }
        }
    }

    /// A struct literal behind its name; the next token is the opening brace.
    fn struct_literal_with_path(
        &mut self,
        name: Path,
        turbofish: Vec<TypeOrConst>,
    ) -> (r: Result<Expr, MplangError>)
        requires
            old(self).wf(),
            crate::parser::grammar::at(old(self).toks(), old(self).pos(), TokenKind::LeftBrace),
        ensures
            final(self).follows(old(self)),
            agrees(
                r,
                match p_field_inits(old(self).toks(), old(self).pos() + 1, Seq::empty()) {
                    crate::parser::grammar::Parsed::No(
                        e,
                        k,
                    ) => crate::parser::grammar::Parsed::No(e, k),
                    crate::parser::grammar::Parsed::Yes(
                        fields,
                        k,
                    ) => match crate::parser::grammar::expect(
                        old(self).toks(),
                        k,
                        TokenKind::RightBrace,
                        "Expected '}' after struct literal"@,
                    ) {
                        crate::parser::grammar::Parsed::No(
                            e,
                            m,
                        ) => crate::parser::grammar::Parsed::No(e, m),
                        crate::parser::grammar::Parsed::Yes(
                            _t,
                            m,
                        ) => crate::parser::grammar::Parsed::Yes(
                            ExprV::StructLiteral {
                                name: name.deep_view(),
                                fields,
                                turbofish: turbofish.deep_view(),
                            },
                            m,
                        ),
                    },
                },
                final(self).pos(),
            ),
        decreases old(self).tokens@.len() - old(self).current, 1int,
    {
        self.consume(TokenKind::LeftBrace, "Expected '{' after struct name")?;
        let fields = self.field_inits()?;
        self.consume(TokenKind::RightBrace, "Expected '}' after struct literal")?;
        let r = Expr::StructLiteral { name, fields, turbofish };
        proof {
            lemma_expr_view(r);
        }
        Ok(r)
    }

    fn field_inits(&mut self) -> (r: Result<Vec<(String, Expr)>, MplangError>)
        requires
            old(self).wf(),
        ensures
            final(self).follows(old(self)),
            agrees(
                r,
                p_field_inits(old(self).toks(), old(self).pos(), Seq::empty()),
                final(self).pos(),
            ),
        decreases old(self).tokens@.len() - old(self).current, 0int,
    {
        let mut fields: Vec<(String, Expr)> = empty_list();
        let ghost goal = p_field_inits(self.toks(), self.pos(), Seq::empty());
        while !self.is_at_end() && !self.check(TokenKind::RightBrace)
            invariant
                self.follows(old(self)),
                goal == p_field_inits(old(self).toks(), old(self).pos(), Seq::empty()),
                goal == p_field_inits(self.toks(), self.pos(), fields.deep_view()),
            decreases self.tokens@.len() - self.current,
        {
            let name = self.consume(TokenKind::Ident, "Expected field name")?;
            self.consume(TokenKind::Colon, "Expected ':' after field name")?;
            let value = self.expression()?;
            push_item(&mut fields, (name.lexeme, value));
            if self.check(TokenKind::Comma) {
                self.advance();
            }
        }
        Ok(fields)
    }

    fn parse_array_literal(&mut self) -> (r: Result<Expr, MplangError>)
        requires
            old(self).wf(),
        ensures
            final(self).follows(old(self)),
            agrees(r, p_array_literal(old(self).toks(), old(self).pos()), final(self).pos()),
            r is Ok ==> old(self).pos() < final(self).pos(),
        decreases old(self).tokens@.len() - old(self).current, 7int,
    {
        let first = self.expression()?;
        if self.check(TokenKind::Semicolon) {
            self.advance();
            let count = self.expression()?;
            self.consume(
                TokenKind::RightBracket,
                "重复形式数组字面量 [v; n] 缺少结尾的 ']'",
            )?;
            let r = Expr::ArrayLiteral {
                elements: list_of(first),
                repeat: Some(Box::new(count)),
            };
            proof {
                lemma_expr_view(r);
            }
            return Ok(r);
        }
        let elements = self.array_elements(first)?;
        self.consume(TokenKind::RightBracket, "数组字面量缺少结尾的 ']'")?;
        let r = Expr::ArrayLiteral { elements, repeat: None };
        proof {
            lemma_expr_view(r);
        }
        Ok(r)
    }

    fn array_elements(&mut self, first: Expr) -> (r: Result<Vec<Expr>, MplangError>)
        requires
            old(self).wf(),
        ensures
            final(self).follows(old(self)),
            agrees(
                r,
                p_elements(old(self).toks(), old(self).pos(), seq![first.deep_view()]),
                final(self).pos(),
            ),
        decreases old(self).tokens@.len() - old(self).current, 0int,
    {
        let ghost goal = p_elements(self.toks(), self.pos(), seq![first.deep_view()]);
        let mut elements = list_of(first);
        while self.check(TokenKind::Comma)
            invariant
                self.follows(old(self)),
                goal == p_elements(old(self).toks(), old(self).pos(), seq![first.deep_view()]),
                goal == p_elements(self.toks(), self.pos(), elements.deep_view()),
            decreases self.tokens@.len() - self.current,
        {
            self.advance();
            if self.check(TokenKind::RightBracket) {
                return Ok(elements);
            }
            let value = self.expression()?;
            push_item(&mut elements, value);
        }
        Ok(elements)
    }
}

fn length_error(t: &Token) -> (r: MplangError)
    ensures
        r.deep_view() == bad_length(t.deep_view()),
{
    proof {
        reveal(bad_length);
    }
    let line = usize_string(t.line);
    let column = usize_string(t.column);
    let text = cat7(
        "无效数组长度 '",
        t.lexeme.as_str(),
        "'（第 ",
        line.as_str(),
        " 行，第 ",
        column.as_str(),
        " 列）",
    );
    MplangError::parse(text.as_str())
}

fn integer_error(t: &Token) -> (r: MplangError)
    ensures
        r.deep_view() == bad_integer(t.deep_view()),
{
    proof {
        reveal(bad_integer);
    }
    let line = usize_string(t.line);
    let column = usize_string(t.column);
    let text = cat7(
        "无效整数 '",
        t.lexeme.as_str(),
        "'（第 ",
        line.as_str(),
        " 行，第 ",
        column.as_str(),
        " 列）",
    );
    MplangError::parse(text.as_str())
}

fn operand_error(t: &Token) -> (r: MplangError)
    ensures
        r.deep_view() == no_operand(t.deep_view()),
{
    proof {
        reveal(no_operand);
    }
    let line = usize_string(t.line);
    let column = usize_string(t.column);
    let head = cat5("表达式中出现意外记号 ", t.kind.name(), "（'", t.lexeme.as_str(), "'，第 ");
    let text = cat5(head.as_str(), line.as_str(), " 行，第 ", column.as_str(), " 列）");
    MplangError::parse(text.as_str())
}

fn comparison_operator(k: TokenKind) -> (r: Option<BinOp>)
    ensures
        r == comparison_op(k),
{
    match k {
        TokenKind::Equal => Some(BinOp::Equal),
        TokenKind::NotEqual => Some(BinOp::NotEqual),
        TokenKind::Greater => Some(BinOp::Greater),
        TokenKind::GreaterEqual => Some(BinOp::GreaterEqual),
        TokenKind::Less => Some(BinOp::Less),
        TokenKind::LessEqual => Some(BinOp::LessEqual),
        _ => None,
    }
}

fn additive_operator(k: TokenKind) -> (r: Option<BinOp>)
    ensures
        r == additive_op(k),
{
    match k {
        TokenKind::Plus => Some(BinOp::Add),
        TokenKind::Minus => Some(BinOp::Sub),
        _ => None,
    }
}

fn multiplicative_operator(k: TokenKind) -> (r: Option<BinOp>)
    ensures
        r == multiplicative_op(k),
{
    match k {
        TokenKind::Star => Some(BinOp::Mul),
        TokenKind::Slash => Some(BinOp::Div),
        _ => None,
    }
}

fn binary_expr(op: BinOp, lhs: Expr, rhs: Expr) -> (r: Expr)
    ensures
        r.deep_view() == crate::parser::grammar::binary(op, lhs.deep_view(), rhs.deep_view()),
{
    let r = Expr::Binary { op, lhs: Box::new(lhs), rhs: Box::new(rhs) };
    proof {
        lemma_expr_view(r);
    }
    r
}

fn hex_value(c: char) -> (r: Option<u8>)
    ensures
        match r {
            Some(v) => hex_digit(c) == Some(v as int) && v < 16,
            None => hex_digit(c) is None,
        },
{
    if c >= '0' && c <= '9' {
        Some((c as u32 - '0' as u32) as u8)
    } else if c >= 'a' && c <= 'f' {
        Some((c as u32 - 'a' as u32 + 10) as u8)
    } else if c >= 'A' && c <= 'F' {
        Some((c as u32 - 'A' as u32 + 10) as u8)
    } else {
        None
    }
}

fn hex_pair(chars: &Vec<char>, from: usize, to: usize) -> (r: Option<u8>)
    requires
        from <= to <= chars@.len(),
        to - from <= 2,
    ensures
        match r {
            Some(v) => hex_byte(chars@.subrange(from as int, to as int)) == Some(v as int),
            None => hex_byte(chars@.subrange(from as int, to as int)) is None,
        },
{
    if to - from == 2 && chars[from] == '+' {
        hex_value(chars[from + 1])
    } else if to - from == 1 {
        hex_value(chars[from])
    } else if to - from == 2 {
        match hex_value(chars[from]) {
            Some(a) => match hex_value(chars[from + 1]) {
                Some(b) => Some(a * 16 + b),
                None => None,
            },
            None => None,
        }
    } else {
        None
    }
}

/// Replaces the escapes of a string literal: `\n`, `\t`, `\r`, `\\`, `\"`,
/// `\0` and `\xNN`.
pub fn unescape_string(s: &str) -> (r: Result<String, String>)
    ensures
        match r {
            Ok(t) => unescaped(s@, 0, Seq::empty()) == Ok::<Seq<char>, Seq<char>>(t@),
            Err(why) => unescaped(s@, 0, Seq::empty()) == Err::<Seq<char>, Seq<char>>(why@),
        },
{
    let chars = chars_of(s);
    let mut result = String::new();
    let mut i: usize = 0;
    while i < chars.len()
        invariant
            i <= chars@.len(),
            chars@ == s@,
            unescaped(s@, 0, Seq::empty()) == unescaped(s@, i as int, result@),
        decreases chars@.len() - i,
    {
        let c = chars[i];
        if c != '\\' {
            result.push(c);
            i = i + 1;
        } else if i + 1 >= chars.len() {
            return Err("unexpected end of string after backslash".to_owned());
        } else {
            let e = chars[i + 1];
            if e == 'n' {
                result.push('\n');
                i = i + 2;
            } else if e == 't' {
                result.push('\t');
                i = i + 2;
            } else if e == 'r' {
                result.push('\r');
                i = i + 2;
            } else if e == '\\' {
                result.push('\\');
                i = i + 2;
            } else if e == '"' {
                result.push('"');
                i = i + 2;
            } else if e == '0' {
                result.push('\0');
                i = i + 2;
            } else if e == 'x' {
                let end: usize = if chars.len() - i >= 4 { i + 4 } else { chars.len() };
                match hex_pair(&chars, i + 2, end) {
                    Some(b) => {
                        result.push(b as char);
                        i = end;
                    },
                    None => {
                        let hex = slice_string(&chars, i + 2, end);
                        return Err(cat2("invalid hex escape: \\x", hex.as_str()));
                    },
                }
            } else {
                let shown = char_string(e);
                return Err(cat2("unknown escape sequence: \\", shown.as_str()));
            }
        }
    }
    Ok(result)
}

} // verus!
