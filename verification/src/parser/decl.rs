//! Declarations.

use crate::ast::{
    lemma_type_view, EnumVariant, GenericParam, GenericParamKind, ImplMethod, Meta, Param, Path,
    Stmt, TopLevelDecl, TraitMethod, Type,
};
use crate::error::MplangError;
use crate::list::{empty_list, push_item};
use crate::parser::grammar::{
    no_decl, p_decl, p_default_body, p_enum, p_extern_crate, p_extern_fn, p_field, p_fields, p_fn,
    p_fn_parts, p_foreign_params, p_generic_param, p_generic_params, p_generics, p_global, p_impl,
    p_impl_head, p_methods, p_mod, p_opt_generics, p_params, p_payload, p_return_type, p_struct,
    p_trait, p_trait_method, p_trait_methods, p_use, p_variant, p_variants,
};
use crate::parser::{agrees, Parser};
use crate::text::{cat7, usize_string};
use crate::token::{Token, TokenKind};
use vstd::prelude::*;

verus! {

impl Parser {
    pub(super) fn top_level_decl(&mut self) -> (r: Result<TopLevelDecl, MplangError>)
        requires
            old(self).wf(),
        ensures
            final(self).follows(old(self)),
            agrees(r, p_decl(old(self).toks(), old(self).pos()), final(self).pos()),
            r is Ok ==> old(self).pos() < final(self).pos(),
    {
        let attributes = self.parse_attributes()?;
        if self.check(TokenKind::Mod) {
            return self.mod_decl(attributes);
        }
        if self.check(TokenKind::Use) {
            return self.use_decl(attributes);
        }
        if self.check(TokenKind::Extern) {
            if self.check_next(TokenKind::Crate) {
                return self.extern_crate_decl(attributes);
            }
            return self.extern_fn_decl(attributes);
        }
        if self.check(TokenKind::Fn) {
            return self.fn_decl(attributes);
        }
        if self.check(TokenKind::Struct) {
            return self.struct_decl(attributes);
        }
        if self.check(TokenKind::Enum) {
            return self.enum_decl(attributes);
        }
        if self.check(TokenKind::Impl) {
            return self.impl_decl(attributes);
        }
        if self.check(TokenKind::Trait) {
            return self.trait_decl(attributes);
        }
        if self.check(TokenKind::Static) {
            return self.global_decl(false, attributes);
        }
        if self.check(TokenKind::Const) {
            return self.global_decl(true, attributes);
        }
        if self.current >= self.tokens.len() {
            return Err(self.missing_token());
        }
        Err(decl_error(self.current()))
    }

    fn mod_decl(&mut self, attributes: Vec<Meta>) -> (r: Result<TopLevelDecl, MplangError>)
        requires
            old(self).wf(),
        ensures
            final(self).follows(old(self)),
            agrees(
                r,
                p_mod(old(self).toks(), old(self).pos(), attributes.deep_view()),
                final(self).pos(),
            ),
            r is Ok ==> old(self).pos() < final(self).pos(),
    {
        self.consume(TokenKind::Mod, "Expected 'mod'")?;
        let name = self.consume(TokenKind::Ident, "Expected module name after 'mod'")?;
        self.consume(TokenKind::Semicolon, "Expected ';' after mod declaration")?;
        Ok(TopLevelDecl::ModDecl { attributes, name: name.lexeme })
    }

    fn use_decl(&mut self, attributes: Vec<Meta>) -> (r: Result<TopLevelDecl, MplangError>)
        requires
            old(self).wf(),
        ensures
            final(self).follows(old(self)),
            agrees(
                r,
                p_use(old(self).toks(), old(self).pos(), attributes.deep_view()),
                final(self).pos(),
            ),
            r is Ok ==> old(self).pos() < final(self).pos(),
    {
        self.consume(TokenKind::Use, "Expected 'use'")?;
        let path = self.parse_path()?;
        self.consume(TokenKind::Semicolon, "Expected ';' after use declaration")?;
        Ok(TopLevelDecl::UseDecl { attributes, path })
    }

    fn extern_crate_decl(&mut self, attributes: Vec<Meta>) -> (r: Result<TopLevelDecl, MplangError>)
        requires
            old(self).wf(),
        ensures
            final(self).follows(old(self)),
            agrees(
                r,
                p_extern_crate(old(self).toks(), old(self).pos(), attributes.deep_view()),
                final(self).pos(),
            ),
            r is Ok ==> old(self).pos() < final(self).pos(),
    {
        self.consume(TokenKind::Extern, "Expected 'extern'")?;
        self.consume(TokenKind::Crate, "Expected 'crate' after 'extern'")?;
        let name = self.consume(TokenKind::Ident, "Expected crate name after 'extern crate'")?;
        self.consume(TokenKind::Semicolon, "Expected ';' after extern crate declaration")?;
        Ok(TopLevelDecl::ExternCrate { attributes, name: name.lexeme })
    }

    fn extern_fn_decl(&mut self, attributes: Vec<Meta>) -> (r: Result<TopLevelDecl, MplangError>)
        requires
            old(self).wf(),
        ensures
            final(self).follows(old(self)),
            agrees(
                r,
                p_extern_fn(old(self).toks(), old(self).pos(), attributes.deep_view()),
                final(self).pos(),
            ),
            r is Ok ==> old(self).pos() < final(self).pos(),
    {
        self.consume(TokenKind::Extern, "Expected 'extern'")?;
        self.consume(TokenKind::Fn, "Expected 'fn' after 'extern'")?;
        let name = self.consume(TokenKind::Ident, "Expected function name after 'extern fn'")?;
        self.consume(TokenKind::LeftParen, "Expected '(' after extern function name")?;
        let (param_types, is_variadic) = self.foreign_params()?;
        self.consume(TokenKind::RightParen, "Expected ')' after extern function parameters")?;
        let return_ty = self.return_type()?;
        self.consume(TokenKind::Semicolon, "Expected ';' after extern function declaration")?;
        Ok(
            TopLevelDecl::ExternFnDef {
                attributes,
                name: name.lexeme,
                param_types,
                return_ty,
                is_variadic,
            },
        )
    }

    fn foreign_params(&mut self) -> (r: Result<(Vec<Type>, bool), MplangError>)
        requires
            old(self).wf(),
        ensures
            final(self).follows(old(self)),
            agrees(
                r,
                p_foreign_params(old(self).toks(), old(self).pos(), Seq::empty()),
                final(self).pos(),
            ),
    {
        let mut param_types: Vec<Type> = empty_list();
        let ghost goal = p_foreign_params(self.toks(), self.pos(), Seq::empty());
        while !self.is_at_end() && !self.check(TokenKind::RightParen)
            invariant
                self.follows(old(self)),
                goal == p_foreign_params(old(self).toks(), old(self).pos(), Seq::empty()),
                goal == p_foreign_params(self.toks(), self.pos(), param_types.deep_view()),
            decreases self.tokens@.len() - self.current,
        {
            if self.check(TokenKind::Ellipsis) {
                self.advance();
                if self.check(TokenKind::Comma) {
                    self.advance();
                }
                return Ok((param_types, true));
            }
            if self.check(TokenKind::Ident) && self.check_next(TokenKind::Colon) {
                self.advance();
                self.advance();
            }
            let ty = self.parse_type()?;
            push_item(&mut param_types, ty);
            if self.check(TokenKind::Comma) {
                self.advance();
            } else {
                return Ok((param_types, false));
            }
        }
        Ok((param_types, false))
    }

    fn return_type(&mut self) -> (r: Result<Type, MplangError>)
        requires
            old(self).wf(),
        ensures
            final(self).follows(old(self)),
            agrees(r, p_return_type(old(self).toks(), old(self).pos()), final(self).pos()),
    {
        if self.check(TokenKind::Arrow) {
            self.advance();
            self.parse_type()
        } else {
            proof {
                lemma_type_view(Type::Unit);
            }
            Ok(Type::Unit)
        }
    }

    fn fn_decl(&mut self, attributes: Vec<Meta>) -> (r: Result<TopLevelDecl, MplangError>)
        requires
            old(self).wf(),
        ensures
            final(self).follows(old(self)),
            agrees(
                r,
                p_fn(old(self).toks(), old(self).pos(), attributes.deep_view()),
                final(self).pos(),
            ),
            r is Ok ==> old(self).pos() < final(self).pos(),
    {
        self.consume(TokenKind::Fn, "Expected 'fn'")?;
        let f = self.parse_fn_parts()?;
        Ok(
            TopLevelDecl::FnDef {
                attributes,
                name: f.name,
                generics: f.generics,
                params: f.params,
                return_ty: f.return_ty,
                body: f.body,
            },
        )
    }

    fn parse_fn_parts(&mut self) -> (r: Result<ImplMethod, MplangError>)
        requires
            old(self).wf(),
        ensures
            final(self).follows(old(self)),
            agrees(r, p_fn_parts(old(self).toks(), old(self).pos()), final(self).pos()),
            r is Ok ==> old(self).pos() < final(self).pos(),
    {
        let name = self.consume(TokenKind::Ident, "Expected function name")?;
        let generics = self.optional_generics()?;
        self.consume(TokenKind::LeftParen, "Expected '(' after function name")?;
        let params = self.fn_params()?;
        self.consume(TokenKind::RightParen, "Expected ')' after parameters")?;
        let return_ty = self.return_type()?;
        self.consume(TokenKind::LeftBrace, "Expected '{' before function body")?;
        let body = self.statements()?;
        self.consume(TokenKind::RightBrace, "Expected '}' after function body")?;
        Ok(
            ImplMethod {
                name: name.lexeme,
                generics,
                params,
                return_ty,
                body,
                is_static: false,
            },
        )
    }

    fn optional_generics(&mut self) -> (r: Result<Vec<GenericParam>, MplangError>)
        requires
            old(self).wf(),
        ensures
            final(self).follows(old(self)),
            agrees(r, p_opt_generics(old(self).toks(), old(self).pos()), final(self).pos()),
    {
        if self.check(TokenKind::Less) {
            self.parse_generics()
        } else {
            Ok(empty_list())
        }
    }

    fn parse_generics(&mut self) -> (r: Result<Vec<GenericParam>, MplangError>)
        requires
            old(self).wf(),
        ensures
            final(self).follows(old(self)),
            agrees(r, p_generics(old(self).toks(), old(self).pos()), final(self).pos()),
            r is Ok ==> old(self).pos() < final(self).pos(),
    {
        self.consume(TokenKind::Less, "期望 '<' 开始泛型参数列表")?;
        let params = self.generic_params()?;
        self.consume(TokenKind::Greater, "期望 '>' 结束泛型参数列表")?;
        Ok(params)
    }

    fn generic_params(&mut self) -> (r: Result<Vec<GenericParam>, MplangError>)
        requires
            old(self).wf(),
        ensures
            final(self).follows(old(self)),
            agrees(
                r,
                p_generic_params(old(self).toks(), old(self).pos(), Seq::empty()),
                final(self).pos(),
            ),
    {
        let mut params: Vec<GenericParam> = empty_list();
        let ghost goal = p_generic_params(self.toks(), self.pos(), Seq::empty());
        while !self.check(TokenKind::Greater) && !self.is_at_end()
            invariant
                self.follows(old(self)),
                goal == p_generic_params(old(self).toks(), old(self).pos(), Seq::empty()),
                goal == p_generic_params(self.toks(), self.pos(), params.deep_view()),
            decreases self.tokens@.len() - self.current,
        {
            let param = self.generic_param()?;
            push_item(&mut params, param);
            if self.check(TokenKind::Comma) {
                self.advance();
            } else {
                return Ok(params);
            }
        }
        Ok(params)
    }

    fn generic_param(&mut self) -> (r: Result<GenericParam, MplangError>)
        requires
            old(self).wf(),
        ensures
            final(self).follows(old(self)),
            agrees(r, p_generic_param(old(self).toks(), old(self).pos()), final(self).pos()),
            r is Ok ==> old(self).pos() < final(self).pos(),
    {
        if self.check(TokenKind::Const) {
            self.advance();
            let name = self.consume(TokenKind::Ident, "期望泛型参数名")?;
            self.consume(TokenKind::Colon, "期望 ':' 后接常量参数类型")?;
            let _ty = self.parse_type()?;
            Ok(GenericParam { name: name.lexeme, kind: GenericParamKind::Const })
        } else {
            let name = self.consume(TokenKind::Ident, "期望泛型参数名")?;
            Ok(GenericParam { name: name.lexeme, kind: GenericParamKind::Type })
        }
    }

    fn impl_decl(&mut self, attributes: Vec<Meta>) -> (r: Result<TopLevelDecl, MplangError>)
        requires
            old(self).wf(),
        ensures
            final(self).follows(old(self)),
            agrees(
                r,
                p_impl(old(self).toks(), old(self).pos(), attributes.deep_view()),
                final(self).pos(),
            ),
            r is Ok ==> old(self).pos() < final(self).pos(),
    {
        self.consume(TokenKind::Impl, "Expected 'impl'")?;
        let generics = self.optional_generics()?;
        let (trrait, ty) = self.impl_head()?;
        self.consume(TokenKind::LeftBrace, "Expected '{' after impl type")?;
        let methods = self.impl_methods()?;
        self.consume(TokenKind::RightBrace, "Expected '}' after impl block")?;
        Ok(TopLevelDecl::Impl { attributes, generics, trrait, ty, methods })
    }

    fn impl_head(&mut self) -> (r: Result<(Option<Path>, Type), MplangError>)
        requires
            old(self).wf(),
        ensures
            final(self).follows(old(self)),
            agrees(r, p_impl_head(old(self).toks(), old(self).pos()), final(self).pos()),
            r is Ok ==> old(self).pos() < final(self).pos(),
    {
        let first = self.parse_type()?;
        if self.check(TokenKind::For) {
            self.advance();
            proof {
                lemma_type_view(first);
            }
            match first {
                Type::Named(path) => {
                    let ty = self.parse_type()?;
                    Ok((Some(path), ty))
                },
                _ => Err(MplangError::parse("impl <trait> for <type> 中的 trait 名必须是路径")),
            }
        } else {
            Ok((None, first))
        }
    }

    fn impl_methods(&mut self) -> (r: Result<Vec<ImplMethod>, MplangError>)
        requires
            old(self).wf(),
        ensures
            final(self).follows(old(self)),
            agrees(
                r,
                p_methods(old(self).toks(), old(self).pos(), Seq::empty()),
                final(self).pos(),
            ),
    {
        let mut methods: Vec<ImplMethod> = empty_list();
        let ghost goal = p_methods(self.toks(), self.pos(), Seq::empty());
        while !self.is_at_end() && !self.check(TokenKind::RightBrace)
            invariant
                self.follows(old(self)),
                goal == p_methods(old(self).toks(), old(self).pos(), Seq::empty()),
                goal == p_methods(self.toks(), self.pos(), methods.deep_view()),
            decreases self.tokens@.len() - self.current,
        {
            self.consume(TokenKind::Fn, "Expected 'fn' inside impl block")?;
            let f = self.parse_fn_parts()?;
            push_item(&mut methods, f);
            if self.check(TokenKind::Semicolon) {
                self.advance();
            }
        }
        Ok(methods)
    }

    fn trait_decl(&mut self, attributes: Vec<Meta>) -> (r: Result<TopLevelDecl, MplangError>)
        requires
            old(self).wf(),
        ensures
            final(self).follows(old(self)),
            agrees(
                r,
                p_trait(old(self).toks(), old(self).pos(), attributes.deep_view()),
                final(self).pos(),
            ),
            r is Ok ==> old(self).pos() < final(self).pos(),
    {
        self.consume(TokenKind::Trait, "Expected 'trait'")?;
        let name = self.consume(TokenKind::Ident, "Expected trait name")?;
        let generics = self.optional_generics()?;
        self.consume(TokenKind::LeftBrace, "Expected '{' after trait name")?;
        let methods = self.trait_methods()?;
        self.consume(TokenKind::RightBrace, "Expected '}' after trait block")?;
        Ok(TopLevelDecl::Trait { attributes, name: name.lexeme, generics, methods })
    }

    fn trait_methods(&mut self) -> (r: Result<Vec<TraitMethod>, MplangError>)
        requires
            old(self).wf(),
        ensures
            final(self).follows(old(self)),
            agrees(
                r,
                p_trait_methods(old(self).toks(), old(self).pos(), Seq::empty()),
                final(self).pos(),
            ),
    {
        let mut methods: Vec<TraitMethod> = empty_list();
        let ghost goal = p_trait_methods(self.toks(), self.pos(), Seq::empty());
        while !self.is_at_end() && !self.check(TokenKind::RightBrace)
            invariant
                self.follows(old(self)),
                goal == p_trait_methods(old(self).toks(), old(self).pos(), Seq::empty()),
                goal == p_trait_methods(self.toks(), self.pos(), methods.deep_view()),
            decreases self.tokens@.len() - self.current,
        {
            let m = self.trait_method()?;
            push_item(&mut methods, m);
            if self.check(TokenKind::Semicolon) {
                self.advance();
            }
        }
        Ok(methods)
    }

    fn trait_method(&mut self) -> (r: Result<TraitMethod, MplangError>)
        requires
            old(self).wf(),
        ensures
            final(self).follows(old(self)),
            agrees(r, p_trait_method(old(self).toks(), old(self).pos()), final(self).pos()),
            r is Ok ==> old(self).pos() < final(self).pos(),
    {
        self.consume(TokenKind::Fn, "Expected 'fn' inside trait block")?;
        let name = self.consume(TokenKind::Ident, "Expected trait method name")?;
        let generics = self.optional_generics()?;
        self.consume(TokenKind::LeftParen, "Expected '(' after trait method name")?;
        let params = self.fn_params()?;
        self.consume(TokenKind::RightParen, "Expected ')' after trait method parameters")?;
        let return_ty = self.return_type()?;
        let default_body = self.default_body()?;
        Ok(
            TraitMethod {
                name: name.lexeme,
                generics,
                params,
                return_ty,
                default_body,
                is_static: false,
            },
        )
    }

    fn default_body(&mut self) -> (r: Result<Option<Vec<Stmt>>, MplangError>)
        requires
            old(self).wf(),
        ensures
            final(self).follows(old(self)),
            agrees(r, p_default_body(old(self).toks(), old(self).pos()), final(self).pos()),
            r is Ok ==> old(self).pos() < final(self).pos(),
    {
        if self.check(TokenKind::LeftBrace) {
            self.advance();
            let body = self.statements()?;
            self.consume(TokenKind::RightBrace, "Expected '}' after default body")?;
            Ok(Some(body))
        } else {
            self.consume(TokenKind::Semicolon, "Expected ';' (必填方法) 或 '{' (默认实现)")?;
            Ok(None)
        }
    }

    fn struct_decl(&mut self, attributes: Vec<Meta>) -> (r: Result<TopLevelDecl, MplangError>)
        requires
            old(self).wf(),
        ensures
            final(self).follows(old(self)),
            agrees(
                r,
                p_struct(old(self).toks(), old(self).pos(), attributes.deep_view()),
                final(self).pos(),
            ),
            r is Ok ==> old(self).pos() < final(self).pos(),
    {
        self.consume(TokenKind::Struct, "Expected 'struct'")?;
        let name = self.consume(TokenKind::Ident, "Expected struct name")?;
        let generics = self.optional_generics()?;
        self.consume(TokenKind::LeftBrace, "Expected '{' after struct name")?;
        let fields = self.struct_fields()?;
        self.consume(TokenKind::RightBrace, "Expected '}' after struct fields")?;
        Ok(TopLevelDecl::StructDef { attributes, name: name.lexeme, generics, fields })
    }

    fn struct_fields(&mut self) -> (r: Result<Vec<(String, Type)>, MplangError>)
        requires
            old(self).wf(),
        ensures
            final(self).follows(old(self)),
            agrees(r, p_fields(old(self).toks(), old(self).pos(), Seq::empty()), final(self).pos()),
    {
        let mut fields: Vec<(String, Type)> = empty_list();
        let ghost goal = p_fields(self.toks(), self.pos(), Seq::empty());
        while !self.is_at_end() && !self.check(TokenKind::RightBrace)
            invariant
                self.follows(old(self)),
                goal == p_fields(old(self).toks(), old(self).pos(), Seq::empty()),
                goal == p_fields(self.toks(), self.pos(), fields.deep_view()),
            decreases self.tokens@.len() - self.current,
        {
            let f = self.field()?;
            push_item(&mut fields, f);
            if self.check(TokenKind::Comma) {
                self.advance();
            }
        }
        Ok(fields)
    }

    fn field(&mut self) -> (r: Result<(String, Type), MplangError>)
        requires
            old(self).wf(),
        ensures
            final(self).follows(old(self)),
            agrees(r, p_field(old(self).toks(), old(self).pos()), final(self).pos()),
            r is Ok ==> old(self).pos() < final(self).pos(),
    {
        let name = self.consume(TokenKind::Ident, "Expected field name")?;
        self.consume(TokenKind::Colon, "Expected ':' after field name")?;
        let ty = self.parse_type()?;
        Ok((name.lexeme, ty))
    }

    fn enum_decl(&mut self, attributes: Vec<Meta>) -> (r: Result<TopLevelDecl, MplangError>)
        requires
            old(self).wf(),
        ensures
            final(self).follows(old(self)),
            agrees(
                r,
                p_enum(old(self).toks(), old(self).pos(), attributes.deep_view()),
                final(self).pos(),
            ),
            r is Ok ==> old(self).pos() < final(self).pos(),
    {
        self.consume(TokenKind::Enum, "Expected 'enum'")?;
        let name = self.consume(TokenKind::Ident, "Expected enum name")?;
        let generics = self.optional_generics()?;
        self.consume(TokenKind::LeftBrace, "Expected '{' after enum name")?;
        let variants = self.enum_variants()?;
        self.consume(TokenKind::RightBrace, "Expected '}' after enum variants")?;
        Ok(TopLevelDecl::Enum { attributes, name: name.lexeme, generics, variants })
    }

    fn enum_variants(&mut self) -> (r: Result<Vec<EnumVariant>, MplangError>)
        requires
            old(self).wf(),
        ensures
            final(self).follows(old(self)),
            agrees(
                r,
                p_variants(old(self).toks(), old(self).pos(), Seq::empty()),
                final(self).pos(),
            ),
    {
        let mut variants: Vec<EnumVariant> = empty_list();
        let ghost goal = p_variants(self.toks(), self.pos(), Seq::empty());
        while !self.is_at_end() && !self.check(TokenKind::RightBrace)
            invariant
                self.follows(old(self)),
                goal == p_variants(old(self).toks(), old(self).pos(), Seq::empty()),
                goal == p_variants(self.toks(), self.pos(), variants.deep_view()),
            decreases self.tokens@.len() - self.current,
        {
            let v = self.enum_variant()?;
            push_item(&mut variants, v);
            if self.check(TokenKind::Comma) {
                self.advance();
            } else {
                return Ok(variants);
            }
        }
        Ok(variants)
    }

    fn enum_variant(&mut self) -> (r: Result<EnumVariant, MplangError>)
        requires
            old(self).wf(),
        ensures
            final(self).follows(old(self)),
            agrees(r, p_variant(old(self).toks(), old(self).pos()), final(self).pos()),
            r is Ok ==> old(self).pos() < final(self).pos(),
    {
        let name = self.consume(TokenKind::Ident, "Expected variant name")?;
        if self.check(TokenKind::LeftParen) {
            self.advance();
            let fields = self.payload()?;
            self.consume(TokenKind::RightParen, "Expected ')' after variant fields")?;
            Ok(EnumVariant { name: name.lexeme, fields })
        } else {
            Ok(EnumVariant { name: name.lexeme, fields: empty_list() })
        }
    }

    fn payload(&mut self) -> (r: Result<Vec<(String, Type)>, MplangError>)
        requires
            old(self).wf(),
        ensures
            final(self).follows(old(self)),
            agrees(
                r,
                p_payload(old(self).toks(), old(self).pos(), Seq::empty()),
                final(self).pos(),
            ),
    {
        let mut fields: Vec<(String, Type)> = empty_list();
        let ghost goal = p_payload(self.toks(), self.pos(), Seq::empty());
        while !self.is_at_end() && !self.check(TokenKind::RightParen)
            invariant
                self.follows(old(self)),
                goal == p_payload(old(self).toks(), old(self).pos(), Seq::empty()),
                goal == p_payload(self.toks(), self.pos(), fields.deep_view()),
            decreases self.tokens@.len() - self.current,
        {
            let f = self.field()?;
            push_item(&mut fields, f);
            if self.check(TokenKind::Comma) {
                self.advance();
            } else {
                return Ok(fields);
            }
        }
        Ok(fields)
    }

    fn global_decl(&mut self, is_const: bool, attributes: Vec<Meta>) -> (r: Result<
        TopLevelDecl,
        MplangError,
    >)
        requires
            old(self).wf(),
            old(self).current < old(self).tokens@.len(),
        ensures
            final(self).follows(old(self)),
            agrees(
                r,
                p_global(old(self).toks(), old(self).pos(), is_const, attributes.deep_view()),
                final(self).pos(),
            ),
            r is Ok ==> old(self).pos() < final(self).pos(),
    {
        let (name, ty, init) = self.parse_typed_binding(true)?;
        match ty {
            Some(ty) => if is_const {
                Ok(TopLevelDecl::Const { attributes, name, ty, init })
            } else {
                Ok(TopLevelDecl::Static { attributes, name, ty, init })
            },
            None => Err(MplangError::other("")),
        }
    }

    fn fn_params(&mut self) -> (r: Result<Vec<Param>, MplangError>)
        requires
            old(self).wf(),
        ensures
            final(self).follows(old(self)),
            agrees(r, p_params(old(self).toks(), old(self).pos(), Seq::empty()), final(self).pos()),
    {
        let mut params: Vec<Param> = empty_list();
        let ghost goal = p_params(self.toks(), self.pos(), Seq::empty());
        while !self.is_at_end() && !self.check(TokenKind::RightParen)
            invariant
                self.follows(old(self)),
                goal == p_params(old(self).toks(), old(self).pos(), Seq::empty()),
                goal == p_params(self.toks(), self.pos(), params.deep_view()),
            decreases self.tokens@.len() - self.current,
        {
            let name = self.consume(TokenKind::Ident, "Expected parameter name")?;
            self.consume(TokenKind::Colon, "Expected ':' after parameter name")?;
            let ty = self.parse_type()?;
            push_item(&mut params, Param { name: name.lexeme, ty });
            if self.check(TokenKind::Comma) {
                self.advance();
            }
        }
        Ok(params)
    }
}

fn decl_error(t: &Token) -> (r: MplangError)
    ensures
        r.deep_view() == no_decl(t.deep_view()),
{
    proof {
        reveal(no_decl);
    }
    let line = usize_string(t.line);
    let column = usize_string(t.column);
    let text = cat7(
        "期望顶层声明（mod/use/extern/fn/struct/static/const），但遇到 ",
        t.kind.name(),
        "（第 ",
        line.as_str(),
        " 行，第 ",
        column.as_str(),
        " 列）",
    );
    MplangError::parse(text.as_str())
}

} // verus!
