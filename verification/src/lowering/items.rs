//! Registration and items.

use crate::ast;
use crate::ast::{
    attr_string_value, lemma_type_or_const_view, lemma_type_view, CompilationUnit, EnumVariant,
    Expr, GenericParam, GenericParamKind, ImplMethod, Meta, Param, Path, Stmt, TopLevelDecl, Type,
};
use crate::error::MplangError;
use crate::hir::{
    lemma_hir_item_view, lemma_hir_module_view, lemma_hir_type_view, DefId, HirCompilationUnit,
    HirEnumVariant, HirField, HirItem, HirModule, HirParam, HirType, ParamKind, VTable, Visibility,
};
use crate::list::{copy_list, empty_list, list_of, push_item};
use crate::lowering::rules::{
    add_table, all_methods, alloc_methods, arity_mismatch, check_method, check_methods,
    check_params, find_contract, foreign_method, fresh, l_const_params, l_fields, l_method_params,
    l_value_params, l_variants, low_content, low_decls, low_enum, low_extern_fn, low_fn,
    low_global, low_impl, low_method, low_methods, low_plain, low_struct, low_use, lowered,
    method_id, missing_method, module_attributes, module_item, module_name, no_table_entry,
    no_trait, param_mismatch, provides, reg_decls, reg_plain, reg_static, reg_variants,
    return_mismatch, set_table, shown_ast_args, shown_ast_len, shown_ast_type, shown_path,
    shown_segments, static_mismatch, static_owner, table_methods, trait_name, with_defaults,
};
use crate::lowering::source::{
    contracts, lemma_source_tree_view, lemma_source_unit_view, SourceTree, SourceUnit,
    TraitMethodInfo,
};
use crate::lowering::{extended, gives, lowers, Lowerer};
use crate::symbol::SymbolPath;
use crate::table::Table;
use crate::text::{cat3, cat4, cat5, cat7, i64_string, usize_string};
use vstd::prelude::*;
use vstd::string::*;

verus! {

fn segments_text(s: &Vec<String>, from: usize) -> (r: String)
    requires
        from <= s@.len(),
    ensures
        r@ == shown_segments(s.deep_view(), from as int),
    decreases s@.len() - from,
{
    if from == s.len() {
        return String::new();
    }
    if from + 1 == s.len() {
        return cat3("\"", s[from].as_str(), "\"");
    }
    let rest = segments_text(s, from + 1);
    cat4("\"", s[from].as_str(), "\", ", rest.as_str())
}

fn path_text(p: &Path) -> (r: String)
    ensures
        r@ == shown_path(p.deep_view()),
{
    let inner = segments_text(&p.segments, 0);
    cat3("Path { segments: [", inner.as_str(), "] }")
}

fn ast_len_text(n: &ast::ArrayLen) -> (r: String)
    ensures
        r@ == shown_ast_len(n.deep_view()),
{
    match n {
        ast::ArrayLen::Known(k) => {
            let s = usize_string(*k);
            cat3("Known(", s.as_str(), ")")
        },
        ast::ArrayLen::Param(name) => cat3("Param(\"", name.as_str(), "\")"),
    }
}

fn ast_type_text(t: &Type) -> (r: String)
    ensures
        r@ == shown_ast_type(t.deep_view()),
    decreases t, 0int,
{
    proof {
        lemma_type_view(*t);
    }
    match t {
        Type::Int => String::from_str("Int"),
        Type::Char => String::from_str("Char"),
        Type::Unit => String::from_str("Unit"),
        Type::Pointer(inner) => {
            let s = ast_type_text(&**inner);
            cat3("Pointer(", s.as_str(), ")")
        },
        Type::Named(p) => {
            let s = path_text(p);
            cat3("Named(", s.as_str(), ")")
        },
        Type::Array(inner, len) => {
            let s = ast_type_text(&**inner);
            let n = ast_len_text(len);
            cat5("Array(", s.as_str(), ", ", n.as_str(), ")")
        },
        Type::Applied(p, args) => {
            let s = path_text(p);
            let a = ast_args_text(args, 0);
            cat5("Applied(", s.as_str(), ", [", a.as_str(), "])")
        },
        Type::Enum(p, args) => {
            let s = path_text(p);
            let a = ast_args_text(args, 0);
            cat5("Enum(", s.as_str(), ", [", a.as_str(), "])")
        },
    }
}

fn ast_args_text(args: &Vec<ast::TypeOrConst>, from: usize) -> (r: String)
    requires
        from <= args@.len(),
    ensures
        r@ == shown_ast_args(args.deep_view(), from as int),
    decreases args, args@.len() - from,
{
    if from == args.len() {
        return String::new();
    }
    proof {
        lemma_type_or_const_view(args@[from as int]);
    }
    let first = match &args[from] {
        ast::TypeOrConst::Type(t) => {
            let s = ast_type_text(t);
            cat3("Type(", s.as_str(), ")")
        },
        ast::TypeOrConst::Const(v) => {
            let s = i64_string(*v);
            cat3("Const(", s.as_str(), ")")
        },
    };
    if from + 1 == args.len() {
        return first;
    }
    let rest = ast_args_text(args, from + 1);
    cat3(first.as_str(), ", ", rest.as_str())
}

impl Lowerer {
    fn register_variants(
        &mut self,
        prefix: &Vec<String>,
        enum_def: DefId,
        vs: &Vec<EnumVariant>,
    ) -> (r: Result<(), MplangError>)
        ensures
            lowers(
                old(self),
                final(self),
                r,
                reg_variants(old(self).state(), prefix.deep_view(), enum_def, vs.deep_view(), 0),
            ),
    {
        let ghost goal = reg_variants(
            self.state(),
            prefix.deep_view(),
            enum_def,
            vs.deep_view(),
            0,
        );
        for i in 0..vs.len()
            invariant
                self.tree() == old(self).tree(),
                goal == reg_variants(
                    old(self).state(),
                    prefix.deep_view(),
                    enum_def,
                    vs.deep_view(),
                    0,
                ),
                goal == reg_variants(
                    self.state(),
                    prefix.deep_view(),
                    enum_def,
                    vs.deep_view(),
                    i as int,
                ),
        {
            let id = self.register_def(prefix, &vs[i].name)?;
            let name = vs[i].name.clone();
            self.variant_defs.insert(id, (enum_def, name));
        }
        Ok(())
    }

    fn register_plain(
        &mut self,
        d: &TopLevelDecl,
        prefix: &Vec<String>,
    ) -> (r: Result<(), MplangError>)
        ensures
            lowers(
                old(self),
                final(self),
                r,
                reg_plain(old(self).state(), d.deep_view(), prefix.deep_view()),
            ),
    {
        proof {
            reveal(reg_plain);
        }
        match d {
            TopLevelDecl::ModDecl { name, .. } => {
                self.register_def(prefix, name)?;
                Ok(())
            },
            TopLevelDecl::ExternCrate { name, .. } => {
                self.register_def(prefix, name)?;
                Ok(())
            },
            TopLevelDecl::UseDecl { .. } => Ok(()),
            TopLevelDecl::ExternFnDef { name, .. } => {
                self.register_def(prefix, name)?;
                Ok(())
            },
            TopLevelDecl::FnDef { name, .. } => {
                self.register_def(prefix, name)?;
                Ok(())
            },
            TopLevelDecl::StructDef { name, .. } => {
                self.register_def(prefix, name)?;
                Ok(())
            },
            TopLevelDecl::Static { name, .. } => {
                self.register_def(prefix, name)?;
                Ok(())
            },
            TopLevelDecl::Const { name, .. } => {
                self.register_def(prefix, name)?;
                Ok(())
            },
            TopLevelDecl::Trait { name, methods, .. } => {
                let id = self.register_def(prefix, name)?;
                self.trait_def_map.insert(name.clone(), id);
                let infos = contracts(methods);
                self.traits.insert(name.clone(), infos);
                Ok(())
            },
            TopLevelDecl::Impl { .. } => Ok(()),
            TopLevelDecl::Enum { name, variants, .. } => {
                let id = self.register_def(prefix, name)?;
                self.enum_defs.insert(id, ());
                self.register_variants(prefix, id, variants)
            },
        }
    }

    fn register_decls(
        &mut self,
        decls: &Vec<TopLevelDecl>,
        prefix: &Vec<String>,
        tree: &SourceTree,
    ) -> (r: Result<
        (),
        MplangError,
    >)
        ensures
            lowers(
                old(self),
                final(self),
                r,
                reg_decls(
                    old(self).state(),
                    decls.deep_view(),
                    0,
                    prefix.deep_view(),
                    tree.deep_view(),
                    0,
                ),
            ),
        decreases tree,
    {
        proof {
            lemma_source_tree_view(*tree);
        }
        let ghost t = tree.deep_view();
        let ghost goal = reg_decls(self.state(), decls.deep_view(), 0, prefix.deep_view(), t, 0);
        let mut k: usize = 0;
        for i in 0..decls.len()
            invariant
                self.tree() == old(self).tree(),
                k <= i,
                t == tree.deep_view(),
                t.units == tree.units.deep_view(),
                goal == reg_decls(
                    old(self).state(),
                    decls.deep_view(),
                    0,
                    prefix.deep_view(),
                    t,
                    0,
                ),
                goal == reg_decls(
                    self.state(),
                    decls.deep_view(),
                    i as int,
                    prefix.deep_view(),
                    t,
                    k as int,
                ),
        {
            self.register_plain(&decls[i], prefix)?;
            if let Some(name) = module_decl_name(&decls[i]) {
                if k < tree.units.len() {
                    if let Some(sub) = &tree.units[k] {
                        proof {
                            lemma_source_unit_view(*sub);
                        }
                        let sub_prefix = extended(prefix, name);
                        self.register_decls(
                            &sub.unit.declarations,
                            &sub_prefix,
                            &sub.children,
                        )?;
                    }
                }
                k = k + 1;
            }
        }
        Ok(())
    }

    fn lower_const_params(
        &mut self,
        gs: &Vec<GenericParam>,
        done: Vec<HirParam>,
    ) -> (r: Result<Vec<HirParam>, MplangError>)
        ensures
            lowers(
                old(self),
                final(self),
                r,
                l_const_params(old(self).state(), gs.deep_view(), 0, done.deep_view()),
            ),
    {
        let ghost d0 = done.deep_view();
        let mut out = done;
        let ghost goal = l_const_params(self.state(), gs.deep_view(), 0, d0);
        for i in 0..gs.len()
            invariant
                self.tree() == old(self).tree(),
                d0 == done.deep_view(),
                goal == l_const_params(old(self).state(), gs.deep_view(), 0, d0),
                goal == l_const_params(self.state(), gs.deep_view(), i as int, out.deep_view()),
        {
            if gs[i].kind == GenericParamKind::Const {
                let id = self.new_local(&gs[i].name)?;
                proof {
                    lemma_hir_type_view(HirType::Int);
                }
                push_item(
                    &mut out,
                    HirParam {
                        def_id: id,
                        name: gs[i].name.clone(),
                        ty: HirType::Int,
                        kind: ParamKind::ConstParam(i),
                    },
                );
            }
        }
        Ok(out)
    }

    fn lower_value_params(
        &mut self,
        ps: &Vec<Param>,
        done: Vec<HirParam>,
    ) -> (r: Result<Vec<HirParam>, MplangError>)
        ensures
            lowers(
                old(self),
                final(self),
                r,
                l_value_params(old(self).state(), ps.deep_view(), 0, done.deep_view()),
            ),
    {
        let ghost d0 = done.deep_view();
        let mut out = done;
        let ghost goal = l_value_params(self.state(), ps.deep_view(), 0, d0);
        for i in 0..ps.len()
            invariant
                self.tree() == old(self).tree(),
                d0 == done.deep_view(),
                goal == l_value_params(old(self).state(), ps.deep_view(), 0, d0),
                goal == l_value_params(self.state(), ps.deep_view(), i as int, out.deep_view()),
        {
            let id = self.new_local(&ps[i].name)?;
            let ty = self.lower_type(&ps[i].ty)?;
            push_item(
                &mut out,
                HirParam { def_id: id, name: ps[i].name.clone(), ty, kind: ParamKind::Value },
            );
        }
        Ok(out)
    }

    fn lower_extern_fn(
        &self,
        prefix: &Vec<String>,
        attributes: &Vec<Meta>,
        name: &String,
        param_types: &Vec<Type>,
        return_ty: &Type,
        is_variadic: bool,
    ) -> (r: Result<HirItem, MplangError>)
        ensures
            low_extern_fn(
                self.state(),
                prefix.deep_view(),
                attributes.deep_view(),
                name@,
                param_types.deep_view(),
                return_ty.deep_view(),
                is_variadic,
            ).0 == self.state(),
            gives(
                r,
                low_extern_fn(
                    self.state(),
                    prefix.deep_view(),
                    attributes.deep_view(),
                    name@,
                    param_types.deep_view(),
                    return_ty.deep_view(),
                    is_variadic,
                ).1,
            ),
    {
        proof {
            reveal(low_extern_fn);
        }
        let id = self.registered(prefix, name)?;
        let ps = self.lower_types(param_types)?;
        let ty = self.lower_type(return_ty)?;
        let slice = attributes.as_slice();
        assert(slice.deep_view() =~= attributes.deep_view());
        let link_name = match attr_string_value(slice, "link_name") {
            Some(s) => Some(String::from_str(s)),
            None => None,
        };
        let r = HirItem::ExternFn {
            def_id: id,
            visibility: Visibility::Public,
            attributes: copy_list(attributes),
            link_name,
            name: name.clone(),
            param_types: ps,
            return_ty: ty,
            is_variadic,
        };
        proof {
            lemma_hir_item_view(r);
        }
        Ok(r)
    }

    fn lower_fn(
        &mut self,
        prefix: &Vec<String>,
        attributes: &Vec<Meta>,
        name: &String,
        generics: &Vec<GenericParam>,
        params: &Vec<Param>,
        return_ty: &Type,
        body: &Vec<Stmt>,
    ) -> (r: Result<HirItem, MplangError>)
        ensures
            lowers(
                old(self),
                final(self),
                r,
                low_fn(
                    old(self).state(),
                    prefix.deep_view(),
                    attributes.deep_view(),
                    name@,
                    generics.deep_view(),
                    params.deep_view(),
                    return_ty.deep_view(),
                    body.deep_view(),
                ),
            ),
    {
        proof {
            reveal(low_fn);
        }
        let id = self.registered(prefix, name)?;
        self.locals = Table::new();
        let mut saved = copy_list(generics);
        std::mem::swap(&mut saved, &mut self.cur_generics);
        let cs = self.lower_const_params(generics, empty_list())?;
        let ps = self.lower_value_params(params, cs)?;
        let ty = self.lower_type(return_ty)?;
        let b = self.lower_body(body)?;
        self.cur_generics = saved;
        let r = HirItem::Fn {
            def_id: id,
            visibility: Visibility::Public,
            attributes: copy_list(attributes),
            name: name.clone(),
            generics: copy_list(generics),
            params: ps,
            return_ty: ty,
            body: b,
            impl_receiver: None,
        };
        proof {
            lemma_hir_item_view(r);
        }
        Ok(r)
    }

    fn lower_fields(&mut self, fs: &Vec<(String, Type)>) -> (r: Result<Vec<HirField>, MplangError>)
        ensures
            lowers(
                old(self),
                final(self),
                r,
                l_fields(old(self).state(), fs.deep_view(), 0, Seq::empty()),
            ),
    {
        let mut out: Vec<HirField> = empty_list();
        let ghost goal = l_fields(self.state(), fs.deep_view(), 0, Seq::empty());
        for i in 0..fs.len()
            invariant
                self.tree() == old(self).tree(),
                goal == l_fields(old(self).state(), fs.deep_view(), 0, Seq::empty()),
                goal == l_fields(self.state(), fs.deep_view(), i as int, out.deep_view()),
        {
            let id = self.fresh_id()?;
            let ty = self.lower_type(&fs[i].1)?;
            push_item(
                &mut out,
                HirField {
                    def_id: id,
                    name: fs[i].0.clone(),
                    ty,
                    visibility: Visibility::Public,
                },
            );
        }
        Ok(out)
    }

    fn lower_struct(
        &mut self,
        prefix: &Vec<String>,
        attributes: &Vec<Meta>,
        name: &String,
        generics: &Vec<GenericParam>,
        fields: &Vec<(String, Type)>,
    ) -> (r: Result<HirItem, MplangError>)
        ensures
            lowers(
                old(self),
                final(self),
                r,
                low_struct(
                    old(self).state(),
                    prefix.deep_view(),
                    attributes.deep_view(),
                    name@,
                    generics.deep_view(),
                    fields.deep_view(),
                ),
            ),
    {
        proof {
            reveal(low_struct);
        }
        let id = self.registered(prefix, name)?;
        let mut saved = copy_list(generics);
        std::mem::swap(&mut saved, &mut self.cur_generics);
        let fs = self.lower_fields(fields)?;
        self.cur_generics = saved;
        let r = HirItem::Struct {
            def_id: id,
            visibility: Visibility::Public,
            attributes: copy_list(attributes),
            name: name.clone(),
            generics: copy_list(generics),
            fields: fs,
        };
        proof {
            lemma_hir_item_view(r);
        }
        Ok(r)
    }

    fn lower_variants(
        &mut self,
        prefix: &Vec<String>,
        vs: &Vec<EnumVariant>,
    ) -> (r: Result<Vec<HirEnumVariant>, MplangError>)
        ensures
            lowers(
                old(self),
                final(self),
                r,
                l_variants(old(self).state(), prefix.deep_view(), vs.deep_view(), 0, Seq::empty()),
            ),
    {
        let mut out: Vec<HirEnumVariant> = empty_list();
        let ghost goal = l_variants(
            self.state(),
            prefix.deep_view(),
            vs.deep_view(),
            0,
            Seq::empty(),
        );
        for i in 0..vs.len()
            invariant
                self.tree() == old(self).tree(),
                goal == l_variants(
                    old(self).state(),
                    prefix.deep_view(),
                    vs.deep_view(),
                    0,
                    Seq::empty(),
                ),
                goal == l_variants(
                    self.state(),
                    prefix.deep_view(),
                    vs.deep_view(),
                    i as int,
                    out.deep_view(),
                ),
        {
            let id = self.registered(prefix, &vs[i].name)?;
            let fields = self.lower_fields(&vs[i].fields)?;
            push_item(
                &mut out,
                HirEnumVariant { def_id: id, name: vs[i].name.clone(), tag: i as u32, fields },
            );
        }
        Ok(out)
    }

    fn lower_enum(
        &mut self,
        prefix: &Vec<String>,
        attributes: &Vec<Meta>,
        name: &String,
        generics: &Vec<GenericParam>,
        variants: &Vec<EnumVariant>,
    ) -> (r: Result<HirItem, MplangError>)
        ensures
            lowers(
                old(self),
                final(self),
                r,
                low_enum(
                    old(self).state(),
                    prefix.deep_view(),
                    attributes.deep_view(),
                    name@,
                    generics.deep_view(),
                    variants.deep_view(),
                ),
            ),
    {
        proof {
            reveal(low_enum);
        }
        let id = self.registered(prefix, name)?;
        let mut saved = copy_list(generics);
        std::mem::swap(&mut saved, &mut self.cur_generics);
        let vs = self.lower_variants(prefix, variants)?;
        self.cur_generics = saved;
        let r = HirItem::Enum {
            def_id: id,
            visibility: Visibility::Public,
            attributes: copy_list(attributes),
            name: name.clone(),
            generics: copy_list(generics),
            variants: vs,
        };
        proof {
            lemma_hir_item_view(r);
        }
        Ok(r)
    }

    fn lower_global(
        &mut self,
        prefix: &Vec<String>,
        attributes: &Vec<Meta>,
        name: &String,
        ty: &Type,
        init: &Expr,
        is_const: bool,
    ) -> (r: Result<HirItem, MplangError>)
        ensures
            lowers(
                old(self),
                final(self),
                r,
                low_global(
                    old(self).state(),
                    prefix.deep_view(),
                    attributes.deep_view(),
                    name@,
                    ty.deep_view(),
                    init.deep_view(),
                    is_const,
                ),
            ),
    {
        proof {
            reveal(low_global);
        }
        let id = self.registered(prefix, name)?;
        self.locals = Table::new();
        let t = self.lower_type(ty)?;
        let v = self.lower_expr(init)?;
        let r = HirItem::Static {
            def_id: id,
            visibility: Visibility::Public,
            attributes: copy_list(attributes),
            name: name.clone(),
            ty: t,
            init: v,
            is_const,
        };
        proof {
            lemma_hir_item_view(r);
        }
        Ok(r)
    }

    fn lower_use(&mut self, path: &Path) -> (r: Result<(), MplangError>)
        ensures
            lowers(old(self), final(self), r, low_use(old(self).state(), path.deep_view())),
    {
        proof {
            reveal(low_use);
        }
        let d = self.resolve_path(path, "use 声明")?;
        let n: usize = path.segments.len();
        if n == 0 {
            return Err(MplangError::other("called `Option::unwrap()` on a `None` value"));
        }
        self.aliases.insert(path.segments[n - 1].clone(), d);
        Ok(())
    }

    fn check_params(
        &self,
        name: &String,
        tr: &String,
        got: &Vec<Param>,
        want: &Vec<Param>,
    ) -> (r: Result<(), MplangError>)
        requires
            got@.len() == want@.len(),
        ensures
            gives(
                r,
                check_params(self.state(), name@, tr@, got.deep_view(), want.deep_view(), 0),
            ),
    {
        let ghost goal = check_params(
            self.state(),
            name@,
            tr@,
            got.deep_view(),
            want.deep_view(),
            0,
        );
        for i in 0..got.len()
            invariant
                got@.len() == want@.len(),
                goal == check_params(
                    self.state(),
                    name@,
                    tr@,
                    got.deep_view(),
                    want.deep_view(),
                    0,
                ),
                goal == check_params(
                    self.state(),
                    name@,
                    tr@,
                    got.deep_view(),
                    want.deep_view(),
                    i as int,
                ),
        {
            let w = self.lower_type(&want[i].ty)?;
            let g = self.lower_type(&got[i].ty)?;
            if !g.same(&w) {
                proof {
                    reveal(param_mismatch);
                }
                let n = usize_string(i);
                let text = cat7(
                    "方法 `",
                    name.as_str(),
                    "` 第 ",
                    n.as_str(),
                    " 个参数类型与 trait `",
                    tr.as_str(),
                    "` 不符",
                );
                return Err(MplangError::lowering(text.as_str()));
            }
        }
        Ok(())
    }

    fn check_method(
        &self,
        ty: &Type,
        tr: &String,
        req: &Vec<TraitMethodInfo>,
        m: &ImplMethod,
    ) -> (r: Result<
        (),
        MplangError,
    >)
        ensures
            gives(
                r,
                check_method(
                    self.state(),
                    ty.deep_view(),
                    tr@,
                    req.deep_view(),
                    m.deep_view(),
                ),
            ),
    {
        proof {
            reveal(check_method);
        }
        match contract_index(req, &m.name) {
            None => {
                proof {
                    reveal(foreign_method);
                }
                let shown = ast_type_text(ty);
                let text = cat7(
                    "为类型 `",
                    shown.as_str(),
                    "` 实现 trait `",
                    tr.as_str(),
                    "` 时提供了不在 trait 中的方法 `",
                    m.name.as_str(),
                    "`",
                );
                Err(MplangError::lowering(text.as_str()))
            },
            Some(k) => {
                let sig = &req[k];
                if m.is_static != sig.is_static {
                    return Err(static_error(&m.name, m.is_static, tr, sig.is_static));
                }
                if m.params.len() != sig.params.len() {
                    return Err(arity_error(&m.name, m.params.len(), tr, sig.params.len()));
                }
                self.check_params(&m.name, tr, &m.params, &sig.params)?;
                let w = self.lower_type(&sig.return_ty)?;
                let g = self.lower_type(&m.return_ty)?;
                if !g.same(&w) {
                    proof {
                        reveal(return_mismatch);
                    }
                    let text = cat5(
                        "方法 `",
                        m.name.as_str(),
                        "` 的返回类型与 trait `",
                        tr.as_str(),
                        "` 不符",
                    );
                    return Err(MplangError::lowering(text.as_str()));
                }
                Ok(())
            },
        }
    }

    fn check_methods(
        &self,
        ty: &Type,
        tr: &String,
        req: &Vec<TraitMethodInfo>,
        ms: &Vec<ImplMethod>,
    ) -> (r: Result<(), MplangError>)
        ensures
            gives(
                r,
                check_methods(
                    self.state(),
                    ty.deep_view(),
                    tr@,
                    req.deep_view(),
                    ms.deep_view(),
                    0,
                ),
            ),
    {
        let ghost goal = check_methods(
            self.state(),
            ty.deep_view(),
            tr@,
            req.deep_view(),
            ms.deep_view(),
            0,
        );
        for i in 0..ms.len()
            invariant
                goal == check_methods(
                    self.state(),
                    ty.deep_view(),
                    tr@,
                    req.deep_view(),
                    ms.deep_view(),
                    0,
                ),
                goal == check_methods(
                    self.state(),
                    ty.deep_view(),
                    tr@,
                    req.deep_view(),
                    ms.deep_view(),
                    i as int,
                ),
        {
            self.check_method(ty, tr, req, &ms[i])?;
        }
        Ok(())
    }

    /// The methods of an implementation, defaults included.
    fn all_methods(&self, ty: &Type, trrait: &Option<Path>, ms: &Vec<ImplMethod>) -> (r: Result<
        Vec<ImplMethod>,
        MplangError,
    >)
        ensures
            gives(
                r,
                all_methods(
                    self.state(),
                    ty.deep_view(),
                    trrait.deep_view(),
                    ms.deep_view(),
                ),
            ),
    {
        proof {
            reveal(all_methods);
        }
        match trrait {
            None => Ok(copy_list(ms)),
            Some(tr) => {
                let name = trait_text(tr);
                match self.traits.get(&name) {
                    None => {
                        proof {
                            reveal(no_trait);
                        }
                        let text = cat3("未找到 trait `", name.as_str(), "`");
                        Err(MplangError::lowering(text.as_str()))
                    },
                    Some(req) => {
                        self.check_methods(ty, &name, req, ms)?;
                        add_defaults(ty, &name, req, ms)
                    },
                }
            },
        }
    }

    fn alloc_methods(&mut self, ms: &Vec<ImplMethod>) -> (r: Result<Vec<DefId>, MplangError>)
        ensures
            lowers(
                old(self),
                final(self),
                r,
                alloc_methods(old(self).state(), ms.deep_view(), 0, Seq::empty()),
            ),
    {
        let mut out: Vec<DefId> = empty_list();
        let ghost goal = alloc_methods(self.state(), ms.deep_view(), 0, Seq::empty());
        for i in 0..ms.len()
            invariant
                self.tree() == old(self).tree(),
                goal == alloc_methods(old(self).state(), ms.deep_view(), 0, Seq::empty()),
                goal == alloc_methods(self.state(), ms.deep_view(), i as int, out.deep_view()),
        {
            let id = self.fresh_id()?;
            push_item(&mut out, id);
        }
        Ok(out)
    }

    /// Records the method table of an implementation of a trait for a struct.
    fn add_table(
        &mut self,
        trrait: &Option<Path>,
        recv: &HirType,
        ms: &Vec<ImplMethod>,
        ids: &Vec<DefId>,
    ) -> (r: Result<(), MplangError>)
        requires
            ids@.len() == ms@.len(),
        ensures
            lowers(
                old(self),
                final(self),
                r,
                add_table(
                    old(self).state(),
                    trrait.deep_view(),
                    recv.deep_view(),
                    ms.deep_view(),
                    ids.deep_view(),
                ),
            ),
    {
        proof {
            reveal(add_table);
        }
        proof {
            lemma_hir_type_view(*recv);
        }
        let impl_type_def = match recv {
            HirType::Named(d) => *d,
            _ => {
                return Ok(());
            },
        };
        let tr = match trrait {
            Some(tr) => tr,
            None => {
                return Ok(());
            },
        };
        let shown = trait_text(tr);
        let trait_def = match self.trait_def_map.get(&shown) {
            Some(d) => *d,
            None => {
                return Ok(());
            },
        };
        let n: usize = tr.segments.len();
        if n == 0 {
            return Err(MplangError::other("called `Option::unwrap()` on a `None` value"));
        }
        let methods = match self.traits.get(&tr.segments[n - 1]) {
            None => {
                return Err(MplangError::other("called `Option::unwrap()` on a `None` value"));
            },
            Some(req) => table_entries(req, ms, ids)?,
        };
        let t = VTable { trait_def, impl_type_def, methods };
        put_table(&mut self.vtables, t);
        Ok(())
    }

    fn lower_method_params(
        &mut self,
        recv: &HirType,
        generics: &Vec<GenericParam>,
        m: &ImplMethod,
    ) -> (r: Result<
        Vec<HirParam>,
        MplangError,
    >)
        ensures
            lowers(
                old(self),
                final(self),
                r,
                l_method_params(
                    old(self).state(),
                    recv.deep_view(),
                    generics.deep_view(),
                    m.deep_view(),
                ),
            ),
    {
        proof {
            reveal(l_method_params);
        }
        if m.is_static {
            let cs = self.lower_const_params(generics, empty_list())?;
            self.lower_value_params(&m.params, cs)
        } else {
            let name = String::from_str("self");
            let id = self.new_local(&name)?;
            let first = HirParam { def_id: id, name, ty: recv.clone(), kind: ParamKind::Value };
            let cs = self.lower_const_params(generics, list_of(first))?;
            self.lower_value_params(&m.params, cs)
        }
    }

    /// Registers a static method under its type.
    fn register_static(&mut self, prefix: &Vec<String>, owner: &String, name: &String, id: DefId)
        ensures
            final(self).tree() == old(self).tree(),
            final(self).state() == reg_static(
                old(self).state(),
                prefix.deep_view(),
                owner@,
                name@,
                id,
            ),
    {
        if owner.as_str().is_empty() {
            return;
        }
        let under = extended(prefix, owner);
        let segs = extended(&under, name);
        self.path_to_def.insert(SymbolPath { segments: segs }, id);
        let mut bare = list_of(owner.clone());
        push_item(&mut bare, name.clone());
        assert(bare.deep_view() =~= seq![owner@, name@]);
        self.path_to_def.insert(SymbolPath { segments: bare }, id);
        self.last_seg_index.insert(name.clone(), id);
    }

    fn lower_method(
        &mut self,
        prefix: &Vec<String>,
        ty: &Type,
        recv: &HirType,
        generics: &Vec<GenericParam>,
        m: &ImplMethod,
        id: DefId,
    ) -> (r: Result<HirItem, MplangError>)
        ensures
            lowers(
                old(self),
                final(self),
                r,
                low_method(
                    old(self).state(),
                    prefix.deep_view(),
                    ty.deep_view(),
                    recv.deep_view(),
                    generics.deep_view(),
                    m.deep_view(),
                    id,
                ),
            ),
    {
        proof {
            reveal(low_method);
        }
        let mut combined = copy_list(generics);
        let ghost g0 = combined.deep_view();
        let mut more = copy_list(&m.generics);
        let ghost g1 = more.deep_view();
        combined.append(&mut more);
        assert(combined.deep_view() =~= g0 + g1);
        self.locals = Table::new();
        let mut saved = copy_list(&combined);
        std::mem::swap(&mut saved, &mut self.cur_generics);
        let params = self.lower_method_params(recv, &combined, m)?;
        let body = self.lower_body(&m.body)?;
        let return_ty = self.lower_type(&m.return_ty)?;
        self.cur_generics = saved;
        if m.is_static {
            let owner = owner_text(ty);
            self.register_static(prefix, &owner, &m.name, id);
        }
        let r = HirItem::Fn {
            def_id: id,
            visibility: Visibility::Public,
            attributes: empty_list(),
            name: m.name.clone(),
            generics: combined,
            params,
            return_ty,
            body,
            impl_receiver: if m.is_static {
                None
            } else {
                Some(recv.clone())
            },
        };
        proof {
            lemma_hir_item_view(r);
        }
        Ok(r)
    }

    fn lower_methods(
        &mut self,
        prefix: &Vec<String>,
        ty: &Type,
        recv: &HirType,
        generics: &Vec<GenericParam>,
        ms: &Vec<ImplMethod>,
        ids: &Vec<DefId>,
        done: Vec<HirItem>,
    ) -> (r: Result<Vec<HirItem>, MplangError>)
        requires
            ids@.len() == ms@.len(),
        ensures
            lowers(
                old(self),
                final(self),
                r,
                low_methods(
                    old(self).state(),
                    prefix.deep_view(),
                    ty.deep_view(),
                    recv.deep_view(),
                    generics.deep_view(),
                    ms.deep_view(),
                    ids.deep_view(),
                    0,
                    done.deep_view(),
                ),
            ),
    {
        let ghost d0 = done.deep_view();
        let mut out = done;
        let ghost goal = low_methods(
            self.state(),
            prefix.deep_view(),
            ty.deep_view(),
            recv.deep_view(),
            generics.deep_view(),
            ms.deep_view(),
            ids.deep_view(),
            0,
            d0,
        );
        for i in 0..ms.len()
            invariant
                ids@.len() == ms@.len(),
                self.tree() == old(self).tree(),
                d0 == done.deep_view(),
                goal == low_methods(
                    old(self).state(),
                    prefix.deep_view(),
                    ty.deep_view(),
                    recv.deep_view(),
                    generics.deep_view(),
                    ms.deep_view(),
                    ids.deep_view(),
                    0,
                    d0,
                ),
                goal == low_methods(
                    self.state(),
                    prefix.deep_view(),
                    ty.deep_view(),
                    recv.deep_view(),
                    generics.deep_view(),
                    ms.deep_view(),
                    ids.deep_view(),
                    i as int,
                    out.deep_view(),
                ),
        {
            let item = self.lower_method(prefix, ty, recv, generics, &ms[i], ids[i])?;
            push_item(&mut out, item);
        }
        Ok(out)
    }

    fn lower_impl(
        &mut self,
        prefix: &Vec<String>,
        generics: &Vec<GenericParam>,
        trrait: &Option<Path>,
        ty: &Type,
        methods: &Vec<ImplMethod>,
        done: Vec<HirItem>,
    ) -> (r: Result<Vec<HirItem>, MplangError>)
        ensures
            lowers(
                old(self),
                final(self),
                r,
                low_impl(
                    old(self).state(),
                    prefix.deep_view(),
                    generics.deep_view(),
                    trrait.deep_view(),
                    ty.deep_view(),
                    methods.deep_view(),
                    done.deep_view(),
                ),
            ),
    {
        proof {
            reveal(low_impl);
        }
        let mut saved = copy_list(generics);
        std::mem::swap(&mut saved, &mut self.cur_generics);
        let recv = self.lower_type(ty)?;
        self.cur_generics = saved;
        let ms = self.all_methods(ty, trrait, methods)?;
        let ids = self.alloc_methods(&ms)?;
        proof {
            lemma_alloc_len(old(self).state(), ms.deep_view(), 0, Seq::empty());
        }
        self.add_table(trrait, &recv, &ms, &ids)?;
        self.lower_methods(prefix, ty, &recv, generics, &ms, &ids, done)
    }

    fn lower_plain(
        &mut self,
        d: &TopLevelDecl,
        prefix: &Vec<String>,
        done: Vec<HirItem>,
    ) -> (r: Result<Vec<HirItem>, MplangError>)
        ensures
            lowers(
                old(self),
                final(self),
                r,
                low_plain(old(self).state(), d.deep_view(), prefix.deep_view(), done.deep_view()),
            ),
    {
        proof {
            reveal(low_plain);
        }
        let mut out = done;
        match d {
            TopLevelDecl::UseDecl { path, .. } => {
                self.lower_use(path)?;
            },
            TopLevelDecl::ExternFnDef {
                attributes,
                name,
                param_types,
                return_ty,
                is_variadic,
            } => {
                let item = self.lower_extern_fn(
                    prefix,
                    attributes,
                    name,
                    param_types,
                    return_ty,
                    *is_variadic,
                )?;
                push_item(&mut out, item);
            },
            TopLevelDecl::FnDef { attributes, name, generics, params, return_ty, body } => {
                let item = self.lower_fn(
                    prefix,
                    attributes,
                    name,
                    generics,
                    params,
                    return_ty,
                    body,
                )?;
                push_item(&mut out, item);
            },
            TopLevelDecl::StructDef { attributes, name, generics, fields } => {
                let item = self.lower_struct(prefix, attributes, name, generics, fields)?;
                push_item(&mut out, item);
            },
            TopLevelDecl::Enum { attributes, name, generics, variants } => {
                let item = self.lower_enum(prefix, attributes, name, generics, variants)?;
                push_item(&mut out, item);
            },
            TopLevelDecl::Impl { generics, trrait, ty, methods, .. } => {
                return self.lower_impl(prefix, generics, trrait, ty, methods, out);
            },
            TopLevelDecl::Static { attributes, name, ty, init } => {
                let item = self.lower_global(prefix, attributes, name, ty, init, false)?;
                push_item(&mut out, item);
            },
            TopLevelDecl::Const { attributes, name, ty, init } => {
                let item = self.lower_global(prefix, attributes, name, ty, init, true)?;
                push_item(&mut out, item);
            },
            _ => {},
        }
        Ok(out)
    }

    fn lower_content(
        &mut self,
        prefix: &Vec<String>,
        sub: &Option<SourceUnit>,
    ) -> (r: Result<Vec<HirItem>, MplangError>)
        ensures
            lowers(
                old(self),
                final(self),
                r,
                low_content(old(self).state(), prefix.deep_view(), sub.deep_view()),
            ),
        decreases sub,
    {
        match sub {
            Some(u) => {
                proof {
                    lemma_source_unit_view(*u);
                }
                self.lower_decls(&u.unit.declarations, prefix, &u.children)
            },
            None => Ok(empty_list()),
        }
    }

    fn lower_decls(
        &mut self,
        decls: &Vec<TopLevelDecl>,
        prefix: &Vec<String>,
        tree: &SourceTree,
    ) -> (r: Result<
        Vec<HirItem>,
        MplangError,
    >)
        ensures
            lowers(
                old(self),
                final(self),
                r,
                low_decls(
                    old(self).state(),
                    decls.deep_view(),
                    0,
                    prefix.deep_view(),
                    tree.deep_view(),
                    0,
                    Seq::empty(),
                ),
            ),
        decreases tree,
    {
        proof {
            lemma_source_tree_view(*tree);
        }
        let ghost t = tree.deep_view();
        let ghost goal = low_decls(
            self.state(),
            decls.deep_view(),
            0,
            prefix.deep_view(),
            t,
            0,
            Seq::empty(),
        );
        let mut items: Vec<HirItem> = empty_list();
        let mut k: usize = 0;
        for i in 0..decls.len()
            invariant
                self.tree() == old(self).tree(),
                k <= i,
                t == tree.deep_view(),
                t.units == tree.units.deep_view(),
                goal == low_decls(
                    old(self).state(),
                    decls.deep_view(),
                    0,
                    prefix.deep_view(),
                    t,
                    0,
                    Seq::empty(),
                ),
                goal == low_decls(
                    self.state(),
                    decls.deep_view(),
                    i as int,
                    prefix.deep_view(),
                    t,
                    k as int,
                    items.deep_view(),
                ),
        {
            match module_decl_name(&decls[i]) {
                Some(name) => {
                    let segs = extended(prefix, name);
                    let is_mod = matches!(&decls[i], TopLevelDecl::ModDecl { .. });
                    let early = if is_mod {
                        self.registered(prefix, name)?
                    } else {
                        DefId(0)
                    };
                    let content = if k < tree.units.len() {
                        self.lower_content(&segs, &tree.units[k])?
                    } else {
                        empty_list()
                    };
                    let id = if is_mod {
                        early
                    } else {
                        self.registered(prefix, name)?
                    };
                    let attributes = module_decl_attributes(&decls[i]);
                    let item = module_of(id, name, attributes, content);
                    push_item(&mut items, item);
                    k = k + 1;
                },
                None => {
                    items = self.lower_plain(&decls[i], prefix, items)?;
                },
            }
        }
        Ok(items)
    }

    /// Resolves the names of a program. After an error the resolver is in the
    /// state in which the error was met.
    pub fn lower(&mut self, unit: &CompilationUnit) -> (r: Result<HirCompilationUnit, MplangError>)
        ensures
            lowers(
                old(self),
                final(self),
                r,
                lowered(old(self).state(), unit.deep_view().declarations, old(self).tree()),
            ),
    {
        let tree = self.sources.clone();
        let prefix: Vec<String> = empty_list();
        self.register_decls(&unit.declarations, &prefix, &tree)?;
        let root = self.fresh_id()?;
        let items = self.lower_decls(&unit.declarations, &prefix, &tree)?;
        let root_module = HirModule {
            def_id: root,
            name: String::from_str("crate"),
            visibility: Visibility::Public,
            attributes: empty_list(),
            items,
        };
        proof {
            lemma_hir_module_view(root_module);
        }
        let mut vtables: Vec<VTable> = empty_list();
        std::mem::swap(&mut vtables, &mut self.vtables);
        Ok(HirCompilationUnit { root_module, vtables })
    }
}

proof fn lemma_alloc_len(
    s: crate::lowering::rules::LowerState,
    ms: Seq<ast::ImplMethodV>,
    i: int,
    done: Seq<DefId>,
)
    requires
        0 <= i <= ms.len(),
        done.len() == i,
    ensures
        alloc_methods(s, ms, i, done).1 matches Ok(ids) ==> ids.len() == ms.len(),
    decreases ms.len() - i,
{
    if i < ms.len() {
        match fresh(s) {
            (s1, Ok(id)) => {
                lemma_alloc_len(s1, ms, i + 1, done.push(id));
            },
            _ => {},
        }
    }
}

fn module_decl_name(d: &TopLevelDecl) -> (r: Option<&String>)
    ensures
        r.deep_view() == module_name(d.deep_view()),
{
    match d {
        TopLevelDecl::ModDecl { name, .. } => Some(name),
        TopLevelDecl::ExternCrate { name, .. } => Some(name),
        _ => None,
    }
}

fn module_decl_attributes(d: &TopLevelDecl) -> (r: Vec<Meta>)
    ensures
        r.deep_view() == module_attributes(d.deep_view()),
{
    match d {
        TopLevelDecl::ModDecl { attributes, .. } => copy_list(attributes),
        TopLevelDecl::ExternCrate { attributes, .. } => copy_list(attributes),
        _ => empty_list(),
    }
}

fn module_of(id: DefId, name: &String, attributes: Vec<Meta>, items: Vec<HirItem>) -> (r: HirItem)
    ensures
        r.deep_view() == module_item(id, name@, attributes.deep_view(), items.deep_view()),
{
    let m = HirModule {
        def_id: id,
        name: name.clone(),
        visibility: Visibility::Public,
        attributes,
        items,
    };
    proof {
        lemma_hir_module_view(m);
    }
    let r = HirItem::Module(m);
    proof {
        lemma_hir_item_view(r);
    }
    r
}

fn contract_index(req: &Vec<TraitMethodInfo>, name: &String) -> (r: Option<usize>)
    ensures
        match r {
            Some(k) => k < req@.len() && find_contract(req.deep_view(), name@, 0) == Some(
                req@[k as int].deep_view(),
            ),
            None => find_contract(req.deep_view(), name@, 0) is None,
        },
{
    for i in 0..req.len()
        invariant
            find_contract(req.deep_view(), name@, 0) == find_contract(
                req.deep_view(),
                name@,
                i as int,
            ),
    {
        if req[i].name == *name {
            return Some(i);
        }
    }
    None
}

fn static_error(name: &String, is_static: bool, tr: &String, declared: bool) -> (r: MplangError)
    ensures
        r.deep_view() == static_mismatch(name@, is_static, tr@, declared),
{
    proof {
        reveal(static_mismatch);
    }
    let a = if is_static {
        "静态"
    } else {
        "非静态"
    };
    let b = if declared {
        "静态"
    } else {
        "非静态"
    };
    let head = cat5("方法 `", name.as_str(), "` 是", a, "方法，但 trait `");
    let text = cat5(head.as_str(), tr.as_str(), "` 中声明为", b, "方法");
    MplangError::lowering(text.as_str())
}

fn arity_error(name: &String, got: usize, tr: &String, want: usize) -> (r: MplangError)
    ensures
        r.deep_view() == arity_mismatch(name@, got as nat, tr@, want as nat),
{
    proof {
        reveal(arity_mismatch);
    }
    let a = usize_string(got);
    let b = usize_string(want);
    let head = cat5(
        "方法 `",
        name.as_str(),
        "` 的参数个数（",
        a.as_str(),
        "）与 trait `",
    );
    let text = cat5(head.as_str(), tr.as_str(), "` 的声明（", b.as_str(), "）不符");
    MplangError::lowering(text.as_str())
}

fn is_provided(ms: &Vec<ImplMethod>, name: &String) -> (r: bool)
    ensures
        r == provides(ms.deep_view(), name@, 0),
{
    for i in 0..ms.len()
        invariant
            provides(ms.deep_view(), name@, 0) == provides(ms.deep_view(), name@, i as int),
    {
        if ms[i].name == *name {
            return true;
        }
    }
    false
}

fn add_defaults(
    ty: &Type,
    tr: &String,
    req: &Vec<TraitMethodInfo>,
    ms: &Vec<ImplMethod>,
) -> (r: Result<
    Vec<ImplMethod>,
    MplangError,
>)
    ensures
        gives(
            r,
            with_defaults(
                ty.deep_view(),
                tr@,
                req.deep_view(),
                ms.deep_view(),
                0,
                ms.deep_view(),
            ),
        ),
{
    let mut out = copy_list(ms);
    let ghost goal = with_defaults(
        ty.deep_view(),
        tr@,
        req.deep_view(),
        ms.deep_view(),
        0,
        ms.deep_view(),
    );
    for i in 0..req.len()
        invariant
            goal == with_defaults(
                ty.deep_view(),
                tr@,
                req.deep_view(),
                ms.deep_view(),
                0,
                ms.deep_view(),
            ),
            goal == with_defaults(
                ty.deep_view(),
                tr@,
                req.deep_view(),
                ms.deep_view(),
                i as int,
                out.deep_view(),
            ),
    {
        if !is_provided(ms, &req[i].name) {
            match &req[i].default_body {
                None => {
                    proof {
                        reveal(missing_method);
                    }
                    let shown = ast_type_text(ty);
                    let text = cat7(
                        "类型 `",
                        shown.as_str(),
                        "` 实现 trait `",
                        tr.as_str(),
                        "` 时未提供必填方法 `",
                        req[i].name.as_str(),
                        "`",
                    );
                    return Err(MplangError::lowering(text.as_str()));
                },
                Some(body) => {
                    let m = ImplMethod {
                        name: req[i].name.clone(),
                        generics: empty_list(),
                        params: copy_list(&req[i].params),
                        return_ty: req[i].return_ty.clone(),
                        body: copy_list(body),
                        is_static: req[i].is_static,
                    };
                    push_item(&mut out, m);
                },
            }
        }
    }
    Ok(out)
}

fn trait_text(tr: &Path) -> (r: String)
    ensures
        r@ == trait_name(tr.deep_view()),
{
    match tr.last() {
        Some(name) => String::from_str(name),
        None => String::from_str("?"),
    }
}

fn owner_text(ty: &Type) -> (r: String)
    ensures
        r@ == static_owner(ty.deep_view()),
{
    proof {
        lemma_type_view(*ty);
    }
    let last = match ty {
        Type::Named(p) => p.last(),
        Type::Applied(p, _) => p.last(),
        _ => None,
    };
    match last {
        Some(name) => String::from_str(name),
        None => String::new(),
    }
}

fn method_id_of(ms: &Vec<ImplMethod>, ids: &Vec<DefId>, name: &String) -> (r: Option<DefId>)
    requires
        ids@.len() == ms@.len(),
    ensures
        r == method_id(ms.deep_view(), ids.deep_view(), name@, ms@.len() as int),
{
    let mut n: usize = ms.len();
    while n > 0
        invariant
            n <= ms@.len(),
            ids@.len() == ms@.len(),
            method_id(ms.deep_view(), ids.deep_view(), name@, ms@.len() as int) == method_id(
                ms.deep_view(),
                ids.deep_view(),
                name@,
                n as int,
            ),
        decreases n,
    {
        if ms[n - 1].name == *name {
            return Some(ids[n - 1]);
        }
        n = n - 1;
    }
    None
}

fn table_entries(req: &Vec<TraitMethodInfo>, ms: &Vec<ImplMethod>, ids: &Vec<DefId>) -> (r: Result<
    Vec<DefId>,
    MplangError,
>)
    requires
        ids@.len() == ms@.len(),
    ensures
        gives(
            r,
            table_methods(req.deep_view(), ms.deep_view(), ids.deep_view(), 0, Seq::empty()),
        ),
{
    let mut out: Vec<DefId> = empty_list();
    let ghost goal = table_methods(
        req.deep_view(),
        ms.deep_view(),
        ids.deep_view(),
        0,
        Seq::empty(),
    );
    for i in 0..req.len()
        invariant
            ids@.len() == ms@.len(),
            goal == table_methods(
                req.deep_view(),
                ms.deep_view(),
                ids.deep_view(),
                0,
                Seq::empty(),
            ),
            goal == table_methods(
                req.deep_view(),
                ms.deep_view(),
                ids.deep_view(),
                i as int,
                out.deep_view(),
            ),
    {
        match method_id_of(ms, ids, &req[i].name) {
            Some(id) => {
                push_item(&mut out, id);
            },
            None => {
                proof {
                    reveal(no_table_entry);
                }
                let text = cat3(
                    "内部错误：方法 `",
                    req[i].name.as_str(),
                    "` 未在 vtable 中找到",
                );
                return Err(MplangError::lowering(text.as_str()));
            },
        }
    }
    Ok(out)
}

/// Sets the method table of a trait and a type.
fn put_table(ts: &mut Vec<VTable>, t: VTable)
    ensures
        final(ts).deep_view() == set_table(old(ts).deep_view(), t.deep_view(), 0),
{
    let n: usize = ts.len();
    let ghost before = ts.deep_view();
    let mut i: usize = 0;
    while i < n
        invariant
            i <= n,
            n == ts@.len(),
            before == ts.deep_view(),
            before == old(ts).deep_view(),
            set_table(before, t.deep_view(), 0) == set_table(before, t.deep_view(), i as int),
        decreases n - i,
    {
        if ts[i].trait_def == t.trait_def && ts[i].impl_type_def == t.impl_type_def {
            let ghost tv = t.deep_view();
            ts.set(i, t);
            assert(ts.deep_view() =~= before.update(i as int, tv));
            return;
        }
        i = i + 1;
    }
    push_item(ts, t);
}

} // verus!
