//! Expressions and statements.

use crate::ast::{
    lemma_expr_view, lemma_match_arm_view, lemma_stmt_view, Expr, Literal, MatchArm, Path, Pattern,
    Stmt, Type,
};
use crate::error::MplangError;
use crate::hir::{
    lemma_hir_body_view, lemma_hir_expr_view, lemma_hir_match_arm_view, lemma_hir_stmt_view, DefId,
    HirBody, HirExpr, HirMatchArm, HirPattern, HirStmt, HirType, TypeOrConst,
};
use crate::list::{empty_list, push_item};
use crate::lowering::rules::{
    call_of, l_arms, l_bindings, l_expr, l_exprs, l_field_inits, l_pattern, l_repeat, l_stmt,
    l_stmts, local_of, named_variant, no_variant, value_of,
};
use crate::lowering::{gives, lowers, Lowerer};
use crate::table::lookup;
use crate::text::{cat3, copy_strings};
use vstd::prelude::*;

verus! {

impl Lowerer {
    /// The local variable that a path names.
    fn local_of(&self, path: &Path) -> (r: Option<DefId>)
        ensures
            r == local_of(self.state(), path.deep_view()),
    {
        let n: usize = path.segments.len();
        if n == 0 {
            return None;
        }
        match self.locals.get(&path.segments[n - 1]) {
            Some(id) => Some(*id),
            None => None,
        }
    }

    /// The enumeration and the name of a variant.
    fn variant_of(&self, d: DefId) -> (r: Option<(DefId, String)>)
        ensures
            r.deep_view() == lookup(self.state().variants, d),
    {
        match self.variant_defs.get(&d) {
            Some(v) => {
                let name = v.1.clone();
                Some((v.0, name))
            },
            None => None,
        }
    }

    fn call_of(&self, d: DefId, args: Vec<HirExpr>, turbofish: Vec<TypeOrConst>) -> (r: HirExpr)
        ensures
            r.deep_view() == call_of(
                self.state(),
                d,
                args.deep_view(),
                turbofish.deep_view(),
            ),
    {
        let r = match self.variant_of(d) {
            Some((def_id, variant)) => HirExpr::Variant { def_id, variant, args, turbofish },
            None => HirExpr::Call { callee: d, args, turbofish },
        };
        proof {
            lemma_hir_expr_view(r);
        }
        r
    }

    fn value_of(&self, d: DefId) -> (r: HirExpr)
        ensures
            r.deep_view() == value_of(self.state(), d),
    {
        let r = match self.variant_of(d) {
            Some((def_id, variant)) => HirExpr::Variant {
                def_id,
                variant,
                args: empty_list(),
                turbofish: empty_list(),
            },
            None => HirExpr::Path(d),
        };
        proof {
            lemma_hir_expr_view(r);
        }
        r
    }

    fn lower_repeat(repeat: &Option<Box<Expr>>) -> (r: Result<Option<usize>, MplangError>)
        ensures
            gives(
                r,
                l_repeat(
                    match repeat {
                        Some(e) => Some(Box::new((**e).deep_view())),
                        None => None,
                    },
                ),
            ),
    {
        match repeat {
            None => Ok(None),
            Some(e) => {
                proof {
                    lemma_expr_view(**e);
                }
                if let Expr::Literal(Literal::Int(n)) = &**e {
                    Ok(Some(*n as usize))
                } else {
                    Err(MplangError::lowering("数组字面量重复形式 [v; n] 的 n 必须是整型字面量"))
                }
            },
        }
    }

    pub(super) fn lower_expr(&mut self, expr: &Expr) -> (r: Result<HirExpr, MplangError>)
        ensures
            lowers(old(self), final(self), r, l_expr(old(self).state(), expr.deep_view())),
        decreases expr,
    {
        proof {
            lemma_expr_view(*expr);
        }
        match expr {
            Expr::Literal(l) => {
                let r = HirExpr::Literal(l.clone());
                proof {
                    lemma_hir_expr_view(r);
                }
                Ok(r)
            },
            Expr::Ident(path) => {
                if let Some(id) = self.local_of(path) {
                    let r = HirExpr::Path(id);
                    proof {
                        lemma_hir_expr_view(r);
                    }
                    return Ok(r);
                }
                let d = self.resolve_path(path, "标识符")?;
                Ok(self.value_of(d))
            },
            Expr::Paren(inner) => self.lower_expr(&**inner),
            Expr::Binary { op, lhs, rhs } => {
                let l = self.lower_expr(&**lhs)?;
                let h = self.lower_expr(&**rhs)?;
                let r = HirExpr::Binary { op: *op, lhs: Box::new(l), rhs: Box::new(h) };
                proof {
                    lemma_hir_expr_view(r);
                }
                Ok(r)
            },
            Expr::Call { callee, args, turbofish } => {
                let d = self.resolve_path(callee, "函数调用")?;
                let a = self.lower_exprs(args)?;
                let t = self.lower_turbofish(turbofish)?;
                Ok(self.call_of(d, a, t))
            },
            Expr::FieldAccess { object, field } => {
                let o = self.lower_expr(&**object)?;
                let r = HirExpr::FieldAccess { object: Box::new(o), field: field.clone() };
                proof {
                    lemma_hir_expr_view(r);
                }
                Ok(r)
            },
            Expr::StructLiteral { name, fields, turbofish } => {
                let d = self.resolve_path(name, "结构体字面量")?;
                let f = self.lower_field_inits(fields)?;
                let t = self.lower_turbofish(turbofish)?;
                let r = HirExpr::StructLiteral { def_id: d, fields: f, turbofish: t };
                proof {
                    lemma_hir_expr_view(r);
                }
                Ok(r)
            },
            Expr::AddrOf(inner) => {
                let h = self.lower_expr(&**inner)?;
                let r = HirExpr::AddressOf(Box::new(h));
                proof {
                    lemma_hir_expr_view(r);
                }
                Ok(r)
            },
            Expr::Deref(inner) => {
                let h = self.lower_expr(&**inner)?;
                let r = HirExpr::Deref(Box::new(h));
                proof {
                    lemma_hir_expr_view(r);
                }
                Ok(r)
            },
            Expr::MethodCall { object, name, args } => {
                let o = self.lower_expr(&**object)?;
                let a = self.lower_exprs(args)?;
                let r = HirExpr::MethodCall { object: Box::new(o), name: name.clone(), args: a };
                proof {
                    lemma_hir_expr_view(r);
                }
                Ok(r)
            },
            Expr::ArrayLiteral { elements, repeat } => {
                let n = Self::lower_repeat(repeat)?;
                let es = self.lower_exprs(elements)?;
                let r = HirExpr::ArrayLiteral { elements: es, repeat: n };
                proof {
                    lemma_hir_expr_view(r);
                }
                Ok(r)
            },
            Expr::Index { array, index } => {
                let a = self.lower_expr(&**array)?;
                let i = self.lower_expr(&**index)?;
                let r = HirExpr::Index { array: Box::new(a), index: Box::new(i) };
                proof {
                    lemma_hir_expr_view(r);
                }
                Ok(r)
            },
            Expr::StaticCall { ty_path, method, args, turbofish } => {
                let mut segs = copy_strings(&ty_path.segments);
                push_item(&mut segs, method.clone());
                let callee = Path::new(segs);
                let d = self.resolve_path(&callee, "静态方法调用")?;
                let a = self.lower_exprs(args)?;
                let t = self.lower_turbofish(turbofish)?;
                let r = HirExpr::Call { callee: d, args: a, turbofish: t };
                proof {
                    lemma_hir_expr_view(r);
                }
                Ok(r)
            },
            Expr::Match { scrutinee, arms } => {
                let v = self.lower_expr(&**scrutinee)?;
                let a = self.lower_arms(arms)?;
                let r = HirExpr::Match { scrutinee: Box::new(v), arms: a };
                proof {
                    lemma_hir_expr_view(r);
                }
                Ok(r)
            },
        }
    }

    fn lower_exprs(&mut self, es: &Vec<Expr>) -> (r: Result<Vec<HirExpr>, MplangError>)
        ensures
            lowers(
                old(self),
                final(self),
                r,
                l_exprs(old(self).state(), es.deep_view(), 0, Seq::empty()),
            ),
        decreases es,
    {
        let mut out: Vec<HirExpr> = empty_list();
        let ghost goal = l_exprs(self.state(), es.deep_view(), 0, Seq::empty());
        for i in 0..es.len()
            invariant
                self.tree() == old(self).tree(),
                goal == l_exprs(old(self).state(), es.deep_view(), 0, Seq::empty()),
                goal == l_exprs(self.state(), es.deep_view(), i as int, out.deep_view()),
        {
            let h = self.lower_expr(&es[i])?;
            push_item(&mut out, h);
        }
        Ok(out)
    }

    fn lower_field_inits(
        &mut self,
        fs: &Vec<(String, Expr)>,
    ) -> (r: Result<Vec<(String, HirExpr)>, MplangError>)
        ensures
            lowers(
                old(self),
                final(self),
                r,
                l_field_inits(old(self).state(), fs.deep_view(), 0, Seq::empty()),
            ),
        decreases fs,
    {
        let mut out: Vec<(String, HirExpr)> = empty_list();
        let ghost goal = l_field_inits(self.state(), fs.deep_view(), 0, Seq::empty());
        for i in 0..fs.len()
            invariant
                self.tree() == old(self).tree(),
                goal == l_field_inits(old(self).state(), fs.deep_view(), 0, Seq::empty()),
                goal == l_field_inits(self.state(), fs.deep_view(), i as int, out.deep_view()),
        {
            let h = self.lower_expr(&fs[i].1)?;
            let name = fs[i].0.clone();
            push_item(&mut out, (name, h));
        }
        Ok(out)
    }

    fn lower_arms(&mut self, arms: &Vec<MatchArm>) -> (r: Result<Vec<HirMatchArm>, MplangError>)
        ensures
            lowers(
                old(self),
                final(self),
                r,
                l_arms(old(self).state(), arms.deep_view(), 0, Seq::empty()),
            ),
        decreases arms,
    {
        let mut out: Vec<HirMatchArm> = empty_list();
        let ghost goal = l_arms(self.state(), arms.deep_view(), 0, Seq::empty());
        for i in 0..arms.len()
            invariant
                self.tree() == old(self).tree(),
                goal == l_arms(old(self).state(), arms.deep_view(), 0, Seq::empty()),
                goal == l_arms(self.state(), arms.deep_view(), i as int, out.deep_view()),
        {
            proof {
                lemma_match_arm_view(arms@[i as int]);
            }
            let saved = self.locals.duplicate();
            let pattern = self.lower_pattern(&arms[i].pattern)?;
            let body = self.lower_body(&arms[i].body)?;
            self.locals = saved;
            let arm = HirMatchArm { pattern, body };
            proof {
                lemma_hir_match_arm_view(arm);
                lemma_hir_body_view(body);
            }
            push_item(&mut out, arm);
        }
        Ok(out)
    }

    fn lower_pattern(&mut self, pattern: &Pattern) -> (r: Result<HirPattern, MplangError>)
        ensures
            lowers(old(self), final(self), r, l_pattern(old(self).state(), pattern.deep_view())),
    {
        proof {
            reveal(l_pattern);
        }
        match pattern {
            Pattern::Variant { enum_def, variant, bindings } => {
                let d = self.resolve_path(enum_def, "变体模式")?;
                match self.variant_of(d) {
                    Some((enum_id, _)) => {
                        let b = self.lower_bindings(bindings)?;
                        Ok(
                            HirPattern::Variant {
                                enum_def: enum_id,
                                variant: variant.clone(),
                                bindings: b,
                            },
                        )
                    },
                    None => {
                        proof {
                            reveal(no_variant);
                        }
                        let shown = enum_def.to_string();
                        let text = cat3("`", shown.as_str(), "` 不是枚举变体");
                        Err(MplangError::lowering(text.as_str()))
                    },
                }
            },
            Pattern::Literal(l) => Ok(HirPattern::Literal(l.clone())),
            Pattern::Wildcard => Ok(HirPattern::Wildcard),
            Pattern::Ident(name) => {
                match self.named_variant(name) {
                    Some((enum_def, variant)) => Ok(
                        HirPattern::Variant { enum_def, variant, bindings: empty_list() },
                    ),
                    None => {
                        let id = self.new_local(name)?;
                        Ok(HirPattern::Ident(id))
                    },
                }
            },
        }
    }

    fn named_variant(&self, name: &String) -> (r: Option<(DefId, String)>)
        ensures
            r.deep_view() == named_variant(self.state(), name@),
    {
        match self.last_seg_index.get(name) {
            Some(d) => self.variant_of(*d),
            None => None,
        }
    }

    fn lower_bindings(
        &mut self,
        bs: &Vec<(String, Option<Type>)>,
    ) -> (r: Result<Vec<(DefId, Option<HirType>)>, MplangError>)
        ensures
            lowers(
                old(self),
                final(self),
                r,
                l_bindings(old(self).state(), bs.deep_view(), 0, Seq::empty()),
            ),
    {
        let mut out: Vec<(DefId, Option<HirType>)> = empty_list();
        let ghost goal = l_bindings(self.state(), bs.deep_view(), 0, Seq::empty());
        for i in 0..bs.len()
            invariant
                self.tree() == old(self).tree(),
                goal == l_bindings(old(self).state(), bs.deep_view(), 0, Seq::empty()),
                goal == l_bindings(self.state(), bs.deep_view(), i as int, out.deep_view()),
        {
            let id = self.new_local(&bs[i].0)?;
            let t = self.lower_opt_type(&bs[i].1)?;
            push_item(&mut out, (id, t));
        }
        Ok(out)
    }

    fn lower_stmt(&mut self, stmt: &Stmt) -> (r: Result<HirStmt, MplangError>)
        ensures
            lowers(old(self), final(self), r, l_stmt(old(self).state(), stmt.deep_view())),
        decreases stmt,
    {
        proof {
            lemma_stmt_view(*stmt);
        }
        match stmt {
            Stmt::Let { name, ty, init } => {
                let id = self.new_local(name)?;
                let t = self.lower_opt_type(ty)?;
                let v = self.lower_expr(init)?;
                let r = HirStmt::Let { def_id: id, name: name.clone(), ty: t, init: v };
                proof {
                    lemma_hir_stmt_view(r);
                }
                Ok(r)
            },
            Stmt::Static { .. } => Err(
                MplangError::lowering("static/const 声明不允许出现在函数体内，请将它们移到顶层。"),
            ),
            Stmt::Const { .. } => Err(
                MplangError::lowering("static/const 声明不允许出现在函数体内，请将它们移到顶层。"),
            ),
            Stmt::Assign { target, value } => {
                let t = self.lower_expr(&**target)?;
                let v = self.lower_expr(value)?;
                let r = HirStmt::Assign { target: t, value: v };
                proof {
                    lemma_hir_stmt_view(r);
                }
                Ok(r)
            },
            Stmt::Expr(e) => {
                let v = self.lower_expr(e)?;
                let r = HirStmt::Expr(v);
                proof {
                    lemma_hir_stmt_view(r);
                }
                Ok(r)
            },
            Stmt::If { cond, then_branch, else_branch } => {
                let c = self.lower_expr(cond)?;
                let a = self.lower_body(then_branch)?;
                let b = match else_branch {
                    Some(other) => Some(self.lower_body(other)?),
                    None => None,
                };
                let r = HirStmt::If { cond: c, then_branch: a, else_branch: b };
                proof {
                    lemma_hir_stmt_view(r);
                }
                Ok(r)
            },
            Stmt::While { cond, body } => {
                let c = self.lower_expr(cond)?;
                let b = self.lower_body(body)?;
                let r = HirStmt::While { cond: c, body: b };
                proof {
                    lemma_hir_stmt_view(r);
                }
                Ok(r)
            },
            Stmt::Return(value) => {
                let v = match value {
                    Some(e) => Some(self.lower_expr(e)?),
                    None => None,
                };
                let r = HirStmt::Return(v);
                proof {
                    lemma_hir_stmt_view(r);
                }
                Ok(r)
            },
        }
    }

    /// A block of statements.
    pub(super) fn lower_body(&mut self, stmts: &Vec<Stmt>) -> (r: Result<HirBody, MplangError>)
        ensures
            final(self).tree() == old(self).tree(),
            final(self).state() == l_stmts(old(self).state(), stmts.deep_view(), 0, Seq::empty()).0,
            match r {
                Ok(b) => l_stmts(old(self).state(), stmts.deep_view(), 0, Seq::empty()).1 == Ok::<
                    Seq<crate::hir::HirStmtV>,
                    crate::error::MplangErrorV,
                >(b.deep_view().stmts),
                Err(e) => l_stmts(old(self).state(), stmts.deep_view(), 0, Seq::empty()).1 == Err::<
                    Seq<crate::hir::HirStmtV>,
                    crate::error::MplangErrorV,
                >(e.deep_view()),
            },
        decreases stmts,
    {
        let mut out: Vec<HirStmt> = empty_list();
        let ghost goal = l_stmts(self.state(), stmts.deep_view(), 0, Seq::empty());
        for i in 0..stmts.len()
            invariant
                self.tree() == old(self).tree(),
                goal == l_stmts(old(self).state(), stmts.deep_view(), 0, Seq::empty()),
                goal == l_stmts(self.state(), stmts.deep_view(), i as int, out.deep_view()),
        {
            let h = self.lower_stmt(&stmts[i])?;
            push_item(&mut out, h);
        }
        let r = HirBody { stmts: out };
        proof {
            lemma_hir_body_view(r);
        }
        Ok(r)
    }
}

} // verus!
