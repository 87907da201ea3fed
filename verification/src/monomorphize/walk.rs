//! Expressions and statements.

use crate::ast::Literal;
use crate::error::{MplangError, MplangErrorV};
use crate::hir::{lemma_hir_type_view, DefId, HirType, TypeOrConst};
use crate::list::{empty_list, push_item};
use crate::monomorphize::infer::{const_args_of, const_param};
use crate::monomorphize::rules::{
    m_arms, m_bindings, m_call, m_expr, m_exprs, m_inits, m_instance_call, m_kind, m_pattern,
    m_plain_call, m_stmt, m_stmts, m_targs,
};
use crate::monomorphize::template::FnTemplate;
use crate::monomorphize::{expands, Mono, Scope};
use crate::tyhir::{
    lemma_ty_hir_body_view, lemma_ty_hir_expr_kind_view, lemma_ty_hir_expr_view,
    lemma_ty_hir_match_arm_view, lemma_ty_hir_stmt_view, TyHirBody, TyHirExpr, TyHirExprKind,
    TyHirExprKindV, TyHirExprV, TyHirMatchArm, TyHirPattern, TyHirStmt,
    TyHirStmtV,
};
use vstd::prelude::*;

verus! {

fn expr_of(ty: HirType, kind: TyHirExprKind) -> (r: TyHirExpr)
    ensures
        r.deep_view() == (TyHirExprV { ty: ty.deep_view(), kind: kind.deep_view() }),
{
    let r = TyHirExpr { ty, kind };
    proof {
        lemma_ty_hir_expr_view(r);
    }
    r
}

fn call_of(ty: HirType, callee: DefId, args: Vec<TyHirExpr>) -> (r: TyHirExpr)
    ensures
        r.deep_view() == (TyHirExprV {
            ty: ty.deep_view(),
            kind: TyHirExprKindV::Call {
                callee,
                args: args.deep_view(),
                turbofish: Seq::empty(),
            },
        }),
{
    let kind = TyHirExprKind::Call { callee, args, turbofish: empty_list() };
    proof {
        lemma_ty_hir_expr_kind_view(kind);
    }
    expr_of(ty, kind)
}

impl Mono {
    /// Explicit generic arguments with their types expanded.
    fn mono_targs(&mut self, tf: &Vec<TypeOrConst>, c: &Scope, fuel: usize) -> (r: Result<
        Vec<TypeOrConst>,
        MplangError,
    >)
        ensures
            expands(
                final(self),
                r,
                m_targs(
                    old(self).state(),
                    tf.deep_view(),
                    c.model(),
                    0,
                    Seq::empty(),
                    fuel as nat,
                ),
            ),
        decreases fuel, 2int, tf, 0int,
    {
        let ghost goal = m_targs(
            self.state(),
            tf.deep_view(),
            c.model(),
            0,
            Seq::empty(),
            fuel as nat,
        );
        let mut out: Vec<TypeOrConst> = empty_list();
        let mut i: usize = 0;
        while i < tf.len()
            invariant
                i <= tf@.len(),
                goal == m_targs(
                    old(self).state(),
                    tf.deep_view(),
                    c.model(),
                    0,
                    Seq::empty(),
                    fuel as nat,
                ),
                goal == m_targs(
                    self.state(),
                    tf.deep_view(),
                    c.model(),
                    i as int,
                    out.deep_view(),
                    fuel as nat,
                ),
            decreases tf@.len() - i,
        {
            let a = match &tf[i] {
                TypeOrConst::Type(t) => {
                    let u = self.mono_type(t, &c.generics, &c.types, &c.consts, fuel)?;
                    TypeOrConst::Type(u)
                },
                TypeOrConst::ConstParam(k) => {
                    let v: i64 = const_param(&c.generics, &c.consts, *k)?;
                    TypeOrConst::Const(v)
                },
                TypeOrConst::Const(v) => TypeOrConst::Const(*v),
            };
            push_item(&mut out, a);
            i = i + 1;
        }
        Ok(out)
    }

    /// A call of a function with expanded arguments.
    fn mono_call(
        &mut self,
        callee: DefId,
        args: Vec<TyHirExpr>,
        tf: &Vec<TypeOrConst>,
        ret: &HirType,
        c: &Scope,
        fuel: usize,
    ) -> (r: Result<TyHirExpr, MplangError>)
        ensures
            expands(
                final(self),
                r,
                m_call(
                    old(self).state(),
                    callee,
                    args.deep_view(),
                    tf.deep_view(),
                    ret.deep_view(),
                    c.model(),
                    fuel as nat,
                ),
            ),
        decreases fuel, 4int, args, 1int,
    {
        let template: Option<FnTemplate> = match self.fn_templates.get(&callee) {
            Some(t) => Some(t.clone()),
            None => None,
        };
        match template {
            Some(t) => {
                let given = self.mono_targs(tf, c, fuel)?;
                let (ta, consts) = self.infer_call_args(&t, &args, &given)?;
                let ca = const_args_of(c, &consts)?;
                self.call_instance(callee, &t, &ta, &ca, args, ret, fuel)
            },
            None => self.call_plain(callee, args, ret, c, fuel),
        }
    }

    fn call_instance(
        &mut self,
        callee: DefId,
        t: &FnTemplate,
        ta: &Vec<HirType>,
        ca: &Vec<i64>,
        args: Vec<TyHirExpr>,
        ret: &HirType,
        fuel: usize,
    ) -> (r: Result<TyHirExpr, MplangError>)
        ensures
            expands(
                final(self),
                r,
                m_instance_call(
                    old(self).state(),
                    callee,
                    t.deep_view(),
                    ta.deep_view(),
                    ca.deep_view(),
                    args.deep_view(),
                    ret.deep_view(),
                    fuel as nat,
                ),
            ),
        decreases fuel, 4int, args, 0int,
    {
        let id = self.instantiate_fn(callee, t, ta, ca, fuel)?;
        let u = self.mono_type(ret, &t.generics, ta, ca, fuel)?;
        Ok(call_of(u, id, args))
    }

    fn call_plain(
        &mut self,
        callee: DefId,
        args: Vec<TyHirExpr>,
        ret: &HirType,
        c: &Scope,
        fuel: usize,
    ) -> (r: Result<TyHirExpr, MplangError>)
        ensures
            expands(
                final(self),
                r,
                m_plain_call(
                    old(self).state(),
                    callee,
                    args.deep_view(),
                    ret.deep_view(),
                    c.model(),
                    fuel as nat,
                ),
            ),
        decreases fuel, 4int, args, 0int,
    {
        let u = self.mono_type(ret, &c.generics, &c.types, &c.consts, fuel)?;
        Ok(call_of(u, callee, args))
    }

    pub(super) fn mono_expr(&mut self, e: &TyHirExpr, c: &Scope, fuel: usize) -> (r: Result<
        TyHirExpr,
        MplangError,
    >)
        ensures
            expands(
                final(self),
                r,
                m_expr(old(self).state(), e.deep_view(), c.model(), fuel as nat),
            ),
        decreases fuel, 5int, e, 1int,
    {
        proof {
            lemma_ty_hir_expr_view(*e);
        }
        let ty = self.mono_type(&e.ty, &c.generics, &c.types, &c.consts, fuel)?;
        self.mono_kind(&e.kind, ty, c, fuel)
    }

    fn mono_kind(&mut self, k: &TyHirExprKind, ty: HirType, c: &Scope, fuel: usize) -> (r: Result<
        TyHirExpr,
        MplangError,
    >)
        ensures
            expands(
                final(self),
                r,
                m_kind(
                    old(self).state(),
                    k.deep_view(),
                    ty.deep_view(),
                    c.model(),
                    fuel as nat,
                ),
            ),
        decreases fuel, 5int, k, 0int,
    {
        proof {
            lemma_ty_hir_expr_kind_view(*k);
        }
        match k {
            TyHirExprKind::Literal(_) => {
                let kind = k.clone();
                Ok(expr_of(ty, kind))
            },
            TyHirExprKind::Path(d) => {
                if let Some(v) = c.values.get(d) {
                    let kind = TyHirExprKind::Literal(Literal::Int(*v));
                    proof {
                        lemma_ty_hir_expr_kind_view(kind);
                        lemma_hir_type_view(HirType::Int);
                    }
                    return Ok(expr_of(HirType::Int, kind));
                }
                let kind = k.clone();
                Ok(expr_of(ty, kind))
            },
            TyHirExprKind::Binary { op, lhs, rhs } => {
                let l = self.mono_expr(&**lhs, c, fuel)?;
                let h = self.mono_expr(&**rhs, c, fuel)?;
                let kind = TyHirExprKind::Binary { op: *op, lhs: Box::new(l), rhs: Box::new(h) };
                proof {
                    lemma_ty_hir_expr_kind_view(kind);
                }
                Ok(expr_of(ty, kind))
            },
            TyHirExprKind::Call { callee, args, turbofish } => {
                let a = self.mono_exprs(args, c, fuel)?;
                self.mono_call(*callee, a, turbofish, &ty, c, fuel)
            },
            TyHirExprKind::FieldAccess { object, field } => {
                let o = self.mono_expr(&**object, c, fuel)?;
                let kind = TyHirExprKind::FieldAccess { object: Box::new(o), field: *field };
                proof {
                    lemma_ty_hir_expr_kind_view(kind);
                }
                Ok(expr_of(ty, kind))
            },
            TyHirExprKind::StructLiteral { def_id, fields, turbofish: _ } => {
                let fs = self.mono_inits(fields, c, fuel)?;
                proof {
                    lemma_hir_type_view(ty);
                }
                let d = match &ty {
                    HirType::Named(d) => *d,
                    _ => *def_id,
                };
                let kind = TyHirExprKind::StructLiteral {
                    def_id: d,
                    fields: fs,
                    turbofish: empty_list(),
                };
                proof {
                    lemma_ty_hir_expr_kind_view(kind);
                }
                Ok(expr_of(ty, kind))
            },
            TyHirExprKind::ArrayLiteral { elements, repeat } => {
                let es = self.mono_exprs(elements, c, fuel)?;
                let kind = TyHirExprKind::ArrayLiteral { elements: es, repeat: *repeat };
                proof {
                    lemma_ty_hir_expr_kind_view(kind);
                }
                Ok(expr_of(ty, kind))
            },
            TyHirExprKind::Index { array, index } => {
                let a = self.mono_expr(&**array, c, fuel)?;
                let i = self.mono_expr(&**index, c, fuel)?;
                let kind = TyHirExprKind::Index { array: Box::new(a), index: Box::new(i) };
                proof {
                    lemma_ty_hir_expr_kind_view(kind);
                }
                Ok(expr_of(ty, kind))
            },
            TyHirExprKind::AddressOf(inner) => {
                let x = self.mono_expr(&**inner, c, fuel)?;
                let kind = TyHirExprKind::AddressOf(Box::new(x));
                proof {
                    lemma_ty_hir_expr_kind_view(kind);
                }
                Ok(expr_of(ty, kind))
            },
            TyHirExprKind::Deref(inner) => {
                let x = self.mono_expr(&**inner, c, fuel)?;
                let kind = TyHirExprKind::Deref(Box::new(x));
                proof {
                    lemma_ty_hir_expr_kind_view(kind);
                }
                Ok(expr_of(ty, kind))
            },
            TyHirExprKind::Variant { def_id, variant, args, turbofish } => {
                let a = self.mono_exprs(args, c, fuel)?;
                let given = self.mono_targs(turbofish, c, fuel)?;
                let kind = TyHirExprKind::Variant {
                    def_id: *def_id,
                    variant: variant.clone(),
                    args: a,
                    turbofish: given,
                };
                proof {
                    lemma_ty_hir_expr_kind_view(kind);
                }
                Ok(expr_of(ty, kind))
            },
            TyHirExprKind::Match { scrutinee, arms } => {
                let v = self.mono_expr(&**scrutinee, c, fuel)?;
                let a = self.mono_arms(arms, c, fuel)?;
                let kind = TyHirExprKind::Match { scrutinee: Box::new(v), arms: a };
                proof {
                    lemma_ty_hir_expr_kind_view(kind);
                }
                Ok(expr_of(ty, kind))
            },
            TyHirExprKind::TraitCast { value, trait_def } => {
                let v = self.mono_expr(&**value, c, fuel)?;
                let kind = TyHirExprKind::TraitCast { value: Box::new(v), trait_def: *trait_def };
                proof {
                    lemma_ty_hir_expr_kind_view(kind);
                }
                Ok(expr_of(ty, kind))
            },
            TyHirExprKind::DynamicMethodCall { trait_def, method_index, receiver, args } => {
                let o = self.mono_expr(&**receiver, c, fuel)?;
                let a = self.mono_exprs(args, c, fuel)?;
                let kind = TyHirExprKind::DynamicMethodCall {
                    trait_def: *trait_def,
                    method_index: *method_index,
                    receiver: Box::new(o),
                    args: a,
                };
                proof {
                    lemma_ty_hir_expr_kind_view(kind);
                }
                Ok(expr_of(ty, kind))
            },
        }
    }

    fn mono_exprs(
        &mut self,
        es: &Vec<TyHirExpr>,
        c: &Scope,
        fuel: usize,
    ) -> (r: Result<Vec<TyHirExpr>, MplangError>)
        ensures
            expands(
                final(self),
                r,
                m_exprs(old(self).state(), es.deep_view(), c.model(), 0, Seq::empty(), fuel as nat),
            ),
        decreases fuel, 5int, es, 0int,
    {
        let mut out: Vec<TyHirExpr> = empty_list();
        let ghost goal = m_exprs(
            self.state(),
            es.deep_view(),
            c.model(),
            0,
            Seq::empty(),
            fuel as nat,
        );
        for i in 0..es.len()
            invariant
                goal == m_exprs(
                    old(self).state(),
                    es.deep_view(),
                    c.model(),
                    0,
                    Seq::empty(),
                    fuel as nat,
                ),
                goal == m_exprs(
                    self.state(),
                    es.deep_view(),
                    c.model(),
                    i as int,
                    out.deep_view(),
                    fuel as nat,
                ),
        {
            let x = self.mono_expr(&es[i], c, fuel)?;
            push_item(&mut out, x);
        }
        Ok(out)
    }

    fn mono_inits(
        &mut self,
        es: &Vec<(DefId, TyHirExpr)>,
        c: &Scope,
        fuel: usize,
    ) -> (r: Result<Vec<(DefId, TyHirExpr)>, MplangError>)
        ensures
            expands(
                final(self),
                r,
                m_inits(old(self).state(), es.deep_view(), c.model(), 0, Seq::empty(), fuel as nat),
            ),
        decreases fuel, 5int, es, 0int,
    {
        let mut out: Vec<(DefId, TyHirExpr)> = empty_list();
        let ghost goal = m_inits(
            self.state(),
            es.deep_view(),
            c.model(),
            0,
            Seq::empty(),
            fuel as nat,
        );
        for i in 0..es.len()
            invariant
                goal == m_inits(
                    old(self).state(),
                    es.deep_view(),
                    c.model(),
                    0,
                    Seq::empty(),
                    fuel as nat,
                ),
                goal == m_inits(
                    self.state(),
                    es.deep_view(),
                    c.model(),
                    i as int,
                    out.deep_view(),
                    fuel as nat,
                ),
        {
            let x = self.mono_expr(&es[i].1, c, fuel)?;
            push_item(&mut out, (es[i].0, x));
        }
        Ok(out)
    }

    fn mono_bindings(
        &mut self,
        bs: &Vec<(DefId, Option<HirType>)>,
        c: &Scope,
        fuel: usize,
    ) -> (r: Result<Vec<(DefId, Option<HirType>)>, MplangError>)
        ensures
            expands(
                final(self),
                r,
                m_bindings(
                    old(self).state(),
                    bs.deep_view(),
                    c.model(),
                    0,
                    Seq::empty(),
                    fuel as nat,
                ),
            ),
    {
        let mut out: Vec<(DefId, Option<HirType>)> = empty_list();
        let ghost goal = m_bindings(
            self.state(),
            bs.deep_view(),
            c.model(),
            0,
            Seq::empty(),
            fuel as nat,
        );
        for i in 0..bs.len()
            invariant
                goal == m_bindings(
                    old(self).state(),
                    bs.deep_view(),
                    c.model(),
                    0,
                    Seq::empty(),
                    fuel as nat,
                ),
                goal == m_bindings(
                    self.state(),
                    bs.deep_view(),
                    c.model(),
                    i as int,
                    out.deep_view(),
                    fuel as nat,
                ),
        {
            let t = self.mono_opt_type(&bs[i].1, &c.generics, &c.types, &c.consts, fuel)?;
            push_item(&mut out, (bs[i].0, t));
        }
        Ok(out)
    }

    fn mono_pattern(&mut self, p: &TyHirPattern, c: &Scope, fuel: usize) -> (r: Result<
        TyHirPattern,
        MplangError,
    >)
        ensures
            expands(
                final(self),
                r,
                m_pattern(old(self).state(), p.deep_view(), c.model(), fuel as nat),
            ),
    {
        proof {
            reveal(m_pattern);
        }
        match p {
            TyHirPattern::Variant { enum_def, variant, bindings } => {
                let bs = self.mono_bindings(bindings, c, fuel)?;
                Ok(
                    TyHirPattern::Variant {
                        enum_def: *enum_def,
                        variant: variant.clone(),
                        bindings: bs,
                    },
                )
            },
            _ => Ok(p.clone()),
        }
    }

    fn mono_arms(
        &mut self,
        es: &Vec<TyHirMatchArm>,
        c: &Scope,
        fuel: usize,
    ) -> (r: Result<Vec<TyHirMatchArm>, MplangError>)
        ensures
            expands(
                final(self),
                r,
                m_arms(old(self).state(), es.deep_view(), c.model(), 0, Seq::empty(), fuel as nat),
            ),
        decreases fuel, 5int, es, 0int,
    {
        let mut out: Vec<TyHirMatchArm> = empty_list();
        let ghost goal = m_arms(
            self.state(),
            es.deep_view(),
            c.model(),
            0,
            Seq::empty(),
            fuel as nat,
        );
        for i in 0..es.len()
            invariant
                goal == m_arms(
                    old(self).state(),
                    es.deep_view(),
                    c.model(),
                    0,
                    Seq::empty(),
                    fuel as nat,
                ),
                goal == m_arms(
                    self.state(),
                    es.deep_view(),
                    c.model(),
                    i as int,
                    out.deep_view(),
                    fuel as nat,
                ),
        {
            proof {
                lemma_ty_hir_match_arm_view(es@[i as int]);
                lemma_ty_hir_body_view(es@[i as int].body);
            }
            let pattern = self.mono_pattern(&es[i].pattern, c, fuel)?;
            let body = self.mono_body(&es[i].body.stmts, c, fuel)?;
            let arm = TyHirMatchArm { pattern, body };
            proof {
                lemma_ty_hir_match_arm_view(arm);
                lemma_ty_hir_body_view(body);
            }
            push_item(&mut out, arm);
        }
        Ok(out)
    }

    fn mono_stmt(&mut self, st: &TyHirStmt, c: &Scope, fuel: usize) -> (r: Result<
        TyHirStmt,
        MplangError,
    >)
        ensures
            expands(
                final(self),
                r,
                m_stmt(old(self).state(), st.deep_view(), c.model(), fuel as nat),
            ),
        decreases fuel, 5int, st, 0int,
    {
        proof {
            lemma_ty_hir_stmt_view(*st);
        }
        let r = match st {
            TyHirStmt::Let { def_id, name, ty, init } => {
                let t = self.mono_type(ty, &c.generics, &c.types, &c.consts, fuel)?;
                let v = self.mono_expr(init, c, fuel)?;
                TyHirStmt::Let { def_id: *def_id, name: name.clone(), ty: t, init: v }
            },
            TyHirStmt::Assign { target, value } => {
                let t = self.mono_expr(target, c, fuel)?;
                let v = self.mono_expr(value, c, fuel)?;
                TyHirStmt::Assign { target: t, value: v }
            },
            TyHirStmt::Expr(e) => {
                let v = self.mono_expr(e, c, fuel)?;
                TyHirStmt::Expr(v)
            },
            TyHirStmt::If { cond, then_branch, else_branch } => {
                let v = self.mono_expr(cond, c, fuel)?;
                proof {
                    lemma_ty_hir_body_view(*then_branch);
                }
                let a = self.mono_body(&then_branch.stmts, c, fuel)?;
                let b = match else_branch {
                    Some(other) => {
                        proof {
                            lemma_ty_hir_body_view(*other);
                        }
                        Some(self.mono_body(&other.stmts, c, fuel)?)
                    },
                    None => None,
                };
                TyHirStmt::If { cond: v, then_branch: a, else_branch: b }
            },
            TyHirStmt::While { cond, body } => {
                let v = self.mono_expr(cond, c, fuel)?;
                proof {
                    lemma_ty_hir_body_view(*body);
                }
                let b = self.mono_body(&body.stmts, c, fuel)?;
                TyHirStmt::While { cond: v, body: b }
            },
            TyHirStmt::Return(value) => {
                let v = match value {
                    Some(e) => Some(self.mono_expr(e, c, fuel)?),
                    None => None,
                };
                TyHirStmt::Return(v)
            },
        };
        proof {
            lemma_ty_hir_stmt_view(r);
        }
        Ok(r)
    }

    /// A block of statements.
    pub(super) fn mono_body(&mut self, es: &Vec<TyHirStmt>, c: &Scope, fuel: usize) -> (r: Result<
        TyHirBody,
        MplangError,
    >)
        ensures
            ({
                let want = m_stmts(
                    old(self).state(),
                    es.deep_view(),
                    c.model(),
                    0,
                    Seq::empty(),
                    fuel as nat,
                );
                &&& final(self).state() == want.0
                &&& match r {
                    Ok(b) => want.1 == Ok::<Seq<TyHirStmtV>, MplangErrorV>(
                        b.deep_view().stmts,
                    ),
                    Err(e) => want.1 == Err::<Seq<TyHirStmtV>, MplangErrorV>(e.deep_view()),
                }
            }),
        decreases fuel, 5int, es, 0int,
    {
        let mut out: Vec<TyHirStmt> = empty_list();
        let ghost goal = m_stmts(
            self.state(),
            es.deep_view(),
            c.model(),
            0,
            Seq::empty(),
            fuel as nat,
        );
        for i in 0..es.len()
            invariant
                goal == m_stmts(
                    old(self).state(),
                    es.deep_view(),
                    c.model(),
                    0,
                    Seq::empty(),
                    fuel as nat,
                ),
                goal == m_stmts(
                    self.state(),
                    es.deep_view(),
                    c.model(),
                    i as int,
                    out.deep_view(),
                    fuel as nat,
                ),
        {
            let x = self.mono_stmt(&es[i], c, fuel)?;
            push_item(&mut out, x);
        }
        let r = TyHirBody { stmts: out };
        proof {
            lemma_ty_hir_body_view(r);
        }
        Ok(r)
    }
}

} // verus!
