//! Statements.

use crate::compiler::code::{Condition, DataRef, IrType, LocalVar, Step};
use crate::compiler::rules::{
    g_after_return, g_assign, g_assign_name, g_block, g_else, g_if_blocks, g_if_else, g_if_end,
    g_null, g_return_value, g_set_local, g_stmt, g_stmts, g_test, g_while_blocks, g_while_body,
    g_while_end, next_step, FnScope,
};
use crate::compiler::types::about_last;
use crate::compiler::{emits, CodeBuilder, Compiler};
use crate::error::MplangError;
use crate::hir::{def_text, lemma_hir_type_view, DefId, HirType};
use crate::table::Table;
use crate::tyhir::{
    lemma_ty_hir_body_view, lemma_ty_hir_expr_kind_view, lemma_ty_hir_expr_view,
    lemma_ty_hir_stmt_view, TyHirBody, TyHirExpr, TyHirExprKind, TyHirStmt,
};
use vstd::prelude::*;

verus! {

/// What a function needs to know of itself.
pub(super) struct Frame {
    pub(super) ret: HirType,
    pub(super) room: Option<usize>,
    pub(super) taken: Table<DefId, ()>,
}

impl Frame {
    pub(super) closed spec fn model(&self) -> FnScope {
        FnScope { ret: self.ret.deep_view(), room: self.room, taken: self.taken@.dom() }
    }

    pub(super) fn make(ret: HirType, room: Option<usize>, taken: Table<DefId, ()>) -> (r: Frame)
        ensures
            r.model() == (FnScope { ret: ret.deep_view(), room, taken: taken@.dom() }),
    {
        Frame { ret, room, taken }
    }
}

impl CodeBuilder {
    fn null(&mut self) -> (r: usize)
        ensures
            g_null(old(self).state()) == (final(self).state(), r),
    {
        self.push(Step::Const(IrType::Ptr, 0))
    }

    /// The test whether a value is not zero.
    fn test(&mut self, v: usize) -> (r: usize)
        ensures
            g_test(old(self).state(), v) == (final(self).state(), r),
    {
        let zero: usize = self.push(Step::Const(IrType::I64, 0));
        self.push(Step::Compare(Condition::NotEqual, v, zero))
    }

    fn after_return(&mut self) -> (r: usize)
        ensures
            g_after_return(old(self).state()) == (final(self).state(), r),
    {
        let dead: usize = self.push(Step::CreateBlock);
        self.push(Step::SwitchTo(dead));
        self.push(Step::Seal(dead));
        self.null()
    }

    /// The blocks of an `if`.
    fn if_blocks(&mut self, test: usize) -> (r: (usize, usize, usize))
        ensures
            final(self).state() == g_if_blocks(old(self).state(), test),
            r.0 == next_step(old(self).state()),
            r.1 == (next_step(old(self).state()) + 1) as usize,
            r.2 == (next_step(old(self).state()) + 2) as usize,
    {
        let a: usize = self.push(Step::CreateBlock);
        let b: usize = self.push(Step::CreateBlock);
        let c: usize = self.push(Step::CreateBlock);
        self.push(Step::AddPointerParam(c));
        self.push(Step::Branch(test, a, b));
        self.push(Step::SwitchTo(a));
        (a, b, c)
    }

    /// From the first branch of an `if` to the second.
    fn if_else(&mut self, blocks: (usize, usize, usize), last: usize)
        requires
            blocks.1 == (blocks.0 + 1) as usize,
            blocks.2 == (blocks.0 + 2) as usize,
        ensures
            final(self).state() == g_if_else(old(self).state(), blocks.0, last),
    {
        self.push(Step::Jump(blocks.2, Some(last)));
        self.push(Step::SwitchTo(blocks.1));
    }

    /// The end of an `if`.
    fn if_end(&mut self, blocks: (usize, usize, usize), last: usize) -> (r: usize)
        requires
            blocks.1 == (blocks.0 + 1) as usize,
            blocks.2 == (blocks.0 + 2) as usize,
        ensures
            g_if_end(old(self).state(), blocks.0, last) == (final(self).state(), r),
    {
        self.push(Step::Jump(blocks.2, Some(last)));
        self.push(Step::SwitchTo(blocks.2));
        self.push(Step::Seal(blocks.0));
        self.push(Step::Seal(blocks.1));
        self.push(Step::Seal(blocks.2));
        self.push(Step::Param(blocks.2, 0))
    }

    /// The blocks of a `while`.
    fn while_blocks(&mut self) -> (r: (usize, usize, usize))
        ensures
            final(self).state() == g_while_blocks(old(self).state()),
            r.0 == next_step(old(self).state()),
            r.1 == (next_step(old(self).state()) + 1) as usize,
            r.2 == (next_step(old(self).state()) + 2) as usize,
    {
        let a: usize = self.push(Step::CreateBlock);
        let b: usize = self.push(Step::CreateBlock);
        let c: usize = self.push(Step::CreateBlock);
        self.push(Step::Jump(a, None));
        self.push(Step::SwitchTo(a));
        (a, b, c)
    }

    /// From the test of a `while` to its body.
    fn while_body(&mut self, blocks: (usize, usize, usize), v: usize)
        requires
            blocks.1 == (blocks.0 + 1) as usize,
            blocks.2 == (blocks.0 + 2) as usize,
        ensures
            final(self).state() == g_while_body(old(self).state(), blocks.0, v),
    {
        let t: usize = self.test(v);
        self.push(Step::Branch(t, blocks.1, blocks.2));
        self.push(Step::SwitchTo(blocks.1));
    }

    /// The end of a `while`.
    fn while_end(&mut self, blocks: (usize, usize, usize)) -> (r: usize)
        requires
            blocks.1 == (blocks.0 + 1) as usize,
            blocks.2 == (blocks.0 + 2) as usize,
        ensures
            g_while_end(old(self).state(), blocks.0) == (final(self).state(), r),
    {
        self.push(Step::Jump(blocks.0, None));
        self.push(Step::Seal(blocks.0));
        self.push(Step::Seal(blocks.1));
        self.push(Step::SwitchTo(blocks.2));
        self.push(Step::Seal(blocks.2));
        self.null()
    }
}

impl Compiler {
    /// An assignment to a local variable.
    fn set_local(&self, b: &mut CodeBuilder, info: &LocalVar, v: usize) -> (r: Result<
        usize,
        MplangError,
    >)
        ensures
            emits(final(b), r, g_set_local(self.env(), old(b).state(), info.deep_view(), v)),
    {
        proof {
            lemma_hir_type_view(info.ty);
        }
        if let Some(slot) = info.slot {
            let dst: usize = b.push(Step::SlotAddr(slot));
            b.push(Step::Store(v, dst));
            return Ok(v);
        }
        let var: usize = match info.var {
            Some(var) => var,
            None => {
                return Err(
                    MplangError::codegen("called `Option::unwrap()` on a `None` value"),
                );
            },
        };
        let in_memory = match &info.ty {
            HirType::Named(_) => true,
            HirType::Array(_, _) => true,
            _ => false,
        };
        if in_memory {
            let dst: usize = b.push(Step::GetVar(var));
            self.copy_value_to(b, v, &info.ty, dst)?;
            Ok(dst)
        } else {
            let c: usize = self.copy_value(b, v, &info.ty)?;
            b.push(Step::SetVar(var, c));
            Ok(c)
        }
    }

    fn assign_name(&self, b: &mut CodeBuilder, d: DefId, value: &TyHirExpr) -> (r: Result<
        usize,
        MplangError,
    >)
        ensures
            emits(final(b), r, g_assign_name(self.env(), old(b).state(), d, value.deep_view())),
    {
        if let Some(info) = b.var(d) {
            let v: usize = self.translate_expr(b, value, &info.ty)?;
            return self.set_local(b, &info, v);
        }
        match self.data_map.get(&d) {
            None => {
                let shown = def_text(d);
                Err(about_last("undefined variable: ", shown.as_str()))
            },
            Some(t) => {
                let dst: usize = b.push(Step::Symbol(DataRef::Global(d)));
                let v: usize = self.translate_expr(b, value, t)?;
                self.copy_value_to(b, v, t, dst)?;
                Ok(v)
            },
        }
    }

    fn translate_assign(&self, b: &mut CodeBuilder, target: &TyHirExpr, value: &TyHirExpr) -> (r:
        Result<usize, MplangError>)
        ensures
            emits(
                final(b),
                r,
                g_assign(self.env(), old(b).state(), target.deep_view(), value.deep_view()),
            ),
    {
        proof {
            lemma_ty_hir_expr_view(*target);
            lemma_ty_hir_expr_kind_view(target.kind);
        }
        if let TyHirExprKind::Path(d) = &target.kind {
            return self.assign_name(b, *d, value);
        }
        let addr: usize = self.translate_lvalue(b, target)?;
        let v: usize = self.translate_expr(b, value, &target.ty)?;
        self.copy_value_to(b, v, &target.ty, addr)?;
        Ok(addr)
    }

    fn return_value(&self, b: &mut CodeBuilder, value: &Option<TyHirExpr>, c: &Frame) -> (r: Result<
        Option<usize>,
        MplangError,
    >)
        ensures
            emits(
                final(b),
                r,
                g_return_value(self.env(), old(b).state(), value.deep_view(), c.model()),
            ),
    {
        match c.room {
            Some(room) => {
                if let Some(e) = value {
                    let v: usize = self.translate_expr(b, e, &c.ret)?;
                    self.copy_value_to(b, v, &c.ret, room)?;
                }
                Ok(None)
            },
            None => match value {
                Some(e) => {
                    let v: usize = self.translate_expr(b, e, &c.ret)?;
                    Ok(Some(v))
                },
                None => {
                    let v: usize = b.null();
                    Ok(Some(v))
                },
            },
        }
    }

    #[verifier::spinoff_prover]
    #[verifier::rlimit(40)]
    fn translate_stmt(&self, b: &mut CodeBuilder, st: &TyHirStmt, c: &Frame) -> (r: Result<
        usize,
        MplangError,
    >)
        ensures
            emits(final(b), r, g_stmt(self.env(), old(b).state(), st.deep_view(), c.model())),
        decreases st, 0int,
    {
        proof {
            lemma_ty_hir_stmt_view(*st);
            lemma_hir_type_view(HirType::Int);
        }
        match st {
            TyHirStmt::Let { def_id, ty, init, .. } => {
                let raw: usize = self.translate_expr(b, init, ty)?;
                let v: usize = self.copy_value(b, raw, ty)?;
                let taken = c.taken.contains(def_id);
                self.bind_local(b, *def_id, ty, v, taken)?;
                Ok(raw)
            },
            TyHirStmt::Assign { target, value } => self.translate_assign(b, target, value),
            TyHirStmt::Expr(e) => {
                proof {
                    lemma_ty_hir_expr_view(*e);
                }
                self.translate_expr(b, e, &e.ty)
            },
            TyHirStmt::If { cond, then_branch, else_branch } => {
                proof {
                    lemma_ty_hir_body_view(*then_branch);
                }
                let saved = b.vars.duplicate();
                let v: usize = self.translate_expr(b, cond, &HirType::Int)?;
                let t: usize = b.test(v);
                let blocks = b.if_blocks(t);
                let a: usize = self.translate_stmts(b, &then_branch.stmts, c)?;
                b.if_else(blocks, a);
                b.vars = saved.duplicate();
                let z: usize = self.translate_else(b, else_branch, c)?;
                let last: usize = b.if_end(blocks, z);
                b.vars = saved;
                Ok(last)
            },
            TyHirStmt::While { cond, body } => {
                proof {
                    lemma_ty_hir_body_view(*body);
                }
                let saved = b.vars.duplicate();
                let blocks = b.while_blocks();
                let v: usize = self.translate_expr(b, cond, &HirType::Int)?;
                b.while_body(blocks, v);
                self.translate_stmts(b, &body.stmts, c)?;
                let last: usize = b.while_end(blocks);
                b.vars = saved;
                Ok(last)
            },
            TyHirStmt::Return(value) => {
                let v = self.return_value(b, value, c)?;
                b.push(Step::Return(v));
                Ok(b.after_return())
            },
        }
    }

    fn translate_else(
        &self,
        b: &mut CodeBuilder,
        body: &Option<TyHirBody>,
        c: &Frame,
    ) -> (r: Result<
        usize,
        MplangError,
    >)
        ensures
            emits(final(b), r, g_else(self.env(), old(b).state(), body.deep_view(), c.model())),
        decreases body, 0int,
    {
        match body {
            Some(x) => {
                proof {
                    lemma_ty_hir_body_view(*x);
                }
                self.translate_stmts(b, &x.stmts, c)
            },
            None => Ok(b.null()),
        }
    }

    /// A block of statements; its value is that of the last one.
    pub(super) fn translate_stmts(
        &self,
        b: &mut CodeBuilder,
        stmts: &Vec<TyHirStmt>,
        c: &Frame,
    ) -> (r:
        Result<usize, MplangError>)
        ensures
            emits(final(b), r, g_block(self.env(), old(b).state(), stmts.deep_view(), c.model())),
        decreases stmts, 1int,
    {
        let mut last: usize = b.null();
        let ghost goal = g_stmts(
            self.env(),
            b.state(),
            stmts.deep_view(),
            c.model(),
            0,
            last,
        );
        for i in 0..stmts.len()
            invariant
                goal == g_block(self.env(), old(b).state(), stmts.deep_view(), c.model()),
                goal == g_stmts(
                    self.env(),
                    b.state(),
                    stmts.deep_view(),
                    c.model(),
                    i as int,
                    last,
                ),
        {
            last = self.translate_stmt(b, &stmts[i], c)?;
        }
        Ok(last)
    }
}

} // verus!
