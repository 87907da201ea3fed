//! Expressions.

use crate::ast::{BinOp, Literal};
use crate::compiler::code::{Condition, DataRef, FuncInfo, IrType, LocalVar, CodeSignature, Step};
use crate::compiler::rules::{
    condition_of, g_access_offset, g_access_type, g_args, g_array_room, g_callee, g_element,
    g_elements, g_expr, g_fill, g_finish_call, g_global, g_inits, g_literal, g_literal_size,
    g_local, g_operator, g_owner, g_path, g_path_place, g_place, g_put, g_result_room, g_target,
    is_aggregate, is_arithmetic, operand_type, types_from, wrong_count,
};
use crate::compiler::types::{about_both, about_last, open_type};
use crate::compiler::values::offset_of;
use crate::compiler::{emits, CodeBuilder, Compiler};
use crate::error::MplangError;
use crate::hir::{def_text, lemma_hir_type_view, DefId, HirType};
use crate::list::{empty_list, list_of, push_item};
use crate::lowering::gives;
use crate::table::lookup;
use crate::text::{cat2, cat3, cat4, usize_string};
use crate::tyhir::{lemma_ty_hir_expr_kind_view, lemma_ty_hir_expr_view, TyHirExpr, TyHirExprKind};
use vstd::prelude::*;

verus! {

fn no_name(d: DefId) -> (r: MplangError)
    ensures
        r.deep_view() == crate::compiler::rules::no_variable(d),
{
    let shown = def_text(d);
    about_last("undefined variable ", shown.as_str())
}

fn no_entry() -> (r: MplangError)
    ensures
        r.deep_view() == crate::compiler::rules::no_value(),
{
    MplangError::codegen("called `Option::unwrap()` on a `None` value")
}

fn arithmetic(op: BinOp) -> (r: bool)
    ensures
        r == is_arithmetic(op),
{
    match op {
        BinOp::Add => true,
        BinOp::Sub => true,
        BinOp::Mul => true,
        BinOp::Div => true,
        _ => false,
    }
}

fn condition(op: BinOp) -> (r: Condition)
    ensures
        r == condition_of(op),
{
    match op {
        BinOp::Less => Condition::Less,
        BinOp::LessEqual => Condition::LessEqual,
        BinOp::Equal => Condition::Equal,
        BinOp::NotEqual => Condition::NotEqual,
        BinOp::Greater => Condition::Greater,
        _ => Condition::GreaterEqual,
    }
}

fn wanted_operand(op: BinOp, t: &HirType) -> (r: HirType)
    ensures
        r.deep_view() == operand_type(op, t.deep_view()),
{
    if arithmetic(op) {
        proof {
            lemma_hir_type_view(HirType::Int);
        }
        HirType::Int
    } else {
        t.clone()
    }
}

/// The types of expressions from `from` on.
fn types_behind(es: &Vec<TyHirExpr>, from: usize) -> (r: Vec<HirType>)
    ensures
        r.deep_view() == types_from(es.deep_view(), from as int),
{
    let mut out: Vec<HirType> = Vec::new();
    assert(es.deep_view().len() == es@.len());
    if from >= es.len() {
        assert(out.deep_view() =~= Seq::empty());
        return out;
    }
    for i in from..es.len()
        invariant
            from < es@.len(),
            out@.len() == i - from,
            forall|j: int|
                0 <= j < i - from ==> #[trigger] out@[j].deep_view() == es@[from + j].deep_view().ty,
    {
        proof {
            lemma_ty_hir_expr_view(es@[i as int]);
        }
        out.push(es[i].ty.clone());
    }
    assert(out.deep_view() =~= types_from(es.deep_view(), from as int));
    out
}

fn struct_of(t: &HirType, field: DefId) -> (r: Result<DefId, MplangError>)
    ensures
        gives(r, g_owner(t.deep_view(), field)),
{
    proof {
        reveal(g_owner);
        lemma_hir_type_view(*t);
    }
    match t {
        HirType::Named(d) => Ok(*d),
        _ => {
            let shown = t.to_text();
            let f = def_text(field);
            Err(
                about_both(
                    "field access on non-struct type ",
                    shown.as_str(),
                    " for field ",
                    f.as_str(),
                ),
            )
        },
    }
}

fn element_of(t: &HirType) -> (r: Result<HirType, MplangError>)
    ensures
        gives(r, g_element(t.deep_view())),
{
    proof {
        lemma_hir_type_view(*t);
    }
    match t {
        HirType::Array(e, _) => Ok((**e).clone()),
        _ => Err(
            MplangError::codegen("internal error: entered unreachable code: index of non-array"),
        ),
    }
}

fn pointee_of(t: &HirType) -> (r: Result<HirType, MplangError>)
    ensures
        gives(r, g_target(t.deep_view())),
{
    proof {
        lemma_hir_type_view(*t);
    }
    match t {
        HirType::Pointer(e) => Ok((**e).clone()),
        _ => {
            let shown = t.to_text();
            Err(
                about_last(
                    "internal error: entered unreachable code: deref of non-pointer type ",
                    shown.as_str(),
                ),
            )
        },
    }
}

fn count_mismatch(callee: DefId, want: usize, got: usize) -> (r: MplangError)
    ensures
        r.deep_view() == wrong_count(callee, want as nat, got as nat),
{
    proof {
        reveal(wrong_count);
    }
    let c = def_text(callee);
    let w = usize_string(want);
    let g = usize_string(got);
    let head = cat4("function ", c.as_str(), " expects ", w.as_str());
    let text = cat3(head.as_str(), " arguments, got ", g.as_str());
    MplangError::codegen(text.as_str())
}

impl CodeBuilder {
    /// A local variable.
    pub(super) fn var(&self, d: DefId) -> (r: Option<LocalVar>)
        ensures
            r.deep_view() == lookup(self.state().vars, d),
    {
        match self.vars.get(&d) {
            Some(v) => Some(v.clone()),
            None => None,
        }
    }

    /// The step of an operator on two values.
    fn operator(&mut self, op: BinOp, l: usize, r: usize) -> (v: usize)
        ensures
            g_operator(old(self).state(), op, l, r) == (final(self).state(), v),
    {
        match op {
            BinOp::Add => self.push(Step::Add(l, r)),
            BinOp::Sub => self.push(Step::Sub(l, r)),
            BinOp::Mul => self.push(Step::Mul(l, r)),
            BinOp::Div => self.push(Step::Div(l, r)),
            _ => {
                let c: usize = self.push(Step::Compare(condition(op), l, r));
                self.push(Step::Extend(c))
            },
        }
    }

    /// The call itself.
    fn finish_call(
        &mut self,
        callee: DefId,
        f: &FuncInfo,
        signature: Option<CodeSignature>,
        args: Vec<usize>,
    ) -> (v: usize)
        requires
            is_aggregate(f.ret_ty.deep_view()) ==> args@.len() > 0,
        ensures
            g_finish_call(
                old(self).state(),
                callee,
                f.deep_view(),
                signature.deep_view(),
                args.deep_view(),
            ) == (final(self).state(), v),
    {
        proof {
            lemma_hir_type_view(f.ret_ty);
        }
        let sret = Compiler::needs_sret(&f.ret_ty);
        let first: usize = if sret {
            args[0]
        } else {
            0
        };
        assert(sret ==> first == args.deep_view()[0]);
        let v: usize = self.push(Step::Call { callee, signature, args });
        if sret {
            return first;
        }
        match &f.ret_ty {
            HirType::Unit => self.push(Step::Const(IrType::I64, 0)),
            _ => v,
        }
    }
}

impl Compiler {
    fn translate_literal(&self, b: &mut CodeBuilder, l: &Literal, want: &HirType) -> (r: Result<
        usize,
        MplangError,
    >)
        ensures
            emits(final(b), r, g_literal(old(b).state(), l.deep_view(), want.deep_view())),
    {
        proof {
            reveal(g_literal);
            lemma_hir_type_view(HirType::Int);
        }
        match l {
            Literal::Int(n) => {
                self.assert_ty(&HirType::Int, want, "int literal")?;
                Ok(b.push(Step::Const(IrType::I64, *n)))
            },
            Literal::String(s) => {
                let t = HirType::char_ptr();
                self.assert_ty(&t, want, "string literal")?;
                let i: usize = b.text(s);
                Ok(b.push(Step::Symbol(DataRef::Text(i))))
            },
        }
    }

    fn local_value(&self, b: &mut CodeBuilder, info: &LocalVar) -> (r: Result<usize, MplangError>)
        ensures
            emits(final(b), r, g_local(self.env(), old(b).state(), info.deep_view())),
    {
        match info.slot {
            Some(slot) => {
                let t = self.var_type_to_cranelift(&info.ty)?;
                let p: usize = b.push(Step::SlotAddr(slot));
                Ok(b.push(Step::Load(t, p)))
            },
            None => match info.var {
                Some(var) => Ok(b.push(Step::GetVar(var))),
                None => Err(no_entry()),
            },
        }
    }

    fn global_value(&self, b: &mut CodeBuilder, d: DefId, t: &HirType) -> (r: Result<
        usize,
        MplangError,
    >)
        ensures
            emits(final(b), r, g_global(self.env(), old(b).state(), d, t.deep_view())),
    {
        proof {
            lemma_hir_type_view(*t);
        }
        let addr: usize = b.push(Step::Symbol(DataRef::Global(d)));
        match t {
            HirType::Unit => Ok(b.push(Step::Const(IrType::I64, 0))),
            HirType::Int => Ok(b.push(Step::Load(IrType::I64, addr))),
            HirType::Char => Ok(b.push(Step::Load(IrType::I8, addr))),
            HirType::Var(_) => Err(open_type(t)),
            HirType::Generic(_, _, _) => Err(open_type(t)),
            _ => Ok(addr),
        }
    }

    fn translate_path(&self, b: &mut CodeBuilder, d: DefId, want: &HirType) -> (r: Result<
        usize,
        MplangError,
    >)
        ensures
            emits(final(b), r, g_path(self.env(), old(b).state(), d, want.deep_view())),
    {
        proof {
            reveal(g_path);
        }
        let shown = def_text(d);
        let ctx = cat2("identifier ", shown.as_str());
        if let Some(info) = b.var(d) {
            self.assert_ty(&info.ty, want, ctx.as_str())?;
            return self.local_value(b, &info);
        }
        match self.data_map.get(&d) {
            Some(t) => {
                self.assert_ty(t, want, ctx.as_str())?;
                self.global_value(b, d, t)
            },
            None => Err(no_name(d)),
        }
    }

    fn path_place(&self, b: &mut CodeBuilder, d: DefId) -> (r: Result<usize, MplangError>)
        ensures
            emits(final(b), r, g_path_place(self.env(), old(b).state(), d)),
    {
        proof {
            reveal(g_path_place);
        }
        if let Some(info) = b.var(d) {
            return match info.slot {
                Some(slot) => Ok(b.push(Step::SlotAddr(slot))),
                None => match info.var {
                    Some(var) => Ok(b.push(Step::GetVar(var))),
                    None => Err(no_entry()),
                },
            };
        }
        if self.data_map.contains(&d) {
            return Ok(b.push(Step::Symbol(DataRef::Global(d))));
        }
        Err(no_name(d))
    }

    fn find_callee(&self, callee: DefId, args: &Vec<TyHirExpr>, want: &HirType) -> (r: Result<
        (FuncInfo, Option<CodeSignature>),
        MplangError,
    >)
        ensures
            gives(r, g_callee(self.env(), callee, args.deep_view(), want.deep_view())),
    {
        proof {
            reveal(g_callee);
        }
        let f: FuncInfo = match self.func_map.get(&callee) {
            Some(f) => f.clone(),
            None => {
                let shown = def_text(callee);
                return Err(about_last("undefined function ", shown.as_str()));
            },
        };
        let shown = def_text(callee);
        let ctx = cat3("call ", shown.as_str(), " return");
        self.assert_ty(&f.ret_ty, want, ctx.as_str())?;
        assert(f.param_types.deep_view().len() == f.param_types@.len());
        assert(args.deep_view().len() == args@.len());
        if f.is_variadic {
            let extra = types_behind(args, f.param_types.len());
            let sig = self.build_signature(&f.param_types, &f.ret_ty, &extra)?;
            return Ok((f, Some(sig)));
        }
        if args.len() != f.param_types.len() {
            return Err(count_mismatch(callee, f.param_types.len(), args.len()));
        }
        Ok((f, None))
    }

    fn result_room(&self, b: &mut CodeBuilder, ret: &HirType) -> (r: Result<
        Vec<usize>,
        MplangError,
    >)
        ensures
            emits(final(b), r, g_result_room(self.env(), old(b).state(), ret.deep_view())),
            r matches Ok(v) ==> is_aggregate(ret.deep_view()) ==> v@.len() == 1,
    {
        if !Self::needs_sret(ret) {
            return Ok(empty_list());
        }
        let size: u32 = self.var_type_size(ret)?;
        let p: usize = b.room(size);
        Ok(list_of(p))
    }

    fn access_type(&self, t: &HirType, field: DefId, want: &HirType) -> (r: Result<
        HirType,
        MplangError,
    >)
        ensures
            gives(r, g_access_type(self.env(), t.deep_view(), field, want.deep_view())),
    {
        proof {
            reveal(g_access_type);
        }
        let d = struct_of(t, field)?;
        let ft = self.field_type(&d, &field)?;
        let a = def_text(d);
        let f = def_text(field);
        let ctx = cat4("field access ", a.as_str(), ".", f.as_str());
        self.assert_ty(&ft, want, ctx.as_str())?;
        Ok(ft)
    }

    fn access_offset(&self, t: &HirType, field: DefId) -> (r: Result<u32, MplangError>)
        ensures
            gives(r, g_access_offset(self.env(), t.deep_view(), field)),
    {
        proof {
            reveal(g_access_offset);
        }
        let d = struct_of(t, field)?;
        self.field_offset(&d, &field)
    }

    fn literal_size(&self, d: DefId, want: &HirType) -> (r: Result<u32, MplangError>)
        ensures
            gives(r, g_literal_size(self.env(), d, want.deep_view())),
    {
        proof {
            reveal(g_literal_size);
        }
        let named = HirType::Named(d);
        proof {
            lemma_hir_type_view(named);
        }
        let shown = def_text(d);
        let ctx = cat2("struct literal ", shown.as_str());
        self.assert_ty(&named, want, ctx.as_str())?;
        self.struct_size(&d)
    }

    fn array_room(&self, b: &mut CodeBuilder, t: &HirType, want: &HirType) -> (r: Result<
        (usize, HirType, u32),
        MplangError,
    >)
        ensures
            emits(
                final(b),
                r,
                g_array_room(self.env(), old(b).state(), t.deep_view(), want.deep_view()),
            ),
    {
        proof {
            reveal(g_array_room);
        }
        self.assert_ty(t, want, "array literal")?;
        let e = element_of(t)?;
        let size: u32 = self.var_type_size(t)?;
        let stride: u32 = self.var_type_size(&e)?;
        let base: usize = if size == 0 {
            b.push(Step::Const(IrType::Ptr, 0))
        } else {
            b.room(size)
        };
        Ok((base, e, stride))
    }

    fn put(
        &self,
        b: &mut CodeBuilder,
        v: usize,
        e: &HirType,
        base: usize,
        stride: u32,
        i: usize,
    ) -> (r: Result<(), MplangError>)
        ensures
            emits(
                final(b),
                r,
                g_put(self.env(), old(b).state(), v, e.deep_view(), base, stride, i),
            ),
    {
        let off: i64 = offset_of(stride, i)?;
        let dst: usize = b.push(Step::Offset(base, off));
        self.copy_value_to(b, v, e, dst)
    }

    fn fill(
        &self,
        b: &mut CodeBuilder,
        v: usize,
        e: &HirType,
        base: usize,
        stride: u32,
        n: usize,
    ) -> (r: Result<(), MplangError>)
        ensures
            emits(
                final(b),
                r,
                g_fill(self.env(), old(b).state(), v, e.deep_view(), base, stride, n, 0),
            ),
    {
        let ghost goal = g_fill(self.env(), b.state(), v, e.deep_view(), base, stride, n, 0);
        for i in 0..n
            invariant
                goal == g_fill(
                    self.env(),
                    old(b).state(),
                    v,
                    e.deep_view(),
                    base,
                    stride,
                    n,
                    0,
                ),
                goal == g_fill(self.env(), b.state(), v, e.deep_view(), base, stride, n, i),
        {
            self.put(b, v, e, base, stride, i)?;
        }
        Ok(())
    }

    /// The value of an expression, which must have type `want`.
    pub(super) fn translate_expr(&self, b: &mut CodeBuilder, e: &TyHirExpr, want: &HirType) -> (r:
        Result<usize, MplangError>)
        ensures
            emits(final(b), r, g_expr(self.env(), old(b).state(), e.deep_view(), want.deep_view())),
        decreases e, 2int,
    {
        proof {
            lemma_ty_hir_expr_view(*e);
            lemma_ty_hir_expr_kind_view(e.kind);
            lemma_hir_type_view(HirType::Int);
        }
        match &e.kind {
            TyHirExprKind::Literal(l) => self.translate_literal(b, l, want),
            TyHirExprKind::Path(d) => self.translate_path(b, *d, want),
            TyHirExprKind::Binary { op, lhs, rhs } => {
                let ctx = if arithmetic(*op) {
                    "arithmetic result"
                } else {
                    "comparison result"
                };
                self.assert_ty(&HirType::Int, want, ctx)?;
                proof {
                    lemma_ty_hir_expr_view(**lhs);
                    lemma_ty_hir_expr_view(**rhs);
                }
                let lt = wanted_operand(*op, &lhs.ty);
                let l: usize = self.translate_expr(b, &**lhs, &lt)?;
                let rt = wanted_operand(*op, &rhs.ty);
                let h: usize = self.translate_expr(b, &**rhs, &rt)?;
                Ok(b.operator(*op, l, h))
            },
            TyHirExprKind::Call { callee, args, .. } => {
                let (f, sig) = self.find_callee(*callee, args, want)?;
                let first = self.result_room(b, &f.ret_ty)?;
                let vs = self.translate_args(b, args, &f.param_types, first)?;
                Ok(b.finish_call(*callee, &f, sig, vs))
            },
            TyHirExprKind::FieldAccess { object, field } => {
                proof {
                    lemma_ty_hir_expr_view(**object);
                }
                let t = self.access_type(&object.ty, *field, want)?;
                let addr: usize = self.translate_lvalue(b, e)?;
                self.read_value_at(b, addr, &t)
            },
            TyHirExprKind::StructLiteral { def_id, fields, .. } => {
                let size: u32 = self.literal_size(*def_id, want)?;
                if size == 0 {
                    return Ok(b.push(Step::Const(IrType::Ptr, 0)));
                }
                let base: usize = b.room(size);
                self.translate_inits(b, fields, *def_id, base)?;
                Ok(base)
            },
            TyHirExprKind::ArrayLiteral { elements, repeat } => {
                let (base, t, stride) = self.array_room(b, &e.ty, want)?;
                assert(elements.deep_view().len() == elements@.len());
                match repeat {
                    Some(n) => {
                        if elements.len() == 0 {
                            return Err(
                                MplangError::codegen(
                                    "index out of bounds: the len is 0 but the index is 0",
                                ),
                            );
                        }
                        assert(elements.deep_view()[0] == elements@[0].deep_view());
                        let v: usize = self.translate_expr(b, &elements[0], &t)?;
                        self.fill(b, v, &t, base, stride, *n)?;
                        Ok(base)
                    },
                    None => {
                        self.translate_elements(b, elements, &t, base, stride)?;
                        Ok(base)
                    },
                }
            },
            TyHirExprKind::Index { .. } => {
                self.assert_ty(&e.ty, want, "array index result")?;
                let addr: usize = self.translate_lvalue(b, e)?;
                self.read_value_at(b, addr, &e.ty)
            },
            TyHirExprKind::Deref(inner) => {
                proof {
                    lemma_ty_hir_expr_view(**inner);
                }
                let p: usize = self.translate_expr(b, &**inner, &inner.ty)?;
                let t = pointee_of(&inner.ty)?;
                self.assert_ty(&t, want, "dereference result")?;
                let ir = self.var_type_to_cranelift(&t)?;
                Ok(b.push(Step::Load(ir, p)))
            },
            TyHirExprKind::AddressOf(inner) => self.translate_lvalue(b, &**inner),
            _ => Err(MplangError::codegen("unsupported expression")),
        }
    }

    /// The address of a place.
    pub(super) fn translate_lvalue(&self, b: &mut CodeBuilder, e: &TyHirExpr) -> (r: Result<
        usize,
        MplangError,
    >)
        ensures
            emits(final(b), r, g_place(self.env(), old(b).state(), e.deep_view())),
        decreases e, 1int,
    {
        proof {
            lemma_ty_hir_expr_view(*e);
            lemma_ty_hir_expr_kind_view(e.kind);
            lemma_hir_type_view(HirType::Int);
        }
        match &e.kind {
            TyHirExprKind::Path(d) => self.path_place(b, *d),
            TyHirExprKind::FieldAccess { object, field } => {
                proof {
                    lemma_ty_hir_expr_view(**object);
                }
                let base: usize = self.translate_lvalue(b, &**object)?;
                let off: u32 = self.access_offset(&object.ty, *field)?;
                Ok(b.push(Step::Offset(base, off as i64)))
            },
            TyHirExprKind::Deref(inner) => {
                proof {
                    lemma_ty_hir_expr_view(**inner);
                }
                self.translate_expr(b, &**inner, &inner.ty)
            },
            TyHirExprKind::Index { array, index } => {
                proof {
                    lemma_ty_hir_expr_view(**array);
                }
                let base: usize = self.translate_expr(b, &**array, &array.ty)?;
                let i: usize = self.translate_expr(b, &**index, &HirType::Int)?;
                let t = element_of(&array.ty)?;
                let stride: u32 = self.var_type_size(&t)?;
                let k: usize = b.push(Step::Const(IrType::I64, stride as i64));
                let off: usize = b.push(Step::Mul(i, k));
                Ok(b.push(Step::Add(base, off)))
            },
            TyHirExprKind::AddressOf(inner) => self.translate_lvalue(b, &**inner),
            _ => Err(MplangError::codegen("cannot take address of a non-lvalue expression")),
        }
    }

    fn translate_args(
        &self,
        b: &mut CodeBuilder,
        es: &Vec<TyHirExpr>,
        ps: &Vec<HirType>,
        first: Vec<usize>,
    ) -> (r: Result<Vec<usize>, MplangError>)
        ensures
            emits(
                final(b),
                r,
                g_args(
                    self.env(),
                    old(b).state(),
                    es.deep_view(),
                    ps.deep_view(),
                    0,
                    first.deep_view(),
                ),
            ),
            r matches Ok(v) ==> v@.len() >= first@.len(),
        decreases es, 0int,
    {
        let ghost d0 = first.deep_view();
        let ghost n0 = first@.len();
        let mut out = first;
        let ghost goal = g_args(
            self.env(),
            b.state(),
            es.deep_view(),
            ps.deep_view(),
            0,
            d0,
        );
        for i in 0..es.len()
            invariant
                d0 == first.deep_view(),
                n0 == first@.len(),
                out@.len() >= n0,
                goal == g_args(
                    self.env(),
                    old(b).state(),
                    es.deep_view(),
                    ps.deep_view(),
                    0,
                    d0,
                ),
                goal == g_args(
                    self.env(),
                    b.state(),
                    es.deep_view(),
                    ps.deep_view(),
                    i as int,
                    out.deep_view(),
                ),
        {
            proof {
                lemma_ty_hir_expr_view(es@[i as int]);
                assert(ps.deep_view().len() == ps@.len());
            }
            let t = if i < ps.len() {
                ps[i].clone()
            } else {
                es[i].ty.clone()
            };
            let raw: usize = self.translate_expr(b, &es[i], &t)?;
            let v: usize = self.copy_value(b, raw, &t)?;
            push_item(&mut out, v);
        }
        Ok(out)
    }

    fn translate_inits(
        &self,
        b: &mut CodeBuilder,
        es: &Vec<(DefId, TyHirExpr)>,
        d: DefId,
        base: usize,
    ) -> (r: Result<(), MplangError>)
        ensures
            emits(final(b), r, g_inits(self.env(), old(b).state(), es.deep_view(), d, base, 0)),
        decreases es, 0int,
    {
        let ghost goal = g_inits(self.env(), b.state(), es.deep_view(), d, base, 0);
        for i in 0..es.len()
            invariant
                goal == g_inits(self.env(), old(b).state(), es.deep_view(), d, base, 0),
                goal == g_inits(self.env(), b.state(), es.deep_view(), d, base, i as int),
        {
            let t = self.field_type(&d, &es[i].0)?;
            let v: usize = self.translate_expr(b, &es[i].1, &t)?;
            let off: u32 = self.field_offset(&d, &es[i].0)?;
            let dst: usize = b.push(Step::Offset(base, off as i64));
            self.copy_value_to(b, v, &t, dst)?;
        }
        Ok(())
    }

    fn translate_elements(
        &self,
        b: &mut CodeBuilder,
        es: &Vec<TyHirExpr>,
        t: &HirType,
        base: usize,
        stride: u32,
    ) -> (r: Result<(), MplangError>)
        ensures
            emits(
                final(b),
                r,
                g_elements(
                    self.env(),
                    old(b).state(),
                    es.deep_view(),
                    t.deep_view(),
                    base,
                    stride,
                    0,
                ),
            ),
        decreases es, 0int,
    {
        let ghost goal = g_elements(
            self.env(),
            b.state(),
            es.deep_view(),
            t.deep_view(),
            base,
            stride,
            0,
        );
        for i in 0..es.len()
            invariant
                goal == g_elements(
                    self.env(),
                    old(b).state(),
                    es.deep_view(),
                    t.deep_view(),
                    base,
                    stride,
                    0,
                ),
                goal == g_elements(
                    self.env(),
                    b.state(),
                    es.deep_view(),
                    t.deep_view(),
                    base,
                    stride,
                    i as int,
                ),
        {
            let v: usize = self.translate_expr(b, &es[i], t)?;
            self.put(b, v, t, base, stride, i)?;
        }
        Ok(())
    }
}

} // verus!
