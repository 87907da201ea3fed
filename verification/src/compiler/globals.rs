//! Global data.

use crate::ast::Literal;
use crate::compiler::code::GlobalData;
use crate::compiler::rules::{
    const_array, const_element, const_element_size, const_elements, element_outside, g_add_global,
    g_init, global_name, le_bytes, repeated, text_bytes, zeros,
};
use crate::compiler::types::{about, length_of};
use crate::compiler::Compiler;
use crate::error::{MplangError, MplangErrorV};
use crate::hir::{lemma_hir_type_view, ArrayLen, DefId, HirType};
use crate::list::push_item;
use crate::lowering::gives;
use crate::text::{cat2, cat4, decimal_string, usize_string};
use crate::tyhir::{lemma_ty_hir_expr_kind_view, lemma_ty_hir_expr_view, TyHirExpr, TyHirExprKind};
use vstd::prelude::*;
use vstd::utf8::encode_utf8;

verus! {

/// The `k` low bytes of a number, lowest first.
fn low_bytes(n: u64, k: usize) -> (r: Vec<u8>)
    ensures
        r@ == le_bytes(n, k as nat),
{
    let mut out: Vec<u8> = Vec::new();
    let mut rest: u64 = n;
    let ghost goal = le_bytes(n, k as nat);
    assert(out@ + le_bytes(rest, k as nat) =~= goal);
    for i in 0..k
        invariant
            goal == le_bytes(n, k as nat),
            out@ + le_bytes(rest, (k - i) as nat) == goal,
    {
        let ghost before = out@;
        let b: u8 = (rest % 256) as u8;
        out.push(b);
        assert(before + (seq![b] + le_bytes(rest / 256, (k - i - 1) as nat)) =~= out@ + le_bytes(
            rest / 256,
            (k - i - 1) as nat,
        ));
        rest = rest / 256;
    }
    assert(out@ + le_bytes(rest, 0) =~= out@);
    out
}

/// The number of low bytes that were asked for.
proof fn lemma_le_len(n: u64, k: nat)
    ensures
        le_bytes(n, k).len() == k,
    decreases k,
{
    if k > 0 {
        lemma_le_len(n / 256, (k - 1) as nat);
    }
}

/// Appends bytes.
fn append_bytes(out: &mut Vec<u8>, b: &Vec<u8>)
    ensures
        final(out)@ == old(out)@ + b@,
{
    let ghost before = out@;
    for i in 0..b.len()
        invariant
            out@ == before + b@.subrange(0, i as int),
    {
        out.push(b[i]);
        assert(out@ =~= before + b@.subrange(0, i + 1));
    }
    assert(b@.subrange(0, b@.len() as int) =~= b@);
}

/// The bytes of a string literal, with a zero byte behind them.
pub fn literal_bytes(s: &String) -> (r: Vec<u8>)
    ensures
        r@ == text_bytes(s@),
{
    let text = s.as_str();
    let bytes = text.as_bytes();
    let mut out: Vec<u8> = Vec::new();
    for i in 0..bytes.len()
        invariant
            bytes@ == encode_utf8(s@),
            out@ == bytes@.subrange(0, i as int),
    {
        out.push(bytes[i]);
        assert(out@ =~= bytes@.subrange(0, i + 1));
    }
    assert(bytes@.subrange(0, bytes@.len() as int) =~= bytes@);
    out.push(0);
    out
}

/// The bytes of a constant element.
fn element_bytes(e: &TyHirExpr, size: usize) -> (r: Result<Vec<u8>, MplangError>)
    ensures
        match r {
            Ok(b) => const_element(e.deep_view(), size) == Ok::<Seq<u8>, MplangErrorV>(b@)
                && b@.len() == size,
            Err(x) => const_element(e.deep_view(), size) == Err::<Seq<u8>, MplangErrorV>(
                x.deep_view(),
            ),
        },
{
    proof {
        lemma_ty_hir_expr_view(*e);
        lemma_ty_hir_expr_kind_view(e.kind);
    }
    match &e.kind {
        TyHirExprKind::Literal(Literal::Int(n)) => {
            proof {
                lemma_le_len(*n as u64, size as nat);
            }
            Ok(low_bytes(*n as u64, size))
        },
        _ => Err(MplangError::codegen("全局数组的编译期常量元素必须是 int 字面量")),
    }
}

fn element_size(t: &HirType) -> (r: Result<usize, MplangError>)
    ensures
        gives(r, const_element_size(t.deep_view())),
        r matches Ok(n) ==> n == 1 || n == 8,
{
    proof {
        lemma_hir_type_view(*t);
    }
    match t {
        HirType::Int => Ok(8),
        HirType::Unit => Ok(8),
        HirType::Char => Ok(1),
        _ => {
            let shown = t.to_text();
            Err(
                about(
                    "不支持的全局数组元素类型 ",
                    shown.as_str(),
                    "：编译期常量数组仅支持 int / char 元素",
                ),
            )
        },
    }
}

fn outside(end: usize, total: usize) -> (r: MplangError)
    ensures
        r.deep_view() == element_outside(end as nat, total as nat),
{
    proof {
        reveal(element_outside);
    }
    let a = usize_string(end);
    let b = usize_string(total);
    let text = cat4(
        "range end index ",
        a.as_str(),
        " out of range for slice of length ",
        b.as_str(),
    );
    MplangError::codegen(text.as_str())
}

fn elements_bytes(es: &Vec<TyHirExpr>, size: usize, total: usize) -> (r: Result<
    Vec<u8>,
    MplangError,
>)
    requires
        size <= 8,
        total <= isize::MAX,
    ensures
        match r {
            Ok(b) => const_elements(es.deep_view(), size, total as nat, 0, Seq::empty()) == Ok::<
                Seq<u8>,
                MplangErrorV,
            >(b@) && b@.len() <= total,
            Err(x) => const_elements(es.deep_view(), size, total as nat, 0, Seq::empty()) == Err::<
                Seq<u8>,
                MplangErrorV,
            >(x.deep_view()),
        },
{
    let mut out: Vec<u8> = Vec::new();
    assert(out@ =~= Seq::empty());
    let ghost goal = const_elements(es.deep_view(), size, total as nat, 0, Seq::empty());
    for i in 0..es.len()
        invariant
            size <= 8,
            total <= isize::MAX,
            out@.len() <= total,
            goal == const_elements(es.deep_view(), size, total as nat, 0, Seq::empty()),
            goal == const_elements(es.deep_view(), size, total as nat, i as int, out@),
    {
        let b = element_bytes(&es[i], size)?;
        let end: usize = out.len() + size;
        if end > total {
            return Err(outside(end, total));
        }
        append_bytes(&mut out, &b);
    }
    Ok(out)
}

/// The same bytes over and over.
fn repeat_bytes(b: &Vec<u8>, n: usize) -> (r: Vec<u8>)
    ensures
        r@ == repeated(b@, n as nat),
{
    let mut out: Vec<u8> = Vec::new();
    assert(out@ =~= repeated(b@, 0));
    for i in 0..n
        invariant
            out@ == repeated(b@, i as nat),
    {
        append_bytes(&mut out, b);
    }
    out
}

/// The bytes of a constant array of `n` elements.
fn array_bytes(es: &Vec<TyHirExpr>, repeat: Option<usize>, size: usize, n: usize) -> (r: Result<
    Vec<u8>,
    MplangError,
>)
    requires
        size <= 8,
    ensures
        match r {
            Ok(b) => const_array(es.deep_view(), repeat, size, n) == Ok::<Seq<u8>, MplangErrorV>(
                b@,
            ),
            Err(x) => const_array(es.deep_view(), repeat, size, n) == Err::<
                Seq<u8>,
                MplangErrorV,
            >(x.deep_view()),
        },
{
    let total: usize = match size.checked_mul(n) {
        Some(t) => t,
        None => {
            return Err(MplangError::codegen("attempt to multiply with overflow"));
        },
    };
    if total > isize::MAX as usize {
        return Err(MplangError::codegen("capacity overflow"));
    }
    assert(es.deep_view().len() == es@.len());
    match repeat {
        Some(_) => {
            if es.len() == 0 {
                return Err(
                    MplangError::codegen(
                        "index out of bounds: the len is 0 but the index is 0",
                    ),
                );
            }
            if n == 0 {
                let out: Vec<u8> = Vec::new();
                assert(out@ =~= Seq::empty());
                return Ok(out);
            }
            let b = element_bytes(&es[0], size)?;
            assert(es.deep_view()[0] == es@[0].deep_view());
            Ok(repeat_bytes(&b, n))
        },
        None => {
            let mut out = elements_bytes(es, size, total)?;
            let ghost written = out@;
            let k: usize = total - out.len();
            for i in 0..k
                invariant
                    out@ == written + zeros(i as int),
            {
                out.push(0);
                assert(out@ =~= written + zeros(i + 1));
            }
            assert(out@ =~= written + zeros(k as int));
            Ok(out)
        },
    }
}

/// The initial bytes of a global variable, and the type of the initial value.
pub(crate) fn const_init(init: &TyHirExpr) -> (r: Result<(Vec<u8>, HirType), MplangError>)
    ensures
        match r {
            Ok(v) => g_init(init.deep_view()) == Ok::<
                (Seq<u8>, crate::hir::HirTypeV),
                MplangErrorV,
            >((v.0@, v.1.deep_view())),
            Err(x) => g_init(init.deep_view()) == Err::<
                (Seq<u8>, crate::hir::HirTypeV),
                MplangErrorV,
            >(x.deep_view()),
        },
{
    proof {
        reveal(g_init);
        lemma_ty_hir_expr_view(*init);
        lemma_ty_hir_expr_kind_view(init.kind);
        lemma_hir_type_view(init.ty);
        lemma_hir_type_view(HirType::Int);
    }
    match &init.kind {
        TyHirExprKind::Literal(Literal::Int(n)) => Ok((low_bytes(*n as u64, 8), HirType::Int)),
        TyHirExprKind::Literal(Literal::String(s)) => Ok((literal_bytes(s), HirType::char_ptr())),
        TyHirExprKind::ArrayLiteral { elements, repeat } => match &init.ty {
            HirType::Array(t, n) => {
                let k: usize = length_of(*n)?;
                let size: usize = element_size(&**t)?;
                let bytes = array_bytes(elements, *repeat, size, k)?;
                let ty = HirType::Array(Box::new((**t).clone()), ArrayLen::Known(k));
                proof {
                    lemma_hir_type_view(ty);
                }
                Ok((bytes, ty))
            },
            _ => Err(
                MplangError::codegen(
                    "internal error: entered unreachable code: array literal type must be Array",
                ),
            ),
        },
        _ => Err(MplangError::codegen("global variable initializer must be a literal")),
    }
}

impl Compiler {
    /// Adds a global variable with its initial bytes, unless it is known.
    pub fn create_global_var(
        &mut self,
        def_id: DefId,
        init_value: Vec<u8>,
        ty: &HirType,
    ) -> (r: Result<
        (),
        MplangError,
    >)
        ensures
            ({
                let want = g_add_global(old(self).state(), def_id, init_value@, ty.deep_view());
                &&& final(self).state() == want.0
                &&& gives(r, want.1)
            }),
    {
        if let Some(t) = self.data_map.get(&def_id) {
            return self.assert_ty(t, ty, "global variable type mismatch");
        }
        proof {
            reveal(global_name);
            assert(init_value.deep_view() =~= init_value@);
        }
        let n = decimal_string(def_id.0 as u64);
        let name = cat2("__mplang_global_", n.as_str());
        push_item(&mut self.globals, GlobalData { def_id, name, bytes: init_value });
        self.data_map.insert(def_id, ty.clone());
        Ok(())
    }
}

} // verus!
