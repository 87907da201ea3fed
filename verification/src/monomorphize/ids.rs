//! The numbers of the definitions that occur in a program.

use crate::hir::{
    lemma_hir_type_view, DefId, HirType, HirTypeV, TypeOrConst, TypeOrConstV, VTable, VTableV,
};
use crate::tyhir::{
    lemma_ty_hir_body_view, lemma_ty_hir_expr_kind_view, lemma_ty_hir_expr_view,
    lemma_ty_hir_item_view, lemma_ty_hir_match_arm_view, lemma_ty_hir_module_view,
    lemma_ty_hir_stmt_view, TyHirBody, TyHirBodyV, TyHirCompilationUnit, TyHirCompilationUnitV,
    TyHirEnumVariant, TyHirEnumVariantV, TyHirExpr, TyHirExprKind, TyHirExprKindV, TyHirExprV,
    TyHirField, TyHirFieldV, TyHirItem, TyHirItemV, TyHirMatchArm, TyHirMatchArmV, TyHirModule,
    TyHirModuleV, TyHirParam, TyHirParamV, TyHirPattern, TyHirPatternV, TyHirStmt, TyHirStmtV,
};
use vstd::prelude::*;

verus! {

/// The larger of two numbers.
pub open spec fn larger(a: u32, b: u32) -> u32 {
    if a > b {
        a
    } else {
        b
    }
}

fn larger_id(d: DefId, top: u32) -> (r: u32)
    ensures
        r == larger(d.0, top),
{
    if d.0 > top {
        d.0
    } else {
        top
    }
}

/// The largest number of a definition in a type, or `top` if that is larger.
pub open spec fn type_max(e: HirTypeV, top: u32) -> u32
    decreases e, 0int,
{
    match e {
        HirTypeV::Pointer(x0) => type_max(*x0, top),
        HirTypeV::Named(x0) => larger(x0.0, top),
        HirTypeV::Array(x0, _) => type_max(*x0, top),
        HirTypeV::Generic(x0, x1, _) => type_list_max(x1, 0, larger(x0.0, top)),
        HirTypeV::Enum(x0, x1, _) => type_list_max(x1, 0, larger(x0.0, top)),
        HirTypeV::TraitObject(x0) => larger(x0.0, top),
        _ => top,
    }
}

/// The same for a list from `i` on.
pub open spec fn type_list_max(es: Seq<HirTypeV>, i: int, top: u32) -> u32
    decreases es, es.len() - i,
{
    if i < 0 || i >= es.len() {
        top
    } else {
        type_list_max(es, i + 1, type_max(es[i], top))
    }
}

/// The largest number of a definition in a generic argument, or `top` if that is larger.
pub open spec fn type_or_const_max(e: TypeOrConstV, top: u32) -> u32
{
    match e {
        TypeOrConstV::Type(x0) => type_max(x0, top),
        _ => top,
    }
}

/// The same for a list from `i` on.
pub open spec fn type_or_const_list_max(es: Seq<TypeOrConstV>, i: int, top: u32) -> u32
    decreases es.len() - i,
{
    if i < 0 || i >= es.len() {
        top
    } else {
        type_or_const_list_max(es, i + 1, type_or_const_max(es[i], top))
    }
}

/// The largest number of a definition in a parameter, or `top` if that is larger.
pub open spec fn param_max(e: TyHirParamV, top: u32) -> u32
{
    type_max(e.ty, larger(e.def_id.0, top))
}

/// The same for a list from `i` on.
pub open spec fn param_list_max(es: Seq<TyHirParamV>, i: int, top: u32) -> u32
    decreases es.len() - i,
{
    if i < 0 || i >= es.len() {
        top
    } else {
        param_list_max(es, i + 1, param_max(es[i], top))
    }
}

/// The largest number of a definition in a field, or `top` if that is larger.
pub open spec fn field_max(e: TyHirFieldV, top: u32) -> u32
{
    type_max(e.ty, larger(e.def_id.0, top))
}

/// The same for a list from `i` on.
pub open spec fn field_list_max(es: Seq<TyHirFieldV>, i: int, top: u32) -> u32
    decreases es.len() - i,
{
    if i < 0 || i >= es.len() {
        top
    } else {
        field_list_max(es, i + 1, field_max(es[i], top))
    }
}

/// The largest number of a definition in a variant, or `top` if that is larger.
pub open spec fn enum_variant_max(e: TyHirEnumVariantV, top: u32) -> u32
{
    field_list_max(e.fields, 0, larger(e.def_id.0, top))
}

/// The same for a list from `i` on.
pub open spec fn enum_variant_list_max(es: Seq<TyHirEnumVariantV>, i: int, top: u32) -> u32
    decreases es.len() - i,
{
    if i < 0 || i >= es.len() {
        top
    } else {
        enum_variant_list_max(es, i + 1, enum_variant_max(es[i], top))
    }
}

/// The largest number of a definition in a pattern, or `top` if that is larger.
pub open spec fn pattern_max(e: TyHirPatternV, top: u32) -> u32
{
    match e {
        TyHirPatternV::Variant { enum_def, bindings, .. } => binds_max(
            bindings,
            0,
            larger(enum_def.0, top),
        ),
        TyHirPatternV::Ident(x0) => larger(x0.0, top),
        _ => top,
    }
}

/// The largest number of a definition in an arm, or `top` if that is larger.
pub open spec fn match_arm_max(e: TyHirMatchArmV, top: u32) -> u32
    decreases e, 0int,
{
    body_max(e.body, pattern_max(e.pattern, top))
}

/// The same for a list from `i` on.
pub open spec fn match_arm_list_max(es: Seq<TyHirMatchArmV>, i: int, top: u32) -> u32
    decreases es, es.len() - i,
{
    if i < 0 || i >= es.len() {
        top
    } else {
        match_arm_list_max(es, i + 1, match_arm_max(es[i], top))
    }
}

/// The largest number of a definition in a block, or `top` if that is larger.
pub open spec fn body_max(e: TyHirBodyV, top: u32) -> u32
    decreases e, 0int,
{
    stmt_list_max(e.stmts, 0, top)
}

/// The largest number of a definition in a statement, or `top` if that is larger.
pub open spec fn stmt_max(e: TyHirStmtV, top: u32) -> u32
    decreases e, 0int,
{
    match e {
        TyHirStmtV::Let { def_id, ty, init, .. } => expr_max(
            init,
            type_max(ty, larger(def_id.0, top)),
        ),
        TyHirStmtV::Assign { target, value, .. } => expr_max(value, expr_max(target, top)),
        TyHirStmtV::Expr(x0) => expr_max(x0, top),
        TyHirStmtV::If { cond, then_branch, else_branch, .. } => (
            match else_branch { Some(x) => body_max(x, body_max(then_branch, expr_max(cond, top))), None => body_max(then_branch, expr_max(cond, top)) }
        ),
        TyHirStmtV::While { cond, body, .. } => body_max(body, expr_max(cond, top)),
        TyHirStmtV::Return(x0) => (match x0 { Some(x) => expr_max(x, top), None => top }),
    }
}

/// The same for a list from `i` on.
pub open spec fn stmt_list_max(es: Seq<TyHirStmtV>, i: int, top: u32) -> u32
    decreases es, es.len() - i,
{
    if i < 0 || i >= es.len() {
        top
    } else {
        stmt_list_max(es, i + 1, stmt_max(es[i], top))
    }
}

/// The largest number of a definition in an expression, or `top` if that is larger.
pub open spec fn expr_max(e: TyHirExprV, top: u32) -> u32
    decreases e, 0int,
{
    expr_kind_max(e.kind, type_max(e.ty, top))
}

/// The same for a list from `i` on.
pub open spec fn expr_list_max(es: Seq<TyHirExprV>, i: int, top: u32) -> u32
    decreases es, es.len() - i,
{
    if i < 0 || i >= es.len() {
        top
    } else {
        expr_list_max(es, i + 1, expr_max(es[i], top))
    }
}

/// The largest number of a definition in a computation, or `top` if that is larger.
pub open spec fn expr_kind_max(e: TyHirExprKindV, top: u32) -> u32
    decreases e, 0int,
{
    match e {
        TyHirExprKindV::Path(x0) => larger(x0.0, top),
        TyHirExprKindV::Binary { lhs, rhs, .. } => expr_max(*rhs, expr_max(*lhs, top)),
        TyHirExprKindV::Call { callee, args, turbofish, .. } => type_or_const_list_max(
            turbofish,
            0,
            expr_list_max(args, 0, larger(callee.0, top)),
        ),
        TyHirExprKindV::FieldAccess { object, field, .. } => larger(
            field.0,
            expr_max(*object, top),
        ),
        TyHirExprKindV::StructLiteral { def_id, fields, turbofish, .. } => type_or_const_list_max(
            turbofish,
            0,
            inits_max(fields, 0, larger(def_id.0, top)),
        ),
        TyHirExprKindV::ArrayLiteral { elements, .. } => expr_list_max(elements, 0, top),
        TyHirExprKindV::Index { array, index, .. } => expr_max(*index, expr_max(*array, top)),
        TyHirExprKindV::AddressOf(x0) => expr_max(*x0, top),
        TyHirExprKindV::Deref(x0) => expr_max(*x0, top),
        TyHirExprKindV::Variant { def_id, args, turbofish, .. } => type_or_const_list_max(
            turbofish,
            0,
            expr_list_max(args, 0, larger(def_id.0, top)),
        ),
        TyHirExprKindV::Match { scrutinee, arms, .. } => match_arm_list_max(
            arms,
            0,
            expr_max(*scrutinee, top),
        ),
        TyHirExprKindV::TraitCast { value, trait_def, .. } => larger(
            trait_def.0,
            expr_max(*value, top),
        ),
        TyHirExprKindV::DynamicMethodCall { trait_def, receiver, args, .. } => expr_list_max(
            args,
            0,
            expr_max(*receiver, larger(trait_def.0, top)),
        ),
        _ => top,
    }
}

/// The largest number of a definition in a method table, or `top` if that is larger.
pub open spec fn v_table_max(e: VTableV, top: u32) -> u32
{
    ids_max(e.methods, 0, larger(e.impl_type_def.0, larger(e.trait_def.0, top)))
}

/// The same for a list from `i` on.
pub open spec fn v_table_list_max(es: Seq<VTableV>, i: int, top: u32) -> u32
    decreases es.len() - i,
{
    if i < 0 || i >= es.len() {
        top
    } else {
        v_table_list_max(es, i + 1, v_table_max(es[i], top))
    }
}

/// The largest number of a definition in an item, or `top` if that is larger.
pub open spec fn item_max(e: TyHirItemV, top: u32) -> u32
    decreases e, 0int,
{
    match e {
        TyHirItemV::Module(x0) => module_max(x0, top),
        TyHirItemV::ExternFn { def_id, param_types, return_ty, .. } => type_max(
            return_ty,
            type_list_max(param_types, 0, larger(def_id.0, top)),
        ),
        TyHirItemV::Fn { def_id, params, return_ty, body, impl_receiver, .. } => (
            match impl_receiver { Some(x) => type_max(x, body_max(body, type_max(return_ty, param_list_max(params, 0, larger(def_id.0, top))))), None => body_max(body, type_max(return_ty, param_list_max(params, 0, larger(def_id.0, top)))) }
        ),
        TyHirItemV::Struct { def_id, fields, .. } => field_list_max(
            fields,
            0,
            larger(def_id.0, top),
        ),
        TyHirItemV::Enum { def_id, variants, .. } => enum_variant_list_max(
            variants,
            0,
            larger(def_id.0, top),
        ),
        TyHirItemV::Static { def_id, ty, init, .. } => expr_max(
            init,
            type_max(ty, larger(def_id.0, top)),
        ),
        TyHirItemV::VTable { trait_def, impl_type_def, methods, .. } => ids_max(
            methods,
            0,
            larger(impl_type_def.0, larger(trait_def.0, top)),
        ),
    }
}

/// The same for a list from `i` on.
pub open spec fn item_list_max(es: Seq<TyHirItemV>, i: int, top: u32) -> u32
    decreases es, es.len() - i,
{
    if i < 0 || i >= es.len() {
        top
    } else {
        item_list_max(es, i + 1, item_max(es[i], top))
    }
}

/// The largest number of a definition in a module, or `top` if that is larger.
pub open spec fn module_max(e: TyHirModuleV, top: u32) -> u32
    decreases e, 0int,
{
    item_list_max(e.items, 0, larger(e.def_id.0, top))
}

/// The same for definitions from `i` on.
pub open spec fn ids_max(es: Seq<DefId>, i: int, top: u32) -> u32
    decreases es.len() - i,
{
    if i < 0 || i >= es.len() {
        top
    } else {
        ids_max(es, i + 1, larger(es[i].0, top))
    }
}

/// The same for the bindings of a pattern from `i` on.
pub open spec fn binds_max(es: Seq<(DefId, Option<HirTypeV>)>, i: int, top: u32) -> u32
    decreases es.len() - i,
{
    if i < 0 || i >= es.len() {
        top
    } else {
        binds_max(
            es,
            i + 1,
            (
                match es[i].1 { Some(x) => type_max(x, larger(es[i].0.0, top)), None => larger(es[i].0.0, top) }
            ),
        )
    }
}

/// The same for the values of a struct literal from `i` on.
pub open spec fn inits_max(es: Seq<(DefId, TyHirExprV)>, i: int, top: u32) -> u32
    decreases es, es.len() - i,
{
    if i < 0 || i >= es.len() {
        top
    } else {
        inits_max(es, i + 1, expr_max(es[i].1, larger(es[i].0.0, top)))
    }
}

/// The largest number of a definition in a type, or `top` if that is larger.
pub fn type_top(e: &HirType, top: u32) -> (r: u32)
    ensures
        r == type_max(e.deep_view(), top),
    decreases e, 0int,
{
    proof {
        lemma_hir_type_view(*e);
    }
    match e {
        HirType::Pointer(x0) => {
            let t0: u32 = type_top(&**x0, top);
            t0
        },
        HirType::Named(x0) => {
            let t0: u32 = larger_id(*x0, top);
            t0
        },
        HirType::Array(x0, _) => {
            let t0: u32 = type_top(&**x0, top);
            t0
        },
        HirType::Generic(x0, x1, _) => {
            let t0: u32 = larger_id(*x0, top);
            let t1: u32 = type_list_top(x1, t0);
            t1
        },
        HirType::Enum(x0, x1, _) => {
            let t0: u32 = larger_id(*x0, top);
            let t1: u32 = type_list_top(x1, t0);
            t1
        },
        HirType::TraitObject(x0) => {
            let t0: u32 = larger_id(*x0, top);
            t0
        },
        _ => top,
    }
}

/// The same for a list.
pub fn type_list_top(es: &Vec<HirType>, top: u32) -> (r: u32)
    ensures
        r == type_list_max(es.deep_view(), 0, top),
    decreases es, 0int,
{
    let mut out: u32 = top;
    for i in 0..es.len()
        invariant
            type_list_max(es.deep_view(), 0, top) == type_list_max(es.deep_view(), i as int, out),
    {
        out = type_top(&es[i], out);
    }
    out
}

/// The largest number of a definition in a generic argument, or `top` if that is larger.
pub fn type_or_const_top(e: &TypeOrConst, top: u32) -> (r: u32)
    ensures
        r == type_or_const_max(e.deep_view(), top),
{
    match e {
        TypeOrConst::Type(x0) => {
            let t0: u32 = type_top(x0, top);
            t0
        },
        _ => top,
    }
}

/// The same for a list.
pub fn type_or_const_list_top(es: &Vec<TypeOrConst>, top: u32) -> (r: u32)
    ensures
        r == type_or_const_list_max(es.deep_view(), 0, top),
{
    let mut out: u32 = top;
    for i in 0..es.len()
        invariant
            type_or_const_list_max(es.deep_view(), 0, top) == type_or_const_list_max(
                es.deep_view(),
                i as int,
                out,
            ),
    {
        out = type_or_const_top(&es[i], out);
    }
    out
}

/// The largest number of a definition in a parameter, or `top` if that is larger.
pub fn param_top(e: &TyHirParam, top: u32) -> (r: u32)
    ensures
        r == param_max(e.deep_view(), top),
{
    let t0: u32 = larger_id(*&e.def_id, top);
    let t1: u32 = type_top(&e.ty, t0);
    t1
}

/// The same for a list.
pub fn param_list_top(es: &Vec<TyHirParam>, top: u32) -> (r: u32)
    ensures
        r == param_list_max(es.deep_view(), 0, top),
{
    let mut out: u32 = top;
    for i in 0..es.len()
        invariant
            param_list_max(es.deep_view(), 0, top) == param_list_max(es.deep_view(), i as int, out),
    {
        out = param_top(&es[i], out);
    }
    out
}

/// The largest number of a definition in a field, or `top` if that is larger.
pub fn field_top(e: &TyHirField, top: u32) -> (r: u32)
    ensures
        r == field_max(e.deep_view(), top),
{
    let t0: u32 = larger_id(*&e.def_id, top);
    let t1: u32 = type_top(&e.ty, t0);
    t1
}

/// The same for a list.
pub fn field_list_top(es: &Vec<TyHirField>, top: u32) -> (r: u32)
    ensures
        r == field_list_max(es.deep_view(), 0, top),
{
    let mut out: u32 = top;
    for i in 0..es.len()
        invariant
            field_list_max(es.deep_view(), 0, top) == field_list_max(es.deep_view(), i as int, out),
    {
        out = field_top(&es[i], out);
    }
    out
}

/// The largest number of a definition in a variant, or `top` if that is larger.
pub fn enum_variant_top(e: &TyHirEnumVariant, top: u32) -> (r: u32)
    ensures
        r == enum_variant_max(e.deep_view(), top),
{
    let t0: u32 = larger_id(*&e.def_id, top);
    let t1: u32 = field_list_top(&e.fields, t0);
    t1
}

/// The same for a list.
pub fn enum_variant_list_top(es: &Vec<TyHirEnumVariant>, top: u32) -> (r: u32)
    ensures
        r == enum_variant_list_max(es.deep_view(), 0, top),
{
    let mut out: u32 = top;
    for i in 0..es.len()
        invariant
            enum_variant_list_max(es.deep_view(), 0, top) == enum_variant_list_max(
                es.deep_view(),
                i as int,
                out,
            ),
    {
        out = enum_variant_top(&es[i], out);
    }
    out
}

/// The largest number of a definition in a pattern, or `top` if that is larger.
pub fn pattern_top(e: &TyHirPattern, top: u32) -> (r: u32)
    ensures
        r == pattern_max(e.deep_view(), top),
{
    match e {
        TyHirPattern::Variant { enum_def, bindings, .. } => {
            let t0: u32 = larger_id(*enum_def, top);
            let t1: u32 = binds_top(bindings, t0);
            t1
        },
        TyHirPattern::Ident(x0) => {
            let t0: u32 = larger_id(*x0, top);
            t0
        },
        _ => top,
    }
}

/// The largest number of a definition in an arm, or `top` if that is larger.
pub fn match_arm_top(e: &TyHirMatchArm, top: u32) -> (r: u32)
    ensures
        r == match_arm_max(e.deep_view(), top),
    decreases e, 0int,
{
    proof {
        lemma_ty_hir_match_arm_view(*e);
    }
    let t0: u32 = pattern_top(&e.pattern, top);
    let t1: u32 = body_top(&e.body, t0);
    t1
}

/// The same for a list.
pub fn match_arm_list_top(es: &Vec<TyHirMatchArm>, top: u32) -> (r: u32)
    ensures
        r == match_arm_list_max(es.deep_view(), 0, top),
    decreases es, 0int,
{
    let mut out: u32 = top;
    for i in 0..es.len()
        invariant
            match_arm_list_max(es.deep_view(), 0, top) == match_arm_list_max(
                es.deep_view(),
                i as int,
                out,
            ),
    {
        out = match_arm_top(&es[i], out);
    }
    out
}

/// The largest number of a definition in a block, or `top` if that is larger.
pub fn body_top(e: &TyHirBody, top: u32) -> (r: u32)
    ensures
        r == body_max(e.deep_view(), top),
    decreases e, 0int,
{
    proof {
        lemma_ty_hir_body_view(*e);
    }
    let t0: u32 = stmt_list_top(&e.stmts, top);
    t0
}

/// The largest number of a definition in a statement, or `top` if that is larger.
pub fn stmt_top(e: &TyHirStmt, top: u32) -> (r: u32)
    ensures
        r == stmt_max(e.deep_view(), top),
    decreases e, 0int,
{
    proof {
        lemma_ty_hir_stmt_view(*e);
    }
    match e {
        TyHirStmt::Let { def_id, ty, init, .. } => {
            let t0: u32 = larger_id(*def_id, top);
            let t1: u32 = type_top(ty, t0);
            let t2: u32 = expr_top(init, t1);
            t2
        },
        TyHirStmt::Assign { target, value, .. } => {
            let t0: u32 = expr_top(target, top);
            let t1: u32 = expr_top(value, t0);
            t1
        },
        TyHirStmt::Expr(x0) => {
            let t0: u32 = expr_top(x0, top);
            t0
        },
        TyHirStmt::If { cond, then_branch, else_branch, .. } => {
            let t0: u32 = expr_top(cond, top);
            let t1: u32 = body_top(then_branch, t0);
            let t2: u32 = match else_branch { Some(x) => body_top(x, t1), None => t1 };
            t2
        },
        TyHirStmt::While { cond, body, .. } => {
            let t0: u32 = expr_top(cond, top);
            let t1: u32 = body_top(body, t0);
            t1
        },
        TyHirStmt::Return(x0) => {
            let t0: u32 = match x0 { Some(x) => expr_top(x, top), None => top };
            t0
        },
    }
}

/// The same for a list.
pub fn stmt_list_top(es: &Vec<TyHirStmt>, top: u32) -> (r: u32)
    ensures
        r == stmt_list_max(es.deep_view(), 0, top),
    decreases es, 0int,
{
    let mut out: u32 = top;
    for i in 0..es.len()
        invariant
            stmt_list_max(es.deep_view(), 0, top) == stmt_list_max(es.deep_view(), i as int, out),
    {
        out = stmt_top(&es[i], out);
    }
    out
}

/// The largest number of a definition in an expression, or `top` if that is larger.
pub fn expr_top(e: &TyHirExpr, top: u32) -> (r: u32)
    ensures
        r == expr_max(e.deep_view(), top),
    decreases e, 0int,
{
    proof {
        lemma_ty_hir_expr_view(*e);
    }
    let t0: u32 = type_top(&e.ty, top);
    let t1: u32 = expr_kind_top(&e.kind, t0);
    t1
}

/// The same for a list.
pub fn expr_list_top(es: &Vec<TyHirExpr>, top: u32) -> (r: u32)
    ensures
        r == expr_list_max(es.deep_view(), 0, top),
    decreases es, 0int,
{
    let mut out: u32 = top;
    for i in 0..es.len()
        invariant
            expr_list_max(es.deep_view(), 0, top) == expr_list_max(es.deep_view(), i as int, out),
    {
        out = expr_top(&es[i], out);
    }
    out
}

/// The largest number of a definition in a computation, or `top` if that is larger.
pub fn expr_kind_top(e: &TyHirExprKind, top: u32) -> (r: u32)
    ensures
        r == expr_kind_max(e.deep_view(), top),
    decreases e, 0int,
{
    proof {
        lemma_ty_hir_expr_kind_view(*e);
    }
    match e {
        TyHirExprKind::Path(x0) => {
            let t0: u32 = larger_id(*x0, top);
            t0
        },
        TyHirExprKind::Binary { lhs, rhs, .. } => {
            let t0: u32 = expr_top(&**lhs, top);
            let t1: u32 = expr_top(&**rhs, t0);
            t1
        },
        TyHirExprKind::Call { callee, args, turbofish, .. } => {
            let t0: u32 = larger_id(*callee, top);
            let t1: u32 = expr_list_top(args, t0);
            let t2: u32 = type_or_const_list_top(turbofish, t1);
            t2
        },
        TyHirExprKind::FieldAccess { object, field, .. } => {
            let t0: u32 = expr_top(&**object, top);
            let t1: u32 = larger_id(*field, t0);
            t1
        },
        TyHirExprKind::StructLiteral { def_id, fields, turbofish, .. } => {
            let t0: u32 = larger_id(*def_id, top);
            let t1: u32 = inits_top(fields, t0);
            let t2: u32 = type_or_const_list_top(turbofish, t1);
            t2
        },
        TyHirExprKind::ArrayLiteral { elements, .. } => {
            let t0: u32 = expr_list_top(elements, top);
            t0
        },
        TyHirExprKind::Index { array, index, .. } => {
            let t0: u32 = expr_top(&**array, top);
            let t1: u32 = expr_top(&**index, t0);
            t1
        },
        TyHirExprKind::AddressOf(x0) => {
            let t0: u32 = expr_top(&**x0, top);
            t0
        },
        TyHirExprKind::Deref(x0) => {
            let t0: u32 = expr_top(&**x0, top);
            t0
        },
        TyHirExprKind::Variant { def_id, args, turbofish, .. } => {
            let t0: u32 = larger_id(*def_id, top);
            let t1: u32 = expr_list_top(args, t0);
            let t2: u32 = type_or_const_list_top(turbofish, t1);
            t2
        },
        TyHirExprKind::Match { scrutinee, arms, .. } => {
            let t0: u32 = expr_top(&**scrutinee, top);
            let t1: u32 = match_arm_list_top(arms, t0);
            t1
        },
        TyHirExprKind::TraitCast { value, trait_def, .. } => {
            let t0: u32 = expr_top(&**value, top);
            let t1: u32 = larger_id(*trait_def, t0);
            t1
        },
        TyHirExprKind::DynamicMethodCall { trait_def, receiver, args, .. } => {
            let t0: u32 = larger_id(*trait_def, top);
            let t1: u32 = expr_top(&**receiver, t0);
            let t2: u32 = expr_list_top(args, t1);
            t2
        },
        _ => top,
    }
}

/// The largest number of a definition in a method table, or `top` if that is larger.
pub fn v_table_top(e: &VTable, top: u32) -> (r: u32)
    ensures
        r == v_table_max(e.deep_view(), top),
{
    let t0: u32 = larger_id(*&e.trait_def, top);
    let t1: u32 = larger_id(*&e.impl_type_def, t0);
    let t2: u32 = ids_top(&e.methods, t1);
    t2
}

/// The same for a list.
pub fn v_table_list_top(es: &Vec<VTable>, top: u32) -> (r: u32)
    ensures
        r == v_table_list_max(es.deep_view(), 0, top),
{
    let mut out: u32 = top;
    for i in 0..es.len()
        invariant
            v_table_list_max(es.deep_view(), 0, top) == v_table_list_max(
                es.deep_view(),
                i as int,
                out,
            ),
    {
        out = v_table_top(&es[i], out);
    }
    out
}

/// The largest number of a definition in an item, or `top` if that is larger.
pub fn item_top(e: &TyHirItem, top: u32) -> (r: u32)
    ensures
        r == item_max(e.deep_view(), top),
    decreases e, 0int,
{
    proof {
        lemma_ty_hir_item_view(*e);
    }
    match e {
        TyHirItem::Module(x0) => {
            let t0: u32 = module_top(x0, top);
            t0
        },
        TyHirItem::ExternFn { def_id, param_types, return_ty, .. } => {
            let t0: u32 = larger_id(*def_id, top);
            let t1: u32 = type_list_top(param_types, t0);
            let t2: u32 = type_top(return_ty, t1);
            t2
        },
        TyHirItem::Fn { def_id, params, return_ty, body, impl_receiver, .. } => {
            let t0: u32 = larger_id(*def_id, top);
            let t1: u32 = param_list_top(params, t0);
            let t2: u32 = type_top(return_ty, t1);
            let t3: u32 = body_top(body, t2);
            let t4: u32 = match impl_receiver { Some(x) => type_top(x, t3), None => t3 };
            t4
        },
        TyHirItem::Struct { def_id, fields, .. } => {
            let t0: u32 = larger_id(*def_id, top);
            let t1: u32 = field_list_top(fields, t0);
            t1
        },
        TyHirItem::Enum { def_id, variants, .. } => {
            let t0: u32 = larger_id(*def_id, top);
            let t1: u32 = enum_variant_list_top(variants, t0);
            t1
        },
        TyHirItem::Static { def_id, ty, init, .. } => {
            let t0: u32 = larger_id(*def_id, top);
            let t1: u32 = type_top(ty, t0);
            let t2: u32 = expr_top(init, t1);
            t2
        },
        TyHirItem::VTable { trait_def, impl_type_def, methods, .. } => {
            let t0: u32 = larger_id(*trait_def, top);
            let t1: u32 = larger_id(*impl_type_def, t0);
            let t2: u32 = ids_top(methods, t1);
            t2
        },
    }
}

/// The same for a list.
pub fn item_list_top(es: &Vec<TyHirItem>, top: u32) -> (r: u32)
    ensures
        r == item_list_max(es.deep_view(), 0, top),
    decreases es, 0int,
{
    let mut out: u32 = top;
    for i in 0..es.len()
        invariant
            item_list_max(es.deep_view(), 0, top) == item_list_max(es.deep_view(), i as int, out),
    {
        out = item_top(&es[i], out);
    }
    out
}

/// The largest number of a definition in a module, or `top` if that is larger.
pub fn module_top(e: &TyHirModule, top: u32) -> (r: u32)
    ensures
        r == module_max(e.deep_view(), top),
    decreases e, 0int,
{
    proof {
        lemma_ty_hir_module_view(*e);
    }
    let t0: u32 = larger_id(*&e.def_id, top);
    let t1: u32 = item_list_top(&e.items, t0);
    t1
}

/// The same for definitions.
pub fn ids_top(es: &Vec<DefId>, top: u32) -> (r: u32)
    ensures
        r == ids_max(es.deep_view(), 0, top),
{
    let mut out: u32 = top;
    for i in 0..es.len()
        invariant
            ids_max(es.deep_view(), 0, top) == ids_max(es.deep_view(), i as int, out),
    {
        out = larger_id(es[i], out);
    }
    out
}

/// The same for the bindings of a pattern.
pub fn binds_top(es: &Vec<(DefId, Option<HirType>)>, top: u32) -> (r: u32)
    ensures
        r == binds_max(es.deep_view(), 0, top),
{
    let mut out: u32 = top;
    for i in 0..es.len()
        invariant
            binds_max(es.deep_view(), 0, top) == binds_max(es.deep_view(), i as int, out),
    {
        out = larger_id(es[i].0, out);
        if let Some(x) = &es[i].1 {
            out = type_top(x, out);
        }
    }
    out
}

/// The same for the values of a struct literal.
pub fn inits_top(es: &Vec<(DefId, TyHirExpr)>, top: u32) -> (r: u32)
    ensures
        r == inits_max(es.deep_view(), 0, top),
    decreases es, 0int,
{
    let mut out: u32 = top;
    for i in 0..es.len()
        invariant
            inits_max(es.deep_view(), 0, top) == inits_max(es.deep_view(), i as int, out),
    {
        out = larger_id(es[i].0, out);
        out = expr_top(&es[i].1, out);
    }
    out
}

/// The largest number of a definition that occurs in a program.
pub open spec fn unit_max(unit: TyHirCompilationUnitV) -> u32 {
    v_table_list_max(unit.vtables, 0, module_max(unit.root_module, 0))
}

/// The largest number of a definition that occurs in a program.
pub fn unit_top(unit: &TyHirCompilationUnit) -> (r: u32)
    ensures
        r == unit_max(unit.deep_view()),
{
    let t: u32 = module_top(&unit.root_module, 0);
    v_table_list_top(&unit.vtables, t)
}

} // verus!

