//! Programs in which nothing generic is left.

use crate::hir::{ConstArg, HirTypeV, TypeOrConstV};
use crate::monomorphize::rules::is_template;
use crate::tyhir::{
    TyHirExprKindV, TyHirExprV, TyHirFieldV, TyHirItemV, TyHirParamV, TyHirPatternV, TyHirStmtV,
};
use vstd::prelude::*;

verus! {

/// A type without type parameters and without constant parameters.
pub open spec fn closed_type(t: HirTypeV) -> bool
    decreases t,
{
    match t {
        HirTypeV::Var(_) => false,
        HirTypeV::Pointer(e) => closed_type(*e),
        HirTypeV::Array(e, n) => n is Known && closed_type(*e),
        HirTypeV::Generic(_, ts, cs) => (forall|i: int| 0 <= i < ts.len() ==> closed_type(#[trigger] ts[i])) && all_literal(cs),
        HirTypeV::Enum(_, ts, cs) => (forall|i: int| 0 <= i < ts.len() ==> closed_type(#[trigger] ts[i])) && all_literal(cs),
        _ => true,
    }
}

/// Types without parameters.
pub open spec fn closed_types(ts: Seq<HirTypeV>) -> bool {
    forall|i: int| 0 <= i < ts.len() ==> closed_type(#[trigger] ts[i])
}

/// Constant arguments that all have a value.
pub open spec fn all_literal(cs: Seq<ConstArg>) -> bool {
    forall|i: int| 0 <= i < cs.len() ==> #[trigger] cs[i] is Literal
}

/// A type in which nothing generic is left, at any depth: no parameter, no
/// application of a generic struct, and no array length without a value.
pub open spec fn settled(t: HirTypeV) -> bool
    decreases t,
{
    match t {
        HirTypeV::Var(_) => false,
        HirTypeV::Generic(_, _, _) => false,
        HirTypeV::Pointer(e) => settled(*e),
        HirTypeV::Array(e, n) => n is Known && settled(*e),
        HirTypeV::Enum(_, ts, cs) => (forall|i: int| 0 <= i < ts.len() ==> settled(#[trigger] ts[i])) && all_literal(cs),
        _ => true,
    }
}

/// Types in which nothing generic is left.
pub open spec fn settled_types(ts: Seq<HirTypeV>) -> bool {
    forall|i: int| 0 <= i < ts.len() ==> settled(#[trigger] ts[i])
}

/// Nothing generic is left in a type, if there is one.
pub open spec fn settled_option(t: Option<HirTypeV>) -> bool {
    t matches Some(u) ==> settled(u)
}

/// Nothing generic is left in fields.
pub open spec fn settled_fields(fs: Seq<TyHirFieldV>) -> bool {
    forall|i: int| 0 <= i < fs.len() ==> settled((#[trigger] fs[i]).ty)
}

/// Nothing generic is left in the types of parameters.
pub open spec fn settled_params(ps: Seq<TyHirParamV>) -> bool {
    forall|i: int| 0 <= i < ps.len() ==> settled((#[trigger] ps[i]).ty)
}

/// Every parameter takes a value: none is a constant parameter.
pub open spec fn only_values(ps: Seq<TyHirParamV>) -> bool {
    forall|i: int| 0 <= i < ps.len() ==> !((#[trigger] ps[i]).kind is ConstParam)
}

/// Only generic functions have constant parameters: an item and what is in it.
pub open spec fn only_values_in(item: TyHirItemV) -> bool
    decreases item,
{
    match item {
        TyHirItemV::Module(m) => forall|i: int| 0 <= i < m.items.len() ==> only_values_in(
            #[trigger] m.items[i],
        ),
        TyHirItemV::Fn { generics, params, .. } => generics.len() == 0 ==> only_values(params),
        _ => true,
    }
}

/// Nothing generic is left in a pattern.
pub open spec fn settled_pattern(p: TyHirPatternV) -> bool {
    match p {
        TyHirPatternV::Variant { bindings, .. } => forall|i: int| 0 <= i < bindings.len() ==> settled_option((#[trigger] bindings[i]).1),
        _ => true,
    }
}

/// A struct literal makes the struct that its type names.
pub open spec fn owned_literal(e: TyHirExprV) -> bool {
    match (e.kind, e.ty) {
        (TyHirExprKindV::StructLiteral { def_id, .. }, HirTypeV::Named(d)) => def_id == d,
        _ => true,
    }
}

/// Nothing generic is left in explicit generic arguments.
pub open spec fn settled_args(tf: Seq<TypeOrConstV>) -> bool {
    forall|i: int| 0 <= i < tf.len() ==> (match #[trigger] tf[i] {
        TypeOrConstV::Type(t) => settled(t),
        TypeOrConstV::Const(_) => true,
        TypeOrConstV::ConstParam(_) => false,
    })
}

/// Nothing generic is left: an expression.
pub open spec fn settled_expr(e: TyHirExprV) -> bool
    decreases e, 1int,
{
    settled(e.ty) && owned_literal(e) && settled_kind(e.kind)
}

/// Nothing generic is left: an expression apart from its own type.
pub open spec fn settled_kind(k: TyHirExprKindV) -> bool
    decreases k, 0int,
{
    match k {
        TyHirExprKindV::Literal(_) => true,
        TyHirExprKindV::Path(_) => true,
        TyHirExprKindV::Binary { lhs, rhs, .. } => settled_expr(*lhs) && settled_expr(*rhs),
        TyHirExprKindV::Call { args, turbofish, .. } => turbofish.len() == 0 && (
            forall|i: int| 0 <= i < args.len() ==> settled_expr(#[trigger] args[i])
        ),
        TyHirExprKindV::FieldAccess { object, .. } => settled_expr(*object),
        TyHirExprKindV::StructLiteral { fields, turbofish, .. } => turbofish.len() == 0 && (
            forall|i: int| 0 <= i < fields.len() ==> settled_expr((#[trigger] fields[i]).1)
        ),
        TyHirExprKindV::ArrayLiteral { elements, .. } => (
            forall|i: int| 0 <= i < elements.len() ==> settled_expr(#[trigger] elements[i])
        ),
        TyHirExprKindV::Index { array, index } => settled_expr(*array) && settled_expr(*index),
        TyHirExprKindV::AddressOf(x) => settled_expr(*x),
        TyHirExprKindV::Deref(x) => settled_expr(*x),
        TyHirExprKindV::Variant { args, turbofish, .. } => settled_args(turbofish) && (
            forall|i: int| 0 <= i < args.len() ==> settled_expr(#[trigger] args[i])
        ),
        TyHirExprKindV::Match { scrutinee, arms } => settled_expr(*scrutinee) && (
            forall|i: int| 0 <= i < arms.len() ==> settled_pattern((#[trigger] arms[i]).pattern) && settled_stmts(arms[i].body.stmts)
        ),
        TyHirExprKindV::TraitCast { value, .. } => settled_expr(*value),
        TyHirExprKindV::DynamicMethodCall { receiver, args, .. } => settled_expr(*receiver) && (
            forall|i: int| 0 <= i < args.len() ==> settled_expr(#[trigger] args[i])
        ),
    }
}

/// Nothing generic is left: a statement.
pub open spec fn settled_stmt(st: TyHirStmtV) -> bool
    decreases st, 0int,
{
    match st {
        TyHirStmtV::Let { ty, init, .. } => settled(ty) && settled_expr(init),
        TyHirStmtV::Assign { target, value } => settled_expr(target) && settled_expr(value),
        TyHirStmtV::Expr(e) => settled_expr(e),
        TyHirStmtV::If { cond, then_branch, else_branch } => settled_expr(cond) && settled_stmts(then_branch.stmts) && match else_branch {
            Some(b) => settled_stmts(b.stmts),
            None => true,
        },
        TyHirStmtV::While { cond, body } => settled_expr(cond) && settled_stmts(body.stmts),
        TyHirStmtV::Return(value) => match value {
            Some(e) => settled_expr(e),
            None => true,
        },
    }
}

/// Nothing generic is left: statements.
pub open spec fn settled_stmts(stmts: Seq<TyHirStmtV>) -> bool
    decreases stmts, 0int,
{
    forall|i: int| 0 <= i < stmts.len() ==> settled_stmt(#[trigger] stmts[i])
}

/// An item is no generic function or struct, and nothing generic is left in it:
/// in its parameters, results and fields, in its statements and in its initial
/// value. Only a generic enumeration keeps its parameters.
pub open spec fn settled_item(item: TyHirItemV) -> bool
    decreases item,
{
    !is_template(item) && match item {
        TyHirItemV::Module(m) => forall|i: int| 0 <= i < m.items.len() ==> settled_item(
            #[trigger] m.items[i],
        ),
        TyHirItemV::Fn { params, return_ty, body, impl_receiver, .. } => settled_params(params) && settled(return_ty) && settled_option(impl_receiver) && settled_stmts(body.stmts),
        TyHirItemV::Struct { fields, .. } => settled_fields(fields),
        TyHirItemV::Enum { generics, variants, .. } => generics.len() == 0 ==> forall|i: int| 0 <= i < variants.len() ==> settled_fields((#[trigger] variants[i]).fields),
        TyHirItemV::Static { ty, init, .. } => settled(ty) && settled_expr(init),
        TyHirItemV::ExternFn { param_types, return_ty, .. } => settled_types(param_types) && settled(return_ty),
        TyHirItemV::VTable { .. } => true,
    }
}

/// An instance of a generic definition: a function or a struct in which nothing
/// generic is left, constant parameters included.
pub open spec fn settled_instance(item: TyHirItemV) -> bool {
    settled_item(item) && only_values_in(item) && (item is Fn || item is Struct)
}

/// The number of an instance.
pub open spec fn instance_id(item: TyHirItemV) -> u32 {
    match item {
        TyHirItemV::Fn { def_id, .. } => def_id.0,
        TyHirItemV::Struct { def_id, .. } => def_id.0,
        _ => 0,
    }
}

/// How many of the first `n` items are no generic definitions.
pub open spec fn kept_count(items: Seq<TyHirItemV>, n: int) -> nat
    decreases n,
{
    if n <= 0 {
        0
    } else {
        kept_count(items, n - 1) + if is_template(items[n - 1]) { 0nat } else { 1nat }
    }
}

} // verus!

