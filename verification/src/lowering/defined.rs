//! The definitions of a resolved program.

use crate::ast::{EnumVariantV, TopLevelDeclV};
use crate::hir::{
    DefId, HirCompilationUnitV, HirEnumVariantV, HirExprV, HirFieldV, HirItemV, HirMatchArmV,
    HirParamV, HirPatternV, HirStmtV,
};
use crate::lowering::rules::{child, module_name};
use crate::lowering::source::SourceTreeV;
use vstd::prelude::*;

verus! {

/// The variables that a pattern binds.
pub open spec fn pattern_ids(p: HirPatternV) -> Seq<DefId> {
    match p {
        HirPatternV::Variant { bindings, .. } => binding_ids(bindings, 0),
        HirPatternV::Ident(id) => seq![id],
        _ => Seq::empty(),
    }
}

/// The variables of the bindings from `i` on.
pub open spec fn binding_ids(bs: Seq<(DefId, Option<crate::hir::HirTypeV>)>, i: int) -> Seq<DefId>
    decreases bs.len() - i,
{
    if i < 0 || i >= bs.len() {
        Seq::empty()
    } else {
        seq![bs[i].0] + binding_ids(bs, i + 1)
    }
}

/// The variables that an expression introduces.
pub open spec fn expr_ids(e: HirExprV) -> Seq<DefId>
    decreases e, 0int,
{
    match e {
        HirExprV::Literal(_) => Seq::empty(),
        HirExprV::Path(_) => Seq::empty(),
        HirExprV::Binary { lhs, rhs, .. } => expr_ids(*lhs) + expr_ids(*rhs),
        HirExprV::Call { args, .. } => exprs_ids(args, 0),
        HirExprV::FieldAccess { object, .. } => expr_ids(*object),
        HirExprV::StructLiteral { fields, .. } => inits_ids(fields, 0),
        HirExprV::ArrayLiteral { elements, .. } => exprs_ids(elements, 0),
        HirExprV::Index { array, index } => expr_ids(*array) + expr_ids(*index),
        HirExprV::AddressOf(inner) => expr_ids(*inner),
        HirExprV::Deref(inner) => expr_ids(*inner),
        HirExprV::MethodCall { object, args, .. } => expr_ids(*object) + exprs_ids(args, 0),
        HirExprV::Variant { args, .. } => exprs_ids(args, 0),
        HirExprV::Match { scrutinee, arms } => expr_ids(*scrutinee) + arms_ids(arms, 0),
    }
}

/// The variables that the expressions from `i` on introduce.
pub open spec fn exprs_ids(es: Seq<HirExprV>, i: int) -> Seq<DefId>
    decreases es, es.len() - i,
{
    if i < 0 || i >= es.len() {
        Seq::empty()
    } else {
        expr_ids(es[i]) + exprs_ids(es, i + 1)
    }
}

/// The variables that the initial values of fields from `i` on introduce.
pub open spec fn inits_ids(fs: Seq<(Seq<char>, HirExprV)>, i: int) -> Seq<DefId>
    decreases fs, fs.len() - i,
{
    if i < 0 || i >= fs.len() {
        Seq::empty()
    } else {
        expr_ids(fs[i].1) + inits_ids(fs, i + 1)
    }
}

/// The variables that the match arms from `i` on introduce.
pub open spec fn arms_ids(arms: Seq<HirMatchArmV>, i: int) -> Seq<DefId>
    decreases arms, arms.len() - i,
{
    if i < 0 || i >= arms.len() {
        Seq::empty()
    } else {
        pattern_ids(arms[i].pattern) + stmts_ids(arms[i].body.stmts, 0) + arms_ids(arms, i + 1)
    }
}

/// The variables that a statement introduces.
pub open spec fn stmt_ids(st: HirStmtV) -> Seq<DefId>
    decreases st, 0int,
{
    match st {
        HirStmtV::Let { def_id, init, .. } => seq![def_id] + expr_ids(init),
        HirStmtV::Assign { target, value } => expr_ids(target) + expr_ids(value),
        HirStmtV::Expr(e) => expr_ids(e),
        HirStmtV::If { cond, then_branch, else_branch } => match else_branch {
            Some(other) => expr_ids(cond) + stmts_ids(then_branch.stmts, 0) + stmts_ids(other.stmts, 0),
            None => expr_ids(cond) + stmts_ids(then_branch.stmts, 0),
        },
        HirStmtV::While { cond, body } => expr_ids(cond) + stmts_ids(body.stmts, 0),
        HirStmtV::Return(value) => match value {
            Some(e) => expr_ids(e),
            None => Seq::empty(),
        },
    }
}

/// The variables that the statements from `i` on introduce.
pub open spec fn stmts_ids(stmts: Seq<HirStmtV>, i: int) -> Seq<DefId>
    decreases stmts, stmts.len() - i,
{
    if i < 0 || i >= stmts.len() {
        Seq::empty()
    } else {
        stmt_ids(stmts[i]) + stmts_ids(stmts, i + 1)
    }
}

/// The parameters from `i` on.
pub open spec fn params_ids(ps: Seq<HirParamV>, i: int) -> Seq<DefId>
    decreases ps.len() - i,
{
    if i < 0 || i >= ps.len() {
        Seq::empty()
    } else {
        seq![ps[i].def_id] + params_ids(ps, i + 1)
    }
}

/// The fields from `i` on.
pub open spec fn fields_ids(fs: Seq<HirFieldV>, i: int) -> Seq<DefId>
    decreases fs.len() - i,
{
    if i < 0 || i >= fs.len() {
        Seq::empty()
    } else {
        seq![fs[i].def_id] + fields_ids(fs, i + 1)
    }
}

/// The variants from `i` on, each with its fields.
pub open spec fn variants_ids(vs: Seq<HirEnumVariantV>, i: int) -> Seq<DefId>
    decreases vs.len() - i,
{
    if i < 0 || i >= vs.len() {
        Seq::empty()
    } else {
        seq![vs[i].def_id] + fields_ids(vs[i].fields, 0) + variants_ids(vs, i + 1)
    }
}

/// An item, with all that is defined in it.
pub open spec fn item_ids(item: HirItemV) -> Seq<DefId>
    decreases item, 0int,
{
    match item {
        HirItemV::Module(m) => seq![m.def_id] + items_ids(m.items, 0),
        HirItemV::ExternFn { def_id, .. } => seq![def_id],
        HirItemV::Fn { def_id, params, body, .. } => seq![def_id] + (
            params_ids(params, 0) + stmts_ids(body.stmts, 0)
        ),
        HirItemV::Struct { def_id, fields, .. } => seq![def_id] + fields_ids(fields, 0),
        HirItemV::Enum { def_id, variants, .. } => seq![def_id] + variants_ids(variants, 0),
        HirItemV::Static { def_id, init, .. } => seq![def_id] + expr_ids(init),
    }
}

/// The items from `i` on, with all that is defined in them.
pub open spec fn items_ids(items: Seq<HirItemV>, i: int) -> Seq<DefId>
    decreases items, items.len() - i,
{
    if i < 0 || i >= items.len() {
        Seq::empty()
    } else {
        item_ids(items[i]) + items_ids(items, i + 1)
    }
}

/// All definitions of a program: modules, functions, structs with their
/// fields, enumerations with their variants, global variables, parameters and
/// local variables.
pub open spec fn unit_ids(unit: HirCompilationUnitV) -> Seq<DefId> {
    seq![unit.root_module.def_id] + items_ids(unit.root_module.items, 0)
}

/// The full paths that a declaration gives to items of the program.
pub open spec fn own_paths(d: TopLevelDeclV, prefix: Seq<Seq<char>>) -> Seq<Seq<Seq<char>>> {
    match d {
        TopLevelDeclV::ModDecl { name, .. } => seq![prefix.push(name)],
        TopLevelDeclV::ExternCrate { name, .. } => seq![prefix.push(name)],
        TopLevelDeclV::ExternFnDef { name, .. } => seq![prefix.push(name)],
        TopLevelDeclV::FnDef { name, .. } => seq![prefix.push(name)],
        TopLevelDeclV::StructDef { name, .. } => seq![prefix.push(name)],
        TopLevelDeclV::Static { name, .. } => seq![prefix.push(name)],
        TopLevelDeclV::Const { name, .. } => seq![prefix.push(name)],
        TopLevelDeclV::Enum { name, variants, .. } => seq![prefix.push(name)] + variant_paths(
            variants,
            prefix,
            0,
        ),
        _ => Seq::empty(),
    }
}

/// The full paths of the variants from `i` on.
pub open spec fn variant_paths(
    vs: Seq<EnumVariantV>,
    prefix: Seq<Seq<char>>,
    i: int,
) -> Seq<Seq<Seq<char>>>
    decreases vs.len() - i,
{
    if i < 0 || i >= vs.len() {
        Seq::empty()
    } else {
        seq![prefix.push(vs[i].name)] + variant_paths(vs, prefix, i + 1)
    }
}

/// The full paths that the declarations from `i` on, of which `k` brought in a
/// file before, give to items of the program.
pub open spec fn all_paths(
    ds: Seq<TopLevelDeclV>,
    i: int,
    prefix: Seq<Seq<char>>,
    tree: SourceTreeV,
    k: int,
) -> Seq<Seq<Seq<char>>>
    decreases tree, ds.len() - i,
{
    if i < 0 || i >= ds.len() {
        Seq::empty()
    } else {
        match module_name(ds[i]) {
            Some(name) => match child(tree, k) {
                Some(sub) => own_paths(ds[i], prefix) + all_paths(sub.unit.declarations, 0, prefix.push(name), sub.children, 0) + all_paths(ds, i + 1, prefix, tree, k + 1),
                None => own_paths(ds[i], prefix) + all_paths(ds, i + 1, prefix, tree, k + 1),
            },
            None => own_paths(ds[i], prefix) + all_paths(ds, i + 1, prefix, tree, k),
        }
    }
}

} // verus!

