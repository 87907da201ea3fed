//! What it means for a typed program to be well typed.
//!
//! The judgement reads the typed program alone: every node must have a type
//! that follows from its parts, from the variables in scope and from the
//! definitions of the program. It does not mention how types were found.

use crate::ast::{BinOp, GenericParamV};
use crate::hir::{ArrayLen, ConstArg, DefId, HirTypeV};
use crate::table::lookup;
use crate::tycheck::info::{EnumInfoV, FuncSigV, StructFieldInfoV};
use crate::tycheck::rules::{
    bind_fields, c_literal, declared_type, enum_of, is_comparison, result_type, same_owner,
    subst_type, subst_types, types_of, variant_named, CheckState, Subject,
};
use crate::tyhir::{
    TyHirExprKindV, TyHirExprV, TyHirItemV, TyHirMatchArmV, TyHirParamV, TyHirPatternV, TyHirStmtV,
};
use vstd::prelude::*;

verus! {

/// The definitions that types refer to.
#[verifier::ext_equal]
pub struct Definitions {
    pub struct_fields: Map<DefId, Seq<StructFieldInfoV>>,
    pub struct_generics: Map<DefId, Seq<GenericParamV>>,
    pub func_sigs: Map<DefId, FuncSigV>,
    pub enums: Seq<EnumInfoV>,
}

/// The definitions that a checker knows.
pub open spec fn definitions(s: CheckState) -> Definitions {
    Definitions { struct_fields: s.struct_fields, struct_generics: s.struct_generics, func_sigs: s.func_sigs, enums: s.enums }
}

/// The generic parameters of a struct or an enumeration.
pub open spec fn params_of(g: Definitions, d: DefId) -> Seq<GenericParamV> {
    match lookup(g.struct_generics, d) {
        Some(gs) => gs,
        None => Seq::empty(),
    }
}

/// The operands of an operator have the types that it takes.
pub open spec fn operands_fit(op: BinOp, l: HirTypeV, r: HirTypeV) -> bool {
    ||| l is Int && r is Int
    ||| is_comparison(op) && l is Pointer && r is Pointer
}

/// The parameter types `ps` and the result type `ret` are those of a function,
/// or those that some generic arguments make of them.
pub open spec fn instance_of(sig: FuncSigV, ps: Seq<HirTypeV>, ret: HirTypeV) -> bool {
    ||| ps == sig.param_types && ret == sig.ret_ty
    ||| exists|ta: Seq<HirTypeV>, ca: Seq<ConstArg>| made_from(sig, ps, ret, ta, ca)
}

/// The parameter types `ps` and the result type `ret` come from generic
/// arguments.
pub open spec fn made_from(
    sig: FuncSigV,
    ps: Seq<HirTypeV>,
    ret: HirTypeV,
    ta: Seq<HirTypeV>,
    ca: Seq<ConstArg>,
) -> bool {
    &&& subst_types(sig.param_types, sig.generics, ta, ca, 0, Seq::empty()) == Ok::<Seq<HirTypeV>, crate::error::MplangErrorV>(ps)
    &&& subst_type(sig.ret_ty, sig.generics, ta, ca) == Ok::<HirTypeV, crate::error::MplangErrorV>(ret)
}

/// Arguments have the types of the parameters; a variadic function takes more.
/// A receiver may stand for another application of its generic type.
pub open spec fn args_fit(sig: FuncSigV, ps: Seq<HirTypeV>, args: Seq<HirTypeV>) -> bool {
    &&& if sig.is_variadic { args.len() >= ps.len() } else { args.len() == ps.len() }
    &&& forall|i: int| 0 <= i < ps.len() ==> #[trigger] args[i] == ps[i] || (i == 0 && same_owner(args[0], sig.param_types[0]))
}

/// A call of a function with arguments of these types has type `ty`.
pub open spec fn ok_call(g: Definitions, callee: DefId, args: Seq<HirTypeV>, ty: HirTypeV) -> bool {
    match lookup(g.func_sigs, callee) {
        None => false,
        Some(sig) => exists|ps: Seq<HirTypeV>| #[trigger] instance_of(sig, ps, ty) && args_fit(
            sig,
            ps,
            args,
        ),
    }
}

/// The struct `d` has field `info`.
pub open spec fn has_field(g: Definitions, d: DefId, info: StructFieldInfoV) -> bool {
    &&& g.struct_fields.dom().contains(d)
    &&& g.struct_fields[d].contains(info)
}

/// The field `field` of a value of type `t` has type `ty`.
pub open spec fn ok_field(g: Definitions, t: HirTypeV, field: DefId, ty: HirTypeV) -> bool {
    match t {
        HirTypeV::Named(d) => exists|info: StructFieldInfoV| #[trigger] has_field(g, d, info) && info.def_id == field && info.ty == ty,
        HirTypeV::Generic(d, ta, ca) => exists|info: StructFieldInfoV| #[trigger] has_field(g, d, info) && info.def_id == field && subst_type(info.ty, params_of(g, d), ta, ca) == Ok::<HirTypeV, crate::error::MplangErrorV>(ty),
        _ => false,
    }
}

/// A value for the field `field` of a struct literal has the type of that
/// field.
pub open spec fn ok_init(
    g: Definitions,
    d: DefId,
    ta: Seq<HirTypeV>,
    ca: Seq<ConstArg>,
    field: DefId,
    ty: HirTypeV,
) -> bool {
    exists|info: StructFieldInfoV| #[trigger] has_field(g, d, info) && info.def_id == field && declared_type(info, params_of(g, d), ta, ca) == Ok::<HirTypeV, crate::error::MplangErrorV>(ty)
}

/// The type of a literal of struct `d`, with its generic arguments.
pub open spec fn literal_args(
    g: Definitions,
    d: DefId,
    ty: HirTypeV,
) -> Option<(Seq<HirTypeV>, Seq<ConstArg>)> {
    match ty {
        HirTypeV::Named(f) => if f == d && params_of(g, d).len() == 0 { Some((Seq::empty(), Seq::empty())) } else { None },
        HirTypeV::Generic(
            f,
            ta,
            ca,
        ) => if f == d && params_of(g, d).len() > 0 { Some((ta, ca)) } else { None },
        _ => None,
    }
}

/// The variant of an enumeration takes `n` arguments.
pub open spec fn ok_variant(g: Definitions, d: DefId, variant: Seq<char>, n: nat) -> bool {
    match enum_of(g.enums, d, 0) {
        None => false,
        Some(vs) => match variant_named(vs, variant, 0) {
            None => false,
            Some(v) => v.fields.len() == n,
        },
    }
}

/// What a match on a value of this type looks at.
pub open spec fn subject_of(g: Definitions, t: HirTypeV) -> Option<Subject> {
    match t {
        HirTypeV::Int => Some(Subject::Int),
        HirTypeV::Enum(d, ta, ca) => match enum_of(g.enums, d, 0) {
            Some(vs) => Some(
                Subject::Enum { def: d, variants: vs, generics: params_of(g, d), types: ta, consts: ca },
            ),
            None => None,
        },
        _ => None,
    }
}

/// The variables in an arm: those outside it and those that its pattern binds.
pub open spec fn bound(
    vars: Map<DefId, HirTypeV>,
    on: Subject,
    p: TyHirPatternV,
) -> Map<DefId, HirTypeV> {
    match (on, p) {
        (Subject::Int, TyHirPatternV::Ident(d)) => vars.insert(d, HirTypeV::Int),
        (
            Subject::Enum { def, variants, generics, types, consts },
            TyHirPatternV::Variant { enum_def, variant, bindings },
        ) => match variant_named(variants, variant, 0) {
            Some(v) => bind_fields(vars, bindings, v.fields, generics, types, consts, 0).0,
            None => vars,
        },
        _ => vars,
    }
}

/// A pattern fits what the match looks at, and a variant pattern binds each
/// field.
pub open spec fn ok_pattern(on: Subject, p: TyHirPatternV) -> bool {
    match (on, p) {
        (_, TyHirPatternV::Wildcard) => true,
        (_, TyHirPatternV::Ident(_)) => true,
        (Subject::Int, TyHirPatternV::Literal(_)) => true,
        (
            Subject::Enum { def, variants, .. },
            TyHirPatternV::Variant { enum_def, variant, bindings },
        ) => enum_def == def && match variant_named(variants, variant, 0) {
            Some(v) => bindings.len() == v.fields.len(),
            None => false,
        },
        _ => false,
    }
}

/// Some arm matches every value.
pub open spec fn some_catch_all(arms: Seq<TyHirMatchArmV>) -> bool {
    exists|i: int| 0 <= i < arms.len() && (
        (#[trigger] arms[i]).pattern is Wildcard || arms[i].pattern is Ident
    )
}

/// Some arm matches this variant.
pub open spec fn some_arm_for(arms: Seq<TyHirMatchArmV>, name: Seq<char>) -> bool {
    exists|i: int| 0 <= i < arms.len() && (#[trigger] arms[i]).pattern is Variant && arms[i].pattern->variant == name
}

/// The arms match every value.
pub open spec fn exhaustive(on: Subject, arms: Seq<TyHirMatchArmV>) -> bool {
    ||| some_catch_all(arms)
    ||| (on is Enum && forall|k: int| 0 <= k < on->variants.len() ==> some_arm_for(arms, (#[trigger] on->variants[k]).name))
}

/// An expression is well typed.
pub open spec fn ok_expr(g: Definitions, vars: Map<DefId, HirTypeV>, e: TyHirExprV) -> bool
    decreases e, 1int,
{
    ok_kind(g, vars, e.kind, e.ty)
}

/// An expression of type `ty` is well typed.
pub open spec fn ok_kind(
    g: Definitions,
    vars: Map<DefId, HirTypeV>,
    k: TyHirExprKindV,
    ty: HirTypeV,
) -> bool
    decreases k, 0int,
{
    match k {
        TyHirExprKindV::Literal(l) => ty == c_literal(l).ty,
        TyHirExprKindV::Path(d) => lookup(vars, d) == Some(ty),
        TyHirExprKindV::Binary { op, lhs, rhs } => ty is Int && ok_expr(g, vars, *lhs) && ok_expr(g, vars, *rhs) && operands_fit(op, lhs.ty, rhs.ty),
        TyHirExprKindV::Call { callee, args, turbofish } => ok_exprs(g, vars, args, 0) && ok_call(
            g,
            callee,
            types_of(args),
            ty,
        ),
        TyHirExprKindV::FieldAccess { object, field } => ok_expr(g, vars, *object) && ok_field(
            g,
            object.ty,
            field,
            ty,
        ),
        TyHirExprKindV::StructLiteral { def_id, fields, turbofish } => match literal_args(
            g,
            def_id,
            ty,
        ) {
            None => false,
            Some(a) => ok_inits(g, vars, def_id, a.0, a.1, fields, 0),
        },
        TyHirExprKindV::ArrayLiteral { elements, repeat } => ok_elements(g, vars, elements, ty, 0) && elements.len() > 0 && ty is Array && ty->Array_1 == ArrayLen::Known(match repeat { Some(n) => n, None => elements.len() as usize }),
        TyHirExprKindV::Index { array, index } => ok_expr(g, vars, *array) && ok_expr(g, vars, *index) && index.ty is Int && array.ty is Array && *array.ty->Array_0 == ty,
        TyHirExprKindV::AddressOf(inner) => ok_expr(g, vars, *inner) && ty == HirTypeV::Pointer(
            Box::new(inner.ty),
        ),
        TyHirExprKindV::Deref(inner) => ok_expr(g, vars, *inner) && inner.ty == HirTypeV::Pointer(Box::new(ty)),
        TyHirExprKindV::Variant { def_id, variant, args, turbofish } => ok_exprs(g, vars, args, 0) && ok_variant(g, def_id, variant, args.len()) && ty is Enum && ty->Enum_0 == def_id,
        TyHirExprKindV::Match { scrutinee, arms } => ok_expr(g, vars, *scrutinee) && match subject_of(g, scrutinee.ty) {
            None => false,
            Some(on) => ok_arms(g, vars, on, arms, ty, 0) && exhaustive(on, arms) && (
                arms.len() == 0 ==> ty is Unit
            ),
        },
        TyHirExprKindV::TraitCast { value, trait_def } => ok_expr(g, vars, *value) && value.ty is Named && ty == HirTypeV::TraitObject(trait_def),
        TyHirExprKindV::DynamicMethodCall { trait_def, method_index, receiver, args } => ok_expr(g, vars, *receiver) && receiver.ty == HirTypeV::TraitObject(trait_def) && ok_exprs(g, vars, args, 0) && ty is Int,
    }
}

/// Expressions from `i` on are well typed.
pub open spec fn ok_exprs(
    g: Definitions,
    vars: Map<DefId, HirTypeV>,
    es: Seq<TyHirExprV>,
    i: int,
) -> bool
    decreases es, es.len() - i,
{
    i < 0 || i >= es.len() || (ok_expr(g, vars, es[i]) && ok_exprs(g, vars, es, i + 1))
}

/// The elements of an array of type `ty` from `i` on are well typed.
pub open spec fn ok_elements(
    g: Definitions,
    vars: Map<DefId, HirTypeV>,
    es: Seq<TyHirExprV>,
    ty: HirTypeV,
    i: int,
) -> bool
    decreases es, es.len() - i,
{
    i < 0 || i >= es.len() || (ok_expr(g, vars, es[i]) && ty is Array && es[i].ty == *ty->Array_0 && ok_elements(g, vars, es, ty, i + 1))
}

/// The values of a struct literal from `i` on are well typed.
pub open spec fn ok_inits(
    g: Definitions,
    vars: Map<DefId, HirTypeV>,
    d: DefId,
    ta: Seq<HirTypeV>,
    ca: Seq<ConstArg>,
    fs: Seq<(DefId, TyHirExprV)>,
    i: int,
) -> bool
    decreases fs, fs.len() - i,
{
    i < 0 || i >= fs.len() || (ok_expr(g, vars, fs[i].1) && ok_init(g, d, ta, ca, fs[i].0, fs[i].1.ty) && ok_inits(g, vars, d, ta, ca, fs, i + 1))
}

/// The arms of a match of type `ty` from `i` on are well typed.
pub open spec fn ok_arms(
    g: Definitions,
    vars: Map<DefId, HirTypeV>,
    on: Subject,
    arms: Seq<TyHirMatchArmV>,
    ty: HirTypeV,
    i: int,
) -> bool
    decreases arms, arms.len() - i,
{
    i < 0 || i >= arms.len() || (ok_pattern(on, arms[i].pattern) && ok_stmts(g, bound(vars, on, arms[i].pattern), arms[i].body.stmts, HirTypeV::Unit, 0) && result_type(arms[i].body.stmts) == ty && ok_arms(g, vars, on, arms, ty, i + 1))
}

/// The variables in scope behind a statement.
pub open spec fn vars_after(vars: Map<DefId, HirTypeV>, st: TyHirStmtV) -> Map<DefId, HirTypeV>
    decreases st, 0int,
{
    match st {
        TyHirStmtV::Let { def_id, ty, .. } => vars.insert(def_id, ty),
        TyHirStmtV::If { then_branch, else_branch, .. } => match else_branch {
            Some(b) => vars_after_all(vars_after_all(vars, then_branch.stmts, 0), b.stmts, 0),
            None => vars_after_all(vars, then_branch.stmts, 0),
        },
        TyHirStmtV::While { body, .. } => vars_after_all(vars, body.stmts, 0),
        _ => vars,
    }
}

/// The variables in scope behind the statements from `i` on.
pub open spec fn vars_after_all(
    vars: Map<DefId, HirTypeV>,
    stmts: Seq<TyHirStmtV>,
    i: int,
) -> Map<DefId, HirTypeV>
    decreases stmts, stmts.len() - i,
{
    if i < 0 || i >= stmts.len() {
        vars
    } else {
        vars_after_all(vars_after(vars, stmts[i]), stmts, i + 1)
    }
}

/// A statement of a function that returns `ret` is well typed.
pub open spec fn ok_stmt(
    g: Definitions,
    vars: Map<DefId, HirTypeV>,
    st: TyHirStmtV,
    ret: HirTypeV,
) -> bool
    decreases st, 0int,
{
    match st {
        TyHirStmtV::Let { def_id, name, ty, init } => ok_expr(g, vars, init) && init.ty == ty,
        TyHirStmtV::Assign { target, value } => ok_expr(g, vars, target) && ok_expr(g, vars, value) && value.ty == target.ty,
        TyHirStmtV::Expr(e) => ok_expr(g, vars, e),
        TyHirStmtV::If { cond, then_branch, else_branch } => ok_expr(g, vars, cond) && cond.ty is Int && ok_stmts(g, vars, then_branch.stmts, ret, 0) && match else_branch {
            Some(b) => ok_stmts(g, vars_after_all(vars, then_branch.stmts, 0), b.stmts, ret, 0),
            None => true,
        },
        TyHirStmtV::While { cond, body } => ok_expr(g, vars, cond) && cond.ty is Int && ok_stmts(
            g,
            vars,
            body.stmts,
            ret,
            0,
        ),
        TyHirStmtV::Return(value) => match value {
            Some(e) => ok_expr(g, vars, e) && e.ty == ret,
            None => ret is Unit,
        },
    }
}

/// Statements from `i` on are well typed.
pub open spec fn ok_stmts(
    g: Definitions,
    vars: Map<DefId, HirTypeV>,
    stmts: Seq<TyHirStmtV>,
    ret: HirTypeV,
    i: int,
) -> bool
    decreases stmts, stmts.len() - i,
{
    i < 0 || i >= stmts.len() || (ok_stmt(g, vars, stmts[i], ret) && ok_stmts(g, vars_after(vars, stmts[i]), stmts, ret, i + 1))
}

/// The variables with parameters from `i` on.
pub open spec fn with_params(
    vars: Map<DefId, HirTypeV>,
    ps: Seq<TyHirParamV>,
    i: int,
) -> Map<DefId, HirTypeV>
    decreases ps.len() - i,
{
    if i < 0 || i >= ps.len() {
        vars
    } else {
        with_params(vars.insert(ps[i].def_id, ps[i].ty), ps, i + 1)
    }
}

/// The variables known behind an item.
pub open spec fn vars_after_item(
    vars: Map<DefId, HirTypeV>,
    item: TyHirItemV,
) -> Map<DefId, HirTypeV>
    decreases item, 0int,
{
    match item {
        TyHirItemV::Module(m) => vars_after_items(vars, m.items, 0),
        TyHirItemV::Fn { params, body, .. } => vars_after_all(
            with_params(vars, params, 0),
            body.stmts,
            0,
        ),
        _ => vars,
    }
}

/// The variables known behind the items from `i` on.
pub open spec fn vars_after_items(
    vars: Map<DefId, HirTypeV>,
    items: Seq<TyHirItemV>,
    i: int,
) -> Map<DefId, HirTypeV>
    decreases items, items.len() - i,
{
    if i < 0 || i >= items.len() {
        vars
    } else {
        vars_after_items(vars_after_item(vars, items[i]), items, i + 1)
    }
}

/// An item is well typed: the statements of a function use its parameters and
/// return its result type, and a global variable has the type of its value.
pub open spec fn ok_item(g: Definitions, vars: Map<DefId, HirTypeV>, item: TyHirItemV) -> bool
    decreases item, 0int,
{
    match item {
        TyHirItemV::Module(m) => ok_items(g, vars, m.items, 0),
        TyHirItemV::Fn { params, return_ty, body, .. } => ok_stmts(
            g,
            with_params(vars, params, 0),
            body.stmts,
            return_ty,
            0,
        ),
        TyHirItemV::Static { ty, init, .. } => ok_expr(g, vars, init) && init.ty == ty,
        _ => true,
    }
}

/// Items from `i` on are well typed.
pub open spec fn ok_items(
    g: Definitions,
    vars: Map<DefId, HirTypeV>,
    items: Seq<TyHirItemV>,
    i: int,
) -> bool
    decreases items, items.len() - i,
{
    i < 0 || i >= items.len() || (ok_item(g, vars, items[i]) && ok_items(g, vars_after_item(vars, items[i]), items, i + 1))
}

} // verus!

