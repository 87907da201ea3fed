//! Resolution keeps what a program says.

use crate::ast::{
    ExprV, GenericParamV, ImplMethodV, LiteralV, MatchArmV, MetaV, ParamV, PatternV, StmtV, TypeV,
};
use crate::hir::{
    DefId, HirBodyV, HirExprV, HirItemV, HirMatchArmV, HirParamV, HirPatternV, HirStmtV, HirTypeV,
};
use crate::lowering::rules::{
    l_arms, l_bindings, l_const_params, l_expr, l_exprs, l_field_inits, l_method_params,
    l_opt_type, l_pattern, l_stmt, l_stmts, l_type, l_value_params, low_fn, low_global, low_method,
    new_local, LowerState,
};
use vstd::prelude::*;

verus! {

/// `h` says what `e` says: the same operators, literals, fields and methods, on operands
/// that say the same, in the same order. A name or a call may be that of a variant.
pub open spec fn mirrors(e: ExprV, h: HirExprV) -> bool
    decreases e, 0int,
{
    match e {
        ExprV::Literal(l) => h == HirExprV::Literal(l),
        ExprV::Ident(_) => h is Path || (h is Variant && h->Variant_args.len() == 0),
        ExprV::Paren(inner) => mirrors(*inner, h),
        ExprV::Binary { op, lhs, rhs } => {
            &&& h matches HirExprV::Binary { op: o, lhs: l, rhs: r }
            &&& o == op
            &&& mirrors(*lhs, *l)
            &&& mirrors(*rhs, *r)
        },
        ExprV::Call { args, .. } => match h {
            HirExprV::Call { args: a, .. } => a.len() == args.len() && all_mirror(args, a, 0),
            HirExprV::Variant { args: a, .. } => a.len() == args.len() && all_mirror(args, a, 0),
            _ => false,
        },
        ExprV::FieldAccess { object, field } => {
            &&& h matches HirExprV::FieldAccess { object: o, field: f }
            &&& f == field
            &&& mirrors(*object, *o)
        },
        ExprV::StructLiteral { fields, .. } => {
            &&& h matches HirExprV::StructLiteral { fields: fs, .. }
            &&& fs.len() == fields.len()
            &&& inits_mirror(fields, fs, 0)
        },
        ExprV::ArrayLiteral { elements, repeat } => {
            &&& h matches HirExprV::ArrayLiteral { elements: es, repeat: r }
            &&& es.len() == elements.len()
            &&& all_mirror(elements, es, 0)
            &&& match repeat {
                None => r is None,
                Some(n) => *n matches ExprV::Literal(LiteralV::Int(k)) && r == Some(k as usize),
            }
        },
        ExprV::Index { array, index } => {
            &&& h matches HirExprV::Index { array: a, index: i }
            &&& mirrors(*array, *a)
            &&& mirrors(*index, *i)
        },
        ExprV::AddrOf(inner) => h matches HirExprV::AddressOf(i) && mirrors(*inner, *i),
        ExprV::Deref(inner) => h matches HirExprV::Deref(i) && mirrors(*inner, *i),
        ExprV::MethodCall { object, name, args } => {
            &&& h matches HirExprV::MethodCall { object: o, name: n, args: a }
            &&& n == name
            &&& mirrors(*object, *o)
            &&& a.len() == args.len()
            &&& all_mirror(args, a, 0)
        },
        ExprV::StaticCall { args, .. } => {
            &&& h matches HirExprV::Call { args: a, .. }
            &&& a.len() == args.len()
            &&& all_mirror(args, a, 0)
        },
        ExprV::Match { scrutinee, arms } => {
            &&& h matches HirExprV::Match { scrutinee: v, arms: a }
            &&& mirrors(*scrutinee, *v)
            &&& a.len() == arms.len()
            &&& arms_mirror(arms, a, 0)
        },
    }
}

/// The expressions from `i` on say the same, one by one.
pub open spec fn all_mirror(es: Seq<ExprV>, hs: Seq<HirExprV>, i: int) -> bool
    decreases es, es.len() - i,
{
    i < 0 || i >= es.len() || (mirrors(es[i], hs[i]) && all_mirror(es, hs, i + 1))
}

/// The values for fields from `i` on are for the same fields and say the same.
pub open spec fn inits_mirror(
    fs: Seq<(Seq<char>, ExprV)>,
    hs: Seq<(Seq<char>, HirExprV)>,
    i: int,
) -> bool
    decreases fs, fs.len() - i,
{
    i < 0 || i >= fs.len() || (fs[i].0 == hs[i].0 && mirrors(fs[i].1, hs[i].1) && inits_mirror(fs, hs, i + 1))
}

/// A pattern that matches the same values. A bare name may be that of a variant.
pub open spec fn pattern_mirrors(p: PatternV, h: HirPatternV) -> bool {
    match p {
        PatternV::Variant { variant, bindings, .. } => {
            &&& h matches HirPatternV::Variant { variant: v, bindings: b, .. }
            &&& v == variant
            &&& b.len() == bindings.len()
        },
        PatternV::Literal(l) => h == HirPatternV::Literal(l),
        PatternV::Wildcard => h is Wildcard,
        PatternV::Ident(_) => h is Ident || (h is Variant && h->bindings.len() == 0),
    }
}

/// The arms from `i` on say the same.
pub open spec fn arms_mirror(arms: Seq<MatchArmV>, hs: Seq<HirMatchArmV>, i: int) -> bool
    decreases arms, arms.len() - i,
{
    i < 0 || i >= arms.len() || (pattern_mirrors(arms[i].pattern, hs[i].pattern) && hs[i].body.stmts.len() == arms[i].body.len() && stmts_mirror(arms[i].body, hs[i].body.stmts, 0) && arms_mirror(arms, hs, i + 1))
}

/// `h` does what `st` does. A `let` has a type if and only if it is written.
pub open spec fn stmt_mirrors(st: StmtV, h: HirStmtV) -> bool
    decreases st, 0int,
{
    match st {
        StmtV::Let { name, ty, init } => {
            &&& h matches HirStmtV::Let { name: n, ty: t, init: v, .. }
            &&& n == name
            &&& t is Some == ty is Some
            &&& mirrors(init, v)
        },
        StmtV::Static { .. } => false,
        StmtV::Const { .. } => false,
        StmtV::Assign { target, value } => {
            &&& h matches HirStmtV::Assign { target: t, value: v }
            &&& mirrors(*target, t)
            &&& mirrors(value, v)
        },
        StmtV::Expr(e) => h matches HirStmtV::Expr(v) && mirrors(e, v),
        StmtV::If { cond, then_branch, else_branch } => {
            &&& h matches HirStmtV::If { cond: c, then_branch: a, else_branch: b }
            &&& mirrors(cond, c)
            &&& a.stmts.len() == then_branch.len()
            &&& stmts_mirror(then_branch, a.stmts, 0)
            &&& match else_branch {
                Some(other) => b is Some && b->0.stmts.len() == other.len() && stmts_mirror(other, b->0.stmts, 0),
                None => b is None,
            }
        },
        StmtV::While { cond, body } => {
            &&& h matches HirStmtV::While { cond: c, body: b }
            &&& mirrors(cond, c)
            &&& b.stmts.len() == body.len()
            &&& stmts_mirror(body, b.stmts, 0)
        },
        StmtV::Return(value) => match value {
            Some(e) => h matches HirStmtV::Return(v) && v is Some && mirrors(e, v->0),
            None => h == HirStmtV::Return(None),
        },
    }
}

/// The statements from `i` on do the same, one by one.
pub open spec fn stmts_mirror(stmts: Seq<StmtV>, hs: Seq<HirStmtV>, i: int) -> bool
    decreases stmts, stmts.len() - i,
{
    i < 0 || i >= stmts.len() || (stmt_mirrors(stmts[i], hs[i]) && stmts_mirror(stmts, hs, i + 1))
}

// Proofs

/// `out` begins with `done`, which has `i` parts, and has `n` parts.
spec fn continues<T>(out: Seq<T>, done: Seq<T>, n: nat) -> bool {
    &&& out.len() == n
    &&& done.len() <= n
    &&& forall|j: int| 0 <= j < done.len() ==> #[trigger] out[j] == done[j]
}

proof fn lemma_continues<T>(out: Seq<T>, done: Seq<T>, x: T, n: nat)
    requires
        continues(out, done.push(x), n),
    ensures
        continues(out, done, n),
        out[done.len() as int] == x,
{
    assert(out[done.len() as int] == done.push(x)[done.len() as int]);
    assert forall|j: int| 0 <= j < done.len() implies #[trigger] out[j] == done[j] by {
        assert(out[j] == done.push(x)[j]);
    }
}

/// A resolved expression says what the expression says.
pub proof fn law_resolution_keeps_expressions(s: LowerState, e: ExprV)
    requires
        l_expr(s, e).1 is Ok,
    ensures
        mirrors(e, l_expr(s, e).1->Ok_0),
    decreases e, 0int,
{
    match e {
        ExprV::Literal(_) => {},
        ExprV::Ident(_) => {},
        ExprV::Paren(inner) => {
            law_resolution_keeps_expressions(s, *inner);
        },
        ExprV::Binary { lhs, rhs, .. } => {
            law_resolution_keeps_expressions(s, *lhs);
            law_resolution_keeps_expressions(l_expr(s, *lhs).0, *rhs);
        },
        ExprV::Call { args, .. } => {
            lemma_exprs(s, args, 0, Seq::empty());
        },
        ExprV::FieldAccess { object, .. } => {
            law_resolution_keeps_expressions(s, *object);
        },
        ExprV::StructLiteral { fields, .. } => {
            lemma_inits(s, fields, 0, Seq::empty());
        },
        ExprV::ArrayLiteral { elements, .. } => {
            lemma_exprs(s, elements, 0, Seq::empty());
        },
        ExprV::Index { array, index } => {
            law_resolution_keeps_expressions(s, *array);
            law_resolution_keeps_expressions(l_expr(s, *array).0, *index);
        },
        ExprV::AddrOf(inner) => {
            law_resolution_keeps_expressions(s, *inner);
        },
        ExprV::Deref(inner) => {
            law_resolution_keeps_expressions(s, *inner);
        },
        ExprV::MethodCall { object, args, .. } => {
            law_resolution_keeps_expressions(s, *object);
            lemma_exprs(l_expr(s, *object).0, args, 0, Seq::empty());
        },
        ExprV::StaticCall { args, .. } => {
            lemma_exprs(s, args, 0, Seq::empty());
        },
        ExprV::Match { scrutinee, arms } => {
            law_resolution_keeps_expressions(s, *scrutinee);
            lemma_arms(l_expr(s, *scrutinee).0, arms, 0, Seq::empty());
        },
    }
}

proof fn lemma_exprs(s: LowerState, es: Seq<ExprV>, i: int, done: Seq<HirExprV>)
    requires
        0 <= i <= es.len(),
        done.len() == i,
        l_exprs(s, es, i, done).1 is Ok,
    ensures
        continues(l_exprs(s, es, i, done).1->Ok_0, done, es.len()),
        all_mirror(es, l_exprs(s, es, i, done).1->Ok_0, i),
    decreases es, es.len() - i,
{
    if i < es.len() {
        law_resolution_keeps_expressions(s, es[i]);
        let h = l_expr(s, es[i]).1->Ok_0;
        lemma_exprs(l_expr(s, es[i]).0, es, i + 1, done.push(h));
        lemma_continues(l_exprs(s, es, i, done).1->Ok_0, done, h, es.len());
    }
}

proof fn lemma_inits(
    s: LowerState,
    fs: Seq<(Seq<char>, ExprV)>,
    i: int,
    done: Seq<(Seq<char>, HirExprV)>,
)
    requires
        0 <= i <= fs.len(),
        done.len() == i,
        l_field_inits(s, fs, i, done).1 is Ok,
    ensures
        continues(l_field_inits(s, fs, i, done).1->Ok_0, done, fs.len()),
        inits_mirror(fs, l_field_inits(s, fs, i, done).1->Ok_0, i),
    decreases fs, fs.len() - i,
{
    if i < fs.len() {
        law_resolution_keeps_expressions(s, fs[i].1);
        let h = (fs[i].0, l_expr(s, fs[i].1).1->Ok_0);
        lemma_inits(l_expr(s, fs[i].1).0, fs, i + 1, done.push(h));
        lemma_continues(l_field_inits(s, fs, i, done).1->Ok_0, done, h, fs.len());
    }
}

proof fn lemma_bindings(
    s: LowerState,
    bs: Seq<(Seq<char>, Option<TypeV>)>,
    i: int,
    done: Seq<(DefId, Option<HirTypeV>)>,
)
    requires
        0 <= i <= bs.len(),
        done.len() == i,
        l_bindings(s, bs, i, done).1 is Ok,
    ensures
        l_bindings(s, bs, i, done).1->Ok_0.len() == bs.len(),
    decreases bs.len() - i,
{
    if i < bs.len() {
        let a = new_local(s, bs[i].0);
        let t = l_opt_type(a.0, bs[i].1)->Ok_0;
        lemma_bindings(a.0, bs, i + 1, done.push((a.1->Ok_0, t)));
    }
}

proof fn lemma_arms(s: LowerState, arms: Seq<MatchArmV>, i: int, done: Seq<HirMatchArmV>)
    requires
        0 <= i <= arms.len(),
        done.len() == i,
        l_arms(s, arms, i, done).1 is Ok,
    ensures
        continues(l_arms(s, arms, i, done).1->Ok_0, done, arms.len()),
        arms_mirror(arms, l_arms(s, arms, i, done).1->Ok_0, i),
    decreases arms, arms.len() - i,
{
    if i < arms.len() {
        let p = l_pattern(s, arms[i].pattern);
        assert(pattern_mirrors(arms[i].pattern, p.1->Ok_0)) by {
            reveal(l_pattern);
            if let PatternV::Variant { bindings, .. } = arms[i].pattern {
                lemma_bindings(s, bindings, 0, Seq::empty());
            }
        }
        lemma_stmts(p.0, arms[i].body, 0, Seq::empty());
        let b = l_stmts(p.0, arms[i].body, 0, Seq::empty());
        let h = HirMatchArmV { pattern: p.1->Ok_0, body: HirBodyV { stmts: b.1->Ok_0 } };
        lemma_arms(LowerState { locals: s.locals, ..b.0 }, arms, i + 1, done.push(h));
        lemma_continues(l_arms(s, arms, i, done).1->Ok_0, done, h, arms.len());
    }
}

/// A resolved statement does what the statement does.
pub proof fn law_resolution_keeps_statements(s: LowerState, st: StmtV)
    requires
        l_stmt(s, st).1 is Ok,
    ensures
        stmt_mirrors(st, l_stmt(s, st).1->Ok_0),
    decreases st, 0int,
{
    match st {
        StmtV::Let { name, ty, init } => {
            let s1 = new_local(s, name).0;
            law_resolution_keeps_expressions(s1, init);
        },
        StmtV::Static { .. } => {},
        StmtV::Const { .. } => {},
        StmtV::Assign { target, value } => {
            law_resolution_keeps_expressions(s, *target);
            law_resolution_keeps_expressions(l_expr(s, *target).0, value);
        },
        StmtV::Expr(e) => {
            law_resolution_keeps_expressions(s, e);
        },
        StmtV::If { cond, then_branch, else_branch } => {
            law_resolution_keeps_expressions(s, cond);
            let s1 = l_expr(s, cond).0;
            lemma_stmts(s1, then_branch, 0, Seq::empty());
            if let Some(other) = else_branch {
                lemma_stmts(l_stmts(s1, then_branch, 0, Seq::empty()).0, other, 0, Seq::empty());
            }
        },
        StmtV::While { cond, body } => {
            law_resolution_keeps_expressions(s, cond);
            lemma_stmts(l_expr(s, cond).0, body, 0, Seq::empty());
        },
        StmtV::Return(value) => {
            if let Some(e) = value {
                law_resolution_keeps_expressions(s, e);
            }
        },
    }
}

proof fn lemma_stmts(s: LowerState, stmts: Seq<StmtV>, i: int, done: Seq<HirStmtV>)
    requires
        0 <= i <= stmts.len(),
        done.len() == i,
        l_stmts(s, stmts, i, done).1 is Ok,
    ensures
        continues(l_stmts(s, stmts, i, done).1->Ok_0, done, stmts.len()),
        stmts_mirror(stmts, l_stmts(s, stmts, i, done).1->Ok_0, i),
    decreases stmts, stmts.len() - i,
{
    if i < stmts.len() {
        law_resolution_keeps_statements(s, stmts[i]);
        let h = l_stmt(s, stmts[i]).1->Ok_0;
        lemma_stmts(l_stmt(s, stmts[i]).0, stmts, i + 1, done.push(h));
        lemma_continues(l_stmts(s, stmts, i, done).1->Ok_0, done, h, stmts.len());
    }
}

/// The parameters that stand in a source list, with their names, behind those that were
/// there.
spec fn params_added(ps: Seq<ParamV>, i: int, done: Seq<HirParamV>, out: Seq<HirParamV>) -> bool {
    &&& out.len() == done.len() + ps.len() - i
    &&& forall|j: int| 0 <= j < done.len() ==> #[trigger] out[j] == done[j]
    &&& forall|j: int| done.len() <= j < out.len() ==> (#[trigger] out[j]).kind is Value && out[j].name == ps[j - done.len() + i].name
}

proof fn lemma_value_params(s: LowerState, ps: Seq<ParamV>, i: int, done: Seq<HirParamV>)
    requires
        0 <= i <= ps.len(),
        l_value_params(s, ps, i, done).1 is Ok,
    ensures
        params_added(ps, i, done, l_value_params(s, ps, i, done).1->Ok_0),
    decreases ps.len() - i,
{
    if i < ps.len() {
        let a = new_local(s, ps[i].name);
        let t = l_type(a.0, ps[i].ty)->Ok_0;
        let p = HirParamV { def_id: a.1->Ok_0, name: ps[i].name, ty: t, kind: crate::hir::ParamKind::Value };
        lemma_value_params(a.0, ps, i + 1, done.push(p));
        let out = l_value_params(s, ps, i, done).1->Ok_0;
        assert(out[done.len() as int] == done.push(p)[done.len() as int]);
        assert forall|j: int| 0 <= j < done.len() implies #[trigger] out[j] == done[j] by {
            assert(out[j] == done.push(p)[j]);
        }
    }
}

/// A resolved function has the name, the generic parameters and the parameters of the
/// function, and its body does what the body of the function does. Parameters for
/// constants stand before the others.
pub proof fn law_resolution_keeps_functions(
    s: LowerState,
    prefix: Seq<Seq<char>>,
    attributes: Seq<MetaV>,
    name: Seq<char>,
    generics: Seq<GenericParamV>,
    params: Seq<ParamV>,
    return_ty: TypeV,
    body: Seq<StmtV>,
)
    requires
        low_fn(s, prefix, attributes, name, generics, params, return_ty, body).1 is Ok,
    ensures
        ({
            let item = low_fn(s, prefix, attributes, name, generics, params, return_ty, body).1->Ok_0;
            &&& item is Fn
            &&& item->Fn_name == name
            &&& item->Fn_generics == generics
            &&& item->Fn_attributes == attributes
            &&& item->Fn_body.stmts.len() == body.len()
            &&& stmts_mirror(body, item->Fn_body.stmts, 0)
            &&& params.len() <= item->Fn_params.len()
            &&& forall|j: int| 0 <= j < params.len() ==> (#[trigger] item->Fn_params[item->Fn_params.len() - params.len() + j]).name == params[j].name
        }),
{
    reveal(low_fn);
    let inner = LowerState { generics, locals: Map::empty(), ..s };
    let a = l_const_params(inner, generics, 0, Seq::empty());
    let b = l_value_params(a.0, params, 0, a.1->Ok_0);
    lemma_value_params(a.0, params, 0, a.1->Ok_0);
    lemma_stmts(b.0, body, 0, Seq::empty());
}

/// A resolved method has the name and the parameters of the method, and its body does
/// what the body of the method does.
pub proof fn law_resolution_keeps_methods(
    s: LowerState,
    prefix: Seq<Seq<char>>,
    ty: TypeV,
    recv: HirTypeV,
    generics: Seq<GenericParamV>,
    m: ImplMethodV,
    id: DefId,
)
    requires
        low_method(s, prefix, ty, recv, generics, m, id).1 is Ok,
    ensures
        ({
            let item = low_method(s, prefix, ty, recv, generics, m, id).1->Ok_0;
            &&& item is Fn
            &&& item->Fn_def_id == id
            &&& item->Fn_name == m.name
            &&& item->Fn_body.stmts.len() == m.body.len()
            &&& stmts_mirror(m.body, item->Fn_body.stmts, 0)
            &&& m.params.len() <= item->Fn_params.len()
            &&& forall|j: int| 0 <= j < m.params.len() ==> (#[trigger] item->Fn_params[item->Fn_params.len() - m.params.len() + j]).name == m.params[j].name
        }),
{
    reveal(low_method);
    reveal(l_method_params);
    let combined = generics + m.generics;
    let inner = LowerState { generics: combined, locals: Map::empty(), ..s };
    let p = l_method_params(inner, recv, combined, m);
    if m.is_static {
        let a = l_const_params(inner, combined, 0, Seq::empty());
        lemma_value_params(a.0, m.params, 0, a.1->Ok_0);
    } else {
        let n = new_local(inner, "self"@);
        let me = HirParamV { def_id: n.1->Ok_0, name: "self"@, ty: recv, kind: crate::hir::ParamKind::Value };
        let a = l_const_params(n.0, combined, 0, seq![me]);
        lemma_value_params(a.0, m.params, 0, a.1->Ok_0);
    }
    lemma_stmts(p.0, m.body, 0, Seq::empty());
}

/// A resolved global variable has the name of the variable, and its value says what the
/// value says.
pub proof fn law_resolution_keeps_globals(
    s: LowerState,
    prefix: Seq<Seq<char>>,
    attributes: Seq<MetaV>,
    name: Seq<char>,
    ty: TypeV,
    init: ExprV,
    is_const: bool,
)
    requires
        low_global(s, prefix, attributes, name, ty, init, is_const).1 is Ok,
    ensures
        low_global(s, prefix, attributes, name, ty, init, is_const).1->Ok_0 matches HirItemV::Static { name: n, init: v, is_const: c, .. } && n == name && c == is_const && mirrors(init, v),
{
    reveal(low_global);
    law_resolution_keeps_expressions(LowerState { locals: Map::empty(), ..s }, init);
}

} // verus!
