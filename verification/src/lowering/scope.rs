//! What a name means where it stands.

use crate::ast::{ExprV, ParamV, PathV, PatternV, StmtV};
use crate::error::MplangErrorV;
use crate::hir::{DefId, HirExprV, HirParamV};
use crate::lowering::rules::{
    l_arms, l_bindings, l_expr, l_exprs, l_field_inits, l_opt_type, l_pattern, l_stmt, l_stmts,
    l_type, l_value_params, local_of, low_use, named_variant, new_local, register_def, resolve,
    LowerState,
};
use crate::table::lookup;
use vstd::prelude::*;

verus! {

/// The last segment of a path.
pub open spec fn ends_in(path: PathV, name: Seq<char>) -> bool {
    path.segments.len() > 0 && path.segments.last() == name
}

// Local variables

proof fn lemma_locals(s: LowerState, e: ExprV)
    ensures
        l_expr(s, e).1 is Ok ==> l_expr(s, e).0.locals == s.locals,
    decreases e, 0int,
{
    match e {
        ExprV::Literal(_) => {},
        ExprV::Ident(_) => {},
        ExprV::Paren(inner) => {
            lemma_locals(s, *inner);
        },
        ExprV::Binary { lhs, rhs, .. } => {
            lemma_locals(s, *lhs);
            lemma_locals(l_expr(s, *lhs).0, *rhs);
        },
        ExprV::Call { args, .. } => {
            lemma_all_locals(s, args, 0, Seq::empty());
        },
        ExprV::FieldAccess { object, .. } => {
            lemma_locals(s, *object);
        },
        ExprV::StructLiteral { fields, .. } => {
            lemma_inits_locals(s, fields, 0, Seq::empty());
        },
        ExprV::ArrayLiteral { elements, .. } => {
            lemma_all_locals(s, elements, 0, Seq::empty());
        },
        ExprV::Index { array, index } => {
            lemma_locals(s, *array);
            lemma_locals(l_expr(s, *array).0, *index);
        },
        ExprV::AddrOf(inner) => {
            lemma_locals(s, *inner);
        },
        ExprV::Deref(inner) => {
            lemma_locals(s, *inner);
        },
        ExprV::MethodCall { object, args, .. } => {
            lemma_locals(s, *object);
            lemma_all_locals(l_expr(s, *object).0, args, 0, Seq::empty());
        },
        ExprV::StaticCall { args, .. } => {
            lemma_all_locals(s, args, 0, Seq::empty());
        },
        ExprV::Match { scrutinee, arms } => {
            lemma_locals(s, *scrutinee);
            lemma_arms_locals(l_expr(s, *scrutinee).0, arms, 0, Seq::empty());
        },
    }
}

proof fn lemma_all_locals(s: LowerState, es: Seq<ExprV>, i: int, done: Seq<HirExprV>)
    ensures
        l_exprs(s, es, i, done).1 is Ok ==> l_exprs(s, es, i, done).0.locals == s.locals,
    decreases es, es.len() - i,
{
    if 0 <= i < es.len() {
        lemma_locals(s, es[i]);
        if let Ok(h) = l_expr(s, es[i]).1 {
            lemma_all_locals(l_expr(s, es[i]).0, es, i + 1, done.push(h));
        }
    }
}

proof fn lemma_inits_locals(
    s: LowerState,
    fs: Seq<(Seq<char>, ExprV)>,
    i: int,
    done: Seq<(Seq<char>, HirExprV)>,
)
    ensures
        l_field_inits(s, fs, i, done).1 is Ok ==> l_field_inits(s, fs, i, done).0.locals == s.locals,
    decreases fs, fs.len() - i,
{
    if 0 <= i < fs.len() {
        lemma_locals(s, fs[i].1);
        if let Ok(h) = l_expr(s, fs[i].1).1 {
            lemma_inits_locals(l_expr(s, fs[i].1).0, fs, i + 1, done.push((fs[i].0, h)));
        }
    }
}

proof fn lemma_arms_locals(
    s: LowerState,
    arms: Seq<crate::ast::MatchArmV>,
    i: int,
    done: Seq<crate::hir::HirMatchArmV>,
)
    ensures
        l_arms(s, arms, i, done).1 is Ok ==> l_arms(s, arms, i, done).0.locals == s.locals,
    decreases arms.len() - i,
{
    if 0 <= i < arms.len() {
        let p = l_pattern(s, arms[i].pattern);
        if let Ok(q) = p.1 {
            let b = l_stmts(p.0, arms[i].body, 0, Seq::empty());
            if let Ok(stmts) = b.1 {
                lemma_arms_locals(
                    LowerState { locals: s.locals, ..b.0 },
                    arms,
                    i + 1,
                    done.push(
                        crate::hir::HirMatchArmV { pattern: q, body: crate::hir::HirBodyV { stmts } },
                    ),
                );
            }
        }
    }
}

/// What an expression binds is not known outside it: every name means the same behind
/// the expression as before it.
pub proof fn law_expression_binds_nothing(s: LowerState, e: ExprV, path: PathV)
    requires
        l_expr(s, e).1 is Ok,
    ensures
        local_of(l_expr(s, e).0, path) == local_of(s, path),
{
    lemma_locals(s, e);
}

/// Behind a `let`, its name means its variable, whatever other variable or item has the
/// name, and every other local name means what it meant.
pub proof fn law_let_is_found(s: LowerState, st: StmtV, path: PathV)
    requires
        st is Let,
        l_stmt(s, st).1 is Ok,
    ensures
        l_stmt(s, st).1->Ok_0 is Let,
        ends_in(path, st->Let_name) ==> l_expr(l_stmt(s, st).0, ExprV::Ident(path)).1 == Ok::<HirExprV, MplangErrorV>(
            HirExprV::Path(l_stmt(s, st).1->Ok_0->Let_def_id),
        ),
        !ends_in(path, st->Let_name) ==> local_of(l_stmt(s, st).0, path) == local_of(s, path),
{
    let a = new_local(s, st->Let_name);
    lemma_locals(a.0, st->Let_init);
}

/// In a match arm whose pattern is a bare name that is no variant, the name means the
/// variable of the pattern.
pub proof fn law_pattern_name_is_found(s: LowerState, name: Seq<char>, path: PathV)
    requires
        named_variant(s, name) is None,
        l_pattern(s, PatternV::Ident(name)).1 is Ok,
        ends_in(path, name),
    ensures
        l_pattern(s, PatternV::Ident(name)).1->Ok_0 is Ident,
        l_expr(l_pattern(s, PatternV::Ident(name)).0, ExprV::Ident(path)).1 == Ok::<HirExprV, MplangErrorV>(
            HirExprV::Path(l_pattern(s, PatternV::Ident(name)).1->Ok_0->Ident_0),
        ),
{
    reveal(l_pattern);
}

proof fn lemma_bindings(
    s: LowerState,
    bs: Seq<(Seq<char>, Option<crate::ast::TypeV>)>,
    i: int,
    done: Seq<(DefId, Option<crate::hir::HirTypeV>)>,
    k: int,
)
    requires
        0 <= i <= bs.len(),
        done.len() == i,
        l_bindings(s, bs, i, done).1 is Ok,
        0 <= k < bs.len(),
        forall|j: int| k < j < bs.len() ==> (#[trigger] bs[j]).0 != bs[k].0,
        k < i ==> lookup(s.locals, bs[k].0) == Some(done[k].0),
    ensures
        lookup(l_bindings(s, bs, i, done).0.locals, bs[k].0) == Some(l_bindings(s, bs, i, done).1->Ok_0[k].0),
    decreases bs.len() - i,
{
    if i < bs.len() {
        let a = new_local(s, bs[i].0);
        let t = l_opt_type(a.0, bs[i].1)->Ok_0;
        let next = done.push((a.1->Ok_0, t));
        lemma_bindings(a.0, bs, i + 1, next, k);
    }
}

/// In a match arm, a name that the variant pattern binds means the variable of that
/// binding: the last one, where it binds the name more than once.
pub proof fn law_binding_is_found(s: LowerState, p: PatternV, k: int, path: PathV)
    requires
        p is Variant,
        l_pattern(s, p).1 is Ok,
        0 <= k < p->bindings.len(),
        forall|j: int| k < j < p->bindings.len() ==> (#[trigger] p->bindings[j]).0 != p->bindings[k].0,
        ends_in(path, p->bindings[k].0),
    ensures
        l_pattern(s, p).1->Ok_0 is Variant,
        l_expr(l_pattern(s, p).0, ExprV::Ident(path)).1 == Ok::<HirExprV, MplangErrorV>(
            HirExprV::Path(l_pattern(s, p).1->Ok_0->bindings[k].0),
        ),
{
    reveal(l_pattern);
    lemma_bindings(s, p->bindings, 0, Seq::empty(), k);
}

proof fn lemma_params(s: LowerState, ps: Seq<ParamV>, i: int, done: Seq<HirParamV>, n: int, k: int)
    requires
        0 <= i <= ps.len(),
        0 <= n,
        done.len() == n + i,
        l_value_params(s, ps, i, done).1 is Ok,
        0 <= k < ps.len(),
        forall|j: int| k < j < ps.len() ==> (#[trigger] ps[j]).name != ps[k].name,
        k < i ==> lookup(s.locals, ps[k].name) == Some(done[n + k].def_id),
    ensures
        lookup(l_value_params(s, ps, i, done).0.locals, ps[k].name) == Some(l_value_params(s, ps, i, done).1->Ok_0[n + k].def_id),
    decreases ps.len() - i,
{
    if i < ps.len() {
        let a = new_local(s, ps[i].name);
        let t = l_type(a.0, ps[i].ty)->Ok_0;
        let p = HirParamV { def_id: a.1->Ok_0, name: ps[i].name, ty: t, kind: crate::hir::ParamKind::Value };
        lemma_params(a.0, ps, i + 1, done.push(p), n, k);
    }
}

/// In the body of a function, the name of a parameter means that parameter: the last one,
/// where more than one has the name.
pub proof fn law_parameter_is_found(
    s: LowerState,
    ps: Seq<ParamV>,
    done: Seq<HirParamV>,
    k: int,
    path: PathV,
)
    requires
        l_value_params(s, ps, 0, done).1 is Ok,
        0 <= k < ps.len(),
        forall|j: int| k < j < ps.len() ==> (#[trigger] ps[j]).name != ps[k].name,
        ends_in(path, ps[k].name),
    ensures
        l_expr(l_value_params(s, ps, 0, done).0, ExprV::Ident(path)).1 == Ok::<HirExprV, MplangErrorV>(
            HirExprV::Path(l_value_params(s, ps, 0, done).1->Ok_0[done.len() + k].def_id),
        ),
{
    lemma_params(s, ps, 0, done, done.len() as int, k);
}

// Items

/// Behind a `use`, the last segment of its path means what the path meant.
pub proof fn law_use_brings_in_a_name(s: LowerState, path: PathV, ctx: Seq<char>)
    requires
        low_use(s, path).1 is Ok,
    ensures
        path.segments.len() > 0,
        resolve(low_use(s, path).0, PathV { segments: seq![path.segments.last()] }, ctx) is Ok,
        resolve(low_use(s, path).0, PathV { segments: seq![path.segments.last()] }, ctx)->Ok_0 == resolve(s, path, "use 声明"@)->Ok_0,
{
    reveal(low_use);
}

/// A path that is not the full path of an item finds the latest item that has its last
/// segment as a name.
pub proof fn law_last_segment_finds_the_latest(
    s: LowerState,
    prefix: Seq<Seq<char>>,
    name: Seq<char>,
    path: PathV,
    ctx: Seq<char>,
)
    requires
        register_def(s, prefix, name).1 is Ok,
        ends_in(path, name),
        !register_def(s, prefix, name).0.paths.dom().contains(path.segments),
        path.segments.len() == 1 ==> !s.aliases.dom().contains(name),
    ensures
        resolve(register_def(s, prefix, name).0, path, ctx) == register_def(s, prefix, name).1,
{
}

/// Registration gives each item a number that none had, and changes what no other full
/// path and no other last segment means.
pub proof fn law_registration_adds_one_item(
    s: LowerState,
    prefix: Seq<Seq<char>>,
    name: Seq<char>,
    path: PathV,
    ctx: Seq<char>,
)
    requires
        register_def(s, prefix, name).1 is Ok,
        !ends_in(path, name),
    ensures
        resolve(register_def(s, prefix, name).0, path, ctx) == resolve(s, path, ctx),
        register_def(s, prefix, name).1->Ok_0.0 == s.next_id,
        register_def(s, prefix, name).0.next_id == s.next_id + 1,
{
    assert(path.segments != prefix.push(name)) by {
        assert(prefix.push(name).last() == name);
    }
}

} // verus!
