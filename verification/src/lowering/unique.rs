//! Every definition has a number of its own.

use crate::ast::{
    EnumVariantV, ExprV, GenericParamV, ImplMethodV, MatchArmV, ParamV, PathV, PatternV, StmtV,
    TopLevelDeclV, TypeV,
};
use crate::error::MplangErrorV;
use crate::hir::{
    DefId, HirEnumVariantV, HirExprV, HirFieldV, HirItemV, HirMatchArmV, HirParamV, HirStmtV,
    HirTypeV,
};
use crate::lowering::defined::{
    all_paths, arms_ids, binding_ids, expr_ids, exprs_ids, fields_ids, inits_ids, item_ids,
    items_ids, own_paths, params_ids, pattern_ids, stmt_ids, stmts_ids, unit_ids, variant_paths,
    variants_ids,
};
use crate::lowering::rules::{
    add_table, all_methods, alloc_methods, child, fresh, initial_state, l_arms, l_bindings,
    l_const_params, l_expr, l_exprs, l_field_inits, l_fields, l_method_params, l_opt_type,
    l_pattern, l_stmt, l_stmts, l_type, l_value_params, l_variants, local_of, low_content,
    low_decls, low_enum, low_extern_fn, low_fn, low_global, low_impl, low_method, low_methods,
    low_plain, low_struct, low_use, lowered, module_attributes, module_item, module_name,
    new_local, reg_decls, reg_plain, reg_variants, register_def, registered, resolve, LowerState,
};
use crate::lowering::source::SourceTreeV;
use crate::table::lookup;
use vstd::prelude::*;

verus! {

/// Each of these paths stands for the same definition in both tables.
pub open spec fn undisturbed(
    names: Map<Seq<Seq<char>>, DefId>,
    paths: Map<Seq<Seq<char>>, DefId>,
    ps: Seq<Seq<Seq<char>>>,
) -> bool {
    forall|k: int| 0 <= k < ps.len() ==> lookup(paths, #[trigger] ps[k]) == lookup(names, ps[k])
}

// Numbers within bounds

/// Distinct numbers from `lo` on and below `hi`.
spec fn within(x: Seq<DefId>, lo: int, hi: int) -> bool {
    &&& x.no_duplicates()
    &&& forall|j: int| 0 <= j < x.len() ==> lo <= (#[trigger] x[j]).0 < hi
}

proof fn lemma_within_join(x: Seq<DefId>, y: Seq<DefId>, a: int, b: int, c: int)
    requires
        within(x, a, b),
        within(y, b, c),
        a <= b <= c,
    ensures
        within(x + y, a, c),
{
    let z = x + y;
    assert forall|j: int| 0 <= j < z.len() implies a <= (#[trigger] z[j]).0 < c by {
        if j < x.len() {
            assert(z[j] == x[j]);
        } else {
            assert(z[j] == y[j - x.len()]);
        }
    }
    assert forall|i: int, j: int| 0 <= i < z.len() && 0 <= j < z.len() && i != j implies z[i] != z[j] by {
        if i < x.len() {
            assert(z[i] == x[i]);
        } else {
            assert(z[i] == y[i - x.len()]);
        }
        if j < x.len() {
            assert(z[j] == x[j]);
        } else {
            assert(z[j] == y[j - x.len()]);
        }
    }
}

/// What was defined between two states took the numbers between them, and the
/// registered definitions stayed as they were.
spec fn took(s: LowerState, t: LowerState, x: Seq<DefId>) -> bool {
    &&& s.next_id <= t.next_id
    &&& t.paths == s.paths
    &&& within(x, s.next_id as int, t.next_id as int)
}

proof fn lemma_took(s: LowerState, t: LowerState, u: LowerState, x: Seq<DefId>, y: Seq<DefId>)
    requires
        took(s, t, x),
        took(t, u, y),
    ensures
        took(s, u, x + y),
{
    lemma_within_join(x, y, s.next_id as int, t.next_id as int, u.next_id as int);
}

/// `out` begins with `done`.
pub open spec fn begins<T>(out: Seq<T>, done: Seq<T>) -> bool {
    &&& done.len() <= out.len()
    &&& forall|j: int| 0 <= j < done.len() ==> #[trigger] out[j] == done[j]
}

pub proof fn lemma_begins<T>(out: Seq<T>, done: Seq<T>, x: T)
    requires
        begins(out, done.push(x)),
    ensures
        begins(out, done),
        done.len() < out.len(),
        out[done.len() as int] == x,
{
    assert(out[done.len() as int] == done.push(x)[done.len() as int]);
    assert forall|j: int| 0 <= j < done.len() implies #[trigger] out[j] == done[j] by {
        assert(out[j] == done.push(x)[j]);
    }
}

proof fn lemma_new_local(s: LowerState, name: Seq<char>)
    ensures
        new_local(s, name).1 is Ok ==> took(
            s,
            new_local(s, name).0,
            seq![new_local(s, name).1->Ok_0],
        ),
{
}

// Bodies

proof fn lemma_expr(s: LowerState, e: ExprV)
    ensures
        l_expr(s, e).1 is Ok ==> took(s, l_expr(s, e).0, expr_ids(l_expr(s, e).1->Ok_0)),
    decreases e, 0int,
{
    match e {
        ExprV::Literal(_) => {},
        ExprV::Ident(path) => {
            if local_of(s, path) is None {
                if let Ok(d) = resolve(s, path, "标识符"@) {
                    assert(exprs_ids(Seq::<HirExprV>::empty(), 0) =~= Seq::<DefId>::empty());
                }
            }
        },
        ExprV::Paren(inner) => {
            lemma_expr(s, *inner);
        },
        ExprV::Binary { lhs, rhs, .. } => {
            lemma_expr(s, *lhs);
            let a = l_expr(s, *lhs);
            if let Ok(l) = a.1 {
                lemma_expr(a.0, *rhs);
                let b = l_expr(a.0, *rhs);
                if let Ok(r) = b.1 {
                    lemma_took(s, a.0, b.0, expr_ids(l), expr_ids(r));
                }
            }
        },
        ExprV::Call { args, .. } => {
            lemma_exprs(s, args, 0, Seq::empty());
        },
        ExprV::FieldAccess { object, .. } => {
            lemma_expr(s, *object);
        },
        ExprV::StructLiteral { fields, .. } => {
            lemma_inits(s, fields, 0, Seq::empty());
        },
        ExprV::AddrOf(inner) => {
            lemma_expr(s, *inner);
        },
        ExprV::Deref(inner) => {
            lemma_expr(s, *inner);
        },
        ExprV::MethodCall { object, args, .. } => {
            lemma_expr(s, *object);
            let a = l_expr(s, *object);
            if let Ok(o) = a.1 {
                lemma_exprs(a.0, args, 0, Seq::empty());
                let b = l_exprs(a.0, args, 0, Seq::empty());
                if let Ok(r) = b.1 {
                    lemma_took(s, a.0, b.0, expr_ids(o), exprs_ids(r, 0));
                }
            }
        },
        ExprV::ArrayLiteral { elements, .. } => {
            lemma_exprs(s, elements, 0, Seq::empty());
        },
        ExprV::Index { array, index } => {
            lemma_expr(s, *array);
            let a = l_expr(s, *array);
            if let Ok(l) = a.1 {
                lemma_expr(a.0, *index);
                let b = l_expr(a.0, *index);
                if let Ok(r) = b.1 {
                    lemma_took(s, a.0, b.0, expr_ids(l), expr_ids(r));
                }
            }
        },
        ExprV::StaticCall { args, .. } => {
            lemma_exprs(s, args, 0, Seq::empty());
        },
        ExprV::Match { scrutinee, arms } => {
            lemma_expr(s, *scrutinee);
            let a = l_expr(s, *scrutinee);
            if let Ok(v) = a.1 {
                lemma_arms(a.0, arms, 0, Seq::empty());
                let b = l_arms(a.0, arms, 0, Seq::empty());
                if let Ok(r) = b.1 {
                    lemma_took(s, a.0, b.0, expr_ids(v), arms_ids(r, 0));
                }
            }
        },
    }
}

proof fn lemma_exprs(s: LowerState, es: Seq<ExprV>, i: int, done: Seq<HirExprV>)
    ensures
        l_exprs(s, es, i, done).1 is Ok ==> {
            let out = l_exprs(s, es, i, done).1->Ok_0;
            begins(out, done) && took(
                s,
                l_exprs(s, es, i, done).0,
                exprs_ids(out, done.len() as int),
            )
        },
    decreases es, es.len() - i,
{
    if 0 <= i < es.len() {
        lemma_expr(s, es[i]);
        let a = l_expr(s, es[i]);
        if let Ok(h) = a.1 {
            lemma_exprs(a.0, es, i + 1, done.push(h));
            let b = l_exprs(a.0, es, i + 1, done.push(h));
            if let Ok(out) = b.1 {
                lemma_begins(out, done, h);
                lemma_took(s, a.0, b.0, expr_ids(h), exprs_ids(out, done.len() as int + 1));
            }
        }
    }
}

proof fn lemma_inits(
    s: LowerState,
    fs: Seq<(Seq<char>, ExprV)>,
    i: int,
    done: Seq<(Seq<char>, HirExprV)>,
)
    ensures
        l_field_inits(s, fs, i, done).1 is Ok ==> {
            let out = l_field_inits(s, fs, i, done).1->Ok_0;
            begins(out, done) && took(
                s,
                l_field_inits(s, fs, i, done).0,
                inits_ids(out, done.len() as int),
            )
        },
    decreases fs, fs.len() - i,
{
    if 0 <= i < fs.len() {
        lemma_expr(s, fs[i].1);
        let a = l_expr(s, fs[i].1);
        if let Ok(h) = a.1 {
            lemma_inits(a.0, fs, i + 1, done.push((fs[i].0, h)));
            let b = l_field_inits(a.0, fs, i + 1, done.push((fs[i].0, h)));
            if let Ok(out) = b.1 {
                lemma_begins(out, done, (fs[i].0, h));
                lemma_took(s, a.0, b.0, expr_ids(h), inits_ids(out, done.len() as int + 1));
            }
        }
    }
}

proof fn lemma_bindings(
    s: LowerState,
    bs: Seq<(Seq<char>, Option<TypeV>)>,
    i: int,
    done: Seq<(DefId, Option<HirTypeV>)>,
)
    ensures
        l_bindings(s, bs, i, done).1 is Ok ==> {
            let out = l_bindings(s, bs, i, done).1->Ok_0;
            begins(out, done) && took(
                s,
                l_bindings(s, bs, i, done).0,
                binding_ids(out, done.len() as int),
            )
        },
    decreases bs.len() - i,
{
    if i < bs.len() {
        lemma_new_local(s, bs[i].0);
        let a = new_local(s, bs[i].0);
        if let Ok(id) = a.1 {
            if let Ok(t) = l_opt_type(a.0, bs[i].1) {
                lemma_bindings(a.0, bs, i + 1, done.push((id, t)));
                let b = l_bindings(a.0, bs, i + 1, done.push((id, t)));
                if let Ok(out) = b.1 {
                    lemma_begins(out, done, (id, t));
                    lemma_took(s, a.0, b.0, seq![id], binding_ids(out, done.len() as int + 1));
                }
            }
        }
    }
}

proof fn lemma_pattern(s: LowerState, p: PatternV)
    ensures
        l_pattern(s, p).1 is Ok ==> took(
            s,
            l_pattern(s, p).0,
            pattern_ids(l_pattern(s, p).1->Ok_0),
        ),
{
    reveal(l_pattern);
    match p {
        PatternV::Variant { bindings, .. } => {
            lemma_bindings(s, bindings, 0, Seq::empty());
        },
        PatternV::Ident(name) => {
            lemma_new_local(s, name);
            assert(
                binding_ids(Seq::<(DefId, Option<HirTypeV>)>::empty(), 0) =~= Seq::<DefId>::empty()
            );
        },
        _ => {},
    }
}

proof fn lemma_arms(s: LowerState, arms: Seq<MatchArmV>, i: int, done: Seq<HirMatchArmV>)
    ensures
        l_arms(s, arms, i, done).1 is Ok ==> {
            let out = l_arms(s, arms, i, done).1->Ok_0;
            begins(out, done) && took(
                s,
                l_arms(s, arms, i, done).0,
                arms_ids(out, done.len() as int),
            )
        },
    decreases arms, arms.len() - i,
{
    if 0 <= i < arms.len() {
        lemma_pattern(s, arms[i].pattern);
        let a = l_pattern(s, arms[i].pattern);
        if let Ok(p) = a.1 {
            lemma_stmts(a.0, arms[i].body, 0, Seq::empty());
            let b = l_stmts(a.0, arms[i].body, 0, Seq::empty());
            if let Ok(body) = b.1 {
                let arm = HirMatchArmV { pattern: p, body: crate::hir::HirBodyV { stmts: body } };
                let t = LowerState { locals: s.locals, ..b.0 };
                lemma_took(s, a.0, b.0, pattern_ids(p), stmts_ids(body, 0));
                lemma_arms(t, arms, i + 1, done.push(arm));
                let c = l_arms(t, arms, i + 1, done.push(arm));
                if let Ok(out) = c.1 {
                    lemma_begins(out, done, arm);
                    lemma_took(
                        s,
                        t,
                        c.0,
                        pattern_ids(p) + stmts_ids(body, 0),
                        arms_ids(out, done.len() as int + 1),
                    );
                }
            }
        }
    }
}

proof fn lemma_stmt(s: LowerState, st: StmtV)
    ensures
        l_stmt(s, st).1 is Ok ==> took(s, l_stmt(s, st).0, stmt_ids(l_stmt(s, st).1->Ok_0)),
    decreases st, 0int,
{
    match st {
        StmtV::Let { name, ty, init } => {
            lemma_new_local(s, name);
            let a = new_local(s, name);
            if let Ok(id) = a.1 {
                lemma_expr(a.0, init);
                let b = l_expr(a.0, init);
                if let Ok(v) = b.1 {
                    lemma_took(s, a.0, b.0, seq![id], expr_ids(v));
                }
            }
        },
        StmtV::Assign { target, value } => {
            lemma_expr(s, *target);
            let a = l_expr(s, *target);
            if let Ok(l) = a.1 {
                lemma_expr(a.0, value);
                let b = l_expr(a.0, value);
                if let Ok(r) = b.1 {
                    lemma_took(s, a.0, b.0, expr_ids(l), expr_ids(r));
                }
            }
        },
        StmtV::Expr(e) => {
            lemma_expr(s, e);
        },
        StmtV::If { cond, then_branch, else_branch } => {
            lemma_expr(s, cond);
            let a = l_expr(s, cond);
            if let Ok(c) = a.1 {
                lemma_stmts(a.0, then_branch, 0, Seq::empty());
                let b = l_stmts(a.0, then_branch, 0, Seq::empty());
                if let Ok(x) = b.1 {
                    lemma_took(s, a.0, b.0, expr_ids(c), stmts_ids(x, 0));
                    if let Some(other) = else_branch {
                        lemma_stmts(b.0, other, 0, Seq::empty());
                        let d = l_stmts(b.0, other, 0, Seq::empty());
                        if let Ok(y) = d.1 {
                            lemma_took(s, b.0, d.0, expr_ids(c) + stmts_ids(x, 0), stmts_ids(y, 0));
                        }
                    }
                }
            }
        },
        StmtV::While { cond, body } => {
            lemma_expr(s, cond);
            let a = l_expr(s, cond);
            if let Ok(c) = a.1 {
                lemma_stmts(a.0, body, 0, Seq::empty());
                let b = l_stmts(a.0, body, 0, Seq::empty());
                if let Ok(x) = b.1 {
                    lemma_took(s, a.0, b.0, expr_ids(c), stmts_ids(x, 0));
                }
            }
        },
        StmtV::Return(value) => {
            if let Some(e) = value {
                lemma_expr(s, e);
            }
        },
        _ => {},
    }
}

proof fn lemma_stmts(s: LowerState, stmts: Seq<StmtV>, i: int, done: Seq<HirStmtV>)
    ensures
        l_stmts(s, stmts, i, done).1 is Ok ==> {
            let out = l_stmts(s, stmts, i, done).1->Ok_0;
            begins(out, done) && took(
                s,
                l_stmts(s, stmts, i, done).0,
                stmts_ids(out, done.len() as int),
            )
        },
    decreases stmts, stmts.len() - i,
{
    if 0 <= i < stmts.len() {
        lemma_stmt(s, stmts[i]);
        let a = l_stmt(s, stmts[i]);
        if let Ok(h) = a.1 {
            lemma_stmts(a.0, stmts, i + 1, done.push(h));
            let b = l_stmts(a.0, stmts, i + 1, done.push(h));
            if let Ok(out) = b.1 {
                lemma_begins(out, done, h);
                lemma_took(s, a.0, b.0, stmt_ids(h), stmts_ids(out, done.len() as int + 1));
            }
        }
    }
}

// Parts of items

proof fn lemma_const_params(s: LowerState, gs: Seq<GenericParamV>, i: int, done: Seq<HirParamV>)
    ensures
        l_const_params(s, gs, i, done).1 is Ok ==> {
            let out = l_const_params(s, gs, i, done).1->Ok_0;
            begins(out, done) && took(
                s,
                l_const_params(s, gs, i, done).0,
                params_ids(out, done.len() as int),
            )
        },
    decreases gs.len() - i,
{
    if i < gs.len() {
        if gs[i].kind == crate::ast::GenericParamKind::Const {
            lemma_new_local(s, gs[i].name);
            let a = new_local(s, gs[i].name);
            if let Ok(id) = a.1 {
                let p = HirParamV { def_id: id, name: gs[i].name, ty: HirTypeV::Int, kind: crate::hir::ParamKind::ConstParam(i as usize) };
                lemma_const_params(a.0, gs, i + 1, done.push(p));
                let b = l_const_params(a.0, gs, i + 1, done.push(p));
                if let Ok(out) = b.1 {
                    lemma_begins(out, done, p);
                    lemma_took(s, a.0, b.0, seq![id], params_ids(out, done.len() as int + 1));
                }
            }
        } else {
            lemma_const_params(s, gs, i + 1, done);
        }
    }
}

proof fn lemma_value_params(s: LowerState, ps: Seq<ParamV>, i: int, done: Seq<HirParamV>)
    ensures
        l_value_params(s, ps, i, done).1 is Ok ==> {
            let out = l_value_params(s, ps, i, done).1->Ok_0;
            begins(out, done) && took(
                s,
                l_value_params(s, ps, i, done).0,
                params_ids(out, done.len() as int),
            )
        },
    decreases ps.len() - i,
{
    if i < ps.len() {
        lemma_new_local(s, ps[i].name);
        let a = new_local(s, ps[i].name);
        if let Ok(id) = a.1 {
            if let Ok(t) = l_type(a.0, ps[i].ty) {
                let p = HirParamV { def_id: id, name: ps[i].name, ty: t, kind: crate::hir::ParamKind::Value };
                lemma_value_params(a.0, ps, i + 1, done.push(p));
                let b = l_value_params(a.0, ps, i + 1, done.push(p));
                if let Ok(out) = b.1 {
                    lemma_begins(out, done, p);
                    lemma_took(s, a.0, b.0, seq![id], params_ids(out, done.len() as int + 1));
                }
            }
        }
    }
}

/// The parameters of a list stand before those that were added to it.
proof fn lemma_params_parts(done: Seq<HirParamV>, out: Seq<HirParamV>, i: int)
    requires
        begins(out, done),
        0 <= i <= done.len(),
    ensures
        params_ids(out, i) == params_ids(done, i) + params_ids(out, done.len() as int),
    decreases done.len() - i,
{
    if i < done.len() {
        lemma_params_parts(done, out, i + 1);
        assert(out[i] == done[i]);
        assert(params_ids(out, i) =~= params_ids(done, i) + params_ids(out, done.len() as int));
    } else {
        assert(params_ids(out, i) =~= params_ids(done, i) + params_ids(out, done.len() as int));
    }
}

/// The parameters of a function: constants first, then the written ones.
proof fn lemma_params(s: LowerState, gs: Seq<GenericParamV>, ps: Seq<ParamV>, done: Seq<HirParamV>)
    ensures
        l_const_params(s, gs, 0, done).1 is Ok ==> {
            let a = l_const_params(s, gs, 0, done);
            let b = l_value_params(a.0, ps, 0, a.1->Ok_0);
            b.1 is Ok ==> begins(b.1->Ok_0, done) && took(
                s,
                b.0,
                params_ids(b.1->Ok_0, done.len() as int),
            )
        },
{
    lemma_const_params(s, gs, 0, done);
    let a = l_const_params(s, gs, 0, done);
    if let Ok(cs) = a.1 {
        lemma_value_params(a.0, ps, 0, cs);
        let b = l_value_params(a.0, ps, 0, cs);
        if let Ok(out) = b.1 {
            lemma_params_parts(cs, out, done.len() as int);
            lemma_took(
                s,
                a.0,
                b.0,
                params_ids(cs, done.len() as int),
                params_ids(out, cs.len() as int),
            );
            assert forall|j: int| 0 <= j < done.len() implies #[trigger] out[j] == done[j] by {
                assert(out[j] == cs[j]);
            }
        }
    }
}

proof fn lemma_fields(s: LowerState, fs: Seq<(Seq<char>, TypeV)>, i: int, done: Seq<HirFieldV>)
    ensures
        l_fields(s, fs, i, done).1 is Ok ==> {
            let out = l_fields(s, fs, i, done).1->Ok_0;
            begins(out, done) && took(
                s,
                l_fields(s, fs, i, done).0,
                fields_ids(out, done.len() as int),
            )
        },
    decreases fs.len() - i,
{
    if i < fs.len() {
        let a = fresh(s);
        if let Ok(id) = a.1 {
            if let Ok(t) = l_type(a.0, fs[i].1) {
                let f = HirFieldV { def_id: id, name: fs[i].0, ty: t, visibility: crate::hir::Visibility::Public };
                lemma_fields(a.0, fs, i + 1, done.push(f));
                let b = l_fields(a.0, fs, i + 1, done.push(f));
                if let Ok(out) = b.1 {
                    lemma_begins(out, done, f);
                    assert(took(s, a.0, seq![id]));
                    lemma_took(s, a.0, b.0, seq![id], fields_ids(out, done.len() as int + 1));
                }
            }
        }
    }
}

/// The fields register nothing.
pub proof fn lemma_fields_apart(s: LowerState, fs: Seq<(Seq<char>, TypeV)>)
    ensures
        l_fields(s, fs, 0, Seq::empty()).1 is Ok ==> l_fields(s, fs, 0, Seq::empty()).0.paths == s.paths,
{
    lemma_fields(s, fs, 0, Seq::empty());
}

// Numbers of registered definitions

/// Registered definitions have different numbers, all below `lo`.
pub open spec fn apart(names: Map<Seq<Seq<char>>, DefId>, lo: int) -> bool {
    &&& forall|p: Seq<Seq<char>>, q: Seq<Seq<char>>| #![trigger names[p], names[q]] names.dom().contains(p) && names.dom().contains(q) && names[p] == names[q] ==> p == q
    &&& forall|p: Seq<Seq<char>>| #[trigger] names.dom().contains(p) ==> names[p].0 < lo
}

/// The number of one of these paths.
spec fn named(names: Map<Seq<Seq<char>>, DefId>, ps: Seq<Seq<Seq<char>>>, d: DefId) -> bool {
    exists|k: int| 0 <= k < ps.len() && names.dom().contains(#[trigger] ps[k]) && names[ps[k]] == d
}

/// Distinct numbers: new ones from `a` on and below `b`, and those of the paths.
spec fn good(
    x: Seq<DefId>,
    names: Map<Seq<Seq<char>>, DefId>,
    ps: Seq<Seq<Seq<char>>>,
    a: int,
    b: int,
) -> bool {
    &&& x.no_duplicates()
    &&& forall|j: int| 0 <= j < x.len() ==> a <= (#[trigger] x[j]).0 < b || named(names, ps, x[j])
}

proof fn lemma_named_parts(
    names: Map<Seq<Seq<char>>, DefId>,
    ps: Seq<Seq<Seq<char>>>,
    qs: Seq<Seq<Seq<char>>>,
    d: DefId,
)
    ensures
        named(names, ps, d) || named(names, qs, d) ==> named(names, ps + qs, d),
{
    let rs = ps + qs;
    if named(names, ps, d) {
        let k = choose|k: int| 0 <= k < ps.len() && names.dom().contains(#[trigger] ps[k]) && names[ps[k]] == d;
        assert(rs[k] == ps[k]);
    }
    if named(names, qs, d) {
        let k = choose|k: int| 0 <= k < qs.len() && names.dom().contains(#[trigger] qs[k]) && names[qs[k]] == d;
        assert(rs[k + ps.len()] == qs[k]);
    }
}

proof fn lemma_join(
    x: Seq<DefId>,
    y: Seq<DefId>,
    names: Map<Seq<Seq<char>>, DefId>,
    ps: Seq<Seq<Seq<char>>>,
    qs: Seq<Seq<Seq<char>>>,
    lo: int,
    a: int,
    b: int,
    c: int,
)
    requires
        apart(names, lo),
        (ps + qs).no_duplicates(),
        good(x, names, ps, a, b),
        good(y, names, qs, b, c),
        lo <= a <= b <= c,
    ensures
        good(x + y, names, ps + qs, a, c),
{
    let z = x + y;
    assert forall|j: int| 0 <= j < z.len() implies a <= (#[trigger] z[j]).0 < c || named(names, ps + qs, z[j]) by {
        lemma_named_parts(names, ps, qs, z[j]);
        if j < x.len() {
            assert(z[j] == x[j]);
        } else {
            assert(z[j] == y[j - x.len()]);
        }
    }
    assert forall|i: int, j: int| 0 <= i < x.len() && 0 <= j < y.len() implies #[trigger] x[i] != #[trigger] y[j] by {
        if x[i] == y[j] && named(names, ps, x[i]) && named(names, qs, y[j]) {
            let k = choose|k: int| 0 <= k < ps.len() && names.dom().contains(#[trigger] ps[k]) && names[ps[k]] == x[i];
            let l = choose|l: int| 0 <= l < qs.len() && names.dom().contains(#[trigger] qs[l]) && names[qs[l]] == y[j];
            assert(ps[k] == qs[l]);
            assert((ps + qs)[k] == ps[k]);
            assert((ps + qs)[l + ps.len()] == qs[l]);
            assert(false);
        }
    }
    assert forall|i: int, j: int| 0 <= i < z.len() && 0 <= j < z.len() && i != j implies z[i] != z[j] by {
        if i < x.len() {
            assert(z[i] == x[i]);
        } else {
            assert(z[i] == y[i - x.len()]);
        }
        if j < x.len() {
            assert(z[j] == x[j]);
        } else {
            assert(z[j] == y[j - x.len()]);
        }
    }
}

/// Of what was registered, nothing is lost, and what changed got a number from
/// `lo` on.
pub open spec fn later(m: Map<Seq<Seq<char>>, DefId>, n: Map<Seq<Seq<char>>, DefId>, lo: int) -> bool {
    forall|p: Seq<Seq<char>>| #[trigger] m.dom().contains(p) ==> n.dom().contains(p) && (
        n[p] == m[p] || n[p].0 >= lo
    )
}

pub proof fn lemma_later(
    m: Map<Seq<Seq<char>>, DefId>,
    n: Map<Seq<Seq<char>>, DefId>,
    o: Map<Seq<Seq<char>>, DefId>,
    lo: int,
)
    requires
        later(m, n, lo),
        later(n, o, lo),
    ensures
        later(m, o, lo),
{
}

/// A registered definition that is still found in the end was found before.
pub proof fn lemma_found(
    names: Map<Seq<Seq<char>>, DefId>,
    m: Map<Seq<Seq<char>>, DefId>,
    n: Map<Seq<Seq<char>>, DefId>,
    p: Seq<Seq<char>>,
    lo: int,
)
    requires
        apart(names, lo),
        later(m, n, lo),
        m.dom().contains(p),
        lookup(n, p) == lookup(names, p),
    ensures
        names.dom().contains(p),
        names[p] == m[p],
{
}

proof fn lemma_undisturbed_parts(
    names: Map<Seq<Seq<char>>, DefId>,
    m: Map<Seq<Seq<char>>, DefId>,
    ps: Seq<Seq<Seq<char>>>,
    qs: Seq<Seq<Seq<char>>>,
)
    ensures
        undisturbed(names, m, ps + qs) ==> undisturbed(names, m, ps) && undisturbed(names, m, qs),
        (ps + qs).no_duplicates() ==> ps.no_duplicates() && qs.no_duplicates(),
{
    let rs = ps + qs;
    assert forall|k: int| 0 <= k < ps.len() implies #[trigger] ps[k] == rs[k] by {}
    assert forall|k: int| 0 <= k < qs.len() implies #[trigger] qs[k] == rs[k + ps.len()] by {}
}

/// One registered definition, and new ones inside it.
proof fn lemma_head(
    names: Map<Seq<Seq<char>>, DefId>,
    p: Seq<Seq<char>>,
    id: DefId,
    x: Seq<DefId>,
    lo: int,
    a: int,
    b: int,
)
    requires
        apart(names, lo),
        names.dom().contains(p),
        names[p] == id,
        within(x, a, b),
        lo <= a <= b,
    ensures
        good(seq![id] + x, names, seq![p], a, b),
{
    assert(seq![p][0] == p);
    assert(named(names, seq![p], id));
    assert(good(seq![id], names, seq![p], a, a));
    assert(good(x, names, Seq::empty(), a, b));
    assert(seq![p] + Seq::<Seq<Seq<char>>>::empty() =~= seq![p]);
    lemma_join(seq![id], x, names, seq![p], Seq::empty(), lo, a, a, b);
}

// Items

/// An item of its own: its number is the one registered for `p`, and what is
/// defined inside it is new.
spec fn single(
    s: LowerState,
    r: (LowerState, Result<HirItemV, MplangErrorV>),
    p: Seq<Seq<char>>,
) -> bool {
    r.1 is Ok ==> {
        &&& s.next_id <= r.0.next_id
        &&& r.0.paths == s.paths
        &&& s.paths.dom().contains(p)
        &&& exists|x: Seq<DefId>| item_ids(r.1->Ok_0) == seq![s.paths[p]] + x && #[trigger] within(
            x,
            s.next_id as int,
            r.0.next_id as int,
        )
    }
}

proof fn lemma_fn(s: LowerState, prefix: Seq<Seq<char>>, d: TopLevelDeclV)
    requires
        d is FnDef,
    ensures
        single(
            s,
            low_fn(
                s,
                prefix,
                d->FnDef_attributes,
                d->FnDef_name,
                d->FnDef_generics,
                d->FnDef_params,
                d->FnDef_return_ty,
                d->FnDef_body,
            ),
            prefix.push(d->FnDef_name),
        ),
{
    reveal(low_fn);
    let r = low_fn(
        s,
        prefix,
        d->FnDef_attributes,
        d->FnDef_name,
        d->FnDef_generics,
        d->FnDef_params,
        d->FnDef_return_ty,
        d->FnDef_body,
    );
    if r.1 is Ok {
        let generics = d->FnDef_generics;
        let inner = LowerState { generics, locals: Map::empty(), ..s };
        lemma_params(inner, generics, d->FnDef_params, Seq::empty());
        let a = l_const_params(inner, generics, 0, Seq::empty());
        let b = l_value_params(a.0, d->FnDef_params, 0, a.1->Ok_0);
        lemma_stmts(b.0, d->FnDef_body, 0, Seq::empty());
        let c = l_stmts(b.0, d->FnDef_body, 0, Seq::empty());
        let x = params_ids(b.1->Ok_0, 0);
        let y = stmts_ids(c.1->Ok_0, 0);
        lemma_took(inner, b.0, c.0, x, y);
        assert(within(x + y, s.next_id as int, r.0.next_id as int));
    }
}

proof fn lemma_struct(s: LowerState, prefix: Seq<Seq<char>>, d: TopLevelDeclV)
    requires
        d is StructDef,
    ensures
        single(
            s,
            low_struct(
                s,
                prefix,
                d->StructDef_attributes,
                d->StructDef_name,
                d->StructDef_generics,
                d->StructDef_fields,
            ),
            prefix.push(d->StructDef_name),
        ),
{
    reveal(low_struct);
    let r = low_struct(
        s,
        prefix,
        d->StructDef_attributes,
        d->StructDef_name,
        d->StructDef_generics,
        d->StructDef_fields,
    );
    if r.1 is Ok {
        let inner = LowerState { generics: d->StructDef_generics, ..s };
        lemma_fields(inner, d->StructDef_fields, 0, Seq::empty());
        let a = l_fields(inner, d->StructDef_fields, 0, Seq::empty());
        assert(within(fields_ids(a.1->Ok_0, 0), s.next_id as int, r.0.next_id as int));
    }
}

proof fn lemma_global(
    s: LowerState,
    prefix: Seq<Seq<char>>,
    attributes: Seq<crate::ast::MetaV>,
    name: Seq<char>,
    ty: TypeV,
    init: ExprV,
    is_const: bool,
)
    ensures
        single(s, low_global(s, prefix, attributes, name, ty, init, is_const), prefix.push(name)),
{
    reveal(low_global);
    let r = low_global(s, prefix, attributes, name, ty, init, is_const);
    if r.1 is Ok {
        let inner = LowerState { locals: Map::empty(), ..s };
        lemma_expr(inner, init);
        let a = l_expr(inner, init);
        assert(within(expr_ids(a.1->Ok_0), s.next_id as int, r.0.next_id as int));
    }
}

proof fn lemma_extern_fn(s: LowerState, prefix: Seq<Seq<char>>, d: TopLevelDeclV)
    requires
        d is ExternFnDef,
    ensures
        single(
            s,
            low_extern_fn(
                s,
                prefix,
                d->ExternFnDef_attributes,
                d->ExternFnDef_name,
                d->ExternFnDef_param_types,
                d->ExternFnDef_return_ty,
                d->is_variadic,
            ),
            prefix.push(d->ExternFnDef_name),
        ),
{
    reveal(low_extern_fn);
    let r = low_extern_fn(
        s,
        prefix,
        d->ExternFnDef_attributes,
        d->ExternFnDef_name,
        d->ExternFnDef_param_types,
        d->ExternFnDef_return_ty,
        d->is_variadic,
    );
    if r.1 is Ok {
        let none = Seq::<DefId>::empty();
        assert(within(none, s.next_id as int, r.0.next_id as int));
        assert(item_ids(r.1->Ok_0) =~= seq![s.paths[prefix.push(d->ExternFnDef_name)]] + none);
    }
}

/// The variants keep the state but for the numbers taken.
pub proof fn lemma_variants_later(
    s: LowerState,
    prefix: Seq<Seq<char>>,
    vs: Seq<EnumVariantV>,
    i: int,
    done: Seq<HirEnumVariantV>,
)
    ensures
        l_variants(s, prefix, vs, i, done).1 is Ok ==> {
            let r = l_variants(s, prefix, vs, i, done);
            s.next_id <= r.0.next_id && r.0.paths == s.paths && begins(r.1->Ok_0, done)
        },
    decreases vs.len() - i,
{
    if i < vs.len() {
        if let Ok(id) = registered(s, prefix.push(vs[i].name)) {
            lemma_fields(s, vs[i].fields, 0, Seq::empty());
            let a = l_fields(s, vs[i].fields, 0, Seq::empty());
            if let Ok(fs) = a.1 {
                let v = HirEnumVariantV { def_id: id, name: vs[i].name, tag: i as u32, fields: fs };
                lemma_variants_later(a.0, prefix, vs, i + 1, done.push(v));
                if let Ok(out) = l_variants(a.0, prefix, vs, i + 1, done.push(v)).1 {
                    lemma_begins(out, done, v);
                }
            }
        }
    }
}

proof fn lemma_variants(
    s: LowerState,
    prefix: Seq<Seq<char>>,
    vs: Seq<EnumVariantV>,
    i: int,
    done: Seq<HirEnumVariantV>,
    names: Map<Seq<Seq<char>>, DefId>,
    fin: Map<Seq<Seq<char>>, DefId>,
    lo: int,
)
    requires
        0 <= i,
        l_variants(s, prefix, vs, i, done).1 is Ok,
        apart(names, lo),
        lo <= s.next_id,
        later(s.paths, fin, lo),
        variant_paths(vs, prefix, i).no_duplicates(),
        undisturbed(names, fin, variant_paths(vs, prefix, i)),
    ensures
        good(
            variants_ids(l_variants(s, prefix, vs, i, done).1->Ok_0, done.len() as int),
            names,
            variant_paths(vs, prefix, i),
            s.next_id as int,
            l_variants(s, prefix, vs, i, done).0.next_id as int,
        ),
    decreases vs.len() - i,
{
    let r = l_variants(s, prefix, vs, i, done);
    if i < vs.len() {
        let p = prefix.push(vs[i].name);
        let id = registered(s, p)->Ok_0;
        lemma_fields(s, vs[i].fields, 0, Seq::empty());
        let a = l_fields(s, vs[i].fields, 0, Seq::empty());
        let fs = a.1->Ok_0;
        let v = HirEnumVariantV { def_id: id, name: vs[i].name, tag: i as u32, fields: fs };
        let rest = variant_paths(vs, prefix, i + 1);
        lemma_undisturbed_parts(names, fin, seq![p], rest);
        assert(seq![p][0] == p);
        lemma_found(names, s.paths, fin, p, lo);
        lemma_head(names, p, id, fields_ids(fs, 0), lo, s.next_id as int, a.0.next_id as int);
        lemma_variants_later(a.0, prefix, vs, i + 1, done.push(v));
        lemma_variants(a.0, prefix, vs, i + 1, done.push(v), names, fin, lo);
        lemma_begins(r.1->Ok_0, done, v);
        lemma_join(
            seq![id] + fields_ids(fs, 0),
            variants_ids(r.1->Ok_0, done.len() as int + 1),
            names,
            seq![p],
            rest,
            lo,
            s.next_id as int,
            a.0.next_id as int,
            r.0.next_id as int,
        );
    }
}

proof fn lemma_enum(
    s: LowerState,
    prefix: Seq<Seq<char>>,
    d: TopLevelDeclV,
    names: Map<Seq<Seq<char>>, DefId>,
    fin: Map<Seq<Seq<char>>, DefId>,
    lo: int,
)
    requires
        d is Enum,
        low_enum(s, prefix, d->Enum_attributes, d->Enum_name, d->Enum_generics, d->Enum_variants).1 is Ok,
        apart(names, lo),
        lo <= s.next_id,
        later(s.paths, fin, lo),
        own_paths(d, prefix).no_duplicates(),
        undisturbed(names, fin, own_paths(d, prefix)),
    ensures
        ({
                let r = low_enum(
                    s,
                    prefix,
                    d->Enum_attributes,
                    d->Enum_name,
                    d->Enum_generics,
                    d->Enum_variants,
                );
                good(
                    item_ids(r.1->Ok_0),
                    names,
                    own_paths(d, prefix),
                    s.next_id as int,
                    r.0.next_id as int,
                )
        }),
{
    reveal(low_enum);
    let r = low_enum(
        s,
        prefix,
        d->Enum_attributes,
        d->Enum_name,
        d->Enum_generics,
        d->Enum_variants,
    );
    let p = prefix.push(d->Enum_name);
    let id = registered(s, p)->Ok_0;
    let inner = LowerState { generics: d->Enum_generics, ..s };
    let vs = d->Enum_variants;
    let rest = variant_paths(vs, prefix, 0);
    let none = Seq::<DefId>::empty();
    lemma_undisturbed_parts(names, fin, seq![p], rest);
    assert(seq![p][0] == p);
    lemma_found(names, s.paths, fin, p, lo);
    lemma_head(names, p, id, none, lo, s.next_id as int, s.next_id as int);
    assert(seq![id] + none =~= seq![id]);
    lemma_variants_later(inner, prefix, vs, 0, Seq::empty());
    lemma_variants(inner, prefix, vs, 0, Seq::empty(), names, fin, lo);
    let out = l_variants(inner, prefix, vs, 0, Seq::empty()).1->Ok_0;
    lemma_join(
        seq![id],
        variants_ids(out, 0),
        names,
        seq![p],
        rest,
        lo,
        s.next_id as int,
        s.next_id as int,
        r.0.next_id as int,
    );
}

// Implementations

proof fn lemma_method_params(s: LowerState, recv: HirTypeV, gs: Seq<GenericParamV>, m: ImplMethodV)
    ensures
        l_method_params(s, recv, gs, m).1 is Ok ==> took(
            s,
            l_method_params(s, recv, gs, m).0,
            params_ids(l_method_params(s, recv, gs, m).1->Ok_0, 0),
        ),
{
    reveal(l_method_params);
    if m.is_static {
        lemma_params(s, gs, m.params, Seq::empty());
    } else {
        lemma_new_local(s, "self"@);
        let a = new_local(s, "self"@);
        if let Ok(id) = a.1 {
            let this = HirParamV { def_id: id, name: "self"@, ty: recv, kind: crate::hir::ParamKind::Value };
            lemma_params(a.0, gs, m.params, seq![this]);
            let b = l_const_params(a.0, gs, 0, seq![this]);
            if let Ok(cs) = b.1 {
                let c = l_value_params(b.0, m.params, 0, cs);
                if let Ok(out) = c.1 {
                    assert(out[0] == seq![this][0]);
                    lemma_took(s, a.0, c.0, seq![id], params_ids(out, 1));
                }
            }
        }
    }
}

/// A method: its number is the one given, what is defined inside it is new, and
/// it displaces other definitions only by its own number.
spec fn method_made(
    s: LowerState,
    r: (LowerState, Result<HirItemV, MplangErrorV>),
    id: DefId,
    lo: int,
) -> bool {
    r.1 is Ok ==> {
        &&& s.next_id <= r.0.next_id
        &&& later(s.paths, r.0.paths, lo)
        &&& exists|x: Seq<DefId>| item_ids(r.1->Ok_0) == seq![id] + x && #[trigger] within(
            x,
            s.next_id as int,
            r.0.next_id as int,
        )
    }
}

proof fn lemma_method(
    s: LowerState,
    prefix: Seq<Seq<char>>,
    ty: TypeV,
    recv: HirTypeV,
    generics: Seq<GenericParamV>,
    m: ImplMethodV,
    id: DefId,
    lo: int,
)
    requires
        lo <= id.0,
    ensures
        method_made(s, low_method(s, prefix, ty, recv, generics, m, id), id, lo),
{
    reveal(low_method);
    let r = low_method(s, prefix, ty, recv, generics, m, id);
    if r.1 is Ok {
        let combined = generics + m.generics;
        let inner = LowerState { generics: combined, locals: Map::empty(), ..s };
        lemma_method_params(inner, recv, combined, m);
        let a = l_method_params(inner, recv, combined, m);
        lemma_stmts(a.0, m.body, 0, Seq::empty());
        let b = l_stmts(a.0, m.body, 0, Seq::empty());
        let x = params_ids(a.1->Ok_0, 0);
        let y = stmts_ids(b.1->Ok_0, 0);
        lemma_took(inner, a.0, b.0, x, y);
        assert(within(x + y, s.next_id as int, r.0.next_id as int));
    }
}

/// Distinct numbers: new ones from `a` on and below `b`, and those of `ids` from
/// `i` on.
spec fn among(x: Seq<DefId>, ids: Seq<DefId>, i: int, a: int, b: int) -> bool {
    &&& x.no_duplicates()
    &&& forall|j: int| 0 <= j < x.len() ==> a <= (#[trigger] x[j]).0 < b || exists|k: int| i <= k < ids.len() && #[trigger] ids[k] == x[j]
}

proof fn lemma_among(x: Seq<DefId>, y: Seq<DefId>, ids: Seq<DefId>, i: int, a: int, b: int, c: int)
    requires
        0 <= i < ids.len(),
        ids.no_duplicates(),
        forall|k: int| 0 <= k < ids.len() ==> (#[trigger] ids[k]).0 < a,
        within(x, a, b),
        among(y, ids, i + 1, b, c),
        a <= b <= c,
    ensures
        among(seq![ids[i]] + x + y, ids, i, a, c),
{
    let h = seq![ids[i]] + x;
    let z = h + y;
    assert forall|j: int| 0 <= j < z.len() implies a <= (#[trigger] z[j]).0 < c || exists|k: int| i <= k < ids.len() && #[trigger] ids[k] == z[j] by {
        if j == 0 {
            assert(z[j] == ids[i]);
        } else if j <= x.len() {
            assert(z[j] == x[j - 1]);
        } else {
            assert(z[j] == y[j - 1 - x.len()]);
        }
    }
    assert forall|p: int, q: int| 0 <= p < z.len() && 0 <= q < z.len() && p != q implies z[p] != z[q] by {
        if p == 0 {
            assert(z[p] == ids[i]);
        } else if p <= x.len() {
            assert(z[p] == x[p - 1]);
        } else {
            assert(z[p] == y[p - 1 - x.len()]);
        }
        if q == 0 {
            assert(z[q] == ids[i]);
        } else if q <= x.len() {
            assert(z[q] == x[q - 1]);
        } else {
            assert(z[q] == y[q - 1 - x.len()]);
        }
    }
}

proof fn lemma_methods(
    s: LowerState,
    prefix: Seq<Seq<char>>,
    ty: TypeV,
    recv: HirTypeV,
    generics: Seq<GenericParamV>,
    ms: Seq<ImplMethodV>,
    ids: Seq<DefId>,
    i: int,
    done: Seq<HirItemV>,
    lo: int,
)
    requires
        0 <= i <= ms.len(),
        ids.len() == ms.len(),
        ids.no_duplicates(),
        forall|k: int| 0 <= k < ids.len() ==> lo <= (#[trigger] ids[k]).0 < s.next_id,
    ensures
        low_methods(s, prefix, ty, recv, generics, ms, ids, i, done).1 is Ok ==> {
            let r = low_methods(s, prefix, ty, recv, generics, ms, ids, i, done);
            &&& s.next_id <= r.0.next_id
            &&& later(s.paths, r.0.paths, lo)
            &&& begins(r.1->Ok_0, done)
            &&& among(
                items_ids(r.1->Ok_0, done.len() as int),
                ids,
                i,
                s.next_id as int,
                r.0.next_id as int,
            )
        },
    decreases ms.len() - i,
{
    if i < ms.len() {
        lemma_method(s, prefix, ty, recv, generics, ms[i], ids[i], lo);
        let a = low_method(s, prefix, ty, recv, generics, ms[i], ids[i]);
        if let Ok(item) = a.1 {
            lemma_methods(a.0, prefix, ty, recv, generics, ms, ids, i + 1, done.push(item), lo);
            let b = low_methods(a.0, prefix, ty, recv, generics, ms, ids, i + 1, done.push(item));
            if let Ok(out) = b.1 {
                lemma_begins(out, done, item);
                lemma_later(s.paths, a.0.paths, b.0.paths, lo);
                let x = choose|x: Seq<DefId>| item_ids(item) == seq![ids[i]] + x && #[trigger] within(x, s.next_id as int, a.0.next_id as int);
                lemma_among(
                    x,
                    items_ids(out, done.len() as int + 1),
                    ids,
                    i,
                    s.next_id as int,
                    a.0.next_id as int,
                    b.0.next_id as int,
                );
            }
        }
    }
}

proof fn lemma_alloc(s: LowerState, ms: Seq<ImplMethodV>, i: int, done: Seq<DefId>)
    requires
        0 <= i <= ms.len(),
    ensures
        alloc_methods(s, ms, i, done).1 is Ok ==> {
            let r = alloc_methods(s, ms, i, done);
            &&& r.0.next_id == s.next_id + ms.len() - i
            &&& r.0.paths == s.paths
            &&& r.1->Ok_0.len() == done.len() + ms.len() - i
            &&& begins(r.1->Ok_0, done)
            &&& forall|k: int| done.len() <= k < r.1->Ok_0.len() ==> (#[trigger] r.1->Ok_0[k]).0 == s.next_id + k - done.len()
        },
    decreases ms.len() - i,
{
    if i < ms.len() {
        let a = fresh(s);
        if let Ok(id) = a.1 {
            lemma_alloc(a.0, ms, i + 1, done.push(id));
            let r = alloc_methods(a.0, ms, i + 1, done.push(id));
            if let Ok(out) = r.1 {
                lemma_begins(out, done, id);
            }
        }
    }
}

proof fn lemma_impl(
    s: LowerState,
    prefix: Seq<Seq<char>>,
    generics: Seq<GenericParamV>,
    trrait: Option<PathV>,
    ty: TypeV,
    methods: Seq<ImplMethodV>,
    done: Seq<HirItemV>,
    lo: int,
)
    requires
        lo <= s.next_id,
    ensures
        low_impl(s, prefix, generics, trrait, ty, methods, done).1 is Ok ==> {
            let r = low_impl(s, prefix, generics, trrait, ty, methods, done);
            &&& s.next_id <= r.0.next_id
            &&& later(s.paths, r.0.paths, lo)
            &&& begins(r.1->Ok_0, done)
            &&& within(
                items_ids(r.1->Ok_0, done.len() as int),
                s.next_id as int,
                r.0.next_id as int,
            )
        },
{
    reveal(low_impl);
    reveal(add_table);
    let r = low_impl(s, prefix, generics, trrait, ty, methods, done);
    if r.1 is Ok {
        let inner = LowerState { generics, ..s };
        let recv = l_type(inner, ty)->Ok_0;
        let ms = all_methods(s, ty, trrait, methods)->Ok_0;
        lemma_alloc(s, ms, 0, Seq::empty());
        let a = alloc_methods(s, ms, 0, Seq::empty());
        let ids = a.1->Ok_0;
        let b = add_table(a.0, trrait, recv, ms, ids);
        lemma_methods(b.0, prefix, ty, recv, generics, ms, ids, 0, done, lo);
        let x = items_ids(r.1->Ok_0, done.len() as int);
        assert forall|j: int| 0 <= j < x.len() implies s.next_id <= (#[trigger] x[j]).0 < r.0.next_id by {
            if !(b.0.next_id <= x[j].0 < r.0.next_id) {
                let k = choose|k: int| 0 <= k < ids.len() && #[trigger] ids[k] == x[j];
                assert(ids[k] == x[j]);
            }
        }
    }
}

// Declarations

pub proof fn lemma_plain_later(
    s: LowerState,
    d: TopLevelDeclV,
    prefix: Seq<Seq<char>>,
    done: Seq<HirItemV>,
    lo: int,
)
    requires
        lo <= s.next_id,
    ensures
        low_plain(s, d, prefix, done).1 is Ok ==> {
            let r = low_plain(s, d, prefix, done);
            s.next_id <= r.0.next_id && later(s.paths, r.0.paths, lo) && begins(r.1->Ok_0, done)
        },
{
    reveal(low_plain);
    match d {
        TopLevelDeclV::UseDecl { path, .. } => {
            reveal(low_use);
        },
        TopLevelDeclV::ExternFnDef { .. } => {
            lemma_extern_fn(s, prefix, d);
        },
        TopLevelDeclV::FnDef { .. } => {
            lemma_fn(s, prefix, d);
        },
        TopLevelDeclV::StructDef { .. } => {
            lemma_struct(s, prefix, d);
        },
        TopLevelDeclV::Enum { generics, variants, .. } => {
            reveal(low_enum);
            lemma_variants_later(LowerState { generics, ..s }, prefix, variants, 0, Seq::empty());
        },
        TopLevelDeclV::Impl { generics, trrait, ty, methods, .. } => {
            lemma_impl(s, prefix, generics, trrait, ty, methods, done, lo);
        },
        TopLevelDeclV::Static { attributes, name, ty, init } => {
            lemma_global(s, prefix, attributes, name, ty, init, false);
        },
        TopLevelDeclV::Const { attributes, name, ty, init } => {
            lemma_global(s, prefix, attributes, name, ty, init, true);
        },
        _ => {},
    }
}

/// The numbers of a declaration with one item.
proof fn lemma_single(
    s: LowerState,
    r: (LowerState, Result<HirItemV, MplangErrorV>),
    p: Seq<Seq<char>>,
    names: Map<Seq<Seq<char>>, DefId>,
    fin: Map<Seq<Seq<char>>, DefId>,
    lo: int,
)
    requires
        r.1 is Ok,
        single(s, r, p),
        apart(names, lo),
        lo <= s.next_id,
        later(s.paths, fin, lo),
        undisturbed(names, fin, seq![p]),
    ensures
        good(item_ids(r.1->Ok_0), names, seq![p], s.next_id as int, r.0.next_id as int),
{
    assert(seq![p][0] == p);
    lemma_found(names, s.paths, fin, p, lo);
    let x = choose|x: Seq<DefId>| item_ids(r.1->Ok_0) == seq![s.paths[p]] + x && #[trigger] within(
        x,
        s.next_id as int,
        r.0.next_id as int,
    );
    lemma_head(names, p, s.paths[p], x, lo, s.next_id as int, r.0.next_id as int);
}

proof fn lemma_pushed(done: Seq<HirItemV>, item: HirItemV)
    ensures
        items_ids(done.push(item), done.len() as int) == item_ids(item),
{
    let out = done.push(item);
    assert(items_ids(out, done.len() as int + 1) =~= Seq::<DefId>::empty());
    assert(items_ids(out, done.len() as int) =~= item_ids(item));
}

proof fn lemma_plain(
    s: LowerState,
    d: TopLevelDeclV,
    prefix: Seq<Seq<char>>,
    done: Seq<HirItemV>,
    names: Map<Seq<Seq<char>>, DefId>,
    fin: Map<Seq<Seq<char>>, DefId>,
    lo: int,
)
    requires
        module_name(d) is None,
        low_plain(s, d, prefix, done).1 is Ok,
        later(low_plain(s, d, prefix, done).0.paths, fin, lo),
        apart(names, lo),
        lo <= s.next_id,
        own_paths(d, prefix).no_duplicates(),
        undisturbed(names, fin, own_paths(d, prefix)),
    ensures
        good(
            items_ids(low_plain(s, d, prefix, done).1->Ok_0, done.len() as int),
            names,
            own_paths(d, prefix),
            s.next_id as int,
            low_plain(s, d, prefix, done).0.next_id as int,
        ),
{
    let r = low_plain(s, d, prefix, done);
    lemma_plain_later(s, d, prefix, done, lo);
    lemma_later(s.paths, r.0.paths, fin, lo);
    reveal(low_plain);
    match d {
        TopLevelDeclV::ExternFnDef { attributes, name, param_types, return_ty, is_variadic } => {
            let a = low_extern_fn(s, prefix, attributes, name, param_types, return_ty, is_variadic);
            lemma_extern_fn(s, prefix, d);
            lemma_single(s, a, prefix.push(name), names, fin, lo);
            lemma_pushed(done, a.1->Ok_0);
        },
        TopLevelDeclV::FnDef { attributes, name, generics, params, return_ty, body } => {
            let a = low_fn(s, prefix, attributes, name, generics, params, return_ty, body);
            lemma_fn(s, prefix, d);
            lemma_single(s, a, prefix.push(name), names, fin, lo);
            lemma_pushed(done, a.1->Ok_0);
        },
        TopLevelDeclV::StructDef { attributes, name, generics, fields } => {
            let a = low_struct(s, prefix, attributes, name, generics, fields);
            lemma_struct(s, prefix, d);
            lemma_single(s, a, prefix.push(name), names, fin, lo);
            lemma_pushed(done, a.1->Ok_0);
        },
        TopLevelDeclV::Enum { attributes, name, generics, variants } => {
            let a = low_enum(s, prefix, attributes, name, generics, variants);
            lemma_enum(s, prefix, d, names, fin, lo);
            lemma_pushed(done, a.1->Ok_0);
        },
        TopLevelDeclV::Impl { generics, trrait, ty, methods, .. } => {
            lemma_impl(s, prefix, generics, trrait, ty, methods, done, lo);
        },
        TopLevelDeclV::Static { attributes, name, ty, init } => {
            let a = low_global(s, prefix, attributes, name, ty, init, false);
            lemma_global(s, prefix, attributes, name, ty, init, false);
            lemma_single(s, a, prefix.push(name), names, fin, lo);
            lemma_pushed(done, a.1->Ok_0);
        },
        TopLevelDeclV::Const { attributes, name, ty, init } => {
            let a = low_global(s, prefix, attributes, name, ty, init, true);
            lemma_global(s, prefix, attributes, name, ty, init, true);
            lemma_single(s, a, prefix.push(name), names, fin, lo);
            lemma_pushed(done, a.1->Ok_0);
        },
        _ => {
            assert(items_ids(done, done.len() as int) =~= Seq::<DefId>::empty());
        },
    }
}

/// The state in which the content of a module is done, and its items.
pub open spec fn content(
    s: LowerState,
    segs: Seq<Seq<char>>,
    tree: SourceTreeV,
    k: int,
) -> (LowerState, Result<Seq<HirItemV>, MplangErrorV>) {
    match child(tree, k) {
        Some(u) => low_decls(s, u.unit.declarations, 0, segs, u.children, 0, Seq::empty()),
        None => (s, Ok(Seq::empty())),
    }
}

pub proof fn lemma_content(s: LowerState, segs: Seq<Seq<char>>, tree: SourceTreeV, k: int)
    ensures
        (if 0 <= k < tree.units.len() { low_content(s, segs, tree.units[k]) } else { (s, Ok(Seq::empty())) }) == content(s, segs, tree, k),
{
}

pub proof fn lemma_decls_later(
    s: LowerState,
    ds: Seq<TopLevelDeclV>,
    i: int,
    prefix: Seq<Seq<char>>,
    tree: SourceTreeV,
    k: int,
    done: Seq<HirItemV>,
    lo: int,
)
    requires
        lo <= s.next_id,
    ensures
        low_decls(s, ds, i, prefix, tree, k, done).1 is Ok ==> {
            let r = low_decls(s, ds, i, prefix, tree, k, done);
            s.next_id <= r.0.next_id && later(s.paths, r.0.paths, lo) && begins(r.1->Ok_0, done)
        },
    decreases tree, ds.len() - i,
{
    if 0 <= i < ds.len() {
        match module_name(ds[i]) {
            Some(name) => {
                let segs = prefix.push(name);
                lemma_content(s, segs, tree, k);
                let a = content(s, segs, tree, k);
                if let Some(u) = child(tree, k) {
                    lemma_decls_later(
                        s,
                        u.unit.declarations,
                        0,
                        segs,
                        u.children,
                        0,
                        Seq::empty(),
                        lo,
                    );
                }
                if let Ok(items) = a.1 {
                    let found = if ds[i] is ModDecl { registered(s, segs) } else { registered(a.0, segs) };
                    if let Ok(id) = found {
                        let m = module_item(id, name, module_attributes(ds[i]), items);
                        lemma_decls_later(a.0, ds, i + 1, prefix, tree, k + 1, done.push(m), lo);
                        let b = low_decls(a.0, ds, i + 1, prefix, tree, k + 1, done.push(m));
                        if let Ok(out) = b.1 {
                            lemma_begins(out, done, m);
                            lemma_later(s.paths, a.0.paths, b.0.paths, lo);
                        }
                    }
                }
            },
            None => {
                lemma_plain_later(s, ds[i], prefix, done, lo);
                let a = low_plain(s, ds[i], prefix, done);
                if let Ok(next) = a.1 {
                    lemma_decls_later(a.0, ds, i + 1, prefix, tree, k, next, lo);
                    let b = low_decls(a.0, ds, i + 1, prefix, tree, k, next);
                    if let Ok(out) = b.1 {
                        lemma_later(s.paths, a.0.paths, b.0.paths, lo);
                        assert forall|j: int| 0 <= j < done.len() implies #[trigger] out[j] == done[j] by {
                            assert(out[j] == next[j]);
                        }
                    }
                }
            },
        }
    }
}

/// The items of a list stand before those that were added to it.
proof fn lemma_items_parts(done: Seq<HirItemV>, out: Seq<HirItemV>, i: int)
    requires
        begins(out, done),
        0 <= i <= done.len(),
    ensures
        items_ids(out, i) == items_ids(done, i) + items_ids(out, done.len() as int),
    decreases done.len() - i,
{
    if i < done.len() {
        lemma_items_parts(done, out, i + 1);
        assert(out[i] == done[i]);
    }
    assert(items_ids(out, i) =~= items_ids(done, i) + items_ids(out, done.len() as int));
}

proof fn lemma_decls(
    s: LowerState,
    ds: Seq<TopLevelDeclV>,
    i: int,
    prefix: Seq<Seq<char>>,
    tree: SourceTreeV,
    k: int,
    done: Seq<HirItemV>,
    names: Map<Seq<Seq<char>>, DefId>,
    fin: Map<Seq<Seq<char>>, DefId>,
    lo: int,
)
    requires
        0 <= i,
        low_decls(s, ds, i, prefix, tree, k, done).1 is Ok,
        later(low_decls(s, ds, i, prefix, tree, k, done).0.paths, fin, lo),
        apart(names, lo),
        lo <= s.next_id,
        all_paths(ds, i, prefix, tree, k).no_duplicates(),
        undisturbed(names, fin, all_paths(ds, i, prefix, tree, k)),
    ensures
        good(
            items_ids(low_decls(s, ds, i, prefix, tree, k, done).1->Ok_0, done.len() as int),
            names,
            all_paths(ds, i, prefix, tree, k),
            s.next_id as int,
            low_decls(s, ds, i, prefix, tree, k, done).0.next_id as int,
        ),
    decreases tree, ds.len() - i,
{
    let r = low_decls(s, ds, i, prefix, tree, k, done);
    lemma_decls_later(s, ds, i, prefix, tree, k, done, lo);
    lemma_later(s.paths, r.0.paths, fin, lo);
    if i < ds.len() {
        let own = own_paths(ds[i], prefix);
        match module_name(ds[i]) {
            Some(name) => {
                let segs = prefix.push(name);
                lemma_content(s, segs, tree, k);
                let a = content(s, segs, tree, k);
                let items = a.1->Ok_0;
                let id = if ds[i] is ModDecl { registered(s, segs)->Ok_0 } else { registered(a.0, segs)->Ok_0 };
                let m = module_item(id, name, module_attributes(ds[i]), items);
                let inside = match child(tree, k) {
                    Some(u) => all_paths(u.unit.declarations, 0, segs, u.children, 0),
                    None => Seq::empty(),
                };
                let rest = all_paths(ds, i + 1, prefix, tree, k + 1);
                assert(own =~= seq![segs]);
                assert(all_paths(ds, i, prefix, tree, k) =~= own + inside + rest);
                lemma_undisturbed_parts(names, fin, own + inside, rest);
                lemma_undisturbed_parts(names, fin, own, inside);
                if let Some(u) = child(tree, k) {
                    lemma_decls_later(
                        s,
                        u.unit.declarations,
                        0,
                        segs,
                        u.children,
                        0,
                        Seq::empty(),
                        lo,
                    );
                }
                lemma_decls_later(a.0, ds, i + 1, prefix, tree, k + 1, done.push(m), lo);
                lemma_later(a.0.paths, r.0.paths, fin, lo);
                assert(own[0] == segs);
                if ds[i] is ModDecl {
                    lemma_found(names, s.paths, fin, segs, lo);
                } else {
                    lemma_found(names, a.0.paths, fin, segs, lo);
                }
                let none = Seq::<DefId>::empty();
                lemma_head(names, segs, id, none, lo, s.next_id as int, s.next_id as int);
                assert(seq![id] + none =~= seq![id]);
                if let Some(u) = child(tree, k) {
                    lemma_decls(
                        s,
                        u.unit.declarations,
                        0,
                        segs,
                        u.children,
                        0,
                        Seq::empty(),
                        names,
                        fin,
                        lo,
                    );
                } else {
                    assert(items_ids(items, 0) =~= none);
                }
                lemma_join(
                    seq![id],
                    items_ids(items, 0),
                    names,
                    own,
                    inside,
                    lo,
                    s.next_id as int,
                    s.next_id as int,
                    a.0.next_id as int,
                );
                lemma_decls(a.0, ds, i + 1, prefix, tree, k + 1, done.push(m), names, fin, lo);
                lemma_begins(r.1->Ok_0, done, m);
                lemma_join(
                    item_ids(m),
                    items_ids(r.1->Ok_0, done.len() as int + 1),
                    names,
                    own + inside,
                    rest,
                    lo,
                    s.next_id as int,
                    a.0.next_id as int,
                    r.0.next_id as int,
                );
            },
            None => {
                let rest = all_paths(ds, i + 1, prefix, tree, k);
                let a = low_plain(s, ds[i], prefix, done);
                let next = a.1->Ok_0;
                lemma_undisturbed_parts(names, fin, own, rest);
                lemma_plain_later(s, ds[i], prefix, done, lo);
                lemma_decls_later(a.0, ds, i + 1, prefix, tree, k, next, lo);
                lemma_later(a.0.paths, r.0.paths, fin, lo);
                lemma_plain(s, ds[i], prefix, done, names, fin, lo);
                lemma_decls(a.0, ds, i + 1, prefix, tree, k, next, names, fin, lo);
                lemma_items_parts(next, r.1->Ok_0, done.len() as int);
                lemma_join(
                    items_ids(next, done.len() as int),
                    items_ids(r.1->Ok_0, next.len() as int),
                    names,
                    own,
                    rest,
                    lo,
                    s.next_id as int,
                    a.0.next_id as int,
                    r.0.next_id as int,
                );
            },
        }
    } else {
        assert(items_ids(done, done.len() as int) =~= Seq::<DefId>::empty());
    }
}

// Registration

proof fn lemma_register(s: LowerState, prefix: Seq<Seq<char>>, name: Seq<char>)
    requires
        apart(s.paths, s.next_id as int),
    ensures
        register_def(s, prefix, name).1 is Ok ==> apart(
            register_def(s, prefix, name).0.paths,
            register_def(s, prefix, name).0.next_id as int,
        ),
{
}

proof fn lemma_reg_variants(
    s: LowerState,
    prefix: Seq<Seq<char>>,
    enum_def: DefId,
    vs: Seq<EnumVariantV>,
    i: int,
)
    requires
        apart(s.paths, s.next_id as int),
    ensures
        reg_variants(s, prefix, enum_def, vs, i).1 is Ok ==> apart(
            reg_variants(s, prefix, enum_def, vs, i).0.paths,
            reg_variants(s, prefix, enum_def, vs, i).0.next_id as int,
        ),
    decreases vs.len() - i,
{
    if i < vs.len() {
        lemma_register(s, prefix, vs[i].name);
        let a = register_def(s, prefix, vs[i].name);
        if let Ok(id) = a.1 {
            lemma_reg_variants(
                LowerState { variants: a.0.variants.insert(id, (enum_def, vs[i].name)), ..a.0 },
                prefix,
                enum_def,
                vs,
                i + 1,
            );
        }
    }
}

proof fn lemma_reg_plain(s: LowerState, d: TopLevelDeclV, prefix: Seq<Seq<char>>)
    requires
        apart(s.paths, s.next_id as int),
    ensures
        reg_plain(s, d, prefix).1 is Ok ==> apart(
            reg_plain(s, d, prefix).0.paths,
            reg_plain(s, d, prefix).0.next_id as int,
        ),
{
    reveal(reg_plain);
    match d {
        TopLevelDeclV::ModDecl { name, .. } => {
            lemma_register(s, prefix, name);
        },
        TopLevelDeclV::ExternCrate { name, .. } => {
            lemma_register(s, prefix, name);
        },
        TopLevelDeclV::ExternFnDef { name, .. } => {
            lemma_register(s, prefix, name);
        },
        TopLevelDeclV::FnDef { name, .. } => {
            lemma_register(s, prefix, name);
        },
        TopLevelDeclV::StructDef { name, .. } => {
            lemma_register(s, prefix, name);
        },
        TopLevelDeclV::Static { name, .. } => {
            lemma_register(s, prefix, name);
        },
        TopLevelDeclV::Const { name, .. } => {
            lemma_register(s, prefix, name);
        },
        TopLevelDeclV::Trait { name, .. } => {
            lemma_register(s, prefix, name);
        },
        TopLevelDeclV::Enum { name, variants, .. } => {
            lemma_register(s, prefix, name);
            let a = register_def(s, prefix, name);
            if let Ok(id) = a.1 {
                lemma_reg_variants(
                    LowerState { enums: a.0.enums.insert(id, ()), ..a.0 },
                    prefix,
                    id,
                    variants,
                    0,
                );
            }
        },
        _ => {},
    }
}

pub proof fn lemma_reg_decls(
    s: LowerState,
    ds: Seq<TopLevelDeclV>,
    i: int,
    prefix: Seq<Seq<char>>,
    tree: SourceTreeV,
    k: int,
)
    requires
        apart(s.paths, s.next_id as int),
    ensures
        reg_decls(s, ds, i, prefix, tree, k).1 is Ok ==> apart(
            reg_decls(s, ds, i, prefix, tree, k).0.paths,
            reg_decls(s, ds, i, prefix, tree, k).0.next_id as int,
        ),
    decreases tree, ds.len() - i,
{
    if 0 <= i < ds.len() {
        lemma_reg_plain(s, ds[i], prefix);
        let a = reg_plain(s, ds[i], prefix);
        if a.1 is Ok {
            match module_name(ds[i]) {
                Some(name) => {
                    match child(tree, k) {
                        Some(sub) => {
                            lemma_reg_decls(
                                a.0,
                                sub.unit.declarations,
                                0,
                                prefix.push(name),
                                sub.children,
                                0,
                            );
                            let b = reg_decls(
                                a.0,
                                sub.unit.declarations,
                                0,
                                prefix.push(name),
                                sub.children,
                                0,
                            );
                            if b.1 is Ok {
                                lemma_reg_decls(b.0, ds, i + 1, prefix, tree, k + 1);
                            }
                        },
                        None => {
                            lemma_reg_decls(a.0, ds, i + 1, prefix, tree, k + 1);
                        },
                    }
                },
                None => {
                    lemma_reg_decls(a.0, ds, i + 1, prefix, tree, k);
                },
            }
        }
    }
}

/// Every definition of a resolved program has a number of its own: no two
/// modules, functions, structs, fields, enumerations, variants, global
/// variables, parameters or local variables share one.
///
/// Left out are programs in which two items have the same full path, and those
/// in which a static method takes the full path of an item: there, the later
/// definition is found for both.
pub proof fn law_definitions_are_distinct(decls: Seq<TopLevelDeclV>, tree: SourceTreeV)
    requires
        lowered(initial_state(), decls, tree).1 is Ok,
        all_paths(decls, 0, Seq::empty(), tree, 0).no_duplicates(),
        undisturbed(
            reg_decls(initial_state(), decls, 0, Seq::empty(), tree, 0).0.paths,
            lowered(initial_state(), decls, tree).0.paths,
            all_paths(decls, 0, Seq::empty(), tree, 0),
        ),
    ensures
        unit_ids(lowered(initial_state(), decls, tree).1->Ok_0).no_duplicates(),
{
    let s = initial_state();
    lemma_reg_decls(s, decls, 0, Seq::empty(), tree, 0);
    let a = reg_decls(s, decls, 0, Seq::empty(), tree, 0).0;
    let b = fresh(a).0;
    let root = fresh(a).1->Ok_0;
    let lo = b.next_id as int;
    let c = low_decls(b, decls, 0, Seq::empty(), tree, 0, Seq::empty());
    let items = c.1->Ok_0;
    lemma_decls(b, decls, 0, Seq::empty(), tree, 0, Seq::empty(), a.paths, c.0.paths, lo);
    let x = items_ids(items, 0);
    assert forall|j: int| 0 <= j < x.len() implies #[trigger] x[j] != root by {
        if !(lo <= x[j].0 < c.0.next_id) {
            let ps = all_paths(decls, 0, Seq::empty(), tree, 0);
            let k = choose|k: int| 0 <= k < ps.len() && a.paths.dom().contains(#[trigger] ps[k]) && a.paths[ps[k]] == x[j];
            assert(a.paths.dom().contains(ps[k]));
        }
    }
    let z = unit_ids(lowered(s, decls, tree).1->Ok_0);
    assert(z =~= seq![root] + x);
    assert forall|i: int, j: int| 0 <= i < z.len() && 0 <= j < z.len() && i != j implies z[i] != z[j] by {
        if i > 0 {
            assert(z[i] == x[i - 1]);
        }
        if j > 0 {
            assert(z[j] == x[j - 1]);
        }
    }
}

} // verus!

