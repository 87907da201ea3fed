//! How deeply requests for instances may nest does not matter to a program
//! whose requests nest less deeply.

use crate::ast::GenericParamV;
use crate::error::MplangErrorV;
use crate::hir::{DefId, HirTypeV, TypeOrConstV};
use crate::monomorphize::ids::unit_max;
use crate::monomorphize::rules::{
    const_args_in, const_of, const_params, const_values, empty_state, expanded, is_template,
    literals, value_params, m_arms, m_begin, m_bindings, m_body, m_call, m_collect, m_concrete, m_concretes,
    m_expr, m_exprs, m_fields, m_finish, m_fn, m_fresh, m_header, m_infer, m_inits, m_instance_call, m_item,
    m_items, m_kind, m_make, m_members, m_number, m_opt_type, m_own_fields, m_params, m_pattern, m_plain_call, m_record,
    m_stmt, m_stmts, m_struct, m_targs, m_type, m_types, m_variants, outer_scope, too_deep, Header,
    MonoScope, MonoState,
};
use crate::monomorphize::template::FnTemplateV;
use crate::table::lookup;
use crate::tycheck::rules::subst_type;
use crate::tyhir::{
    TyHirBodyV, TyHirCompilationUnitV, TyHirEnumVariantV, TyHirExprKindV, TyHirExprV, TyHirFieldV,
    TyHirItemV, TyHirMatchArmV, TyHirParamV, TyHirPatternV, TyHirStmtV,
};
use vstd::prelude::*;

verus! {

proof fn deep_concrete(s: MonoState, t: HirTypeV, fuel: nat, more: nat)
    requires
        fuel <= more,
        m_concrete(s, t, fuel).1 != Err::<HirTypeV, MplangErrorV>(too_deep()),
    ensures
        m_concrete(s, t, more) == m_concrete(s, t, fuel),
    decreases fuel, 1int, t, 0int,
{
    match t {
        HirTypeV::Pointer(e) => {
            deep_concrete(s, *e, fuel, more);
        },
        HirTypeV::Array(e, _) => {
            deep_concrete(s, *e, fuel, more);
        },
        HirTypeV::Enum(_, ts, _) => {
            deep_concretes(s, ts, 0, Seq::empty(), fuel, more);
        },
        HirTypeV::Generic(d, ts, cs) => {
            deep_concretes(s, ts, 0, Seq::empty(), fuel, more);
            let a = m_concretes(s, ts, 0, Seq::empty(), fuel);
            if let Ok(us) = a.1 {
                if let Ok(vs) = const_values(cs, 0, Seq::empty()) {
                    deep_struct(a.0, d, us, vs, fuel, more);
                }
            }
        },
        _ => {},
    }
}

proof fn deep_concretes(
    s: MonoState,
    ts: Seq<HirTypeV>,
    i: int,
    done: Seq<HirTypeV>,
    fuel: nat,
    more: nat,
)
    requires
        fuel <= more,
        m_concretes(s, ts, i, done, fuel).1 != Err::<Seq<HirTypeV>, MplangErrorV>(too_deep()),
    ensures
        m_concretes(s, ts, i, done, more) == m_concretes(s, ts, i, done, fuel),
    decreases fuel, 1int, ts, ts.len() - i,
{
    if 0 <= i < ts.len() {
        deep_concrete(s, ts[i], fuel, more);
        let m = m_concrete(s, ts[i], fuel);
        if let Ok(u) = m.1 {
            deep_concretes(m.0, ts, i + 1, done.push(u), fuel, more);
        }
    }
}

proof fn deep_type(
    s: MonoState,
    t: HirTypeV,
    gs: Seq<GenericParamV>,
    ta: Seq<HirTypeV>,
    ca: Seq<i64>,
    fuel: nat,
    more: nat,
)
    requires
        fuel <= more,
        m_type(s, t, gs, ta, ca, fuel).1 != Err::<HirTypeV, MplangErrorV>(too_deep()),
    ensures
        m_type(s, t, gs, ta, ca, more) == m_type(s, t, gs, ta, ca, fuel),
    decreases fuel, 2int, t, 0int,
{
    reveal(m_type);
    if let Ok(u) = subst_type(t, gs, ta, literals(ca)) {
        deep_concrete(s, u, fuel, more);
    }
}

proof fn deep_types(
    s: MonoState,
    ts: Seq<HirTypeV>,
    c: MonoScope,
    i: int,
    done: Seq<HirTypeV>,
    fuel: nat,
    more: nat,
)
    requires
        fuel <= more,
        m_types(s, ts, c, i, done, fuel).1 != Err::<Seq<HirTypeV>, MplangErrorV>(too_deep()),
    ensures
        m_types(s, ts, c, i, done, more) == m_types(s, ts, c, i, done, fuel),
    decreases ts.len() - i,
{
    if 0 <= i < ts.len() {
        deep_type(s, ts[i], c.generics, c.types, c.consts, fuel, more);
        let m = m_type(s, ts[i], c.generics, c.types, c.consts, fuel);
        if let Ok(u) = m.1 {
            deep_types(m.0, ts, c, i + 1, done.push(u), fuel, more);
        }
    }
}

proof fn deep_fields(
    s: MonoState,
    fs: Seq<TyHirFieldV>,
    gs: Seq<GenericParamV>,
    ta: Seq<HirTypeV>,
    ca: Seq<i64>,
    pointers: bool,
    i: int,
    done: Seq<TyHirFieldV>,
    fuel: nat,
    more: nat,
)
    requires
        fuel <= more,
        m_fields(s, fs, gs, ta, ca, pointers, i, done, fuel).1 != Err::<Seq<TyHirFieldV>, MplangErrorV>(too_deep()),
    ensures
        m_fields(s, fs, gs, ta, ca, pointers, i, done, more) == m_fields(s, fs, gs, ta, ca, pointers, i, done, fuel),
    decreases fuel, 3int, fs, fs.len() - i,
{
    reveal(m_type);
    if 0 <= i < fs.len() {
        if (fs[i].ty is Pointer) != pointers {
            deep_fields(s, fs, gs, ta, ca, pointers, i + 1, done.push(fs[i]), fuel, more);
        } else {
            deep_type(s, fs[i].ty, gs, ta, ca, fuel, more);
            let m = m_type(s, fs[i].ty, gs, ta, ca, fuel);
            if let Ok(t) = m.1 {
                let next = done.push(TyHirFieldV { ty: t, ..fs[i] });
                deep_fields(m.0, fs, gs, ta, ca, pointers, i + 1, next, fuel, more);
            }
        }
    }
}

proof fn deep_members(
    s: MonoState,
    fs: Seq<TyHirFieldV>,
    gs: Seq<GenericParamV>,
    ta: Seq<HirTypeV>,
    ca: Seq<i64>,
    fuel: nat,
    more: nat,
)
    requires
        fuel <= more,
        m_members(s, fs, gs, ta, ca, fuel).1 != Err::<(Seq<TyHirFieldV>, nat), MplangErrorV>(too_deep()),
    ensures
        m_members(s, fs, gs, ta, ca, more) == m_members(s, fs, gs, ta, ca, fuel),
    decreases fuel, 4int, ta, 0int,
{
    deep_fields(s, fs, gs, ta, ca, false, 0, Seq::empty(), fuel, more);
    let a = m_fields(s, fs, gs, ta, ca, false, 0, Seq::empty(), fuel);
    if let Ok(held) = a.1 {
        deep_fields(a.0, held, gs, ta, ca, true, 0, Seq::empty(), fuel, more);
    }
}

proof fn deep_struct(s: MonoState, d: DefId, ta: Seq<HirTypeV>, ca: Seq<i64>, fuel: nat, more: nat)
    requires
        fuel <= more,
        m_struct(s, d, ta, ca, fuel).1 != Err::<DefId, MplangErrorV>(too_deep()),
    ensures
        m_struct(s, d, ta, ca, more) == m_struct(s, d, ta, ca, fuel),
    decreases fuel, 0int, ta, 0int,
{
    if lookup(s.struct_instances, (d, ta, ca)) is None && fuel > 0 {
        if let Some(t) = lookup(s.structs, d) {
            let f = m_fresh(s);
            if let Ok(id) = f.1 {
                deep_members(
                    m_begin(f.0, d, ta, ca, id),
                    t.fields,
                    t.generics,
                    ta,
                    ca,
                    (fuel - 1) as nat,
                    (more - 1) as nat,
                );
            }
        }
    }
}

proof fn deep_params(
    s: MonoState,
    ps: Seq<TyHirParamV>,
    gs: Seq<GenericParamV>,
    ta: Seq<HirTypeV>,
    ca: Seq<i64>,
    i: int,
    done: Seq<TyHirParamV>,
    fuel: nat,
    more: nat,
)
    requires
        fuel <= more,
        m_params(s, ps, gs, ta, ca, i, done, fuel).1 != Err::<Seq<TyHirParamV>, MplangErrorV>(too_deep()),
    ensures
        m_params(s, ps, gs, ta, ca, i, done, more) == m_params(s, ps, gs, ta, ca, i, done, fuel),
    decreases fuel, 3int, ps, ps.len() - i,
{
    if 0 <= i < ps.len() {
        deep_type(s, ps[i].ty, gs, ta, ca, fuel, more);
        let m = m_type(s, ps[i].ty, gs, ta, ca, fuel);
        if let Ok(t) = m.1 {
            let next = done.push(TyHirParamV { ty: t, ..ps[i] });
            deep_params(m.0, ps, gs, ta, ca, i + 1, next, fuel, more);
        }
    }
}

proof fn deep_opt_type(
    s: MonoState,
    t: Option<HirTypeV>,
    gs: Seq<GenericParamV>,
    ta: Seq<HirTypeV>,
    ca: Seq<i64>,
    fuel: nat,
    more: nat,
)
    requires
        fuel <= more,
        m_opt_type(s, t, gs, ta, ca, fuel).1 != Err::<Option<HirTypeV>, MplangErrorV>(too_deep()),
    ensures
        m_opt_type(s, t, gs, ta, ca, more) == m_opt_type(s, t, gs, ta, ca, fuel),
    decreases fuel, 3int, ta, 0int,
{
    if let Some(x) = t {
        deep_type(s, x, gs, ta, ca, fuel, more);
    }
}

proof fn deep_fn(
    s: MonoState,
    d: DefId,
    t: FnTemplateV,
    ta: Seq<HirTypeV>,
    ca: Seq<i64>,
    fuel: nat,
    more: nat,
)
    requires
        fuel <= more,
        m_fn(s, d, t, ta, ca, fuel).1 != Err::<DefId, MplangErrorV>(too_deep()),
    ensures
        m_fn(s, d, t, ta, ca, more) == m_fn(s, d, t, ta, ca, fuel),
    decreases fuel, 0int, ta, 0int,
{
    if lookup(s.fn_instances, (d, ta, ca)) is None && fuel > 0 {
        deep_make(s, d, t, ta, ca, (fuel - 1) as nat, (more - 1) as nat);
    }
}

proof fn deep_make(
    s: MonoState,
    d: DefId,
    t: FnTemplateV,
    ta: Seq<HirTypeV>,
    ca: Seq<i64>,
    fuel: nat,
    more: nat,
)
    requires
        fuel <= more,
        m_make(s, d, t, ta, ca, fuel).1 != Err::<DefId, MplangErrorV>(too_deep()),
    ensures
        m_make(s, d, t, ta, ca, more) == m_make(s, d, t, ta, ca, fuel),
    decreases fuel, 6int, ta, 3int,
{
    if let Ok(values) = const_params(t.params, t.generics, ca, 0, Map::empty()) {
        let c = MonoScope { generics: t.generics, types: ta, consts: ca, values };
        deep_body(m_record(s, d, ta, ca, None), d, t, c, fuel, more);
    }
}

proof fn deep_body(
    s: MonoState,
    d: DefId,
    t: FnTemplateV,
    c: MonoScope,
    fuel: nat,
    more: nat,
)
    requires
        fuel <= more,
        m_body(s, d, t, c, fuel).1 != Err::<DefId, MplangErrorV>(too_deep()),
    ensures
        m_body(s, d, t, c, more) == m_body(s, d, t, c, fuel),
    decreases fuel, 6int, c.types, 2int,
{
    deep_stmts(s, t.body.stmts, c, 0, Seq::empty(), fuel, more);
    let m = m_stmts(s, t.body.stmts, c, 0, Seq::empty(), fuel);
    if m.1 is Ok {
        reveal(m_finish);
        let n = m_number(m.0, d, c.types, c.consts);
        if n.1 is Ok {
            let ps = value_params(t.params, 0, Seq::empty());
            deep_header(n.0, ps, t.return_ty, t.impl_receiver, c, fuel, more);
        }
    }
}

proof fn deep_own_fields(s: MonoState, fs: Seq<TyHirFieldV>, fuel: nat, more: nat)
    requires
        fuel <= more,
        m_own_fields(s, fs, fuel).1 != Err::<Seq<TyHirFieldV>, MplangErrorV>(too_deep()),
    ensures
        m_own_fields(s, fs, more) == m_own_fields(s, fs, fuel),
{
    reveal(m_own_fields);
    deep_members(s, fs, Seq::empty(), Seq::empty(), Seq::empty(), fuel, more);
}

proof fn deep_header(
    s: MonoState,
    params: Seq<TyHirParamV>,
    return_ty: HirTypeV,
    impl_receiver: Option<HirTypeV>,
    c: MonoScope,
    fuel: nat,
    more: nat,
)
    requires
        fuel <= more,
        m_header(s, params, return_ty, impl_receiver, c, fuel).1 != Err::<Header, MplangErrorV>(too_deep()),
    ensures
        m_header(s, params, return_ty, impl_receiver, c, more) == m_header(s, params, return_ty, impl_receiver, c, fuel),
{
    reveal(m_header);
    deep_params(s, params, c.generics, c.types, c.consts, 0, Seq::empty(), fuel, more);
    let p = m_params(s, params, c.generics, c.types, c.consts, 0, Seq::empty(), fuel);
    if p.1 is Ok {
        deep_type(p.0, return_ty, c.generics, c.types, c.consts, fuel, more);
        let r = m_type(p.0, return_ty, c.generics, c.types, c.consts, fuel);
        if r.1 is Ok {
            deep_opt_type(r.0, impl_receiver, c.generics, c.types, c.consts, fuel, more);
        }
    }
}

proof fn deep_targs(
    s: MonoState,
    tf: Seq<TypeOrConstV>,
    c: MonoScope,
    i: int,
    done: Seq<TypeOrConstV>,
    fuel: nat,
    more: nat,
)
    requires
        fuel <= more,
        m_targs(s, tf, c, i, done, fuel).1 != Err::<Seq<TypeOrConstV>, MplangErrorV>(too_deep()),
    ensures
        m_targs(s, tf, c, i, done, more) == m_targs(s, tf, c, i, done, fuel),
    decreases fuel, 3int, tf, tf.len() - i,
{
    if 0 <= i < tf.len() {
        match tf[i] {
            TypeOrConstV::Type(t) => {
                deep_type(s, t, c.generics, c.types, c.consts, fuel, more);
                let m = m_type(s, t, c.generics, c.types, c.consts, fuel);
                if let Ok(u) = m.1 {
                    deep_targs(m.0, tf, c, i + 1, done.push(TypeOrConstV::Type(u)), fuel, more);
                }
            },
            TypeOrConstV::ConstParam(k) => {
                if let Ok(v) = const_of(c.generics, c.consts, k) {
                    deep_targs(s, tf, c, i + 1, done.push(TypeOrConstV::Const(v)), fuel, more);
                }
            },
            TypeOrConstV::Const(_) => {
                deep_targs(s, tf, c, i + 1, done.push(tf[i]), fuel, more);
            },
        }
    }
}

proof fn deep_call(
    s: MonoState,
    callee: DefId,
    args: Seq<TyHirExprV>,
    tf: Seq<TypeOrConstV>,
    ret: HirTypeV,
    c: MonoScope,
    fuel: nat,
    more: nat,
)
    requires
        fuel <= more,
        m_call(s, callee, args, tf, ret, c, fuel).1 != Err::<TyHirExprV, MplangErrorV>(too_deep()),
    ensures
        m_call(s, callee, args, tf, ret, c, more) == m_call(s, callee, args, tf, ret, c, fuel),
    decreases fuel, 4int, args, 1int,
{
    match lookup(s.fns, callee) {
        Some(t) => {
            deep_targs(s, tf, c, 0, Seq::empty(), fuel, more);
            let g = m_targs(s, tf, c, 0, Seq::empty(), fuel);
            if let Ok(given) = g.1 {
                if let Ok(a) = m_infer(g.0.origins, t, args, given) {
                    if let Ok(ca) = const_args_in(c, a.1, 0, Seq::empty()) {
                        deep_instance_call(g.0, callee, t, a.0, ca, args, ret, fuel, more);
                    }
                }
            }
        },
        None => {
            deep_plain_call(s, callee, args, ret, c, fuel, more);
        },
    }
}

proof fn deep_instance_call(
    s: MonoState,
    callee: DefId,
    t: FnTemplateV,
    ta: Seq<HirTypeV>,
    ca: Seq<i64>,
    args: Seq<TyHirExprV>,
    ret: HirTypeV,
    fuel: nat,
    more: nat,
)
    requires
        fuel <= more,
        m_instance_call(s, callee, t, ta, ca, args, ret, fuel).1 != Err::<TyHirExprV, MplangErrorV>(too_deep()),
    ensures
        m_instance_call(s, callee, t, ta, ca, args, ret, more) == m_instance_call(s, callee, t, ta, ca, args, ret, fuel),
    decreases fuel, 4int, args, 0int,
{
    deep_fn(s, callee, t, ta, ca, fuel, more);
    let f = m_fn(s, callee, t, ta, ca, fuel);
    if f.1 is Ok {
        deep_type(f.0, ret, t.generics, ta, ca, fuel, more);
    }
}

proof fn deep_plain_call(
    s: MonoState,
    callee: DefId,
    args: Seq<TyHirExprV>,
    ret: HirTypeV,
    c: MonoScope,
    fuel: nat,
    more: nat,
)
    requires
        fuel <= more,
        m_plain_call(s, callee, args, ret, c, fuel).1 != Err::<TyHirExprV, MplangErrorV>(too_deep()),
    ensures
        m_plain_call(s, callee, args, ret, c, more) == m_plain_call(s, callee, args, ret, c, fuel),
    decreases fuel, 4int, args, 0int,
{
    deep_type(s, ret, c.generics, c.types, c.consts, fuel, more);
}

proof fn deep_expr(s: MonoState, e: TyHirExprV, c: MonoScope, fuel: nat, more: nat)
    requires
        fuel <= more,
        m_expr(s, e, c, fuel).1 != Err::<TyHirExprV, MplangErrorV>(too_deep()),
    ensures
        m_expr(s, e, c, more) == m_expr(s, e, c, fuel),
    decreases fuel, 5int, e, 1int,
{
    deep_type(s, e.ty, c.generics, c.types, c.consts, fuel, more);
    let m = m_type(s, e.ty, c.generics, c.types, c.consts, fuel);
    if let Ok(ty) = m.1 {
        deep_kind(m.0, e.kind, ty, c, fuel, more);
    }
}

proof fn deep_kind(
    s: MonoState,
    k: TyHirExprKindV,
    ty: HirTypeV,
    c: MonoScope,
    fuel: nat,
    more: nat,
)
    requires
        fuel <= more,
        m_kind(s, k, ty, c, fuel).1 != Err::<TyHirExprV, MplangErrorV>(too_deep()),
    ensures
        m_kind(s, k, ty, c, more) == m_kind(s, k, ty, c, fuel),
    decreases fuel, 5int, k, 0int,
{
    match k {
        TyHirExprKindV::Literal(_) => {},
        TyHirExprKindV::Path(_) => {},
        TyHirExprKindV::Binary { op, lhs, rhs } => {
            deep_expr(s, *lhs, c, fuel, more);
            let m = m_expr(s, *lhs, c, fuel);
            if m.1 is Ok {
                deep_expr(m.0, *rhs, c, fuel, more);
            }
        },
        TyHirExprKindV::Call { callee, args, turbofish } => {
            deep_exprs(s, args, c, 0, Seq::empty(), fuel, more);
            let m = m_exprs(s, args, c, 0, Seq::empty(), fuel);
            if let Ok(a) = m.1 {
                deep_call(m.0, callee, a, turbofish, ty, c, fuel, more);
            }
        },
        TyHirExprKindV::FieldAccess { object, field } => {
            deep_expr(s, *object, c, fuel, more);
        },
        TyHirExprKindV::StructLiteral { def_id, fields, turbofish } => {
            deep_inits(s, fields, c, 0, Seq::empty(), fuel, more);
        },
        TyHirExprKindV::ArrayLiteral { elements, repeat } => {
            deep_exprs(s, elements, c, 0, Seq::empty(), fuel, more);
        },
        TyHirExprKindV::Index { array, index } => {
            deep_expr(s, *array, c, fuel, more);
            let m = m_expr(s, *array, c, fuel);
            if m.1 is Ok {
                deep_expr(m.0, *index, c, fuel, more);
            }
        },
        TyHirExprKindV::AddressOf(x) => {
            deep_expr(s, *x, c, fuel, more);
        },
        TyHirExprKindV::Deref(x) => {
            deep_expr(s, *x, c, fuel, more);
        },
        TyHirExprKindV::Variant { def_id, variant, args, turbofish } => {
            deep_exprs(s, args, c, 0, Seq::empty(), fuel, more);
            let m = m_exprs(s, args, c, 0, Seq::empty(), fuel);
            if m.1 is Ok {
                deep_targs(m.0, turbofish, c, 0, Seq::empty(), fuel, more);
            }
        },
        TyHirExprKindV::Match { scrutinee, arms } => {
            deep_expr(s, *scrutinee, c, fuel, more);
            let m = m_expr(s, *scrutinee, c, fuel);
            if m.1 is Ok {
                deep_arms(m.0, arms, c, 0, Seq::empty(), fuel, more);
            }
        },
        TyHirExprKindV::TraitCast { value, trait_def } => {
            deep_expr(s, *value, c, fuel, more);
        },
        TyHirExprKindV::DynamicMethodCall { trait_def, method_index, receiver, args } => {
            deep_expr(s, *receiver, c, fuel, more);
            let m = m_expr(s, *receiver, c, fuel);
            if m.1 is Ok {
                deep_exprs(m.0, args, c, 0, Seq::empty(), fuel, more);
            }
        },
    }
}

proof fn deep_exprs(
    s: MonoState,
    es: Seq<TyHirExprV>,
    c: MonoScope,
    i: int,
    done: Seq<TyHirExprV>,
    fuel: nat,
    more: nat,
)
    requires
        fuel <= more,
        m_exprs(s, es, c, i, done, fuel).1 != Err::<Seq<TyHirExprV>, MplangErrorV>(too_deep()),
    ensures
        m_exprs(s, es, c, i, done, more) == m_exprs(s, es, c, i, done, fuel),
    decreases fuel, 5int, es, es.len() - i,
{
    if 0 <= i < es.len() {
        deep_expr(s, es[i], c, fuel, more);
        let m = m_expr(s, es[i], c, fuel);
        if let Ok(x) = m.1 {
            deep_exprs(m.0, es, c, i + 1, done.push(x), fuel, more);
        }
    }
}

proof fn deep_inits(
    s: MonoState,
    fs: Seq<(DefId, TyHirExprV)>,
    c: MonoScope,
    i: int,
    done: Seq<(DefId, TyHirExprV)>,
    fuel: nat,
    more: nat,
)
    requires
        fuel <= more,
        m_inits(s, fs, c, i, done, fuel).1 != Err::<Seq<(DefId, TyHirExprV)>, MplangErrorV>(too_deep()),
    ensures
        m_inits(s, fs, c, i, done, more) == m_inits(s, fs, c, i, done, fuel),
    decreases fuel, 5int, fs, fs.len() - i,
{
    if 0 <= i < fs.len() {
        deep_expr(s, fs[i].1, c, fuel, more);
        let m = m_expr(s, fs[i].1, c, fuel);
        if let Ok(x) = m.1 {
            deep_inits(m.0, fs, c, i + 1, done.push((fs[i].0, x)), fuel, more);
        }
    }
}

proof fn deep_bindings(
    s: MonoState,
    bs: Seq<(DefId, Option<HirTypeV>)>,
    c: MonoScope,
    i: int,
    done: Seq<(DefId, Option<HirTypeV>)>,
    fuel: nat,
    more: nat,
)
    requires
        fuel <= more,
        m_bindings(s, bs, c, i, done, fuel).1 != Err::<Seq<(DefId, Option<HirTypeV>)>, MplangErrorV>(too_deep()),
    ensures
        m_bindings(s, bs, c, i, done, more) == m_bindings(s, bs, c, i, done, fuel),
    decreases bs.len() - i,
{
    if 0 <= i < bs.len() {
        deep_opt_type(s, bs[i].1, c.generics, c.types, c.consts, fuel, more);
        let m = m_opt_type(s, bs[i].1, c.generics, c.types, c.consts, fuel);
        if let Ok(t) = m.1 {
            deep_bindings(m.0, bs, c, i + 1, done.push((bs[i].0, t)), fuel, more);
        }
    }
}

proof fn deep_pattern(s: MonoState, p: TyHirPatternV, c: MonoScope, fuel: nat, more: nat)
    requires
        fuel <= more,
        m_pattern(s, p, c, fuel).1 != Err::<TyHirPatternV, MplangErrorV>(too_deep()),
    ensures
        m_pattern(s, p, c, more) == m_pattern(s, p, c, fuel),
{
    reveal(m_pattern);
    if let TyHirPatternV::Variant { bindings, .. } = p {
        deep_bindings(s, bindings, c, 0, Seq::empty(), fuel, more);
    }
}

proof fn deep_arms(
    s: MonoState,
    arms: Seq<TyHirMatchArmV>,
    c: MonoScope,
    i: int,
    done: Seq<TyHirMatchArmV>,
    fuel: nat,
    more: nat,
)
    requires
        fuel <= more,
        m_arms(s, arms, c, i, done, fuel).1 != Err::<Seq<TyHirMatchArmV>, MplangErrorV>(too_deep()),
    ensures
        m_arms(s, arms, c, i, done, more) == m_arms(s, arms, c, i, done, fuel),
    decreases fuel, 5int, arms, arms.len() - i,
{
    if 0 <= i < arms.len() {
        deep_pattern(s, arms[i].pattern, c, fuel, more);
        let p = m_pattern(s, arms[i].pattern, c, fuel);
        if let Ok(pattern) = p.1 {
            deep_stmts(p.0, arms[i].body.stmts, c, 0, Seq::empty(), fuel, more);
            let m = m_stmts(p.0, arms[i].body.stmts, c, 0, Seq::empty(), fuel);
            if let Ok(x) = m.1 {
                let arm = TyHirMatchArmV { pattern, body: TyHirBodyV { stmts: x } };
                deep_arms(m.0, arms, c, i + 1, done.push(arm), fuel, more);
            }
        }
    }
}

proof fn deep_stmt(s: MonoState, st: TyHirStmtV, c: MonoScope, fuel: nat, more: nat)
    requires
        fuel <= more,
        m_stmt(s, st, c, fuel).1 != Err::<TyHirStmtV, MplangErrorV>(too_deep()),
    ensures
        m_stmt(s, st, c, more) == m_stmt(s, st, c, fuel),
    decreases fuel, 5int, st, 0int,
{
    match st {
        TyHirStmtV::Let { def_id, name, ty, init } => {
            deep_type(s, ty, c.generics, c.types, c.consts, fuel, more);
            let m = m_type(s, ty, c.generics, c.types, c.consts, fuel);
            if m.1 is Ok {
                deep_expr(m.0, init, c, fuel, more);
            }
        },
        TyHirStmtV::Assign { target, value } => {
            deep_expr(s, target, c, fuel, more);
            let m = m_expr(s, target, c, fuel);
            if m.1 is Ok {
                deep_expr(m.0, value, c, fuel, more);
            }
        },
        TyHirStmtV::Expr(e) => {
            deep_expr(s, e, c, fuel, more);
        },
        TyHirStmtV::If { cond, then_branch, else_branch } => {
            deep_expr(s, cond, c, fuel, more);
            let m = m_expr(s, cond, c, fuel);
            if m.1 is Ok {
                deep_stmts(m.0, then_branch.stmts, c, 0, Seq::empty(), fuel, more);
                let a = m_stmts(m.0, then_branch.stmts, c, 0, Seq::empty(), fuel);
                if a.1 is Ok {
                    if let Some(other) = else_branch {
                        deep_stmts(a.0, other.stmts, c, 0, Seq::empty(), fuel, more);
                    }
                }
            }
        },
        TyHirStmtV::While { cond, body } => {
            deep_expr(s, cond, c, fuel, more);
            let m = m_expr(s, cond, c, fuel);
            if m.1 is Ok {
                deep_stmts(m.0, body.stmts, c, 0, Seq::empty(), fuel, more);
            }
        },
        TyHirStmtV::Return(value) => {
            if let Some(e) = value {
                deep_expr(s, e, c, fuel, more);
            }
        },
    }
}

proof fn deep_stmts(
    s: MonoState,
    stmts: Seq<TyHirStmtV>,
    c: MonoScope,
    i: int,
    done: Seq<TyHirStmtV>,
    fuel: nat,
    more: nat,
)
    requires
        fuel <= more,
        m_stmts(s, stmts, c, i, done, fuel).1 != Err::<Seq<TyHirStmtV>, MplangErrorV>(too_deep()),
    ensures
        m_stmts(s, stmts, c, i, done, more) == m_stmts(s, stmts, c, i, done, fuel),
    decreases fuel, 5int, stmts, stmts.len() - i,
{
    if 0 <= i < stmts.len() {
        deep_stmt(s, stmts[i], c, fuel, more);
        let m = m_stmt(s, stmts[i], c, fuel);
        if let Ok(x) = m.1 {
            deep_stmts(m.0, stmts, c, i + 1, done.push(x), fuel, more);
        }
    }
}

proof fn deep_variants(
    s: MonoState,
    vs: Seq<TyHirEnumVariantV>,
    i: int,
    done: Seq<TyHirEnumVariantV>,
    fuel: nat,
    more: nat,
)
    requires
        fuel <= more,
        m_variants(s, vs, i, done, fuel).1 != Err::<Seq<TyHirEnumVariantV>, MplangErrorV>(too_deep()),
    ensures
        m_variants(s, vs, i, done, more) == m_variants(s, vs, i, done, fuel),
    decreases vs.len() - i,
{
    if 0 <= i < vs.len() {
        deep_own_fields(s, vs[i].fields, fuel, more);
        let m = m_own_fields(s, vs[i].fields, fuel);
        if let Ok(fs) = m.1 {
            let next = done.push(TyHirEnumVariantV { fields: fs, ..vs[i] });
            deep_variants(m.0, vs, i + 1, next, fuel, more);
        }
    }
}

proof fn deep_item(s: MonoState, item: TyHirItemV, fuel: nat, more: nat)
    requires
        fuel <= more,
        m_item(s, item, fuel).1 != Err::<TyHirItemV, MplangErrorV>(too_deep()),
    ensures
        m_item(s, item, more) == m_item(s, item, fuel),
    decreases item, 0int,
{
    match item {
        TyHirItemV::Module(m) => {
            deep_items(s, m.items, 0, Seq::empty(), fuel, more);
        },
        TyHirItemV::Fn { params, return_ty, body, impl_receiver, .. } => {
            let c = outer_scope();
            deep_stmts(s, body.stmts, c, 0, Seq::empty(), fuel, more);
            let b = m_stmts(s, body.stmts, c, 0, Seq::empty(), fuel);
            if b.1 is Ok {
                deep_header(b.0, params, return_ty, impl_receiver, c, fuel, more);
            }
        },
        TyHirItemV::Static { ty, init, .. } => {
            deep_type(s, ty, Seq::empty(), Seq::empty(), Seq::empty(), fuel, more);
            let m = m_type(s, ty, Seq::empty(), Seq::empty(), Seq::empty(), fuel);
            if m.1 is Ok {
                deep_expr(m.0, init, outer_scope(), fuel, more);
            }
        },
        TyHirItemV::Struct { fields, .. } => {
            deep_own_fields(s, fields, fuel, more);
        },
        TyHirItemV::ExternFn { param_types, return_ty, .. } => {
            deep_types(s, param_types, outer_scope(), 0, Seq::empty(), fuel, more);
            let m = m_types(s, param_types, outer_scope(), 0, Seq::empty(), fuel);
            if m.1 is Ok {
                deep_type(m.0, return_ty, Seq::empty(), Seq::empty(), Seq::empty(), fuel, more);
            }
        },
        TyHirItemV::Enum { generics, variants, .. } => {
            if generics.len() == 0 {
                deep_variants(s, variants, 0, Seq::empty(), fuel, more);
            }
        },
        TyHirItemV::VTable { .. } => {},
    }
}

proof fn deep_items(
    s: MonoState,
    items: Seq<TyHirItemV>,
    i: int,
    done: Seq<TyHirItemV>,
    fuel: nat,
    more: nat,
)
    requires
        fuel <= more,
        m_items(s, items, i, done, fuel).1 != Err::<Seq<TyHirItemV>, MplangErrorV>(too_deep()),
    ensures
        m_items(s, items, i, done, more) == m_items(s, items, i, done, fuel),
    decreases items, items.len() - i,
{
    if 0 <= i < items.len() {
        if is_template(items[i]) {
            deep_items(s, items, i + 1, done, fuel, more);
        } else {
            deep_item(s, items[i], fuel, more);
            let m = m_item(s, items[i], fuel);
            if let Ok(x) = m.1 {
                deep_items(m.0, items, i + 1, done.push(x), fuel, more);
            }
        }
    }
}

/// Where requests for instances nest no deeper than a limit allows, any larger
/// limit gives the same result.
pub proof fn law_larger_limit_changes_nothing(unit: TyHirCompilationUnitV, fuel: nat, more: nat)
    requires
        fuel <= more,
        expanded(unit, fuel) != Err::<TyHirCompilationUnitV, MplangErrorV>(too_deep()),
    ensures
        expanded(unit, more) == expanded(unit, fuel),
{
    let items = unit.root_module.items;
    let s = m_collect(empty_state((unit_max(unit) + 1) as u32), items, 0);
    if unit_max(unit) != u32::MAX {
        deep_items(s, items, 0, Seq::empty(), fuel, more);
    }
}

} // verus!

