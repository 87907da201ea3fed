//! What passes the checker is well typed.

use crate::ast::GenericParamV;
use crate::error::MplangErrorV;
use crate::hir::{
    ConstArg, DefId, HirCompilationUnitV, HirExprV, HirItemV, HirMatchArmV, HirModuleV, HirParamV,
    HirPatternV, HirStmtV, HirTypeV,
};
use crate::table::lookup;
use crate::tycheck::info::{EnumVariantInfoV, StructFieldInfoV};
use crate::tycheck::rules::{
    as_trait_object, c_arms, c_array, c_binary, c_call, c_callee, c_construct, c_elements,
    c_enum_match, c_enum_pattern, c_expr, c_exprs, c_field, c_fields, c_inits, c_int_match,
    c_int_pattern, c_item, c_items, c_match, c_method, c_method_args, c_method_call, c_module,
    c_path, c_pattern, c_stmt, c_stmts, c_struct, c_variant_args, check_args, check_covered,
    checked, collect_module, covers, declared_type, element_type, enter_params, field_named,
    field_of, generics_of, has_catch_all, instantiate, pointee, result_type, struct_infos,
    subst_type, subst_types, typed_param, typed_pattern, types_of, variant_for, CheckState,
    Subject,
};
use crate::tycheck::typing::{
    args_fit, bound, definitions, exhaustive, has_field, instance_of, made_from, ok_arms,
    ok_elements, ok_expr, ok_exprs, ok_init, ok_inits, ok_item, ok_items, ok_kind, ok_pattern,
    ok_stmt, ok_stmts, params_of, some_arm_for, some_catch_all, subject_of, vars_after,
    vars_after_all, vars_after_item, vars_after_items, with_params, Definitions,
};
use crate::tyhir::{
    TyHirExprKindV, TyHirExprV, TyHirItemV, TyHirMatchArmV, TyHirParamV, TyHirStmtV,
};
use vstd::prelude::*;

verus! {

/// A checked expression is well typed, and checking it leaves the variables
/// and the definitions alone.
spec fn sound(s: CheckState, r: (CheckState, Result<TyHirExprV, MplangErrorV>)) -> bool {
    r.1 is Ok ==> kept(s, r.0) && ok_expr(definitions(s), s.def_types, r.1->Ok_0)
}

/// The variables and the definitions are the same.
spec fn kept(s: CheckState, t: CheckState) -> bool {
    definitions(t) == definitions(s) && t.def_types == s.def_types
}

/// Every one of the expressions is well typed.
spec fn all_ok(g: Definitions, vars: Map<DefId, HirTypeV>, es: Seq<TyHirExprV>) -> bool {
    forall|j: int| 0 <= j < es.len() ==> ok_expr(g, vars, #[trigger] es[j])
}

proof fn lemma_all_ok(g: Definitions, vars: Map<DefId, HirTypeV>, es: Seq<TyHirExprV>, i: int)
    requires
        all_ok(g, vars, es),
    ensures
        ok_exprs(g, vars, es, i),
    decreases es.len() - i,
{
    if 0 <= i < es.len() {
        lemma_all_ok(g, vars, es, i + 1);
    }
}

proof fn lemma_elements_ok(
    g: Definitions,
    vars: Map<DefId, HirTypeV>,
    es: Seq<TyHirExprV>,
    ty: HirTypeV,
    i: int,
)
    requires
        all_ok(g, vars, es),
        ty is Array,
        forall|j: int| 0 <= j < es.len() ==> (#[trigger] es[j]).ty == *ty->Array_0,
    ensures
        ok_elements(g, vars, es, ty, i),
    decreases es.len() - i,
{
    if 0 <= i < es.len() {
        lemma_elements_ok(g, vars, es, ty, i + 1);
    }
}

// The rules that do not recurse

proof fn lemma_construct(
    s: CheckState,
    t: CheckState,
    d: DefId,
    variant: Seq<char>,
    ta: Seq<Option<HirTypeV>>,
    args: Seq<TyHirExprV>,
    turbofish: Seq<crate::hir::TypeOrConstV>,
)
    requires
        kept(s, t),
        variant_for(s, d, variant, args.len()) is Ok,
        all_ok(definitions(s), s.def_types, args),
    ensures
        sound(s, (t, c_construct(t, d, variant, ta, args, turbofish))),
{
    reveal(c_construct);
    reveal(variant_for);
    lemma_all_ok(definitions(s), s.def_types, args, 0);
}

proof fn lemma_path(s: CheckState, d: DefId)
    ensures
        sound(s, (s, c_path(s, d))),
{
    reveal(c_path);
    if let Some(v) = crate::tycheck::rules::variant_of_def(s, d) {
        if variant_for(s, v.0, v.1, 0) is Ok {
            lemma_construct(
                s,
                s,
                v.0,
                v.1,
                crate::tycheck::rules::unknown(generics_of(s, v.0).len()),
                Seq::empty(),
                Seq::empty(),
            );
        }
    }
}

proof fn lemma_field_named(fs: Seq<StructFieldInfoV>, name: Seq<char>, i: int)
    requires
        0 <= i,
    ensures
        field_named(fs, name, i) is Some ==> fs.contains(field_named(fs, name, i)->0),
    decreases fs.len() - i,
{
    if i < fs.len() {
        lemma_field_named(fs, name, i + 1);
    }
}

proof fn lemma_field_of(s: CheckState, d: DefId, name: Seq<char>)
    ensures
        field_of(s, d, name) is Ok ==> has_field(definitions(s), d, field_of(s, d, name)->Ok_0),
{
    reveal(field_of);
    if let Some(fs) = lookup(s.struct_fields, d) {
        lemma_field_named(fs, name, 0);
    }
}

proof fn lemma_field(s: CheckState, t: CheckState, o: TyHirExprV, name: Seq<char>)
    requires
        kept(s, t),
        ok_expr(definitions(s), s.def_types, o),
    ensures
        sound(s, (t, c_field(t, o, name))),
{
    reveal(c_field);
    match o.ty {
        HirTypeV::Named(d) => {
            lemma_field_of(t, d, name);
        },
        HirTypeV::Generic(d, ta, ca) => {
            lemma_field_of(t, d, name);
        },
        _ => {},
    }
}

proof fn lemma_inits_push(
    g: Definitions,
    vars: Map<DefId, HirTypeV>,
    d: DefId,
    ta: Seq<HirTypeV>,
    ca: Seq<ConstArg>,
    fs: Seq<(DefId, TyHirExprV)>,
    f: (DefId, TyHirExprV),
    i: int,
)
    requires
        0 <= i <= fs.len(),
        ok_inits(g, vars, d, ta, ca, fs, i),
        ok_expr(g, vars, f.1),
        ok_init(g, d, ta, ca, f.0, f.1.ty),
    ensures
        ok_inits(g, vars, d, ta, ca, fs.push(f), i),
    decreases fs.len() - i,
{
    if 0 <= i < fs.len() {
        lemma_inits_push(g, vars, d, ta, ca, fs, f, i + 1);
    } else {
        assert(ok_inits(g, vars, d, ta, ca, fs.push(f), i + 1));
    }
}

proof fn lemma_fields(
    s: CheckState,
    t: CheckState,
    d: DefId,
    ta: Seq<HirTypeV>,
    ca: Seq<ConstArg>,
    inits: Seq<(Seq<char>, TyHirExprV)>,
    i: int,
    done: Seq<(DefId, TyHirExprV)>,
)
    requires
        kept(s, t),
        0 <= i,
        forall|j: int| 0 <= j < inits.len() ==> ok_expr(
            definitions(s),
            s.def_types,
            (#[trigger] inits[j]).1,
        ),
        ok_inits(definitions(s), s.def_types, d, ta, ca, done, 0),
    ensures
        c_fields(t, d, generics_of(t, d), ta, ca, inits, i, done) matches Ok(fs) ==> ok_inits(definitions(s), s.def_types, d, ta, ca, fs, 0),
    decreases inits.len() - i,
{
    if i < inits.len() {
        let gs = generics_of(t, d);
        assert(gs == params_of(definitions(s), d));
        lemma_field_of(t, d, inits[i].0);
        if let Ok(info) = field_of(t, d, inits[i].0) {
            if let Ok(want) = declared_type(info, gs, ta, ca) {
                if inits[i].1.ty == want {
                    let f = (info.def_id, inits[i].1);
                    assert(ok_init(definitions(s), d, ta, ca, f.0, f.1.ty));
                    lemma_inits_push(definitions(s), s.def_types, d, ta, ca, done, f, 0);
                    lemma_fields(s, t, d, ta, ca, inits, i + 1, done.push(f));
                }
            }
        }
    }
}

proof fn lemma_struct(
    s: CheckState,
    t: CheckState,
    d: DefId,
    infos: Seq<StructFieldInfoV>,
    inits: Seq<(Seq<char>, TyHirExprV)>,
    turbofish: Seq<crate::hir::TypeOrConstV>,
)
    requires
        kept(s, t),
        forall|j: int| 0 <= j < inits.len() ==> ok_expr(
            definitions(s),
            s.def_types,
            (#[trigger] inits[j]).1,
        ),
    ensures
        sound(s, (t, c_struct(t, d, infos, inits, turbofish))),
{
    reveal(c_struct);
    let gs = generics_of(t, d);
    assert(gs == params_of(definitions(s), d));
    if gs.len() == 0 {
        lemma_fields(s, t, d, Seq::empty(), Seq::empty(), inits, 0, Seq::empty());
    } else {
        if let Ok(a) = crate::tycheck::rules::struct_args(
            crate::tycheck::rules::name_of(t, d),
            gs,
            turbofish,
            infos,
            inits,
        ) {
            lemma_fields(s, t, d, a.0, a.1, inits, 0, Seq::empty());
        }
    }
}

proof fn lemma_check_args(name: Seq<char>, args: Seq<TyHirExprV>, params: Seq<HirTypeV>, i: int)
    requires
        0 <= i,
        check_args(name, args, params, i) is Ok,
    ensures
        forall|j: int| i <= j < args.len() && j < params.len() ==> (#[trigger] args[j]).ty == params[j],
    decreases args.len() - i,
{
    if i < args.len() {
        lemma_check_args(name, args, params, i + 1);
    }
}

proof fn lemma_subst_types_len(
    ts: Seq<HirTypeV>,
    gs: Seq<GenericParamV>,
    ta: Seq<HirTypeV>,
    ca: Seq<ConstArg>,
    i: int,
    done: Seq<HirTypeV>,
)
    requires
        0 <= i <= ts.len(),
    ensures
        subst_types(ts, gs, ta, ca, i, done) matches Ok(us) ==> us.len() == done.len() + ts.len() - i,
    decreases ts.len() - i,
{
    if i < ts.len() {
        if let Ok(u) = subst_type(ts[i], gs, ta, ca) {
            lemma_subst_types_len(ts, gs, ta, ca, i + 1, done.push(u));
        }
    }
}

proof fn lemma_call(
    s: CheckState,
    t: CheckState,
    callee: DefId,
    args: Seq<TyHirExprV>,
    turbofish: Seq<crate::hir::TypeOrConstV>,
)
    requires
        kept(s, t),
        c_callee(s, callee, args.len()) is Ok,
        all_ok(definitions(s), s.def_types, args),
    ensures
        sound(s, (t, c_call(t, callee, c_callee(s, callee, args.len())->Ok_0, args, turbofish))),
{
    reveal(c_callee);
    reveal(c_call);
    let sig = c_callee(s, callee, args.len())->Ok_0;
    let name = crate::tycheck::rules::name_of(t, callee);
    let r = c_call(t, callee, sig, args, turbofish);
    lemma_all_ok(definitions(s), s.def_types, args, 0);
    assert(types_of(args).len() == args.len());
    assert(forall|j: int| 0 <= j < args.len() ==> types_of(args)[j] == (#[trigger] args[j]).ty);
    if r is Ok {
        if sig.generics.len() == 0 {
            lemma_check_args(name, args, sig.param_types, 0);
            assert(instance_of(sig, sig.param_types, sig.ret_ty));
            assert(args_fit(sig, sig.param_types, types_of(args)));
        } else {
            let a = crate::tycheck::rules::call_args(sig.generics, sig.param_types, turbofish, types_of(args))->Ok_0;
            let p = instantiate(sig.generics, sig.param_types, sig.ret_ty, turbofish, types_of(args))->Ok_0;
            lemma_check_args(name, args, p.0, 0);
            lemma_subst_types_len(sig.param_types, sig.generics, a.0, a.1, 0, Seq::empty());
            assert(made_from(sig, p.0, p.1, a.0, a.1));
            assert(instance_of(sig, p.0, p.1));
            assert(args_fit(sig, p.0, types_of(args)));
        }
    }
}

/// What a method gives its call: the receiver, then arguments of the types of
/// the parameters.
proof fn lemma_method(s: CheckState, t: CheckState, name: Seq<char>, n: nat, args: Seq<TyHirExprV>)
    requires
        kept(s, t),
        args.len() == n + 1,
        all_ok(definitions(s), s.def_types, args),
        c_method(s, args[0].ty, name, n) is Ok,
        forall|j: int| 1 <= j < args.len() ==> (#[trigger] args[j]).ty == c_method(s, args[0].ty, name, n)->Ok_0.1[j],
    ensures
        ok_kind(
            definitions(s),
            s.def_types,
            TyHirExprKindV::Call { callee: c_method(s, args[0].ty, name, n)->Ok_0.0, args, turbofish: Seq::empty() },
            c_method(s, args[0].ty, name, n)->Ok_0.2,
        ),
{
    reveal(c_method);
    let recv = args[0].ty;
    let m = c_method(s, recv, name, n)->Ok_0;
    lemma_all_ok(definitions(s), s.def_types, args, 0);
    assert(types_of(args).len() == args.len());
    assert(forall|j: int| 0 <= j < args.len() ==> #[trigger] types_of(args)[j] == args[j].ty);
    let sig = lookup(s.func_sigs, m.0)->0;
    match recv {
        HirTypeV::Generic(_, ta, ca) => {
            lemma_subst_types_len(sig.param_types, sig.generics, ta, ca, 0, Seq::empty());
            assert(made_from(sig, m.1, m.2, ta, ca));
        },
        HirTypeV::Enum(_, ta, ca) => {
            lemma_subst_types_len(sig.param_types, sig.generics, ta, ca, 0, Seq::empty());
            assert(made_from(sig, m.1, m.2, ta, ca));
        },
        _ => {},
    }
    assert(instance_of(sig, m.1, m.2));
    assert(args_fit(sig, m.1, types_of(args)));
}

proof fn lemma_pattern(s: CheckState, on: Subject, p: HirPatternV)
    ensures
        c_pattern(s, on, p).1 is Ok ==> definitions(c_pattern(s, on, p).0) == definitions(s) && ok_pattern(on, typed_pattern(p)) && c_pattern(s, on, p).0.def_types == bound(s.def_types, on, typed_pattern(p)),
{
    reveal(c_enum_pattern);
    reveal(c_int_pattern);
}

proof fn lemma_covers(arms: Seq<HirMatchArmV>, out: Seq<TyHirMatchArmV>, name: Seq<char>, i: int)
    requires
        0 <= i,
        out.len() == arms.len(),
        forall|j: int| 0 <= j < arms.len() ==> (#[trigger] out[j]).pattern == typed_pattern(arms[j].pattern),
        covers(arms, name, i),
    ensures
        some_arm_for(out, name),
    decreases arms.len() - i,
{
    if arms[i].pattern is Variant && arms[i].pattern->variant == name {
        assert(out[i].pattern is Variant);
    } else {
        lemma_covers(arms, out, name, i + 1);
    }
}

proof fn lemma_covered(
    s: CheckState,
    d: DefId,
    vs: Seq<EnumVariantInfoV>,
    arms: Seq<HirMatchArmV>,
    out: Seq<TyHirMatchArmV>,
    i: int,
)
    requires
        0 <= i,
        out.len() == arms.len(),
        forall|j: int| 0 <= j < arms.len() ==> (#[trigger] out[j]).pattern == typed_pattern(arms[j].pattern),
        check_covered(s, d, vs, arms, i) is Ok,
    ensures
        forall|k: int| i <= k < vs.len() ==> some_arm_for(out, (#[trigger] vs[k]).name),
    decreases vs.len() - i,
{
    if i < vs.len() {
        lemma_covers(arms, out, vs[i].name, 0);
        lemma_covered(s, d, vs, arms, out, i + 1);
    }
}

proof fn lemma_catch_all(arms: Seq<HirMatchArmV>, out: Seq<TyHirMatchArmV>, i: int)
    requires
        0 <= i,
        out.len() == arms.len(),
        forall|j: int| 0 <= j < arms.len() ==> (#[trigger] out[j]).pattern == typed_pattern(arms[j].pattern),
        has_catch_all(arms, i),
    ensures
        some_catch_all(out),
    decreases arms.len() - i,
{
    if arms[i].pattern is Wildcard || arms[i].pattern is Ident {
        assert(out[i].pattern is Wildcard || out[i].pattern is Ident);
    } else {
        lemma_catch_all(arms, out, i + 1);
    }
}

/// One arm of a match of type `ty` is well typed.
spec fn ok_arm(
    g: Definitions,
    vars: Map<DefId, HirTypeV>,
    on: Subject,
    arm: TyHirMatchArmV,
    ty: HirTypeV,
) -> bool {
    &&& ok_pattern(on, arm.pattern)
    &&& ok_stmts(g, bound(vars, on, arm.pattern), arm.body.stmts, HirTypeV::Unit, 0)
    &&& result_type(arm.body.stmts) == ty
}

proof fn lemma_arms_ok(
    g: Definitions,
    vars: Map<DefId, HirTypeV>,
    on: Subject,
    arms: Seq<TyHirMatchArmV>,
    ty: HirTypeV,
    i: int,
)
    requires
        forall|j: int| 0 <= j < arms.len() ==> ok_arm(g, vars, on, #[trigger] arms[j], ty),
    ensures
        ok_arms(g, vars, on, arms, ty, i),
    decreases arms.len() - i,
{
    if 0 <= i < arms.len() {
        lemma_arms_ok(g, vars, on, arms, ty, i + 1);
    }
}

proof fn lemma_stmts_push(
    g: Definitions,
    vars: Map<DefId, HirTypeV>,
    stmts: Seq<TyHirStmtV>,
    st: TyHirStmtV,
    ret: HirTypeV,
    i: int,
)
    requires
        0 <= i <= stmts.len(),
    ensures
        vars_after_all(vars, stmts.push(st), i) == vars_after(vars_after_all(vars, stmts, i), st),
        ok_stmts(g, vars, stmts, ret, i) && ok_stmt(g, vars_after_all(vars, stmts, i), st, ret) ==> ok_stmts(g, vars, stmts.push(st), ret, i),
    decreases stmts.len() - i,
{
    let more = stmts.push(st);
    if i < stmts.len() {
        lemma_stmts_push(g, vars_after(vars, stmts[i]), stmts, st, ret, i + 1);
        assert(more[i] == stmts[i]);
    } else {
        assert(more[i] == st);
        assert(vars_after_all(vars_after(vars, st), more, i + 1) == vars_after(vars, st));
        assert(ok_stmts(g, vars_after(vars, st), more, ret, i + 1));
    }
}

proof fn lemma_match_ok(
    g: Definitions,
    vars: Map<DefId, HirTypeV>,
    v: TyHirExprV,
    arms: Seq<TyHirMatchArmV>,
    ty: HirTypeV,
)
    requires
        ok_expr(g, vars, v),
        subject_of(g, v.ty) matches Some(on) && ok_arms(g, vars, on, arms, ty, 0) && exhaustive(on, arms) && (arms.len() == 0 ==> ty is Unit),
    ensures
        ok_expr(
            g,
            vars,
            TyHirExprV { ty, kind: TyHirExprKindV::Match { scrutinee: Box::new(v), arms } },
        ),
{
}

proof fn lemma_trait_object(
    g: Definitions,
    vars: Map<DefId, HirTypeV>,
    ty: Option<HirTypeV>,
    v: TyHirExprV,
)
    requires
        ok_expr(g, vars, v),
    ensures
        ok_expr(g, vars, as_trait_object(ty, v)),
{
    reveal_with_fuel(ok_expr, 3);
}

// The rules that recurse

#[verifier::spinoff_prover]
proof fn lemma_expr(s: CheckState, e: HirExprV)
    ensures
        sound(s, c_expr(s, e)),
    decreases e, 0int,
{
    match e {
        HirExprV::Literal(l) => {},
        HirExprV::Path(d) => {
            lemma_path(s, d);
        },
        HirExprV::Binary { op, lhs, rhs } => {
            reveal(c_binary);
            lemma_expr(s, *lhs);
            lemma_expr(c_expr(s, *lhs).0, *rhs);
        },
        HirExprV::MethodCall { object, name, args } => {
            lemma_expr(s, *object);
            if let Ok(o) = c_expr(s, *object).1 {
                lemma_method_call(s, c_expr(s, *object).0, o, name, args);
            }
        },
        HirExprV::Call { callee, args, turbofish } => {
            lemma_exprs(s, s, args, 0, Seq::empty());
            if let Ok(a) = c_exprs(s, args, 0, Seq::empty()).1 {
                if c_callee(s, callee, args.len()) is Ok {
                    lemma_call(s, c_exprs(s, args, 0, Seq::empty()).0, callee, a, turbofish);
                }
            }
        },
        HirExprV::FieldAccess { object, field } => {
            lemma_expr(s, *object);
            if let Ok(o) = c_expr(s, *object).1 {
                lemma_field(s, c_expr(s, *object).0, o, field);
            }
        },
        HirExprV::StructLiteral { def_id, fields, turbofish } => {
            lemma_inits(s, s, fields, 0, Seq::empty());
            if let Ok(infos) = struct_infos(s, def_id) {
                if let Ok(fs) = c_inits(s, fields, 0, Seq::empty()).1 {
                    lemma_struct(
                        s,
                        c_inits(s, fields, 0, Seq::empty()).0,
                        def_id,
                        infos,
                        fs,
                        turbofish,
                    );
                }
            }
        },
        HirExprV::ArrayLiteral { elements, repeat } => {
            reveal(c_array);
            lemma_elements(s, s, elements, 0, Seq::empty());
            if let Ok(es) = c_elements(s, elements, 0, Seq::empty()).1 {
                if let Ok(a) = c_array(es, elements.len(), repeat) {
                    lemma_elements_ok(definitions(s), s.def_types, es, a.ty, 0);
                }
            }
        },
        HirExprV::Index { array, index } => {
            reveal(element_type);
            lemma_expr(s, *array);
            lemma_expr(c_expr(s, *array).0, *index);
        },
        HirExprV::AddressOf(inner) => {
            lemma_expr(s, *inner);
        },
        HirExprV::Deref(inner) => {
            reveal(pointee);
            lemma_expr(s, *inner);
        },
        HirExprV::Variant { def_id, variant, args, turbofish } => {
            if let Ok(info) = variant_for(s, def_id, variant, args.len()) {
                let gs = generics_of(s, def_id);
                lemma_variant_args(
                    s,
                    s,
                    args,
                    info.fields,
                    gs,
                    0,
                    crate::tycheck::rules::unknown(gs.len()),
                    Seq::empty(),
                );
                let r = c_variant_args(
                    s,
                    args,
                    info.fields,
                    gs,
                    0,
                    crate::tycheck::rules::unknown(gs.len()),
                    Seq::empty(),
                );
                if let Ok(a) = r.1 {
                    lemma_construct(s, r.0, def_id, variant, a.0, a.1, turbofish);
                }
            }
        },
        HirExprV::Match { scrutinee, arms } => {
            lemma_expr(s, *scrutinee);
            if let Ok(v) = c_expr(s, *scrutinee).1 {
                lemma_match(s, c_expr(s, *scrutinee).0, v, arms);
            }
        },
    }
}

proof fn lemma_method_call(
    s: CheckState,
    t: CheckState,
    o: TyHirExprV,
    name: Seq<char>,
    args: Seq<HirExprV>,
)
    requires
        kept(s, t),
        ok_expr(definitions(s), s.def_types, o),
    ensures
        sound(s, c_method_call(t, o, name, args)),
    decreases args, args.len() + 1,
{
    if o.ty is TraitObject {
        lemma_exprs(s, t, args, 0, Seq::empty());
        if let Ok(a) = c_exprs(t, args, 0, Seq::empty()).1 {
            lemma_all_ok(definitions(s), s.def_types, a, 0);
        }
    } else {
        if let Ok(m) = c_method(t, o.ty, name, args.len()) {
            lemma_method_args(s, t, name, args, m.1, 0, seq![o]);
            if let Ok(a) = c_method_args(t, name, args, m.1, 0, seq![o]).1 {
                lemma_method(
                    t,
                    c_method_args(t, name, args, m.1, 0, seq![o]).0,
                    name,
                    args.len(),
                    a,
                );
            }
        }
    }
}

proof fn lemma_exprs(s: CheckState, t: CheckState, es: Seq<HirExprV>, i: int, done: Seq<TyHirExprV>)
    requires
        kept(s, t),
        0 <= i <= es.len(),
        all_ok(definitions(s), s.def_types, done),
    ensures
        c_exprs(t, es, i, done).1 matches Ok(r) ==> kept(s, c_exprs(t, es, i, done).0) && all_ok(definitions(s), s.def_types, r) && r.len() == done.len() + es.len() - i,
    decreases es, es.len() - i,
{
    if i < es.len() {
        lemma_expr(t, es[i]);
        if let Ok(e) = c_expr(t, es[i]).1 {
            lemma_exprs(s, c_expr(t, es[i]).0, es, i + 1, done.push(e));
        }
    }
}

proof fn lemma_elements(
    s: CheckState,
    t: CheckState,
    es: Seq<HirExprV>,
    i: int,
    done: Seq<TyHirExprV>,
)
    requires
        kept(s, t),
        0 <= i <= es.len(),
        all_ok(definitions(s), s.def_types, done),
        forall|j: int| 0 <= j < done.len() ==> (#[trigger] done[j]).ty == done[0].ty,
    ensures
        c_elements(t, es, i, done).1 matches Ok(r) ==> kept(s, c_elements(t, es, i, done).0) && all_ok(definitions(s), s.def_types, r) && r.len() == done.len() + es.len() - i && (forall|j: int| 0 <= j < r.len() ==> (#[trigger] r[j]).ty == r[0].ty),
    decreases es, es.len() - i,
{
    if i < es.len() {
        lemma_expr(t, es[i]);
        if let Ok(e) = c_expr(t, es[i]).1 {
            if done.len() == 0 || e.ty == done[0].ty {
                lemma_elements(s, c_expr(t, es[i]).0, es, i + 1, done.push(e));
            }
        }
    }
}

proof fn lemma_inits(
    s: CheckState,
    t: CheckState,
    fs: Seq<(Seq<char>, HirExprV)>,
    i: int,
    done: Seq<(Seq<char>, TyHirExprV)>,
)
    requires
        kept(s, t),
        0 <= i <= fs.len(),
        forall|j: int| 0 <= j < done.len() ==> ok_expr(
            definitions(s),
            s.def_types,
            (#[trigger] done[j]).1,
        ),
    ensures
        c_inits(t, fs, i, done).1 matches Ok(r) ==> kept(s, c_inits(t, fs, i, done).0) && (
            forall|j: int| 0 <= j < r.len() ==> ok_expr(
                definitions(s),
                s.def_types,
                (#[trigger] r[j]).1,
            )
        ),
    decreases fs, fs.len() - i,
{
    if i < fs.len() {
        lemma_expr(t, fs[i].1);
        if let Ok(e) = c_expr(t, fs[i].1).1 {
            lemma_inits(s, c_expr(t, fs[i].1).0, fs, i + 1, done.push((fs[i].0, e)));
        }
    }
}

proof fn lemma_method_args(
    s: CheckState,
    t: CheckState,
    name: Seq<char>,
    es: Seq<HirExprV>,
    params: Seq<HirTypeV>,
    i: int,
    done: Seq<TyHirExprV>,
)
    requires
        kept(s, t),
        0 <= i <= es.len(),
        done.len() == i + 1,
        all_ok(definitions(s), s.def_types, done),
        forall|j: int| 1 <= j < done.len() ==> (#[trigger] done[j]).ty == params[j],
    ensures
        c_method_args(t, name, es, params, i, done).1 matches Ok(r) ==> kept(s, c_method_args(t, name, es, params, i, done).0) && all_ok(definitions(s), s.def_types, r) && r.len() == es.len() + 1 && r[0] == done[0] && (forall|j: int| 1 <= j < r.len() ==> (#[trigger] r[j]).ty == params[j]),
    decreases es, es.len() - i,
{
    if i < es.len() {
        lemma_expr(t, es[i]);
        if let Ok(e) = c_expr(t, es[i]).1 {
            if e.ty == params[i + 1] {
                lemma_method_args(s, c_expr(t, es[i]).0, name, es, params, i + 1, done.push(e));
            }
        }
    }
}

proof fn lemma_variant_args(
    s: CheckState,
    t: CheckState,
    es: Seq<HirExprV>,
    fields: Seq<(Seq<char>, DefId, HirTypeV)>,
    gs: Seq<GenericParamV>,
    i: int,
    ta: Seq<Option<HirTypeV>>,
    done: Seq<TyHirExprV>,
)
    requires
        kept(s, t),
        0 <= i <= es.len(),
        all_ok(definitions(s), s.def_types, done),
    ensures
        c_variant_args(t, es, fields, gs, i, ta, done).1 matches Ok(r) ==> kept(s, c_variant_args(t, es, fields, gs, i, ta, done).0) && all_ok(definitions(s), s.def_types, r.1) && r.1.len() == done.len() + es.len() - i,
    decreases es, es.len() - i,
{
    if i < es.len() {
        lemma_expr(t, es[i]);
        if let Ok(e) = c_expr(t, es[i]).1 {
            if let Ok(next) = crate::tycheck::rules::unify(fields[i].2, e.ty, gs, ta) {
                lemma_variant_args(
                    s,
                    c_expr(t, es[i]).0,
                    es,
                    fields,
                    gs,
                    i + 1,
                    next,
                    done.push(e),
                );
            }
        }
    }
}

proof fn lemma_match(s: CheckState, t: CheckState, v: TyHirExprV, arms: Seq<HirMatchArmV>)
    requires
        kept(s, t),
        ok_expr(definitions(s), s.def_types, v),
    ensures
        sound(s, c_match(t, v, arms)),
    decreases arms, arms.len() + 2,
{
    match v.ty {
        HirTypeV::Enum(d, ta, ca) => {
            lemma_enum_match(s, t, d, ta, ca, arms);
            if let Ok(m) = c_enum_match(t, d, ta, ca, arms).1 {
                lemma_match_ok(definitions(s), s.def_types, v, m.1, m.0);
            }
        },
        HirTypeV::Int => {
            lemma_int_match(s, t, arms);
            if let Ok(m) = c_int_match(t, arms).1 {
                lemma_match_ok(definitions(s), s.def_types, v, m.1, m.0);
            }
        },
        _ => {},
    }
}

proof fn lemma_enum_match(
    s: CheckState,
    t: CheckState,
    d: DefId,
    ta: Seq<HirTypeV>,
    ca: Seq<ConstArg>,
    arms: Seq<HirMatchArmV>,
)
    requires
        kept(s, t),
    ensures
        c_enum_match(t, d, ta, ca, arms).1 matches Ok(m) ==> kept(s, c_enum_match(t, d, ta, ca, arms).0) && (subject_of(definitions(s), HirTypeV::Enum(d, ta, ca)) matches Some(on) && ok_arms(definitions(s), s.def_types, on, m.1, m.0, 0) && exhaustive(on, m.1) && (m.1.len() == 0 ==> m.0 is Unit)),
    decreases arms, arms.len() + 1,
{
    if let Some(vs) = crate::tycheck::rules::enum_of(t.enums, d, 0) {
        let on = Subject::Enum { def: d, variants: vs, generics: generics_of(t, d), types: ta, consts: ca };
        assert(subject_of(definitions(s), HirTypeV::Enum(d, ta, ca)) == Some(on));
        lemma_arms(s, t, on, arms, 0, None, Seq::empty());
        let r = c_arms(t, on, arms, 0, None, Seq::empty());
        if let Ok(m) = r.1 {
            lemma_arms_ok(
                definitions(s),
                s.def_types,
                on,
                m.1,
                crate::tycheck::rules::match_type(m.0),
                0,
            );
            if has_catch_all(arms, 0) {
                lemma_catch_all(arms, m.1, 0);
            } else if check_covered(r.0, d, vs, arms, 0) is Ok {
                lemma_covered(r.0, d, vs, arms, m.1, 0);
            }
        }
    }
}

proof fn lemma_int_match(s: CheckState, t: CheckState, arms: Seq<HirMatchArmV>)
    requires
        kept(s, t),
    ensures
        c_int_match(t, arms).1 matches Ok(m) ==> kept(s, c_int_match(t, arms).0) && ok_arms(definitions(s), s.def_types, Subject::Int, m.1, m.0, 0) && exhaustive(Subject::Int, m.1) && (m.1.len() == 0 ==> m.0 is Unit),
    decreases arms, arms.len() + 1,
{
    lemma_arms(s, t, Subject::Int, arms, 0, None, Seq::empty());
    if let Ok(m) = c_arms(t, Subject::Int, arms, 0, None, Seq::empty()).1 {
        lemma_arms_ok(
            definitions(s),
            s.def_types,
            Subject::Int,
            m.1,
            crate::tycheck::rules::match_type(m.0),
            0,
        );
        if has_catch_all(arms, 0) {
            lemma_catch_all(arms, m.1, 0);
        }
    }
}

/// What is known of the arms that were checked so far.
spec fn arms_so_far(
    s: CheckState,
    on: Subject,
    arms: Seq<HirMatchArmV>,
    n: int,
    result: Option<HirTypeV>,
    out: Seq<TyHirMatchArmV>,
) -> bool {
    &&& out.len() == n
    &&& result is None <==> n == 0
    &&& forall|j: int| 0 <= j < n ==> (#[trigger] out[j]).pattern == typed_pattern(arms[j].pattern) && ok_arm(definitions(s), s.def_types, on, out[j], result->0)
}

proof fn lemma_arms(
    s: CheckState,
    t: CheckState,
    on: Subject,
    arms: Seq<HirMatchArmV>,
    i: int,
    result: Option<HirTypeV>,
    done: Seq<TyHirMatchArmV>,
)
    requires
        kept(s, t),
        0 <= i <= arms.len(),
        arms_so_far(s, on, arms, i, result, done),
    ensures
        c_arms(t, on, arms, i, result, done).1 matches Ok(m) ==> kept(s, c_arms(t, on, arms, i, result, done).0) && arms_so_far(s, on, arms, arms.len() as int, m.0, m.1),
    decreases arms, arms.len() - i,
{
    if i < arms.len() {
        let p = c_pattern(t, on, arms[i].pattern);
        lemma_pattern(t, on, arms[i].pattern);
        if p.1 is Ok {
            lemma_stmts(p.0, p.0, arms[i].body.stmts, HirTypeV::Unit, 0, Seq::empty());
            let b = c_stmts(p.0, arms[i].body.stmts, HirTypeV::Unit, 0, Seq::empty());
            if let Ok(stmts) = b.1 {
                if let Ok(ty) = crate::tycheck::rules::join_result(result, result_type(stmts)) {
                    let arm = TyHirMatchArmV { pattern: typed_pattern(arms[i].pattern), body: crate::tyhir::TyHirBodyV { stmts } };
                    assert(ok_arm(definitions(s), s.def_types, on, arm, ty));
                    lemma_arms(
                        s,
                        CheckState { def_types: t.def_types, ..b.0 },
                        on,
                        arms,
                        i + 1,
                        Some(ty),
                        done.push(arm),
                    );
                }
            }
        }
    }
}

#[verifier::spinoff_prover]
proof fn lemma_stmt(s: CheckState, st: HirStmtV, ret: HirTypeV)
    ensures
        c_stmt(s, st, ret).1 matches Ok(t) ==> definitions(c_stmt(s, st, ret).0) == definitions(s) && ok_stmt(definitions(s), s.def_types, t, ret) && c_stmt(s, st, ret).0.def_types == vars_after(s.def_types, t),
    decreases st, 0int,
{
    match st {
        HirStmtV::Let { def_id, name, ty, init } => {
            let s1 = CheckState { expected: if ty is Some { ty } else { s.expected }, ..s };
            lemma_expr(s1, init);
            if let Ok(v) = c_expr(s1, init).1 {
                lemma_trait_object(definitions(s), s.def_types, ty, v);
            }
        },
        HirStmtV::Assign { target, value } => {
            lemma_expr(s, target);
            lemma_expr(c_expr(s, target).0, value);
        },
        HirStmtV::Expr(e) => {
            lemma_expr(s, e);
        },
        HirStmtV::If { cond, then_branch, else_branch } => {
            lemma_expr(s, cond);
            let s1 = c_expr(s, cond).0;
            lemma_stmts(s1, s1, then_branch.stmts, ret, 0, Seq::empty());
            let s2 = c_stmts(s1, then_branch.stmts, ret, 0, Seq::empty()).0;
            if let Some(other) = else_branch {
                lemma_stmts(s2, s2, other.stmts, ret, 0, Seq::empty());
            }
        },
        HirStmtV::While { cond, body } => {
            lemma_expr(s, cond);
            let s1 = c_expr(s, cond).0;
            lemma_stmts(s1, s1, body.stmts, ret, 0, Seq::empty());
        },
        HirStmtV::Return(value) => {
            if let Some(e) = value {
                lemma_expr(s, e);
            }
        },
    }
}

/// `s` is the state before the first of the statements, `t` that before
/// statement `i`.
proof fn lemma_stmts(
    s: CheckState,
    t: CheckState,
    stmts: Seq<HirStmtV>,
    ret: HirTypeV,
    i: int,
    done: Seq<TyHirStmtV>,
)
    requires
        0 <= i <= stmts.len(),
        definitions(t) == definitions(s),
        ok_stmts(definitions(s), s.def_types, done, ret, 0),
        t.def_types == vars_after_all(s.def_types, done, 0),
    ensures
        c_stmts(t, stmts, ret, i, done).1 matches Ok(r) ==> definitions(c_stmts(t, stmts, ret, i, done).0) == definitions(s) && ok_stmts(definitions(s), s.def_types, r, ret, 0) && c_stmts(t, stmts, ret, i, done).0.def_types == vars_after_all(s.def_types, r, 0),
    decreases stmts, stmts.len() - i,
{
    if i < stmts.len() {
        lemma_stmt(t, stmts[i], ret);
        if let Ok(st) = c_stmt(t, stmts[i], ret).1 {
            lemma_stmts_push(definitions(s), s.def_types, done, st, ret, 0);
            lemma_stmts(s, c_stmt(t, stmts[i], ret).0, stmts, ret, i + 1, done.push(st));
        }
    }
}

// Items

proof fn lemma_enter(s: CheckState, ps: Seq<HirParamV>, out: Seq<TyHirParamV>, i: int)
    requires
        0 <= i,
        out == ps.map_values(|p: HirParamV| typed_param(p)),
    ensures
        definitions(enter_params(s, ps, i)) == definitions(s),
        enter_params(s, ps, i).def_types == with_params(s.def_types, out, i),
    decreases ps.len() - i,
{
    if i < ps.len() {
        assert(out[i] == typed_param(ps[i]));
        lemma_enter(
            CheckState { def_types: s.def_types.insert(ps[i].def_id, ps[i].ty), names: s.names.insert(ps[i].def_id, ps[i].name), ..s },
            ps,
            out,
            i + 1,
        );
    }
}

proof fn lemma_items_push(
    g: Definitions,
    vars: Map<DefId, HirTypeV>,
    items: Seq<TyHirItemV>,
    item: TyHirItemV,
    i: int,
)
    requires
        0 <= i <= items.len(),
    ensures
        vars_after_items(vars, items.push(item), i) == vars_after_item(
            vars_after_items(vars, items, i),
            item,
        ),
        ok_items(g, vars, items, i) && ok_item(g, vars_after_items(vars, items, i), item) ==> ok_items(g, vars, items.push(item), i),
    decreases items.len() - i,
{
    let more = items.push(item);
    if i < items.len() {
        lemma_items_push(g, vars_after_item(vars, items[i]), items, item, i + 1);
        assert(more[i] == items[i]);
    } else {
        assert(more[i] == item);
        assert(
            vars_after_items(vars_after_item(vars, item), more, i + 1) == vars_after_item(vars, item)
        );
        assert(ok_items(g, vars_after_item(vars, item), more, i + 1));
    }
}

proof fn lemma_item(s: CheckState, item: HirItemV)
    ensures
        c_item(s, item).1 matches Ok(t) ==> definitions(c_item(s, item).0) == definitions(s) && ok_item(definitions(s), s.def_types, t) && c_item(s, item).0.def_types == vars_after_item(s.def_types, t),
    decreases item, 0int,
{
    match item {
        HirItemV::Module(m) => {
            lemma_module(s, m);
        },
        HirItemV::Fn { params, return_ty, body, .. } => {
            lemma_enter(s, params, params.map_values(|p: HirParamV| typed_param(p)), 0);
            let s1 = enter_params(s, params, 0);
            lemma_stmts(s1, s1, body.stmts, return_ty, 0, Seq::empty());
        },
        HirItemV::Static { init, .. } => {
            lemma_expr(s, init);
        },
        _ => {},
    }
}

proof fn lemma_items(
    s: CheckState,
    t: CheckState,
    items: Seq<HirItemV>,
    i: int,
    done: Seq<TyHirItemV>,
)
    requires
        0 <= i <= items.len(),
        definitions(t) == definitions(s),
        ok_items(definitions(s), s.def_types, done, 0),
        t.def_types == vars_after_items(s.def_types, done, 0),
    ensures
        c_items(t, items, i, done).1 matches Ok(r) ==> definitions(c_items(t, items, i, done).0) == definitions(s) && ok_items(definitions(s), s.def_types, r, 0) && c_items(t, items, i, done).0.def_types == vars_after_items(s.def_types, r, 0),
    decreases items, items.len() - i,
{
    if i < items.len() {
        lemma_item(t, items[i]);
        if let Ok(it) = c_item(t, items[i]).1 {
            lemma_items_push(definitions(s), s.def_types, done, it, 0);
            lemma_items(s, c_item(t, items[i]).0, items, i + 1, done.push(it));
        }
    }
}

proof fn lemma_module(s: CheckState, m: HirModuleV)
    ensures
        c_module(s, m).1 matches Ok(t) ==> definitions(c_module(s, m).0) == definitions(s) && ok_items(definitions(s), s.def_types, t.items, 0) && c_module(s, m).0.def_types == vars_after_items(s.def_types, t.items, 0),
    decreases m, 0int,
{
    lemma_items(s, s, m.items, 0, Seq::empty());
}

/// A program that passes the checker is well typed with respect to its own
/// definitions and global variables.
pub proof fn law_checked_is_well_typed(s: CheckState, unit: HirCompilationUnitV)
    requires
        checked(s, unit).1 is Ok,
    ensures
        ok_items(
            definitions(collect_module(s, unit.root_module).0),
            collect_module(s, unit.root_module).0.def_types,
            checked(s, unit).1->Ok_0.root_module.items,
            0,
        ),
{
    lemma_module(collect_module(s, unit.root_module).0, unit.root_module);
}

} // verus!

