//! What is well typed is accepted.

use crate::ast::GenericParamV;
use crate::error::MplangErrorV;
use crate::hir::{
    ConstArg, DefId, HirCompilationUnitV, HirExprV, HirFieldV, HirItemV, HirMatchArmV, HirParamV,
    HirPatternV, HirStmtV, HirEnumVariantV, HirTypeV, TypeOrConstV,
};
use crate::table::lookup;
use crate::tycheck::info::{EnumVariantInfoV, FuncSigV, StructFieldInfoV};
use crate::tycheck::rules::{
    as_trait_object, bind_fields, c_array, c_arms, c_binary, c_call, c_callee, c_construct,
    c_elements, c_enum_pattern, c_expr, c_exprs, c_field, c_fields, c_inits, c_int_pattern, c_item,
    c_items, c_match, c_method, c_method_args, c_method_call, c_module, c_path, c_pattern, c_stmt,
    c_stmts, c_struct, c_variant_args, check_args, check_covered, checked, collect_module, covers,
    element_type, enter_params, enum_of, enum_with, field_named, field_of, generics_of,
    has_catch_all, is_lvalue, known, pointee, struct_infos, subst_type, typed_field, typed_param,
    typed_pattern, typed_variant, unify, unify_all, unknown, variant_for, variant_named,
    variant_of_def, with_expected, CheckState, Subject,
};
use crate::tycheck::typing::{
    bound, definitions, exhaustive, has_field, ok_arms, ok_elements, ok_expr, ok_exprs, ok_field,
    ok_init, ok_inits, ok_item, ok_items, ok_kind, ok_pattern, ok_stmt, ok_stmts, params_of,
    some_arm_for, some_catch_all, subject_of, vars_after, vars_after_all, vars_after_item,
    vars_after_items, with_params, Definitions,
};
use crate::tyhir::{
    TyHirCompilationUnitV, TyHirExprKindV, TyHirExprV, TyHirItemV, TyHirMatchArmV, TyHirModuleV,
    TyHirParamV, TyHirStmtV,
};
use vstd::prelude::*;

verus! {

/// What names refer to.
#[verifier::ext_equal]
pub struct Known {
    pub g: Definitions,
    pub names: Map<DefId, Seq<char>>,
    pub methods: Map<(HirTypeV, Seq<char>), DefId>,
}

/// What names refer to for a checker.
pub open spec fn known_to(s: CheckState) -> Known {
    Known { g: definitions(s), names: s.names, methods: s.methods }
}

// Names

/// The enumeration and the variant that a name used as a value stands for.
pub open spec fn variant_of(w: Known, d: DefId) -> Option<(DefId, Seq<char>)> {
    match lookup(w.names, d) {
        None => None,
        Some(name) => match enum_with(w.g.enums, name, 0) {
            Some(e) => Some((e, name)),
            None => None,
        },
    }
}

/// Field `k` is the first of this name.
pub open spec fn first_named(fs: Seq<StructFieldInfoV>, name: Seq<char>, k: int) -> bool {
    &&& 0 <= k < fs.len()
    &&& fs[k].name == name
    &&& forall|j: int| 0 <= j < k ==> (#[trigger] fs[j]).name != name
}

/// The name stands for field `d`, which has a number of its own.
pub open spec fn finds(fs: Seq<StructFieldInfoV>, name: Seq<char>, d: DefId) -> bool {
    exists|k: int| #[trigger] first_named(fs, name, k) && fs[k].def_id == d && forall|j: int| 0 <= j < fs.len() && (#[trigger] fs[j]).def_id == d ==> j == k
}

/// The struct whose fields a value of this type has.
pub open spec fn owner_of(t: HirTypeV) -> Option<DefId> {
    match t {
        HirTypeV::Named(d) => Some(d),
        HirTypeV::Generic(d, _, _) => Some(d),
        _ => None,
    }
}

/// The arguments have the types of the parameters.
pub open spec fn takes(sig: FuncSigV, args: Seq<TyHirExprV>) -> bool {
    &&& if sig.is_variadic { sig.param_types.len() <= args.len() } else { sig.param_types.len() == args.len() }
    &&& forall|i: int| 0 <= i < sig.param_types.len() ==> (#[trigger] args[i]).ty == sig.param_types[i]
}

/// A type in which no generic parameter occurs.
pub open spec fn plain_type(t: HirTypeV) -> bool
    decreases t, 0int,
{
    match t {
        HirTypeV::Var(_) => false,
        HirTypeV::Pointer(e) => plain_type(*e),
        HirTypeV::Array(e, _) => plain_type(*e),
        HirTypeV::Generic(_, ts, _) => plain_types(ts, 0),
        HirTypeV::Enum(_, ts, _) => plain_types(ts, 0),
        _ => true,
    }
}

/// Types from `i` on in which no generic parameter occurs.
pub open spec fn plain_types(ts: Seq<HirTypeV>, i: int) -> bool
    decreases ts, ts.len() - i,
{
    i < 0 || i >= ts.len() || (plain_type(ts[i]) && plain_types(ts, i + 1))
}

/// An enumeration without generic parameters has this variant, with fields of plain
/// types.
pub open spec fn plain_variant(w: Known, d: DefId, variant: Seq<char>) -> bool {
    &&& params_of(w.g, d).len() == 0
    &&& enum_of(w.g.enums, d, 0) matches Some(vs) && variant_named(vs, variant, 0) matches Some(v) && forall|i: int| 0 <= i < v.fields.len() ==> plain_type((#[trigger] v.fields[i]).2)
}

/// The fields that a pattern binds have types.
pub open spec fn bindable(on: Subject, p: HirPatternV) -> bool {
    match (on, p) {
        (
            Subject::Enum { variants, generics, types, consts, .. },
            HirPatternV::Variant { variant, .. },
        ) => variant_named(variants, variant, 0) matches Some(v) ==> forall|i: int| 0 <= i < v.fields.len() ==> subst_type((#[trigger] v.fields[i]).2, generics, types, consts) is Ok,
        _ => true,
    }
}

// Typed forms

/// `e` is a typed form of `h`: the same expression, with a definition for each name. The
/// functions, structs and enumerations that it calls or makes values of have no generic
/// parameters.
pub open spec fn form_of(w: Known, h: HirExprV, e: TyHirExprV) -> bool
    decreases h, 0int,
{
    match h {
        HirExprV::Literal(l) => e.kind == TyHirExprKindV::Literal(l),
        HirExprV::Path(d) => match variant_of(w, d) {
            None => e.kind == TyHirExprKindV::Path(d),
            Some(v) => {
                &&& e.kind matches TyHirExprKindV::Variant { def_id, variant, args, turbofish }
                &&& def_id == v.0
                &&& variant == v.1
                &&& args.len() == 0
                &&& turbofish.len() == 0
                &&& plain_variant(w, v.0, v.1)
                &&& e.ty == HirTypeV::Enum(v.0, Seq::empty(), Seq::empty())
            },
        },
        HirExprV::Binary { op, lhs, rhs } => {
            &&& e.kind matches TyHirExprKindV::Binary { op: o, lhs: l, rhs: r }
            &&& o == op
            &&& form_of(w, *lhs, *l)
            &&& form_of(w, *rhs, *r)
        },
        HirExprV::Call { callee, args, turbofish } => {
            &&& e.kind matches TyHirExprKindV::Call { callee: c, args: a, turbofish: t }
            &&& c == callee
            &&& t == turbofish
            &&& a.len() == args.len()
            &&& form_exprs(w, args, a, 0)
            &&& lookup(w.g.func_sigs, callee) matches Some(sig)
            &&& sig.generics.len() == 0
            &&& takes(sig, a)
            &&& e.ty == sig.ret_ty
        },
        HirExprV::FieldAccess { object, field } => {
            &&& e.kind matches TyHirExprKindV::FieldAccess { object: o, field: f }
            &&& form_of(w, *object, *o)
            &&& owner_of(o.ty) matches Some(d)
            &&& w.g.struct_fields.dom().contains(d)
            &&& finds(w.g.struct_fields[d], field, f)
        },
        HirExprV::StructLiteral { def_id, fields, turbofish } => {
            &&& e.kind matches TyHirExprKindV::StructLiteral { def_id: d, fields: fs, turbofish: t }
            &&& d == def_id
            &&& t == turbofish
            &&& w.g.struct_fields.dom().contains(d)
            &&& params_of(w.g, d).len() == 0
            &&& fs.len() == fields.len()
            &&& form_inits(w, w.g.struct_fields[d], fields, fs, 0)
        },
        HirExprV::ArrayLiteral { elements, repeat } => {
            &&& e.kind matches TyHirExprKindV::ArrayLiteral { elements: es, repeat: r }
            &&& r == repeat
            &&& es.len() == elements.len()
            &&& form_exprs(w, elements, es, 0)
        },
        HirExprV::Index { array, index } => {
            &&& e.kind matches TyHirExprKindV::Index { array: a, index: i }
            &&& form_of(w, *array, *a)
            &&& form_of(w, *index, *i)
        },
        HirExprV::AddressOf(inner) => {
            &&& e.kind matches TyHirExprKindV::AddressOf(i)
            &&& is_lvalue(*inner)
            &&& form_of(w, *inner, *i)
        },
        HirExprV::Deref(inner) => {
            &&& e.kind matches TyHirExprKindV::Deref(i)
            &&& form_of(w, *inner, *i)
        },
        HirExprV::MethodCall { object, name, args } => match e.kind {
            TyHirExprKindV::DynamicMethodCall { trait_def, method_index, receiver, args: a } => {
                &&& method_index == 0
                &&& form_of(w, *object, *receiver)
                &&& a.len() == args.len()
                &&& form_exprs(w, args, a, 0)
            },
            TyHirExprKindV::Call { callee, args: a, turbofish } => {
                &&& a.len() == args.len() + 1
                &&& form_of(w, *object, a[0])
                &&& a[0].ty is Named
                &&& lookup(w.methods, (a[0].ty, name)) == Some(callee)
                &&& form_exprs(w, args, a.drop_first(), 0)
                &&& lookup(w.g.func_sigs, callee) matches Some(sig)
                &&& !sig.is_variadic
                &&& takes(sig, a)
                &&& e.ty == sig.ret_ty
                &&& turbofish.len() == 0
            },
            _ => false,
        },
        HirExprV::Variant { def_id, variant, args, turbofish } => {
            &&& e.kind matches TyHirExprKindV::Variant { def_id: d, variant: v, args: a, turbofish: t }
            &&& d == def_id
            &&& v == variant
            &&& t == turbofish
            &&& a.len() == args.len()
            &&& form_exprs(w, args, a, 0)
            &&& plain_variant(w, d, v)
            &&& e.ty == HirTypeV::Enum(d, Seq::empty(), Seq::empty())
        },
        HirExprV::Match { scrutinee, arms } => {
            &&& e.kind matches TyHirExprKindV::Match { scrutinee: v, arms: a }
            &&& form_of(w, *scrutinee, *v)
            &&& a.len() == arms.len()
            &&& subject_of(w.g, v.ty) matches Some(on)
            &&& form_arms(w, on, arms, a, 0)
        },
    }
}

/// The expressions from `i` on have these typed forms.
pub open spec fn form_exprs(w: Known, hs: Seq<HirExprV>, es: Seq<TyHirExprV>, i: int) -> bool
    decreases hs, hs.len() - i,
{
    i < 0 || i >= hs.len() || (form_of(w, hs[i], es[i]) && form_exprs(w, hs, es, i + 1))
}

/// The values of a struct literal from `i` on have these typed forms, and their names
/// stand for these fields.
pub open spec fn form_inits(
    w: Known,
    infos: Seq<StructFieldInfoV>,
    hs: Seq<(Seq<char>, HirExprV)>,
    fs: Seq<(DefId, TyHirExprV)>,
    i: int,
) -> bool
    decreases hs, hs.len() - i,
{
    i < 0 || i >= hs.len() || (finds(infos, hs[i].0, fs[i].0) && form_of(w, hs[i].1, fs[i].1) && form_inits(w, infos, hs, fs, i + 1))
}

/// The arms from `i` on have these typed forms.
pub open spec fn form_arms(
    w: Known,
    on: Subject,
    hs: Seq<HirMatchArmV>,
    arms: Seq<TyHirMatchArmV>,
    i: int,
) -> bool
    decreases hs, hs.len() - i,
{
    i < 0 || i >= hs.len() || {
        &&& arms[i].pattern == typed_pattern(hs[i].pattern)
        &&& bindable(on, hs[i].pattern)
        &&& arms[i].body.stmts.len() == hs[i].body.stmts.len()
        &&& form_stmts(w, hs[i].body.stmts, arms[i].body.stmts, 0)
        &&& form_arms(w, on, hs, arms, i + 1)
    }
}

/// `st` is a typed form of `h`. A `let` may leave its type out; where it is that of a
/// trait object, the address of a struct value becomes the object.
pub open spec fn form_stmt(w: Known, h: HirStmtV, st: TyHirStmtV) -> bool
    decreases h, 0int,
{
    match h {
        HirStmtV::Let { def_id, name, ty, init } => {
            &&& st matches TyHirStmtV::Let { def_id: d, name: n, ty: t, init: v }
            &&& d == def_id
            &&& n == name
            &&& ty is Some ==> ty == Some(t)
            &&& match (init, v.kind) {
                (
                    HirExprV::AddressOf(inner),
                    TyHirExprKindV::TraitCast { value, trait_def },
                ) => ty is Some && is_lvalue(*inner) && form_of(w, *inner, *value),
                _ => form_of(w, init, v),
            }
        },
        HirStmtV::Assign { target, value } => {
            &&& st matches TyHirStmtV::Assign { target: t, value: v }
            &&& is_lvalue(target)
            &&& form_of(w, target, t)
            &&& form_of(w, value, v)
        },
        HirStmtV::Expr(e) => {
            &&& st matches TyHirStmtV::Expr(v)
            &&& form_of(w, e, v)
        },
        HirStmtV::If { cond, then_branch, else_branch } => {
            &&& st matches TyHirStmtV::If { cond: c, then_branch: a, else_branch: b }
            &&& form_of(w, cond, c)
            &&& a.stmts.len() == then_branch.stmts.len()
            &&& form_stmts(w, then_branch.stmts, a.stmts, 0)
            &&& match else_branch {
                Some(other) => b is Some && b->0.stmts.len() == other.stmts.len() && form_stmts(w, other.stmts, b->0.stmts, 0),
                None => b is None,
            }
        },
        HirStmtV::While { cond, body } => {
            &&& st matches TyHirStmtV::While { cond: c, body: b }
            &&& form_of(w, cond, c)
            &&& b.stmts.len() == body.stmts.len()
            &&& form_stmts(w, body.stmts, b.stmts, 0)
        },
        HirStmtV::Return(value) => match value {
            Some(e) => st matches TyHirStmtV::Return(v) && v is Some && form_of(w, e, v->0),
            None => st == TyHirStmtV::Return(None),
        },
    }
}

/// The statements from `i` on have these typed forms.
pub open spec fn form_stmts(w: Known, hs: Seq<HirStmtV>, stmts: Seq<TyHirStmtV>, i: int) -> bool
    decreases hs, hs.len() - i,
{
    i < 0 || i >= hs.len() || (form_stmt(w, hs[i], stmts[i]) && form_stmts(w, hs, stmts, i + 1))
}

// Expressions

/// Checking went on; no variable came in.
spec fn same(s: CheckState, t: CheckState) -> bool {
    t == (CheckState { expected: t.expected, ..s })
}

/// Checking went on; variables came in.
spec fn moved(s: CheckState, t: CheckState) -> bool {
    t == (CheckState { expected: t.expected, def_types: t.def_types, ..s })
}

/// The expression is accepted with this typed form.
spec fn accepts(s: CheckState, h: HirExprV, e: TyHirExprV) -> bool {
    c_expr(s, h).1 == Ok::<TyHirExprV, MplangErrorV>(e) && same(s, c_expr(s, h).0)
}

proof fn lemma_finds(fs: Seq<StructFieldInfoV>, name: Seq<char>, i: int, k: int)
    requires
        0 <= i <= k,
        first_named(fs, name, k),
    ensures
        field_named(fs, name, i) == Some(fs[k]),
    decreases k - i,
{
    if i < k {
        lemma_finds(fs, name, i + 1, k);
    }
}

/// The field that a name stands for is found.
proof fn lemma_found(s: CheckState, d: DefId, name: Seq<char>, f: DefId) -> (info: StructFieldInfoV)
    requires
        s.struct_fields.dom().contains(d),
        finds(s.struct_fields[d], name, f),
    ensures
        field_of(s, d, name) == Ok::<StructFieldInfoV, MplangErrorV>(info),
        info.def_id == f,
        forall|other: StructFieldInfoV| #[trigger] has_field(definitions(s), d, other) && other.def_id == f ==> other == info,
{
    reveal(field_of);
    let fs = s.struct_fields[d];
    let k = choose|k: int| #[trigger] first_named(fs, name, k) && fs[k].def_id == f && forall|j: int| 0 <= j < fs.len() && (#[trigger] fs[j]).def_id == f ==> j == k;
    lemma_finds(fs, name, 0, k);
    assert forall|other: StructFieldInfoV| #[trigger] has_field(definitions(s), d, other) && other.def_id == f implies other == fs[k] by {
        let j = choose|j: int| 0 <= j < fs.len() && fs[j] == other;
        assert(fs[j].def_id == f);
    }
    fs[k]
}

proof fn lemma_args(name: Seq<char>, args: Seq<TyHirExprV>, ps: Seq<HirTypeV>, i: int)
    requires
        0 <= i,
        ps.len() <= args.len(),
        forall|j: int| 0 <= j < ps.len() ==> (#[trigger] args[j]).ty == ps[j],
    ensures
        check_args(name, args, ps, i) is Ok,
    decreases args.len() - i,
{
    if i < args.len() {
        lemma_args(name, args, ps, i + 1);
    }
}

proof fn lemma_unify(t: HirTypeV, actual: HirTypeV, gs: Seq<GenericParamV>, ta: Seq<Option<HirTypeV>>)
    requires
        plain_type(t),
    ensures
        unify(t, actual, gs, ta) == Ok::<Seq<Option<HirTypeV>>, MplangErrorV>(ta),
    decreases t, 0int,
{
    match t {
        HirTypeV::Pointer(e) => {
            if let HirTypeV::Pointer(a) = actual {
                lemma_unify(*e, *a, gs, ta);
            }
        },
        HirTypeV::Array(e, _) => {
            if let HirTypeV::Array(a, _) = actual {
                lemma_unify(*e, *a, gs, ta);
            }
        },
        HirTypeV::Generic(d, ts, _) => {
            if let HirTypeV::Generic(_, us, _) = actual {
                lemma_unify_all(ts, us, gs, 0, ta);
            }
        },
        HirTypeV::Enum(d, ts, _) => {
            if let HirTypeV::Enum(_, us, _) = actual {
                lemma_unify_all(ts, us, gs, 0, ta);
            }
        },
        _ => {},
    }
}

proof fn lemma_unify_all(
    ts: Seq<HirTypeV>,
    us: Seq<HirTypeV>,
    gs: Seq<GenericParamV>,
    i: int,
    ta: Seq<Option<HirTypeV>>,
)
    requires
        0 <= i,
        plain_types(ts, i),
    ensures
        unify_all(ts, us, gs, i, ta) == Ok::<Seq<Option<HirTypeV>>, MplangErrorV>(ta),
    decreases ts, ts.len() - i,
{
    if i < ts.len() && i < us.len() {
        lemma_unify(ts[i], us[i], gs, ta);
        lemma_unify_all(ts, us, gs, i + 1, ta);
    }
}

/// A value of an enumeration without generic parameters.
proof fn lemma_construct(
    s: CheckState,
    d: DefId,
    variant: Seq<char>,
    args: Seq<TyHirExprV>,
    turbofish: Seq<TypeOrConstV>,
)
    ensures
        c_construct(s, d, variant, Seq::empty(), args, turbofish) == Ok::<TyHirExprV, MplangErrorV>(
            TyHirExprV {
                ty: HirTypeV::Enum(d, Seq::empty(), Seq::empty()),
                kind: TyHirExprKindV::Variant { def_id: d, variant, args, turbofish },
            },
        ),
{
    reveal(c_construct);
    let all = with_expected(s, Seq::empty());
    assert(all =~= Seq::<Option<HirTypeV>>::empty());
    assert(known(all) =~= Seq::<HirTypeV>::empty());
}

proof fn lemma_path(s: CheckState, d: DefId, e: TyHirExprV)
    requires
        form_of(known_to(s), HirExprV::Path(d), e),
        ok_expr(definitions(s), s.def_types, e),
    ensures
        c_path(s, d) == Ok::<TyHirExprV, MplangErrorV>(e),
{
    reveal(c_path);
    reveal(variant_for);
    let w = known_to(s);
    assert(variant_of_def(s, d) == variant_of(w, d));
    if let Some(v) = variant_of(w, d) {
        let empty = Seq::<Option<HirTypeV>>::empty();
        assert(unknown::<HirTypeV>(generics_of(s, v.0).len()) =~= empty);
        assert(e.kind->Variant_args =~= Seq::empty());
        assert(e.kind->Variant_turbofish =~= Seq::empty());
        lemma_construct(s, v.0, v.1, Seq::empty(), Seq::empty());
    }
}

proof fn lemma_field(s: CheckState, o: TyHirExprV, name: Seq<char>, f: DefId, ty: HirTypeV)
    requires
        owner_of(o.ty) is Some,
        s.struct_fields.dom().contains(owner_of(o.ty)->0),
        finds(s.struct_fields[owner_of(o.ty)->0], name, f),
        ok_field(definitions(s), o.ty, f, ty),
    ensures
        c_field(s, o, name) == Ok::<TyHirExprV, MplangErrorV>(
            TyHirExprV { ty, kind: TyHirExprKindV::FieldAccess { object: Box::new(o), field: f } },
        ),
{
    reveal(c_field);
    let info = lemma_found(s, owner_of(o.ty)->0, name, f);
}

proof fn lemma_fields(
    s: CheckState,
    d: DefId,
    inits: Seq<(Seq<char>, TyHirExprV)>,
    fs: Seq<(DefId, TyHirExprV)>,
    vars: Map<DefId, HirTypeV>,
    i: int,
    done: Seq<(DefId, TyHirExprV)>,
)
    requires
        0 <= i <= fs.len(),
        inits.len() == fs.len(),
        forall|j: int| 0 <= j < fs.len() ==> (#[trigger] inits[j]).1 == fs[j].1 && finds(s.struct_fields[d], inits[j].0, fs[j].0),
        s.struct_fields.dom().contains(d),
        generics_of(s, d).len() == 0,
        ok_inits(definitions(s), vars, d, Seq::empty(), Seq::empty(), fs, i),
        done == fs.take(i),
    ensures
        c_fields(s, d, generics_of(s, d), Seq::empty(), Seq::empty(), inits, i, done) == Ok::<Seq<(DefId, TyHirExprV)>, MplangErrorV>(fs),
    decreases fs.len() - i,
{
    if i < fs.len() {
        assert(inits[i].1 == fs[i].1);
        let info = lemma_found(s, d, inits[i].0, fs[i].0);
        assert(ok_init(definitions(s), d, Seq::empty(), Seq::empty(), fs[i].0, fs[i].1.ty));
        assert(done.push((info.def_id, inits[i].1)) =~= fs.take(i + 1));
        lemma_fields(s, d, inits, fs, vars, i + 1, fs.take(i + 1));
    } else {
        assert(done =~= fs);
    }
}

/// A well-typed expression is accepted.
proof fn lemma_expr(s: CheckState, h: HirExprV, e: TyHirExprV)
    requires
        form_of(known_to(s), h, e),
        ok_expr(definitions(s), s.def_types, e),
    ensures
        accepts(s, h, e),
    decreases h, 1int,
{
    match h {
        HirExprV::Literal(_) => {},
        HirExprV::Path(d) => {
            lemma_path(s, d, e);
        },
        HirExprV::Binary { .. } => {
            lemma_binary_form(s, h, e);
        },
        HirExprV::Call { .. } => {
            lemma_call_form(s, h, e);
        },
        HirExprV::FieldAccess { .. } => {
            lemma_field_access_form(s, h, e);
        },
        HirExprV::StructLiteral { .. } => {
            lemma_struct_literal_form(s, h, e);
        },
        HirExprV::ArrayLiteral { .. } => {
            lemma_array_literal_form(s, h, e);
        },
        HirExprV::Index { .. } => {
            lemma_index_form(s, h, e);
        },
        HirExprV::AddressOf(_) => {
            lemma_address_of_form(s, h, e);
        },
        HirExprV::Deref(_) => {
            lemma_deref_form(s, h, e);
        },
        HirExprV::MethodCall { .. } => {
            lemma_method_call_form(s, h, e);
        },
        HirExprV::Variant { .. } => {
            lemma_variant_form(s, h, e);
        },
        HirExprV::Match { .. } => {
            lemma_match_form(s, h, e);
        },
    }
}

proof fn lemma_binary_form(s: CheckState, h: HirExprV, e: TyHirExprV)
    requires
        h is Binary,
        form_of(known_to(s), h, e),
        ok_expr(definitions(s), s.def_types, e),
    ensures
        accepts(s, h, e),
    decreases h, 0int,
{
    assert(ok_kind(definitions(s), s.def_types, e.kind, e.ty));
    let lhs = h->Binary_lhs;
    let rhs = h->Binary_rhs;
    reveal(c_binary);
    let l = *e.kind->Binary_lhs;
    let r = *e.kind->Binary_rhs;
    lemma_expr(s, *lhs, l);
    lemma_expr(c_expr(s, *lhs).0, *rhs, r);
}

proof fn lemma_call_form(s: CheckState, h: HirExprV, e: TyHirExprV)
    requires
        h is Call,
        form_of(known_to(s), h, e),
        ok_expr(definitions(s), s.def_types, e),
    ensures
        accepts(s, h, e),
    decreases h, 0int,
{
    assert(ok_kind(definitions(s), s.def_types, e.kind, e.ty));
    let w = known_to(s);
    let callee = h->Call_callee;
    let args = h->Call_args;
    reveal(c_call);
    reveal(c_callee);
    let a = e.kind->Call_args;
    let sig = lookup(w.g.func_sigs, callee)->0;
    lemma_exprs(s, args, a, 0, Seq::empty());
    let s1 = c_exprs(s, args, 0, Seq::empty()).0;
    lemma_args(crate::tycheck::rules::name_of(s1, callee), a, sig.param_types, 0);
}

proof fn lemma_field_access_form(s: CheckState, h: HirExprV, e: TyHirExprV)
    requires
        h is FieldAccess,
        form_of(known_to(s), h, e),
        ok_expr(definitions(s), s.def_types, e),
    ensures
        accepts(s, h, e),
    decreases h, 0int,
{
    assert(ok_kind(definitions(s), s.def_types, e.kind, e.ty));
    let object = h->FieldAccess_object;
    let field = h->FieldAccess_field;
    let o = *e.kind->FieldAccess_object;
    lemma_expr(s, *object, o);
    lemma_field(c_expr(s, *object).0, o, field, e.kind->FieldAccess_field, e.ty);
}

proof fn lemma_struct_literal_form(s: CheckState, h: HirExprV, e: TyHirExprV)
    requires
        h is StructLiteral,
        form_of(known_to(s), h, e),
        ok_expr(definitions(s), s.def_types, e),
    ensures
        accepts(s, h, e),
    decreases h, 0int,
{
    assert(ok_kind(definitions(s), s.def_types, e.kind, e.ty));
    let def_id = h->StructLiteral_def_id;
    let fields = h->StructLiteral_fields;
    reveal(struct_infos);
    reveal(c_struct);
    let fs = e.kind->StructLiteral_fields;
    let a = lemma_inits(s, def_id, fields, fs, 0, Seq::empty());
    let s1 = c_inits(s, fields, 0, Seq::empty()).0;
    assert(fs.take(0) =~= Seq::empty());
    lemma_fields(s1, def_id, a, fs, s.def_types, 0, Seq::empty());
}

proof fn lemma_array_literal_form(s: CheckState, h: HirExprV, e: TyHirExprV)
    requires
        h is ArrayLiteral,
        form_of(known_to(s), h, e),
        ok_expr(definitions(s), s.def_types, e),
    ensures
        accepts(s, h, e),
    decreases h, 0int,
{
    assert(ok_kind(definitions(s), s.def_types, e.kind, e.ty));
    let elements = h->ArrayLiteral_elements;
    reveal(c_array);
    let es = e.kind->ArrayLiteral_elements;
    lemma_elements(s, elements, es, e.ty, 0, Seq::empty());
}

proof fn lemma_index_form(s: CheckState, h: HirExprV, e: TyHirExprV)
    requires
        h is Index,
        form_of(known_to(s), h, e),
        ok_expr(definitions(s), s.def_types, e),
    ensures
        accepts(s, h, e),
    decreases h, 0int,
{
    assert(ok_kind(definitions(s), s.def_types, e.kind, e.ty));
    let array = h->Index_array;
    let index = h->Index_index;
    reveal(element_type);
    lemma_expr(s, *array, *e.kind->Index_array);
    lemma_expr(c_expr(s, *array).0, *index, *e.kind->Index_index);
}

proof fn lemma_address_of_form(s: CheckState, h: HirExprV, e: TyHirExprV)
    requires
        h is AddressOf,
        form_of(known_to(s), h, e),
        ok_expr(definitions(s), s.def_types, e),
    ensures
        accepts(s, h, e),
    decreases h, 0int,
{
    assert(ok_kind(definitions(s), s.def_types, e.kind, e.ty));
    let inner = h->AddressOf_0;
    lemma_expr(s, *inner, *e.kind->AddressOf_0);
}

proof fn lemma_deref_form(s: CheckState, h: HirExprV, e: TyHirExprV)
    requires
        h is Deref,
        form_of(known_to(s), h, e),
        ok_expr(definitions(s), s.def_types, e),
    ensures
        accepts(s, h, e),
    decreases h, 0int,
{
    assert(ok_kind(definitions(s), s.def_types, e.kind, e.ty));
    let inner = h->Deref_0;
    reveal(pointee);
    lemma_expr(s, *inner, *e.kind->Deref_0);
}

proof fn lemma_method_call_form(s: CheckState, h: HirExprV, e: TyHirExprV)
    requires
        h is MethodCall,
        form_of(known_to(s), h, e),
        ok_expr(definitions(s), s.def_types, e),
    ensures
        accepts(s, h, e),
    decreases h, 0int,
{
    assert(ok_kind(definitions(s), s.def_types, e.kind, e.ty));
    let w = known_to(s);
    let object = h->MethodCall_object;
    let name = h->MethodCall_name;
    let args = h->MethodCall_args;
    reveal(c_method);
    if e.kind is DynamicMethodCall {
        let o = *e.kind->receiver;
        lemma_expr(s, *object, o);
        let s1 = c_expr(s, *object).0;
        lemma_exprs(s1, args, e.kind->DynamicMethodCall_args, 0, Seq::empty());
        assert(c_method_call(s1, o, name, args).1 == Ok::<TyHirExprV, MplangErrorV>(e));
    } else {
        let a = e.kind->Call_args;
        let sig = lookup(w.g.func_sigs, e.kind->callee)->0;
        lemma_expr(s, *object, a[0]);
        assert(e.kind->Call_turbofish =~= Seq::empty());
        let s1 = c_expr(s, *object).0;
        lemma_method_args(s1, name, args, a, sig.param_types, 0, seq![a[0]]);
        assert(c_method(s1, a[0].ty, name, args.len()) == Ok::<(DefId, Seq<HirTypeV>, HirTypeV), MplangErrorV>((e.kind->callee, sig.param_types, sig.ret_ty)));
        assert(c_method_call(s1, a[0], name, args).1 == Ok::<TyHirExprV, MplangErrorV>(e));
    }
}

proof fn lemma_variant_form(s: CheckState, h: HirExprV, e: TyHirExprV)
    requires
        h is Variant,
        form_of(known_to(s), h, e),
        ok_expr(definitions(s), s.def_types, e),
    ensures
        accepts(s, h, e),
    decreases h, 0int,
{
    assert(ok_kind(definitions(s), s.def_types, e.kind, e.ty));
    let def_id = h->Variant_def_id;
    let variant = h->Variant_variant;
    let args = h->Variant_args;
    let turbofish = h->Variant_turbofish;
    reveal(variant_for);
    let a = e.kind->Variant_args;
    let v = variant_for(s, def_id, variant, args.len())->Ok_0;
    let empty = Seq::<Option<HirTypeV>>::empty();
    assert(unknown::<HirTypeV>(generics_of(s, def_id).len()) =~= empty);
    lemma_variant_args(s, args, a, v.fields, generics_of(s, def_id), 0, empty, Seq::empty());
    let s1 = c_variant_args(s, args, v.fields, generics_of(s, def_id), 0, empty, Seq::empty()).0;
    lemma_construct(s1, def_id, variant, a, turbofish);
}

proof fn lemma_match_form(s: CheckState, h: HirExprV, e: TyHirExprV)
    requires
        h is Match,
        form_of(known_to(s), h, e),
        ok_expr(definitions(s), s.def_types, e),
    ensures
        accepts(s, h, e),
    decreases h, 0int,
{
    assert(ok_kind(definitions(s), s.def_types, e.kind, e.ty));
    let scrutinee = h->Match_scrutinee;
    let arms = h->Match_arms;
    let v = *e.kind->Match_scrutinee;
    lemma_expr(s, *scrutinee, v);
    lemma_match(c_expr(s, *scrutinee).0, v, arms, e);
}

proof fn lemma_exprs(
    s: CheckState,
    hs: Seq<HirExprV>,
    es: Seq<TyHirExprV>,
    i: int,
    done: Seq<TyHirExprV>,
)
    requires
        0 <= i <= hs.len(),
        es.len() == hs.len(),
        form_exprs(known_to(s), hs, es, i),
        ok_exprs(definitions(s), s.def_types, es, i),
        done =~= es.take(i),
    ensures
        c_exprs(s, hs, i, done).1 == Ok::<Seq<TyHirExprV>, MplangErrorV>(es),
        same(s, c_exprs(s, hs, i, done).0),
    decreases hs, hs.len() - i,
{
    if i < hs.len() {
        lemma_expr(s, hs[i], es[i]);
        assert(done.push(es[i]) =~= es.take(i + 1));
        lemma_exprs(c_expr(s, hs[i]).0, hs, es, i + 1, done.push(es[i]));
    } else {
        assert(done =~= es);
    }
}

proof fn lemma_elements(
    s: CheckState,
    hs: Seq<HirExprV>,
    es: Seq<TyHirExprV>,
    ty: HirTypeV,
    i: int,
    done: Seq<TyHirExprV>,
)
    requires
        0 <= i <= hs.len(),
        es.len() == hs.len(),
        form_exprs(known_to(s), hs, es, i),
        ok_elements(definitions(s), s.def_types, es, ty, i),
        i > 0 ==> es[0].ty == *ty->Array_0,
        done =~= es.take(i),
    ensures
        c_elements(s, hs, i, done).1 == Ok::<Seq<TyHirExprV>, MplangErrorV>(es),
        same(s, c_elements(s, hs, i, done).0),
    decreases hs, hs.len() - i,
{
    if i < hs.len() {
        lemma_expr(s, hs[i], es[i]);
        assert(done.push(es[i]) =~= es.take(i + 1));
        if i > 0 {
            assert(done[0] == es[0]);
        }
        lemma_elements(c_expr(s, hs[i]).0, hs, es, ty, i + 1, done.push(es[i]));
    } else {
        assert(done =~= es);
    }
}

proof fn lemma_inits(
    s: CheckState,
    d: DefId,
    hs: Seq<(Seq<char>, HirExprV)>,
    fs: Seq<(DefId, TyHirExprV)>,
    i: int,
    done: Seq<(Seq<char>, TyHirExprV)>,
) -> (r: Seq<(Seq<char>, TyHirExprV)>)
    requires
        0 <= i <= hs.len(),
        fs.len() == hs.len(),
        form_inits(known_to(s), s.struct_fields[d], hs, fs, i),
        ok_inits(definitions(s), s.def_types, d, Seq::empty(), Seq::empty(), fs, i),
        done.len() == i,
        forall|j: int| 0 <= j < i ==> (#[trigger] done[j]).1 == fs[j].1 && finds(s.struct_fields[d], done[j].0, fs[j].0),
    ensures
        c_inits(s, hs, i, done).1 == Ok::<Seq<(Seq<char>, TyHirExprV)>, MplangErrorV>(r),
        same(s, c_inits(s, hs, i, done).0),
        r.len() == fs.len(),
        forall|j: int| 0 <= j < fs.len() ==> (#[trigger] r[j]).1 == fs[j].1 && finds(s.struct_fields[d], r[j].0, fs[j].0),
    decreases hs, hs.len() - i,
{
    if i < hs.len() {
        lemma_expr(s, hs[i].1, fs[i].1);
        lemma_inits(c_expr(s, hs[i].1).0, d, hs, fs, i + 1, done.push((hs[i].0, fs[i].1)))
    } else {
        done
    }
}

proof fn lemma_variant_args(
    s: CheckState,
    hs: Seq<HirExprV>,
    es: Seq<TyHirExprV>,
    fields: Seq<(Seq<char>, DefId, HirTypeV)>,
    gs: Seq<GenericParamV>,
    i: int,
    ta: Seq<Option<HirTypeV>>,
    done: Seq<TyHirExprV>,
)
    requires
        0 <= i <= hs.len(),
        es.len() == hs.len(),
        fields.len() == hs.len(),
        forall|j: int| 0 <= j < fields.len() ==> plain_type((#[trigger] fields[j]).2),
        form_exprs(known_to(s), hs, es, i),
        ok_exprs(definitions(s), s.def_types, es, i),
        done =~= es.take(i),
    ensures
        c_variant_args(s, hs, fields, gs, i, ta, done).1 == Ok::<(Seq<Option<HirTypeV>>, Seq<TyHirExprV>), MplangErrorV>((ta, es)),
        same(s, c_variant_args(s, hs, fields, gs, i, ta, done).0),
    decreases hs, hs.len() - i,
{
    if i < hs.len() {
        lemma_expr(s, hs[i], es[i]);
        lemma_unify(fields[i].2, es[i].ty, gs, ta);
        assert(done.push(es[i]) =~= es.take(i + 1));
        lemma_variant_args(c_expr(s, hs[i]).0, hs, es, fields, gs, i + 1, ta, done.push(es[i]));
    } else {
        assert(done =~= es);
    }
}

proof fn lemma_method_args(
    s: CheckState,
    name: Seq<char>,
    hs: Seq<HirExprV>,
    a: Seq<TyHirExprV>,
    ps: Seq<HirTypeV>,
    i: int,
    done: Seq<TyHirExprV>,
)
    requires
        0 <= i <= hs.len(),
        a.len() == hs.len() + 1,
        ps.len() == a.len(),
        forall|j: int| 0 <= j < ps.len() ==> (#[trigger] a[j]).ty == ps[j],
        form_exprs(known_to(s), hs, a.drop_first(), i),
        ok_exprs(definitions(s), s.def_types, a, i + 1),
        done =~= a.take(i + 1),
    ensures
        c_method_args(s, name, hs, ps, i, done).1 == Ok::<Seq<TyHirExprV>, MplangErrorV>(a),
        same(s, c_method_args(s, name, hs, ps, i, done).0),
    decreases hs, hs.len() - i,
{
    if i < hs.len() {
        assert(a.drop_first()[i] == a[i + 1]);
        lemma_expr(s, hs[i], a[i + 1]);
        assert(done.push(a[i + 1]) =~= a.take(i + 2));
        lemma_method_args(c_expr(s, hs[i]).0, name, hs, a, ps, i + 1, done.push(a[i + 1]));
    } else {
        assert(done =~= a);
    }
}

// Matches

proof fn lemma_bind(
    types: Map<DefId, HirTypeV>,
    bs: Seq<(DefId, Option<HirTypeV>)>,
    fields: Seq<(Seq<char>, DefId, HirTypeV)>,
    gs: Seq<GenericParamV>,
    ta: Seq<HirTypeV>,
    ca: Seq<ConstArg>,
    i: int,
)
    requires
        0 <= i,
        bs.len() == fields.len(),
        forall|j: int| 0 <= j < fields.len() ==> subst_type((#[trigger] fields[j]).2, gs, ta, ca) is Ok,
    ensures
        bind_fields(types, bs, fields, gs, ta, ca, i).1 is Ok,
    decreases bs.len() - i,
{
    if i < bs.len() {
        lemma_bind(types.insert(bs[i].0, subst_type(fields[i].2, gs, ta, ca)->Ok_0), bs, fields, gs, ta, ca, i + 1);
    }
}

/// A pattern that fits is accepted, and binds its variables.
proof fn lemma_pattern(s: CheckState, on: Subject, h: HirPatternV)
    requires
        ok_pattern(on, typed_pattern(h)),
        bindable(on, h),
    ensures
        c_pattern(s, on, h).1 is Ok,
        c_pattern(s, on, h).0 == (CheckState { def_types: bound(s.def_types, on, typed_pattern(h)), ..s }),
{
    reveal(c_enum_pattern);
    reveal(c_int_pattern);
    if let Subject::Enum { variants, generics, types, consts, .. } = on {
        if let HirPatternV::Variant { variant, bindings, .. } = h {
            let v = variant_named(variants, variant, 0)->0;
            lemma_bind(s.def_types, bindings, v.fields, generics, types, consts, 0);
        }
    }
}

proof fn lemma_catch_all(hs: Seq<HirMatchArmV>, i: int, k: int)
    requires
        0 <= i <= k < hs.len(),
        hs[k].pattern is Wildcard || hs[k].pattern is Ident,
    ensures
        has_catch_all(hs, i),
    decreases k - i,
{
    if i < k {
        lemma_catch_all(hs, i + 1, k);
    }
}

proof fn lemma_covers(hs: Seq<HirMatchArmV>, name: Seq<char>, i: int, k: int)
    requires
        0 <= i <= k < hs.len(),
        hs[k].pattern is Variant,
        hs[k].pattern->variant == name,
    ensures
        covers(hs, name, i),
    decreases k - i,
{
    if i < k {
        lemma_covers(hs, name, i + 1, k);
    }
}

proof fn lemma_covered(
    s: CheckState,
    d: DefId,
    vs: Seq<EnumVariantInfoV>,
    hs: Seq<HirMatchArmV>,
    i: int,
)
    requires
        0 <= i,
        forall|k: int| 0 <= k < vs.len() ==> covers(hs, (#[trigger] vs[k]).name, 0),
    ensures
        check_covered(s, d, vs, hs, i) is Ok,
    decreases vs.len() - i,
{
    if i < vs.len() {
        lemma_covered(s, d, vs, hs, i + 1);
    }
}

/// Arms that match every value are seen to do so.
proof fn lemma_exhaustive(
    s: CheckState,
    d: DefId,
    on: Subject,
    hs: Seq<HirMatchArmV>,
    arms: Seq<TyHirMatchArmV>,
)
    requires
        exhaustive(on, arms),
        arms.len() == hs.len(),
        forall|k: int| 0 <= k < hs.len() ==> (#[trigger] arms[k]).pattern == typed_pattern(hs[k].pattern),
    ensures
        has_catch_all(hs, 0) || (on is Enum && check_covered(s, d, on->variants, hs, 0) is Ok),
{
    if some_catch_all(arms) {
        let k = choose|k: int| 0 <= k < arms.len() && ((#[trigger] arms[k]).pattern is Wildcard || arms[k].pattern is Ident);
        assert(arms[k].pattern == typed_pattern(hs[k].pattern));
        lemma_catch_all(hs, 0, k);
    } else {
        let vs = on->variants;
        assert forall|j: int| 0 <= j < vs.len() implies covers(hs, (#[trigger] vs[j]).name, 0) by {
            assert(some_arm_for(arms, vs[j].name));
            let k = choose|k: int| 0 <= k < arms.len() && (#[trigger] arms[k]).pattern is Variant && arms[k].pattern->variant == vs[j].name;
            assert(arms[k].pattern == typed_pattern(hs[k].pattern));
            lemma_covers(hs, vs[j].name, 0, k);
        }
        lemma_covered(s, d, vs, hs, 0);
    }
}

proof fn lemma_patterns(w: Known, on: Subject, hs: Seq<HirMatchArmV>, arms: Seq<TyHirMatchArmV>, i: int, k: int)
    requires
        0 <= i <= k < hs.len(),
        form_arms(w, on, hs, arms, i),
    ensures
        arms[k].pattern == typed_pattern(hs[k].pattern),
    decreases k - i,
{
    if i < k {
        lemma_patterns(w, on, hs, arms, i + 1, k);
    }
}

proof fn lemma_match(s: CheckState, v: TyHirExprV, hs: Seq<HirMatchArmV>, e: TyHirExprV)
    requires
        e.kind matches TyHirExprKindV::Match { scrutinee, arms } && *scrutinee == v && arms.len() == hs.len() && subject_of(definitions(s), v.ty) is Some && form_arms(known_to(s), subject_of(definitions(s), v.ty)->0, hs, arms, 0),
        ok_expr(definitions(s), s.def_types, e),
    ensures
        c_match(s, v, hs).1 == Ok::<TyHirExprV, MplangErrorV>(e),
        same(s, c_match(s, v, hs).0),
    decreases hs, hs.len() + 2,
{
    let arms = e.kind->Match_arms;
    let on = subject_of(definitions(s), v.ty)->0;
    assert(arms.take(0) =~= Seq::empty());
    lemma_arms(s, on, hs, arms, e.ty, 0, None, Seq::empty());
    assert forall|k: int| 0 <= k < hs.len() implies (#[trigger] arms[k]).pattern == typed_pattern(hs[k].pattern) by {
        lemma_patterns(known_to(s), on, hs, arms, 0, k);
    }
    let s1 = c_arms(s, on, hs, 0, None, Seq::empty()).0;
    match v.ty {
        HirTypeV::Enum(d, ta, ca) => {
            lemma_exhaustive(s1, d, on, hs, arms);
        },
        _ => {
            lemma_exhaustive(s1, DefId(0), on, hs, arms);
        },
    }
}

proof fn lemma_arms(
    s: CheckState,
    on: Subject,
    hs: Seq<HirMatchArmV>,
    arms: Seq<TyHirMatchArmV>,
    ty: HirTypeV,
    i: int,
    result: Option<HirTypeV>,
    done: Seq<TyHirMatchArmV>,
)
    requires
        0 <= i <= hs.len(),
        arms.len() == hs.len(),
        form_arms(known_to(s), on, hs, arms, i),
        ok_arms(definitions(s), s.def_types, on, arms, ty, i),
        done =~= arms.take(i),
        result == (if i == 0 { None } else { Some(ty) }),
    ensures
        c_arms(s, on, hs, i, result, done).1 == Ok::<(Option<HirTypeV>, Seq<TyHirMatchArmV>), MplangErrorV>(
            (if hs.len() == 0 { None } else { Some(ty) }, arms),
        ),
        same(s, c_arms(s, on, hs, i, result, done).0),
    decreases hs, hs.len() - i,
{
    if i < hs.len() {
        lemma_pattern(s, on, hs[i].pattern);
        let s1 = c_pattern(s, on, hs[i].pattern).0;
        let stmts = arms[i].body.stmts;
        lemma_stmts(s1, hs[i].body.stmts, stmts, HirTypeV::Unit, 0, Seq::empty());
        let s2 = c_stmts(s1, hs[i].body.stmts, HirTypeV::Unit, 0, Seq::empty()).0;
        assert(done.push(arms[i]) =~= arms.take(i + 1));
        lemma_arms(
            CheckState { def_types: s.def_types, ..s2 },
            on,
            hs,
            arms,
            ty,
            i + 1,
            Some(ty),
            done.push(arms[i]),
        );
    } else {
        assert(done =~= arms);
    }
}

// Statements

proof fn lemma_let(s: CheckState, h: HirStmtV, st: TyHirStmtV, ret: HirTypeV)
    requires
        h is Let,
        form_stmt(known_to(s), h, st),
        ok_stmt(definitions(s), s.def_types, st, ret),
    ensures
        c_stmt(s, h, ret).1 == Ok::<TyHirStmtV, MplangErrorV>(st),
        moved(s, c_stmt(s, h, ret).0),
        c_stmt(s, h, ret).0.def_types == vars_after(s.def_types, st),
    decreases h, 0int,
{
    let ty = h->Let_ty;
    let init = h->Let_init;
    let v = st->Let_init;
    let s1 = CheckState { expected: if ty is Some { ty } else { s.expected }, ..s };
    assert(known_to(s1) == known_to(s));
    assert(ok_kind(definitions(s), s.def_types, v.kind, v.ty));
    if init is AddressOf && v.kind is TraitCast {
        let inner = *init->AddressOf_0;
        let value = *v.kind->value;
        assert(ok_expr(definitions(s), s.def_types, value));
        lemma_expr(s1, inner, value);
        let r = c_expr(s1, init);
        assert(r.1 == Ok::<TyHirExprV, MplangErrorV>(
            TyHirExprV {
                ty: HirTypeV::Pointer(Box::new(value.ty)),
                kind: TyHirExprKindV::AddressOf(Box::new(value)),
            },
        ));
        assert(as_trait_object(ty, r.1->Ok_0) == v);
    } else {
        lemma_expr(s1, init, v);
        assert(as_trait_object(ty, v) == v);
    }
}

proof fn lemma_stmt(s: CheckState, h: HirStmtV, st: TyHirStmtV, ret: HirTypeV)
    requires
        form_stmt(known_to(s), h, st),
        ok_stmt(definitions(s), s.def_types, st, ret),
    ensures
        c_stmt(s, h, ret).1 == Ok::<TyHirStmtV, MplangErrorV>(st),
        moved(s, c_stmt(s, h, ret).0),
        c_stmt(s, h, ret).0.def_types == vars_after(s.def_types, st),
    decreases h, 1int,
{
    match h {
        HirStmtV::Let { .. } => {
            lemma_let(s, h, st, ret);
        },
        HirStmtV::Assign { target, value } => {
            lemma_expr(s, target, st->target);
            lemma_expr(c_expr(s, target).0, value, st->value);
        },
        HirStmtV::Expr(e) => {
            lemma_expr(s, e, st->Expr_0);
        },
        HirStmtV::If { cond, then_branch, else_branch } => {
            lemma_expr(s, cond, st->If_cond);
            let s1 = c_expr(s, cond).0;
            let a = st->then_branch.stmts;
            assert(a.take(0) =~= Seq::empty());
            lemma_stmts(s1, then_branch.stmts, a, ret, 0, Seq::empty());
            let s2 = c_stmts(s1, then_branch.stmts, ret, 0, Seq::empty()).0;
            if let Some(other) = else_branch {
                let b = st->else_branch->0.stmts;
                lemma_stmts(s2, other.stmts, b, ret, 0, Seq::empty());
            }
        },
        HirStmtV::While { cond, body } => {
            lemma_expr(s, cond, st->While_cond);
            let s1 = c_expr(s, cond).0;
            lemma_stmts(s1, body.stmts, st->While_body.stmts, ret, 0, Seq::empty());
        },
        HirStmtV::Return(value) => {
            if let Some(e) = value {
                lemma_expr(s, e, st->Return_0->0);
            }
        },
    }
}

proof fn lemma_stmts(
    s: CheckState,
    hs: Seq<HirStmtV>,
    stmts: Seq<TyHirStmtV>,
    ret: HirTypeV,
    i: int,
    done: Seq<TyHirStmtV>,
)
    requires
        0 <= i <= hs.len(),
        stmts.len() == hs.len(),
        form_stmts(known_to(s), hs, stmts, i),
        ok_stmts(definitions(s), s.def_types, stmts, ret, i),
        done =~= stmts.take(i),
    ensures
        c_stmts(s, hs, ret, i, done).1 == Ok::<Seq<TyHirStmtV>, MplangErrorV>(stmts),
        moved(s, c_stmts(s, hs, ret, i, done).0),
        c_stmts(s, hs, ret, i, done).0.def_types == vars_after_all(s.def_types, stmts, i),
    decreases hs, hs.len() - i,
{
    if i < hs.len() {
        lemma_stmt(s, hs[i], stmts[i], ret);
        assert(done.push(stmts[i]) =~= stmts.take(i + 1));
        let s1 = c_stmt(s, hs[i], ret).0;
        assert(known_to(s1) == known_to(s));
        lemma_stmts(s1, hs, stmts, ret, i + 1, done.push(stmts[i]));
    } else {
        assert(done =~= stmts);
    }
}

/// A `let` without a written type is accepted wherever its value is, and binds the
/// variable with the type of the value.
pub proof fn law_let_takes_the_type_of_its_value(
    s: CheckState,
    d: DefId,
    name: Seq<char>,
    init: HirExprV,
    ret: HirTypeV,
)
    requires
        c_expr(s, init).1 is Ok,
    ensures
        ({
            let v = c_expr(s, init).1->Ok_0;
            let r = c_stmt(s, HirStmtV::Let { def_id: d, name, ty: None, init }, ret);
            &&& r.1 == Ok::<TyHirStmtV, MplangErrorV>(TyHirStmtV::Let { def_id: d, name, ty: v.ty, init: v })
            &&& r.0.def_types == c_expr(s, init).0.def_types.insert(d, v.ty)
        }),
{
}

// Items

/// The names with those of the parameters from `i` on.
pub open spec fn with_names(
    names: Map<DefId, Seq<char>>,
    ps: Seq<HirParamV>,
    i: int,
) -> Map<DefId, Seq<char>>
    decreases ps.len() - i,
{
    if i < 0 || i >= ps.len() {
        names
    } else {
        with_names(names.insert(ps[i].def_id, ps[i].name), ps, i + 1)
    }
}

/// What names refer to inside a function with these parameters.
pub open spec fn inside(w: Known, ps: Seq<HirParamV>) -> Known {
    Known { names: with_names(w.names, ps, 0), ..w }
}

/// What names refer to behind an item.
pub open spec fn behind(w: Known, item: HirItemV) -> Known
    decreases item, 0int,
{
    match item {
        HirItemV::Module(m) => behind_all(w, m.items, 0),
        HirItemV::Fn { params, .. } => inside(w, params),
        _ => w,
    }
}

/// What names refer to behind the items from `i` on.
pub open spec fn behind_all(w: Known, items: Seq<HirItemV>, i: int) -> Known
    decreases items, items.len() - i,
{
    if i < 0 || i >= items.len() {
        w
    } else {
        behind_all(behind(w, items[i]), items, i + 1)
    }
}

/// `t` is a typed form of `h`.
pub open spec fn form_item(w: Known, h: HirItemV, t: TyHirItemV) -> bool
    decreases h, 0int,
{
    match h {
        HirItemV::Module(m) => {
            &&& t matches TyHirItemV::Module(n)
            &&& n.def_id == m.def_id
            &&& n.name == m.name
            &&& n.visibility == m.visibility
            &&& n.attributes == m.attributes
            &&& n.items.len() == m.items.len()
            &&& form_items(w, m.items, n.items, 0)
        },
        HirItemV::ExternFn { def_id, visibility, attributes, link_name, name, param_types, return_ty, is_variadic } => t == (TyHirItemV::ExternFn { def_id, visibility, attributes, link_name, name, param_types, return_ty, is_variadic }),
        HirItemV::Fn { def_id, visibility, attributes, name, generics, params, return_ty, body, impl_receiver } => {
            &&& t is Fn
            &&& t->Fn_params.len() == params.len()
            &&& forall|k: int| 0 <= k < params.len() ==> #[trigger] t->Fn_params[k] == typed_param(params[k])
            &&& t->Fn_body.stmts.len() == body.stmts.len()
            &&& form_stmts(inside(w, params), body.stmts, t->Fn_body.stmts, 0)
            &&& t == (TyHirItemV::Fn { def_id, visibility, attributes, name, generics, params: t->Fn_params, return_ty, body: t->Fn_body, impl_receiver })
        },
        HirItemV::Struct { def_id, visibility, attributes, name, generics, fields } => {
            &&& t is Struct
            &&& t->Struct_fields.len() == fields.len()
            &&& forall|k: int| 0 <= k < fields.len() ==> #[trigger] t->Struct_fields[k] == typed_field(fields[k])
            &&& t == (TyHirItemV::Struct { def_id, visibility, attributes, name, generics, fields: t->Struct_fields })
        },
        HirItemV::Enum { def_id, visibility, attributes, name, generics, variants } => {
            &&& t is Enum
            &&& t->Enum_variants.len() == variants.len()
            &&& forall|k: int| 0 <= k < variants.len() ==> #[trigger] t->Enum_variants[k] == typed_variant(variants[k])
            &&& t == (TyHirItemV::Enum { def_id, visibility, attributes, name, generics, variants: t->Enum_variants })
        },
        HirItemV::Static { def_id, visibility, attributes, name, ty, init, is_const } => {
            &&& t is Static
            &&& form_of(w, init, t->Static_init)
            &&& t == (TyHirItemV::Static { def_id, visibility, attributes, name, ty, init: t->Static_init, is_const })
        },
    }
}

/// The items from `i` on have these typed forms.
pub open spec fn form_items(w: Known, hs: Seq<HirItemV>, ts: Seq<TyHirItemV>, i: int) -> bool
    decreases hs, hs.len() - i,
{
    i < 0 || i >= hs.len() || (form_item(w, hs[i], ts[i]) && form_items(behind(w, hs[i]), hs, ts, i + 1))
}

/// Checking went on to other items.
spec fn passed(s: CheckState, t: CheckState) -> bool {
    definitions(t) == definitions(s) && t.methods == s.methods
}

proof fn lemma_enter(s: CheckState, ps: Seq<HirParamV>, out: Seq<TyHirParamV>, i: int)
    requires
        0 <= i,
        out.len() == ps.len(),
        forall|k: int| 0 <= k < ps.len() ==> #[trigger] out[k] == typed_param(ps[k]),
    ensures
        passed(s, enter_params(s, ps, i)),
        enter_params(s, ps, i).names == with_names(s.names, ps, i),
        enter_params(s, ps, i).def_types == with_params(s.def_types, out, i),
    decreases ps.len() - i,
{
    if i < ps.len() {
        assert(out[i] == typed_param(ps[i]));
        lemma_enter(
            CheckState { def_types: s.def_types.insert(ps[i].def_id, ps[i].ty), names: s.names.insert(ps[i].def_id, ps[i].name), ..s },
            ps,
            out,
            i + 1,
        );
    }
}

proof fn lemma_item(s: CheckState, h: HirItemV, t: TyHirItemV)
    requires
        form_item(known_to(s), h, t),
        ok_item(definitions(s), s.def_types, t),
    ensures
        c_item(s, h).1 == Ok::<TyHirItemV, MplangErrorV>(t),
        known_to(c_item(s, h).0) == behind(known_to(s), h),
        c_item(s, h).0.def_types == vars_after_item(s.def_types, t),
    decreases h, 0int,
{
    match h {
        HirItemV::Module(m) => {
            let n = t->Module_0;
            assert(n.items.take(0) =~= Seq::empty());
            lemma_items(s, m.items, n.items, 0, Seq::empty());
            assert(c_module(s, m).1 == Ok::<TyHirModuleV, MplangErrorV>(n));
        },
        HirItemV::ExternFn { .. } => {},
        HirItemV::Fn { params, return_ty, body, .. } => {
            lemma_enter(s, params, t->Fn_params, 0);
            let s1 = enter_params(s, params, 0);
            assert(known_to(s1) == inside(known_to(s), params));
            assert(t->Fn_body.stmts.take(0) =~= Seq::empty());
            lemma_stmts(s1, body.stmts, t->Fn_body.stmts, return_ty, 0, Seq::empty());
            assert(t->Fn_params =~= params.map_values(|p: HirParamV| typed_param(p)));
        },
        HirItemV::Struct { fields, .. } => {
            assert(t->Struct_fields =~= fields.map_values(|f: HirFieldV| typed_field(f)));
        },
        HirItemV::Enum { variants, .. } => {
            assert(t->Enum_variants =~= variants.map_values(|v: HirEnumVariantV| typed_variant(v)));
        },
        HirItemV::Static { init, .. } => {
            lemma_expr(s, init, t->Static_init);
        },
    }
}

proof fn lemma_items(
    s: CheckState,
    hs: Seq<HirItemV>,
    ts: Seq<TyHirItemV>,
    i: int,
    done: Seq<TyHirItemV>,
)
    requires
        0 <= i <= hs.len(),
        ts.len() == hs.len(),
        form_items(known_to(s), hs, ts, i),
        ok_items(definitions(s), s.def_types, ts, i),
        done =~= ts.take(i),
    ensures
        c_items(s, hs, i, done).1 == Ok::<Seq<TyHirItemV>, MplangErrorV>(ts),
        known_to(c_items(s, hs, i, done).0) == behind_all(known_to(s), hs, i),
        c_items(s, hs, i, done).0.def_types == vars_after_items(s.def_types, ts, i),
    decreases hs, hs.len() - i,
{
    if i < hs.len() {
        lemma_item(s, hs[i], ts[i]);
        assert(done.push(ts[i]) =~= ts.take(i + 1));
        let s1 = c_item(s, hs[i]).0;
        lemma_behind(known_to(s), hs[i]);
        lemma_items(s1, hs, ts, i + 1, done.push(ts[i]));
    } else {
        assert(done =~= ts);
    }
}

proof fn lemma_behind(w: Known, h: HirItemV)
    ensures
        behind(w, h).g == w.g,
    decreases h, 0int,
{
    if let HirItemV::Module(m) = h {
        lemma_behind_all(w, m.items, 0);
    }
}

proof fn lemma_behind_all(w: Known, hs: Seq<HirItemV>, i: int)
    ensures
        behind_all(w, hs, i).g == w.g,
    decreases hs, hs.len() - i,
{
    if 0 <= i < hs.len() {
        lemma_behind(w, hs[i]);
        lemma_behind_all(behind(w, hs[i]), hs, i + 1);
    }
}

/// A program with a well-typed typed form is accepted, and the typed form is what the
/// checker gives. It need not write the types of its variables.
///
/// Left out are programs that call generic functions or make values of generic structs or
/// enumerations, for which the checker must find generic arguments.
pub proof fn law_well_typed_is_accepted(
    s: CheckState,
    unit: HirCompilationUnitV,
    out: TyHirCompilationUnitV,
)
    requires
        collect_module(s, unit.root_module).1 is Ok,
        ({
            let s1 = collect_module(s, unit.root_module).0;
            let items = out.root_module.items;
            &&& items.len() == unit.root_module.items.len()
            &&& form_items(known_to(s1), unit.root_module.items, items, 0)
            &&& ok_items(definitions(s1), s1.def_types, items, 0)
        }),
        out.root_module == (TyHirModuleV {
            def_id: unit.root_module.def_id,
            name: unit.root_module.name,
            visibility: unit.root_module.visibility,
            attributes: unit.root_module.attributes,
            items: out.root_module.items,
        }),
        out.vtables == unit.vtables,
    ensures
        checked(s, unit).1 == Ok::<TyHirCompilationUnitV, MplangErrorV>(out),
{
    let items = out.root_module.items;
    assert(items.take(0) =~= Seq::empty());
    lemma_items(collect_module(s, unit.root_module).0, unit.root_module.items, items, 0, Seq::empty());
}

} // verus!
