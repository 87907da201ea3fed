//! The rules of expansion.
//!
//! [`MonoState`] is what has been expanded so far. A function that changes it
//! returns the new state together with its result. Expanding a generic
//! definition may ask for other instances; `fuel` bounds how deeply such
//! requests may nest, since a generic definition that uses itself with ever
//! larger types asks for instances without end.

use crate::ast::{GenericParamKind, GenericParamV, LiteralV};
use crate::error::{error_of, ErrorKind, MplangErrorV};
use crate::hir::{shown_type, ConstArg, DefId, HirTypeV, ParamKind, TypeOrConstV, Visibility};
use crate::monomorphize::ids::unit_max;
use crate::monomorphize::template::{FnTemplateV, StructTemplateV};
use crate::table::lookup;
use crate::text::decimal;
use crate::tycheck::rules::{
    bad_index, check_known, conflict, count_kind, known, slot, subst_type, too_many_args, unknown,
    wrong_kind, GenericArgs,
};
use crate::tyhir::{
    TyHirBodyV, TyHirCompilationUnitV, TyHirExprKindV, TyHirExprV, TyHirFieldV, TyHirItemV,
    TyHirEnumVariantV, TyHirMatchArmV, TyHirModuleV, TyHirParamV, TyHirPatternV, TyHirStmtV,
};
use std::collections::hash_map::DefaultHasher;
use vstd::prelude::*;
use vstd::std_specs::hash::DefaultHasherAdditionalSpecFns;

verus! {

/// An instance of a generic definition: its template, its type arguments and
/// its constant arguments.
pub type InstanceKey = (DefId, Seq<HirTypeV>, Seq<i64>);

/// What has been expanded so far.
#[verifier::ext_equal]
pub struct MonoState {
    /// The generic functions.
    pub fns: Map<DefId, FnTemplateV>,
    /// The structs.
    pub structs: Map<DefId, StructTemplateV>,
    /// The instances of generic functions, with their numbers; one that is still
    /// being made has none until it needs one.
    pub fn_instances: Map<InstanceKey, Option<DefId>>,
    /// The instances of generic structs.
    pub struct_instances: Map<InstanceKey, DefId>,
    /// The arguments that each struct instance was made from.
    pub origins: Map<DefId, (Seq<HirTypeV>, Seq<ConstArg>)>,
    /// The instances, as items.
    pub out: Seq<TyHirItemV>,
    /// The number of the next definition.
    pub next_id: u32,
}

/// The generic parameters in scope with their arguments, and the value of each
/// constant parameter.
#[verifier::ext_equal]
pub struct MonoScope {
    pub generics: Seq<GenericParamV>,
    pub types: Seq<HirTypeV>,
    pub consts: Seq<i64>,
    pub values: Map<DefId, i64>,
}

/// The scope outside generic definitions.
pub open spec fn outer_scope() -> MonoScope {
    MonoScope { generics: Seq::empty(), types: Seq::empty(), consts: Seq::empty(), values: Map::empty() }
}

/// The error for requests that nest deeper than allowed.
pub open spec fn too_deep() -> MplangErrorV {
    error_of(ErrorKind::Other, "泛型实例化嵌套过深"@)
}

/// The error for an instance of an unknown struct.
pub open spec fn no_template() -> MplangErrorV {
    error_of(ErrorKind::Other, "struct template"@)
}

/// The error for a constant argument that is still a parameter.
pub open spec fn open_const_arg() -> MplangErrorV {
    error_of(ErrorKind::Other, "内部错误：单态化后不应残留常量参数引用"@)
}

/// Constant arguments with known values.
pub open spec fn literals(cs: Seq<i64>) -> Seq<ConstArg> {
    cs.map_values(|v: i64| ConstArg::Literal(v))
}

/// The values of constant arguments from `i` on, behind `done`.
pub open spec fn const_values(
    cs: Seq<ConstArg>,
    i: int,
    done: Seq<i64>,
) -> Result<Seq<i64>, MplangErrorV>
    decreases cs.len() - i,
{
    if i >= cs.len() {
        Ok(done)
    } else {
        match cs[i] {
            ConstArg::Literal(v) => const_values(cs, i + 1, done.push(v)),
            ConstArg::Param(_) => Err(open_const_arg()),
        }
    }
}

/// A new definition.
pub open spec fn m_fresh(s: MonoState) -> (MonoState, Result<DefId, MplangErrorV>) {
    if s.next_id == u32::MAX {
        (s, Err(error_of(ErrorKind::Other, "attempt to add with overflow"@)))
    } else {
        (MonoState { next_id: (s.next_id + 1) as u32, ..s }, Ok(DefId(s.next_id)))
    }
}

// Names

/// The bytes of a text whose characters are all below 128.
pub open spec fn ascii(text: Seq<char>) -> Seq<u8> {
    text.map_values(|c: char| c as u8)
}

/// The hash of a type.
pub open spec fn type_hash(t: HirTypeV) -> u64 {
    DefaultHasher::spec_finish(seq![ascii(shown_type(t))])
}

/// The hashes of types from `i` on, each behind an underscore.
pub open spec fn hash_suffix(ts: Seq<HirTypeV>, i: int) -> Seq<char>
    decreases ts.len() - i,
{
    if i >= ts.len() {
        Seq::empty()
    } else {
        "_"@ + decimal(type_hash(ts[i]) as nat) + hash_suffix(ts, i + 1)
    }
}

/// The name of an instance of a function.
#[verifier::opaque]
pub open spec fn fn_name(d: DefId, ts: Seq<HirTypeV>) -> Seq<char> {
    "__mono_"@ + decimal(d.0 as nat) + hash_suffix(ts, 0)
}

/// The name of an instance of a struct.
#[verifier::opaque]
pub open spec fn struct_name(d: DefId) -> Seq<char> {
    "__mono_s_"@ + decimal(d.0 as nat)
}

// Arguments of generic functions

/// The type arguments that matching `actual` against `expected` finds, on top
/// of those in `ta`. A struct instance stands for the arguments that it was
/// made from.
pub open spec fn m_unify(
    origins: Map<DefId, (Seq<HirTypeV>, Seq<ConstArg>)>,
    expected: HirTypeV,
    actual: HirTypeV,
    gs: Seq<GenericParamV>,
    ta: Seq<Option<HirTypeV>>,
) -> Result<Seq<Option<HirTypeV>>, MplangErrorV>
    decreases expected, 0int,
{
    match expected {
        HirTypeV::Var(k) => {
            match slot(gs, GenericParamKind::Type, k) {
                Err(e) => Err(e),
                Ok(p) => {
                    if p >= ta.len() {
                        Err(bad_index(ta.len(), p))
                    } else {
                        match ta[p as int] {
                            None => Ok(ta.update(p as int, Some(actual))),
                            Some(t) => if t == actual { Ok(ta) } else { Err(conflict()) },
                        }
                    }
                }
            }
        },
        HirTypeV::Generic(_, ts, _) => match actual {
            HirTypeV::Named(d) => match lookup(origins, d) {
                Some(o) => m_unify_all(origins, ts, o.0, gs, 0, ta),
                None => Ok(ta),
            },
            HirTypeV::Generic(_, us, _) => m_unify_all(origins, ts, us, gs, 0, ta),
            _ => Ok(ta),
        },
        HirTypeV::Array(e, _) => match actual {
            HirTypeV::Array(a, _) => m_unify(origins, *e, *a, gs, ta),
            _ => Ok(ta),
        },
        HirTypeV::Pointer(e) => match actual {
            HirTypeV::Pointer(a) => m_unify(origins, *e, *a, gs, ta),
            _ => Ok(ta),
        },
        HirTypeV::Enum(d, ts, _) => match actual {
            HirTypeV::Enum(
                f,
                us,
                _,
            ) => if d == f { m_unify_all(origins, ts, us, gs, 0, ta) } else { Ok(ta) },
            _ => Ok(ta),
        },
        _ => Ok(ta),
    }
}

/// The same for two lists of types from `i` on, as far as both reach.
pub open spec fn m_unify_all(
    origins: Map<DefId, (Seq<HirTypeV>, Seq<ConstArg>)>,
    expected: Seq<HirTypeV>,
    actual: Seq<HirTypeV>,
    gs: Seq<GenericParamV>,
    i: int,
    ta: Seq<Option<HirTypeV>>,
) -> Result<Seq<Option<HirTypeV>>, MplangErrorV>
    decreases expected, expected.len() - i,
{
    if i < 0 || i >= expected.len() || i >= actual.len() {
        Ok(ta)
    } else {
        match m_unify(origins, expected[i], actual[i], gs, ta) {
            Err(e) => Err(e),
            Ok(next) => {
                m_unify_all(origins, expected, actual, gs, i + 1, next)
            }
        }
    }
}

/// The explicit generic arguments of a call from `k` on, entered in `args`.
pub open spec fn m_explicit(
    gs: Seq<GenericParamV>,
    tf: Seq<TypeOrConstV>,
    k: int,
    args: GenericArgs,
) -> Result<GenericArgs, MplangErrorV>
    decreases tf.len() - k,
{
    if k >= tf.len() {
        Ok(args)
    } else if k >= gs.len() {
        Err(too_many_args(gs.len()))
    } else {
        match (gs[k].kind, tf[k]) {
            (GenericParamKind::Type, TypeOrConstV::Type(t)) => m_explicit(
                gs,
                tf,
                k + 1,
                GenericArgs { types: args.types.update(count_kind(gs, GenericParamKind::Type, k) as int, Some(t)), ..args },
            ),
            (GenericParamKind::Const, TypeOrConstV::Const(v)) => m_explicit(
                gs,
                tf,
                k + 1,
                GenericArgs { consts: args.consts.update(count_kind(gs, GenericParamKind::Const, k) as int, Some(ConstArg::Literal(v))), ..args },
            ),
            (GenericParamKind::Const, TypeOrConstV::ConstParam(i)) => m_explicit(
                gs,
                tf,
                k + 1,
                GenericArgs { consts: args.consts.update(count_kind(gs, GenericParamKind::Const, k) as int, Some(ConstArg::Param(i))), ..args },
            ),
            _ => Err(wrong_kind()),
        }
    }
}

/// The type arguments that the arguments of a call determine: parameters from
/// `i` on, arguments from `j` on.
pub open spec fn m_from_args(
    origins: Map<DefId, (Seq<HirTypeV>, Seq<ConstArg>)>,
    ps: Seq<TyHirParamV>,
    args: Seq<TyHirExprV>,
    gs: Seq<GenericParamV>,
    i: int,
    j: int,
    ta: Seq<Option<HirTypeV>>,
) -> Result<Seq<Option<HirTypeV>>, MplangErrorV>
    decreases ps.len() - i,
{
    if i >= ps.len() {
        Ok(ta)
    } else if ps[i].kind is ConstParam {
        m_from_args(origins, ps, args, gs, i + 1, j, ta)
    } else if j < args.len() {
        match m_unify(origins, ps[i].ty, args[j].ty, gs, ta) {
            Err(e) => Err(e),
            Ok(next) => {
                m_from_args(origins, ps, args, gs, i + 1, j + 1, next)
            }
        }
    } else {
        m_from_args(origins, ps, args, gs, i + 1, j + 1, ta)
    }
}

/// The type arguments that the receiver of a method determines.
pub open spec fn m_from_receiver(
    origins: Map<DefId, (Seq<HirTypeV>, Seq<ConstArg>)>,
    recv: Option<HirTypeV>,
    args: Seq<TyHirExprV>,
    gs: Seq<GenericParamV>,
    ta: Seq<Option<HirTypeV>>,
) -> Result<Seq<Option<HirTypeV>>, MplangErrorV> {
    match recv {
        Some(r) => if args.len() == 0 { Ok(ta) } else { m_unify(origins, r, args[0].ty, gs, ta) },
        None => Ok(ta),
    }
}

/// The generic arguments of a call.
#[verifier::opaque]
pub open spec fn m_infer(
    origins: Map<DefId, (Seq<HirTypeV>, Seq<ConstArg>)>,
    t: FnTemplateV,
    args: Seq<TyHirExprV>,
    tf: Seq<TypeOrConstV>,
) -> Result<(Seq<HirTypeV>, Seq<ConstArg>), MplangErrorV> {
    let gs = t.generics;
    match m_explicit(
        gs,
        tf,
        0,
        GenericArgs { types: unknown(count_kind(gs, GenericParamKind::Type, gs.len() as int)), consts: unknown(count_kind(gs, GenericParamKind::Const, gs.len() as int)) },
    ) {
        Err(e) => Err(e),
        Ok(given) => {
            match m_from_args(origins, t.params, args, gs, 0, 0, given.types) {
                Err(e) => Err(e),
                Ok(a) => {
                    match m_from_receiver(origins, t.impl_receiver, args, gs, a) {
                        Err(e) => Err(e),
                        Ok(types) => {
                            let all = GenericArgs { types, ..given };
                            match check_known(gs, all, 0) {
                                Err(e) => Err(e),
                                Ok(_u) => {
                                    Ok((known(all.types), known(all.consts)))
                                }
                            }
                        }
                    }
                }
            }
        }
    }
}

/// The value of a constant parameter in a scope.
pub open spec fn const_of(
    gs: Seq<GenericParamV>,
    cs: Seq<i64>,
    i: usize,
) -> Result<i64, MplangErrorV> {
    match slot(gs, GenericParamKind::Const, i) {
        Err(e) => Err(e),
        Ok(q) => {
            if q < cs.len() {
                Ok(cs[q as int])
            } else {
                Err(bad_index(cs.len(), q))
            }
        }
    }
}

/// The values of constant arguments in a scope, from `i` on, behind `done`.
pub open spec fn const_args_in(
    c: MonoScope,
    cs: Seq<ConstArg>,
    i: int,
    done: Seq<i64>,
) -> Result<Seq<i64>, MplangErrorV>
    decreases cs.len() - i,
{
    if i >= cs.len() {
        Ok(done)
    } else {
        match (
            match cs[i] { ConstArg::Literal(v) => Ok(v), ConstArg::Param(k) => const_of(c.generics, c.consts, k) }
        ) {
            Err(e) => Err(e),
            Ok(v) => {
                const_args_in(c, cs, i + 1, done.push(v))
            }
        }
    }
}

/// The values of the constant parameters among `ps` from `i` on.
pub open spec fn const_params(
    ps: Seq<TyHirParamV>,
    gs: Seq<GenericParamV>,
    cs: Seq<i64>,
    i: int,
    values: Map<DefId, i64>,
) -> Result<Map<DefId, i64>, MplangErrorV>
    decreases ps.len() - i,
{
    if i >= ps.len() {
        Ok(values)
    } else {
        match ps[i].kind {
            ParamKind::ConstParam(k) => {
                match const_of(gs, cs, k) {
                    Err(e) => Err(e),
                    Ok(v) => {
                        const_params(ps, gs, cs, i + 1, values.insert(ps[i].def_id, v))
                    }
                }
            },
            _ => const_params(ps, gs, cs, i + 1, values),
        }
    }
}

// Types and instances

/// A type without parameters in which the instance of a struct stands in place
/// of each application of a generic struct, at any depth.
pub open spec fn m_concrete(s: MonoState, t: HirTypeV, fuel: nat) -> (
    MonoState,
    Result<HirTypeV, MplangErrorV>,
)
    decreases fuel, 1int, t, 0int,
{
    match t {
        HirTypeV::Pointer(e) => {
            match m_concrete(s, *e, fuel) {
                (at, Err(e)) => (at, Err(e)),
                (s1, Ok(u)) => {
                    (s1, Ok(HirTypeV::Pointer(Box::new(u))))
                }
            }
        },
        HirTypeV::Array(e, n) => {
            match m_concrete(s, *e, fuel) {
                (at, Err(e)) => (at, Err(e)),
                (s1, Ok(u)) => {
                    (s1, Ok(HirTypeV::Array(Box::new(u), n)))
                }
            }
        },
        HirTypeV::Enum(d, ts, cs) => {
            match m_concretes(s, ts, 0, Seq::empty(), fuel) {
                (at, Err(e)) => (at, Err(e)),
                (s1, Ok(us)) => {
                    (s1, Ok(HirTypeV::Enum(d, us, cs)))
                }
            }
        },
        HirTypeV::Generic(d, ts, cs) => {
            match m_concretes(s, ts, 0, Seq::empty(), fuel) {
                (at, Err(e)) => (at, Err(e)),
                (s1, Ok(us)) => {
                    match const_values(cs, 0, Seq::empty()) {
                        Err(e) => (s1, Err(e)),
                        Ok(vs) => {
                            match m_struct(s1, d, us, vs, fuel) {
                                (at, Err(e)) => (at, Err(e)),
                                (s2, Ok(id)) => {
                                    (s2, Ok(HirTypeV::Named(id)))
                                }
                            }
                        }
                    }
                }
            }
        },
        _ => (s, Ok(t)),
    }
}

/// The same for types from `i` on, behind `done`.
pub open spec fn m_concretes(
    s: MonoState,
    ts: Seq<HirTypeV>,
    i: int,
    done: Seq<HirTypeV>,
    fuel: nat,
) -> (MonoState, Result<Seq<HirTypeV>, MplangErrorV>)
    decreases fuel, 1int, ts, ts.len() - i,
{
    if i < 0 || i >= ts.len() {
        (s, Ok(done))
    } else {
        match m_concrete(s, ts[i], fuel) {
            (at, Err(e)) => (at, Err(e)),
            (s1, Ok(u)) => {
                m_concretes(s1, ts, i + 1, done.push(u), fuel)
            }
        }
    }
}

/// A type with the parameters in scope replaced, and then with instances in
/// place of applications of generic structs.
#[verifier::opaque]
pub open spec fn m_type(
    s: MonoState,
    t: HirTypeV,
    gs: Seq<GenericParamV>,
    ta: Seq<HirTypeV>,
    ca: Seq<i64>,
    fuel: nat,
) -> (MonoState, Result<HirTypeV, MplangErrorV>)
{
    match subst_type(t, gs, ta, literals(ca)) {
        Err(e) => (s, Err(e)),
        Ok(u) => m_concrete(s, u, fuel),
    }
}

/// Types from `i` on, behind `done`.
pub open spec fn m_types(
    s: MonoState,
    ts: Seq<HirTypeV>,
    c: MonoScope,
    i: int,
    done: Seq<HirTypeV>,
    fuel: nat,
) -> (MonoState, Result<Seq<HirTypeV>, MplangErrorV>)
    decreases fuel, 3int, ts, ts.len() - i,
{
    if i < 0 || i >= ts.len() {
        (s, Ok(done))
    } else {
        match m_type(s, ts[i], c.generics, c.types, c.consts, fuel) {
            (at, Err(e)) => (at, Err(e)),
            (s1, Ok(u)) => {
                m_types(s1, ts, c, i + 1, done.push(u), fuel)
            }
        }
    }
}

/// Fields from `i` on, behind `done`: those that are pointers, or those that are
/// not, with their types expanded; the others as they are.
pub open spec fn m_fields(
    s: MonoState,
    fs: Seq<TyHirFieldV>,
    gs: Seq<GenericParamV>,
    ta: Seq<HirTypeV>,
    ca: Seq<i64>,
    pointers: bool,
    i: int,
    done: Seq<TyHirFieldV>,
    fuel: nat,
) -> (MonoState, Result<Seq<TyHirFieldV>, MplangErrorV>)
    decreases fuel, 3int, fs, fs.len() - i,
{
    if i < 0 || i >= fs.len() {
        (s, Ok(done))
    } else if (fs[i].ty is Pointer) != pointers {
        m_fields(s, fs, gs, ta, ca, pointers, i + 1, done.push(fs[i]), fuel)
    } else {
        match subst_type(fs[i].ty, gs, ta, literals(ca)) {
            Err(e) => (s, Err(e)),
            Ok(u) => {
                match m_concrete(s, u, fuel) {
                    (at, Err(e)) => (at, Err(e)),
                    (s1, Ok(t)) => {
                        m_fields(
                            s1,
                            fs,
                            gs,
                            ta,
                            ca,
                            pointers,
                            i + 1,
                            done.push(TyHirFieldV { ty: t, ..fs[i] }),
                            fuel,
                        )
                    }
                }
            }
        }
    }
}

/// The fields of a struct, and how many instances there are once everything is
/// made that the struct contains. What it only points to is made behind that, as
/// it may contain the struct.
pub open spec fn m_members(
    s: MonoState,
    fs: Seq<TyHirFieldV>,
    gs: Seq<GenericParamV>,
    ta: Seq<HirTypeV>,
    ca: Seq<i64>,
    fuel: nat,
) -> (MonoState, Result<(Seq<TyHirFieldV>, nat), MplangErrorV>)
    decreases fuel, 4int, ta, 0int,
{
    match m_fields(s, fs, gs, ta, ca, false, 0, Seq::empty(), fuel) {
        (at, Err(e)) => (at, Err(e)),
        (s1, Ok(held)) => {
            match m_fields(s1, held, gs, ta, ca, true, 0, Seq::empty(), fuel) {
                (at, Err(e)) => (at, Err(e)),
                (s2, Ok(all)) => {
                    (s2, Ok((all, s1.out.len())))
                }
            }
        }
    }
}

/// The fields of a definition that is not generic.
#[verifier::opaque]
pub open spec fn m_own_fields(s: MonoState, fs: Seq<TyHirFieldV>, fuel: nat) -> (
    MonoState,
    Result<Seq<TyHirFieldV>, MplangErrorV>,
) {
    match m_members(s, fs, Seq::empty(), Seq::empty(), Seq::empty(), fuel) {
        (at, Err(e)) => (at, Err(e)),
        (s1, Ok(m)) => {
            (s1, Ok(m.0))
        }
    }
}

/// The state in which a struct instance has its number, before it is made.
pub open spec fn m_begin(
    s: MonoState,
    d: DefId,
    ta: Seq<HirTypeV>,
    ca: Seq<i64>,
    id: DefId,
) -> MonoState {
    MonoState {
        struct_instances: s.struct_instances.insert((d, ta, ca), id),
        origins: s.origins.insert(id, (ta, literals(ca))),
        ..s
    }
}

/// The instance of a struct. It is known under its number while its fields are
/// expanded, so that it may point to itself.
pub open spec fn m_struct(
    s: MonoState,
    d: DefId,
    ta: Seq<HirTypeV>,
    ca: Seq<i64>,
    fuel: nat,
) -> (MonoState, Result<DefId, MplangErrorV>)
    decreases fuel, 0int, ta, 0int,
{
    match lookup(s.struct_instances, (d, ta, ca)) {
        Some(id) => (s, Ok(id)),
        None => if fuel == 0 {
            (s, Err(too_deep()))
        } else {
            match lookup(s.structs, d) {
                None => (s, Err(no_template())),
                Some(t) => {
                    match m_fresh(s) {
                        (at, Err(e)) => (at, Err(e)),
                        (s1, Ok(id)) => {
                            match m_members(
                                m_begin(s1, d, ta, ca, id),
                                t.fields,
                                t.generics,
                                ta,
                                ca,
                                (fuel - 1) as nat,
                            ) {
                                (at, Err(e)) => (at, Err(e)),
                                (s2, Ok(m)) => {
                                    (
                                        MonoState {
                                            out: s2.out.insert(m.1 as int, struct_item(d, id, m.0)),
                                            ..s2
                                        },
                                        Ok(id),
                                    )
                                }
                            }
                        }
                    }
                },
            }
        },
    }
}

/// The instance of a struct as an item.
pub open spec fn struct_item(d: DefId, id: DefId, fields: Seq<TyHirFieldV>) -> TyHirItemV {
    TyHirItemV::Struct {
        def_id: id,
        visibility: Visibility::Public,
        attributes: Seq::empty(),
        name: struct_name(d),
        generics: Seq::empty(),
        fields,
    }
}

/// The parameters from `i` on that take values, behind `done`: constant
/// parameters are left out.
pub open spec fn value_params(
    ps: Seq<TyHirParamV>,
    i: int,
    done: Seq<TyHirParamV>,
) -> Seq<TyHirParamV>
    decreases ps.len() - i,
{
    if i >= ps.len() {
        done
    } else if ps[i].kind is ConstParam {
        value_params(ps, i + 1, done)
    } else {
        value_params(ps, i + 1, done.push(ps[i]))
    }
}

/// The parameters of a function from `i` on, behind `done`.
pub open spec fn m_params(
    s: MonoState,
    ps: Seq<TyHirParamV>,
    gs: Seq<GenericParamV>,
    ta: Seq<HirTypeV>,
    ca: Seq<i64>,
    i: int,
    done: Seq<TyHirParamV>,
    fuel: nat,
) -> (MonoState, Result<Seq<TyHirParamV>, MplangErrorV>)
    decreases fuel, 3int, ps, ps.len() - i,
{
    if i < 0 || i >= ps.len() {
        (s, Ok(done))
    } else {
        match m_type(s, ps[i].ty, gs, ta, ca, fuel) {
            (at, Err(e)) => (at, Err(e)),
            (s1, Ok(t)) => {
                m_params(s1, ps, gs, ta, ca, i + 1, done.push(TyHirParamV { ty: t, ..ps[i] }), fuel)
            }
        }
    }
}

/// A receiver type that may be missing.
pub open spec fn m_opt_type(
    s: MonoState,
    t: Option<HirTypeV>,
    gs: Seq<GenericParamV>,
    ta: Seq<HirTypeV>,
    ca: Seq<i64>,
    fuel: nat,
) -> (MonoState, Result<Option<HirTypeV>, MplangErrorV>)
    decreases fuel, 3int, ta, 0int,
{
    match t {
        None => (s, Ok(None)),
        Some(t) => {
            match m_type(s, t, gs, ta, ca, fuel) {
                (at, Err(e)) => (at, Err(e)),
                (s1, Ok(u)) => {
                    (s1, Ok(Some(u)))
                }
            }
        },
    }
}

/// The state in which a function instance has this number, or none yet.
pub open spec fn m_record(
    s: MonoState,
    d: DefId,
    ta: Seq<HirTypeV>,
    ca: Seq<i64>,
    id: Option<DefId>,
) -> MonoState {
    MonoState { fn_instances: s.fn_instances.insert((d, ta, ca), id), ..s }
}

/// The number of a function instance, which gets one if it has none yet.
pub open spec fn m_number(s: MonoState, d: DefId, ta: Seq<HirTypeV>, ca: Seq<i64>) -> (
    MonoState,
    Result<DefId, MplangErrorV>,
) {
    match lookup(s.fn_instances, (d, ta, ca)) {
        Some(Some(id)) => (s, Ok(id)),
        _ => {
            match m_fresh(s) {
                (at, Err(e)) => (at, Err(e)),
                (s1, Ok(id)) => {
                    (m_record(s1, d, ta, ca, Some(id)), Ok(id))
                }
            }
        },
    }
}

/// The instance of a function.
pub open spec fn m_fn(
    s: MonoState,
    d: DefId,
    t: FnTemplateV,
    ta: Seq<HirTypeV>,
    ca: Seq<i64>,
    fuel: nat,
) -> (MonoState, Result<DefId, MplangErrorV>)
    decreases fuel, 0int, ta, 0int,
{
    match lookup(s.fn_instances, (d, ta, ca)) {
        Some(_) => m_number(s, d, ta, ca),
        None => if fuel == 0 {
            (s, Err(too_deep()))
        } else {
            m_make(s, d, t, ta, ca, (fuel - 1) as nat)
        },
    }
}

/// A new instance of a function. It is known while its statements are expanded,
/// so that it may call itself.
pub open spec fn m_make(
    s: MonoState,
    d: DefId,
    t: FnTemplateV,
    ta: Seq<HirTypeV>,
    ca: Seq<i64>,
    fuel: nat,
) -> (MonoState, Result<DefId, MplangErrorV>)
    decreases fuel, 6int, ta, 3int,
{
    match const_params(t.params, t.generics, ca, 0, Map::empty()) {
        Err(e) => (s, Err(e)),
        Ok(values) => {
            m_body(
                m_record(s, d, ta, ca, None),
                d,
                t,
                MonoScope { generics: t.generics, types: ta, consts: ca, values },
                fuel,
            )
        }
    }
}

/// The instance of a function with arguments for its parameters.
pub open spec fn m_body(
    s: MonoState,
    d: DefId,
    t: FnTemplateV,
    c: MonoScope,
    fuel: nat,
) -> (MonoState, Result<DefId, MplangErrorV>)
    decreases fuel, 6int, c.types, 2int,
{
    match m_stmts(s, t.body.stmts, c, 0, Seq::empty(), fuel) {
        (at, Err(e)) => (at, Err(e)),
        (s1, Ok(body)) => {
            m_finish(s1, d, t, c, body, fuel)
        }
    }
}

/// The instance of a function whose statements are expanded. Unless it called
/// itself, this is where it gets its number.
#[verifier::opaque]
pub open spec fn m_finish(
    s: MonoState,
    d: DefId,
    t: FnTemplateV,
    c: MonoScope,
    body: Seq<TyHirStmtV>,
    fuel: nat,
) -> (MonoState, Result<DefId, MplangErrorV>) {
    match m_number(s, d, c.types, c.consts) {
        (at, Err(e)) => (at, Err(e)),
        (s1, Ok(id)) => {
            match m_header(
                s1,
                value_params(t.params, 0, Seq::empty()),
                t.return_ty,
                t.impl_receiver,
                c,
                fuel,
            ) {
                (at, Err(e)) => (at, Err(e)),
                (s2, Ok(h)) => {
                    (MonoState { out: s2.out.push(fn_item(d, c.types, id, h, body)), ..s2 }, Ok(id))
                }
            }
        }
    }
}

/// The parameters, the result type and the receiver of a function.
pub type Header = (Seq<TyHirParamV>, HirTypeV, Option<HirTypeV>);

/// The types in the header of a function.
#[verifier::opaque]
pub open spec fn m_header(
    s: MonoState,
    params: Seq<TyHirParamV>,
    return_ty: HirTypeV,
    impl_receiver: Option<HirTypeV>,
    c: MonoScope,
    fuel: nat,
) -> (MonoState, Result<Header, MplangErrorV>)
    decreases fuel, 4int, c.types, 1int,
{
    match m_params(s, params, c.generics, c.types, c.consts, 0, Seq::empty(), fuel) {
        (at, Err(e)) => (at, Err(e)),
        (s1, Ok(params)) => {
            match m_type(s1, return_ty, c.generics, c.types, c.consts, fuel) {
                (at, Err(e)) => (at, Err(e)),
                (s2, Ok(return_ty)) => {
                    match m_opt_type(s2, impl_receiver, c.generics, c.types, c.consts, fuel) {
                        (at, Err(e)) => (at, Err(e)),
                        (s3, Ok(impl_receiver)) => {
                            (s3, Ok((params, return_ty, impl_receiver)))
                        }
                    }
                }
            }
        }
    }
}

/// The instance of a function as an item.
pub open spec fn fn_item(
    d: DefId,
    ta: Seq<HirTypeV>,
    id: DefId,
    h: Header,
    body: Seq<TyHirStmtV>,
) -> TyHirItemV {
    TyHirItemV::Fn {
        def_id: id,
        visibility: Visibility::Public,
        attributes: Seq::empty(),
        name: fn_name(d, ta),
        generics: Seq::empty(),
        params: h.0,
        return_ty: h.1,
        body: TyHirBodyV { stmts: body },
        impl_receiver: h.2,
    }
}

// Expressions and statements

/// Explicit generic arguments from `i` on, behind `done`: types expanded, and
/// constant parameters replaced by their values.
pub open spec fn m_targs(
    s: MonoState,
    tf: Seq<TypeOrConstV>,
    c: MonoScope,
    i: int,
    done: Seq<TypeOrConstV>,
    fuel: nat,
) -> (MonoState, Result<Seq<TypeOrConstV>, MplangErrorV>)
    decreases fuel, 3int, tf, tf.len() - i,
{
    if i < 0 || i >= tf.len() {
        (s, Ok(done))
    } else {
        match tf[i] {
            TypeOrConstV::Type(t) => {
                match m_type(s, t, c.generics, c.types, c.consts, fuel) {
                    (at, Err(e)) => (at, Err(e)),
                    (s1, Ok(u)) => {
                        m_targs(s1, tf, c, i + 1, done.push(TypeOrConstV::Type(u)), fuel)
                    }
                }
            },
            TypeOrConstV::ConstParam(k) => {
                match const_of(c.generics, c.consts, k) {
                    Err(e) => (s, Err(e)),
                    Ok(v) => {
                        m_targs(s, tf, c, i + 1, done.push(TypeOrConstV::Const(v)), fuel)
                    }
                }
            },
            TypeOrConstV::Const(_) => m_targs(s, tf, c, i + 1, done.push(tf[i]), fuel),
        }
    }
}

/// A call of a function with expanded arguments. A generic function is replaced
/// by its instance.
pub open spec fn m_call(
    s: MonoState,
    callee: DefId,
    args: Seq<TyHirExprV>,
    tf: Seq<TypeOrConstV>,
    ret: HirTypeV,
    c: MonoScope,
    fuel: nat,
) -> (MonoState, Result<TyHirExprV, MplangErrorV>)
    decreases fuel, 4int, args, 1int,
{
    match lookup(s.fns, callee) {
        Some(t) => {
            match m_targs(s, tf, c, 0, Seq::empty(), fuel) {
                (at, Err(e)) => (at, Err(e)),
                (s1, Ok(given)) => {
                    match m_infer(s1.origins, t, args, given) {
                        Err(e) => (s1, Err(e)),
                        Ok(a) => {
                            match const_args_in(c, a.1, 0, Seq::empty()) {
                                Err(e) => (s1, Err(e)),
                                Ok(ca) => {
                                    m_instance_call(s1, callee, t, a.0, ca, args, ret, fuel)
                                }
                            }
                        }
                    }
                }
            }
        },
        None => m_plain_call(s, callee, args, ret, c, fuel),
    }
}

/// A call of an instance of a generic function.
pub open spec fn m_instance_call(
    s: MonoState,
    callee: DefId,
    t: FnTemplateV,
    ta: Seq<HirTypeV>,
    ca: Seq<i64>,
    args: Seq<TyHirExprV>,
    ret: HirTypeV,
    fuel: nat,
) -> (MonoState, Result<TyHirExprV, MplangErrorV>)
    decreases fuel, 4int, args, 0int,
{
    match m_fn(s, callee, t, ta, ca, fuel) {
        (at, Err(e)) => (at, Err(e)),
        (s1, Ok(id)) => {
            match m_type(s1, ret, t.generics, ta, ca, fuel) {
                (at, Err(e)) => (at, Err(e)),
                (s2, Ok(u)) => {
                    (
                        s2,
                        Ok(
                            TyHirExprV { ty: u, kind: TyHirExprKindV::Call { callee: id, args, turbofish: Seq::empty() } },
                        ),
                    )
                }
            }
        }
    }
}

/// A call of a function that is not generic.
pub open spec fn m_plain_call(
    s: MonoState,
    callee: DefId,
    args: Seq<TyHirExprV>,
    ret: HirTypeV,
    c: MonoScope,
    fuel: nat,
) -> (MonoState, Result<TyHirExprV, MplangErrorV>)
    decreases fuel, 4int, args, 0int,
{
    match m_type(s, ret, c.generics, c.types, c.consts, fuel) {
        (at, Err(e)) => (at, Err(e)),
        (s1, Ok(u)) => {
            (
                s1,
                Ok(
                    TyHirExprV { ty: u, kind: TyHirExprKindV::Call { callee, args, turbofish: Seq::empty() } },
                ),
            )
        }
    }
}

/// The struct that a literal of this type makes.
pub open spec fn literal_owner(ty: HirTypeV, def_id: DefId) -> DefId {
    match ty {
        HirTypeV::Named(d) => d,
        _ => def_id,
    }
}

/// An expression in a scope.
pub open spec fn m_expr(
    s: MonoState,
    e: TyHirExprV,
    c: MonoScope,
    fuel: nat,
) -> (MonoState, Result<TyHirExprV, MplangErrorV>)
    decreases fuel, 5int, e, 1int,
{
    match m_type(s, e.ty, c.generics, c.types, c.consts, fuel) {
        (at, Err(e)) => (at, Err(e)),
        (s1, Ok(ty)) => {
            m_kind(s1, e.kind, ty, c, fuel)
        }
    }
}

/// An expression in a scope, whose expanded type is `ty`.
pub open spec fn m_kind(
    s: MonoState,
    k: TyHirExprKindV,
    ty: HirTypeV,
    c: MonoScope,
    fuel: nat,
) -> (MonoState, Result<TyHirExprV, MplangErrorV>)
    decreases fuel, 5int, k, 0int,
{
    match k {
        TyHirExprKindV::Literal(l) => (s, Ok(TyHirExprV { ty, kind: k })),
        TyHirExprKindV::Path(d) => match lookup(c.values, d) {
            Some(v) => (
                s,
                Ok(
                    TyHirExprV { ty: HirTypeV::Int, kind: TyHirExprKindV::Literal(LiteralV::Int(v)) },
                ),
            ),
            None => (s, Ok(TyHirExprV { ty, kind: k })),
        },
        TyHirExprKindV::Binary { op, lhs, rhs } => {
            match m_expr(s, *lhs, c, fuel) {
                (at, Err(e)) => (at, Err(e)),
                (s1, Ok(l)) => {
                    match m_expr(s1, *rhs, c, fuel) {
                        (at, Err(e)) => (at, Err(e)),
                        (s2, Ok(r)) => {
                            (
                                s2,
                                Ok(
                                    TyHirExprV { ty, kind: TyHirExprKindV::Binary { op, lhs: Box::new(l), rhs: Box::new(r) } },
                                ),
                            )
                        }
                    }
                }
            }
        },
        TyHirExprKindV::Call { callee, args, turbofish } => {
            match m_exprs(s, args, c, 0, Seq::empty(), fuel) {
                (at, Err(e)) => (at, Err(e)),
                (s1, Ok(a)) => {
                    m_call(s1, callee, a, turbofish, ty, c, fuel)
                }
            }
        },
        TyHirExprKindV::FieldAccess { object, field } => {
            match m_expr(s, *object, c, fuel) {
                (at, Err(e)) => (at, Err(e)),
                (s1, Ok(o)) => {
                    (
                        s1,
                        Ok(
                            TyHirExprV { ty, kind: TyHirExprKindV::FieldAccess { object: Box::new(o), field } },
                        ),
                    )
                }
            }
        },
        TyHirExprKindV::StructLiteral { def_id, fields, turbofish } => {
            match m_inits(s, fields, c, 0, Seq::empty(), fuel) {
                (at, Err(e)) => (at, Err(e)),
                (s1, Ok(fs)) => {
                    (
                        s1,
                        Ok(
                            TyHirExprV { ty, kind: TyHirExprKindV::StructLiteral { def_id: literal_owner(ty, def_id), fields: fs, turbofish: Seq::empty() } },
                        ),
                    )
                }
            }
        },
        TyHirExprKindV::ArrayLiteral { elements, repeat } => {
            match m_exprs(s, elements, c, 0, Seq::empty(), fuel) {
                (at, Err(e)) => (at, Err(e)),
                (s1, Ok(es)) => {
                    (
                        s1,
                        Ok(
                            TyHirExprV { ty, kind: TyHirExprKindV::ArrayLiteral { elements: es, repeat } },
                        ),
                    )
                }
            }
        },
        TyHirExprKindV::Index { array, index } => {
            match m_expr(s, *array, c, fuel) {
                (at, Err(e)) => (at, Err(e)),
                (s1, Ok(a)) => {
                    match m_expr(s1, *index, c, fuel) {
                        (at, Err(e)) => (at, Err(e)),
                        (s2, Ok(i)) => {
                            (
                                s2,
                                Ok(
                                    TyHirExprV { ty, kind: TyHirExprKindV::Index { array: Box::new(a), index: Box::new(i) } },
                                ),
                            )
                        }
                    }
                }
            }
        },
        TyHirExprKindV::AddressOf(inner) => {
            match m_expr(s, *inner, c, fuel) {
                (at, Err(e)) => (at, Err(e)),
                (s1, Ok(x)) => {
                    (s1, Ok(TyHirExprV { ty, kind: TyHirExprKindV::AddressOf(Box::new(x)) }))
                }
            }
        },
        TyHirExprKindV::Deref(inner) => {
            match m_expr(s, *inner, c, fuel) {
                (at, Err(e)) => (at, Err(e)),
                (s1, Ok(x)) => {
                    (s1, Ok(TyHirExprV { ty, kind: TyHirExprKindV::Deref(Box::new(x)) }))
                }
            }
        },
        TyHirExprKindV::Variant { def_id, variant, args, turbofish } => {
            match m_exprs(s, args, c, 0, Seq::empty(), fuel) {
                (at, Err(e)) => (at, Err(e)),
                (s1, Ok(a)) => {
                    match m_targs(s1, turbofish, c, 0, Seq::empty(), fuel) {
                        (at, Err(e)) => (at, Err(e)),
                        (s2, Ok(given)) => {
                            (
                                s2,
                                Ok(
                                    TyHirExprV { ty, kind: TyHirExprKindV::Variant { def_id, variant, args: a, turbofish: given } },
                                ),
                            )
                        }
                    }
                }
            }
        },
        TyHirExprKindV::Match { scrutinee, arms } => {
            match m_expr(s, *scrutinee, c, fuel) {
                (at, Err(e)) => (at, Err(e)),
                (s1, Ok(v)) => {
                    match m_arms(s1, arms, c, 0, Seq::empty(), fuel) {
                        (at, Err(e)) => (at, Err(e)),
                        (s2, Ok(a)) => {
                            (
                                s2,
                                Ok(
                                    TyHirExprV { ty, kind: TyHirExprKindV::Match { scrutinee: Box::new(v), arms: a } },
                                ),
                            )
                        }
                    }
                }
            }
        },
        TyHirExprKindV::TraitCast { value, trait_def } => {
            match m_expr(s, *value, c, fuel) {
                (at, Err(e)) => (at, Err(e)),
                (s1, Ok(v)) => {
                    (
                        s1,
                        Ok(
                            TyHirExprV { ty, kind: TyHirExprKindV::TraitCast { value: Box::new(v), trait_def } },
                        ),
                    )
                }
            }
        },
        TyHirExprKindV::DynamicMethodCall { trait_def, method_index, receiver, args } => {
            match m_expr(s, *receiver, c, fuel) {
                (at, Err(e)) => (at, Err(e)),
                (s1, Ok(r)) => {
                    match m_exprs(s1, args, c, 0, Seq::empty(), fuel) {
                        (at, Err(e)) => (at, Err(e)),
                        (s2, Ok(a)) => {
                            (
                                s2,
                                Ok(
                                    TyHirExprV { ty, kind: TyHirExprKindV::DynamicMethodCall { trait_def, method_index, receiver: Box::new(r), args: a } },
                                ),
                            )
                        }
                    }
                }
            }
        },
    }
}

/// Expressions from `i` on, behind `done`.
pub open spec fn m_exprs(
    s: MonoState,
    es: Seq<TyHirExprV>,
    c: MonoScope,
    i: int,
    done: Seq<TyHirExprV>,
    fuel: nat,
) -> (MonoState, Result<Seq<TyHirExprV>, MplangErrorV>)
    decreases fuel, 5int, es, es.len() - i,
{
    if i < 0 || i >= es.len() {
        (s, Ok(done))
    } else {
        match m_expr(s, es[i], c, fuel) {
            (at, Err(e)) => (at, Err(e)),
            (s1, Ok(x)) => {
                m_exprs(s1, es, c, i + 1, done.push(x), fuel)
            }
        }
    }
}

/// The values of a struct literal from `i` on, behind `done`.
pub open spec fn m_inits(
    s: MonoState,
    fs: Seq<(DefId, TyHirExprV)>,
    c: MonoScope,
    i: int,
    done: Seq<(DefId, TyHirExprV)>,
    fuel: nat,
) -> (MonoState, Result<Seq<(DefId, TyHirExprV)>, MplangErrorV>)
    decreases fuel, 5int, fs, fs.len() - i,
{
    if i < 0 || i >= fs.len() {
        (s, Ok(done))
    } else {
        match m_expr(s, fs[i].1, c, fuel) {
            (at, Err(e)) => (at, Err(e)),
            (s1, Ok(x)) => {
                m_inits(s1, fs, c, i + 1, done.push((fs[i].0, x)), fuel)
            }
        }
    }
}

/// The bindings of a pattern from `i` on, behind `done`.
pub open spec fn m_bindings(
    s: MonoState,
    bs: Seq<(DefId, Option<HirTypeV>)>,
    c: MonoScope,
    i: int,
    done: Seq<(DefId, Option<HirTypeV>)>,
    fuel: nat,
) -> (MonoState, Result<Seq<(DefId, Option<HirTypeV>)>, MplangErrorV>)
    decreases fuel, 4int, bs, bs.len() - i,
{
    if i < 0 || i >= bs.len() {
        (s, Ok(done))
    } else {
        match m_opt_type(s, bs[i].1, c.generics, c.types, c.consts, fuel) {
            (at, Err(e)) => (at, Err(e)),
            (s1, Ok(t)) => {
                m_bindings(s1, bs, c, i + 1, done.push((bs[i].0, t)), fuel)
            }
        }
    }
}

/// A pattern.
#[verifier::opaque]
pub open spec fn m_pattern(s: MonoState, p: TyHirPatternV, c: MonoScope, fuel: nat) -> (
    MonoState,
    Result<TyHirPatternV, MplangErrorV>,
)
{
    match p {
        TyHirPatternV::Variant { enum_def, variant, bindings } => {
            match m_bindings(s, bindings, c, 0, Seq::empty(), fuel) {
                (at, Err(e)) => (at, Err(e)),
                (s1, Ok(bs)) => {
                    (s1, Ok(TyHirPatternV::Variant { enum_def, variant, bindings: bs }))
                }
            }
        },
        _ => (s, Ok(p)),
    }
}

/// The arms of a match from `i` on, behind `done`.
pub open spec fn m_arms(
    s: MonoState,
    arms: Seq<TyHirMatchArmV>,
    c: MonoScope,
    i: int,
    done: Seq<TyHirMatchArmV>,
    fuel: nat,
) -> (MonoState, Result<Seq<TyHirMatchArmV>, MplangErrorV>)
    decreases fuel, 5int, arms, arms.len() - i,
{
    if i < 0 || i >= arms.len() {
        (s, Ok(done))
    } else {
        match m_pattern(s, arms[i].pattern, c, fuel) {
            (at, Err(e)) => (at, Err(e)),
            (s1, Ok(pattern)) => {
                match m_stmts(s1, arms[i].body.stmts, c, 0, Seq::empty(), fuel) {
                    (at, Err(e)) => (at, Err(e)),
                    (s2, Ok(b)) => {
                        m_arms(
                            s2,
                            arms,
                            c,
                            i + 1,
                            done.push(
                                TyHirMatchArmV { pattern, body: TyHirBodyV { stmts: b } },
                            ),
                            fuel,
                        )
                    }
                }
            }
        }
    }
}

/// A statement in a scope.
pub open spec fn m_stmt(
    s: MonoState,
    st: TyHirStmtV,
    c: MonoScope,
    fuel: nat,
) -> (MonoState, Result<TyHirStmtV, MplangErrorV>)
    decreases fuel, 5int, st, 0int,
{
    match st {
        TyHirStmtV::Let { def_id, name, ty, init } => {
            match m_type(s, ty, c.generics, c.types, c.consts, fuel) {
                (at, Err(e)) => (at, Err(e)),
                (s1, Ok(t)) => {
                    match m_expr(s1, init, c, fuel) {
                        (at, Err(e)) => (at, Err(e)),
                        (s2, Ok(v)) => {
                            (s2, Ok(TyHirStmtV::Let { def_id, name, ty: t, init: v }))
                        }
                    }
                }
            }
        },
        TyHirStmtV::Assign { target, value } => {
            match m_expr(s, target, c, fuel) {
                (at, Err(e)) => (at, Err(e)),
                (s1, Ok(t)) => {
                    match m_expr(s1, value, c, fuel) {
                        (at, Err(e)) => (at, Err(e)),
                        (s2, Ok(v)) => {
                            (s2, Ok(TyHirStmtV::Assign { target: t, value: v }))
                        }
                    }
                }
            }
        },
        TyHirStmtV::Expr(e) => {
            match m_expr(s, e, c, fuel) {
                (at, Err(e)) => (at, Err(e)),
                (s1, Ok(v)) => {
                    (s1, Ok(TyHirStmtV::Expr(v)))
                }
            }
        },
        TyHirStmtV::If { cond, then_branch, else_branch } => {
            match m_expr(s, cond, c, fuel) {
                (at, Err(e)) => (at, Err(e)),
                (s1, Ok(v)) => {
                    match m_stmts(s1, then_branch.stmts, c, 0, Seq::empty(), fuel) {
                        (at, Err(e)) => (at, Err(e)),
                        (s2, Ok(a)) => {
                            match else_branch {
                                Some(other) => {
                                    match m_stmts(s2, other.stmts, c, 0, Seq::empty(), fuel) {
                                        (at, Err(e)) => (at, Err(e)),
                                        (s3, Ok(b)) => {
                                            (
                                                s3,
                                                Ok(
                                                    TyHirStmtV::If { cond: v, then_branch: TyHirBodyV { stmts: a }, else_branch: Some(TyHirBodyV { stmts: b }) },
                                                ),
                                            )
                                        }
                                    }
                                },
                                None => (
                                    s2,
                                    Ok(
                                        TyHirStmtV::If { cond: v, then_branch: TyHirBodyV { stmts: a }, else_branch: None },
                                    ),
                                ),
                            }
                        }
                    }
                }
            }
        },
        TyHirStmtV::While { cond, body } => {
            match m_expr(s, cond, c, fuel) {
                (at, Err(e)) => (at, Err(e)),
                (s1, Ok(v)) => {
                    match m_stmts(s1, body.stmts, c, 0, Seq::empty(), fuel) {
                        (at, Err(e)) => (at, Err(e)),
                        (s2, Ok(b)) => {
                            (s2, Ok(TyHirStmtV::While { cond: v, body: TyHirBodyV { stmts: b } }))
                        }
                    }
                }
            }
        },
        TyHirStmtV::Return(value) => match value {
            Some(e) => {
                match m_expr(s, e, c, fuel) {
                    (at, Err(e)) => (at, Err(e)),
                    (s1, Ok(v)) => {
                        (s1, Ok(TyHirStmtV::Return(Some(v))))
                    }
                }
            },
            None => (s, Ok(TyHirStmtV::Return(None))),
        },
    }
}

/// Statements from `i` on, behind `done`.
pub open spec fn m_stmts(
    s: MonoState,
    stmts: Seq<TyHirStmtV>,
    c: MonoScope,
    i: int,
    done: Seq<TyHirStmtV>,
    fuel: nat,
) -> (MonoState, Result<Seq<TyHirStmtV>, MplangErrorV>)
    decreases fuel, 5int, stmts, stmts.len() - i,
{
    if i < 0 || i >= stmts.len() {
        (s, Ok(done))
    } else {
        match m_stmt(s, stmts[i], c, fuel) {
            (at, Err(e)) => (at, Err(e)),
            (s1, Ok(x)) => {
                m_stmts(s1, stmts, c, i + 1, done.push(x), fuel)
            }
        }
    }
}

// Items

/// Whether an item is a generic definition, which only its instances stand for.
pub open spec fn is_template(item: TyHirItemV) -> bool {
    match item {
        TyHirItemV::Fn { generics, .. } => generics.len() > 0,
        TyHirItemV::Struct { generics, .. } => generics.len() > 0,
        _ => false,
    }
}

/// The variants of an enumeration from `i` on, behind `done`.
pub open spec fn m_variants(
    s: MonoState,
    vs: Seq<TyHirEnumVariantV>,
    i: int,
    done: Seq<TyHirEnumVariantV>,
    fuel: nat,
) -> (MonoState, Result<Seq<TyHirEnumVariantV>, MplangErrorV>)
    decreases vs.len() - i,
{
    if i < 0 || i >= vs.len() {
        (s, Ok(done))
    } else {
        match m_own_fields(s, vs[i].fields, fuel) {
            (at, Err(e)) => (at, Err(e)),
            (s1, Ok(m)) => {
                m_variants(
                    s1,
                    vs,
                    i + 1,
                    done.push(TyHirEnumVariantV { fields: m, ..vs[i] }),
                    fuel,
                )
            }
        }
    }
}

/// An item that is no generic function or struct. A generic enumeration stays as
/// it is: its layout leaves room for every argument.
pub open spec fn m_item(
    s: MonoState,
    item: TyHirItemV,
    fuel: nat,
) -> (MonoState, Result<TyHirItemV, MplangErrorV>)
    decreases item, 0int,
{
    match item {
        TyHirItemV::Module(m) => {
            match m_items(s, m.items, 0, Seq::empty(), fuel) {
                (at, Err(e)) => (at, Err(e)),
                (s1, Ok(items)) => {
                    (s1, Ok(TyHirItemV::Module(TyHirModuleV { items, ..m })))
                }
            }
        },
        TyHirItemV::Fn { def_id, visibility, attributes, name, params, return_ty, body, impl_receiver, .. } => {
            match m_stmts(s, body.stmts, outer_scope(), 0, Seq::empty(), fuel) {
                (at, Err(e)) => (at, Err(e)),
                (s1, Ok(b)) => {
                    match m_header(s1, params, return_ty, impl_receiver, outer_scope(), fuel) {
                        (at, Err(e)) => (at, Err(e)),
                        (s2, Ok(h)) => {
                            (
                                s2,
                                Ok(
                                    TyHirItemV::Fn { def_id, visibility, attributes, name, generics: Seq::empty(), params: h.0, return_ty: h.1, body: TyHirBodyV { stmts: b }, impl_receiver: h.2 },
                                ),
                            )
                        }
                    }
                }
            }
        },
        TyHirItemV::Static { def_id, visibility, attributes, name, ty, init, is_const } => {
            match m_type(s, ty, Seq::empty(), Seq::empty(), Seq::empty(), fuel) {
                (at, Err(e)) => (at, Err(e)),
                (s1, Ok(u)) => {
                    match m_expr(s1, init, outer_scope(), fuel) {
                        (at, Err(e)) => (at, Err(e)),
                        (s2, Ok(v)) => {
                            (
                                s2,
                                Ok(
                                    TyHirItemV::Static { def_id, visibility, attributes, name, ty: u, init: v, is_const },
                                ),
                            )
                        }
                    }
                }
            }
        },
        TyHirItemV::Struct { def_id, visibility, attributes, name, generics, fields } => {
            match m_own_fields(s, fields, fuel) {
                (at, Err(e)) => (at, Err(e)),
                (s1, Ok(m)) => {
                    (
                        s1,
                        Ok(
                            TyHirItemV::Struct { def_id, visibility, attributes, name, generics, fields: m },
                        ),
                    )
                }
            }
        },
        TyHirItemV::ExternFn { def_id, visibility, attributes, link_name, name, param_types, return_ty, is_variadic } => {
            match m_types(s, param_types, outer_scope(), 0, Seq::empty(), fuel) {
                (at, Err(e)) => (at, Err(e)),
                (s1, Ok(ts)) => {
                    match m_type(s1, return_ty, Seq::empty(), Seq::empty(), Seq::empty(), fuel) {
                        (at, Err(e)) => (at, Err(e)),
                        (s2, Ok(u)) => {
                            (
                                s2,
                                Ok(
                                    TyHirItemV::ExternFn { def_id, visibility, attributes, link_name, name, param_types: ts, return_ty: u, is_variadic },
                                ),
                            )
                        }
                    }
                }
            }
        },
        TyHirItemV::Enum { def_id, visibility, attributes, name, generics, variants } => if generics.len() > 0 {
            (s, Ok(item))
        } else {
            match m_variants(s, variants, 0, Seq::empty(), fuel) {
                (at, Err(e)) => (at, Err(e)),
                (s1, Ok(vs)) => {
                    (
                        s1,
                        Ok(
                            TyHirItemV::Enum { def_id, visibility, attributes, name, generics, variants: vs },
                        ),
                    )
                }
            }
        },
        TyHirItemV::VTable { .. } => (s, Ok(item)),
    }
}

/// Items from `i` on, behind `done`, without the generic definitions.
pub open spec fn m_items(
    s: MonoState,
    items: Seq<TyHirItemV>,
    i: int,
    done: Seq<TyHirItemV>,
    fuel: nat,
) -> (MonoState, Result<Seq<TyHirItemV>, MplangErrorV>)
    decreases items, items.len() - i,
{
    if i < 0 || i >= items.len() {
        (s, Ok(done))
    } else if is_template(items[i]) {
        m_items(s, items, i + 1, done, fuel)
    } else {
        match m_item(s, items[i], fuel) {
            (at, Err(e)) => (at, Err(e)),
            (s1, Ok(x)) => {
                m_items(s1, items, i + 1, done.push(x), fuel)
            }
        }
    }
}

/// The generic functions and the structs of the items from `i` on are known.
pub open spec fn m_collect(s: MonoState, items: Seq<TyHirItemV>, i: int) -> MonoState
    decreases items, items.len() - i,
{
    if i < 0 || i >= items.len() {
        s
    } else {
        let s1 = match items[i] {
            TyHirItemV::Fn { def_id, generics, params, return_ty, body, impl_receiver, .. } => if generics.len() > 0 {
                MonoState { fns: s.fns.insert(def_id, FnTemplateV { generics, params, return_ty, body, impl_receiver }), ..s }
            } else {
                s
            },
            TyHirItemV::Struct { def_id, generics, fields, .. } => MonoState { structs: s.structs.insert(def_id, StructTemplateV { generics, fields }), ..s },
            TyHirItemV::Module(m) => m_collect(s, m.items, 0),
            _ => s,
        };
        m_collect(s1, items, i + 1)
    }
}

/// The state in which nothing is expanded and the next definition has number
/// `next_id`.
pub open spec fn empty_state(next_id: u32) -> MonoState {
    MonoState {
        fns: Map::empty(),
        structs: Map::empty(),
        fn_instances: Map::empty(),
        struct_instances: Map::empty(),
        origins: Map::empty(),
        out: Seq::empty(),
        next_id,
    }
}

/// A program without generic definitions, with an instance for each use of one,
/// where requests for instances nest no deeper than `fuel`.
pub open spec fn expanded(
    unit: TyHirCompilationUnitV,
    fuel: nat,
) -> Result<TyHirCompilationUnitV, MplangErrorV> {
    let top = unit_max(unit);
    if top == u32::MAX {
        Err(error_of(ErrorKind::Other, "attempt to add with overflow"@))
    } else {
        match m_items(
            m_collect(empty_state((top + 1) as u32), unit.root_module.items, 0),
            unit.root_module.items,
            0,
            Seq::empty(),
            fuel,
        ) {
            (_, Err(e)) => Err(e),
            (s, Ok(items)) => Ok(
                TyHirCompilationUnitV { root_module: TyHirModuleV { items: items + s.out, ..unit.root_module }, vtables: unit.vtables },
            ),
        }
    }
}

} // verus!

