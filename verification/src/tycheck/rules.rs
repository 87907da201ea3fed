//! The typing rules.
//!
//! [`CheckState`] is what the checker knows. A function that changes it returns
//! the new state together with its result; after an error the state is the one
//! in which the error was met.

use crate::ast::{BinOp, GenericParamKind, GenericParamV, LiteralV};
use crate::error::{error_of, ErrorKind, MplangErrorV};
use crate::hir::{
    shown_def, shown_type, ArrayLen, ConstArg, DefId, HirCompilationUnitV, HirEnumVariantV,
    HirExprV, HirFieldV, HirItemV, HirMatchArmV, HirModuleV, HirParamV, HirPatternV, HirStmtV,
    HirTypeV, ParamKind, TypeOrConstV,
};
use crate::table::lookup;
use crate::text::decimal;
use crate::tycheck::info::{EnumInfoV, EnumVariantInfoV, FuncSigV, StructFieldInfoV};
use crate::tyhir::{
    TyHirBodyV, TyHirCompilationUnitV, TyHirEnumVariantV, TyHirExprKindV, TyHirExprV, TyHirFieldV,
    TyHirItemV, TyHirMatchArmV, TyHirModuleV, TyHirParamV, TyHirPatternV, TyHirStmtV,
};
use vstd::prelude::*;

verus! {

/// What the checker knows.
#[verifier::ext_equal]
pub struct CheckState {
    /// The fields of each struct.
    pub struct_fields: Map<DefId, Seq<StructFieldInfoV>>,
    /// The generic parameters of each struct and enumeration.
    pub struct_generics: Map<DefId, Seq<GenericParamV>>,
    /// The signature of each function.
    pub func_sigs: Map<DefId, FuncSigV>,
    /// The methods, by receiver type and name.
    pub methods: Map<(HirTypeV, Seq<char>), DefId>,
    /// The type of each variable.
    pub def_types: Map<DefId, HirTypeV>,
    /// The name of each definition.
    pub names: Map<DefId, Seq<char>>,
    /// The enumerations, in the order in which they were met.
    pub enums: Seq<EnumInfoV>,
    /// The type that a `let` asks of its initial value.
    pub expected: Option<HirTypeV>,
}

/// The state in which a checker begins.
pub open spec fn initial_state() -> CheckState {
    CheckState {
        struct_fields: Map::empty(),
        struct_generics: Map::empty(),
        func_sigs: Map::empty(),
        methods: Map::empty(),
        def_types: Map::empty(),
        names: Map::empty(),
        enums: Seq::empty(),
        expected: None,
    }
}

// Errors

/// A type error.
pub open spec fn type_error(message: Seq<char>) -> MplangErrorV {
    error_of(ErrorKind::TypeCheck, message)
}

/// The error for an index behind the end of a list.
#[verifier::opaque]
pub open spec fn bad_index(len: nat, index: nat) -> MplangErrorV {
    error_of(
        ErrorKind::Other,
        "index out of bounds: the len is "@ + decimal(len) + " but the index is "@ + decimal(index),
    )
}

/// The error for a range that ends behind the end of a list.
#[verifier::opaque]
pub open spec fn bad_range(end: nat, len: nat) -> MplangErrorV {
    error_of(
        ErrorKind::Other,
        "range end index "@ + decimal(end) + " out of range for slice of length "@ + decimal(len),
    )
}

/// The error for a method without a receiver.
pub open spec fn no_receiver() -> MplangErrorV {
    error_of(ErrorKind::Other, "attempt to subtract with overflow"@)
}

/// The name of a definition, or its number where it has none.
pub open spec fn name_of(s: CheckState, d: DefId) -> Seq<char> {
    match lookup(s.names, d) {
        Some(name) => name,
        None => "#"@ + shown_def(d),
    }
}

/// The error for finding another type than the expected one.
#[verifier::opaque]
pub open spec fn mismatch(ctx: Seq<char>, expected: HirTypeV, actual: HirTypeV) -> MplangErrorV {
    type_error(ctx + "：期望 "@ + shown_type(expected) + "，实际 "@ + shown_type(actual))
}

/// The type must be the expected one.
pub open spec fn assert_ty(
    actual: HirTypeV,
    expected: HirTypeV,
    ctx: Seq<char>,
) -> Result<(), MplangErrorV> {
    if actual == expected {
        Ok(())
    } else {
        Err(mismatch(ctx, expected, actual))
    }
}

/// `open` + `name` + `close`.
pub open spec fn about(a: Seq<char>, name: Seq<char>, b: Seq<char>) -> Seq<char> {
    a + name + b
}

/// A type error about a name.
#[verifier::opaque]
pub open spec fn error_about(a: Seq<char>, name: Seq<char>, b: Seq<char>) -> MplangErrorV {
    type_error(a + name + b)
}

/// A type error about two names.
#[verifier::opaque]
pub open spec fn error_about2(
    a: Seq<char>,
    x: Seq<char>,
    b: Seq<char>,
    y: Seq<char>,
    c: Seq<char>,
) -> MplangErrorV {
    type_error(a + x + b + y + c)
}

/// A type error about a name and two counts.
#[verifier::opaque]
pub open spec fn count_error(
    a: Seq<char>,
    name: Seq<char>,
    b: Seq<char>,
    want: nat,
    c: Seq<char>,
    got: nat,
) -> MplangErrorV {
    type_error(a + name + b + decimal(want) + c + decimal(got))
}

/// The error for a variable without a type.
#[verifier::opaque]
pub open spec fn untyped(name: Seq<char>) -> MplangErrorV {
    error_of(ErrorKind::Other, "未找到定义 `"@ + name + "` 的类型（内部错误）"@)
}

/// The error for a second method of the same name on a type.
#[verifier::opaque]
pub open spec fn second_method(recv: HirTypeV, name: Seq<char>) -> MplangErrorV {
    error_of(
        ErrorKind::Lowering,
        "类型 "@ + shown_type(recv) + " 重复为方法 `"@ + name + "` 提供实现（一个类型上同一方法只能实现一次）"@,
    )
}

/// The context of an argument: its function and its position.
#[verifier::opaque]
pub open spec fn argument_ctx(a: Seq<char>, name: Seq<char>, i: nat) -> Seq<char> {
    a + name + "` 第 "@ + decimal(i) + " 个参数"@
}

// Collecting definitions

/// The fields from `i` on are named.
pub open spec fn name_fields(
    names: Map<DefId, Seq<char>>,
    fs: Seq<HirFieldV>,
    i: int,
) -> Map<DefId, Seq<char>>
    decreases fs.len() - i,
{
    if i >= fs.len() {
        names
    } else {
        name_fields(names.insert(fs[i].def_id, fs[i].name), fs, i + 1)
    }
}

/// What is known of the fields of a struct.
pub open spec fn field_infos(fs: Seq<HirFieldV>) -> Seq<StructFieldInfoV> {
    fs.map_values(|f: HirFieldV| StructFieldInfoV { name: f.name, def_id: f.def_id, ty: f.ty })
}

/// What is known of a variant.
pub open spec fn variant_info(v: HirEnumVariantV) -> EnumVariantInfoV {
    EnumVariantInfoV { name: v.name, tag: v.tag, fields: v.fields.map_values(|f: HirFieldV| (f.name, f.def_id, f.ty)) }
}

/// The types of the value parameters from `i` on, behind `done`.
pub open spec fn value_types(ps: Seq<HirParamV>, i: int, done: Seq<HirTypeV>) -> Seq<HirTypeV>
    decreases ps.len() - i,
{
    if i >= ps.len() {
        done
    } else if ps[i].kind == ParamKind::Value {
        value_types(ps, i + 1, done.push(ps[i].ty))
    } else {
        value_types(ps, i + 1, done)
    }
}

/// The type by which the methods of a receiver are found: generic arguments do
/// not matter.
pub open spec fn method_owner(t: HirTypeV) -> HirTypeV {
    match t {
        HirTypeV::Generic(d, _, _) => HirTypeV::Named(d),
        HirTypeV::Enum(d, _, _) => HirTypeV::Named(d),
        _ => t,
    }
}

/// The enumerations with the variants of one set; one from `i` on that is
/// already there is replaced.
pub open spec fn set_enum(es: Seq<EnumInfoV>, e: EnumInfoV, i: int) -> Seq<EnumInfoV>
    decreases es.len() - i,
{
    if i < 0 || i >= es.len() {
        es.push(e)
    } else if es[i].def_id == e.def_id {
        es.update(i, e)
    } else {
        set_enum(es, e, i + 1)
    }
}

/// The variants of an enumeration, searched from `i` on.
pub open spec fn enum_of(es: Seq<EnumInfoV>, d: DefId, i: int) -> Option<Seq<EnumVariantInfoV>>
    decreases es.len() - i,
{
    if i >= es.len() {
        None
    } else if es[i].def_id == d {
        Some(es[i].variants)
    } else {
        enum_of(es, d, i + 1)
    }
}

/// Takes note of a method.
pub open spec fn collect_method(
    s: CheckState,
    recv: Option<HirTypeV>,
    name: Seq<char>,
    d: DefId,
) -> (CheckState, Result<(), MplangErrorV>) {
    match recv {
        None => (s, Ok(())),
        Some(t) => {
            let key = (method_owner(t), name);
            if s.methods.dom().contains(key) {
                (s, Err(second_method(t, name)))
            } else {
                (CheckState { methods: s.methods.insert(key, d), ..s }, Ok(()))
            }
        },
    }
}

/// Takes note of an item.
pub open spec fn collect_item(
    s: CheckState,
    item: HirItemV,
) -> (CheckState, Result<(), MplangErrorV>)
    decreases item, 0int,
{
    match item {
        HirItemV::Module(m) => collect_module(s, m),
        HirItemV::Struct { def_id, name, generics, fields, .. } => (
            CheckState { names: name_fields(s.names.insert(def_id, name), fields, 0), struct_generics: s.struct_generics.insert(def_id, generics), struct_fields: s.struct_fields.insert(def_id, field_infos(fields)), ..s },
            Ok(()),
        ),
        HirItemV::Enum { def_id, name, generics, variants, .. } => (
            CheckState { names: s.names.insert(def_id, name), struct_generics: s.struct_generics.insert(def_id, generics), enums: set_enum(s.enums, EnumInfoV { def_id, variants: variants.map_values(|v: HirEnumVariantV| variant_info(v)) }, 0), ..s },
            Ok(()),
        ),
        HirItemV::ExternFn { def_id, name, param_types, return_ty, is_variadic, .. } => (
            CheckState { names: s.names.insert(def_id, name), func_sigs: s.func_sigs.insert(def_id, FuncSigV { generics: Seq::empty(), param_types, ret_ty: return_ty, is_variadic }), ..s },
            Ok(()),
        ),
        HirItemV::Fn { def_id, name, generics, params, return_ty, impl_receiver, .. } => collect_method(CheckState { names: s.names.insert(def_id, name), func_sigs: s.func_sigs.insert(def_id, FuncSigV { generics, param_types: value_types(params, 0, Seq::empty()), ret_ty: return_ty, is_variadic: false }), ..s }, impl_receiver, name, def_id),
        HirItemV::Static { def_id, name, ty, .. } => (
            CheckState { names: s.names.insert(def_id, name), def_types: s.def_types.insert(def_id, ty), ..s },
            Ok(()),
        ),
    }
}

/// Takes note of the items from `i` on.
pub open spec fn collect_items(
    s: CheckState,
    items: Seq<HirItemV>,
    i: int,
) -> (CheckState, Result<(), MplangErrorV>)
    decreases items, items.len() - i,
{
    if i < 0 || i >= items.len() {
        (s, Ok(()))
    } else {
        match collect_item(s, items[i]) {
            (at, Err(e)) => (at, Err(e)),
            (s1, Ok(_u)) => {
                collect_items(s1, items, i + 1)
            }
        }
    }
}

/// Takes note of a module.
pub open spec fn collect_module(
    s: CheckState,
    m: HirModuleV,
) -> (CheckState, Result<(), MplangErrorV>)
    decreases m, 0int,
{
    collect_items(CheckState { names: s.names.insert(m.def_id, m.name), ..s }, m.items, 0)
}

// Generic arguments

/// How many of the first `k` generic parameters have this kind.
pub open spec fn count_kind(gs: Seq<GenericParamV>, kind: GenericParamKind, k: int) -> nat
    decreases k,
{
    if k <= 0 {
        0
    } else {
        count_kind(gs, kind, k - 1) + if gs[k - 1].kind == kind { 1nat } else { 0nat }
    }
}

/// The position of generic parameter `k` among those of this kind.
pub open spec fn slot(
    gs: Seq<GenericParamV>,
    kind: GenericParamKind,
    k: usize,
) -> Result<nat, MplangErrorV> {
    if k > gs.len() {
        Err(bad_range(k as nat, gs.len()))
    } else {
        Ok(count_kind(gs, kind, k as int))
    }
}

/// A constant argument with a reference to a parameter replaced by its value.
pub open spec fn resolve_const(
    c: ConstArg,
    gs: Seq<GenericParamV>,
    ca: Seq<ConstArg>,
) -> Result<ConstArg, MplangErrorV> {
    match c {
        ConstArg::Literal(v) => Ok(ConstArg::Literal(v)),
        ConstArg::Param(i) => {
            match slot(gs, GenericParamKind::Const, i) {
                Err(e) => Err(e),
                Ok(q) => {
                    if q < ca.len() {
                        Ok(ca[q as int])
                    } else {
                        Err(bad_index(ca.len(), q))
                    }
                }
            }
        },
    }
}

/// Constant arguments from `i` on, behind `done`.
pub open spec fn resolve_consts(
    cs: Seq<ConstArg>,
    gs: Seq<GenericParamV>,
    ca: Seq<ConstArg>,
    i: int,
    done: Seq<ConstArg>,
) -> Result<Seq<ConstArg>, MplangErrorV>
    decreases cs.len() - i,
{
    if i >= cs.len() {
        Ok(done)
    } else {
        match resolve_const(cs[i], gs, ca) {
            Err(e) => Err(e),
            Ok(c) => {
                resolve_consts(cs, gs, ca, i + 1, done.push(c))
            }
        }
    }
}

/// The array length that a constant argument gives.
pub open spec fn len_of(c: ConstArg, i: usize) -> ArrayLen {
    match c {
        ConstArg::Literal(v) => ArrayLen::Known(v as usize),
        ConstArg::Param(_) => ArrayLen::Const(i),
    }
}

/// An array length with a constant parameter replaced by its value.
pub open spec fn subst_len(
    n: ArrayLen,
    gs: Seq<GenericParamV>,
    ca: Seq<ConstArg>,
) -> Result<ArrayLen, MplangErrorV> {
    match n {
        ArrayLen::Known(k) => Ok(ArrayLen::Known(k)),
        ArrayLen::Const(i) => {
            match resolve_const(ConstArg::Param(i), gs, ca) {
                Err(e) => Err(e),
                Ok(c) => {
                    Ok(len_of(c, i))
                }
            }
        },
    }
}

/// A type with its generic parameters `gs` replaced by arguments.
pub open spec fn subst_type(
    t: HirTypeV,
    gs: Seq<GenericParamV>,
    ta: Seq<HirTypeV>,
    ca: Seq<ConstArg>,
) -> Result<HirTypeV, MplangErrorV>
    decreases t, 0int,
{
    match t {
        HirTypeV::Var(i) => {
            match slot(gs, GenericParamKind::Type, i) {
                Err(e) => Err(e),
                Ok(p) => {
                    if p < ta.len() {
                        Ok(ta[p as int])
                    } else {
                        Err(bad_index(ta.len(), p))
                    }
                }
            }
        },
        HirTypeV::Generic(d, ts, cs) => {
            match subst_types(ts, gs, ta, ca, 0, Seq::empty()) {
                Err(e) => Err(e),
                Ok(us) => {
                    match resolve_consts(cs, gs, ca, 0, Seq::empty()) {
                        Err(e) => Err(e),
                        Ok(ds) => {
                            Ok(HirTypeV::Generic(d, us, ds))
                        }
                    }
                }
            }
        },
        HirTypeV::Enum(d, ts, cs) => {
            match subst_types(ts, gs, ta, ca, 0, Seq::empty()) {
                Err(e) => Err(e),
                Ok(us) => {
                    match resolve_consts(cs, gs, ca, 0, Seq::empty()) {
                        Err(e) => Err(e),
                        Ok(ds) => {
                            Ok(HirTypeV::Enum(d, us, ds))
                        }
                    }
                }
            }
        },
        HirTypeV::Pointer(e) => {
            match subst_type(*e, gs, ta, ca) {
                Err(e) => Err(e),
                Ok(u) => {
                    Ok(HirTypeV::Pointer(Box::new(u)))
                }
            }
        },
        HirTypeV::Array(e, n) => {
            match subst_len(n, gs, ca) {
                Err(e) => Err(e),
                Ok(m) => {
                    match subst_type(*e, gs, ta, ca) {
                        Err(e) => Err(e),
                        Ok(u) => {
                            Ok(HirTypeV::Array(Box::new(u), m))
                        }
                    }
                }
            }
        },
        _ => Ok(t),
    }
}

/// Types from `i` on with their generic parameters replaced, behind `done`.
pub open spec fn subst_types(
    ts: Seq<HirTypeV>,
    gs: Seq<GenericParamV>,
    ta: Seq<HirTypeV>,
    ca: Seq<ConstArg>,
    i: int,
    done: Seq<HirTypeV>,
) -> Result<Seq<HirTypeV>, MplangErrorV>
    decreases ts, ts.len() - i,
{
    if i < 0 || i >= ts.len() {
        Ok(done)
    } else {
        match subst_type(ts[i], gs, ta, ca) {
            Err(e) => Err(e),
            Ok(u) => {
                subst_types(ts, gs, ta, ca, i + 1, done.push(u))
            }
        }
    }
}

/// The error for a type parameter that would stand for two types.
pub open spec fn conflict() -> MplangErrorV {
    type_error("泛型类型参数推断冲突（同一类型参数被推导为不同的具体类型）"@)
}

/// The type arguments that matching `actual` against `expected` finds, on top
/// of those in `ta`. Where the two differ in shape, nothing is found.
pub open spec fn unify(
    expected: HirTypeV,
    actual: HirTypeV,
    gs: Seq<GenericParamV>,
    ta: Seq<Option<HirTypeV>>,
) -> Result<Seq<Option<HirTypeV>>, MplangErrorV>
    decreases expected, 0int,
{
    match expected {
        HirTypeV::Var(j) => {
            match slot(gs, GenericParamKind::Type, j) {
                Err(e) => Err(e),
                Ok(p) => {
                    if p >= ta.len() {
                        Err(bad_index(ta.len(), p))
                    } else {
                        match ta[p as int] {
                            None => Ok(ta.update(p as int, Some(actual))),
                            Some(t) => if t == actual { Ok(ta) } else { Err(conflict()) },
                        }
                    }
                }
            }
        },
        HirTypeV::Pointer(e) => match actual {
            HirTypeV::Pointer(a) => unify(*e, *a, gs, ta),
            _ => Ok(ta),
        },
        HirTypeV::Array(e, _) => match actual {
            HirTypeV::Array(a, _) => unify(*e, *a, gs, ta),
            _ => Ok(ta),
        },
        HirTypeV::Generic(d, ts, _) => match actual {
            HirTypeV::Generic(
                f,
                us,
                _,
            ) => if d == f { unify_all(ts, us, gs, 0, ta) } else { Ok(ta) },
            _ => Ok(ta),
        },
        HirTypeV::Enum(d, ts, _) => match actual {
            HirTypeV::Enum(f, us, _) => if d == f { unify_all(ts, us, gs, 0, ta) } else { Ok(ta) },
            _ => Ok(ta),
        },
        _ => Ok(ta),
    }
}

/// The same for two lists of types from `i` on, as far as both reach.
pub open spec fn unify_all(
    expected: Seq<HirTypeV>,
    actual: Seq<HirTypeV>,
    gs: Seq<GenericParamV>,
    i: int,
    ta: Seq<Option<HirTypeV>>,
) -> Result<Seq<Option<HirTypeV>>, MplangErrorV>
    decreases expected, expected.len() - i,
{
    if i < 0 || i >= expected.len() || i >= actual.len() {
        Ok(ta)
    } else {
        match unify(expected[i], actual[i], gs, ta) {
            Err(e) => Err(e),
            Ok(next) => {
                unify_all(expected, actual, gs, i + 1, next)
            }
        }
    }
}

/// `n` arguments that are not known yet.
pub open spec fn unknown<T>(n: nat) -> Seq<Option<T>> {
    Seq::new(n, |i: int| None)
}

/// The generic arguments of a call: types and constants, as far as known.
pub struct GenericArgs {
    pub types: Seq<Option<HirTypeV>>,
    pub consts: Seq<Option<ConstArg>>,
}

/// The error of one explicit generic argument of another kind than declared.
pub open spec fn wrong_kind() -> MplangErrorV {
    type_error("泛型实参种类与声明不符（类型参数需要类型，常量参数需要整型）"@)
}

/// The error for an explicit constant argument that is a parameter.
pub open spec fn open_const() -> MplangErrorV {
    type_error("常量参数名引用无法在调用处解析，请改用整数字面量"@)
}

/// The explicit generic arguments of a call from `k` on, entered in `args`.
pub open spec fn explicit_args(
    gs: Seq<GenericParamV>,
    tf: Seq<TypeOrConstV>,
    k: int,
    args: GenericArgs,
) -> Result<GenericArgs, MplangErrorV>
    decreases tf.len() - k,
{
    if k >= tf.len() {
        Ok(args)
    } else {
        match (gs[k].kind, tf[k]) {
            (GenericParamKind::Type, TypeOrConstV::Type(t)) => explicit_args(
                gs,
                tf,
                k + 1,
                GenericArgs { types: args.types.update(count_kind(gs, GenericParamKind::Type, k) as int, Some(t)), ..args },
            ),
            (GenericParamKind::Const, TypeOrConstV::Const(v)) => explicit_args(
                gs,
                tf,
                k + 1,
                GenericArgs { consts: args.consts.update(count_kind(gs, GenericParamKind::Const, k) as int, Some(ConstArg::Literal(v))), ..args },
            ),
            (GenericParamKind::Const, TypeOrConstV::ConstParam(_)) => Err(open_const()),
            _ => Err(wrong_kind()),
        }
    }
}

/// The error for a type parameter that nothing determines.
#[verifier::opaque]
pub open spec fn no_type_arg(name: Seq<char>) -> MplangErrorV {
    type_error("无法推断类型参数 `"@ + name + "`，请用涡轮鱼 `::<...>` 显式指定"@)
}

/// The error for a constant parameter without an explicit argument.
#[verifier::opaque]
pub open spec fn no_const_arg(name: Seq<char>) -> MplangErrorV {
    type_error("常量参数 `"@ + name + "` 必须由涡轮鱼 `::<...>` 显式指定"@)
}

/// Every generic parameter from `i` on has an argument.
pub open spec fn check_known(
    gs: Seq<GenericParamV>,
    args: GenericArgs,
    i: int,
) -> Result<(), MplangErrorV>
    decreases gs.len() - i,
{
    if i >= gs.len() {
        Ok(())
    } else {
        match gs[i].kind {
            GenericParamKind::Type => if args.types[count_kind(gs, GenericParamKind::Type, i) as int] is None {
                Err(no_type_arg(gs[i].name))
            } else {
                check_known(gs, args, i + 1)
            },
            GenericParamKind::Const => if args.consts[count_kind(gs, GenericParamKind::Const, i) as int] is None {
                Err(no_const_arg(gs[i].name))
            } else {
                check_known(gs, args, i + 1)
            },
        }
    }
}

/// The arguments, all of which are known.
pub open spec fn known<T>(args: Seq<Option<T>>) -> Seq<T> {
    Seq::new(args.len(), |i: int| args[i]->0)
}

/// The types of expressions.
pub open spec fn types_of(es: Seq<TyHirExprV>) -> Seq<HirTypeV> {
    es.map_values(|e: TyHirExprV| e.ty)
}

/// The error for too many explicit generic arguments.
#[verifier::opaque]
pub open spec fn too_many_args(n: nat) -> MplangErrorV {
    type_error("泛型实参过多（期望 "@ + decimal(n) + " 个）"@)
}

/// The generic arguments of a call: the explicit ones, and the types that the
/// arguments `actual` determine.
pub open spec fn call_args(
    gs: Seq<GenericParamV>,
    params: Seq<HirTypeV>,
    tf: Seq<TypeOrConstV>,
    actual: Seq<HirTypeV>,
) -> Result<(Seq<HirTypeV>, Seq<ConstArg>), MplangErrorV> {
    if tf.len() > gs.len() {
        Err(too_many_args(gs.len()))
    } else {
        match explicit_args(
            gs,
            tf,
            0,
            GenericArgs { types: unknown(count_kind(gs, GenericParamKind::Type, gs.len() as int)), consts: unknown(count_kind(gs, GenericParamKind::Const, gs.len() as int)) },
        ) {
            Err(e) => Err(e),
            Ok(given) => {
                match unify_all(params, actual, gs, 0, given.types) {
                    Err(e) => Err(e),
                    Ok(types) => {
                        let all = GenericArgs { types, ..given };
                        match check_known(gs, all, 0) {
                            Err(e) => Err(e),
                            Ok(_u) => {
                                Ok((known(all.types), known(all.consts)))
                            }
                        }
                    }
                }
            }
        }
    }
}

/// The parameter types and the return type of a generic function at a call.
pub open spec fn instantiate(
    gs: Seq<GenericParamV>,
    params: Seq<HirTypeV>,
    ret: HirTypeV,
    tf: Seq<TypeOrConstV>,
    actual: Seq<HirTypeV>,
) -> Result<(Seq<HirTypeV>, HirTypeV), MplangErrorV> {
    match call_args(gs, params, tf, actual) {
        Err(e) => Err(e),
        Ok(a) => {
            match subst_types(params, gs, a.0, a.1, 0, Seq::empty()) {
                Err(e) => Err(e),
                Ok(ps) => {
                    match subst_type(ret, gs, a.0, a.1) {
                        Err(e) => Err(e),
                        Ok(r) => {
                            Ok((ps, r))
                        }
                    }
                }
            }
        }
    }
}

/// The error of an explicit generic argument of a struct of the wrong kind.
#[verifier::opaque]
pub open spec fn wrong_struct_kind(name: Seq<char>, k: nat) -> MplangErrorV {
    type_error("结构体 `"@ + name + "` 第 "@ + decimal(k) + " 个泛型实参与其声明种类不符"@)
}

/// The error for too many explicit generic arguments of a struct.
#[verifier::opaque]
pub open spec fn too_many_struct_args(name: Seq<char>, n: nat) -> MplangErrorV {
    type_error("结构体 `"@ + name + "` 的涡轮鱼实参过多（期望 "@ + decimal(n) + " 个）"@)
}

/// The explicit generic arguments of a struct literal from `k` on.
pub open spec fn explicit_struct_args(
    name: Seq<char>,
    gs: Seq<GenericParamV>,
    tf: Seq<TypeOrConstV>,
    k: int,
    args: GenericArgs,
) -> Result<GenericArgs, MplangErrorV>
    decreases tf.len() - k,
{
    if k >= tf.len() {
        Ok(args)
    } else {
        match (gs[k].kind, tf[k]) {
            (GenericParamKind::Type, TypeOrConstV::Type(t)) => explicit_struct_args(
                name,
                gs,
                tf,
                k + 1,
                GenericArgs { types: args.types.update(count_kind(gs, GenericParamKind::Type, k) as int, Some(t)), ..args },
            ),
            (GenericParamKind::Const, TypeOrConstV::Const(v)) => explicit_struct_args(
                name,
                gs,
                tf,
                k + 1,
                GenericArgs { consts: args.consts.update(count_kind(gs, GenericParamKind::Const, k) as int, Some(ConstArg::Literal(v))), ..args },
            ),
            (GenericParamKind::Const, TypeOrConstV::ConstParam(p)) => explicit_struct_args(
                name,
                gs,
                tf,
                k + 1,
                GenericArgs { consts: args.consts.update(count_kind(gs, GenericParamKind::Const, k) as int, Some(ConstArg::Param(p))), ..args },
            ),
            _ => Err(wrong_struct_kind(name, k as nat)),
        }
    }
}

/// The field of this name, searched from `i` on.
pub open spec fn field_named(
    fs: Seq<StructFieldInfoV>,
    name: Seq<char>,
    i: int,
) -> Option<StructFieldInfoV>
    decreases fs.len() - i,
{
    if i >= fs.len() {
        None
    } else if fs[i].name == name {
        Some(fs[i])
    } else {
        field_named(fs, name, i + 1)
    }
}

/// The type arguments that the fields of a literal from `i` on determine: a
/// field whose declared type is a type parameter gives that parameter the type
/// of its value.
pub open spec fn field_args(
    gs: Seq<GenericParamV>,
    fs: Seq<StructFieldInfoV>,
    inits: Seq<(Seq<char>, TyHirExprV)>,
    i: int,
    types: Seq<Option<HirTypeV>>,
) -> Result<Seq<Option<HirTypeV>>, MplangErrorV>
    decreases inits.len() - i,
{
    if i >= inits.len() {
        Ok(types)
    } else {
        match field_named(fs, inits[i].0, 0) {
            Some(StructFieldInfoV { ty: HirTypeV::Var(j), .. }) => {
                match slot(gs, GenericParamKind::Type, j) {
                    Err(e) => Err(e),
                    Ok(p) => {
                        if p < types.len() {
                            field_args(
                                gs,
                                fs,
                                inits,
                                i + 1,
                                types.update(p as int, Some(inits[i].1.ty)),
                            )
                        } else {
                            Err(bad_index(types.len(), p))
                        }
                    }
                }
            },
            _ => field_args(gs, fs, inits, i + 1, types),
        }
    }
}

/// Every generic parameter of a struct from `i` on has an argument.
pub open spec fn check_struct_known(
    name: Seq<char>,
    gs: Seq<GenericParamV>,
    args: GenericArgs,
    i: int,
) -> Result<(), MplangErrorV>
    decreases gs.len() - i,
{
    if i >= gs.len() {
        Ok(())
    } else {
        match gs[i].kind {
            GenericParamKind::Type => if args.types[count_kind(gs, GenericParamKind::Type, i) as int] is None {
                Err(error_about2("无法推断结构体 `"@, name, "` 的类型参数 `"@, gs[i].name, "`，请用涡轮鱼显式指定"@))
            } else {
                check_struct_known(name, gs, args, i + 1)
            },
            GenericParamKind::Const => if args.consts[count_kind(gs, GenericParamKind::Const, i) as int] is None {
                Err(error_about2("结构体 `"@, name, "` 的常量参数 `"@, gs[i].name, "` 必须由涡轮鱼显式指定"@))
            } else {
                check_struct_known(name, gs, args, i + 1)
            },
        }
    }
}

/// The generic arguments of a struct literal.
pub open spec fn struct_args(
    name: Seq<char>,
    gs: Seq<GenericParamV>,
    tf: Seq<TypeOrConstV>,
    fs: Seq<StructFieldInfoV>,
    inits: Seq<(Seq<char>, TyHirExprV)>,
) -> Result<(Seq<HirTypeV>, Seq<ConstArg>), MplangErrorV> {
    if tf.len() > gs.len() {
        Err(too_many_struct_args(name, gs.len()))
    } else {
        match explicit_struct_args(
            name,
            gs,
            tf,
            0,
            GenericArgs { types: unknown(count_kind(gs, GenericParamKind::Type, gs.len() as int)), consts: unknown(count_kind(gs, GenericParamKind::Const, gs.len() as int)) },
        ) {
            Err(e) => Err(e),
            Ok(given) => {
                match field_args(gs, fs, inits, 0, given.types) {
                    Err(e) => Err(e),
                    Ok(types) => {
                        let all = GenericArgs { types, ..given };
                        match check_struct_known(name, gs, all, 0) {
                            Err(e) => Err(e),
                            Ok(_u) => {
                                Ok((known(all.types), known(all.consts)))
                            }
                        }
                    }
                }
            }
        }
    }
}

// Expressions

/// Whether an expression denotes a place in memory.
pub open spec fn is_lvalue(e: HirExprV) -> bool
    decreases e,
{
    match e {
        HirExprV::Path(_) => true,
        HirExprV::FieldAccess { object, .. } => is_lvalue(*object),
        HirExprV::Index { array, .. } => is_lvalue(*array),
        HirExprV::AddressOf(_) => true,
        HirExprV::Deref(_) => true,
        _ => false,
    }
}

/// `*char`.
pub open spec fn char_ptr() -> HirTypeV {
    HirTypeV::Pointer(Box::new(HirTypeV::Char))
}

/// A typed expression.
pub open spec fn typed(ty: HirTypeV, kind: TyHirExprKindV) -> TyHirExprV {
    TyHirExprV { ty, kind }
}

/// The variant of this name, searched from `i` on.
pub open spec fn variant_named(
    vs: Seq<EnumVariantInfoV>,
    name: Seq<char>,
    i: int,
) -> Option<EnumVariantInfoV>
    decreases vs.len() - i,
{
    if i >= vs.len() {
        None
    } else if vs[i].name == name {
        Some(vs[i])
    } else {
        variant_named(vs, name, i + 1)
    }
}

/// The first enumeration from `i` on with a variant of this name.
pub open spec fn enum_with(es: Seq<EnumInfoV>, name: Seq<char>, i: int) -> Option<DefId>
    decreases es.len() - i,
{
    if i >= es.len() {
        None
    } else if variant_named(es[i].variants, name, 0) is Some {
        Some(es[i].def_id)
    } else {
        enum_with(es, name, i + 1)
    }
}

/// The enumeration and the variant that a definition stands for, by its name.
pub open spec fn variant_of_def(s: CheckState, d: DefId) -> Option<(DefId, Seq<char>)> {
    match lookup(s.names, d) {
        None => None,
        Some(name) => match enum_with(s.enums, name, 0) {
            Some(e) => Some((e, name)),
            None => None,
        },
    }
}

/// The variant that a construction refers to, which must take `n` arguments.
#[verifier::opaque]
pub open spec fn variant_for(
    s: CheckState,
    d: DefId,
    variant: Seq<char>,
    n: nat,
) -> Result<EnumVariantInfoV, MplangErrorV> {
    match enum_of(s.enums, d, 0) {
        None => Err(error_about("未定义的枚举 `"@, name_of(s, d), "`"@)),
        Some(vs) => match variant_named(vs, variant, 0) {
            None => Err(error_about2("枚举 `"@, name_of(s, d), "` 没有变体 `"@, variant, "`"@)),
            Some(v) => if n != v.fields.len() {
                Err(
                    count_error(
                        "变体 `"@,
                        name_of(s, d) + "::"@ + variant,
                        "` 需要 "@,
                        v.fields.len(),
                        " 个参数，实际给了 "@,
                        n,
                    ),
                )
            } else {
                Ok(v)
            },
        },
    }
}

/// The generic parameters of a struct or an enumeration.
pub open spec fn generics_of(s: CheckState, d: DefId) -> Seq<GenericParamV> {
    match lookup(s.struct_generics, d) {
        Some(gs) => gs,
        None => Seq::empty(),
    }
}

/// The type argument `i` that the context of a construction asks for.
pub open spec fn expected_arg(s: CheckState, i: int) -> Option<HirTypeV> {
    match s.expected {
        Some(HirTypeV::Enum(_, ts, _)) => if i < ts.len() { Some(ts[i]) } else { None },
        _ => None,
    }
}

/// The type arguments of a construction: those found, then those that the
/// context asks for.
pub open spec fn with_expected(s: CheckState, ta: Seq<Option<HirTypeV>>) -> Seq<Option<HirTypeV>> {
    Seq::new(ta.len(), |i: int| if ta[i] is Some { ta[i] } else { expected_arg(s, i) })
}

/// Whether all arguments from `i` on are known.
pub open spec fn all_known(ta: Seq<Option<HirTypeV>>, i: int) -> bool
    decreases ta.len() - i,
{
    i >= ta.len() || (ta[i] is Some && all_known(ta, i + 1))
}

/// The construction of a variant from its typed arguments.
#[verifier::opaque]
pub open spec fn c_construct(
    s: CheckState,
    d: DefId,
    variant: Seq<char>,
    ta: Seq<Option<HirTypeV>>,
    args: Seq<TyHirExprV>,
    turbofish: Seq<TypeOrConstV>,
) -> Result<TyHirExprV, MplangErrorV> {
    let all = with_expected(s, ta);
    if all_known(all, 0) {
        Ok(
            typed(
                HirTypeV::Enum(d, known(all), Seq::empty()),
                TyHirExprKindV::Variant { def_id: d, variant, args, turbofish },
            ),
        )
    } else {
        Err(error_about("无法推断枚举 `"@, name_of(s, d), "` 的泛型参数"@))
    }
}

/// A name used as a value.
#[verifier::opaque]
pub open spec fn c_path(s: CheckState, d: DefId) -> Result<TyHirExprV, MplangErrorV> {
    match variant_of_def(s, d) {
        Some(v) => {
            match variant_for(s, v.0, v.1, 0) {
                Err(e) => Err(e),
                Ok(_info) => {
                    c_construct(
                        s,
                        v.0,
                        v.1,
                        unknown(generics_of(s, v.0).len()),
                        Seq::empty(),
                        Seq::empty(),
                    )
                }
            }
        },
        None => match lookup(s.def_types, d) {
            Some(t) => Ok(typed(t, TyHirExprKindV::Path(d))),
            None => if s.func_sigs.dom().contains(d) {
                Err(error_about("函数 `"@, name_of(s, d), "` 不能当作值使用"@))
            } else {
                Err(untyped(name_of(s, d)))
            },
        },
    }
}

/// Whether an operator compares its operands.
pub open spec fn is_comparison(op: BinOp) -> bool {
    match op {
        BinOp::Add => false,
        BinOp::Sub => false,
        BinOp::Mul => false,
        BinOp::Div => false,
        _ => true,
    }
}

/// A binary operation: arithmetic takes integers, a comparison takes two
/// integers or two pointers, and the result is an integer.
#[verifier::opaque]
pub open spec fn c_binary(
    op: BinOp,
    l: TyHirExprV,
    r: TyHirExprV,
) -> Result<TyHirExprV, MplangErrorV> {
    let e = typed(HirTypeV::Int, TyHirExprKindV::Binary { op, lhs: Box::new(l), rhs: Box::new(r) });
    if is_comparison(op) {
        if (l.ty is Int && r.ty is Int) || (l.ty is Pointer && r.ty is Pointer) {
            Ok(e)
        } else {
            Err(type_error("比较运算的两个操作数必须同为 int 或同为指针"@))
        }
    } else {
        match assert_ty(l.ty, HirTypeV::Int, "算术运算左操作数"@) {
            Err(e) => Err(e),
            Ok(_u) => {
                match assert_ty(r.ty, HirTypeV::Int, "算术运算右操作数"@) {
                    Err(e) => Err(e),
                    Ok(_v) => {
                        Ok(e)
                    }
                }
            }
        }
    }
}

/// Whether a receiver may be passed without comparing generic arguments.
pub open spec fn same_owner(a: HirTypeV, b: HirTypeV) -> bool {
    match (a, b) {
        (HirTypeV::Generic(d, _, _), HirTypeV::Generic(e, _, _)) => d == e,
        (HirTypeV::Enum(d, _, _), HirTypeV::Enum(e, _, _)) => d == e,
        (HirTypeV::Named(d), HirTypeV::Named(e)) => d == e,
        _ => false,
    }
}

/// The parameter types and the return type of a method for its receiver.
pub open spec fn method_types(
    sig: FuncSigV,
    recv: HirTypeV,
) -> Result<(Seq<HirTypeV>, HirTypeV), MplangErrorV> {
    match recv {
        HirTypeV::Generic(_, ta, ca) => {
            match subst_types(sig.param_types, sig.generics, ta, ca, 0, Seq::empty()) {
                Err(e) => Err(e),
                Ok(ps) => {
                    match subst_type(sig.ret_ty, sig.generics, ta, ca) {
                        Err(e) => Err(e),
                        Ok(r) => {
                            Ok((ps, r))
                        }
                    }
                }
            }
        },
        HirTypeV::Enum(_, ta, ca) => {
            match subst_types(sig.param_types, sig.generics, ta, ca, 0, Seq::empty()) {
                Err(e) => Err(e),
                Ok(ps) => {
                    match subst_type(sig.ret_ty, sig.generics, ta, ca) {
                        Err(e) => Err(e),
                        Ok(r) => {
                            Ok((ps, r))
                        }
                    }
                }
            }
        },
        _ => Ok((sig.param_types, sig.ret_ty)),
    }
}

/// The method that a call refers to, with its types for the receiver; it must
/// take `n` arguments behind the receiver.
#[verifier::opaque]
pub open spec fn c_method(
    s: CheckState,
    recv: HirTypeV,
    name: Seq<char>,
    n: nat,
) -> Result<(DefId, Seq<HirTypeV>, HirTypeV), MplangErrorV> {
    match lookup(s.methods, (method_owner(recv), name)) {
        None => Err(error_about2("类型 "@, shown_type(recv), " 没有方法 `"@, name, "`"@)),
        Some(callee) => match lookup(s.func_sigs, callee) {
            None => Err(error_about("调用了未定义的方法 `"@, name, "`"@)),
            Some(sig) => if sig.param_types.len() == 0 {
                Err(no_receiver())
            } else if n != sig.param_types.len() - 1 {
                Err(
                    count_error(
                        "方法 `"@,
                        name,
                        "` 需要 "@,
                        (sig.param_types.len() - 1) as nat,
                        " 个参数，实际给了 "@,
                        n,
                    ),
                )
            } else {
                match (
                    if same_owner(recv, sig.param_types[0]) { Ok(()) } else { assert_ty(recv, sig.param_types[0], about("方法 `"@, name, "` 的接收者类型"@)) }
                ) {
                    Err(e) => Err(e),
                    Ok(_u) => {
                        match method_types(sig, recv) {
                            Err(e) => Err(e),
                            Ok(t) => {
                                Ok((callee, t.0, t.1))
                            }
                        }
                    }
                }
            },
        },
    }
}

/// The signature of a called function, which must take `n` arguments.
#[verifier::opaque]
pub open spec fn c_callee(s: CheckState, callee: DefId, n: nat) -> Result<FuncSigV, MplangErrorV> {
    match lookup(s.func_sigs, callee) {
        None => Err(error_about("调用了未定义的函数 `"@, name_of(s, callee), "`"@)),
        Some(sig) => if sig.is_variadic && n < sig.param_types.len() {
            Err(
                count_error(
                    "可变参数函数 `"@,
                    name_of(s, callee),
                    "` 至少需要 "@,
                    sig.param_types.len(),
                    " 个参数，实际给了 "@,
                    n,
                ),
            )
        } else if !sig.is_variadic && n != sig.param_types.len() {
            Err(
                count_error(
                    "函数 `"@,
                    name_of(s, callee),
                    "` 需要 "@,
                    sig.param_types.len(),
                    " 个参数，实际给了 "@,
                    n,
                ),
            )
        } else {
            Ok(sig)
        },
    }
}

/// The arguments from `i` on have the types of their parameters.
pub open spec fn check_args(
    name: Seq<char>,
    args: Seq<TyHirExprV>,
    params: Seq<HirTypeV>,
    i: int,
) -> Result<(), MplangErrorV>
    decreases args.len() - i,
{
    if i >= args.len() {
        Ok(())
    } else if i < params.len() {
        match assert_ty(args[i].ty, params[i], argument_ctx("函数 `"@, name, i as nat)) {
            Err(e) => Err(e),
            Ok(_u) => {
                check_args(name, args, params, i + 1)
            }
        }
    } else {
        check_args(name, args, params, i + 1)
    }
}

/// A call of a function with typed arguments.
#[verifier::opaque]
pub open spec fn c_call(
    s: CheckState,
    callee: DefId,
    sig: FuncSigV,
    args: Seq<TyHirExprV>,
    turbofish: Seq<TypeOrConstV>,
) -> Result<TyHirExprV, MplangErrorV> {
    let kind = TyHirExprKindV::Call { callee, args, turbofish };
    if sig.generics.len() == 0 {
        match check_args(name_of(s, callee), args, sig.param_types, 0) {
            Err(e) => Err(e),
            Ok(_u) => {
                Ok(typed(sig.ret_ty, kind))
            }
        }
    } else {
        match instantiate(sig.generics, sig.param_types, sig.ret_ty, turbofish, types_of(args)) {
            Err(e) => Err(e),
            Ok(t) => {
                match check_args(name_of(s, callee), args, t.0, 0) {
                    Err(e) => Err(e),
                    Ok(_u) => {
                        Ok(typed(t.1, kind))
                    }
                }
            }
        }
    }
}

/// An access to a field.
#[verifier::opaque]
pub open spec fn c_field(
    s: CheckState,
    obj: TyHirExprV,
    field: Seq<char>,
) -> Result<TyHirExprV, MplangErrorV> {
    match obj.ty {
        HirTypeV::Named(d) => {
            match field_of(s, d, field) {
                Err(e) => Err(e),
                Ok(info) => {
                    Ok(
                        typed(
                            info.ty,
                            TyHirExprKindV::FieldAccess { object: Box::new(obj), field: info.def_id },
                        ),
                    )
                }
            }
        },
        HirTypeV::Generic(d, ta, ca) => {
            match field_of(s, d, field) {
                Err(e) => Err(e),
                Ok(info) => {
                    match subst_type(info.ty, generics_of(s, d), ta, ca) {
                        Err(e) => Err(e),
                        Ok(t) => {
                            Ok(
                                typed(
                                    t,
                                    TyHirExprKindV::FieldAccess { object: Box::new(obj), field: info.def_id },
                                ),
                            )
                        }
                    }
                }
            }
        },
        _ => Err(error_about2("对非结构体类型 "@, shown_type(obj.ty), " 进行字段访问 `."@, field, "`"@)),
    }
}

/// The field of a struct.
#[verifier::opaque]
pub open spec fn field_of(
    s: CheckState,
    d: DefId,
    field: Seq<char>,
) -> Result<StructFieldInfoV, MplangErrorV> {
    let found = match lookup(s.struct_fields, d) {
        Some(fs) => field_named(fs, field, 0),
        None => None,
    };
    match found {
        Some(info) => Ok(info),
        None => Err(error_about2("结构体 `"@, name_of(s, d), "` 没有字段 `"@, field, "`"@)),
    }
}

/// The declared type of a field, with the generic arguments of its struct.
pub open spec fn declared_type(
    info: StructFieldInfoV,
    gs: Seq<GenericParamV>,
    ta: Seq<HirTypeV>,
    ca: Seq<ConstArg>,
) -> Result<HirTypeV, MplangErrorV> {
    if gs.len() == 0 {
        Ok(info.ty)
    } else {
        subst_type(info.ty, gs, ta, ca)
    }
}

/// The fields of a struct literal from `i` on, found by their names, behind
/// `done`. Each value has the declared type of its field.
pub open spec fn c_fields(
    s: CheckState,
    d: DefId,
    gs: Seq<GenericParamV>,
    ta: Seq<HirTypeV>,
    ca: Seq<ConstArg>,
    inits: Seq<(Seq<char>, TyHirExprV)>,
    i: int,
    done: Seq<(DefId, TyHirExprV)>,
) -> Result<Seq<(DefId, TyHirExprV)>, MplangErrorV>
    decreases inits.len() - i,
{
    if i >= inits.len() {
        Ok(done)
    } else {
        match field_of(s, d, inits[i].0) {
            Err(e) => Err(e),
            Ok(info) => {
                match declared_type(info, gs, ta, ca) {
                    Err(e) => Err(e),
                    Ok(want) => {
                        match assert_ty(
                            inits[i].1.ty,
                            want,
                            about("结构体 `"@ + name_of(s, d) + "` 字段 `"@, inits[i].0, "`"@),
                        ) {
                            Err(e) => Err(e),
                            Ok(_u) => {
                                c_fields(
                                    s,
                                    d,
                                    gs,
                                    ta,
                                    ca,
                                    inits,
                                    i + 1,
                                    done.push((info.def_id, inits[i].1)),
                                )
                            }
                        }
                    }
                }
            }
        }
    }
}

/// A struct literal with typed values.
#[verifier::opaque]
pub open spec fn c_struct(
    s: CheckState,
    d: DefId,
    infos: Seq<StructFieldInfoV>,
    inits: Seq<(Seq<char>, TyHirExprV)>,
    turbofish: Seq<TypeOrConstV>,
) -> Result<TyHirExprV, MplangErrorV> {
    let gs = generics_of(s, d);
    if gs.len() == 0 {
        match c_fields(s, d, gs, Seq::empty(), Seq::empty(), inits, 0, Seq::empty()) {
            Err(e) => Err(e),
            Ok(fs) => {
                Ok(
                    typed(
                        HirTypeV::Named(d),
                        TyHirExprKindV::StructLiteral { def_id: d, fields: fs, turbofish },
                    ),
                )
            }
        }
    } else {
        match struct_args(name_of(s, d), gs, turbofish, infos, inits) {
            Err(e) => Err(e),
            Ok(a) => {
                match c_fields(s, d, gs, a.0, a.1, inits, 0, Seq::empty()) {
                    Err(e) => Err(e),
                    Ok(fs) => {
                        Ok(
                            typed(
                                HirTypeV::Generic(d, a.0, a.1),
                                TyHirExprKindV::StructLiteral { def_id: d, fields: fs, turbofish },
                            ),
                        )
                    }
                }
            }
        }
    }
}

/// The fields of a struct that a literal names.
#[verifier::opaque]
pub open spec fn struct_infos(
    s: CheckState,
    d: DefId,
) -> Result<Seq<StructFieldInfoV>, MplangErrorV> {
    match lookup(s.struct_fields, d) {
        Some(fs) => Ok(fs),
        None => Err(error_about("未定义的结构体 `"@, name_of(s, d), "`"@)),
    }
}

/// A literal.
pub open spec fn c_literal(l: LiteralV) -> TyHirExprV {
    match l {
        LiteralV::Int(_) => typed(HirTypeV::Int, TyHirExprKindV::Literal(l)),
        LiteralV::String(_) => typed(char_ptr(), TyHirExprKindV::Literal(l)),
    }
}

/// The elements of an array type.
#[verifier::opaque]
pub open spec fn element_type(t: HirTypeV) -> Result<HirTypeV, MplangErrorV> {
    match t {
        HirTypeV::Array(e, _) => Ok(*e),
        _ => Err(error_about("对非数组类型 "@, shown_type(t), " 进行下标访问 `[..]`"@)),
    }
}

/// What a pointer type points to.
#[verifier::opaque]
pub open spec fn pointee(t: HirTypeV) -> Result<HirTypeV, MplangErrorV> {
    match t {
        HirTypeV::Pointer(e) => Ok(*e),
        _ => Err(error_about("解引用 * 需要指针类型，实际为 "@, shown_type(t), Seq::empty())),
    }
}

/// An array of typed elements, one of which may stand for `repeat` equal ones.
#[verifier::opaque]
pub open spec fn c_array(
    es: Seq<TyHirExprV>,
    n: nat,
    repeat: Option<usize>,
) -> Result<TyHirExprV, MplangErrorV> {
    if es.len() == 0 {
        Err(type_error("数组字面量至少要有一个元素"@))
    } else {
        let len = match repeat {
            Some(k) => k,
            None => n as usize,
        };
        Ok(
            typed(
                HirTypeV::Array(Box::new(es[0].ty), ArrayLen::Known(len)),
                TyHirExprKindV::ArrayLiteral { elements: es, repeat },
            ),
        )
    }
}

/// An expression with its type.
pub open spec fn c_expr(
    s: CheckState,
    e: HirExprV,
) -> (CheckState, Result<TyHirExprV, MplangErrorV>)
    decreases e, 0int,
{
    match e {
        HirExprV::Literal(l) => (s, Ok(c_literal(l))),
        HirExprV::Path(d) => (s, c_path(s, d)),
        HirExprV::Binary { op, lhs, rhs } => {
            match c_expr(s, *lhs) {
                (at, Err(e)) => (at, Err(e)),
                (s1, Ok(l)) => {
                    match c_expr(s1, *rhs) {
                        (at, Err(e)) => (at, Err(e)),
                        (s2, Ok(r)) => {
                            (s2, c_binary(op, l, r))
                        }
                    }
                }
            }
        },
        HirExprV::MethodCall { object, name, args } => {
            match c_expr(s, *object) {
                (at, Err(e)) => (at, Err(e)),
                (s1, Ok(o)) => {
                    c_method_call(s1, o, name, args)
                }
            }
        },
        HirExprV::Call { callee, args, turbofish } => {
            match c_callee(s, callee, args.len()) {
                Err(e) => (s, Err(e)),
                Ok(sig) => {
                    match c_exprs(s, args, 0, Seq::empty()) {
                        (at, Err(e)) => (at, Err(e)),
                        (s1, Ok(a)) => {
                            (s1, c_call(s1, callee, sig, a, turbofish))
                        }
                    }
                }
            }
        },
        HirExprV::FieldAccess { object, field } => {
            match c_expr(s, *object) {
                (at, Err(e)) => (at, Err(e)),
                (s1, Ok(o)) => {
                    (s1, c_field(s1, o, field))
                }
            }
        },
        HirExprV::StructLiteral { def_id, fields, turbofish } => {
            match struct_infos(s, def_id) {
                Err(e) => (s, Err(e)),
                Ok(infos) => {
                    match c_inits(s, fields, 0, Seq::empty()) {
                        (at, Err(e)) => (at, Err(e)),
                        (s1, Ok(fs)) => {
                            (s1, c_struct(s1, def_id, infos, fs, turbofish))
                        }
                    }
                }
            }
        },
        HirExprV::ArrayLiteral { elements, repeat } => {
            match c_elements(s, elements, 0, Seq::empty()) {
                (at, Err(e)) => (at, Err(e)),
                (s1, Ok(es)) => {
                    (s1, c_array(es, elements.len(), repeat))
                }
            }
        },
        HirExprV::Index { array, index } => {
            match c_expr(s, *array) {
                (at, Err(e)) => (at, Err(e)),
                (s1, Ok(a)) => {
                    match element_type(a.ty) {
                        Err(e) => (s1, Err(e)),
                        Ok(t) => {
                            match c_expr(s1, *index) {
                                (at, Err(e)) => (at, Err(e)),
                                (s2, Ok(i)) => {
                                    match assert_ty(i.ty, HirTypeV::Int, "数组下标（须为 int）"@) {
                                        Err(e) => (s2, Err(e)),
                                        Ok(_u) => {
                                            (
                                                s2,
                                                Ok(
                                                    typed(
                                                        t,
                                                        TyHirExprKindV::Index { array: Box::new(a), index: Box::new(i) },
                                                    ),
                                                ),
                                            )
                                        }
                                    }
                                }
                            }
                        }
                    }
                }
            }
        },
        HirExprV::AddressOf(inner) => {
            match c_expr(s, *inner) {
                (at, Err(e)) => (at, Err(e)),
                (s1, Ok(t)) => {
                    if is_lvalue(*inner) {
                        (
                            s1,
                            Ok(
                                typed(
                                    HirTypeV::Pointer(Box::new(t.ty)),
                                    TyHirExprKindV::AddressOf(Box::new(t)),
                                ),
                            ),
                        )
                    } else {
                        (s1, Err(type_error("& 的操作数必须是可寻址的左值（变量、全局或结构体字段）"@)))
                    }
                }
            }
        },
        HirExprV::Deref(inner) => {
            match c_expr(s, *inner) {
                (at, Err(e)) => (at, Err(e)),
                (s1, Ok(t)) => {
                    match pointee(t.ty) {
                        Err(e) => (s1, Err(e)),
                        Ok(p) => {
                            (s1, Ok(typed(p, TyHirExprKindV::Deref(Box::new(t)))))
                        }
                    }
                }
            }
        },
        HirExprV::Variant { def_id, variant, args, turbofish } => {
            match variant_for(s, def_id, variant, args.len()) {
                Err(e) => (s, Err(e)),
                Ok(info) => {
                    match c_variant_args(
                        s,
                        args,
                        info.fields,
                        generics_of(s, def_id),
                        0,
                        unknown(generics_of(s, def_id).len()),
                        Seq::empty(),
                    ) {
                        (at, Err(e)) => (at, Err(e)),
                        (s1, Ok(a)) => {
                            (s1, c_construct(s1, def_id, variant, a.0, a.1, turbofish))
                        }
                    }
                }
            }
        },
        HirExprV::Match { scrutinee, arms } => {
            match c_expr(s, *scrutinee) {
                (at, Err(e)) => (at, Err(e)),
                (s1, Ok(v)) => {
                    c_match(s1, v, arms)
                }
            }
        },
    }
}

/// A method call on a typed receiver. A call on a trait object goes through the
/// table of its methods.
pub open spec fn c_method_call(
    s: CheckState,
    o: TyHirExprV,
    name: Seq<char>,
    args: Seq<HirExprV>,
) -> (CheckState, Result<TyHirExprV, MplangErrorV>)
    decreases args, args.len() + 1,
{
    match o.ty {
        HirTypeV::TraitObject(d) => {
            match c_exprs(s, args, 0, Seq::empty()) {
                (at, Err(e)) => (at, Err(e)),
                (s1, Ok(a)) => {
                    (
                        s1,
                        Ok(
                            typed(
                                HirTypeV::Int,
                                TyHirExprKindV::DynamicMethodCall { trait_def: d, method_index: 0, receiver: Box::new(o), args: a },
                            ),
                        ),
                    )
                }
            }
        },
        _ => {
            match c_method(s, o.ty, name, args.len()) {
                Err(e) => (s, Err(e)),
                Ok(m) => {
                    match c_method_args(s, name, args, m.1, 0, seq![o]) {
                        (at, Err(e)) => (at, Err(e)),
                        (s1, Ok(a)) => {
                            (
                                s1,
                                Ok(
                                    typed(
                                        m.2,
                                        TyHirExprKindV::Call { callee: m.0, args: a, turbofish: Seq::empty() },
                                    ),
                                ),
                            )
                        }
                    }
                }
            }
        },
    }
}

/// Expressions from `i` on, behind `done`.
pub open spec fn c_exprs(
    s: CheckState,
    es: Seq<HirExprV>,
    i: int,
    done: Seq<TyHirExprV>,
) -> (CheckState, Result<Seq<TyHirExprV>, MplangErrorV>)
    decreases es, es.len() - i,
{
    if i < 0 || i >= es.len() {
        (s, Ok(done))
    } else {
        match c_expr(s, es[i]) {
            (at, Err(e)) => (at, Err(e)),
            (s1, Ok(t)) => {
                c_exprs(s1, es, i + 1, done.push(t))
            }
        }
    }
}

/// The elements of an array literal from `i` on, behind `done`; all have the
/// type of the first.
pub open spec fn c_elements(
    s: CheckState,
    es: Seq<HirExprV>,
    i: int,
    done: Seq<TyHirExprV>,
) -> (CheckState, Result<Seq<TyHirExprV>, MplangErrorV>)
    decreases es, es.len() - i,
{
    if i < 0 || i >= es.len() {
        (s, Ok(done))
    } else {
        match c_expr(s, es[i]) {
            (at, Err(e)) => (at, Err(e)),
            (s1, Ok(t)) => {
                match (
                    if done.len() == 0 { Ok(()) } else { assert_ty(t.ty, done[0].ty, "数组字面量各元素类型须一致"@) }
                ) {
                    Err(e) => (s1, Err(e)),
                    Ok(_u) => {
                        c_elements(s1, es, i + 1, done.push(t))
                    }
                }
            }
        }
    }
}

/// The values of a struct literal from `i` on, behind `done`.
pub open spec fn c_inits(
    s: CheckState,
    fs: Seq<(Seq<char>, HirExprV)>,
    i: int,
    done: Seq<(Seq<char>, TyHirExprV)>,
) -> (CheckState, Result<Seq<(Seq<char>, TyHirExprV)>, MplangErrorV>)
    decreases fs, fs.len() - i,
{
    if i < 0 || i >= fs.len() {
        (s, Ok(done))
    } else {
        match c_expr(s, fs[i].1) {
            (at, Err(e)) => (at, Err(e)),
            (s1, Ok(t)) => {
                c_inits(s1, fs, i + 1, done.push((fs[i].0, t)))
            }
        }
    }
}

/// The arguments of a method call from `i` on, behind `done`. Each has the
/// type of its parameter; parameter 0 is the receiver.
pub open spec fn c_method_args(
    s: CheckState,
    name: Seq<char>,
    es: Seq<HirExprV>,
    params: Seq<HirTypeV>,
    i: int,
    done: Seq<TyHirExprV>,
) -> (CheckState, Result<Seq<TyHirExprV>, MplangErrorV>)
    decreases es, es.len() - i,
{
    if i < 0 || i >= es.len() {
        (s, Ok(done))
    } else {
        match c_expr(s, es[i]) {
            (at, Err(e)) => (at, Err(e)),
            (s1, Ok(t)) => {
                match assert_ty(t.ty, params[i + 1], argument_ctx("方法 `"@, name, i as nat)) {
                    Err(e) => (s1, Err(e)),
                    Ok(_u) => {
                        c_method_args(s1, name, es, params, i + 1, done.push(t))
                    }
                }
            }
        }
    }
}

/// The arguments of a construction from `i` on, behind `done`, with the type
/// arguments that they determine.
pub open spec fn c_variant_args(
    s: CheckState,
    es: Seq<HirExprV>,
    fields: Seq<(Seq<char>, DefId, HirTypeV)>,
    gs: Seq<GenericParamV>,
    i: int,
    ta: Seq<Option<HirTypeV>>,
    done: Seq<TyHirExprV>,
) -> (CheckState, Result<(Seq<Option<HirTypeV>>, Seq<TyHirExprV>), MplangErrorV>)
    decreases es, es.len() - i,
{
    if i < 0 || i >= es.len() {
        (s, Ok((ta, done)))
    } else {
        match c_expr(s, es[i]) {
            (at, Err(e)) => (at, Err(e)),
            (s1, Ok(t)) => {
                match unify(fields[i].2, t.ty, gs, ta) {
                    Err(e) => (s1, Err(e)),
                    Ok(next) => {
                        c_variant_args(s1, es, fields, gs, i + 1, next, done.push(t))
                    }
                }
            }
        }
    }
}

// Matches

/// Whether a pattern matches everything.
pub open spec fn catches_all(p: HirPatternV) -> bool {
    p is Wildcard || p is Ident
}

/// Whether some arm from `i` on matches everything.
pub open spec fn has_catch_all(arms: Seq<HirMatchArmV>, i: int) -> bool
    decreases arms.len() - i,
{
    i < arms.len() && (catches_all(arms[i].pattern) || has_catch_all(arms, i + 1))
}

/// The type of the value of a block: that of its last statement, if it is an
/// expression.
pub open spec fn result_type(stmts: Seq<TyHirStmtV>) -> HirTypeV {
    if stmts.len() == 0 {
        HirTypeV::Unit
    } else {
        match stmts.last() {
            TyHirStmtV::Expr(e) => e.ty,
            _ => HirTypeV::Unit,
        }
    }
}

/// A pattern, unchanged.
pub open spec fn typed_pattern(p: HirPatternV) -> TyHirPatternV {
    match p {
        HirPatternV::Variant { enum_def, variant, bindings } => TyHirPatternV::Variant { enum_def, variant, bindings },
        HirPatternV::Literal(l) => TyHirPatternV::Literal(l),
        HirPatternV::Wildcard => TyHirPatternV::Wildcard,
        HirPatternV::Ident(d) => TyHirPatternV::Ident(d),
    }
}

/// The bindings of a variant pattern from `i` on get the types of the fields.
pub open spec fn bind_fields(
    types: Map<DefId, HirTypeV>,
    bs: Seq<(DefId, Option<HirTypeV>)>,
    fields: Seq<(Seq<char>, DefId, HirTypeV)>,
    gs: Seq<GenericParamV>,
    ta: Seq<HirTypeV>,
    ca: Seq<ConstArg>,
    i: int,
) -> (Map<DefId, HirTypeV>, Result<(), MplangErrorV>)
    decreases bs.len() - i,
{
    if i >= bs.len() {
        (types, Ok(()))
    } else {
        match subst_type(fields[i].2, gs, ta, ca) {
            Err(e) => (types, Err(e)),
            Ok(t) => {
                bind_fields(types.insert(bs[i].0, t), bs, fields, gs, ta, ca, i + 1)
            }
        }
    }
}

/// The pattern of an arm that matches an enumeration: its bindings get their
/// types.
#[verifier::opaque]
pub open spec fn c_enum_pattern(
    s: CheckState,
    d: DefId,
    vs: Seq<EnumVariantInfoV>,
    gs: Seq<GenericParamV>,
    ta: Seq<HirTypeV>,
    ca: Seq<ConstArg>,
    p: HirPatternV,
) -> (CheckState, Result<(), MplangErrorV>) {
    match p {
        HirPatternV::Wildcard => (s, Ok(())),
        HirPatternV::Ident(_) => (s, Ok(())),
        HirPatternV::Literal(_) => (s, Err(type_error("枚举 match 中不能使用字面量模式"@))),
        HirPatternV::Variant { enum_def, variant, bindings } => if enum_def != d {
            (s, Err(error_about2("match 分支的变体 `"@, variant, "` 不属于枚举 `"@, name_of(s, d), "`"@)))
        } else {
            match variant_named(vs, variant, 0) {
                None => (s, Err(error_about2("枚举 `"@, name_of(s, d), "` 没有变体 `"@, variant, "`"@))),
                Some(v) => if bindings.len() != v.fields.len() {
                    (
                        s,
                        Err(
                            count_error(
                                "变体 `"@,
                                variant,
                                "` 需要 "@,
                                v.fields.len(),
                                " 个绑定，实际给了 "@,
                                bindings.len(),
                            ),
                        ),
                    )
                } else {
                    let r = bind_fields(s.def_types, bindings, v.fields, gs, ta, ca, 0);
                    (CheckState { def_types: r.0, ..s }, r.1)
                },
            }
        },
    }
}

/// The pattern of an arm that matches an integer.
#[verifier::opaque]
pub open spec fn c_int_pattern(
    s: CheckState,
    p: HirPatternV,
) -> (CheckState, Result<(), MplangErrorV>) {
    match p {
        HirPatternV::Literal(_) => (s, Ok(())),
        HirPatternV::Wildcard => (s, Ok(())),
        HirPatternV::Ident(d) => (
            CheckState { def_types: s.def_types.insert(d, HirTypeV::Int), ..s },
            Ok(()),
        ),
        HirPatternV::Variant { .. } => (s, Err(type_error("int 类型 match 中不能使用变体模式"@))),
    }
}

/// The result type of the arms so far must be that of the next one.
pub open spec fn join_result(
    so_far: Option<HirTypeV>,
    t: HirTypeV,
) -> Result<HirTypeV, MplangErrorV> {
    match so_far {
        Some(want) => {
            match assert_ty(t, want, "match 各分支结果类型必须一致"@) {
                Err(e) => Err(e),
                Ok(_u) => {
                    Ok(want)
                }
            }
        },
        None => Ok(t),
    }
}

/// What a match looks at: an enumeration with its arguments, or an integer.
pub enum Subject {
    Enum { def: DefId, variants: Seq<EnumVariantInfoV>, generics: Seq<GenericParamV>, types: Seq<HirTypeV>, consts: Seq<ConstArg> },
    Int,
}

/// The pattern of an arm.
pub open spec fn c_pattern(
    s: CheckState,
    on: Subject,
    p: HirPatternV,
) -> (CheckState, Result<(), MplangErrorV>) {
    match on {
        Subject::Enum { def, variants, generics, types, consts } => c_enum_pattern(
            s,
            def,
            variants,
            generics,
            types,
            consts,
            p,
        ),
        Subject::Int => c_int_pattern(s, p),
    }
}

/// The arms from `i` on, behind `done`, with the type of their results. What an
/// arm binds is not known outside it.
pub open spec fn c_arms(
    s: CheckState,
    on: Subject,
    arms: Seq<HirMatchArmV>,
    i: int,
    result: Option<HirTypeV>,
    done: Seq<TyHirMatchArmV>,
) -> (CheckState, Result<(Option<HirTypeV>, Seq<TyHirMatchArmV>), MplangErrorV>)
    decreases arms, arms.len() - i,
{
    if i < 0 || i >= arms.len() {
        (s, Ok((result, done)))
    } else {
        match c_pattern(s, on, arms[i].pattern) {
            (at, Err(e)) => (at, Err(e)),
            (s1, Ok(_u)) => {
                match c_stmts(s1, arms[i].body.stmts, HirTypeV::Unit, 0, Seq::empty()) {
                    (at, Err(e)) => (at, Err(e)),
                    (s2, Ok(b)) => {
                        match join_result(result, result_type(b)) {
                            Err(e) => (s2, Err(e)),
                            Ok(t) => {
                                c_arms(
                                    CheckState { def_types: s.def_types, ..s2 },
                                    on,
                                    arms,
                                    i + 1,
                                    Some(t),
                                    done.push(
                                        TyHirMatchArmV { pattern: typed_pattern(arms[i].pattern), body: TyHirBodyV { stmts: b } },
                                    ),
                                )
                            }
                        }
                    }
                }
            }
        }
    }
}

/// Whether some arm from `i` on names this variant.
pub open spec fn covers(arms: Seq<HirMatchArmV>, name: Seq<char>, i: int) -> bool
    decreases arms.len() - i,
{
    i < arms.len() && ((arms[i].pattern is Variant && arms[i].pattern->variant == name) || covers(arms, name, i + 1))
}

/// Every variant from `i` on is named by some arm.
pub open spec fn check_covered(
    s: CheckState,
    d: DefId,
    vs: Seq<EnumVariantInfoV>,
    arms: Seq<HirMatchArmV>,
    i: int,
) -> Result<(), MplangErrorV>
    decreases vs.len() - i,
{
    if i >= vs.len() {
        Ok(())
    } else if covers(arms, vs[i].name, 0) {
        check_covered(s, d, vs, arms, i + 1)
    } else {
        Err(error_about2("match 表达式未覆盖枚举 `"@, name_of(s, d), "` 的变体 `"@, vs[i].name, "`"@))
    }
}

/// The type of a match from the types of its arms.
pub open spec fn match_type(t: Option<HirTypeV>) -> HirTypeV {
    match t {
        Some(t) => t,
        None => HirTypeV::Unit,
    }
}

/// A match on an enumeration: its type and its arms, which must cover every
/// variant.
pub open spec fn c_enum_match(
    s: CheckState,
    d: DefId,
    ta: Seq<HirTypeV>,
    ca: Seq<ConstArg>,
    arms: Seq<HirMatchArmV>,
) -> (CheckState, Result<(HirTypeV, Seq<TyHirMatchArmV>), MplangErrorV>)
    decreases arms, arms.len() + 1,
{
    match enum_of(s.enums, d, 0) {
        None => (s, Err(error_about("未定义的枚举 `"@, name_of(s, d), "`"@))),
        Some(vs) => {
            match c_arms(
                s,
                Subject::Enum { def: d, variants: vs, generics: generics_of(s, d), types: ta, consts: ca },
                arms,
                0,
                None,
                Seq::empty(),
            ) {
                (at, Err(e)) => (at, Err(e)),
                (s1, Ok(r)) => {
                    match (
                        if has_catch_all(arms, 0) { Ok(()) } else { check_covered(s1, d, vs, arms, 0) }
                    ) {
                        Err(e) => (s1, Err(e)),
                        Ok(_u) => {
                            (s1, Ok((match_type(r.0), r.1)))
                        }
                    }
                }
            }
        },
    }
}

/// A match on an integer: its type and its arms, one of which must match
/// everything.
pub open spec fn c_int_match(
    s: CheckState,
    arms: Seq<HirMatchArmV>,
) -> (CheckState, Result<(HirTypeV, Seq<TyHirMatchArmV>), MplangErrorV>)
    decreases arms, arms.len() + 1,
{
    match c_arms(s, Subject::Int, arms, 0, None, Seq::empty()) {
        (at, Err(e)) => (at, Err(e)),
        (s1, Ok(r)) => {
            if has_catch_all(arms, 0) {
                (s1, Ok((match_type(r.0), r.1)))
            } else {
                (s1, Err(type_error("int 类型 match 表达式必须包含通配符 `_` 或标识符分支"@)))
            }
        }
    }
}

/// A match on a typed value.
pub open spec fn c_match(
    s: CheckState,
    v: TyHirExprV,
    arms: Seq<HirMatchArmV>,
) -> (CheckState, Result<TyHirExprV, MplangErrorV>)
    decreases arms, arms.len() + 2,
{
    match v.ty {
        HirTypeV::Enum(d, ta, ca) => {
            match c_enum_match(s, d, ta, ca, arms) {
                (at, Err(e)) => (at, Err(e)),
                (s1, Ok(m)) => {
                    (
                        s1,
                        Ok(typed(m.0, TyHirExprKindV::Match { scrutinee: Box::new(v), arms: m.1 })),
                    )
                }
            }
        },
        HirTypeV::Int => {
            match c_int_match(s, arms) {
                (at, Err(e)) => (at, Err(e)),
                (s1, Ok(m)) => {
                    (
                        s1,
                        Ok(typed(m.0, TyHirExprKindV::Match { scrutinee: Box::new(v), arms: m.1 })),
                    )
                }
            }
        },
        _ => (
            s,
            Err(error_about("match 表达式需要枚举或 int 类型的被匹配值，实际为 "@, shown_type(v.ty), Seq::empty())),
        ),
    }
}

// Statements

/// The initial value of a `let` whose type is a trait object: the address of a
/// struct value becomes that object.
pub open spec fn as_trait_object(ty: Option<HirTypeV>, init: TyHirExprV) -> TyHirExprV {
    match (ty, init.kind) {
        (Some(HirTypeV::TraitObject(d)), TyHirExprKindV::AddressOf(inner)) => if inner.ty is Named {
            typed(
                HirTypeV::TraitObject(d),
                TyHirExprKindV::TraitCast { value: inner, trait_def: d },
            )
        } else {
            init
        },
        _ => init,
    }
}

/// The type of a `let`: the written one, which its value must have, or that of
/// its value.
pub open spec fn binding_type(
    ty: Option<HirTypeV>,
    init: HirTypeV,
    name: Seq<char>,
) -> Result<HirTypeV, MplangErrorV> {
    match ty {
        Some(t) => {
            match assert_ty(init, t, about("let `"@, name, "` 类型标注"@)) {
                Err(e) => Err(e),
                Ok(_u) => {
                    Ok(t)
                }
            }
        },
        None => Ok(init),
    }
}

/// A statement in a function that returns `ret`.
pub open spec fn c_stmt(
    s: CheckState,
    st: HirStmtV,
    ret: HirTypeV,
) -> (CheckState, Result<TyHirStmtV, MplangErrorV>)
    decreases st, 0int,
{
    match st {
        HirStmtV::Let { def_id, name, ty, init } => {
            match c_expr(
                CheckState { expected: if ty is Some { ty } else { s.expected }, ..s },
                init,
            ) {
                (at, Err(e)) => (at, Err(e)),
                (s1, Ok(v)) => {
                    let s2 = CheckState { expected: None, ..s1 };
                    let value = as_trait_object(ty, v);
                    match binding_type(ty, value.ty, name) {
                        Err(e) => (s2, Err(e)),
                        Ok(t) => {
                            (
                                CheckState { def_types: s2.def_types.insert(def_id, t), ..s2 },
                                Ok(TyHirStmtV::Let { def_id, name, ty: t, init: value }),
                            )
                        }
                    }
                }
            }
        },
        HirStmtV::Assign { target, value } => if !is_lvalue(target) {
            (s, Err(type_error("赋值目标必须是可修改的左值"@)))
        } else {
            match c_expr(s, target) {
                (at, Err(e)) => (at, Err(e)),
                (s1, Ok(t)) => {
                    match c_expr(s1, value) {
                        (at, Err(e)) => (at, Err(e)),
                        (s2, Ok(v)) => {
                            match assert_ty(v.ty, t.ty, "赋值（右值类型需与左值一致）"@) {
                                Err(e) => (s2, Err(e)),
                                Ok(_u) => {
                                    (s2, Ok(TyHirStmtV::Assign { target: t, value: v }))
                                }
                            }
                        }
                    }
                }
            }
        },
        HirStmtV::Expr(e) => {
            match c_expr(s, e) {
                (at, Err(e)) => (at, Err(e)),
                (s1, Ok(v)) => {
                    (s1, Ok(TyHirStmtV::Expr(v)))
                }
            }
        },
        HirStmtV::If { cond, then_branch, else_branch } => {
            match c_expr(s, cond) {
                (at, Err(e)) => (at, Err(e)),
                (s1, Ok(c)) => {
                    match assert_ty(c.ty, HirTypeV::Int, "if 条件"@) {
                        Err(e) => (s1, Err(e)),
                        Ok(_u) => {
                            match c_stmts(s1, then_branch.stmts, ret, 0, Seq::empty()) {
                                (at, Err(e)) => (at, Err(e)),
                                (s2, Ok(a)) => {
                                    match else_branch {
                                        Some(other) => {
                                            match c_stmts(s2, other.stmts, ret, 0, Seq::empty()) {
                                                (at, Err(e)) => (at, Err(e)),
                                                (s3, Ok(b)) => {
                                                    (
                                                        s3,
                                                        Ok(
                                                            TyHirStmtV::If { cond: c, then_branch: TyHirBodyV { stmts: a }, else_branch: Some(TyHirBodyV { stmts: b }) },
                                                        ),
                                                    )
                                                }
                                            }
                                        },
                                        None => (
                                            s2,
                                            Ok(
                                                TyHirStmtV::If { cond: c, then_branch: TyHirBodyV { stmts: a }, else_branch: None },
                                            ),
                                        ),
                                    }
                                }
                            }
                        }
                    }
                }
            }
        },
        HirStmtV::While { cond, body } => {
            match c_expr(s, cond) {
                (at, Err(e)) => (at, Err(e)),
                (s1, Ok(c)) => {
                    match assert_ty(c.ty, HirTypeV::Int, "while 条件"@) {
                        Err(e) => (s1, Err(e)),
                        Ok(_u) => {
                            match c_stmts(s1, body.stmts, ret, 0, Seq::empty()) {
                                (at, Err(e)) => (at, Err(e)),
                                (s2, Ok(b)) => {
                                    (
                                        s2,
                                        Ok(
                                            TyHirStmtV::While { cond: c, body: TyHirBodyV { stmts: b } },
                                        ),
                                    )
                                }
                            }
                        }
                    }
                }
            }
        },
        HirStmtV::Return(value) => match value {
            Some(e) => {
                match c_expr(s, e) {
                    (at, Err(e)) => (at, Err(e)),
                    (s1, Ok(v)) => {
                        match assert_ty(v.ty, ret, "return"@) {
                            Err(e) => (s1, Err(e)),
                            Ok(_u) => {
                                (s1, Ok(TyHirStmtV::Return(Some(v))))
                            }
                        }
                    }
                }
            },
            None => {
                match assert_ty(HirTypeV::Unit, ret, "return"@) {
                    Err(e) => (s, Err(e)),
                    Ok(_u) => {
                        (s, Ok(TyHirStmtV::Return(None)))
                    }
                }
            },
        },
    }
}

/// Statements from `i` on, behind `done`.
pub open spec fn c_stmts(
    s: CheckState,
    stmts: Seq<HirStmtV>,
    ret: HirTypeV,
    i: int,
    done: Seq<TyHirStmtV>,
) -> (CheckState, Result<Seq<TyHirStmtV>, MplangErrorV>)
    decreases stmts, stmts.len() - i,
{
    if i < 0 || i >= stmts.len() {
        (s, Ok(done))
    } else {
        match c_stmt(s, stmts[i], ret) {
            (at, Err(e)) => (at, Err(e)),
            (s1, Ok(t)) => {
                c_stmts(s1, stmts, ret, i + 1, done.push(t))
            }
        }
    }
}

// Items

/// The parameters from `i` on are known as variables.
pub open spec fn enter_params(s: CheckState, ps: Seq<HirParamV>, i: int) -> CheckState
    decreases ps.len() - i,
{
    if i >= ps.len() {
        s
    } else {
        enter_params(
            CheckState { def_types: s.def_types.insert(ps[i].def_id, ps[i].ty), names: s.names.insert(ps[i].def_id, ps[i].name), ..s },
            ps,
            i + 1,
        )
    }
}

/// A parameter, unchanged.
pub open spec fn typed_param(p: HirParamV) -> TyHirParamV {
    TyHirParamV { def_id: p.def_id, name: p.name, ty: p.ty, kind: p.kind }
}

/// A field, unchanged.
pub open spec fn typed_field(f: HirFieldV) -> TyHirFieldV {
    TyHirFieldV { def_id: f.def_id, name: f.name, ty: f.ty, visibility: f.visibility }
}

/// A variant, unchanged.
pub open spec fn typed_variant(v: HirEnumVariantV) -> TyHirEnumVariantV {
    TyHirEnumVariantV { def_id: v.def_id, name: v.name, tag: v.tag, fields: v.fields.map_values(|f: HirFieldV| typed_field(f)) }
}

/// An item.
pub open spec fn c_item(
    s: CheckState,
    item: HirItemV,
) -> (CheckState, Result<TyHirItemV, MplangErrorV>)
    decreases item, 0int,
{
    match item {
        HirItemV::Module(m) => {
            match c_module(s, m) {
                (at, Err(e)) => (at, Err(e)),
                (s1, Ok(t)) => {
                    (s1, Ok(TyHirItemV::Module(t)))
                }
            }
        },
        HirItemV::ExternFn { def_id, visibility, attributes, link_name, name, param_types, return_ty, is_variadic } => (s, Ok(TyHirItemV::ExternFn { def_id, visibility, attributes, link_name, name, param_types, return_ty, is_variadic })),
        HirItemV::Fn { def_id, visibility, attributes, name, generics, params, return_ty, body, impl_receiver } => {
            match c_stmts(enter_params(s, params, 0), body.stmts, return_ty, 0, Seq::empty()) {
                (at, Err(e)) => (at, Err(e)),
                (s1, Ok(b)) => {
                    (
                        s1,
                        Ok(
                            TyHirItemV::Fn { def_id, visibility, attributes, name, generics, params: params.map_values(|p: HirParamV| typed_param(p)), return_ty, body: TyHirBodyV { stmts: b }, impl_receiver },
                        ),
                    )
                }
            }
        },
        HirItemV::Struct { def_id, visibility, attributes, name, generics, fields } => (
            s,
            Ok(
                TyHirItemV::Struct { def_id, visibility, attributes, name, generics, fields: fields.map_values(|f: HirFieldV| typed_field(f)) },
            ),
        ),
        HirItemV::Static { def_id, visibility, attributes, name, ty, init, is_const } => {
            match c_expr(s, init) {
                (at, Err(e)) => (at, Err(e)),
                (s1, Ok(v)) => {
                    match assert_ty(v.ty, ty, about("全局变量 `"@, name, "` 初始化"@)) {
                        Err(e) => (s1, Err(e)),
                        Ok(_u) => {
                            (
                                s1,
                                Ok(
                                    TyHirItemV::Static { def_id, visibility, attributes, name, ty, init: v, is_const },
                                ),
                            )
                        }
                    }
                }
            }
        },
        HirItemV::Enum { def_id, visibility, attributes, name, generics, variants } => (
            s,
            Ok(
                TyHirItemV::Enum { def_id, visibility, attributes, name, generics, variants: variants.map_values(|v: HirEnumVariantV| typed_variant(v)) },
            ),
        ),
    }
}

/// Items from `i` on, behind `done`.
pub open spec fn c_items(
    s: CheckState,
    items: Seq<HirItemV>,
    i: int,
    done: Seq<TyHirItemV>,
) -> (CheckState, Result<Seq<TyHirItemV>, MplangErrorV>)
    decreases items, items.len() - i,
{
    if i < 0 || i >= items.len() {
        (s, Ok(done))
    } else {
        match c_item(s, items[i]) {
            (at, Err(e)) => (at, Err(e)),
            (s1, Ok(t)) => {
                c_items(s1, items, i + 1, done.push(t))
            }
        }
    }
}

/// A module.
pub open spec fn c_module(
    s: CheckState,
    m: HirModuleV,
) -> (CheckState, Result<TyHirModuleV, MplangErrorV>)
    decreases m, 0int,
{
    match c_items(s, m.items, 0, Seq::empty()) {
        (at, Err(e)) => (at, Err(e)),
        (s1, Ok(items)) => {
            (
                s1,
                Ok(
                    TyHirModuleV { def_id: m.def_id, name: m.name, visibility: m.visibility, attributes: m.attributes, items },
                ),
            )
        }
    }
}

/// A whole program: all definitions are noted before any is checked.
pub open spec fn checked(
    s: CheckState,
    unit: HirCompilationUnitV,
) -> (CheckState, Result<TyHirCompilationUnitV, MplangErrorV>) {
    match collect_module(s, unit.root_module) {
        (at, Err(e)) => (at, Err(e)),
        (s1, Ok(_u)) => {
            match c_module(s1, unit.root_module) {
                (at, Err(e)) => (at, Err(e)),
                (s2, Ok(m)) => {
                    (s2, Ok(TyHirCompilationUnitV { root_module: m, vtables: unit.vtables }))
                }
            }
        }
    }
}

} // verus!

