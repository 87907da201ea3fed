//! Generic arguments: substitution and inference.

use crate::ast::{GenericParam, GenericParamKind, GenericParamV};
use crate::error::{MplangError, MplangErrorV};
use crate::hir::{lemma_hir_type_view, ArrayLen, ConstArg, HirType, HirTypeV, TypeOrConst};
use crate::list::{empty_list, push_item, set_item};
use crate::lowering::gives;
use crate::text::{cat3, cat4, cat5, usize_string};
use crate::tycheck::info::StructFieldInfo;
use crate::tycheck::rules::{
    bad_index, bad_range, call_args, check_known, check_struct_known, count_kind, error_about2,
    explicit_args, explicit_struct_args, field_args, field_named, instantiate, known, no_const_arg,
    no_type_arg, resolve_const, resolve_consts, slot, struct_args, subst_len, subst_type,
    subst_types, too_many_args, too_many_struct_args, types_of, unify, unify_all, unknown,
    wrong_struct_kind, GenericArgs,
};
use crate::tyhir::{lemma_ty_hir_expr_view, TyHirExpr};
use vstd::prelude::*;

verus! {

/// There are at most as many parameters of a kind as there are parameters, and
/// a parameter of the kind is counted.
pub proof fn lemma_count(gs: Seq<GenericParamV>, kind: GenericParamKind, i: int, n: int)
    requires
        0 <= i <= n <= gs.len(),
    ensures
        count_kind(gs, kind, i) <= count_kind(gs, kind, n),
        count_kind(gs, kind, n) <= n,
        i < n && gs[i].kind == kind ==> count_kind(gs, kind, i) < count_kind(gs, kind, n),
    decreases n,
{
    if n > 0 {
        if i < n {
            lemma_count(gs, kind, i, n - 1);
        } else {
            lemma_count(gs, kind, n - 1, n - 1);
        }
    }
}

/// Every position among the parameters of a kind is that of some parameter.
pub proof fn lemma_count_onto(
    gs: Seq<GenericParamV>,
    kind: GenericParamKind,
    n: int,
    p: nat,
) -> (i: int)
    requires
        0 <= n <= gs.len(),
        p < count_kind(gs, kind, n),
    ensures
        0 <= i < n,
        gs[i].kind == kind,
        count_kind(gs, kind, i) == p,
    decreases n,
{
    if gs[n - 1].kind == kind && count_kind(gs, kind, n - 1) == p {
        n - 1
    } else {
        lemma_count_onto(gs, kind, n - 1, p)
    }
}

pub(crate) fn index_error(len: usize, index: usize) -> (r: MplangError)
    ensures
        r.deep_view() == bad_index(len as nat, index as nat),
{
    proof {
        reveal(bad_index);
    }
    let a = usize_string(len);
    let b = usize_string(index);
    let text = cat4(
        "index out of bounds: the len is ",
        a.as_str(),
        " but the index is ",
        b.as_str(),
    );
    MplangError::other(text.as_str())
}

/// The number of parameters of a kind among the first `k`.
fn count_of(gs: &Vec<GenericParam>, kind: GenericParamKind, k: usize) -> (r: usize)
    requires
        k <= gs@.len(),
    ensures
        r == count_kind(gs.deep_view(), kind, k as int),
        r <= k,
{
    let mut n: usize = 0;
    for i in 0..k
        invariant
            k <= gs@.len(),
            n <= i,
            n == count_kind(gs.deep_view(), kind, i as int),
    {
        if gs[i].kind == kind {
            n = n + 1;
        }
    }
    n
}

pub(crate) fn slot_of(gs: &Vec<GenericParam>, kind: GenericParamKind, k: usize) -> (r: Result<
    usize,
    MplangError,
>)
    ensures
        match r {
            Ok(p) => slot(gs.deep_view(), kind, k) == Ok::<nat, MplangErrorV>(p as nat),
            Err(e) => slot(gs.deep_view(), kind, k) == Err::<nat, MplangErrorV>(e.deep_view()),
        },
{
    if k > gs.len() {
        proof {
            reveal(bad_range);
        }
        let a = usize_string(k);
        let b = usize_string(gs.len());
        let text = cat4(
            "range end index ",
            a.as_str(),
            " out of range for slice of length ",
            b.as_str(),
        );
        return Err(MplangError::other(text.as_str()));
    }
    Ok(count_of(gs, kind, k))
}

fn resolve_const_arg(c: ConstArg, gs: &Vec<GenericParam>, ca: &Vec<ConstArg>) -> (r: Result<
    ConstArg,
    MplangError,
>)
    ensures
        gives(r, resolve_const(c, gs.deep_view(), ca.deep_view())),
{
    match c {
        ConstArg::Literal(v) => Ok(ConstArg::Literal(v)),
        ConstArg::Param(i) => {
            let q: usize = slot_of(gs, GenericParamKind::Const, i)?;
            if q < ca.len() {
                Ok(ca[q])
            } else {
                Err(index_error(ca.len(), q))
            }
        },
    }
}

fn resolve_const_args(cs: &Vec<ConstArg>, gs: &Vec<GenericParam>, ca: &Vec<ConstArg>) -> (r: Result<
    Vec<ConstArg>,
    MplangError,
>)
    ensures
        gives(
            r,
            resolve_consts(cs.deep_view(), gs.deep_view(), ca.deep_view(), 0, Seq::empty()),
        ),
{
    let mut out: Vec<ConstArg> = empty_list();
    let ghost goal = resolve_consts(
        cs.deep_view(),
        gs.deep_view(),
        ca.deep_view(),
        0,
        Seq::empty(),
    );
    for i in 0..cs.len()
        invariant
            goal == resolve_consts(
                cs.deep_view(),
                gs.deep_view(),
                ca.deep_view(),
                0,
                Seq::empty(),
            ),
            goal == resolve_consts(
                cs.deep_view(),
                gs.deep_view(),
                ca.deep_view(),
                i as int,
                out.deep_view(),
            ),
    {
        let c = resolve_const_arg(cs[i], gs, ca)?;
        push_item(&mut out, c);
    }
    Ok(out)
}

fn resolve_len(n: ArrayLen, gs: &Vec<GenericParam>, ca: &Vec<ConstArg>) -> (r: Result<
    ArrayLen,
    MplangError,
>)
    ensures
        gives(r, subst_len(n, gs.deep_view(), ca.deep_view())),
{
    match n {
        ArrayLen::Known(k) => Ok(ArrayLen::Known(k)),
        ArrayLen::Const(i) => {
            let c = resolve_const_arg(ConstArg::Param(i), gs, ca)?;
            Ok(c.as_array_len(i))
        },
    }
}

/// Replaces the generic parameters of a type by arguments.
pub fn substitute(
    t: &HirType,
    gs: &Vec<GenericParam>,
    ta: &Vec<HirType>,
    ca: &Vec<ConstArg>,
) -> (r: Result<
    HirType,
    MplangError,
>)
    ensures
        gives(
            r,
            subst_type(t.deep_view(), gs.deep_view(), ta.deep_view(), ca.deep_view()),
        ),
    decreases t,
{
    proof {
        lemma_hir_type_view(*t);
    }
    match t {
        HirType::Var(i) => {
            let p: usize = slot_of(gs, GenericParamKind::Type, *i)?;
            if p < ta.len() {
                Ok(ta[p].clone())
            } else {
                Err(index_error(ta.len(), p))
            }
        },
        HirType::Generic(d, ts, cs) => {
            let us = substitute_all(ts, gs, ta, ca)?;
            let ds = resolve_const_args(cs, gs, ca)?;
            let r = HirType::Generic(*d, us, ds);
            proof {
                lemma_hir_type_view(r);
            }
            Ok(r)
        },
        HirType::Enum(d, ts, cs) => {
            let us = substitute_all(ts, gs, ta, ca)?;
            let ds = resolve_const_args(cs, gs, ca)?;
            let r = HirType::Enum(*d, us, ds);
            proof {
                lemma_hir_type_view(r);
            }
            Ok(r)
        },
        HirType::Pointer(e) => {
            let u = substitute(&**e, gs, ta, ca)?;
            let r = HirType::Pointer(Box::new(u));
            proof {
                lemma_hir_type_view(r);
            }
            Ok(r)
        },
        HirType::Array(e, n) => {
            let m = resolve_len(*n, gs, ca)?;
            let u = substitute(&**e, gs, ta, ca)?;
            let r = HirType::Array(Box::new(u), m);
            proof {
                lemma_hir_type_view(r);
            }
            Ok(r)
        },
        _ => Ok(t.clone()),
    }
}

/// Replaces the generic parameters of types by arguments.
pub fn substitute_all(
    ts: &Vec<HirType>,
    gs: &Vec<GenericParam>,
    ta: &Vec<HirType>,
    ca: &Vec<ConstArg>,
) -> (r: Result<Vec<HirType>, MplangError>)
    ensures
        gives(
            r,
            subst_types(
                ts.deep_view(),
                gs.deep_view(),
                ta.deep_view(),
                ca.deep_view(),
                0,
                Seq::empty(),
            ),
        ),
    decreases ts,
{
    let mut out: Vec<HirType> = empty_list();
    let ghost goal = subst_types(
        ts.deep_view(),
        gs.deep_view(),
        ta.deep_view(),
        ca.deep_view(),
        0,
        Seq::empty(),
    );
    for i in 0..ts.len()
        invariant
            goal == subst_types(
                ts.deep_view(),
                gs.deep_view(),
                ta.deep_view(),
                ca.deep_view(),
                0,
                Seq::empty(),
            ),
            goal == subst_types(
                ts.deep_view(),
                gs.deep_view(),
                ta.deep_view(),
                ca.deep_view(),
                i as int,
                out.deep_view(),
            ),
    {
        let u = substitute(&ts[i], gs, ta, ca)?;
        push_item(&mut out, u);
    }
    Ok(out)
}

/// Enters in `ta` the type arguments that matching `actual` against `expected`
/// finds.
pub fn unify_ty(
    expected: &HirType,
    actual: &HirType,
    gs: &Vec<GenericParam>,
    ta: Vec<Option<HirType>>,
) -> (r: Result<Vec<Option<HirType>>, MplangError>)
    ensures
        gives(
            r,
            unify(expected.deep_view(), actual.deep_view(), gs.deep_view(), ta.deep_view()),
        ),
    decreases expected,
{
    proof {
        lemma_hir_type_view(*expected);
        lemma_hir_type_view(*actual);
    }
    match expected {
        HirType::Var(j) => {
            let p: usize = slot_of(gs, GenericParamKind::Type, *j)?;
            if p >= ta.len() {
                return Err(index_error(ta.len(), p));
            }
            match &ta[p] {
                None => {},
                Some(t) => {
                    if t.same(actual) {
                        return Ok(ta);
                    }
                    return Err(
                        MplangError::type_error(
                            "泛型类型参数推断冲突（同一类型参数被推导为不同的具体类型）",
                        ),
                    );
                },
            }
            let mut out = ta;
            set_item(&mut out, p, Some(actual.clone()));
            Ok(out)
        },
        HirType::Pointer(e) => match actual {
            HirType::Pointer(a) => unify_ty(&**e, &**a, gs, ta),
            _ => Ok(ta),
        },
        HirType::Array(e, _) => match actual {
            HirType::Array(a, _) => unify_ty(&**e, &**a, gs, ta),
            _ => Ok(ta),
        },
        HirType::Generic(d, ts, _) => match actual {
            HirType::Generic(f, us, _) => if *d == *f {
                unify_list(ts, us, gs, ta)
            } else {
                Ok(ta)
            },
            _ => Ok(ta),
        },
        HirType::Enum(d, ts, _) => match actual {
            HirType::Enum(f, us, _) => if *d == *f {
                unify_list(ts, us, gs, ta)
            } else {
                Ok(ta)
            },
            _ => Ok(ta),
        },
        _ => Ok(ta),
    }
}

/// The same for two lists of types, as far as both reach.
pub fn unify_list(
    expected: &Vec<HirType>,
    actual: &Vec<HirType>,
    gs: &Vec<GenericParam>,
    ta: Vec<Option<HirType>>,
) -> (r: Result<Vec<Option<HirType>>, MplangError>)
    ensures
        gives(
            r,
            unify_all(
                expected.deep_view(),
                actual.deep_view(),
                gs.deep_view(),
                0,
                ta.deep_view(),
            ),
        ),
    decreases expected,
{
    let ghost ta0 = ta.deep_view();
    let mut out = ta;
    let ghost goal = unify_all(
        expected.deep_view(),
        actual.deep_view(),
        gs.deep_view(),
        0,
        ta0,
    );
    let mut i: usize = 0;
    while i < expected.len() && i < actual.len()
        invariant
            i <= expected@.len(),
            ta0 == ta.deep_view(),
            goal == unify_all(
                expected.deep_view(),
                actual.deep_view(),
                gs.deep_view(),
                0,
                ta0,
            ),
            goal == unify_all(
                expected.deep_view(),
                actual.deep_view(),
                gs.deep_view(),
                i as int,
                out.deep_view(),
            ),
        decreases expected@.len() - i,
    {
        out = unify_ty(&expected[i], &actual[i], gs, out)?;
        i = i + 1;
    }
    Ok(out)
}

/// `n` unknown arguments.
pub fn unknown_args<T: DeepView>(n: usize) -> (r: Vec<Option<T>>)
    ensures
        r.deep_view() == unknown::<T::V>(n as nat),
        r@.len() == n,
{
    let mut out: Vec<Option<T>> = Vec::new();
    for i in 0..n
        invariant
            out@.len() == i,
            forall|j: int| 0 <= j < i ==> #[trigger] out@[j] is None,
    {
        out.push(None);
    }
    assert(out.deep_view() =~= unknown::<T::V>(n as nat));
    out
}

/// The arguments, all of which are known.
pub fn known_args<T: DeepView>(args: Vec<Option<T>>) -> (r: Vec<T>)
    requires
        forall|i: int| 0 <= i < args@.len() ==> #[trigger] args@[i] is Some,
    ensures
        r.deep_view() == known(args.deep_view()),
{
    let mut rest = args;
    let mut rev: Vec<T> = Vec::new();
    let ghost all = args@;
    while rest.len() > 0
        invariant
            forall|i: int| 0 <= i < all.len() ==> #[trigger] all[i] is Some,
            rest@.len() + rev@.len() == all.len(),
            rest@ == all.subrange(0, rest@.len() as int),
            forall|j: int|
                0 <= j < rev@.len() ==> Some(#[trigger] rev@[j]) == all[all.len() - 1 - j],
        decreases rest@.len(),
    {
        let ghost k = rest@.len() - 1;
        assert(all[k] is Some);
        match rest.pop() {
            Some(Some(t)) => {
                rev.push(t);
                assert(rest@ =~= all.subrange(0, k));
            },
            _ => {},
        }
    }
    let mut out: Vec<T> = Vec::new();
    while rev.len() > 0
        invariant
            forall|i: int| 0 <= i < all.len() ==> #[trigger] all[i] is Some,
            out@.len() + rev@.len() == all.len(),
            forall|j: int|
                0 <= j < rev@.len() ==> Some(#[trigger] rev@[j]) == all[all.len() - 1 - j],
            forall|j: int| 0 <= j < out@.len() ==> Some(#[trigger] out@[j]) == all[j],
        decreases rev@.len(),
    {
        let ghost n = rev@.len();
        assert(Some(rev@[n - 1]) == all[all.len() - n]);
        match rev.pop() {
            Some(t) => {
                out.push(t);
            },
            None => {},
        }
    }
    assert(out.deep_view() =~= known(args.deep_view())) by {
        assert forall|j: int| 0 <= j < out@.len() implies #[trigger] out.deep_view()[j]
            == known(args.deep_view())[j] by {
            assert(Some(out@[j]) == all[j]);
        }
    }
    out
}

/// Generic arguments as far as they are known.
pub struct PartialArgs {
    pub types: Vec<Option<HirType>>,
    pub consts: Vec<Option<ConstArg>>,
}

impl DeepView for PartialArgs {
    type V = GenericArgs;

    open spec fn deep_view(&self) -> GenericArgs {
        GenericArgs { types: self.types.deep_view(), consts: self.consts.deep_view() }
    }
}

/// There is a place for every argument.
pub open spec fn fits(gs: Seq<GenericParamV>, args: GenericArgs) -> bool {
    &&& args.types.len() == count_kind(gs, GenericParamKind::Type, gs.len() as int)
    &&& args.consts.len() == count_kind(gs, GenericParamKind::Const, gs.len() as int)
}

pub(crate) fn no_args(gs: &Vec<GenericParam>) -> (r: PartialArgs)
    ensures
        r.deep_view() == (GenericArgs {
            types: unknown(
                count_kind(gs.deep_view(), GenericParamKind::Type, gs@.len() as int),
            ),
            consts: unknown(
                count_kind(gs.deep_view(), GenericParamKind::Const, gs@.len() as int),
            ),
        }),
        fits(gs.deep_view(), r.deep_view()),
{
    let n: usize = count_of(gs, GenericParamKind::Type, gs.len());
    let m: usize = count_of(gs, GenericParamKind::Const, gs.len());
    PartialArgs { types: unknown_args(n), consts: unknown_args(m) }
}

pub(crate) fn set_type(
    gs: &Vec<GenericParam>,
    k: usize,
    args: PartialArgs,
    t: HirType,
) -> (r: PartialArgs)
    requires
        k < gs@.len(),
        gs@[k as int].kind == GenericParamKind::Type,
        fits(gs.deep_view(), args.deep_view()),
    ensures
        fits(gs.deep_view(), r.deep_view()),
        r.deep_view() == (GenericArgs {
            types: args.deep_view().types.update(
                count_kind(gs.deep_view(), GenericParamKind::Type, k as int) as int,
                Some(t.deep_view()),
            ),
            ..args.deep_view()
        }),
{
    let p: usize = count_of(gs, GenericParamKind::Type, k);
    proof {
        lemma_count(gs.deep_view(), GenericParamKind::Type, k as int, gs@.len() as int);
    }
    let mut out = args;
    set_item(&mut out.types, p, Some(t));
    out
}

pub(crate) fn set_const(
    gs: &Vec<GenericParam>,
    k: usize,
    args: PartialArgs,
    c: ConstArg,
) -> (r: PartialArgs)
    requires
        k < gs@.len(),
        gs@[k as int].kind == GenericParamKind::Const,
        fits(gs.deep_view(), args.deep_view()),
    ensures
        fits(gs.deep_view(), r.deep_view()),
        r.deep_view() == (GenericArgs {
            consts: args.deep_view().consts.update(
                count_kind(gs.deep_view(), GenericParamKind::Const, k as int) as int,
                Some(c),
            ),
            ..args.deep_view()
        }),
{
    let p: usize = count_of(gs, GenericParamKind::Const, k);
    proof {
        lemma_count(gs.deep_view(), GenericParamKind::Const, k as int, gs@.len() as int);
    }
    let mut out = args;
    set_item(&mut out.consts, p, Some(c));
    out
}

fn explicit(gs: &Vec<GenericParam>, tf: &Vec<TypeOrConst>) -> (r: Result<PartialArgs, MplangError>)
    requires
        tf@.len() <= gs@.len(),
    ensures
        gives(
            r,
            explicit_args(
                gs.deep_view(),
                tf.deep_view(),
                0,
                GenericArgs {
                    types: unknown(
                        count_kind(gs.deep_view(), GenericParamKind::Type, gs@.len() as int),
                    ),
                    consts: unknown(
                        count_kind(gs.deep_view(), GenericParamKind::Const, gs@.len() as int),
                    ),
                },
            ),
        ),
        r matches Ok(a) ==> fits(gs.deep_view(), a.deep_view()),
{
    let mut args = no_args(gs);
    let ghost start = args.deep_view();
    let ghost goal = explicit_args(gs.deep_view(), tf.deep_view(), 0, start);
    for k in 0..tf.len()
        invariant
            tf@.len() <= gs@.len(),
            fits(gs.deep_view(), args.deep_view()),
            start == (GenericArgs {
                types: unknown(
                    count_kind(gs.deep_view(), GenericParamKind::Type, gs@.len() as int),
                ),
                consts: unknown(
                    count_kind(gs.deep_view(), GenericParamKind::Const, gs@.len() as int),
                ),
            }),
            goal == explicit_args(gs.deep_view(), tf.deep_view(), 0, start),
            goal == explicit_args(gs.deep_view(), tf.deep_view(), k as int, args.deep_view()),
    {
        match (gs[k].kind, &tf[k]) {
            (GenericParamKind::Type, TypeOrConst::Type(t)) => {
                args = set_type(gs, k, args, t.clone());
            },
            (GenericParamKind::Const, TypeOrConst::Const(v)) => {
                args = set_const(gs, k, args, ConstArg::Literal(*v));
            },
            (GenericParamKind::Const, TypeOrConst::ConstParam(_)) => {
                return Err(
                    MplangError::type_error(
                        "常量参数名引用无法在调用处解析，请改用整数字面量",
                    ),
                );
            },
            _ => {
                return Err(
                    MplangError::type_error(
                        "泛型实参种类与声明不符（类型参数需要类型，常量参数需要整型）",
                    ),
                );
            },
        }
    }
    Ok(args)
}

/// Generic parameter `i` has an argument.
pub open spec fn param_known(gs: Seq<GenericParamV>, args: GenericArgs, i: int) -> bool {
    match gs[i].kind {
        GenericParamKind::Type => args.types[count_kind(gs, GenericParamKind::Type, i) as int]
            is Some,
        GenericParamKind::Const => args.consts[count_kind(gs, GenericParamKind::Const, i) as int]
            is Some,
    }
}

/// Where every parameter is known to have an argument, every argument is known.
pub proof fn lemma_all_known(gs: Seq<GenericParamV>, args: GenericArgs)
    requires
        fits(gs, args),
        forall|i: int| 0 <= i < gs.len() ==> #[trigger] param_known(gs, args, i),
    ensures
        forall|p: int| 0 <= p < args.types.len() ==> #[trigger] args.types[p] is Some,
        forall|p: int| 0 <= p < args.consts.len() ==> #[trigger] args.consts[p] is Some,
{
    assert forall|p: int| 0 <= p < args.types.len() implies #[trigger] args.types[p] is Some by {
        let i = lemma_count_onto(gs, GenericParamKind::Type, gs.len() as int, p as nat);
        assert(param_known(gs, args, i));
    }
    assert forall|p: int| 0 <= p < args.consts.len() implies #[trigger] args.consts[p] is Some by {
        let i = lemma_count_onto(gs, GenericParamKind::Const, gs.len() as int, p as nat);
        assert(param_known(gs, args, i));
    }
}

/// Whether generic parameter `i` has an argument.
fn has_arg(gs: &Vec<GenericParam>, args: &PartialArgs, i: usize) -> (r: bool)
    requires
        i < gs@.len(),
        fits(gs.deep_view(), args.deep_view()),
    ensures
        r == param_known(gs.deep_view(), args.deep_view(), i as int),
{
    let kind = gs[i].kind;
    let p: usize = count_of(gs, kind, i);
    proof {
        lemma_count(gs.deep_view(), kind, i as int, gs@.len() as int);
    }
    match kind {
        GenericParamKind::Type => args.types[p].is_some(),
        GenericParamKind::Const => args.consts[p].is_some(),
    }
}

/// The error for a generic parameter of a function without an argument.
fn no_arg(param: &GenericParam) -> (r: MplangError)
    ensures
        r.deep_view() == (match param.kind {
            GenericParamKind::Type => no_type_arg(param.name@),
            GenericParamKind::Const => no_const_arg(param.name@),
        }),
{
    proof {
        reveal(no_type_arg);
        reveal(no_const_arg);
    }
    match param.kind {
        GenericParamKind::Type => {
            let text = cat3(
                "无法推断类型参数 `",
                param.name.as_str(),
                "`，请用涡轮鱼 `::<...>` 显式指定",
            );
            MplangError::type_error(text.as_str())
        },
        GenericParamKind::Const => {
            let text = cat3(
                "常量参数 `",
                param.name.as_str(),
                "` 必须由涡轮鱼 `::<...>` 显式指定",
            );
            MplangError::type_error(text.as_str())
        },
    }
}

pub(crate) fn check_all_known(
    gs: &Vec<GenericParam>,
    args: &PartialArgs,
) -> (r: Result<(), MplangError>)
    requires
        fits(gs.deep_view(), args.deep_view()),
    ensures
        gives(r, check_known(gs.deep_view(), args.deep_view(), 0)),
        r is Ok ==> (forall|p: int|
            0 <= p < args.types@.len() ==> #[trigger] args.types@[p] is Some),
        r is Ok ==> (forall|p: int|
            0 <= p < args.consts@.len() ==> #[trigger] args.consts@[p] is Some),
{
    let ghost g = gs.deep_view();
    let ghost a = args.deep_view();
    for i in 0..gs.len()
        invariant
            g == gs.deep_view(),
            a == args.deep_view(),
            fits(g, a),
            check_known(g, a, 0) == check_known(g, a, i as int),
            forall|j: int| 0 <= j < i ==> #[trigger] param_known(g, a, j),
    {
        if !has_arg(gs, args, i) {
            return Err(no_arg(&gs[i]));
        }
    }
    proof {
        lemma_all_known(g, a);
        assert forall|p: int| 0 <= p < args.types@.len() implies #[trigger] args.types@[p] is Some by {
            assert(a.types[p] is Some);
        }
        assert forall|p: int| 0 <= p < args.consts@.len() implies #[trigger] args.consts@[p]
            is Some by {
            assert(a.consts[p] is Some);
        }
    }
    Ok(())
}

/// Unifying keeps the number of arguments.
pub proof fn lemma_unify_len(
    expected: HirTypeV,
    actual: HirTypeV,
    gs: Seq<GenericParamV>,
    ta: Seq<Option<HirTypeV>>,
)
    ensures
        unify(expected, actual, gs, ta) matches Ok(r) ==> r.len() == ta.len(),
    decreases expected, 0int,
{
    match expected {
        HirTypeV::Pointer(e) => {
            if let HirTypeV::Pointer(a) = actual {
                lemma_unify_len(*e, *a, gs, ta);
            }
        },
        HirTypeV::Array(e, _) => {
            if let HirTypeV::Array(a, _) = actual {
                lemma_unify_len(*e, *a, gs, ta);
            }
        },
        HirTypeV::Generic(d, ts, _) => {
            if let HirTypeV::Generic(f, us, _) = actual {
                lemma_unify_all_len(ts, us, gs, 0, ta);
            }
        },
        HirTypeV::Enum(d, ts, _) => {
            if let HirTypeV::Enum(f, us, _) = actual {
                lemma_unify_all_len(ts, us, gs, 0, ta);
            }
        },
        _ => {},
    }
}

/// Unifying lists keeps the number of arguments.
pub proof fn lemma_unify_all_len(
    expected: Seq<HirTypeV>,
    actual: Seq<HirTypeV>,
    gs: Seq<GenericParamV>,
    i: int,
    ta: Seq<Option<HirTypeV>>,
)
    ensures
        unify_all(expected, actual, gs, i, ta) matches Ok(r) ==> r.len() == ta.len(),
    decreases expected, expected.len() - i,
{
    if i < 0 || i >= expected.len() || i >= actual.len() {
    } else {
        lemma_unify_len(expected[i], actual[i], gs, ta);
        match unify(expected[i], actual[i], gs, ta) {
            Ok(next) => {
                lemma_unify_all_len(expected, actual, gs, i + 1, next);
            },
            Err(_) => {},
        }
    }
}

/// The types of expressions.
pub fn expr_types(es: &Vec<TyHirExpr>) -> (r: Vec<HirType>)
    ensures
        r.deep_view() == types_of(es.deep_view()),
{
    let mut out: Vec<HirType> = Vec::new();
    for i in 0..es.len()
        invariant
            out@.len() == i,
            forall|j: int|
                0 <= j < i ==> #[trigger] out@[j].deep_view() == es@[j].deep_view().ty,
    {
        proof {
            lemma_ty_hir_expr_view(es@[i as int]);
        }
        out.push(es[i].ty.clone());
    }
    assert(out.deep_view() =~= types_of(es.deep_view()));
    out
}

/// The generic arguments of a call.
pub fn infer_call_args(
    gs: &Vec<GenericParam>,
    params: &Vec<HirType>,
    tf: &Vec<TypeOrConst>,
    actual: &Vec<HirType>,
) -> (r: Result<(Vec<HirType>, Vec<ConstArg>), MplangError>)
    ensures
        gives(
            r,
            call_args(gs.deep_view(), params.deep_view(), tf.deep_view(), actual.deep_view()),
        ),
{
    if tf.len() > gs.len() {
        proof {
            reveal(too_many_args);
        }
        let n = usize_string(gs.len());
        let text = cat3("泛型实参过多（期望 ", n.as_str(), " 个）");
        return Err(MplangError::type_error(text.as_str()));
    }
    let given = explicit(gs, tf)?;
    proof {
        lemma_unify_all_len(
            params.deep_view(),
            actual.deep_view(),
            gs.deep_view(),
            0,
            given.types.deep_view(),
        );
    }
    let types = unify_list(params, actual, gs, given.types)?;
    let all = PartialArgs { types, consts: given.consts };
    check_all_known(gs, &all)?;
    Ok((known_args(all.types), known_args(all.consts)))
}

/// The parameter types and the return type of a generic function at a call.
pub fn instantiate_fn_sig(
    gs: &Vec<GenericParam>,
    params: &Vec<HirType>,
    ret: &HirType,
    tf: &Vec<TypeOrConst>,
    args: &Vec<TyHirExpr>,
) -> (r: Result<(Vec<HirType>, HirType), MplangError>)
    ensures
        gives(
            r,
            instantiate(
                gs.deep_view(),
                params.deep_view(),
                ret.deep_view(),
                tf.deep_view(),
                types_of(args.deep_view()),
            ),
        ),
{
    let actual = expr_types(args);
    let (ta, ca) = infer_call_args(gs, params, tf, &actual)?;
    let ps = substitute_all(params, gs, &ta, &ca)?;
    let t = substitute(ret, gs, &ta, &ca)?;
    Ok((ps, t))
}

fn explicit_struct(name: &String, gs: &Vec<GenericParam>, tf: &Vec<TypeOrConst>) -> (r: Result<
    PartialArgs,
    MplangError,
>)
    requires
        tf@.len() <= gs@.len(),
    ensures
        gives(
            r,
            explicit_struct_args(
                name@,
                gs.deep_view(),
                tf.deep_view(),
                0,
                GenericArgs {
                    types: unknown(
                        count_kind(gs.deep_view(), GenericParamKind::Type, gs@.len() as int),
                    ),
                    consts: unknown(
                        count_kind(gs.deep_view(), GenericParamKind::Const, gs@.len() as int),
                    ),
                },
            ),
        ),
        r matches Ok(a) ==> fits(gs.deep_view(), a.deep_view()),
{
    let mut args = no_args(gs);
    let ghost start = args.deep_view();
    let ghost goal = explicit_struct_args(name@, gs.deep_view(), tf.deep_view(), 0, start);
    for k in 0..tf.len()
        invariant
            tf@.len() <= gs@.len(),
            fits(gs.deep_view(), args.deep_view()),
            start == (GenericArgs {
                types: unknown(
                    count_kind(gs.deep_view(), GenericParamKind::Type, gs@.len() as int),
                ),
                consts: unknown(
                    count_kind(gs.deep_view(), GenericParamKind::Const, gs@.len() as int),
                ),
            }),
            goal == explicit_struct_args(name@, gs.deep_view(), tf.deep_view(), 0, start),
            goal == explicit_struct_args(
                name@,
                gs.deep_view(),
                tf.deep_view(),
                k as int,
                args.deep_view(),
            ),
    {
        match (gs[k].kind, &tf[k]) {
            (GenericParamKind::Type, TypeOrConst::Type(t)) => {
                args = set_type(gs, k, args, t.clone());
            },
            (GenericParamKind::Const, TypeOrConst::Const(v)) => {
                args = set_const(gs, k, args, ConstArg::Literal(*v));
            },
            (GenericParamKind::Const, TypeOrConst::ConstParam(p)) => {
                args = set_const(gs, k, args, ConstArg::Param(*p));
            },
            _ => {
                proof {
                    reveal(wrong_struct_kind);
                }
                let n = usize_string(k);
                let text = cat5(
                    "结构体 `",
                    name.as_str(),
                    "` 第 ",
                    n.as_str(),
                    " 个泛型实参与其声明种类不符",
                );
                return Err(MplangError::type_error(text.as_str()));
            },
        }
    }
    Ok(args)
}

/// The index of the field of this name.
pub fn field_index(fs: &Vec<StructFieldInfo>, name: &String) -> (r: Option<usize>)
    ensures
        match r {
            Some(k) => k < fs@.len() && field_named(fs.deep_view(), name@, 0) == Some(
                fs@[k as int].deep_view(),
            ),
            None => field_named(fs.deep_view(), name@, 0) is None,
        },
{
    for i in 0..fs.len()
        invariant
            field_named(fs.deep_view(), name@, 0) == field_named(fs.deep_view(), name@, i as int),
    {
        if fs[i].name == *name {
            return Some(i);
        }
    }
    None
}

fn infer_from_fields(
    gs: &Vec<GenericParam>,
    fs: &Vec<StructFieldInfo>,
    inits: &Vec<(String, TyHirExpr)>,
    types: Vec<Option<HirType>>,
) -> (r: Result<Vec<Option<HirType>>, MplangError>)
    ensures
        gives(
            r,
            field_args(
                gs.deep_view(),
                fs.deep_view(),
                inits.deep_view(),
                0,
                types.deep_view(),
            ),
        ),
        r matches Ok(t) ==> t@.len() == types@.len(),
{
    let ghost t0 = types.deep_view();
    let ghost n0 = types@.len();
    let mut out = types;
    let ghost goal = field_args(gs.deep_view(), fs.deep_view(), inits.deep_view(), 0, t0);
    for i in 0..inits.len()
        invariant
            t0 == types.deep_view(),
            n0 == types@.len(),
            out@.len() == n0,
            goal == field_args(gs.deep_view(), fs.deep_view(), inits.deep_view(), 0, t0),
            goal == field_args(
                gs.deep_view(),
                fs.deep_view(),
                inits.deep_view(),
                i as int,
                out.deep_view(),
            ),
    {
        match field_index(fs, &inits[i].0) {
            Some(k) => {
                proof {
                    lemma_hir_type_view(fs@[k as int].ty);
                    lemma_ty_hir_expr_view(inits@[i as int].1);
                }
                if let HirType::Var(j) = &fs[k].ty {
                    let p: usize = slot_of(gs, GenericParamKind::Type, *j)?;
                    if p < out.len() {
                        set_item(&mut out, p, Some(inits[i].1.ty.clone()));
                    } else {
                        return Err(index_error(out.len(), p));
                    }
                }
            },
            None => {},
        }
    }
    Ok(out)
}

/// The error for a generic parameter of a struct without an argument.
fn no_struct_arg(name: &String, param: &GenericParam) -> (r: MplangError)
    ensures
        r.deep_view() == (match param.kind {
            GenericParamKind::Type => error_about2(
                "无法推断结构体 `"@,
                name@,
                "` 的类型参数 `"@,
                param.name@,
                "`，请用涡轮鱼显式指定"@,
            ),
            GenericParamKind::Const => error_about2(
                "结构体 `"@,
                name@,
                "` 的常量参数 `"@,
                param.name@,
                "` 必须由涡轮鱼显式指定"@,
            ),
        }),
{
    proof {
        reveal(error_about2);
    }
    match param.kind {
        GenericParamKind::Type => {
            let text = cat5(
                "无法推断结构体 `",
                name.as_str(),
                "` 的类型参数 `",
                param.name.as_str(),
                "`，请用涡轮鱼显式指定",
            );
            MplangError::type_error(text.as_str())
        },
        GenericParamKind::Const => {
            let text = cat5(
                "结构体 `",
                name.as_str(),
                "` 的常量参数 `",
                param.name.as_str(),
                "` 必须由涡轮鱼显式指定",
            );
            MplangError::type_error(text.as_str())
        },
    }
}

fn check_struct_args(name: &String, gs: &Vec<GenericParam>, args: &PartialArgs) -> (r: Result<
    (),
    MplangError,
>)
    requires
        fits(gs.deep_view(), args.deep_view()),
    ensures
        gives(r, check_struct_known(name@, gs.deep_view(), args.deep_view(), 0)),
        r is Ok ==> (forall|p: int|
            0 <= p < args.types@.len() ==> #[trigger] args.types@[p] is Some),
        r is Ok ==> (forall|p: int|
            0 <= p < args.consts@.len() ==> #[trigger] args.consts@[p] is Some),
{
    let ghost g = gs.deep_view();
    let ghost a = args.deep_view();
    for i in 0..gs.len()
        invariant
            g == gs.deep_view(),
            a == args.deep_view(),
            fits(g, a),
            check_struct_known(name@, g, a, 0) == check_struct_known(name@, g, a, i as int),
            forall|j: int| 0 <= j < i ==> #[trigger] param_known(g, a, j),
    {
        if !has_arg(gs, args, i) {
            return Err(no_struct_arg(name, &gs[i]));
        }
    }
    proof {
        lemma_all_known(g, a);
        assert forall|p: int| 0 <= p < args.types@.len() implies #[trigger] args.types@[p] is Some by {
            assert(a.types[p] is Some);
        }
        assert forall|p: int| 0 <= p < args.consts@.len() implies #[trigger] args.consts@[p]
            is Some by {
            assert(a.consts[p] is Some);
        }
    }
    Ok(())
}

/// The generic arguments of a struct literal.
pub fn infer_struct_args(
    name: &String,
    gs: &Vec<GenericParam>,
    tf: &Vec<TypeOrConst>,
    fs: &Vec<StructFieldInfo>,
    inits: &Vec<(String, TyHirExpr)>,
) -> (r: Result<(Vec<HirType>, Vec<ConstArg>), MplangError>)
    ensures
        gives(
            r,
            struct_args(
                name@,
                gs.deep_view(),
                tf.deep_view(),
                fs.deep_view(),
                inits.deep_view(),
            ),
        ),
{
    if tf.len() > gs.len() {
        proof {
            reveal(too_many_struct_args);
        }
        let n = usize_string(gs.len());
        let text = cat5(
            "结构体 `",
            name.as_str(),
            "` 的涡轮鱼实参过多（期望 ",
            n.as_str(),
            " 个）",
        );
        return Err(MplangError::type_error(text.as_str()));
    }
    let given = explicit_struct(name, gs, tf)?;
    let types = infer_from_fields(gs, fs, inits, given.types)?;
    let all = PartialArgs { types, consts: given.consts };
    check_struct_args(name, gs, &all)?;
    Ok((known_args(all.types), known_args(all.consts)))
}

} // verus!
