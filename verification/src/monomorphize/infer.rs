//! Generic arguments of calls.

use crate::ast::{GenericParam, GenericParamKind, GenericParamV};
use crate::error::MplangError;
use crate::hir::{lemma_hir_type_view, ConstArg, DefId, HirType, HirTypeV, ParamKind, TypeOrConst};
use crate::list::{empty_list, push_item, set_item};
use crate::lowering::gives;
use crate::monomorphize::rules::{
    const_args_in, const_of, const_params, const_values, literals, m_explicit,
    m_from_args, m_from_receiver, m_infer, m_unify, m_unify_all,
};
use crate::monomorphize::template::FnTemplate;
use crate::monomorphize::{Mono, Scope};
use crate::table::Table;
use crate::text::{cat3, usize_string};
use crate::tycheck::generics::{
    check_all_known, fits, index_error, known_args, no_args, set_const, set_type, slot_of,
    PartialArgs,
};
use crate::tycheck::rules::{count_kind, too_many_args, unknown, GenericArgs};
use crate::tyhir::{lemma_ty_hir_expr_view, TyHirExpr, TyHirParam};
use vstd::prelude::*;

verus! {

/// Constant arguments with known values.
pub(super) fn const_args_view(cs: &Vec<i64>) -> (r: Vec<ConstArg>)
    ensures
        r.deep_view() == literals(cs.deep_view()),
{
    let mut out: Vec<ConstArg> = Vec::new();
    for i in 0..cs.len()
        invariant
            out@.len() == i,
            forall|j: int| 0 <= j < i ==> #[trigger] out@[j] == ConstArg::Literal(cs@[j]),
    {
        out.push(ConstArg::Literal(cs[i]));
    }
    assert(out.deep_view() =~= literals(cs.deep_view()));
    out
}

/// The values of constant arguments.
pub(super) fn const_args_to_i64(cs: &Vec<ConstArg>) -> (r: Result<Vec<i64>, MplangError>)
    ensures
        gives(r, const_values(cs.deep_view(), 0, Seq::empty())),
{
    let mut out: Vec<i64> = empty_list();
    let ghost goal = const_values(cs.deep_view(), 0, Seq::empty());
    for i in 0..cs.len()
        invariant
            goal == const_values(cs.deep_view(), 0, Seq::empty()),
            goal == const_values(cs.deep_view(), i as int, out.deep_view()),
    {
        match cs[i] {
            ConstArg::Literal(v) => {
                push_item(&mut out, v);
            },
            ConstArg::Param(_) => {
                return Err(
                    MplangError::other("内部错误：单态化后不应残留常量参数引用"),
                );
            },
        }
    }
    Ok(out)
}

/// The value of a constant parameter in a scope.
pub(super) fn const_param(gs: &Vec<GenericParam>, cs: &Vec<i64>, i: usize) -> (r: Result<i64, MplangError>)
    ensures
        gives(r, const_of(gs.deep_view(), cs.deep_view(), i)),
{
    let q: usize = slot_of(gs, GenericParamKind::Const, i)?;
    if q < cs.len() {
        Ok(cs[q])
    } else {
        Err(index_error(cs.len(), q))
    }
}

/// The values of constant arguments in a scope.
pub(super) fn const_args_of(c: &Scope, cs: &Vec<ConstArg>) -> (r: Result<Vec<i64>, MplangError>)
    ensures
        gives(r, const_args_in(c.model(), cs.deep_view(), 0, Seq::empty())),
{
    let mut out: Vec<i64> = empty_list();
    let ghost goal = const_args_in(c.model(), cs.deep_view(), 0, Seq::empty());
    for i in 0..cs.len()
        invariant
            goal == const_args_in(c.model(), cs.deep_view(), 0, Seq::empty()),
            goal == const_args_in(c.model(), cs.deep_view(), i as int, out.deep_view()),
    {
        let v: i64 = match cs[i] {
            ConstArg::Literal(v) => v,
            ConstArg::Param(k) => const_param(&c.generics, &c.consts, k)?,
        };
        push_item(&mut out, v);
    }
    Ok(out)
}

/// The values of the constant parameters of a function.
pub(super) fn const_map(ps: &Vec<TyHirParam>, gs: &Vec<GenericParam>, cs: &Vec<i64>) -> (r: Result<
    Table<DefId, i64>,
    MplangError,
>)
    ensures
        match r {
            Ok(t) => const_params(
                ps.deep_view(),
                gs.deep_view(),
                cs.deep_view(),
                0,
                Map::empty(),
            ) == Ok::<Map<DefId, i64>, crate::error::MplangErrorV>(t@),
            Err(e) => const_params(
                ps.deep_view(),
                gs.deep_view(),
                cs.deep_view(),
                0,
                Map::empty(),
            ) == Err::<Map<DefId, i64>, crate::error::MplangErrorV>(e.deep_view()),
        },
{
    let mut out: Table<DefId, i64> = Table::new();
    let ghost goal = const_params(
        ps.deep_view(),
        gs.deep_view(),
        cs.deep_view(),
        0,
        Map::empty(),
    );
    for i in 0..ps.len()
        invariant
            goal == const_params(
                ps.deep_view(),
                gs.deep_view(),
                cs.deep_view(),
                0,
                Map::empty(),
            ),
            goal == const_params(
                ps.deep_view(),
                gs.deep_view(),
                cs.deep_view(),
                i as int,
                out@,
            ),
    {
        if let ParamKind::ConstParam(k) = ps[i].kind {
            let v: i64 = const_param(gs, cs, k)?;
            out.insert(ps[i].def_id, v);
        }
    }
    Ok(out)
}

/// Unifying keeps the number of arguments.
proof fn lemma_unify_len(
    origins: Map<DefId, (Seq<HirTypeV>, Seq<ConstArg>)>,
    expected: HirTypeV,
    actual: HirTypeV,
    gs: Seq<GenericParamV>,
    ta: Seq<Option<HirTypeV>>,
)
    ensures
        m_unify(origins, expected, actual, gs, ta) matches Ok(r) ==> r.len() == ta.len(),
    decreases expected, 0int,
{
    match expected {
        HirTypeV::Pointer(e) => {
            if let HirTypeV::Pointer(a) = actual {
                lemma_unify_len(origins, *e, *a, gs, ta);
            }
        },
        HirTypeV::Array(e, _) => {
            if let HirTypeV::Array(a, _) = actual {
                lemma_unify_len(origins, *e, *a, gs, ta);
            }
        },
        HirTypeV::Generic(_, ts, _) => {
            match actual {
                HirTypeV::Named(d) => {
                    if origins.dom().contains(d) {
                        lemma_unify_all_len(origins, ts, origins[d].0, gs, 0, ta);
                    }
                },
                HirTypeV::Generic(_, us, _) => {
                    lemma_unify_all_len(origins, ts, us, gs, 0, ta);
                },
                _ => {},
            }
        },
        HirTypeV::Enum(d, ts, _) => {
            if let HirTypeV::Enum(f, us, _) = actual {
                lemma_unify_all_len(origins, ts, us, gs, 0, ta);
            }
        },
        _ => {},
    }
}

proof fn lemma_unify_all_len(
    origins: Map<DefId, (Seq<HirTypeV>, Seq<ConstArg>)>,
    expected: Seq<HirTypeV>,
    actual: Seq<HirTypeV>,
    gs: Seq<GenericParamV>,
    i: int,
    ta: Seq<Option<HirTypeV>>,
)
    ensures
        m_unify_all(origins, expected, actual, gs, i, ta) matches Ok(r) ==> r.len() == ta.len(),
    decreases expected, expected.len() - i,
{
    if i < 0 || i >= expected.len() || i >= actual.len() {
    } else {
        lemma_unify_len(origins, expected[i], actual[i], gs, ta);
        match m_unify(origins, expected[i], actual[i], gs, ta) {
            Ok(next) => {
                lemma_unify_all_len(origins, expected, actual, gs, i + 1, next);
            },
            Err(_) => {},
        }
    }
}

fn explicit(gs: &Vec<GenericParam>, tf: &Vec<TypeOrConst>) -> (r: Result<PartialArgs, MplangError>)
    ensures
        gives(
            r,
            m_explicit(
                gs.deep_view(),
                tf.deep_view(),
                0,
                GenericArgs {
                    types: unknown(
                        count_kind(gs.deep_view(), GenericParamKind::Type, gs@.len() as int),
                    ),
                    consts: unknown(
                        count_kind(gs.deep_view(), GenericParamKind::Const, gs@.len() as int),
                    ),
                },
            ),
        ),
        r matches Ok(a) ==> fits(gs.deep_view(), a.deep_view()),
{
    let mut args = no_args(gs);
    let ghost start = args.deep_view();
    let ghost goal = m_explicit(gs.deep_view(), tf.deep_view(), 0, start);
    for k in 0..tf.len()
        invariant
            fits(gs.deep_view(), args.deep_view()),
            start == (GenericArgs {
                types: unknown(
                    count_kind(gs.deep_view(), GenericParamKind::Type, gs@.len() as int),
                ),
                consts: unknown(
                    count_kind(gs.deep_view(), GenericParamKind::Const, gs@.len() as int),
                ),
            }),
            goal == m_explicit(gs.deep_view(), tf.deep_view(), 0, start),
            goal == m_explicit(gs.deep_view(), tf.deep_view(), k as int, args.deep_view()),
    {
        assert(gs.deep_view().len() == gs@.len());
        if k >= gs.len() {
            proof {
                reveal(too_many_args);
            }
            let n = usize_string(gs.len());
            let text = cat3("泛型实参过多（期望 ", n.as_str(), " 个）");
            return Err(MplangError::type_error(text.as_str()));
        }
        match (gs[k].kind, &tf[k]) {
            (GenericParamKind::Type, TypeOrConst::Type(t)) => {
                args = set_type(gs, k, args, t.clone());
            },
            (GenericParamKind::Const, TypeOrConst::Const(v)) => {
                args = set_const(gs, k, args, ConstArg::Literal(*v));
            },
            (GenericParamKind::Const, TypeOrConst::ConstParam(i)) => {
                args = set_const(gs, k, args, ConstArg::Param(*i));
            },
            _ => {
                return Err(
                    MplangError::type_error(
                        "泛型实参种类与声明不符（类型参数需要类型，常量参数需要整型）",
                    ),
                );
            },
        }
    }
    Ok(args)
}

impl Mono {
    /// Enters in `ta` the type arguments that matching `actual` against
    /// `expected` finds.
    fn unify(
        &self,
        expected: &HirType,
        actual: &HirType,
        gs: &Vec<GenericParam>,
        ta: Vec<Option<HirType>>,
    ) -> (r: Result<Vec<Option<HirType>>, MplangError>)
        ensures
            gives(
                r,
                m_unify(
                    self.state().origins,
                    expected.deep_view(),
                    actual.deep_view(),
                    gs.deep_view(),
                    ta.deep_view(),
                ),
            ),
        decreases expected,
    {
        proof {
            lemma_hir_type_view(*expected);
            lemma_hir_type_view(*actual);
        }
        match expected {
            HirType::Var(k) => {
                let p: usize = slot_of(gs, GenericParamKind::Type, *k)?;
                assert(ta.deep_view().len() == ta@.len());
                if p >= ta.len() {
                    return Err(index_error(ta.len(), p));
                }
                assert(ta.deep_view()[p as int] == ta@[p as int].deep_view());
                match &ta[p] {
                    None => {},
                    Some(t) => {
                        if t.same(actual) {
                            return Ok(ta);
                        }
                        return Err(
                            MplangError::type_error(
                                "泛型类型参数推断冲突（同一类型参数被推导为不同的具体类型）",
                            ),
                        );
                    },
                }
                let mut out = ta;
                set_item(&mut out, p, Some(actual.clone()));
                Ok(out)
            },
            HirType::Generic(_, ts, _) => match actual {
                HirType::Named(d) => match self.instance_structs.get(d) {
                    Some(o) => self.unify_list(ts, &o.0, gs, ta),
                    None => Ok(ta),
                },
                HirType::Generic(_, us, _) => self.unify_list(ts, us, gs, ta),
                _ => Ok(ta),
            },
            HirType::Array(e, _) => match actual {
                HirType::Array(a, _) => self.unify(&**e, &**a, gs, ta),
                _ => Ok(ta),
            },
            HirType::Pointer(e) => match actual {
                HirType::Pointer(a) => self.unify(&**e, &**a, gs, ta),
                _ => Ok(ta),
            },
            HirType::Enum(d, ts, _) => match actual {
                HirType::Enum(f, us, _) => if *d == *f {
                    self.unify_list(ts, us, gs, ta)
                } else {
                    Ok(ta)
                },
                _ => Ok(ta),
            },
            _ => Ok(ta),
        }
    }

    fn unify_list(
        &self,
        expected: &Vec<HirType>,
        actual: &Vec<HirType>,
        gs: &Vec<GenericParam>,
        ta: Vec<Option<HirType>>,
    ) -> (r: Result<Vec<Option<HirType>>, MplangError>)
        ensures
            gives(
                r,
                m_unify_all(
                    self.state().origins,
                    expected.deep_view(),
                    actual.deep_view(),
                    gs.deep_view(),
                    0,
                    ta.deep_view(),
                ),
            ),
        decreases expected,
    {
        let ghost t0 = ta.deep_view();
        let ghost goal = m_unify_all(
            self.state().origins,
            expected.deep_view(),
            actual.deep_view(),
            gs.deep_view(),
            0,
            t0,
        );
        let mut out = ta;
        for i in 0..expected.len()
            invariant
                t0 == ta.deep_view(),
                goal == m_unify_all(
                    self.state().origins,
                    expected.deep_view(),
                    actual.deep_view(),
                    gs.deep_view(),
                    0,
                    t0,
                ),
                goal == m_unify_all(
                    self.state().origins,
                    expected.deep_view(),
                    actual.deep_view(),
                    gs.deep_view(),
                    i as int,
                    out.deep_view(),
                ),
        {
            assert(actual.deep_view().len() == actual@.len());
            if i >= actual.len() {
                return Ok(out);
            }
            out = self.unify(&expected[i], &actual[i], gs, out)?;
        }
        Ok(out)
    }

    fn from_args(
        &self,
        ps: &Vec<TyHirParam>,
        args: &Vec<TyHirExpr>,
        gs: &Vec<GenericParam>,
        ta: Vec<Option<HirType>>,
    ) -> (r: Result<Vec<Option<HirType>>, MplangError>)
        ensures
            gives(
                r,
                m_from_args(
                    self.state().origins,
                    ps.deep_view(),
                    args.deep_view(),
                    gs.deep_view(),
                    0,
                    0,
                    ta.deep_view(),
                ),
            ),
            r matches Ok(t) ==> t@.len() == ta@.len(),
    {
        let ghost t0 = ta.deep_view();
        let ghost n0 = ta@.len();
        let ghost goal = m_from_args(
            self.state().origins,
            ps.deep_view(),
            args.deep_view(),
            gs.deep_view(),
            0,
            0,
            t0,
        );
        let mut out = ta;
        let mut j: usize = 0;
        for i in 0..ps.len()
            invariant
                t0 == ta.deep_view(),
                n0 == ta@.len(),
                out@.len() == n0,
                j <= i,
                goal == m_from_args(
                    self.state().origins,
                    ps.deep_view(),
                    args.deep_view(),
                    gs.deep_view(),
                    0,
                    0,
                    t0,
                ),
                goal == m_from_args(
                    self.state().origins,
                    ps.deep_view(),
                    args.deep_view(),
                    gs.deep_view(),
                    i as int,
                    j as int,
                    out.deep_view(),
                ),
        {
            let skip = match ps[i].kind {
                ParamKind::ConstParam(_) => true,
                _ => false,
            };
            if !skip {
                assert(args.deep_view().len() == args@.len());
                if j < args.len() {
                    proof {
                        lemma_ty_hir_expr_view(args@[j as int]);
                        lemma_unify_len(
                            self.state().origins,
                            ps@[i as int].ty.deep_view(),
                            args@[j as int].ty.deep_view(),
                            gs.deep_view(),
                            out.deep_view(),
                        );
                        assert(args.deep_view()[j as int] == args@[j as int].deep_view());
                    }
                    let ghost before = out.deep_view();
                    assert(before.len() == out@.len());
                    out = self.unify(&ps[i].ty, &args[j].ty, gs, out)?;
                    assert(out.deep_view().len() == out@.len());
                }
                j = j + 1;
            }
        }
        Ok(out)
    }

    fn from_receiver(
        &self,
        recv: &Option<HirType>,
        args: &Vec<TyHirExpr>,
        gs: &Vec<GenericParam>,
        ta: Vec<Option<HirType>>,
    ) -> (r: Result<Vec<Option<HirType>>, MplangError>)
        ensures
            gives(
                r,
                m_from_receiver(
                    self.state().origins,
                    recv.deep_view(),
                    args.deep_view(),
                    gs.deep_view(),
                    ta.deep_view(),
                ),
            ),
            r matches Ok(t) ==> t@.len() == ta@.len(),
    {
        match recv {
            Some(t) => {
                proof {
                    assert(args.deep_view().len() == args@.len());
                }
                if args.len() == 0 {
                    return Ok(ta);
                }
                proof {
                    lemma_ty_hir_expr_view(args@[0]);
                    assert(args.deep_view()[0] == args@[0].deep_view());
                    lemma_unify_len(
                        self.state().origins,
                        t.deep_view(),
                        args@[0].ty.deep_view(),
                        gs.deep_view(),
                        ta.deep_view(),
                    );
                    assert(ta.deep_view().len() == ta@.len());
                }
                let out = self.unify(t, &args[0].ty, gs, ta)?;
                assert(out.deep_view().len() == out@.len());
                Ok(out)
            },
            None => Ok(ta),
        }
    }

    /// The generic arguments of a call.
    pub(super) fn infer_call_args(
        &self,
        t: &FnTemplate,
        args: &Vec<TyHirExpr>,
        tf: &Vec<TypeOrConst>,
    ) -> (r: Result<(Vec<HirType>, Vec<ConstArg>), MplangError>)
        ensures
            gives(
                r,
                m_infer(
                    self.state().origins,
                    t.deep_view(),
                    args.deep_view(),
                    tf.deep_view(),
                ),
            ),
    {
        proof {
            reveal(m_infer);
        }
        let given = explicit(&t.generics, tf)?;
        let a = self.from_args(&t.params, args, &t.generics, given.types)?;
        let types = self.from_receiver(&t.impl_receiver, args, &t.generics, a)?;
        let all = PartialArgs { types, consts: given.consts };
        check_all_known(&t.generics, &all)?;
        Ok((known_args(all.types), known_args(all.consts)))
    }
}

} // verus!
