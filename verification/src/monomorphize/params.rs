//! The parameters of an instance are those of its template that take values, in
//! the same order.

use crate::ast::GenericParamV;
use crate::hir::{DefId, HirTypeV};
use crate::monomorphize::bodies::body_from;
use crate::monomorphize::rules::{
    fn_name, m_collect, m_params, m_type, value_params, InstanceKey, MonoState,
};
use crate::monomorphize::template::FnTemplateV;
use crate::tyhir::{TyHirItemV, TyHirParamV};
use vstd::prelude::*;

verus! {

/// Two parameters are for one variable.
pub open spec fn same_param(a: TyHirParamV, b: TyHirParamV) -> bool {
    a.def_id == b.def_id && a.name == b.name && a.kind == b.kind
}

/// `at` tells where each parameter of `made` stands in `ps`: the places rise, and they
/// are all those of `ps` that hold no constant parameter.
pub open spec fn places(at: Seq<int>, made: Seq<TyHirParamV>, ps: Seq<TyHirParamV>) -> bool {
    &&& at.len() == made.len()
    &&& forall|k: int| 0 <= k < at.len() ==> 0 <= #[trigger] at[k] < ps.len() && same_param(made[k], ps[at[k]]) && !(ps[at[k]].kind is ConstParam)
    &&& forall|k: int, l: int| 0 <= k < l < at.len() ==> #[trigger] at[k] < #[trigger] at[l]
    &&& forall|p: int| 0 <= p < ps.len() && !((#[trigger] ps[p]).kind is ConstParam) ==> at.contains(p)
}

/// The parameters `made` are those of `ps` that take values, in the same order.
pub open spec fn keeps_order(made: Seq<TyHirParamV>, ps: Seq<TyHirParamV>) -> bool {
    exists|at: Seq<int>| places(at, made, ps)
}

/// The function has the name of the instance of a template, the parameters of the template
/// that take values, and a body that does what that of the template does.
pub open spec fn instance_of(item: TyHirItemV, k: InstanceKey, t: FnTemplateV) -> bool {
    &&& item is Fn
    &&& item->Fn_name == fn_name(k.0, k.1)
    &&& keeps_order(item->Fn_params, t.params)
    &&& body_from(t.params, t.generics, t.body.stmts, k.2, item->Fn_body.stmts)
}

/// A function was made from a template.
pub open spec fn from_template(fns: Map<DefId, FnTemplateV>, item: TyHirItemV) -> bool {
    item is Fn ==> exists|k: InstanceKey| #[trigger] instance_of(item, k, fns[k.0]) && fns.dom().contains(k.0)
}

/// The generic function `t` of number `d` stands among the items from `i` on, at any
/// depth.
pub open spec fn defines(items: Seq<TyHirItemV>, d: DefId, t: FnTemplateV, i: int) -> bool
    decreases items, items.len() - i,
{
    if i < 0 || i >= items.len() {
        false
    } else {
        ||| match items[i] {
            TyHirItemV::Fn { def_id, generics, params, return_ty, body, impl_receiver, .. } => generics.len() > 0 && def_id == d && t == (FnTemplateV { generics, params, return_ty, body, impl_receiver }),
            TyHirItemV::Module(m) => defines(m.items, d, t, 0),
            _ => false,
        }
        ||| defines(items, d, t, i + 1)
    }
}

/// The places so far, where the first `i` parameters were looked at.
spec fn placed(at: Seq<int>, done: Seq<TyHirParamV>, ps: Seq<TyHirParamV>, i: int) -> bool {
    &&& at.len() == done.len()
    &&& forall|k: int| 0 <= k < at.len() ==> 0 <= #[trigger] at[k] < i && done[k] == ps[at[k]] && !(ps[at[k]].kind is ConstParam)
    &&& forall|k: int, l: int| 0 <= k < l < at.len() ==> #[trigger] at[k] < #[trigger] at[l]
    &&& forall|p: int| 0 <= p < i && !((#[trigger] ps[p]).kind is ConstParam) ==> at.contains(p)
}

proof fn lemma_placed(ps: Seq<TyHirParamV>, i: int, done: Seq<TyHirParamV>, at: Seq<int>) -> (r: Seq<int>)
    requires
        0 <= i <= ps.len(),
        placed(at, done, ps, i),
    ensures
        placed(r, value_params(ps, i, done), ps, ps.len() as int),
    decreases ps.len() - i,
{
    if i < ps.len() {
        if ps[i].kind is ConstParam {
            lemma_placed(ps, i + 1, done, at)
        } else {
            let next = at.push(i);
            assert forall|p: int| 0 <= p < i + 1 && !((#[trigger] ps[p]).kind is ConstParam) implies next.contains(p) by {
                if p < i {
                    let k = choose|k: int| 0 <= k < at.len() && at[k] == p;
                    assert(next[k] == p);
                } else {
                    assert(next[at.len() as int] == p);
                }
            }
            lemma_placed(ps, i + 1, done.push(ps[i]), next)
        }
    } else {
        at
    }
}

/// Expansion of the parameters' types keeps the parameters.
proof fn lemma_kept(
    s: MonoState,
    ps: Seq<TyHirParamV>,
    gs: Seq<GenericParamV>,
    ta: Seq<HirTypeV>,
    ca: Seq<i64>,
    i: int,
    done: Seq<TyHirParamV>,
    fuel: nat,
)
    requires
        0 <= i <= ps.len(),
        done.len() == i,
        forall|k: int| 0 <= k < i ==> same_param(#[trigger] done[k], ps[k]),
    ensures
        m_params(s, ps, gs, ta, ca, i, done, fuel).1 matches Ok(r) ==> r.len() == ps.len() && forall|k: int| 0 <= k < ps.len() ==> same_param(#[trigger] r[k], ps[k]),
    decreases ps.len() - i,
{
    if i < ps.len() {
        let m = m_type(s, ps[i].ty, gs, ta, ca, fuel);
        if let Ok(t) = m.1 {
            lemma_kept(m.0, ps, gs, ta, ca, i + 1, done.push(TyHirParamV { ty: t, ..ps[i] }), fuel);
        }
    }
}

/// The parameters of an instance keep the order of those of the template.
pub proof fn lemma_keeps_order(
    s: MonoState,
    ps: Seq<TyHirParamV>,
    gs: Seq<GenericParamV>,
    ta: Seq<HirTypeV>,
    ca: Seq<i64>,
    fuel: nat,
)
    ensures
        m_params(s, value_params(ps, 0, Seq::empty()), gs, ta, ca, 0, Seq::empty(), fuel).1 matches Ok(r) ==> keeps_order(r, ps),
{
    let values = value_params(ps, 0, Seq::empty());
    let at = lemma_placed(ps, 0, Seq::empty(), Seq::empty());
    lemma_kept(s, values, gs, ta, ca, 0, Seq::empty(), fuel);
    if let Ok(r) = m_params(s, values, gs, ta, ca, 0, Seq::empty(), fuel).1 {
        assert forall|k: int| 0 <= k < at.len() implies 0 <= #[trigger] at[k] < ps.len() && same_param(r[k], ps[at[k]]) && !(ps[at[k]].kind is ConstParam) by {
            assert(same_param(r[k], values[k]));
        }
        assert(places(at, r, ps));
    }
}

/// The templates are the generic functions of the program.
pub proof fn lemma_collected(s: MonoState, items: Seq<TyHirItemV>, i: int, d: DefId)
    requires
        m_collect(s, items, i).fns.dom().contains(d),
    ensures
        (s.fns.dom().contains(d) && m_collect(s, items, i).fns[d] == s.fns[d]) || defines(items, d, m_collect(s, items, i).fns[d], i),
    decreases items, items.len() - i,
{
    if 0 <= i < items.len() {
        match items[i] {
            TyHirItemV::Fn { def_id, generics, params, return_ty, body, impl_receiver, .. } => {
                if generics.len() > 0 {
                    lemma_collected(
                        MonoState { fns: s.fns.insert(def_id, FnTemplateV { generics, params, return_ty, body, impl_receiver }), ..s },
                        items,
                        i + 1,
                        d,
                    );
                } else {
                    lemma_collected(s, items, i + 1, d);
                }
            },
            TyHirItemV::Struct { def_id, generics, fields, .. } => {
                lemma_collected(
                    MonoState { structs: s.structs.insert(def_id, crate::monomorphize::template::StructTemplateV { generics, fields }), ..s },
                    items,
                    i + 1,
                    d,
                );
            },
            TyHirItemV::Module(m) => {
                let s1 = m_collect(s, m.items, 0);
                lemma_collected(s1, items, i + 1, d);
                if s1.fns.dom().contains(d) {
                    lemma_collected(s, m.items, 0, d);
                }
            },
            _ => {
                lemma_collected(s, items, i + 1, d);
            },
        }
    }
}

} // verus!
