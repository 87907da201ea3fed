//! Types and instances.

use crate::ast::{GenericParam, GenericParamV};
use crate::error::{MplangError, MplangErrorV};
use crate::hir::{lemma_hir_type_view, shown_type, DefId, HirType, HirTypeV, ParamKind, Visibility};
use crate::list::{copy_list, empty_list, insert_item, push_item};
use crate::monomorphize::infer::{const_args_to_i64, const_args_view, const_map};
use crate::monomorphize::rules::{
    ascii, const_values, fn_name, hash_suffix, literals, m_begin, m_body, m_concrete, m_concretes,
    m_fields, m_finish, m_fn, m_fresh, m_header, m_make, m_members, m_number, m_opt_type, m_own_fields, m_params, m_struct, m_type, value_params,
    m_types, struct_item, struct_name, type_hash, MonoState,
};
use crate::monomorphize::template::{FnTemplate, MonoKey, StructTemplate};
use crate::monomorphize::{expands, Mono, Scope};
use crate::table::lookup;
use crate::text::{cat2, cat3, chars_of, decimal_string};
use crate::tycheck::generics::substitute;
use crate::tycheck::rules::subst_type;
use crate::tyhir::{
    lemma_ty_hir_body_view, lemma_ty_hir_item_view, TyHirBody, TyHirField, TyHirFieldV, TyHirItem, TyHirParam,
};
use std::collections::hash_map::DefaultHasher;
use std::hash::Hasher;
use vstd::prelude::*;
use vstd::std_specs::hash::DefaultHasherAdditionalSpecFns;

verus! {

/// The hash of a type.
fn hash_of(t: &HirType) -> (r: u64)
    ensures
        r == type_hash(t.deep_view()),
{
    let text = t.to_text();
    let chars = chars_of(text.as_str());
    let mut bytes: Vec<u8> = Vec::new();
    for i in 0..chars.len()
        invariant
            chars@ == shown_type(t.deep_view()),
            bytes@.len() == i,
            forall|j: int| 0 <= j < i ==> #[trigger] bytes@[j] == chars@[j] as u8,
    {
        bytes.push(chars[i] as u8);
    }
    assert(bytes@ =~= ascii(shown_type(t.deep_view())));
    let mut h = DefaultHasher::new();
    h.write(bytes.as_slice());
    assert(h@ =~= seq![ascii(shown_type(t.deep_view()))]);
    h.finish()
}

/// The hashes of types, each behind an underscore.
fn hashes_text(ts: &Vec<HirType>, from: usize) -> (r: String)
    requires
        from <= ts@.len(),
    ensures
        r@ == hash_suffix(ts.deep_view(), from as int),
    decreases ts@.len() - from,
{
    assert(ts.deep_view().len() == ts@.len());
    if from == ts.len() {
        let r = String::new();
        assert(r@ =~= Seq::empty());
        return r;
    }
    let h: u64 = hash_of(&ts[from]);
    let n = decimal_string(h);
    let rest = hashes_text(ts, from + 1);
    cat3("_", n.as_str(), rest.as_str())
}

/// The name of an instance of a function.
fn fn_name_hint(d: DefId, ts: &Vec<HirType>) -> (r: String)
    ensures
        r@ == fn_name(d, ts.deep_view()),
{
    proof {
        reveal(fn_name);
    }
    let n = decimal_string(d.0 as u64);
    let rest = hashes_text(ts, 0);
    cat3("__mono_", n.as_str(), rest.as_str())
}

/// The name of an instance of a struct.
fn struct_name_hint(d: DefId) -> (r: String)
    ensures
        r@ == struct_name(d),
{
    proof {
        reveal(struct_name);
    }
    let n = decimal_string(d.0 as u64);
    cat2("__mono_s_", n.as_str())
}

/// A struct takes its place among the instances that are there.
proof fn lemma_place(
    s: MonoState,
    fs: Seq<TyHirFieldV>,
    gs: Seq<GenericParamV>,
    ta: Seq<HirTypeV>,
    ca: Seq<i64>,
    fuel: nat,
)
    ensures
        m_members(s, fs, gs, ta, ca, fuel).1 matches Ok(m) ==> m.1 <= m_members(
            s,
            fs,
            gs,
            ta,
            ca,
            fuel,
        ).0.out.len(),
{
    let a = m_fields(s, fs, gs, ta, ca, false, 0, Seq::empty(), fuel);
    if let Ok(held) = a.1 {
        lemma_more_fields(a.0, held, gs, ta, ca, true, 0, Seq::empty(), fuel);
    }
}

proof fn lemma_more_fields(
    s: MonoState,
    fs: Seq<TyHirFieldV>,
    gs: Seq<GenericParamV>,
    ta: Seq<HirTypeV>,
    ca: Seq<i64>,
    pointers: bool,
    i: int,
    done: Seq<TyHirFieldV>,
    fuel: nat,
)
    ensures
        s.out.len() <= m_fields(s, fs, gs, ta, ca, pointers, i, done, fuel).0.out.len(),
    decreases fuel, 3int, fs, fs.len() - i,
{
    reveal(m_type);
    if 0 <= i < fs.len() {
        if (fs[i].ty is Pointer) != pointers {
            lemma_more_fields(s, fs, gs, ta, ca, pointers, i + 1, done.push(fs[i]), fuel);
        } else {
            let m = m_type(s, fs[i].ty, gs, ta, ca, fuel);
            if let Ok(u) = subst_type(fs[i].ty, gs, ta, literals(ca)) {
                lemma_more(s, u, fuel);
            }
            if let Ok(t) = m.1 {
                let next = done.push(TyHirFieldV { ty: t, ..fs[i] });
                lemma_more_fields(m.0, fs, gs, ta, ca, pointers, i + 1, next, fuel);
            }
        }
    }
}

/// Expanding a type takes no instance away.
proof fn lemma_more(s: MonoState, t: HirTypeV, fuel: nat)
    ensures
        s.out.len() <= m_concrete(s, t, fuel).0.out.len(),
    decreases fuel, 1int, t, 0int,
{
    match t {
        HirTypeV::Pointer(e) => {
            lemma_more(s, *e, fuel);
        },
        HirTypeV::Array(e, _) => {
            lemma_more(s, *e, fuel);
        },
        HirTypeV::Enum(_, ts, _) => {
            lemma_more_all(s, ts, 0, Seq::empty(), fuel);
        },
        HirTypeV::Generic(d, ts, cs) => {
            lemma_more_all(s, ts, 0, Seq::empty(), fuel);
            let a = m_concretes(s, ts, 0, Seq::empty(), fuel);
            if let Ok(us) = a.1 {
                if let Ok(vs) = const_values(cs, 0, Seq::empty()) {
                    lemma_more_struct(a.0, d, us, vs, fuel);
                }
            }
        },
        _ => {},
    }
}

proof fn lemma_more_all(s: MonoState, ts: Seq<HirTypeV>, i: int, done: Seq<HirTypeV>, fuel: nat)
    ensures
        s.out.len() <= m_concretes(s, ts, i, done, fuel).0.out.len(),
    decreases fuel, 1int, ts, ts.len() - i,
{
    if 0 <= i < ts.len() {
        lemma_more(s, ts[i], fuel);
        let a = m_concrete(s, ts[i], fuel);
        if let Ok(u) = a.1 {
            lemma_more_all(a.0, ts, i + 1, done.push(u), fuel);
        }
    }
}

proof fn lemma_more_struct(s: MonoState, d: DefId, ta: Seq<HirTypeV>, ca: Seq<i64>, fuel: nat)
    ensures
        s.out.len() <= m_struct(s, d, ta, ca, fuel).0.out.len(),
    decreases fuel, 0int, ta, 0int,
{
    if lookup(s.struct_instances, (d, ta, ca)) is None && fuel > 0 {
        if let Some(t) = lookup(s.structs, d) {
            let f = m_fresh(s);
            if let Ok(id) = f.1 {
                let b = m_begin(f.0, d, ta, ca, id);
                let less = (fuel - 1) as nat;
                lemma_more_fields(b, t.fields, t.generics, ta, ca, false, 0, Seq::empty(), less);
                let a = m_fields(b, t.fields, t.generics, ta, ca, false, 0, Seq::empty(), less);
                if let Ok(held) = a.1 {
                    lemma_more_fields(a.0, held, t.generics, ta, ca, true, 0, Seq::empty(), less);
                    let e = m_fields(a.0, held, t.generics, ta, ca, true, 0, Seq::empty(), less);
                    if let Ok(all) = e.1 {
                        let out = e.0.out.insert(a.0.out.len() as int, struct_item(d, id, all));
                        assert(out.len() == e.0.out.len() + 1);
                    }
                }
            }
        }
    }
}

/// The parameters that take values.
fn without_consts(ps: &Vec<TyHirParam>) -> (r: Vec<TyHirParam>)
    ensures
        r.deep_view() == value_params(ps.deep_view(), 0, Seq::empty()),
{
    let mut out: Vec<TyHirParam> = empty_list();
    for i in 0..ps.len()
        invariant
            value_params(ps.deep_view(), i as int, out.deep_view()) == value_params(
                ps.deep_view(),
                0,
                Seq::empty(),
            ),
    {
        let constant = match ps[i].kind {
            ParamKind::ConstParam(_) => true,
            _ => false,
        };
        if !constant {
            push_item(&mut out, ps[i].clone());
        }
    }
    out
}

impl Mono {
    /// A type without parameters, with instances in place of applications of
    /// generic structs.
    fn mono_concrete(&mut self, t: &HirType, fuel: usize) -> (r: Result<HirType, MplangError>)
        ensures
            expands(
                final(self),
                r,
                m_concrete(old(self).state(), t.deep_view(), fuel as nat),
            ),
        decreases fuel, 1int, t, 0int,
    {
        proof {
            lemma_hir_type_view(*t);
        }
        let r = match t {
            HirType::Pointer(e) => {
                let u = self.mono_concrete(&**e, fuel)?;
                HirType::Pointer(Box::new(u))
            },
            HirType::Array(e, n) => {
                let u = self.mono_concrete(&**e, fuel)?;
                HirType::Array(Box::new(u), *n)
            },
            HirType::Enum(d, ts, cs) => {
                let us = self.mono_concretes(ts, fuel)?;
                HirType::Enum(*d, us, copy_list(cs))
            },
            HirType::Generic(d, ts, cs) => {
                let us = self.mono_concretes(ts, fuel)?;
                let vs = const_args_to_i64(cs)?;
                let id = self.instantiate_struct(*d, &us, &vs, fuel)?;
                HirType::Named(id)
            },
            _ => t.clone(),
        };
        proof {
            lemma_hir_type_view(r);
        }
        Ok(r)
    }

    fn mono_concretes(&mut self, ts: &Vec<HirType>, fuel: usize) -> (r: Result<
        Vec<HirType>,
        MplangError,
    >)
        ensures
            expands(
                final(self),
                r,
                m_concretes(old(self).state(), ts.deep_view(), 0, Seq::empty(), fuel as nat),
            ),
        decreases fuel, 1int, ts, 0int,
    {
        let mut out: Vec<HirType> = empty_list();
        let ghost goal = m_concretes(self.state(), ts.deep_view(), 0, Seq::empty(), fuel as nat);
        for i in 0..ts.len()
            invariant
                goal == m_concretes(
                    old(self).state(),
                    ts.deep_view(),
                    0,
                    Seq::empty(),
                    fuel as nat,
                ),
                goal == m_concretes(
                    self.state(),
                    ts.deep_view(),
                    i as int,
                    out.deep_view(),
                    fuel as nat,
                ),
        {
            let u = self.mono_concrete(&ts[i], fuel)?;
            push_item(&mut out, u);
        }
        Ok(out)
    }

    /// A type with the parameters in scope replaced, and with instances in place
    /// of applications of generic structs.
    pub(super) fn mono_type(
        &mut self,
        t: &HirType,
        gs: &Vec<GenericParam>,
        ta: &Vec<HirType>,
        ca: &Vec<i64>,
        fuel: usize,
    ) -> (r: Result<HirType, MplangError>)
        ensures
            expands(
                final(self),
                r,
                m_type(
                    old(self).state(),
                    t.deep_view(),
                    gs.deep_view(),
                    ta.deep_view(),
                    ca.deep_view(),
                    fuel as nat,
                ),
            ),
        decreases fuel, 2int, t, 0int,
    {
        proof {
            reveal(m_type);
        }
        let consts = const_args_view(ca);
        let u = substitute(t, gs, ta, &consts)?;
        self.mono_concrete(&u, fuel)
    }

    pub(super) fn mono_types(&mut self, ts: &Vec<HirType>, c: &Scope, fuel: usize) -> (r: Result<
        Vec<HirType>,
        MplangError,
    >)
        ensures
            expands(
                final(self),
                r,
                m_types(
                    old(self).state(),
                    ts.deep_view(),
                    c.model(),
                    0,
                    Seq::empty(),
                    fuel as nat,
                ),
            ),
    {
        let mut out: Vec<HirType> = empty_list();
        let ghost goal = m_types(
            self.state(),
            ts.deep_view(),
            c.model(),
            0,
            Seq::empty(),
            fuel as nat,
        );
        for i in 0..ts.len()
            invariant
                goal == m_types(
                    old(self).state(),
                    ts.deep_view(),
                    c.model(),
                    0,
                    Seq::empty(),
                    fuel as nat,
                ),
                goal == m_types(
                    self.state(),
                    ts.deep_view(),
                    c.model(),
                    i as int,
                    out.deep_view(),
                    fuel as nat,
                ),
        {
            let u = self.mono_type(&ts[i], &c.generics, &c.types, &c.consts, fuel)?;
            push_item(&mut out, u);
        }
        Ok(out)
    }

    fn mono_fields(
        &mut self,
        fs: &Vec<TyHirField>,
        gs: &Vec<GenericParam>,
        ta: &Vec<HirType>,
        ca: &Vec<i64>,
        pointers: bool,
        fuel: usize,
    ) -> (r: Result<Vec<TyHirField>, MplangError>)
        ensures
            expands(
                final(self),
                r,
                m_fields(
                    old(self).state(),
                    fs.deep_view(),
                    gs.deep_view(),
                    ta.deep_view(),
                    ca.deep_view(),
                    pointers,
                    0,
                    Seq::empty(),
                    fuel as nat,
                ),
            ),
        decreases fuel, 3int, fs, 0int,
    {
        let mut out: Vec<TyHirField> = empty_list();
        let ghost goal = m_fields(
            self.state(),
            fs.deep_view(),
            gs.deep_view(),
            ta.deep_view(),
            ca.deep_view(),
            pointers,
            0,
            Seq::empty(),
            fuel as nat,
        );
        for i in 0..fs.len()
            invariant
                goal == m_fields(
                    old(self).state(),
                    fs.deep_view(),
                    gs.deep_view(),
                    ta.deep_view(),
                    ca.deep_view(),
                    pointers,
                    0,
                    Seq::empty(),
                    fuel as nat,
                ),
                goal == m_fields(
                    self.state(),
                    fs.deep_view(),
                    gs.deep_view(),
                    ta.deep_view(),
                    ca.deep_view(),
                    pointers,
                    i as int,
                    out.deep_view(),
                    fuel as nat,
                ),
        {
            proof {
                reveal(m_type);
                lemma_hir_type_view(fs@[i as int].ty);
            }
            let is_pointer = match &fs[i].ty {
                HirType::Pointer(_) => true,
                _ => false,
            };
            if is_pointer != pointers {
                let f = fs[i].clone();
                push_item(&mut out, f);
            } else {
                let t = self.mono_type(&fs[i].ty, gs, ta, ca, fuel)?;
                let f = TyHirField {
                    def_id: fs[i].def_id,
                    name: fs[i].name.clone(),
                    ty: t,
                    visibility: fs[i].visibility,
                };
                push_item(&mut out, f);
            }
        }
        Ok(out)
    }

    /// The fields of a struct, and the place of the struct among the instances.
    fn mono_members(
        &mut self,
        fs: &Vec<TyHirField>,
        gs: &Vec<GenericParam>,
        ta: &Vec<HirType>,
        ca: &Vec<i64>,
        fuel: usize,
    ) -> (r: Result<(Vec<TyHirField>, usize), MplangError>)
        ensures
            ({
                let want = m_members(
                    old(self).state(),
                    fs.deep_view(),
                    gs.deep_view(),
                    ta.deep_view(),
                    ca.deep_view(),
                    fuel as nat,
                );
                &&& final(self).state() == want.0
                &&& match r {
                    Ok(m) => want.1 == Ok::<(Seq<TyHirFieldV>, nat), MplangErrorV>(
                        (m.0.deep_view(), m.1 as nat),
                    ),
                    Err(e) => want.1 == Err::<(Seq<TyHirFieldV>, nat), MplangErrorV>(
                        e.deep_view(),
                    ),
                }
            }),
        decreases fuel, 4int, fs, 0int,
    {
        let held = self.mono_fields(fs, gs, ta, ca, false, fuel)?;
        let place: usize = self.out_items.len();
        assert(self.state().out.len() == place);
        let all = self.mono_fields(&held, gs, ta, ca, true, fuel)?;
        Ok((all, place))
    }

    /// The instance of a struct.
    fn instantiate_struct(
        &mut self,
        d: DefId,
        ta: &Vec<HirType>,
        ca: &Vec<i64>,
        fuel: usize,
    ) -> (r: Result<DefId, MplangError>)
        ensures
            expands(
                final(self),
                r,
                m_struct(
                    old(self).state(),
                    d,
                    ta.deep_view(),
                    ca.deep_view(),
                    fuel as nat,
                ),
            ),
        decreases fuel, 0int, ta, 0int,
    {
        let key = MonoKey { template: d, types: copy_list(ta), consts: copy_list(ca) };
        if let Some(id) = self.mono_structs.get(&key) {
            return Ok(*id);
        }
        if fuel == 0 {
            return Err(MplangError::other("泛型实例化嵌套过深"));
        }
        let t: StructTemplate = match self.struct_templates.get(&d) {
            Some(t) => t.clone(),
            None => {
                return Err(MplangError::other("struct template"));
            },
        };
        let id = self.fresh_id()?;
        self.mono_structs.insert(key, id);
        self.instance_structs.insert(id, (copy_list(ta), const_args_view(ca)));
        let ghost begun = self.state();
        let (fields, place) = self.mono_members(&t.fields, &t.generics, ta, ca, fuel - 1)?;
        let item = TyHirItem::Struct {
            def_id: id,
            visibility: Visibility::Public,
            attributes: empty_list(),
            name: struct_name_hint(d),
            generics: empty_list(),
            fields,
        };
        proof {
            lemma_ty_hir_item_view(item);
            lemma_place(
                begun,
                t.deep_view().fields,
                t.deep_view().generics,
                ta.deep_view(),
                ca.deep_view(),
                (fuel - 1) as nat,
            );
        }
        insert_item(&mut self.out_items, place, item);
        Ok(id)
    }

    fn mono_params(
        &mut self,
        ps: &Vec<TyHirParam>,
        gs: &Vec<GenericParam>,
        ta: &Vec<HirType>,
        ca: &Vec<i64>,
        fuel: usize,
    ) -> (r: Result<Vec<TyHirParam>, MplangError>)
        ensures
            expands(
                final(self),
                r,
                m_params(
                    old(self).state(),
                    ps.deep_view(),
                    gs.deep_view(),
                    ta.deep_view(),
                    ca.deep_view(),
                    0,
                    Seq::empty(),
                    fuel as nat,
                ),
            ),
        decreases fuel, 4int, ps, 0int,
    {
        let mut out: Vec<TyHirParam> = empty_list();
        let ghost goal = m_params(
            self.state(),
            ps.deep_view(),
            gs.deep_view(),
            ta.deep_view(),
            ca.deep_view(),
            0,
            Seq::empty(),
            fuel as nat,
        );
        for i in 0..ps.len()
            invariant
                goal == m_params(
                    old(self).state(),
                    ps.deep_view(),
                    gs.deep_view(),
                    ta.deep_view(),
                    ca.deep_view(),
                    0,
                    Seq::empty(),
                    fuel as nat,
                ),
                goal == m_params(
                    self.state(),
                    ps.deep_view(),
                    gs.deep_view(),
                    ta.deep_view(),
                    ca.deep_view(),
                    i as int,
                    out.deep_view(),
                    fuel as nat,
                ),
        {
            let t = self.mono_type(&ps[i].ty, gs, ta, ca, fuel)?;
            let p = TyHirParam {
                def_id: ps[i].def_id,
                name: ps[i].name.clone(),
                ty: t,
                kind: ps[i].kind,
            };
            push_item(&mut out, p);
        }
        Ok(out)
    }

    pub(super) fn mono_opt_type(
        &mut self,
        t: &Option<HirType>,
        gs: &Vec<GenericParam>,
        ta: &Vec<HirType>,
        ca: &Vec<i64>,
        fuel: usize,
    ) -> (r: Result<Option<HirType>, MplangError>)
        ensures
            expands(
                final(self),
                r,
                m_opt_type(
                    old(self).state(),
                    t.deep_view(),
                    gs.deep_view(),
                    ta.deep_view(),
                    ca.deep_view(),
                    fuel as nat,
                ),
            ),
        decreases fuel, 4int, ta, 0int,
    {
        match t {
            Some(t) => Ok(Some(self.mono_type(t, gs, ta, ca, fuel)?)),
            None => Ok(None),
        }
    }

    /// The number of a function instance, which gets one if it has none yet.
    fn fn_number(&mut self, d: DefId, ta: &Vec<HirType>, ca: &Vec<i64>) -> (r: Result<
        DefId,
        MplangError,
    >)
        ensures
            expands(
                final(self),
                r,
                m_number(old(self).state(), d, ta.deep_view(), ca.deep_view()),
            ),
    {
        let key = MonoKey { template: d, types: copy_list(ta), consts: copy_list(ca) };
        if let Some(Some(id)) = self.mono_fns.get(&key) {
            return Ok(*id);
        }
        let id = self.fresh_id()?;
        self.mono_fns.insert(key, Some(id));
        Ok(id)
    }

    /// The instance of a function.
    pub(super) fn instantiate_fn(
        &mut self,
        d: DefId,
        t: &FnTemplate,
        ta: &Vec<HirType>,
        ca: &Vec<i64>,
        fuel: usize,
    ) -> (r: Result<DefId, MplangError>)
        ensures
            expands(
                final(self),
                r,
                m_fn(
                    old(self).state(),
                    d,
                    t.deep_view(),
                    ta.deep_view(),
                    ca.deep_view(),
                    fuel as nat,
                ),
            ),
        decreases fuel, 0int, ta, 0int,
    {
        let key = MonoKey { template: d, types: copy_list(ta), consts: copy_list(ca) };
        if self.mono_fns.contains(&key) {
            return self.fn_number(d, ta, ca);
        }
        if fuel == 0 {
            return Err(MplangError::other("泛型实例化嵌套过深"));
        }
        self.make_fn(d, t, ta, ca, fuel - 1)
    }

    fn make_fn(
        &mut self,
        d: DefId,
        t: &FnTemplate,
        ta: &Vec<HirType>,
        ca: &Vec<i64>,
        fuel: usize,
    ) -> (r: Result<DefId, MplangError>)
        ensures
            expands(
                final(self),
                r,
                m_make(
                    old(self).state(),
                    d,
                    t.deep_view(),
                    ta.deep_view(),
                    ca.deep_view(),
                    fuel as nat,
                ),
            ),
        decreases fuel, 6int, t, 3int,
    {
        let values = const_map(&t.params, &t.generics, ca)?;
        let key = MonoKey { template: d, types: copy_list(ta), consts: copy_list(ca) };
        self.mono_fns.insert(key, None);
        let scope = Scope {
            generics: copy_list(&t.generics),
            types: copy_list(ta),
            consts: copy_list(ca),
            values,
        };
        self.fill_fn(d, t, &scope, fuel)
    }

    fn fill_fn(
        &mut self,
        d: DefId,
        t: &FnTemplate,
        c: &Scope,
        fuel: usize,
    ) -> (r: Result<DefId, MplangError>)
        ensures
            expands(
                final(self),
                r,
                m_body(old(self).state(), d, t.deep_view(), c.model(), fuel as nat),
            ),
        decreases fuel, 6int, t, 2int,
    {
        proof {
            lemma_ty_hir_body_view(t.body);
        }
        let body = self.mono_body(&t.body.stmts, c, fuel)?;
        self.finish_fn(d, t, c, body, fuel)
    }

    fn finish_fn(
        &mut self,
        d: DefId,
        t: &FnTemplate,
        c: &Scope,
        body: TyHirBody,
        fuel: usize,
    ) -> (r: Result<DefId, MplangError>)
        ensures
            expands(
                final(self),
                r,
                m_finish(
                    old(self).state(),
                    d,
                    t.deep_view(),
                    c.model(),
                    body.deep_view().stmts,
                    fuel as nat,
                ),
            ),
    {
        proof {
            reveal(m_finish);
        }
        let id = self.fn_number(d, &c.types, &c.consts)?;
        let ps = without_consts(&t.params);
        let (params, return_ty, impl_receiver) = self.mono_header(
            &ps,
            &t.return_ty,
            &t.impl_receiver,
            c,
            fuel,
        )?;
        let item = TyHirItem::Fn {
            def_id: id,
            visibility: Visibility::Public,
            attributes: empty_list(),
            name: fn_name_hint(d, &c.types),
            generics: empty_list(),
            params,
            return_ty,
            body,
            impl_receiver,
        };
        proof {
            lemma_ty_hir_item_view(item);
            lemma_ty_hir_body_view(body);
        }
        push_item(&mut self.out_items, item);
        Ok(id)
    }

    /// The fields of a definition that is not generic.
    pub(super) fn own_fields(&mut self, fs: &Vec<TyHirField>, fuel: usize) -> (r: Result<
        Vec<TyHirField>,
        MplangError,
    >)
        ensures
            expands(final(self), r, m_own_fields(old(self).state(), fs.deep_view(), fuel as nat)),
    {
        proof {
            reveal(m_own_fields);
        }
        let c = Scope::outer();
        let (all, _) = self.mono_members(fs, &c.generics, &c.types, &c.consts, fuel)?;
        Ok(all)
    }

    /// The parameters, the result type and the receiver of a function.
    pub(super) fn mono_header(
        &mut self,
        params: &Vec<TyHirParam>,
        return_ty: &HirType,
        impl_receiver: &Option<HirType>,
        c: &Scope,
        fuel: usize,
    ) -> (r: Result<(Vec<TyHirParam>, HirType, Option<HirType>), MplangError>)
        ensures
            expands(
                final(self),
                r,
                m_header(
                    old(self).state(),
                    params.deep_view(),
                    return_ty.deep_view(),
                    impl_receiver.deep_view(),
                    c.model(),
                    fuel as nat,
                ),
            ),
    {
        proof {
            reveal(m_header);
        }
        let ps = self.mono_params(params, &c.generics, &c.types, &c.consts, fuel)?;
        let t = self.mono_type(return_ty, &c.generics, &c.types, &c.consts, fuel)?;
        let o = self.mono_opt_type(impl_receiver, &c.generics, &c.types, &c.consts, fuel)?;
        Ok((ps, t, o))
    }
}

} // verus!
