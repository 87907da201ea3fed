//! Expansion of generic definitions.
//!
//! After type checking a program may still use generic functions and structs.
//! Expansion gives each use of one an instance of its own, with a new
//! [`DefId`], in which types and integers stand in place of the parameters. A
//! generic definition that is never used gets no instance. Type arguments are
//! those written in the call, then those that its arguments determine; constant
//! arguments must be written.
//!
//! What is made is stated in [`rules`].

use crate::ast::GenericParam;
use crate::error::{MplangError, MplangErrorV};
use crate::hir::{ConstArg, DefId, HirType};
use crate::list::{copy_list, empty_list, push_item};
use crate::lowering::gives;
use crate::monomorphize::ids::unit_top;
use crate::monomorphize::rules::{
    empty_state, expanded, is_template, m_collect, m_fresh, m_item, m_items, m_variants,
    outer_scope, MonoScope, MonoState,
};
use crate::monomorphize::template::{FnTemplate, MonoKey, StructTemplate};
use crate::table::Table;
use crate::tycheck::copy_type;
use crate::tyhir::{
    lemma_ty_hir_body_view, lemma_ty_hir_item_view, lemma_ty_hir_module_view, TyHirCompilationUnit,
    TyHirEnumVariant, TyHirItem, TyHirModule,
};
use std::collections::hash_map::DefaultHasher;
use std::hash::Hasher;
use vstd::prelude::*;
use vstd::std_specs::hash::DefaultHasherAdditionalSpecFns;

pub mod bodies;
pub mod closed;
pub mod depth;
pub mod ids;
mod infer;
mod instance;
pub mod kept;
pub mod laws;
pub mod params;
pub mod rules;
pub mod template;
mod walk;

verus! {

/// What has been expanded so far.
struct Mono {
    fn_templates: Table<DefId, FnTemplate>,
    struct_templates: Table<DefId, StructTemplate>,
    mono_fns: Table<MonoKey, Option<DefId>>,
    mono_structs: Table<MonoKey, DefId>,
    instance_structs: Table<DefId, (Vec<HirType>, Vec<ConstArg>)>,
    out_items: Vec<TyHirItem>,
    next_id: u32,
}

/// The generic parameters in scope with their arguments.
struct Scope {
    generics: Vec<GenericParam>,
    types: Vec<HirType>,
    consts: Vec<i64>,
    values: Table<DefId, i64>,
}

impl Scope {
    spec fn model(&self) -> MonoScope {
        MonoScope {
            generics: self.generics.deep_view(),
            types: self.types.deep_view(),
            consts: self.consts.deep_view(),
            values: self.values@,
        }
    }

    fn outer() -> (r: Scope)
        ensures
            r.model() == outer_scope(),
    {
        Scope {
            generics: empty_list(),
            types: empty_list(),
            consts: empty_list(),
            values: Table::new(),
        }
    }
}

/// Whether an executed step returns what the rules say and leaves the state
/// that they say.
spec fn expands<T: DeepView>(
    after: &Mono,
    r: Result<T, MplangError>,
    want: (MonoState, Result<T::V, MplangErrorV>),
) -> bool {
    &&& after.state() == want.0
    &&& gives(r, want.1)
}

impl Mono {
    spec fn state(&self) -> MonoState {
        MonoState {
            fns: self.fn_templates@,
            structs: self.struct_templates@,
            fn_instances: self.mono_fns@,
            struct_instances: self.mono_structs@,
            origins: self.instance_structs@,
            out: self.out_items.deep_view(),
            next_id: self.next_id,
        }
    }

    fn new(next_id: u32) -> (r: Self)
        ensures
            r.state() == empty_state(next_id),
    {
        Mono {
            fn_templates: Table::new(),
            struct_templates: Table::new(),
            mono_fns: Table::new(),
            mono_structs: Table::new(),
            instance_structs: Table::new(),
            out_items: empty_list(),
            next_id,
        }
    }

    fn fresh_id(&mut self) -> (r: Result<DefId, MplangError>)
        ensures
            expands(final(self), r, m_fresh(old(self).state())),
    {
        if self.next_id == u32::MAX {
            return Err(MplangError::other("attempt to add with overflow"));
        }
        let id = DefId(self.next_id);
        self.next_id += 1;
        Ok(id)
    }

    fn collect_templates(&mut self, items: &Vec<TyHirItem>)
        ensures
            final(self).state() == m_collect(old(self).state(), items.deep_view(), 0),
        decreases items,
    {
        let ghost goal = m_collect(self.state(), items.deep_view(), 0);
        for k in 0..items.len()
            invariant
                goal == m_collect(self.state(), items.deep_view(), k as int),
        {
            proof {
                lemma_ty_hir_item_view(items@[k as int]);
            }
            match &items[k] {
                TyHirItem::Fn {
                    def_id,
                    generics,
                    params,
                    return_ty,
                    body,
                    impl_receiver,
                    ..
                } => {
                    assert(generics.deep_view().len() == generics@.len());
                    if generics.len() > 0 {
                        let t = FnTemplate {
                            generics: copy_list(generics),
                            params: copy_list(params),
                            return_ty: return_ty.clone(),
                            body: body.clone(),
                            impl_receiver: copy_type(impl_receiver),
                        };
                        self.fn_templates.insert(*def_id, t);
                    }
                },
                TyHirItem::Struct { def_id, generics, fields, .. } => {
                    let t = StructTemplate {
                        generics: copy_list(generics),
                        fields: copy_list(fields),
                    };
                    self.struct_templates.insert(*def_id, t);
                },
                TyHirItem::Module(m) => {
                    proof {
                        lemma_ty_hir_module_view(*m);
                    }
                    self.collect_templates(&m.items);
                },
                _ => {},
            }
        }
    }

    fn mono_item(&mut self, item: &TyHirItem, fuel: usize) -> (r: Result<TyHirItem, MplangError>)
        ensures
            expands(final(self), r, m_item(old(self).state(), item.deep_view(), fuel as nat)),
        decreases item, 0int,
    {
        proof {
            lemma_ty_hir_item_view(*item);
        }
        let r = match item {
            TyHirItem::Module(m) => {
                proof {
                    lemma_ty_hir_module_view(*m);
                }
                let items = self.mono_items(&m.items, fuel)?;
                let module = TyHirModule {
                    def_id: m.def_id,
                    name: m.name.clone(),
                    visibility: m.visibility,
                    attributes: copy_list(&m.attributes),
                    items,
                };
                proof {
                    lemma_ty_hir_module_view(module);
                }
                TyHirItem::Module(module)
            },
            TyHirItem::Fn {
                def_id,
                visibility,
                attributes,
                name,
                generics: _,
                params,
                return_ty,
                body,
                impl_receiver,
            } => {
                proof {
                    lemma_ty_hir_body_view(*body);
                }
                let scope = Scope::outer();
                let b = self.mono_body(&body.stmts, &scope, fuel)?;
                let (ps, ret, recv) = self.mono_header(
                    params,
                    return_ty,
                    impl_receiver,
                    &scope,
                    fuel,
                )?;
                TyHirItem::Fn {
                    def_id: *def_id,
                    visibility: *visibility,
                    attributes: copy_list(attributes),
                    name: name.clone(),
                    generics: empty_list(),
                    params: ps,
                    return_ty: ret,
                    body: b,
                    impl_receiver: recv,
                }
            },
            TyHirItem::Static { def_id, visibility, attributes, name, ty, init, is_const } => {
                let scope = Scope::outer();
                let t = self.mono_type(ty, &scope.generics, &scope.types, &scope.consts, fuel)?;
                let v = self.mono_expr(init, &scope, fuel)?;
                TyHirItem::Static {
                    def_id: *def_id,
                    visibility: *visibility,
                    attributes: copy_list(attributes),
                    name: name.clone(),
                    ty: t,
                    init: v,
                    is_const: *is_const,
                }
            },
            TyHirItem::Struct { def_id, visibility, attributes, name, generics, fields } => {
                let fs = self.own_fields(fields, fuel)?;
                TyHirItem::Struct {
                    def_id: *def_id,
                    visibility: *visibility,
                    attributes: copy_list(attributes),
                    name: name.clone(),
                    generics: copy_list(generics),
                    fields: fs,
                }
            },
            TyHirItem::ExternFn {
                def_id,
                visibility,
                attributes,
                link_name,
                name,
                param_types,
                return_ty,
                is_variadic,
            } => {
                let c = Scope::outer();
                let ts = self.mono_types(param_types, &c, fuel)?;
                let t = self.mono_type(return_ty, &c.generics, &c.types, &c.consts, fuel)?;
                let link: Option<String> = match link_name {
                    Some(n) => Some(n.clone()),
                    None => None,
                };
                TyHirItem::ExternFn {
                    def_id: *def_id,
                    visibility: *visibility,
                    attributes: copy_list(attributes),
                    link_name: link,
                    name: name.clone(),
                    param_types: ts,
                    return_ty: t,
                    is_variadic: *is_variadic,
                }
            },
            TyHirItem::Enum { def_id, visibility, attributes, name, generics, variants } => {
                assert(generics.deep_view().len() == generics@.len());
                if generics.len() > 0 {
                    return Ok(item.clone());
                }
                let vs = self.mono_variants(variants, fuel)?;
                TyHirItem::Enum {
                    def_id: *def_id,
                    visibility: *visibility,
                    attributes: copy_list(attributes),
                    name: name.clone(),
                    generics: copy_list(generics),
                    variants: vs,
                }
            },
            TyHirItem::VTable { .. } => {
                return Ok(item.clone());
            },
        };
        proof {
            lemma_ty_hir_item_view(r);
        }
        Ok(r)
    }

    fn mono_variants(&mut self, vs: &Vec<TyHirEnumVariant>, fuel: usize) -> (r: Result<
        Vec<TyHirEnumVariant>,
        MplangError,
    >)
        ensures
            expands(
                final(self),
                r,
                m_variants(old(self).state(), vs.deep_view(), 0, Seq::empty(), fuel as nat),
            ),
    {
        let mut out: Vec<TyHirEnumVariant> = empty_list();
        let ghost goal = m_variants(self.state(), vs.deep_view(), 0, Seq::empty(), fuel as nat);
        for i in 0..vs.len()
            invariant
                goal == m_variants(
                    old(self).state(),
                    vs.deep_view(),
                    0,
                    Seq::empty(),
                    fuel as nat,
                ),
                goal == m_variants(
                    self.state(),
                    vs.deep_view(),
                    i as int,
                    out.deep_view(),
                    fuel as nat,
                ),
        {
            let fs = self.own_fields(&vs[i].fields, fuel)?;
            let v = TyHirEnumVariant {
                def_id: vs[i].def_id,
                name: vs[i].name.clone(),
                tag: vs[i].tag,
                fields: fs,
            };
            push_item(&mut out, v);
        }
        Ok(out)
    }

    fn mono_items(&mut self, items: &Vec<TyHirItem>, fuel: usize) -> (r: Result<
        Vec<TyHirItem>,
        MplangError,
    >)
        ensures
            expands(
                final(self),
                r,
                m_items(old(self).state(), items.deep_view(), 0, Seq::empty(), fuel as nat),
            ),
        decreases items, 0int,
    {
        let mut out: Vec<TyHirItem> = empty_list();
        let ghost goal = m_items(
            self.state(),
            items.deep_view(),
            0,
            Seq::empty(),
            fuel as nat,
        );
        for i in 0..items.len()
            invariant
                goal == m_items(
                    old(self).state(),
                    items.deep_view(),
                    0,
                    Seq::empty(),
                    fuel as nat,
                ),
                goal == m_items(
                    self.state(),
                    items.deep_view(),
                    i as int,
                    out.deep_view(),
                    fuel as nat,
                ),
        {
            if !is_generic(&items[i]) {
                let x = self.mono_item(&items[i], fuel)?;
                push_item(&mut out, x);
            }
        }
        Ok(out)
    }
}

/// Whether an item is a generic definition.
fn is_generic(item: &TyHirItem) -> (r: bool)
    ensures
        r == is_template(item.deep_view()),
{
    proof {
        lemma_ty_hir_item_view(*item);
    }
    match item {
        TyHirItem::Fn { generics, .. } => {
            assert(generics.deep_view().len() == generics@.len());
            generics.len() > 0
        },
        TyHirItem::Struct { generics, .. } => {
            assert(generics.deep_view().len() == generics@.len());
            generics.len() > 0
        },
        _ => false,
    }
}

/// Expands the generic definitions of a program; requests for instances may
/// nest `limit` deep.
pub fn monomorphize_within(unit: &TyHirCompilationUnit, limit: usize) -> (r: Result<
    TyHirCompilationUnit,
    MplangError,
>)
    ensures
        gives(r, expanded(unit.deep_view(), limit as nat)),
{
    let top: u32 = unit_top(unit);
    if top == u32::MAX {
        return Err(MplangError::other("attempt to add with overflow"));
    }
    proof {
        lemma_ty_hir_module_view(unit.root_module);
    }
    let mut mono = Mono::new(top + 1);
    mono.collect_templates(&unit.root_module.items);
    let mut items = mono.mono_items(&unit.root_module.items, limit)?;
    let ghost before = items.deep_view();
    let n: usize = mono.out_items.len();
    for i in 0..n
        invariant
            n == mono.out_items@.len(),
            items.deep_view() == before + mono.out_items.deep_view().subrange(0, i as int),
    {
        let x = mono.out_items[i].clone();
        push_item(&mut items, x);
        assert(items.deep_view() =~= before + mono.out_items.deep_view().subrange(0, i + 1));
    }
    assert(mono.out_items.deep_view().subrange(0, n as int) =~= mono.out_items.deep_view());
    let root_module = TyHirModule {
        def_id: unit.root_module.def_id,
        name: unit.root_module.name.clone(),
        visibility: unit.root_module.visibility,
        attributes: copy_list(&unit.root_module.attributes),
        items,
    };
    proof {
        lemma_ty_hir_module_view(root_module);
    }
    Ok(TyHirCompilationUnit { root_module, vtables: copy_list(&unit.vtables) })
}

/// Expands the generic definitions of a program. Requests for instances may nest
/// as deeply as can be counted.
pub fn monomorphize(unit: &TyHirCompilationUnit) -> (r: Result<TyHirCompilationUnit, MplangError>)
    ensures
        gives(r, expanded(unit.deep_view(), usize::MAX as nat)),
{
    monomorphize_within(unit, usize::MAX)
}

} // verus!
