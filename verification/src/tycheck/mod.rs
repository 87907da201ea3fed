//! Type checking: from the resolved to the typed representation.
//!
//! Every expression gets its type, field and method names are resolved, and
//! operands, arguments, assignments and results must have the types that their
//! places ask for. Which type an expression has, and which error an ill-typed
//! one gives, is stated in [`rules`].

use crate::ast::GenericParam;
use crate::error::{MplangError, MplangErrorV};
use crate::hir::{
    def_text, lemma_hir_body_view, lemma_hir_item_view, lemma_hir_module_view, lemma_hir_type_view,
    DefId, HirCompilationUnit, HirEnumVariant, HirEnumVariantV, HirField, HirFieldV, HirItem,
    HirModule, HirParam, HirParamV, HirType, ParamKind,
};
use crate::list::{copy_list, empty_list, push_item, set_item};
use crate::lowering::gives;
use crate::table::Table;
use crate::text::{cat2, cat3, cat5, usize_string};
use crate::tycheck::info::{EnumInfo, EnumVariantInfo, FuncSig, MethodKey, StructFieldInfo};
use crate::tycheck::rules::{
    assert_ty, c_item, c_items, c_module, checked, collect_item, collect_items, collect_method,
    collect_module, count_error, enter_params, error_about, error_about2, field_infos,
    initial_state, method_owner, mismatch, name_fields, name_of, second_method, set_enum,
    typed_field, typed_param, typed_variant, value_types, variant_info, CheckState,
};
use crate::tyhir::{
    lemma_ty_hir_item_view, lemma_ty_hir_module_view, TyHirCompilationUnit, TyHirEnumVariant,
    TyHirField, TyHirItem, TyHirModule, TyHirParam,
};
use vstd::prelude::*;

pub mod complete;
mod expr;
pub mod generics;
pub mod info;
pub mod kept;
pub mod operators;
pub mod rules;
pub mod soundness;
pub mod typing;

verus! {

/// The type checker.
pub struct TypeChecker {
    struct_fields: Table<DefId, Vec<StructFieldInfo>>,
    struct_generics: Table<DefId, Vec<GenericParam>>,
    func_sigs: Table<DefId, FuncSig>,
    method_table: Table<MethodKey, DefId>,
    def_types: Table<DefId, HirType>,
    names: Table<DefId, String>,
    enum_variants: Vec<EnumInfo>,
    variant_expected_type: Option<HirType>,
}

/// Whether an executed step returns what the rules say and leaves the checker
/// in the state that they say.
pub open spec fn checks<T: DeepView>(
    after: &TypeChecker,
    r: Result<T, MplangError>,
    want: (CheckState, Result<T::V, MplangErrorV>),
) -> bool {
    &&& after.state() == want.0
    &&& gives(r, want.1)
}

/// The type must be the expected one.
fn expect_type(actual: &HirType, expected: &HirType, ctx: &str) -> (r: Result<(), MplangError>)
    ensures
        gives(r, assert_ty(actual.deep_view(), expected.deep_view(), ctx@)),
{
    if actual.same(expected) {
        return Ok(());
    }
    proof {
        reveal(mismatch);
    }
    let e = expected.to_text();
    let a = actual.to_text();
    let text = cat5(ctx, "：期望 ", e.as_str(), "，实际 ", a.as_str());
    Err(MplangError::type_error(text.as_str()))
}

fn about_name(a: &str, name: &str, b: &str) -> (r: MplangError)
    ensures
        r.deep_view() == error_about(a@, name@, b@),
{
    proof {
        reveal(error_about);
    }
    let text = cat3(a, name, b);
    MplangError::type_error(text.as_str())
}

fn about_names(a: &str, x: &str, b: &str, y: &str, c: &str) -> (r: MplangError)
    ensures
        r.deep_view() == error_about2(a@, x@, b@, y@, c@),
{
    proof {
        reveal(error_about2);
    }
    let text = cat5(a, x, b, y, c);
    MplangError::type_error(text.as_str())
}

fn about_count(a: &str, name: &str, b: &str, want: usize, c: &str, got: usize) -> (r: MplangError)
    ensures
        r.deep_view() == count_error(a@, name@, b@, want as nat, c@, got as nat),
{
    proof {
        reveal(count_error);
    }
    let w = usize_string(want);
    let g = usize_string(got);
    let head = cat5(a, name, b, w.as_str(), c);
    let text = cat2(head.as_str(), g.as_str());
    MplangError::type_error(text.as_str())
}

fn infos_of(fs: &Vec<HirField>) -> (r: Vec<StructFieldInfo>)
    ensures
        r.deep_view() == field_infos(fs.deep_view()),
{
    let mut out: Vec<StructFieldInfo> = Vec::new();
    for i in 0..fs.len()
        invariant
            out@.len() == i,
            forall|j: int|
                0 <= j < i ==> #[trigger] out@[j].deep_view() == field_infos(fs.deep_view())[j],
    {
        out.push(
            StructFieldInfo {
                name: fs[i].name.clone(),
                def_id: fs[i].def_id,
                ty: fs[i].ty.clone(),
            },
        );
    }
    assert(out.deep_view() =~= field_infos(fs.deep_view()));
    out
}

fn variant_fields(fs: &Vec<HirField>) -> (r: Vec<(String, DefId, HirType)>)
    ensures
        r.deep_view() == fs.deep_view().map_values(|f: HirFieldV| (f.name, f.def_id, f.ty)),
{
    let mut out: Vec<(String, DefId, HirType)> = Vec::new();
    let ghost want = fs.deep_view().map_values(|f: HirFieldV| (f.name, f.def_id, f.ty));
    for i in 0..fs.len()
        invariant
            want == fs.deep_view().map_values(|f: HirFieldV| (f.name, f.def_id, f.ty)),
            out@.len() == i,
            forall|j: int| 0 <= j < i ==> #[trigger] out@[j].deep_view() == want[j],
    {
        out.push((fs[i].name.clone(), fs[i].def_id, fs[i].ty.clone()));
    }
    assert(out.deep_view() =~= want);
    out
}

fn variants_of(vs: &Vec<HirEnumVariant>) -> (r: Vec<EnumVariantInfo>)
    ensures
        r.deep_view() == vs.deep_view().map_values(|v: HirEnumVariantV| variant_info(v)),
{
    let mut out: Vec<EnumVariantInfo> = Vec::new();
    let ghost want = vs.deep_view().map_values(|v: HirEnumVariantV| variant_info(v));
    for i in 0..vs.len()
        invariant
            want == vs.deep_view().map_values(|v: HirEnumVariantV| variant_info(v)),
            out@.len() == i,
            forall|j: int| 0 <= j < i ==> #[trigger] out@[j].deep_view() == want[j],
    {
        let fields = variant_fields(&vs[i].fields);
        out.push(EnumVariantInfo { name: vs[i].name.clone(), tag: vs[i].tag, fields });
    }
    assert(out.deep_view() =~= want);
    out
}

fn value_types_of(ps: &Vec<HirParam>) -> (r: Vec<HirType>)
    ensures
        r.deep_view() == value_types(ps.deep_view(), 0, Seq::empty()),
{
    let mut out: Vec<HirType> = empty_list();
    for i in 0..ps.len()
        invariant
            value_types(ps.deep_view(), 0, Seq::empty()) == value_types(
                ps.deep_view(),
                i as int,
                out.deep_view(),
            ),
    {
        if ps[i].kind == ParamKind::Value {
            push_item(&mut out, ps[i].ty.clone());
        }
    }
    out
}

fn owner_of(t: &HirType) -> (r: HirType)
    ensures
        r.deep_view() == method_owner(t.deep_view()),
{
    proof {
        lemma_hir_type_view(*t);
    }
    let r = match t {
        HirType::Generic(d, _, _) => HirType::Named(*d),
        HirType::Enum(d, _, _) => HirType::Named(*d),
        _ => t.clone(),
    };
    proof {
        lemma_hir_type_view(r);
    }
    r
}

fn typed_params(ps: &Vec<HirParam>) -> (r: Vec<TyHirParam>)
    ensures
        r.deep_view() == ps.deep_view().map_values(|p: HirParamV| typed_param(p)),
{
    let mut out: Vec<TyHirParam> = Vec::new();
    let ghost want = ps.deep_view().map_values(|p: HirParamV| typed_param(p));
    for i in 0..ps.len()
        invariant
            want == ps.deep_view().map_values(|p: HirParamV| typed_param(p)),
            out@.len() == i,
            forall|j: int| 0 <= j < i ==> #[trigger] out@[j].deep_view() == want[j],
    {
        out.push(
            TyHirParam {
                def_id: ps[i].def_id,
                name: ps[i].name.clone(),
                ty: ps[i].ty.clone(),
                kind: ps[i].kind,
            },
        );
    }
    assert(out.deep_view() =~= want);
    out
}

fn typed_fields(fs: &Vec<HirField>) -> (r: Vec<TyHirField>)
    ensures
        r.deep_view() == fs.deep_view().map_values(|f: HirFieldV| typed_field(f)),
{
    let mut out: Vec<TyHirField> = Vec::new();
    let ghost want = fs.deep_view().map_values(|f: HirFieldV| typed_field(f));
    for i in 0..fs.len()
        invariant
            want == fs.deep_view().map_values(|f: HirFieldV| typed_field(f)),
            out@.len() == i,
            forall|j: int| 0 <= j < i ==> #[trigger] out@[j].deep_view() == want[j],
    {
        out.push(
            TyHirField {
                def_id: fs[i].def_id,
                name: fs[i].name.clone(),
                ty: fs[i].ty.clone(),
                visibility: fs[i].visibility,
            },
        );
    }
    assert(out.deep_view() =~= want);
    out
}

fn typed_variants(vs: &Vec<HirEnumVariant>) -> (r: Vec<TyHirEnumVariant>)
    ensures
        r.deep_view() == vs.deep_view().map_values(|v: HirEnumVariantV| typed_variant(v)),
{
    let mut out: Vec<TyHirEnumVariant> = Vec::new();
    let ghost want = vs.deep_view().map_values(|v: HirEnumVariantV| typed_variant(v));
    for i in 0..vs.len()
        invariant
            want == vs.deep_view().map_values(|v: HirEnumVariantV| typed_variant(v)),
            out@.len() == i,
            forall|j: int| 0 <= j < i ==> #[trigger] out@[j].deep_view() == want[j],
    {
        let fields = typed_fields(&vs[i].fields);
        out.push(
            TyHirEnumVariant {
                def_id: vs[i].def_id,
                name: vs[i].name.clone(),
                tag: vs[i].tag,
                fields,
            },
        );
    }
    assert(out.deep_view() =~= want);
    out
}

impl TypeChecker {
    /// What the checker knows.
    pub closed spec fn state(&self) -> CheckState {
        CheckState {
            struct_fields: self.struct_fields@,
            struct_generics: self.struct_generics@,
            func_sigs: self.func_sigs@,
            methods: self.method_table@,
            def_types: self.def_types@,
            names: self.names@,
            enums: self.enum_variants.deep_view(),
            expected: self.variant_expected_type.deep_view(),
        }
    }

    /// A checker that knows nothing yet; the definitions of the program are
    /// noted when it is checked.
    pub fn new(_hir: &HirCompilationUnit) -> (r: Self)
        ensures
            r.state() == initial_state(),
    {
        TypeChecker {
            struct_fields: Table::new(),
            struct_generics: Table::new(),
            func_sigs: Table::new(),
            method_table: Table::new(),
            def_types: Table::new(),
            names: Table::new(),
            enum_variants: empty_list(),
            variant_expected_type: None,
        }
    }

    /// The name of a definition, for messages.
    fn name_of(&self, d: DefId) -> (r: String)
        ensures
            r@ == name_of(self.state(), d),
    {
        match self.names.get(&d) {
            Some(name) => name.clone(),
            None => {
                let n = def_text(d);
                cat2("#", n.as_str())
            },
        }
    }

    fn name_fields(&mut self, fs: &Vec<HirField>)
        ensures
            final(self).state() == (CheckState {
                names: name_fields(old(self).state().names, fs.deep_view(), 0),
                ..old(self).state()
            }),
    {
        let ghost goal = name_fields(self.state().names, fs.deep_view(), 0);
        for i in 0..fs.len()
            invariant
                goal == name_fields(self.state().names, fs.deep_view(), i as int),
                self.state() == (CheckState { names: self.state().names, ..old(self).state() }),
        {
            self.names.insert(fs[i].def_id, fs[i].name.clone());
        }
    }

    fn set_enum(&mut self, e: EnumInfo)
        ensures
            final(self).state() == (CheckState {
                enums: set_enum(old(self).state().enums, e.deep_view(), 0),
                ..old(self).state()
            }),
    {
        let ghost es = self.enum_variants.deep_view();
        let n: usize = self.enum_variants.len();
        for i in 0..n
            invariant
                n == self.enum_variants@.len(),
                es == self.enum_variants.deep_view(),
                *self == *old(self),
                set_enum(es, e.deep_view(), 0) == set_enum(es, e.deep_view(), i as int),
        {
            if self.enum_variants[i].def_id == e.def_id {
                set_item(&mut self.enum_variants, i, e);
                return;
            }
        }
        push_item(&mut self.enum_variants, e);
    }

    fn collect_method(&mut self, recv: &Option<HirType>, name: &String, d: DefId) -> (r: Result<
        (),
        MplangError,
    >)
        ensures
            checks(
                final(self),
                r,
                collect_method(old(self).state(), recv.deep_view(), name@, d),
            ),
    {
        match recv {
            None => Ok(()),
            Some(t) => {
                let key = MethodKey(owner_of(t), name.clone());
                if self.method_table.contains(&key) {
                    proof {
                        reveal(second_method);
                    }
                    let shown = t.to_text();
                    let text = cat5(
                        "类型 ",
                        shown.as_str(),
                        " 重复为方法 `",
                        name.as_str(),
                        "` 提供实现（一个类型上同一方法只能实现一次）",
                    );
                    return Err(MplangError::lowering(text.as_str()));
                }
                self.method_table.insert(key, d);
                Ok(())
            },
        }
    }

    fn collect_item(&mut self, item: &HirItem) -> (r: Result<(), MplangError>)
        ensures
            checks(final(self), r, collect_item(old(self).state(), item.deep_view())),
        decreases item,
    {
        proof {
            lemma_hir_item_view(*item);
        }
        match item {
            HirItem::Module(m) => self.collect_module(m),
            HirItem::Struct { def_id, name, generics, fields, .. } => {
                self.names.insert(*def_id, name.clone());
                self.struct_generics.insert(*def_id, copy_list(generics));
                self.name_fields(fields);
                self.struct_fields.insert(*def_id, infos_of(fields));
                Ok(())
            },
            HirItem::Enum { def_id, name, generics, variants, .. } => {
                self.names.insert(*def_id, name.clone());
                self.struct_generics.insert(*def_id, copy_list(generics));
                let info = EnumInfo { def_id: *def_id, variants: variants_of(variants) };
                self.set_enum(info);
                Ok(())
            },
            HirItem::ExternFn { def_id, name, param_types, return_ty, is_variadic, .. } => {
                self.names.insert(*def_id, name.clone());
                let sig = FuncSig {
                    generics: empty_list(),
                    param_types: copy_list(param_types),
                    ret_ty: return_ty.clone(),
                    is_variadic: *is_variadic,
                };
                self.func_sigs.insert(*def_id, sig);
                Ok(())
            },
            HirItem::Fn { def_id, name, generics, params, return_ty, impl_receiver, .. } => {
                self.names.insert(*def_id, name.clone());
                let sig = FuncSig {
                    generics: copy_list(generics),
                    param_types: value_types_of(params),
                    ret_ty: return_ty.clone(),
                    is_variadic: false,
                };
                self.func_sigs.insert(*def_id, sig);
                self.collect_method(impl_receiver, name, *def_id)
            },
            HirItem::Static { def_id, name, ty, .. } => {
                self.names.insert(*def_id, name.clone());
                self.def_types.insert(*def_id, ty.clone());
                Ok(())
            },
        }
    }

    fn collect_module(&mut self, m: &HirModule) -> (r: Result<(), MplangError>)
        ensures
            checks(final(self), r, collect_module(old(self).state(), m.deep_view())),
        decreases m,
    {
        proof {
            lemma_hir_module_view(*m);
        }
        self.names.insert(m.def_id, m.name.clone());
        let ghost goal = collect_items(self.state(), m.items.deep_view(), 0);
        for i in 0..m.items.len()
            invariant
                m.deep_view().items == m.items.deep_view(),
                goal == collect_module(old(self).state(), m.deep_view()),
                goal == collect_items(self.state(), m.items.deep_view(), i as int),
        {
            self.collect_item(&m.items[i])?;
        }
        Ok(())
    }

    /// The typed program, or the first error.
    pub fn check(&mut self, hir: &HirCompilationUnit) -> (r: Result<
        TyHirCompilationUnit,
        MplangError,
    >)
        ensures
            checks(final(self), r, checked(old(self).state(), hir.deep_view())),
    {
        self.collect_module(&hir.root_module)?;
        let root_module = self.check_module(&hir.root_module)?;
        Ok(TyHirCompilationUnit { root_module, vtables: copy_list(&hir.vtables) })
    }

    fn check_module(&mut self, m: &HirModule) -> (r: Result<TyHirModule, MplangError>)
        ensures
            checks(final(self), r, c_module(old(self).state(), m.deep_view())),
        decreases m,
    {
        proof {
            lemma_hir_module_view(*m);
        }
        let mut out: Vec<TyHirItem> = empty_list();
        let ghost goal = c_items(self.state(), m.items.deep_view(), 0, Seq::empty());
        for i in 0..m.items.len()
            invariant
                m.deep_view().items == m.items.deep_view(),
                goal == c_items(old(self).state(), m.items.deep_view(), 0, Seq::empty()),
                goal == c_items(self.state(), m.items.deep_view(), i as int, out.deep_view()),
        {
            let t = self.check_item(&m.items[i])?;
            push_item(&mut out, t);
        }
        let r = TyHirModule {
            def_id: m.def_id,
            name: m.name.clone(),
            visibility: m.visibility,
            attributes: copy_list(&m.attributes),
            items: out,
        };
        proof {
            lemma_ty_hir_module_view(r);
        }
        Ok(r)
    }

    fn enter_params(&mut self, ps: &Vec<HirParam>)
        ensures
            final(self).state() == enter_params(old(self).state(), ps.deep_view(), 0),
    {
        let ghost goal = enter_params(self.state(), ps.deep_view(), 0);
        for i in 0..ps.len()
            invariant
                goal == enter_params(self.state(), ps.deep_view(), i as int),
        {
            self.def_types.insert(ps[i].def_id, ps[i].ty.clone());
            self.names.insert(ps[i].def_id, ps[i].name.clone());
        }
    }

    fn check_item(&mut self, item: &HirItem) -> (r: Result<TyHirItem, MplangError>)
        ensures
            checks(final(self), r, c_item(old(self).state(), item.deep_view())),
        decreases item,
    {
        proof {
            lemma_hir_item_view(*item);
        }
        let r = match item {
            HirItem::Module(m) => TyHirItem::Module(self.check_module(m)?),
            HirItem::ExternFn {
                def_id,
                visibility,
                attributes,
                link_name,
                name,
                param_types,
                return_ty,
                is_variadic,
            } => TyHirItem::ExternFn {
                def_id: *def_id,
                visibility: *visibility,
                attributes: copy_list(attributes),
                link_name: link_name.clone(),
                name: name.clone(),
                param_types: copy_list(param_types),
                return_ty: return_ty.clone(),
                is_variadic: *is_variadic,
            },
            HirItem::Fn {
                def_id,
                visibility,
                attributes,
                name,
                generics,
                params,
                return_ty,
                body,
                impl_receiver,
            } => {
                proof {
                    lemma_hir_body_view(*body);
                }
                self.enter_params(params);
                let b = self.check_body(&body.stmts, return_ty)?;
                TyHirItem::Fn {
                    def_id: *def_id,
                    visibility: *visibility,
                    attributes: copy_list(attributes),
                    name: name.clone(),
                    generics: copy_list(generics),
                    params: typed_params(params),
                    return_ty: return_ty.clone(),
                    body: b,
                    impl_receiver: copy_type(impl_receiver),
                }
            },
            HirItem::Struct { def_id, visibility, attributes, name, generics, fields } => {
                TyHirItem::Struct {
                    def_id: *def_id,
                    visibility: *visibility,
                    attributes: copy_list(attributes),
                    name: name.clone(),
                    generics: copy_list(generics),
                    fields: typed_fields(fields),
                }
            },
            HirItem::Static { def_id, visibility, attributes, name, ty, init, is_const } => {
                let v = self.check_expr(init)?;
                proof {
                    crate::tyhir::lemma_ty_hir_expr_view(v);
                }
                let ctx = cat3("全局变量 `", name.as_str(), "` 初始化");
                expect_type(&v.ty, ty, ctx.as_str())?;
                TyHirItem::Static {
                    def_id: *def_id,
                    visibility: *visibility,
                    attributes: copy_list(attributes),
                    name: name.clone(),
                    ty: ty.clone(),
                    init: v,
                    is_const: *is_const,
                }
            },
            HirItem::Enum { def_id, visibility, attributes, name, generics, variants } => {
                TyHirItem::Enum {
                    def_id: *def_id,
                    visibility: *visibility,
                    attributes: copy_list(attributes),
                    name: name.clone(),
                    generics: copy_list(generics),
                    variants: typed_variants(variants),
                }
            },
        };
        proof {
            lemma_ty_hir_item_view(r);
        }
        Ok(r)
    }
}

/// A copy of a type that may be missing.
pub fn copy_type(t: &Option<HirType>) -> (r: Option<HirType>)
    ensures
        r.deep_view() == t.deep_view(),
{
    match t {
        Some(t) => Some(t.clone()),
        None => None,
    }
}

} // verus!
