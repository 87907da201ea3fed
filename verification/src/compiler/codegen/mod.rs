//! Programs, functions, statements and expressions.

use crate::compiler::code::{
    EnumLayout, FuncDecl, FuncInfo, Linkage, StructFieldLayout, StructLayout, VTableData,
    VariantLayout,
};
use crate::compiler::codegen::function::{linkage_for, link_symbol, types_of_params};
use crate::compiler::globals::const_init;
use crate::compiler::rules::{
    enum_layout, flat, g_add_function, init_mismatch, lay_fields, lay_payload, lay_variants,
    max_of, no_fields, no_variants, p_code, p_enums, p_externs, p_functions, p_globals, p_structs,
    p_vtables, place_field, translated, vtable_entries, vtable_name, FieldRun, ProgramState,
    VariantRun,
};
use crate::compiler::types::{about, align_to, sum};
use crate::compiler::Compiler;
use crate::error::{MplangError, MplangErrorV};
use crate::hir::{def_text, DefId, HirType, VTable};
use crate::list::{copy_list, empty_list, push_item};
use crate::lowering::gives;
use crate::text::{cat3, cat4, decimal_string};
use crate::tyhir::{
    lemma_ty_hir_body_view, lemma_ty_hir_item_view, lemma_ty_hir_module_view, TyHirCompilationUnit,
    TyHirEnumVariant, TyHirField, TyHirItem,
};
use vstd::prelude::*;

mod addr_taken;
mod expr;
mod function;
mod stmt;

verus! {

/// Whether an executed step returns what the rules say and leaves the program
/// that they say.
pub open spec fn builds<T: DeepView>(
    after: &Compiler,
    r: Result<T, MplangError>,
    want: (ProgramState, Result<T::V, MplangErrorV>),
) -> bool {
    &&& after.state() == want.0
    &&& gives(r, want.1)
}

/// Appends the items with those of their modules behind them.
fn walk_items(items: &Vec<TyHirItem>, out: &mut Vec<TyHirItem>)
    ensures
        final(out).deep_view() == flat(items.deep_view(), 0, old(out).deep_view()),
    decreases items,
{
    let ghost goal = flat(items.deep_view(), 0, out.deep_view());
    for i in 0..items.len()
        invariant
            goal == flat(items.deep_view(), i as int, out.deep_view()),
    {
        proof {
            lemma_ty_hir_item_view(items@[i as int]);
        }
        push_item(out, items[i].clone());
        if let TyHirItem::Module(m) = &items[i] {
            proof {
                lemma_ty_hir_module_view(*m);
            }
            walk_items(&m.items, out);
        }
    }
}

/// Fields laid out so far.
struct Run {
    fields: Vec<StructFieldLayout>,
    end: u32,
    align: u32,
}

impl DeepView for Run {
    type V = FieldRun;

    closed spec fn deep_view(&self) -> FieldRun {
        FieldRun { fields: self.fields.deep_view(), end: self.end, align: self.align }
    }
}

/// The larger of two numbers.
fn larger(a: u32, b: u32) -> (r: u32)
    ensures
        r == max_of(a, b),
{
    if a > b {
        a
    } else {
        b
    }
}

impl Run {
    fn empty() -> (r: Run)
        ensures
            r.deep_view() == no_fields(),
    {
        Run { fields: empty_list(), end: 0, align: 1 }
    }

    /// One more field.
    fn place(self, f: &TyHirField, size: u32, align: u32) -> (r: Result<Run, MplangError>)
        ensures
            gives(r, place_field(self.deep_view(), f.deep_view(), size, align)),
    {
        let offset: u32 = align_to(self.end, align)?;
        let end: u32 = sum(offset, size)?;
        let mut fields = self.fields;
        push_item(
            &mut fields,
            StructFieldLayout { field_def_id: f.def_id, field_type: f.ty.clone(), offset },
        );
        Ok(Run { fields, end, align: larger(align, self.align) })
    }
}

impl Compiler {
    /// The fields of a struct.
    fn layout_fields(&self, fs: &Vec<TyHirField>) -> (r: Result<Run, MplangError>)
        ensures
            gives(r, lay_fields(self.env(), fs.deep_view(), 0, no_fields())),
    {
        let mut run = Run::empty();
        let ghost goal = lay_fields(self.env(), fs.deep_view(), 0, no_fields());
        for i in 0..fs.len()
            invariant
                goal == lay_fields(self.env(), fs.deep_view(), 0, no_fields()),
                goal == lay_fields(self.env(), fs.deep_view(), i as int, run.deep_view()),
        {
            let align: u32 = self.var_type_align(&fs[i].ty)?;
            let size: u32 = self.var_type_size(&fs[i].ty)?;
            run = run.place(&fs[i], size, align)?;
        }
        Ok(run)
    }

    /// The fields of a variant.
    fn layout_payload(&self, fs: &Vec<TyHirField>) -> (r: Result<Run, MplangError>)
        ensures
            gives(r, lay_payload(self.env(), fs.deep_view(), 0, no_fields())),
    {
        let mut run = Run::empty();
        let ghost goal = lay_payload(self.env(), fs.deep_view(), 0, no_fields());
        for i in 0..fs.len()
            invariant
                goal == lay_payload(self.env(), fs.deep_view(), 0, no_fields()),
                goal == lay_payload(self.env(), fs.deep_view(), i as int, run.deep_view()),
        {
            let align: u32 = self.var_type_align_or_default(&fs[i].ty)?;
            let size: u32 = self.var_type_size_or_default(&fs[i].ty)?;
            run = run.place(&fs[i], size, align)?;
        }
        Ok(run)
    }

    /// The layout of an enumeration.
    fn layout_enum(&self, vs: &Vec<TyHirEnumVariant>) -> (r: Result<EnumLayout, MplangError>)
        ensures
            gives(
                r,
                match lay_variants(self.env(), vs.deep_view(), 0, no_variants()) {
                    Ok(run) => enum_layout(run),
                    Err(e) => Err(e),
                },
            ),
    {
        let mut variants: Vec<VariantLayout> = empty_list();
        let mut size: u32 = 0;
        let mut align: u32 = 8;
        let ghost goal = lay_variants(self.env(), vs.deep_view(), 0, no_variants());
        for i in 0..vs.len()
            invariant
                goal == lay_variants(self.env(), vs.deep_view(), 0, no_variants()),
                goal == lay_variants(
                    self.env(),
                    vs.deep_view(),
                    i as int,
                    VariantRun { variants: variants.deep_view(), size, align },
                ),
        {
            let payload = self.layout_payload(&vs[i].fields)?;
            let n: u32 = align_to(payload.end, payload.align)?;
            push_item(
                &mut variants,
                VariantLayout {
                    name: vs[i].name.clone(),
                    tag: vs[i].tag,
                    payload_offset: 8,
                    payload_size: n,
                    fields: payload.fields,
                },
            );
            size = larger(n, size);
            align = larger(payload.align, align);
        }
        let total: u32 = sum(8, size)?;
        let n: u32 = align_to(total, align)?;
        Ok(EnumLayout { variants, size: n, align, max_payload_align: align })
    }

    fn globals_pass(&mut self, items: &Vec<TyHirItem>) -> (r: Result<(), MplangError>)
        ensures
            builds(final(self), r, p_globals(old(self).state(), items.deep_view(), 0)),
    {
        let ghost goal = p_globals(self.state(), items.deep_view(), 0);
        for i in 0..items.len()
            invariant
                goal == p_globals(old(self).state(), items.deep_view(), 0),
                goal == p_globals(self.state(), items.deep_view(), i as int),
        {
            proof {
                lemma_ty_hir_item_view(items@[i as int]);
            }
            if let TyHirItem::Static { def_id, name, ty, init, .. } = &items[i] {
                let (bytes, t) = const_init(init)?;
                if !t.same(ty) {
                    proof {
                        reveal(init_mismatch);
                    }
                    let text = cat3("global `", name.as_str(), "` 字面量类型与声明不符");
                    return Err(MplangError::codegen(text.as_str()));
                }
                self.create_global_var(*def_id, bytes, ty)?;
            }
        }
        Ok(())
    }

    fn structs_pass(&mut self, items: &Vec<TyHirItem>) -> (r: Result<(), MplangError>)
        ensures
            ({
                let want = p_structs(old(self).state().env, items.deep_view(), 0);
                &&& final(self).state() == (ProgramState { env: want.0, ..old(self).state() })
                &&& gives(r, want.1)
            }),
    {
        let ghost goal = p_structs(self.state().env, items.deep_view(), 0);
        for i in 0..items.len()
            invariant
                self.state() == (ProgramState { env: self.state().env, ..old(self).state() }),
                goal == p_structs(old(self).state().env, items.deep_view(), 0),
                goal == p_structs(self.state().env, items.deep_view(), i as int),
        {
            proof {
                lemma_ty_hir_item_view(items@[i as int]);
            }
            if let TyHirItem::Struct { def_id, fields, .. } = &items[i] {
                let run = self.layout_fields(fields)?;
                if self.depth == usize::MAX {
                    return Err(MplangError::codegen("attempt to add with overflow"));
                }
                let layout = StructLayout { fields: run.fields, end: run.end, align: run.align };
                self.struct_map.insert(*def_id, layout);
                self.depth = self.depth + 1;
            }
        }
        Ok(())
    }

    fn enums_pass(&mut self, items: &Vec<TyHirItem>) -> (r: Result<(), MplangError>)
        ensures
            ({
                let want = p_enums(old(self).state().env, items.deep_view(), 0);
                &&& final(self).state() == (ProgramState { env: want.0, ..old(self).state() })
                &&& gives(r, want.1)
            }),
    {
        let ghost goal = p_enums(self.state().env, items.deep_view(), 0);
        for i in 0..items.len()
            invariant
                self.state() == (ProgramState { env: self.state().env, ..old(self).state() }),
                goal == p_enums(old(self).state().env, items.deep_view(), 0),
                goal == p_enums(self.state().env, items.deep_view(), i as int),
        {
            proof {
                lemma_ty_hir_item_view(items@[i as int]);
            }
            if let TyHirItem::Enum { def_id, variants, .. } = &items[i] {
                let layout = self.layout_enum(variants)?;
                self.enum_map.insert(*def_id, layout);
            }
        }
        Ok(())
    }

    fn add_function(
        &mut self,
        d: DefId,
        symbol: String,
        linkage: Linkage,
        info: FuncInfo,
    ) -> (r: Result<
        (),
        MplangError,
    >)
        ensures
            builds(
                final(self),
                r,
                g_add_function(old(self).state(), d, symbol@, linkage, info.deep_view()),
            ),
    {
        let extra: Vec<HirType> = empty_list();
        let signature = self.build_signature(&info.param_types, &info.ret_ty, &extra)?;
        if self.func_map.contains(&d) {
            return Ok(());
        }
        self.func_map.insert(d, info);
        push_item(&mut self.functions, FuncDecl { def_id: d, symbol, linkage, signature });
        Ok(())
    }

    fn externs_pass(&mut self, items: &Vec<TyHirItem>) -> (r: Result<(), MplangError>)
        ensures
            builds(final(self), r, p_externs(old(self).state(), items.deep_view(), 0)),
    {
        let ghost goal = p_externs(self.state(), items.deep_view(), 0);
        for i in 0..items.len()
            invariant
                goal == p_externs(old(self).state(), items.deep_view(), 0),
                goal == p_externs(self.state(), items.deep_view(), i as int),
        {
            proof {
                lemma_ty_hir_item_view(items@[i as int]);
            }
            if let TyHirItem::ExternFn {
                def_id,
                link_name,
                name,
                param_types,
                return_ty,
                is_variadic,
                ..
            } = &items[i] {
                let symbol = match link_name {
                    Some(l) => l.clone(),
                    None => name.clone(),
                };
                let info = FuncInfo {
                    name: name.clone(),
                    param_types: copy_list(param_types),
                    ret_ty: return_ty.clone(),
                    is_variadic: *is_variadic,
                };
                self.add_function(*def_id, symbol, Linkage::Import, info)?;
            }
        }
        Ok(())
    }

    fn functions_pass(&mut self, items: &Vec<TyHirItem>) -> (r: Result<(), MplangError>)
        ensures
            builds(final(self), r, p_functions(old(self).state(), items.deep_view(), 0)),
    {
        let ghost goal = p_functions(self.state(), items.deep_view(), 0);
        for i in 0..items.len()
            invariant
                goal == p_functions(old(self).state(), items.deep_view(), 0),
                goal == p_functions(self.state(), items.deep_view(), i as int),
        {
            proof {
                lemma_ty_hir_item_view(items@[i as int]);
            }
            if let TyHirItem::Fn { def_id, name, params, return_ty, impl_receiver, .. } = &items[i] {
                if !self.func_map.contains(def_id) {
                    let symbol = link_symbol(*def_id, name, impl_receiver);
                    let info = FuncInfo {
                        name: symbol.clone(),
                        param_types: types_of_params(params),
                        ret_ty: return_ty.clone(),
                        is_variadic: false,
                    };
                    self.add_function(*def_id, symbol, linkage_for(name), info)?;
                }
            }
        }
        Ok(())
    }

    fn vtable_entries(&self, ms: &Vec<DefId>) -> (r: Result<Vec<(u32, DefId)>, MplangError>)
        requires
            ms@.len() * self.env().ptr_bytes <= u32::MAX,
        ensures
            gives(r, vtable_entries(self.env(), ms.deep_view(), 0, Seq::empty())),
    {
        let mut out: Vec<(u32, DefId)> = empty_list();
        let ghost goal = vtable_entries(self.env(), ms.deep_view(), 0, Seq::empty());
        for i in 0..ms.len()
            invariant
                ms@.len() * self.env().ptr_bytes <= u32::MAX,
                goal == vtable_entries(self.env(), ms.deep_view(), 0, Seq::empty()),
                goal == vtable_entries(self.env(), ms.deep_view(), i as int, out.deep_view()),
        {
            if !self.func_map.contains(&ms[i]) {
                let shown = def_text(ms[i]);
                return Err(about("vtable method ", shown.as_str(), " not in func_map"));
            }
            proof {
                assert(i * self.env().ptr_bytes <= ms@.len() * self.env().ptr_bytes)
                    by (nonlinear_arith)
                    requires
                        i <= ms@.len(),
                        0 <= self.env().ptr_bytes,
                ;
            }
            let off: u64 = (i as u64) * (self.ptr_bytes as u64);
            push_item(&mut out, (off as u32, ms[i]));
        }
        Ok(out)
    }

    fn vtables_pass(&mut self, ts: &Vec<VTable>) -> (r: Result<(), MplangError>)
        ensures
            builds(final(self), r, p_vtables(old(self).state(), ts.deep_view(), 0)),
    {
        let ghost goal = p_vtables(self.state(), ts.deep_view(), 0);
        for i in 0..ts.len()
            invariant
                goal == p_vtables(old(self).state(), ts.deep_view(), 0),
                goal == p_vtables(self.state(), ts.deep_view(), i as int),
        {
            let t = &ts[i];
            proof {
                assert(t.methods.deep_view().len() == t.methods@.len());
                assert(t.methods@.len() == t.methods.len());
                assert(t.methods@.len() * self.ptr_bytes <= 0xffff_ffff_ffff_ffff * 0xffff_ffff)
                    by (nonlinear_arith)
                    requires
                        t.methods@.len() <= 0xffff_ffff_ffff_ffff,
                        self.ptr_bytes <= 0xffff_ffff,
                ;
            }
            let size: u128 = (t.methods.len() as u128) * (self.ptr_bytes as u128);
            if size > u32::MAX as u128 {
                return Err(MplangError::codegen("attempt to multiply with overflow"));
            }
            let entries = self.vtable_entries(&t.methods)?;
            proof {
                reveal(vtable_name);
            }
            let a = decimal_string(t.trait_def.0 as u64);
            let b = decimal_string(t.impl_type_def.0 as u64);
            let name = cat4("__vtable_", a.as_str(), "_", b.as_str());
            push_item(&mut self.vtables, VTableData { name, size: size as u32, entries });
        }
        Ok(())
    }

    fn code_pass(&mut self, items: &Vec<TyHirItem>) -> (r: Result<(), MplangError>)
        ensures
            builds(final(self), r, p_code(old(self).state(), items.deep_view(), 0)),
    {
        let ghost goal = p_code(self.state(), items.deep_view(), 0);
        for i in 0..items.len()
            invariant
                goal == p_code(old(self).state(), items.deep_view(), 0),
                goal == p_code(self.state(), items.deep_view(), i as int),
        {
            proof {
                lemma_ty_hir_item_view(items@[i as int]);
            }
            if let TyHirItem::Fn { def_id, name, params, body, .. } = &items[i] {
                let ret = match self.func_map.get(def_id) {
                    Some(f) => f.ret_ty.clone(),
                    None => {
                        return Err(about("function '", name.as_str(), "' not declared"));
                    },
                };
                proof {
                    lemma_ty_hir_body_view(*body);
                }
                self.define_function(*def_id, params, &ret, &body.stmts)?;
            }
        }
        Ok(())
    }

    /// Generates code for a program.
    pub fn translate(&mut self, prog: &TyHirCompilationUnit) -> (r: Result<(), MplangError>)
        ensures
            builds(final(self), r, translated(old(self).state(), prog.deep_view())),
    {
        proof {
            lemma_ty_hir_module_view(prog.root_module);
        }
        let mut items: Vec<TyHirItem> = empty_list();
        walk_items(&prog.root_module.items, &mut items);
        self.globals_pass(&items)?;
        self.structs_pass(&items)?;
        self.enums_pass(&items)?;
        self.externs_pass(&items)?;
        self.functions_pass(&items)?;
        self.vtables_pass(&prog.vtables)?;
        self.code_pass(&items)
    }
}

} // verus!
