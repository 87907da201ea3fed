//! Sizes, alignments and offsets.

use crate::compiler::code::{IrType, StructFieldLayout, VariantLayout};
use crate::compiler::rules::{
    add_sizes, aligned, error_on, error_on2, field_at, g_align, g_align_or_word, g_assert_ty,
    g_enum_align, g_enum_size, g_field, g_field_offset, g_field_type, g_payload_offset, g_size,
    g_size_or_word, g_struct_size, g_type, g_variant, g_variant_field_offset, is_open,
    known_length, no_variant_field, round_up, still_generic, type_mismatch,
};
use crate::compiler::Compiler;
use crate::error::MplangError;
use crate::hir::{def_text, lemma_hir_type_view, ArrayLen, DefId, HirType};
use crate::lowering::gives;
use crate::text::{cat3, cat4, decimal_string};
use vstd::prelude::*;
use vstd::arithmetic::div_mod::{lemma_div_multiples_vanish, lemma_fundamental_div_mod};

verus! {

/// An error about a text.
pub(super) fn about(a: &str, x: &str, b: &str) -> (r: MplangError)
    ensures
        r.deep_view() == error_on(a@, x@, b@),
{
    proof {
        reveal(error_on);
    }
    let text = cat3(a, x, b);
    MplangError::codegen(text.as_str())
}

/// An error that ends in a text.
pub(super) fn about_last(a: &str, x: &str) -> (r: MplangError)
    ensures
        r.deep_view() == error_on(a@, x@, Seq::empty()),
{
    proof {
        reveal_strlit("");
        assert(""@ =~= Seq::empty());
    }
    about(a, x, "")
}

/// An error that ends in the second of two texts.
pub(super) fn about_both(a: &str, x: &str, b: &str, y: &str) -> (r: MplangError)
    ensures
        r.deep_view() == error_on2(a@, x@, b@, y@, Seq::empty()),
{
    proof {
        reveal(error_on2);
        assert(a@ + x@ + b@ + y@ + Seq::<char>::empty() =~= a@ + x@ + b@ + y@);
    }
    let text = cat4(a, x, b, y);
    MplangError::codegen(text.as_str())
}

/// The error for a type that is still generic.
pub(super) fn open_type(t: &HirType) -> (r: MplangError)
    ensures
        r.deep_view() == still_generic(t.deep_view()),
{
    let shown = t.to_text();
    about_last("单态化后不应出现泛型类型占位符：", shown.as_str())
}

/// The sum of two sizes.
pub(super) fn sum(a: u32, b: u32) -> (r: Result<u32, MplangError>)
    ensures
        gives(r, add_sizes(a, b)),
{
    match a.checked_add(b) {
        Some(n) => Ok(n),
        None => Err(MplangError::codegen("attempt to add with overflow")),
    }
}

/// Rounding up stays below the number plus the alignment.
pub proof fn lemma_round_up(n: int, align: int)
    requires
        0 <= n,
        0 < align,
    ensures
        n <= round_up(n, align) < n + align,
        round_up(n, align) % align == 0,
{
    let m = n + align - 1;
    lemma_fundamental_div_mod(m, align);
    assert(round_up(n, align) == align * (m / align)) by (nonlinear_arith)
        requires
            round_up(n, align) == (m / align) * align,
    ;
    assert((align * (m / align)) % align == 0) by {
        vstd::arithmetic::div_mod::lemma_mod_multiples_basic(m / align, align);
        assert((m / align) * align == align * (m / align)) by (nonlinear_arith);
    }
}

/// The least multiple of `align` that is not below `n`.
pub(super) fn align_to(n: u32, align: u32) -> (r: Result<u32, MplangError>)
    ensures
        gives(r, aligned(n, align)),
{
    if align == 0 {
        return Err(MplangError::codegen("attempt to subtract with overflow"));
    }
    match n.checked_add(align) {
        Some(m) => {
            proof {
                lemma_round_up(n as int, align as int);
            }
            let q: u32 = (m - 1) / align;
            assert(q * align == round_up(n as int, align as int));
            Ok(q * align)
        },
        None => Err(MplangError::codegen("attempt to add with overflow")),
    }
}

/// The length of an array.
pub(super) fn length_of(n: ArrayLen) -> (r: Result<usize, MplangError>)
    ensures
        gives(r, known_length(n)),
{
    match n {
        ArrayLen::Known(k) => Ok(k),
        ArrayLen::Const(_) => Err(
            MplangError::codegen(
                "内部错误：数组长度仍依赖常量泛型参数，未在最終单态化",
            ),
        ),
    }
}

/// Whether a type is a type parameter or an application of a generic struct.
fn open_kind(t: &HirType) -> (r: bool)
    ensures
        r == is_open(t.deep_view()),
{
    proof {
        lemma_hir_type_view(*t);
    }
    match t {
        HirType::Var(_) => true,
        HirType::Generic(_, _, _) => true,
        _ => false,
    }
}

/// The index of a field.
fn field_index(fs: &Vec<StructFieldLayout>, field: DefId) -> (r: Option<usize>)
    ensures
        match r {
            Some(k) => k < fs@.len() && field_at(fs.deep_view(), field, 0) == Some(
                fs@[k as int].deep_view(),
            ),
            None => field_at(fs.deep_view(), field, 0) is None,
        },
{
    for i in 0..fs.len()
        invariant
            field_at(fs.deep_view(), field, 0) == field_at(fs.deep_view(), field, i as int),
    {
        if fs[i].field_def_id == field {
            return Some(i);
        }
    }
    None
}

impl Compiler {
    /// The machine type of a pointer.
    pub fn ptr_type(&self) -> (r: IrType)
        ensures
            r == IrType::Ptr,
    {
        IrType::Ptr
    }

    /// The machine type of values of a type.
    pub fn var_type_to_cranelift(&self, ty: &HirType) -> (r: Result<IrType, MplangError>)
        ensures
            gives(r, g_type(self.env(), ty.deep_view())),
    {
        proof {
            lemma_hir_type_view(*ty);
        }
        match ty {
            HirType::Int => Ok(IrType::I64),
            HirType::Unit => Ok(IrType::I64),
            HirType::Char => Ok(IrType::I8),
            HirType::Pointer(_) => Ok(IrType::Ptr),
            HirType::Array(_, _) => Ok(IrType::Ptr),
            HirType::Named(d) => {
                if self.struct_map.contains(d) {
                    Ok(IrType::Ptr)
                } else {
                    let shown = def_text(*d);
                    Err(about_last("unknown named type: ", shown.as_str()))
                }
            },
            HirType::Var(_) => Err(open_type(ty)),
            HirType::Generic(_, _, _) => Err(open_type(ty)),
            HirType::Enum(_, _, _) => Ok(IrType::Ptr),
            HirType::TraitObject(_) => Ok(IrType::Ptr),
        }
    }

    /// The size of a type in bytes.
    pub fn var_type_size(&self, ty: &HirType) -> (r: Result<u32, MplangError>)
        ensures
            gives(r, g_size(self.env(), ty.deep_view())),
        decreases ty,
    {
        proof {
            lemma_hir_type_view(*ty);
        }
        match ty {
            HirType::Int => Ok(8),
            HirType::Unit => Ok(8),
            HirType::Char => Ok(1),
            HirType::Pointer(_) => Ok(self.ptr_bytes),
            HirType::Array(e, n) => {
                let stride: u32 = self.var_type_size(&**e)?;
                let k: usize = length_of(*n)?;
                match stride.checked_mul(k as u32) {
                    Some(total) => Ok(total),
                    None => Err(MplangError::codegen("attempt to multiply with overflow")),
                }
            },
            HirType::Named(d) => self.struct_size(d),
            HirType::Var(_) => Err(open_type(ty)),
            HirType::Generic(_, _, _) => Err(open_type(ty)),
            HirType::Enum(d, _, _) => self.enum_size(d),
            HirType::TraitObject(_) => match self.ptr_bytes.checked_mul(2) {
                Some(total) => Ok(total),
                None => Err(MplangError::codegen("attempt to multiply with overflow")),
            },
        }
    }

    /// The alignment of a type in bytes.
    pub fn var_type_align(&self, ty: &HirType) -> (r: Result<u32, MplangError>)
        ensures
            gives(r, g_align(self.env(), ty.deep_view())),
        decreases ty,
    {
        proof {
            lemma_hir_type_view(*ty);
        }
        match ty {
            HirType::Int => Ok(8),
            HirType::Unit => Ok(8),
            HirType::Char => Ok(1),
            HirType::Pointer(_) => Ok(self.ptr_bytes),
            HirType::Array(e, _) => self.var_type_align(&**e),
            HirType::Named(d) => match self.struct_map.get(d) {
                Some(l) => Ok(l.align),
                None => Err(MplangError::codegen("unknown struct")),
            },
            HirType::Var(_) => Err(open_type(ty)),
            HirType::Generic(_, _, _) => Err(open_type(ty)),
            HirType::Enum(d, _, _) => self.enum_align(d),
            HirType::TraitObject(_) => Ok(self.ptr_bytes),
        }
    }

    /// The size of a struct, rounded up to its alignment.
    pub fn struct_size(&self, struct_def: &DefId) -> (r: Result<u32, MplangError>)
        ensures
            gives(r, g_struct_size(self.env(), *struct_def)),
    {
        match self.struct_map.get(struct_def) {
            None => Err(MplangError::codegen("unknown struct")),
            Some(l) => {
                assert(l.fields.deep_view().len() == l.fields@.len());
                if l.fields.len() == 0 {
                    Ok(0)
                } else {
                    align_to(l.end, l.align)
                }
            },
        }
    }

    /// The layout of a field.
    fn field(&self, struct_def: &DefId, field_def: &DefId) -> (r: Option<StructFieldLayout>)
        ensures
            r.deep_view() == g_field(self.env(), *struct_def, *field_def),
    {
        match self.struct_map.get(struct_def) {
            Some(l) => match field_index(&l.fields, *field_def) {
                Some(k) => Some(l.fields[k].clone()),
                None => None,
            },
            None => None,
        }
    }

    /// Where a field begins.
    pub fn field_offset(&self, struct_def: &DefId, field_def: &DefId) -> (r: Result<
        u32,
        MplangError,
    >)
        ensures
            gives(r, g_field_offset(self.env(), *struct_def, *field_def)),
    {
        proof {
            reveal(g_field_offset);
        }
        match self.field(struct_def, field_def) {
            Some(f) => Ok(f.offset),
            None => {
                let s = def_text(*struct_def);
                let f = def_text(*field_def);
                Err(about_both("field ", f.as_str(), " not found in struct ", s.as_str()))
            },
        }
    }

    /// The type of a field.
    pub fn field_type(&self, struct_def: &DefId, field_def: &DefId) -> (r: Result<
        HirType,
        MplangError,
    >)
        ensures
            gives(r, g_field_type(self.env(), *struct_def, *field_def)),
    {
        proof {
            reveal(g_field_type);
        }
        match self.field(struct_def, field_def) {
            Some(f) => Ok(f.field_type),
            None => {
                let s = def_text(*struct_def);
                let f = def_text(*field_def);
                Err(about_both("struct ", s.as_str(), " has no field ", f.as_str()))
            },
        }
    }

    /// The type must be the expected one.
    pub fn assert_ty(&self, actual: &HirType, expected: &HirType, ctx: &str) -> (r: Result<
        (),
        MplangError,
    >)
        ensures
            gives(r, g_assert_ty(actual.deep_view(), expected.deep_view(), ctx@)),
    {
        if actual.same(expected) {
            return Ok(());
        }
        proof {
            reveal(type_mismatch);
        }
        let e = expected.to_text();
        let a = actual.to_text();
        let head = cat3("type mismatch in ", ctx, ": expected ");
        let text = cat4(head.as_str(), e.as_str(), ", got ", a.as_str());
        Err(MplangError::codegen(text.as_str()))
    }

    /// The size of an enumeration.
    pub fn enum_size(&self, enum_def: &DefId) -> (r: Result<u32, MplangError>)
        ensures
            gives(r, g_enum_size(self.env(), *enum_def)),
    {
        match self.enum_map.get(enum_def) {
            Some(l) => Ok(l.size),
            None => Err(MplangError::codegen("unknown enum")),
        }
    }

    /// The alignment of an enumeration.
    pub fn enum_align(&self, enum_def: &DefId) -> (r: Result<u32, MplangError>)
        ensures
            gives(r, g_enum_align(self.env(), *enum_def)),
    {
        match self.enum_map.get(enum_def) {
            Some(l) => Ok(l.align),
            None => Err(MplangError::codegen("unknown enum")),
        }
    }

    fn variant(&self, enum_def: &DefId, tag: u32) -> (r: Result<VariantLayout, MplangError>)
        ensures
            gives(r, g_variant(self.env(), *enum_def, tag)),
    {
        proof {
            reveal(g_variant);
        }
        match self.enum_map.get(enum_def) {
            Some(l) => {
                assert(l.variants.deep_view().len() == l.variants@.len());
                if (tag as usize) < l.variants.len() {
                    return Ok(l.variants[tag as usize].clone());
                }
                let n = decimal_string(tag as u64);
                let d = def_text(*enum_def);
                Err(about_both("variant tag ", n.as_str(), " not found in enum ", d.as_str()))
            },
            None => Err(MplangError::codegen("unknown enum")),
        }
    }

    /// Where the payload of a variant begins.
    pub fn variant_payload_offset(&self, enum_def: &DefId, tag: u32) -> (r: Result<
        u32,
        MplangError,
    >)
        ensures
            gives(r, g_payload_offset(self.env(), *enum_def, tag)),
    {
        let v = self.variant(enum_def, tag)?;
        Ok(v.payload_offset)
    }

    /// Where a field of a variant begins.
    pub fn variant_field_offset(&self, enum_def: &DefId, tag: u32, field_def: &DefId) -> (r: Result<
        u32,
        MplangError,
    >)
        ensures
            gives(r, g_variant_field_offset(self.env(), *enum_def, tag, *field_def)),
    {
        let v = self.variant(enum_def, tag)?;
        match field_index(&v.fields, *field_def) {
            Some(k) => sum(v.payload_offset, v.fields[k].offset),
            None => {
                proof {
                    reveal(no_variant_field);
                }
                let f = def_text(*field_def);
                let n = decimal_string(tag as u64);
                let d = def_text(*enum_def);
                let head = cat4("field ", f.as_str(), " not found in variant ", n.as_str());
                let text = cat3(head.as_str(), " of enum ", d.as_str());
                Err(MplangError::codegen(text.as_str()))
            },
        }
    }

    /// Where the tag of an enumeration lies.
    pub fn enum_tag_offset() -> (r: u32)
        ensures
            r == 0,
    {
        0
    }

    /// The size of a type; an open type takes a word.
    pub fn var_type_size_or_default(&self, ty: &HirType) -> (r: Result<u32, MplangError>)
        ensures
            gives(r, g_size_or_word(self.env(), ty.deep_view())),
    {
        if open_kind(ty) {
            Ok(8)
        } else {
            self.var_type_size(ty)
        }
    }

    /// The alignment of a type; an open type has that of a word.
    pub fn var_type_align_or_default(&self, ty: &HirType) -> (r: Result<u32, MplangError>)
        ensures
            gives(r, g_align_or_word(self.env(), ty.deep_view())),
    {
        if open_kind(ty) {
            Ok(8)
        } else {
            self.var_type_align(ty)
        }
    }
}

} // verus!
