//! What the checker knows of the definitions of a program.

use crate::ast::{GenericParam, GenericParamV};
use crate::hir::{DefId, HirType, HirTypeV};
use crate::table::Key;
use vstd::prelude::*;

verus! {

/// The key of a method: the type of its receiver, and its name.
#[derive(Debug)]
pub struct MethodKey(pub HirType, pub String);

impl DeepView for MethodKey {
    type V = (HirTypeV, Seq<char>);

    open spec fn deep_view(&self) -> (HirTypeV, Seq<char>) {
        (self.0.deep_view(), self.1@)
    }
}

impl Key for MethodKey {
    fn same_key(&self, other: &Self) -> (r: bool) {
        self.1 == other.1 && self.0.same(&other.0)
    }
}

/// A field of a struct.
#[derive(Debug)]
pub struct StructFieldInfo {
    pub name: String,
    pub def_id: DefId,
    pub ty: HirType,
}

/// Model of [`StructFieldInfo`].
#[verifier::ext_equal]
pub struct StructFieldInfoV {
    pub name: Seq<char>,
    pub def_id: DefId,
    pub ty: HirTypeV,
}

/// The model of a [`StructFieldInfo`], component by component.
pub open spec fn struct_field_info_view(e: StructFieldInfo) -> StructFieldInfoV {
    StructFieldInfoV { name: e.name@, def_id: e.def_id, ty: e.ty.deep_view() }
}

impl DeepView for StructFieldInfo {
    type V = StructFieldInfoV;

    open spec fn deep_view(&self) -> StructFieldInfoV {
        struct_field_info_view(*self)
    }
}

impl Clone for StructFieldInfo {
    fn clone(&self) -> (r: Self)
        ensures
            r.deep_view() == self.deep_view(),
    {

        StructFieldInfo { name: self.name.clone(), def_id: self.def_id, ty: self.ty.clone() }
    }
}

/// The signature of a function.
#[derive(Debug)]
pub struct FuncSig {
    pub generics: Vec<GenericParam>,
    pub param_types: Vec<HirType>,
    pub ret_ty: HirType,
    pub is_variadic: bool,
}

/// Model of [`FuncSig`].
#[verifier::ext_equal]
pub struct FuncSigV {
    pub generics: Seq<GenericParamV>,
    pub param_types: Seq<HirTypeV>,
    pub ret_ty: HirTypeV,
    pub is_variadic: bool,
}

/// The model of a [`FuncSig`], component by component.
pub open spec fn func_sig_view(e: FuncSig) -> FuncSigV {
    FuncSigV { generics: e.generics.deep_view(), param_types: e.param_types.deep_view(), ret_ty: e.ret_ty.deep_view(), is_variadic: e.is_variadic }
}

impl DeepView for FuncSig {
    type V = FuncSigV;

    open spec fn deep_view(&self) -> FuncSigV {
        func_sig_view(*self)
    }
}

impl Clone for FuncSig {
    fn clone(&self) -> (r: Self)
        ensures
            r.deep_view() == self.deep_view(),
    {
        let mut out1: Vec<GenericParam> = Vec::new();
        for i1 in 0..self.generics.len()
            invariant
                out1@.len() == i1,
                forall|j: int| 0 <= j < i1 ==> #[trigger] out1@[j].deep_view() == self.generics@[j].deep_view(),

        {

            let item = self.generics[i1].clone();
            out1.push(item);
        }
        proof { assert(out1.deep_view() =~= self.generics.deep_view()); }
        let mut out2: Vec<HirType> = Vec::new();
        for i2 in 0..self.param_types.len()
            invariant
                out2@.len() == i2,
                forall|j: int| 0 <= j < i2 ==> #[trigger] out2@[j].deep_view() == self.param_types@[j].deep_view(),

        {

            let item = self.param_types[i2].clone();
            out2.push(item);
        }
        proof { assert(out2.deep_view() =~= self.param_types.deep_view()); }
        FuncSig { generics: out1, param_types: out2, ret_ty: self.ret_ty.clone(), is_variadic: self.is_variadic }
    }
}

/// A variant of an enumeration.
#[derive(Debug)]
pub struct EnumVariantInfo {
    pub name: String,
    pub tag: u32,
    pub fields: Vec<(String, DefId, HirType)>,
}

/// Model of [`EnumVariantInfo`].
#[verifier::ext_equal]
pub struct EnumVariantInfoV {
    pub name: Seq<char>,
    pub tag: u32,
    pub fields: Seq<(Seq<char>, DefId, HirTypeV)>,
}

/// The model of a [`EnumVariantInfo`], component by component.
pub open spec fn enum_variant_info_view(e: EnumVariantInfo) -> EnumVariantInfoV {
    EnumVariantInfoV { name: e.name@, tag: e.tag, fields: e.fields.deep_view() }
}

impl DeepView for EnumVariantInfo {
    type V = EnumVariantInfoV;

    open spec fn deep_view(&self) -> EnumVariantInfoV {
        enum_variant_info_view(*self)
    }
}

impl Clone for EnumVariantInfo {
    fn clone(&self) -> (r: Self)
        ensures
            r.deep_view() == self.deep_view(),
    {
        let mut out1: Vec<(String, DefId, HirType)> = Vec::new();
        for i1 in 0..self.fields.len()
            invariant
                out1@.len() == i1,
                forall|j: int| 0 <= j < i1 ==> #[trigger] out1@[j].deep_view() == self.fields@[j].deep_view(),

        {

            let item = (self.fields[i1].0.clone(), self.fields[i1].1, self.fields[i1].2.clone());
            out1.push(item);
        }
        proof { assert(out1.deep_view() =~= self.fields.deep_view()); }
        EnumVariantInfo { name: self.name.clone(), tag: self.tag, fields: out1 }
    }
}

/// An enumeration with its variants.
#[derive(Debug)]
pub struct EnumInfo {
    pub def_id: DefId,
    pub variants: Vec<EnumVariantInfo>,
}

/// Model of [`EnumInfo`].
#[verifier::ext_equal]
pub struct EnumInfoV {
    pub def_id: DefId,
    pub variants: Seq<EnumVariantInfoV>,
}

/// The model of a [`EnumInfo`], component by component.
pub open spec fn enum_info_view(e: EnumInfo) -> EnumInfoV {
    EnumInfoV { def_id: e.def_id, variants: e.variants.deep_view() }
}

impl DeepView for EnumInfo {
    type V = EnumInfoV;

    open spec fn deep_view(&self) -> EnumInfoV {
        enum_info_view(*self)
    }
}

impl Clone for EnumInfo {
    fn clone(&self) -> (r: Self)
        ensures
            r.deep_view() == self.deep_view(),
    {
        let mut out1: Vec<EnumVariantInfo> = Vec::new();
        for i1 in 0..self.variants.len()
            invariant
                out1@.len() == i1,
                forall|j: int| 0 <= j < i1 ==> #[trigger] out1@[j].deep_view() == self.variants@[j].deep_view(),

        {

            let item = self.variants[i1].clone();
            out1.push(item);
        }
        proof { assert(out1.deep_view() =~= self.variants.deep_view()); }
        EnumInfo { def_id: self.def_id, variants: out1 }
    }
}


} // verus!
