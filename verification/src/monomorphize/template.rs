//! Definitions that instances are made from.

use crate::ast::{GenericParam, GenericParamV};
use crate::hir::{DefId, HirType, HirTypeV};
use crate::table::Key;
use crate::tyhir::{TyHirBody, TyHirBodyV, TyHirField, TyHirFieldV, TyHirParam, TyHirParamV};
use vstd::prelude::*;

verus! {

/// The key of an instance: its template, its type arguments and its constant
/// arguments.
#[derive(Debug)]
pub struct MonoKey {
    pub template: DefId,
    pub types: Vec<HirType>,
    pub consts: Vec<i64>,
}

impl DeepView for MonoKey {
    type V = (DefId, Seq<HirTypeV>, Seq<i64>);

    open spec fn deep_view(&self) -> (DefId, Seq<HirTypeV>, Seq<i64>) {
        (self.template, self.types.deep_view(), self.consts.deep_view())
    }
}

/// Whether two lists of integers are equal.
pub fn same_integers(a: &Vec<i64>, b: &Vec<i64>) -> (r: bool)
    ensures
        r == (a.deep_view() == b.deep_view()),
{
    if a.len() != b.len() {
        assert(a.deep_view().len() != b.deep_view().len());
        return false;
    }
    for i in 0..a.len()
        invariant
            a@.len() == b@.len(),
            forall|j: int| 0 <= j < i ==> a@[j] == b@[j],
    {
        if a[i] != b[i] {
            assert(a.deep_view()[i as int] != b.deep_view()[i as int]);
            return false;
        }
    }
    assert(a.deep_view() =~= b.deep_view());
    true
}

impl Key for MonoKey {
    fn same_key(&self, other: &Self) -> (r: bool) {
        self.template == other.template && same_integers(&self.consts, &other.consts)
            && HirType::same_list(&self.types, &other.types)
    }
}

/// A generic function.
#[derive(Debug)]
pub struct FnTemplate {
    pub generics: Vec<GenericParam>,
    pub params: Vec<TyHirParam>,
    pub return_ty: HirType,
    pub body: TyHirBody,
    pub impl_receiver: Option<HirType>,
}

/// Model of [`FnTemplate`].
#[verifier::ext_equal]
pub struct FnTemplateV {
    pub generics: Seq<GenericParamV>,
    pub params: Seq<TyHirParamV>,
    pub return_ty: HirTypeV,
    pub body: TyHirBodyV,
    pub impl_receiver: Option<HirTypeV>,
}

/// The model of a [`FnTemplate`], component by component.
pub open spec fn fn_template_view(e: FnTemplate) -> FnTemplateV {
    FnTemplateV { generics: e.generics.deep_view(), params: e.params.deep_view(), return_ty: e.return_ty.deep_view(), body: e.body.deep_view(), impl_receiver: e.impl_receiver.deep_view() }
}

impl DeepView for FnTemplate {
    type V = FnTemplateV;

    open spec fn deep_view(&self) -> FnTemplateV {
        fn_template_view(*self)
    }
}

impl Clone for FnTemplate {
    fn clone(&self) -> (r: Self)
        ensures
            r.deep_view() == self.deep_view(),
    {
        let mut out1: Vec<GenericParam> = Vec::new();
        for i1 in 0..self.generics.len()
            invariant
                out1@.len() == i1,
                forall|j: int| 0 <= j < i1 ==> #[trigger] out1@[j].deep_view() == self.generics@[j].deep_view(),

        {

            let item = self.generics[i1].clone();
            out1.push(item);
        }
        proof { assert(out1.deep_view() =~= self.generics.deep_view()); }
        let mut out2: Vec<TyHirParam> = Vec::new();
        for i2 in 0..self.params.len()
            invariant
                out2@.len() == i2,
                forall|j: int| 0 <= j < i2 ==> #[trigger] out2@[j].deep_view() == self.params@[j].deep_view(),

        {

            let item = self.params[i2].clone();
            out2.push(item);
        }
        proof { assert(out2.deep_view() =~= self.params.deep_view()); }
        let opt3: Option<HirType> = match &self.impl_receiver {
            Some(x3) => {

                Some(x3.clone())
            }
            None => None,
        };
        FnTemplate { generics: out1, params: out2, return_ty: self.return_ty.clone(), body: self.body.clone(), impl_receiver: opt3 }
    }
}

/// A struct, which may be generic.
#[derive(Debug)]
pub struct StructTemplate {
    pub generics: Vec<GenericParam>,
    pub fields: Vec<TyHirField>,
}

/// Model of [`StructTemplate`].
#[verifier::ext_equal]
pub struct StructTemplateV {
    pub generics: Seq<GenericParamV>,
    pub fields: Seq<TyHirFieldV>,
}

/// The model of a [`StructTemplate`], component by component.
pub open spec fn struct_template_view(e: StructTemplate) -> StructTemplateV {
    StructTemplateV { generics: e.generics.deep_view(), fields: e.fields.deep_view() }
}

impl DeepView for StructTemplate {
    type V = StructTemplateV;

    open spec fn deep_view(&self) -> StructTemplateV {
        struct_template_view(*self)
    }
}

impl Clone for StructTemplate {
    fn clone(&self) -> (r: Self)
        ensures
            r.deep_view() == self.deep_view(),
    {
        let mut out1: Vec<GenericParam> = Vec::new();
        for i1 in 0..self.generics.len()
            invariant
                out1@.len() == i1,
                forall|j: int| 0 <= j < i1 ==> #[trigger] out1@[j].deep_view() == self.generics@[j].deep_view(),

        {

            let item = self.generics[i1].clone();
            out1.push(item);
        }
        proof { assert(out1.deep_view() =~= self.generics.deep_view()); }
        let mut out2: Vec<TyHirField> = Vec::new();
        for i2 in 0..self.fields.len()
            invariant
                out2@.len() == i2,
                forall|j: int| 0 <= j < i2 ==> #[trigger] out2@[j].deep_view() == self.fields@[j].deep_view(),

        {

            let item = self.fields[i2].clone();
            out2.push(item);
        }
        proof { assert(out2.deep_view() =~= self.fields.deep_view()); }
        StructTemplate { generics: out1, fields: out2 }
    }
}


} // verus!
