//! Loaded sources and trait contracts.

use crate::ast::{
    CompilationUnit, CompilationUnitV, Param, ParamV, Stmt, StmtV, TraitMethod, TraitMethodV, Type,
    TypeV,
};
use crate::list::empty_list;
use vstd::prelude::*;

verus! {

/// The files that the module declarations of a source file bring in.
#[derive(Debug, PartialEq, Eq)]
pub struct SourceTree {
    pub units: Vec<Option<SourceUnit>>,
}

/// Model of [`SourceTree`].
#[verifier::ext_equal]
pub struct SourceTreeV {
    pub units: Seq<Option<SourceUnitV>>,
}

/// The model of a [`SourceTree`], component by component.
#[verifier::opaque]
pub open spec fn source_tree_view(e: SourceTree) -> SourceTreeV
    decreases e,
{
    SourceTreeV { units: Seq::new(
            e.units@.len(),
            |i: int|
            if 0 <= i < e.units@.len() { match e.units@[i] {
                    Some(x1) => Some(source_unit_view(x1)),
                    None => None,
                } } else { arbitrary() },
        ) }
}

impl DeepView for SourceTree {
    type V = SourceTreeV;

    open spec fn deep_view(&self) -> SourceTreeV {
        source_tree_view(*self)
    }
}

/// Unfolds the model of a [`SourceTree`] by one level.
pub proof fn lemma_source_tree_view(e: SourceTree)
    ensures
        e.deep_view() == (SourceTreeV { units: e.units.deep_view() }),
{
    reveal(source_tree_view);
    reveal(source_unit_view);
    assert(source_tree_view(e).units =~= e.units.deep_view());
}

impl Clone for SourceTree {
    fn clone(&self) -> (r: Self)
        ensures
            r.deep_view() == self.deep_view(),
        decreases self,
    {
        proof { lemma_source_tree_view(*self); }
        let mut out1: Vec<Option<SourceUnit>> = Vec::new();
        for i1 in 0..self.units.len()
            invariant
                out1@.len() == i1,
                forall|j: int| 0 <= j < i1 ==> #[trigger] out1@[j].deep_view() == self.units@[j].deep_view(),
                decreases_to!(self => self.units),
        {
            let opt2: Option<SourceUnit> = match &self.units[i1] {
                Some(x2) => {

                    Some(x2.clone())
                }
                None => None,
            };
            let item = opt2;
            out1.push(item);
        }
        proof { assert(out1.deep_view() =~= self.units.deep_view()); }
        let r = SourceTree { units: out1 };
        proof { lemma_source_tree_view(r); }
        r
    }
}

/// A loaded source file, with the files that it brings in itself.
#[derive(Debug, PartialEq, Eq)]
pub struct SourceUnit {
    pub unit: CompilationUnit,
    pub children: SourceTree,
}

/// Model of [`SourceUnit`].
#[verifier::ext_equal]
pub struct SourceUnitV {
    pub unit: CompilationUnitV,
    pub children: SourceTreeV,
}

/// The model of a [`SourceUnit`], component by component.
#[verifier::opaque]
pub open spec fn source_unit_view(e: SourceUnit) -> SourceUnitV
    decreases e,
{
    SourceUnitV { unit: e.unit.deep_view(), children: source_tree_view(e.children) }
}

impl DeepView for SourceUnit {
    type V = SourceUnitV;

    open spec fn deep_view(&self) -> SourceUnitV {
        source_unit_view(*self)
    }
}

/// Unfolds the model of a [`SourceUnit`] by one level.
pub proof fn lemma_source_unit_view(e: SourceUnit)
    ensures
        e.deep_view() == (
            SourceUnitV { unit: e.unit.deep_view(), children: e.children.deep_view() }
        ),
{
    reveal(source_tree_view);
    reveal(source_unit_view);
}

impl Clone for SourceUnit {
    fn clone(&self) -> (r: Self)
        ensures
            r.deep_view() == self.deep_view(),
        decreases self,
    {
        proof { lemma_source_unit_view(*self); }

        let r = SourceUnit { unit: self.unit.clone(), children: self.children.clone() };
        proof { lemma_source_unit_view(r); }
        r
    }
}

/// What a trait says about one of its methods.
#[derive(Debug, PartialEq, Eq)]
pub struct TraitMethodInfo {
    pub name: String,
    pub params: Vec<Param>,
    pub return_ty: Type,
    pub default_body: Option<Vec<Stmt>>,
    pub is_static: bool,
}

/// Model of [`TraitMethodInfo`].
#[verifier::ext_equal]
pub struct TraitMethodInfoV {
    pub name: Seq<char>,
    pub params: Seq<ParamV>,
    pub return_ty: TypeV,
    pub default_body: Option<Seq<StmtV>>,
    pub is_static: bool,
}

/// The model of a [`TraitMethodInfo`], component by component.
pub open spec fn trait_method_info_view(e: TraitMethodInfo) -> TraitMethodInfoV {
    TraitMethodInfoV { name: e.name@, params: e.params.deep_view(), return_ty: e.return_ty.deep_view(), default_body: e.default_body.deep_view(), is_static: e.is_static }
}

impl DeepView for TraitMethodInfo {
    type V = TraitMethodInfoV;

    open spec fn deep_view(&self) -> TraitMethodInfoV {
        trait_method_info_view(*self)
    }
}

impl Clone for TraitMethodInfo {
    fn clone(&self) -> (r: Self)
        ensures
            r.deep_view() == self.deep_view(),
    {
        let mut out1: Vec<Param> = Vec::new();
        for i1 in 0..self.params.len()
            invariant
                out1@.len() == i1,
                forall|j: int| 0 <= j < i1 ==> #[trigger] out1@[j].deep_view() == self.params@[j].deep_view(),

        {

            let item = self.params[i1].clone();
            out1.push(item);
        }
        proof { assert(out1.deep_view() =~= self.params.deep_view()); }
        let opt2: Option<Vec<Stmt>> = match &self.default_body {
            Some(x2) => {
                let mut out3: Vec<Stmt> = Vec::new();
                for i3 in 0..x2.len()
                    invariant
                        out3@.len() == i3,
                        forall|j: int| 0 <= j < i3 ==> #[trigger] out3@[j].deep_view() == x2@[j].deep_view(),

                {

                    let item = x2[i3].clone();
                    out3.push(item);
                }
                proof { assert(out3.deep_view() =~= x2.deep_view()); }
                Some(out3)
            }
            None => None,
        };
        TraitMethodInfo { name: self.name.clone(), params: out1, return_ty: self.return_ty.clone(), default_body: opt2, is_static: self.is_static }
    }
}


/// The contract of a trait method.
pub open spec fn contract_of(m: TraitMethodV) -> TraitMethodInfoV {
    TraitMethodInfoV {
        name: m.name,
        params: m.params,
        return_ty: m.return_ty,
        default_body: m.default_body,
        is_static: m.is_static,
    }
}

/// The contracts of the methods of a trait.
pub fn contracts(methods: &Vec<TraitMethod>) -> (r: Vec<TraitMethodInfo>)
    ensures
        r.deep_view() == methods.deep_view().map_values(|m: TraitMethodV| contract_of(m)),
{
    let mut out: Vec<TraitMethodInfo> = empty_list();
    for i in 0..methods.len()
        invariant
            out@.len() == i,
            forall|j: int|
                0 <= j < i ==> #[trigger] out@[j].deep_view() == contract_of(
                    methods@[j].deep_view(),
                ),
    {
        let m = methods[i].clone();
        out.push(
            TraitMethodInfo {
                name: m.name,
                params: m.params,
                return_ty: m.return_ty,
                default_body: m.default_body,
                is_static: m.is_static,
            },
        );
    }
    assert(out.deep_view() =~= methods.deep_view().map_values(|m: TraitMethodV| contract_of(m)));
    out
}

} // verus!
