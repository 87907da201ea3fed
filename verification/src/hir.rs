//! The resolved representation: every value, function and type name is a
//! [`DefId`]. Field and method names are still text; what they mean depends on
//! types.

use crate::ast::{BinOp, GenericParam, GenericParamV, Literal, LiteralV, Meta, MetaV};
use crate::text::{
    cat2, cat3, cat4, decimal, signed_decimal, usize_string, decimal_string, i64_string,
};
use vstd::prelude::*;
use vstd::string::*;

verus! {

/// The identity of a definition: a function, a struct, a field, a variable.
#[derive(Debug, Clone, Copy, PartialEq, Eq, Hash, Structural)]
pub struct DefId(pub u32);

impl DeepView for DefId {
    type V = DefId;

    open spec fn deep_view(&self) -> DefId {
        *self
    }
}

/// The visibility of an item. The language has no syntax for it: all items are public.
#[derive(Debug, Clone, Copy, PartialEq, Eq, Structural)]
pub enum Visibility {
    Public,
    Crate,
    Private,
}

impl DeepView for Visibility {
    type V = Visibility;

    open spec fn deep_view(&self) -> Visibility {
        *self
    }
}

/// A constant generic argument: an integer, or a constant parameter by its index.
#[derive(Debug, Clone, Copy, PartialEq, Eq, Hash, Structural)]
pub enum ConstArg {
    Literal(i64),
    Param(usize),
}

impl DeepView for ConstArg {
    type V = ConstArg;

    open spec fn deep_view(&self) -> ConstArg {
        *self
    }
}

/// The length of an array.
#[derive(Debug, Clone, Copy, PartialEq, Eq, Hash, Structural)]
pub enum ArrayLen {
    Known(usize),
    /// A constant parameter, by its index.
    Const(usize),
}

impl DeepView for ArrayLen {
    type V = ArrayLen;

    open spec fn deep_view(&self) -> ArrayLen {
        *self
    }
}

/// The kind of a parameter.
#[derive(Debug, Clone, Copy, PartialEq, Eq, Structural)]
pub enum ParamKind {
    Value,
    TypeParam(usize),
    ConstParam(usize),
}

impl DeepView for ParamKind {
    type V = ParamKind;

    open spec fn deep_view(&self) -> ParamKind {
        *self
    }
}

/// A type with its names resolved. The typed representation uses the same type.
#[derive(Debug, PartialEq, Eq, Hash)]
pub enum HirType {
    Int,
    Char,
    Pointer(Box<HirType>),
    Unit,
    Named(DefId),
    Array(Box<HirType>, ArrayLen),
    Var(usize),
    Generic(DefId, Vec<HirType>, Vec<ConstArg>),
    Enum(DefId, Vec<HirType>, Vec<ConstArg>),
    TraitObject(DefId),
}

/// Model of [`HirType`].
#[verifier::ext_equal]
pub enum HirTypeV {
    Int,
    Char,
    Pointer(Box<HirTypeV>),
    Unit,
    Named(DefId),
    Array(Box<HirTypeV>, ArrayLen),
    Var(usize),
    Generic(DefId, Seq<HirTypeV>, Seq<ConstArg>),
    Enum(DefId, Seq<HirTypeV>, Seq<ConstArg>),
    TraitObject(DefId),
}

/// The model of a [`HirType`], component by component.
#[verifier::opaque]
pub open spec fn hir_type_view(e: HirType) -> HirTypeV
    decreases e,
{
    match e {
        HirType::Int => HirTypeV::Int,
        HirType::Char => HirTypeV::Char,
        HirType::Pointer(f0) => HirTypeV::Pointer(Box::new(hir_type_view(*f0))),
        HirType::Unit => HirTypeV::Unit,
        HirType::Named(f0) => HirTypeV::Named(f0),
        HirType::Array(f0, f1) => HirTypeV::Array(Box::new(hir_type_view(*f0)), f1),
        HirType::Var(f0) => HirTypeV::Var(f0),
        HirType::Generic(f0, f1, f2) => HirTypeV::Generic(f0, Seq::new(
                f1@.len(),
                |i: int|
                if 0 <= i < f1@.len() { hir_type_view(f1@[i]) } else { arbitrary() },
            ), f2.deep_view()),
        HirType::Enum(f0, f1, f2) => HirTypeV::Enum(f0, Seq::new(
                f1@.len(),
                |i: int|
                if 0 <= i < f1@.len() { hir_type_view(f1@[i]) } else { arbitrary() },
            ), f2.deep_view()),
        HirType::TraitObject(f0) => HirTypeV::TraitObject(f0),
    }
}

impl DeepView for HirType {
    type V = HirTypeV;

    open spec fn deep_view(&self) -> HirTypeV {
        hir_type_view(*self)
    }
}

/// Unfolds the model of a [`HirType`] by one level.
pub proof fn lemma_hir_type_view(e: HirType)
    ensures
        e.deep_view() == (match e {
                HirType::Int => HirTypeV::Int,
                HirType::Char => HirTypeV::Char,
                HirType::Pointer(f0) => HirTypeV::Pointer(Box::new((*f0).deep_view())),
                HirType::Unit => HirTypeV::Unit,
                HirType::Named(f0) => HirTypeV::Named(f0),
                HirType::Array(f0, f1) => HirTypeV::Array(Box::new((*f0).deep_view()), f1),
                HirType::Var(f0) => HirTypeV::Var(f0),
                HirType::Generic(f0, f1, f2) => HirTypeV::Generic(
                    f0,
                    f1.deep_view(),
                    f2.deep_view(),
                ),
                HirType::Enum(f0, f1, f2) => HirTypeV::Enum(f0, f1.deep_view(), f2.deep_view()),
                HirType::TraitObject(f0) => HirTypeV::TraitObject(f0),
        }),
{
    reveal(hir_type_view);
    match e {
        HirType::Generic(f0, f1, f2) => {
            assert(hir_type_view(e)->Generic_1 =~= f1.deep_view());
        }
        HirType::Enum(f0, f1, f2) => {
            assert(hir_type_view(e)->Enum_1 =~= f1.deep_view());
        }
        _ => {}
    }
}

impl Clone for HirType {
    fn clone(&self) -> (r: Self)
        ensures
            r.deep_view() == self.deep_view(),
        decreases self,
    {
        proof { lemma_hir_type_view(*self); }
        match self {
            HirType::Int => {

                let r = HirType::Int;
                proof { lemma_hir_type_view(r); }
                r
            }
            HirType::Char => {

                let r = HirType::Char;
                proof { lemma_hir_type_view(r); }
                r
            }
            HirType::Pointer(f0) => {

                let r = HirType::Pointer(Box::new((&**f0).clone()));
                proof { lemma_hir_type_view(r); }
                r
            }
            HirType::Unit => {

                let r = HirType::Unit;
                proof { lemma_hir_type_view(r); }
                r
            }
            HirType::Named(f0) => {

                let r = HirType::Named(*f0);
                proof { lemma_hir_type_view(r); }
                r
            }
            HirType::Array(f0, f1) => {

                let r = HirType::Array(Box::new((&**f0).clone()), *f1);
                proof { lemma_hir_type_view(r); }
                r
            }
            HirType::Var(f0) => {

                let r = HirType::Var(*f0);
                proof { lemma_hir_type_view(r); }
                r
            }
            HirType::Generic(f0, f1, f2) => {
                let mut out1: Vec<HirType> = Vec::new();
                for i1 in 0..f1.len()
                    invariant
                        out1@.len() == i1,
                        forall|j: int| 0 <= j < i1 ==> #[trigger] out1@[j].deep_view() == f1@[j].deep_view(),
                        decreases_to!(self => f1),
                {

                    let item = f1[i1].clone();
                    out1.push(item);
                }
                proof { assert(out1.deep_view() =~= f1.deep_view()); }
                let mut out2: Vec<ConstArg> = Vec::new();
                for i2 in 0..f2.len()
                    invariant
                        out2@.len() == i2,
                        forall|j: int| 0 <= j < i2 ==> #[trigger] out2@[j].deep_view() == f2@[j].deep_view(),

                {

                    let item = f2[i2];
                    out2.push(item);
                }
                proof { assert(out2.deep_view() =~= f2.deep_view()); }
                let r = HirType::Generic(*f0, out1, out2);
                proof { lemma_hir_type_view(r); }
                r
            }
            HirType::Enum(f0, f1, f2) => {
                let mut out3: Vec<HirType> = Vec::new();
                for i3 in 0..f1.len()
                    invariant
                        out3@.len() == i3,
                        forall|j: int| 0 <= j < i3 ==> #[trigger] out3@[j].deep_view() == f1@[j].deep_view(),
                        decreases_to!(self => f1),
                {

                    let item = f1[i3].clone();
                    out3.push(item);
                }
                proof { assert(out3.deep_view() =~= f1.deep_view()); }
                let mut out4: Vec<ConstArg> = Vec::new();
                for i4 in 0..f2.len()
                    invariant
                        out4@.len() == i4,
                        forall|j: int| 0 <= j < i4 ==> #[trigger] out4@[j].deep_view() == f2@[j].deep_view(),

                {

                    let item = f2[i4];
                    out4.push(item);
                }
                proof { assert(out4.deep_view() =~= f2.deep_view()); }
                let r = HirType::Enum(*f0, out3, out4);
                proof { lemma_hir_type_view(r); }
                r
            }
            HirType::TraitObject(f0) => {

                let r = HirType::TraitObject(*f0);
                proof { lemma_hir_type_view(r); }
                r
            }
        }
    }
}

/// An explicit generic argument.
#[derive(Debug, PartialEq, Eq, Hash)]
pub enum TypeOrConst {
    Type(HirType),
    Const(i64),
    ConstParam(usize),
}

/// Model of [`TypeOrConst`].
#[verifier::ext_equal]
pub enum TypeOrConstV {
    Type(HirTypeV),
    Const(i64),
    ConstParam(usize),
}

/// The model of a [`TypeOrConst`], component by component.
pub open spec fn type_or_const_view(e: TypeOrConst) -> TypeOrConstV {
    match e {
        TypeOrConst::Type(f0) => TypeOrConstV::Type(f0.deep_view()),
        TypeOrConst::Const(f0) => TypeOrConstV::Const(f0),
        TypeOrConst::ConstParam(f0) => TypeOrConstV::ConstParam(f0),
    }
}

impl DeepView for TypeOrConst {
    type V = TypeOrConstV;

    open spec fn deep_view(&self) -> TypeOrConstV {
        type_or_const_view(*self)
    }
}

impl Clone for TypeOrConst {
    fn clone(&self) -> (r: Self)
        ensures
            r.deep_view() == self.deep_view(),
    {
        match self {
            TypeOrConst::Type(f0) => {

                TypeOrConst::Type(f0.clone())
            }
            TypeOrConst::Const(f0) => {

                TypeOrConst::Const(*f0)
            }
            TypeOrConst::ConstParam(f0) => {

                TypeOrConst::ConstParam(*f0)
            }
        }
    }
}

/// A parameter of a function.
#[derive(Debug, PartialEq, Eq)]
pub struct HirParam {
    pub def_id: DefId,
    pub name: String,
    pub ty: HirType,
    pub kind: ParamKind,
}

/// Model of [`HirParam`].
#[verifier::ext_equal]
pub struct HirParamV {
    pub def_id: DefId,
    pub name: Seq<char>,
    pub ty: HirTypeV,
    pub kind: ParamKind,
}

/// The model of a [`HirParam`], component by component.
pub open spec fn hir_param_view(e: HirParam) -> HirParamV {
    HirParamV { def_id: e.def_id, name: e.name@, ty: e.ty.deep_view(), kind: e.kind }
}

impl DeepView for HirParam {
    type V = HirParamV;

    open spec fn deep_view(&self) -> HirParamV {
        hir_param_view(*self)
    }
}

impl Clone for HirParam {
    fn clone(&self) -> (r: Self)
        ensures
            r.deep_view() == self.deep_view(),
    {

        HirParam { def_id: self.def_id, name: self.name.clone(), ty: self.ty.clone(), kind: self.kind }
    }
}

/// A field of a struct or of an enumeration variant.
#[derive(Debug, PartialEq, Eq)]
pub struct HirField {
    pub def_id: DefId,
    pub name: String,
    pub ty: HirType,
    pub visibility: Visibility,
}

/// Model of [`HirField`].
#[verifier::ext_equal]
pub struct HirFieldV {
    pub def_id: DefId,
    pub name: Seq<char>,
    pub ty: HirTypeV,
    pub visibility: Visibility,
}

/// The model of a [`HirField`], component by component.
pub open spec fn hir_field_view(e: HirField) -> HirFieldV {
    HirFieldV { def_id: e.def_id, name: e.name@, ty: e.ty.deep_view(), visibility: e.visibility }
}

impl DeepView for HirField {
    type V = HirFieldV;

    open spec fn deep_view(&self) -> HirFieldV {
        hir_field_view(*self)
    }
}

impl Clone for HirField {
    fn clone(&self) -> (r: Self)
        ensures
            r.deep_view() == self.deep_view(),
    {

        HirField { def_id: self.def_id, name: self.name.clone(), ty: self.ty.clone(), visibility: self.visibility }
    }
}

/// A variant of an enumeration.
#[derive(Debug, PartialEq, Eq)]
pub struct HirEnumVariant {
    pub def_id: DefId,
    pub name: String,
    pub tag: u32,
    pub fields: Vec<HirField>,
}

/// Model of [`HirEnumVariant`].
#[verifier::ext_equal]
pub struct HirEnumVariantV {
    pub def_id: DefId,
    pub name: Seq<char>,
    pub tag: u32,
    pub fields: Seq<HirFieldV>,
}

/// The model of a [`HirEnumVariant`], component by component.
pub open spec fn hir_enum_variant_view(e: HirEnumVariant) -> HirEnumVariantV {
    HirEnumVariantV { def_id: e.def_id, name: e.name@, tag: e.tag, fields: e.fields.deep_view() }
}

impl DeepView for HirEnumVariant {
    type V = HirEnumVariantV;

    open spec fn deep_view(&self) -> HirEnumVariantV {
        hir_enum_variant_view(*self)
    }
}

impl Clone for HirEnumVariant {
    fn clone(&self) -> (r: Self)
        ensures
            r.deep_view() == self.deep_view(),
    {
        let mut out1: Vec<HirField> = Vec::new();
        for i1 in 0..self.fields.len()
            invariant
                out1@.len() == i1,
                forall|j: int| 0 <= j < i1 ==> #[trigger] out1@[j].deep_view() == self.fields@[j].deep_view(),

        {

            let item = self.fields[i1].clone();
            out1.push(item);
        }
        proof { assert(out1.deep_view() =~= self.fields.deep_view()); }
        HirEnumVariant { def_id: self.def_id, name: self.name.clone(), tag: self.tag, fields: out1 }
    }
}

/// The pattern of a match arm.
#[derive(Debug, PartialEq, Eq)]
pub enum HirPattern {
    Variant {
        enum_def: DefId,
        variant: String,
        bindings: Vec<(DefId, Option<HirType>)>,
    },
    Literal(Literal),
    Wildcard,
    Ident(DefId),
}

/// Model of [`HirPattern`].
#[verifier::ext_equal]
pub enum HirPatternV {
    Variant {
        enum_def: DefId,
        variant: Seq<char>,
        bindings: Seq<(DefId, Option<HirTypeV>)>,
    },
    Literal(LiteralV),
    Wildcard,
    Ident(DefId),
}

/// The model of a [`HirPattern`], component by component.
pub open spec fn hir_pattern_view(e: HirPattern) -> HirPatternV {
    match e {
        HirPattern::Variant { enum_def, variant, bindings } => HirPatternV::Variant { enum_def, variant: variant@, bindings: bindings.deep_view() },
        HirPattern::Literal(f0) => HirPatternV::Literal(f0.deep_view()),
        HirPattern::Wildcard => HirPatternV::Wildcard,
        HirPattern::Ident(f0) => HirPatternV::Ident(f0),
    }
}

impl DeepView for HirPattern {
    type V = HirPatternV;

    open spec fn deep_view(&self) -> HirPatternV {
        hir_pattern_view(*self)
    }
}

impl Clone for HirPattern {
    fn clone(&self) -> (r: Self)
        ensures
            r.deep_view() == self.deep_view(),
    {
        match self {
            HirPattern::Variant { enum_def, variant, bindings } => {
                let mut out1: Vec<(DefId, Option<HirType>)> = Vec::new();
                for i1 in 0..bindings.len()
                    invariant
                        out1@.len() == i1,
                        forall|j: int| 0 <= j < i1 ==> #[trigger] out1@[j].deep_view() == bindings@[j].deep_view(),

                {
                    let opt3: Option<HirType> = match &bindings[i1].1 {
                        Some(x3) => {

                            Some(x3.clone())
                        }
                        None => None,
                    };
                    let item = (bindings[i1].0, opt3);
                    out1.push(item);
                }
                proof { assert(out1.deep_view() =~= bindings.deep_view()); }
                HirPattern::Variant { enum_def: *enum_def, variant: variant.clone(), bindings: out1 }
            }
            HirPattern::Literal(f0) => {

                HirPattern::Literal(f0.clone())
            }
            HirPattern::Wildcard => {

                HirPattern::Wildcard
            }
            HirPattern::Ident(f0) => {

                HirPattern::Ident(*f0)
            }
        }
    }
}

/// An arm of a `match` expression.
#[derive(Debug, PartialEq, Eq)]
pub struct HirMatchArm {
    pub pattern: HirPattern,
    pub body: HirBody,
}

/// Model of [`HirMatchArm`].
#[verifier::ext_equal]
pub struct HirMatchArmV {
    pub pattern: HirPatternV,
    pub body: HirBodyV,
}

/// The model of a [`HirMatchArm`], component by component.
#[verifier::opaque]
pub open spec fn hir_match_arm_view(e: HirMatchArm) -> HirMatchArmV
    decreases e,
{
    HirMatchArmV { pattern: e.pattern.deep_view(), body: hir_body_view(e.body) }
}

impl DeepView for HirMatchArm {
    type V = HirMatchArmV;

    open spec fn deep_view(&self) -> HirMatchArmV {
        hir_match_arm_view(*self)
    }
}

/// Unfolds the model of a [`HirMatchArm`] by one level.
pub proof fn lemma_hir_match_arm_view(e: HirMatchArm)
    ensures
        e.deep_view() == (
            HirMatchArmV { pattern: e.pattern.deep_view(), body: e.body.deep_view() }
        ),
{
    reveal(hir_match_arm_view);
    reveal(hir_body_view);
    reveal(hir_stmt_view);
    reveal(hir_expr_view);
}

impl Clone for HirMatchArm {
    fn clone(&self) -> (r: Self)
        ensures
            r.deep_view() == self.deep_view(),
        decreases self,
    {
        proof { lemma_hir_match_arm_view(*self); }

        let r = HirMatchArm { pattern: self.pattern.clone(), body: self.body.clone() };
        proof { lemma_hir_match_arm_view(r); }
        r
    }
}

/// A block of statements.
#[derive(Debug, PartialEq, Eq)]
pub struct HirBody {
    pub stmts: Vec<HirStmt>,
}

/// Model of [`HirBody`].
#[verifier::ext_equal]
pub struct HirBodyV {
    pub stmts: Seq<HirStmtV>,
}

/// The model of a [`HirBody`], component by component.
#[verifier::opaque]
pub open spec fn hir_body_view(e: HirBody) -> HirBodyV
    decreases e,
{
    HirBodyV { stmts: Seq::new(
            e.stmts@.len(),
            |i: int|
            if 0 <= i < e.stmts@.len() { hir_stmt_view(e.stmts@[i]) } else { arbitrary() },
        ) }
}

impl DeepView for HirBody {
    type V = HirBodyV;

    open spec fn deep_view(&self) -> HirBodyV {
        hir_body_view(*self)
    }
}

/// Unfolds the model of a [`HirBody`] by one level.
pub proof fn lemma_hir_body_view(e: HirBody)
    ensures
        e.deep_view() == (HirBodyV { stmts: e.stmts.deep_view() }),
{
    reveal(hir_match_arm_view);
    reveal(hir_body_view);
    reveal(hir_stmt_view);
    reveal(hir_expr_view);
    assert(hir_body_view(e).stmts =~= e.stmts.deep_view());
}

impl Clone for HirBody {
    fn clone(&self) -> (r: Self)
        ensures
            r.deep_view() == self.deep_view(),
        decreases self,
    {
        proof { lemma_hir_body_view(*self); }
        let mut out1: Vec<HirStmt> = Vec::new();
        for i1 in 0..self.stmts.len()
            invariant
                out1@.len() == i1,
                forall|j: int| 0 <= j < i1 ==> #[trigger] out1@[j].deep_view() == self.stmts@[j].deep_view(),
                decreases_to!(self => self.stmts),
        {

            let item = self.stmts[i1].clone();
            out1.push(item);
        }
        proof { assert(out1.deep_view() =~= self.stmts.deep_view()); }
        let r = HirBody { stmts: out1 };
        proof { lemma_hir_body_view(r); }
        r
    }
}

/// A statement.
#[derive(Debug, PartialEq, Eq)]
pub enum HirStmt {
    Let {
        def_id: DefId,
        name: String,
        ty: Option<HirType>,
        init: HirExpr,
    },
    Assign {
        target: HirExpr,
        value: HirExpr,
    },
    Expr(HirExpr),
    If {
        cond: HirExpr,
        then_branch: HirBody,
        else_branch: Option<HirBody>,
    },
    While {
        cond: HirExpr,
        body: HirBody,
    },
    Return(Option<HirExpr>),
}

/// Model of [`HirStmt`].
#[verifier::ext_equal]
pub enum HirStmtV {
    Let {
        def_id: DefId,
        name: Seq<char>,
        ty: Option<HirTypeV>,
        init: HirExprV,
    },
    Assign {
        target: HirExprV,
        value: HirExprV,
    },
    Expr(HirExprV),
    If {
        cond: HirExprV,
        then_branch: HirBodyV,
        else_branch: Option<HirBodyV>,
    },
    While {
        cond: HirExprV,
        body: HirBodyV,
    },
    Return(Option<HirExprV>),
}

/// The model of a [`HirStmt`], component by component.
#[verifier::opaque]
pub open spec fn hir_stmt_view(e: HirStmt) -> HirStmtV
    decreases e,
{
    match e {
        HirStmt::Let { def_id, name, ty, init } => HirStmtV::Let { def_id, name: name@, ty: ty.deep_view(), init: hir_expr_view(init) },
        HirStmt::Assign { target, value } => HirStmtV::Assign { target: hir_expr_view(target), value: hir_expr_view(value) },
        HirStmt::Expr(f0) => HirStmtV::Expr(hir_expr_view(f0)),
        HirStmt::If { cond, then_branch, else_branch } => HirStmtV::If { cond: hir_expr_view(cond), then_branch: hir_body_view(then_branch), else_branch: match else_branch {
                Some(x0) => Some(hir_body_view(x0)),
                None => None,
                }
            },
        HirStmt::While { cond, body } => HirStmtV::While { cond: hir_expr_view(cond), body: hir_body_view(body) },
        HirStmt::Return(f0) => HirStmtV::Return(match f0 {
                Some(x0) => Some(hir_expr_view(x0)),
                None => None,
        }),
    }
}

impl DeepView for HirStmt {
    type V = HirStmtV;

    open spec fn deep_view(&self) -> HirStmtV {
        hir_stmt_view(*self)
    }
}

/// Unfolds the model of a [`HirStmt`] by one level.
pub proof fn lemma_hir_stmt_view(e: HirStmt)
    ensures
        e.deep_view() == (match e {
                HirStmt::Let { def_id, name, ty, init } => HirStmtV::Let { def_id, name: name@, ty: ty.deep_view(), init: init.deep_view() },
                HirStmt::Assign { target, value } => HirStmtV::Assign { target: target.deep_view(), value: value.deep_view() },
                HirStmt::Expr(f0) => HirStmtV::Expr(f0.deep_view()),
                HirStmt::If { cond, then_branch, else_branch } => HirStmtV::If { cond: cond.deep_view(), then_branch: then_branch.deep_view(), else_branch: else_branch.deep_view() },
                HirStmt::While { cond, body } => HirStmtV::While { cond: cond.deep_view(), body: body.deep_view() },
                HirStmt::Return(f0) => HirStmtV::Return(f0.deep_view()),
        }),
{
    reveal(hir_match_arm_view);
    reveal(hir_body_view);
    reveal(hir_stmt_view);
    reveal(hir_expr_view);
}

impl Clone for HirStmt {
    fn clone(&self) -> (r: Self)
        ensures
            r.deep_view() == self.deep_view(),
        decreases self,
    {
        proof { lemma_hir_stmt_view(*self); }
        match self {
            HirStmt::Let { def_id, name, ty, init } => {
                let opt1: Option<HirType> = match ty {
                    Some(x1) => {

                        Some(x1.clone())
                    }
                    None => None,
                };
                let r = HirStmt::Let { def_id: *def_id, name: name.clone(), ty: opt1, init: init.clone() };
                proof { lemma_hir_stmt_view(r); }
                r
            }
            HirStmt::Assign { target, value } => {

                let r = HirStmt::Assign { target: target.clone(), value: value.clone() };
                proof { lemma_hir_stmt_view(r); }
                r
            }
            HirStmt::Expr(f0) => {

                let r = HirStmt::Expr(f0.clone());
                proof { lemma_hir_stmt_view(r); }
                r
            }
            HirStmt::If { cond, then_branch, else_branch } => {
                let opt2: Option<HirBody> = match else_branch {
                    Some(x2) => {

                        Some(x2.clone())
                    }
                    None => None,
                };
                let r = HirStmt::If { cond: cond.clone(), then_branch: then_branch.clone(), else_branch: opt2 };
                proof { lemma_hir_stmt_view(r); }
                r
            }
            HirStmt::While { cond, body } => {

                let r = HirStmt::While { cond: cond.clone(), body: body.clone() };
                proof { lemma_hir_stmt_view(r); }
                r
            }
            HirStmt::Return(f0) => {
                let opt3: Option<HirExpr> = match f0 {
                    Some(x3) => {

                        Some(x3.clone())
                    }
                    None => None,
                };
                let r = HirStmt::Return(opt3);
                proof { lemma_hir_stmt_view(r); }
                r
            }
        }
    }
}

/// An expression with its value names resolved.
#[derive(Debug, PartialEq, Eq)]
pub enum HirExpr {
    Literal(Literal),
    Path(DefId),
    Binary {
        op: BinOp,
        lhs: Box<HirExpr>,
        rhs: Box<HirExpr>,
    },
    Call {
        callee: DefId,
        args: Vec<HirExpr>,
        turbofish: Vec<TypeOrConst>,
    },
    FieldAccess {
        object: Box<HirExpr>,
        field: String,
    },
    StructLiteral {
        def_id: DefId,
        fields: Vec<(String, HirExpr)>,
        turbofish: Vec<TypeOrConst>,
    },
    ArrayLiteral {
        elements: Vec<HirExpr>,
        repeat: Option<usize>,
    },
    Index {
        array: Box<HirExpr>,
        index: Box<HirExpr>,
    },
    AddressOf(Box<HirExpr>),
    Deref(Box<HirExpr>),
    MethodCall {
        object: Box<HirExpr>,
        name: String,
        args: Vec<HirExpr>,
    },
    Variant {
        def_id: DefId,
        variant: String,
        args: Vec<HirExpr>,
        turbofish: Vec<TypeOrConst>,
    },
    Match {
        scrutinee: Box<HirExpr>,
        arms: Vec<HirMatchArm>,
    },
}

/// Model of [`HirExpr`].
#[verifier::ext_equal]
pub enum HirExprV {
    Literal(LiteralV),
    Path(DefId),
    Binary {
        op: BinOp,
        lhs: Box<HirExprV>,
        rhs: Box<HirExprV>,
    },
    Call {
        callee: DefId,
        args: Seq<HirExprV>,
        turbofish: Seq<TypeOrConstV>,
    },
    FieldAccess {
        object: Box<HirExprV>,
        field: Seq<char>,
    },
    StructLiteral {
        def_id: DefId,
        fields: Seq<(Seq<char>, HirExprV)>,
        turbofish: Seq<TypeOrConstV>,
    },
    ArrayLiteral {
        elements: Seq<HirExprV>,
        repeat: Option<usize>,
    },
    Index {
        array: Box<HirExprV>,
        index: Box<HirExprV>,
    },
    AddressOf(Box<HirExprV>),
    Deref(Box<HirExprV>),
    MethodCall {
        object: Box<HirExprV>,
        name: Seq<char>,
        args: Seq<HirExprV>,
    },
    Variant {
        def_id: DefId,
        variant: Seq<char>,
        args: Seq<HirExprV>,
        turbofish: Seq<TypeOrConstV>,
    },
    Match {
        scrutinee: Box<HirExprV>,
        arms: Seq<HirMatchArmV>,
    },
}

/// The model of a [`HirExpr`], component by component.
#[verifier::opaque]
pub open spec fn hir_expr_view(e: HirExpr) -> HirExprV
    decreases e,
{
    match e {
        HirExpr::Literal(f0) => HirExprV::Literal(f0.deep_view()),
        HirExpr::Path(f0) => HirExprV::Path(f0),
        HirExpr::Binary { op, lhs, rhs } => HirExprV::Binary { op, lhs: Box::new(hir_expr_view(*lhs)), rhs: Box::new(hir_expr_view(*rhs)) },
        HirExpr::Call { callee, args, turbofish } => HirExprV::Call { callee, args: Seq::new(
                args@.len(),
                |i: int|
                if 0 <= i < args@.len() { hir_expr_view(args@[i]) } else { arbitrary() },
            ), turbofish: turbofish.deep_view() },
        HirExpr::FieldAccess { object, field } => HirExprV::FieldAccess { object: Box::new(hir_expr_view(*object)), field: field@ },
        HirExpr::StructLiteral { def_id, fields, turbofish } => HirExprV::StructLiteral { def_id, fields: Seq::new(
                fields@.len(),
                |i: int|
                if 0 <= i < fields@.len() { (fields@[i].0@, hir_expr_view(fields@[i].1)) } else { arbitrary() },
            ), turbofish: turbofish.deep_view() },
        HirExpr::ArrayLiteral { elements, repeat } => HirExprV::ArrayLiteral { elements: Seq::new(
                elements@.len(),
                |i: int|
                if 0 <= i < elements@.len() { hir_expr_view(elements@[i]) } else { arbitrary() },
            ), repeat: repeat.deep_view() },
        HirExpr::Index { array, index } => HirExprV::Index { array: Box::new(hir_expr_view(*array)), index: Box::new(hir_expr_view(*index)) },
        HirExpr::AddressOf(f0) => HirExprV::AddressOf(Box::new(hir_expr_view(*f0))),
        HirExpr::Deref(f0) => HirExprV::Deref(Box::new(hir_expr_view(*f0))),
        HirExpr::MethodCall { object, name, args } => HirExprV::MethodCall { object: Box::new(hir_expr_view(*object)), name: name@, args: Seq::new(
                args@.len(),
                |i: int|
                if 0 <= i < args@.len() { hir_expr_view(args@[i]) } else { arbitrary() },
            ) },
        HirExpr::Variant { def_id, variant, args, turbofish } => HirExprV::Variant { def_id, variant: variant@, args: Seq::new(
                args@.len(),
                |i: int|
                if 0 <= i < args@.len() { hir_expr_view(args@[i]) } else { arbitrary() },
            ), turbofish: turbofish.deep_view() },
        HirExpr::Match { scrutinee, arms } => HirExprV::Match { scrutinee: Box::new(hir_expr_view(*scrutinee)), arms: Seq::new(
                arms@.len(),
                |i: int|
                if 0 <= i < arms@.len() { hir_match_arm_view(arms@[i]) } else { arbitrary() },
            ) },
    }
}

impl DeepView for HirExpr {
    type V = HirExprV;

    open spec fn deep_view(&self) -> HirExprV {
        hir_expr_view(*self)
    }
}

/// Unfolds the model of a [`HirExpr`] by one level.
pub proof fn lemma_hir_expr_view(e: HirExpr)
    ensures
        e.deep_view() == (match e {
                HirExpr::Literal(f0) => HirExprV::Literal(f0.deep_view()),
                HirExpr::Path(f0) => HirExprV::Path(f0),
                HirExpr::Binary { op, lhs, rhs } => HirExprV::Binary { op, lhs: Box::new((*lhs).deep_view()), rhs: Box::new((*rhs).deep_view()) },
                HirExpr::Call { callee, args, turbofish } => HirExprV::Call { callee, args: args.deep_view(), turbofish: turbofish.deep_view() },
                HirExpr::FieldAccess { object, field } => HirExprV::FieldAccess { object: Box::new((*object).deep_view()), field: field@ },
                HirExpr::StructLiteral { def_id, fields, turbofish } => HirExprV::StructLiteral { def_id, fields: fields.deep_view(), turbofish: turbofish.deep_view() },
                HirExpr::ArrayLiteral { elements, repeat } => HirExprV::ArrayLiteral { elements: elements.deep_view(), repeat: repeat.deep_view() },
                HirExpr::Index { array, index } => HirExprV::Index { array: Box::new((*array).deep_view()), index: Box::new((*index).deep_view()) },
                HirExpr::AddressOf(f0) => HirExprV::AddressOf(Box::new((*f0).deep_view())),
                HirExpr::Deref(f0) => HirExprV::Deref(Box::new((*f0).deep_view())),
                HirExpr::MethodCall { object, name, args } => HirExprV::MethodCall { object: Box::new((*object).deep_view()), name: name@, args: args.deep_view() },
                HirExpr::Variant { def_id, variant, args, turbofish } => HirExprV::Variant { def_id, variant: variant@, args: args.deep_view(), turbofish: turbofish.deep_view() },
                HirExpr::Match { scrutinee, arms } => HirExprV::Match { scrutinee: Box::new((*scrutinee).deep_view()), arms: arms.deep_view() },
        }),
{
    reveal(hir_match_arm_view);
    reveal(hir_body_view);
    reveal(hir_stmt_view);
    reveal(hir_expr_view);
    match e {
        HirExpr::Call { callee, args, turbofish } => {
            assert(hir_expr_view(e)->Call_args =~= args.deep_view());
        }
        HirExpr::StructLiteral { def_id, fields, turbofish } => {
            assert(hir_expr_view(e)->StructLiteral_fields =~= fields.deep_view());
        }
        HirExpr::ArrayLiteral { elements, repeat } => {
            assert(hir_expr_view(e)->ArrayLiteral_elements =~= elements.deep_view());
        }
        HirExpr::MethodCall { object, name, args } => {
            assert(hir_expr_view(e)->MethodCall_args =~= args.deep_view());
        }
        HirExpr::Variant { def_id, variant, args, turbofish } => {
            assert(hir_expr_view(e)->Variant_args =~= args.deep_view());
        }
        HirExpr::Match { scrutinee, arms } => {
            assert(hir_expr_view(e)->Match_arms =~= arms.deep_view());
        }
        _ => {}
    }
}

impl Clone for HirExpr {
    fn clone(&self) -> (r: Self)
        ensures
            r.deep_view() == self.deep_view(),
        decreases self,
    {
        proof { lemma_hir_expr_view(*self); }
        match self {
            HirExpr::Literal(f0) => {

                let r = HirExpr::Literal(f0.clone());
                proof { lemma_hir_expr_view(r); }
                r
            }
            HirExpr::Path(f0) => {

                let r = HirExpr::Path(*f0);
                proof { lemma_hir_expr_view(r); }
                r
            }
            HirExpr::Binary { op, lhs, rhs } => {

                let r = HirExpr::Binary { op: *op, lhs: Box::new((&**lhs).clone()), rhs: Box::new((&**rhs).clone()) };
                proof { lemma_hir_expr_view(r); }
                r
            }
            HirExpr::Call { callee, args, turbofish } => {
                let mut out1: Vec<HirExpr> = Vec::new();
                for i1 in 0..args.len()
                    invariant
                        out1@.len() == i1,
                        forall|j: int| 0 <= j < i1 ==> #[trigger] out1@[j].deep_view() == args@[j].deep_view(),
                        decreases_to!(self => args),
                {

                    let item = args[i1].clone();
                    out1.push(item);
                }
                proof { assert(out1.deep_view() =~= args.deep_view()); }
                let mut out2: Vec<TypeOrConst> = Vec::new();
                for i2 in 0..turbofish.len()
                    invariant
                        out2@.len() == i2,
                        forall|j: int| 0 <= j < i2 ==> #[trigger] out2@[j].deep_view() == turbofish@[j].deep_view(),

                {

                    let item = turbofish[i2].clone();
                    out2.push(item);
                }
                proof { assert(out2.deep_view() =~= turbofish.deep_view()); }
                let r = HirExpr::Call { callee: *callee, args: out1, turbofish: out2 };
                proof { lemma_hir_expr_view(r); }
                r
            }
            HirExpr::FieldAccess { object, field } => {

                let r = HirExpr::FieldAccess { object: Box::new((&**object).clone()), field: field.clone() };
                proof { lemma_hir_expr_view(r); }
                r
            }
            HirExpr::StructLiteral { def_id, fields, turbofish } => {
                let mut out3: Vec<(String, HirExpr)> = Vec::new();
                for i3 in 0..fields.len()
                    invariant
                        out3@.len() == i3,
                        forall|j: int| 0 <= j < i3 ==> #[trigger] out3@[j].deep_view() == fields@[j].deep_view(),
                        decreases_to!(self => fields),
                {

                    let item = (fields[i3].0.clone(), fields[i3].1.clone());
                    out3.push(item);
                }
                proof { assert(out3.deep_view() =~= fields.deep_view()); }
                let mut out5: Vec<TypeOrConst> = Vec::new();
                for i5 in 0..turbofish.len()
                    invariant
                        out5@.len() == i5,
                        forall|j: int| 0 <= j < i5 ==> #[trigger] out5@[j].deep_view() == turbofish@[j].deep_view(),

                {

                    let item = turbofish[i5].clone();
                    out5.push(item);
                }
                proof { assert(out5.deep_view() =~= turbofish.deep_view()); }
                let r = HirExpr::StructLiteral { def_id: *def_id, fields: out3, turbofish: out5 };
                proof { lemma_hir_expr_view(r); }
                r
            }
            HirExpr::ArrayLiteral { elements, repeat } => {
                let mut out6: Vec<HirExpr> = Vec::new();
                for i6 in 0..elements.len()
                    invariant
                        out6@.len() == i6,
                        forall|j: int| 0 <= j < i6 ==> #[trigger] out6@[j].deep_view() == elements@[j].deep_view(),
                        decreases_to!(self => elements),
                {

                    let item = elements[i6].clone();
                    out6.push(item);
                }
                proof { assert(out6.deep_view() =~= elements.deep_view()); }
                let opt7: Option<usize> = match repeat {
                    Some(x7) => {

                        Some(*x7)
                    }
                    None => None,
                };
                let r = HirExpr::ArrayLiteral { elements: out6, repeat: opt7 };
                proof { lemma_hir_expr_view(r); }
                r
            }
            HirExpr::Index { array, index } => {

                let r = HirExpr::Index { array: Box::new((&**array).clone()), index: Box::new((&**index).clone()) };
                proof { lemma_hir_expr_view(r); }
                r
            }
            HirExpr::AddressOf(f0) => {

                let r = HirExpr::AddressOf(Box::new((&**f0).clone()));
                proof { lemma_hir_expr_view(r); }
                r
            }
            HirExpr::Deref(f0) => {

                let r = HirExpr::Deref(Box::new((&**f0).clone()));
                proof { lemma_hir_expr_view(r); }
                r
            }
            HirExpr::MethodCall { object, name, args } => {
                let mut out8: Vec<HirExpr> = Vec::new();
                for i8 in 0..args.len()
                    invariant
                        out8@.len() == i8,
                        forall|j: int| 0 <= j < i8 ==> #[trigger] out8@[j].deep_view() == args@[j].deep_view(),
                        decreases_to!(self => args),
                {

                    let item = args[i8].clone();
                    out8.push(item);
                }
                proof { assert(out8.deep_view() =~= args.deep_view()); }
                let r = HirExpr::MethodCall { object: Box::new((&**object).clone()), name: name.clone(), args: out8 };
                proof { lemma_hir_expr_view(r); }
                r
            }
            HirExpr::Variant { def_id, variant, args, turbofish } => {
                let mut out9: Vec<HirExpr> = Vec::new();
                for i9 in 0..args.len()
                    invariant
                        out9@.len() == i9,
                        forall|j: int| 0 <= j < i9 ==> #[trigger] out9@[j].deep_view() == args@[j].deep_view(),
                        decreases_to!(self => args),
                {

                    let item = args[i9].clone();
                    out9.push(item);
                }
                proof { assert(out9.deep_view() =~= args.deep_view()); }
                let mut out10: Vec<TypeOrConst> = Vec::new();
                for i10 in 0..turbofish.len()
                    invariant
                        out10@.len() == i10,
                        forall|j: int| 0 <= j < i10 ==> #[trigger] out10@[j].deep_view() == turbofish@[j].deep_view(),

                {

                    let item = turbofish[i10].clone();
                    out10.push(item);
                }
                proof { assert(out10.deep_view() =~= turbofish.deep_view()); }
                let r = HirExpr::Variant { def_id: *def_id, variant: variant.clone(), args: out9, turbofish: out10 };
                proof { lemma_hir_expr_view(r); }
                r
            }
            HirExpr::Match { scrutinee, arms } => {
                let mut out11: Vec<HirMatchArm> = Vec::new();
                for i11 in 0..arms.len()
                    invariant
                        out11@.len() == i11,
                        forall|j: int| 0 <= j < i11 ==> #[trigger] out11@[j].deep_view() == arms@[j].deep_view(),
                        decreases_to!(self => arms),
                {

                    let item = arms[i11].clone();
                    out11.push(item);
                }
                proof { assert(out11.deep_view() =~= arms.deep_view()); }
                let r = HirExpr::Match { scrutinee: Box::new((&**scrutinee).clone()), arms: out11 };
                proof { lemma_hir_expr_view(r); }
                r
            }
        }
    }
}

/// An item of a module.
#[derive(Debug, PartialEq, Eq)]
pub enum HirItem {
    Module(HirModule),
    ExternFn {
        def_id: DefId,
        visibility: Visibility,
        attributes: Vec<Meta>,
        link_name: Option<String>,
        name: String,
        param_types: Vec<HirType>,
        return_ty: HirType,
        is_variadic: bool,
    },
    Fn {
        def_id: DefId,
        visibility: Visibility,
        attributes: Vec<Meta>,
        name: String,
        generics: Vec<GenericParam>,
        params: Vec<HirParam>,
        return_ty: HirType,
        body: HirBody,
        impl_receiver: Option<HirType>,
    },
    Struct {
        def_id: DefId,
        visibility: Visibility,
        attributes: Vec<Meta>,
        name: String,
        generics: Vec<GenericParam>,
        fields: Vec<HirField>,
    },
    Enum {
        def_id: DefId,
        visibility: Visibility,
        attributes: Vec<Meta>,
        name: String,
        generics: Vec<GenericParam>,
        variants: Vec<HirEnumVariant>,
    },
    Static {
        def_id: DefId,
        visibility: Visibility,
        attributes: Vec<Meta>,
        name: String,
        ty: HirType,
        init: HirExpr,
        is_const: bool,
    },
}

/// Model of [`HirItem`].
#[verifier::ext_equal]
pub enum HirItemV {
    Module(HirModuleV),
    ExternFn {
        def_id: DefId,
        visibility: Visibility,
        attributes: Seq<MetaV>,
        link_name: Option<Seq<char>>,
        name: Seq<char>,
        param_types: Seq<HirTypeV>,
        return_ty: HirTypeV,
        is_variadic: bool,
    },
    Fn {
        def_id: DefId,
        visibility: Visibility,
        attributes: Seq<MetaV>,
        name: Seq<char>,
        generics: Seq<GenericParamV>,
        params: Seq<HirParamV>,
        return_ty: HirTypeV,
        body: HirBodyV,
        impl_receiver: Option<HirTypeV>,
    },
    Struct {
        def_id: DefId,
        visibility: Visibility,
        attributes: Seq<MetaV>,
        name: Seq<char>,
        generics: Seq<GenericParamV>,
        fields: Seq<HirFieldV>,
    },
    Enum {
        def_id: DefId,
        visibility: Visibility,
        attributes: Seq<MetaV>,
        name: Seq<char>,
        generics: Seq<GenericParamV>,
        variants: Seq<HirEnumVariantV>,
    },
    Static {
        def_id: DefId,
        visibility: Visibility,
        attributes: Seq<MetaV>,
        name: Seq<char>,
        ty: HirTypeV,
        init: HirExprV,
        is_const: bool,
    },
}

/// The model of a [`HirItem`], component by component.
#[verifier::opaque]
pub open spec fn hir_item_view(e: HirItem) -> HirItemV
    decreases e,
{
    match e {
        HirItem::Module(f0) => HirItemV::Module(hir_module_view(f0)),
        HirItem::ExternFn { def_id, visibility, attributes, link_name, name, param_types, return_ty, is_variadic } => HirItemV::ExternFn { def_id, visibility, attributes: attributes.deep_view(), link_name: link_name.deep_view(), name: name@, param_types: param_types.deep_view(), return_ty: return_ty.deep_view(), is_variadic },
        HirItem::Fn { def_id, visibility, attributes, name, generics, params, return_ty, body, impl_receiver } => HirItemV::Fn { def_id, visibility, attributes: attributes.deep_view(), name: name@, generics: generics.deep_view(), params: params.deep_view(), return_ty: return_ty.deep_view(), body: body.deep_view(), impl_receiver: impl_receiver.deep_view() },
        HirItem::Struct { def_id, visibility, attributes, name, generics, fields } => HirItemV::Struct { def_id, visibility, attributes: attributes.deep_view(), name: name@, generics: generics.deep_view(), fields: fields.deep_view() },
        HirItem::Enum { def_id, visibility, attributes, name, generics, variants } => HirItemV::Enum { def_id, visibility, attributes: attributes.deep_view(), name: name@, generics: generics.deep_view(), variants: variants.deep_view() },
        HirItem::Static { def_id, visibility, attributes, name, ty, init, is_const } => HirItemV::Static { def_id, visibility, attributes: attributes.deep_view(), name: name@, ty: ty.deep_view(), init: init.deep_view(), is_const },
    }
}

impl DeepView for HirItem {
    type V = HirItemV;

    open spec fn deep_view(&self) -> HirItemV {
        hir_item_view(*self)
    }
}

/// Unfolds the model of a [`HirItem`] by one level.
pub proof fn lemma_hir_item_view(e: HirItem)
    ensures
        e.deep_view() == (match e {
                HirItem::Module(f0) => HirItemV::Module(f0.deep_view()),
                HirItem::ExternFn { def_id, visibility, attributes, link_name, name, param_types, return_ty, is_variadic } => HirItemV::ExternFn { def_id, visibility, attributes: attributes.deep_view(), link_name: link_name.deep_view(), name: name@, param_types: param_types.deep_view(), return_ty: return_ty.deep_view(), is_variadic },
                HirItem::Fn { def_id, visibility, attributes, name, generics, params, return_ty, body, impl_receiver } => HirItemV::Fn { def_id, visibility, attributes: attributes.deep_view(), name: name@, generics: generics.deep_view(), params: params.deep_view(), return_ty: return_ty.deep_view(), body: body.deep_view(), impl_receiver: impl_receiver.deep_view() },
                HirItem::Struct { def_id, visibility, attributes, name, generics, fields } => HirItemV::Struct { def_id, visibility, attributes: attributes.deep_view(), name: name@, generics: generics.deep_view(), fields: fields.deep_view() },
                HirItem::Enum { def_id, visibility, attributes, name, generics, variants } => HirItemV::Enum { def_id, visibility, attributes: attributes.deep_view(), name: name@, generics: generics.deep_view(), variants: variants.deep_view() },
                HirItem::Static { def_id, visibility, attributes, name, ty, init, is_const } => HirItemV::Static { def_id, visibility, attributes: attributes.deep_view(), name: name@, ty: ty.deep_view(), init: init.deep_view(), is_const },
        }),
{
    reveal(hir_item_view);
    reveal(hir_module_view);
}

impl Clone for HirItem {
    fn clone(&self) -> (r: Self)
        ensures
            r.deep_view() == self.deep_view(),
        decreases self,
    {
        proof { lemma_hir_item_view(*self); }
        match self {
            HirItem::Module(f0) => {

                let r = HirItem::Module(f0.clone());
                proof { lemma_hir_item_view(r); }
                r
            }
            HirItem::ExternFn { def_id, visibility, attributes, link_name, name, param_types, return_ty, is_variadic } => {
                let mut out1: Vec<Meta> = Vec::new();
                for i1 in 0..attributes.len()
                    invariant
                        out1@.len() == i1,
                        forall|j: int| 0 <= j < i1 ==> #[trigger] out1@[j].deep_view() == attributes@[j].deep_view(),

                {

                    let item = attributes[i1].clone();
                    out1.push(item);
                }
                proof { assert(out1.deep_view() =~= attributes.deep_view()); }
                let opt2: Option<String> = match link_name {
                    Some(x2) => {

                        Some(x2.clone())
                    }
                    None => None,
                };
                let mut out3: Vec<HirType> = Vec::new();
                for i3 in 0..param_types.len()
                    invariant
                        out3@.len() == i3,
                        forall|j: int| 0 <= j < i3 ==> #[trigger] out3@[j].deep_view() == param_types@[j].deep_view(),

                {

                    let item = param_types[i3].clone();
                    out3.push(item);
                }
                proof { assert(out3.deep_view() =~= param_types.deep_view()); }
                let r = HirItem::ExternFn { def_id: *def_id, visibility: *visibility, attributes: out1, link_name: opt2, name: name.clone(), param_types: out3, return_ty: return_ty.clone(), is_variadic: *is_variadic };
                proof { lemma_hir_item_view(r); }
                r
            }
            HirItem::Fn { def_id, visibility, attributes, name, generics, params, return_ty, body, impl_receiver } => {
                let mut out4: Vec<Meta> = Vec::new();
                for i4 in 0..attributes.len()
                    invariant
                        out4@.len() == i4,
                        forall|j: int| 0 <= j < i4 ==> #[trigger] out4@[j].deep_view() == attributes@[j].deep_view(),

                {

                    let item = attributes[i4].clone();
                    out4.push(item);
                }
                proof { assert(out4.deep_view() =~= attributes.deep_view()); }
                let mut out5: Vec<GenericParam> = Vec::new();
                for i5 in 0..generics.len()
                    invariant
                        out5@.len() == i5,
                        forall|j: int| 0 <= j < i5 ==> #[trigger] out5@[j].deep_view() == generics@[j].deep_view(),

                {

                    let item = generics[i5].clone();
                    out5.push(item);
                }
                proof { assert(out5.deep_view() =~= generics.deep_view()); }
                let mut out6: Vec<HirParam> = Vec::new();
                for i6 in 0..params.len()
                    invariant
                        out6@.len() == i6,
                        forall|j: int| 0 <= j < i6 ==> #[trigger] out6@[j].deep_view() == params@[j].deep_view(),

                {

                    let item = params[i6].clone();
                    out6.push(item);
                }
                proof { assert(out6.deep_view() =~= params.deep_view()); }
                let opt7: Option<HirType> = match impl_receiver {
                    Some(x7) => {

                        Some(x7.clone())
                    }
                    None => None,
                };
                let r = HirItem::Fn { def_id: *def_id, visibility: *visibility, attributes: out4, name: name.clone(), generics: out5, params: out6, return_ty: return_ty.clone(), body: body.clone(), impl_receiver: opt7 };
                proof { lemma_hir_item_view(r); }
                r
            }
            HirItem::Struct { def_id, visibility, attributes, name, generics, fields } => {
                let mut out8: Vec<Meta> = Vec::new();
                for i8 in 0..attributes.len()
                    invariant
                        out8@.len() == i8,
                        forall|j: int| 0 <= j < i8 ==> #[trigger] out8@[j].deep_view() == attributes@[j].deep_view(),

                {

                    let item = attributes[i8].clone();
                    out8.push(item);
                }
                proof { assert(out8.deep_view() =~= attributes.deep_view()); }
                let mut out9: Vec<GenericParam> = Vec::new();
                for i9 in 0..generics.len()
                    invariant
                        out9@.len() == i9,
                        forall|j: int| 0 <= j < i9 ==> #[trigger] out9@[j].deep_view() == generics@[j].deep_view(),

                {

                    let item = generics[i9].clone();
                    out9.push(item);
                }
                proof { assert(out9.deep_view() =~= generics.deep_view()); }
                let mut out10: Vec<HirField> = Vec::new();
                for i10 in 0..fields.len()
                    invariant
                        out10@.len() == i10,
                        forall|j: int| 0 <= j < i10 ==> #[trigger] out10@[j].deep_view() == fields@[j].deep_view(),

                {

                    let item = fields[i10].clone();
                    out10.push(item);
                }
                proof { assert(out10.deep_view() =~= fields.deep_view()); }
                let r = HirItem::Struct { def_id: *def_id, visibility: *visibility, attributes: out8, name: name.clone(), generics: out9, fields: out10 };
                proof { lemma_hir_item_view(r); }
                r
            }
            HirItem::Enum { def_id, visibility, attributes, name, generics, variants } => {
                let mut out11: Vec<Meta> = Vec::new();
                for i11 in 0..attributes.len()
                    invariant
                        out11@.len() == i11,
                        forall|j: int| 0 <= j < i11 ==> #[trigger] out11@[j].deep_view() == attributes@[j].deep_view(),

                {

                    let item = attributes[i11].clone();
                    out11.push(item);
                }
                proof { assert(out11.deep_view() =~= attributes.deep_view()); }
                let mut out12: Vec<GenericParam> = Vec::new();
                for i12 in 0..generics.len()
                    invariant
                        out12@.len() == i12,
                        forall|j: int| 0 <= j < i12 ==> #[trigger] out12@[j].deep_view() == generics@[j].deep_view(),

                {

                    let item = generics[i12].clone();
                    out12.push(item);
                }
                proof { assert(out12.deep_view() =~= generics.deep_view()); }
                let mut out13: Vec<HirEnumVariant> = Vec::new();
                for i13 in 0..variants.len()
                    invariant
                        out13@.len() == i13,
                        forall|j: int| 0 <= j < i13 ==> #[trigger] out13@[j].deep_view() == variants@[j].deep_view(),

                {

                    let item = variants[i13].clone();
                    out13.push(item);
                }
                proof { assert(out13.deep_view() =~= variants.deep_view()); }
                let r = HirItem::Enum { def_id: *def_id, visibility: *visibility, attributes: out11, name: name.clone(), generics: out12, variants: out13 };
                proof { lemma_hir_item_view(r); }
                r
            }
            HirItem::Static { def_id, visibility, attributes, name, ty, init, is_const } => {
                let mut out14: Vec<Meta> = Vec::new();
                for i14 in 0..attributes.len()
                    invariant
                        out14@.len() == i14,
                        forall|j: int| 0 <= j < i14 ==> #[trigger] out14@[j].deep_view() == attributes@[j].deep_view(),

                {

                    let item = attributes[i14].clone();
                    out14.push(item);
                }
                proof { assert(out14.deep_view() =~= attributes.deep_view()); }
                let r = HirItem::Static { def_id: *def_id, visibility: *visibility, attributes: out14, name: name.clone(), ty: ty.clone(), init: init.clone(), is_const: *is_const };
                proof { lemma_hir_item_view(r); }
                r
            }
        }
    }
}

/// A module.
#[derive(Debug, PartialEq, Eq)]
pub struct HirModule {
    pub def_id: DefId,
    pub name: String,
    pub visibility: Visibility,
    pub attributes: Vec<Meta>,
    pub items: Vec<HirItem>,
}

/// Model of [`HirModule`].
#[verifier::ext_equal]
pub struct HirModuleV {
    pub def_id: DefId,
    pub name: Seq<char>,
    pub visibility: Visibility,
    pub attributes: Seq<MetaV>,
    pub items: Seq<HirItemV>,
}

/// The model of a [`HirModule`], component by component.
#[verifier::opaque]
pub open spec fn hir_module_view(e: HirModule) -> HirModuleV
    decreases e,
{
    HirModuleV { def_id: e.def_id, name: e.name@, visibility: e.visibility, attributes: e.attributes.deep_view(), items: Seq::new(
            e.items@.len(),
            |i: int|
            if 0 <= i < e.items@.len() { hir_item_view(e.items@[i]) } else { arbitrary() },
        ) }
}

impl DeepView for HirModule {
    type V = HirModuleV;

    open spec fn deep_view(&self) -> HirModuleV {
        hir_module_view(*self)
    }
}

/// Unfolds the model of a [`HirModule`] by one level.
pub proof fn lemma_hir_module_view(e: HirModule)
    ensures
        e.deep_view() == (
            HirModuleV { def_id: e.def_id, name: e.name@, visibility: e.visibility, attributes: e.attributes.deep_view(), items: e.items.deep_view() }
        ),
{
    reveal(hir_item_view);
    reveal(hir_module_view);
    assert(hir_module_view(e).items =~= e.items.deep_view());
}

impl Clone for HirModule {
    fn clone(&self) -> (r: Self)
        ensures
            r.deep_view() == self.deep_view(),
        decreases self,
    {
        proof { lemma_hir_module_view(*self); }
        let mut out1: Vec<Meta> = Vec::new();
        for i1 in 0..self.attributes.len()
            invariant
                out1@.len() == i1,
                forall|j: int| 0 <= j < i1 ==> #[trigger] out1@[j].deep_view() == self.attributes@[j].deep_view(),

        {

            let item = self.attributes[i1].clone();
            out1.push(item);
        }
        proof { assert(out1.deep_view() =~= self.attributes.deep_view()); }
        let mut out2: Vec<HirItem> = Vec::new();
        for i2 in 0..self.items.len()
            invariant
                out2@.len() == i2,
                forall|j: int| 0 <= j < i2 ==> #[trigger] out2@[j].deep_view() == self.items@[j].deep_view(),
                decreases_to!(self => self.items),
        {

            let item = self.items[i2].clone();
            out2.push(item);
        }
        proof { assert(out2.deep_view() =~= self.items.deep_view()); }
        let r = HirModule { def_id: self.def_id, name: self.name.clone(), visibility: self.visibility, attributes: out1, items: out2 };
        proof { lemma_hir_module_view(r); }
        r
    }
}

/// The methods with which a type implements a trait.
#[derive(Debug, PartialEq, Eq)]
pub struct VTable {
    pub trait_def: DefId,
    pub impl_type_def: DefId,
    pub methods: Vec<DefId>,
}

/// Model of [`VTable`].
#[verifier::ext_equal]
pub struct VTableV {
    pub trait_def: DefId,
    pub impl_type_def: DefId,
    pub methods: Seq<DefId>,
}

/// The model of a [`VTable`], component by component.
pub open spec fn v_table_view(e: VTable) -> VTableV {
    VTableV { trait_def: e.trait_def, impl_type_def: e.impl_type_def, methods: e.methods.deep_view() }
}

impl DeepView for VTable {
    type V = VTableV;

    open spec fn deep_view(&self) -> VTableV {
        v_table_view(*self)
    }
}

impl Clone for VTable {
    fn clone(&self) -> (r: Self)
        ensures
            r.deep_view() == self.deep_view(),
    {
        let mut out1: Vec<DefId> = Vec::new();
        for i1 in 0..self.methods.len()
            invariant
                out1@.len() == i1,
                forall|j: int| 0 <= j < i1 ==> #[trigger] out1@[j].deep_view() == self.methods@[j].deep_view(),

        {

            let item = self.methods[i1];
            out1.push(item);
        }
        proof { assert(out1.deep_view() =~= self.methods.deep_view()); }
        VTable { trait_def: self.trait_def, impl_type_def: self.impl_type_def, methods: out1 }
    }
}

/// A program with its names resolved.
#[derive(Debug, PartialEq, Eq)]
pub struct HirCompilationUnit {
    pub root_module: HirModule,
    pub vtables: Vec<VTable>,
}

/// Model of [`HirCompilationUnit`].
#[verifier::ext_equal]
pub struct HirCompilationUnitV {
    pub root_module: HirModuleV,
    pub vtables: Seq<VTableV>,
}

/// The model of a [`HirCompilationUnit`], component by component.
pub open spec fn hir_compilation_unit_view(e: HirCompilationUnit) -> HirCompilationUnitV {
    HirCompilationUnitV { root_module: e.root_module.deep_view(), vtables: e.vtables.deep_view() }
}

impl DeepView for HirCompilationUnit {
    type V = HirCompilationUnitV;

    open spec fn deep_view(&self) -> HirCompilationUnitV {
        hir_compilation_unit_view(*self)
    }
}

impl Clone for HirCompilationUnit {
    fn clone(&self) -> (r: Self)
        ensures
            r.deep_view() == self.deep_view(),
    {
        let mut out1: Vec<VTable> = Vec::new();
        for i1 in 0..self.vtables.len()
            invariant
                out1@.len() == i1,
                forall|j: int| 0 <= j < i1 ==> #[trigger] out1@[j].deep_view() == self.vtables@[j].deep_view(),

        {

            let item = self.vtables[i1].clone();
            out1.push(item);
        }
        proof { assert(out1.deep_view() =~= self.vtables.deep_view()); }
        HirCompilationUnit { root_module: self.root_module.clone(), vtables: out1 }
    }
}


impl ConstArg {
    /// The array length that a constant argument gives: its value, or the
    /// constant parameter of index `param_idx`.
    pub fn as_array_len(self, param_idx: usize) -> (r: ArrayLen)
        ensures
            r == (match self {
                ConstArg::Literal(v) => ArrayLen::Known(v as usize),
                ConstArg::Param(_) => ArrayLen::Const(param_idx),
            }),
    {
        match self {
            ConstArg::Literal(v) => ArrayLen::Known(v as usize),
            ConstArg::Param(_) => ArrayLen::Const(param_idx),
        }
    }
}

impl ArrayLen {
    /// The length, which must be known.
    pub fn known(&self) -> (r: usize)
        requires
            self is Known,
        ensures
            *self == ArrayLen::Known(r),
    {
        match self {
            ArrayLen::Known(n) => *n,
            ArrayLen::Const(n) => *n,
        }
    }
}

/// A known array length.
pub fn known_len(n: usize) -> (r: ArrayLen)
    ensures
        r == ArrayLen::Known(n),
{
    ArrayLen::Known(n)
}

impl HirType {
    /// `*char`.
    pub fn char_ptr() -> (r: HirType)
        ensures
            r.deep_view() == HirTypeV::Pointer(Box::new(HirTypeV::Char)),
    {
        let r = HirType::Pointer(Box::new(HirType::Char));
        proof {
            lemma_hir_type_view(r);
            lemma_hir_type_view(HirType::Char);
        }
        r
    }

    /// Whether two types are the same.
    pub fn same(&self, other: &HirType) -> (r: bool)
        ensures
            r == (self.deep_view() == other.deep_view()),
        decreases self,
    {
        proof {
            lemma_hir_type_view(*self);
            lemma_hir_type_view(*other);
        }
        match (self, other) {
            (HirType::Int, HirType::Int) => true,
            (HirType::Char, HirType::Char) => true,
            (HirType::Unit, HirType::Unit) => true,
            (HirType::Pointer(a), HirType::Pointer(b)) => a.same(&**b),
            (HirType::Named(a), HirType::Named(b)) => *a == *b,
            (HirType::Array(a, n), HirType::Array(b, m)) => *n == *m && a.same(&**b),
            (HirType::Var(a), HirType::Var(b)) => *a == *b,
            (HirType::Generic(a, ts, cs), HirType::Generic(b, us, ds)) => {
                *a == *b && same_const_args(cs, ds) && Self::same_list(ts, us)
            },
            (HirType::Enum(a, ts, cs), HirType::Enum(b, us, ds)) => {
                *a == *b && same_const_args(cs, ds) && Self::same_list(ts, us)
            },
            (HirType::TraitObject(a), HirType::TraitObject(b)) => *a == *b,
            _ => false,
        }
    }

    /// Whether two lists of types are the same.
    pub fn same_list(a: &Vec<HirType>, b: &Vec<HirType>) -> (r: bool)
        ensures
            r == (a.deep_view() == b.deep_view()),
        decreases a,
    {
        if a.len() != b.len() {
            assert(a.deep_view().len() != b.deep_view().len());
            return false;
        }
        for i in 0..a.len()
            invariant
                a@.len() == b@.len(),
                forall|j: int| 0 <= j < i ==> #[trigger] a@[j].deep_view() == b@[j].deep_view(),
        {
            if !a[i].same(&b[i]) {
                assert(a.deep_view()[i as int] != b.deep_view()[i as int]);
                return false;
            }
        }
        assert(a.deep_view() =~= b.deep_view());
        true
    }

    /// The type as it appears in messages.
    pub fn to_text(&self) -> (r: String)
        ensures
            r@ == shown_type(self.deep_view()),
        decreases self, 0int,
    {
        proof {
            lemma_hir_type_view(*self);
        }
        match self {
            HirType::Int => String::from_str("Int"),
            HirType::Char => String::from_str("Char"),
            HirType::Unit => String::from_str("Unit"),
            HirType::Pointer(t) => {
                let inner = t.to_text();
                cat3("Pointer(", inner.as_str(), ")")
            },
            HirType::Named(d) => {
                let id = def_text(*d);
                cat3("Named(", id.as_str(), ")")
            },
            HirType::Array(t, n) => {
                let inner = t.to_text();
                let len = len_text(*n);
                let head = cat4("Array(", inner.as_str(), ", ", len.as_str());
                cat2(head.as_str(), ")")
            },
            HirType::Var(i) => {
                let n = usize_string(*i);
                cat3("Var(", n.as_str(), ")")
            },
            HirType::Generic(d, ts, cs) => {
                let id = def_text(*d);
                let args = Self::list_text(ts);
                let consts = const_args_text(cs);
                let head = cat4("Generic(", id.as_str(), ", [", args.as_str());
                cat4(head.as_str(), "], [", consts.as_str(), "])")
            },
            HirType::Enum(d, ts, cs) => {
                let id = def_text(*d);
                let args = Self::list_text(ts);
                let consts = const_args_text(cs);
                let head = cat4("Enum(", id.as_str(), ", [", args.as_str());
                cat4(head.as_str(), "], [", consts.as_str(), "])")
            },
            HirType::TraitObject(d) => {
                let id = def_text(*d);
                cat3("TraitObject(", id.as_str(), ")")
            },
        }
    }

    /// Types as they appear in messages, separated by commas.
    pub fn list_text(ts: &Vec<HirType>) -> (r: String)
        ensures
            r@ == shown_types(ts.deep_view(), 0),
        decreases ts, ts@.len() + 1,
    {
        Self::list_text_from(ts, 0)
    }

    fn list_text_from(ts: &Vec<HirType>, from: usize) -> (r: String)
        requires
            from <= ts@.len(),
        ensures
            r@ == shown_types(ts.deep_view(), from as int),
        decreases ts, ts@.len() - from,
    {
        if from == ts.len() {
            return String::new();
        }
        let first = ts[from].to_text();
        if from + 1 == ts.len() {
            return first;
        }
        let rest = Self::list_text_from(ts, from + 1);
        cat3(first.as_str(), ", ", rest.as_str())
    }
}

/// Whether two lists of constant arguments are the same.
pub fn same_const_args(a: &Vec<ConstArg>, b: &Vec<ConstArg>) -> (r: bool)
    ensures
        r == (a.deep_view() == b.deep_view()),
{
    if a.len() != b.len() {
        assert(a.deep_view().len() != b.deep_view().len());
        return false;
    }
    for i in 0..a.len()
        invariant
            a@.len() == b@.len(),
            forall|j: int| 0 <= j < i ==> #[trigger] a@[j] == b@[j],
    {
        if a[i] != b[i] {
            assert(a.deep_view()[i as int] != b.deep_view()[i as int]);
            return false;
        }
    }
    assert(a.deep_view() =~= b.deep_view());
    true
}

/// A definition as it appears in messages.
pub open spec fn shown_def(d: DefId) -> Seq<char> {
    "DefId("@ + decimal(d.0 as nat) + ")"@
}

/// Writes a definition for a message.
pub fn def_text(d: DefId) -> (r: String)
    ensures
        r@ == shown_def(d),
{
    let n = decimal_string(d.0 as u64);
    cat3("DefId(", n.as_str(), ")")
}

/// An array length as it appears in messages.
pub open spec fn shown_len(n: ArrayLen) -> Seq<char> {
    match n {
        ArrayLen::Known(k) => "Known("@ + decimal(k as nat) + ")"@,
        ArrayLen::Const(k) => "Const("@ + decimal(k as nat) + ")"@,
    }
}

/// Writes an array length for a message.
pub fn len_text(n: ArrayLen) -> (r: String)
    ensures
        r@ == shown_len(n),
{
    match n {
        ArrayLen::Known(k) => {
            let s = usize_string(k);
            cat3("Known(", s.as_str(), ")")
        },
        ArrayLen::Const(k) => {
            let s = usize_string(k);
            cat3("Const(", s.as_str(), ")")
        },
    }
}

/// A constant argument as it appears in messages.
pub open spec fn shown_const_arg(c: ConstArg) -> Seq<char> {
    match c {
        ConstArg::Literal(v) => "Literal("@ + signed_decimal(v as int) + ")"@,
        ConstArg::Param(i) => "Param("@ + decimal(i as nat) + ")"@,
    }
}

fn const_arg_text(c: ConstArg) -> (r: String)
    ensures
        r@ == shown_const_arg(c),
{
    match c {
        ConstArg::Literal(v) => {
            let s = i64_string(v);
            cat3("Literal(", s.as_str(), ")")
        },
        ConstArg::Param(i) => {
            let s = usize_string(i);
            cat3("Param(", s.as_str(), ")")
        },
    }
}

/// Constant arguments from `i` on, separated by commas.
pub open spec fn shown_const_args(cs: Seq<ConstArg>, i: int) -> Seq<char>
    decreases cs.len() - i,
{
    if i >= cs.len() {
        Seq::empty()
    } else if i + 1 == cs.len() {
        shown_const_arg(cs[i])
    } else {
        shown_const_arg(cs[i]) + ", "@ + shown_const_args(cs, i + 1)
    }
}

fn const_args_text(cs: &Vec<ConstArg>) -> (r: String)
    ensures
        r@ == shown_const_args(cs.deep_view(), 0),
{
    const_args_text_from(cs, 0)
}

fn const_args_text_from(cs: &Vec<ConstArg>, from: usize) -> (r: String)
    requires
        from <= cs@.len(),
    ensures
        r@ == shown_const_args(cs.deep_view(), from as int),
    decreases cs@.len() - from,
{
    if from == cs.len() {
        return String::new();
    }
    let first = const_arg_text(cs[from]);
    if from + 1 == cs.len() {
        return first;
    }
    let rest = const_args_text_from(cs, from + 1);
    cat3(first.as_str(), ", ", rest.as_str())
}

/// A type as it appears in messages.
pub open spec fn shown_type(t: HirTypeV) -> Seq<char>
    decreases t, 0int,
{
    match t {
        HirTypeV::Int => "Int"@,
        HirTypeV::Char => "Char"@,
        HirTypeV::Unit => "Unit"@,
        HirTypeV::Pointer(inner) => "Pointer("@ + shown_type(*inner) + ")"@,
        HirTypeV::Named(d) => "Named("@ + shown_def(d) + ")"@,
        HirTypeV::Array(inner, n) => "Array("@ + shown_type(*inner) + ", "@ + shown_len(n) + ")"@,
        HirTypeV::Var(i) => "Var("@ + decimal(i as nat) + ")"@,
        HirTypeV::Generic(d, ts, cs) => "Generic("@ + shown_def(d) + ", ["@ + shown_types(ts, 0)
            + "], ["@ + shown_const_args(cs, 0) + "])"@,
        HirTypeV::Enum(d, ts, cs) => "Enum("@ + shown_def(d) + ", ["@ + shown_types(ts, 0) + "], ["@
            + shown_const_args(cs, 0) + "])"@,
        HirTypeV::TraitObject(d) => "TraitObject("@ + shown_def(d) + ")"@,
    }
}

/// Types from `i` on, separated by commas.
pub open spec fn shown_types(ts: Seq<HirTypeV>, i: int) -> Seq<char>
    decreases ts, ts.len() - i,
{
    if i < 0 || i >= ts.len() {
        Seq::empty()
    } else if i + 1 == ts.len() {
        shown_type(ts[i])
    } else {
        shown_type(ts[i]) + ", "@ + shown_types(ts, i + 1)
    }
}

} // verus!
