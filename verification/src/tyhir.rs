//! The typed representation: every expression carries its type, and field and
//! method names are resolved.

use crate::ast::{BinOp, GenericParam, GenericParamV, Literal, LiteralV, Meta, MetaV};
use crate::hir::{
    DefId, HirType, HirTypeV, ParamKind, TypeOrConst, TypeOrConstV, VTable, VTableV, Visibility,
};
use vstd::prelude::*;

verus! {

/// A parameter of a function.
#[derive(Debug, PartialEq, Eq)]
pub struct TyHirParam {
    pub def_id: DefId,
    pub name: String,
    pub ty: HirType,
    pub kind: ParamKind,
}

/// Model of [`TyHirParam`].
#[verifier::ext_equal]
pub struct TyHirParamV {
    pub def_id: DefId,
    pub name: Seq<char>,
    pub ty: HirTypeV,
    pub kind: ParamKind,
}

/// The model of a [`TyHirParam`], component by component.
pub open spec fn ty_hir_param_view(e: TyHirParam) -> TyHirParamV {
    TyHirParamV { def_id: e.def_id, name: e.name@, ty: e.ty.deep_view(), kind: e.kind }
}

impl DeepView for TyHirParam {
    type V = TyHirParamV;

    open spec fn deep_view(&self) -> TyHirParamV {
        ty_hir_param_view(*self)
    }
}

impl Clone for TyHirParam {
    fn clone(&self) -> (r: Self)
        ensures
            r.deep_view() == self.deep_view(),
    {

        TyHirParam { def_id: self.def_id, name: self.name.clone(), ty: self.ty.clone(), kind: self.kind }
    }
}

/// A field of a struct or of an enumeration variant.
#[derive(Debug, PartialEq, Eq)]
pub struct TyHirField {
    pub def_id: DefId,
    pub name: String,
    pub ty: HirType,
    pub visibility: Visibility,
}

/// Model of [`TyHirField`].
#[verifier::ext_equal]
pub struct TyHirFieldV {
    pub def_id: DefId,
    pub name: Seq<char>,
    pub ty: HirTypeV,
    pub visibility: Visibility,
}

/// The model of a [`TyHirField`], component by component.
pub open spec fn ty_hir_field_view(e: TyHirField) -> TyHirFieldV {
    TyHirFieldV { def_id: e.def_id, name: e.name@, ty: e.ty.deep_view(), visibility: e.visibility }
}

impl DeepView for TyHirField {
    type V = TyHirFieldV;

    open spec fn deep_view(&self) -> TyHirFieldV {
        ty_hir_field_view(*self)
    }
}

impl Clone for TyHirField {
    fn clone(&self) -> (r: Self)
        ensures
            r.deep_view() == self.deep_view(),
    {

        TyHirField { def_id: self.def_id, name: self.name.clone(), ty: self.ty.clone(), visibility: self.visibility }
    }
}

/// A variant of an enumeration.
#[derive(Debug, PartialEq, Eq)]
pub struct TyHirEnumVariant {
    pub def_id: DefId,
    pub name: String,
    pub tag: u32,
    pub fields: Vec<TyHirField>,
}

/// Model of [`TyHirEnumVariant`].
#[verifier::ext_equal]
pub struct TyHirEnumVariantV {
    pub def_id: DefId,
    pub name: Seq<char>,
    pub tag: u32,
    pub fields: Seq<TyHirFieldV>,
}

/// The model of a [`TyHirEnumVariant`], component by component.
pub open spec fn ty_hir_enum_variant_view(e: TyHirEnumVariant) -> TyHirEnumVariantV {
    TyHirEnumVariantV { def_id: e.def_id, name: e.name@, tag: e.tag, fields: e.fields.deep_view() }
}

impl DeepView for TyHirEnumVariant {
    type V = TyHirEnumVariantV;

    open spec fn deep_view(&self) -> TyHirEnumVariantV {
        ty_hir_enum_variant_view(*self)
    }
}

impl Clone for TyHirEnumVariant {
    fn clone(&self) -> (r: Self)
        ensures
            r.deep_view() == self.deep_view(),
    {
        let mut out1: Vec<TyHirField> = Vec::new();
        for i1 in 0..self.fields.len()
            invariant
                out1@.len() == i1,
                forall|j: int| 0 <= j < i1 ==> #[trigger] out1@[j].deep_view() == self.fields@[j].deep_view(),

        {

            let item = self.fields[i1].clone();
            out1.push(item);
        }
        proof { assert(out1.deep_view() =~= self.fields.deep_view()); }
        TyHirEnumVariant { def_id: self.def_id, name: self.name.clone(), tag: self.tag, fields: out1 }
    }
}

/// The pattern of a match arm.
#[derive(Debug, PartialEq, Eq)]
pub enum TyHirPattern {
    Variant {
        enum_def: DefId,
        variant: String,
        bindings: Vec<(DefId, Option<HirType>)>,
    },
    Literal(Literal),
    Wildcard,
    Ident(DefId),
}

/// Model of [`TyHirPattern`].
#[verifier::ext_equal]
pub enum TyHirPatternV {
    Variant {
        enum_def: DefId,
        variant: Seq<char>,
        bindings: Seq<(DefId, Option<HirTypeV>)>,
    },
    Literal(LiteralV),
    Wildcard,
    Ident(DefId),
}

/// The model of a [`TyHirPattern`], component by component.
pub open spec fn ty_hir_pattern_view(e: TyHirPattern) -> TyHirPatternV {
    match e {
        TyHirPattern::Variant { enum_def, variant, bindings } => TyHirPatternV::Variant { enum_def, variant: variant@, bindings: bindings.deep_view() },
        TyHirPattern::Literal(f0) => TyHirPatternV::Literal(f0.deep_view()),
        TyHirPattern::Wildcard => TyHirPatternV::Wildcard,
        TyHirPattern::Ident(f0) => TyHirPatternV::Ident(f0),
    }
}

impl DeepView for TyHirPattern {
    type V = TyHirPatternV;

    open spec fn deep_view(&self) -> TyHirPatternV {
        ty_hir_pattern_view(*self)
    }
}

impl Clone for TyHirPattern {
    fn clone(&self) -> (r: Self)
        ensures
            r.deep_view() == self.deep_view(),
    {
        match self {
            TyHirPattern::Variant { enum_def, variant, bindings } => {
                let mut out1: Vec<(DefId, Option<HirType>)> = Vec::new();
                for i1 in 0..bindings.len()
                    invariant
                        out1@.len() == i1,
                        forall|j: int| 0 <= j < i1 ==> #[trigger] out1@[j].deep_view() == bindings@[j].deep_view(),

                {
                    let opt3: Option<HirType> = match &bindings[i1].1 {
                        Some(x3) => {

                            Some(x3.clone())
                        }
                        None => None,
                    };
                    let item = (bindings[i1].0, opt3);
                    out1.push(item);
                }
                proof { assert(out1.deep_view() =~= bindings.deep_view()); }
                TyHirPattern::Variant { enum_def: *enum_def, variant: variant.clone(), bindings: out1 }
            }
            TyHirPattern::Literal(f0) => {

                TyHirPattern::Literal(f0.clone())
            }
            TyHirPattern::Wildcard => {

                TyHirPattern::Wildcard
            }
            TyHirPattern::Ident(f0) => {

                TyHirPattern::Ident(*f0)
            }
        }
    }
}

/// An arm of a `match` expression.
#[derive(Debug, PartialEq, Eq)]
pub struct TyHirMatchArm {
    pub pattern: TyHirPattern,
    pub body: TyHirBody,
}

/// Model of [`TyHirMatchArm`].
#[verifier::ext_equal]
pub struct TyHirMatchArmV {
    pub pattern: TyHirPatternV,
    pub body: TyHirBodyV,
}

/// The model of a [`TyHirMatchArm`], component by component.
#[verifier::opaque]
pub open spec fn ty_hir_match_arm_view(e: TyHirMatchArm) -> TyHirMatchArmV
    decreases e,
{
    TyHirMatchArmV { pattern: e.pattern.deep_view(), body: ty_hir_body_view(e.body) }
}

impl DeepView for TyHirMatchArm {
    type V = TyHirMatchArmV;

    open spec fn deep_view(&self) -> TyHirMatchArmV {
        ty_hir_match_arm_view(*self)
    }
}

/// Unfolds the model of a [`TyHirMatchArm`] by one level.
pub proof fn lemma_ty_hir_match_arm_view(e: TyHirMatchArm)
    ensures
        e.deep_view() == (
            TyHirMatchArmV { pattern: e.pattern.deep_view(), body: e.body.deep_view() }
        ),
{
    reveal(ty_hir_match_arm_view);
    reveal(ty_hir_body_view);
    reveal(ty_hir_stmt_view);
    reveal(ty_hir_expr_view);
    reveal(ty_hir_expr_kind_view);
}

impl Clone for TyHirMatchArm {
    fn clone(&self) -> (r: Self)
        ensures
            r.deep_view() == self.deep_view(),
        decreases self,
    {
        proof { lemma_ty_hir_match_arm_view(*self); }

        let r = TyHirMatchArm { pattern: self.pattern.clone(), body: self.body.clone() };
        proof { lemma_ty_hir_match_arm_view(r); }
        r
    }
}

/// A block of statements.
#[derive(Debug, PartialEq, Eq)]
pub struct TyHirBody {
    pub stmts: Vec<TyHirStmt>,
}

/// Model of [`TyHirBody`].
#[verifier::ext_equal]
pub struct TyHirBodyV {
    pub stmts: Seq<TyHirStmtV>,
}

/// The model of a [`TyHirBody`], component by component.
#[verifier::opaque]
pub open spec fn ty_hir_body_view(e: TyHirBody) -> TyHirBodyV
    decreases e,
{
    TyHirBodyV { stmts: Seq::new(
            e.stmts@.len(),
            |i: int|
            if 0 <= i < e.stmts@.len() { ty_hir_stmt_view(e.stmts@[i]) } else { arbitrary() },
        ) }
}

impl DeepView for TyHirBody {
    type V = TyHirBodyV;

    open spec fn deep_view(&self) -> TyHirBodyV {
        ty_hir_body_view(*self)
    }
}

/// Unfolds the model of a [`TyHirBody`] by one level.
pub proof fn lemma_ty_hir_body_view(e: TyHirBody)
    ensures
        e.deep_view() == (TyHirBodyV { stmts: e.stmts.deep_view() }),
{
    reveal(ty_hir_match_arm_view);
    reveal(ty_hir_body_view);
    reveal(ty_hir_stmt_view);
    reveal(ty_hir_expr_view);
    reveal(ty_hir_expr_kind_view);
    assert(ty_hir_body_view(e).stmts =~= e.stmts.deep_view());
}

impl Clone for TyHirBody {
    fn clone(&self) -> (r: Self)
        ensures
            r.deep_view() == self.deep_view(),
        decreases self,
    {
        proof { lemma_ty_hir_body_view(*self); }
        let mut out1: Vec<TyHirStmt> = Vec::new();
        for i1 in 0..self.stmts.len()
            invariant
                out1@.len() == i1,
                forall|j: int| 0 <= j < i1 ==> #[trigger] out1@[j].deep_view() == self.stmts@[j].deep_view(),
                decreases_to!(self => self.stmts),
        {

            let item = self.stmts[i1].clone();
            out1.push(item);
        }
        proof { assert(out1.deep_view() =~= self.stmts.deep_view()); }
        let r = TyHirBody { stmts: out1 };
        proof { lemma_ty_hir_body_view(r); }
        r
    }
}

/// A statement.
#[derive(Debug, PartialEq, Eq)]
pub enum TyHirStmt {
    Let {
        def_id: DefId,
        name: String,
        ty: HirType,
        init: TyHirExpr,
    },
    Assign {
        target: TyHirExpr,
        value: TyHirExpr,
    },
    Expr(TyHirExpr),
    If {
        cond: TyHirExpr,
        then_branch: TyHirBody,
        else_branch: Option<TyHirBody>,
    },
    While {
        cond: TyHirExpr,
        body: TyHirBody,
    },
    Return(Option<TyHirExpr>),
}

/// Model of [`TyHirStmt`].
#[verifier::ext_equal]
pub enum TyHirStmtV {
    Let {
        def_id: DefId,
        name: Seq<char>,
        ty: HirTypeV,
        init: TyHirExprV,
    },
    Assign {
        target: TyHirExprV,
        value: TyHirExprV,
    },
    Expr(TyHirExprV),
    If {
        cond: TyHirExprV,
        then_branch: TyHirBodyV,
        else_branch: Option<TyHirBodyV>,
    },
    While {
        cond: TyHirExprV,
        body: TyHirBodyV,
    },
    Return(Option<TyHirExprV>),
}

/// The model of a [`TyHirStmt`], component by component.
#[verifier::opaque]
pub open spec fn ty_hir_stmt_view(e: TyHirStmt) -> TyHirStmtV
    decreases e,
{
    match e {
        TyHirStmt::Let { def_id, name, ty, init } => TyHirStmtV::Let { def_id, name: name@, ty: ty.deep_view(), init: ty_hir_expr_view(init) },
        TyHirStmt::Assign { target, value } => TyHirStmtV::Assign { target: ty_hir_expr_view(target), value: ty_hir_expr_view(value) },
        TyHirStmt::Expr(f0) => TyHirStmtV::Expr(ty_hir_expr_view(f0)),
        TyHirStmt::If { cond, then_branch, else_branch } => TyHirStmtV::If { cond: ty_hir_expr_view(cond), then_branch: ty_hir_body_view(then_branch), else_branch: match else_branch {
                Some(x0) => Some(ty_hir_body_view(x0)),
                None => None,
                }
            },
        TyHirStmt::While { cond, body } => TyHirStmtV::While { cond: ty_hir_expr_view(cond), body: ty_hir_body_view(body) },
        TyHirStmt::Return(f0) => TyHirStmtV::Return(match f0 {
                Some(x0) => Some(ty_hir_expr_view(x0)),
                None => None,
        }),
    }
}

impl DeepView for TyHirStmt {
    type V = TyHirStmtV;

    open spec fn deep_view(&self) -> TyHirStmtV {
        ty_hir_stmt_view(*self)
    }
}

/// Unfolds the model of a [`TyHirStmt`] by one level.
pub proof fn lemma_ty_hir_stmt_view(e: TyHirStmt)
    ensures
        e.deep_view() == (match e {
                TyHirStmt::Let { def_id, name, ty, init } => TyHirStmtV::Let { def_id, name: name@, ty: ty.deep_view(), init: init.deep_view() },
                TyHirStmt::Assign { target, value } => TyHirStmtV::Assign { target: target.deep_view(), value: value.deep_view() },
                TyHirStmt::Expr(f0) => TyHirStmtV::Expr(f0.deep_view()),
                TyHirStmt::If { cond, then_branch, else_branch } => TyHirStmtV::If { cond: cond.deep_view(), then_branch: then_branch.deep_view(), else_branch: else_branch.deep_view() },
                TyHirStmt::While { cond, body } => TyHirStmtV::While { cond: cond.deep_view(), body: body.deep_view() },
                TyHirStmt::Return(f0) => TyHirStmtV::Return(f0.deep_view()),
        }),
{
    reveal(ty_hir_match_arm_view);
    reveal(ty_hir_body_view);
    reveal(ty_hir_stmt_view);
    reveal(ty_hir_expr_view);
    reveal(ty_hir_expr_kind_view);
}

impl Clone for TyHirStmt {
    fn clone(&self) -> (r: Self)
        ensures
            r.deep_view() == self.deep_view(),
        decreases self,
    {
        proof { lemma_ty_hir_stmt_view(*self); }
        match self {
            TyHirStmt::Let { def_id, name, ty, init } => {

                let r = TyHirStmt::Let { def_id: *def_id, name: name.clone(), ty: ty.clone(), init: init.clone() };
                proof { lemma_ty_hir_stmt_view(r); }
                r
            }
            TyHirStmt::Assign { target, value } => {

                let r = TyHirStmt::Assign { target: target.clone(), value: value.clone() };
                proof { lemma_ty_hir_stmt_view(r); }
                r
            }
            TyHirStmt::Expr(f0) => {

                let r = TyHirStmt::Expr(f0.clone());
                proof { lemma_ty_hir_stmt_view(r); }
                r
            }
            TyHirStmt::If { cond, then_branch, else_branch } => {
                let opt1: Option<TyHirBody> = match else_branch {
                    Some(x1) => {

                        Some(x1.clone())
                    }
                    None => None,
                };
                let r = TyHirStmt::If { cond: cond.clone(), then_branch: then_branch.clone(), else_branch: opt1 };
                proof { lemma_ty_hir_stmt_view(r); }
                r
            }
            TyHirStmt::While { cond, body } => {

                let r = TyHirStmt::While { cond: cond.clone(), body: body.clone() };
                proof { lemma_ty_hir_stmt_view(r); }
                r
            }
            TyHirStmt::Return(f0) => {
                let opt2: Option<TyHirExpr> = match f0 {
                    Some(x2) => {

                        Some(x2.clone())
                    }
                    None => None,
                };
                let r = TyHirStmt::Return(opt2);
                proof { lemma_ty_hir_stmt_view(r); }
                r
            }
        }
    }
}

/// An expression with its type.
#[derive(Debug, PartialEq, Eq)]
pub struct TyHirExpr {
    pub ty: HirType,
    pub kind: TyHirExprKind,
}

/// Model of [`TyHirExpr`].
#[verifier::ext_equal]
pub struct TyHirExprV {
    pub ty: HirTypeV,
    pub kind: TyHirExprKindV,
}

/// The model of a [`TyHirExpr`], component by component.
#[verifier::opaque]
pub open spec fn ty_hir_expr_view(e: TyHirExpr) -> TyHirExprV
    decreases e,
{
    TyHirExprV { ty: e.ty.deep_view(), kind: ty_hir_expr_kind_view(e.kind) }
}

impl DeepView for TyHirExpr {
    type V = TyHirExprV;

    open spec fn deep_view(&self) -> TyHirExprV {
        ty_hir_expr_view(*self)
    }
}

/// Unfolds the model of a [`TyHirExpr`] by one level.
pub proof fn lemma_ty_hir_expr_view(e: TyHirExpr)
    ensures
        e.deep_view() == (TyHirExprV { ty: e.ty.deep_view(), kind: e.kind.deep_view() }),
{
    reveal(ty_hir_match_arm_view);
    reveal(ty_hir_body_view);
    reveal(ty_hir_stmt_view);
    reveal(ty_hir_expr_view);
    reveal(ty_hir_expr_kind_view);
}

impl Clone for TyHirExpr {
    fn clone(&self) -> (r: Self)
        ensures
            r.deep_view() == self.deep_view(),
        decreases self,
    {
        proof { lemma_ty_hir_expr_view(*self); }

        let r = TyHirExpr { ty: self.ty.clone(), kind: self.kind.clone() };
        proof { lemma_ty_hir_expr_view(r); }
        r
    }
}

/// What an expression computes.
#[derive(Debug, PartialEq, Eq)]
pub enum TyHirExprKind {
    Literal(Literal),
    Path(DefId),
    Binary {
        op: BinOp,
        lhs: Box<TyHirExpr>,
        rhs: Box<TyHirExpr>,
    },
    Call {
        callee: DefId,
        args: Vec<TyHirExpr>,
        turbofish: Vec<TypeOrConst>,
    },
    FieldAccess {
        object: Box<TyHirExpr>,
        field: DefId,
    },
    StructLiteral {
        def_id: DefId,
        fields: Vec<(DefId, TyHirExpr)>,
        turbofish: Vec<TypeOrConst>,
    },
    ArrayLiteral {
        elements: Vec<TyHirExpr>,
        repeat: Option<usize>,
    },
    Index {
        array: Box<TyHirExpr>,
        index: Box<TyHirExpr>,
    },
    AddressOf(Box<TyHirExpr>),
    Deref(Box<TyHirExpr>),
    Variant {
        def_id: DefId,
        variant: String,
        args: Vec<TyHirExpr>,
        turbofish: Vec<TypeOrConst>,
    },
    Match {
        scrutinee: Box<TyHirExpr>,
        arms: Vec<TyHirMatchArm>,
    },
    TraitCast {
        value: Box<TyHirExpr>,
        trait_def: DefId,
    },
    DynamicMethodCall {
        trait_def: DefId,
        method_index: usize,
        receiver: Box<TyHirExpr>,
        args: Vec<TyHirExpr>,
    },
}

/// Model of [`TyHirExprKind`].
#[verifier::ext_equal]
pub enum TyHirExprKindV {
    Literal(LiteralV),
    Path(DefId),
    Binary {
        op: BinOp,
        lhs: Box<TyHirExprV>,
        rhs: Box<TyHirExprV>,
    },
    Call {
        callee: DefId,
        args: Seq<TyHirExprV>,
        turbofish: Seq<TypeOrConstV>,
    },
    FieldAccess {
        object: Box<TyHirExprV>,
        field: DefId,
    },
    StructLiteral {
        def_id: DefId,
        fields: Seq<(DefId, TyHirExprV)>,
        turbofish: Seq<TypeOrConstV>,
    },
    ArrayLiteral {
        elements: Seq<TyHirExprV>,
        repeat: Option<usize>,
    },
    Index {
        array: Box<TyHirExprV>,
        index: Box<TyHirExprV>,
    },
    AddressOf(Box<TyHirExprV>),
    Deref(Box<TyHirExprV>),
    Variant {
        def_id: DefId,
        variant: Seq<char>,
        args: Seq<TyHirExprV>,
        turbofish: Seq<TypeOrConstV>,
    },
    Match {
        scrutinee: Box<TyHirExprV>,
        arms: Seq<TyHirMatchArmV>,
    },
    TraitCast {
        value: Box<TyHirExprV>,
        trait_def: DefId,
    },
    DynamicMethodCall {
        trait_def: DefId,
        method_index: usize,
        receiver: Box<TyHirExprV>,
        args: Seq<TyHirExprV>,
    },
}

/// The model of a [`TyHirExprKind`], component by component.
#[verifier::opaque]
pub open spec fn ty_hir_expr_kind_view(e: TyHirExprKind) -> TyHirExprKindV
    decreases e,
{
    match e {
        TyHirExprKind::Literal(f0) => TyHirExprKindV::Literal(f0.deep_view()),
        TyHirExprKind::Path(f0) => TyHirExprKindV::Path(f0),
        TyHirExprKind::Binary { op, lhs, rhs } => TyHirExprKindV::Binary { op, lhs: Box::new(ty_hir_expr_view(*lhs)), rhs: Box::new(ty_hir_expr_view(*rhs)) },
        TyHirExprKind::Call { callee, args, turbofish } => TyHirExprKindV::Call { callee, args: Seq::new(
                args@.len(),
                |i: int|
                if 0 <= i < args@.len() { ty_hir_expr_view(args@[i]) } else { arbitrary() },
            ), turbofish: turbofish.deep_view() },
        TyHirExprKind::FieldAccess { object, field } => TyHirExprKindV::FieldAccess { object: Box::new(ty_hir_expr_view(*object)), field },
        TyHirExprKind::StructLiteral { def_id, fields, turbofish } => TyHirExprKindV::StructLiteral { def_id, fields: Seq::new(
                fields@.len(),
                |i: int|
                if 0 <= i < fields@.len() { (fields@[i].0, ty_hir_expr_view(fields@[i].1)) } else { arbitrary() },
            ), turbofish: turbofish.deep_view() },
        TyHirExprKind::ArrayLiteral { elements, repeat } => TyHirExprKindV::ArrayLiteral { elements: Seq::new(
                elements@.len(),
                |i: int|
                if 0 <= i < elements@.len() { ty_hir_expr_view(elements@[i]) } else { arbitrary() },
            ), repeat: repeat.deep_view() },
        TyHirExprKind::Index { array, index } => TyHirExprKindV::Index { array: Box::new(ty_hir_expr_view(*array)), index: Box::new(ty_hir_expr_view(*index)) },
        TyHirExprKind::AddressOf(f0) => TyHirExprKindV::AddressOf(Box::new(ty_hir_expr_view(*f0))),
        TyHirExprKind::Deref(f0) => TyHirExprKindV::Deref(Box::new(ty_hir_expr_view(*f0))),
        TyHirExprKind::Variant { def_id, variant, args, turbofish } => TyHirExprKindV::Variant { def_id, variant: variant@, args: Seq::new(
                args@.len(),
                |i: int|
                if 0 <= i < args@.len() { ty_hir_expr_view(args@[i]) } else { arbitrary() },
            ), turbofish: turbofish.deep_view() },
        TyHirExprKind::Match { scrutinee, arms } => TyHirExprKindV::Match { scrutinee: Box::new(ty_hir_expr_view(*scrutinee)), arms: Seq::new(
                arms@.len(),
                |i: int|
                if 0 <= i < arms@.len() { ty_hir_match_arm_view(arms@[i]) } else { arbitrary() },
            ) },
        TyHirExprKind::TraitCast { value, trait_def } => TyHirExprKindV::TraitCast { value: Box::new(ty_hir_expr_view(*value)), trait_def },
        TyHirExprKind::DynamicMethodCall { trait_def, method_index, receiver, args } => TyHirExprKindV::DynamicMethodCall { trait_def, method_index, receiver: Box::new(ty_hir_expr_view(*receiver)), args: Seq::new(
                args@.len(),
                |i: int|
                if 0 <= i < args@.len() { ty_hir_expr_view(args@[i]) } else { arbitrary() },
            ) },
    }
}

impl DeepView for TyHirExprKind {
    type V = TyHirExprKindV;

    open spec fn deep_view(&self) -> TyHirExprKindV {
        ty_hir_expr_kind_view(*self)
    }
}

/// Unfolds the model of a [`TyHirExprKind`] by one level.
pub proof fn lemma_ty_hir_expr_kind_view(e: TyHirExprKind)
    ensures
        e.deep_view() == (match e {
                TyHirExprKind::Literal(f0) => TyHirExprKindV::Literal(f0.deep_view()),
                TyHirExprKind::Path(f0) => TyHirExprKindV::Path(f0),
                TyHirExprKind::Binary { op, lhs, rhs } => TyHirExprKindV::Binary { op, lhs: Box::new((*lhs).deep_view()), rhs: Box::new((*rhs).deep_view()) },
                TyHirExprKind::Call { callee, args, turbofish } => TyHirExprKindV::Call { callee, args: args.deep_view(), turbofish: turbofish.deep_view() },
                TyHirExprKind::FieldAccess { object, field } => TyHirExprKindV::FieldAccess { object: Box::new((*object).deep_view()), field },
                TyHirExprKind::StructLiteral { def_id, fields, turbofish } => TyHirExprKindV::StructLiteral { def_id, fields: fields.deep_view(), turbofish: turbofish.deep_view() },
                TyHirExprKind::ArrayLiteral { elements, repeat } => TyHirExprKindV::ArrayLiteral { elements: elements.deep_view(), repeat: repeat.deep_view() },
                TyHirExprKind::Index { array, index } => TyHirExprKindV::Index { array: Box::new((*array).deep_view()), index: Box::new((*index).deep_view()) },
                TyHirExprKind::AddressOf(f0) => TyHirExprKindV::AddressOf(
                    Box::new((*f0).deep_view()),
                ),
                TyHirExprKind::Deref(f0) => TyHirExprKindV::Deref(Box::new((*f0).deep_view())),
                TyHirExprKind::Variant { def_id, variant, args, turbofish } => TyHirExprKindV::Variant { def_id, variant: variant@, args: args.deep_view(), turbofish: turbofish.deep_view() },
                TyHirExprKind::Match { scrutinee, arms } => TyHirExprKindV::Match { scrutinee: Box::new((*scrutinee).deep_view()), arms: arms.deep_view() },
                TyHirExprKind::TraitCast { value, trait_def } => TyHirExprKindV::TraitCast { value: Box::new((*value).deep_view()), trait_def },
                TyHirExprKind::DynamicMethodCall { trait_def, method_index, receiver, args } => TyHirExprKindV::DynamicMethodCall { trait_def, method_index, receiver: Box::new((*receiver).deep_view()), args: args.deep_view() },
        }),
{
    reveal(ty_hir_match_arm_view);
    reveal(ty_hir_body_view);
    reveal(ty_hir_stmt_view);
    reveal(ty_hir_expr_view);
    reveal(ty_hir_expr_kind_view);
    match e {
        TyHirExprKind::Call { callee, args, turbofish } => {
            assert(ty_hir_expr_kind_view(e)->Call_args =~= args.deep_view());
        }
        TyHirExprKind::StructLiteral { def_id, fields, turbofish } => {
            assert(ty_hir_expr_kind_view(e)->StructLiteral_fields =~= fields.deep_view());
        }
        TyHirExprKind::ArrayLiteral { elements, repeat } => {
            assert(ty_hir_expr_kind_view(e)->ArrayLiteral_elements =~= elements.deep_view());
        }
        TyHirExprKind::Variant { def_id, variant, args, turbofish } => {
            assert(ty_hir_expr_kind_view(e)->Variant_args =~= args.deep_view());
        }
        TyHirExprKind::Match { scrutinee, arms } => {
            assert(ty_hir_expr_kind_view(e)->Match_arms =~= arms.deep_view());
        }
        TyHirExprKind::DynamicMethodCall { trait_def, method_index, receiver, args } => {
            assert(ty_hir_expr_kind_view(e)->DynamicMethodCall_args =~= args.deep_view());
        }
        _ => {}
    }
}

impl Clone for TyHirExprKind {
    fn clone(&self) -> (r: Self)
        ensures
            r.deep_view() == self.deep_view(),
        decreases self,
    {
        proof { lemma_ty_hir_expr_kind_view(*self); }
        match self {
            TyHirExprKind::Literal(f0) => {

                let r = TyHirExprKind::Literal(f0.clone());
                proof { lemma_ty_hir_expr_kind_view(r); }
                r
            }
            TyHirExprKind::Path(f0) => {

                let r = TyHirExprKind::Path(*f0);
                proof { lemma_ty_hir_expr_kind_view(r); }
                r
            }
            TyHirExprKind::Binary { op, lhs, rhs } => {

                let r = TyHirExprKind::Binary { op: *op, lhs: Box::new((&**lhs).clone()), rhs: Box::new((&**rhs).clone()) };
                proof { lemma_ty_hir_expr_kind_view(r); }
                r
            }
            TyHirExprKind::Call { callee, args, turbofish } => {
                let mut out1: Vec<TyHirExpr> = Vec::new();
                for i1 in 0..args.len()
                    invariant
                        out1@.len() == i1,
                        forall|j: int| 0 <= j < i1 ==> #[trigger] out1@[j].deep_view() == args@[j].deep_view(),
                        decreases_to!(self => args),
                {

                    let item = args[i1].clone();
                    out1.push(item);
                }
                proof { assert(out1.deep_view() =~= args.deep_view()); }
                let mut out2: Vec<TypeOrConst> = Vec::new();
                for i2 in 0..turbofish.len()
                    invariant
                        out2@.len() == i2,
                        forall|j: int| 0 <= j < i2 ==> #[trigger] out2@[j].deep_view() == turbofish@[j].deep_view(),

                {

                    let item = turbofish[i2].clone();
                    out2.push(item);
                }
                proof { assert(out2.deep_view() =~= turbofish.deep_view()); }
                let r = TyHirExprKind::Call { callee: *callee, args: out1, turbofish: out2 };
                proof { lemma_ty_hir_expr_kind_view(r); }
                r
            }
            TyHirExprKind::FieldAccess { object, field } => {

                let r = TyHirExprKind::FieldAccess { object: Box::new((&**object).clone()), field: *field };
                proof { lemma_ty_hir_expr_kind_view(r); }
                r
            }
            TyHirExprKind::StructLiteral { def_id, fields, turbofish } => {
                let mut out3: Vec<(DefId, TyHirExpr)> = Vec::new();
                for i3 in 0..fields.len()
                    invariant
                        out3@.len() == i3,
                        forall|j: int| 0 <= j < i3 ==> #[trigger] out3@[j].deep_view() == fields@[j].deep_view(),
                        decreases_to!(self => fields),
                {

                    let item = (fields[i3].0, fields[i3].1.clone());
                    out3.push(item);
                }
                proof { assert(out3.deep_view() =~= fields.deep_view()); }
                let mut out5: Vec<TypeOrConst> = Vec::new();
                for i5 in 0..turbofish.len()
                    invariant
                        out5@.len() == i5,
                        forall|j: int| 0 <= j < i5 ==> #[trigger] out5@[j].deep_view() == turbofish@[j].deep_view(),

                {

                    let item = turbofish[i5].clone();
                    out5.push(item);
                }
                proof { assert(out5.deep_view() =~= turbofish.deep_view()); }
                let r = TyHirExprKind::StructLiteral { def_id: *def_id, fields: out3, turbofish: out5 };
                proof { lemma_ty_hir_expr_kind_view(r); }
                r
            }
            TyHirExprKind::ArrayLiteral { elements, repeat } => {
                let mut out6: Vec<TyHirExpr> = Vec::new();
                for i6 in 0..elements.len()
                    invariant
                        out6@.len() == i6,
                        forall|j: int| 0 <= j < i6 ==> #[trigger] out6@[j].deep_view() == elements@[j].deep_view(),
                        decreases_to!(self => elements),
                {

                    let item = elements[i6].clone();
                    out6.push(item);
                }
                proof { assert(out6.deep_view() =~= elements.deep_view()); }
                let opt7: Option<usize> = match repeat {
                    Some(x7) => {

                        Some(*x7)
                    }
                    None => None,
                };
                let r = TyHirExprKind::ArrayLiteral { elements: out6, repeat: opt7 };
                proof { lemma_ty_hir_expr_kind_view(r); }
                r
            }
            TyHirExprKind::Index { array, index } => {

                let r = TyHirExprKind::Index { array: Box::new((&**array).clone()), index: Box::new((&**index).clone()) };
                proof { lemma_ty_hir_expr_kind_view(r); }
                r
            }
            TyHirExprKind::AddressOf(f0) => {

                let r = TyHirExprKind::AddressOf(Box::new((&**f0).clone()));
                proof { lemma_ty_hir_expr_kind_view(r); }
                r
            }
            TyHirExprKind::Deref(f0) => {

                let r = TyHirExprKind::Deref(Box::new((&**f0).clone()));
                proof { lemma_ty_hir_expr_kind_view(r); }
                r
            }
            TyHirExprKind::Variant { def_id, variant, args, turbofish } => {
                let mut out8: Vec<TyHirExpr> = Vec::new();
                for i8 in 0..args.len()
                    invariant
                        out8@.len() == i8,
                        forall|j: int| 0 <= j < i8 ==> #[trigger] out8@[j].deep_view() == args@[j].deep_view(),
                        decreases_to!(self => args),
                {

                    let item = args[i8].clone();
                    out8.push(item);
                }
                proof { assert(out8.deep_view() =~= args.deep_view()); }
                let mut out9: Vec<TypeOrConst> = Vec::new();
                for i9 in 0..turbofish.len()
                    invariant
                        out9@.len() == i9,
                        forall|j: int| 0 <= j < i9 ==> #[trigger] out9@[j].deep_view() == turbofish@[j].deep_view(),

                {

                    let item = turbofish[i9].clone();
                    out9.push(item);
                }
                proof { assert(out9.deep_view() =~= turbofish.deep_view()); }
                let r = TyHirExprKind::Variant { def_id: *def_id, variant: variant.clone(), args: out8, turbofish: out9 };
                proof { lemma_ty_hir_expr_kind_view(r); }
                r
            }
            TyHirExprKind::Match { scrutinee, arms } => {
                let mut out10: Vec<TyHirMatchArm> = Vec::new();
                for i10 in 0..arms.len()
                    invariant
                        out10@.len() == i10,
                        forall|j: int| 0 <= j < i10 ==> #[trigger] out10@[j].deep_view() == arms@[j].deep_view(),
                        decreases_to!(self => arms),
                {

                    let item = arms[i10].clone();
                    out10.push(item);
                }
                proof { assert(out10.deep_view() =~= arms.deep_view()); }
                let r = TyHirExprKind::Match { scrutinee: Box::new((&**scrutinee).clone()), arms: out10 };
                proof { lemma_ty_hir_expr_kind_view(r); }
                r
            }
            TyHirExprKind::TraitCast { value, trait_def } => {

                let r = TyHirExprKind::TraitCast { value: Box::new((&**value).clone()), trait_def: *trait_def };
                proof { lemma_ty_hir_expr_kind_view(r); }
                r
            }
            TyHirExprKind::DynamicMethodCall { trait_def, method_index, receiver, args } => {
                let mut out11: Vec<TyHirExpr> = Vec::new();
                for i11 in 0..args.len()
                    invariant
                        out11@.len() == i11,
                        forall|j: int| 0 <= j < i11 ==> #[trigger] out11@[j].deep_view() == args@[j].deep_view(),
                        decreases_to!(self => args),
                {

                    let item = args[i11].clone();
                    out11.push(item);
                }
                proof { assert(out11.deep_view() =~= args.deep_view()); }
                let r = TyHirExprKind::DynamicMethodCall { trait_def: *trait_def, method_index: *method_index, receiver: Box::new((&**receiver).clone()), args: out11 };
                proof { lemma_ty_hir_expr_kind_view(r); }
                r
            }
        }
    }
}

/// An item of a module.
#[derive(Debug, PartialEq, Eq)]
pub enum TyHirItem {
    Module(TyHirModule),
    ExternFn {
        def_id: DefId,
        visibility: Visibility,
        attributes: Vec<Meta>,
        link_name: Option<String>,
        name: String,
        param_types: Vec<HirType>,
        return_ty: HirType,
        is_variadic: bool,
    },
    Fn {
        def_id: DefId,
        visibility: Visibility,
        attributes: Vec<Meta>,
        name: String,
        generics: Vec<GenericParam>,
        params: Vec<TyHirParam>,
        return_ty: HirType,
        body: TyHirBody,
        impl_receiver: Option<HirType>,
    },
    Struct {
        def_id: DefId,
        visibility: Visibility,
        attributes: Vec<Meta>,
        name: String,
        generics: Vec<GenericParam>,
        fields: Vec<TyHirField>,
    },
    Enum {
        def_id: DefId,
        visibility: Visibility,
        attributes: Vec<Meta>,
        name: String,
        generics: Vec<GenericParam>,
        variants: Vec<TyHirEnumVariant>,
    },
    Static {
        def_id: DefId,
        visibility: Visibility,
        attributes: Vec<Meta>,
        name: String,
        ty: HirType,
        init: TyHirExpr,
        is_const: bool,
    },
    VTable {
        trait_def: DefId,
        impl_type_def: DefId,
        methods: Vec<DefId>,
    },
}

/// Model of [`TyHirItem`].
#[verifier::ext_equal]
pub enum TyHirItemV {
    Module(TyHirModuleV),
    ExternFn {
        def_id: DefId,
        visibility: Visibility,
        attributes: Seq<MetaV>,
        link_name: Option<Seq<char>>,
        name: Seq<char>,
        param_types: Seq<HirTypeV>,
        return_ty: HirTypeV,
        is_variadic: bool,
    },
    Fn {
        def_id: DefId,
        visibility: Visibility,
        attributes: Seq<MetaV>,
        name: Seq<char>,
        generics: Seq<GenericParamV>,
        params: Seq<TyHirParamV>,
        return_ty: HirTypeV,
        body: TyHirBodyV,
        impl_receiver: Option<HirTypeV>,
    },
    Struct {
        def_id: DefId,
        visibility: Visibility,
        attributes: Seq<MetaV>,
        name: Seq<char>,
        generics: Seq<GenericParamV>,
        fields: Seq<TyHirFieldV>,
    },
    Enum {
        def_id: DefId,
        visibility: Visibility,
        attributes: Seq<MetaV>,
        name: Seq<char>,
        generics: Seq<GenericParamV>,
        variants: Seq<TyHirEnumVariantV>,
    },
    Static {
        def_id: DefId,
        visibility: Visibility,
        attributes: Seq<MetaV>,
        name: Seq<char>,
        ty: HirTypeV,
        init: TyHirExprV,
        is_const: bool,
    },
    VTable {
        trait_def: DefId,
        impl_type_def: DefId,
        methods: Seq<DefId>,
    },
}

/// The model of a [`TyHirItem`], component by component.
#[verifier::opaque]
pub open spec fn ty_hir_item_view(e: TyHirItem) -> TyHirItemV
    decreases e,
{
    match e {
        TyHirItem::Module(f0) => TyHirItemV::Module(ty_hir_module_view(f0)),
        TyHirItem::ExternFn { def_id, visibility, attributes, link_name, name, param_types, return_ty, is_variadic } => TyHirItemV::ExternFn { def_id, visibility, attributes: attributes.deep_view(), link_name: link_name.deep_view(), name: name@, param_types: param_types.deep_view(), return_ty: return_ty.deep_view(), is_variadic },
        TyHirItem::Fn { def_id, visibility, attributes, name, generics, params, return_ty, body, impl_receiver } => TyHirItemV::Fn { def_id, visibility, attributes: attributes.deep_view(), name: name@, generics: generics.deep_view(), params: params.deep_view(), return_ty: return_ty.deep_view(), body: body.deep_view(), impl_receiver: impl_receiver.deep_view() },
        TyHirItem::Struct { def_id, visibility, attributes, name, generics, fields } => TyHirItemV::Struct { def_id, visibility, attributes: attributes.deep_view(), name: name@, generics: generics.deep_view(), fields: fields.deep_view() },
        TyHirItem::Enum { def_id, visibility, attributes, name, generics, variants } => TyHirItemV::Enum { def_id, visibility, attributes: attributes.deep_view(), name: name@, generics: generics.deep_view(), variants: variants.deep_view() },
        TyHirItem::Static { def_id, visibility, attributes, name, ty, init, is_const } => TyHirItemV::Static { def_id, visibility, attributes: attributes.deep_view(), name: name@, ty: ty.deep_view(), init: init.deep_view(), is_const },
        TyHirItem::VTable { trait_def, impl_type_def, methods } => TyHirItemV::VTable { trait_def, impl_type_def, methods: methods.deep_view() },
    }
}

impl DeepView for TyHirItem {
    type V = TyHirItemV;

    open spec fn deep_view(&self) -> TyHirItemV {
        ty_hir_item_view(*self)
    }
}

/// Unfolds the model of a [`TyHirItem`] by one level.
pub proof fn lemma_ty_hir_item_view(e: TyHirItem)
    ensures
        e.deep_view() == (match e {
                TyHirItem::Module(f0) => TyHirItemV::Module(f0.deep_view()),
                TyHirItem::ExternFn { def_id, visibility, attributes, link_name, name, param_types, return_ty, is_variadic } => TyHirItemV::ExternFn { def_id, visibility, attributes: attributes.deep_view(), link_name: link_name.deep_view(), name: name@, param_types: param_types.deep_view(), return_ty: return_ty.deep_view(), is_variadic },
                TyHirItem::Fn { def_id, visibility, attributes, name, generics, params, return_ty, body, impl_receiver } => TyHirItemV::Fn { def_id, visibility, attributes: attributes.deep_view(), name: name@, generics: generics.deep_view(), params: params.deep_view(), return_ty: return_ty.deep_view(), body: body.deep_view(), impl_receiver: impl_receiver.deep_view() },
                TyHirItem::Struct { def_id, visibility, attributes, name, generics, fields } => TyHirItemV::Struct { def_id, visibility, attributes: attributes.deep_view(), name: name@, generics: generics.deep_view(), fields: fields.deep_view() },
                TyHirItem::Enum { def_id, visibility, attributes, name, generics, variants } => TyHirItemV::Enum { def_id, visibility, attributes: attributes.deep_view(), name: name@, generics: generics.deep_view(), variants: variants.deep_view() },
                TyHirItem::Static { def_id, visibility, attributes, name, ty, init, is_const } => TyHirItemV::Static { def_id, visibility, attributes: attributes.deep_view(), name: name@, ty: ty.deep_view(), init: init.deep_view(), is_const },
                TyHirItem::VTable { trait_def, impl_type_def, methods } => TyHirItemV::VTable { trait_def, impl_type_def, methods: methods.deep_view() },
        }),
{
    reveal(ty_hir_item_view);
    reveal(ty_hir_module_view);
}

impl Clone for TyHirItem {
    fn clone(&self) -> (r: Self)
        ensures
            r.deep_view() == self.deep_view(),
        decreases self,
    {
        proof { lemma_ty_hir_item_view(*self); }
        match self {
            TyHirItem::Module(f0) => {

                let r = TyHirItem::Module(f0.clone());
                proof { lemma_ty_hir_item_view(r); }
                r
            }
            TyHirItem::ExternFn { def_id, visibility, attributes, link_name, name, param_types, return_ty, is_variadic } => {
                let mut out1: Vec<Meta> = Vec::new();
                for i1 in 0..attributes.len()
                    invariant
                        out1@.len() == i1,
                        forall|j: int| 0 <= j < i1 ==> #[trigger] out1@[j].deep_view() == attributes@[j].deep_view(),

                {

                    let item = attributes[i1].clone();
                    out1.push(item);
                }
                proof { assert(out1.deep_view() =~= attributes.deep_view()); }
                let opt2: Option<String> = match link_name {
                    Some(x2) => {

                        Some(x2.clone())
                    }
                    None => None,
                };
                let mut out3: Vec<HirType> = Vec::new();
                for i3 in 0..param_types.len()
                    invariant
                        out3@.len() == i3,
                        forall|j: int| 0 <= j < i3 ==> #[trigger] out3@[j].deep_view() == param_types@[j].deep_view(),

                {

                    let item = param_types[i3].clone();
                    out3.push(item);
                }
                proof { assert(out3.deep_view() =~= param_types.deep_view()); }
                let r = TyHirItem::ExternFn { def_id: *def_id, visibility: *visibility, attributes: out1, link_name: opt2, name: name.clone(), param_types: out3, return_ty: return_ty.clone(), is_variadic: *is_variadic };
                proof { lemma_ty_hir_item_view(r); }
                r
            }
            TyHirItem::Fn { def_id, visibility, attributes, name, generics, params, return_ty, body, impl_receiver } => {
                let mut out4: Vec<Meta> = Vec::new();
                for i4 in 0..attributes.len()
                    invariant
                        out4@.len() == i4,
                        forall|j: int| 0 <= j < i4 ==> #[trigger] out4@[j].deep_view() == attributes@[j].deep_view(),

                {

                    let item = attributes[i4].clone();
                    out4.push(item);
                }
                proof { assert(out4.deep_view() =~= attributes.deep_view()); }
                let mut out5: Vec<GenericParam> = Vec::new();
                for i5 in 0..generics.len()
                    invariant
                        out5@.len() == i5,
                        forall|j: int| 0 <= j < i5 ==> #[trigger] out5@[j].deep_view() == generics@[j].deep_view(),

                {

                    let item = generics[i5].clone();
                    out5.push(item);
                }
                proof { assert(out5.deep_view() =~= generics.deep_view()); }
                let mut out6: Vec<TyHirParam> = Vec::new();
                for i6 in 0..params.len()
                    invariant
                        out6@.len() == i6,
                        forall|j: int| 0 <= j < i6 ==> #[trigger] out6@[j].deep_view() == params@[j].deep_view(),

                {

                    let item = params[i6].clone();
                    out6.push(item);
                }
                proof { assert(out6.deep_view() =~= params.deep_view()); }
                let opt7: Option<HirType> = match impl_receiver {
                    Some(x7) => {

                        Some(x7.clone())
                    }
                    None => None,
                };
                let r = TyHirItem::Fn { def_id: *def_id, visibility: *visibility, attributes: out4, name: name.clone(), generics: out5, params: out6, return_ty: return_ty.clone(), body: body.clone(), impl_receiver: opt7 };
                proof { lemma_ty_hir_item_view(r); }
                r
            }
            TyHirItem::Struct { def_id, visibility, attributes, name, generics, fields } => {
                let mut out8: Vec<Meta> = Vec::new();
                for i8 in 0..attributes.len()
                    invariant
                        out8@.len() == i8,
                        forall|j: int| 0 <= j < i8 ==> #[trigger] out8@[j].deep_view() == attributes@[j].deep_view(),

                {

                    let item = attributes[i8].clone();
                    out8.push(item);
                }
                proof { assert(out8.deep_view() =~= attributes.deep_view()); }
                let mut out9: Vec<GenericParam> = Vec::new();
                for i9 in 0..generics.len()
                    invariant
                        out9@.len() == i9,
                        forall|j: int| 0 <= j < i9 ==> #[trigger] out9@[j].deep_view() == generics@[j].deep_view(),

                {

                    let item = generics[i9].clone();
                    out9.push(item);
                }
                proof { assert(out9.deep_view() =~= generics.deep_view()); }
                let mut out10: Vec<TyHirField> = Vec::new();
                for i10 in 0..fields.len()
                    invariant
                        out10@.len() == i10,
                        forall|j: int| 0 <= j < i10 ==> #[trigger] out10@[j].deep_view() == fields@[j].deep_view(),

                {

                    let item = fields[i10].clone();
                    out10.push(item);
                }
                proof { assert(out10.deep_view() =~= fields.deep_view()); }
                let r = TyHirItem::Struct { def_id: *def_id, visibility: *visibility, attributes: out8, name: name.clone(), generics: out9, fields: out10 };
                proof { lemma_ty_hir_item_view(r); }
                r
            }
            TyHirItem::Enum { def_id, visibility, attributes, name, generics, variants } => {
                let mut out11: Vec<Meta> = Vec::new();
                for i11 in 0..attributes.len()
                    invariant
                        out11@.len() == i11,
                        forall|j: int| 0 <= j < i11 ==> #[trigger] out11@[j].deep_view() == attributes@[j].deep_view(),

                {

                    let item = attributes[i11].clone();
                    out11.push(item);
                }
                proof { assert(out11.deep_view() =~= attributes.deep_view()); }
                let mut out12: Vec<GenericParam> = Vec::new();
                for i12 in 0..generics.len()
                    invariant
                        out12@.len() == i12,
                        forall|j: int| 0 <= j < i12 ==> #[trigger] out12@[j].deep_view() == generics@[j].deep_view(),

                {

                    let item = generics[i12].clone();
                    out12.push(item);
                }
                proof { assert(out12.deep_view() =~= generics.deep_view()); }
                let mut out13: Vec<TyHirEnumVariant> = Vec::new();
                for i13 in 0..variants.len()
                    invariant
                        out13@.len() == i13,
                        forall|j: int| 0 <= j < i13 ==> #[trigger] out13@[j].deep_view() == variants@[j].deep_view(),

                {

                    let item = variants[i13].clone();
                    out13.push(item);
                }
                proof { assert(out13.deep_view() =~= variants.deep_view()); }
                let r = TyHirItem::Enum { def_id: *def_id, visibility: *visibility, attributes: out11, name: name.clone(), generics: out12, variants: out13 };
                proof { lemma_ty_hir_item_view(r); }
                r
            }
            TyHirItem::Static { def_id, visibility, attributes, name, ty, init, is_const } => {
                let mut out14: Vec<Meta> = Vec::new();
                for i14 in 0..attributes.len()
                    invariant
                        out14@.len() == i14,
                        forall|j: int| 0 <= j < i14 ==> #[trigger] out14@[j].deep_view() == attributes@[j].deep_view(),

                {

                    let item = attributes[i14].clone();
                    out14.push(item);
                }
                proof { assert(out14.deep_view() =~= attributes.deep_view()); }
                let r = TyHirItem::Static { def_id: *def_id, visibility: *visibility, attributes: out14, name: name.clone(), ty: ty.clone(), init: init.clone(), is_const: *is_const };
                proof { lemma_ty_hir_item_view(r); }
                r
            }
            TyHirItem::VTable { trait_def, impl_type_def, methods } => {
                let mut out15: Vec<DefId> = Vec::new();
                for i15 in 0..methods.len()
                    invariant
                        out15@.len() == i15,
                        forall|j: int| 0 <= j < i15 ==> #[trigger] out15@[j].deep_view() == methods@[j].deep_view(),

                {

                    let item = methods[i15];
                    out15.push(item);
                }
                proof { assert(out15.deep_view() =~= methods.deep_view()); }
                let r = TyHirItem::VTable { trait_def: *trait_def, impl_type_def: *impl_type_def, methods: out15 };
                proof { lemma_ty_hir_item_view(r); }
                r
            }
        }
    }
}

/// A module.
#[derive(Debug, PartialEq, Eq)]
pub struct TyHirModule {
    pub def_id: DefId,
    pub name: String,
    pub visibility: Visibility,
    pub attributes: Vec<Meta>,
    pub items: Vec<TyHirItem>,
}

/// Model of [`TyHirModule`].
#[verifier::ext_equal]
pub struct TyHirModuleV {
    pub def_id: DefId,
    pub name: Seq<char>,
    pub visibility: Visibility,
    pub attributes: Seq<MetaV>,
    pub items: Seq<TyHirItemV>,
}

/// The model of a [`TyHirModule`], component by component.
#[verifier::opaque]
pub open spec fn ty_hir_module_view(e: TyHirModule) -> TyHirModuleV
    decreases e,
{
    TyHirModuleV { def_id: e.def_id, name: e.name@, visibility: e.visibility, attributes: e.attributes.deep_view(), items: Seq::new(
            e.items@.len(),
            |i: int|
            if 0 <= i < e.items@.len() { ty_hir_item_view(e.items@[i]) } else { arbitrary() },
        ) }
}

impl DeepView for TyHirModule {
    type V = TyHirModuleV;

    open spec fn deep_view(&self) -> TyHirModuleV {
        ty_hir_module_view(*self)
    }
}

/// Unfolds the model of a [`TyHirModule`] by one level.
pub proof fn lemma_ty_hir_module_view(e: TyHirModule)
    ensures
        e.deep_view() == (
            TyHirModuleV { def_id: e.def_id, name: e.name@, visibility: e.visibility, attributes: e.attributes.deep_view(), items: e.items.deep_view() }
        ),
{
    reveal(ty_hir_item_view);
    reveal(ty_hir_module_view);
    assert(ty_hir_module_view(e).items =~= e.items.deep_view());
}

impl Clone for TyHirModule {
    fn clone(&self) -> (r: Self)
        ensures
            r.deep_view() == self.deep_view(),
        decreases self,
    {
        proof { lemma_ty_hir_module_view(*self); }
        let mut out1: Vec<Meta> = Vec::new();
        for i1 in 0..self.attributes.len()
            invariant
                out1@.len() == i1,
                forall|j: int| 0 <= j < i1 ==> #[trigger] out1@[j].deep_view() == self.attributes@[j].deep_view(),

        {

            let item = self.attributes[i1].clone();
            out1.push(item);
        }
        proof { assert(out1.deep_view() =~= self.attributes.deep_view()); }
        let mut out2: Vec<TyHirItem> = Vec::new();
        for i2 in 0..self.items.len()
            invariant
                out2@.len() == i2,
                forall|j: int| 0 <= j < i2 ==> #[trigger] out2@[j].deep_view() == self.items@[j].deep_view(),
                decreases_to!(self => self.items),
        {

            let item = self.items[i2].clone();
            out2.push(item);
        }
        proof { assert(out2.deep_view() =~= self.items.deep_view()); }
        let r = TyHirModule { def_id: self.def_id, name: self.name.clone(), visibility: self.visibility, attributes: out1, items: out2 };
        proof { lemma_ty_hir_module_view(r); }
        r
    }
}

/// A program whose every expression carries its type.
#[derive(Debug, PartialEq, Eq)]
pub struct TyHirCompilationUnit {
    pub root_module: TyHirModule,
    pub vtables: Vec<VTable>,
}

/// Model of [`TyHirCompilationUnit`].
#[verifier::ext_equal]
pub struct TyHirCompilationUnitV {
    pub root_module: TyHirModuleV,
    pub vtables: Seq<VTableV>,
}

/// The model of a [`TyHirCompilationUnit`], component by component.
pub open spec fn ty_hir_compilation_unit_view(e: TyHirCompilationUnit) -> TyHirCompilationUnitV {
    TyHirCompilationUnitV { root_module: e.root_module.deep_view(), vtables: e.vtables.deep_view() }
}

impl DeepView for TyHirCompilationUnit {
    type V = TyHirCompilationUnitV;

    open spec fn deep_view(&self) -> TyHirCompilationUnitV {
        ty_hir_compilation_unit_view(*self)
    }
}

impl Clone for TyHirCompilationUnit {
    fn clone(&self) -> (r: Self)
        ensures
            r.deep_view() == self.deep_view(),
    {
        let mut out1: Vec<VTable> = Vec::new();
        for i1 in 0..self.vtables.len()
            invariant
                out1@.len() == i1,
                forall|j: int| 0 <= j < i1 ==> #[trigger] out1@[j].deep_view() == self.vtables@[j].deep_view(),

        {

            let item = self.vtables[i1].clone();
            out1.push(item);
        }
        proof { assert(out1.deep_view() =~= self.vtables.deep_view()); }
        TyHirCompilationUnit { root_module: self.root_module.clone(), vtables: out1 }
    }
}


} // verus!
