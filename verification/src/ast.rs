//! The syntax tree.
//!
//! Each type `T` of the tree has a mathematical model `TV`, in which strings
//! are `Seq<char>` and vectors are `Seq`; `deep_view` maps a tree to its model.
//! A clone has the model of what it was cloned from.

use crate::text::same_text;
use vstd::prelude::*;
use vstd::string::*;

verus! {

/// A binary operator.
#[derive(Debug, Clone, Copy, PartialEq, Eq, Hash, Structural)]
pub enum BinOp {
    Less,
    LessEqual,
    Equal,
    NotEqual,
    Greater,
    GreaterEqual,
    Add,
    Sub,
    Mul,
    Div,
}

impl DeepView for BinOp {
    type V = BinOp;

    open spec fn deep_view(&self) -> BinOp {
        *self
    }
}

/// The kind of a generic parameter: a type `T` or a constant `const N: int`.
#[derive(Debug, Clone, Copy, PartialEq, Eq, Structural)]
pub enum GenericParamKind {
    Type,
    Const,
}

impl DeepView for GenericParamKind {
    type V = GenericParamKind;

    open spec fn deep_view(&self) -> GenericParamKind {
        *self
    }
}

/// A literal value.
#[derive(Debug, PartialEq, Eq)]
pub enum Literal {
    Int(i64),
    String(String),
}

/// Model of [`Literal`].
#[verifier::ext_equal]
pub enum LiteralV {
    Int(i64),
    String(Seq<char>),
}

/// The model of a [`Literal`], component by component.
pub open spec fn literal_view(e: Literal) -> LiteralV {
    match e {
        Literal::Int(f0) => LiteralV::Int(f0),
        Literal::String(f0) => LiteralV::String(f0@),
    }
}

impl DeepView for Literal {
    type V = LiteralV;

    open spec fn deep_view(&self) -> LiteralV {
        literal_view(*self)
    }
}

impl Clone for Literal {
    fn clone(&self) -> (r: Self)
        ensures
            r.deep_view() == self.deep_view(),
    {
        match self {
            Literal::Int(f0) => {

                Literal::Int(*f0)
            }
            Literal::String(f0) => {

                Literal::String(f0.clone())
            }
        }
    }
}

/// One declared generic parameter, such as `T` or `const N: int`.
#[derive(Debug, PartialEq, Eq)]
pub struct GenericParam {
    pub name: String,
    pub kind: GenericParamKind,
}

/// Model of [`GenericParam`].
#[verifier::ext_equal]
pub struct GenericParamV {
    pub name: Seq<char>,
    pub kind: GenericParamKind,
}

/// The model of a [`GenericParam`], component by component.
pub open spec fn generic_param_view(e: GenericParam) -> GenericParamV {
    GenericParamV { name: e.name@, kind: e.kind }
}

impl DeepView for GenericParam {
    type V = GenericParamV;

    open spec fn deep_view(&self) -> GenericParamV {
        generic_param_view(*self)
    }
}

impl Clone for GenericParam {
    fn clone(&self) -> (r: Self)
        ensures
            r.deep_view() == self.deep_view(),
    {

        GenericParam { name: self.name.clone(), kind: self.kind }
    }
}

/// A name, possibly qualified: `a::b::c`.
#[derive(Debug, PartialEq, Eq)]
pub struct Path {
    pub segments: Vec<String>,
}

/// Model of [`Path`].
#[verifier::ext_equal]
pub struct PathV {
    pub segments: Seq<Seq<char>>,
}

/// The model of a [`Path`], component by component.
pub open spec fn path_view(e: Path) -> PathV {
    PathV { segments: e.segments.deep_view() }
}

impl DeepView for Path {
    type V = PathV;

    open spec fn deep_view(&self) -> PathV {
        path_view(*self)
    }
}

impl Clone for Path {
    fn clone(&self) -> (r: Self)
        ensures
            r.deep_view() == self.deep_view(),
    {
        let mut out1: Vec<String> = Vec::new();
        for i1 in 0..self.segments.len()
            invariant
                out1@.len() == i1,
                forall|j: int| 0 <= j < i1 ==> #[trigger] out1@[j].deep_view() == self.segments@[j].deep_view(),

        {

            let item = self.segments[i1].clone();
            out1.push(item);
        }
        proof { assert(out1.deep_view() =~= self.segments.deep_view()); }
        Path { segments: out1 }
    }
}

/// The length of an array type.
#[derive(Debug, PartialEq, Eq)]
pub enum ArrayLen {
    Known(usize),
    Param(String),
}

/// Model of [`ArrayLen`].
#[verifier::ext_equal]
pub enum ArrayLenV {
    Known(usize),
    Param(Seq<char>),
}

/// The model of a [`ArrayLen`], component by component.
pub open spec fn array_len_view(e: ArrayLen) -> ArrayLenV {
    match e {
        ArrayLen::Known(f0) => ArrayLenV::Known(f0),
        ArrayLen::Param(f0) => ArrayLenV::Param(f0@),
    }
}

impl DeepView for ArrayLen {
    type V = ArrayLenV;

    open spec fn deep_view(&self) -> ArrayLenV {
        array_len_view(*self)
    }
}

impl Clone for ArrayLen {
    fn clone(&self) -> (r: Self)
        ensures
            r.deep_view() == self.deep_view(),
    {
        match self {
            ArrayLen::Known(f0) => {

                ArrayLen::Known(*f0)
            }
            ArrayLen::Param(f0) => {

                ArrayLen::Param(f0.clone())
            }
        }
    }
}

/// An explicit generic argument: a type or an integer constant.
#[derive(Debug, PartialEq, Eq)]
pub enum TypeOrConst {
    Type(Type),
    Const(i64),
}

/// Model of [`TypeOrConst`].
#[verifier::ext_equal]
pub enum TypeOrConstV {
    Type(TypeV),
    Const(i64),
}

/// The model of a [`TypeOrConst`], component by component.
#[verifier::opaque]
pub open spec fn type_or_const_view(e: TypeOrConst) -> TypeOrConstV
    decreases e,
{
    match e {
        TypeOrConst::Type(f0) => TypeOrConstV::Type(type_view(f0)),
        TypeOrConst::Const(f0) => TypeOrConstV::Const(f0),
    }
}

impl DeepView for TypeOrConst {
    type V = TypeOrConstV;

    open spec fn deep_view(&self) -> TypeOrConstV {
        type_or_const_view(*self)
    }
}

/// Unfolds the model of a [`TypeOrConst`] by one level.
pub proof fn lemma_type_or_const_view(e: TypeOrConst)
    ensures
        e.deep_view() == (match e {
                TypeOrConst::Type(f0) => TypeOrConstV::Type(f0.deep_view()),
                TypeOrConst::Const(f0) => TypeOrConstV::Const(f0),
        }),
{
    reveal(type_or_const_view);
    reveal(type_view);
}

impl Clone for TypeOrConst {
    fn clone(&self) -> (r: Self)
        ensures
            r.deep_view() == self.deep_view(),
        decreases self,
    {
        proof { lemma_type_or_const_view(*self); }
        match self {
            TypeOrConst::Type(f0) => {

                let r = TypeOrConst::Type(f0.clone());
                proof { lemma_type_or_const_view(r); }
                r
            }
            TypeOrConst::Const(f0) => {

                let r = TypeOrConst::Const(*f0);
                proof { lemma_type_or_const_view(r); }
                r
            }
        }
    }
}

/// A type as written in the source.
#[derive(Debug, PartialEq, Eq)]
pub enum Type {
    Int,
    Char,
    Pointer(Box<Type>),
    Unit,
    Named(Path),
    Array(Box<Type>, ArrayLen),
    Applied(Path, Vec<TypeOrConst>),
    Enum(Path, Vec<TypeOrConst>),
}

/// Model of [`Type`].
#[verifier::ext_equal]
pub enum TypeV {
    Int,
    Char,
    Pointer(Box<TypeV>),
    Unit,
    Named(PathV),
    Array(Box<TypeV>, ArrayLenV),
    Applied(PathV, Seq<TypeOrConstV>),
    Enum(PathV, Seq<TypeOrConstV>),
}

/// The model of a [`Type`], component by component.
#[verifier::opaque]
pub open spec fn type_view(e: Type) -> TypeV
    decreases e,
{
    match e {
        Type::Int => TypeV::Int,
        Type::Char => TypeV::Char,
        Type::Pointer(f0) => TypeV::Pointer(Box::new(type_view(*f0))),
        Type::Unit => TypeV::Unit,
        Type::Named(f0) => TypeV::Named(f0.deep_view()),
        Type::Array(f0, f1) => TypeV::Array(Box::new(type_view(*f0)), f1.deep_view()),
        Type::Applied(f0, f1) => TypeV::Applied(f0.deep_view(), Seq::new(
                f1@.len(),
                |i: int|
                if 0 <= i < f1@.len() { type_or_const_view(f1@[i]) } else { arbitrary() },
        )),
        Type::Enum(f0, f1) => TypeV::Enum(f0.deep_view(), Seq::new(
                f1@.len(),
                |i: int|
                if 0 <= i < f1@.len() { type_or_const_view(f1@[i]) } else { arbitrary() },
        )),
    }
}

impl DeepView for Type {
    type V = TypeV;

    open spec fn deep_view(&self) -> TypeV {
        type_view(*self)
    }
}

/// Unfolds the model of a [`Type`] by one level.
pub proof fn lemma_type_view(e: Type)
    ensures
        e.deep_view() == (match e {
                Type::Int => TypeV::Int,
                Type::Char => TypeV::Char,
                Type::Pointer(f0) => TypeV::Pointer(Box::new((*f0).deep_view())),
                Type::Unit => TypeV::Unit,
                Type::Named(f0) => TypeV::Named(f0.deep_view()),
                Type::Array(f0, f1) => TypeV::Array(Box::new((*f0).deep_view()), f1.deep_view()),
                Type::Applied(f0, f1) => TypeV::Applied(f0.deep_view(), f1.deep_view()),
                Type::Enum(f0, f1) => TypeV::Enum(f0.deep_view(), f1.deep_view()),
        }),
{
    reveal(type_or_const_view);
    reveal(type_view);
    match e {
        Type::Applied(f0, f1) => {
            assert(type_view(e)->Applied_1 =~= f1.deep_view());
        }
        Type::Enum(f0, f1) => {
            assert(type_view(e)->Enum_1 =~= f1.deep_view());
        }
        _ => {}
    }
}

impl Clone for Type {
    fn clone(&self) -> (r: Self)
        ensures
            r.deep_view() == self.deep_view(),
        decreases self,
    {
        proof { lemma_type_view(*self); }
        match self {
            Type::Int => {

                let r = Type::Int;
                proof { lemma_type_view(r); }
                r
            }
            Type::Char => {

                let r = Type::Char;
                proof { lemma_type_view(r); }
                r
            }
            Type::Pointer(f0) => {

                let r = Type::Pointer(Box::new((&**f0).clone()));
                proof { lemma_type_view(r); }
                r
            }
            Type::Unit => {

                let r = Type::Unit;
                proof { lemma_type_view(r); }
                r
            }
            Type::Named(f0) => {

                let r = Type::Named(f0.clone());
                proof { lemma_type_view(r); }
                r
            }
            Type::Array(f0, f1) => {

                let r = Type::Array(Box::new((&**f0).clone()), f1.clone());
                proof { lemma_type_view(r); }
                r
            }
            Type::Applied(f0, f1) => {
                let mut out1: Vec<TypeOrConst> = Vec::new();
                for i1 in 0..f1.len()
                    invariant
                        out1@.len() == i1,
                        forall|j: int| 0 <= j < i1 ==> #[trigger] out1@[j].deep_view() == f1@[j].deep_view(),
                        decreases_to!(self => f1),
                {

                    let item = f1[i1].clone();
                    out1.push(item);
                }
                proof { assert(out1.deep_view() =~= f1.deep_view()); }
                let r = Type::Applied(f0.clone(), out1);
                proof { lemma_type_view(r); }
                r
            }
            Type::Enum(f0, f1) => {
                let mut out2: Vec<TypeOrConst> = Vec::new();
                for i2 in 0..f1.len()
                    invariant
                        out2@.len() == i2,
                        forall|j: int| 0 <= j < i2 ==> #[trigger] out2@[j].deep_view() == f1@[j].deep_view(),
                        decreases_to!(self => f1),
                {

                    let item = f1[i2].clone();
                    out2.push(item);
                }
                proof { assert(out2.deep_view() =~= f1.deep_view()); }
                let r = Type::Enum(f0.clone(), out2);
                proof { lemma_type_view(r); }
                r
            }
        }
    }
}

/// The content of an annotation `#[...]`, as a tree of meta items.
/// Every annotation has the same shape, whatever its name: a bare mark, a
/// name with a value, or a name with a list.
#[derive(Debug, PartialEq, Eq)]
pub enum Meta {
    Path(Path),
    NameValue {
        name: Path,
        value: Literal,
    },
    List {
        name: Path,
        items: Vec<Meta>,
    },
}

/// Model of [`Meta`].
#[verifier::ext_equal]
pub enum MetaV {
    Path(PathV),
    NameValue {
        name: PathV,
        value: LiteralV,
    },
    List {
        name: PathV,
        items: Seq<MetaV>,
    },
}

/// The model of a [`Meta`], component by component.
#[verifier::opaque]
pub open spec fn meta_view(e: Meta) -> MetaV
    decreases e,
{
    match e {
        Meta::Path(f0) => MetaV::Path(f0.deep_view()),
        Meta::NameValue { name, value } => MetaV::NameValue { name: name.deep_view(), value: value.deep_view() },
        Meta::List { name, items } => MetaV::List { name: name.deep_view(), items: Seq::new(
                items@.len(),
                |i: int|
                if 0 <= i < items@.len() { meta_view(items@[i]) } else { arbitrary() },
            ) },
    }
}

impl DeepView for Meta {
    type V = MetaV;

    open spec fn deep_view(&self) -> MetaV {
        meta_view(*self)
    }
}

/// Unfolds the model of a [`Meta`] by one level.
pub proof fn lemma_meta_view(e: Meta)
    ensures
        e.deep_view() == (match e {
                Meta::Path(f0) => MetaV::Path(f0.deep_view()),
                Meta::NameValue { name, value } => MetaV::NameValue { name: name.deep_view(), value: value.deep_view() },
                Meta::List { name, items } => MetaV::List { name: name.deep_view(), items: items.deep_view() },
        }),
{
    reveal(meta_view);
    match e {
        Meta::List { name, items } => {
            assert(meta_view(e)->List_items =~= items.deep_view());
        }
        _ => {}
    }
}

impl Clone for Meta {
    fn clone(&self) -> (r: Self)
        ensures
            r.deep_view() == self.deep_view(),
        decreases self,
    {
        proof { lemma_meta_view(*self); }
        match self {
            Meta::Path(f0) => {

                let r = Meta::Path(f0.clone());
                proof { lemma_meta_view(r); }
                r
            }
            Meta::NameValue { name, value } => {

                let r = Meta::NameValue { name: name.clone(), value: value.clone() };
                proof { lemma_meta_view(r); }
                r
            }
            Meta::List { name, items } => {
                let mut out1: Vec<Meta> = Vec::new();
                for i1 in 0..items.len()
                    invariant
                        out1@.len() == i1,
                        forall|j: int| 0 <= j < i1 ==> #[trigger] out1@[j].deep_view() == items@[j].deep_view(),
                        decreases_to!(self => items),
                {

                    let item = items[i1].clone();
                    out1.push(item);
                }
                proof { assert(out1.deep_view() =~= items.deep_view()); }
                let r = Meta::List { name: name.clone(), items: out1 };
                proof { lemma_meta_view(r); }
                r
            }
        }
    }
}

/// A declared function parameter.
#[derive(Debug, PartialEq, Eq)]
pub struct Param {
    pub name: String,
    pub ty: Type,
}

/// Model of [`Param`].
#[verifier::ext_equal]
pub struct ParamV {
    pub name: Seq<char>,
    pub ty: TypeV,
}

/// The model of a [`Param`], component by component.
pub open spec fn param_view(e: Param) -> ParamV {
    ParamV { name: e.name@, ty: e.ty.deep_view() }
}

impl DeepView for Param {
    type V = ParamV;

    open spec fn deep_view(&self) -> ParamV {
        param_view(*self)
    }
}

impl Clone for Param {
    fn clone(&self) -> (r: Self)
        ensures
            r.deep_view() == self.deep_view(),
    {

        Param { name: self.name.clone(), ty: self.ty.clone() }
    }
}

/// One variant of an enumeration with its payload fields.
#[derive(Debug, PartialEq, Eq)]
pub struct EnumVariant {
    pub name: String,
    pub fields: Vec<(String, Type)>,
}

/// Model of [`EnumVariant`].
#[verifier::ext_equal]
pub struct EnumVariantV {
    pub name: Seq<char>,
    pub fields: Seq<(Seq<char>, TypeV)>,
}

/// The model of a [`EnumVariant`], component by component.
pub open spec fn enum_variant_view(e: EnumVariant) -> EnumVariantV {
    EnumVariantV { name: e.name@, fields: e.fields.deep_view() }
}

impl DeepView for EnumVariant {
    type V = EnumVariantV;

    open spec fn deep_view(&self) -> EnumVariantV {
        enum_variant_view(*self)
    }
}

impl Clone for EnumVariant {
    fn clone(&self) -> (r: Self)
        ensures
            r.deep_view() == self.deep_view(),
    {
        let mut out1: Vec<(String, Type)> = Vec::new();
        for i1 in 0..self.fields.len()
            invariant
                out1@.len() == i1,
                forall|j: int| 0 <= j < i1 ==> #[trigger] out1@[j].deep_view() == self.fields@[j].deep_view(),

        {

            let item = (self.fields[i1].0.clone(), self.fields[i1].1.clone());
            out1.push(item);
        }
        proof { assert(out1.deep_view() =~= self.fields.deep_view()); }
        EnumVariant { name: self.name.clone(), fields: out1 }
    }
}

/// The pattern of a match arm.
#[derive(Debug, PartialEq, Eq)]
pub enum Pattern {
    Variant {
        enum_def: Path,
        variant: String,
        bindings: Vec<(String, Option<Type>)>,
    },
    Literal(Literal),
    Wildcard,
    Ident(String),
}

/// Model of [`Pattern`].
#[verifier::ext_equal]
pub enum PatternV {
    Variant {
        enum_def: PathV,
        variant: Seq<char>,
        bindings: Seq<(Seq<char>, Option<TypeV>)>,
    },
    Literal(LiteralV),
    Wildcard,
    Ident(Seq<char>),
}

/// The model of a [`Pattern`], component by component.
pub open spec fn pattern_view(e: Pattern) -> PatternV {
    match e {
        Pattern::Variant { enum_def, variant, bindings } => PatternV::Variant { enum_def: enum_def.deep_view(), variant: variant@, bindings: bindings.deep_view() },
        Pattern::Literal(f0) => PatternV::Literal(f0.deep_view()),
        Pattern::Wildcard => PatternV::Wildcard,
        Pattern::Ident(f0) => PatternV::Ident(f0@),
    }
}

impl DeepView for Pattern {
    type V = PatternV;

    open spec fn deep_view(&self) -> PatternV {
        pattern_view(*self)
    }
}

impl Clone for Pattern {
    fn clone(&self) -> (r: Self)
        ensures
            r.deep_view() == self.deep_view(),
    {
        match self {
            Pattern::Variant { enum_def, variant, bindings } => {
                let mut out1: Vec<(String, Option<Type>)> = Vec::new();
                for i1 in 0..bindings.len()
                    invariant
                        out1@.len() == i1,
                        forall|j: int| 0 <= j < i1 ==> #[trigger] out1@[j].deep_view() == bindings@[j].deep_view(),

                {
                    let opt3: Option<Type> = match &bindings[i1].1 {
                        Some(x3) => {

                            Some(x3.clone())
                        }
                        None => None,
                    };
                    let item = (bindings[i1].0.clone(), opt3);
                    out1.push(item);
                }
                proof { assert(out1.deep_view() =~= bindings.deep_view()); }
                Pattern::Variant { enum_def: enum_def.clone(), variant: variant.clone(), bindings: out1 }
            }
            Pattern::Literal(f0) => {

                Pattern::Literal(f0.clone())
            }
            Pattern::Wildcard => {

                Pattern::Wildcard
            }
            Pattern::Ident(f0) => {

                Pattern::Ident(f0.clone())
            }
        }
    }
}

/// One arm of a `match` expression.
#[derive(Debug, PartialEq, Eq)]
pub struct MatchArm {
    pub pattern: Pattern,
    pub body: Vec<Stmt>,
}

/// Model of [`MatchArm`].
#[verifier::ext_equal]
pub struct MatchArmV {
    pub pattern: PatternV,
    pub body: Seq<StmtV>,
}

/// The model of a [`MatchArm`], component by component.
#[verifier::opaque]
pub open spec fn match_arm_view(e: MatchArm) -> MatchArmV
    decreases e,
{
    MatchArmV { pattern: e.pattern.deep_view(), body: Seq::new(
            e.body@.len(),
            |i: int|
            if 0 <= i < e.body@.len() { stmt_view(e.body@[i]) } else { arbitrary() },
        ) }
}

impl DeepView for MatchArm {
    type V = MatchArmV;

    open spec fn deep_view(&self) -> MatchArmV {
        match_arm_view(*self)
    }
}

/// Unfolds the model of a [`MatchArm`] by one level.
pub proof fn lemma_match_arm_view(e: MatchArm)
    ensures
        e.deep_view() == (MatchArmV { pattern: e.pattern.deep_view(), body: e.body.deep_view() }),
{
    reveal(match_arm_view);
    reveal(expr_view);
    reveal(stmt_view);
    assert(match_arm_view(e).body =~= e.body.deep_view());
}

impl Clone for MatchArm {
    fn clone(&self) -> (r: Self)
        ensures
            r.deep_view() == self.deep_view(),
        decreases self,
    {
        proof { lemma_match_arm_view(*self); }
        let mut out1: Vec<Stmt> = Vec::new();
        for i1 in 0..self.body.len()
            invariant
                out1@.len() == i1,
                forall|j: int| 0 <= j < i1 ==> #[trigger] out1@[j].deep_view() == self.body@[j].deep_view(),
                decreases_to!(self => self.body),
        {

            let item = self.body[i1].clone();
            out1.push(item);
        }
        proof { assert(out1.deep_view() =~= self.body.deep_view()); }
        let r = MatchArm { pattern: self.pattern.clone(), body: out1 };
        proof { lemma_match_arm_view(r); }
        r
    }
}

/// An expression.
#[derive(Debug, PartialEq, Eq)]
pub enum Expr {
    Literal(Literal),
    Ident(Path),
    Paren(Box<Expr>),
    Binary {
        op: BinOp,
        lhs: Box<Expr>,
        rhs: Box<Expr>,
    },
    Call {
        callee: Path,
        args: Vec<Expr>,
        turbofish: Vec<TypeOrConst>,
    },
    FieldAccess {
        object: Box<Expr>,
        field: String,
    },
    StructLiteral {
        name: Path,
        fields: Vec<(String, Expr)>,
        turbofish: Vec<TypeOrConst>,
    },
    ArrayLiteral {
        elements: Vec<Expr>,
        repeat: Option<Box<Expr>>,
    },
    Index {
        array: Box<Expr>,
        index: Box<Expr>,
    },
    AddrOf(Box<Expr>),
    Deref(Box<Expr>),
    MethodCall {
        object: Box<Expr>,
        name: String,
        args: Vec<Expr>,
    },
    StaticCall {
        ty_path: Path,
        method: String,
        args: Vec<Expr>,
        turbofish: Vec<TypeOrConst>,
    },
    Match {
        scrutinee: Box<Expr>,
        arms: Vec<MatchArm>,
    },
}

/// Model of [`Expr`].
#[verifier::ext_equal]
pub enum ExprV {
    Literal(LiteralV),
    Ident(PathV),
    Paren(Box<ExprV>),
    Binary {
        op: BinOp,
        lhs: Box<ExprV>,
        rhs: Box<ExprV>,
    },
    Call {
        callee: PathV,
        args: Seq<ExprV>,
        turbofish: Seq<TypeOrConstV>,
    },
    FieldAccess {
        object: Box<ExprV>,
        field: Seq<char>,
    },
    StructLiteral {
        name: PathV,
        fields: Seq<(Seq<char>, ExprV)>,
        turbofish: Seq<TypeOrConstV>,
    },
    ArrayLiteral {
        elements: Seq<ExprV>,
        repeat: Option<Box<ExprV>>,
    },
    Index {
        array: Box<ExprV>,
        index: Box<ExprV>,
    },
    AddrOf(Box<ExprV>),
    Deref(Box<ExprV>),
    MethodCall {
        object: Box<ExprV>,
        name: Seq<char>,
        args: Seq<ExprV>,
    },
    StaticCall {
        ty_path: PathV,
        method: Seq<char>,
        args: Seq<ExprV>,
        turbofish: Seq<TypeOrConstV>,
    },
    Match {
        scrutinee: Box<ExprV>,
        arms: Seq<MatchArmV>,
    },
}

/// The model of a [`Expr`], component by component.
#[verifier::opaque]
pub open spec fn expr_view(e: Expr) -> ExprV
    decreases e,
{
    match e {
        Expr::Literal(f0) => ExprV::Literal(f0.deep_view()),
        Expr::Ident(f0) => ExprV::Ident(f0.deep_view()),
        Expr::Paren(f0) => ExprV::Paren(Box::new(expr_view(*f0))),
        Expr::Binary { op, lhs, rhs } => ExprV::Binary { op, lhs: Box::new(expr_view(*lhs)), rhs: Box::new(expr_view(*rhs)) },
        Expr::Call { callee, args, turbofish } => ExprV::Call { callee: callee.deep_view(), args: Seq::new(
                args@.len(),
                |i: int|
                if 0 <= i < args@.len() { expr_view(args@[i]) } else { arbitrary() },
            ), turbofish: turbofish.deep_view() },
        Expr::FieldAccess { object, field } => ExprV::FieldAccess { object: Box::new(expr_view(*object)), field: field@ },
        Expr::StructLiteral { name, fields, turbofish } => ExprV::StructLiteral { name: name.deep_view(), fields: Seq::new(
                fields@.len(),
                |i: int|
                if 0 <= i < fields@.len() { (fields@[i].0@, expr_view(fields@[i].1)) } else { arbitrary() },
            ), turbofish: turbofish.deep_view() },
        Expr::ArrayLiteral { elements, repeat } => ExprV::ArrayLiteral { elements: Seq::new(
                elements@.len(),
                |i: int|
                if 0 <= i < elements@.len() { expr_view(elements@[i]) } else { arbitrary() },
            ), repeat: match repeat {
                Some(x0) => Some(Box::new(expr_view(*x0))),
                None => None,
                }
            },
        Expr::Index { array, index } => ExprV::Index { array: Box::new(expr_view(*array)), index: Box::new(expr_view(*index)) },
        Expr::AddrOf(f0) => ExprV::AddrOf(Box::new(expr_view(*f0))),
        Expr::Deref(f0) => ExprV::Deref(Box::new(expr_view(*f0))),
        Expr::MethodCall { object, name, args } => ExprV::MethodCall { object: Box::new(expr_view(*object)), name: name@, args: Seq::new(
                args@.len(),
                |i: int|
                if 0 <= i < args@.len() { expr_view(args@[i]) } else { arbitrary() },
            ) },
        Expr::StaticCall { ty_path, method, args, turbofish } => ExprV::StaticCall { ty_path: ty_path.deep_view(), method: method@, args: Seq::new(
                args@.len(),
                |i: int|
                if 0 <= i < args@.len() { expr_view(args@[i]) } else { arbitrary() },
            ), turbofish: turbofish.deep_view() },
        Expr::Match { scrutinee, arms } => ExprV::Match { scrutinee: Box::new(expr_view(*scrutinee)), arms: Seq::new(
                arms@.len(),
                |i: int|
                if 0 <= i < arms@.len() { match_arm_view(arms@[i]) } else { arbitrary() },
            ) },
    }
}

impl DeepView for Expr {
    type V = ExprV;

    open spec fn deep_view(&self) -> ExprV {
        expr_view(*self)
    }
}

/// Unfolds the model of a [`Expr`] by one level.
pub proof fn lemma_expr_view(e: Expr)
    ensures
        e.deep_view() == (match e {
                Expr::Literal(f0) => ExprV::Literal(f0.deep_view()),
                Expr::Ident(f0) => ExprV::Ident(f0.deep_view()),
                Expr::Paren(f0) => ExprV::Paren(Box::new((*f0).deep_view())),
                Expr::Binary { op, lhs, rhs } => ExprV::Binary { op, lhs: Box::new((*lhs).deep_view()), rhs: Box::new((*rhs).deep_view()) },
                Expr::Call { callee, args, turbofish } => ExprV::Call { callee: callee.deep_view(), args: args.deep_view(), turbofish: turbofish.deep_view() },
                Expr::FieldAccess { object, field } => ExprV::FieldAccess { object: Box::new((*object).deep_view()), field: field@ },
                Expr::StructLiteral { name, fields, turbofish } => ExprV::StructLiteral { name: name.deep_view(), fields: fields.deep_view(), turbofish: turbofish.deep_view() },
                Expr::ArrayLiteral { elements, repeat } => ExprV::ArrayLiteral { elements: elements.deep_view(), repeat: match repeat {
                        Some(x) => Some(Box::new((*x).deep_view())),
                        None => None,
                        }
                    },
                Expr::Index { array, index } => ExprV::Index { array: Box::new((*array).deep_view()), index: Box::new((*index).deep_view()) },
                Expr::AddrOf(f0) => ExprV::AddrOf(Box::new((*f0).deep_view())),
                Expr::Deref(f0) => ExprV::Deref(Box::new((*f0).deep_view())),
                Expr::MethodCall { object, name, args } => ExprV::MethodCall { object: Box::new((*object).deep_view()), name: name@, args: args.deep_view() },
                Expr::StaticCall { ty_path, method, args, turbofish } => ExprV::StaticCall { ty_path: ty_path.deep_view(), method: method@, args: args.deep_view(), turbofish: turbofish.deep_view() },
                Expr::Match { scrutinee, arms } => ExprV::Match { scrutinee: Box::new((*scrutinee).deep_view()), arms: arms.deep_view() },
        }),
{
    reveal(match_arm_view);
    reveal(expr_view);
    reveal(stmt_view);
    match e {
        Expr::Call { callee, args, turbofish } => {
            assert(expr_view(e)->Call_args =~= args.deep_view());
        }
        Expr::StructLiteral { name, fields, turbofish } => {
            assert(expr_view(e)->StructLiteral_fields =~= fields.deep_view());
        }
        Expr::ArrayLiteral { elements, repeat } => {
            assert(expr_view(e)->ArrayLiteral_elements =~= elements.deep_view());
        }
        Expr::MethodCall { object, name, args } => {
            assert(expr_view(e)->MethodCall_args =~= args.deep_view());
        }
        Expr::StaticCall { ty_path, method, args, turbofish } => {
            assert(expr_view(e)->StaticCall_args =~= args.deep_view());
        }
        Expr::Match { scrutinee, arms } => {
            assert(expr_view(e)->Match_arms =~= arms.deep_view());
        }
        _ => {}
    }
}

impl Clone for Expr {
    fn clone(&self) -> (r: Self)
        ensures
            r.deep_view() == self.deep_view(),
        decreases self,
    {
        proof { lemma_expr_view(*self); }
        match self {
            Expr::Literal(f0) => {

                let r = Expr::Literal(f0.clone());
                proof { lemma_expr_view(r); }
                r
            }
            Expr::Ident(f0) => {

                let r = Expr::Ident(f0.clone());
                proof { lemma_expr_view(r); }
                r
            }
            Expr::Paren(f0) => {

                let r = Expr::Paren(Box::new((&**f0).clone()));
                proof { lemma_expr_view(r); }
                r
            }
            Expr::Binary { op, lhs, rhs } => {

                let r = Expr::Binary { op: *op, lhs: Box::new((&**lhs).clone()), rhs: Box::new((&**rhs).clone()) };
                proof { lemma_expr_view(r); }
                r
            }
            Expr::Call { callee, args, turbofish } => {
                let mut out1: Vec<Expr> = Vec::new();
                for i1 in 0..args.len()
                    invariant
                        out1@.len() == i1,
                        forall|j: int| 0 <= j < i1 ==> #[trigger] out1@[j].deep_view() == args@[j].deep_view(),
                        decreases_to!(self => args),
                {

                    let item = args[i1].clone();
                    out1.push(item);
                }
                proof { assert(out1.deep_view() =~= args.deep_view()); }
                let mut out2: Vec<TypeOrConst> = Vec::new();
                for i2 in 0..turbofish.len()
                    invariant
                        out2@.len() == i2,
                        forall|j: int| 0 <= j < i2 ==> #[trigger] out2@[j].deep_view() == turbofish@[j].deep_view(),

                {

                    let item = turbofish[i2].clone();
                    out2.push(item);
                }
                proof { assert(out2.deep_view() =~= turbofish.deep_view()); }
                let r = Expr::Call { callee: callee.clone(), args: out1, turbofish: out2 };
                proof { lemma_expr_view(r); }
                r
            }
            Expr::FieldAccess { object, field } => {

                let r = Expr::FieldAccess { object: Box::new((&**object).clone()), field: field.clone() };
                proof { lemma_expr_view(r); }
                r
            }
            Expr::StructLiteral { name, fields, turbofish } => {
                let mut out3: Vec<(String, Expr)> = Vec::new();
                for i3 in 0..fields.len()
                    invariant
                        out3@.len() == i3,
                        forall|j: int| 0 <= j < i3 ==> #[trigger] out3@[j].deep_view() == fields@[j].deep_view(),
                        decreases_to!(self => fields),
                {

                    let item = (fields[i3].0.clone(), fields[i3].1.clone());
                    out3.push(item);
                }
                proof { assert(out3.deep_view() =~= fields.deep_view()); }
                let mut out5: Vec<TypeOrConst> = Vec::new();
                for i5 in 0..turbofish.len()
                    invariant
                        out5@.len() == i5,
                        forall|j: int| 0 <= j < i5 ==> #[trigger] out5@[j].deep_view() == turbofish@[j].deep_view(),

                {

                    let item = turbofish[i5].clone();
                    out5.push(item);
                }
                proof { assert(out5.deep_view() =~= turbofish.deep_view()); }
                let r = Expr::StructLiteral { name: name.clone(), fields: out3, turbofish: out5 };
                proof { lemma_expr_view(r); }
                r
            }
            Expr::ArrayLiteral { elements, repeat } => {
                let mut out6: Vec<Expr> = Vec::new();
                for i6 in 0..elements.len()
                    invariant
                        out6@.len() == i6,
                        forall|j: int| 0 <= j < i6 ==> #[trigger] out6@[j].deep_view() == elements@[j].deep_view(),
                        decreases_to!(self => elements),
                {

                    let item = elements[i6].clone();
                    out6.push(item);
                }
                proof { assert(out6.deep_view() =~= elements.deep_view()); }
                let opt7: Option<Box<Expr>> = match repeat {
                    Some(x7) => {

                        Some(Box::new((&**x7).clone()))
                    }
                    None => None,
                };
                let r = Expr::ArrayLiteral { elements: out6, repeat: opt7 };
                proof { lemma_expr_view(r); }
                r
            }
            Expr::Index { array, index } => {

                let r = Expr::Index { array: Box::new((&**array).clone()), index: Box::new((&**index).clone()) };
                proof { lemma_expr_view(r); }
                r
            }
            Expr::AddrOf(f0) => {

                let r = Expr::AddrOf(Box::new((&**f0).clone()));
                proof { lemma_expr_view(r); }
                r
            }
            Expr::Deref(f0) => {

                let r = Expr::Deref(Box::new((&**f0).clone()));
                proof { lemma_expr_view(r); }
                r
            }
            Expr::MethodCall { object, name, args } => {
                let mut out8: Vec<Expr> = Vec::new();
                for i8 in 0..args.len()
                    invariant
                        out8@.len() == i8,
                        forall|j: int| 0 <= j < i8 ==> #[trigger] out8@[j].deep_view() == args@[j].deep_view(),
                        decreases_to!(self => args),
                {

                    let item = args[i8].clone();
                    out8.push(item);
                }
                proof { assert(out8.deep_view() =~= args.deep_view()); }
                let r = Expr::MethodCall { object: Box::new((&**object).clone()), name: name.clone(), args: out8 };
                proof { lemma_expr_view(r); }
                r
            }
            Expr::StaticCall { ty_path, method, args, turbofish } => {
                let mut out9: Vec<Expr> = Vec::new();
                for i9 in 0..args.len()
                    invariant
                        out9@.len() == i9,
                        forall|j: int| 0 <= j < i9 ==> #[trigger] out9@[j].deep_view() == args@[j].deep_view(),
                        decreases_to!(self => args),
                {

                    let item = args[i9].clone();
                    out9.push(item);
                }
                proof { assert(out9.deep_view() =~= args.deep_view()); }
                let mut out10: Vec<TypeOrConst> = Vec::new();
                for i10 in 0..turbofish.len()
                    invariant
                        out10@.len() == i10,
                        forall|j: int| 0 <= j < i10 ==> #[trigger] out10@[j].deep_view() == turbofish@[j].deep_view(),

                {

                    let item = turbofish[i10].clone();
                    out10.push(item);
                }
                proof { assert(out10.deep_view() =~= turbofish.deep_view()); }
                let r = Expr::StaticCall { ty_path: ty_path.clone(), method: method.clone(), args: out9, turbofish: out10 };
                proof { lemma_expr_view(r); }
                r
            }
            Expr::Match { scrutinee, arms } => {
                let mut out11: Vec<MatchArm> = Vec::new();
                for i11 in 0..arms.len()
                    invariant
                        out11@.len() == i11,
                        forall|j: int| 0 <= j < i11 ==> #[trigger] out11@[j].deep_view() == arms@[j].deep_view(),
                        decreases_to!(self => arms),
                {

                    let item = arms[i11].clone();
                    out11.push(item);
                }
                proof { assert(out11.deep_view() =~= arms.deep_view()); }
                let r = Expr::Match { scrutinee: Box::new((&**scrutinee).clone()), arms: out11 };
                proof { lemma_expr_view(r); }
                r
            }
        }
    }
}

/// A statement.
#[derive(Debug, PartialEq, Eq)]
pub enum Stmt {
    Let {
        name: String,
        ty: Option<Type>,
        init: Expr,
    },
    Static {
        name: String,
        ty: Type,
        init: Expr,
    },
    Const {
        name: String,
        ty: Type,
        init: Expr,
    },
    Assign {
        target: Box<Expr>,
        value: Expr,
    },
    Expr(Expr),
    If {
        cond: Expr,
        then_branch: Vec<Stmt>,
        else_branch: Option<Vec<Stmt>>,
    },
    While {
        cond: Expr,
        body: Vec<Stmt>,
    },
    Return(Option<Expr>),
}

/// Model of [`Stmt`].
#[verifier::ext_equal]
pub enum StmtV {
    Let {
        name: Seq<char>,
        ty: Option<TypeV>,
        init: ExprV,
    },
    Static {
        name: Seq<char>,
        ty: TypeV,
        init: ExprV,
    },
    Const {
        name: Seq<char>,
        ty: TypeV,
        init: ExprV,
    },
    Assign {
        target: Box<ExprV>,
        value: ExprV,
    },
    Expr(ExprV),
    If {
        cond: ExprV,
        then_branch: Seq<StmtV>,
        else_branch: Option<Seq<StmtV>>,
    },
    While {
        cond: ExprV,
        body: Seq<StmtV>,
    },
    Return(Option<ExprV>),
}

/// The model of a [`Stmt`], component by component.
#[verifier::opaque]
pub open spec fn stmt_view(e: Stmt) -> StmtV
    decreases e,
{
    match e {
        Stmt::Let { name, ty, init } => StmtV::Let { name: name@, ty: ty.deep_view(), init: expr_view(init) },
        Stmt::Static { name, ty, init } => StmtV::Static { name: name@, ty: ty.deep_view(), init: expr_view(init) },
        Stmt::Const { name, ty, init } => StmtV::Const { name: name@, ty: ty.deep_view(), init: expr_view(init) },
        Stmt::Assign { target, value } => StmtV::Assign { target: Box::new(expr_view(*target)), value: expr_view(value) },
        Stmt::Expr(f0) => StmtV::Expr(expr_view(f0)),
        Stmt::If { cond, then_branch, else_branch } => StmtV::If { cond: expr_view(cond), then_branch: Seq::new(
                then_branch@.len(),
                |i: int|
                if 0 <= i < then_branch@.len() { stmt_view(then_branch@[i]) } else { arbitrary() },
            ), else_branch: match else_branch {
                Some(x0) => Some(Seq::new(
                        x0@.len(),
                        |j: int|
                        if 0 <= j < x0@.len() { stmt_view(x0@[j]) } else { arbitrary() },
                )),
                None => None,
                }
            },
        Stmt::While { cond, body } => StmtV::While { cond: expr_view(cond), body: Seq::new(
                body@.len(),
                |i: int|
                if 0 <= i < body@.len() { stmt_view(body@[i]) } else { arbitrary() },
            ) },
        Stmt::Return(f0) => StmtV::Return(match f0 {
                Some(x0) => Some(expr_view(x0)),
                None => None,
        }),
    }
}

impl DeepView for Stmt {
    type V = StmtV;

    open spec fn deep_view(&self) -> StmtV {
        stmt_view(*self)
    }
}

/// Unfolds the model of a [`Stmt`] by one level.
pub proof fn lemma_stmt_view(e: Stmt)
    ensures
        e.deep_view() == (match e {
                Stmt::Let { name, ty, init } => StmtV::Let { name: name@, ty: ty.deep_view(), init: init.deep_view() },
                Stmt::Static { name, ty, init } => StmtV::Static { name: name@, ty: ty.deep_view(), init: init.deep_view() },
                Stmt::Const { name, ty, init } => StmtV::Const { name: name@, ty: ty.deep_view(), init: init.deep_view() },
                Stmt::Assign { target, value } => StmtV::Assign { target: Box::new((*target).deep_view()), value: value.deep_view() },
                Stmt::Expr(f0) => StmtV::Expr(f0.deep_view()),
                Stmt::If { cond, then_branch, else_branch } => StmtV::If { cond: cond.deep_view(), then_branch: then_branch.deep_view(), else_branch: else_branch.deep_view() },
                Stmt::While { cond, body } => StmtV::While { cond: cond.deep_view(), body: body.deep_view() },
                Stmt::Return(f0) => StmtV::Return(f0.deep_view()),
        }),
{
    reveal(match_arm_view);
    reveal(expr_view);
    reveal(stmt_view);
    match e {
        Stmt::If { cond, then_branch, else_branch } => {
            assert(stmt_view(e)->If_then_branch =~= then_branch.deep_view());
            if let Some(x) = else_branch {
                assert(stmt_view(e)->If_else_branch->Some_0 =~= x.deep_view());
            }
        }
        Stmt::While { cond, body } => {
            assert(stmt_view(e)->While_body =~= body.deep_view());
        }
        _ => {}
    }
}

impl Clone for Stmt {
    fn clone(&self) -> (r: Self)
        ensures
            r.deep_view() == self.deep_view(),
        decreases self,
    {
        proof { lemma_stmt_view(*self); }
        match self {
            Stmt::Let { name, ty, init } => {
                let opt1: Option<Type> = match ty {
                    Some(x1) => {

                        Some(x1.clone())
                    }
                    None => None,
                };
                let r = Stmt::Let { name: name.clone(), ty: opt1, init: init.clone() };
                proof { lemma_stmt_view(r); }
                r
            }
            Stmt::Static { name, ty, init } => {

                let r = Stmt::Static { name: name.clone(), ty: ty.clone(), init: init.clone() };
                proof { lemma_stmt_view(r); }
                r
            }
            Stmt::Const { name, ty, init } => {

                let r = Stmt::Const { name: name.clone(), ty: ty.clone(), init: init.clone() };
                proof { lemma_stmt_view(r); }
                r
            }
            Stmt::Assign { target, value } => {

                let r = Stmt::Assign { target: Box::new((&**target).clone()), value: value.clone() };
                proof { lemma_stmt_view(r); }
                r
            }
            Stmt::Expr(f0) => {

                let r = Stmt::Expr(f0.clone());
                proof { lemma_stmt_view(r); }
                r
            }
            Stmt::If { cond, then_branch, else_branch } => {
                let mut out2: Vec<Stmt> = Vec::new();
                for i2 in 0..then_branch.len()
                    invariant
                        out2@.len() == i2,
                        forall|j: int| 0 <= j < i2 ==> #[trigger] out2@[j].deep_view() == then_branch@[j].deep_view(),
                        decreases_to!(self => then_branch),
                {

                    let item = then_branch[i2].clone();
                    out2.push(item);
                }
                proof { assert(out2.deep_view() =~= then_branch.deep_view()); }
                let opt3: Option<Vec<Stmt>> = match else_branch {
                    Some(x3) => {
                        let mut out4: Vec<Stmt> = Vec::new();
                        for i4 in 0..x3.len()
                            invariant
                                out4@.len() == i4,
                                forall|j: int| 0 <= j < i4 ==> #[trigger] out4@[j].deep_view() == x3@[j].deep_view(),
                                decreases_to!(self => x3),
                        {

                            let item = x3[i4].clone();
                            out4.push(item);
                        }
                        proof { assert(out4.deep_view() =~= x3.deep_view()); }
                        Some(out4)
                    }
                    None => None,
                };
                let r = Stmt::If { cond: cond.clone(), then_branch: out2, else_branch: opt3 };
                proof { lemma_stmt_view(r); }
                r
            }
            Stmt::While { cond, body } => {
                let mut out5: Vec<Stmt> = Vec::new();
                for i5 in 0..body.len()
                    invariant
                        out5@.len() == i5,
                        forall|j: int| 0 <= j < i5 ==> #[trigger] out5@[j].deep_view() == body@[j].deep_view(),
                        decreases_to!(self => body),
                {

                    let item = body[i5].clone();
                    out5.push(item);
                }
                proof { assert(out5.deep_view() =~= body.deep_view()); }
                let r = Stmt::While { cond: cond.clone(), body: out5 };
                proof { lemma_stmt_view(r); }
                r
            }
            Stmt::Return(f0) => {
                let opt6: Option<Expr> = match f0 {
                    Some(x6) => {

                        Some(x6.clone())
                    }
                    None => None,
                };
                let r = Stmt::Return(opt6);
                proof { lemma_stmt_view(r); }
                r
            }
        }
    }
}

/// A method of an `impl` block.
#[derive(Debug, PartialEq, Eq)]
pub struct ImplMethod {
    pub name: String,
    pub generics: Vec<GenericParam>,
    pub params: Vec<Param>,
    pub return_ty: Type,
    pub body: Vec<Stmt>,
    pub is_static: bool,
}

/// Model of [`ImplMethod`].
#[verifier::ext_equal]
pub struct ImplMethodV {
    pub name: Seq<char>,
    pub generics: Seq<GenericParamV>,
    pub params: Seq<ParamV>,
    pub return_ty: TypeV,
    pub body: Seq<StmtV>,
    pub is_static: bool,
}

/// The model of a [`ImplMethod`], component by component.
pub open spec fn impl_method_view(e: ImplMethod) -> ImplMethodV {
    ImplMethodV { name: e.name@, generics: e.generics.deep_view(), params: e.params.deep_view(), return_ty: e.return_ty.deep_view(), body: e.body.deep_view(), is_static: e.is_static }
}

impl DeepView for ImplMethod {
    type V = ImplMethodV;

    open spec fn deep_view(&self) -> ImplMethodV {
        impl_method_view(*self)
    }
}

impl Clone for ImplMethod {
    fn clone(&self) -> (r: Self)
        ensures
            r.deep_view() == self.deep_view(),
    {
        let mut out1: Vec<GenericParam> = Vec::new();
        for i1 in 0..self.generics.len()
            invariant
                out1@.len() == i1,
                forall|j: int| 0 <= j < i1 ==> #[trigger] out1@[j].deep_view() == self.generics@[j].deep_view(),

        {

            let item = self.generics[i1].clone();
            out1.push(item);
        }
        proof { assert(out1.deep_view() =~= self.generics.deep_view()); }
        let mut out2: Vec<Param> = Vec::new();
        for i2 in 0..self.params.len()
            invariant
                out2@.len() == i2,
                forall|j: int| 0 <= j < i2 ==> #[trigger] out2@[j].deep_view() == self.params@[j].deep_view(),

        {

            let item = self.params[i2].clone();
            out2.push(item);
        }
        proof { assert(out2.deep_view() =~= self.params.deep_view()); }
        let mut out3: Vec<Stmt> = Vec::new();
        for i3 in 0..self.body.len()
            invariant
                out3@.len() == i3,
                forall|j: int| 0 <= j < i3 ==> #[trigger] out3@[j].deep_view() == self.body@[j].deep_view(),

        {

            let item = self.body[i3].clone();
            out3.push(item);
        }
        proof { assert(out3.deep_view() =~= self.body.deep_view()); }
        ImplMethod { name: self.name.clone(), generics: out1, params: out2, return_ty: self.return_ty.clone(), body: out3, is_static: self.is_static }
    }
}

/// A method of a `trait` declaration.
#[derive(Debug, PartialEq, Eq)]
pub struct TraitMethod {
    pub name: String,
    pub generics: Vec<GenericParam>,
    pub params: Vec<Param>,
    pub return_ty: Type,
    pub default_body: Option<Vec<Stmt>>,
    pub is_static: bool,
}

/// Model of [`TraitMethod`].
#[verifier::ext_equal]
pub struct TraitMethodV {
    pub name: Seq<char>,
    pub generics: Seq<GenericParamV>,
    pub params: Seq<ParamV>,
    pub return_ty: TypeV,
    pub default_body: Option<Seq<StmtV>>,
    pub is_static: bool,
}

/// The model of a [`TraitMethod`], component by component.
pub open spec fn trait_method_view(e: TraitMethod) -> TraitMethodV {
    TraitMethodV { name: e.name@, generics: e.generics.deep_view(), params: e.params.deep_view(), return_ty: e.return_ty.deep_view(), default_body: e.default_body.deep_view(), is_static: e.is_static }
}

impl DeepView for TraitMethod {
    type V = TraitMethodV;

    open spec fn deep_view(&self) -> TraitMethodV {
        trait_method_view(*self)
    }
}

impl Clone for TraitMethod {
    fn clone(&self) -> (r: Self)
        ensures
            r.deep_view() == self.deep_view(),
    {
        let mut out1: Vec<GenericParam> = Vec::new();
        for i1 in 0..self.generics.len()
            invariant
                out1@.len() == i1,
                forall|j: int| 0 <= j < i1 ==> #[trigger] out1@[j].deep_view() == self.generics@[j].deep_view(),

        {

            let item = self.generics[i1].clone();
            out1.push(item);
        }
        proof { assert(out1.deep_view() =~= self.generics.deep_view()); }
        let mut out2: Vec<Param> = Vec::new();
        for i2 in 0..self.params.len()
            invariant
                out2@.len() == i2,
                forall|j: int| 0 <= j < i2 ==> #[trigger] out2@[j].deep_view() == self.params@[j].deep_view(),

        {

            let item = self.params[i2].clone();
            out2.push(item);
        }
        proof { assert(out2.deep_view() =~= self.params.deep_view()); }
        let opt3: Option<Vec<Stmt>> = match &self.default_body {
            Some(x3) => {
                let mut out4: Vec<Stmt> = Vec::new();
                for i4 in 0..x3.len()
                    invariant
                        out4@.len() == i4,
                        forall|j: int| 0 <= j < i4 ==> #[trigger] out4@[j].deep_view() == x3@[j].deep_view(),

                {

                    let item = x3[i4].clone();
                    out4.push(item);
                }
                proof { assert(out4.deep_view() =~= x3.deep_view()); }
                Some(out4)
            }
            None => None,
        };
        TraitMethod { name: self.name.clone(), generics: out1, params: out2, return_ty: self.return_ty.clone(), default_body: opt3, is_static: self.is_static }
    }
}

/// A declaration at the top level of a source file.
#[derive(Debug, PartialEq, Eq)]
pub enum TopLevelDecl {
    ModDecl {
        attributes: Vec<Meta>,
        name: String,
    },
    UseDecl {
        attributes: Vec<Meta>,
        path: Path,
    },
    ExternCrate {
        attributes: Vec<Meta>,
        name: String,
    },
    ExternFnDef {
        attributes: Vec<Meta>,
        name: String,
        param_types: Vec<Type>,
        return_ty: Type,
        is_variadic: bool,
    },
    FnDef {
        attributes: Vec<Meta>,
        name: String,
        generics: Vec<GenericParam>,
        params: Vec<Param>,
        return_ty: Type,
        body: Vec<Stmt>,
    },
    StructDef {
        attributes: Vec<Meta>,
        name: String,
        generics: Vec<GenericParam>,
        fields: Vec<(String, Type)>,
    },
    Enum {
        attributes: Vec<Meta>,
        name: String,
        generics: Vec<GenericParam>,
        variants: Vec<EnumVariant>,
    },
    Impl {
        attributes: Vec<Meta>,
        generics: Vec<GenericParam>,
        trrait: Option<Path>,
        ty: Type,
        methods: Vec<ImplMethod>,
    },
    Trait {
        attributes: Vec<Meta>,
        name: String,
        generics: Vec<GenericParam>,
        methods: Vec<TraitMethod>,
    },
    Static {
        attributes: Vec<Meta>,
        name: String,
        ty: Type,
        init: Expr,
    },
    Const {
        attributes: Vec<Meta>,
        name: String,
        ty: Type,
        init: Expr,
    },
}

/// Model of [`TopLevelDecl`].
#[verifier::ext_equal]
pub enum TopLevelDeclV {
    ModDecl {
        attributes: Seq<MetaV>,
        name: Seq<char>,
    },
    UseDecl {
        attributes: Seq<MetaV>,
        path: PathV,
    },
    ExternCrate {
        attributes: Seq<MetaV>,
        name: Seq<char>,
    },
    ExternFnDef {
        attributes: Seq<MetaV>,
        name: Seq<char>,
        param_types: Seq<TypeV>,
        return_ty: TypeV,
        is_variadic: bool,
    },
    FnDef {
        attributes: Seq<MetaV>,
        name: Seq<char>,
        generics: Seq<GenericParamV>,
        params: Seq<ParamV>,
        return_ty: TypeV,
        body: Seq<StmtV>,
    },
    StructDef {
        attributes: Seq<MetaV>,
        name: Seq<char>,
        generics: Seq<GenericParamV>,
        fields: Seq<(Seq<char>, TypeV)>,
    },
    Enum {
        attributes: Seq<MetaV>,
        name: Seq<char>,
        generics: Seq<GenericParamV>,
        variants: Seq<EnumVariantV>,
    },
    Impl {
        attributes: Seq<MetaV>,
        generics: Seq<GenericParamV>,
        trrait: Option<PathV>,
        ty: TypeV,
        methods: Seq<ImplMethodV>,
    },
    Trait {
        attributes: Seq<MetaV>,
        name: Seq<char>,
        generics: Seq<GenericParamV>,
        methods: Seq<TraitMethodV>,
    },
    Static {
        attributes: Seq<MetaV>,
        name: Seq<char>,
        ty: TypeV,
        init: ExprV,
    },
    Const {
        attributes: Seq<MetaV>,
        name: Seq<char>,
        ty: TypeV,
        init: ExprV,
    },
}

/// The model of a [`TopLevelDecl`], component by component.
pub open spec fn top_level_decl_view(e: TopLevelDecl) -> TopLevelDeclV {
    match e {
        TopLevelDecl::ModDecl { attributes, name } => TopLevelDeclV::ModDecl { attributes: attributes.deep_view(), name: name@ },
        TopLevelDecl::UseDecl { attributes, path } => TopLevelDeclV::UseDecl { attributes: attributes.deep_view(), path: path.deep_view() },
        TopLevelDecl::ExternCrate { attributes, name } => TopLevelDeclV::ExternCrate { attributes: attributes.deep_view(), name: name@ },
        TopLevelDecl::ExternFnDef { attributes, name, param_types, return_ty, is_variadic } => TopLevelDeclV::ExternFnDef { attributes: attributes.deep_view(), name: name@, param_types: param_types.deep_view(), return_ty: return_ty.deep_view(), is_variadic },
        TopLevelDecl::FnDef { attributes, name, generics, params, return_ty, body } => TopLevelDeclV::FnDef { attributes: attributes.deep_view(), name: name@, generics: generics.deep_view(), params: params.deep_view(), return_ty: return_ty.deep_view(), body: body.deep_view() },
        TopLevelDecl::StructDef { attributes, name, generics, fields } => TopLevelDeclV::StructDef { attributes: attributes.deep_view(), name: name@, generics: generics.deep_view(), fields: fields.deep_view() },
        TopLevelDecl::Enum { attributes, name, generics, variants } => TopLevelDeclV::Enum { attributes: attributes.deep_view(), name: name@, generics: generics.deep_view(), variants: variants.deep_view() },
        TopLevelDecl::Impl { attributes, generics, trrait, ty, methods } => TopLevelDeclV::Impl { attributes: attributes.deep_view(), generics: generics.deep_view(), trrait: trrait.deep_view(), ty: ty.deep_view(), methods: methods.deep_view() },
        TopLevelDecl::Trait { attributes, name, generics, methods } => TopLevelDeclV::Trait { attributes: attributes.deep_view(), name: name@, generics: generics.deep_view(), methods: methods.deep_view() },
        TopLevelDecl::Static { attributes, name, ty, init } => TopLevelDeclV::Static { attributes: attributes.deep_view(), name: name@, ty: ty.deep_view(), init: init.deep_view() },
        TopLevelDecl::Const { attributes, name, ty, init } => TopLevelDeclV::Const { attributes: attributes.deep_view(), name: name@, ty: ty.deep_view(), init: init.deep_view() },
    }
}

impl DeepView for TopLevelDecl {
    type V = TopLevelDeclV;

    open spec fn deep_view(&self) -> TopLevelDeclV {
        top_level_decl_view(*self)
    }
}

impl Clone for TopLevelDecl {
    fn clone(&self) -> (r: Self)
        ensures
            r.deep_view() == self.deep_view(),
    {
        match self {
            TopLevelDecl::ModDecl { attributes, name } => {
                let mut out1: Vec<Meta> = Vec::new();
                for i1 in 0..attributes.len()
                    invariant
                        out1@.len() == i1,
                        forall|j: int| 0 <= j < i1 ==> #[trigger] out1@[j].deep_view() == attributes@[j].deep_view(),

                {

                    let item = attributes[i1].clone();
                    out1.push(item);
                }
                proof { assert(out1.deep_view() =~= attributes.deep_view()); }
                TopLevelDecl::ModDecl { attributes: out1, name: name.clone() }
            }
            TopLevelDecl::UseDecl { attributes, path } => {
                let mut out2: Vec<Meta> = Vec::new();
                for i2 in 0..attributes.len()
                    invariant
                        out2@.len() == i2,
                        forall|j: int| 0 <= j < i2 ==> #[trigger] out2@[j].deep_view() == attributes@[j].deep_view(),

                {

                    let item = attributes[i2].clone();
                    out2.push(item);
                }
                proof { assert(out2.deep_view() =~= attributes.deep_view()); }
                TopLevelDecl::UseDecl { attributes: out2, path: path.clone() }
            }
            TopLevelDecl::ExternCrate { attributes, name } => {
                let mut out3: Vec<Meta> = Vec::new();
                for i3 in 0..attributes.len()
                    invariant
                        out3@.len() == i3,
                        forall|j: int| 0 <= j < i3 ==> #[trigger] out3@[j].deep_view() == attributes@[j].deep_view(),

                {

                    let item = attributes[i3].clone();
                    out3.push(item);
                }
                proof { assert(out3.deep_view() =~= attributes.deep_view()); }
                TopLevelDecl::ExternCrate { attributes: out3, name: name.clone() }
            }
            TopLevelDecl::ExternFnDef { attributes, name, param_types, return_ty, is_variadic } => {
                let mut out4: Vec<Meta> = Vec::new();
                for i4 in 0..attributes.len()
                    invariant
                        out4@.len() == i4,
                        forall|j: int| 0 <= j < i4 ==> #[trigger] out4@[j].deep_view() == attributes@[j].deep_view(),

                {

                    let item = attributes[i4].clone();
                    out4.push(item);
                }
                proof { assert(out4.deep_view() =~= attributes.deep_view()); }
                let mut out5: Vec<Type> = Vec::new();
                for i5 in 0..param_types.len()
                    invariant
                        out5@.len() == i5,
                        forall|j: int| 0 <= j < i5 ==> #[trigger] out5@[j].deep_view() == param_types@[j].deep_view(),

                {

                    let item = param_types[i5].clone();
                    out5.push(item);
                }
                proof { assert(out5.deep_view() =~= param_types.deep_view()); }
                TopLevelDecl::ExternFnDef { attributes: out4, name: name.clone(), param_types: out5, return_ty: return_ty.clone(), is_variadic: *is_variadic }
            }
            TopLevelDecl::FnDef { attributes, name, generics, params, return_ty, body } => {
                let mut out6: Vec<Meta> = Vec::new();
                for i6 in 0..attributes.len()
                    invariant
                        out6@.len() == i6,
                        forall|j: int| 0 <= j < i6 ==> #[trigger] out6@[j].deep_view() == attributes@[j].deep_view(),

                {

                    let item = attributes[i6].clone();
                    out6.push(item);
                }
                proof { assert(out6.deep_view() =~= attributes.deep_view()); }
                let mut out7: Vec<GenericParam> = Vec::new();
                for i7 in 0..generics.len()
                    invariant
                        out7@.len() == i7,
                        forall|j: int| 0 <= j < i7 ==> #[trigger] out7@[j].deep_view() == generics@[j].deep_view(),

                {

                    let item = generics[i7].clone();
                    out7.push(item);
                }
                proof { assert(out7.deep_view() =~= generics.deep_view()); }
                let mut out8: Vec<Param> = Vec::new();
                for i8 in 0..params.len()
                    invariant
                        out8@.len() == i8,
                        forall|j: int| 0 <= j < i8 ==> #[trigger] out8@[j].deep_view() == params@[j].deep_view(),

                {

                    let item = params[i8].clone();
                    out8.push(item);
                }
                proof { assert(out8.deep_view() =~= params.deep_view()); }
                let mut out9: Vec<Stmt> = Vec::new();
                for i9 in 0..body.len()
                    invariant
                        out9@.len() == i9,
                        forall|j: int| 0 <= j < i9 ==> #[trigger] out9@[j].deep_view() == body@[j].deep_view(),

                {

                    let item = body[i9].clone();
                    out9.push(item);
                }
                proof { assert(out9.deep_view() =~= body.deep_view()); }
                TopLevelDecl::FnDef { attributes: out6, name: name.clone(), generics: out7, params: out8, return_ty: return_ty.clone(), body: out9 }
            }
            TopLevelDecl::StructDef { attributes, name, generics, fields } => {
                let mut out10: Vec<Meta> = Vec::new();
                for i10 in 0..attributes.len()
                    invariant
                        out10@.len() == i10,
                        forall|j: int| 0 <= j < i10 ==> #[trigger] out10@[j].deep_view() == attributes@[j].deep_view(),

                {

                    let item = attributes[i10].clone();
                    out10.push(item);
                }
                proof { assert(out10.deep_view() =~= attributes.deep_view()); }
                let mut out11: Vec<GenericParam> = Vec::new();
                for i11 in 0..generics.len()
                    invariant
                        out11@.len() == i11,
                        forall|j: int| 0 <= j < i11 ==> #[trigger] out11@[j].deep_view() == generics@[j].deep_view(),

                {

                    let item = generics[i11].clone();
                    out11.push(item);
                }
                proof { assert(out11.deep_view() =~= generics.deep_view()); }
                let mut out12: Vec<(String, Type)> = Vec::new();
                for i12 in 0..fields.len()
                    invariant
                        out12@.len() == i12,
                        forall|j: int| 0 <= j < i12 ==> #[trigger] out12@[j].deep_view() == fields@[j].deep_view(),

                {

                    let item = (fields[i12].0.clone(), fields[i12].1.clone());
                    out12.push(item);
                }
                proof { assert(out12.deep_view() =~= fields.deep_view()); }
                TopLevelDecl::StructDef { attributes: out10, name: name.clone(), generics: out11, fields: out12 }
            }
            TopLevelDecl::Enum { attributes, name, generics, variants } => {
                let mut out14: Vec<Meta> = Vec::new();
                for i14 in 0..attributes.len()
                    invariant
                        out14@.len() == i14,
                        forall|j: int| 0 <= j < i14 ==> #[trigger] out14@[j].deep_view() == attributes@[j].deep_view(),

                {

                    let item = attributes[i14].clone();
                    out14.push(item);
                }
                proof { assert(out14.deep_view() =~= attributes.deep_view()); }
                let mut out15: Vec<GenericParam> = Vec::new();
                for i15 in 0..generics.len()
                    invariant
                        out15@.len() == i15,
                        forall|j: int| 0 <= j < i15 ==> #[trigger] out15@[j].deep_view() == generics@[j].deep_view(),

                {

                    let item = generics[i15].clone();
                    out15.push(item);
                }
                proof { assert(out15.deep_view() =~= generics.deep_view()); }
                let mut out16: Vec<EnumVariant> = Vec::new();
                for i16 in 0..variants.len()
                    invariant
                        out16@.len() == i16,
                        forall|j: int| 0 <= j < i16 ==> #[trigger] out16@[j].deep_view() == variants@[j].deep_view(),

                {

                    let item = variants[i16].clone();
                    out16.push(item);
                }
                proof { assert(out16.deep_view() =~= variants.deep_view()); }
                TopLevelDecl::Enum { attributes: out14, name: name.clone(), generics: out15, variants: out16 }
            }
            TopLevelDecl::Impl { attributes, generics, trrait, ty, methods } => {
                let mut out17: Vec<Meta> = Vec::new();
                for i17 in 0..attributes.len()
                    invariant
                        out17@.len() == i17,
                        forall|j: int| 0 <= j < i17 ==> #[trigger] out17@[j].deep_view() == attributes@[j].deep_view(),

                {

                    let item = attributes[i17].clone();
                    out17.push(item);
                }
                proof { assert(out17.deep_view() =~= attributes.deep_view()); }
                let mut out18: Vec<GenericParam> = Vec::new();
                for i18 in 0..generics.len()
                    invariant
                        out18@.len() == i18,
                        forall|j: int| 0 <= j < i18 ==> #[trigger] out18@[j].deep_view() == generics@[j].deep_view(),

                {

                    let item = generics[i18].clone();
                    out18.push(item);
                }
                proof { assert(out18.deep_view() =~= generics.deep_view()); }
                let opt19: Option<Path> = match trrait {
                    Some(x19) => {

                        Some(x19.clone())
                    }
                    None => None,
                };
                let mut out20: Vec<ImplMethod> = Vec::new();
                for i20 in 0..methods.len()
                    invariant
                        out20@.len() == i20,
                        forall|j: int| 0 <= j < i20 ==> #[trigger] out20@[j].deep_view() == methods@[j].deep_view(),

                {

                    let item = methods[i20].clone();
                    out20.push(item);
                }
                proof { assert(out20.deep_view() =~= methods.deep_view()); }
                TopLevelDecl::Impl { attributes: out17, generics: out18, trrait: opt19, ty: ty.clone(), methods: out20 }
            }
            TopLevelDecl::Trait { attributes, name, generics, methods } => {
                let mut out21: Vec<Meta> = Vec::new();
                for i21 in 0..attributes.len()
                    invariant
                        out21@.len() == i21,
                        forall|j: int| 0 <= j < i21 ==> #[trigger] out21@[j].deep_view() == attributes@[j].deep_view(),

                {

                    let item = attributes[i21].clone();
                    out21.push(item);
                }
                proof { assert(out21.deep_view() =~= attributes.deep_view()); }
                let mut out22: Vec<GenericParam> = Vec::new();
                for i22 in 0..generics.len()
                    invariant
                        out22@.len() == i22,
                        forall|j: int| 0 <= j < i22 ==> #[trigger] out22@[j].deep_view() == generics@[j].deep_view(),

                {

                    let item = generics[i22].clone();
                    out22.push(item);
                }
                proof { assert(out22.deep_view() =~= generics.deep_view()); }
                let mut out23: Vec<TraitMethod> = Vec::new();
                for i23 in 0..methods.len()
                    invariant
                        out23@.len() == i23,
                        forall|j: int| 0 <= j < i23 ==> #[trigger] out23@[j].deep_view() == methods@[j].deep_view(),

                {

                    let item = methods[i23].clone();
                    out23.push(item);
                }
                proof { assert(out23.deep_view() =~= methods.deep_view()); }
                TopLevelDecl::Trait { attributes: out21, name: name.clone(), generics: out22, methods: out23 }
            }
            TopLevelDecl::Static { attributes, name, ty, init } => {
                let mut out24: Vec<Meta> = Vec::new();
                for i24 in 0..attributes.len()
                    invariant
                        out24@.len() == i24,
                        forall|j: int| 0 <= j < i24 ==> #[trigger] out24@[j].deep_view() == attributes@[j].deep_view(),

                {

                    let item = attributes[i24].clone();
                    out24.push(item);
                }
                proof { assert(out24.deep_view() =~= attributes.deep_view()); }
                TopLevelDecl::Static { attributes: out24, name: name.clone(), ty: ty.clone(), init: init.clone() }
            }
            TopLevelDecl::Const { attributes, name, ty, init } => {
                let mut out25: Vec<Meta> = Vec::new();
                for i25 in 0..attributes.len()
                    invariant
                        out25@.len() == i25,
                        forall|j: int| 0 <= j < i25 ==> #[trigger] out25@[j].deep_view() == attributes@[j].deep_view(),

                {

                    let item = attributes[i25].clone();
                    out25.push(item);
                }
                proof { assert(out25.deep_view() =~= attributes.deep_view()); }
                TopLevelDecl::Const { attributes: out25, name: name.clone(), ty: ty.clone(), init: init.clone() }
            }
        }
    }
}

/// A parsed source file.
#[derive(Debug, PartialEq, Eq)]
pub struct CompilationUnit {
    pub declarations: Vec<TopLevelDecl>,
}

/// Model of [`CompilationUnit`].
#[verifier::ext_equal]
pub struct CompilationUnitV {
    pub declarations: Seq<TopLevelDeclV>,
}

/// The model of a [`CompilationUnit`], component by component.
pub open spec fn compilation_unit_view(e: CompilationUnit) -> CompilationUnitV {
    CompilationUnitV { declarations: e.declarations.deep_view() }
}

impl DeepView for CompilationUnit {
    type V = CompilationUnitV;

    open spec fn deep_view(&self) -> CompilationUnitV {
        compilation_unit_view(*self)
    }
}

impl Clone for CompilationUnit {
    fn clone(&self) -> (r: Self)
        ensures
            r.deep_view() == self.deep_view(),
    {
        let mut out1: Vec<TopLevelDecl> = Vec::new();
        for i1 in 0..self.declarations.len()
            invariant
                out1@.len() == i1,
                forall|j: int| 0 <= j < i1 ==> #[trigger] out1@[j].deep_view() == self.declarations@[j].deep_view(),

        {

            let item = self.declarations[i1].clone();
            out1.push(item);
        }
        proof { assert(out1.deep_view() =~= self.declarations.deep_view()); }
        CompilationUnit { declarations: out1 }
    }
}


/// The segments of a path, separated by `::`.
pub open spec fn joined(segments: Seq<Seq<char>>) -> Seq<char>
    decreases segments.len(),
{
    if segments.len() == 0 {
        Seq::empty()
    } else if segments.len() == 1 {
        segments[0]
    } else {
        joined(segments.drop_last()) + "::"@ + segments.last()
    }
}

impl PathV {
    /// The last segment.
    pub open spec fn last(self) -> Option<Seq<char>> {
        if self.segments.len() == 0 {
            None
        } else {
            Some(self.segments.last())
        }
    }
}

impl Path {
    /// A path of the given segments.
    pub fn new(segments: Vec<String>) -> (r: Self)
        ensures
            r == (Path { segments }),
    {
        Self { segments }
    }

    /// A path of one segment.
    pub fn simple(name: &str) -> (r: Self)
        ensures
            r.deep_view() == (PathV { segments: seq![name@] }),
    {
        let mut segments: Vec<String> = Vec::new();
        segments.push(String::from_str(name));
        assert(segments.deep_view() =~= seq![name@]);
        Self { segments }
    }

    /// The last segment, if there is one.
    pub fn last(&self) -> (r: Option<&str>)
        ensures
            r.deep_view() == self.deep_view().last(),
    {
        if self.segments.len() == 0 {
            return None;
        }
        let s = self.segments[self.segments.len() - 1].as_str();
        Some(s)
    }

    /// The path as it is written, with `::` between its segments.
    pub fn to_string(&self) -> (r: String)
        ensures
            r@ == joined(self.deep_view().segments),
    {
        let ghost all = self.deep_view().segments;
        if self.segments.len() == 0 {
            return String::new();
        }
        let mut s: String = self.segments[0].clone();
        assert(all.subrange(0, 1) =~= seq![all[0]]);
        for i in 1..self.segments.len()
            invariant
                all == self.deep_view().segments,
                all.len() == self.segments@.len(),
                all.len() >= 1,
                s@ == joined(all.subrange(0, i as int)),
        {
            s.append("::");
            s.append(self.segments[i].as_str());
            assert(all.subrange(0, i + 1).drop_last() =~= all.subrange(0, i as int));
        }
        assert(all.subrange(0, all.len() as int) =~= all);
        s
    }
}

impl MetaV {
    /// The name part of a meta item.
    pub open spec fn name(self) -> PathV {
        match self {
            MetaV::Path(p) => p,
            MetaV::NameValue { name, .. } => name,
            MetaV::List { name, .. } => name,
        }
    }
}

impl Meta {
    /// The name part of the meta item, by which annotations are looked up.
    pub fn name(&self) -> (r: &Path)
        ensures
            r.deep_view() == self.deep_view().name(),
    {
        proof {
            lemma_meta_view(*self);
        }
        match self {
            Meta::Path(p) => p,
            Meta::NameValue { name, .. } => name,
            Meta::List { name, .. } => name,
        }
    }

    /// The last segment of the name, such as `link_name` or `no_mangle`.
    pub fn simple_name(&self) -> (r: Option<&str>)
        ensures
            r.deep_view() == self.deep_view().name().last(),
    {
        self.name().last()
    }
}

/// The string that meta item `m` gives to `key`, if it is a pair of that name
/// and a string.
pub open spec fn meta_string(m: MetaV, key: Seq<char>) -> Option<Seq<char>> {
    match m {
        MetaV::NameValue { name, value: LiteralV::String(s) } => if name.last() == Some(key) {
            Some(s)
        } else {
            None
        },
        _ => None,
    }
}

/// The string of the first pair named `key` among the annotations from `i` on.
pub open spec fn attr_value(attrs: Seq<MetaV>, key: Seq<char>, i: int) -> Option<Seq<char>>
    decreases attrs.len() - i,
{
    if i >= attrs.len() {
        None
    } else if meta_string(attrs[i], key) is Some {
        meta_string(attrs[i], key)
    } else {
        attr_value(attrs, key, i + 1)
    }
}

/// The string value of the first annotation of the form `key = "..."`.
/// Annotations of another shape or name are passed over.
pub fn attr_string_value<'a>(attrs: &'a [Meta], key: &str) -> (r: Option<&'a str>)
    ensures
        r.deep_view() == attr_value(attrs.deep_view(), key@, 0),
{
    let ghost all = attrs.deep_view();
    for i in 0..attrs.len()
        invariant
            all == attrs.deep_view(),
            attr_value(all, key@, 0) == attr_value(all, key@, i as int),
    {
        proof {
            lemma_meta_view(attrs@[i as int]);
        }
        if let Meta::NameValue { name, value } = &attrs[i] {
            if let Literal::String(s) = value {
                if let Some(last) = name.last() {
                    if same_text(last, key) {
                        return Some(s.as_str());
                    }
                }
            }
        }
    }
    None
}

/// An annotation that is no pair named `key` does not change what is found
/// under `key`: annotations can be added without touching the readers of
/// others.
pub proof fn law_attr_lookup_skips_others(
    before: Seq<MetaV>,
    other: MetaV,
    after: Seq<MetaV>,
    key: Seq<char>,
)
    requires
        meta_string(other, key) is None,
    ensures
        attr_value(before + seq![other] + after, key, 0) == attr_value(before + after, key, 0),
{
    lemma_attr_skip(before, other, after, key, 0);
}

proof fn lemma_attr_skip(
    before: Seq<MetaV>,
    other: MetaV,
    after: Seq<MetaV>,
    key: Seq<char>,
    i: int,
)
    requires
        meta_string(other, key) is None,
        0 <= i <= before.len(),
    ensures
        attr_value(before + seq![other] + after, key, i) == attr_value(before + after, key, i),
    decreases before.len() - i,
{
    let long = before + seq![other] + after;
    let short = before + after;
    if i < before.len() {
        assert(long[i] == short[i]);
        lemma_attr_skip(before, other, after, key, i + 1);
    } else {
        assert(long[i] == other);
        lemma_attr_shift(long, short, key, i);
    }
}

proof fn lemma_attr_shift(long: Seq<MetaV>, short: Seq<MetaV>, key: Seq<char>, i: int)
    requires
        0 <= i <= short.len(),
        long.len() == short.len() + 1,
        forall|j: int| i <= j < short.len() ==> #[trigger] short[j] == long[j + 1],
    ensures
        attr_value(long, key, i + 1) == attr_value(short, key, i),
    decreases short.len() - i,
{
    if i < short.len() {
        assert(short[i] == long[i + 1]);
        lemma_attr_shift(long, short, key, i + 1);
    }
}

} // verus!
