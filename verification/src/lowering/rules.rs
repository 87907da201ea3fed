//! What name resolution computes.
//!
//! [`LowerState`] is the state of the resolver. A function that changes it
//! returns the new state together with its result; after an error the state is
//! the one in which the error was met.

use crate::ast;
use crate::ast::{
    ExprV, GenericParamKind, GenericParamV, ImplMethodV, LiteralV, MatchArmV, MetaV, ParamV, PathV,
    PatternV, StmtV, TopLevelDeclV, TypeV, EnumVariantV,
};
use crate::error::{error_of, ErrorKind, MplangErrorV};
use crate::hir;
use crate::hir::{
    ConstArg, DefId, HirBodyV, HirCompilationUnitV, HirEnumVariantV, HirExprV, HirFieldV, HirItemV,
    HirMatchArmV, HirModuleV, HirParamV, HirPatternV, HirStmtV, HirTypeV, ParamKind, VTableV,
    Visibility,
};
use crate::lowering::source::{contract_of, SourceTreeV, SourceUnitV, TraitMethodInfoV};
use crate::table::lookup;
use crate::text::{decimal, signed_decimal};
use vstd::prelude::*;

verus! {

/// The state of name resolution.
#[verifier::ext_equal]
pub struct LowerState {
    /// The next definition to hand out.
    pub next_id: u32,
    /// Definitions by their full path.
    pub paths: Map<Seq<Seq<char>>, DefId>,
    /// Definitions by the last segment of their path; the latest one counts.
    pub names: Map<Seq<char>, DefId>,
    /// The generic parameters in scope.
    pub generics: Seq<GenericParamV>,
    /// Names brought in by `use`.
    pub aliases: Map<Seq<char>, DefId>,
    /// The contracts of the traits, by name.
    pub traits: Map<Seq<char>, Seq<TraitMethodInfoV>>,
    /// The enumeration and the name of each variant.
    pub variants: Map<DefId, (DefId, Seq<char>)>,
    /// The enumerations.
    pub enums: Map<DefId, ()>,
    /// The definitions of the traits, by name.
    pub trait_defs: Map<Seq<char>, DefId>,
    /// The method tables collected so far.
    pub vtables: Seq<VTableV>,
    /// The local variables in scope.
    pub locals: Map<Seq<char>, DefId>,
}

/// The state in which a resolver begins.
pub open spec fn initial_state() -> LowerState {
    LowerState {
        next_id: 0,
        paths: Map::empty(),
        names: Map::empty(),
        generics: Seq::empty(),
        aliases: Map::empty(),
        traits: Map::empty(),
        variants: Map::empty(),
        enums: Map::empty(),
        trait_defs: Map::empty(),
        vtables: Seq::empty(),
        locals: Map::empty(),
    }
}

// Errors

/// A name resolution error.
pub open spec fn name_error(message: Seq<char>) -> MplangErrorV {
    error_of(ErrorKind::Lowering, message)
}

/// The error for a definition that was never registered.
pub open spec fn no_entry() -> MplangErrorV {
    error_of(ErrorKind::Other, "no entry found for key"@)
}

/// The error for a path without segments.
pub open spec fn no_value() -> MplangErrorV {
    error_of(ErrorKind::Other, "called `Option::unwrap()` on a `None` value"@)
}

/// The error for running out of definitions.
pub open spec fn too_many() -> MplangErrorV {
    error_of(ErrorKind::Other, "attempt to add with overflow"@)
}

/// The error for a name that stands for nothing.
#[verifier::opaque]
pub open spec fn unresolved(path: PathV, ctx: Seq<char>) -> MplangErrorV {
    name_error("无法解析名字 `"@ + ast::joined(path.segments) + "`（"@ + ctx + "）"@)
}

/// The error for a constant parameter that is not in scope.
#[verifier::opaque]
pub open spec fn no_const_param(name: Seq<char>) -> MplangErrorV {
    name_error("未定义的常量参数 `"@ + name + "`（内部错误）"@)
}

/// The error for a pattern whose name is no variant.
#[verifier::opaque]
pub open spec fn no_variant(path: PathV) -> MplangErrorV {
    name_error("`"@ + ast::joined(path.segments) + "` 不是枚举变体"@)
}

/// The error for an unknown trait.
#[verifier::opaque]
pub open spec fn no_trait(name: Seq<char>) -> MplangErrorV {
    name_error("未找到 trait `"@ + name + "`"@)
}

/// The error for a method that its trait does not declare.
#[verifier::opaque]
pub open spec fn foreign_method(ty: TypeV, tr: Seq<char>, name: Seq<char>) -> MplangErrorV {
    name_error(
        "为类型 `"@ + shown_ast_type(ty) + "` 实现 trait `"@ + tr + "` 时提供了不在 trait 中的方法 `"@ + name + "`"@,
    )
}

/// `静态` for a static method, `非静态` for another.
pub open spec fn static_word(is_static: bool) -> Seq<char> {
    if is_static { "静态"@ } else { "非静态"@ }
}

/// The error for a method that is static where its trait says otherwise.
#[verifier::opaque]
pub open spec fn static_mismatch(
    name: Seq<char>,
    is_static: bool,
    tr: Seq<char>,
    declared: bool,
) -> MplangErrorV {
    name_error(
        "方法 `"@ + name + "` 是"@ + static_word(is_static) + "方法，但 trait `"@ + tr + "` 中声明为"@ + static_word(declared) + "方法"@,
    )
}

/// The error for a method with another number of parameters than its trait says.
#[verifier::opaque]
pub open spec fn arity_mismatch(
    name: Seq<char>,
    got: nat,
    tr: Seq<char>,
    want: nat,
) -> MplangErrorV {
    name_error(
        "方法 `"@ + name + "` 的参数个数（"@ + decimal(got) + "）与 trait `"@ + tr + "` 的声明（"@ + decimal(want) + "）不符"@,
    )
}

/// The error for a parameter of another type than the trait says.
#[verifier::opaque]
pub open spec fn param_mismatch(name: Seq<char>, i: nat, tr: Seq<char>) -> MplangErrorV {
    name_error("方法 `"@ + name + "` 第 "@ + decimal(i) + " 个参数类型与 trait `"@ + tr + "` 不符"@)
}

/// The error for a method of another return type than the trait says.
#[verifier::opaque]
pub open spec fn return_mismatch(name: Seq<char>, tr: Seq<char>) -> MplangErrorV {
    name_error("方法 `"@ + name + "` 的返回类型与 trait `"@ + tr + "` 不符"@)
}

/// The error for a required method that is not provided.
#[verifier::opaque]
pub open spec fn missing_method(ty: TypeV, tr: Seq<char>, name: Seq<char>) -> MplangErrorV {
    name_error("类型 `"@ + shown_ast_type(ty) + "` 实现 trait `"@ + tr + "` 时未提供必填方法 `"@ + name + "`"@)
}

/// The error for a trait method without an implementation.
#[verifier::opaque]
pub open spec fn no_table_entry(name: Seq<char>) -> MplangErrorV {
    name_error("内部错误：方法 `"@ + name + "` 未在 vtable 中找到"@)
}

// Source types in messages

/// A path as it appears in messages.
pub open spec fn shown_path(p: PathV) -> Seq<char> {
    "Path { segments: ["@ + shown_segments(p.segments, 0) + "] }"@
}

/// Quoted segments from `i` on, separated by commas.
pub open spec fn shown_segments(s: Seq<Seq<char>>, i: int) -> Seq<char>
    decreases s.len() - i,
{
    if i >= s.len() {
        Seq::empty()
    } else if i + 1 == s.len() {
        "\""@ + s[i] + "\""@
    } else {
        "\""@ + s[i] + "\", "@ + shown_segments(s, i + 1)
    }
}

/// A source type as it appears in messages.
pub open spec fn shown_ast_type(t: TypeV) -> Seq<char>
    decreases t, 0int,
{
    match t {
        TypeV::Int => "Int"@,
        TypeV::Char => "Char"@,
        TypeV::Pointer(inner) => "Pointer("@ + shown_ast_type(*inner) + ")"@,
        TypeV::Unit => "Unit"@,
        TypeV::Named(p) => "Named("@ + shown_path(p) + ")"@,
        TypeV::Array(
            inner,
            len,
        ) => "Array("@ + shown_ast_type(*inner) + ", "@ + shown_ast_len(len) + ")"@,
        TypeV::Applied(
            p,
            args,
        ) => "Applied("@ + shown_path(p) + ", ["@ + shown_ast_args(args, 0) + "])"@,
        TypeV::Enum(p, args) => "Enum("@ + shown_path(p) + ", ["@ + shown_ast_args(args, 0) + "])"@,
    }
}

/// A source array length as it appears in messages.
pub open spec fn shown_ast_len(n: ast::ArrayLenV) -> Seq<char> {
    match n {
        ast::ArrayLenV::Known(k) => "Known("@ + decimal(k as nat) + ")"@,
        ast::ArrayLenV::Param(name) => "Param(\""@ + name + "\")"@,
    }
}

/// Source generic arguments from `i` on, separated by commas.
pub open spec fn shown_ast_args(args: Seq<ast::TypeOrConstV>, i: int) -> Seq<char>
    decreases args, args.len() - i,
{
    if i < 0 || i >= args.len() {
        Seq::empty()
    } else {
        let first = match args[i] {
            ast::TypeOrConstV::Type(t) => "Type("@ + shown_ast_type(t) + ")"@,
            ast::TypeOrConstV::Const(v) => "Const("@ + signed_decimal(v as int) + ")"@,
        };
        if i + 1 == args.len() {
            first
        } else {
            first + ", "@ + shown_ast_args(args, i + 1)
        }
    }
}

// Definitions and names

/// A fresh definition.
pub open spec fn fresh(s: LowerState) -> (LowerState, Result<DefId, MplangErrorV>) {
    if s.next_id == u32::MAX {
        (s, Err(too_many()))
    } else {
        (LowerState { next_id: (s.next_id + 1) as u32, ..s }, Ok(DefId(s.next_id)))
    }
}

/// A fresh definition for `name` under `prefix`.
pub open spec fn register_def(
    s: LowerState,
    prefix: Seq<Seq<char>>,
    name: Seq<char>,
) -> (LowerState, Result<DefId, MplangErrorV>) {
    match fresh(s) {
        (at, Err(e)) => (at, Err(e)),
        (s1, Ok(id)) => {
            (
                LowerState { paths: s1.paths.insert(prefix.push(name), id), names: s1.names.insert(name, id), ..s1 },
                Ok(id),
            )
        }
    }
}

/// A fresh local variable.
pub open spec fn new_local(
    s: LowerState,
    name: Seq<char>,
) -> (LowerState, Result<DefId, MplangErrorV>) {
    match fresh(s) {
        (at, Err(e)) => (at, Err(e)),
        (s1, Ok(id)) => {
            (LowerState { locals: s1.locals.insert(name, id), ..s1 }, Ok(id))
        }
    }
}

/// The definition registered under a full path.
pub open spec fn registered(s: LowerState, segs: Seq<Seq<char>>) -> Result<DefId, MplangErrorV> {
    match lookup(s.paths, segs) {
        Some(id) => Ok(id),
        None => Err(no_entry()),
    }
}

/// The definition that a path stands for: a name brought in by `use`, then the
/// definition of exactly this path, then the latest definition with the same
/// last segment.
pub open spec fn resolve(
    s: LowerState,
    path: PathV,
    ctx: Seq<char>,
) -> Result<DefId, MplangErrorV> {
    let segs = path.segments;
    if segs.len() == 1 && s.aliases.dom().contains(segs[0]) {
        Ok(s.aliases[segs[0]])
    } else if s.paths.dom().contains(segs) {
        Ok(s.paths[segs])
    } else if segs.len() == 0 {
        Err(no_value())
    } else if s.names.dom().contains(segs.last()) {
        Ok(s.names[segs.last()])
    } else {
        Err(unresolved(path, ctx))
    }
}

/// The index from `i` on of the generic parameter of this kind and name.
pub open spec fn generic_index(
    gs: Seq<GenericParamV>,
    kind: GenericParamKind,
    name: Seq<char>,
    i: int,
) -> Option<usize>
    decreases gs.len() - i,
{
    if i >= gs.len() {
        None
    } else if gs[i].kind == kind && gs[i].name == name {
        Some(i as usize)
    } else {
        generic_index(gs, kind, name, i + 1)
    }
}

/// The constant parameter that a generic argument written as a type refers to.
pub open spec fn const_param_of(s: LowerState, t: TypeV) -> Option<usize> {
    match t {
        TypeV::Named(p) => if p.segments.len() == 1 {
            generic_index(s.generics, GenericParamKind::Const, p.segments[0], 0)
        } else {
            None
        },
        _ => None,
    }
}

// Types

/// A type with its names resolved. A pointer to a trait is a trait object.
pub open spec fn l_type(s: LowerState, t: TypeV) -> Result<HirTypeV, MplangErrorV>
    decreases t, 0int,
{
    match t {
        TypeV::Int => Ok(HirTypeV::Int),
        TypeV::Char => Ok(HirTypeV::Char),
        TypeV::Unit => Ok(HirTypeV::Unit),
        TypeV::Pointer(inner) => {
            match l_type(s, *inner) {
                Err(e) => Err(e),
                Ok(h) => {
                    match h {
                        HirTypeV::Named(d) => if s.trait_defs.contains_value(d) {
                            Ok(HirTypeV::TraitObject(d))
                        } else {
                            Ok(HirTypeV::Pointer(Box::new(h)))
                        },
                        _ => Ok(HirTypeV::Pointer(Box::new(h))),
                    }
                }
            }
        },
        TypeV::Array(inner, len) => {
            match l_type(s, *inner) {
                Err(e) => Err(e),
                Ok(h) => {
                    match l_array_len(s, len) {
                        Err(e) => Err(e),
                        Ok(n) => {
                            Ok(HirTypeV::Array(Box::new(h), n))
                        }
                    }
                }
            }
        },
        TypeV::Named(path) => {
            let var = if path.segments.len() == 1 { generic_index(s.generics, GenericParamKind::Type, path.segments[0], 0) } else { None };
            match var {
                Some(i) => Ok(HirTypeV::Var(i)),
                None => {
                    match resolve(s, path, "类型"@) {
                        Err(e) => Err(e),
                        Ok(d) => {
                            if s.enums.dom().contains(d) {
                                Ok(HirTypeV::Enum(d, Seq::empty(), Seq::empty()))
                            } else {
                                Ok(HirTypeV::Named(d))
                            }
                        }
                    }
                },
            }
        },
        TypeV::Applied(path, args) => {
            match resolve(s, path, "类型"@) {
                Err(e) => Err(e),
                Ok(d) => {
                    match l_generic_args(s, args, 0, Seq::empty(), Seq::empty()) {
                        Err(e) => Err(e),
                        Ok(a) => {
                            if s.enums.dom().contains(d) {
                                Ok(HirTypeV::Enum(d, a.0, a.1))
                            } else {
                                Ok(HirTypeV::Generic(d, a.0, a.1))
                            }
                        }
                    }
                }
            }
        },
        TypeV::Enum(path, args) => {
            match resolve(s, path, "枚举类型"@) {
                Err(e) => Err(e),
                Ok(d) => {
                    match l_generic_args(s, args, 0, Seq::empty(), Seq::empty()) {
                        Err(e) => Err(e),
                        Ok(a) => {
                            Ok(HirTypeV::Enum(d, a.0, a.1))
                        }
                    }
                }
            }
        },
    }
}

/// An array length: known, or a constant parameter in scope.
pub open spec fn l_array_len(
    s: LowerState,
    len: ast::ArrayLenV,
) -> Result<hir::ArrayLen, MplangErrorV> {
    match len {
        ast::ArrayLenV::Known(n) => Ok(hir::ArrayLen::Known(n)),
        ast::ArrayLenV::Param(name) => match generic_index(
            s.generics,
            GenericParamKind::Const,
            name,
            0,
        ) {
            Some(i) => Ok(hir::ArrayLen::Const(i)),
            None => Err(no_const_param(name)),
        },
    }
}

/// Generic arguments from `i` on, parted into types and constants.
pub open spec fn l_generic_args(
    s: LowerState,
    args: Seq<ast::TypeOrConstV>,
    i: int,
    types: Seq<HirTypeV>,
    consts: Seq<ConstArg>,
) -> Result<(Seq<HirTypeV>, Seq<ConstArg>), MplangErrorV>
    decreases args, args.len() - i,
{
    if i < 0 || i >= args.len() {
        Ok((types, consts))
    } else {
        match args[i] {
            ast::TypeOrConstV::Type(t) => match const_param_of(s, t) {
                Some(p) => l_generic_args(s, args, i + 1, types, consts.push(ConstArg::Param(p))),
                None => {
                    match l_type(s, t) {
                        Err(e) => Err(e),
                        Ok(h) => {
                            l_generic_args(s, args, i + 1, types.push(h), consts)
                        }
                    }
                },
            },
            ast::TypeOrConstV::Const(v) => l_generic_args(
                s,
                args,
                i + 1,
                types,
                consts.push(ConstArg::Literal(v)),
            ),
        }
    }
}

/// Explicit generic arguments from `i` on, behind `done`.
pub open spec fn l_turbofish(
    s: LowerState,
    args: Seq<ast::TypeOrConstV>,
    i: int,
    done: Seq<hir::TypeOrConstV>,
) -> Result<Seq<hir::TypeOrConstV>, MplangErrorV>
    decreases args.len() - i,
{
    if i >= args.len() {
        Ok(done)
    } else {
        match args[i] {
            ast::TypeOrConstV::Type(t) => match const_param_of(s, t) {
                Some(p) => l_turbofish(s, args, i + 1, done.push(hir::TypeOrConstV::ConstParam(p))),
                None => {
                    match l_type(s, t) {
                        Err(e) => Err(e),
                        Ok(h) => {
                            l_turbofish(s, args, i + 1, done.push(hir::TypeOrConstV::Type(h)))
                        }
                    }
                },
            },
            ast::TypeOrConstV::Const(v) => l_turbofish(
                s,
                args,
                i + 1,
                done.push(hir::TypeOrConstV::Const(v)),
            ),
        }
    }
}

/// Types from `i` on, behind `done`.
pub open spec fn l_types(
    s: LowerState,
    ts: Seq<TypeV>,
    i: int,
    done: Seq<HirTypeV>,
) -> Result<Seq<HirTypeV>, MplangErrorV>
    decreases ts.len() - i,
{
    if i >= ts.len() {
        Ok(done)
    } else {
        match l_type(s, ts[i]) {
            Err(e) => Err(e),
            Ok(h) => {
                l_types(s, ts, i + 1, done.push(h))
            }
        }
    }
}

/// A type that may be missing.
pub open spec fn l_opt_type(
    s: LowerState,
    t: Option<TypeV>,
) -> Result<Option<HirTypeV>, MplangErrorV> {
    match t {
        Some(t) => {
            match l_type(s, t) {
                Err(e) => Err(e),
                Ok(h) => {
                    Ok(Some(h))
                }
            }
        },
        None => Ok(None),
    }
}

// Expressions and statements

/// The value that a definition stands for: a variant without payload, or a
/// variable.
pub open spec fn value_of(s: LowerState, d: DefId) -> HirExprV {
    match lookup(s.variants, d) {
        Some(
            v,
        ) => HirExprV::Variant { def_id: v.0, variant: v.1, args: Seq::empty(), turbofish: Seq::empty() },
        None => HirExprV::Path(d),
    }
}

/// The call of a definition: the construction of a variant, or a function call.
pub open spec fn call_of(
    s: LowerState,
    d: DefId,
    args: Seq<HirExprV>,
    turbofish: Seq<hir::TypeOrConstV>,
) -> HirExprV {
    match lookup(s.variants, d) {
        Some(v) => HirExprV::Variant { def_id: v.0, variant: v.1, args, turbofish },
        None => HirExprV::Call { callee: d, args, turbofish },
    }
}

/// The local variable that a path names, by its last segment.
pub open spec fn local_of(s: LowerState, path: PathV) -> Option<DefId> {
    match path.last() {
        Some(name) => lookup(s.locals, name),
        None => None,
    }
}

/// The count of an array literal `[v; n]`, which must be an integer literal.
pub open spec fn l_repeat(repeat: Option<Box<ExprV>>) -> Result<Option<usize>, MplangErrorV> {
    match repeat {
        None => Ok(None),
        Some(e) => match *e {
            ExprV::Literal(LiteralV::Int(n)) => Ok(Some(n as usize)),
            _ => Err(name_error("数组字面量重复形式 [v; n] 的 n 必须是整型字面量"@)),
        },
    }
}

/// An expression with its value names resolved. Local variables come first.
pub open spec fn l_expr(s: LowerState, e: ExprV) -> (LowerState, Result<HirExprV, MplangErrorV>)
    decreases e, 0int,
{
    match e {
        ExprV::Literal(l) => (s, Ok(HirExprV::Literal(l))),
        ExprV::Ident(path) => match local_of(s, path) {
            Some(id) => (s, Ok(HirExprV::Path(id))),
            None => {
                match resolve(s, path, "标识符"@) {
                    Err(e) => (s, Err(e)),
                    Ok(d) => {
                        (s, Ok(value_of(s, d)))
                    }
                }
            },
        },
        ExprV::Paren(inner) => l_expr(s, *inner),
        ExprV::Binary { op, lhs, rhs } => {
            match l_expr(s, *lhs) {
                (at, Err(e)) => (at, Err(e)),
                (s1, Ok(l)) => {
                    match l_expr(s1, *rhs) {
                        (at, Err(e)) => (at, Err(e)),
                        (s2, Ok(r)) => {
                            (s2, Ok(HirExprV::Binary { op, lhs: Box::new(l), rhs: Box::new(r) }))
                        }
                    }
                }
            }
        },
        ExprV::Call { callee, args, turbofish } => {
            match resolve(s, callee, "函数调用"@) {
                Err(e) => (s, Err(e)),
                Ok(d) => {
                    match l_exprs(s, args, 0, Seq::empty()) {
                        (at, Err(e)) => (at, Err(e)),
                        (s1, Ok(a)) => {
                            match l_turbofish(s1, turbofish, 0, Seq::empty()) {
                                Err(e) => (s1, Err(e)),
                                Ok(t) => {
                                    (s1, Ok(call_of(s1, d, a, t)))
                                }
                            }
                        }
                    }
                }
            }
        },
        ExprV::FieldAccess { object, field } => {
            match l_expr(s, *object) {
                (at, Err(e)) => (at, Err(e)),
                (s1, Ok(o)) => {
                    (s1, Ok(HirExprV::FieldAccess { object: Box::new(o), field }))
                }
            }
        },
        ExprV::StructLiteral { name, fields, turbofish } => {
            match resolve(s, name, "结构体字面量"@) {
                Err(e) => (s, Err(e)),
                Ok(d) => {
                    match l_field_inits(s, fields, 0, Seq::empty()) {
                        (at, Err(e)) => (at, Err(e)),
                        (s1, Ok(f)) => {
                            match l_turbofish(s1, turbofish, 0, Seq::empty()) {
                                Err(e) => (s1, Err(e)),
                                Ok(t) => {
                                    (
                                        s1,
                                        Ok(
                                            HirExprV::StructLiteral { def_id: d, fields: f, turbofish: t },
                                        ),
                                    )
                                }
                            }
                        }
                    }
                }
            }
        },
        ExprV::AddrOf(inner) => {
            match l_expr(s, *inner) {
                (at, Err(e)) => (at, Err(e)),
                (s1, Ok(h)) => {
                    (s1, Ok(HirExprV::AddressOf(Box::new(h))))
                }
            }
        },
        ExprV::Deref(inner) => {
            match l_expr(s, *inner) {
                (at, Err(e)) => (at, Err(e)),
                (s1, Ok(h)) => {
                    (s1, Ok(HirExprV::Deref(Box::new(h))))
                }
            }
        },
        ExprV::MethodCall { object, name, args } => {
            match l_expr(s, *object) {
                (at, Err(e)) => (at, Err(e)),
                (s1, Ok(o)) => {
                    match l_exprs(s1, args, 0, Seq::empty()) {
                        (at, Err(e)) => (at, Err(e)),
                        (s2, Ok(a)) => {
                            (s2, Ok(HirExprV::MethodCall { object: Box::new(o), name, args: a }))
                        }
                    }
                }
            }
        },
        ExprV::ArrayLiteral { elements, repeat } => {
            match l_repeat(repeat) {
                Err(e) => (s, Err(e)),
                Ok(n) => {
                    match l_exprs(s, elements, 0, Seq::empty()) {
                        (at, Err(e)) => (at, Err(e)),
                        (s1, Ok(es)) => {
                            (s1, Ok(HirExprV::ArrayLiteral { elements: es, repeat: n }))
                        }
                    }
                }
            }
        },
        ExprV::Index { array, index } => {
            match l_expr(s, *array) {
                (at, Err(e)) => (at, Err(e)),
                (s1, Ok(a)) => {
                    match l_expr(s1, *index) {
                        (at, Err(e)) => (at, Err(e)),
                        (s2, Ok(i)) => {
                            (s2, Ok(HirExprV::Index { array: Box::new(a), index: Box::new(i) }))
                        }
                    }
                }
            }
        },
        ExprV::StaticCall { ty_path, method, args, turbofish } => {
            match resolve(s, PathV { segments: ty_path.segments.push(method) }, "静态方法调用"@) {
                Err(e) => (s, Err(e)),
                Ok(d) => {
                    match l_exprs(s, args, 0, Seq::empty()) {
                        (at, Err(e)) => (at, Err(e)),
                        (s1, Ok(a)) => {
                            match l_turbofish(s1, turbofish, 0, Seq::empty()) {
                                Err(e) => (s1, Err(e)),
                                Ok(t) => {
                                    (s1, Ok(HirExprV::Call { callee: d, args: a, turbofish: t }))
                                }
                            }
                        }
                    }
                }
            }
        },
        ExprV::Match { scrutinee, arms } => {
            match l_expr(s, *scrutinee) {
                (at, Err(e)) => (at, Err(e)),
                (s1, Ok(v)) => {
                    match l_arms(s1, arms, 0, Seq::empty()) {
                        (at, Err(e)) => (at, Err(e)),
                        (s2, Ok(a)) => {
                            (s2, Ok(HirExprV::Match { scrutinee: Box::new(v), arms: a }))
                        }
                    }
                }
            }
        },
    }
}

/// Expressions from `i` on, behind `done`.
pub open spec fn l_exprs(
    s: LowerState,
    es: Seq<ExprV>,
    i: int,
    done: Seq<HirExprV>,
) -> (LowerState, Result<Seq<HirExprV>, MplangErrorV>)
    decreases es, es.len() - i,
{
    if i < 0 || i >= es.len() {
        (s, Ok(done))
    } else {
        match l_expr(s, es[i]) {
            (at, Err(e)) => (at, Err(e)),
            (s1, Ok(h)) => {
                l_exprs(s1, es, i + 1, done.push(h))
            }
        }
    }
}

/// The fields of a struct literal from `i` on, behind `done`.
pub open spec fn l_field_inits(
    s: LowerState,
    fs: Seq<(Seq<char>, ExprV)>,
    i: int,
    done: Seq<(Seq<char>, HirExprV)>,
) -> (LowerState, Result<Seq<(Seq<char>, HirExprV)>, MplangErrorV>)
    decreases fs, fs.len() - i,
{
    if i < 0 || i >= fs.len() {
        (s, Ok(done))
    } else {
        match l_expr(s, fs[i].1) {
            (at, Err(e)) => (at, Err(e)),
            (s1, Ok(h)) => {
                l_field_inits(s1, fs, i + 1, done.push((fs[i].0, h)))
            }
        }
    }
}

/// Match arms from `i` on, behind `done`. What an arm binds is not visible
/// outside it.
pub open spec fn l_arms(
    s: LowerState,
    arms: Seq<MatchArmV>,
    i: int,
    done: Seq<HirMatchArmV>,
) -> (LowerState, Result<Seq<HirMatchArmV>, MplangErrorV>)
    decreases arms, arms.len() - i,
{
    if i < 0 || i >= arms.len() {
        (s, Ok(done))
    } else {
        match l_pattern(s, arms[i].pattern) {
            (at, Err(e)) => (at, Err(e)),
            (s1, Ok(p)) => {
                match l_stmts(s1, arms[i].body, 0, Seq::empty()) {
                    (at, Err(e)) => (at, Err(e)),
                    (s2, Ok(b)) => {
                        l_arms(
                            LowerState { locals: s.locals, ..s2 },
                            arms,
                            i + 1,
                            done.push(HirMatchArmV { pattern: p, body: HirBodyV { stmts: b } }),
                        )
                    }
                }
            }
        }
    }
}

/// A pattern. A bare name is a variant if it names one, and binds a variable
/// otherwise.
#[verifier::opaque]
pub open spec fn l_pattern(
    s: LowerState,
    p: PatternV,
) -> (LowerState, Result<HirPatternV, MplangErrorV>) {
    match p {
        PatternV::Variant { enum_def, variant, bindings } => {
            match resolve(s, enum_def, "变体模式"@) {
                Err(e) => (s, Err(e)),
                Ok(d) => {
                    match lookup(s.variants, d) {
                        None => (s, Err(no_variant(enum_def))),
                        Some(v) => {
                            match l_bindings(s, bindings, 0, Seq::empty()) {
                                (at, Err(e)) => (at, Err(e)),
                                (s1, Ok(b)) => {
                                    (
                                        s1,
                                        Ok(
                                            HirPatternV::Variant { enum_def: v.0, variant, bindings: b },
                                        ),
                                    )
                                }
                            }
                        },
                    }
                }
            }
        },
        PatternV::Literal(l) => (s, Ok(HirPatternV::Literal(l))),
        PatternV::Wildcard => (s, Ok(HirPatternV::Wildcard)),
        PatternV::Ident(name) => match named_variant(s, name) {
            Some(v) => (
                s,
                Ok(HirPatternV::Variant { enum_def: v.0, variant: v.1, bindings: Seq::empty() }),
            ),
            None => {
                match new_local(s, name) {
                    (at, Err(e)) => (at, Err(e)),
                    (s1, Ok(id)) => {
                        (s1, Ok(HirPatternV::Ident(id)))
                    }
                }
            },
        },
    }
}

/// The variant that a bare name stands for.
pub open spec fn named_variant(s: LowerState, name: Seq<char>) -> Option<(DefId, Seq<char>)> {
    match lookup(s.names, name) {
        Some(d) => lookup(s.variants, d),
        None => None,
    }
}

/// The bindings of a variant pattern from `i` on, behind `done`.
pub open spec fn l_bindings(
    s: LowerState,
    bs: Seq<(Seq<char>, Option<TypeV>)>,
    i: int,
    done: Seq<(DefId, Option<HirTypeV>)>,
) -> (LowerState, Result<Seq<(DefId, Option<HirTypeV>)>, MplangErrorV>)
    decreases bs.len() - i,
{
    if i >= bs.len() {
        (s, Ok(done))
    } else {
        match new_local(s, bs[i].0) {
            (at, Err(e)) => (at, Err(e)),
            (s1, Ok(id)) => {
                match l_opt_type(s1, bs[i].1) {
                    Err(e) => (s1, Err(e)),
                    Ok(t) => {
                        l_bindings(s1, bs, i + 1, done.push((id, t)))
                    }
                }
            }
        }
    }
}

/// A statement. The variable of a `let` is already visible in its initial
/// value.
pub open spec fn l_stmt(s: LowerState, st: StmtV) -> (LowerState, Result<HirStmtV, MplangErrorV>)
    decreases st, 0int,
{
    match st {
        StmtV::Let { name, ty, init } => {
            match new_local(s, name) {
                (at, Err(e)) => (at, Err(e)),
                (s1, Ok(id)) => {
                    match l_opt_type(s1, ty) {
                        Err(e) => (s1, Err(e)),
                        Ok(t) => {
                            match l_expr(s1, init) {
                                (at, Err(e)) => (at, Err(e)),
                                (s2, Ok(v)) => {
                                    (s2, Ok(HirStmtV::Let { def_id: id, name, ty: t, init: v }))
                                }
                            }
                        }
                    }
                }
            }
        },
        StmtV::Static { .. } => (s, Err(name_error("static/const 声明不允许出现在函数体内，请将它们移到顶层。"@))),
        StmtV::Const { .. } => (s, Err(name_error("static/const 声明不允许出现在函数体内，请将它们移到顶层。"@))),
        StmtV::Assign { target, value } => {
            match l_expr(s, *target) {
                (at, Err(e)) => (at, Err(e)),
                (s1, Ok(t)) => {
                    match l_expr(s1, value) {
                        (at, Err(e)) => (at, Err(e)),
                        (s2, Ok(v)) => {
                            (s2, Ok(HirStmtV::Assign { target: t, value: v }))
                        }
                    }
                }
            }
        },
        StmtV::Expr(e) => {
            match l_expr(s, e) {
                (at, Err(e)) => (at, Err(e)),
                (s1, Ok(v)) => {
                    (s1, Ok(HirStmtV::Expr(v)))
                }
            }
        },
        StmtV::If { cond, then_branch, else_branch } => {
            match l_expr(s, cond) {
                (at, Err(e)) => (at, Err(e)),
                (s1, Ok(c)) => {
                    match l_stmts(s1, then_branch, 0, Seq::empty()) {
                        (at, Err(e)) => (at, Err(e)),
                        (s2, Ok(a)) => {
                            match else_branch {
                                Some(other) => {
                                    match l_stmts(s2, other, 0, Seq::empty()) {
                                        (at, Err(e)) => (at, Err(e)),
                                        (s3, Ok(b)) => {
                                            (
                                                s3,
                                                Ok(
                                                    HirStmtV::If { cond: c, then_branch: HirBodyV { stmts: a }, else_branch: Some(HirBodyV { stmts: b }) },
                                                ),
                                            )
                                        }
                                    }
                                },
                                None => (
                                    s2,
                                    Ok(
                                        HirStmtV::If { cond: c, then_branch: HirBodyV { stmts: a }, else_branch: None },
                                    ),
                                ),
                            }
                        }
                    }
                }
            }
        },
        StmtV::While { cond, body } => {
            match l_expr(s, cond) {
                (at, Err(e)) => (at, Err(e)),
                (s1, Ok(c)) => {
                    match l_stmts(s1, body, 0, Seq::empty()) {
                        (at, Err(e)) => (at, Err(e)),
                        (s2, Ok(b)) => {
                            (s2, Ok(HirStmtV::While { cond: c, body: HirBodyV { stmts: b } }))
                        }
                    }
                }
            }
        },
        StmtV::Return(value) => match value {
            Some(e) => {
                match l_expr(s, e) {
                    (at, Err(e)) => (at, Err(e)),
                    (s1, Ok(v)) => {
                        (s1, Ok(HirStmtV::Return(Some(v))))
                    }
                }
            },
            None => (s, Ok(HirStmtV::Return(None))),
        },
    }
}

/// Statements from `i` on, behind `done`.
pub open spec fn l_stmts(
    s: LowerState,
    stmts: Seq<StmtV>,
    i: int,
    done: Seq<HirStmtV>,
) -> (LowerState, Result<Seq<HirStmtV>, MplangErrorV>)
    decreases stmts, stmts.len() - i,
{
    if i < 0 || i >= stmts.len() {
        (s, Ok(done))
    } else {
        match l_stmt(s, stmts[i]) {
            (at, Err(e)) => (at, Err(e)),
            (s1, Ok(h)) => {
                l_stmts(s1, stmts, i + 1, done.push(h))
            }
        }
    }
}

// Registration

/// Registers the variants of an enumeration from `i` on.
pub open spec fn reg_variants(
    s: LowerState,
    prefix: Seq<Seq<char>>,
    enum_def: DefId,
    vs: Seq<EnumVariantV>,
    i: int,
) -> (LowerState, Result<(), MplangErrorV>)
    decreases vs.len() - i,
{
    if i >= vs.len() {
        (s, Ok(()))
    } else {
        match register_def(s, prefix, vs[i].name) {
            (at, Err(e)) => (at, Err(e)),
            (s1, Ok(id)) => {
                reg_variants(
                    LowerState { variants: s1.variants.insert(id, (enum_def, vs[i].name)), ..s1 },
                    prefix,
                    enum_def,
                    vs,
                    i + 1,
                )
            }
        }
    }
}

/// Registers a declaration that brings in no other file.
#[verifier::opaque]
pub open spec fn reg_plain(
    s: LowerState,
    d: TopLevelDeclV,
    prefix: Seq<Seq<char>>,
) -> (LowerState, Result<(), MplangErrorV>) {
    match d {
        TopLevelDeclV::ModDecl { name, .. } => {
            match register_def(s, prefix, name) {
                (at, Err(e)) => (at, Err(e)),
                (s1, Ok(_id)) => {
                    (s1, Ok(()))
                }
            }
        },
        TopLevelDeclV::ExternCrate { name, .. } => {
            match register_def(s, prefix, name) {
                (at, Err(e)) => (at, Err(e)),
                (s1, Ok(_id)) => {
                    (s1, Ok(()))
                }
            }
        },
        TopLevelDeclV::UseDecl { .. } => (s, Ok(())),
        TopLevelDeclV::ExternFnDef { name, .. } => {
            match register_def(s, prefix, name) {
                (at, Err(e)) => (at, Err(e)),
                (s1, Ok(_id)) => {
                    (s1, Ok(()))
                }
            }
        },
        TopLevelDeclV::FnDef { name, .. } => {
            match register_def(s, prefix, name) {
                (at, Err(e)) => (at, Err(e)),
                (s1, Ok(_id)) => {
                    (s1, Ok(()))
                }
            }
        },
        TopLevelDeclV::StructDef { name, .. } => {
            match register_def(s, prefix, name) {
                (at, Err(e)) => (at, Err(e)),
                (s1, Ok(_id)) => {
                    (s1, Ok(()))
                }
            }
        },
        TopLevelDeclV::Static { name, .. } => {
            match register_def(s, prefix, name) {
                (at, Err(e)) => (at, Err(e)),
                (s1, Ok(_id)) => {
                    (s1, Ok(()))
                }
            }
        },
        TopLevelDeclV::Const { name, .. } => {
            match register_def(s, prefix, name) {
                (at, Err(e)) => (at, Err(e)),
                (s1, Ok(_id)) => {
                    (s1, Ok(()))
                }
            }
        },
        TopLevelDeclV::Trait { name, methods, .. } => {
            match register_def(s, prefix, name) {
                (at, Err(e)) => (at, Err(e)),
                (s1, Ok(id)) => {
                    (
                        LowerState { trait_defs: s1.trait_defs.insert(name, id), traits: s1.traits.insert(name, methods.map_values(|m: ast::TraitMethodV| contract_of(m))), ..s1 },
                        Ok(()),
                    )
                }
            }
        },
        TopLevelDeclV::Impl { .. } => (s, Ok(())),
        TopLevelDeclV::Enum { name, variants, .. } => {
            match register_def(s, prefix, name) {
                (at, Err(e)) => (at, Err(e)),
                (s1, Ok(id)) => {
                    reg_variants(
                        LowerState { enums: s1.enums.insert(id, ()), ..s1 },
                        prefix,
                        id,
                        variants,
                        0,
                    )
                }
            }
        },
    }
}

/// The name under which a declaration brings in another file.
pub open spec fn module_name(d: TopLevelDeclV) -> Option<Seq<char>> {
    match d {
        TopLevelDeclV::ModDecl { name, .. } => Some(name),
        TopLevelDeclV::ExternCrate { name, .. } => Some(name),
        _ => None,
    }
}

/// The file that the `k`-th module declaration brings in.
pub open spec fn child(tree: SourceTreeV, k: int) -> Option<SourceUnitV> {
    if 0 <= k < tree.units.len() {
        tree.units[k]
    } else {
        None
    }
}

/// Registers the declarations from `i` on, of which `k` brought in a file
/// before, with all that they bring in.
pub open spec fn reg_decls(
    s: LowerState,
    ds: Seq<TopLevelDeclV>,
    i: int,
    prefix: Seq<Seq<char>>,
    tree: SourceTreeV,
    k: int,
) -> (LowerState, Result<(), MplangErrorV>)
    decreases tree, ds.len() - i,
{
    if i < 0 || i >= ds.len() {
        (s, Ok(()))
    } else {
        match reg_plain(s, ds[i], prefix) {
            (at, Err(e)) => (at, Err(e)),
            (s1, Ok(_u)) => {
                match module_name(ds[i]) {
                    Some(name) => match child(tree, k) {
                        Some(sub) => {
                            match reg_decls(
                                s1,
                                sub.unit.declarations,
                                0,
                                prefix.push(name),
                                sub.children,
                                0,
                            ) {
                                (at, Err(e)) => (at, Err(e)),
                                (s2, Ok(_v)) => {
                                    reg_decls(s2, ds, i + 1, prefix, tree, k + 1)
                                }
                            }
                        },
                        None => reg_decls(s1, ds, i + 1, prefix, tree, k + 1),
                    },
                    None => reg_decls(s1, ds, i + 1, prefix, tree, k),
                }
            }
        }
    }
}

// Items

/// The constant parameters among generic parameters from `i` on, as local
/// variables, behind `done`.
pub open spec fn l_const_params(
    s: LowerState,
    gs: Seq<GenericParamV>,
    i: int,
    done: Seq<HirParamV>,
) -> (LowerState, Result<Seq<HirParamV>, MplangErrorV>)
    decreases gs.len() - i,
{
    if i >= gs.len() {
        (s, Ok(done))
    } else if gs[i].kind == GenericParamKind::Const {
        match new_local(s, gs[i].name) {
            (at, Err(e)) => (at, Err(e)),
            (s1, Ok(id)) => {
                l_const_params(
                    s1,
                    gs,
                    i + 1,
                    done.push(
                        HirParamV { def_id: id, name: gs[i].name, ty: HirTypeV::Int, kind: ParamKind::ConstParam(i as usize) },
                    ),
                )
            }
        }
    } else {
        l_const_params(s, gs, i + 1, done)
    }
}

/// The value parameters from `i` on, behind `done`.
pub open spec fn l_value_params(
    s: LowerState,
    ps: Seq<ParamV>,
    i: int,
    done: Seq<HirParamV>,
) -> (LowerState, Result<Seq<HirParamV>, MplangErrorV>)
    decreases ps.len() - i,
{
    if i >= ps.len() {
        (s, Ok(done))
    } else {
        match new_local(s, ps[i].name) {
            (at, Err(e)) => (at, Err(e)),
            (s1, Ok(id)) => {
                match l_type(s1, ps[i].ty) {
                    Err(e) => (s1, Err(e)),
                    Ok(t) => {
                        l_value_params(
                            s1,
                            ps,
                            i + 1,
                            done.push(
                                HirParamV { def_id: id, name: ps[i].name, ty: t, kind: ParamKind::Value },
                            ),
                        )
                    }
                }
            }
        }
    }
}

/// A foreign function.
#[verifier::opaque]
pub open spec fn low_extern_fn(
    s: LowerState,
    prefix: Seq<Seq<char>>,
    attributes: Seq<MetaV>,
    name: Seq<char>,
    param_types: Seq<TypeV>,
    return_ty: TypeV,
    is_variadic: bool,
) -> (LowerState, Result<HirItemV, MplangErrorV>) {
    match registered(s, prefix.push(name)) {
        Err(e) => (s, Err(e)),
        Ok(id) => {
            match l_types(s, param_types, 0, Seq::empty()) {
                Err(e) => (s, Err(e)),
                Ok(ps) => {
                    match l_type(s, return_ty) {
                        Err(e) => (s, Err(e)),
                        Ok(r) => {
                            (
                                s,
                                Ok(
                                    HirItemV::ExternFn { def_id: id, visibility: Visibility::Public, attributes, link_name: ast::attr_value(attributes, "link_name"@, 0), name, param_types: ps, return_ty: r, is_variadic },
                                ),
                            )
                        }
                    }
                }
            }
        }
    }
}

/// A function.
#[verifier::opaque]
pub open spec fn low_fn(
    s: LowerState,
    prefix: Seq<Seq<char>>,
    attributes: Seq<MetaV>,
    name: Seq<char>,
    generics: Seq<GenericParamV>,
    params: Seq<ParamV>,
    return_ty: TypeV,
    body: Seq<StmtV>,
) -> (LowerState, Result<HirItemV, MplangErrorV>) {
    match registered(s, prefix.push(name)) {
        Err(e) => (s, Err(e)),
        Ok(id) => {
            let inner = LowerState { generics, locals: Map::empty(), ..s };
            match l_const_params(inner, generics, 0, Seq::empty()) {
                (at, Err(e)) => (at, Err(e)),
                (s1, Ok(cs)) => {
                    match l_value_params(s1, params, 0, cs) {
                        (at, Err(e)) => (at, Err(e)),
                        (s2, Ok(ps)) => {
                            match l_type(s2, return_ty) {
                                Err(e) => (s2, Err(e)),
                                Ok(r) => {
                                    match l_stmts(s2, body, 0, Seq::empty()) {
                                        (at, Err(e)) => (at, Err(e)),
                                        (s3, Ok(b)) => {
                                            (
                                                LowerState { generics: s.generics, ..s3 },
                                                Ok(
                                                    HirItemV::Fn { def_id: id, visibility: Visibility::Public, attributes, name, generics, params: ps, return_ty: r, body: HirBodyV { stmts: b }, impl_receiver: None },
                                                ),
                                            )
                                        }
                                    }
                                }
                            }
                        }
                    }
                }
            }
        }
    }
}

/// Fields from `i` on, behind `done`.
pub open spec fn l_fields(
    s: LowerState,
    fs: Seq<(Seq<char>, TypeV)>,
    i: int,
    done: Seq<HirFieldV>,
) -> (LowerState, Result<Seq<HirFieldV>, MplangErrorV>)
    decreases fs.len() - i,
{
    if i >= fs.len() {
        (s, Ok(done))
    } else {
        match fresh(s) {
            (at, Err(e)) => (at, Err(e)),
            (s1, Ok(id)) => {
                match l_type(s1, fs[i].1) {
                    Err(e) => (s1, Err(e)),
                    Ok(t) => {
                        l_fields(
                            s1,
                            fs,
                            i + 1,
                            done.push(
                                HirFieldV { def_id: id, name: fs[i].0, ty: t, visibility: Visibility::Public },
                            ),
                        )
                    }
                }
            }
        }
    }
}

/// A struct.
#[verifier::opaque]
pub open spec fn low_struct(
    s: LowerState,
    prefix: Seq<Seq<char>>,
    attributes: Seq<MetaV>,
    name: Seq<char>,
    generics: Seq<GenericParamV>,
    fields: Seq<(Seq<char>, TypeV)>,
) -> (LowerState, Result<HirItemV, MplangErrorV>) {
    match registered(s, prefix.push(name)) {
        Err(e) => (s, Err(e)),
        Ok(id) => {
            match l_fields(LowerState { generics, ..s }, fields, 0, Seq::empty()) {
                (at, Err(e)) => (at, Err(e)),
                (s1, Ok(fs)) => {
                    (
                        LowerState { generics: s.generics, ..s1 },
                        Ok(
                            HirItemV::Struct { def_id: id, visibility: Visibility::Public, attributes, name, generics, fields: fs },
                        ),
                    )
                }
            }
        }
    }
}

/// Variants from `i` on, behind `done`. The tag of a variant is its position.
pub open spec fn l_variants(
    s: LowerState,
    prefix: Seq<Seq<char>>,
    vs: Seq<EnumVariantV>,
    i: int,
    done: Seq<HirEnumVariantV>,
) -> (LowerState, Result<Seq<HirEnumVariantV>, MplangErrorV>)
    decreases vs.len() - i,
{
    if i >= vs.len() {
        (s, Ok(done))
    } else {
        match registered(s, prefix.push(vs[i].name)) {
            Err(e) => (s, Err(e)),
            Ok(id) => {
                match l_fields(s, vs[i].fields, 0, Seq::empty()) {
                    (at, Err(e)) => (at, Err(e)),
                    (s1, Ok(fs)) => {
                        l_variants(
                            s1,
                            prefix,
                            vs,
                            i + 1,
                            done.push(
                                HirEnumVariantV { def_id: id, name: vs[i].name, tag: i as u32, fields: fs },
                            ),
                        )
                    }
                }
            }
        }
    }
}

/// An enumeration.
#[verifier::opaque]
pub open spec fn low_enum(
    s: LowerState,
    prefix: Seq<Seq<char>>,
    attributes: Seq<MetaV>,
    name: Seq<char>,
    generics: Seq<GenericParamV>,
    variants: Seq<EnumVariantV>,
) -> (LowerState, Result<HirItemV, MplangErrorV>) {
    match registered(s, prefix.push(name)) {
        Err(e) => (s, Err(e)),
        Ok(id) => {
            match l_variants(LowerState { generics, ..s }, prefix, variants, 0, Seq::empty()) {
                (at, Err(e)) => (at, Err(e)),
                (s1, Ok(vs)) => {
                    (
                        LowerState { generics: s.generics, ..s1 },
                        Ok(
                            HirItemV::Enum { def_id: id, visibility: Visibility::Public, attributes, name, generics, variants: vs },
                        ),
                    )
                }
            }
        }
    }
}

/// A global variable or constant.
#[verifier::opaque]
pub open spec fn low_global(
    s: LowerState,
    prefix: Seq<Seq<char>>,
    attributes: Seq<MetaV>,
    name: Seq<char>,
    ty: TypeV,
    init: ExprV,
    is_const: bool,
) -> (LowerState, Result<HirItemV, MplangErrorV>) {
    match registered(s, prefix.push(name)) {
        Err(e) => (s, Err(e)),
        Ok(id) => {
            let inner = LowerState { locals: Map::empty(), ..s };
            match l_type(inner, ty) {
                Err(e) => (inner, Err(e)),
                Ok(t) => {
                    match l_expr(inner, init) {
                        (at, Err(e)) => (at, Err(e)),
                        (s1, Ok(v)) => {
                            (
                                s1,
                                Ok(
                                    HirItemV::Static { def_id: id, visibility: Visibility::Public, attributes, name, ty: t, init: v, is_const },
                                ),
                            )
                        }
                    }
                }
            }
        }
    }
}

/// A `use` declaration: its last segment stands for the definition.
#[verifier::opaque]
pub open spec fn low_use(s: LowerState, path: PathV) -> (LowerState, Result<(), MplangErrorV>) {
    match resolve(s, path, "use 声明"@) {
        Err(e) => (s, Err(e)),
        Ok(d) => {
            match path.last() {
                Some(name) => (LowerState { aliases: s.aliases.insert(name, d), ..s }, Ok(())),
                None => (s, Err(no_value())),
            }
        }
    }
}

// Implementations

/// The first contract of this name from `i` on.
pub open spec fn find_contract(
    req: Seq<TraitMethodInfoV>,
    name: Seq<char>,
    i: int,
) -> Option<TraitMethodInfoV>
    decreases req.len() - i,
{
    if i >= req.len() {
        None
    } else if req[i].name == name {
        Some(req[i])
    } else {
        find_contract(req, name, i + 1)
    }
}

/// Whether the parameters from `i` on have the types of the contract.
pub open spec fn check_params(
    s: LowerState,
    name: Seq<char>,
    tr: Seq<char>,
    got: Seq<ParamV>,
    want: Seq<ParamV>,
    i: int,
) -> Result<(), MplangErrorV>
    decreases got.len() - i,
{
    if i >= got.len() {
        Ok(())
    } else {
        match l_type(s, want[i].ty) {
            Err(e) => Err(e),
            Ok(w) => {
                match l_type(s, got[i].ty) {
                    Err(e) => Err(e),
                    Ok(g) => {
                        if g != w {
                            Err(param_mismatch(name, i as nat, tr))
                        } else {
                            check_params(s, name, tr, got, want, i + 1)
                        }
                    }
                }
            }
        }
    }
}

/// Whether a method fulfils the contract of its trait.
#[verifier::opaque]
pub open spec fn check_method(
    s: LowerState,
    ty: TypeV,
    tr: Seq<char>,
    req: Seq<TraitMethodInfoV>,
    m: ImplMethodV,
) -> Result<(), MplangErrorV> {
    match find_contract(req, m.name, 0) {
        None => Err(foreign_method(ty, tr, m.name)),
        Some(sig) => if m.is_static != sig.is_static {
            Err(static_mismatch(m.name, m.is_static, tr, sig.is_static))
        } else if m.params.len() != sig.params.len() {
            Err(arity_mismatch(m.name, m.params.len(), tr, sig.params.len()))
        } else {
            match check_params(s, m.name, tr, m.params, sig.params, 0) {
                Err(e) => Err(e),
                Ok(_p) => {
                    match l_type(s, sig.return_ty) {
                        Err(e) => Err(e),
                        Ok(w) => {
                            match l_type(s, m.return_ty) {
                                Err(e) => Err(e),
                                Ok(g) => {
                                    if g != w {
                                        Err(return_mismatch(m.name, tr))
                                    } else {
                                        Ok(())
                                    }
                                }
                            }
                        }
                    }
                }
            }
        },
    }
}

/// Whether the methods from `i` on fulfil the contracts of their trait.
pub open spec fn check_methods(
    s: LowerState,
    ty: TypeV,
    tr: Seq<char>,
    req: Seq<TraitMethodInfoV>,
    ms: Seq<ImplMethodV>,
    i: int,
) -> Result<(), MplangErrorV>
    decreases ms.len() - i,
{
    if i >= ms.len() {
        Ok(())
    } else {
        match check_method(s, ty, tr, req, ms[i]) {
            Err(e) => Err(e),
            Ok(_u) => {
                check_methods(s, ty, tr, req, ms, i + 1)
            }
        }
    }
}

/// Whether a method of this name is among the methods from `i` on.
pub open spec fn provides(ms: Seq<ImplMethodV>, name: Seq<char>, i: int) -> bool
    decreases ms.len() - i,
{
    i < ms.len() && (ms[i].name == name || provides(ms, name, i + 1))
}

/// The method that a default body gives.
pub open spec fn default_method(t: TraitMethodInfoV, body: Seq<StmtV>) -> ImplMethodV {
    ImplMethodV { name: t.name, generics: Seq::empty(), params: t.params, return_ty: t.return_ty, body, is_static: t.is_static }
}

/// `done`, followed by the defaults of the contracts from `i` on that the
/// methods `ms` leave out; an error where there is no default.
pub open spec fn with_defaults(
    ty: TypeV,
    tr: Seq<char>,
    req: Seq<TraitMethodInfoV>,
    ms: Seq<ImplMethodV>,
    i: int,
    done: Seq<ImplMethodV>,
) -> Result<Seq<ImplMethodV>, MplangErrorV>
    decreases req.len() - i,
{
    if i >= req.len() {
        Ok(done)
    } else if provides(ms, req[i].name, 0) {
        with_defaults(ty, tr, req, ms, i + 1, done)
    } else {
        match req[i].default_body {
            None => Err(missing_method(ty, tr, req[i].name)),
            Some(body) => with_defaults(
                ty,
                tr,
                req,
                ms,
                i + 1,
                done.push(default_method(req[i], body)),
            ),
        }
    }
}

/// The name by which an implementation refers to its trait.
pub open spec fn trait_name(tr: PathV) -> Seq<char> {
    match tr.last() {
        Some(name) => name,
        None => "?"@,
    }
}

/// The methods of an implementation, defaults included.
#[verifier::opaque]
pub open spec fn all_methods(
    s: LowerState,
    ty: TypeV,
    trrait: Option<PathV>,
    ms: Seq<ImplMethodV>,
) -> Result<Seq<ImplMethodV>, MplangErrorV> {
    match trrait {
        None => Ok(ms),
        Some(tr) => match lookup(s.traits, trait_name(tr)) {
            None => Err(no_trait(trait_name(tr))),
            Some(req) => {
                match check_methods(s, ty, trait_name(tr), req, ms, 0) {
                    Err(e) => Err(e),
                    Ok(_u) => {
                        with_defaults(ty, trait_name(tr), req, ms, 0, ms)
                    }
                }
            },
        },
    }
}

/// One fresh definition for each method from `i` on, behind `done`.
pub open spec fn alloc_methods(
    s: LowerState,
    ms: Seq<ImplMethodV>,
    i: int,
    done: Seq<DefId>,
) -> (LowerState, Result<Seq<DefId>, MplangErrorV>)
    decreases ms.len() - i,
{
    if i >= ms.len() {
        (s, Ok(done))
    } else {
        match fresh(s) {
            (at, Err(e)) => (at, Err(e)),
            (s1, Ok(id)) => {
                alloc_methods(s1, ms, i + 1, done.push(id))
            }
        }
    }
}

/// The definition of the last of the first `n` methods with this name.
pub open spec fn method_id(
    ms: Seq<ImplMethodV>,
    ids: Seq<DefId>,
    name: Seq<char>,
    n: int,
) -> Option<DefId>
    decreases n,
{
    if n <= 0 {
        None
    } else if ms[n - 1].name == name {
        Some(ids[n - 1])
    } else {
        method_id(ms, ids, name, n - 1)
    }
}

/// The definitions that implement the contracts from `i` on, behind `done`.
pub open spec fn table_methods(
    req: Seq<TraitMethodInfoV>,
    ms: Seq<ImplMethodV>,
    ids: Seq<DefId>,
    i: int,
    done: Seq<DefId>,
) -> Result<Seq<DefId>, MplangErrorV>
    decreases req.len() - i,
{
    if i >= req.len() {
        Ok(done)
    } else {
        match method_id(ms, ids, req[i].name, ms.len() as int) {
            None => Err(no_table_entry(req[i].name)),
            Some(id) => table_methods(req, ms, ids, i + 1, done.push(id)),
        }
    }
}

/// The method tables with the one of this trait and type set. A table from
/// `i` on that is already there is replaced.
pub open spec fn set_table(ts: Seq<VTableV>, t: VTableV, i: int) -> Seq<VTableV>
    decreases ts.len() - i,
{
    if i < 0 || i >= ts.len() {
        ts.push(t)
    } else if ts[i].trait_def == t.trait_def && ts[i].impl_type_def == t.impl_type_def {
        ts.update(i, t)
    } else {
        set_table(ts, t, i + 1)
    }
}

/// Records the method table of an implementation of a trait for a struct.
#[verifier::opaque]
pub open spec fn add_table(
    s: LowerState,
    trrait: Option<PathV>,
    recv: HirTypeV,
    ms: Seq<ImplMethodV>,
    ids: Seq<DefId>,
) -> (LowerState, Result<(), MplangErrorV>) {
    match (trrait, recv) {
        (Some(tr), HirTypeV::Named(d)) => match lookup(s.trait_defs, trait_name(tr)) {
            None => (s, Ok(())),
            Some(td) => match tr.last() {
                None => (s, Err(no_value())),
                Some(name) => match lookup(s.traits, name) {
                    None => (s, Err(no_value())),
                    Some(req) => {
                        match table_methods(req, ms, ids, 0, Seq::empty()) {
                            Err(e) => (s, Err(e)),
                            Ok(methods) => {
                                (
                                    LowerState { vtables: set_table(s.vtables, VTableV { trait_def: td, impl_type_def: d, methods }, 0), ..s },
                                    Ok(()),
                                )
                            }
                        }
                    },
                },
            },
        },
        _ => (s, Ok(())),
    }
}

/// The parameters of a method: `self` unless it is static, the constant
/// parameters, and the written ones.
#[verifier::opaque]
pub open spec fn l_method_params(
    s: LowerState,
    recv: HirTypeV,
    generics: Seq<GenericParamV>,
    m: ImplMethodV,
) -> (LowerState, Result<Seq<HirParamV>, MplangErrorV>) {
    if m.is_static {
        match l_const_params(s, generics, 0, Seq::empty()) {
            (at, Err(e)) => (at, Err(e)),
            (s1, Ok(cs)) => {
                l_value_params(s1, m.params, 0, cs)
            }
        }
    } else {
        match new_local(s, "self"@) {
            (at, Err(e)) => (at, Err(e)),
            (s1, Ok(id)) => {
                match l_const_params(
                    s1,
                    generics,
                    0,
                    seq![HirParamV { def_id: id, name: "self"@, ty: recv, kind: ParamKind::Value }],
                ) {
                    (at, Err(e)) => (at, Err(e)),
                    (s2, Ok(cs)) => {
                        l_value_params(s2, m.params, 0, cs)
                    }
                }
            }
        }
    }
}

/// The name by which static methods of a type are called.
pub open spec fn static_owner(ty: TypeV) -> Seq<char> {
    let path = match ty {
        TypeV::Named(p) => p.last(),
        TypeV::Applied(p, _) => p.last(),
        _ => None,
    };
    match path {
        Some(name) => name,
        None => Seq::empty(),
    }
}

/// Registers a static method under its type.
pub open spec fn reg_static(
    s: LowerState,
    prefix: Seq<Seq<char>>,
    owner: Seq<char>,
    name: Seq<char>,
    id: DefId,
) -> LowerState {
    if owner.len() == 0 {
        s
    } else {
        LowerState { paths: s.paths.insert(prefix.push(owner).push(name), id).insert(seq![owner, name], id), names: s.names.insert(name, id), ..s }
    }
}

/// One method of an implementation.
#[verifier::opaque]
pub open spec fn low_method(
    s: LowerState,
    prefix: Seq<Seq<char>>,
    ty: TypeV,
    recv: HirTypeV,
    generics: Seq<GenericParamV>,
    m: ImplMethodV,
    id: DefId,
) -> (LowerState, Result<HirItemV, MplangErrorV>) {
    let combined = generics + m.generics;
    match l_method_params(
        LowerState { generics: combined, locals: Map::empty(), ..s },
        recv,
        combined,
        m,
    ) {
        (at, Err(e)) => (at, Err(e)),
        (s1, Ok(ps)) => {
            match l_stmts(s1, m.body, 0, Seq::empty()) {
                (at, Err(e)) => (at, Err(e)),
                (s2, Ok(b)) => {
                    match l_type(s2, m.return_ty) {
                        Err(e) => (s2, Err(e)),
                        Ok(r) => {
                            let s3 = LowerState { generics: s.generics, ..s2 };
                            let s4 = if m.is_static { reg_static(s3, prefix, static_owner(ty), m.name, id) } else { s3 };
                            (
                                s4,
                                Ok(
                                    HirItemV::Fn { def_id: id, visibility: Visibility::Public, attributes: Seq::empty(), name: m.name, generics: combined, params: ps, return_ty: r, body: HirBodyV { stmts: b }, impl_receiver: if m.is_static { None } else { Some(recv) } },
                                ),
                            )
                        }
                    }
                }
            }
        }
    }
}

/// The methods of an implementation from `i` on, behind `done`.
pub open spec fn low_methods(
    s: LowerState,
    prefix: Seq<Seq<char>>,
    ty: TypeV,
    recv: HirTypeV,
    generics: Seq<GenericParamV>,
    ms: Seq<ImplMethodV>,
    ids: Seq<DefId>,
    i: int,
    done: Seq<HirItemV>,
) -> (LowerState, Result<Seq<HirItemV>, MplangErrorV>)
    decreases ms.len() - i,
{
    if i >= ms.len() {
        (s, Ok(done))
    } else {
        match low_method(s, prefix, ty, recv, generics, ms[i], ids[i]) {
            (at, Err(e)) => (at, Err(e)),
            (s1, Ok(item)) => {
                low_methods(s1, prefix, ty, recv, generics, ms, ids, i + 1, done.push(item))
            }
        }
    }
}

/// An implementation block: its methods, behind `done`.
#[verifier::opaque]
pub open spec fn low_impl(
    s: LowerState,
    prefix: Seq<Seq<char>>,
    generics: Seq<GenericParamV>,
    trrait: Option<PathV>,
    ty: TypeV,
    methods: Seq<ImplMethodV>,
    done: Seq<HirItemV>,
) -> (LowerState, Result<Seq<HirItemV>, MplangErrorV>) {
    let inner = LowerState { generics, ..s };
    match l_type(inner, ty) {
        Err(e) => (inner, Err(e)),
        Ok(recv) => {
            match all_methods(s, ty, trrait, methods) {
                Err(e) => (s, Err(e)),
                Ok(ms) => {
                    match alloc_methods(s, ms, 0, Seq::empty()) {
                        (at, Err(e)) => (at, Err(e)),
                        (s1, Ok(ids)) => {
                            match add_table(s1, trrait, recv, ms, ids) {
                                (at, Err(e)) => (at, Err(e)),
                                (s2, Ok(_u)) => {
                                    low_methods(s2, prefix, ty, recv, generics, ms, ids, 0, done)
                                }
                            }
                        }
                    }
                }
            }
        }
    }
}

/// A declaration that brings in no other file: its items, behind `done`.
#[verifier::opaque]
pub open spec fn low_plain(
    s: LowerState,
    d: TopLevelDeclV,
    prefix: Seq<Seq<char>>,
    done: Seq<HirItemV>,
) -> (LowerState, Result<Seq<HirItemV>, MplangErrorV>) {
    match d {
        TopLevelDeclV::UseDecl { path, .. } => {
            match low_use(s, path) {
                (at, Err(e)) => (at, Err(e)),
                (s1, Ok(_u)) => {
                    (s1, Ok(done))
                }
            }
        },
        TopLevelDeclV::ExternFnDef { attributes, name, param_types, return_ty, is_variadic } => {
            match low_extern_fn(s, prefix, attributes, name, param_types, return_ty, is_variadic) {
                (at, Err(e)) => (at, Err(e)),
                (s1, Ok(item)) => {
                    (s1, Ok(done.push(item)))
                }
            }
        },
        TopLevelDeclV::FnDef { attributes, name, generics, params, return_ty, body } => {
            match low_fn(s, prefix, attributes, name, generics, params, return_ty, body) {
                (at, Err(e)) => (at, Err(e)),
                (s1, Ok(item)) => {
                    (s1, Ok(done.push(item)))
                }
            }
        },
        TopLevelDeclV::StructDef { attributes, name, generics, fields } => {
            match low_struct(s, prefix, attributes, name, generics, fields) {
                (at, Err(e)) => (at, Err(e)),
                (s1, Ok(item)) => {
                    (s1, Ok(done.push(item)))
                }
            }
        },
        TopLevelDeclV::Enum { attributes, name, generics, variants } => {
            match low_enum(s, prefix, attributes, name, generics, variants) {
                (at, Err(e)) => (at, Err(e)),
                (s1, Ok(item)) => {
                    (s1, Ok(done.push(item)))
                }
            }
        },
        TopLevelDeclV::Impl { generics, trrait, ty, methods, .. } => low_impl(
            s,
            prefix,
            generics,
            trrait,
            ty,
            methods,
            done,
        ),
        TopLevelDeclV::Static { attributes, name, ty, init } => {
            match low_global(s, prefix, attributes, name, ty, init, false) {
                (at, Err(e)) => (at, Err(e)),
                (s1, Ok(item)) => {
                    (s1, Ok(done.push(item)))
                }
            }
        },
        TopLevelDeclV::Const { attributes, name, ty, init } => {
            match low_global(s, prefix, attributes, name, ty, init, true) {
                (at, Err(e)) => (at, Err(e)),
                (s1, Ok(item)) => {
                    (s1, Ok(done.push(item)))
                }
            }
        },
        _ => (s, Ok(done)),
    }
}

/// The annotations of a module declaration.
pub open spec fn module_attributes(d: TopLevelDeclV) -> Seq<MetaV> {
    match d {
        TopLevelDeclV::ModDecl { attributes, .. } => attributes,
        TopLevelDeclV::ExternCrate { attributes, .. } => attributes,
        _ => Seq::empty(),
    }
}

/// The module of a declaration with its items.
pub open spec fn module_item(
    id: DefId,
    name: Seq<char>,
    attributes: Seq<MetaV>,
    items: Seq<HirItemV>,
) -> HirItemV {
    HirItemV::Module(
        HirModuleV { def_id: id, name, visibility: Visibility::Public, attributes, items },
    )
}

/// The items of the file that a module declaration brings in.
pub open spec fn low_content(
    s: LowerState,
    prefix: Seq<Seq<char>>,
    sub: Option<SourceUnitV>,
) -> (LowerState, Result<Seq<HirItemV>, MplangErrorV>)
    decreases sub, 0int,
{
    match sub {
        Some(u) => low_decls(s, u.unit.declarations, 0, prefix, u.children, 0, Seq::empty()),
        None => (s, Ok(Seq::empty())),
    }
}

/// The declarations from `i` on, of which `k` brought in a file before: their
/// items, behind `done`.
pub open spec fn low_decls(
    s: LowerState,
    ds: Seq<TopLevelDeclV>,
    i: int,
    prefix: Seq<Seq<char>>,
    tree: SourceTreeV,
    k: int,
    done: Seq<HirItemV>,
) -> (LowerState, Result<Seq<HirItemV>, MplangErrorV>)
    decreases tree, ds.len() - i,
{
    if i < 0 || i >= ds.len() {
        (s, Ok(done))
    } else {
        match module_name(ds[i]) {
            Some(name) => {
                let segs = prefix.push(name);
                match (if ds[i] is ModDecl { registered(s, segs) } else { Ok(DefId(0)) }) {
                    Err(e) => (s, Err(e)),
                    Ok(id0) => {
                        match (
                            if 0 <= k < tree.units.len() { low_content(s, segs, tree.units[k]) } else { (s, Ok(Seq::empty())) }
                        ) {
                            (at, Err(e)) => (at, Err(e)),
                            (s1, Ok(items)) => {
                                match (
                                    if ds[i] is ModDecl { Ok(id0) } else { registered(s1, segs) }
                                ) {
                                    Err(e) => (s1, Err(e)),
                                    Ok(id1) => {
                                        low_decls(
                                            s1,
                                            ds,
                                            i + 1,
                                            prefix,
                                            tree,
                                            k + 1,
                                            done.push(
                                                module_item(
                                                    id1,
                                                    name,
                                                    module_attributes(ds[i]),
                                                    items,
                                                ),
                                            ),
                                        )
                                    }
                                }
                            }
                        }
                    }
                }
            },
            None => {
                match low_plain(s, ds[i], prefix, done) {
                    (at, Err(e)) => (at, Err(e)),
                    (s1, Ok(next)) => {
                        low_decls(s1, ds, i + 1, prefix, tree, k, next)
                    }
                }
            },
        }
    }
}

/// A whole program: first all definitions are registered, then the
/// declarations are resolved, so that a name may be used before it is declared.
pub open spec fn lowered(
    s: LowerState,
    decls: Seq<TopLevelDeclV>,
    tree: SourceTreeV,
) -> (LowerState, Result<HirCompilationUnitV, MplangErrorV>) {
    match reg_decls(s, decls, 0, Seq::empty(), tree, 0) {
        (at, Err(e)) => (at, Err(e)),
        (s1, Ok(_u)) => {
            match fresh(s1) {
                (at, Err(e)) => (at, Err(e)),
                (s2, Ok(root)) => {
                    match low_decls(s2, decls, 0, Seq::empty(), tree, 0, Seq::empty()) {
                        (at, Err(e)) => (at, Err(e)),
                        (s3, Ok(items)) => {
                            (
                                LowerState { vtables: Seq::empty(), ..s3 },
                                Ok(
                                    HirCompilationUnitV { root_module: HirModuleV { def_id: root, name: "crate"@, visibility: Visibility::Public, attributes: Seq::empty(), items }, vtables: s3.vtables },
                                ),
                            )
                        }
                    }
                }
            }
        }
    }
}

} // verus!

