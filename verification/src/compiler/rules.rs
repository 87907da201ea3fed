//! The rules of code generation: memory layout, signatures, initial data, and
//! the steps that each expression and statement becomes.

use crate::ast::{BinOp, LiteralV};
use crate::compiler::code::{
    Condition, DataRef, EnumLayoutV, FuncDeclV, FuncInfoV, FunctionCodeV, GlobalDataV, IrType,
    Linkage, LocalVarV, ProgramV, CodeSignatureV, StepV, StructFieldLayoutV, StructLayoutV,
    VTableDataV, VariantLayoutV,
};
use crate::error::{error_of, ErrorKind, MplangErrorV};
use crate::hir::{shown_def, shown_type, ArrayLen, DefId, HirTypeV, VTableV};
use crate::table::lookup;
use crate::text::decimal;
use crate::tycheck::rules::char_ptr;
use crate::tyhir::{
    TyHirBodyV, TyHirCompilationUnitV, TyHirEnumVariantV, TyHirExprKindV, TyHirExprV, TyHirFieldV,
    TyHirItemV, TyHirMatchArmV, TyHirParamV, TyHirStmtV,
};
use vstd::prelude::*;
use vstd::utf8::encode_utf8;

verus! {

// Errors

/// An error in code generation.
pub open spec fn codegen_error(message: Seq<char>) -> MplangErrorV {
    error_of(ErrorKind::CodeGen, message)
}

/// The error for a sum that does not fit.
pub open spec fn add_overflow() -> MplangErrorV {
    codegen_error("attempt to add with overflow"@)
}

/// The error for a product that does not fit.
pub open spec fn mul_overflow() -> MplangErrorV {
    codegen_error("attempt to multiply with overflow"@)
}

/// An error about a text.
#[verifier::opaque]
pub open spec fn error_on(a: Seq<char>, x: Seq<char>, b: Seq<char>) -> MplangErrorV {
    codegen_error(a + x + b)
}

/// An error about two texts.
#[verifier::opaque]
pub open spec fn error_on2(
    a: Seq<char>,
    x: Seq<char>,
    b: Seq<char>,
    y: Seq<char>,
    c: Seq<char>,
) -> MplangErrorV {
    codegen_error(a + x + b + y + c)
}

/// The error for a type that is still generic.
pub open spec fn still_generic(t: HirTypeV) -> MplangErrorV {
    error_on("单态化后不应出现泛型类型占位符："@, shown_type(t), Seq::empty())
}

/// The error for an array length that is still a parameter.
pub open spec fn open_len() -> MplangErrorV {
    codegen_error("内部错误：数组长度仍依赖常量泛型参数，未在最終单态化"@)
}

/// The error for a missing entry.
pub open spec fn no_value() -> MplangErrorV {
    codegen_error("called `Option::unwrap()` on a `None` value"@)
}

/// The error for a struct that contains itself.
pub open spec fn endless_struct() -> MplangErrorV {
    codegen_error("struct contains itself"@)
}

/// The error for finding another type than the expected one.
#[verifier::opaque]
pub open spec fn type_mismatch(
    ctx: Seq<char>,
    expected: HirTypeV,
    actual: HirTypeV,
) -> MplangErrorV {
    codegen_error(
        "type mismatch in "@ + ctx + ": expected "@ + shown_type(expected) + ", got "@ + shown_type(actual),
    )
}

/// The type must be the expected one.
pub open spec fn g_assert_ty(
    actual: HirTypeV,
    expected: HirTypeV,
    ctx: Seq<char>,
) -> Result<(), MplangErrorV> {
    if actual == expected {
        Ok(())
    } else {
        Err(type_mismatch(ctx, expected, actual))
    }
}

// Memory layout

/// What code generation knows of the program.
#[verifier::ext_equal]
pub struct GenEnv {
    /// The number of bytes in a pointer.
    pub ptr_bytes: u32,
    pub structs: Map<DefId, StructLayoutV>,
    /// How many struct layouts have been made, which bounds how deeply structs
    /// nest.
    pub depth: usize,
    pub enums: Map<DefId, EnumLayoutV>,
    /// The types of the global variables.
    pub data: Map<DefId, HirTypeV>,
    pub funcs: Map<DefId, FuncInfoV>,
}

/// The environment in which nothing is known.
pub open spec fn empty_env(ptr_bytes: u32) -> GenEnv {
    GenEnv { ptr_bytes, structs: Map::empty(), depth: 0, enums: Map::empty(), data: Map::empty(), funcs: Map::empty() }
}

/// The sum of two sizes.
pub open spec fn add_sizes(a: u32, b: u32) -> Result<u32, MplangErrorV> {
    if a + b > u32::MAX {
        Err(add_overflow())
    } else {
        Ok((a + b) as u32)
    }
}

/// The least multiple of `align` that is not below `n`.
pub open spec fn round_up(n: int, align: int) -> int {
    ((n + align - 1) / align) * align
}

/// The least multiple of `align` that is not below `n`, if it fits.
pub open spec fn aligned(n: u32, align: u32) -> Result<u32, MplangErrorV> {
    if align == 0 {
        Err(codegen_error("attempt to subtract with overflow"@))
    } else if n + align > u32::MAX {
        Err(add_overflow())
    } else {
        Ok(round_up(n as int, align as int) as u32)
    }
}

/// The length of an array, which must be known.
pub open spec fn known_length(n: ArrayLen) -> Result<usize, MplangErrorV> {
    match n {
        ArrayLen::Known(k) => Ok(k),
        ArrayLen::Const(_) => Err(open_len()),
    }
}

/// The size of a struct: its end, rounded up to its alignment.
pub open spec fn g_struct_size(env: GenEnv, d: DefId) -> Result<u32, MplangErrorV> {
    match lookup(env.structs, d) {
        None => Err(codegen_error("unknown struct"@)),
        Some(l) => if l.fields.len() == 0 {
            Ok(0)
        } else {
            aligned(l.end, l.align)
        },
    }
}

/// The size of an enumeration.
pub open spec fn g_enum_size(env: GenEnv, d: DefId) -> Result<u32, MplangErrorV> {
    match lookup(env.enums, d) {
        None => Err(codegen_error("unknown enum"@)),
        Some(l) => Ok(l.size),
    }
}

/// The alignment of an enumeration.
pub open spec fn g_enum_align(env: GenEnv, d: DefId) -> Result<u32, MplangErrorV> {
    match lookup(env.enums, d) {
        None => Err(codegen_error("unknown enum"@)),
        Some(l) => Ok(l.align),
    }
}

/// The size of a type in bytes.
pub open spec fn g_size(env: GenEnv, t: HirTypeV) -> Result<u32, MplangErrorV>
    decreases t,
{
    match t {
        HirTypeV::Int => Ok(8),
        HirTypeV::Unit => Ok(8),
        HirTypeV::Char => Ok(1),
        HirTypeV::Pointer(_) => Ok(env.ptr_bytes),
        HirTypeV::Array(e, n) => {
            match g_size(env, *e) {
                Err(e) => Err(e),
                Ok(stride) => {
                    match known_length(n) {
                        Err(e) => Err(e),
                        Ok(k) => {
                            if stride * (k as u32) > u32::MAX {
                                Err(mul_overflow())
                            } else {
                                Ok((stride * (k as u32)) as u32)
                            }
                        }
                    }
                }
            }
        },
        HirTypeV::Named(d) => g_struct_size(env, d),
        HirTypeV::Var(_) => Err(still_generic(t)),
        HirTypeV::Generic(_, _, _) => Err(still_generic(t)),
        HirTypeV::Enum(d, _, _) => g_enum_size(env, d),
        HirTypeV::TraitObject(
            _,
        ) => if 2 * env.ptr_bytes > u32::MAX { Err(mul_overflow()) } else { Ok((2 * env.ptr_bytes) as u32) },
    }
}

/// The alignment of a type in bytes.
pub open spec fn g_align(env: GenEnv, t: HirTypeV) -> Result<u32, MplangErrorV>
    decreases t,
{
    match t {
        HirTypeV::Int => Ok(8),
        HirTypeV::Unit => Ok(8),
        HirTypeV::Char => Ok(1),
        HirTypeV::Pointer(_) => Ok(env.ptr_bytes),
        HirTypeV::Array(e, _) => g_align(env, *e),
        HirTypeV::Named(d) => match lookup(env.structs, d) {
            None => Err(codegen_error("unknown struct"@)),
            Some(l) => Ok(l.align),
        },
        HirTypeV::Var(_) => Err(still_generic(t)),
        HirTypeV::Generic(_, _, _) => Err(still_generic(t)),
        HirTypeV::Enum(d, _, _) => g_enum_align(env, d),
        HirTypeV::TraitObject(_) => Ok(env.ptr_bytes),
    }
}

/// Whether a type is a type parameter or an application of a generic struct.
pub open spec fn is_open(t: HirTypeV) -> bool {
    t is Var || t is Generic
}

/// The size of a type; an open type takes a word.
pub open spec fn g_size_or_word(env: GenEnv, t: HirTypeV) -> Result<u32, MplangErrorV> {
    if is_open(t) { Ok(8) } else { g_size(env, t) }
}

/// The alignment of a type; an open type has that of a word.
pub open spec fn g_align_or_word(env: GenEnv, t: HirTypeV) -> Result<u32, MplangErrorV> {
    if is_open(t) { Ok(8) } else { g_align(env, t) }
}

/// The larger of two numbers.
pub open spec fn max_of(a: u32, b: u32) -> u32 {
    if a > b { a } else { b }
}

/// Fields laid out so far.
#[verifier::ext_equal]
pub struct FieldRun {
    pub fields: Seq<StructFieldLayoutV>,
    /// The first byte behind the last field.
    pub end: u32,
    /// The largest alignment of a field, at least 1.
    pub align: u32,
}

/// No field.
pub open spec fn no_fields() -> FieldRun {
    FieldRun { fields: Seq::empty(), end: 0, align: 1 }
}

/// One more field: it begins at the next multiple of its alignment.
pub open spec fn place_field(
    run: FieldRun,
    f: TyHirFieldV,
    size: u32,
    align: u32,
) -> Result<FieldRun, MplangErrorV> {
    match aligned(run.end, align) {
        Err(e) => Err(e),
        Ok(offset) => {
            match add_sizes(offset, size) {
                Err(e) => Err(e),
                Ok(end) => {
                    Ok(
                        FieldRun { fields: run.fields.push(StructFieldLayoutV { field_def_id: f.def_id, field_type: f.ty, offset }), end, align: max_of(align, run.align) },
                    )
                }
            }
        }
    }
}

/// The fields of a struct from `i` on, behind those of `run`.
pub open spec fn lay_fields(
    env: GenEnv,
    fs: Seq<TyHirFieldV>,
    i: int,
    run: FieldRun,
) -> Result<FieldRun, MplangErrorV>
    decreases fs.len() - i,
{
    if i >= fs.len() {
        Ok(run)
    } else {
        match g_align(env, fs[i].ty) {
            Err(e) => Err(e),
            Ok(align) => {
                match g_size(env, fs[i].ty) {
                    Err(e) => Err(e),
                    Ok(size) => {
                        match place_field(run, fs[i], size, align) {
                            Err(e) => Err(e),
                            Ok(next) => {
                                lay_fields(env, fs, i + 1, next)
                            }
                        }
                    }
                }
            }
        }
    }
}

/// The layout of a struct.
pub open spec fn struct_layout(run: FieldRun) -> StructLayoutV {
    StructLayoutV { fields: run.fields, end: run.end, align: run.align }
}

/// The fields of a variant from `i` on, behind those of `run`; open types take
/// a word.
pub open spec fn lay_payload(
    env: GenEnv,
    fs: Seq<TyHirFieldV>,
    i: int,
    run: FieldRun,
) -> Result<FieldRun, MplangErrorV>
    decreases fs.len() - i,
{
    if i >= fs.len() {
        Ok(run)
    } else {
        match g_align_or_word(env, fs[i].ty) {
            Err(e) => Err(e),
            Ok(align) => {
                match g_size_or_word(env, fs[i].ty) {
                    Err(e) => Err(e),
                    Ok(size) => {
                        match place_field(run, fs[i], size, align) {
                            Err(e) => Err(e),
                            Ok(next) => {
                                lay_payload(env, fs, i + 1, next)
                            }
                        }
                    }
                }
            }
        }
    }
}

/// Variants laid out so far.
#[verifier::ext_equal]
pub struct VariantRun {
    pub variants: Seq<VariantLayoutV>,
    /// The size of the largest payload.
    pub size: u32,
    /// The largest alignment of a payload, at least that of the tag.
    pub align: u32,
}

/// No variant; a tag takes eight bytes.
pub open spec fn no_variants() -> VariantRun {
    VariantRun { variants: Seq::empty(), size: 0, align: 8 }
}

/// One variant more; its payload begins behind the tag.
pub open spec fn place_variant(
    run: VariantRun,
    v: TyHirEnumVariantV,
    payload: FieldRun,
) -> Result<VariantRun, MplangErrorV> {
    match aligned(payload.end, payload.align) {
        Err(e) => Err(e),
        Ok(size) => {
            Ok(
                VariantRun { variants: run.variants.push(VariantLayoutV { name: v.name, tag: v.tag, payload_offset: 8, payload_size: size, fields: payload.fields }), size: max_of(size, run.size), align: max_of(payload.align, run.align) },
            )
        }
    }
}

/// The variants of an enumeration from `i` on, behind those of `run`.
pub open spec fn lay_variants(
    env: GenEnv,
    vs: Seq<TyHirEnumVariantV>,
    i: int,
    run: VariantRun,
) -> Result<VariantRun, MplangErrorV>
    decreases vs.len() - i,
{
    if i >= vs.len() {
        Ok(run)
    } else {
        match lay_payload(env, vs[i].fields, 0, no_fields()) {
            Err(e) => Err(e),
            Ok(payload) => {
                match place_variant(run, vs[i], payload) {
                    Err(e) => Err(e),
                    Ok(next) => {
                        lay_variants(env, vs, i + 1, next)
                    }
                }
            }
        }
    }
}

/// The layout of an enumeration: the tag and room for the largest payload.
pub open spec fn enum_layout(run: VariantRun) -> Result<EnumLayoutV, MplangErrorV> {
    match add_sizes(8, run.size) {
        Err(e) => Err(e),
        Ok(total) => {
            match aligned(total, run.align) {
                Err(e) => Err(e),
                Ok(size) => {
                    Ok(
                        EnumLayoutV { variants: run.variants, size, align: run.align, max_payload_align: run.align },
                    )
                }
            }
        }
    }
}

/// The field of this definition, searched from `i` on.
pub open spec fn field_at(
    fs: Seq<StructFieldLayoutV>,
    field: DefId,
    i: int,
) -> Option<StructFieldLayoutV>
    decreases fs.len() - i,
{
    if i >= fs.len() {
        None
    } else if fs[i].field_def_id == field {
        Some(fs[i])
    } else {
        field_at(fs, field, i + 1)
    }
}

/// A field of a struct.
pub open spec fn g_field(env: GenEnv, d: DefId, field: DefId) -> Option<StructFieldLayoutV> {
    match lookup(env.structs, d) {
        None => None,
        Some(l) => field_at(l.fields, field, 0),
    }
}

/// The offset of a field.
#[verifier::opaque]
pub open spec fn g_field_offset(env: GenEnv, d: DefId, field: DefId) -> Result<u32, MplangErrorV> {
    match g_field(env, d, field) {
        Some(f) => Ok(f.offset),
        None => Err(
            error_on2(
                "field "@,
                shown_def(field),
                " not found in struct "@,
                shown_def(d),
                Seq::empty(),
            ),
        ),
    }
}

/// The type of a field.
#[verifier::opaque]
pub open spec fn g_field_type(
    env: GenEnv,
    d: DefId,
    field: DefId,
) -> Result<HirTypeV, MplangErrorV> {
    match g_field(env, d, field) {
        Some(f) => Ok(f.field_type),
        None => Err(
            error_on2("struct "@, shown_def(d), " has no field "@, shown_def(field), Seq::empty()),
        ),
    }
}

/// The layout of a variant.
#[verifier::opaque]
pub open spec fn g_variant(
    env: GenEnv,
    d: DefId,
    tag: u32,
) -> Result<VariantLayoutV, MplangErrorV> {
    match lookup(env.enums, d) {
        None => Err(codegen_error("unknown enum"@)),
        Some(l) => if tag < l.variants.len() {
            Ok(l.variants[tag as int])
        } else {
            Err(
                error_on2(
                    "variant tag "@,
                    decimal(tag as nat),
                    " not found in enum "@,
                    shown_def(d),
                    Seq::empty(),
                ),
            )
        },
    }
}

/// Where the payload of a variant begins.
pub open spec fn g_payload_offset(env: GenEnv, d: DefId, tag: u32) -> Result<u32, MplangErrorV> {
    match g_variant(env, d, tag) {
        Err(e) => Err(e),
        Ok(v) => {
            Ok(v.payload_offset)
        }
    }
}

/// The error for a field that a variant does not have.
#[verifier::opaque]
pub open spec fn no_variant_field(d: DefId, tag: u32, field: DefId) -> MplangErrorV {
    codegen_error(
        "field "@ + shown_def(field) + " not found in variant "@ + decimal(tag as nat) + " of enum "@ + shown_def(d),
    )
}

/// Where a field of a variant begins.
pub open spec fn g_variant_field_offset(
    env: GenEnv,
    d: DefId,
    tag: u32,
    field: DefId,
) -> Result<u32, MplangErrorV> {
    match g_variant(env, d, tag) {
        Err(e) => Err(e),
        Ok(v) => {
            match field_at(v.fields, field, 0) {
                Some(f) => add_sizes(v.payload_offset, f.offset),
                None => Err(no_variant_field(d, tag, field)),
            }
        }
    }
}

// Signatures

/// The machine type of values of a type. Structs, arrays, enumerations and
/// trait objects are handled by their address.
pub open spec fn g_type(env: GenEnv, t: HirTypeV) -> Result<IrType, MplangErrorV> {
    match t {
        HirTypeV::Int => Ok(IrType::I64),
        HirTypeV::Unit => Ok(IrType::I64),
        HirTypeV::Char => Ok(IrType::I8),
        HirTypeV::Pointer(_) => Ok(IrType::Ptr),
        HirTypeV::Array(_, _) => Ok(IrType::Ptr),
        HirTypeV::Named(d) => if env.structs.dom().contains(d) {
            Ok(IrType::Ptr)
        } else {
            Err(error_on("unknown named type: "@, shown_def(d), Seq::empty()))
        },
        HirTypeV::Var(_) => Err(still_generic(t)),
        HirTypeV::Generic(_, _, _) => Err(still_generic(t)),
        HirTypeV::Enum(_, _, _) => Ok(IrType::Ptr),
        HirTypeV::TraitObject(_) => Ok(IrType::Ptr),
    }
}

/// Whether values of a type live in memory and are handled by their address.
pub open spec fn is_aggregate(t: HirTypeV) -> bool {
    t is Named || t is Array || t is Enum || t is TraitObject
}

/// The machine types of types from `i` on, behind `done`.
pub open spec fn g_types(
    env: GenEnv,
    ts: Seq<HirTypeV>,
    i: int,
    done: Seq<IrType>,
) -> Result<Seq<IrType>, MplangErrorV>
    decreases ts.len() - i,
{
    if i >= ts.len() {
        Ok(done)
    } else {
        match g_type(env, ts[i]) {
            Err(e) => Err(e),
            Ok(t) => {
                g_types(env, ts, i + 1, done.push(t))
            }
        }
    }
}

/// The signature of a call: the address for an aggregate result comes first,
/// then the parameters, then further arguments.
pub open spec fn g_signature(
    env: GenEnv,
    ps: Seq<HirTypeV>,
    ret: HirTypeV,
    extra: Seq<HirTypeV>,
) -> Result<CodeSignatureV, MplangErrorV> {
    let first = if is_aggregate(ret) { seq![IrType::Ptr] } else { Seq::empty() };
    match g_types(env, ps, 0, first) {
        Err(e) => Err(e),
        Ok(a) => {
            match g_types(env, extra, 0, a) {
                Err(e) => Err(e),
                Ok(params) => {
                    if is_aggregate(ret) {
                        Ok(CodeSignatureV { params, returns: None })
                    } else {
                        match g_type(env, ret) {
                            Ok(r) => Ok(CodeSignatureV { params, returns: Some(r) }),
                            Err(e) => Err(e),
                        }
                    }
                }
            }
        }
    }
}

// Initial data

/// The `k` low bytes of a number, lowest first.
pub open spec fn le_bytes(n: u64, k: nat) -> Seq<u8>
    decreases k,
{
    if k == 0 {
        Seq::empty()
    } else {
        seq![(n % 256) as u8] + le_bytes(n / 256, (k - 1) as nat)
    }
}

/// The bytes of a string literal, with a zero byte behind them.
pub open spec fn text_bytes(s: Seq<char>) -> Seq<u8> {
    encode_utf8(s).push(0)
}

/// The size of the elements of a constant array.
pub open spec fn const_element_size(t: HirTypeV) -> Result<usize, MplangErrorV> {
    match t {
        HirTypeV::Int => Ok(8),
        HirTypeV::Unit => Ok(8),
        HirTypeV::Char => Ok(1),
        _ => Err(error_on("不支持的全局数组元素类型 "@, shown_type(t), "：编译期常量数组仅支持 int / char 元素"@)),
    }
}

/// The bytes of a constant element.
pub open spec fn const_element(e: TyHirExprV, size: usize) -> Result<Seq<u8>, MplangErrorV> {
    match e.kind {
        TyHirExprKindV::Literal(LiteralV::Int(n)) => Ok(le_bytes(n as u64, size as nat)),
        _ => Err(codegen_error("全局数组的编译期常量元素必须是 int 字面量"@)),
    }
}

/// The error for an element behind the end of its array.
#[verifier::opaque]
pub open spec fn element_outside(end: nat, total: nat) -> MplangErrorV {
    codegen_error(
        "range end index "@ + decimal(end) + " out of range for slice of length "@ + decimal(total),
    )
}

/// The bytes of the elements from `i` on, behind `done`, in an array of `total`
/// bytes.
pub open spec fn const_elements(
    es: Seq<TyHirExprV>,
    size: usize,
    total: nat,
    i: int,
    done: Seq<u8>,
) -> Result<Seq<u8>, MplangErrorV>
    decreases es.len() - i,
{
    if i >= es.len() {
        Ok(done)
    } else {
        match const_element(es[i], size) {
            Err(e) => Err(e),
            Ok(b) => {
                if done.len() + size > total {
                    Err(element_outside((done.len() + size) as nat, total))
                } else {
                    const_elements(es, size, total, i + 1, done + b)
                }
            }
        }
    }
}

/// `n` times the same bytes.
pub open spec fn repeated(b: Seq<u8>, n: nat) -> Seq<u8>
    decreases n,
{
    if n == 0 {
        Seq::empty()
    } else {
        repeated(b, (n - 1) as nat) + b
    }
}

/// `n` zero bytes.
pub open spec fn zeros(n: int) -> Seq<u8> {
    Seq::new(n as nat, |i: int| 0u8)
}

/// The bytes of a constant array of `n` elements.
pub open spec fn const_array(
    es: Seq<TyHirExprV>,
    repeat: Option<usize>,
    size: usize,
    n: usize,
) -> Result<Seq<u8>, MplangErrorV> {
    if size * n > usize::MAX {
        Err(mul_overflow())
    } else if size * n > isize::MAX {
        Err(codegen_error("capacity overflow"@))
    } else {
        match repeat {
            Some(_) => if es.len() == 0 {
                Err(codegen_error("index out of bounds: the len is 0 but the index is 0"@))
            } else if n == 0 {
                Ok(Seq::empty())
            } else {
                match const_element(es[0], size) {
                    Err(e) => Err(e),
                    Ok(b) => {
                        Ok(repeated(b, n as nat))
                    }
                }
            },
            None => {
                match const_elements(es, size, (size * n) as nat, 0, Seq::empty()) {
                    Err(e) => Err(e),
                    Ok(b) => {
                        Ok(b + zeros(size * n - b.len()))
                    }
                }
            },
        }
    }
}

/// The initial bytes of a global variable, and the type of the initial value.
#[verifier::opaque]
pub open spec fn g_init(e: TyHirExprV) -> Result<(Seq<u8>, HirTypeV), MplangErrorV> {
    match e.kind {
        TyHirExprKindV::Literal(LiteralV::Int(n)) => Ok((le_bytes(n as u64, 8), HirTypeV::Int)),
        TyHirExprKindV::Literal(LiteralV::String(s)) => Ok((text_bytes(s), char_ptr())),
        TyHirExprKindV::ArrayLiteral { elements, repeat } => match e.ty {
            HirTypeV::Array(t, n) => {
                match known_length(n) {
                    Err(e) => Err(e),
                    Ok(k) => {
                        match const_element_size(*t) {
                            Err(e) => Err(e),
                            Ok(size) => {
                                match const_array(elements, repeat, size, k) {
                                    Err(e) => Err(e),
                                    Ok(bytes) => {
                                        Ok((bytes, HirTypeV::Array(t, ArrayLen::Known(k))))
                                    }
                                }
                            }
                        }
                    }
                }
            },
            _ => Err(
                codegen_error(
                    "internal error: entered unreachable code: array literal type must be Array"@,
                ),
            ),
        },
        _ => Err(codegen_error("global variable initializer must be a literal"@)),
    }
}

// Variables whose address is taken

/// The variable at the root of a place.
pub open spec fn root_of(e: TyHirExprV) -> Option<DefId>
    decreases e,
{
    match e.kind {
        TyHirExprKindV::Path(d) => Some(d),
        TyHirExprKindV::FieldAccess { object, .. } => root_of(*object),
        TyHirExprKindV::Index { array, .. } => root_of(*array),
        TyHirExprKindV::AddressOf(inner) => root_of(*inner),
        TyHirExprKindV::Deref(inner) => root_of(*inner),
        _ => None,
    }
}

/// The set with the root of a place.
pub open spec fn with_root(e: TyHirExprV, set: Set<DefId>) -> Set<DefId> {
    match root_of(e) {
        Some(d) => set.insert(d),
        None => set,
    }
}

/// The set with the variables whose address an expression takes.
pub open spec fn taken_expr(e: TyHirExprV, set: Set<DefId>) -> Set<DefId>
    decreases e, 0int,
{
    match e.kind {
        TyHirExprKindV::AddressOf(inner) => taken_expr(*inner, with_root(*inner, set)),
        TyHirExprKindV::Deref(inner) => taken_expr(*inner, set),
        TyHirExprKindV::Binary { lhs, rhs, .. } => taken_expr(*rhs, taken_expr(*lhs, set)),
        TyHirExprKindV::Call { args, .. } => taken_exprs(args, 0, set),
        TyHirExprKindV::FieldAccess { object, .. } => taken_expr(*object, set),
        TyHirExprKindV::Index { array, index } => taken_expr(*index, taken_expr(*array, set)),
        TyHirExprKindV::StructLiteral { fields, .. } => taken_inits(fields, 0, set),
        TyHirExprKindV::ArrayLiteral { elements, .. } => taken_exprs(elements, 0, set),
        TyHirExprKindV::Variant { args, .. } => taken_exprs(args, 0, set),
        TyHirExprKindV::Match { scrutinee, arms } => taken_arms(
            arms,
            0,
            taken_expr(*scrutinee, set),
        ),
        TyHirExprKindV::TraitCast { value, .. } => taken_expr(*value, set),
        TyHirExprKindV::DynamicMethodCall { receiver, args, .. } => taken_exprs(
            args,
            0,
            taken_expr(*receiver, set),
        ),
        TyHirExprKindV::Path(_) => set,
        TyHirExprKindV::Literal(_) => set,
    }
}

/// The same for expressions from `i` on.
pub open spec fn taken_exprs(es: Seq<TyHirExprV>, i: int, set: Set<DefId>) -> Set<DefId>
    decreases es, es.len() - i,
{
    if i < 0 || i >= es.len() {
        set
    } else {
        taken_exprs(es, i + 1, taken_expr(es[i], set))
    }
}

/// The same for the values of a struct literal from `i` on.
pub open spec fn taken_inits(es: Seq<(DefId, TyHirExprV)>, i: int, set: Set<DefId>) -> Set<DefId>
    decreases es, es.len() - i,
{
    if i < 0 || i >= es.len() {
        set
    } else {
        taken_inits(es, i + 1, taken_expr(es[i].1, set))
    }
}

/// The same for the arms of a match from `i` on.
pub open spec fn taken_arms(es: Seq<TyHirMatchArmV>, i: int, set: Set<DefId>) -> Set<DefId>
    decreases es, es.len() - i,
{
    if i < 0 || i >= es.len() {
        set
    } else {
        taken_arms(es, i + 1, taken_stmts(es[i].body.stmts, 0, set))
    }
}

/// The same for a statement.
pub open spec fn taken_stmt(st: TyHirStmtV, set: Set<DefId>) -> Set<DefId>
    decreases st, 0int,
{
    match st {
        TyHirStmtV::Let { init, .. } => taken_expr(init, set),
        TyHirStmtV::Assign { target, value } => taken_expr(value, taken_expr(target, set)),
        TyHirStmtV::Expr(e) => taken_expr(e, set),
        TyHirStmtV::If { cond, then_branch, else_branch } => {
            let a = taken_stmts(then_branch.stmts, 0, taken_expr(cond, set));
            match else_branch {
                Some(b) => taken_stmts(b.stmts, 0, a),
                None => a,
            }
        },
        TyHirStmtV::While { cond, body } => taken_stmts(body.stmts, 0, taken_expr(cond, set)),
        TyHirStmtV::Return(value) => match value {
            Some(e) => taken_expr(e, set),
            None => set,
        },
    }
}

/// The same for statements from `i` on.
pub open spec fn taken_stmts(es: Seq<TyHirStmtV>, i: int, set: Set<DefId>) -> Set<DefId>
    decreases es, es.len() - i,
{
    if i < 0 || i >= es.len() {
        set
    } else {
        taken_stmts(es, i + 1, taken_stmt(es[i], set))
    }
}

// Steps

/// The code of a function so far, the string literals of the program so far,
/// and the local variables in scope.
#[verifier::ext_equal]
pub struct GenState {
    pub steps: Seq<StepV>,
    pub strings: Seq<Seq<char>>,
    pub vars: Map<DefId, LocalVarV>,
}

/// The name of the next step.
pub open spec fn next_step(s: GenState) -> usize {
    s.steps.len() as usize
}

/// One step more.
pub open spec fn emit(s: GenState, step: StepV) -> GenState {
    GenState { steps: s.steps.push(step), ..s }
}

/// The number of a string literal, searched from `i` on.
pub open spec fn text_index(strings: Seq<Seq<char>>, text: Seq<char>, i: int) -> Option<usize>
    decreases strings.len() - i,
{
    if i >= strings.len() {
        None
    } else if strings[i] == text {
        Some(i as usize)
    } else {
        text_index(strings, text, i + 1)
    }
}

/// The number of a string literal, which is a new one where it was not used
/// before.
pub open spec fn g_text(s: GenState, text: Seq<char>) -> (GenState, usize) {
    match text_index(s.strings, text, 0) {
        Some(i) => (s, i),
        None => (GenState { strings: s.strings.push(text), ..s }, s.strings.len() as usize),
    }
}

/// The offset of element `i`.
pub open spec fn element_offset(stride: u32, i: usize) -> Result<i64, MplangErrorV> {
    if stride * i > i64::MAX {
        Err(mul_overflow())
    } else {
        Ok((stride * i) as i64)
    }
}

/// Copies a value of machine type `t` from one address to another.
pub open spec fn g_move(s: GenState, t: IrType, from: usize, to: usize) -> GenState {
    emit(emit(s, StepV::Load(t, from)), StepV::Store(next_step(s), to))
}

/// Copies the words of a block of memory from `off` on.
pub open spec fn g_copy_words(s: GenState, from: usize, to: usize, size: u32, off: int) -> GenState
    decreases size + 8 - off,
{
    if off >= size {
        s
    } else {
        let s1 = emit(s, StepV::Offset(from, off as i64));
        let s2 = emit(s1, StepV::Offset(to, off as i64));
        g_copy_words(g_move(s2, IrType::I64, next_step(s), next_step(s1)), from, to, size, off + 8)
    }
}

/// Copies a pointer at an offset.
pub open spec fn g_copy_pointer(s: GenState, from: usize, to: usize, off: i64) -> GenState {
    let s1 = emit(s, StepV::Offset(from, off));
    let s2 = emit(s1, StepV::Offset(to, off));
    g_move(s2, IrType::Ptr, next_step(s), next_step(s1))
}

/// Writes a value of type `t` to an address. An aggregate is copied part by
/// part.
pub open spec fn g_copy_to(
    env: GenEnv,
    s: GenState,
    v: usize,
    t: HirTypeV,
    to: usize,
    fuel: usize,
) -> (GenState, Result<(), MplangErrorV>)
    decreases fuel, 0int, t, 0int, 0int,
{
    match t {
        HirTypeV::Int => (emit(s, StepV::Store(v, to)), Ok(())),
        HirTypeV::Char => (emit(s, StepV::Store(v, to)), Ok(())),
        HirTypeV::Unit => (emit(s, StepV::Store(v, to)), Ok(())),
        HirTypeV::Pointer(_) => (emit(s, StepV::Store(v, to)), Ok(())),
        HirTypeV::Array(e, n) => {
            match g_size(env, *e) {
                Err(e) => (s, Err(e)),
                Ok(stride) => {
                    match known_length(n) {
                        Err(e) => (s, Err(e)),
                        Ok(k) => {
                            g_copy_elements(env, s, v, *e, to, stride, k, 0, fuel)
                        }
                    }
                }
            }
        },
        HirTypeV::Named(d) => match lookup(env.structs, d) {
            None => (s, Err(no_value())),
            Some(l) => if fuel == 0 {
                (s, Err(endless_struct()))
            } else {
                g_copy_fields(env, s, v, l.fields, to, 0, (fuel - 1) as usize)
            },
        },
        HirTypeV::Var(_) => (s, Err(still_generic(t))),
        HirTypeV::Generic(_, _, _) => (s, Err(still_generic(t))),
        HirTypeV::Enum(d, _, _) => {
            match g_enum_size(env, d) {
                Err(e) => (s, Err(e)),
                Ok(size) => {
                    (g_copy_words(s, v, to, size, 0), Ok(()))
                }
            }
        },
        HirTypeV::TraitObject(_) => (
            g_copy_pointer(g_copy_pointer(s, v, to, 0), v, to, env.ptr_bytes as i64),
            Ok(()),
        ),
    }
}

/// Copies one part of an aggregate between addresses: structs and arrays part
/// by part, other values as a whole.
pub open spec fn g_copy_part(
    env: GenEnv,
    s: GenState,
    from: usize,
    t: HirTypeV,
    to: usize,
    fuel: usize,
) -> (GenState, Result<(), MplangErrorV>)
    decreases fuel, 0int, t, 1int, 0int,
{
    if t is Named || t is Array {
        g_copy_to(env, s, from, t, to, fuel)
    } else {
        match g_type(env, t) {
            Err(e) => (s, Err(e)),
            Ok(ir) => {
                (g_move(s, ir, from, to), Ok(()))
            }
        }
    }
}

/// Copies the elements of an array from `i` on.
pub open spec fn g_copy_elements(
    env: GenEnv,
    s: GenState,
    v: usize,
    e: HirTypeV,
    to: usize,
    stride: u32,
    n: usize,
    i: usize,
    fuel: usize,
) -> (GenState, Result<(), MplangErrorV>)
    decreases fuel, 0int, e, 2int, n - i,
{
    if i >= n {
        (s, Ok(()))
    } else {
        match element_offset(stride, i) {
            Err(e) => (s, Err(e)),
            Ok(off) => {
                let s1 = emit(s, StepV::Offset(v, off));
                let s2 = emit(s1, StepV::Offset(to, off));
                match g_copy_part(env, s2, next_step(s), e, next_step(s1), fuel) {
                    (at, Err(e)) => (at, Err(e)),
                    (s3, Ok(_u)) => {
                        g_copy_elements(env, s3, v, e, to, stride, n, (i + 1) as usize, fuel)
                    }
                }
            }
        }
    }
}

/// Copies the fields of a struct from `i` on.
pub open spec fn g_copy_fields(
    env: GenEnv,
    s: GenState,
    v: usize,
    fs: Seq<StructFieldLayoutV>,
    to: usize,
    i: int,
    fuel: usize,
) -> (GenState, Result<(), MplangErrorV>)
    decreases fuel, 1int, fs, fs.len() - i, 0int,
{
    if i < 0 || i >= fs.len() {
        (s, Ok(()))
    } else {
        let s1 = emit(s, StepV::Offset(v, fs[i].offset as i64));
        let s2 = emit(s1, StepV::Offset(to, fs[i].offset as i64));
        match g_copy_part(env, s2, next_step(s), fs[i].field_type, next_step(s1), fuel) {
            (at, Err(e)) => (at, Err(e)),
            (s3, Ok(_u)) => {
                g_copy_fields(env, s3, v, fs, to, i + 1, fuel)
            }
        }
    }
}

/// Room on the stack, and its address.
pub open spec fn g_room(s: GenState, size: u32) -> (GenState, usize) {
    let s1 = emit(s, StepV::CreateSlot(size, 0));
    (emit(s1, StepV::SlotAddr(next_step(s))), next_step(s1))
}

/// A copy of a value: an aggregate gets room of its own.
pub open spec fn g_copy(
    env: GenEnv,
    s: GenState,
    v: usize,
    t: HirTypeV,
) -> (GenState, Result<usize, MplangErrorV>) {
    if is_aggregate(t) {
        match g_size(env, t) {
            Err(e) => (s, Err(e)),
            Ok(size) => {
                if size == 0 {
                    (s, Ok(v))
                } else {
                    let r = g_room(s, size);
                    match g_copy_to(env, r.0, v, t, r.1, env.depth) {
                        (at, Err(e)) => (at, Err(e)),
                        (s1, Ok(_u)) => {
                            (s1, Ok(r.1))
                        }
                    }
                }
            }
        }
    } else {
        (s, Ok(v))
    }
}

/// The value of type `t` at an address.
pub open spec fn g_read(
    env: GenEnv,
    s: GenState,
    addr: usize,
    t: HirTypeV,
) -> (GenState, Result<usize, MplangErrorV>) {
    if t is Named || t is Array {
        (s, Ok(addr))
    } else {
        match g_type(env, t) {
            Err(e) => (s, Err(e)),
            Ok(ir) => {
                g_copy(env, emit(s, StepV::Load(ir, addr)), next_step(s), t)
            }
        }
    }
}

/// Keeps a value as a local variable. A value whose address is taken is kept in
/// memory; an aggregate is there already.
pub open spec fn g_bind(
    env: GenEnv,
    s: GenState,
    d: DefId,
    t: HirTypeV,
    v: usize,
    taken: bool,
) -> (GenState, Result<(), MplangErrorV>) {
    if taken && !is_aggregate(t) {
        match g_size(env, t) {
            Err(e) => (s, Err(e)),
            Ok(size) => {
                match g_align(env, t) {
                    Err(e) => (s, Err(e)),
                    Ok(align) => {
                        let s1 = emit(s, StepV::CreateSlot(size, align as u8));
                        let s2 = emit(s1, StepV::SlotAddr(next_step(s)));
                        let s3 = emit(s2, StepV::Store(v, next_step(s1)));
                        (
                            GenState { vars: s3.vars.insert(d, LocalVarV { var: None, slot: Some(next_step(s)), ty: t }), ..s3 },
                            Ok(()),
                        )
                    }
                }
            }
        }
    } else {
        match g_type(env, t) {
            Err(e) => (s, Err(e)),
            Ok(ir) => {
                let s1 = emit(s, StepV::DeclareVar(ir));
                let s2 = emit(s1, StepV::SetVar(next_step(s), v));
                (
                    GenState { vars: s2.vars.insert(d, LocalVarV { var: Some(next_step(s)), slot: None, ty: t }), ..s2 },
                    Ok(()),
                )
            }
        }
    }
}

// Expressions

/// The context of a name in messages.
pub open spec fn name_ctx(d: DefId) -> Seq<char> {
    "identifier "@ + shown_def(d)
}

/// The error for a name without a value.
pub open spec fn no_variable(d: DefId) -> MplangErrorV {
    error_on("undefined variable "@, shown_def(d), Seq::empty())
}

/// A literal.
#[verifier::opaque]
pub open spec fn g_literal(
    s: GenState,
    l: LiteralV,
    want: HirTypeV,
) -> (GenState, Result<usize, MplangErrorV>) {
    match l {
        LiteralV::Int(n) => {
            match g_assert_ty(HirTypeV::Int, want, "int literal"@) {
                Err(e) => (s, Err(e)),
                Ok(_u) => {
                    (emit(s, StepV::Const(IrType::I64, n)), Ok(next_step(s)))
                }
            }
        },
        LiteralV::String(text) => {
            match g_assert_ty(char_ptr(), want, "string literal"@) {
                Err(e) => (s, Err(e)),
                Ok(_u) => {
                    let t = g_text(s, text);
                    (emit(t.0, StepV::Symbol(DataRef::Text(t.1))), Ok(next_step(t.0)))
                }
            }
        },
    }
}

/// The value of a local variable.
pub open spec fn g_local(
    env: GenEnv,
    s: GenState,
    info: LocalVarV,
) -> (GenState, Result<usize, MplangErrorV>) {
    match info.slot {
        Some(slot) => {
            match g_type(env, info.ty) {
                Err(e) => (s, Err(e)),
                Ok(ir) => {
                    let s1 = emit(s, StepV::SlotAddr(slot));
                    (emit(s1, StepV::Load(ir, next_step(s))), Ok(next_step(s1)))
                }
            }
        },
        None => match info.var {
            Some(var) => (emit(s, StepV::GetVar(var)), Ok(next_step(s))),
            None => (s, Err(no_value())),
        },
    }
}

/// The value of a global variable: an aggregate or a pointer is its address.
pub open spec fn g_global(
    env: GenEnv,
    s: GenState,
    d: DefId,
    t: HirTypeV,
) -> (GenState, Result<usize, MplangErrorV>) {
    let s1 = emit(s, StepV::Symbol(DataRef::Global(d)));
    match t {
        HirTypeV::Unit => (emit(s1, StepV::Const(IrType::I64, 0)), Ok(next_step(s1))),
        HirTypeV::Int => (emit(s1, StepV::Load(IrType::I64, next_step(s))), Ok(next_step(s1))),
        HirTypeV::Char => (emit(s1, StepV::Load(IrType::I8, next_step(s))), Ok(next_step(s1))),
        HirTypeV::Var(_) => (s1, Err(still_generic(t))),
        HirTypeV::Generic(_, _, _) => (s1, Err(still_generic(t))),
        _ => (s1, Ok(next_step(s))),
    }
}

/// The value of a name.
#[verifier::opaque]
pub open spec fn g_path(
    env: GenEnv,
    s: GenState,
    d: DefId,
    want: HirTypeV,
) -> (GenState, Result<usize, MplangErrorV>) {
    match lookup(s.vars, d) {
        Some(info) => {
            match g_assert_ty(info.ty, want, name_ctx(d)) {
                Err(e) => (s, Err(e)),
                Ok(_u) => {
                    g_local(env, s, info)
                }
            }
        },
        None => match lookup(env.data, d) {
            Some(t) => {
                match g_assert_ty(t, want, name_ctx(d)) {
                    Err(e) => (s, Err(e)),
                    Ok(_u) => {
                        g_global(env, s, d, t)
                    }
                }
            },
            None => (s, Err(no_variable(d))),
        },
    }
}

/// The address of a name.
#[verifier::opaque]
pub open spec fn g_path_place(
    env: GenEnv,
    s: GenState,
    d: DefId,
) -> (GenState, Result<usize, MplangErrorV>) {
    match lookup(s.vars, d) {
        Some(info) => match info.slot {
            Some(slot) => (emit(s, StepV::SlotAddr(slot)), Ok(next_step(s))),
            None => match info.var {
                Some(var) => (emit(s, StepV::GetVar(var)), Ok(next_step(s))),
                None => (s, Err(no_value())),
            },
        },
        None => if env.data.dom().contains(d) {
            (emit(s, StepV::Symbol(DataRef::Global(d))), Ok(next_step(s)))
        } else {
            (s, Err(no_variable(d)))
        },
    }
}

/// Whether an operator is arithmetic.
pub open spec fn is_arithmetic(op: BinOp) -> bool {
    match op {
        BinOp::Add => true,
        BinOp::Sub => true,
        BinOp::Mul => true,
        BinOp::Div => true,
        _ => false,
    }
}

/// What a comparison operator tests.
pub open spec fn condition_of(op: BinOp) -> Condition {
    match op {
        BinOp::Less => Condition::Less,
        BinOp::LessEqual => Condition::LessEqual,
        BinOp::Equal => Condition::Equal,
        BinOp::NotEqual => Condition::NotEqual,
        BinOp::Greater => Condition::Greater,
        _ => Condition::GreaterEqual,
    }
}

/// The step of an operator on two values; the result of a comparison is
/// extended to an integer.
pub open spec fn g_operator(s: GenState, op: BinOp, l: usize, r: usize) -> (GenState, usize) {
    match op {
        BinOp::Add => (emit(s, StepV::Add(l, r)), next_step(s)),
        BinOp::Sub => (emit(s, StepV::Sub(l, r)), next_step(s)),
        BinOp::Mul => (emit(s, StepV::Mul(l, r)), next_step(s)),
        BinOp::Div => (emit(s, StepV::Div(l, r)), next_step(s)),
        _ => {
            let s1 = emit(s, StepV::Compare(condition_of(op), l, r));
            (emit(s1, StepV::Extend(next_step(s))), next_step(s1))
        },
    }
}

/// The context of the result of an operator in messages.
pub open spec fn operator_ctx(op: BinOp) -> Seq<char> {
    if is_arithmetic(op) { "arithmetic result"@ } else { "comparison result"@ }
}

/// The type that an operand of an operator must have.
pub open spec fn operand_type(op: BinOp, t: HirTypeV) -> HirTypeV {
    if is_arithmetic(op) { HirTypeV::Int } else { t }
}

/// The types of expressions from `i` on.
pub open spec fn types_from(es: Seq<TyHirExprV>, i: int) -> Seq<HirTypeV> {
    if i >= es.len() {
        Seq::empty()
    } else {
        es.subrange(i, es.len() as int).map_values(|e: TyHirExprV| e.ty)
    }
}

/// The called function with the signature of the call, where that is not the
/// declared one.
#[verifier::opaque]
pub open spec fn g_callee(
    env: GenEnv,
    callee: DefId,
    args: Seq<TyHirExprV>,
    want: HirTypeV,
) -> Result<(FuncInfoV, Option<CodeSignatureV>), MplangErrorV> {
    match lookup(env.funcs, callee) {
        None => Err(error_on("undefined function "@, shown_def(callee), Seq::empty())),
        Some(f) => {
            match g_assert_ty(f.ret_ty, want, "call "@ + shown_def(callee) + " return"@) {
                Err(e) => Err(e),
                Ok(_u) => {
                    if f.is_variadic {
                        match g_signature(
                            env,
                            f.param_types,
                            f.ret_ty,
                            types_from(args, f.param_types.len() as int),
                        ) {
                            Err(e) => Err(e),
                            Ok(sig) => {
                                Ok((f, Some(sig)))
                            }
                        }
                    } else if args.len() != f.param_types.len() {
                        Err(wrong_count(callee, f.param_types.len(), args.len()))
                    } else {
                        Ok((f, None))
                    }
                }
            }
        },
    }
}

/// The error for a wrong number of arguments.
#[verifier::opaque]
pub open spec fn wrong_count(callee: DefId, want: nat, got: nat) -> MplangErrorV {
    codegen_error(
        "function "@ + shown_def(callee) + " expects "@ + decimal(want) + " arguments, got "@ + decimal(got),
    )
}

/// The type that argument `i` of a call must have: that of its parameter, or
/// its own behind the last parameter.
pub open spec fn arg_type(ps: Seq<HirTypeV>, args: Seq<TyHirExprV>, i: int) -> HirTypeV {
    if i < ps.len() { ps[i] } else { args[i].ty }
}

/// The room for an aggregate result, whose address is the first argument.
pub open spec fn g_result_room(
    env: GenEnv,
    s: GenState,
    ret: HirTypeV,
) -> (GenState, Result<Seq<usize>, MplangErrorV>) {
    if is_aggregate(ret) {
        match g_size(env, ret) {
            Err(e) => (s, Err(e)),
            Ok(size) => {
                let r = g_room(s, size);
                (r.0, Ok(seq![r.1]))
            }
        }
    } else {
        (s, Ok(Seq::empty()))
    }
}

/// The call itself; its value is the address of an aggregate result, zero for
/// no result, or what the function returns.
pub open spec fn g_finish_call(
    s: GenState,
    callee: DefId,
    f: FuncInfoV,
    signature: Option<CodeSignatureV>,
    args: Seq<usize>,
) -> (GenState, usize) {
    let s1 = emit(s, StepV::Call { callee, signature, args });
    if is_aggregate(f.ret_ty) {
        (s1, args[0])
    } else if f.ret_ty is Unit {
        (emit(s1, StepV::Const(IrType::I64, 0)), next_step(s1))
    } else {
        (s1, next_step(s))
    }
}

/// The struct whose field is accessed.
#[verifier::opaque]
pub open spec fn g_owner(t: HirTypeV, field: DefId) -> Result<DefId, MplangErrorV> {
    match t {
        HirTypeV::Named(d) => Ok(d),
        _ => Err(
            error_on2(
                "field access on non-struct type "@,
                shown_type(t),
                " for field "@,
                shown_def(field),
                Seq::empty(),
            ),
        ),
    }
}

/// The type of a field access, which must be the expected one.
#[verifier::opaque]
pub open spec fn g_access_type(
    env: GenEnv,
    t: HirTypeV,
    field: DefId,
    want: HirTypeV,
) -> Result<HirTypeV, MplangErrorV> {
    match g_owner(t, field) {
        Err(e) => Err(e),
        Ok(d) => {
            match g_field_type(env, d, field) {
                Err(e) => Err(e),
                Ok(ft) => {
                    match g_assert_ty(
                        ft,
                        want,
                        "field access "@ + shown_def(d) + "."@ + shown_def(field),
                    ) {
                        Err(e) => Err(e),
                        Ok(_u) => {
                            Ok(ft)
                        }
                    }
                }
            }
        }
    }
}

/// The offset of an accessed field.
#[verifier::opaque]
pub open spec fn g_access_offset(
    env: GenEnv,
    t: HirTypeV,
    field: DefId,
) -> Result<u32, MplangErrorV> {
    match g_owner(t, field) {
        Err(e) => Err(e),
        Ok(d) => {
            g_field_offset(env, d, field)
        }
    }
}

/// The element type of an array type.
pub open spec fn g_element(t: HirTypeV) -> Result<HirTypeV, MplangErrorV> {
    match t {
        HirTypeV::Array(e, _) => Ok(*e),
        _ => Err(codegen_error("internal error: entered unreachable code: index of non-array"@)),
    }
}

/// The type that a pointer type points to.
pub open spec fn g_target(t: HirTypeV) -> Result<HirTypeV, MplangErrorV> {
    match t {
        HirTypeV::Pointer(e) => Ok(*e),
        _ => Err(
            error_on(
                "internal error: entered unreachable code: deref of non-pointer type "@,
                shown_type(t),
                Seq::empty(),
            ),
        ),
    }
}

/// The size of the struct that a literal makes.
#[verifier::opaque]
pub open spec fn g_literal_size(
    env: GenEnv,
    d: DefId,
    want: HirTypeV,
) -> Result<u32, MplangErrorV> {
    match g_assert_ty(HirTypeV::Named(d), want, "struct literal "@ + shown_def(d)) {
        Err(e) => Err(e),
        Ok(_u) => {
            g_struct_size(env, d)
        }
    }
}

/// Room for an array literal: its address, and the element type with its size.
#[verifier::opaque]
pub open spec fn g_array_room(
    env: GenEnv,
    s: GenState,
    t: HirTypeV,
    want: HirTypeV,
) -> (GenState, Result<(usize, HirTypeV, u32), MplangErrorV>) {
    match g_assert_ty(t, want, "array literal"@) {
        Err(e) => (s, Err(e)),
        Ok(_u) => {
            match g_element(t) {
                Err(e) => (s, Err(e)),
                Ok(e) => {
                    match g_size(env, t) {
                        Err(e) => (s, Err(e)),
                        Ok(size) => {
                            match g_size(env, e) {
                                Err(e) => (s, Err(e)),
                                Ok(stride) => {
                                    if size == 0 {
                                        (
                                            emit(s, StepV::Const(IrType::Ptr, 0)),
                                            Ok((next_step(s), e, stride)),
                                        )
                                    } else {
                                        let r = g_room(s, size);
                                        (r.0, Ok((r.1, e, stride)))
                                    }
                                }
                            }
                        }
                    }
                }
            }
        }
    }
}

/// Writes one value into `n` elements of an array, from `i` on.
pub open spec fn g_fill(
    env: GenEnv,
    s: GenState,
    v: usize,
    e: HirTypeV,
    base: usize,
    stride: u32,
    n: usize,
    i: usize,
) -> (GenState, Result<(), MplangErrorV>)
    decreases n - i,
{
    if i >= n {
        (s, Ok(()))
    } else {
        match g_put(env, s, v, e, base, stride, i) {
            (at, Err(e)) => (at, Err(e)),
            (s1, Ok(_u)) => {
                g_fill(env, s1, v, e, base, stride, n, (i + 1) as usize)
            }
        }
    }
}

/// Writes a value into element `i` of an array.
pub open spec fn g_put(
    env: GenEnv,
    s: GenState,
    v: usize,
    e: HirTypeV,
    base: usize,
    stride: u32,
    i: usize,
) -> (GenState, Result<(), MplangErrorV>) {
    match element_offset(stride, i) {
        Err(e) => (s, Err(e)),
        Ok(off) => {
            g_copy_to(env, emit(s, StepV::Offset(base, off)), v, e, next_step(s), env.depth)
        }
    }
}

/// The error for an expression that has no code.
pub open spec fn no_code() -> MplangErrorV {
    codegen_error("unsupported expression"@)
}

/// The value of an expression, which must have type `want`.
pub open spec fn g_expr(
    env: GenEnv,
    s: GenState,
    e: TyHirExprV,
    want: HirTypeV,
) -> (GenState, Result<usize, MplangErrorV>)
    decreases e, 2int,
{
    match e.kind {
        TyHirExprKindV::Literal(l) => g_literal(s, l, want),
        TyHirExprKindV::Path(d) => g_path(env, s, d, want),
        TyHirExprKindV::Binary { op, lhs, rhs } => {
            match g_assert_ty(HirTypeV::Int, want, operator_ctx(op)) {
                Err(e) => (s, Err(e)),
                Ok(_u) => {
                    match g_expr(env, s, *lhs, operand_type(op, lhs.ty)) {
                        (at, Err(e)) => (at, Err(e)),
                        (s1, Ok(l)) => {
                            match g_expr(env, s1, *rhs, operand_type(op, rhs.ty)) {
                                (at, Err(e)) => (at, Err(e)),
                                (s2, Ok(r)) => {
                                    let o = g_operator(s2, op, l, r);
                                    (o.0, Ok(o.1))
                                }
                            }
                        }
                    }
                }
            }
        },
        TyHirExprKindV::Call { callee, args, .. } => {
            match g_callee(env, callee, args, want) {
                Err(e) => (s, Err(e)),
                Ok(f) => {
                    match g_result_room(env, s, f.0.ret_ty) {
                        (at, Err(e)) => (at, Err(e)),
                        (s1, Ok(first)) => {
                            match g_args(env, s1, args, f.0.param_types, 0, first) {
                                (at, Err(e)) => (at, Err(e)),
                                (s2, Ok(vs)) => {
                                    let c = g_finish_call(s2, callee, f.0, f.1, vs);
                                    (c.0, Ok(c.1))
                                }
                            }
                        }
                    }
                }
            }
        },
        TyHirExprKindV::FieldAccess { object, field } => {
            match g_access_type(env, object.ty, field, want) {
                Err(e) => (s, Err(e)),
                Ok(t) => {
                    match g_place(env, s, e) {
                        (at, Err(e)) => (at, Err(e)),
                        (s1, Ok(addr)) => {
                            g_read(env, s1, addr, t)
                        }
                    }
                }
            }
        },
        TyHirExprKindV::StructLiteral { def_id, fields, .. } => {
            match g_literal_size(env, def_id, want) {
                Err(e) => (s, Err(e)),
                Ok(size) => {
                    if size == 0 {
                        (emit(s, StepV::Const(IrType::Ptr, 0)), Ok(next_step(s)))
                    } else {
                        let r = g_room(s, size);
                        match g_inits(env, r.0, fields, def_id, r.1, 0) {
                            (at, Err(e)) => (at, Err(e)),
                            (s1, Ok(_u)) => {
                                (s1, Ok(r.1))
                            }
                        }
                    }
                }
            }
        },
        TyHirExprKindV::ArrayLiteral { elements, repeat } => {
            match g_array_room(env, s, e.ty, want) {
                (at, Err(e)) => (at, Err(e)),
                (s1, Ok(a)) => {
                    match repeat {
                        Some(n) => if elements.len() == 0 {
                            (
                                s1,
                                Err(
                                    codegen_error(
                                        "index out of bounds: the len is 0 but the index is 0"@,
                                    ),
                                ),
                            )
                        } else {
                            match g_expr(env, s1, elements[0], a.1) {
                                (at, Err(e)) => (at, Err(e)),
                                (s2, Ok(v)) => {
                                    match g_fill(env, s2, v, a.1, a.0, a.2, n, 0) {
                                        (at, Err(e)) => (at, Err(e)),
                                        (s3, Ok(_u)) => {
                                            (s3, Ok(a.0))
                                        }
                                    }
                                }
                            }
                        },
                        None => {
                            match g_elements(env, s1, elements, a.1, a.0, a.2, 0) {
                                (at, Err(e)) => (at, Err(e)),
                                (s2, Ok(_u)) => {
                                    (s2, Ok(a.0))
                                }
                            }
                        },
                    }
                }
            }
        },
        TyHirExprKindV::Index { .. } => {
            match g_assert_ty(e.ty, want, "array index result"@) {
                Err(e) => (s, Err(e)),
                Ok(_u) => {
                    match g_place(env, s, e) {
                        (at, Err(e)) => (at, Err(e)),
                        (s1, Ok(addr)) => {
                            g_read(env, s1, addr, e.ty)
                        }
                    }
                }
            }
        },
        TyHirExprKindV::Deref(inner) => {
            match g_expr(env, s, *inner, inner.ty) {
                (at, Err(e)) => (at, Err(e)),
                (s1, Ok(p)) => {
                    match g_target(inner.ty) {
                        Err(e) => (s1, Err(e)),
                        Ok(t) => {
                            match g_assert_ty(t, want, "dereference result"@) {
                                Err(e) => (s1, Err(e)),
                                Ok(_u) => {
                                    match g_type(env, t) {
                                        Err(e) => (s1, Err(e)),
                                        Ok(ir) => {
                                            (emit(s1, StepV::Load(ir, p)), Ok(next_step(s1)))
                                        }
                                    }
                                }
                            }
                        }
                    }
                }
            }
        },
        TyHirExprKindV::AddressOf(inner) => g_place(env, s, *inner),
        _ => (s, Err(no_code())),
    }
}

/// The address of a place.
pub open spec fn g_place(
    env: GenEnv,
    s: GenState,
    e: TyHirExprV,
) -> (GenState, Result<usize, MplangErrorV>)
    decreases e, 1int,
{
    match e.kind {
        TyHirExprKindV::Path(d) => g_path_place(env, s, d),
        TyHirExprKindV::FieldAccess { object, field } => {
            match g_place(env, s, *object) {
                (at, Err(e)) => (at, Err(e)),
                (s1, Ok(base)) => {
                    match g_access_offset(env, object.ty, field) {
                        Err(e) => (s1, Err(e)),
                        Ok(off) => {
                            (emit(s1, StepV::Offset(base, off as i64)), Ok(next_step(s1)))
                        }
                    }
                }
            }
        },
        TyHirExprKindV::Deref(inner) => g_expr(env, s, *inner, inner.ty),
        TyHirExprKindV::Index { array, index } => {
            match g_expr(env, s, *array, array.ty) {
                (at, Err(e)) => (at, Err(e)),
                (s1, Ok(base)) => {
                    match g_expr(env, s1, *index, HirTypeV::Int) {
                        (at, Err(e)) => (at, Err(e)),
                        (s2, Ok(i)) => {
                            match g_element(array.ty) {
                                Err(e) => (s2, Err(e)),
                                Ok(t) => {
                                    match g_size(env, t) {
                                        Err(e) => (s2, Err(e)),
                                        Ok(stride) => {
                                            let s3 = emit(
                                                s2,
                                                StepV::Const(IrType::I64, stride as i64),
                                            );
                                            let s4 = emit(s3, StepV::Mul(i, next_step(s2)));
                                            (
                                                emit(s4, StepV::Add(base, next_step(s3))),
                                                Ok(next_step(s4)),
                                            )
                                        }
                                    }
                                }
                            }
                        }
                    }
                }
            }
        },
        TyHirExprKindV::AddressOf(inner) => g_place(env, s, *inner),
        _ => (s, Err(codegen_error("cannot take address of a non-lvalue expression"@))),
    }
}

/// The arguments of a call from `i` on, behind `done`; aggregates are copied.
pub open spec fn g_args(
    env: GenEnv,
    s: GenState,
    es: Seq<TyHirExprV>,
    ps: Seq<HirTypeV>,
    i: int,
    done: Seq<usize>,
) -> (GenState, Result<Seq<usize>, MplangErrorV>)
    decreases es, es.len() - i,
{
    if i < 0 || i >= es.len() {
        (s, Ok(done))
    } else {
        match g_expr(env, s, es[i], arg_type(ps, es, i)) {
            (at, Err(e)) => (at, Err(e)),
            (s1, Ok(raw)) => {
                match g_copy(env, s1, raw, arg_type(ps, es, i)) {
                    (at, Err(e)) => (at, Err(e)),
                    (s2, Ok(v)) => {
                        g_args(env, s2, es, ps, i + 1, done.push(v))
                    }
                }
            }
        }
    }
}

/// The fields of a struct literal from `i` on, written to memory at `base`.
pub open spec fn g_inits(
    env: GenEnv,
    s: GenState,
    es: Seq<(DefId, TyHirExprV)>,
    d: DefId,
    base: usize,
    i: int,
) -> (GenState, Result<(), MplangErrorV>)
    decreases es, es.len() - i,
{
    if i < 0 || i >= es.len() {
        (s, Ok(()))
    } else {
        match g_field_type(env, d, es[i].0) {
            Err(e) => (s, Err(e)),
            Ok(t) => {
                match g_expr(env, s, es[i].1, t) {
                    (at, Err(e)) => (at, Err(e)),
                    (s1, Ok(v)) => {
                        match g_field_offset(env, d, es[i].0) {
                            Err(e) => (s1, Err(e)),
                            Ok(off) => {
                                match g_copy_to(
                                    env,
                                    emit(s1, StepV::Offset(base, off as i64)),
                                    v,
                                    t,
                                    next_step(s1),
                                    env.depth,
                                ) {
                                    (at, Err(e)) => (at, Err(e)),
                                    (s2, Ok(_u)) => {
                                        g_inits(env, s2, es, d, base, i + 1)
                                    }
                                }
                            }
                        }
                    }
                }
            }
        }
    }
}

/// The elements of an array literal from `i` on, written to memory at `base`.
pub open spec fn g_elements(
    env: GenEnv,
    s: GenState,
    es: Seq<TyHirExprV>,
    t: HirTypeV,
    base: usize,
    stride: u32,
    i: int,
) -> (GenState, Result<(), MplangErrorV>)
    decreases es, es.len() - i,
{
    if i < 0 || i >= es.len() {
        (s, Ok(()))
    } else {
        match g_expr(env, s, es[i], t) {
            (at, Err(e)) => (at, Err(e)),
            (s1, Ok(v)) => {
                match g_put(env, s1, v, t, base, stride, i as usize) {
                    (at, Err(e)) => (at, Err(e)),
                    (s2, Ok(_u)) => {
                        g_elements(env, s2, es, t, base, stride, i + 1)
                    }
                }
            }
        }
    }
}

// Statements

/// What a function needs to know of itself: its result type, where an
/// aggregate result goes, and the variables whose address is taken.
#[verifier::ext_equal]
pub struct FnScope {
    pub ret: HirTypeV,
    pub room: Option<usize>,
    pub taken: Set<DefId>,
}

/// The null pointer, which stands for no value.
pub open spec fn g_null(s: GenState) -> (GenState, usize) {
    (emit(s, StepV::Const(IrType::Ptr, 0)), next_step(s))
}

/// The test whether a value is not zero.
pub open spec fn g_test(s: GenState, v: usize) -> (GenState, usize) {
    let s1 = emit(s, StepV::Const(IrType::I64, 0));
    (emit(s1, StepV::Compare(Condition::NotEqual, v, next_step(s))), next_step(s1))
}

/// An assignment to a local variable.
pub open spec fn g_set_local(
    env: GenEnv,
    s: GenState,
    info: LocalVarV,
    v: usize,
) -> (GenState, Result<usize, MplangErrorV>) {
    match info.slot {
        Some(slot) => {
            let s1 = emit(s, StepV::SlotAddr(slot));
            (emit(s1, StepV::Store(v, next_step(s))), Ok(v))
        },
        None => match info.var {
            None => (s, Err(no_value())),
            Some(var) => if info.ty is Named || info.ty is Array {
                let s1 = emit(s, StepV::GetVar(var));
                match g_copy_to(env, s1, v, info.ty, next_step(s), env.depth) {
                    (at, Err(e)) => (at, Err(e)),
                    (s2, Ok(_u)) => {
                        (s2, Ok(next_step(s)))
                    }
                }
            } else {
                match g_copy(env, s, v, info.ty) {
                    (at, Err(e)) => (at, Err(e)),
                    (s1, Ok(c)) => {
                        (emit(s1, StepV::SetVar(var, c)), Ok(c))
                    }
                }
            },
        },
    }
}

/// An assignment to a name.
pub open spec fn g_assign_name(
    env: GenEnv,
    s: GenState,
    d: DefId,
    value: TyHirExprV,
) -> (GenState, Result<usize, MplangErrorV>) {
    match lookup(s.vars, d) {
        Some(info) => {
            match g_expr(env, s, value, info.ty) {
                (at, Err(e)) => (at, Err(e)),
                (s1, Ok(v)) => {
                    g_set_local(env, s1, info, v)
                }
            }
        },
        None => match lookup(env.data, d) {
            None => (s, Err(error_on("undefined variable: "@, shown_def(d), Seq::empty()))),
            Some(t) => {
                match g_expr(env, emit(s, StepV::Symbol(DataRef::Global(d))), value, t) {
                    (at, Err(e)) => (at, Err(e)),
                    (s1, Ok(v)) => {
                        match g_copy_to(env, s1, v, t, next_step(s), env.depth) {
                            (at, Err(e)) => (at, Err(e)),
                            (s2, Ok(_u)) => {
                                (s2, Ok(v))
                            }
                        }
                    }
                }
            },
        },
    }
}

/// An assignment.
pub open spec fn g_assign(
    env: GenEnv,
    s: GenState,
    target: TyHirExprV,
    value: TyHirExprV,
) -> (GenState, Result<usize, MplangErrorV>) {
    match target.kind {
        TyHirExprKindV::Path(d) => g_assign_name(env, s, d, value),
        _ => {
            match g_place(env, s, target) {
                (at, Err(e)) => (at, Err(e)),
                (s1, Ok(addr)) => {
                    match g_expr(env, s1, value, target.ty) {
                        (at, Err(e)) => (at, Err(e)),
                        (s2, Ok(v)) => {
                            match g_copy_to(env, s2, v, target.ty, addr, env.depth) {
                                (at, Err(e)) => (at, Err(e)),
                                (s3, Ok(_u)) => {
                                    (s3, Ok(addr))
                                }
                            }
                        }
                    }
                }
            }
        },
    }
}

/// The value that a `return` hands back.
pub open spec fn g_return_value(
    env: GenEnv,
    s: GenState,
    value: Option<TyHirExprV>,
    c: FnScope,
) -> (GenState, Result<Option<usize>, MplangErrorV>) {
    match c.room {
        Some(room) => match value {
            Some(e) => {
                match g_expr(env, s, e, c.ret) {
                    (at, Err(e)) => (at, Err(e)),
                    (s1, Ok(v)) => {
                        match g_copy_to(env, s1, v, c.ret, room, env.depth) {
                            (at, Err(e)) => (at, Err(e)),
                            (s2, Ok(_u)) => {
                                (s2, Ok(None))
                            }
                        }
                    }
                }
            },
            None => (s, Ok(None)),
        },
        None => match value {
            Some(e) => {
                match g_expr(env, s, e, c.ret) {
                    (at, Err(e)) => (at, Err(e)),
                    (s1, Ok(v)) => {
                        (s1, Ok(Some(v)))
                    }
                }
            },
            None => (g_null(s).0, Ok(Some(g_null(s).1))),
        },
    }
}

/// What follows a `return` goes into a block of its own.
pub open spec fn g_after_return(s: GenState) -> (GenState, usize) {
    let s1 = emit(s, StepV::CreateBlock);
    let s2 = emit(s1, StepV::SwitchTo(next_step(s)));
    g_null(emit(s2, StepV::Seal(next_step(s))))
}

/// The blocks of an `if`: where it goes for true, for false, and behind it.
pub open spec fn g_if_blocks(s: GenState, test: usize) -> GenState {
    let s1 = emit(s, StepV::CreateBlock);
    let s2 = emit(s1, StepV::CreateBlock);
    let s3 = emit(s2, StepV::CreateBlock);
    let s4 = emit(s3, StepV::AddPointerParam(next_step(s2)));
    let s5 = emit(s4, StepV::Branch(test, next_step(s), next_step(s1)));
    emit(s5, StepV::SwitchTo(next_step(s)))
}

/// The end of an `if` whose blocks were made from step `at` on; the last value
/// of the branch that ran is its value.
pub open spec fn g_if_end(s: GenState, at: usize, last: usize) -> (GenState, usize) {
    let s1 = emit(s, StepV::Jump((at + 2) as usize, Some(last)));
    let s2 = emit(s1, StepV::SwitchTo((at + 2) as usize));
    let s3 = emit(s2, StepV::Seal(at));
    let s4 = emit(s3, StepV::Seal((at + 1) as usize));
    let s5 = emit(s4, StepV::Seal((at + 2) as usize));
    (emit(s5, StepV::Param((at + 2) as usize, 0)), next_step(s5))
}

/// From the first branch of an `if` to the second.
pub open spec fn g_if_else(s: GenState, at: usize, last: usize) -> GenState {
    let s1 = emit(s, StepV::Jump((at + 2) as usize, Some(last)));
    emit(s1, StepV::SwitchTo((at + 1) as usize))
}

/// The blocks of a `while`: its test, its body, and behind it.
pub open spec fn g_while_blocks(s: GenState) -> GenState {
    let s1 = emit(s, StepV::CreateBlock);
    let s2 = emit(s1, StepV::CreateBlock);
    let s3 = emit(s2, StepV::CreateBlock);
    let s4 = emit(s3, StepV::Jump(next_step(s), None));
    emit(s4, StepV::SwitchTo(next_step(s)))
}

/// From the test of a `while` whose blocks were made from step `at` on to its
/// body.
pub open spec fn g_while_body(s: GenState, at: usize, v: usize) -> GenState {
    let t = g_test(s, v);
    let s1 = emit(t.0, StepV::Branch(t.1, (at + 1) as usize, (at + 2) as usize));
    emit(s1, StepV::SwitchTo((at + 1) as usize))
}

/// The end of a `while` whose blocks were made from step `at` on.
pub open spec fn g_while_end(s: GenState, at: usize) -> (GenState, usize) {
    let s1 = emit(s, StepV::Jump(at, None));
    let s2 = emit(s1, StepV::Seal(at));
    let s3 = emit(s2, StepV::Seal((at + 1) as usize));
    let s4 = emit(s3, StepV::SwitchTo((at + 2) as usize));
    let s5 = emit(s4, StepV::Seal((at + 2) as usize));
    g_null(s5)
}

/// A statement; its value is that of the last expression in it.
pub open spec fn g_stmt(
    env: GenEnv,
    s: GenState,
    st: TyHirStmtV,
    c: FnScope,
) -> (GenState, Result<usize, MplangErrorV>)
    decreases st, 0int,
{
    match st {
        TyHirStmtV::Let { def_id, ty, init, .. } => {
            match g_expr(env, s, init, ty) {
                (at, Err(e)) => (at, Err(e)),
                (s1, Ok(raw)) => {
                    match g_copy(env, s1, raw, ty) {
                        (at, Err(e)) => (at, Err(e)),
                        (s2, Ok(v)) => {
                            match g_bind(env, s2, def_id, ty, v, c.taken.contains(def_id)) {
                                (at, Err(e)) => (at, Err(e)),
                                (s3, Ok(_u)) => {
                                    (s3, Ok(raw))
                                }
                            }
                        }
                    }
                }
            }
        },
        TyHirStmtV::Assign { target, value } => g_assign(env, s, target, value),
        TyHirStmtV::Expr(e) => g_expr(env, s, e, e.ty),
        TyHirStmtV::If { cond, then_branch, else_branch } => {
            match g_expr(env, s, cond, HirTypeV::Int) {
                (at, Err(e)) => (at, Err(e)),
                (s1, Ok(v)) => {
                    let t = g_test(s1, v);
                    let at = next_step(t.0);
                    match g_block(env, g_if_blocks(t.0, t.1), then_branch.stmts, c) {
                        (at, Err(e)) => (at, Err(e)),
                        (s2, Ok(a)) => {
                            let s3 = GenState { vars: s.vars, ..g_if_else(s2, at, a) };
                            match g_else(env, s3, else_branch, c) {
                                (at, Err(e)) => (at, Err(e)),
                                (s4, Ok(b)) => {
                                    let r = g_if_end(s4, at, b);
                                    (GenState { vars: s.vars, ..r.0 }, Ok(r.1))
                                }
                            }
                        }
                    }
                }
            }
        },
        TyHirStmtV::While { cond, body } => {
            let at = next_step(s);
            match g_expr(env, g_while_blocks(s), cond, HirTypeV::Int) {
                (at, Err(e)) => (at, Err(e)),
                (s1, Ok(v)) => {
                    match g_block(env, g_while_body(s1, at, v), body.stmts, c) {
                        (at, Err(e)) => (at, Err(e)),
                        (s2, Ok(_last)) => {
                            let r = g_while_end(s2, at);
                            (GenState { vars: s.vars, ..r.0 }, Ok(r.1))
                        }
                    }
                }
            }
        },
        TyHirStmtV::Return(value) => {
            match g_return_value(env, s, value, c) {
                (at, Err(e)) => (at, Err(e)),
                (s1, Ok(v)) => {
                    let r = g_after_return(emit(s1, StepV::Return(v)));
                    (r.0, Ok(r.1))
                }
            }
        },
    }
}

/// The second branch of an `if`.
pub open spec fn g_else(
    env: GenEnv,
    s: GenState,
    b: Option<TyHirBodyV>,
    c: FnScope,
) -> (GenState, Result<usize, MplangErrorV>)
    decreases b, 0int,
{
    match b {
        Some(b) => g_block(env, s, b.stmts, c),
        None => (g_null(s).0, Ok(g_null(s).1)),
    }
}

/// A block of statements; its value is that of the last one.
pub open spec fn g_block(
    env: GenEnv,
    s: GenState,
    stmts: Seq<TyHirStmtV>,
    c: FnScope,
) -> (GenState, Result<usize, MplangErrorV>)
    decreases stmts, stmts.len() + 1,
{
    let n = g_null(s);
    g_stmts(env, n.0, stmts, c, 0, n.1)
}

/// Statements from `i` on; `last` is the value so far.
pub open spec fn g_stmts(
    env: GenEnv,
    s: GenState,
    stmts: Seq<TyHirStmtV>,
    c: FnScope,
    i: int,
    last: usize,
) -> (GenState, Result<usize, MplangErrorV>)
    decreases stmts, stmts.len() - i,
{
    if i < 0 || i >= stmts.len() {
        (s, Ok(last))
    } else {
        match g_stmt(env, s, stmts[i], c) {
            (at, Err(e)) => (at, Err(e)),
            (s1, Ok(v)) => {
                g_stmts(env, s1, stmts, c, i + 1, v)
            }
        }
    }
}

// Functions

/// The parameters of a function from `i` on become local variables; `skip`
/// parameters of the entry block come before them.
pub open spec fn g_params(
    env: GenEnv,
    s: GenState,
    ps: Seq<TyHirParamV>,
    taken: Set<DefId>,
    entry: usize,
    skip: usize,
    i: int,
) -> (GenState, Result<(), MplangErrorV>)
    decreases ps.len() - i,
{
    if i >= ps.len() {
        (s, Ok(()))
    } else {
        let s1 = emit(s, StepV::Param(entry, (i + skip) as usize));
        match g_bind(env, s1, ps[i].def_id, ps[i].ty, next_step(s), taken.contains(ps[i].def_id)) {
            (at, Err(e)) => (at, Err(e)),
            (s2, Ok(_u)) => {
                g_params(env, s2, ps, taken, entry, skip, i + 1)
            }
        }
    }
}

/// The entry block of a function.
pub open spec fn g_entry(strings: Seq<Seq<char>>) -> GenState {
    let s = GenState { steps: Seq::empty(), strings, vars: Map::empty() };
    let s1 = emit(s, StepV::CreateBlock);
    let s2 = emit(s1, StepV::EnterFunction(0));
    let s3 = emit(s2, StepV::SwitchTo(0));
    emit(s3, StepV::Seal(0))
}

/// Where an aggregate result goes: the address that comes as first parameter.
pub open spec fn g_sret(s: GenState, ret: HirTypeV) -> (GenState, Option<usize>) {
    if is_aggregate(ret) {
        (emit(s, StepV::Param(0, 0)), Some(next_step(s)))
    } else {
        (s, None)
    }
}

/// The code of a function, with the string literals of the program.
#[verifier::opaque]
pub open spec fn g_function(
    env: GenEnv,
    strings: Seq<Seq<char>>,
    ps: Seq<TyHirParamV>,
    ret: HirTypeV,
    stmts: Seq<TyHirStmtV>,
) -> (GenState, Result<(), MplangErrorV>) {
    let taken = taken_stmts(stmts, 0, Set::empty());
    let r = g_sret(g_entry(strings), ret);
    let skip = if is_aggregate(ret) { 1usize } else { 0usize };
    match g_params(env, r.0, ps, taken, 0, skip, 0) {
        (at, Err(e)) => (at, Err(e)),
        (s1, Ok(_u)) => {
            match g_block(env, s1, stmts, FnScope { ret, room: r.1, taken }) {
                (at, Err(e)) => (at, Err(e)),
                (s2, Ok(last)) => {
                    if is_aggregate(ret) {
                        (emit(s2, StepV::Return(None)), Ok(()))
                    } else {
                        (emit(s2, StepV::Return(Some(last))), Ok(()))
                    }
                }
            }
        }
    }
}

// Programs

/// The items from `i` on with those of their modules behind them, behind
/// `done`.
pub open spec fn flat(items: Seq<TyHirItemV>, i: int, done: Seq<TyHirItemV>) -> Seq<TyHirItemV>
    decreases items, items.len() - i,
{
    if i < 0 || i >= items.len() {
        done
    } else {
        let a = done.push(items[i]);
        match items[i] {
            TyHirItemV::Module(m) => flat(items, i + 1, flat(m.items, 0, a)),
            _ => flat(items, i + 1, a),
        }
    }
}

/// The error for a global variable whose initial value has another type.
#[verifier::opaque]
pub open spec fn init_mismatch(name: Seq<char>) -> MplangErrorV {
    codegen_error("global `"@ + name + "` 字面量类型与声明不符"@)
}

/// The symbol of a global variable.
#[verifier::opaque]
pub open spec fn global_name(d: DefId) -> Seq<char> {
    "__mplang_global_"@ + decimal(d.0 as nat)
}

/// A program under construction.
#[verifier::ext_equal]
pub struct ProgramState {
    pub env: GenEnv,
    pub globals: Seq<GlobalDataV>,
    pub functions: Seq<FuncDeclV>,
    pub vtables: Seq<VTableDataV>,
    pub code: Seq<FunctionCodeV>,
    pub strings: Seq<Seq<char>>,
}

/// One global variable more, unless it is known.
pub open spec fn g_add_global(
    p: ProgramState,
    d: DefId,
    bytes: Seq<u8>,
    ty: HirTypeV,
) -> (ProgramState, Result<(), MplangErrorV>) {
    match lookup(p.env.data, d) {
        Some(t) => {
            match g_assert_ty(t, ty, "global variable type mismatch"@) {
                Err(e) => (p, Err(e)),
                Ok(_u) => {
                    (p, Ok(()))
                }
            }
        },
        None => (
            ProgramState { env: GenEnv { data: p.env.data.insert(d, ty), ..p.env }, globals: p.globals.push(GlobalDataV { def_id: d, name: global_name(d), bytes }), ..p },
            Ok(()),
        ),
    }
}

/// The global variables among the items from `i` on.
pub open spec fn p_globals(
    p: ProgramState,
    items: Seq<TyHirItemV>,
    i: int,
) -> (ProgramState, Result<(), MplangErrorV>)
    decreases items.len() - i,
{
    if i >= items.len() {
        (p, Ok(()))
    } else {
        match items[i] {
            TyHirItemV::Static { def_id, name, ty, init, .. } => {
                match g_init(init) {
                    Err(e) => (p, Err(e)),
                    Ok(v) => {
                        if v.1 != ty {
                            (p, Err(init_mismatch(name)))
                        } else {
                            match g_add_global(p, def_id, v.0, ty) {
                                (at, Err(e)) => (at, Err(e)),
                                (p1, Ok(_u)) => {
                                    p_globals(p1, items, i + 1)
                                }
                            }
                        }
                    }
                }
            },
            _ => p_globals(p, items, i + 1),
        }
    }
}

/// The struct layouts of the items from `i` on. A struct may only contain
/// structs that come before it.
pub open spec fn p_structs(
    env: GenEnv,
    items: Seq<TyHirItemV>,
    i: int,
) -> (GenEnv, Result<(), MplangErrorV>)
    decreases items.len() - i,
{
    if i >= items.len() {
        (env, Ok(()))
    } else {
        match items[i] {
            TyHirItemV::Struct { def_id, fields, .. } => {
                match lay_fields(env, fields, 0, no_fields()) {
                    Err(e) => (env, Err(e)),
                    Ok(run) => {
                        if env.depth == usize::MAX {
                            (env, Err(add_overflow()))
                        } else {
                            p_structs(
                                GenEnv { structs: env.structs.insert(def_id, struct_layout(run)), depth: (env.depth + 1) as usize, ..env },
                                items,
                                i + 1,
                            )
                        }
                    }
                }
            },
            _ => p_structs(env, items, i + 1),
        }
    }
}

/// The enumeration layouts of the items from `i` on.
pub open spec fn p_enums(
    env: GenEnv,
    items: Seq<TyHirItemV>,
    i: int,
) -> (GenEnv, Result<(), MplangErrorV>)
    decreases items.len() - i,
{
    if i >= items.len() {
        (env, Ok(()))
    } else {
        match items[i] {
            TyHirItemV::Enum { def_id, variants, .. } => {
                match lay_variants(env, variants, 0, no_variants()) {
                    Err(e) => (env, Err(e)),
                    Ok(run) => {
                        match enum_layout(run) {
                            Err(e) => (env, Err(e)),
                            Ok(layout) => {
                                p_enums(
                                    GenEnv { enums: env.enums.insert(def_id, layout), ..env },
                                    items,
                                    i + 1,
                                )
                            }
                        }
                    }
                }
            },
            _ => p_enums(env, items, i + 1),
        }
    }
}

/// One function more, unless it is known.
pub open spec fn g_add_function(
    p: ProgramState,
    d: DefId,
    symbol: Seq<char>,
    linkage: Linkage,
    info: FuncInfoV,
) -> (ProgramState, Result<(), MplangErrorV>) {
    match g_signature(p.env, info.param_types, info.ret_ty, Seq::empty()) {
        Err(e) => (p, Err(e)),
        Ok(sig) => {
            if p.env.funcs.dom().contains(d) {
                (p, Ok(()))
            } else {
                (
                    ProgramState { env: GenEnv { funcs: p.env.funcs.insert(d, info), ..p.env }, functions: p.functions.push(FuncDeclV { def_id: d, symbol, linkage, signature: sig }), ..p },
                    Ok(()),
                )
            }
        }
    }
}

/// The outside functions among the items from `i` on. The symbol is the one
/// that an attribute gives, or the name.
pub open spec fn p_externs(
    p: ProgramState,
    items: Seq<TyHirItemV>,
    i: int,
) -> (ProgramState, Result<(), MplangErrorV>)
    decreases items.len() - i,
{
    if i >= items.len() {
        (p, Ok(()))
    } else {
        match items[i] {
            TyHirItemV::ExternFn { def_id, link_name, name, param_types, return_ty, is_variadic, .. } => {
                match g_add_function(
                    p,
                    def_id,
                    match link_name { Some(l) => l, None => name },
                    Linkage::Import,
                    FuncInfoV { name, param_types, ret_ty: return_ty, is_variadic },
                ) {
                    (at, Err(e)) => (at, Err(e)),
                    (p1, Ok(_u)) => {
                        p_externs(p1, items, i + 1)
                    }
                }
            },
            _ => p_externs(p, items, i + 1),
        }
    }
}

/// The types of parameters.
pub open spec fn param_types_of(ps: Seq<TyHirParamV>) -> Seq<HirTypeV> {
    ps.map_values(|p: TyHirParamV| p.ty)
}

/// The symbol of a function: that of a method ends in the number of its
/// definition.
pub open spec fn symbol_of(d: DefId, name: Seq<char>, recv: Option<HirTypeV>) -> Seq<char> {
    if recv is Some {
        name + "_"@ + decimal(d.0 as nat)
    } else {
        name
    }
}

/// Whether a function can be called from outside: only `main` can.
pub open spec fn linkage_of(name: Seq<char>) -> Linkage {
    if name == "main"@ { Linkage::Export } else { Linkage::Local }
}

/// The declarations of the functions among the items from `i` on.
pub open spec fn p_functions(
    p: ProgramState,
    items: Seq<TyHirItemV>,
    i: int,
) -> (ProgramState, Result<(), MplangErrorV>)
    decreases items.len() - i,
{
    if i >= items.len() {
        (p, Ok(()))
    } else {
        match items[i] {
            TyHirItemV::Fn { def_id, name, params, return_ty, impl_receiver, .. } => if p.env.funcs.dom().contains(def_id) {
                p_functions(p, items, i + 1)
            } else {
                let symbol = symbol_of(def_id, name, impl_receiver);
                match g_add_function(
                    p,
                    def_id,
                    symbol,
                    linkage_of(name),
                    FuncInfoV { name: symbol, param_types: param_types_of(params), ret_ty: return_ty, is_variadic: false },
                ) {
                    (at, Err(e)) => (at, Err(e)),
                    (p1, Ok(_u)) => {
                        p_functions(p1, items, i + 1)
                    }
                }
            },
            _ => p_functions(p, items, i + 1),
        }
    }
}

/// The symbol of a method table.
#[verifier::opaque]
pub open spec fn vtable_name(t: VTableV) -> Seq<char> {
    "__vtable_"@ + decimal(t.trait_def.0 as nat) + "_"@ + decimal(t.impl_type_def.0 as nat)
}

/// The entries of a method table from `i` on, behind `done`: a pointer for each
/// method.
pub open spec fn vtable_entries(
    env: GenEnv,
    ms: Seq<DefId>,
    i: int,
    done: Seq<(u32, DefId)>,
) -> Result<Seq<(u32, DefId)>, MplangErrorV>
    decreases ms.len() - i,
{
    if i >= ms.len() {
        Ok(done)
    } else if !env.funcs.dom().contains(ms[i]) {
        Err(error_on("vtable method "@, shown_def(ms[i]), " not in func_map"@))
    } else if i * env.ptr_bytes > u32::MAX {
        Err(mul_overflow())
    } else {
        vtable_entries(env, ms, i + 1, done.push(((i * env.ptr_bytes) as u32, ms[i])))
    }
}

/// The method tables from `i` on.
pub open spec fn p_vtables(
    p: ProgramState,
    ts: Seq<VTableV>,
    i: int,
) -> (ProgramState, Result<(), MplangErrorV>)
    decreases ts.len() - i,
{
    if i >= ts.len() {
        (p, Ok(()))
    } else if ts[i].methods.len() * p.env.ptr_bytes > u32::MAX {
        (p, Err(mul_overflow()))
    } else {
        match vtable_entries(p.env, ts[i].methods, 0, Seq::empty()) {
            Err(e) => (p, Err(e)),
            Ok(entries) => {
                p_vtables(
                    ProgramState { vtables: p.vtables.push(VTableDataV { name: vtable_name(ts[i]), size: (ts[i].methods.len() * p.env.ptr_bytes) as u32, entries }), ..p },
                    ts,
                    i + 1,
                )
            }
        }
    }
}

/// The result type under which a function was declared.
pub open spec fn declared_result(
    p: ProgramState,
    d: DefId,
    name: Seq<char>,
) -> Result<HirTypeV, MplangErrorV> {
    match lookup(p.env.funcs, d) {
        Some(f) => Ok(f.ret_ty),
        None => Err(error_on("function '"@, name, "' not declared"@)),
    }
}

/// The code of the functions among the items from `i` on.
pub open spec fn p_code(
    p: ProgramState,
    items: Seq<TyHirItemV>,
    i: int,
) -> (ProgramState, Result<(), MplangErrorV>)
    decreases items.len() - i,
{
    if i >= items.len() {
        (p, Ok(()))
    } else {
        match items[i] {
            TyHirItemV::Fn { def_id, name, params, body, .. } => {
                match declared_result(p, def_id, name) {
                    Err(e) => (p, Err(e)),
                    Ok(ret) => {
                        match g_function(p.env, p.strings, params, ret, body.stmts) {
                            (s, Err(e)) => (ProgramState { strings: s.strings, ..p }, Err(e)),
                            (s, Ok(_)) => p_code(
                                ProgramState { strings: s.strings, code: p.code.push(FunctionCodeV { def_id, steps: s.steps }), ..p },
                                items,
                                i + 1,
                            ),
                        }
                    }
                }
            },
            _ => p_code(p, items, i + 1),
        }
    }
}

/// The layouts of structs, then of enumerations.
pub open spec fn p_layouts(
    p: ProgramState,
    items: Seq<TyHirItemV>,
) -> (ProgramState, Result<(), MplangErrorV>) {
    let a = p_structs(p.env, items, 0);
    match a.1 {
        Err(e) => (ProgramState { env: a.0, ..p }, Err(e)),
        Ok(_) => {
            let b = p_enums(a.0, items, 0);
            (ProgramState { env: b.0, ..p }, b.1)
        },
    }
}

/// A whole program, one pass after the other: globals, layouts, outside
/// functions, declarations, method tables, code.
pub open spec fn translated(
    p: ProgramState,
    unit: TyHirCompilationUnitV,
) -> (ProgramState, Result<(), MplangErrorV>) {
    let items = flat(unit.root_module.items, 0, Seq::empty());
    match p_globals(p, items, 0) {
        (at, Err(e)) => (at, Err(e)),
        (p1, Ok(_a)) => {
            match p_layouts(p1, items) {
                (at, Err(e)) => (at, Err(e)),
                (p2, Ok(_b)) => {
                    match p_externs(p2, items, 0) {
                        (at, Err(e)) => (at, Err(e)),
                        (p3, Ok(_c)) => {
                            match p_functions(p3, items, 0) {
                                (at, Err(e)) => (at, Err(e)),
                                (p4, Ok(_d)) => {
                                    match p_vtables(p4, unit.vtables, 0) {
                                        (at, Err(e)) => (at, Err(e)),
                                        (p5, Ok(_e)) => {
                                            p_code(p5, items, 0)
                                        }
                                    }
                                }
                            }
                        }
                    }
                }
            }
        }
    }
}

/// The program state in which a compiler begins.
pub open spec fn empty_program(ptr_bytes: u32) -> ProgramState {
    ProgramState { env: empty_env(ptr_bytes), globals: Seq::empty(), functions: Seq::empty(), vtables: Seq::empty(), code: Seq::empty(), strings: Seq::empty() }
}

/// The program that is handed to the machine.
pub open spec fn program_of(p: ProgramState) -> ProgramV {
    ProgramV { globals: p.globals, functions: p.functions, vtables: p.vtables, code: p.code, strings: p.strings }
}

} // verus!

