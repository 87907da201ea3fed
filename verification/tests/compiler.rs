//! Layout, data and code.

use mplangc::ast::Literal;
use mplangc::compiler::code::{CodeSignature, IrType, Linkage, Program, Step};
use mplangc::compiler::globals::literal_bytes;
use mplangc::compiler::Compiler;
use mplangc::error::{ErrorKind, MplangError};
use mplangc::hir::{ArrayLen, DefId, HirType};
use mplangc::lexer::Lexer;
use mplangc::lowering::Lowerer;
use mplangc::parser::Parser;
use mplangc::tycheck::TypeChecker;
use mplangc::tyhir::{TyHirCompilationUnit, TyHirItem};

fn check(src: &str) -> TyHirCompilationUnit {
    let toks = Lexer::new(src.chars().collect()).lex().unwrap();
    let ast = Parser::new(toks).parse().unwrap();
    let hir = Lowerer::new(None).lower(&ast).unwrap();
    TypeChecker::new(&hir).check(&hir).unwrap()
}

fn compiler(src: &str) -> Compiler {
    let mut c = Compiler::new(8);
    c.translate(&check(src)).unwrap();
    c
}

fn program(src: &str) -> Program {
    compiler(src).into_program()
}

fn refusal(src: &str) -> MplangError {
    let mut c = Compiler::new(8);
    c.translate(&check(src)).unwrap_err()
}

fn fields_of(src: &str) -> (DefId, Vec<DefId>) {
    for item in &check(src).root_module.items {
        if let TyHirItem::Struct { def_id, fields, .. } = item {
            return (*def_id, fields.iter().map(|f| f.def_id).collect());
        }
    }
    panic!("no struct");
}

/// Fields stand at multiples of their alignment and do not overlap; the size is
/// a multiple of the largest alignment.
#[test]
fn struct_layout() {
    let src = "struct S { a:char, b:int, c:char, d:char, e:*int } fn main() {}";
    let c = compiler(src);
    let (s, fields) = fields_of(src);
    let offsets: Vec<u32> = fields.iter().map(|f| c.field_offset(&s, f).unwrap()).collect();
    assert_eq!(offsets, vec![0, 8, 16, 17, 24]);
    assert_eq!(c.struct_size(&s).unwrap(), 32);
    assert_eq!(c.var_type_align(&HirType::Named(s)).unwrap(), 8);
    let small = "struct S { a:char, b:char } fn main() {}";
    let c = compiler(small);
    let (s, _) = fields_of(small);
    assert_eq!(c.struct_size(&s).unwrap(), 2);
    assert_eq!(c.var_type_align(&HirType::Named(s)).unwrap(), 1);
}

/// The sizes of types, for pointers of eight and of four bytes.
#[test]
fn sizes_of_types() {
    let pair = |t: HirType| {
        (Compiler::new(8).var_type_size(&t).unwrap(), Compiler::new(4).var_type_size(&t).unwrap())
    };
    assert_eq!(pair(HirType::Int), (8, 8));
    assert_eq!(pair(HirType::Unit), (8, 8));
    assert_eq!(pair(HirType::Char), (1, 1));
    assert_eq!(pair(HirType::Pointer(Box::new(HirType::Char))), (8, 4));
    assert_eq!(pair(HirType::TraitObject(DefId(0))), (16, 8));
    assert_eq!(pair(HirType::Array(Box::new(HirType::Char), ArrayLen::Known(5))), (5, 5));
    assert_eq!(pair(HirType::Array(Box::new(HirType::Int), ArrayLen::Known(3))), (24, 24));
}

/// Types that no layout is known for, or that do not fit, are refused.
#[test]
fn types_without_a_size() {
    let c = Compiler::new(8);
    let text = |t: HirType| c.var_type_size(&t).unwrap_err().to_string();
    assert_eq!(text(HirType::Named(DefId(3))), "[代码生成] unknown struct");
    assert_eq!(
        text(HirType::Array(Box::new(HirType::Int), ArrayLen::Known(u32::MAX as usize))),
        "[代码生成] attempt to multiply with overflow"
    );
    assert_eq!(
        c.var_type_to_cranelift(&HirType::Named(DefId(3))).unwrap_err().to_string(),
        "[代码生成] unknown named type: DefId(3)"
    );
    assert_eq!(
        c.var_type_size(&HirType::Var(0)).unwrap_err().kind,
        ErrorKind::CodeGen
    );
}

/// The largest payload decides the size of an enumeration.
#[test]
fn enum_layout() {
    let field = |id: u32, ty: HirType| mplangc::tyhir::TyHirField {
        def_id: DefId(id),
        name: "f".to_string(),
        ty,
        visibility: mplangc::hir::Visibility::Public,
    };
    let variant = |id: u32, tag: u32, fields: Vec<mplangc::tyhir::TyHirField>| mplangc::tyhir::TyHirEnumVariant {
        def_id: DefId(id),
        name: format!("V{}", tag),
        tag,
        fields,
    };
    let mut unit = check("fn main() {}");
    unit.root_module.items.push(TyHirItem::Enum {
        def_id: DefId(100),
        visibility: mplangc::hir::Visibility::Public,
        attributes: Vec::new(),
        name: "E".to_string(),
        generics: Vec::new(),
        variants: vec![
            variant(101, 0, Vec::new()),
            variant(102, 1, vec![field(103, HirType::Char), field(104, HirType::Int)]),
            variant(105, 2, vec![field(106, HirType::Char)]),
        ],
    });
    let mut c = Compiler::new(8);
    c.translate(&unit).unwrap();
    let e = DefId(100);
    assert_eq!(c.enum_size(&e).unwrap(), 24);
    assert_eq!(c.enum_align(&e).unwrap(), 8);
    assert_eq!(Compiler::enum_tag_offset(), 0);
    assert_eq!(c.variant_payload_offset(&e, 1).unwrap(), 8);
    assert_eq!(c.variant_field_offset(&e, 1, &DefId(103)).unwrap(), 8);
    assert_eq!(c.variant_field_offset(&e, 1, &DefId(104)).unwrap(), 16);
    assert_eq!(c.variant_field_offset(&e, 2, &DefId(106)).unwrap(), 8);
    assert!(c.variant_field_offset(&e, 0, &DefId(106)).is_err());
    assert!(c.variant_payload_offset(&e, 3).is_err());
}

/// An aggregate result is returned through an address in front.
#[test]
fn signatures() {
    let c = Compiler::new(8);
    let array = HirType::Array(Box::new(HirType::Int), ArrayLen::Known(2));
    assert_eq!(
        c.build_signature(&vec![HirType::Char], &array, &vec![HirType::Int]).unwrap(),
        CodeSignature { params: vec![IrType::Ptr, IrType::I8, IrType::I64], returns: None }
    );
    assert_eq!(
        c.build_signature(&vec![], &HirType::Unit, &vec![]).unwrap(),
        CodeSignature { params: vec![], returns: Some(IrType::I64) }
    );
    assert!(Compiler::needs_sret(&array));
    assert!(!Compiler::needs_sret(&HirType::Pointer(Box::new(HirType::Int))));
}

/// The bytes of global variables, lowest first.
#[test]
fn global_data() {
    let p = program("static a:int = 258; static b:[int;2] = [1, 2]; static c:[int;3] = [1, 2, 3]; fn main() {}");
    assert_eq!(p.globals[0].bytes, vec![2, 1, 0, 0, 0, 0, 0, 0]);
    assert_eq!(p.globals[1].bytes, vec![1, 0, 0, 0, 0, 0, 0, 0, 2, 0, 0, 0, 0, 0, 0, 0]);
    assert_eq!(p.globals[2].bytes.len(), 24);
    assert!(p.globals[0].name.starts_with("__mplang_global_"));
}

/// `[v; n]` has the bytes of `v` listed `n` times.
#[test]
fn repeated_array_is_the_listed_one() {
    let a = program("static a:[int;4] = [7; 4]; fn main() {}");
    let b = program("static a:[int;4] = [7, 7, 7, 7]; fn main() {}");
    assert_eq!(a.globals[0].bytes, b.globals[0].bytes);
    assert_eq!(a.globals[0].bytes.len(), 32);
}

/// A string literal ends in a zero byte and is kept once.
#[test]
fn string_literals() {
    assert_eq!(literal_bytes(&"é".to_string()), vec![0xc3, 0xa9, 0]);
    assert_eq!(literal_bytes(&String::new()), vec![0]);
    let p = program("fn main() { let a:*char = \"x\"; let b:*char = \"y\"; let c:*char = \"x\"; }");
    assert_eq!(p.strings, vec!["x".to_string(), "y".to_string()]);
}

/// Only `main` can be called from outside; a function of another language is
/// imported under its link name.
#[test]
fn symbols_and_linkage() {
    let p = program(
        "#[link_name = \"puts\"] extern fn say(*char) -> int; extern fn time(*int) -> int;
         struct S { v:int } impl S { fn get() -> int { return self.v; } }
         fn f() {} fn main() {}",
    );
    let all: Vec<(String, Linkage)> = p.functions.iter().map(|f| (f.symbol.clone(), f.linkage)).collect();
    assert_eq!(all[0], ("puts".to_string(), Linkage::Import));
    assert_eq!(all[1], ("time".to_string(), Linkage::Import));
    assert!(all[2].0.starts_with("get_"));
    assert_eq!(all[3], ("f".to_string(), Linkage::Local));
    assert_eq!(all[4], ("main".to_string(), Linkage::Export));
}

/// The steps of a function that adds its parameters.
#[test]
fn steps_of_an_addition() {
    let p = program("fn add(a:int,b:int)->int { return a+b; }");
    assert_eq!(
        p.code[0].steps,
        vec![
            Step::CreateBlock,
            Step::EnterFunction(0),
            Step::SwitchTo(0),
            Step::Seal(0),
            Step::Param(0, 0),
            Step::DeclareVar(IrType::I64),
            Step::SetVar(5, 4),
            Step::Param(0, 1),
            Step::DeclareVar(IrType::I64),
            Step::SetVar(8, 7),
            Step::Const(IrType::Ptr, 0),
            Step::GetVar(5),
            Step::GetVar(8),
            Step::Add(11, 12),
            Step::Return(Some(13)),
            Step::CreateBlock,
            Step::SwitchTo(15),
            Step::Seal(15),
            Step::Const(IrType::Ptr, 0),
            Step::Return(Some(18)),
        ]
    );
}

/// A variable whose address is taken is kept in memory, others are not.
#[test]
fn only_variables_with_an_address_are_in_memory() {
    let slots = |src: &str| {
        let p = program(src);
        p.code[0].steps.iter().filter(|s| matches!(s, Step::CreateSlot(_, _))).count()
    };
    assert_eq!(slots("fn main() { let a:int = 1; let b:int = a; }"), 0);
    assert_eq!(slots("fn main() { let a:int = 1; let b:*int = &a; }"), 1);
    assert_eq!(slots("fn main() { let a:int = 1; let b:int = 2; let c:*int = &b; }"), 1);
}

/// What code generation cannot do is an error.
#[test]
fn refused_programs() {
    let e = refusal("static g:int = 1 + 2; fn main() {}");
    assert_eq!(e.to_string(), "[代码生成] global variable initializer must be a literal");
    let e = refusal("static g:[*char;1] = [\"x\"]; fn main() {}");
    assert_eq!(e.kind, ErrorKind::CodeGen);
    let e = refusal("fn id<T>(x:T) -> T { return x; } fn main() {}");
    assert!(e.message.starts_with("单态化后不应出现泛型类型占位符："));
}

/// A program begins at `main`, which takes nothing and returns an integer.
#[test]
fn entry_point() {
    assert!(compiler("fn main() -> int { return 0; }").entry_point().is_ok());
    let text = |src: &str| compiler(src).entry_point().unwrap_err().to_string();
    assert_eq!(text("fn f() {}"), "[代码生成] JIT error: no 'main' function defined in source");
    assert_eq!(
        text("fn main() {}"),
        "[代码生成] JIT error: 'main' must have signature fn() -> int, got fn([]) -> Unit"
    );
    assert_eq!(
        text("fn main(a:int, b:*char) -> int { return a; }"),
        "[代码生成] JIT error: 'main' must have signature fn() -> int, got fn([Int, Pointer(Char)]) -> Int"
    );
    let mut narrow = Compiler::new(4);
    narrow.translate(&check("fn main() -> int { return 0; }")).unwrap();
    assert!(narrow.entry_point().unwrap_err().message.contains("only 64-bit platforms"));
}

/// A global that is set twice must keep its type.
#[test]
fn global_of_two_types() {
    let mut c = Compiler::new(8);
    c.create_global_var(DefId(1), vec![0; 8], &HirType::Int).unwrap();
    c.create_global_var(DefId(1), vec![0; 8], &HirType::Int).unwrap();
    let e = c.create_global_var(DefId(1), vec![0], &HirType::Char).unwrap_err();
    assert_eq!(
        e.to_string(),
        "[代码生成] type mismatch in global variable type mismatch: expected Char, got Int"
    );
    assert_eq!(c.into_program().globals.len(), 1);
    assert_eq!(Literal::Int(1), Literal::Int(1));
}
