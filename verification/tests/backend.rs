//! From source text to object files.

use cranelift_codegen::settings::{self, Configurable};
use cranelift_codegen::Context;
use cranelift_module::{DataDescription, FuncId, Linkage, Module};
use cranelift_object::{ObjectBuilder, ObjectModule};
use mplangc::backend::assemble::{build_function, machine_signature};
use mplangc::backend::links::{build_code, program_links, text_symbol, Placement};
use mplangc::backend::plan::{Links, Machine};
use mplangc::backend::trace::Convention;
use mplangc::compiler::code;
use mplangc::compiler::code::{CodeSignature, DataRef, IrType, Program, Step};
use mplangc::compiler::globals::literal_bytes;
use mplangc::compiler::Compiler;
use mplangc::lexer::Lexer;
use mplangc::lowering::Lowerer;
use mplangc::monomorphize::monomorphize_within;
use mplangc::parser::Parser;
use mplangc::tycheck::TypeChecker;

fn program(src: &str) -> Program {
    let toks = Lexer::new(src.chars().collect()).lex().unwrap();
    let ast = Parser::new(toks).parse().unwrap();
    let hir = Lowerer::new(None).lower(&ast).unwrap();
    let typed = TypeChecker::new(&hir).check(&hir).unwrap();
    let concrete = monomorphize_within(&typed, 64).unwrap();
    let mut compiler = Compiler::new(8);
    compiler.translate(&concrete).unwrap();
    compiler.into_program()
}

fn host_module() -> ObjectModule {
    let triple = target_lexicon::Triple::host();
    let mut flags = settings::builder();
    flags.set("opt_level", "speed").unwrap();
    flags.set("is_pic", "true").unwrap();
    let isa = cranelift_codegen::isa::lookup(triple.clone())
        .unwrap()
        .finish(settings::Flags::new(flags))
        .unwrap();
    let names = cranelift_module::default_libcall_names();
    ObjectModule::new(ObjectBuilder::new(isa, triple.to_string(), names).unwrap())
}

/// The texts of the functions that Cranelift got, and the object file.
fn assemble(program: &Program) -> (Vec<String>, Vec<u8>) {
    let machine = Machine { ptr_bytes: 8, convention: Convention::SystemV };
    let mut module = host_module();
    let mut contents: Vec<(String, Vec<u8>)> = Vec::new();
    for g in &program.globals {
        contents.push((g.name.clone(), g.bytes.clone()));
    }
    for (i, s) in program.strings.iter().enumerate() {
        contents.push((format!("__mplang_str_lit_{}", i), literal_bytes(s)));
    }
    let mut globals = Vec::new();
    for (name, bytes) in contents {
        let id = module.declare_data(&name, Linkage::Local, true, false).unwrap();
        let mut d = DataDescription::new();
        d.define(bytes.into_boxed_slice());
        module.define_data(id, &d).unwrap();
        globals.push(id.as_u32());
    }
    let strings = globals.split_off(program.globals.len());
    let mut functions = Vec::new();
    for f in &program.functions {
        let linkage = match f.linkage {
            code::Linkage::Import => Linkage::Import,
            code::Linkage::Local => Linkage::Local,
            code::Linkage::Export => Linkage::Export,
        };
        let signature = machine_signature(&f.signature, machine).unwrap();
        let id = module.declare_function(&f.symbol, linkage, &signature).unwrap();
        functions.push(Placement { index: id.as_u32(), colocated: linkage.is_final() });
    }
    let links = program_links(program, &functions, &globals, &strings).unwrap();
    let mut texts = Vec::new();
    for c in &program.code {
        let link = links.functions.iter().find(|l| l.def_id == c.def_id).unwrap();
        let f = build_code(c, &links, machine).unwrap();
        texts.push(f.display().to_string());
        module
            .define_function(FuncId::from_u32(link.index), &mut Context::for_function(f))
            .unwrap();
    }
    (texts, module.finish().emit().unwrap())
}

fn compile(src: &str) -> Vec<u8> {
    assemble(&program(src)).1
}

#[test]
fn valid_programs_compile_to_object() {
    for src in [
        "fn main() {}",
        "fn add(a:int,b:int)->int { return a+b; } fn main() { let r:int = add(3,4); }",
    ] {
        let bytes = compile(src);
        assert!(!bytes.is_empty(), "object should not be empty: {}", src);
    }
}

/// Pointers, addresses, dereferences and `*char` compile to an object file.
#[test]
fn pointer_pipeline() {
    let src = "\
        struct Point { x:int, y:int }
        fn main() {
            let s:*char = \"hi\";
            let n:int = 1;
            let p:*int = &n;
            *p = 2;
            let v:int = *p;
            let pt:Point = Point { x:3, y:4 };
            let fx:*int = &pt.x;
            *fx = 5;
            let c:int = p == fx;
        }
    ";
    let bytes = compile(src);
    assert!(!bytes.is_empty());
}

/// Programs that use every construct with code make functions that Cranelift
/// accepts.
#[test]
fn every_construct_compiles() {
    for src in [
        "fn main() -> int { let x:int = 1; if (x < 2) { x = 3; } else { x = 4; } return x; }",
        "fn main() -> int { let i:int = 0; while (i < 10) { i = i + 1; } return i; }",
        "fn f(n:int) -> int { if (n == 0) { return 1; } return n * f(n - 1); } fn main() -> int { return f(5); }",
        "fn main() -> int { let a:[int;3] = [1,2,3]; a[1] = 7; return a[0] + a[1] + a[2]; }",
        "fn main() -> int { let a:[int;4] = [9;4]; let i:int = 2; return a[i]; }",
        "struct P { x:int, c:char, y:int } fn mk(a:int) -> P { return P { x:a, c:*\"q\", y:a }; } fn main() -> int { let p:P = mk(3); let q:P = p; q.y = 5; return p.y; }",
        "static g:int = 5; fn main() -> int { g = g + 1; return g; }",
        "static t:[int;3] = [1,2,3]; fn main() -> int { t[1] = 4; return t[1]; }",
        "extern fn printf(*char, ...) -> int; fn main() -> int { printf(\"%d\\n\", 42); return 0; }",
        "fn inc(p:*int) { *p = *p + 1; } fn main() -> int { let n:int = 1; inc(&n); return n; }",
        "struct S { v:int } impl S { fn get() -> int { return self.v; } } fn main() -> int { let s:S = S { v:4 }; return s.get(); }",
        "fn id<T>(x:T) -> T { return x; } fn main() -> int { return id(3) + id::<int>(4); }",
        "fn five<const N: int>() -> int { return N; } fn main() -> int { return five::<5>(); }",
        "struct Box<T> { v:T } fn main() -> int { let b:Box<int> = Box::<int> { v:3 }; return b.v; }",
        "fn main() -> int { let a:int = 7 / 2; let b:int = a - 1; let c:int = a >= b; let d:int = a != b; return c + d; }",
        "fn main() -> int { return 1; let x:int = 2; return x; }",
        "fn main() { let i:int = 0; while (i < 3) { if (i == 1) { return; } i = i + 1; } }",
    ] {
        let toks = match Lexer::new(src.chars().collect()).lex() {
            Ok(t) => t,
            Err(e) => panic!("{}: {}", src, e.to_string()),
        };
        if let Err(e) = Parser::new(toks).parse() {
            panic!("{}: {}", src, e.to_string());
        }
        assert!(!compile(src).is_empty(), "{}", src);
    }
}

fn machine(ptr_bytes: u16) -> Machine {
    Machine { ptr_bytes, convention: Convention::SystemV }
}

fn no_links() -> Links {
    Links { functions: Vec::new(), data: Vec::new() }
}

fn returns_int() -> CodeSignature {
    CodeSignature { params: Vec::new(), returns: Some(IrType::I64) }
}

/// Steps that end every block make a function.
#[test]
fn smallest_function() {
    let steps = vec![
        Step::CreateBlock,
        Step::EnterFunction(0),
        Step::SwitchTo(0),
        Step::Seal(0),
        Step::Const(IrType::I64, 7),
        Step::Return(Some(4)),
    ];
    let f = build_function(&steps, 3, &returns_int(), &no_links(), machine(8)).unwrap();
    assert_eq!(
        f.display().to_string(),
        "function u0:3() -> i64 system_v {\nblock0:\n    v0 = iconst.i64 7\n    return v0  ; v0 = 7\n}\n"
    );
}

/// Steps that take what no earlier step made, that add to no block or to one
/// that ends, or that leave a block open, make no function.
#[test]
fn invalid_steps_are_refused() {
    let entry = || {
        vec![
            Step::CreateBlock,
            Step::EnterFunction(0),
            Step::SwitchTo(0),
            Step::Seal(0),
            Step::Const(IrType::I64, 7),
        ]
    };
    let with = |more: Vec<Step>| {
        let mut steps = entry();
        steps.extend(more);
        steps
    };
    for steps in vec![
        vec![Step::Const(IrType::I64, 1)],
        entry(),
        with(vec![Step::Add(4, 9), Step::Return(Some(5))]),
        with(vec![Step::Add(4, 0), Step::Return(Some(4))]),
        with(vec![Step::Return(Some(4)), Step::Return(Some(4))]),
        with(vec![Step::Jump(0, None)]),
        with(vec![Step::Seal(0), Step::Return(Some(4))]),
        with(vec![Step::GetVar(4), Step::Return(Some(4))]),
        with(vec![Step::SlotAddr(4), Step::Return(Some(4))]),
        with(vec![Step::Param(0, 0), Step::Return(Some(4))]),
        with(vec![Step::DeclareVar(IrType::I8), Step::SetVar(5, 4), Step::Return(Some(4))]),
        with(vec![Step::Symbol(DataRef::Text(0)), Step::Return(Some(4))]),
        with(vec![Step::CreateBlock, Step::Return(Some(4))]),
    ] {
        let e = build_function(&steps, 0, &returns_int(), &no_links(), machine(8)).unwrap_err();
        assert_eq!(e.to_string(), "[代码生成] invalid code");
    }
}

/// Cranelift has no integers of three bytes.
#[test]
fn pointers_of_an_unknown_width_are_refused() {
    let steps = vec![
        Step::CreateBlock,
        Step::EnterFunction(0),
        Step::SwitchTo(0),
        Step::Seal(0),
        Step::Return(None),
    ];
    let nothing = CodeSignature { params: Vec::new(), returns: None };
    assert!(build_function(&steps, 0, &nothing, &no_links(), machine(8)).is_ok());
    assert!(build_function(&steps, 0, &nothing, &no_links(), machine(3)).is_err());
    assert!(machine_signature(&nothing, machine(3)).is_none());
}

/// A signature has a parameter for each machine type, in order.
#[test]
fn signature_for_a_machine() {
    let s = CodeSignature {
        params: vec![IrType::Ptr, IrType::I8, IrType::I64],
        returns: Some(IrType::I8),
    };
    let wide = machine_signature(&s, machine(8)).unwrap();
    assert_eq!(wide.to_string(), "(i64, i8, i64) -> i8 system_v");
    let narrow = machine_signature(&s, machine(4)).unwrap();
    assert_eq!(narrow.to_string(), "(i32, i8, i64) -> i8 system_v");
    let windows = Machine { ptr_bytes: 8, convention: Convention::WindowsFastcall };
    assert_eq!(
        machine_signature(&s, windows).unwrap().to_string(),
        "(i64, i8, i64) -> i8 windows_fastcall"
    );
}

/// Every instruction comes out under its own name.
#[test]
fn instructions_by_name() {
    let src = "static g:int = 5;
        extern fn puts(*char) -> int;
        fn f(p:*int, n:int) -> int {
            let a:int = n;
            let q:*int = &a;
            *q = *p;
            let i:int = 0;
            while (i < 3) { i = i + 1; }
            if (i == 3) { g = g - i * 2 / 3; }
            let r:[int;2] = [1, 2];
            puts(\"x\");
            return r[i];
        }";
    let (texts, _) = assemble(&program(src));
    for word in [
        "= iadd", "= isub", "= imul", "= sdiv", "= icmp", " slt ", " eq ", " ne ", "uextend.i64", "load.i64",
        "store", "stack_addr.i64", "symbol_value.i64", "call fn0", "brif", "jump", "return",
        "iconst.i64 3", "colocated",
    ] {
        assert!(texts[0].contains(word), "{} is not in\n{}", word, texts[0]);
    }
    for (condition, word) in [
        ("n <= 1", " sle "),
        ("n > 1", " sgt "),
        ("n >= 1", " sge "),
        ("n != 1", " ne "),
    ] {
        let src = format!("fn f(n:int) -> int {{ return {}; }}", condition);
        let (texts, _) = assemble(&program(&src));
        assert!(texts[0].contains(word), "{} is not in\n{}", word, texts[0]);
    }
}

/// Every function, global variable and string literal of a program has a link,
/// under the number of its place.
#[test]
fn links_of_a_program() {
    let p = program(
        "static g:int = 5; static h:int = 6;
        extern fn puts(*char) -> int;
        fn main() -> int { puts(\"a\"); puts(\"b\"); return g + h; }",
    );
    let at = vec![
        Placement { index: 40, colocated: false },
        Placement { index: 41, colocated: true },
    ];
    let links = program_links(&p, &at, &vec![7, 8], &vec![9, 10]).unwrap();
    assert_eq!(links.functions.len(), 2);
    for i in 0..2 {
        assert_eq!(links.functions[i].def_id, p.functions[i].def_id);
        assert_eq!(links.functions[i].index, at[i].index);
        assert_eq!(links.functions[i].colocated, at[i].colocated);
        assert_eq!(links.functions[i].signature.params, p.functions[i].signature.params);
    }
    let data: Vec<(DataRef, u32)> = links.data.iter().map(|d| (d.target, d.index)).collect();
    assert_eq!(
        data,
        vec![
            (DataRef::Global(p.globals[0].def_id), 7),
            (DataRef::Global(p.globals[1].def_id), 8),
            (DataRef::Text(0), 9),
            (DataRef::Text(1), 10),
        ]
    );
    assert!(program_links(&p, &Vec::new(), &vec![7, 8], &vec![9, 10]).is_none());
    assert!(program_links(&p, &at, &vec![7], &vec![9, 10]).is_none());
    assert!(program_links(&p, &at, &vec![7, 8], &vec![9, 10, 11]).is_none());
}

/// A function without a link has no code.
#[test]
fn code_without_a_link_is_refused() {
    let p = program("fn main() -> int { return 3; }");
    let at = vec![Placement { index: 5, colocated: true }];
    let links = program_links(&p, &at, &Vec::new(), &Vec::new()).unwrap();
    let f = build_code(&p.code[0], &links, machine(8)).unwrap();
    assert!(f.display().to_string().contains("function u0:5() -> i64"));
    let e = build_code(&p.code[0], &no_links(), machine(8)).unwrap_err();
    assert_eq!(e.to_string(), "[代码生成] invalid code");
}

/// A block can have 65536 parameters, one for each variable among them.
#[test]
fn too_many_parameters_are_refused() {
    let steps = |vars: usize| {
        let mut steps = vec![
            Step::CreateBlock,
            Step::EnterFunction(0),
            Step::SwitchTo(0),
            Step::Seal(0),
        ];
        for _ in 0..vars {
            steps.push(Step::DeclareVar(IrType::I64));
        }
        steps.push(Step::Return(None));
        steps
    };
    let takes = |n: usize| CodeSignature { params: vec![IrType::I64; n], returns: None };
    for (params, vars, ok) in [(65536, 0, true), (65537, 0, false), (65530, 6, true), (65530, 7, false)] {
        let r = build_function(&steps(vars), 0, &takes(params), &no_links(), machine(8));
        assert_eq!(r.is_ok(), ok, "{} {}", params, vars);
    }
}

#[test]
fn symbols_of_string_literals() {
    assert_eq!(text_symbol(0), "__mplang_str_lit_0");
    assert_eq!(text_symbol(12), "__mplang_str_lit_12");
}
