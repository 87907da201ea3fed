//! From source text to the typed program.

use mplangc::error::ErrorKind;
use mplangc::lexer::Lexer;
use mplangc::lowering::Lowerer;
use mplangc::parser::Parser;
use mplangc::tycheck::TypeChecker;

fn frontend(
    src: &str,
) -> Result<mplangc::tyhir::TyHirCompilationUnit, mplangc::error::MplangError> {
    let toks = Lexer::new(src.chars().collect()).lex()?;
    let ast = Parser::new(toks).parse()?;
    let hir = Lowerer::new(None).lower(&ast)?;
    TypeChecker::new(&hir).check(&hir)
}
#[test]
fn valid_programs_typecheck() {
    for src in [
        "fn main() {}",
        "fn main() { let x:int = 1; let y:int = x + 2; }",
        "struct Point { x:int, y:int } fn main() { let p:Point = Point { x:1, y:2 }; let d:int = p.x + p.y; }",
        "fn add(a:int,b:int)->int { return a+b; } fn main() { let r:int = add(3,4); }",
    ] {
        assert!(frontend(src).is_ok(), "expected to typecheck: {}", src);
    }
}

#[test]
fn negative_type_mismatch() {
    let e = frontend("fn main() { let x:int = \"hi\"; }").unwrap_err();
    assert_eq!(e.kind, ErrorKind::TypeCheck);
}

#[test]
fn negative_undefined_function() {
    let e = frontend("fn main() { let r:int = missing(1); }").unwrap_err();
    assert_eq!(e.kind, ErrorKind::Lowering);
}

#[test]
fn negative_syntax_error() {
    let toks = Lexer::new("fn main() { let x:int = ; }".chars().collect())
        .lex()
        .unwrap();
    assert!(Parser::new(toks).parse().is_err());
}
