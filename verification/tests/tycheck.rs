//! The type checker.

use mplangc::ast::{BinOp, CompilationUnit};
use mplangc::error::{ErrorKind, MplangError};
use mplangc::hir::{DefId, HirItem, HirStmt, HirType};
use mplangc::lexer::Lexer;
use mplangc::lowering::Lowerer;
use mplangc::parser::Parser;
use mplangc::tycheck::TypeChecker;
use mplangc::tyhir::{TyHirCompilationUnit, TyHirExprKind, TyHirItem, TyHirModule, TyHirStmt};

fn parse(src: &str) -> CompilationUnit {
    let toks = Lexer::new(src.chars().collect()).lex().unwrap();
    Parser::new(toks).parse().unwrap()
}

fn frontend(src: &str) -> std::result::Result<TyHirCompilationUnit, MplangError> {
    let hir = Lowerer::new(None).lower(&parse(src))?;
    TypeChecker::new(&hir).check(&hir)
}

fn check_ok(src: &str) -> TyHirCompilationUnit {
    frontend(src).unwrap()
}

fn frontend_err(src: &str) -> MplangError {
    frontend(src).unwrap_err()
}

fn find_fn<'a>(m: &'a TyHirModule, name: &str) -> &'a TyHirItem {
    for it in &m.items {
        if let TyHirItem::Fn { name: n, .. } = it {
            if n == name {
                return it;
            }
        }
    }
    panic!("fn {} not found", name);
}

#[test]
fn valid_program_typechecks() {
    let t = check_ok("fn main(){ let x:int = 1; let y:int = x + 2; }");
    if let TyHirItem::Fn { body, .. } = find_fn(&t.root_module, "main") {
        if let TyHirStmt::Let { ty, init, .. } = &body.stmts[1] {
            assert_eq!(ty, &HirType::Int);
            assert_eq!(init.ty, HirType::Int);
            assert!(matches!(
                init.kind,
                TyHirExprKind::Binary { op: BinOp::Add, .. }
            ));
        } else {
            panic!("expected let y");
        }
    } else {
        panic!("no main");
    }
}

#[test]
fn type_mismatch_string_into_int() {
    let e = frontend_err("fn main(){ let x:int = \"hi\"; }");
    assert_eq!(e.kind, ErrorKind::TypeCheck);
}

#[test]
fn field_access_resolves_to_field_defid() {
    let t = check_ok(
        "struct Point { x:int } fn main(){ let p:Point = Point { x:1 }; let v:int = p.x; }",
    );
    if let TyHirItem::Fn { body, .. } = find_fn(&t.root_module, "main") {
        if let TyHirStmt::Let { init, .. } = &body.stmts[1] {
            assert!(matches!(init.kind, TyHirExprKind::FieldAccess { .. }));
            assert_eq!(init.ty, HirType::Int);
        } else {
            panic!("expected let v");
        }
    } else {
        panic!("no main");
    }
}

#[test]
fn struct_literal_fields_resolved() {
    let t = check_ok(
        "struct Point { x:int, y:int } fn main(){ let p:Point = Point { x:1, y:2 }; }",
    );
    if let TyHirItem::Fn { body, .. } = find_fn(&t.root_module, "main") {
        if let TyHirStmt::Let { init, .. } = &body.stmts[0] {
            if let TyHirExprKind::StructLiteral { def_id, fields, .. } = &init.kind {
                let _ = def_id;
                assert_eq!(fields.len(), 2);
                assert!(matches!(fields[0].0, DefId(_)));
            } else {
                panic!("expected struct literal");
            }
        } else {
            panic!("expected let");
        }
    } else {
        panic!("no main");
    }
}

#[test]
fn undefined_function_typechecks_as_lowering_error() {
    let e = frontend_err("fn main(){ let r:int = missing(1); }");
    assert_eq!(e.kind, ErrorKind::Lowering);
}

#[test]
fn comparison_requires_int_operands() {
    let e = frontend_err("fn main(){ let s:int = 1; let b:int = s < \"b\"; }");
    assert_eq!(e.kind, ErrorKind::TypeCheck);
}
#[test]
fn address_of_yields_pointer() {
    let t = check_ok("fn main(){ let x:int = 1; let p:*int = &x; }");
    if let TyHirItem::Fn { body, .. } = find_fn(&t.root_module, "main") {
        if let TyHirStmt::Let { init, .. } = &body.stmts[1] {
            assert_eq!(init.ty, HirType::Pointer(Box::new(HirType::Int)));
            assert!(matches!(init.kind, TyHirExprKind::AddressOf(_)));
        } else {
            panic!("expected let p");
        }
    } else {
        panic!("no main");
    }
}
#[test]
fn deref_yields_pointee() {
    let t = check_ok("fn main(){ let x:int = 1; let p:*int = &x; let y:int = *p; }");
    if let TyHirItem::Fn { body, .. } = find_fn(&t.root_module, "main") {
        if let TyHirStmt::Let { init, .. } = &body.stmts[2] {
            assert_eq!(init.ty, HirType::Int);
            assert!(matches!(init.kind, TyHirExprKind::Deref(_)));
        } else {
            panic!("expected let y");
        }
    } else {
        panic!("no main");
    }
}
#[test]
fn address_of_rvalue_is_type_error() {
    let e = frontend_err("fn main(){ let p:*int = &1; }");
    assert_eq!(e.kind, ErrorKind::TypeCheck);
}
#[test]
fn string_literal_is_char_ptr() {
    let t = check_ok("fn main(){ let s:*char = \"hi\"; }");
    if let TyHirItem::Fn { body, .. } = find_fn(&t.root_module, "main") {
        if let TyHirStmt::Let { init, .. } = &body.stmts[0] {
            assert_eq!(init.ty, HirType::char_ptr());
        } else {
            panic!("expected let s");
        }
    } else {
        panic!("no main");
    }
}
#[test]
fn pointer_equality_typechecks() {
    let _t = check_ok(
        "fn main(){ let x:int = 1; let a:*int = &x; let b:*int = &x; let c:int = a == b; }",
    );
}
#[test]
fn address_of_struct_field_yields_pointer() {
    let t = check_ok(
        "struct Point { x:int, y:int } fn main(){ let pt:Point = Point { x:1, y:2 }; let fx:*int = &pt.x; }",
    );
    if let TyHirItem::Fn { body, .. } = find_fn(&t.root_module, "main") {
        if let TyHirStmt::Let { init, .. } = &body.stmts[1] {
            assert_eq!(init.ty, HirType::Pointer(Box::new(HirType::Int)));
        } else {
            panic!("expected let fx");
        }
    } else {
        panic!("no main");
    }
}
#[test]
fn array_literal_and_index_typecheck() {
    let _t = check_ok("fn main() { let a: [int; 4] = [1, 2, 3, 4]; let s: int = a[0]; }");
}
#[test]
fn array_length_mismatch_is_type_error() {
    let e = frontend_err("fn main() { let a: [int; 3] = [1, 2, 3, 4]; }");
    assert_eq!(e.kind, ErrorKind::TypeCheck);
}
#[test]
fn array_repeat_length_mismatch_is_type_error() {
    let e = frontend_err("fn main() { let a: [int; 4] = [1; 5]; }");
    assert_eq!(e.kind, ErrorKind::TypeCheck);
}
#[test]
fn index_non_array_is_type_error() {
    let e = frontend_err("fn main() { let x: int = 1; let y: int = x[0]; }");
    assert_eq!(e.kind, ErrorKind::TypeCheck);
}
#[test]
fn array_index_write_typechecks() {
    let _t = check_ok("fn main() { let a: [int; 3] = [1, 2, 3]; a[0] = 10; }");
}
#[test]
fn array_param_and_return_typecheck() {
    let _t = check_ok(
        "fn sum(a: [int; 3]) -> int { return a[0] + a[1] + a[2]; } \
         fn make() -> [int; 2] { return [1, 2]; } \
         fn main() { let m: [int; 2] = make(); let s: int = sum([1, 2, 3]); }",
    );
}
#[test]
fn method_call_resolves_to_call_with_receiver() {
    let t = check_ok(
        "struct Point { x:int, y:int } \
         impl Point { fn sum() -> int { return self.x + self.y; } } \
         fn main() { let p:Point = Point { x:1, y:2 }; let s:int = p.sum(); }",
    );
    let sum_id = if let TyHirItem::Fn { def_id, .. } = find_fn(&t.root_module, "sum") {
        *def_id
    } else {
        panic!("no sum");
    };
    if let TyHirItem::Fn { body, .. } = find_fn(&t.root_module, "main") {
        if let TyHirStmt::Let { init, .. } = &body.stmts[1] {
            if let TyHirExprKind::Call { callee, args, .. } = &init.kind {
                assert_eq!(*callee, sum_id);
                assert_eq!(args.len(), 1);
                assert!(matches!(args[0].kind, TyHirExprKind::Path(_)));
            } else {
                panic!("expected call");
            }
        } else {
            panic!("expected let s");
        }
    } else {
        panic!("no main");
    }
}
#[test]
fn method_not_found_is_type_error() {
    let e = frontend_err(
        "struct Point { x:int } \
         fn main() { let p:Point = Point { x:1 }; let s:int = p.nope(); }",
    );
    assert_eq!(e.kind, ErrorKind::TypeCheck);
}
#[test]
fn int_method_call_typechecks() {
    let _t = check_ok(
        "impl int { fn double() -> int { return self + self; } } \
         fn main() { let d:int = 21.double(); }",
    );
}
#[test]
fn trait_default_method_call_typechecks() {
    let _t = check_ok(
        "trait Show { fn show() -> int; fn pretty() -> int { return self.show() + 1; } } \
         struct Point { x:int } \
         impl Show for Point { fn show() -> int { return self.x; } } \
         fn main() { let p:Point = Point { x:3 }; let v:int = p.pretty(); }",
    );
}
#[test]
fn duplicate_method_impl_is_error() {
    let e = frontend_err(
        "struct Point { x:int } \
         impl Point { fn show() -> int { return self.x; } } \
         trait Show { fn show() -> int; } \
         impl Show for Point { fn show() -> int { return self.x; } }",
    );
    assert_eq!(e.kind, ErrorKind::Lowering);
}

/// Checking keeps functions, parameters and local variables under their numbers.
#[test]
fn checking_keeps_definitions() {
    let src = "fn f(a:int, b:int) -> int { let c:int = a + b; return c; } fn main(){ let d:int = f(1, 2); }";
    let hir = Lowerer::new(None).lower(&parse(src)).unwrap();
    let mut before: Vec<Vec<DefId>> = Vec::new();
    for item in &hir.root_module.items {
        if let HirItem::Fn { def_id, params, body, .. } = item {
            let mut ids = vec![*def_id];
            ids.extend(params.iter().map(|p| p.def_id));
            for s in &body.stmts {
                if let HirStmt::Let { def_id, .. } = s {
                    ids.push(*def_id);
                }
            }
            before.push(ids);
        }
    }
    let typed = check_ok(src);
    let mut after: Vec<Vec<DefId>> = Vec::new();
    for item in &typed.root_module.items {
        if let TyHirItem::Fn { def_id, params, body, .. } = item {
            let mut ids = vec![*def_id];
            ids.extend(params.iter().map(|p| p.def_id));
            for s in &body.stmts {
                if let TyHirStmt::Let { def_id, .. } = s {
                    ids.push(*def_id);
                }
            }
            after.push(ids);
        }
    }
    assert_eq!(before, after);
    assert_eq!(before.iter().map(|f| f.len()).collect::<Vec<usize>>(), vec![4, 2]);
}

#[test]
fn operands_of_operators() {
    let ops = ["+", "-", "*", "/", "==", "!=", "<", "<=", ">", ">="];
    for op in ops {
        check_ok(&format!("fn f(a: int, b: int) -> int {{ return a {} b; }}", op));
        let mixed = frontend_err(&format!("fn f(a: int, b: *int) -> int {{ return a {} b; }}", op));
        assert_eq!(mixed.kind, ErrorKind::TypeCheck);
        let pointers = frontend(&format!("fn f(a: *int, b: *int) -> int {{ return a {} b; }}", op));
        match pointers {
            Ok(_) => assert!(!matches!(op, "+" | "-" | "*" | "/")),
            Err(e) => {
                assert!(matches!(op, "+" | "-" | "*" | "/"));
                assert_eq!(e.kind, ErrorKind::TypeCheck);
            }
        }
    }
}
