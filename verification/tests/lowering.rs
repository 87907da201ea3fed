//! Name resolution.

use mplangc::ast::CompilationUnit;
use mplangc::error::ErrorKind;
use mplangc::hir::{HirCompilationUnit, HirExpr, HirItem, HirModule, HirStmt, HirType};
use mplangc::lexer::Lexer;
use mplangc::lowering::Lowerer;
use mplangc::parser::Parser;

fn parse(src: &str) -> CompilationUnit {
    let toks = Lexer::new(src.chars().collect()).lex().unwrap();
    Parser::new(toks).parse().unwrap()
}

fn lower(src: &str) -> HirCompilationUnit {
    Lowerer::new(None).lower(&parse(src)).unwrap()
}

fn find_fn<'a>(m: &'a HirModule, name: &str) -> &'a HirItem {
    for it in &m.items {
        if let HirItem::Fn { name: n, .. } = it {
            if n == name {
                return it;
            }
        }
    }
    panic!("fn {} not found", name);
}

#[test]
fn call_resolves_to_callee_defid() {
    let hir = lower(
        "fn helper(a:int,b:int)->int { return a+b; } \
         fn main(){ let r:int = helper(1,2); }",
    );
    let helper_id = if let HirItem::Fn { def_id, .. } = find_fn(&hir.root_module, "helper") {
        *def_id
    } else {
        panic!("no helper");
    };
    if let HirItem::Fn { body, .. } = find_fn(&hir.root_module, "main") {
        if let HirStmt::Let { init, .. } = &body.stmts[0] {
            if let HirExpr::Call { callee, .. } = init {
                assert_eq!(*callee, helper_id);
            } else {
                panic!("expected call");
            }
        } else {
            panic!("expected let");
        }
    } else {
        panic!("no main");
    }
}

#[test]
fn field_access_keeps_name_string() {
    let hir = lower(
        "struct Point { x:int } fn main(){ let p:Point = Point { x:1 }; let v:int = p.x; }",
    );
    if let HirItem::Fn { body, .. } = find_fn(&hir.root_module, "main") {
        if let HirStmt::Let { init, .. } = &body.stmts[1] {
            if let HirExpr::FieldAccess { field, .. } = init {
                assert_eq!(field, "x");
            } else {
                panic!("expected field access");
            }
        } else {
            panic!("expected let v");
        }
    } else {
        panic!("no main");
    }
}

#[test]
fn struct_literal_keeps_field_names() {
    let hir =
        lower("struct Point { x:int, y:int } fn main(){ let p:Point = Point { x:1, y:2 }; }");
    if let HirItem::Fn { body, .. } = find_fn(&hir.root_module, "main") {
        if let HirStmt::Let { init, .. } = &body.stmts[0] {
            if let HirExpr::StructLiteral { fields, .. } = init {
                assert_eq!(fields.len(), 2);
                assert_eq!(fields[0].0, "x");
                assert_eq!(fields[1].0, "y");
            } else {
                panic!("expected struct literal");
            }
        } else {
            panic!("expected let");
        }
    } else {
        panic!("no main");
    }
}

#[test]
fn undefined_name_errors_with_lowering_kind() {
    let e = Lowerer::new(None)
        .lower(&parse("fn main(){ let r:int = nope(1); }"))
        .unwrap_err();
    assert_eq!(e.kind, ErrorKind::Lowering);
}

#[test]
fn static_inside_function_is_lowering_error() {
    let e = Lowerer::new(None)
        .lower(&parse("fn main(){ static x:int = 1; }"))
        .unwrap_err();
    assert_eq!(e.kind, ErrorKind::Lowering);
}

#[test]
fn impl_method_gets_implicit_self_param() {
    let hir = lower("struct Point { x:int } impl Point { fn sum() -> int { return self.x; } }");
    if let HirItem::Fn {
        params,
        impl_receiver,
        ..
    } = find_fn(&hir.root_module, "sum")
    {
        assert!(impl_receiver.is_some());
        assert_eq!(params.len(), 1);
        assert_eq!(params[0].name, "self");
        assert_eq!(impl_receiver, &Some(params[0].ty.clone()));
    } else {
        panic!("no sum");
    }
}

#[test]
fn method_call_survives_lowering_as_method_call() {
    let hir = lower(
        "struct Point { x:int } impl Point { fn sum() -> int { return self.x; } } \
         fn main() { let p:Point = Point { x:1 }; let s:int = p.sum(); }",
    );
    if let HirItem::Fn { body, .. } = find_fn(&hir.root_module, "main") {
        if let HirStmt::Let { init, .. } = &body.stmts[1] {
            assert!(matches!(init, HirExpr::MethodCall { name, .. } if name == "sum"));
        } else {
            panic!("expected let s");
        }
    } else {
        panic!("no main");
    }
}

#[test]
fn trait_default_method_is_synthesized() {
    let hir = lower(
        "trait Show { fn show() -> int; fn pretty() -> int { return self.show() + 1; } } \
         struct Point { x:int } \
         impl Show for Point { fn show() -> int { return self.x; } }",
    );
    let mut found_pretty = false;
    for it in &hir.root_module.items {
        if let HirItem::Fn {
            name,
            impl_receiver,
            ..
        } = it
        {
            if name == "pretty" && matches!(impl_receiver, Some(HirType::Named(_))) {
                found_pretty = true;
            }
        }
    }
    assert!(found_pretty, "默认方法 `pretty` 应被合成为 Point 的方法");
}

#[test]
fn trait_missing_required_method_is_lowering_error() {
    let e = Lowerer::new(None)
        .lower(&parse(
            "trait Show { fn show() -> int; } struct Point { x:int } \
             impl Show for Point { }",
        ))
        .unwrap_err();
    assert_eq!(e.kind, ErrorKind::Lowering);
}
