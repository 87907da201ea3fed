//! The parser.

use mplangc::ast::{
    attr_string_value, ArrayLen, BinOp, CompilationUnit, Expr, Path, Stmt, TopLevelDecl, Type,
    TypeOrConst,
};
use mplangc::error::{ErrorKind, MplangError};
use mplangc::lexer::Lexer;
use mplangc::parser::{unescape_string, Parser};

fn parse(src: &str) -> CompilationUnit {
    let toks = Lexer::new(src.chars().collect()).lex().unwrap();
    Parser::new(toks).parse().unwrap()
}

fn parse_err(src: &str) -> MplangError {
    let toks = Lexer::new(src.chars().collect()).lex().unwrap();
    Parser::new(toks).parse().unwrap_err()
}

#[test]
fn parse_empty_function() {
    let u = parse("fn main() {}");
    assert_eq!(u.declarations.len(), 1);
    if let TopLevelDecl::FnDef {
        name,
        params,
        return_ty,
        body,
        ..
    } = &u.declarations[0]
    {
        assert_eq!(name, "main");
        assert!(params.is_empty());
        assert_eq!(return_ty, &Type::Unit);
        assert!(body.is_empty());
    } else {
        panic!("expected FnDef");
    }
}

#[test]
fn parse_let_with_binary_expr() {
    let u = parse("fn main() { let x:int = 1 + 2; }");
    if let TopLevelDecl::FnDef { body, .. } = &u.declarations[0] {
        if let Stmt::Let { ty, init, .. } = &body[0] {
            assert_eq!(ty, &Some(Type::Int));
            assert!(matches!(init, Expr::Binary { op: BinOp::Add, .. }));
        } else {
            panic!("expected let");
        }
    } else {
        panic!("expected fndef");
    }
}

#[test]
fn parse_struct_declaration() {
    let u = parse("struct Point { x:int, y:int }");
    if let TopLevelDecl::StructDef { name, fields, .. } = &u.declarations[0] {
        assert_eq!(name, "Point");
        assert_eq!(
            fields,
            &vec![("x".to_string(), Type::Int), ("y".to_string(), Type::Int)]
        );
    } else {
        panic!("expected struct");
    }
}

#[test]
fn parse_use_path_with_coloncolon() {
    let u = parse("use add::add;");
    if let TopLevelDecl::UseDecl { path, .. } = &u.declarations[0] {
        assert_eq!(path.segments, vec!["add".to_string(), "add".to_string()]);
    } else {
        panic!("expected use");
    }
}

#[test]
fn parse_extern_variadic() {
    let u = parse("extern fn printf(fmt:*char, ...);");
    if let TopLevelDecl::ExternFnDef {
        attributes,
        name,
        is_variadic,
        param_types,
        ..
    } = &u.declarations[0]
    {
        assert_eq!(name, "printf");
        assert!(is_variadic);
        assert_eq!(param_types, &vec![Type::Pointer(Box::new(Type::Char))]);
        assert_eq!(attr_string_value(attributes, "link_name"), None);
    } else {
        panic!("expected extern fn");
    }
}
#[test]
fn parse_extern_link_name_attribute() {
    let u = parse("#[link_name = \"C\"] extern fn printf(fmt:*char, ...);");
    if let TopLevelDecl::ExternFnDef {
        attributes,
        name,
        is_variadic,
        ..
    } = &u.declarations[0]
    {
        assert_eq!(name, "printf");
        assert!(is_variadic);
        assert_eq!(
            attr_string_value(attributes, "link_name"),
            Some("C")
        );
    } else {
        panic!("expected extern fn");
    }
}
#[test]
fn parse_bare_attribute() {
    let u = parse("#[no_mangle] fn f() {}");
    if let TopLevelDecl::FnDef { attributes, .. } = &u.declarations[0] {
        assert_eq!(attributes.len(), 1);
        assert_eq!(attributes[0].simple_name(), Some("no_mangle"));
    } else {
        panic!("expected fn");
    }
}
#[test]
fn parse_multiple_attributes() {
    let u = parse("#[no_mangle] #[link_name = \"real\"] extern fn g() -> int;");
    if let TopLevelDecl::ExternFnDef {
        attributes, name, ..
    } = &u.declarations[0]
    {
        assert_eq!(name, "g");
        assert_eq!(attributes.len(), 2);
        assert_eq!(attributes[0].simple_name(), Some("no_mangle"));
        assert_eq!(
            attr_string_value(attributes, "link_name"),
            Some("real")
        );
    } else {
        panic!("expected extern fn");
    }
}

#[test]
fn syntax_error_reports_parse_kind() {
    let e = parse_err("fn main() { let x:int = ; }");
    assert_eq!(e.kind, ErrorKind::Parse);
}
#[test]
fn parse_extern_crate() {
    let u = parse("extern crate foo;");
    if let TopLevelDecl::ExternCrate {
        name, attributes, ..
    } = &u.declarations[0]
    {
        assert_eq!(name, "foo");
        assert!(attributes.is_empty());
    } else {
        panic!("expected extern crate");
    }
}
#[test]
fn parse_extern_crate_with_path() {
    let u = parse("#[path = \"lib/foo.mp\"] extern crate foo;");
    if let TopLevelDecl::ExternCrate {
        name, attributes, ..
    } = &u.declarations[0]
    {
        assert_eq!(name, "foo");
        assert_eq!(
            attr_string_value(attributes, "path"),
            Some("lib/foo.mp")
        );
    } else {
        panic!("expected extern crate");
    }
}
#[test]
fn parse_pointer_type() {
    let u = parse("fn f(p:*int) {}");
    if let TopLevelDecl::FnDef { params, .. } = &u.declarations[0] {
        assert_eq!(params.len(), 1);
        assert_eq!(params[0].name, "p");
        assert_eq!(params[0].ty, Type::Pointer(Box::new(Type::Int)));
    } else {
        panic!("expected FnDef");
    }
}
#[test]
fn parse_char_ptr_is_char_ptr() {
    let u = parse("fn f(s:*char) {}");
    if let TopLevelDecl::FnDef { params, .. } = &u.declarations[0] {
        assert_eq!(params[0].ty, Type::Pointer(Box::new(Type::Char)));
    } else {
        panic!("expected FnDef");
    }
}
#[test]
fn parse_address_of() {
    let u = parse("fn main() { let p:*int = &x; }");
    if let TopLevelDecl::FnDef { body, .. } = &u.declarations[0] {
        if let Stmt::Let { init, .. } = &body[0] {
            assert!(matches!(init, Expr::AddrOf(_)));
        } else {
            panic!("expected let");
        }
    } else {
        panic!("expected FnDef");
    }
}
#[test]
fn parse_deref() {
    let u = parse("fn main() { let y:int = *p; }");
    if let TopLevelDecl::FnDef { body, .. } = &u.declarations[0] {
        if let Stmt::Let { init, .. } = &body[0] {
            assert!(matches!(init, Expr::Deref(_)));
        } else {
            panic!("expected let");
        }
    } else {
        panic!("expected FnDef");
    }
}
#[test]
fn parse_assign_through_deref() {
    let u = parse("fn main() { *p = 2; }");
    if let TopLevelDecl::FnDef { body, .. } = &u.declarations[0] {
        if let Stmt::Assign { target, .. } = &body[0] {
            assert!(matches!(&**target, Expr::Deref(_)));
        } else {
            panic!("expected assign");
        }
    } else {
        panic!("expected FnDef");
    }
}
#[test]
fn parse_assign_to_struct_field() {
    let u = parse("fn main() { s.x = 3; }");
    if let TopLevelDecl::FnDef { body, .. } = &u.declarations[0] {
        if let Stmt::Assign { target, .. } = &body[0] {
            assert!(matches!(&**target, Expr::FieldAccess { .. }));
        } else {
            panic!("expected assign");
        }
    } else {
        panic!("expected FnDef");
    }
}

#[test]
fn unescape_handles_escapes() {
    assert_eq!(unescape_string("a\\nb\\t").unwrap(), "a\nb\t");
    assert!(unescape_string("bad\\x").is_err());
}
#[test]
fn parse_array_type() {
    let u = parse("fn f(a: [int; 4]) {}");
    if let TopLevelDecl::FnDef { params, .. } = &u.declarations[0] {
        assert_eq!(
            params[0].ty,
            Type::Array(Box::new(Type::Int), ArrayLen::Known(4))
        );
    } else {
        panic!("expected FnDef");
    }
}
#[test]
fn parse_nested_array_type() {
    let u = parse("fn f(a: [[int; 2]; 3]) {}");
    if let TopLevelDecl::FnDef { params, .. } = &u.declarations[0] {
        assert_eq!(
            params[0].ty,
            Type::Array(
                Box::new(Type::Array(
                    Box::new(Type::Int),
                    ArrayLen::Known(2)
                )),
                ArrayLen::Known(3)
            )
        );
    } else {
        panic!("expected FnDef");
    }
}
#[test]
fn parse_array_literal_list() {
    let u = parse("fn main() { let a: [int; 3] = [1, 2, 3]; }");
    if let TopLevelDecl::FnDef { body, .. } = &u.declarations[0] {
        if let Stmt::Let { init, .. } = &body[0] {
            assert!(matches!(
                init,
                Expr::ArrayLiteral { elements, repeat }
                    if elements.len() == 3 && repeat.is_none()
            ));
        } else {
            panic!("expected let");
        }
    } else {
        panic!("expected FnDef");
    }
}
#[test]
fn parse_array_literal_repeat() {
    let u = parse("fn main() { let a: [int; 5] = [1; 5]; }");
    if let TopLevelDecl::FnDef { body, .. } = &u.declarations[0] {
        if let Stmt::Let { init, .. } = &body[0] {
            assert!(matches!(
                init,
                Expr::ArrayLiteral { elements, repeat }
                    if elements.len() == 1 && repeat.is_some()
            ));
        } else {
            panic!("expected let");
        }
    } else {
        panic!("expected FnDef");
    }
}
#[test]
fn parse_index_access() {
    let u = parse("fn main() { let x: int = a[1]; }");
    if let TopLevelDecl::FnDef { body, .. } = &u.declarations[0] {
        if let Stmt::Let { init, .. } = &body[0] {
            assert!(matches!(init, Expr::Index { .. }));
        } else {
            panic!("expected let");
        }
    } else {
        panic!("expected FnDef");
    }
}
#[test]
fn parse_assign_to_index() {
    let u = parse("fn main() { a[1] = 2; }");
    if let TopLevelDecl::FnDef { body, .. } = &u.declarations[0] {
        if let Stmt::Assign { target, .. } = &body[0] {
            assert!(matches!(&**target, Expr::Index { .. }));
        } else {
            panic!("expected assign");
        }
    } else {
        panic!("expected FnDef");
    }
}
#[test]
fn parse_impl_block() {
    let u = parse("struct Point { x:int } impl Point { fn sum() -> int { return 1; } }");
    let impl_decl = u
        .declarations
        .iter()
        .find(|d| matches!(d, TopLevelDecl::Impl { .. }))
        .expect("expected Impl decl");
    if let TopLevelDecl::Impl {
        ty,
        trrait,
        methods,
        ..
    } = impl_decl
    {
        assert_eq!(ty, &Type::Named(Path::simple("Point")));
        assert!(trrait.is_none());
        assert_eq!(methods.len(), 1);
        assert_eq!(methods[0].name, "sum");
        assert!(methods[0].params.is_empty());
    } else {
        panic!("expected Impl");
    }
}
#[test]
fn parse_trait_block() {
    let u = parse("trait Show { fn show() -> int; fn pretty() -> int { return 1; } }");
    let tr = u
        .declarations
        .iter()
        .find(|d| matches!(d, TopLevelDecl::Trait { .. }))
        .expect("expected Trait decl");
    if let TopLevelDecl::Trait { name, methods, .. } = tr {
        assert_eq!(name, "Show");
        assert_eq!(methods.len(), 2);
        assert!(methods[0].default_body.is_none());
        assert_eq!(methods[0].name, "show");
        assert!(methods[1].default_body.is_some());
        assert_eq!(methods[1].name, "pretty");
    } else {
        panic!("expected Trait");
    }
}
#[test]
fn parse_impl_for_trait() {
    let u = parse(
        "struct Point { x:int } trait Show { fn show() -> int; } impl Show for Point { fn show() -> int { return 1; } }",
    );
    let impl_decl = u
        .declarations
        .iter()
        .find(|d| {
            matches!(
                d,
                TopLevelDecl::Impl {
                    trrait: Some(_),
                    ..
                }
            )
        })
        .expect("expected Impl-for decl");
    if let TopLevelDecl::Impl { trrait, ty, .. } = impl_decl {
        assert_eq!(trrait.as_ref().unwrap(), &Path::simple("Show"));
        assert_eq!(ty, &Type::Named(Path::simple("Point")));
    } else {
        panic!("expected Impl-for");
    }
}
#[test]
fn parse_method_call_vs_field_access() {
    let u = parse("fn main() { let v:int = p.sum(1, 2); let f:int = p.x; }");
    if let TopLevelDecl::FnDef { body, .. } = &u.declarations[0] {
        if let Stmt::Let { init, .. } = &body[0] {
            assert!(matches!(
                init,
                Expr::MethodCall {
                    name,
                    args,
                    ..
                } if name == "sum" && args.len() == 2
            ));
        } else {
            panic!("expected let v");
        }
        if let Stmt::Let { init, .. } = &body[1] {
            assert!(matches!(init, Expr::FieldAccess { field, .. } if field == "x"));
        } else {
            panic!("expected let f");
        }
    } else {
        panic!("expected FnDef");
    }
}

/// Generic arguments stand between `::<` and `>`, before the arguments of a
/// call or the fields of a struct literal, and nowhere else.
#[test]
fn generic_arguments_of_an_expression() {
    let u = parse("fn main() { m::f::<int, 3>(1); S::<*char> { v:2 }; }");
    let TopLevelDecl::FnDef { body, .. } = &u.declarations[0] else { panic!("no function") };
    let Stmt::Expr(Expr::Call { callee, args, turbofish }) = &body[0] else {
        panic!("no call")
    };
    assert_eq!(callee.segments, vec!["m".to_string(), "f".to_string()]);
    assert_eq!(args.len(), 1);
    assert_eq!(*turbofish, vec![TypeOrConst::Type(Type::Int), TypeOrConst::Const(3)]);
    let Stmt::Expr(Expr::StructLiteral { name, fields, turbofish }) = &body[1] else {
        panic!("no struct literal")
    };
    assert_eq!(name.segments, vec!["S".to_string()]);
    assert_eq!(fields.len(), 1);
    assert_eq!(*turbofish, vec![TypeOrConst::Type(Type::Pointer(Box::new(Type::Char)))]);
    assert_eq!(
        parse_err("fn main() { f::<int>; }").message,
        "涡轮鱼 `::<...>` 只能用于函数调用或结构体字面量之前"
    );
}

#[test]
fn hex_escapes() {
    assert_eq!(unescape_string("\\x41\\x7a").unwrap(), "Az");
    assert_eq!(unescape_string("\\x411").unwrap(), "A1");
    assert_eq!(unescape_string("\\xfF").unwrap(), "\u{ff}");
    assert_eq!(unescape_string("\\xA").unwrap(), "\n");
    assert_eq!(unescape_string("\\x+9").unwrap(), "\t");
    assert_eq!(unescape_string("\\x+41").unwrap(), "\u{4}1");
    assert_eq!(unescape_string("\\x4g").unwrap_err(), "invalid hex escape: \\x4g");
    assert!(unescape_string("\\x").is_err());
    assert!(unescape_string("\\x+").is_err());
    assert!(unescape_string("\\x-1").is_err());
    assert!(unescape_string("\\x++").is_err());
}

/// Tokens of two programs, one behind the other, give the declarations of both.
#[test]
fn joined_programs() {
    let a = "struct P { x:int } fn f() { g(1); if (x) { y = 2; } }";
    let b = "use m::n; static s:int = 3; fn g(a:int) -> int { return a; }";
    let lex = |src: &str| Lexer::new(src.chars().collect()).lex().unwrap();
    let mut tokens = lex(a);
    tokens.pop();
    tokens.extend(lex(b));
    let all = Parser::new(tokens).parse().unwrap().declarations;
    let mut parts = parse(a).declarations;
    parts.extend(parse(b).declarations);
    assert_eq!(all.len(), 5);
    assert_eq!(format!("{:?}", all), format!("{:?}", parts));
}
