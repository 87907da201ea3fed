//! Instances of generic definitions.

use mplangc::error::MplangError;
use mplangc::hir::{ArrayLen, DefId, HirType};
use mplangc::lexer::Lexer;
use mplangc::lowering::Lowerer;
use mplangc::monomorphize::{monomorphize, monomorphize_within};
use mplangc::parser::Parser;
use mplangc::tycheck::TypeChecker;
use mplangc::tyhir::{TyHirCompilationUnit, TyHirExprKind, TyHirItem, TyHirStmt};

fn check(src: &str) -> TyHirCompilationUnit {
    let toks = Lexer::new(src.chars().collect()).lex().unwrap();
    let ast = Parser::new(toks).parse().unwrap();
    let hir = Lowerer::new(None).lower(&ast).unwrap();
    TypeChecker::new(&hir).check(&hir).unwrap()
}

fn expand(src: &str) -> Result<TyHirCompilationUnit, MplangError> {
    monomorphize_within(&check(src), 32)
}

fn names(unit: &TyHirCompilationUnit) -> Vec<String> {
    let mut out = Vec::new();
    for item in &unit.root_module.items {
        match item {
            TyHirItem::Fn { name, .. } | TyHirItem::Struct { name, .. } => out.push(name.clone()),
            _ => {}
        }
    }
    out
}

fn ids(unit: &TyHirCompilationUnit) -> Vec<DefId> {
    let mut out = Vec::new();
    for item in &unit.root_module.items {
        match item {
            TyHirItem::Fn { def_id, .. } | TyHirItem::Struct { def_id, .. } => out.push(*def_id),
            _ => {}
        }
    }
    out
}

/// A program without generic definitions stays as it is.
#[test]
fn plain_program_is_kept() {
    let src = "struct P { x:int } fn f(p:P) -> int { return p.x; } fn main() { let r:int = f(P { x:1 }); }";
    let unit = check(src);
    let out = monomorphize(&unit).unwrap();
    assert_eq!(out.root_module.items, unit.root_module.items);
}

/// A generic function is left out, and each use of it with other types gives an
/// instance of its own; a use with the same types gives the same instance.
#[test]
fn one_instance_for_each_list_of_types() {
    let out = expand(
        "fn id<T>(x:T) -> T { return x; }
         fn main() { let a:int = id(1); let b:int = id(2); let s:*char = id(\"s\"); }",
    )
    .unwrap();
    let all = names(&out);
    assert_eq!(all.len(), 3);
    assert_eq!(all[0], "main");
    assert!(all[1].starts_with("__mono_"));
    assert!(all[2].starts_with("__mono_"));
    assert_ne!(all[1], all[2]);
    let TyHirItem::Fn { body, .. } = &out.root_module.items[0] else { panic!("no main") };
    let mut callees = Vec::new();
    for stmt in &body.stmts {
        if let TyHirStmt::Let { init, .. } = stmt {
            if let TyHirExprKind::Call { callee, .. } = &init.kind {
                callees.push(*callee);
            }
        }
    }
    assert_eq!(callees.len(), 3);
    assert_eq!(callees[0], callees[1]);
    assert_ne!(callees[0], callees[2]);
    assert_eq!(ids(&out)[1..].to_vec(), vec![callees[0], callees[2]]);
}

/// The types of an instance are those of its use.
#[test]
fn instance_has_the_types_of_its_use() {
    let out = expand("fn id<T>(x:T) -> T { let y:T = x; return y; } fn main() { let a:int = id(1); }").unwrap();
    let TyHirItem::Fn { generics, params, return_ty, body, .. } = &out.root_module.items[1] else {
        panic!("no instance")
    };
    assert!(generics.is_empty());
    assert_eq!(params[0].ty, HirType::Int);
    assert_eq!(*return_ty, HirType::Int);
    let TyHirStmt::Let { ty, init, .. } = &body.stmts[0] else { panic!("no let") };
    assert_eq!(*ty, HirType::Int);
    assert_eq!(init.ty, HirType::Int);
}

/// A generic definition that nothing uses gives nothing.
#[test]
fn unused_generic_definition_gives_nothing() {
    let out = expand("struct B<T> { v:T } fn id<T>(x:T) -> T { return x; } fn main() {}").unwrap();
    assert_eq!(names(&out), vec!["main".to_string()]);
}

/// A generic struct becomes a struct for each list of arguments.
#[test]
fn struct_instances() {
    let unit = check(
        "struct B<T> { v:T }
         fn main() { let a:B<int> = B::<int> { v:1 }; let b:B<*char> = B::<*char> { v:\"x\" }; let c:int = a.v; }",
    );
    let TyHirItem::Struct { def_id, .. } = &unit.root_module.items[0] else { panic!("no struct") };
    let out = monomorphize(&unit).unwrap();
    let name = format!("__mono_s_{}", def_id.0);
    assert_eq!(names(&out), vec!["main".to_string(), name.clone(), name]);
    let mut types = Vec::new();
    for item in &out.root_module.items {
        if let TyHirItem::Struct { generics, fields, .. } = item {
            assert!(generics.is_empty());
            types.push(fields[0].ty.clone());
        }
    }
    assert_eq!(types, vec![HirType::Int, HirType::Pointer(Box::new(HirType::Char))]);
    let TyHirItem::Fn { body, .. } = &out.root_module.items[0] else { panic!("no main") };
    let TyHirStmt::Let { ty, .. } = &body.stmts[0] else { panic!("no let") };
    assert_eq!(*ty, HirType::Named(ids(&out)[1]));
}

/// A constant parameter becomes a number.
#[test]
fn constant_parameter_becomes_a_number() {
    let out = expand("fn n<const N: int>() -> int { return N; } fn main() { let a:int = n::<7>(); }").unwrap();
    let TyHirItem::Fn { params, body, .. } = &out.root_module.items[1] else { panic!("no instance") };
    assert!(params.is_empty());
    let TyHirStmt::Return(Some(e)) = &body.stmts[0] else { panic!("no return") };
    assert_eq!(e.kind, TyHirExprKind::Literal(mplangc::ast::Literal::Int(7)));
}

/// Explicit generic arguments inside a generic function stand for those of its
/// instance.
#[test]
fn explicit_arguments_in_a_generic_function() {
    let out = expand(
        "struct B<T> { v:T }
         fn id<T>(x:T) -> T { return x; }
         fn two<T>(x:T) -> T { return id::<T>(x); }
         fn main() { let a:int = two(1); let b:B<int> = id::<B<int>>(B::<int> { v:a }); }",
    )
    .unwrap();
    assert_eq!(names(&out).len(), 5);
    let mut results = Vec::new();
    for item in &out.root_module.items {
        if let TyHirItem::Fn { return_ty, .. } = item {
            results.push(return_ty.clone());
        }
    }
    assert_eq!(results.len(), 4);
    assert_eq!(results[1], HirType::Int);
    assert_eq!(results[2], HirType::Int);
    assert!(matches!(results[3], HirType::Named(_)));
}

/// Instances have numbers above those of all definitions, and no two the same.
#[test]
fn instances_have_new_numbers() {
    let unit = check(
        "fn id<T>(x:T) -> T { return x; } struct B<T> { v:T }
         fn main() { let a:int = id(1); let s:*char = id(\"s\"); let b:B<int> = B::<int> { v:1 }; }",
    );
    let out = monomorphize(&unit).unwrap();
    let all = ids(&out);
    let highest = ids(&unit).iter().map(|d| d.0).max().unwrap();
    assert_eq!(all.len(), 4);
    for i in 1..all.len() {
        assert!(all[i].0 > highest);
        for j in 1..i {
            assert_ne!(all[i], all[j]);
        }
    }
}

/// A generic function that calls itself with the same types has one instance,
/// which calls itself.
#[test]
fn self_call_gives_one_instance() {
    let unit = check("fn f<T>(x:T) -> T { return f(x); } fn main() -> int { return f(1); }");
    let out = monomorphize(&unit).unwrap();
    assert_eq!(out, monomorphize_within(&unit, 1).unwrap());
    assert_eq!(out.root_module.items.len(), 2);
    let TyHirItem::Fn { name, body, .. } = &out.root_module.items[0] else { panic!("no main") };
    assert_eq!(name, "main");
    let TyHirStmt::Return(Some(e)) = &body.stmts[0] else { panic!("no return") };
    let TyHirExprKind::Call { callee, .. } = &e.kind else { panic!("no call") };
    let TyHirItem::Fn { def_id, params, return_ty, body, .. } = &out.root_module.items[1] else {
        panic!("no instance")
    };
    assert_eq!(callee, def_id);
    assert_eq!(params[0].ty, HirType::Int);
    assert_eq!(*return_ty, HirType::Int);
    let TyHirStmt::Return(Some(e)) = &body.stmts[0] else { panic!("no return") };
    let TyHirExprKind::Call { callee, .. } = &e.kind else { panic!("no call") };
    assert_eq!(callee, def_id);
}

/// A generic function that uses itself with ever larger types has no end; the
/// limit stops it.
#[test]
fn endless_expansion_is_stopped() {
    let unit = check(
        "fn f<T>(x:T) -> int { let p:*T = &x; return f(p); } fn main() { let a:int = f(1); }",
    );
    for limit in [0, 1, 8] {
        let e = monomorphize_within(&unit, limit).unwrap_err();
        assert_eq!(e.to_string(), "[内部] 泛型实例化嵌套过深");
    }
}

fn is_concrete(t: &HirType) -> bool {
    match t {
        HirType::Var(_) | HirType::Generic(_, _, _) => false,
        HirType::Pointer(e) => is_concrete(e),
        HirType::Array(e, n) => matches!(n, ArrayLen::Known(_)) && is_concrete(e),
        HirType::Enum(_, ts, _) => ts.iter().all(is_concrete),
        _ => true,
    }
}

/// No type is left that is generic, at any depth: in parameters, results, fields,
/// globals and outside functions.
#[test]
fn every_type_is_concrete() {
    let out = expand(
        "struct Box<T> { v:T }
         struct Node<T> { v:T, next:*Node<T>, all:[Box<T>;2] }
         struct P { b:*Box<int>, n:Node<*Box<int>> }
         extern fn take(*Box<int>) -> *Node<int>;
         fn f(b:Box<int>, p:*Box<Box<int>>, a:[*Box<int>;3]) -> *Box<*char> { return g(p); }
         fn g(p:*Box<Box<int>>) -> *Box<*char> { return g(p); }
         fn main() { let n:*Node<int> = take(h::<int>()); }
         fn h<T>() -> *Box<T> { return h::<T>(); }",
    )
    .unwrap();
    let mut structs = 0;
    for item in &out.root_module.items {
        match item {
            TyHirItem::Fn { generics, params, return_ty, .. } => {
                assert!(generics.is_empty());
                assert!(params.iter().all(|p| is_concrete(&p.ty)));
                assert!(is_concrete(return_ty));
            }
            TyHirItem::Struct { generics, fields, name, .. } => {
                structs += 1;
                assert!(generics.is_empty());
                assert!(fields.iter().all(|f| is_concrete(&f.ty)), "{}", name);
            }
            TyHirItem::ExternFn { param_types, return_ty, .. } => {
                assert!(param_types.iter().all(is_concrete));
                assert!(is_concrete(return_ty));
            }
            _ => {}
        }
    }
    // `P`, and the instances of `Box` and `Node`: Box of int, of *Box<int>, of
    // Box<int> and of *char, Node of int and of *Box<int>.
    assert_eq!(structs, 7);
    let TyHirItem::Fn { params, .. } =
        out.root_module.items.iter().find(|i| matches!(i, TyHirItem::Fn { name, .. } if name == "f")).unwrap()
    else {
        panic!("no f")
    };
    assert!(matches!(params[0].ty, HirType::Named(_)));
    assert_eq!(out, {
        let again = monomorphize(&out).unwrap();
        again
    });
}

/// A struct that is only pointed to comes behind one that it contains, also where
/// the two need each other.
#[test]
fn contained_structs_come_first() {
    let out = expand(
        "struct Node<T> { owner:*List<T>, v:T }
         struct List<T> { root:Node<T> }
         fn main() { let n:*Node<int> = null(); } fn null() -> *Node<int> { return null(); }",
    )
    .unwrap();
    let mut fields_of = Vec::new();
    for item in &out.root_module.items {
        if let TyHirItem::Struct { def_id, fields, .. } = item {
            fields_of.push((*def_id, fields.clone()));
        }
    }
    assert_eq!(fields_of.len(), 2);
    assert_eq!(fields_of[0].1[0].ty, HirType::Pointer(Box::new(HirType::Named(fields_of[1].0))));
    assert_eq!(fields_of[1].1[0].ty, HirType::Named(fields_of[0].0));
}

/// A larger limit changes nothing where a smaller one is enough.
#[test]
fn larger_limit_gives_the_same() {
    let unit = check("fn g<T>(x:T) -> T { return x; } fn f<T>(x:T) -> T { return g(x); } fn main() { let a:int = f(1); }");
    assert!(monomorphize_within(&unit, 1).is_err());
    let small = monomorphize_within(&unit, 2).unwrap();
    assert_eq!(small, monomorphize_within(&unit, 3).unwrap());
    assert_eq!(small, monomorphize_within(&unit, 100).unwrap());
}

/// An instance gets its number behind those of the instances that its statements
/// ask for.
#[test]
fn inner_instances_are_numbered_first() {
    let out = expand(
        "fn f<T>(x:T) -> T { return g(x); } fn g<T>(x:T) -> T { return x; } fn main() -> int { return f(1); }",
    )
    .unwrap();
    assert_eq!(out.root_module.items.len(), 3);
    let TyHirItem::Fn { def_id: inner, .. } = &out.root_module.items[1] else { panic!("no g") };
    let TyHirItem::Fn { def_id: outer, .. } = &out.root_module.items[2] else { panic!("no f") };
    assert_eq!(outer.0, inner.0 + 1);
}
