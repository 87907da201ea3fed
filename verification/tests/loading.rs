//! Programs of several files.

use mplangc::ast::CompilationUnit;
use mplangc::hir::{HirExpr, HirItem, HirModule, HirStmt};
use mplangc::lexer::Lexer;
use mplangc::lowering::crates::{crate_step, CrateStep, Place};
use mplangc::lowering::loading::{fetch, file_name, requests, Fetch, Request};
use mplangc::lowering::source::{SourceTree, SourceUnit};
use mplangc::lowering::Lowerer;
use mplangc::parser::Parser;

fn parse(src: &str) -> CompilationUnit {
    let toks = Lexer::new(src.chars().collect()).lex().unwrap();
    Parser::new(toks).parse().unwrap()
}

fn leaf(src: &str) -> Option<SourceUnit> {
    Some(SourceUnit { unit: parse(src), children: SourceTree { units: Vec::new() } })
}

fn find_fn<'a>(m: &'a HirModule, want: &str) -> &'a HirItem {
    for it in &m.items {
        if let HirItem::Fn { name, .. } = it {
            if name == want {
                return it;
            }
        }
    }
    panic!("fn {} not found", want);
}

#[test]
fn module_loading_resolves_cross_file_names() {
    let ast = parse("mod helper; use helper::helper; fn main(){ let r:int = helper(1,2); }");
    let sources = SourceTree { units: vec![leaf("fn helper(a:int,b:int)->int { return a+b; }")] };
    let hir = Lowerer::new(Some(sources)).lower(&ast).unwrap();

    let helper_def = {
        let mut found = None;
        for it in &hir.root_module.items {
            if let HirItem::Module(m) = it {
                if m.name == "helper" {
                    if let Some(HirItem::Fn { def_id, .. }) = m.items.first() {
                        found = Some(*def_id);
                    }
                }
            }
        }
        found.expect("helper module should contain helper fn")
    };

    if let HirItem::Fn { body, .. } = find_fn(&hir.root_module, "main") {
        if let HirStmt::Let { init, .. } = &body.stmts[0] {
            if let HirExpr::Call { callee, .. } = init {
                assert_eq!(*callee, helper_def);
            } else {
                panic!("expected call");
            }
        } else {
            panic!("expected let");
        }
    } else {
        panic!("no main");
    }
}

/// A file that is asked for while it is loaded gives an empty module.
#[test]
fn cycle_gives_an_empty_module() {
    let ast = parse("mod a; fn main() {}");
    let a = SourceUnit { unit: parse("mod a; fn f() {}"), children: SourceTree { units: vec![None] } };
    let hir = Lowerer::new(Some(SourceTree { units: vec![Some(a)] })).lower(&ast).unwrap();
    let HirItem::Module(outer) = &hir.root_module.items[0] else { panic!("no module") };
    assert_eq!(outer.items.len(), 2);
    let HirItem::Module(inner) = &outer.items[0] else { panic!("no module") };
    assert!(inner.items.is_empty());
}

/// One file for each module, in the order of the declarations.
#[test]
fn files_asked_for() {
    let unit = parse(
        "mod a; fn f() {} extern crate std; #[path = \"lib/x.mp\"] extern crate x; mod b;",
    );
    assert_eq!(
        requests(&unit),
        vec![
            Request::Module("a".to_string()),
            Request::Crate("std".to_string(), None),
            Request::Crate("x".to_string(), Some("lib/x.mp".to_string())),
            Request::Module("b".to_string()),
        ]
    );
    assert_eq!(file_name("math"), "math.mp");
}

/// Files are read once, and not while they are loaded.
#[test]
fn files_are_read_once() {
    let list = |names: &[&str]| names.iter().map(|n| n.to_string()).collect::<Vec<String>>();
    let key = "b.mp".to_string();
    assert_eq!(fetch(&list(&[]), &list(&[]), &key), Fetch::Read);
    assert_eq!(fetch(&list(&["a.mp"]), &list(&["a.mp", "b.mp"]), &key), Fetch::Cached(1));
    assert_eq!(fetch(&list(&["a.mp", "b.mp"]), &list(&["b.mp"]), &key), Fetch::Cycle);
}

/// Where a crate is looked for: at its `path`, in the first `library` that has it,
/// or beside the input file.
#[test]
fn places_of_a_crate() {
    let given = Some("lib/x.mp".to_string());
    let place = || Place::Given("lib/x.mp".to_string());
    assert_eq!(crate_step(&given, 3, &vec![], None), CrateStep::AskDir(place()));
    for inside in [false, true] {
        let found = CrateStep::Found { place: place(), inside };
        assert_eq!(crate_step(&given, 3, &vec![], Some(inside)), found);
    }
    assert_eq!(crate_step(&None, 2, &vec![], None), CrateStep::AskExists(0));
    assert_eq!(crate_step(&None, 2, &vec![false], None), CrateStep::AskExists(1));
    let found = CrateStep::Found { place: Place::Library(1), inside: false };
    assert_eq!(crate_step(&None, 2, &vec![false, true], None), found);
    assert_eq!(crate_step(&None, 2, &vec![false, false], None), CrateStep::AskDir(Place::Beside));
    let found = CrateStep::Found { place: Place::Beside, inside: true };
    assert_eq!(crate_step(&None, 2, &vec![false, false], Some(true)), found);
}
