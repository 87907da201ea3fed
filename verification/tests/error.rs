//! Errors and how they are shown.

use mplangc::error::{ErrorKind, MplangError};
use std::io;

#[test]
fn display_includes_kind_and_span() {
    let e = MplangError::type_error("类型不匹配").with_span(3, 7);
    assert_eq!(e.to_string(), "[类型] 类型不匹配（第 3 行，第 7 列）");
    assert_eq!(e.kind, ErrorKind::TypeCheck);
    assert!(e.span.is_some());
}

#[test]
fn display_without_span() {
    let e = MplangError::parse("缺分号");
    assert_eq!(e.to_string(), "[语法] 缺分号");
}

#[test]
fn from_io_error() {
    let io_err = io::Error::new(io::ErrorKind::NotFound, "no such file");
    let e: MplangError = io_err.into();
    assert_eq!(e.kind, ErrorKind::Io);
}

#[test]
fn from_str_error() {
    let e: MplangError = "boom".into();
    assert_eq!(e.kind, ErrorKind::Other);
    assert_eq!(e.message, "boom");
}


/// Every kind of error has a label of its own.
#[test]
fn labels_of_errors() {
    let all = [
        (MplangError::io("m"), ErrorKind::Io, "[IO] m"),
        (MplangError::lex("m"), ErrorKind::Lex, "[词法] m"),
        (MplangError::parse("m"), ErrorKind::Parse, "[语法] m"),
        (MplangError::lowering("m"), ErrorKind::Lowering, "[名字解析] m"),
        (MplangError::type_error("m"), ErrorKind::TypeCheck, "[类型] m"),
        (MplangError::codegen("m"), ErrorKind::CodeGen, "[代码生成] m"),
        (MplangError::link("m"), ErrorKind::Link, "[链接] m"),
        (MplangError::other("m"), ErrorKind::Other, "[内部] m"),
    ];
    for (e, kind, text) in all {
        assert_eq!(e.kind, kind);
        assert_eq!(e.to_string(), text);
        assert!(e.span.is_none());
    }
}

/// The text of an input error is kept.
#[test]
fn io_error_keeps_its_text() {
    let e: MplangError = io::Error::new(io::ErrorKind::NotFound, "no such file").into();
    assert_eq!(e.message, "no such file");
    let e: MplangError = "boom".to_string().into();
    assert_eq!(e.message, "boom");
}
