//! The error type that every stage of the compiler reports.

use crate::text::{cat3, cat4, cat7, decimal, usize_string};
use vstd::prelude::*;
use vstd::string::*;

verus! {

/// The stage that an error belongs to. It decides the label of the printed
/// message and nothing else.
#[derive(Debug, Clone, Copy, PartialEq, Eq, Structural)]
pub enum ErrorKind {
    Io,
    Lex,
    Parse,
    Lowering,
    TypeCheck,
    CodeGen,
    Link,
    Other,
}

/// The place of an error in its source file.
#[derive(Debug)]
pub struct SourceSpan {
    pub line: usize,
    pub col: usize,
    /// The offending source text, where it is known.
    pub snippet: Option<String>,
}

/// Model of [`SourceSpan`].
#[verifier::ext_equal]
pub struct SourceSpanV {
    pub line: usize,
    pub col: usize,
    pub snippet: Option<Seq<char>>,
}

impl DeepView for SourceSpan {
    type V = SourceSpanV;

    open spec fn deep_view(&self) -> SourceSpanV {
        SourceSpanV { line: self.line, col: self.col, snippet: self.snippet.deep_view() }
    }
}

impl Clone for SourceSpan {
    fn clone(&self) -> (r: Self)
        ensures
            r.deep_view() == self.deep_view(),
    {
        SourceSpan { line: self.line, col: self.col, snippet: self.snippet.clone() }
    }
}

/// A compiler error.
#[derive(Debug)]
pub struct MplangError {
    pub kind: ErrorKind,
    pub message: String,
    pub span: Option<SourceSpan>,
}

/// Model of [`MplangError`].
#[verifier::ext_equal]
pub struct MplangErrorV {
    pub kind: ErrorKind,
    pub message: Seq<char>,
    pub span: Option<SourceSpanV>,
}

impl DeepView for MplangError {
    type V = MplangErrorV;

    open spec fn deep_view(&self) -> MplangErrorV {
        MplangErrorV {
            kind: self.kind,
            message: self.message@,
            span: self.span.deep_view(),
        }
    }
}

impl Clone for MplangError {
    fn clone(&self) -> (r: Self)
        ensures
            r.deep_view() == self.deep_view(),
    {
        MplangError {
            kind: self.kind,
            message: self.message.clone(),
            span: match &self.span {
                Some(s) => Some(s.clone()),
                None => None,
            },
        }
    }
}

/// The outcome of a stage.
pub type Result<T> = std::result::Result<T, MplangError>;

/// An error without a position.
pub open spec fn error_of(kind: ErrorKind, message: Seq<char>) -> MplangErrorV {
    MplangErrorV { kind, message, span: None }
}

/// An error at a position.
pub open spec fn error_at(
    kind: ErrorKind,
    message: Seq<char>,
    line: usize,
    col: usize,
) -> MplangErrorV {
    MplangErrorV { kind, message, span: Some(SourceSpanV { line, col, snippet: None }) }
}

impl MplangError {
    /// An error without a position.
    pub fn new(kind: ErrorKind, message: &str) -> (r: Self)
        ensures
            r.deep_view() == error_of(kind, message@),
    {
        MplangError { kind, message: String::from_str(message), span: None }
    }

    /// The same error, placed at `line` and `col`.
    pub fn with_span(self, line: usize, col: usize) -> (r: Self)
        ensures
            r.deep_view() == error_at(self.kind, self.message@, line, col),
    {
        MplangError {
            kind: self.kind,
            message: self.message,
            span: Some(SourceSpan { line, col, snippet: None }),
        }
    }

    /// An input or output error.
    pub fn io(message: &str) -> (r: Self)
        ensures
            r.deep_view() == error_of(ErrorKind::Io, message@),
    {
        Self::new(ErrorKind::Io, message)
    }

    /// A lexical error.
    pub fn lex(message: &str) -> (r: Self)
        ensures
            r.deep_view() == error_of(ErrorKind::Lex, message@),
    {
        Self::new(ErrorKind::Lex, message)
    }

    /// A syntax error.
    pub fn parse(message: &str) -> (r: Self)
        ensures
            r.deep_view() == error_of(ErrorKind::Parse, message@),
    {
        Self::new(ErrorKind::Parse, message)
    }

    /// A name resolution error.
    pub fn lowering(message: &str) -> (r: Self)
        ensures
            r.deep_view() == error_of(ErrorKind::Lowering, message@),
    {
        Self::new(ErrorKind::Lowering, message)
    }

    /// A type error.
    pub fn type_error(message: &str) -> (r: Self)
        ensures
            r.deep_view() == error_of(ErrorKind::TypeCheck, message@),
    {
        Self::new(ErrorKind::TypeCheck, message)
    }

    /// A code generation error.
    pub fn codegen(message: &str) -> (r: Self)
        ensures
            r.deep_view() == error_of(ErrorKind::CodeGen, message@),
    {
        Self::new(ErrorKind::CodeGen, message)
    }

    /// A linker error.
    pub fn link(message: &str) -> (r: Self)
        ensures
            r.deep_view() == error_of(ErrorKind::Link, message@),
    {
        Self::new(ErrorKind::Link, message)
    }

    /// An internal error.
    pub fn other(message: &str) -> (r: Self)
        ensures
            r.deep_view() == error_of(ErrorKind::Other, message@),
    {
        Self::new(ErrorKind::Other, message)
    }

    /// The error as it is shown to the user: the label of its kind, the
    /// message, and the position where there is one.
    pub fn to_string(&self) -> (r: String)
        ensures
            r@ == shown(self.deep_view()),
    {
        let label = kind_label(self.kind);
        match &self.span {
            Some(span) => {
                let line = usize_string(span.line);
                let col = usize_string(span.col);
                let head = cat3("[", label, "] ");
                let text = cat7(
                    head.as_str(),
                    self.message.as_str(),
                    "（第 ",
                    line.as_str(),
                    " 行，第 ",
                    col.as_str(),
                    " 列）",
                );
                text
            },
            None => cat4("[", label, "] ", self.message.as_str()),
        }
    }
}

/// The label of an error kind.
pub open spec fn kind_text(kind: ErrorKind) -> Seq<char> {
    match kind {
        ErrorKind::Io => "IO"@,
        ErrorKind::Lex => "词法"@,
        ErrorKind::Parse => "语法"@,
        ErrorKind::Lowering => "名字解析"@,
        ErrorKind::TypeCheck => "类型"@,
        ErrorKind::CodeGen => "代码生成"@,
        ErrorKind::Link => "链接"@,
        ErrorKind::Other => "内部"@,
    }
}

/// `[label] message`, followed by the position where there is one.
pub open spec fn shown(e: MplangErrorV) -> Seq<char> {
    match e.span {
        Some(span) => "["@ + kind_text(e.kind) + "] "@ + e.message + "（第 "@ + decimal(
            span.line as nat,
        )
            + " 行，第 "@ + decimal(span.col as nat) + " 列）"@,
        None => "["@ + kind_text(e.kind) + "] "@ + e.message,
    }
}

fn kind_label(kind: ErrorKind) -> (r: &'static str)
    ensures
        r@ == kind_text(kind),
{
    match kind {
        ErrorKind::Io => "IO",
        ErrorKind::Lex => "词法",
        ErrorKind::Parse => "语法",
        ErrorKind::Lowering => "名字解析",
        ErrorKind::TypeCheck => "类型",
        ErrorKind::CodeGen => "代码生成",
        ErrorKind::Link => "链接",
        ErrorKind::Other => "内部",
    }
}

/// `std::io::Error`, an opaque value.
#[verifier::external_type_specification]
#[verifier::external_body]
pub struct ExIoError(std::io::Error);

/// The text of an input or output error, as `std::io::Error` displays it. What
/// the text is depends on the operating system, so nothing is claimed of it.
#[verifier::external_body]
fn io_error_text(e: &std::io::Error) -> (r: String) {
    e.to_string()
}

impl From<std::io::Error> for MplangError {
    fn from(e: std::io::Error) -> (r: Self)
        ensures
            r.kind == ErrorKind::Io,
            r.span is None,
    {
        let text = io_error_text(&e);
        MplangError::io(text.as_str())
    }
}

impl vstd::std_specs::convert::FromSpecImpl<std::io::Error> for MplangError {
    open spec fn obeys_from_spec() -> bool {
        false
    }

    open spec fn from_spec(v: std::io::Error) -> Self {
        arbitrary()
    }
}

impl From<String> for MplangError {
    fn from(s: String) -> (r: Self)
        ensures
            r.deep_view() == error_of(ErrorKind::Other, s@),
    {
        MplangError::other(s.as_str())
    }
}

impl vstd::std_specs::convert::FromSpecImpl<String> for MplangError {
    open spec fn obeys_from_spec() -> bool {
        false
    }

    open spec fn from_spec(v: String) -> Self {
        arbitrary()
    }
}

impl From<&str> for MplangError {
    fn from(s: &str) -> (r: Self)
        ensures
            r.deep_view() == error_of(ErrorKind::Other, s@),
    {
        MplangError::other(s)
    }
}

impl vstd::std_specs::convert::FromSpecImpl<&str> for MplangError {
    open spec fn obeys_from_spec() -> bool {
        false
    }

    open spec fn from_spec(v: &str) -> Self {
        arbitrary()
    }
}

} // verus!
