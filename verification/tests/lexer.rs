//! The lexer.

use mplangc::error::ErrorKind;
use mplangc::lexer::Lexer;
use mplangc::token::{Token, TokenKind};

fn lex(src: &str) -> Vec<Token> {
    Lexer::new(src.chars().collect()).lex().unwrap()
}

#[test]
fn lex_keyword_ident_and_int() {
    let toks = lex("let x = 123");
    assert_eq!(toks[0].kind, TokenKind::Let);
    assert_eq!(toks[1].kind, TokenKind::Ident);
    assert_eq!(toks[1].lexeme, "x");
    assert_eq!(toks[2].kind, TokenKind::Assign);
    assert_eq!(toks[3].kind, TokenKind::IntLiteral);
    assert_eq!(toks[3].lexeme, "123");
    assert_eq!(toks[4].kind, TokenKind::Eof);
}

#[test]
fn lex_operators_and_delimiters() {
    let toks = lex("(a + b) * c;");
    assert_eq!(toks[0].kind, TokenKind::LeftParen);
    assert_eq!(toks[2].kind, TokenKind::Plus);
    assert_eq!(toks[4].kind, TokenKind::RightParen);
    assert_eq!(toks[5].kind, TokenKind::Star);
    assert_eq!(toks[7].kind, TokenKind::Semicolon);
}

#[test]
fn lex_coloncolon_for_paths() {
    let toks = lex("a::b");
    assert_eq!(toks[0].kind, TokenKind::Ident);
    assert_eq!(toks[1].kind, TokenKind::ColonColon);
    assert_eq!(toks[2].kind, TokenKind::Ident);
}

#[test]
fn lex_string_literal() {
    let toks = lex("\"hello\"");
    assert_eq!(toks[0].kind, TokenKind::StringLiteral);
    assert_eq!(toks[0].lexeme, "\"hello\"");
}

#[test]
fn lex_invalid_char_is_error() {
    let err = Lexer::new("@".chars().collect()).lex().unwrap_err();
    assert_eq!(err.kind, ErrorKind::Lex);
    assert!(err.message.contains('@'));
    let span = err.span.expect("error should carry a source span");
    assert_eq!(span.line, 1);
    assert_eq!(span.col, 1);
}

#[test]
fn lex_skips_comments() {
    let toks = lex("// a comment\nlet x = 1; /* block */");
    assert_eq!(toks[0].kind, TokenKind::Let);
    assert_eq!(toks.last().unwrap().kind, TokenKind::Eof);
}

#[test]
fn lex_attribute_hash() {
    let toks = lex("#[link_name = \"x\"] extern fn f();");
    assert_eq!(toks[0].kind, TokenKind::Hash);
    assert_eq!(toks[1].kind, TokenKind::LeftBracket);
    assert_eq!(toks[2].kind, TokenKind::Ident);
    assert_eq!(toks[3].kind, TokenKind::Assign);
    assert_eq!(toks[4].kind, TokenKind::StringLiteral);
    assert_eq!(toks[5].kind, TokenKind::RightBracket);
}

/// The character behind the opening quotation mark always belongs to the literal.
#[test]
fn string_literal_holds_a_character() {
    let toks = lex("\"\"x\" y \"a\"");
    assert_eq!(toks.len(), 4);
    assert_eq!(toks[0].kind, TokenKind::StringLiteral);
    assert_eq!(toks[0].lexeme, "\"\"x\"");
    assert_eq!(toks[1].kind, TokenKind::Ident);
    assert_eq!(toks[2].lexeme, "\"a\"");
}

/// A string literal that is never closed is an error at its beginning.
#[test]
fn unclosed_string_is_an_error() {
    for src in ["let s = \"ab", "let s = \"", "let s = \"\"", "let s = \"\";"] {
        let mut lexer = Lexer::new(src.chars().collect());
        let err = lexer.lex().unwrap_err();
        assert_eq!(err.kind, ErrorKind::Lex);
        assert_eq!(err.message, "未闭合的字符串字面量（第 1 行，第 9 列）");
        let span = err.span.unwrap();
        assert_eq!((span.line, span.col), (1, 9));
        assert_eq!(lexer.next_token().unwrap().kind, TokenKind::Eof);
    }
}

/// White space is what Unicode says; letters and digits make words.
#[test]
fn classes_of_characters() {
    for c in ['\t', '\n', '\u{b}', '\u{c}', '\r', ' ', '\u{85}', '\u{a0}', '\u{1680}', '\u{2000}', '\u{200a}', '\u{2028}', '\u{2029}', '\u{202f}', '\u{205f}', '\u{3000}'] {
        let toks = lex(&format!("a{}b", c));
        assert_eq!(toks.len(), 3, "{:?}", c);
    }
    for c in ['\u{1c}', '\u{180e}', '\u{200b}', '\u{feff}'] {
        assert!(Lexer::new(vec![c]).lex().is_err(), "{:?}", c);
    }
    let toks = lex("aZ_09é名");
    assert_eq!(toks.len(), 2);
    assert_eq!(toks[0].kind, TokenKind::Ident);
}
