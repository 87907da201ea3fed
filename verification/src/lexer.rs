//! The lexer: from characters to tokens.

use crate::error::{error_at, ErrorKind, MplangError, MplangErrorV};
use crate::text::{cat5, cat7, char_string, decimal, is_digit, same_text, slice_string, usize_string};
use crate::token::{Token, TokenKind, TokenV};
use vstd::prelude::*;
use vstd::string::*;
use vstd::utf8::encode_utf8;

verus! {

/// Whether `c` has the Unicode property `White_Space`.
pub open spec fn whitespace_char(c: char) -> bool {
    let n = c as u32;
    ||| 0x09 <= n <= 0x0d
    ||| n == 0x20
    ||| n == 0x85
    ||| n == 0xa0
    ||| n == 0x1680
    ||| 0x2000 <= n <= 0x200a
    ||| n == 0x2028
    ||| n == 0x2029
    ||| n == 0x202f
    ||| n == 0x205f
    ||| n == 0x3000
}

/// Whether `c` is one of the letters `a` to `z` or `A` to `Z`.
pub open spec fn ascii_letter(c: char) -> bool {
    'a' <= c <= 'z' || 'A' <= c <= 'Z'
}

/// Whether `c` has the Unicode property `Alphabetic`.
pub uninterp spec fn alphabetic_char(c: char) -> bool;

/// Whether `c` is alphabetic or in one of the Unicode categories of numbers.
pub uninterp spec fn alphanumeric_char(c: char) -> bool;

/// `char::is_whitespace` decides the Unicode property `White_Space`.
pub assume_specification[ char::is_whitespace ](c: char) -> (r: bool)
    ensures
        r == whitespace_char(c),
;

/// `char::is_alphabetic` decides the Unicode property `Alphabetic`. Among the
/// first 128 characters only letters have it.
pub assume_specification[ char::is_alphabetic ](c: char) -> (r: bool)
    ensures
        r == alphabetic_char(c),
        (c as u32) < 128 ==> (r <==> ascii_letter(c)),
;

/// `char::is_alphanumeric` holds of alphabetic and of numeric characters. Among
/// the first 128 characters those are the letters and the digits.
pub assume_specification[ char::is_alphanumeric ](c: char) -> (r: bool)
    ensures
        r == alphanumeric_char(c),
        alphabetic_char(c) ==> r,
        (c as u32) < 128 ==> (r <==> ascii_letter(c) || is_digit(c)),
;

/// The line of position `p`, counted from one.
pub open spec fn line_at(src: Seq<char>, p: int) -> int
    decreases p,
{
    if p <= 0 {
        1
    } else if src[p - 1] == '\n' {
        line_at(src, p - 1) + 1
    } else {
        line_at(src, p - 1)
    }
}

/// The column of position `p` in its line, counted from one.
pub open spec fn column_at(src: Seq<char>, p: int) -> int
    decreases p,
{
    if p <= 0 || src[p - 1] == '\n' {
        1
    } else {
        column_at(src, p - 1) + 1
    }
}

/// Whether the characters at `p` and `p + 1` are `a` and `b`.
pub open spec fn pair_at(src: Seq<char>, p: int, a: char, b: char) -> bool {
    p + 1 < src.len() && src[p] == a && src[p + 1] == b
}

/// The first position from `p` on that ends a line, or the end of the text.
pub open spec fn line_end(src: Seq<char>, p: int) -> int
    decreases src.len() - p,
{
    if p < src.len() && src[p] != '\n' {
        line_end(src, p + 1)
    } else {
        p
    }
}

/// Where a block comment ends of which `depth` levels are open at `p`. Block
/// comments nest; one that is never closed runs to the end of the text.
pub open spec fn comment_end(src: Seq<char>, p: int, depth: nat) -> int
    decreases src.len() - p,
{
    if p >= src.len() || depth == 0 {
        p
    } else if pair_at(src, p, '/', '*') {
        comment_end(src, p + 2, depth + 1)
    } else if pair_at(src, p, '*', '/') {
        comment_end(src, p + 2, (depth - 1) as nat)
    } else {
        comment_end(src, p + 1, depth)
    }
}

/// The first position from `p` on that is neither white space nor in a comment.
pub open spec fn trivia_end(src: Seq<char>, p: int) -> int
    decreases src.len() - p,
{
    proof {
        lemma_line_end(src, p + 2);
        lemma_comment_end(src, p + 2, 1);
    }
    if 0 <= p < src.len() && whitespace_char(src[p]) {
        trivia_end(src, p + 1)
    } else if 0 <= p && pair_at(src, p, '/', '/') {
        trivia_end(src, line_end(src, p + 2))
    } else if 0 <= p && pair_at(src, p, '/', '*') {
        trivia_end(src, comment_end(src, p + 2, 1))
    } else {
        p
    }
}

pub proof fn lemma_line_end(src: Seq<char>, p: int)
    ensures
        p <= line_end(src, p),
        p <= src.len() ==> line_end(src, p) <= src.len(),
    decreases src.len() - p,
{
    if p < src.len() && src[p] != '\n' {
        lemma_line_end(src, p + 1);
    }
}

pub proof fn lemma_comment_end(src: Seq<char>, p: int, depth: nat)
    ensures
        p <= comment_end(src, p, depth),
        p <= src.len() ==> comment_end(src, p, depth) <= src.len(),
    decreases src.len() - p,
{
    if p >= src.len() || depth == 0 {
    } else if pair_at(src, p, '/', '*') {
        lemma_comment_end(src, p + 2, depth + 1);
    } else if pair_at(src, p, '*', '/') {
        lemma_comment_end(src, p + 2, (depth - 1) as nat);
    } else {
        lemma_comment_end(src, p + 1, depth);
    }
}

pub proof fn lemma_trivia_end(src: Seq<char>, p: int)
    ensures
        p <= trivia_end(src, p),
        p <= src.len() ==> trivia_end(src, p) <= src.len(),
    decreases src.len() - p,
{
    lemma_line_end(src, p + 2);
    lemma_comment_end(src, p + 2, 1);
    if 0 <= p < src.len() && whitespace_char(src[p]) {
        lemma_trivia_end(src, p + 1);
    } else if 0 <= p && pair_at(src, p, '/', '/') {
        lemma_trivia_end(src, line_end(src, p + 2));
    } else if 0 <= p && pair_at(src, p, '/', '*') {
        lemma_trivia_end(src, comment_end(src, p + 2, 1));
    }
}

/// The end of the digits that begin at `p`.
pub open spec fn digits_end(src: Seq<char>, p: int) -> int
    decreases src.len() - p,
{
    if p < src.len() && is_digit(src[p]) {
        digits_end(src, p + 1)
    } else {
        p
    }
}

/// Whether `c` may stand inside an identifier.
pub open spec fn word_char(c: char) -> bool {
    alphanumeric_char(c) || c == '_'
}

/// The end of the word that goes on at `p`.
pub open spec fn word_end(src: Seq<char>, p: int) -> int
    decreases src.len() - p,
{
    if p < src.len() && word_char(src[p]) {
        word_end(src, p + 1)
    } else {
        p
    }
}

/// The first quotation mark from `p` on, or the end of the text.
pub open spec fn quote_at(src: Seq<char>, p: int) -> int
    decreases src.len() - p,
{
    if p < src.len() && src[p] != '"' {
        quote_at(src, p + 1)
    } else {
        p
    }
}

/// The kind of a word: a keyword or an identifier.
pub open spec fn word_kind(word: Seq<char>) -> TokenKind {
    if word == "let"@ {
        TokenKind::Let
    } else if word == "for"@ {
        TokenKind::For
    } else if word == "while"@ {
        TokenKind::While
    } else if word == "if"@ {
        TokenKind::If
    } else if word == "else"@ {
        TokenKind::Else
    } else if word == "fn"@ {
        TokenKind::Fn
    } else if word == "return"@ {
        TokenKind::Return
    } else if word == "struct"@ {
        TokenKind::Struct
    } else if word == "static"@ {
        TokenKind::Static
    } else if word == "const"@ {
        TokenKind::Const
    } else if word == "extern"@ {
        TokenKind::Extern
    } else if word == "mod"@ {
        TokenKind::Mod
    } else if word == "use"@ {
        TokenKind::Use
    } else if word == "crate"@ {
        TokenKind::Crate
    } else if word == "impl"@ {
        TokenKind::Impl
    } else if word == "trait"@ {
        TokenKind::Trait
    } else {
        TokenKind::Ident
    }
}

/// What begins at a position that is not trivia.
pub enum Scan {
    /// A token of this kind, up to `end`.
    Found { kind: TokenKind, end: int },
    /// A character that begins no token.
    Unknown,
    /// A string literal that the text does not close.
    Unclosed,
}

/// A token of one character, or of two when `next` follows.
pub open spec fn one_or_two(
    src: Seq<char>,
    p: int,
    next: char,
    short: TokenKind,
    long: TokenKind,
) -> Scan {
    if p + 1 < src.len() && src[p + 1] == next {
        Scan::Found { kind: long, end: p + 2 }
    } else {
        Scan::Found { kind: short, end: p + 1 }
    }
}

/// The token that begins at `p`. A string literal holds at least one character,
/// whichever it is, and ends at the next quotation mark behind that.
pub open spec fn scan(src: Seq<char>, p: int) -> Scan {
    let c = src[p];
    let one = p + 1;
    if c == '+' {
        Scan::Found { kind: TokenKind::Plus, end: one }
    } else if c == '-' {
        one_or_two(src, p, '>', TokenKind::Minus, TokenKind::Arrow)
    } else if c == '*' {
        Scan::Found { kind: TokenKind::Star, end: one }
    } else if c == '&' {
        Scan::Found { kind: TokenKind::Amp, end: one }
    } else if c == '/' {
        Scan::Found { kind: TokenKind::Slash, end: one }
    } else if c == ',' {
        Scan::Found { kind: TokenKind::Comma, end: one }
    } else if c == '(' {
        Scan::Found { kind: TokenKind::LeftParen, end: one }
    } else if c == ')' {
        Scan::Found { kind: TokenKind::RightParen, end: one }
    } else if c == '[' {
        Scan::Found { kind: TokenKind::LeftBracket, end: one }
    } else if c == ']' {
        Scan::Found { kind: TokenKind::RightBracket, end: one }
    } else if c == '#' {
        Scan::Found { kind: TokenKind::Hash, end: one }
    } else if c == '{' {
        Scan::Found { kind: TokenKind::LeftBrace, end: one }
    } else if c == '}' {
        Scan::Found { kind: TokenKind::RightBrace, end: one }
    } else if c == ';' {
        Scan::Found { kind: TokenKind::Semicolon, end: one }
    } else if c == ':' {
        one_or_two(src, p, ':', TokenKind::Colon, TokenKind::ColonColon)
    } else if c == '.' {
        if pair_at(src, p + 1, '.', '.') {
            Scan::Found { kind: TokenKind::Ellipsis, end: p + 3 }
        } else {
            Scan::Found { kind: TokenKind::Dot, end: one }
        }
    } else if c == '=' {
        one_or_two(src, p, '=', TokenKind::Assign, TokenKind::Equal)
    } else if c == '>' {
        one_or_two(src, p, '=', TokenKind::Greater, TokenKind::GreaterEqual)
    } else if c == '<' {
        one_or_two(src, p, '=', TokenKind::Less, TokenKind::LessEqual)
    } else if c == '!' {
        one_or_two(src, p, '=', TokenKind::Not, TokenKind::NotEqual)
    } else if c == '"' {
        if quote_at(src, p + 2) < src.len() {
            Scan::Found { kind: TokenKind::StringLiteral, end: quote_at(src, p + 2) + 1 }
        } else {
            Scan::Unclosed
        }
    } else if is_digit(c) {
        Scan::Found { kind: TokenKind::IntLiteral, end: digits_end(src, one) }
    } else if alphabetic_char(c) || c == '_' {
        let end = word_end(src, one);
        Scan::Found { kind: word_kind(src.subrange(p, end)), end }
    } else {
        Scan::Unknown
    }
}

pub proof fn lemma_ends(src: Seq<char>, p: int)
    ensures
        p <= digits_end(src, p),
        p <= word_end(src, p),
        p <= quote_at(src, p),
        p <= src.len() ==> digits_end(src, p) <= src.len(),
        p <= src.len() ==> word_end(src, p) <= src.len(),
        p <= src.len() ==> quote_at(src, p) <= src.len(),
    decreases src.len() - p,
{
    if p < src.len() {
        lemma_ends(src, p + 1);
    }
}

/// A token takes up at least one character and lies within the text.
pub proof fn lemma_scan(src: Seq<char>, p: int)
    requires
        0 <= p < src.len(),
    ensures
        scan(src, p) matches Scan::Found { kind, end } ==> p < end <= src.len() && kind
            != TokenKind::Eof,
{
    lemma_ends(src, p + 1);
    lemma_ends(src, p + 2);
}

/// The token of the text between `p` and `end`.
pub open spec fn token_at(src: Seq<char>, p: int, end: int, kind: TokenKind) -> TokenV {
    let lexeme = src.subrange(p, end);
    TokenV {
        line: line_at(src, p) as usize,
        column: column_at(src, p) as usize,
        span_len: encode_utf8(lexeme).len() as usize,
        lexeme,
        kind,
    }
}

/// The token at the end of the text.
pub open spec fn eof_token(src: Seq<char>) -> TokenV {
    TokenV {
        line: line_at(src, src.len() as int) as usize,
        column: column_at(src, src.len() as int) as usize,
        span_len: 0,
        lexeme: Seq::empty(),
        kind: TokenKind::Eof,
    }
}

/// The error for a character that begins no token.
pub open spec fn unknown_char(src: Seq<char>, p: int) -> MplangErrorV {
    let line = line_at(src, p) as usize;
    let column = column_at(src, p) as usize;
    error_at(
        ErrorKind::Lex,
        "无法识别的字符 '"@ + seq![src[p]] + "'（第 "@ + decimal(line as nat) + " 行，第 "@ + decimal(
            column as nat,
        ) + " 列）"@,
        line,
        column,
    )
}

/// The error for a string literal that begins at `p` and is never closed.
pub open spec fn unclosed_string(src: Seq<char>, p: int) -> MplangErrorV {
    let line = line_at(src, p) as usize;
    let column = column_at(src, p) as usize;
    error_at(
        ErrorKind::Lex,
        "未闭合的字符串字面量（第 "@ + decimal(line as nat) + " 行，第 "@ + decimal(column as nat)
            + " 列）"@,
        line,
        column,
    )
}

/// One step of the lexer.
pub enum Step {
    /// A token, with the position behind it.
    Token { token: TokenV, next: int },
    /// An error, with the position behind what is wrong.
    Error { error: MplangErrorV, next: int },
}

/// The token that a lexer at position `p` yields next.
pub open spec fn step(src: Seq<char>, p: int) -> Step {
    let q = trivia_end(src, p);
    if q >= src.len() {
        Step::Token { token: eof_token(src), next: q }
    } else {
        match scan(src, q) {
            Scan::Found { kind, end } => Step::Token {
                token: token_at(src, q, end, kind),
                next: end,
            },
            Scan::Unknown => Step::Error { error: unknown_char(src, q), next: q + 1 },
            Scan::Unclosed => Step::Error {
                error: unclosed_string(src, q),
                next: src.len() as int,
            },
        }
    }
}

/// The outcome of lexing.
pub enum Lexed {
    Tokens { tokens: Seq<TokenV>, next: int },
    Error { error: MplangErrorV, next: int },
}

/// The tokens from position `p` up to the end of the text, behind those of
/// `done`.
pub open spec fn lexed(src: Seq<char>, p: int, done: Seq<TokenV>) -> Lexed
    decreases src.len() - p,
{
    proof {
        lemma_step(src, p);
    }
    match step(src, p) {
        Step::Token { token, next } => if token.kind == TokenKind::Eof || !(0 <= p <= src.len()) {
            Lexed::Tokens { tokens: done.push(token), next }
        } else {
            lexed(src, next, done.push(token))
        },
        Step::Error { error, next } => Lexed::Error { error, next },
    }
}

pub proof fn lemma_step(src: Seq<char>, p: int)
    ensures
        0 <= p <= src.len() ==> (match step(src, p) {
            Step::Token { token, next } => if token.kind == TokenKind::Eof {
                next == src.len()
            } else {
                p < next <= src.len()
            },
            Step::Error { next, .. } => p < next <= src.len(),
        }),
{
    lemma_trivia_end(src, p);
    if 0 <= p <= src.len() && trivia_end(src, p) < src.len() {
        lemma_scan(src, trivia_end(src, p));
    }
}

/// Token `t` holds the characters from `start` on and carries their place, and
/// between `behind` and `start` there is nothing but white space and comments.
pub open spec fn token_placed(src: Seq<char>, behind: int, start: int, t: TokenV) -> bool {
    &&& start == trivia_end(src, behind)
    &&& behind <= start <= start + t.lexeme.len() <= src.len()
    &&& t.lexeme == src.subrange(start, start + t.lexeme.len())
    &&& t.line == line_at(src, start) as usize
    &&& t.column == column_at(src, start) as usize
    &&& t.span_len == encode_utf8(t.lexeme).len() as usize
}

/// The position behind the token before token `i`, where the first begins
/// behind `p`.
pub open spec fn behind_token(p: int, tokens: Seq<TokenV>, starts: Seq<int>, i: int) -> int {
    if i == 0 {
        p
    } else {
        starts[i - 1] + tokens[i - 1].lexeme.len()
    }
}

/// The tokens from position `p` on stand in the text one behind the other,
/// token `i` at `starts[i]`.
pub open spec fn placed(src: Seq<char>, p: int, tokens: Seq<TokenV>, starts: Seq<int>) -> bool {
    &&& starts.len() == tokens.len()
    &&& forall|i: int|
        0 <= i < tokens.len() ==> token_placed(
            src,
            behind_token(p, tokens, starts, i),
            starts[i],
            #[trigger] tokens[i],
        )
}

/// The end-of-file token, and no other, is last.
pub open spec fn ends_with_eof(tokens: Seq<TokenV>) -> bool {
    &&& tokens.len() > 0
    &&& tokens.last().kind == TokenKind::Eof
    &&& forall|i: int|
        0 <= i < tokens.len() - 1 ==> (#[trigger] tokens[i]).kind != TokenKind::Eof
            && tokens[i].lexeme.len() > 0
}

/// Lexing yields the tokens of the text in their order: each token holds the
/// characters at its place, carries the line and the column of that place, and
/// between two tokens there is nothing but white space and comments. The
/// end-of-file token is last and comes once.
pub proof fn law_tokens_cover_text(src: Seq<char>, p: int) -> (starts: Seq<int>)
    requires
        0 <= p <= src.len(),
        lexed(src, p, Seq::empty()) is Tokens,
    ensures
        placed(src, p, lexed(src, p, Seq::empty())->tokens, starts),
        ends_with_eof(lexed(src, p, Seq::empty())->tokens),
        lexed(src, p, Seq::empty())->Tokens_next == src.len(),
{
    let (rest, starts) = lemma_lexed_parts(src, p, Seq::empty());
    assert(lexed(src, p, Seq::empty())->tokens =~= rest);
    starts
}

proof fn lemma_first_token(src: Seq<char>, p: int)
    requires
        0 <= p <= src.len(),
        step(src, p) is Token,
    ensures
        ({
            let t = step(src, p)->token;
            let q = trivia_end(src, p);
            &&& token_placed(src, p, q, t)
            &&& step(src, p)->Token_next == q + t.lexeme.len()
            &&& t.kind != TokenKind::Eof ==> t.lexeme.len() > 0
        }),
{
    lemma_trivia_end(src, p);
    let q = trivia_end(src, p);
    let t = step(src, p)->token;
    if q >= src.len() {
        assert(encode_utf8(t.lexeme).len() == 0);
        assert(t.lexeme =~= src.subrange(q, q));
    } else {
        lemma_scan(src, q);
    }
}

proof fn lemma_lexed_parts(src: Seq<char>, p: int, done: Seq<TokenV>) -> (r: (
    Seq<TokenV>,
    Seq<int>,
))
    requires
        0 <= p <= src.len(),
        lexed(src, p, done) is Tokens,
    ensures
        lexed(src, p, done)->tokens == done + r.0,
        lexed(src, p, done)->Tokens_next == src.len(),
        placed(src, p, r.0, r.1),
        ends_with_eof(r.0),
    decreases src.len() - p,
{
    lemma_step(src, p);
    lemma_first_token(src, p);
    let q = trivia_end(src, p);
    let token = step(src, p)->token;
    let next = step(src, p)->Token_next;
    if token.kind == TokenKind::Eof {
        assert(done.push(token) =~= done + seq![token]);
        (seq![token], seq![q])
    } else {
        let (rest, starts) = lemma_lexed_parts(src, next, done.push(token));
        let all = seq![token] + rest;
        let all_starts = seq![q] + starts;
        assert(done.push(token) + rest =~= done + all);
        assert forall|i: int| 0 <= i < all.len() implies token_placed(
            src,
            behind_token(p, all, all_starts, i),
            all_starts[i],
            #[trigger] all[i],
        ) by {
            if i > 0 {
                assert(all[i] == rest[i - 1]);
                assert(
                    behind_token(p, all, all_starts, i) == behind_token(next, rest, starts, i - 1)
                );
            }
        }
        assert(all.last() == rest.last());
        assert forall|i: int| 0 <= i < all.len() - 1 implies (#[trigger] all[i]).kind
            != TokenKind::Eof && all[i].lexeme.len() > 0 by {
            if i > 0 {
                assert(all[i] == rest[i - 1]);
            }
        }
        (all, all_starts)
    }
}

/// What was read at a position.
enum Read {
    /// A token of this kind.
    Token(TokenKind),
    /// A character that begins no token.
    Unknown,
    /// A string literal up to the end of the text.
    Unclosed,
}

/// A lexer over a text.
#[derive(Debug)]
pub struct Lexer {
    raw: Vec<char>,
    start: usize,
    current: usize,
    line: usize,
    column: usize,
}

pub proof fn lemma_place(src: Seq<char>, p: int)
    requires
        0 <= p,
    ensures
        1 <= line_at(src, p) <= p + 1,
        1 <= column_at(src, p) <= p + 1,
    decreases p,
{
    if p > 0 {
        lemma_place(src, p - 1);
    }
}

impl Lexer {
    /// The text.
    pub closed spec fn text(&self) -> Seq<char> {
        self.raw@
    }

    /// The position up to which the text has been read.
    pub closed spec fn position(&self) -> int {
        self.current as int
    }

    /// The line and the column are those of the position.
    pub closed spec fn wf(&self) -> bool {
        &&& self.raw@.len() < usize::MAX
        &&& self.current <= self.raw@.len()
        &&& self.line == line_at(self.raw@, self.current as int)
        &&& self.column == column_at(self.raw@, self.current as int)
    }

    /// A lexer at the start of `raw`.
    pub fn new(raw: Vec<char>) -> (r: Lexer)
        requires
            raw@.len() < usize::MAX,
        ensures
            r.wf(),
            r.text() == raw@,
            r.position() == 0,
    {
        Lexer { raw, start: 0, current: 0, line: 1, column: 1 }
    }

    fn is_at_end(&self) -> (r: bool)
        ensures
            r == (self.current >= self.raw@.len()),
    {
        self.current >= self.raw.len()
    }

    fn current_char(&self) -> (r: char)
        requires
            self.current < self.raw@.len(),
        ensures
            r == self.raw@[self.current as int],
    {
        self.raw[self.current]
    }

    fn at(&self, c: char) -> (r: bool)
        ensures
            r == (self.current < self.raw@.len() && self.raw@[self.current as int] == c),
    {
        !self.is_at_end() && self.current_char() == c
    }

    fn peek_next(&self) -> (r: Option<char>)
        requires
            self.current < usize::MAX,
        ensures
            r == (if self.current + 1 >= self.raw@.len() {
                None
            } else {
                Some(self.raw@[self.current + 1])
            }),
    {
        if self.current + 1 >= self.raw.len() {
            return None;
        }
        Some(self.raw[self.current + 1])
    }

    fn at_pair(&self, a: char, b: char) -> (r: bool)
        requires
            self.wf(),
        ensures
            r == pair_at(self.raw@, self.current as int, a, b),
    {
        if self.is_at_end() {
            return false;
        }
        match self.peek_next() {
            Some(n) => self.current_char() == a && n == b,
            None => false,
        }
    }

    fn advance(&mut self) -> (ch: char)
        requires
            old(self).wf(),
            old(self).current < old(self).raw@.len(),
        ensures
            final(self).wf(),
            final(self).raw == old(self).raw,
            final(self).current == old(self).current + 1,
            ch == old(self).raw@[old(self).current as int],
    {
        proof {
            lemma_place(self.raw@, self.current as int);
        }
        let ch = self.raw[self.current];
        self.current += 1;
        if ch == '\n' {
            self.line += 1;
            self.column = 1;
        } else {
            self.column += 1;
        }
        ch
    }

    fn skip_whitespace_and_comments(&mut self)
        requires
            old(self).wf(),
        ensures
            final(self).wf(),
            final(self).raw == old(self).raw,
            final(self).current == trivia_end(old(self).raw@, old(self).current as int),
    {
        let ghost src = self.raw@;
        let ghost goal = trivia_end(src, self.current as int);
        loop
            invariant
                self.wf(),
                self.raw == old(self).raw,
                src == self.raw@,
                goal == trivia_end(src, self.current as int),
            ensures
                self.current == goal,
            decreases src.len() - self.current,
        {
            let ghost p0 = self.current as int;
            while !self.is_at_end() && self.current_char().is_whitespace()
                invariant
                    self.wf(),
                    self.raw == old(self).raw,
                    src == self.raw@,
                    goal == trivia_end(src, self.current as int),
                    p0 <= self.current,
                decreases src.len() - self.current,
            {
                self.advance();
            }
            if self.at_pair('/', '/') {
                let ghost p = self.current as int;
                while !self.is_at_end() && self.current_char() != '\n'
                    invariant
                        self.wf(),
                        self.raw == old(self).raw,
                        src == self.raw@,
                        p <= self.current,
                        line_end(src, p) == line_end(src, self.current as int),
                    decreases src.len() - self.current,
                {
                    self.advance();
                }
                proof {
                    assert(line_end(src, p) == line_end(src, p + 1));
                    assert(line_end(src, p + 1) == line_end(src, p + 2));
                    lemma_line_end(src, p + 2);
                }
                continue;
            }
            if self.at_pair('/', '*') {
                let ghost p = self.current as int;
                self.advance();
                self.advance();
                let mut depth: usize = 1;
                while !self.is_at_end() && depth > 0
                    invariant
                        self.wf(),
                        self.raw == old(self).raw,
                        src == self.raw@,
                        p + 2 <= self.current,
                        depth <= self.current,
                        comment_end(src, p + 2, 1) == comment_end(
                            src,
                            self.current as int,
                            depth as nat,
                        ),
                    decreases src.len() - self.current,
                {
                    if self.at_pair('/', '*') {
                        self.advance();
                        self.advance();
                        depth += 1;
                    } else if self.at_pair('*', '/') {
                        self.advance();
                        self.advance();
                        depth -= 1;
                    } else {
                        self.advance();
                    }
                }
                continue;
            }
            break;
        }
    }

    fn make_token(
        &self,
        token_type: TokenKind,
        lexeme: String,
        start_line: usize,
        start_col: usize,
    ) -> (r: Token)
        ensures
            r.deep_view() == (TokenV {
                line: start_line,
                column: start_col,
                span_len: encode_utf8(lexeme@).len() as usize,
                lexeme: lexeme@,
                kind: token_type,
            }),
    {
        let n: usize = lexeme.as_str().len();
        Token::new(start_line, start_col, n, lexeme, token_type)
    }

    /// Consumes `next` where it follows, and gives the kind of the token.
    fn either(&mut self, next: char, short: TokenKind, long: TokenKind) -> (kind: TokenKind)
        requires
            old(self).wf(),
            old(self).current > 0,
        ensures
            final(self).wf(),
            final(self).raw == old(self).raw,
            one_or_two(old(self).raw@, old(self).current - 1, next, short, long) == (Scan::Found {
                kind,
                end: final(self).current as int,
            }),
    {
        if self.at(next) {
            self.advance();
            long
        } else {
            short
        }
    }

    fn keyword(lexeme: &String) -> (r: TokenKind)
        ensures
            r == word_kind(lexeme@),
    {
        let w = lexeme.as_str();
        if same_text(w, "let") {
            TokenKind::Let
        } else if same_text(w, "for") {
            TokenKind::For
        } else if same_text(w, "while") {
            TokenKind::While
        } else if same_text(w, "if") {
            TokenKind::If
        } else if same_text(w, "else") {
            TokenKind::Else
        } else if same_text(w, "fn") {
            TokenKind::Fn
        } else if same_text(w, "return") {
            TokenKind::Return
        } else if same_text(w, "struct") {
            TokenKind::Struct
        } else if same_text(w, "static") {
            TokenKind::Static
        } else if same_text(w, "const") {
            TokenKind::Const
        } else if same_text(w, "extern") {
            TokenKind::Extern
        } else if same_text(w, "mod") {
            TokenKind::Mod
        } else if same_text(w, "use") {
            TokenKind::Use
        } else if same_text(w, "crate") {
            TokenKind::Crate
        } else if same_text(w, "impl") {
            TokenKind::Impl
        } else if same_text(w, "trait") {
            TokenKind::Trait
        } else {
            TokenKind::Ident
        }
    }

    /// Reads what begins at the position, and stands behind it then.
    fn scan_token(&mut self) -> (r: Read)
        requires
            old(self).wf(),
            old(self).current < old(self).raw@.len(),
        ensures
            final(self).wf(),
            final(self).raw == old(self).raw,
            match r {
                Read::Token(kind) => scan(old(self).raw@, old(self).current as int) == (
                Scan::Found { kind, end: final(self).current as int }),
                Read::Unknown => scan(old(self).raw@, old(self).current as int) is Unknown
                    && final(self).current == old(self).current + 1,
                Read::Unclosed => scan(old(self).raw@, old(self).current as int) is Unclosed
                    && final(self).current == final(self).raw@.len(),
            },
    {
        let ghost src = self.raw@;
        let ghost p = self.current as int;
        let start_pos: usize = self.current;
        let ch = self.advance();
        let kind = if ch == '+' {
            TokenKind::Plus
        } else if ch == '-' {
            self.either('>', TokenKind::Minus, TokenKind::Arrow)
        } else if ch == '*' {
            TokenKind::Star
        } else if ch == '&' {
            TokenKind::Amp
        } else if ch == '/' {
            TokenKind::Slash
        } else if ch == ',' {
            TokenKind::Comma
        } else if ch == '(' {
            TokenKind::LeftParen
        } else if ch == ')' {
            TokenKind::RightParen
        } else if ch == '[' {
            TokenKind::LeftBracket
        } else if ch == ']' {
            TokenKind::RightBracket
        } else if ch == '#' {
            TokenKind::Hash
        } else if ch == '{' {
            TokenKind::LeftBrace
        } else if ch == '}' {
            TokenKind::RightBrace
        } else if ch == ';' {
            TokenKind::Semicolon
        } else if ch == ':' {
            self.either(':', TokenKind::Colon, TokenKind::ColonColon)
        } else if ch == '.' {
            if self.at_pair('.', '.') {
                self.advance();
                self.advance();
                TokenKind::Ellipsis
            } else {
                TokenKind::Dot
            }
        } else if ch == '=' {
            self.either('=', TokenKind::Assign, TokenKind::Equal)
        } else if ch == '>' {
            self.either('=', TokenKind::Greater, TokenKind::GreaterEqual)
        } else if ch == '<' {
            self.either('=', TokenKind::Less, TokenKind::LessEqual)
        } else if ch == '!' {
            self.either('=', TokenKind::Not, TokenKind::NotEqual)
        } else if ch == '"' {
            if self.is_at_end() {
                return Read::Unclosed;
            }
            self.advance();
            while !self.is_at_end() && self.current_char() != '"'
                invariant
                    self.wf(),
                    self.raw == old(self).raw,
                    src == self.raw@,
                    quote_at(src, p + 2) == quote_at(src, self.current as int),
                decreases src.len() - self.current,
            {
                self.advance();
            }
            if self.is_at_end() {
                return Read::Unclosed;
            }
            self.advance();
            TokenKind::StringLiteral
        } else if ch >= '0' && ch <= '9' {
            while !self.is_at_end() && self.current_char() >= '0' && self.current_char() <= '9'
                invariant
                    self.wf(),
                    self.raw == old(self).raw,
                    src == self.raw@,
                    digits_end(src, p + 1) == digits_end(src, self.current as int),
                decreases src.len() - self.current,
            {
                self.advance();
            }
            TokenKind::IntLiteral
        } else if ch.is_alphabetic() || ch == '_' {
            while !self.is_at_end() && (self.current_char().is_alphanumeric()
                || self.current_char() == '_')
                invariant
                    self.wf(),
                    self.raw == old(self).raw,
                    src == self.raw@,
                    p + 1 <= self.current,
                    word_end(src, p + 1) == word_end(src, self.current as int),
                decreases src.len() - self.current,
            {
                self.advance();
            }
            let lexeme = slice_string(&self.raw, start_pos, self.current);
            Self::keyword(&lexeme)
        } else {
            return Read::Unknown;
        };
        Read::Token(kind)
    }

    /// The next token. At the end of the text it is the end-of-file token, and
    /// the lexer stays there. A character that begins no token and a string
    /// literal that is never closed are errors.
    pub fn next_token(&mut self) -> (r: Result<Token, MplangError>)
        requires
            old(self).wf(),
        ensures
            final(self).wf(),
            final(self).text() == old(self).text(),
            match r {
                Ok(token) => step(old(self).text(), old(self).position()) == (Step::Token {
                    token: token.deep_view(),
                    next: final(self).position(),
                }),
                Err(error) => step(old(self).text(), old(self).position()) == (Step::Error {
                    error: error.deep_view(),
                    next: final(self).position(),
                }),
            },
    {
        proof {
            lemma_trivia_end(self.raw@, self.current as int);
        }
        self.skip_whitespace_and_comments();
        if self.is_at_end() {
            let t = Token::new(self.line, self.column, 0, String::new(), TokenKind::Eof);
            return Ok(t);
        }
        let start_line: usize = self.line;
        let start_col: usize = self.column;
        let start_pos: usize = self.current;
        let ch = self.current_char();
        proof {
            lemma_scan(self.raw@, self.current as int);
        }
        match self.scan_token() {
            Read::Token(kind) => {
                let lexeme = slice_string(&self.raw, start_pos, self.current);
                let token = self.make_token(kind, lexeme, start_line, start_col);
                self.start = self.current;
                Ok(token)
            },
            Read::Unknown => {
                let shown = char_string(ch);
                let line = usize_string(start_line);
                let col = usize_string(start_col);
                let message = cat7(
                    "无法识别的字符 '",
                    shown.as_str(),
                    "'（第 ",
                    line.as_str(),
                    " 行，第 ",
                    col.as_str(),
                    " 列）",
                );
                Err(MplangError::lex(message.as_str()).with_span(start_line, start_col))
            },
            Read::Unclosed => {
                let line = usize_string(start_line);
                let col = usize_string(start_col);
                let message = cat5(
                    "未闭合的字符串字面量（第 ",
                    line.as_str(),
                    " 行，第 ",
                    col.as_str(),
                    " 列）",
                );
                Err(MplangError::lex(message.as_str()).with_span(start_line, start_col))
            },
        }
    }

    /// All tokens up to the end of the text, the last of which is the
    /// end-of-file token; or the first error.
    pub fn lex(&mut self) -> (r: Result<Vec<Token>, MplangError>)
        requires
            old(self).wf(),
        ensures
            final(self).wf(),
            final(self).text() == old(self).text(),
            match r {
                Ok(tokens) => lexed(old(self).text(), old(self).position(), Seq::empty()) == (
                Lexed::Tokens { tokens: tokens.deep_view(), next: final(self).position() }),
                Err(error) => lexed(old(self).text(), old(self).position(), Seq::empty()) == (
                Lexed::Error { error: error.deep_view(), next: final(self).position() }),
            },
    {
        let ghost src = self.raw@;
        let ghost goal = lexed(src, self.current as int, Seq::empty());
        let mut tokens: Vec<Token> = Vec::new();
        assert(tokens.deep_view() =~= Seq::<TokenV>::empty());
        loop
            invariant
                self.wf(),
                src == self.raw@,
                src == old(self).text(),
                goal == lexed(src, self.current as int, tokens.deep_view()),
                goal == lexed(src, old(self).position(), Seq::empty()),
            decreases src.len() - self.current,
        {
            proof {
                lemma_step(src, self.current as int);
            }
            let ghost before = tokens.deep_view();
            let token = match self.next_token() {
                Ok(t) => t,
                Err(e) => {
                    return Err(e);
                },
            };
            let is_eof = matches!(token.kind, TokenKind::Eof);
            let ghost tv = token.deep_view();
            tokens.push(token);
            assert(tokens.deep_view() =~= before.push(tv));
            if is_eof {
                return Ok(tokens);
            }
        }
    }
}

} // verus!
