//! What holds of the grammar as a whole.

use crate::parser::grammar::unescaped;
use vstd::prelude::*;

verus! {

/// How a character is written in a string literal.
pub open spec fn written(c: char) -> Seq<char> {
    if c == '\n' {
        seq!['\\', 'n']
    } else if c == '\t' {
        seq!['\\', 't']
    } else if c == '\r' {
        seq!['\\', 'r']
    } else if c == '\\' {
        seq!['\\', '\\']
    } else if c == '"' {
        seq!['\\', '"']
    } else if c == '\0' {
        seq!['\\', '0']
    } else {
        seq![c]
    }
}

/// How the characters of a text from `i` on are written in a string literal.
pub open spec fn written_text(text: Seq<char>, i: int) -> Seq<char>
    decreases text.len() - i,
{
    if i < 0 || i >= text.len() {
        Seq::empty()
    } else {
        written(text[i]) + written_text(text, i + 1)
    }
}

proof fn lemma_written(before: Seq<char>, text: Seq<char>, i: int, done: Seq<char>)
    requires
        0 <= i <= text.len(),
    ensures
        unescaped(before + written_text(text, i), before.len() as int, done) == Ok::<Seq<char>, Seq<char>>(done + text.skip(i)),
    decreases text.len() - i,
{
    let s = before + written_text(text, i);
    if i < text.len() {
        let w = written(text[i]);
        let rest = written_text(text, i + 1);
        assert(s =~= (before + w) + rest);
        lemma_written(before + w, text, i + 1, done.push(text[i]));
        assert(done.push(text[i]) + text.skip(i + 1) =~= done + text.skip(i));
        assert(s[before.len() as int] == w[0]);
        if w.len() == 2 {
            assert(s[before.len() as int + 1] == w[1]);
        }
    } else {
        assert(done + text.skip(i) =~= done);
    }
}

/// Every text can be written as a string literal: reading what it is written as
/// gives it back.
pub proof fn law_text_is_read_back(text: Seq<char>)
    ensures
        unescaped(written_text(text, 0), 0, Seq::empty()) == Ok::<Seq<char>, Seq<char>>(text),
{
    lemma_written(Seq::empty(), text, 0, Seq::empty());
    assert(Seq::<char>::empty() + written_text(text, 0) =~= written_text(text, 0));
    assert(Seq::<char>::empty() + text.skip(0) =~= text);
}

} // verus!

