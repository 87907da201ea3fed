//! Programs one behind the other.
//!
//! What a construct is read as depends only on the tokens up to the one behind
//! it. For each construct a lemma says so; it is proved along the definition of
//! the construct.

use crate::ast::{CompilationUnitV, TopLevelDeclV};
use crate::parser::grammar::{Parsed, ahead, at_end, p_decl, p_decls, p_program};
use crate::parser::joined::decls::lemma_decl;
use crate::token::{TokenKind, TokenV};
use vstd::prelude::*;

mod decls;
mod ends;
mod exprs;
mod operands;
mod stmts;
mod targets;
mod types;

verus! {

/// The tokens `ts` end at `upto`, and those before stand in `us` too, `by`
/// places further on.
pub open spec fn same_below(ts: Seq<TokenV>, us: Seq<TokenV>, by: int, upto: int) -> bool {
    &&& 0 <= by
    &&& 0 <= upto <= ts.len()
    &&& upto + by <= us.len()
    &&& at_end(ts, upto)
    &&& forall|k: int| 0 <= k < upto ==> #[trigger] ts[k] == us[k + by]
}

/// The value `v` is read, up to `j`.
pub open spec fn reads<T>(p: Parsed<T>, v: T, j: int) -> bool {
    p == Parsed::Yes(v, j)
}

/// Whether what ends at `j` would end there whatever follows the first `upto`
/// tokens.
pub open spec fn settled_at(ts: Seq<TokenV>, j: int, upto: int) -> bool {
    j < upto && !(j + 1 == upto && ts[j].kind == TokenKind::ColonColon)
}

proof fn lemma_first(ts: Seq<TokenV>, i: int, done: Seq<TopLevelDeclV>, us: Seq<TokenV>, upto: int)
    requires
        same_below(ts, us, 0, upto),
        0 <= i <= upto,
        forall|k: int| 0 <= k < upto ==> (#[trigger] ts[k]).kind != TokenKind::Eof,
    ensures
        p_decls(ts, i, done) matches Parsed::Yes(v, j) ==> j == upto && p_decls(us, i, done)
            == p_decls(us, upto, v),
    decreases ts.len() - i,
{
    if i < upto {
        assert(us[i] == ts[i]);
        lemma_decl(ts, i, us, i, 0, upto);
        match ahead(p_decl(ts, i), i, ts) {
            Parsed::Yes(decl, j) => {
                lemma_first(ts, j, done.push(decl), us, upto);
            },
            _ => {},
        }
    }
}

proof fn lemma_second(
    ts: Seq<TokenV>,
    i: int,
    before: Seq<TopLevelDeclV>,
    done: Seq<TopLevelDeclV>,
    us: Seq<TokenV>,
    by: int,
    upto: int,
)
    requires
        same_below(ts, us, by, upto),
        0 <= i <= upto,
        at_end(us, upto + by),
        forall|k: int| 0 <= k < upto ==> (#[trigger] ts[k]).kind != TokenKind::Eof,
    ensures
        p_decls(ts, i, done) matches Parsed::Yes(v, j) ==> j == upto && p_decls(
            us,
            i + by,
            before + done,
        ) == Parsed::Yes(before + v, upto + by),
    decreases ts.len() - i,
{
    if i < upto {
        assert(us[i + by] == ts[i]);
        lemma_decl(ts, i, us, i + by, by, upto);
        match ahead(p_decl(ts, i), i, ts) {
            Parsed::Yes(decl, j) => {
                assert((before + done).push(decl) =~= before + done.push(decl));
                lemma_second(ts, j, before, done.push(decl), us, by, upto);
            },
            _ => {},
        }
    }
}

/// The tokens of two programs, one behind the other, are read as the
/// declarations of the first followed by those of the second.
pub proof fn law_joined_programs(a: Seq<TokenV>, b: Seq<TokenV>, a_end: TokenV, b_end: TokenV)
    requires
        a_end.kind == TokenKind::Eof,
        b_end.kind == TokenKind::Eof,
        forall|k: int| 0 <= k < a.len() ==> (#[trigger] a[k]).kind != TokenKind::Eof,
        forall|k: int| 0 <= k < b.len() ==> (#[trigger] b[k]).kind != TokenKind::Eof,
    ensures
        (p_program(a.push(a_end), 0), p_program(b.push(b_end), 0)) matches (
            Parsed::Yes(u, _),
            Parsed::Yes(v, _),
        ) ==> p_program((a + b).push(b_end), 0) == Parsed::Yes(
            CompilationUnitV { declarations: u.declarations + v.declarations },
            (a.len() + b.len()) as int,
        ),
{
    let ts = a.push(a_end);
    let ss = b.push(b_end);
    let us = (a + b).push(b_end);
    match (p_decls(ts, 0, Seq::empty()), p_decls(ss, 0, Seq::empty())) {
        (Parsed::Yes(u, _), Parsed::Yes(_v, _)) => {
            lemma_first(ts, 0, Seq::empty(), us, a.len() as int);
            lemma_second(ss, 0, u, Seq::empty(), us, a.len() as int, b.len() as int);
            assert(u + Seq::<TopLevelDeclV>::empty() =~= u);
        },
        _ => {},
    }
}

} // verus!
