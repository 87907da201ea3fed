//! How the numbers that Cranelift gives out follow the steps.

use crate::backend::plan::{finished, grown, is_block, num, touching, Made, Numbers, Progress};
use crate::backend::trace::{
    grows, has_block, has_slot, is_complete, params_of, result_of, site, site_after, var_width,
    width_of, Event, Trace,
};
use vstd::prelude::*;

verus! {

/// The lists of a progress go by the same positions as the numbers.
pub open spec fn sized(p: Progress, ns: Seq<Numbers>) -> bool {
    &&& ns.len() == p.made.len()
    &&& p.params.len() == p.made.len()
    &&& p.touched.len() == p.made.len()
    &&& p.filled.len() == p.made.len()
    &&& p.sealed.len() == p.made.len()
}

/// What step `a` made is what the calls gave its number for.
pub open spec fn agrees_at(t: Trace, p: Progress, ns: Seq<Numbers>, a: int) -> bool {
    let n = ns[a].made;
    match p.made[a] {
        Made::Nothing => true,
        Made::Block => {
            &&& has_block(t.events, n)
            &&& site(t.events).touched.contains(n) == p.touched[a]
            &&& site(t.events).filled.contains(n) == p.filled[a]
            &&& site(t.events).sealed.contains(n) == p.sealed[a]
            &&& params_of(t.events, n, t.shape.params) == p.params[a]
        },
        Made::Value(w) => width_of(t.events, n) == Some(w),
        Made::Slot => has_slot(t.events, n),
        Made::Var(w) => var_width(t.events, n) == Some(w),
    }
}

/// Some step made the block of this number.
pub open spec fn made_block(p: Progress, ns: Seq<Numbers>, b: u32) -> bool {
    exists|a: int| 0 <= a < p.made.len() && #[trigger] p.made[a] == Made::Block && ns[a].made == b
}

/// The calls so far are those of the steps so far.
pub open spec fn agrees(t: Trace, p: Progress, ns: Seq<Numbers>) -> bool {
    &&& sized(p, ns)
    &&& forall|a: int| 0 <= a < p.made.len() ==> #[trigger] agrees_at(t, p, ns, a)
    &&& forall|a: int, b: int| 0 <= a < b < p.made.len() && #[trigger] p.made[a] == Made::Block && #[trigger] p.made[b] == Made::Block ==> ns[a].made != ns[b].made
    &&& forall|b: u32| #[trigger] has_block(t.events, b) ==> made_block(p, ns, b)
    &&& forall|b: u32| !#[trigger] has_block(t.events, b) ==> unseen(t, b)
    &&& match p.at {
        None => site(t.events).at is None,
        Some(a) => is_block(p, a) && site(t.events).at == Some(num(ns, a)),
    }
}

/// A call that leaves the blocks, the slots and the variables alone.
pub open spec fn is_quiet(e: Event) -> bool {
    match e {
        Event::CreateBlock { .. } => false,
        Event::EnterFunction { .. } => false,
        Event::AddParam { .. } => false,
        Event::SwitchTo { .. } => false,
        Event::Seal { .. } => false,
        Event::Jump { .. } => false,
        Event::Branch { .. } => false,
        Event::Return { .. } => false,
        Event::CreateSlot { .. } => false,
        Event::DeclareVar { .. } => false,
        _ => true,
    }
}

/// What one call more changes.
pub proof fn lemma_grows(t: Trace, u: Trace, e: Event)
    requires
        grows(t, u, e),
    ensures
        u.events.drop_last() == t.events,
        u.events.last() == e,
        u.shape == t.shape,
        site(u.events) == site_after(site(t.events), e),
        forall|v: u32| width_of(t.events, v) is Some ==> #[trigger] width_of(u.events, v) == width_of(t.events, v),
        result_of(e) matches Some(r) ==> width_of(u.events, r.0) == Some(r.1),
        forall|b: u32| #[trigger] has_block(u.events, b) == (
            e == (Event::CreateBlock { block: b }) || has_block(t.events, b)
        ),
        forall|s: u32| has_slot(t.events, s) ==> #[trigger] has_slot(u.events, s),
{
    assert(u.events.drop_last() =~= t.events);
}

/// A call that changes no variables.
pub proof fn lemma_same_vars(t: Trace, u: Trace, e: Event, v: u32)
    requires
        grows(t, u, e),
        !(e is DeclareVar) || e->DeclareVar_var != v,
    ensures
        var_width(u.events, v) == var_width(t.events, v),
{
    lemma_grows(t, u, e);
}

/// A call that changes the parameters of no block, or of another one.
pub proof fn lemma_same_params(t: Trace, u: Trace, e: Event, b: u32)
    requires
        grows(t, u, e),
        e is EnterFunction ==> e->EnterFunction_block != b,
        e is AddParam ==> e->AddParam_block != b,
    ensures
        params_of(u.events, b, u.shape.params) == params_of(t.events, b, t.shape.params),
{
    lemma_grows(t, u, e);
}

/// After a quiet call everything is as before.
pub proof fn lemma_quiet(t: Trace, u: Trace, e: Event, p: Progress, ns: Seq<Numbers>)
    requires
        agrees(t, p, ns),
        grows(t, u, e),
        is_quiet(e),
    ensures
        agrees(u, p, ns),
{
    lemma_grows(t, u, e);
    assert forall|a: int| 0 <= a < p.made.len() implies #[trigger] agrees_at(u, p, ns, a) by {
        assert(agrees_at(t, p, ns, a));
        lemma_same_vars(t, u, e, ns[a].made);
        lemma_same_params(t, u, e, ns[a].made);
    }
    assert forall|b: u32| !#[trigger] has_block(u.events, b) implies unseen(u, b) by {
        assert(!has_block(t.events, b));
        lemma_same_params(t, u, e, b);
    }
}

/// One step more, whose number the calls gave for what it made; it is no block.
pub proof fn lemma_grown(t: Trace, p: Progress, ns: Seq<Numbers>, m: Made, n: Numbers)
    requires
        agrees(t, p, ns),
        match m {
            Made::Nothing => true,
            Made::Block => false,
            Made::Value(w) => width_of(t.events, n.made) == Some(w),
            Made::Slot => has_slot(t.events, n.made),
            Made::Var(w) => var_width(t.events, n.made) == Some(w),
        },
    ensures
        agrees(t, grown(p, m), ns.push(n)),
{
    let q = grown(p, m);
    let ms = ns.push(n);
    assert forall|a: int| 0 <= a < q.made.len() implies #[trigger] agrees_at(t, q, ms, a) by {
        if a < p.made.len() {
            assert(agrees_at(t, p, ns, a));
            assert(q.made[a] == p.made[a] && q.params[a] == p.params[a] && q.touched[a] == p.touched[a] && q.filled[a] == p.filled[a] && q.sealed[a] == p.sealed[a] && ms[a] == ns[a]);
        } else {
            assert(q.made[a] == m && ms[a] == n);
        }
    }
    assert forall|b: u32| #[trigger] has_block(t.events, b) implies made_block(q, ms, b) by {
        assert(made_block(p, ns, b));
        let a = choose|a: int| 0 <= a < p.made.len() && #[trigger] p.made[a] == Made::Block && ns[a].made == b;
        assert(q.made[a] == Made::Block && ms[a].made == b);
    }
    assert forall|a: int, b: int| 0 <= a < b < q.made.len() && #[trigger] q.made[a] == Made::Block && #[trigger] q.made[b] == Made::Block implies ms[a].made != ms[b].made by {
        assert(b < p.made.len());
        assert(p.made[a] == Made::Block && p.made[b] == Made::Block);
    }
}

/// A new block.
pub proof fn lemma_new_block(t: Trace, u: Trace, p: Progress, ns: Seq<Numbers>, n: Numbers)
    requires
        agrees(t, p, ns),
        grows(t, u, Event::CreateBlock { block: n.made }),
        !has_block(t.events, n.made),
    ensures
        agrees(u, grown(p, Made::Block), ns.push(n)),
{
    let e = Event::CreateBlock { block: n.made };
    let q = grown(p, Made::Block);
    let ms = ns.push(n);
    lemma_grows(t, u, e);
    assert forall|a: int| 0 <= a < q.made.len() implies #[trigger] agrees_at(u, q, ms, a) by {
        lemma_same_vars(t, u, e, ms[a].made);
        lemma_same_params(t, u, e, ms[a].made);
        if a < p.made.len() {
            assert(agrees_at(t, p, ns, a));
            assert(q.made[a] == p.made[a] && q.params[a] == p.params[a] && q.touched[a] == p.touched[a] && q.filled[a] == p.filled[a] && q.sealed[a] == p.sealed[a] && ms[a] == ns[a]);
        } else {
            assert(q.made[a] == Made::Block && ms[a] == n && q.params[a] == Seq::<u16>::empty());
        }
    }
    assert forall|b: u32| !#[trigger] has_block(u.events, b) implies unseen(u, b) by {
        assert(!has_block(t.events, b));
        lemma_same_params(t, u, e, b);
    }
    assert forall|b: u32| #[trigger] has_block(u.events, b) implies made_block(q, ms, b) by {
        if has_block(t.events, b) {
            assert(made_block(p, ns, b));
            let a = choose|a: int| 0 <= a < p.made.len() && #[trigger] p.made[a] == Made::Block && ns[a].made == b;
            assert(q.made[a] == Made::Block && ms[a].made == b);
        } else {
            assert(q.made[p.made.len() as int] == Made::Block && ms[p.made.len() as int].made == b);
        }
    }
    assert forall|a: int, b: int| 0 <= a < b < q.made.len() && #[trigger] q.made[a] == Made::Block && #[trigger] q.made[b] == Made::Block implies ms[a].made != ms[b].made by {
        assert(p.made[a] == Made::Block);
        assert(agrees_at(t, p, ns, a));
        if b < p.made.len() {
            assert(p.made[b] == Made::Block);
        }
    }
}

/// Nothing was done with a block of this number.
pub open spec fn unseen(t: Trace, b: u32) -> bool {
    &&& !site(t.events).touched.contains(b)
    &&& !site(t.events).filled.contains(b)
    &&& !site(t.events).sealed.contains(b)
    &&& params_of(t.events, b, t.shape.params) == Seq::<u16>::empty()
}

/// A call on blocks that leaves the progress `q`.
pub proof fn lemma_blocks(t: Trace, u: Trace, e: Event, p: Progress, q: Progress, ns: Seq<Numbers>)
    requires
        agrees(t, p, ns),
        grows(t, u, e),
        !(e is CreateBlock) && !(e is DeclareVar),
        sized(q, ns),
        q.made == p.made,
        forall|a: int| 0 <= a < p.made.len() && p.made[a] == Made::Block ==> #[trigger] block_agrees(u, q, ns, a),
        forall|b: u32| !#[trigger] has_block(t.events, b) ==> unseen(u, b),
        match q.at {
            None => site(u.events).at is None,
            Some(a) => is_block(q, a) && site(u.events).at == Some(num(ns, a)),
        },
    ensures
        agrees(u, q, ns),
{
    lemma_grows(t, u, e);
    assert forall|a: int| 0 <= a < q.made.len() implies #[trigger] agrees_at(u, q, ns, a) by {
        assert(agrees_at(t, p, ns, a));
        lemma_same_vars(t, u, e, ns[a].made);
        if p.made[a] == Made::Block {
            assert(block_agrees(u, q, ns, a));
        }
    }
    assert forall|b: u32| #[trigger] has_block(u.events, b) implies made_block(q, ns, b) by {
        assert(made_block(p, ns, b));
        let a = choose|a: int| 0 <= a < p.made.len() && #[trigger] p.made[a] == Made::Block && ns[a].made == b;
        assert(q.made[a] == Made::Block);
    }
    assert forall|a: int, b: int| 0 <= a < b < q.made.len() && #[trigger] q.made[a] == Made::Block && #[trigger] q.made[b] == Made::Block implies ns[a].made != ns[b].made by {
        assert(p.made[a] == Made::Block && p.made[b] == Made::Block);
    }
}

/// What is known of the block that step `a` made.
pub open spec fn block_agrees(t: Trace, p: Progress, ns: Seq<Numbers>, a: int) -> bool {
    let n = ns[a].made;
    &&& site(t.events).touched.contains(n) == p.touched[a]
    &&& site(t.events).filled.contains(n) == p.filled[a]
    &&& site(t.events).sealed.contains(n) == p.sealed[a]
    &&& params_of(t.events, n, t.shape.params) == p.params[a]
}

/// Two blocks are the same where their numbers are.
pub proof fn lemma_same_block(t: Trace, p: Progress, ns: Seq<Numbers>, a: int, b: int)
    requires
        agrees(t, p, ns),
        0 <= a < p.made.len(),
        0 <= b < p.made.len(),
        p.made[a] == Made::Block,
        p.made[b] == Made::Block,
    ensures
        ns[a].made == ns[b].made ==> a == b,
{
}

/// The function gets its parameters.
pub proof fn lemma_enter(t: Trace, u: Trace, p: Progress, ns: Seq<Numbers>, b: usize)
    requires
        agrees(t, p, ns),
        is_block(p, b),
        grows(t, u, Event::EnterFunction { block: num(ns, b) }),
    ensures
        agrees(
            u,
            touching(
                Progress { params: p.params.update(b as int, p.params[b as int] + t.shape.params), ..p },
                b,
            ),
            ns,
        ),
{
    let e = Event::EnterFunction { block: num(ns, b) };
    let q = touching(
        Progress { params: p.params.update(b as int, p.params[b as int] + t.shape.params), ..p },
        b,
    );
    lemma_grows(t, u, e);
    assert(agrees_at(t, p, ns, b as int));
    assert forall|a: int| 0 <= a < p.made.len() && p.made[a] == Made::Block implies #[trigger] block_agrees(u, q, ns, a) by {
        assert(agrees_at(t, p, ns, a));
        lemma_same_block(t, p, ns, a, b as int);
        if a != b as int {
            lemma_same_params(t, u, e, ns[a].made);
        }
    }
    assert forall|c: u32| !#[trigger] has_block(t.events, c) implies unseen(u, c) by {
        lemma_same_params(t, u, e, c);
    }
    lemma_blocks(t, u, e, p, q, ns);
}

/// A block gets a parameter.
pub proof fn lemma_add_param(
    t: Trace,
    u: Trace,
    p: Progress,
    ns: Seq<Numbers>,
    b: usize,
    width: u16,
    value: u32,
)
    requires
        agrees(t, p, ns),
        is_block(p, b),
        grows(t, u, Event::AddParam { block: num(ns, b), width, value }),
    ensures
        agrees(
            u,
            Progress { params: p.params.update(b as int, p.params[b as int].push(width)), ..p },
            ns,
        ),
{
    let e = Event::AddParam { block: num(ns, b), width, value };
    let q = Progress { params: p.params.update(b as int, p.params[b as int].push(width)), ..p };
    lemma_grows(t, u, e);
    assert(agrees_at(t, p, ns, b as int));
    assert forall|a: int| 0 <= a < p.made.len() && p.made[a] == Made::Block implies #[trigger] block_agrees(u, q, ns, a) by {
        assert(agrees_at(t, p, ns, a));
        lemma_same_block(t, p, ns, a, b as int);
        if a != b as int {
            lemma_same_params(t, u, e, ns[a].made);
        }
    }
    assert forall|c: u32| !#[trigger] has_block(t.events, c) implies unseen(u, c) by {
        lemma_same_params(t, u, e, c);
    }
    lemma_blocks(t, u, e, p, q, ns);
}

/// Code goes to another block.
pub proof fn lemma_switch(t: Trace, u: Trace, p: Progress, ns: Seq<Numbers>, b: usize)
    requires
        agrees(t, p, ns),
        is_block(p, b),
        grows(t, u, Event::SwitchTo { block: num(ns, b) }),
    ensures
        agrees(u, touching(Progress { at: Some(b), ..p }, b), ns),
{
    let e = Event::SwitchTo { block: num(ns, b) };
    let q = touching(Progress { at: Some(b), ..p }, b);
    lemma_grows(t, u, e);
    assert(agrees_at(t, p, ns, b as int));
    assert forall|a: int| 0 <= a < p.made.len() && p.made[a] == Made::Block implies #[trigger] block_agrees(u, q, ns, a) by {
        assert(agrees_at(t, p, ns, a));
        lemma_same_block(t, p, ns, a, b as int);
        lemma_same_params(t, u, e, ns[a].made);
    }
    assert forall|c: u32| !#[trigger] has_block(t.events, c) implies unseen(u, c) by {
        lemma_same_params(t, u, e, c);
    }
    lemma_blocks(t, u, e, p, q, ns);
}

/// A block is sealed.
pub proof fn lemma_seal(t: Trace, u: Trace, p: Progress, ns: Seq<Numbers>, b: usize)
    requires
        agrees(t, p, ns),
        is_block(p, b),
        grows(t, u, Event::Seal { block: num(ns, b) }),
    ensures
        agrees(u, touching(Progress { sealed: p.sealed.update(b as int, true), ..p }, b), ns),
{
    let e = Event::Seal { block: num(ns, b) };
    let q = touching(Progress { sealed: p.sealed.update(b as int, true), ..p }, b);
    lemma_grows(t, u, e);
    assert(agrees_at(t, p, ns, b as int));
    assert forall|a: int| 0 <= a < p.made.len() && p.made[a] == Made::Block implies #[trigger] block_agrees(u, q, ns, a) by {
        assert(agrees_at(t, p, ns, a));
        lemma_same_block(t, p, ns, a, b as int);
        lemma_same_params(t, u, e, ns[a].made);
    }
    assert forall|c: u32| !#[trigger] has_block(t.events, c) implies unseen(u, c) by {
        lemma_same_params(t, u, e, c);
    }
    lemma_blocks(t, u, e, p, q, ns);
}

/// The blocks that a jump, a branch or a return leads to.
pub open spec fn leads_to(e: Event, n: u32) -> bool {
    match e {
        Event::Jump { block, .. } => block == n,
        Event::Branch { yes, no, .. } => yes == n || no == n,
        _ => false,
    }
}

/// The block that code goes to ends; `q` is the progress after that.
pub proof fn lemma_fill(t: Trace, u: Trace, e: Event, p: Progress, q: Progress, ns: Seq<Numbers>)
    requires
        agrees(t, p, ns),
        grows(t, u, e),
        e is Jump || e is Branch || e is Return,
        p.at is Some,
        sized(q, ns),
        q.made == p.made,
        q.params == p.params,
        q.sealed == p.sealed,
        q.at == p.at,
        q.filled == p.filled.update(p.at->0 as int, true),
        forall|a: int| 0 <= a < p.made.len() && #[trigger] p.made[a] == Made::Block ==> q.touched[a] == (p.touched[a] || leads_to(e, ns[a].made)),
        forall|c: u32| !#[trigger] has_block(t.events, c) ==> !leads_to(e, c),
    ensures
        agrees(u, q, ns),
{
    let at = p.at->0;
    lemma_grows(t, u, e);
    assert(agrees_at(t, p, ns, at as int));
    assert forall|a: int| 0 <= a < p.made.len() && p.made[a] == Made::Block implies #[trigger] block_agrees(u, q, ns, a) by {
        assert(agrees_at(t, p, ns, a));
        lemma_same_block(t, p, ns, a, at as int);
        lemma_same_params(t, u, e, ns[a].made);
    }
    assert forall|c: u32| !#[trigger] has_block(t.events, c) implies unseen(u, c) by {
        lemma_same_params(t, u, e, c);
    }
    lemma_blocks(t, u, e, p, q, ns);
}

/// A new slot.
pub proof fn lemma_new_slot(
    t: Trace,
    u: Trace,
    p: Progress,
    ns: Seq<Numbers>,
    size: u32,
    align_shift: u8,
    slot: u32,
)
    requires
        agrees(t, p, ns),
        grows(t, u, Event::CreateSlot { size, align_shift, slot }),
    ensures
        agrees(u, p, ns),
        has_slot(u.events, slot),
{
    let e = Event::CreateSlot { size, align_shift, slot };
    lemma_grows(t, u, e);
    assert forall|a: int| 0 <= a < p.made.len() && p.made[a] == Made::Block implies #[trigger] block_agrees(u, p, ns, a) by {
        assert(agrees_at(t, p, ns, a));
        lemma_same_params(t, u, e, ns[a].made);
    }
    assert forall|c: u32| !#[trigger] has_block(t.events, c) implies unseen(u, c) by {
        lemma_same_params(t, u, e, c);
    }
    lemma_blocks(t, u, e, p, p, ns);
}

/// A new variable.
pub proof fn lemma_new_variable(
    t: Trace,
    u: Trace,
    p: Progress,
    ns: Seq<Numbers>,
    width: u16,
    var: u32,
)
    requires
        agrees(t, p, ns),
        grows(t, u, Event::DeclareVar { width, var }),
        var_width(t.events, var) is None,
    ensures
        agrees(u, p, ns),
        var_width(u.events, var) == Some(width),
{
    let e = Event::DeclareVar { width, var };
    lemma_grows(t, u, e);
    assert forall|a: int| 0 <= a < p.made.len() implies #[trigger] agrees_at(u, p, ns, a) by {
        assert(agrees_at(t, p, ns, a));
        lemma_same_params(t, u, e, ns[a].made);
        if p.made[a] is Var {
            lemma_same_vars(t, u, e, ns[a].made);
        }
    }
    assert forall|c: u32| !#[trigger] has_block(u.events, c) implies unseen(u, c) by {
        assert(!has_block(t.events, c));
        lemma_same_params(t, u, e, c);
    }
}

/// Where every block of the steps ends and is sealed, so does every block that
/// was made.
pub proof fn lemma_complete(t: Trace, p: Progress, ns: Seq<Numbers>)
    requires
        agrees(t, p, ns),
        finished(p),
    ensures
        is_complete(t),
{
    assert forall|b: u32| #[trigger] has_block(t.events, b) implies site(t.events).filled.contains(b) && site(t.events).sealed.contains(b) by {
        assert(made_block(p, ns, b));
        let a = choose|a: int| 0 <= a < p.made.len() && #[trigger] p.made[a] == Made::Block && ns[a].made == b;
        assert(agrees_at(t, p, ns, a));
    }
}

} // verus!

