//! The code of an expression makes sense: every step takes what earlier steps
//! made.

use crate::backend::plan::{
    call_made, call_signature, data_link, func_link, grown, is_slot, next, no_progress, value_width,
    variable_width, Made, Plan, Progress,
};
use crate::compiler::code::{
    CodeSignatureV, DataRef, FuncInfoV, IrType, LocalVarV, StepV, StructFieldLayoutV,
};
use crate::compiler::laws::law_signature_shape;
use crate::compiler::rules::{
    arg_type, emit, element_offset, g_access_offset, g_access_type, g_args, g_array_room, g_callee,
    g_copy, g_copy_elements, g_copy_fields, g_copy_part, g_copy_pointer, g_copy_to, g_copy_words,
    g_element, g_elements, g_enum_size, g_expr, g_field_offset, g_field_type, g_fill,
    g_finish_call, g_global, g_inits, g_literal, g_literal_size, g_local, g_move, g_operator,
    g_path, g_path_place, g_place, g_put, g_read, g_result_room, g_room, g_signature, g_size,
    g_target, g_text, g_type, is_aggregate, known_length, next_step, operand_type, text_index,
    types_from, GenEnv, GenState,
};
use crate::hir::{DefId, HirTypeV};
use crate::table::lookup;
use crate::tyhir::{TyHirExprKindV, TyHirExprV};
use vstd::prelude::*;

verus! {

/// The progress after a step, where a variable may be given a value of any
/// width.
pub open spec fn next_any(p: Progress, st: StepV, e: Plan) -> Option<Progress> {
    match st {
        StepV::SetVar(
            x,
            v,
        ) => if p.at is Some && variable_width(p, x) is Some && value_width(p, v) is Some {
            Some(grown(p, Made::Nothing))
        } else {
            None
        },
        _ => next(p, st, e),
    }
}

/// The progress after the first `n` steps, where variables may be given values
/// of any width.
pub open spec fn run_any(steps: Seq<StepV>, n: int, e: Plan) -> Option<Progress>
    decreases n,
{
    if n <= 0 {
        Some(no_progress())
    } else {
        match run_any(steps, n - 1, e) {
            Some(p) => next_any(p, steps[n - 1], e),
            None => None,
        }
    }
}

/// Whether all that a program can refer to is linked: its functions, its global
/// variables, and its first `n` string literals.
pub open spec fn linked(env: GenEnv, e: Plan, n: nat) -> bool {
    &&& forall|d: DefId| #[trigger] env.funcs.dom().contains(d) ==> (func_link(e.links.functions, d, 0) matches Some(l) && (is_aggregate(env.funcs[d].ret_ty) || l.signature.returns is Some))
    &&& forall|d: DefId| #[trigger] env.data.dom().contains(d) ==> data_link(e.links.data, DataRef::Global(d), 0) is Some
    &&& forall|i: usize| i < n ==> #[trigger] data_link(e.links.data, DataRef::Text(i), 0) is Some
}

// Progress

/// The progress that code has made.
pub open spec fn prog(s: GenState, e: Plan) -> Option<Progress> {
    run_any(s.steps, s.steps.len() as int, e)
}

pub proof fn lemma_run_prefix(a: Seq<StepV>, b: Seq<StepV>, n: int, e: Plan)
    requires
        n <= a.len(),
        n <= b.len(),
        forall|i: int| 0 <= i < n ==> a[i] == b[i],
    ensures
        run_any(a, n, e) == run_any(b, n, e),
    decreases n,
{
    if n > 0 {
        lemma_run_prefix(a, b, n - 1, e);
    }
}

pub proof fn lemma_emit(s: GenState, st: StepV, e: Plan)
    ensures
        prog(emit(s, st), e) == (match prog(s, e) {
                Some(p) => next_any(p, st, e),
                None => None,
        }),
{
    lemma_run_prefix(s.steps, emit(s, st).steps, s.steps.len() as int, e);
}

/// The lists of a progress have one entry for each step.
pub open spec fn lens(p: Progress, n: nat) -> bool {
    p.made.len() == n && p.params.len() == n && p.touched.len() == n && p.filled.len() == n && p.sealed.len() == n
}

/// Code goes to a block that does not end yet.
pub open spec fn open_block(p: Progress) -> bool {
    p.at matches Some(a) && a < p.made.len() && p.made[a as int] == Made::Block && !p.filled[a as int]
}

/// The local variables are kept where steps made room for them.
pub open spec fn vars_ok(vars: Map<DefId, LocalVarV>, p: Progress) -> bool {
    forall|d: DefId| #[trigger] vars.dom().contains(d) ==> {
        &&& vars[d].slot matches Some(x) ==> is_slot(p, x)
        &&& vars[d].var matches Some(x) ==> variable_width(p, x) is Some
    }
}

/// Code can be added.
#[verifier::opaque]
pub open spec fn ready(s: GenState, e: Plan) -> bool {
    &&& s.steps.len() <= usize::MAX
    &&& prog(s, e) matches Some(p) && lens(p, s.steps.len()) && open_block(p) && vars_ok(s.vars, p)
}

/// A step made a value.
#[verifier::opaque]
pub open spec fn val(s: GenState, v: usize, e: Plan) -> bool {
    prog(s, e) matches Some(p) && value_width(p, v) is Some
}

/// A step made a slot.
#[verifier::opaque]
pub open spec fn slot(s: GenState, v: usize, e: Plan) -> bool {
    prog(s, e) matches Some(p) && is_slot(p, v)
}

/// A step made a variable.
#[verifier::opaque]
pub open spec fn variable(s: GenState, v: usize, e: Plan) -> bool {
    prog(s, e) matches Some(p) && variable_width(p, v) is Some
}

/// What was made stays.
pub open spec fn kept(p: Progress, q: Progress) -> bool {
    &&& p.made.len() <= q.made.len()
    &&& forall|i: int| 0 <= i < p.made.len() ==> #[trigger] q.made[i] == p.made[i]
}

/// Steps were added to the same block, and no block was made.
pub open spec fn flat(p: Progress, q: Progress) -> bool {
    &&& kept(p, q)
    &&& q.at == p.at
    &&& forall|i: int| 0 <= i < p.made.len() ==> #[trigger] q.filled[i] == p.filled[i]
    &&& forall|i: int| 0 <= i < p.made.len() ==> #[trigger] q.sealed[i] == p.sealed[i]
    &&& forall|i: int| 0 <= i < p.made.len() ==> #[trigger] q.params[i] == p.params[i]
    &&& forall|i: int| p.made.len() <= i < q.made.len() ==> #[trigger] q.made[i] != Made::Block
}

/// Code was added to the same block, and more can be added.
#[verifier::opaque]
pub open spec fn after(s: GenState, t: GenState, e: Plan) -> bool {
    &&& ready(s, e)
    &&& ready(t, e)
    &&& t.vars == s.vars
    &&& flat(prog(s, e)->0, prog(t, e)->0)
}

/// The code is not too long to be numbered, and no string literal is beyond `n`.
pub open spec fn small(t: GenState, n: nat) -> bool {
    t.steps.len() <= usize::MAX && t.strings.len() <= n
}

/// Code and string literals are only added.
pub open spec fn grows(s: GenState, t: GenState) -> bool {
    s.steps.len() <= t.steps.len() && s.strings.len() <= t.strings.len()
}

/// What was there stays, and no step that was added gives a variable a value.
#[verifier::opaque]
pub open spec fn quiet(s: GenState, t: GenState) -> bool {
    &&& s.steps.len() <= t.steps.len()
    &&& forall|i: int| 0 <= i < s.steps.len() ==> #[trigger] t.steps[i] == s.steps[i]
    &&& forall|i: int| s.steps.len() <= i < t.steps.len() ==> !(#[trigger] t.steps[i] is SetVar)
}

/// Where code can be added and a condition holds, sensible code was added.
pub open spec fn fine(s: GenState, t: GenState, e: Plan, n: nat, c: bool) -> bool {
    grows(s, t) && quiet(s, t) && (ready(s, e) && small(t, n) && c ==> after(s, t, e))
}

/// Where code can be added and a condition holds, code for a value was added.
pub open spec fn gives(s: GenState, t: GenState, v: usize, e: Plan, n: nat, c: bool) -> bool {
    grows(s, t) && quiet(s, t) && (ready(s, e) && small(t, n) && c ==> after(s, t, e) && val(t, v, e))
}

proof fn lemma_quiet(s: GenState, t: GenState, u: GenState)
    ensures
        quiet(s, t) && quiet(t, u) ==> quiet(s, u),
{
    reveal(quiet);
    if quiet(s, t) && quiet(t, u) {
        assert forall|i: int| 0 <= i < s.steps.len() implies #[trigger] u.steps[i] == s.steps[i] by {
            assert(u.steps[i] == t.steps[i]);
        }
        assert forall|i: int| s.steps.len() <= i < u.steps.len() implies !(#[trigger] u.steps[i] is SetVar) by {
            if i < t.steps.len() {
                assert(u.steps[i] == t.steps[i]);
            }
        }
    }
}

/// What holds of code that was added in two parts.
pub proof fn lemma_chain(s: GenState, t: GenState, u: GenState, e: Plan)
    ensures
        after(s, t, e) ==> ready(t, e) && ready(s, e) && t.vars == s.vars,
        after(s, t, e) && after(t, u, e) ==> after(s, u, e),
        after(s, t, e) ==> forall|v: usize| val(s, v, e) ==> #[trigger] val(t, v, e),
        after(s, t, e) ==> forall|v: usize| slot(s, v, e) ==> #[trigger] slot(t, v, e),
        after(s, t, e) ==> forall|v: usize| variable(s, v, e) ==> #[trigger] variable(t, v, e),
        quiet(s, t) && quiet(t, u) ==> quiet(s, u),
{
    lemma_quiet(s, t, u);
    reveal(after);
    reveal(ready);
    reveal(val);
    reveal(slot);
    reveal(variable);
}

/// Nothing was added.
pub proof fn lemma_same(s: GenState, e: Plan)
    ensures
        ready(s, e) ==> after(s, s, e),
        quiet(s, s),
{
    reveal(after);
    reveal(quiet);
}

/// What a step takes is there.
pub open spec fn takes(s: GenState, st: StepV, e: Plan) -> bool {
    match st {
        StepV::Const(_, _) => true,
        StepV::Symbol(d) => data_link(e.links.data, d, 0) is Some,
        StepV::Add(l, r) => val(s, l, e) && val(s, r, e),
        StepV::Sub(l, r) => val(s, l, e) && val(s, r, e),
        StepV::Mul(l, r) => val(s, l, e) && val(s, r, e),
        StepV::Div(l, r) => val(s, l, e) && val(s, r, e),
        StepV::Offset(v, _) => val(s, v, e),
        StepV::Compare(_, l, r) => val(s, l, e) && val(s, r, e),
        StepV::Extend(v) => val(s, v, e),
        StepV::Load(_, a) => val(s, a, e),
        StepV::Store(v, a) => val(s, v, e) && val(s, a, e),
        StepV::CreateSlot(_, _) => true,
        StepV::SlotAddr(x) => slot(s, x, e),
        StepV::DeclareVar(_) => true,
        StepV::SetVar(x, v) => variable(s, x, e) && val(s, v, e),
        StepV::GetVar(x) => variable(s, x, e),
        _ => false,
    }
}

/// Whether a step makes a value.
pub open spec fn makes_value(st: StepV) -> bool {
    !(st is Store || st is CreateSlot || st is DeclareVar || st is SetVar)
}

/// A step that takes what is there.
pub proof fn lemma_step(s: GenState, st: StepV, e: Plan, n: nat)
    ensures
        grows(s, emit(s, st)),
        !(st is SetVar) ==> quiet(s, emit(s, st)),
        ready(s, e) && small(emit(s, st), n) && takes(s, st, e) ==> {
            let t = emit(s, st);
            &&& after(s, t, e)
            &&& makes_value(st) ==> val(t, next_step(s), e)
            &&& st is CreateSlot ==> slot(t, next_step(s), e)
            &&& st is DeclareVar ==> variable(t, next_step(s), e)
        },
{
    let t = emit(s, st);
    assert(!(st is SetVar) ==> quiet(s, t)) by {
        reveal(quiet);
    }
    if ready(s, e) && small(t, n) && takes(s, st, e) {
        reveal(after);
        reveal(ready);
        reveal(val);
        reveal(slot);
        reveal(variable);
        lemma_emit(s, st, e);
        let p = prog(s, e)->0;
        let q = next_any(p, st, e);
        assert(q is Some);
        assert(q->0 == grown(p, q->0.made.last()));
        assert(q->0.made.last() != Made::Block);
        assert(prog(t, e) == q);
        assert(kept(p, q->0));
        assert(vars_ok(t.vars, q->0));
    }
}

// Copies

proof fn lemma_move(s: GenState, t: IrType, from: usize, to: usize, e: Plan, n: nat)
    ensures
        fine(s, g_move(s, t, from, to), e, n, val(s, from, e) && val(s, to, e)),
{
    let s1 = emit(s, StepV::Load(t, from));
    lemma_step(s, StepV::Load(t, from), e, n);
    lemma_step(s1, StepV::Store(next_step(s), to), e, n);
    lemma_chain(s, s1, g_move(s, t, from, to), e);
}

/// Moves a value between two offsets.
proof fn lemma_move_at(s: GenState, t: IrType, from: usize, to: usize, off: i64, e: Plan, n: nat)
    ensures
        ({
                let s1 = emit(s, StepV::Offset(from, off));
                let s2 = emit(s1, StepV::Offset(to, off));
                fine(
                    s,
                    g_move(s2, t, next_step(s), next_step(s1)),
                    e,
                    n,
                    val(s, from, e) && val(s, to, e),
                )
        }),
{
    let s1 = emit(s, StepV::Offset(from, off));
    let s2 = emit(s1, StepV::Offset(to, off));
    let s3 = g_move(s2, t, next_step(s), next_step(s1));
    lemma_step(s, StepV::Offset(from, off), e, n);
    lemma_step(s1, StepV::Offset(to, off), e, n);
    lemma_move(s2, t, next_step(s), next_step(s1), e, n);
    lemma_chain(s, s1, s2, e);
    lemma_chain(s1, s2, s3, e);
    lemma_chain(s, s2, s3, e);
}

proof fn lemma_copy_words(s: GenState, from: usize, to: usize, size: u32, off: int, e: Plan, n: nat)
    ensures
        fine(s, g_copy_words(s, from, to, size, off), e, n, val(s, from, e) && val(s, to, e)),
    decreases size + 8 - off,
{
    lemma_same(s, e);
    if off < size {
        let s1 = emit(s, StepV::Offset(from, off as i64));
        let s2 = emit(s1, StepV::Offset(to, off as i64));
        let s3 = g_move(s2, IrType::I64, next_step(s), next_step(s1));
        lemma_move_at(s, IrType::I64, from, to, off as i64, e, n);
        lemma_copy_words(s3, from, to, size, off + 8, e, n);
        lemma_chain(s, s3, g_copy_words(s3, from, to, size, off + 8), e);
    }
}

proof fn lemma_copy_to(
    env: GenEnv,
    s: GenState,
    v: usize,
    t: HirTypeV,
    to: usize,
    fuel: usize,
    e: Plan,
    n: nat,
)
    ensures
        g_copy_to(env, s, v, t, to, fuel).1 is Ok ==> fine(
            s,
            g_copy_to(env, s, v, t, to, fuel).0,
            e,
            n,
            val(s, v, e) && val(s, to, e),
        ),
    decreases fuel, 0int, t, 0int, 0int,
{
    lemma_step(s, StepV::Store(v, to), e, n);
    match t {
        HirTypeV::Array(el, len) => {
            if let Ok(stride) = g_size(env, *el) {
                if let Ok(k) = known_length(len) {
                    lemma_copy_elements(env, s, v, *el, to, stride, k, 0, fuel, e, n);
                }
            }
        },
        HirTypeV::Named(d) => {
            if let Some(l) = lookup(env.structs, d) {
                if fuel > 0 {
                    lemma_copy_fields(env, s, v, l.fields, to, 0, (fuel - 1) as usize, e, n);
                }
            }
        },
        HirTypeV::Enum(d, _, _) => {
            if let Ok(size) = g_enum_size(env, d) {
                lemma_copy_words(s, v, to, size, 0, e, n);
            }
        },
        HirTypeV::TraitObject(_) => {
            let s1 = g_copy_pointer(s, v, to, 0);
            lemma_move_at(s, IrType::Ptr, v, to, 0, e, n);
            lemma_move_at(s1, IrType::Ptr, v, to, env.ptr_bytes as i64, e, n);
            lemma_chain(s, s1, g_copy_pointer(s1, v, to, env.ptr_bytes as i64), e);
        },
        _ => {},
    }
}

proof fn lemma_copy_part(
    env: GenEnv,
    s: GenState,
    from: usize,
    t: HirTypeV,
    to: usize,
    fuel: usize,
    e: Plan,
    n: nat,
)
    ensures
        g_copy_part(env, s, from, t, to, fuel).1 is Ok ==> fine(
            s,
            g_copy_part(env, s, from, t, to, fuel).0,
            e,
            n,
            val(s, from, e) && val(s, to, e),
        ),
    decreases fuel, 0int, t, 1int, 0int,
{
    if t is Named || t is Array {
        lemma_copy_to(env, s, from, t, to, fuel, e, n);
    } else if let Ok(ir) = g_type(env, t) {
        lemma_move(s, ir, from, to, e, n);
    }
}

/// Two offsets, a copy between them, and what follows.
proof fn lemma_copy_at(
    env: GenEnv,
    s: GenState,
    v: usize,
    t: HirTypeV,
    to: usize,
    off: i64,
    fuel: usize,
    e: Plan,
    n: nat,
)
    requires
        ({
                let s1 = emit(s, StepV::Offset(v, off));
                let s2 = emit(s1, StepV::Offset(to, off));
                let r = g_copy_part(env, s2, next_step(s), t, next_step(s1), fuel);
                r.1 is Ok && fine(
                    s2,
                    r.0,
                    e,
                    n,
                    val(s2, next_step(s), e) && val(s2, next_step(s1), e),
                )
        }),
    ensures
        ({
                let s1 = emit(s, StepV::Offset(v, off));
                let s2 = emit(s1, StepV::Offset(to, off));
                fine(
                    s,
                    g_copy_part(env, s2, next_step(s), t, next_step(s1), fuel).0,
                    e,
                    n,
                    val(s, v, e) && val(s, to, e),
                )
        }),
{
    let s1 = emit(s, StepV::Offset(v, off));
    let s2 = emit(s1, StepV::Offset(to, off));
    let s3 = g_copy_part(env, s2, next_step(s), t, next_step(s1), fuel).0;
    lemma_step(s, StepV::Offset(v, off), e, n);
    lemma_step(s1, StepV::Offset(to, off), e, n);
    lemma_chain(s, s1, s2, e);
    lemma_chain(s1, s2, s3, e);
    lemma_chain(s, s2, s3, e);
}

proof fn lemma_copy_elements(
    env: GenEnv,
    s: GenState,
    v: usize,
    el: HirTypeV,
    to: usize,
    stride: u32,
    k: usize,
    i: usize,
    fuel: usize,
    e: Plan,
    n: nat,
)
    ensures
        g_copy_elements(env, s, v, el, to, stride, k, i, fuel).1 is Ok ==> fine(
            s,
            g_copy_elements(env, s, v, el, to, stride, k, i, fuel).0,
            e,
            n,
            val(s, v, e) && val(s, to, e),
        ),
    decreases fuel, 0int, el, 2int, k - i,
{
    lemma_same(s, e);
    if i < k {
        if let Ok(off) = element_offset(stride, i) {
            let s1 = emit(s, StepV::Offset(v, off));
            let s2 = emit(s1, StepV::Offset(to, off));
            lemma_copy_part(env, s2, next_step(s), el, next_step(s1), fuel, e, n);
            let r = g_copy_part(env, s2, next_step(s), el, next_step(s1), fuel);
            if r.1 is Ok {
                lemma_copy_at(env, s, v, el, to, off, fuel, e, n);
                lemma_copy_elements(env, r.0, v, el, to, stride, k, (i + 1) as usize, fuel, e, n);
                lemma_chain(
                    s,
                    r.0,
                    g_copy_elements(env, r.0, v, el, to, stride, k, (i + 1) as usize, fuel).0,
                    e,
                );
            }
        }
    }
}

proof fn lemma_copy_fields(
    env: GenEnv,
    s: GenState,
    v: usize,
    fs: Seq<StructFieldLayoutV>,
    to: usize,
    i: int,
    fuel: usize,
    e: Plan,
    n: nat,
)
    ensures
        g_copy_fields(env, s, v, fs, to, i, fuel).1 is Ok ==> fine(
            s,
            g_copy_fields(env, s, v, fs, to, i, fuel).0,
            e,
            n,
            val(s, v, e) && val(s, to, e),
        ),
    decreases fuel, 1int, fs, fs.len() - i, 0int,
{
    lemma_same(s, e);
    if 0 <= i < fs.len() {
        let off = fs[i].offset as i64;
        let t = fs[i].field_type;
        let s1 = emit(s, StepV::Offset(v, off));
        let s2 = emit(s1, StepV::Offset(to, off));
        lemma_copy_part(env, s2, next_step(s), t, next_step(s1), fuel, e, n);
        let r = g_copy_part(env, s2, next_step(s), t, next_step(s1), fuel);
        if r.1 is Ok {
            lemma_copy_at(env, s, v, t, to, off, fuel, e, n);
            lemma_copy_fields(env, r.0, v, fs, to, i + 1, fuel, e, n);
            lemma_chain(s, r.0, g_copy_fields(env, r.0, v, fs, to, i + 1, fuel).0, e);
        }
    }
}

pub proof fn lemma_room(s: GenState, size: u32, e: Plan, n: nat)
    ensures
        gives(s, g_room(s, size).0, g_room(s, size).1, e, n, true),
{
    let s1 = emit(s, StepV::CreateSlot(size, 0));
    lemma_step(s, StepV::CreateSlot(size, 0), e, n);
    lemma_step(s1, StepV::SlotAddr(next_step(s)), e, n);
    lemma_chain(s, s1, g_room(s, size).0, e);
}

pub proof fn lemma_copy(env: GenEnv, s: GenState, v: usize, t: HirTypeV, e: Plan, n: nat)
    ensures
        g_copy(env, s, v, t).1 is Ok ==> gives(
            s,
            g_copy(env, s, v, t).0,
            g_copy(env, s, v, t).1->Ok_0,
            e,
            n,
            val(s, v, e),
        ),
{
    lemma_same(s, e);
    if is_aggregate(t) {
        if let Ok(size) = g_size(env, t) {
            if size != 0 {
                let r = g_room(s, size);
                lemma_room(s, size, e, n);
                lemma_copy_to(env, r.0, v, t, r.1, env.depth, e, n);
                lemma_chain(s, r.0, r.0, e);
                lemma_chain(s, r.0, g_copy_to(env, r.0, v, t, r.1, env.depth).0, e);
                lemma_chain(r.0, g_copy_to(env, r.0, v, t, r.1, env.depth).0, r.0, e);
            }
        }
    }
}

/// A value is written to an address.
pub proof fn lemma_write(
    env: GenEnv,
    s: GenState,
    v: usize,
    t: HirTypeV,
    to: usize,
    e: Plan,
    n: nat,
)
    ensures
        g_copy_to(env, s, v, t, to, env.depth).1 is Ok ==> fine(
            s,
            g_copy_to(env, s, v, t, to, env.depth).0,
            e,
            n,
            val(s, v, e) && val(s, to, e),
        ),
{
    lemma_copy_to(env, s, v, t, to, env.depth, e, n);
}

pub proof fn lemma_read(env: GenEnv, s: GenState, addr: usize, t: HirTypeV, e: Plan, n: nat)
    ensures
        g_read(env, s, addr, t).1 is Ok ==> gives(
            s,
            g_read(env, s, addr, t).0,
            g_read(env, s, addr, t).1->Ok_0,
            e,
            n,
            val(s, addr, e),
        ),
{
    lemma_same(s, e);
    if !(t is Named || t is Array) {
        if let Ok(ir) = g_type(env, t) {
            let s1 = emit(s, StepV::Load(ir, addr));
            lemma_step(s, StepV::Load(ir, addr), e, n);
            lemma_copy(env, s1, next_step(s), t, e, n);
            lemma_chain(s, s1, g_copy(env, s1, next_step(s), t).0, e);
        }
    }
}

// Names

proof fn lemma_text(s: GenState, text: Seq<char>, i: int)
    requires
        0 <= i,
    ensures
        text_index(s.strings, text, i) is Some && s.strings.len() <= usize::MAX ==> text_index(s.strings, text, i)->0 < s.strings.len(),
    decreases s.strings.len() - i,
{
    if i < s.strings.len() {
        lemma_text(s, text, i + 1);
    }
}

pub proof fn lemma_literal(
    env: GenEnv,
    s: GenState,
    l: crate::ast::LiteralV,
    want: HirTypeV,
    e: Plan,
    n: nat,
)
    requires
        linked(env, e, n),
        n <= usize::MAX,
    ensures
        g_literal(s, l, want).1 is Ok ==> gives(
            s,
            g_literal(s, l, want).0,
            g_literal(s, l, want).1->Ok_0,
            e,
            n,
            true,
        ),
{
    reveal(g_literal);
    match l {
        crate::ast::LiteralV::Int(k) => {
            lemma_step(s, StepV::Const(IrType::I64, k), e, n);
        },
        crate::ast::LiteralV::String(text) => {
            let t = g_text(s, text);
            lemma_text(s, text, 0);
            let st = StepV::Symbol(DataRef::Text(t.1));
            lemma_step(t.0, st, e, n);
            assert(quiet(s, t.0)) by {
                reveal(quiet);
            }
            lemma_quiet(s, t.0, emit(t.0, st));
            if ready(s, e) && small(emit(t.0, st), n) {
                assert(t.1 < n);
                assert(data_link(e.links.data, DataRef::Text(t.1), 0) is Some);
                assert(after(s, t.0, e)) by {
                    reveal(after);
                    reveal(ready);
                }
                lemma_chain(s, t.0, emit(t.0, st), e);
            }
        },
    }
}

/// Where a local variable is kept.
proof fn lemma_var(s: GenState, d: DefId, e: Plan)
    requires
        s.vars.dom().contains(d),
        ready(s, e),
    ensures
        s.vars[d].slot matches Some(x) ==> slot(s, x, e),
        s.vars[d].var matches Some(x) ==> variable(s, x, e),
{
    reveal(ready);
    reveal(slot);
    reveal(variable);
}

/// Where the variable of a name is kept, if code can be added.
pub open spec fn placed(s: GenState, info: LocalVarV, e: Plan) -> bool {
    &&& info.slot matches Some(x) ==> slot(s, x, e)
    &&& info.var matches Some(x) ==> variable(s, x, e)
}

pub proof fn lemma_placed(s: GenState, d: DefId, e: Plan)
    ensures
        lookup(s.vars, d) is Some && ready(s, e) ==> placed(s, lookup(s.vars, d)->0, e),
{
    if lookup(s.vars, d) is Some && ready(s, e) {
        lemma_var(s, d, e);
    }
}

proof fn lemma_local(env: GenEnv, s: GenState, info: LocalVarV, e: Plan, n: nat)
    ensures
        g_local(env, s, info).1 is Ok ==> gives(
            s,
            g_local(env, s, info).0,
            g_local(env, s, info).1->Ok_0,
            e,
            n,
            placed(s, info, e),
        ),
{
    match info.slot {
        Some(x) => {
            if let Ok(ir) = g_type(env, info.ty) {
                let s1 = emit(s, StepV::SlotAddr(x));
                lemma_step(s, StepV::SlotAddr(x), e, n);
                lemma_step(s1, StepV::Load(ir, next_step(s)), e, n);
                lemma_chain(s, s1, emit(s1, StepV::Load(ir, next_step(s))), e);
            }
        },
        None => {
            if let Some(x) = info.var {
                lemma_step(s, StepV::GetVar(x), e, n);
            }
        },
    }
}

proof fn lemma_path(env: GenEnv, s: GenState, d: DefId, want: HirTypeV, e: Plan, n: nat)
    requires
        linked(env, e, n),
    ensures
        g_path(env, s, d, want).1 is Ok ==> gives(
            s,
            g_path(env, s, d, want).0,
            g_path(env, s, d, want).1->Ok_0,
            e,
            n,
            true,
        ),
{
    reveal(g_path);
    match lookup(s.vars, d) {
        Some(info) => {
            lemma_placed(s, d, e);
            lemma_local(env, s, info, e, n);
        },
        None => {
            if let Some(t) = lookup(env.data, d) {
                let st = StepV::Symbol(DataRef::Global(d));
                let s1 = emit(s, st);
                lemma_step(s, st, e, n);
                lemma_step(s1, StepV::Const(IrType::I64, 0), e, n);
                lemma_step(s1, StepV::Load(IrType::I64, next_step(s)), e, n);
                lemma_step(s1, StepV::Load(IrType::I8, next_step(s)), e, n);
                lemma_chain(s, s1, g_global(env, s, d, t).0, e);
            }
        },
    }
}

proof fn lemma_path_place(env: GenEnv, s: GenState, d: DefId, e: Plan, n: nat)
    requires
        linked(env, e, n),
    ensures
        g_path_place(env, s, d).1 is Ok ==> gives(
            s,
            g_path_place(env, s, d).0,
            g_path_place(env, s, d).1->Ok_0,
            e,
            n,
            true,
        ),
{
    reveal(g_path_place);
    match lookup(s.vars, d) {
        Some(info) => {
            lemma_placed(s, d, e);
            if let Some(x) = info.slot {
                lemma_step(s, StepV::SlotAddr(x), e, n);
            } else if let Some(x) = info.var {
                lemma_step(s, StepV::GetVar(x), e, n);
            }
        },
        None => {
            lemma_step(s, StepV::Symbol(DataRef::Global(d)), e, n);
        },
    }
}

// Expressions

pub proof fn lemma_operator(s: GenState, op: crate::ast::BinOp, l: usize, r: usize, e: Plan, n: nat)
    ensures
        gives(
            s,
            g_operator(s, op, l, r).0,
            g_operator(s, op, l, r).1,
            e,
            n,
            val(s, l, e) && val(s, r, e),
        ),
{
    lemma_step(s, StepV::Add(l, r), e, n);
    lemma_step(s, StepV::Sub(l, r), e, n);
    lemma_step(s, StepV::Mul(l, r), e, n);
    lemma_step(s, StepV::Div(l, r), e, n);
    let st = StepV::Compare(crate::compiler::rules::condition_of(op), l, r);
    let s1 = emit(s, st);
    lemma_step(s, st, e, n);
    lemma_step(s1, StepV::Extend(next_step(s)), e, n);
    lemma_chain(s, s1, emit(s1, StepV::Extend(next_step(s))), e);
}

/// All arguments are values.
#[verifier::opaque]
pub open spec fn vals(s: GenState, vs: Seq<usize>, e: Plan) -> bool {
    forall|i: int| 0 <= i < vs.len() ==> val(s, #[trigger] vs[i], e)
}

proof fn lemma_vals(s: GenState, t: GenState, vs: Seq<usize>, v: usize, e: Plan)
    ensures
        after(s, t, e) && vals(s, vs, e) ==> vals(t, vs, e),
        vals(t, vs, e) && val(t, v, e) ==> vals(t, vs.push(v), e),
        vals(t, Seq::empty(), e),
        vs.len() > 0 && vals(t, vs, e) ==> val(t, vs[0], e),
{
    reveal(vals);
    lemma_chain(s, t, t, e);
}

/// The step that calls a linked function.
pub proof fn lemma_called(
    s: GenState,
    callee: DefId,
    f: FuncInfoV,
    signature: Option<CodeSignatureV>,
    args: Seq<usize>,
    e: Plan,
    n: nat,
)
    requires
        func_link(e.links.functions, callee, 0) matches Some(l) && (is_aggregate(f.ret_ty) || (match signature {
                    Some(s) => s.returns is Some,
                    None => l.signature.returns is Some,
        })),
    ensures
        ({
                let s1 = emit(s, StepV::Call { callee, signature, args });
                &&& quiet(s, s1)
                &&& ready(s, e) && small(s1, n) && vals(s, args, e) ==> after(s, s1, e) && (!is_aggregate(f.ret_ty) ==> val(s1, next_step(s), e)) && prog(s1, e) == Some(grown(prog(s, e)->0, call_made(call_signature(func_link(e.links.functions, callee, 0)->0, signature), e.machine)))
        }),
{
    let st = StepV::Call { callee, signature, args };
    let s1 = emit(s, st);
    assert(quiet(s, s1)) by {
        reveal(quiet);
    }
    if ready(s, e) && small(s1, n) && vals(s, args, e) {
        reveal(after);
        reveal(ready);
        reveal(val);
        reveal(vals);
        lemma_emit(s, st, e);
        let p = prog(s, e)->0;
        assert(crate::backend::plan::all_values(p, args)) by {
            assert forall|i: int| 0 <= i < args.len() implies value_width(p, #[trigger] args[i]) is Some by {
                assert(val(s, args[i], e));
            }
        }
        let q = next_any(p, st, e);
        assert(q is Some);
        assert(q->0 == grown(p, q->0.made.last()));
        assert(q->0.made.last() != Made::Block);
        assert(kept(p, q->0));
        assert(vars_ok(s1.vars, q->0));
    }
}

/// A call of a linked function.
pub proof fn lemma_call(
    s: GenState,
    callee: DefId,
    f: FuncInfoV,
    signature: Option<CodeSignatureV>,
    args: Seq<usize>,
    e: Plan,
    n: nat,
)
    requires
        func_link(e.links.functions, callee, 0) matches Some(l) && (is_aggregate(f.ret_ty) || (match signature {
                    Some(s) => s.returns is Some,
                    None => l.signature.returns is Some,
        })),
        is_aggregate(f.ret_ty) ==> args.len() > 0,
    ensures
        gives(
            s,
            g_finish_call(s, callee, f, signature, args).0,
            g_finish_call(s, callee, f, signature, args).1,
            e,
            n,
            vals(s, args, e),
        ),
{
    let st = StepV::Call { callee, signature, args };
    let s1 = emit(s, st);
    let t = g_finish_call(s, callee, f, signature, args);
    lemma_called(s, callee, f, signature, args, e, n);
    lemma_step(s1, StepV::Const(IrType::I64, 0), e, n);
    lemma_same(s1, e);
    lemma_quiet(s, s1, t.0);
    if ready(s, e) && small(t.0, n) && vals(s, args, e) {
        lemma_vals(s, s1, args, 0, e);
        lemma_chain(s, s1, t.0, e);
    }
}

/// The room for an aggregate result.
pub proof fn lemma_first(env: GenEnv, s: GenState, ret: HirTypeV, e: Plan, n: nat)
    ensures
        g_result_room(env, s, ret).1 is Ok ==> {
            let a = g_result_room(env, s, ret);
            &&& fine(s, a.0, e, n, true)
            &&& ready(s, e) && small(a.0, n) ==> vals(a.0, a.1->Ok_0, e)
        },
{
    lemma_same(s, e);
    if is_aggregate(ret) {
        if let Ok(size) = g_size(env, ret) {
            lemma_room(s, size, e, n);
            let r = g_room(s, size);
            lemma_vals(s, r.0, Seq::empty(), r.1, e);
            assert(Seq::<usize>::empty().push(r.1) =~= seq![r.1]);
        }
    } else {
        lemma_vals(s, s, Seq::empty(), 0, e);
    }
}

/// Arguments that were there stay.
pub proof fn lemma_args_done(
    env: GenEnv,
    s: GenState,
    es: Seq<TyHirExprV>,
    ps: Seq<HirTypeV>,
    i: int,
    done: Seq<usize>,
)
    ensures
        g_args(env, s, es, ps, i, done).1 is Ok ==> {
            let vs = g_args(env, s, es, ps, i, done).1->Ok_0;
            done.len() <= vs.len() && forall|j: int| 0 <= j < done.len() ==> #[trigger] vs[j] == done[j]
        },
    decreases es.len() - i,
{
    if 0 <= i < es.len() {
        let a = g_expr(env, s, es[i], arg_type(ps, es, i));
        if let Ok(raw) = a.1 {
            let b = g_copy(env, a.0, raw, arg_type(ps, es, i));
            if let Ok(v) = b.1 {
                lemma_args_done(env, b.0, es, ps, i + 1, done.push(v));
                if let Ok(vs) = g_args(env, b.0, es, ps, i + 1, done.push(v)).1 {
                    assert forall|j: int| 0 <= j < done.len() implies #[trigger] vs[j] == done[j] by {
                        assert(vs[j] == done.push(v)[j]);
                    }
                }
            }
        }
    }
}

pub proof fn lemma_array_room(
    env: GenEnv,
    s: GenState,
    t: HirTypeV,
    want: HirTypeV,
    e: Plan,
    n: nat,
)
    ensures
        g_array_room(env, s, t, want).1 is Ok ==> gives(
            s,
            g_array_room(env, s, t, want).0,
            g_array_room(env, s, t, want).1->Ok_0.0,
            e,
            n,
            true,
        ),
{
    reveal(g_array_room);
    lemma_step(s, StepV::Const(IrType::Ptr, 0), e, n);
    if let Ok(size) = g_size(env, t) {
        lemma_room(s, size, e, n);
    }
}

proof fn lemma_put(
    env: GenEnv,
    s: GenState,
    v: usize,
    el: HirTypeV,
    base: usize,
    stride: u32,
    i: usize,
    e: Plan,
    n: nat,
)
    ensures
        g_put(env, s, v, el, base, stride, i).1 is Ok ==> fine(
            s,
            g_put(env, s, v, el, base, stride, i).0,
            e,
            n,
            val(s, v, e) && val(s, base, e),
        ),
{
    if let Ok(off) = element_offset(stride, i) {
        let s1 = emit(s, StepV::Offset(base, off));
        lemma_step(s, StepV::Offset(base, off), e, n);
        lemma_write(env, s1, v, el, next_step(s), e, n);
        lemma_chain(s, s1, g_put(env, s, v, el, base, stride, i).0, e);
    }
}

pub proof fn lemma_fill(
    env: GenEnv,
    s: GenState,
    v: usize,
    el: HirTypeV,
    base: usize,
    stride: u32,
    k: usize,
    i: usize,
    e: Plan,
    n: nat,
)
    ensures
        g_fill(env, s, v, el, base, stride, k, i).1 is Ok ==> fine(
            s,
            g_fill(env, s, v, el, base, stride, k, i).0,
            e,
            n,
            val(s, v, e) && val(s, base, e),
        ),
    decreases k - i,
{
    lemma_same(s, e);
    if i < k {
        lemma_put(env, s, v, el, base, stride, i, e, n);
        let a = g_put(env, s, v, el, base, stride, i);
        if a.1 is Ok {
            lemma_fill(env, a.0, v, el, base, stride, k, (i + 1) as usize, e, n);
            lemma_chain(s, a.0, g_fill(env, a.0, v, el, base, stride, k, (i + 1) as usize).0, e);
        }
    }
}

#[verifier::spinoff_prover]
#[verifier::rlimit(40)]
pub proof fn lemma_expr(env: GenEnv, s: GenState, x: TyHirExprV, want: HirTypeV, e: Plan, n: nat)
    requires
        linked(env, e, n),
        n <= usize::MAX,
    ensures
        g_expr(env, s, x, want).1 is Ok ==> gives(
            s,
            g_expr(env, s, x, want).0,
            g_expr(env, s, x, want).1->Ok_0,
            e,
            n,
            true,
        ),
    decreases x, 2int,
{
    match x.kind {
        TyHirExprKindV::Literal(l) => {
            lemma_literal(env, s, l, want, e, n);
        },
        TyHirExprKindV::Path(d) => {
            lemma_path(env, s, d, want, e, n);
        },
        TyHirExprKindV::Binary { op, lhs, rhs } => {
            lemma_expr(env, s, *lhs, operand_type(op, lhs.ty), e, n);
            let a = g_expr(env, s, *lhs, operand_type(op, lhs.ty));
            if let Ok(l) = a.1 {
                lemma_expr(env, a.0, *rhs, operand_type(op, rhs.ty), e, n);
                let b = g_expr(env, a.0, *rhs, operand_type(op, rhs.ty));
                if let Ok(r) = b.1 {
                    lemma_operator(b.0, op, l, r, e, n);
                    let c = g_operator(b.0, op, l, r);
                    lemma_chain(s, a.0, b.0, e);
                    lemma_chain(a.0, b.0, c.0, e);
                    lemma_chain(s, b.0, c.0, e);
                }
            }
        },
        TyHirExprKindV::Call { callee, args, .. } => {
            lemma_call_expr(env, s, x, want, e, n);
        },
        TyHirExprKindV::FieldAccess { object, field } => {
            if let Ok(t) = g_access_type(env, object.ty, field, want) {
                lemma_place(env, s, x, e, n);
                let a = g_place(env, s, x);
                if let Ok(addr) = a.1 {
                    lemma_read(env, a.0, addr, t, e, n);
                    lemma_chain(s, a.0, g_read(env, a.0, addr, t).0, e);
                }
            }
        },
        TyHirExprKindV::StructLiteral { def_id, fields, .. } => {
            lemma_step(s, StepV::Const(IrType::Ptr, 0), e, n);
            if let Ok(size) = g_literal_size(env, def_id, want) {
                let r = g_room(s, size);
                lemma_room(s, size, e, n);
                lemma_inits(env, r.0, fields, def_id, r.1, 0, e, n);
                let a = g_inits(env, r.0, fields, def_id, r.1, 0);
                lemma_chain(s, r.0, a.0, e);
                lemma_chain(r.0, a.0, a.0, e);
            }
        },
        TyHirExprKindV::ArrayLiteral { elements, repeat } => {
            lemma_array_room(env, s, x.ty, want, e, n);
            let a = g_array_room(env, s, x.ty, want);
            if let Ok(o) = a.1 {
                match repeat {
                    Some(k) => {
                        if elements.len() > 0 {
                            lemma_expr(env, a.0, elements[0], o.1, e, n);
                            let b = g_expr(env, a.0, elements[0], o.1);
                            if let Ok(v) = b.1 {
                                lemma_fill(env, b.0, v, o.1, o.0, o.2, k, 0, e, n);
                                let c = g_fill(env, b.0, v, o.1, o.0, o.2, k, 0);
                                lemma_chain(s, a.0, b.0, e);
                                lemma_chain(a.0, b.0, c.0, e);
                                lemma_chain(s, b.0, c.0, e);
                                lemma_chain(b.0, c.0, c.0, e);
                            }
                        }
                    },
                    None => {
                        lemma_elements(env, a.0, elements, o.1, o.0, o.2, 0, e, n);
                        let b = g_elements(env, a.0, elements, o.1, o.0, o.2, 0);
                        lemma_chain(s, a.0, b.0, e);
                        lemma_chain(a.0, b.0, b.0, e);
                    },
                }
            }
        },
        TyHirExprKindV::Index { .. } => {
            lemma_place(env, s, x, e, n);
            let a = g_place(env, s, x);
            if let Ok(addr) = a.1 {
                lemma_read(env, a.0, addr, x.ty, e, n);
                lemma_chain(s, a.0, g_read(env, a.0, addr, x.ty).0, e);
            }
        },
        TyHirExprKindV::Deref(inner) => {
            lemma_expr(env, s, *inner, inner.ty, e, n);
            let a = g_expr(env, s, *inner, inner.ty);
            if let Ok(p) = a.1 {
                if let Ok(t) = g_target(inner.ty) {
                    if let Ok(ir) = g_type(env, t) {
                        lemma_step(a.0, StepV::Load(ir, p), e, n);
                        lemma_chain(s, a.0, emit(a.0, StepV::Load(ir, p)), e);
                    }
                }
            }
        },
        TyHirExprKindV::AddressOf(inner) => {
            lemma_place(env, s, *inner, e, n);
        },
        _ => {},
    }
}

pub proof fn lemma_call_expr(
    env: GenEnv,
    s: GenState,
    x: TyHirExprV,
    want: HirTypeV,
    e: Plan,
    n: nat,
)
    requires
        x.kind is Call,
        linked(env, e, n),
        n <= usize::MAX,
    ensures
        g_expr(env, s, x, want).1 is Ok ==> gives(
            s,
            g_expr(env, s, x, want).0,
            g_expr(env, s, x, want).1->Ok_0,
            e,
            n,
            true,
        ),
    decreases x, 1int,
{
    if let TyHirExprKindV::Call { callee, args, turbofish } = x.kind {
        if let Ok(f) = g_callee(env, callee, args, want) {
            lemma_callee(env, callee, args, want, e, n);
            lemma_same(s, e);
            let a = g_result_room(env, s, f.0.ret_ty);
            if let Ok(first) = a.1 {
                lemma_first(env, s, f.0.ret_ty, e, n);
                lemma_args(env, a.0, args, f.0.param_types, 0, first, e, n);
                let b = g_args(env, a.0, args, f.0.param_types, 0, first);
                if let Ok(vs) = b.1 {
                    lemma_call(b.0, callee, f.0, f.1, vs, e, n);
                    let c = g_finish_call(b.0, callee, f.0, f.1, vs);
                    lemma_chain(s, a.0, b.0, e);
                    lemma_chain(a.0, b.0, c.0, e);
                    lemma_chain(s, b.0, c.0, e);
                }
            }
        }
    }
}

/// What is known of the function that a call reaches.
pub proof fn lemma_callee(
    env: GenEnv,
    callee: DefId,
    args: Seq<TyHirExprV>,
    want: HirTypeV,
    e: Plan,
    n: nat,
)
    requires
        linked(env, e, n),
        g_callee(env, callee, args, want) is Ok,
    ensures
        ({
                let f = g_callee(env, callee, args, want)->Ok_0;
                func_link(e.links.functions, callee, 0) matches Some(l) && (is_aggregate(f.0.ret_ty) || (match f.1 {
                            Some(s) => s.returns is Some,
                            None => l.signature.returns is Some,
                }))
        }),
{
    reveal(g_callee);
    let f = env.funcs[callee];
    assert(env.funcs.dom().contains(callee));
    if f.is_variadic {
        let extra = types_from(args, f.param_types.len() as int);
        law_signature_shape(
            env,
            f.param_types,
            f.ret_ty,
            extra,
            g_signature(env, f.param_types, f.ret_ty, extra)->Ok_0,
        );
    }
}

pub proof fn lemma_place(env: GenEnv, s: GenState, x: TyHirExprV, e: Plan, n: nat)
    requires
        linked(env, e, n),
        n <= usize::MAX,
    ensures
        g_place(env, s, x).1 is Ok ==> gives(
            s,
            g_place(env, s, x).0,
            g_place(env, s, x).1->Ok_0,
            e,
            n,
            true,
        ),
    decreases x, 1int,
{
    match x.kind {
        TyHirExprKindV::Path(d) => {
            lemma_path_place(env, s, d, e, n);
        },
        TyHirExprKindV::FieldAccess { object, field } => {
            lemma_place(env, s, *object, e, n);
            let a = g_place(env, s, *object);
            if let Ok(base) = a.1 {
                if let Ok(off) = g_access_offset(env, object.ty, field) {
                    lemma_step(a.0, StepV::Offset(base, off as i64), e, n);
                    lemma_chain(s, a.0, emit(a.0, StepV::Offset(base, off as i64)), e);
                }
            }
        },
        TyHirExprKindV::Deref(inner) => {
            lemma_expr(env, s, *inner, inner.ty, e, n);
        },
        TyHirExprKindV::Index { array, index } => {
            lemma_expr(env, s, *array, array.ty, e, n);
            let a = g_expr(env, s, *array, array.ty);
            if let Ok(base) = a.1 {
                lemma_expr(env, a.0, *index, HirTypeV::Int, e, n);
                let b = g_expr(env, a.0, *index, HirTypeV::Int);
                if let Ok(i) = b.1 {
                    if let Ok(t) = g_element(array.ty) {
                        if let Ok(stride) = g_size(env, t) {
                            let s3 = emit(b.0, StepV::Const(IrType::I64, stride as i64));
                            let s4 = emit(s3, StepV::Mul(i, next_step(b.0)));
                            let s5 = emit(s4, StepV::Add(base, next_step(s3)));
                            lemma_step(b.0, StepV::Const(IrType::I64, stride as i64), e, n);
                            lemma_step(s3, StepV::Mul(i, next_step(b.0)), e, n);
                            lemma_step(s4, StepV::Add(base, next_step(s3)), e, n);
                            lemma_chain(s, a.0, b.0, e);
                            lemma_chain(a.0, b.0, s3, e);
                            lemma_chain(s, b.0, s3, e);
                            lemma_chain(b.0, s3, s4, e);
                            lemma_chain(s, s3, s4, e);
                            lemma_chain(s3, s4, s5, e);
                            lemma_chain(s, s4, s5, e);
                        }
                    }
                }
            }
        },
        TyHirExprKindV::AddressOf(inner) => {
            lemma_place(env, s, *inner, e, n);
        },
        _ => {},
    }
}

pub proof fn lemma_args(
    env: GenEnv,
    s: GenState,
    es: Seq<TyHirExprV>,
    ps: Seq<HirTypeV>,
    i: int,
    done: Seq<usize>,
    e: Plan,
    n: nat,
)
    requires
        linked(env, e, n),
        n <= usize::MAX,
    ensures
        g_args(env, s, es, ps, i, done).1 is Ok ==> {
            let r = g_args(env, s, es, ps, i, done);
            &&& grows(s, r.0)
            &&& quiet(s, r.0)
            &&& ready(s, e) && small(r.0, n) && vals(s, done, e) ==> after(s, r.0, e) && vals(
                r.0,
                r.1->Ok_0,
                e,
            )
            &&& done.len() <= r.1->Ok_0.len()
        },
    decreases es, es.len() - i,
{
    lemma_same(s, e);
    if 0 <= i < es.len() {
        lemma_expr(env, s, es[i], arg_type(ps, es, i), e, n);
        let a = g_expr(env, s, es[i], arg_type(ps, es, i));
        if let Ok(raw) = a.1 {
            lemma_copy(env, a.0, raw, arg_type(ps, es, i), e, n);
            let b = g_copy(env, a.0, raw, arg_type(ps, es, i));
            if let Ok(v) = b.1 {
                lemma_args(env, b.0, es, ps, i + 1, done.push(v), e, n);
                let c = g_args(env, b.0, es, ps, i + 1, done.push(v));
                lemma_chain(s, a.0, b.0, e);
                lemma_chain(a.0, b.0, c.0, e);
                lemma_chain(s, b.0, c.0, e);
                lemma_vals(s, b.0, done, v, e);
            }
        }
    }
}

pub proof fn lemma_inits(
    env: GenEnv,
    s: GenState,
    es: Seq<(DefId, TyHirExprV)>,
    d: DefId,
    base: usize,
    i: int,
    e: Plan,
    n: nat,
)
    requires
        linked(env, e, n),
        n <= usize::MAX,
    ensures
        g_inits(env, s, es, d, base, i).1 is Ok ==> fine(
            s,
            g_inits(env, s, es, d, base, i).0,
            e,
            n,
            val(s, base, e),
        ),
    decreases es, es.len() - i,
{
    lemma_same(s, e);
    if 0 <= i < es.len() {
        if let Ok(t) = g_field_type(env, d, es[i].0) {
            lemma_expr(env, s, es[i].1, t, e, n);
            let a = g_expr(env, s, es[i].1, t);
            if let Ok(v) = a.1 {
                if let Ok(off) = g_field_offset(env, d, es[i].0) {
                    let s1 = emit(a.0, StepV::Offset(base, off as i64));
                    lemma_step(a.0, StepV::Offset(base, off as i64), e, n);
                    lemma_write(env, s1, v, t, next_step(a.0), e, n);
                    let b = g_copy_to(env, s1, v, t, next_step(a.0), env.depth);
                    if b.1 is Ok {
                        lemma_inits(env, b.0, es, d, base, i + 1, e, n);
                        let c = g_inits(env, b.0, es, d, base, i + 1);
                        lemma_chain(s, a.0, s1, e);
                        lemma_chain(a.0, s1, b.0, e);
                        lemma_chain(s, s1, b.0, e);
                        lemma_chain(s1, b.0, c.0, e);
                        lemma_chain(s, b.0, c.0, e);
                    }
                }
            }
        }
    }
}

pub proof fn lemma_elements(
    env: GenEnv,
    s: GenState,
    es: Seq<TyHirExprV>,
    t: HirTypeV,
    base: usize,
    stride: u32,
    i: int,
    e: Plan,
    n: nat,
)
    requires
        linked(env, e, n),
        n <= usize::MAX,
    ensures
        g_elements(env, s, es, t, base, stride, i).1 is Ok ==> fine(
            s,
            g_elements(env, s, es, t, base, stride, i).0,
            e,
            n,
            val(s, base, e),
        ),
    decreases es, es.len() - i,
{
    lemma_same(s, e);
    if 0 <= i < es.len() {
        lemma_expr(env, s, es[i], t, e, n);
        let a = g_expr(env, s, es[i], t);
        if let Ok(v) = a.1 {
            lemma_put(env, a.0, v, t, base, stride, i as usize, e, n);
            let b = g_put(env, a.0, v, t, base, stride, i as usize);
            if b.1 is Ok {
                lemma_elements(env, b.0, es, t, base, stride, i + 1, e, n);
                let c = g_elements(env, b.0, es, t, base, stride, i + 1);
                lemma_chain(s, a.0, b.0, e);
                lemma_chain(a.0, b.0, c.0, e);
                lemma_chain(s, b.0, c.0, e);
            }
        }
    }
}

} // verus!

