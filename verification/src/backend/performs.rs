//! Running single steps.

use crate::backend::runs::{calm, goes_on, lemma_more, lemma_none, Setting};
use crate::compiler::code::StepV;
use crate::compiler::meaning::{advance, run, Calls, Machine, Run};
use crate::compiler::rules::{g_test, GenState};
use vstd::prelude::*;

verus! {

/// Steps that do nothing when they run.
pub open spec fn idle(st: StepV) -> bool {
    st is CreateBlock || st is EnterFunction || st is AddPointerParam || st is Seal || st is CreateSlot || st is DeclareVar
}

/// A machine passes steps that do nothing.
pub proof fn lemma_idle(code: Seq<StepV>, f: Calls, m: Machine, n: nat, r: Machine, k: nat)
    requires
        run(code, f, m, n) == Run::Going(r),
        0 <= r.at,
        r.at + k <= code.len(),
        forall|i: int| r.at <= i < r.at + k ==> idle(#[trigger] code[i]),
    ensures
        run(code, f, m, n + k) == Run::Going(Machine { at: r.at + k, ..r }),
    decreases k,
{
    if k > 0 {
        lemma_idle(code, f, m, n, r, (k - 1) as nat);
        let q = Machine { at: r.at + k - 1, ..r };
        lemma_more(code, f, m, (n + k - 1) as nat, q);
        assert(idle(code[q.at]));
    }
}

/// Running the test of a condition finds whether its value differs from zero.
pub proof fn lemma_tested(x: Setting, s: GenState, v: usize, m: Machine) -> (r: Machine)
    requires
        goes_on(x.code, g_test(s, v).0.steps),
        x.code.len() <= usize::MAX,
        v < s.steps.len(),
        m.at == s.steps.len(),
    ensures
        run(x.code, x.calls, m, 2) == Run::Going(r),
        r.at == s.steps.len() + 2,
        calm(m, r, s.steps.len() as int),
        g_test(s, v).1 == s.steps.len() + 1,
        (r.vals[g_test(s, v).1 as int] != 0) == (m.vals[v as int] != 0),
{
    let t = g_test(s, v).0;
    let p = s.steps.len() as int;
    assert(x.code[p] == t.steps[p]);
    assert(x.code[p + 1] == t.steps[p + 1]);
    lemma_none(x.code, x.calls, m);
    lemma_more(x.code, x.calls, m, 0, m);
    let m1 = Machine { at: p + 1, vals: m.vals.insert(p, 0), ..m };
    assert(advance(x.code, x.calls, m) == Run::Going(m1));
    lemma_more(x.code, x.calls, m, 1, m1);
    match advance(x.code, x.calls, m1) {
        Run::Going(m2) => m2,
        _ => m1,
    }
}

} // verus!
