//! What code does when it runs, and what expressions over integer variables mean.
//!
//! A machine runs a list of steps from block to block. Expressions have a meaning
//! of their own, which speaks of the values of variables alone: it knows nothing
//! of steps.

use crate::ast::{BinOp, LiteralV};
use crate::compiler::code::{Condition, StepV};
use crate::compiler::rules::is_aggregate;
use crate::hir::DefId;
use crate::table::lookup;
use crate::tyhir::{TyHirExprKindV, TyHirExprV};
use vstd::prelude::*;

verus! {

// Integers

/// The number of integers of 64 bits.
pub open spec fn word() -> int {
    0x1_0000_0000_0000_0000
}

/// An integer brought into the range of 64 bits.
pub open spec fn wrap(n: int) -> int {
    let m = n % word();
    if m < word() / 2 {
        m
    } else {
        m - word()
    }
}

/// The size of an integer without its sign.
pub open spec fn size_of(n: int) -> int {
    if n < 0 {
        -n
    } else {
        n
    }
}

/// The quotient rounded towards zero. There is none for a zero divisor, nor where
/// it needs more than 64 bits.
pub open spec fn quotient(a: int, b: int) -> Option<int> {
    if b == 0 || (a == -(word() / 2) && b == -1) {
        None
    } else if (a < 0) == (b < 0) {
        Some(size_of(a) / size_of(b))
    } else {
        Some(-(size_of(a) / size_of(b)))
    }
}

/// One for true, zero for false.
pub open spec fn truth(b: bool) -> int {
    if b {
        1
    } else {
        0
    }
}

// Machines

/// What functions return; `None` where nothing is said of a call.
pub type Calls = spec_fn(DefId, Seq<int>) -> Option<int>;

/// A machine on its way through the code of a function.
#[verifier::ext_equal]
pub struct Machine {
    /// The step that comes next.
    pub at: int,
    /// The values that steps made.
    pub vals: Map<int, int>,
    /// The values of variables.
    pub vars: Map<int, int>,
    /// What the slots on the stack hold.
    pub slots: Map<int, int>,
    /// The steps whose value is the address of a slot, with the slot.
    pub points: Map<int, int>,
    /// The parameters of blocks.
    pub params: Map<(int, int), int>,
}

/// Where a machine is after some steps.
pub enum Run {
    /// On its way.
    Going(Machine),
    /// It left the function, with a result.
    Done(Option<int>),
    /// It met a step that is given no meaning here, or a division without
    /// quotient.
    Stuck,
}

/// The next step, where this one made a value.
pub open spec fn made(m: Machine, v: int) -> Run {
    Run::Going(Machine { at: m.at + 1, vals: m.vals.insert(m.at, v), ..m })
}

/// The next step, where this one made nothing.
pub open spec fn passed(m: Machine) -> Run {
    Run::Going(Machine { at: m.at + 1, ..m })
}

/// Where the code of a block begins, searched from `i` on.
pub open spec fn block_start(code: Seq<StepV>, b: int, i: int) -> Option<int>
    decreases code.len() - i,
{
    if i < 0 || i >= code.len() {
        None
    } else if code[i] == StepV::SwitchTo(b as usize) {
        Some(i + 1)
    } else {
        block_start(code, b, i + 1)
    }
}

/// A machine that goes on in another block.
pub open spec fn gone_to(code: Seq<StepV>, m: Machine, b: int) -> Run {
    match block_start(code, b, 0) {
        Some(at) => Run::Going(Machine { at, ..m }),
        None => Run::Stuck,
    }
}

/// What a comparison of two integers finds.
pub open spec fn compared(c: Condition, a: int, b: int) -> bool {
    match c {
        Condition::Equal => a == b,
        Condition::NotEqual => a != b,
        Condition::Less => a < b,
        Condition::LessEqual => a <= b,
        Condition::Greater => a > b,
        Condition::GreaterEqual => a >= b,
    }
}

/// The values of steps.
pub open spec fn values_at(m: Machine, vs: Seq<usize>) -> Seq<int> {
    Seq::new(vs.len(), |i: int| m.vals[vs[i] as int])
}

/// A machine takes one step.
pub open spec fn advance(code: Seq<StepV>, f: Calls, m: Machine) -> Run {
    if m.at < 0 || m.at >= code.len() {
        Run::Stuck
    } else {
        match code[m.at] {
            StepV::CreateBlock => passed(m),
            StepV::EnterFunction(_) => passed(m),
            StepV::AddPointerParam(_) => passed(m),
            StepV::Seal(_) => passed(m),
            StepV::CreateSlot(_, _) => passed(m),
            StepV::DeclareVar(_) => passed(m),
            StepV::Param(b, i) => made(m, m.params[(b as int, i as int)]),
            StepV::Jump(b, v) => match v {
                Some(x) => gone_to(
                    code,
                    Machine { params: m.params.insert((b as int, 0), m.vals[x as int]), ..m },
                    b as int,
                ),
                None => gone_to(code, m, b as int),
            },
            StepV::Branch(v, yes, no) => if m.vals[v as int] != 0 {
                gone_to(code, m, yes as int)
            } else {
                gone_to(code, m, no as int)
            },
            StepV::Return(v) => Run::Done(
                match v {
                    Some(x) => Some(m.vals[x as int]),
                    None => None,
                },
            ),
            StepV::Const(_, n) => made(m, n as int),
            StepV::Add(a, b) => made(m, wrap(m.vals[a as int] + m.vals[b as int])),
            StepV::Sub(a, b) => made(m, wrap(m.vals[a as int] - m.vals[b as int])),
            StepV::Mul(a, b) => made(m, wrap(m.vals[a as int] * m.vals[b as int])),
            StepV::Div(a, b) => match quotient(m.vals[a as int], m.vals[b as int]) {
                Some(q) => made(m, q),
                None => Run::Stuck,
            },
            StepV::Compare(c, a, b) => made(
                m,
                truth(compared(c, m.vals[a as int], m.vals[b as int])),
            ),
            StepV::Extend(v) => made(m, m.vals[v as int]),
            StepV::SlotAddr(k) => Run::Going(
                Machine { at: m.at + 1, points: m.points.insert(m.at, k as int), ..m },
            ),
            StepV::Load(_, a) => match lookup(m.points, a as int) {
                Some(k) => made(m, m.slots[k]),
                None => Run::Stuck,
            },
            StepV::Store(v, a) => match lookup(m.points, a as int) {
                Some(k) => Run::Going(
                    Machine { at: m.at + 1, slots: m.slots.insert(k, m.vals[v as int]), ..m },
                ),
                None => Run::Stuck,
            },
            StepV::SetVar(x, v) => Run::Going(
                Machine { at: m.at + 1, vars: m.vars.insert(x as int, m.vals[v as int]), ..m },
            ),
            StepV::GetVar(x) => made(m, m.vars[x as int]),
            StepV::Call { callee, args, .. } => match f(callee, values_at(m, args)) {
                Some(v) => made(m, v),
                None => Run::Stuck,
            },
            StepV::SwitchTo(_) => Run::Stuck,
            StepV::Symbol(_) => Run::Stuck,
            StepV::Offset(_, _) => Run::Stuck,
        }
    }
}

/// Where a machine is after `n` steps.
pub open spec fn run(code: Seq<StepV>, f: Calls, m: Machine, n: nat) -> Run
    decreases n,
{
    if n == 0 {
        Run::Going(m)
    } else {
        match advance(code, f, m) {
            Run::Going(next) => run(code, f, next, (n - 1) as nat),
            end => end,
        }
    }
}

// Statements

/// What an operator makes of two integers.
pub open spec fn applied(op: BinOp, a: int, b: int) -> Option<int> {
    match op {
        BinOp::Add => Some(wrap(a + b)),
        BinOp::Sub => Some(wrap(a - b)),
        BinOp::Mul => Some(wrap(a * b)),
        BinOp::Div => quotient(a, b),
        BinOp::Equal => Some(truth(a == b)),
        BinOp::NotEqual => Some(truth(a != b)),
        BinOp::Less => Some(truth(a < b)),
        BinOp::LessEqual => Some(truth(a <= b)),
        BinOp::Greater => Some(truth(a > b)),
        BinOp::GreaterEqual => Some(truth(a >= b)),
    }
}

/// The value of an expression, where it is made of integers, variables, operators
/// and calls.
pub open spec fn value(e: TyHirExprV, vars: Map<DefId, int>, f: Calls) -> Option<int>
    decreases e, 0int,
{
    match e.kind {
        TyHirExprKindV::Literal(l) => match l {
            LiteralV::Int(n) => Some(n as int),
            LiteralV::String(_) => None,
        },
        TyHirExprKindV::Path(d) => lookup(vars, d),
        TyHirExprKindV::Binary { op, lhs, rhs } => match (value(*lhs, vars, f), value(*rhs, vars, f)) {
            (Some(a), Some(b)) => applied(op, a, b),
            _ => None,
        },
        TyHirExprKindV::Call { callee, args, .. } => match values(args, vars, f, 0) {
            Some(vs) => f(callee, vs),
            None => None,
        },
        _ => None,
    }
}

/// The values of expressions from `i` on.
pub open spec fn values(es: Seq<TyHirExprV>, vars: Map<DefId, int>, f: Calls, i: int) -> Option<
    Seq<int>,
>
    decreases es, es.len() - i,
{
    if i < 0 || i >= es.len() {
        Some(Seq::empty())
    } else if is_aggregate(es[i].ty) {
        None
    } else {
        match (value(es[i], vars, f), values(es, vars, f, i + 1)) {
            (Some(v), Some(rest)) => Some(seq![v] + rest),
            _ => None,
        }
    }
}

} // verus!
