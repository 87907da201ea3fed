//! Which lists of steps make a function, and the calls that each step stands
//! for.

use crate::backend::trace::{is_width, most_params, Convention, Event, Operation, Shape, Trace};
use crate::compiler::code::{CodeSignature, CodeSignatureV, DataRef, IrType, StepV};
use crate::compiler::rules::codegen_error;
use crate::error::MplangErrorV;
use crate::hir::DefId;
use vstd::prelude::*;

verus! {

/// The machine that code is made for.
#[derive(Debug, Clone, Copy, PartialEq, Eq, Structural)]
pub struct Machine {
    /// The number of bytes in a pointer.
    pub ptr_bytes: u16,
    pub convention: Convention,
}

/// A function that code can call: its number, whether it is defined in the same
/// file, and its declared signature.
#[derive(Debug)]
pub struct FuncLink {
    pub def_id: DefId,
    pub index: u32,
    pub colocated: bool,
    pub signature: CodeSignature,
}

/// Model of [`FuncLink`].
#[verifier::ext_equal]
pub struct FuncLinkV {
    pub def_id: DefId,
    pub index: u32,
    pub colocated: bool,
    pub signature: CodeSignatureV,
}

impl DeepView for FuncLink {
    type V = FuncLinkV;

    open spec fn deep_view(&self) -> FuncLinkV {
        FuncLinkV { def_id: self.def_id, index: self.index, colocated: self.colocated, signature: self.signature.deep_view() }
    }
}

/// Data that code can refer to: its number, and whether it is defined in the
/// same file.
#[derive(Debug, Clone, Copy, PartialEq, Eq, Structural)]
pub struct DataLink {
    pub target: DataRef,
    pub index: u32,
    pub colocated: bool,
}

impl DeepView for DataLink {
    type V = DataLink;

    open spec fn deep_view(&self) -> DataLink {
        *self
    }
}

/// The functions and the data that code can refer to.
#[derive(Debug)]
pub struct Links {
    pub functions: Vec<FuncLink>,
    pub data: Vec<DataLink>,
}

/// Model of [`Links`].
#[verifier::ext_equal]
pub struct LinksV {
    pub functions: Seq<FuncLinkV>,
    pub data: Seq<DataLink>,
}

impl DeepView for Links {
    type V = LinksV;

    open spec fn deep_view(&self) -> LinksV {
        LinksV { functions: self.functions.deep_view(), data: self.data.deep_view() }
    }
}

/// The function of this definition, searched from `i` on.
pub open spec fn func_link(fs: Seq<FuncLinkV>, d: DefId, i: int) -> Option<FuncLinkV>
    decreases fs.len() - i,
{
    if i >= fs.len() {
        None
    } else if fs[i].def_id == d {
        Some(fs[i])
    } else {
        func_link(fs, d, i + 1)
    }
}

/// The data of this name, searched from `i` on.
pub open spec fn data_link(ds: Seq<DataLink>, target: DataRef, i: int) -> Option<DataLink>
    decreases ds.len() - i,
{
    if i >= ds.len() {
        None
    } else if ds[i].target == target {
        Some(ds[i])
    } else {
        data_link(ds, target, i + 1)
    }
}

/// What a function is built with: the machine, the links, and the widths of its
/// parameters and results.
#[verifier::ext_equal]
pub struct Plan {
    pub machine: Machine,
    pub links: LinksV,
    pub shape: Shape,
}

/// The width of a machine type.
pub open spec fn width(t: IrType, m: Machine) -> u16 {
    match t {
        IrType::I8 => 1,
        IrType::I64 => 8,
        IrType::Ptr => m.ptr_bytes,
    }
}

/// The widths of machine types.
pub open spec fn widths(ts: Seq<IrType>, m: Machine) -> Seq<u16> {
    ts.map_values(|t: IrType| width(t, m))
}

/// The widths of the parameters and results of a signature.
pub open spec fn shape_for(s: CodeSignatureV, m: Machine) -> Shape {
    Shape {
        convention: m.convention,
        params: widths(s.params, m),
        returns: match s.returns {
            Some(t) => seq![width(t, m)],
            None => Seq::empty(),
        },
    }
}

/// What a step makes.
#[derive(Debug, Clone, Copy, PartialEq, Eq, Structural)]
pub enum Made {
    Nothing,
    Block,
    /// A value of this width.
    Value(u16),
    Slot,
    /// A variable of this width.
    Var(u16),
}

impl DeepView for Made {
    type V = Made;

    open spec fn deep_view(&self) -> Made {
        *self
    }
}

/// What the steps so far have made, and what has become of the blocks. All lists
/// go by the positions of steps.
#[verifier::ext_equal]
pub struct Progress {
    pub made: Seq<Made>,
    /// The widths of the parameters of a block.
    pub params: Seq<Seq<u16>>,
    /// Whether something was done with a block since it was made.
    pub touched: Seq<bool>,
    /// Whether a block ends.
    pub filled: Seq<bool>,
    /// Whether nothing jumps to a block any more.
    pub sealed: Seq<bool>,
    /// The block that instructions are added to.
    pub at: Option<usize>,
}

/// Nothing is made.
pub open spec fn no_progress() -> Progress {
    Progress { made: Seq::empty(), params: Seq::empty(), touched: Seq::empty(), filled: Seq::empty(), sealed: Seq::empty(), at: None }
}

/// One step more, which makes something.
pub open spec fn grown(p: Progress, m: Made) -> Progress {
    Progress { made: p.made.push(m), params: p.params.push(Seq::empty()), touched: p.touched.push(false), filled: p.filled.push(false), sealed: p.sealed.push(false), ..p }
}

/// Whether a step made a block.
pub open spec fn is_block(p: Progress, a: usize) -> bool {
    a < p.made.len() && p.made[a as int] == Made::Block
}

/// Whether a step made a slot.
pub open spec fn is_slot(p: Progress, a: usize) -> bool {
    a < p.made.len() && p.made[a as int] == Made::Slot
}

/// The width of the value that a step made.
pub open spec fn value_width(p: Progress, a: usize) -> Option<u16> {
    if a < p.made.len() {
        match p.made[a as int] {
            Made::Value(w) => Some(w),
            _ => None,
        }
    } else {
        None
    }
}

/// The width of the variable that a step made.
pub open spec fn variable_width(p: Progress, a: usize) -> Option<u16> {
    if a < p.made.len() {
        match p.made[a as int] {
            Made::Var(w) => Some(w),
            _ => None,
        }
    } else {
        None
    }
}

/// Whether a block is there to add to.
pub open spec fn can_add(p: Progress) -> bool {
    p.at matches Some(a) && !p.filled[a as int]
}

/// Whether something can jump to a block.
pub open spec fn can_jump(p: Progress, a: usize) -> bool {
    is_block(p, a) && !p.sealed[a as int]
}

/// Whether all of these are values.
pub open spec fn all_values(p: Progress, vs: Seq<usize>) -> bool {
    forall|i: int| 0 <= i < vs.len() ==> value_width(p, #[trigger] vs[i]) is Some
}

/// Something is done with a block.
pub open spec fn touching(p: Progress, a: usize) -> Progress {
    Progress { touched: p.touched.update(a as int, true), ..p }
}

/// The block that instructions are added to ends.
pub open spec fn filling(p: Progress) -> Progress {
    Progress { filled: p.filled.update(p.at->0 as int, true), ..p }
}

/// An optional value as a list.
pub open spec fn as_list(v: Option<usize>) -> Seq<usize> {
    match v {
        Some(a) => seq![a],
        None => Seq::empty(),
    }
}

/// An instruction that gives a value.
pub open spec fn value_step(p: Progress, ok: bool, w: u16) -> Option<Progress> {
    if can_add(p) && ok { Some(grown(p, Made::Value(w))) } else { None }
}

/// An instruction on two values.
pub open spec fn binary_step(p: Progress, l: usize, r: usize) -> Option<Progress> {
    value_step(p, value_width(p, l) is Some && value_width(p, r) is Some, value_width(p, l)->0)
}

/// The signature of a call: the given one, or the declared one.
pub open spec fn call_signature(l: FuncLinkV, s: Option<CodeSignatureV>) -> CodeSignatureV {
    match s {
        Some(s) => s,
        None => l.signature,
    }
}

/// What a call makes.
pub open spec fn call_made(s: CodeSignatureV, m: Machine) -> Made {
    match s.returns {
        Some(t) => Made::Value(width(t, m)),
        None => Made::Nothing,
    }
}

/// A call.
pub open spec fn call_step(
    p: Progress,
    callee: DefId,
    signature: Option<CodeSignatureV>,
    args: Seq<usize>,
    e: Plan,
) -> Option<Progress> {
    match func_link(e.links.functions, callee, 0) {
        None => None,
        Some(l) => if can_add(p) && all_values(p, args) {
            Some(grown(p, call_made(call_signature(l, signature), e.machine)))
        } else {
            None
        },
    }
}

/// A step on blocks.
pub open spec fn block_step(p: Progress, st: StepV, e: Plan) -> Option<Progress> {
    match st {
        StepV::CreateBlock => Some(grown(p, Made::Block)),
        StepV::EnterFunction(b) => if is_block(p, b) && !p.touched[b as int] {
            Some(
                grown(
                    touching(
                        Progress { params: p.params.update(b as int, p.params[b as int] + e.shape.params), ..p },
                        b,
                    ),
                    Made::Nothing,
                ),
            )
        } else {
            None
        },
        StepV::Param(b, i) => if is_block(p, b) && i < p.params[b as int].len() {
            Some(grown(p, Made::Value(p.params[b as int][i as int])))
        } else {
            None
        },
        StepV::AddPointerParam(b) => if is_block(p, b) && !p.touched[b as int] {
            Some(
                grown(
                    Progress { params: p.params.update(b as int, p.params[b as int].push(e.machine.ptr_bytes)), ..p },
                    Made::Nothing,
                ),
            )
        } else {
            None
        },
        StepV::SwitchTo(b) => if is_block(p, b) && !p.filled[b as int] && (
            p.at matches Some(a) ==> p.filled[a as int]
        ) {
            Some(grown(touching(Progress { at: Some(b), ..p }, b), Made::Nothing))
        } else {
            None
        },
        StepV::Seal(b) => if can_jump(p, b) {
            Some(
                grown(
                    touching(Progress { sealed: p.sealed.update(b as int, true), ..p }, b),
                    Made::Nothing,
                ),
            )
        } else {
            None
        },
        StepV::Jump(b, v) => if can_add(p) && can_jump(p, b) && all_values(p, as_list(v)) {
            Some(grown(touching(filling(p), b), Made::Nothing))
        } else {
            None
        },
        StepV::Branch(
            v,
            a,
            b,
        ) => if can_add(p) && can_jump(p, a) && can_jump(p, b) && value_width(p, v) is Some {
            Some(grown(touching(touching(filling(p), a), b), Made::Nothing))
        } else {
            None
        },
        StepV::Return(v) => if can_add(p) && all_values(p, as_list(v)) {
            Some(grown(filling(p), Made::Nothing))
        } else {
            None
        },
        _ => None,
    }
}

/// A step on values, slots and variables.
pub open spec fn other_step(p: Progress, st: StepV, e: Plan) -> Option<Progress> {
    match st {
        StepV::Const(t, _) => value_step(p, true, width(t, e.machine)),
        StepV::Symbol(d) => value_step(
            p,
            data_link(e.links.data, d, 0) is Some,
            e.machine.ptr_bytes,
        ),
        StepV::Add(l, r) => binary_step(p, l, r),
        StepV::Sub(l, r) => binary_step(p, l, r),
        StepV::Mul(l, r) => binary_step(p, l, r),
        StepV::Div(l, r) => binary_step(p, l, r),
        StepV::Offset(v, _) => value_step(p, value_width(p, v) is Some, value_width(p, v)->0),
        StepV::Compare(_, l, r) => value_step(
            p,
            value_width(p, l) is Some && value_width(p, r) is Some,
            1,
        ),
        StepV::Extend(v) => value_step(p, value_width(p, v) is Some, e.machine.ptr_bytes),
        StepV::Load(t, a) => value_step(p, value_width(p, a) is Some, width(t, e.machine)),
        StepV::Store(
            v,
            a,
        ) => if can_add(p) && value_width(p, v) is Some && value_width(p, a) is Some {
            Some(grown(p, Made::Nothing))
        } else {
            None
        },
        StepV::CreateSlot(_, _) => Some(grown(p, Made::Slot)),
        StepV::SlotAddr(s) => value_step(p, is_slot(p, s), e.machine.ptr_bytes),
        StepV::DeclareVar(t) => Some(grown(p, Made::Var(width(t, e.machine)))),
        StepV::SetVar(
            x,
            v,
        ) => if p.at is Some && variable_width(p, x) is Some && value_width(p, v) == variable_width(p, x) {
            Some(grown(p, Made::Nothing))
        } else {
            None
        },
        StepV::GetVar(x) => value_step(p, variable_width(p, x) is Some, variable_width(p, x)->0),
        StepV::Call { callee, signature, args } => call_step(p, callee, signature, args, e),
        _ => None,
    }
}

/// Whether a step is about blocks.
pub open spec fn is_block_step(st: StepV) -> bool {
    st is CreateBlock || st is EnterFunction || st is Param || st is AddPointerParam || st is SwitchTo || st is Seal || st is Jump || st is Branch || st is Return
}

/// The progress after a step, if it is allowed.
pub open spec fn next(p: Progress, st: StepV, e: Plan) -> Option<Progress> {
    if is_block_step(st) {
        block_step(p, st, e)
    } else {
        other_step(p, st, e)
    }
}

/// The progress after the first `n` steps, if all are allowed.
pub open spec fn run(steps: Seq<StepV>, n: int, e: Plan) -> Option<Progress>
    decreases n,
{
    if n <= 0 {
        Some(no_progress())
    } else {
        match run(steps, n - 1, e) {
            Some(p) => next(p, steps[n - 1], e),
            None => None,
        }
    }
}

/// Whether every block ends and nothing jumps to it any more.
pub open spec fn finished(p: Progress) -> bool {
    forall|a: int| 0 <= a < p.made.len() && #[trigger] p.made[a] == Made::Block ==> p.filled[a] && p.sealed[a]
}

/// How many parameters the first `n` steps ask for on block `b`, in a function
/// with `entry` parameters.
pub open spec fn param_count(steps: Seq<StepV>, n: int, b: int, entry: nat) -> nat
    decreases n,
{
    if n <= 0 {
        0
    } else {
        param_count(steps, n - 1, b, entry) + match steps[n - 1] {
            StepV::EnterFunction(a) => if a == b { entry } else { 0 },
            StepV::AddPointerParam(a) => if a == b { 1 } else { 0 },
            _ => 0,
        }
    }
}

/// How many variables the first `n` steps declare.
pub open spec fn declared(steps: Seq<StepV>, n: int) -> nat
    decreases n,
{
    if n <= 0 {
        0
    } else {
        declared(steps, n - 1) + if steps[n - 1] is DeclareVar { 1nat } else { 0nat }
    }
}

/// Whether no block can get more parameters than a block can have: those that
/// are asked for, and one for each variable.
pub open spec fn roomy(steps: Seq<StepV>, entry: nat) -> bool {
    forall|b: int| 0 <= b < steps.len() ==> #[trigger] param_count(steps, steps.len() as int, b, entry) + declared(steps, steps.len() as int) <= most_params()
}

/// Whether steps make a function: every step takes what earlier steps made,
/// code goes to blocks that do not end yet, in the end every block does, and
/// every block has room for its parameters.
pub open spec fn is_valid(steps: Seq<StepV>, e: Plan) -> bool {
    is_width(e.machine.ptr_bytes) && roomy(steps, e.shape.params.len()) && (run(steps, steps.len() as int, e) matches Some(p) && finished(p))
}

/// The error for steps that make no function.
pub open spec fn invalid_code() -> MplangErrorV {
    codegen_error("invalid code"@)
}

/// The numbers that the calls of a step gave.
#[derive(Debug, Clone, Copy, PartialEq, Eq, Structural)]
pub struct Numbers {
    /// What the step made.
    pub made: u32,
    /// The name of the function or the data that it refers to.
    pub name: u32,
    /// The signature of a call.
    pub sig: u32,
    /// The called function, or the symbol of the data.
    pub target: u32,
}

impl DeepView for Numbers {
    type V = Numbers;

    open spec fn deep_view(&self) -> Numbers {
        *self
    }
}

/// The number of what a step made.
pub open spec fn num(ns: Seq<Numbers>, a: usize) -> u32 {
    ns[a as int].made
}

/// The numbers of what steps made.
pub open spec fn nums(ns: Seq<Numbers>, vs: Seq<usize>) -> Seq<u32> {
    vs.map_values(|a: usize| num(ns, a))
}

/// The calls for an operation.
pub open spec fn binary_events(
    op: Operation,
    ns: Seq<Numbers>,
    p: Progress,
    l: usize,
    r: usize,
) -> Seq<Event> {
    seq![Event::Binary { op, x: num(ns, l), y: num(ns, r), value: ns.last().made, width: value_width(p, l)->0 }]
}

/// The calls for a reference to data.
pub open spec fn symbol_events(l: DataLink, n: Numbers, m: Machine) -> Seq<Event> {
    seq![
        Event::ImportName { namespace: 1, index: l.index, name: n.name },
        Event::CreateSymbol { name: n.name, colocated: l.colocated, symbol: n.target },
        Event::SymbolAddr { width: m.ptr_bytes, symbol: n.target, value: n.made },
    ]
}

/// The calls for a call of a function; only a function with its declared
/// signature can be reached directly.
pub open spec fn call_events(
    l: FuncLinkV,
    s: Option<CodeSignatureV>,
    args: Seq<u32>,
    n: Numbers,
    m: Machine,
) -> Seq<Event> {
    let shape = shape_for(call_signature(l, s), m);
    seq![
        Event::ImportName { namespace: 0, index: l.index, name: n.name },
        Event::ImportSignature { shape, sig: n.sig },
        Event::ImportFunction { name: n.name, sig: n.sig, colocated: s is None && l.colocated, func: n.target },
        Event::Call { func: n.target, args, value: if shape.returns.len() > 0 { Some(n.made) } else { None }, width: shape.returns[0] },
    ]
}

/// The calls that a step on blocks stands for; `ns` ends with the numbers of
/// this step.
pub open spec fn block_events(st: StepV, ns: Seq<Numbers>, p: Progress, e: Plan) -> Seq<Event> {
    let v = ns.last().made;
    match st {
        StepV::CreateBlock => seq![Event::CreateBlock { block: v }],
        StepV::EnterFunction(b) => seq![Event::EnterFunction { block: num(ns, b) }],
        StepV::Param(
            b,
            i,
        ) => seq![Event::Param { block: num(ns, b), index: i, value: v, width: p.params[b as int][i as int] }],
        StepV::AddPointerParam(
            b,
        ) => seq![Event::AddParam { block: num(ns, b), width: e.machine.ptr_bytes, value: v }],
        StepV::SwitchTo(b) => seq![Event::SwitchTo { block: num(ns, b) }],
        StepV::Seal(b) => seq![Event::Seal { block: num(ns, b) }],
        StepV::Jump(b, x) => seq![Event::Jump { block: num(ns, b), args: nums(ns, as_list(x)) }],
        StepV::Branch(
            x,
            a,
            b,
        ) => seq![Event::Branch { test: num(ns, x), yes: num(ns, a), no: num(ns, b) }],
        StepV::Return(x) => seq![Event::Return { args: nums(ns, as_list(x)) }],
        _ => Seq::empty(),
    }
}

/// The calls that another step stands for.
pub open spec fn other_events(st: StepV, ns: Seq<Numbers>, p: Progress, e: Plan) -> Seq<Event> {
    let v = ns.last().made;
    match st {
        StepV::Const(t, n) => seq![Event::Const { width: width(t, e.machine), n, value: v }],
        StepV::Symbol(d) => symbol_events(data_link(e.links.data, d, 0)->0, ns.last(), e.machine),
        StepV::Add(l, r) => binary_events(Operation::Add, ns, p, l, r),
        StepV::Sub(l, r) => binary_events(Operation::Sub, ns, p, l, r),
        StepV::Mul(l, r) => binary_events(Operation::Mul, ns, p, l, r),
        StepV::Div(l, r) => binary_events(Operation::Div, ns, p, l, r),
        StepV::Offset(
            x,
            n,
        ) => seq![Event::Offset { x: num(ns, x), n, value: v, width: value_width(p, x)->0 }],
        StepV::Compare(
            condition,
            l,
            r,
        ) => seq![Event::Compare { condition, x: num(ns, l), y: num(ns, r), value: v }],
        StepV::Extend(
            x,
        ) => seq![Event::Extend { width: e.machine.ptr_bytes, x: num(ns, x), value: v }],
        StepV::Load(
            t,
            a,
        ) => seq![Event::Load { width: width(t, e.machine), addr: num(ns, a), value: v }],
        StepV::Store(x, a) => seq![Event::Store { x: num(ns, x), addr: num(ns, a) }],
        StepV::CreateSlot(
            size,
            align_shift,
        ) => seq![Event::CreateSlot { size, align_shift, slot: v }],
        StepV::SlotAddr(
            s,
        ) => seq![Event::SlotAddr { width: e.machine.ptr_bytes, slot: num(ns, s), value: v }],
        StepV::DeclareVar(t) => seq![Event::DeclareVar { width: width(t, e.machine), var: v }],
        StepV::SetVar(x, a) => seq![Event::SetVar { var: num(ns, x), x: num(ns, a) }],
        StepV::GetVar(
            x,
        ) => seq![Event::GetVar { var: num(ns, x), value: v, width: variable_width(p, x)->0 }],
        StepV::Call { callee, signature, args } => call_events(
            func_link(e.links.functions, callee, 0)->0,
            signature,
            nums(ns, args),
            ns.last(),
            e.machine,
        ),
        _ => Seq::empty(),
    }
}

/// The calls that a step stands for.
pub open spec fn events_for(st: StepV, ns: Seq<Numbers>, p: Progress, e: Plan) -> Seq<Event> {
    if is_block_step(st) {
        block_events(st, ns, p, e)
    } else {
        other_events(st, ns, p, e)
    }
}

/// The calls that the first `n` steps stand for.
pub open spec fn all_events(steps: Seq<StepV>, ns: Seq<Numbers>, n: int, e: Plan) -> Seq<Event>
    decreases n,
{
    if n <= 0 {
        Seq::empty()
    } else {
        all_events(steps, ns, n - 1, e) + events_for(
            steps[n - 1],
            ns.take(n),
            run(steps, n - 1, e)->0,
            e,
        )
    }
}

/// Whether a function was built by the calls that its steps stand for, with
/// these numbers.
pub open spec fn built_from(
    t: Trace,
    index: u32,
    steps: Seq<StepV>,
    ns: Seq<Numbers>,
    e: Plan,
) -> bool {
    &&& ns.len() == steps.len()
    &&& t == Trace { index, shape: e.shape, events: all_events(steps, ns, steps.len() as int, e) }
}

} // verus!

