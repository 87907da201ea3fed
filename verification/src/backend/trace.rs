//! What has been asked of a builder of machine code, call by call.
//!
//! A builder gives numbers to the blocks, values, variables and slots that it
//! makes. A [`Trace`] holds every call with the numbers in it.

use crate::compiler::code::Condition;
use vstd::prelude::*;

verus! {

/// How arguments are passed between functions.
#[derive(Debug, Clone, Copy, PartialEq, Eq, Structural)]
pub enum Convention {
    SystemV,
    WindowsFastcall,
}

/// The widths in bytes of the parameters and results of a function.
#[verifier::ext_equal]
pub struct Shape {
    pub convention: Convention,
    pub params: Seq<u16>,
    pub returns: Seq<u16>,
}

/// An operation on two integers.
pub enum Operation {
    Add,
    Sub,
    Mul,
    Div,
}

/// One call. Numbers that the builder gave out are `u32`; a `width` is a number
/// of bytes.
pub enum Event {
    CreateBlock { block: u32 },
    EnterFunction { block: u32 },
    Param { block: u32, index: usize, value: u32, width: u16 },
    AddParam { block: u32, width: u16, value: u32 },
    SwitchTo { block: u32 },
    Seal { block: u32 },
    Jump { block: u32, args: Seq<u32> },
    Branch { test: u32, yes: u32, no: u32 },
    Return { args: Seq<u32> },
    Const { width: u16, n: i64, value: u32 },
    Binary { op: Operation, x: u32, y: u32, value: u32, width: u16 },
    Offset { x: u32, n: i64, value: u32, width: u16 },
    Compare { condition: Condition, x: u32, y: u32, value: u32 },
    Extend { width: u16, x: u32, value: u32 },
    Load { width: u16, addr: u32, value: u32 },
    Store { x: u32, addr: u32 },
    CreateSlot { size: u32, align_shift: u8, slot: u32 },
    SlotAddr { width: u16, slot: u32, value: u32 },
    DeclareVar { width: u16, var: u32 },
    SetVar { var: u32, x: u32 },
    GetVar { var: u32, value: u32, width: u16 },
    ImportName { namespace: u32, index: u32, name: u32 },
    ImportSignature { shape: Shape, sig: u32 },
    ImportFunction { name: u32, sig: u32, colocated: bool, func: u32 },
    CreateSymbol { name: u32, colocated: bool, symbol: u32 },
    SymbolAddr { width: u16, symbol: u32, value: u32 },
    Call { func: u32, args: Seq<u32>, value: Option<u32>, width: u16 },
}

/// The calls made for a function, with its number and the widths of its
/// parameters and results.
#[verifier::ext_equal]
pub struct Trace {
    pub index: u32,
    pub shape: Shape,
    pub events: Seq<Event>,
}

/// The widths that integers can have.
pub open spec fn is_width(width: u16) -> bool {
    width == 1 || width == 2 || width == 4 || width == 8
}

/// The value that a call gives, with its width.
pub open spec fn result_of(e: Event) -> Option<(u32, u16)> {
    match e {
        Event::Param { value, width, .. } => Some((value, width)),
        Event::AddParam { value, width, .. } => Some((value, width)),
        Event::Const { value, width, .. } => Some((value, width)),
        Event::Binary { value, width, .. } => Some((value, width)),
        Event::Offset { value, width, .. } => Some((value, width)),
        Event::Compare { value, .. } => Some((value, 1)),
        Event::Extend { value, width, .. } => Some((value, width)),
        Event::Load { value, width, .. } => Some((value, width)),
        Event::SlotAddr { value, width, .. } => Some((value, width)),
        Event::GetVar { value, width, .. } => Some((value, width)),
        Event::SymbolAddr { value, width, .. } => Some((value, width)),
        Event::Call { value: Some(value), width, .. } => Some((value, width)),
        _ => None,
    }
}

/// The width of a value that a call gave.
pub open spec fn width_of(es: Seq<Event>, v: u32) -> Option<u16>
    decreases es.len(),
{
    if es.len() == 0 {
        None
    } else {
        match result_of(es.last()) {
            Some(r) => if r.0 == v { Some(r.1) } else { width_of(es.drop_last(), v) },
            None => width_of(es.drop_last(), v),
        }
    }
}

/// The width of a variable.
pub open spec fn var_width(es: Seq<Event>, v: u32) -> Option<u16>
    decreases es.len(),
{
    if es.len() == 0 {
        None
    } else {
        match es.last() {
            Event::DeclareVar { width, var } => if var == v { Some(width) } else { var_width(es.drop_last(), v) },
            _ => var_width(es.drop_last(), v),
        }
    }
}

/// Whether a call made this block.
pub open spec fn has_block(es: Seq<Event>, b: u32) -> bool
    decreases es.len(),
{
    es.len() > 0 && (es.last() == Event::CreateBlock { block: b } || has_block(es.drop_last(), b))
}

/// Whether a call made this slot.
pub open spec fn has_slot(es: Seq<Event>, s: u32) -> bool
    decreases es.len(),
{
    es.len() > 0 && ((es.last() is CreateSlot && es.last()->CreateSlot_slot == s) || has_slot(es.drop_last(), s))
}

/// The widths of the parameters of a block; those of the function are `entry`.
pub open spec fn params_of(es: Seq<Event>, b: u32, entry: Seq<u16>) -> Seq<u16>
    decreases es.len(),
{
    if es.len() == 0 {
        Seq::empty()
    } else {
        let before = params_of(es.drop_last(), b, entry);
        match es.last() {
            Event::EnterFunction { block } => if block == b { before + entry } else { before },
            Event::AddParam { block, width, .. } => if block == b { before.push(width) } else { before },
            _ => before,
        }
    }
}

/// How many variables are declared.
pub open spec fn var_count(es: Seq<Event>) -> nat
    decreases es.len(),
{
    if es.len() == 0 {
        0
    } else {
        var_count(es.drop_last()) + if es.last() is DeclareVar { 1nat } else { 0nat }
    }
}

/// How many parameters a block can have.
pub open spec fn most_params() -> nat {
    0x1_0000
}

/// Whether every block has room for a parameter for each variable, behind the
/// parameters that were asked for.
pub open spec fn has_room(t: Trace) -> bool {
    forall|b: u32| #[trigger] has_block(t.events, b) ==> params_of(t.events, b, t.shape.params).len() + var_count(t.events) <= most_params()
}

/// Where code goes, and what has become of the blocks.
#[verifier::ext_equal]
pub struct Site {
    /// The block that instructions are added to.
    pub at: Option<u32>,
    /// The blocks that something was done with since they were made.
    pub touched: Set<u32>,
    /// The blocks that end in a jump, a branch or a return.
    pub filled: Set<u32>,
    /// The blocks that nothing jumps to any more.
    pub sealed: Set<u32>,
}

/// The sites after a call.
pub open spec fn site_after(s: Site, e: Event) -> Site {
    match e {
        Event::EnterFunction { block } => Site { touched: s.touched.insert(block), ..s },
        Event::SwitchTo { block } => Site { at: Some(block), touched: s.touched.insert(block), ..s },
        Event::Seal { block } => Site { touched: s.touched.insert(block), sealed: s.sealed.insert(block), ..s },
        Event::Jump { block, .. } => Site { touched: s.touched.insert(block), filled: s.filled.insert(s.at->0), ..s },
        Event::Branch { yes, no, .. } => Site { touched: s.touched.insert(yes).insert(no), filled: s.filled.insert(s.at->0), ..s },
        Event::Return { .. } => Site { filled: s.filled.insert(s.at->0), ..s },
        _ => s,
    }
}

/// The sites after all calls.
pub open spec fn site(es: Seq<Event>) -> Site
    decreases es.len(),
{
    if es.len() == 0 {
        Site { at: None, touched: Set::empty(), filled: Set::empty(), sealed: Set::empty() }
    } else {
        site_after(site(es.drop_last()), es.last())
    }
}

/// Whether an instruction can be added: there is a block, and it does not end
/// yet.
pub open spec fn is_open(t: Trace) -> bool {
    site(t.events).at matches Some(b) && !site(t.events).filled.contains(b)
}

/// Whether something can jump to a block.
pub open spec fn can_reach(t: Trace, b: u32) -> bool {
    has_block(t.events, b) && !site(t.events).sealed.contains(b)
}

/// Whether a value is known.
pub open spec fn known(t: Trace, v: u32) -> bool {
    width_of(t.events, v) is Some
}

/// Whether all values are known.
pub open spec fn all_known(t: Trace, vs: Seq<u32>) -> bool {
    forall|i: int| 0 <= i < vs.len() ==> known(t, #[trigger] vs[i])
}

/// The names that were imported, the signatures and the functions.
pub open spec fn has_name(es: Seq<Event>, n: u32) -> bool
    decreases es.len(),
{
    es.len() > 0 && ((es.last() is ImportName && es.last()->ImportName_name == n) || has_name(es.drop_last(), n))
}

/// The signature of this number.
pub open spec fn shape_of(es: Seq<Event>, s: u32) -> Option<Shape>
    decreases es.len(),
{
    if es.len() == 0 {
        None
    } else {
        match es.last() {
            Event::ImportSignature { shape, sig } => if sig == s { Some(shape) } else { shape_of(es.drop_last(), s) },
            _ => shape_of(es.drop_last(), s),
        }
    }
}

/// The signature of the function of this number.
pub open spec fn function_shape(es: Seq<Event>, f: u32) -> Option<Shape>
    decreases es.len(),
{
    if es.len() == 0 {
        None
    } else {
        match es.last() {
            Event::ImportFunction { sig, func, .. } => if func == f { shape_of(es.drop_last(), sig) } else { function_shape(es.drop_last(), f) },
            _ => function_shape(es.drop_last(), f),
        }
    }
}

/// Whether a call made this symbol.
pub open spec fn has_symbol(es: Seq<Event>, s: u32) -> bool
    decreases es.len(),
{
    es.len() > 0 && ((es.last() is CreateSymbol && es.last()->CreateSymbol_symbol == s) || has_symbol(es.drop_last(), s))
}

/// Whether every block ends and nothing jumps to it any more.
pub open spec fn is_complete(t: Trace) -> bool {
    forall|b: u32| #[trigger] has_block(t.events, b) ==> site(t.events).filled.contains(b) && site(t.events).sealed.contains(b)
}

/// One call more. A value that is given again keeps its width.
pub open spec fn grows(before: Trace, after: Trace, e: Event) -> bool {
    &&& after == Trace { events: before.events.push(e), ..before }
    &&& result_of(e) matches Some(r) ==> (width_of(before.events, r.0) matches Some(w) ==> w == r.1)
}

} // verus!

