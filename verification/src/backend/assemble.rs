//! Builds Cranelift functions from steps.

use crate::backend::agree::{
    agrees, agrees_at, is_quiet, lemma_add_param, lemma_complete, lemma_enter, lemma_fill,
    lemma_grown, lemma_grows, lemma_new_block, lemma_new_slot, lemma_new_variable, lemma_quiet,
    lemma_seal, lemma_switch, made_block,
};
use crate::backend::clif::{
    add_block_param, add_signature_param, add_signature_result, add_values, begin, block_param,
    branch, call, code_of, compare, constant, contents, create_block, create_slot, create_symbol,
    declare_variable, divide, enter_function, extend, finish, get_variable, history,
    import_function, import_name, import_signature, jump, leave, load, multiply, new_context,
    new_function, new_signature, offset, seal, set_variable, slot_address, store, subtract,
    switch_to, symbol_address,
};
use crate::backend::plan::{
    all_events, all_values, as_list, block_events, block_step, built_from, call_events, can_add,
    can_jump, data_link, declared, events_for, filling, finished, func_link, grown, invalid_code,
    is_block, is_valid, next, no_progress, num, nums, other_events, other_step, param_count, roomy,
    run, shape_for, symbol_events, touching, value_width, width, widths, DataLink, FuncLink, Links,
    Machine, Made, Numbers, Plan, Progress,
};
use crate::backend::trace::{
    all_known, can_reach, function_shape, grows, has_block, has_name, has_room, is_open, is_width,
    known, most_params, params_of, result_of, var_count, width_of, Event, Operation, Shape, Trace,
};
use crate::compiler::code::{CodeSignature, Condition, DataRef, IrType, Step, StepV};
use crate::error::MplangError;
use crate::hir::DefId;
use crate::list::{empty_list, push_item, set_item};
use cranelift_codegen::ir::Function;
use cranelift_codegen::ir;
use cranelift_frontend::FunctionBuilder;
use vstd::prelude::*;

verus! {

/// What the steps so far have made, with the numbers that Cranelift gave.
struct Tracker {
    made: Vec<Made>,
    params: Vec<Vec<u16>>,
    touched: Vec<bool>,
    filled: Vec<bool>,
    sealed: Vec<bool>,
    at: Option<usize>,
    numbers: Vec<Numbers>,
}

/// What a function is built with.
pub open spec fn plan_for(links: Links, m: Machine, shape: Shape) -> Plan {
    Plan { machine: m, links: links.deep_view(), shape }
}

/// Only something was made.
spec fn only(v: u32) -> Numbers {
    Numbers { made: v, name: 0, sig: 0, target: 0 }
}

impl Tracker {
    spec fn progress(&self) -> Progress {
        Progress { made: self.made@, params: self.params.deep_view(), touched: self.touched@, filled: self.filled@, sealed: self.sealed@, at: self.at }
    }

    fn new() -> (r: Self)
        ensures
            r.progress() == no_progress(),
            r.numbers@.len() == 0,
    {
        Tracker { made: Vec::new(), params: empty_list(), touched: Vec::new(), filled: Vec::new(), sealed: Vec::new(), at: None, numbers: Vec::new() }
    }

    /// One step more.
    fn grow(&mut self, m: Made, n: Numbers)
        ensures
            final(self).progress() == grown(old(self).progress(), m),
            final(self).numbers@ == old(self).numbers@.push(n),
    {
        let none: Vec<u16> = empty_list();
        self.made.push(m);
        push_item(&mut self.params, none);
        self.touched.push(false);
        self.filled.push(false);
        self.sealed.push(false);
        self.numbers.push(n);
    }

    /// Whether an instruction can be added.
    fn can_add(&self, Ghost(t): Ghost<Trace>) -> (r: bool)
        requires
            agrees(t, self.progress(), self.numbers@),
        ensures
            r == can_add(self.progress()),
            r ==> is_open(t),
    {
        match self.at {
            Some(a) => {
                assert(agrees_at(t, self.progress(), self.numbers@, a as int));
                !self.filled[a]
            },
            None => false,
        }
    }

    /// The number and the width of the value that a step made.
    fn value(&self, a: usize, Ghost(t): Ghost<Trace>) -> (r: Option<(u32, u16)>)
        requires
            agrees(t, self.progress(), self.numbers@),
        ensures
            r is Some <==> value_width(self.progress(), a) is Some,
            r matches Some(x) ==> a < self.numbers@.len() && x.0 == num(self.numbers@, a) && Some(x.1) == value_width(self.progress(), a) && width_of(t.events, x.0) == Some(x.1),
    {
        if a >= self.made.len() {
            return None;
        }
        assert(agrees_at(t, self.progress(), self.numbers@, a as int));
        match self.made[a] {
            Made::Value(w) => Some((self.numbers[a].made, w)),
            _ => None,
        }
    }

    /// The number of the block that a step made.
    fn block(&self, a: usize, Ghost(t): Ghost<Trace>) -> (r: Option<u32>)
        requires
            agrees(t, self.progress(), self.numbers@),
        ensures
            r is Some <==> is_block(self.progress(), a),
            r matches Some(n) ==> a < self.numbers@.len() && n == num(self.numbers@, a) && agrees_at(t, self.progress(), self.numbers@, a as int) && has_block(t.events, n),
    {
        if a >= self.made.len() {
            return None;
        }
        assert(agrees_at(t, self.progress(), self.numbers@, a as int));
        match self.made[a] {
            Made::Block => Some(self.numbers[a].made),
            _ => None,
        }
    }

    /// The number of a block that something can jump to.
    fn target(&self, a: usize, Ghost(t): Ghost<Trace>) -> (r: Option<u32>)
        requires
            agrees(t, self.progress(), self.numbers@),
        ensures
            r is Some <==> can_jump(self.progress(), a),
            r matches Some(n) ==> a < self.numbers@.len() && n == num(self.numbers@, a) && can_reach(t, n),
    {
        match self.block(a, Ghost(t)) {
            Some(n) => if self.sealed[a] { None } else { Some(n) },
            None => None,
        }
    }

    /// The numbers of values.
    fn values(&self, vs: &Vec<usize>, Ghost(t): Ghost<Trace>) -> (r: Option<Vec<u32>>)
        requires
            agrees(t, self.progress(), self.numbers@),
        ensures
            r is Some <==> all_values(self.progress(), vs@),
            r matches Some(out) ==> out@ == nums(self.numbers@, vs@) && all_known(t, out@) && (
                forall|i: int| 0 <= i < vs@.len() ==> #[trigger] vs@[i] < self.numbers@.len()
            ),
    {
        let mut out: Vec<u32> = Vec::new();
        for i in 0..vs.len()
            invariant
                agrees(t, self.progress(), self.numbers@),
                out@.len() == i,
                forall|j: int| 0 <= j < i ==> value_width(self.progress(), #[trigger] vs@[j]) is Some,
                forall|j: int| 0 <= j < i ==> #[trigger] out@[j] == num(self.numbers@, vs@[j]) && known(t, out@[j]),
                forall|j: int| 0 <= j < i ==> #[trigger] vs@[j] < self.numbers@.len(),
        {
            match self.value(vs[i], Ghost(t)) {
                Some(v) => {
                    out.push(v.0);
                },
                None => {
                    return None;
                },
            }
        }
        assert(out@ =~= nums(self.numbers@, vs@));
        Some(out)
    }

    /// Takes note of a value that a quiet call gave.
    fn keep_value(
        &mut self,
        v: u32,
        w: u16,
        Ghost(t): Ghost<Trace>,
        Ghost(u): Ghost<Trace>,
        Ghost(e): Ghost<Event>,
    )
        requires
            agrees(t, old(self).progress(), old(self).numbers@),
            grows(t, u, e),
            is_quiet(e),
            result_of(e) == Some((v, w)),
        ensures
            final(self).progress() == grown(old(self).progress(), Made::Value(w)),
            final(self).numbers@ == old(self).numbers@.push(only(v)),
            agrees(u, final(self).progress(), final(self).numbers@),
            u.events == t.events + seq![e],
            u == (Trace { events: u.events, ..t }),
    {
        proof {
            lemma_quiet(t, u, e, self.progress(), self.numbers@);
            lemma_grows(t, u, e);
            lemma_grown(u, self.progress(), self.numbers@, Made::Value(w), only(v));
            assert(u.events =~= t.events + seq![e]);
        }
        self.grow(Made::Value(w), Numbers { made: v, name: 0, sig: 0, target: 0 });
    }

    /// Takes note of a step that makes nothing.
    fn keep_nothing(
        &mut self,
        Ghost(t): Ghost<Trace>,
        Ghost(u): Ghost<Trace>,
        Ghost(e): Ghost<Event>,
    )
        requires
            agrees(u, old(self).progress(), old(self).numbers@),
            grows(t, u, e),
        ensures
            final(self).progress() == grown(old(self).progress(), Made::Nothing),
            final(self).numbers@ == old(self).numbers@.push(only(0)),
            agrees(u, final(self).progress(), final(self).numbers@),
            u.events == t.events + seq![e],
            u == (Trace { events: u.events, ..t }),
    {
        proof {
            lemma_grown(u, self.progress(), self.numbers@, Made::Nothing, only(0));
            assert(u.events =~= t.events + seq![e]);
        }
        self.grow(Made::Nothing, Numbers { made: 0, name: 0, sig: 0, target: 0 });
    }
}

/// Whether a step was done as planned: where it is allowed, the progress is
/// `want`, the calls are `events`, and the numbers follow the steps; where it is
/// not, the answer is no.
spec fn is_done(
    t: Trace,
    ns: Seq<Numbers>,
    u: Trace,
    tr: Tracker,
    r: bool,
    want: Option<Progress>,
    events: Seq<Event>,
) -> bool {
    match want {
        None => !r,
        Some(q) => {
            &&& r
            &&& tr.progress() == q
            &&& tr.numbers@ == ns.push(tr.numbers@.last())
            &&& u == Trace { events: t.events + events, ..t }
            &&& agrees(u, q, tr.numbers@)
        },
    }
}

/// Whether the blocks have room for the parameters that a step asks for.
spec fn has_room_for(t: Trace, p: Progress, st: StepV) -> bool {
    has_room(t) && match st {
        StepV::EnterFunction(a) => is_block(p, a) ==> p.params[a as int].len() + t.shape.params.len() + var_count(t.events) <= most_params(),
        StepV::AddPointerParam(a) => is_block(p, a) ==> p.params[a as int].len() + 1 + var_count(t.events) <= most_params(),
        _ => true,
    }
}

/// The width of a machine type.
fn width_of_type(t: IrType, m: Machine) -> (r: u16)
    ensures
        r == width(t, m),
        is_width(m.ptr_bytes) ==> is_width(r),
{
    match t {
        IrType::I8 => 1,
        IrType::I64 => 8,
        IrType::Ptr => m.ptr_bytes,
    }
}

/// The signature for a machine.
fn make_signature(s: &CodeSignature, m: Machine) -> (r: ir::Signature)
    requires
        is_width(m.ptr_bytes),
    ensures
        contents(r) == shape_for(s.deep_view(), m),
{
    let mut out = new_signature(m.convention);
    let ghost ts = s.deep_view().params;
    assert(ts =~= s.params@);
    for i in 0..s.params.len()
        invariant
            is_width(m.ptr_bytes),
            ts == s.params@,
            contents(out) == (
                Shape { convention: m.convention, params: widths(ts.take(i as int), m), returns: Seq::empty() }
            ),
    {
        add_signature_param(&mut out, width_of_type(s.params[i], m));
        assert(
            widths(ts.take(i + 1), m) =~= widths(ts.take(i as int), m).push(width(ts[i as int], m))
        );
    }
    assert(ts.take(ts.len() as int) =~= ts);
    if let Some(t) = &s.returns {
        add_signature_result(&mut out, width_of_type(*t, m));
        assert(contents(out).returns =~= seq![width(*t, m)]);
    }
    out
}

/// The signature of a function for a machine whose pointers have a width that
/// Cranelift knows.
pub fn machine_signature(s: &CodeSignature, m: Machine) -> (r: Option<ir::Signature>)
    ensures
        r is Some <==> is_width(m.ptr_bytes),
        r matches Some(x) ==> contents(x) == shape_for(s.deep_view(), m),
{
    if known_width(m.ptr_bytes) {
        Some(make_signature(s, m))
    } else {
        None
    }
}

fn known_width(w: u16) -> (r: bool)
    ensures
        r == is_width(w),
{
    w == 1 || w == 2 || w == 4 || w == 8
}

/// The function of this definition.
pub(super) fn find_function<'a>(fs: &'a Vec<FuncLink>, d: DefId) -> (r: Option<&'a FuncLink>)
    ensures
        match (r, func_link(fs.deep_view(), d, 0)) {
            (Some(l), Some(w)) => l.deep_view() == w,
            (None, None) => true,
            _ => false,
        },
{
    let ghost all = fs.deep_view();
    for i in 0..fs.len()
        invariant
            all == fs.deep_view(),
            func_link(all, d, 0) == func_link(all, d, i as int),
    {
        assert(all[i as int] == fs@[i as int].deep_view());
        if fs[i].def_id == d {
            return Some(&fs[i]);
        }
    }
    None
}

/// The data of this name.
fn find_data(ds: &Vec<DataLink>, target: DataRef) -> (r: Option<DataLink>)
    ensures
        r == data_link(ds.deep_view(), target, 0),
{
    let ghost all = ds.deep_view();
    for i in 0..ds.len()
        invariant
            all == ds.deep_view(),
            data_link(all, target, 0) == data_link(all, target, i as int),
    {
        assert(all[i as int] == ds@[i as int]);
        if ds[i].target == target {
            return Some(ds[i]);
        }
    }
    None
}

// Steps on blocks

fn create_block_step(
    tr: &mut Tracker,
    b: &mut FunctionBuilder<'_>,
    links: &Links,
    m: Machine,
) -> (r: bool)
    requires
        is_width(m.ptr_bytes),
        agrees(history(*old(b)), old(tr).progress(), old(tr).numbers@),
    ensures
        is_done(
            history(*old(b)),
            old(tr).numbers@,
            history(*final(b)),
            *final(tr),
            r,
            block_step(
                old(tr).progress(),
                StepV::CreateBlock,
                plan_for(*links, m, history(*old(b)).shape),
            ),
            block_events(
                StepV::CreateBlock,
                final(tr).numbers@,
                old(tr).progress(),
                plan_for(*links, m, history(*old(b)).shape),
            ),
        ),
{
    let ghost t = history(*b);
    let ghost p = tr.progress();
    let ghost ns = tr.numbers@;
    let n: u32 = create_block(b);
    proof {
        lemma_new_block(t, history(*b), p, ns, only(n));
        assert(history(*b).events =~= t.events + seq![Event::CreateBlock { block: n }]);
    }
    tr.grow(Made::Block, Numbers { made: n, name: 0, sig: 0, target: 0 });
    true
}

fn enter_step(
    tr: &mut Tracker,
    b: &mut FunctionBuilder<'_>,
    a: usize,
    entry: &Vec<u16>,
    links: &Links,
    m: Machine,
) -> (r: bool)
    requires
        is_width(m.ptr_bytes),
        agrees(history(*old(b)), old(tr).progress(), old(tr).numbers@),
        entry@ == history(*old(b)).shape.params,
        has_room_for(history(*old(b)), old(tr).progress(), StepV::EnterFunction(a)),
    ensures
        is_done(
            history(*old(b)),
            old(tr).numbers@,
            history(*final(b)),
            *final(tr),
            r,
            block_step(
                old(tr).progress(),
                StepV::EnterFunction(a),
                plan_for(*links, m, history(*old(b)).shape),
            ),
            block_events(
                StepV::EnterFunction(a),
                final(tr).numbers@,
                old(tr).progress(),
                plan_for(*links, m, history(*old(b)).shape),
            ),
        ),
{
    let ghost t = history(*b);
    let ghost p = tr.progress();
    let ghost ns = tr.numbers@;
    match tr.block(a, Ghost(t)) {
        Some(n) => {
            if tr.touched[a] {
                return false;
            }
            enter_function(b, n);
            let mut ps: Vec<u16> = tr.params[a].clone();
            assert(tr.params.deep_view()[a as int] =~= tr.params@[a as int]@);
            assert(ps@ =~= p.params[a as int]);
            for i in 0..entry.len()
                invariant
                    ps@ == p.params[a as int] + entry@.take(i as int),
            {
                ps.push(entry[i]);
                assert(
                    p.params[a as int] + entry@.take(i + 1) =~= (p.params[a as int] + entry@.take(i as int)).push(entry@[i as int])
                );
            }
            assert(entry@.take(entry@.len() as int) =~= entry@);
            assert(ps.deep_view() =~= ps@);
            set_item(&mut tr.params, a, ps);
            tr.touched.set(a, true);
            proof {
                lemma_enter(t, history(*b), p, ns, a);
                assert(
                    tr.progress() == touching(
                        Progress { params: p.params.update(a as int, p.params[a as int] + t.shape.params), ..p },
                        a,
                    )
                );
            }
            tr.keep_nothing(Ghost(t), Ghost(history(*b)), Ghost(Event::EnterFunction { block: n }));
            true
        },
        None => false,
    }
}

fn param_step(
    tr: &mut Tracker,
    b: &mut FunctionBuilder<'_>,
    a: usize,
    i: usize,
    links: &Links,
    m: Machine,
) -> (r: bool)
    requires
        is_width(m.ptr_bytes),
        agrees(history(*old(b)), old(tr).progress(), old(tr).numbers@),
    ensures
        is_done(
            history(*old(b)),
            old(tr).numbers@,
            history(*final(b)),
            *final(tr),
            r,
            block_step(
                old(tr).progress(),
                StepV::Param(a, i),
                plan_for(*links, m, history(*old(b)).shape),
            ),
            block_events(
                StepV::Param(a, i),
                final(tr).numbers@,
                old(tr).progress(),
                plan_for(*links, m, history(*old(b)).shape),
            ),
        ),
{
    let ghost t = history(*b);
    let ghost p = tr.progress();
    let ghost ns = tr.numbers@;
    match tr.block(a, Ghost(t)) {
        Some(n) => {
            assert(tr.params.deep_view()[a as int] =~= tr.params@[a as int]@);
            if i >= tr.params[a].len() {
                return false;
            }
            let w: u16 = tr.params[a][i];
            let v: u32 = block_param(b, n, i);
            tr.keep_value(
                v,
                w,
                Ghost(t),
                Ghost(history(*b)),
                Ghost(Event::Param { block: n, index: i, value: v, width: w }),
            );
            true
        },
        None => false,
    }
}

fn add_param_step(
    tr: &mut Tracker,
    b: &mut FunctionBuilder<'_>,
    a: usize,
    links: &Links,
    m: Machine,
) -> (r: bool)
    requires
        is_width(m.ptr_bytes),
        agrees(history(*old(b)), old(tr).progress(), old(tr).numbers@),
        has_room_for(history(*old(b)), old(tr).progress(), StepV::AddPointerParam(a)),
    ensures
        is_done(
            history(*old(b)),
            old(tr).numbers@,
            history(*final(b)),
            *final(tr),
            r,
            block_step(
                old(tr).progress(),
                StepV::AddPointerParam(a),
                plan_for(*links, m, history(*old(b)).shape),
            ),
            block_events(
                StepV::AddPointerParam(a),
                final(tr).numbers@,
                old(tr).progress(),
                plan_for(*links, m, history(*old(b)).shape),
            ),
        ),
{
    let ghost t = history(*b);
    let ghost p = tr.progress();
    let ghost ns = tr.numbers@;
    match tr.block(a, Ghost(t)) {
        Some(n) => {
            if tr.touched[a] {
                return false;
            }
            let v: u32 = add_block_param(b, n, m.ptr_bytes);
            let mut ps: Vec<u16> = tr.params[a].clone();
            assert(tr.params.deep_view()[a as int] =~= tr.params@[a as int]@);
            assert(ps@ =~= p.params[a as int]);
            ps.push(m.ptr_bytes);
            assert(ps.deep_view() =~= ps@);
            set_item(&mut tr.params, a, ps);
            proof {
                let e = Event::AddParam { block: n, width: m.ptr_bytes, value: v };
                lemma_add_param(t, history(*b), p, ns, a, m.ptr_bytes, v);
                assert(
                    tr.progress() == (
                        Progress { params: p.params.update(a as int, p.params[a as int].push(m.ptr_bytes)), ..p }
                    )
                );
                lemma_grown(history(*b), tr.progress(), ns, Made::Nothing, only(v));
                assert(history(*b).events =~= t.events + seq![e]);
            }
            tr.grow(Made::Nothing, Numbers { made: v, name: 0, sig: 0, target: 0 });
            true
        },
        None => false,
    }
}

fn switch_step(
    tr: &mut Tracker,
    b: &mut FunctionBuilder<'_>,
    a: usize,
    links: &Links,
    m: Machine,
) -> (r: bool)
    requires
        is_width(m.ptr_bytes),
        agrees(history(*old(b)), old(tr).progress(), old(tr).numbers@),
    ensures
        is_done(
            history(*old(b)),
            old(tr).numbers@,
            history(*final(b)),
            *final(tr),
            r,
            block_step(
                old(tr).progress(),
                StepV::SwitchTo(a),
                plan_for(*links, m, history(*old(b)).shape),
            ),
            block_events(
                StepV::SwitchTo(a),
                final(tr).numbers@,
                old(tr).progress(),
                plan_for(*links, m, history(*old(b)).shape),
            ),
        ),
{
    let ghost t = history(*b);
    let ghost p = tr.progress();
    let ghost ns = tr.numbers@;
    match tr.block(a, Ghost(t)) {
        Some(n) => {
            if tr.filled[a] {
                return false;
            }
            if let Some(at) = tr.at {
                assert(agrees_at(t, p, ns, at as int));
                if !tr.filled[at] {
                    return false;
                }
            }
            switch_to(b, n);
            tr.at = Some(a);
            tr.touched.set(a, true);
            proof {
                lemma_switch(t, history(*b), p, ns, a);
                assert(tr.progress() == touching(Progress { at: Some(a), ..p }, a));
            }
            tr.keep_nothing(Ghost(t), Ghost(history(*b)), Ghost(Event::SwitchTo { block: n }));
            true
        },
        None => false,
    }
}

fn seal_step(
    tr: &mut Tracker,
    b: &mut FunctionBuilder<'_>,
    a: usize,
    links: &Links,
    m: Machine,
) -> (r: bool)
    requires
        is_width(m.ptr_bytes),
        agrees(history(*old(b)), old(tr).progress(), old(tr).numbers@),
        has_room(history(*old(b))),
    ensures
        is_done(
            history(*old(b)),
            old(tr).numbers@,
            history(*final(b)),
            *final(tr),
            r,
            block_step(
                old(tr).progress(),
                StepV::Seal(a),
                plan_for(*links, m, history(*old(b)).shape),
            ),
            block_events(
                StepV::Seal(a),
                final(tr).numbers@,
                old(tr).progress(),
                plan_for(*links, m, history(*old(b)).shape),
            ),
        ),
{
    let ghost t = history(*b);
    let ghost p = tr.progress();
    let ghost ns = tr.numbers@;
    match tr.target(a, Ghost(t)) {
        Some(n) => {
            seal(b, n);
            tr.sealed.set(a, true);
            tr.touched.set(a, true);
            proof {
                lemma_seal(t, history(*b), p, ns, a);
                assert(
                    tr.progress() == touching(
                        Progress { sealed: p.sealed.update(a as int, true), ..p },
                        a,
                    )
                );
            }
            tr.keep_nothing(Ghost(t), Ghost(history(*b)), Ghost(Event::Seal { block: n }));
            true
        },
        None => false,
    }
}

/// An optional value as a list.
fn list_of_option(v: Option<usize>) -> (r: Vec<usize>)
    ensures
        r@ == as_list(v),
{
    let mut out: Vec<usize> = Vec::new();
    if let Some(a) = v {
        out.push(a);
    }
    assert(out@ =~= as_list(v));
    out
}

/// The numbers of earlier steps do not change.
proof fn lemma_nums(ns: Seq<Numbers>, n: Numbers, vs: Seq<usize>)
    requires
        forall|i: int| 0 <= i < vs.len() ==> #[trigger] vs[i] < ns.len(),
    ensures
        nums(ns.push(n), vs) == nums(ns, vs),
{
    assert(nums(ns.push(n), vs) =~= nums(ns, vs));
}

/// Two different blocks have different numbers.
proof fn lemma_led(t: Trace, p: Progress, ns: Seq<Numbers>, a: usize)
    requires
        agrees(t, p, ns),
        is_block(p, a),
    ensures
        forall|c: int| 0 <= c < p.made.len() && #[trigger] p.made[c] == Made::Block ==> (
            ns[c].made == num(ns, a) <==> c == a as int
        ),
{
}

fn jump_step(
    tr: &mut Tracker,
    b: &mut FunctionBuilder<'_>,
    a: usize,
    v: Option<usize>,
    links: &Links,
    m: Machine,
) -> (r: bool)
    requires
        is_width(m.ptr_bytes),
        agrees(history(*old(b)), old(tr).progress(), old(tr).numbers@),
    ensures
        is_done(
            history(*old(b)),
            old(tr).numbers@,
            history(*final(b)),
            *final(tr),
            r,
            block_step(
                old(tr).progress(),
                StepV::Jump(a, v),
                plan_for(*links, m, history(*old(b)).shape),
            ),
            block_events(
                StepV::Jump(a, v),
                final(tr).numbers@,
                old(tr).progress(),
                plan_for(*links, m, history(*old(b)).shape),
            ),
        ),
{
    let ghost t = history(*b);
    let ghost p = tr.progress();
    let ghost ns = tr.numbers@;
    if !tr.can_add(Ghost(t)) {
        return false;
    }
    let vs = list_of_option(v);
    match (tr.target(a, Ghost(t)), tr.values(&vs, Ghost(t))) {
        (Some(n), Some(args)) => {
            let ghost e = Event::Jump { block: n, args: args@ };
            jump(b, n, &args);
            if let Some(at) = tr.at {
                tr.filled.set(at, true);
            }
            tr.touched.set(a, true);
            proof {
                lemma_led(t, p, ns, a);
                assert(tr.progress() == touching(filling(p), a));
                lemma_fill(t, history(*b), e, p, tr.progress(), ns);
                lemma_nums(ns, only(0), vs@);
            }
            tr.keep_nothing(Ghost(t), Ghost(history(*b)), Ghost(e));
            true
        },
        _ => false,
    }
}

fn branch_step(
    tr: &mut Tracker,
    b: &mut FunctionBuilder<'_>,
    v: usize,
    x: usize,
    y: usize,
    links: &Links,
    m: Machine,
) -> (r: bool)
    requires
        is_width(m.ptr_bytes),
        agrees(history(*old(b)), old(tr).progress(), old(tr).numbers@),
    ensures
        is_done(
            history(*old(b)),
            old(tr).numbers@,
            history(*final(b)),
            *final(tr),
            r,
            block_step(
                old(tr).progress(),
                StepV::Branch(v, x, y),
                plan_for(*links, m, history(*old(b)).shape),
            ),
            block_events(
                StepV::Branch(v, x, y),
                final(tr).numbers@,
                old(tr).progress(),
                plan_for(*links, m, history(*old(b)).shape),
            ),
        ),
{
    let ghost t = history(*b);
    let ghost p = tr.progress();
    let ghost ns = tr.numbers@;
    if !tr.can_add(Ghost(t)) {
        return false;
    }
    match (tr.value(v, Ghost(t)), tr.target(x, Ghost(t)), tr.target(y, Ghost(t))) {
        (Some(test), Some(yes), Some(no)) => {
            let ghost e = Event::Branch { test: test.0, yes, no };
            branch(b, test.0, yes, no);
            if let Some(at) = tr.at {
                tr.filled.set(at, true);
            }
            tr.touched.set(x, true);
            tr.touched.set(y, true);
            proof {
                lemma_led(t, p, ns, x);
                lemma_led(t, p, ns, y);
                assert(tr.progress() == touching(touching(filling(p), x), y));
                lemma_fill(t, history(*b), e, p, tr.progress(), ns);
            }
            tr.keep_nothing(Ghost(t), Ghost(history(*b)), Ghost(e));
            true
        },
        _ => false,
    }
}

fn return_step(
    tr: &mut Tracker,
    b: &mut FunctionBuilder<'_>,
    v: Option<usize>,
    links: &Links,
    m: Machine,
) -> (r: bool)
    requires
        is_width(m.ptr_bytes),
        agrees(history(*old(b)), old(tr).progress(), old(tr).numbers@),
    ensures
        is_done(
            history(*old(b)),
            old(tr).numbers@,
            history(*final(b)),
            *final(tr),
            r,
            block_step(
                old(tr).progress(),
                StepV::Return(v),
                plan_for(*links, m, history(*old(b)).shape),
            ),
            block_events(
                StepV::Return(v),
                final(tr).numbers@,
                old(tr).progress(),
                plan_for(*links, m, history(*old(b)).shape),
            ),
        ),
{
    let ghost t = history(*b);
    let ghost p = tr.progress();
    let ghost ns = tr.numbers@;
    if !tr.can_add(Ghost(t)) {
        return false;
    }
    let vs = list_of_option(v);
    match tr.values(&vs, Ghost(t)) {
        Some(args) => {
            let ghost e = Event::Return { args: args@ };
            leave(b, &args);
            if let Some(at) = tr.at {
                tr.filled.set(at, true);
            }
            proof {
                assert(tr.progress() == filling(p));
                lemma_fill(t, history(*b), e, p, tr.progress(), ns);
                lemma_nums(ns, only(0), vs@);
            }
            tr.keep_nothing(Ghost(t), Ghost(history(*b)), Ghost(e));
            true
        },
        None => false,
    }
}

// Other steps

fn const_step(
    tr: &mut Tracker,
    b: &mut FunctionBuilder<'_>,
    ty: IrType,
    n: i64,
    links: &Links,
    m: Machine,
) -> (r: bool)
    requires
        is_width(m.ptr_bytes),
        agrees(history(*old(b)), old(tr).progress(), old(tr).numbers@),
    ensures
        is_done(
            history(*old(b)),
            old(tr).numbers@,
            history(*final(b)),
            *final(tr),
            r,
            other_step(
                old(tr).progress(),
                StepV::Const(ty, n),
                plan_for(*links, m, history(*old(b)).shape),
            ),
            other_events(
                StepV::Const(ty, n),
                final(tr).numbers@,
                old(tr).progress(),
                plan_for(*links, m, history(*old(b)).shape),
            ),
        ),
{
    let ghost t = history(*b);
    let ghost p = tr.progress();
    let ghost ns = tr.numbers@;
    if !tr.can_add(Ghost(t)) {
        return false;
    }
    let w: u16 = width_of_type(ty, m);
    let v: u32 = constant(b, w, n);
    tr.keep_value(
        v,
        w,
        Ghost(t),
        Ghost(history(*b)),
        Ghost(Event::Const { width: w, n, value: v }),
    );
    true
}

fn add_step(
    tr: &mut Tracker,
    b: &mut FunctionBuilder<'_>,
    x: usize,
    y: usize,
    links: &Links,
    m: Machine,
) -> (r: bool)
    requires
        is_width(m.ptr_bytes),
        agrees(history(*old(b)), old(tr).progress(), old(tr).numbers@),
    ensures
        is_done(
            history(*old(b)),
            old(tr).numbers@,
            history(*final(b)),
            *final(tr),
            r,
            other_step(
                old(tr).progress(),
                StepV::Add(x, y),
                plan_for(*links, m, history(*old(b)).shape),
            ),
            other_events(
                StepV::Add(x, y),
                final(tr).numbers@,
                old(tr).progress(),
                plan_for(*links, m, history(*old(b)).shape),
            ),
        ),
{
    let ghost t = history(*b);
    let ghost p = tr.progress();
    let ghost ns = tr.numbers@;
    if !tr.can_add(Ghost(t)) {
        return false;
    }
    match (tr.value(x, Ghost(t)), tr.value(y, Ghost(t))) {
        (Some(l), Some(r)) => {
            let v: u32 = add_values(b, l.0, r.0);
            tr.keep_value(
                v,
                l.1,
                Ghost(t),
                Ghost(history(*b)),
                Ghost(Event::Binary { op: Operation::Add, x: l.0, y: r.0, value: v, width: l.1 }),
            );
            true
        },
        _ => false,
    }
}

fn sub_step(
    tr: &mut Tracker,
    b: &mut FunctionBuilder<'_>,
    x: usize,
    y: usize,
    links: &Links,
    m: Machine,
) -> (r: bool)
    requires
        is_width(m.ptr_bytes),
        agrees(history(*old(b)), old(tr).progress(), old(tr).numbers@),
    ensures
        is_done(
            history(*old(b)),
            old(tr).numbers@,
            history(*final(b)),
            *final(tr),
            r,
            other_step(
                old(tr).progress(),
                StepV::Sub(x, y),
                plan_for(*links, m, history(*old(b)).shape),
            ),
            other_events(
                StepV::Sub(x, y),
                final(tr).numbers@,
                old(tr).progress(),
                plan_for(*links, m, history(*old(b)).shape),
            ),
        ),
{
    let ghost t = history(*b);
    let ghost p = tr.progress();
    let ghost ns = tr.numbers@;
    if !tr.can_add(Ghost(t)) {
        return false;
    }
    match (tr.value(x, Ghost(t)), tr.value(y, Ghost(t))) {
        (Some(l), Some(r)) => {
            let v: u32 = subtract(b, l.0, r.0);
            tr.keep_value(
                v,
                l.1,
                Ghost(t),
                Ghost(history(*b)),
                Ghost(Event::Binary { op: Operation::Sub, x: l.0, y: r.0, value: v, width: l.1 }),
            );
            true
        },
        _ => false,
    }
}

fn mul_step(
    tr: &mut Tracker,
    b: &mut FunctionBuilder<'_>,
    x: usize,
    y: usize,
    links: &Links,
    m: Machine,
) -> (r: bool)
    requires
        is_width(m.ptr_bytes),
        agrees(history(*old(b)), old(tr).progress(), old(tr).numbers@),
    ensures
        is_done(
            history(*old(b)),
            old(tr).numbers@,
            history(*final(b)),
            *final(tr),
            r,
            other_step(
                old(tr).progress(),
                StepV::Mul(x, y),
                plan_for(*links, m, history(*old(b)).shape),
            ),
            other_events(
                StepV::Mul(x, y),
                final(tr).numbers@,
                old(tr).progress(),
                plan_for(*links, m, history(*old(b)).shape),
            ),
        ),
{
    let ghost t = history(*b);
    let ghost p = tr.progress();
    let ghost ns = tr.numbers@;
    if !tr.can_add(Ghost(t)) {
        return false;
    }
    match (tr.value(x, Ghost(t)), tr.value(y, Ghost(t))) {
        (Some(l), Some(r)) => {
            let v: u32 = multiply(b, l.0, r.0);
            tr.keep_value(
                v,
                l.1,
                Ghost(t),
                Ghost(history(*b)),
                Ghost(Event::Binary { op: Operation::Mul, x: l.0, y: r.0, value: v, width: l.1 }),
            );
            true
        },
        _ => false,
    }
}

fn div_step(
    tr: &mut Tracker,
    b: &mut FunctionBuilder<'_>,
    x: usize,
    y: usize,
    links: &Links,
    m: Machine,
) -> (r: bool)
    requires
        is_width(m.ptr_bytes),
        agrees(history(*old(b)), old(tr).progress(), old(tr).numbers@),
    ensures
        is_done(
            history(*old(b)),
            old(tr).numbers@,
            history(*final(b)),
            *final(tr),
            r,
            other_step(
                old(tr).progress(),
                StepV::Div(x, y),
                plan_for(*links, m, history(*old(b)).shape),
            ),
            other_events(
                StepV::Div(x, y),
                final(tr).numbers@,
                old(tr).progress(),
                plan_for(*links, m, history(*old(b)).shape),
            ),
        ),
{
    let ghost t = history(*b);
    let ghost p = tr.progress();
    let ghost ns = tr.numbers@;
    if !tr.can_add(Ghost(t)) {
        return false;
    }
    match (tr.value(x, Ghost(t)), tr.value(y, Ghost(t))) {
        (Some(l), Some(r)) => {
            let v: u32 = divide(b, l.0, r.0);
            tr.keep_value(
                v,
                l.1,
                Ghost(t),
                Ghost(history(*b)),
                Ghost(Event::Binary { op: Operation::Div, x: l.0, y: r.0, value: v, width: l.1 }),
            );
            true
        },
        _ => false,
    }
}

fn compare_step(
    tr: &mut Tracker,
    b: &mut FunctionBuilder<'_>,
    condition: Condition,
    x: usize,
    y: usize,
    links: &Links,
    m: Machine,
) -> (r: bool)
    requires
        is_width(m.ptr_bytes),
        agrees(history(*old(b)), old(tr).progress(), old(tr).numbers@),
    ensures
        is_done(
            history(*old(b)),
            old(tr).numbers@,
            history(*final(b)),
            *final(tr),
            r,
            other_step(
                old(tr).progress(),
                StepV::Compare(condition, x, y),
                plan_for(*links, m, history(*old(b)).shape),
            ),
            other_events(
                StepV::Compare(condition, x, y),
                final(tr).numbers@,
                old(tr).progress(),
                plan_for(*links, m, history(*old(b)).shape),
            ),
        ),
{
    let ghost t = history(*b);
    let ghost p = tr.progress();
    let ghost ns = tr.numbers@;
    if !tr.can_add(Ghost(t)) {
        return false;
    }
    match (tr.value(x, Ghost(t)), tr.value(y, Ghost(t))) {
        (Some(l), Some(r)) => {
            let v: u32 = compare(b, condition, l.0, r.0);
            tr.keep_value(
                v,
                1,
                Ghost(t),
                Ghost(history(*b)),
                Ghost(Event::Compare { condition, x: l.0, y: r.0, value: v }),
            );
            true
        },
        _ => false,
    }
}

fn offset_step(
    tr: &mut Tracker,
    b: &mut FunctionBuilder<'_>,
    x: usize,
    n: i64,
    links: &Links,
    m: Machine,
) -> (r: bool)
    requires
        is_width(m.ptr_bytes),
        agrees(history(*old(b)), old(tr).progress(), old(tr).numbers@),
    ensures
        is_done(
            history(*old(b)),
            old(tr).numbers@,
            history(*final(b)),
            *final(tr),
            r,
            other_step(
                old(tr).progress(),
                StepV::Offset(x, n),
                plan_for(*links, m, history(*old(b)).shape),
            ),
            other_events(
                StepV::Offset(x, n),
                final(tr).numbers@,
                old(tr).progress(),
                plan_for(*links, m, history(*old(b)).shape),
            ),
        ),
{
    let ghost t = history(*b);
    let ghost p = tr.progress();
    let ghost ns = tr.numbers@;
    if !tr.can_add(Ghost(t)) {
        return false;
    }
    match tr.value(x, Ghost(t)) {
        Some(a) => {
            let v: u32 = offset(b, a.0, n);
            tr.keep_value(
                v,
                a.1,
                Ghost(t),
                Ghost(history(*b)),
                Ghost(Event::Offset { x: a.0, n, value: v, width: a.1 }),
            );
            true
        },
        None => false,
    }
}

fn extend_step(
    tr: &mut Tracker,
    b: &mut FunctionBuilder<'_>,
    x: usize,
    links: &Links,
    m: Machine,
) -> (r: bool)
    requires
        is_width(m.ptr_bytes),
        agrees(history(*old(b)), old(tr).progress(), old(tr).numbers@),
    ensures
        is_done(
            history(*old(b)),
            old(tr).numbers@,
            history(*final(b)),
            *final(tr),
            r,
            other_step(
                old(tr).progress(),
                StepV::Extend(x),
                plan_for(*links, m, history(*old(b)).shape),
            ),
            other_events(
                StepV::Extend(x),
                final(tr).numbers@,
                old(tr).progress(),
                plan_for(*links, m, history(*old(b)).shape),
            ),
        ),
{
    let ghost t = history(*b);
    let ghost p = tr.progress();
    let ghost ns = tr.numbers@;
    if !tr.can_add(Ghost(t)) {
        return false;
    }
    match tr.value(x, Ghost(t)) {
        Some(a) => {
            let v: u32 = extend(b, m.ptr_bytes, a.0);
            tr.keep_value(
                v,
                m.ptr_bytes,
                Ghost(t),
                Ghost(history(*b)),
                Ghost(Event::Extend { width: m.ptr_bytes, x: a.0, value: v }),
            );
            true
        },
        None => false,
    }
}

fn load_step(
    tr: &mut Tracker,
    b: &mut FunctionBuilder<'_>,
    ty: IrType,
    x: usize,
    links: &Links,
    m: Machine,
) -> (r: bool)
    requires
        is_width(m.ptr_bytes),
        agrees(history(*old(b)), old(tr).progress(), old(tr).numbers@),
    ensures
        is_done(
            history(*old(b)),
            old(tr).numbers@,
            history(*final(b)),
            *final(tr),
            r,
            other_step(
                old(tr).progress(),
                StepV::Load(ty, x),
                plan_for(*links, m, history(*old(b)).shape),
            ),
            other_events(
                StepV::Load(ty, x),
                final(tr).numbers@,
                old(tr).progress(),
                plan_for(*links, m, history(*old(b)).shape),
            ),
        ),
{
    let ghost t = history(*b);
    let ghost p = tr.progress();
    let ghost ns = tr.numbers@;
    if !tr.can_add(Ghost(t)) {
        return false;
    }
    match tr.value(x, Ghost(t)) {
        Some(a) => {
            let w: u16 = width_of_type(ty, m);
            let v: u32 = load(b, w, a.0);
            tr.keep_value(
                v,
                w,
                Ghost(t),
                Ghost(history(*b)),
                Ghost(Event::Load { width: w, addr: a.0, value: v }),
            );
            true
        },
        None => false,
    }
}

fn store_step(
    tr: &mut Tracker,
    b: &mut FunctionBuilder<'_>,
    x: usize,
    y: usize,
    links: &Links,
    m: Machine,
) -> (r: bool)
    requires
        is_width(m.ptr_bytes),
        agrees(history(*old(b)), old(tr).progress(), old(tr).numbers@),
    ensures
        is_done(
            history(*old(b)),
            old(tr).numbers@,
            history(*final(b)),
            *final(tr),
            r,
            other_step(
                old(tr).progress(),
                StepV::Store(x, y),
                plan_for(*links, m, history(*old(b)).shape),
            ),
            other_events(
                StepV::Store(x, y),
                final(tr).numbers@,
                old(tr).progress(),
                plan_for(*links, m, history(*old(b)).shape),
            ),
        ),
{
    let ghost t = history(*b);
    let ghost p = tr.progress();
    let ghost ns = tr.numbers@;
    if !tr.can_add(Ghost(t)) {
        return false;
    }
    match (tr.value(x, Ghost(t)), tr.value(y, Ghost(t))) {
        (Some(v), Some(a)) => {
            let ghost e = Event::Store { x: v.0, addr: a.0 };
            store(b, v.0, a.0);
            proof {
                lemma_quiet(t, history(*b), e, p, ns);
            }
            tr.keep_nothing(Ghost(t), Ghost(history(*b)), Ghost(e));
            true
        },
        _ => false,
    }
}

fn slot_step(
    tr: &mut Tracker,
    b: &mut FunctionBuilder<'_>,
    size: u32,
    align_shift: u8,
    links: &Links,
    m: Machine,
) -> (r: bool)
    requires
        is_width(m.ptr_bytes),
        agrees(history(*old(b)), old(tr).progress(), old(tr).numbers@),
    ensures
        is_done(
            history(*old(b)),
            old(tr).numbers@,
            history(*final(b)),
            *final(tr),
            r,
            other_step(
                old(tr).progress(),
                StepV::CreateSlot(size, align_shift),
                plan_for(*links, m, history(*old(b)).shape),
            ),
            other_events(
                StepV::CreateSlot(size, align_shift),
                final(tr).numbers@,
                old(tr).progress(),
                plan_for(*links, m, history(*old(b)).shape),
            ),
        ),
{
    let ghost t = history(*b);
    let ghost p = tr.progress();
    let ghost ns = tr.numbers@;
    let s: u32 = create_slot(b, size, align_shift);
    proof {
        lemma_new_slot(t, history(*b), p, ns, size, align_shift, s);
        lemma_grown(history(*b), p, ns, Made::Slot, only(s));
        assert(
            history(*b).events =~= t.events + seq![Event::CreateSlot { size, align_shift, slot: s }]
        );
    }
    tr.grow(Made::Slot, Numbers { made: s, name: 0, sig: 0, target: 0 });
    true
}

fn slot_addr_step(
    tr: &mut Tracker,
    b: &mut FunctionBuilder<'_>,
    s: usize,
    links: &Links,
    m: Machine,
) -> (r: bool)
    requires
        is_width(m.ptr_bytes),
        agrees(history(*old(b)), old(tr).progress(), old(tr).numbers@),
    ensures
        is_done(
            history(*old(b)),
            old(tr).numbers@,
            history(*final(b)),
            *final(tr),
            r,
            other_step(
                old(tr).progress(),
                StepV::SlotAddr(s),
                plan_for(*links, m, history(*old(b)).shape),
            ),
            other_events(
                StepV::SlotAddr(s),
                final(tr).numbers@,
                old(tr).progress(),
                plan_for(*links, m, history(*old(b)).shape),
            ),
        ),
{
    let ghost t = history(*b);
    let ghost p = tr.progress();
    let ghost ns = tr.numbers@;
    if !tr.can_add(Ghost(t)) || s >= tr.made.len() {
        return false;
    }
    assert(agrees_at(t, p, ns, s as int));
    match tr.made[s] {
        Made::Slot => {
            let n: u32 = tr.numbers[s].made;
            let v: u32 = slot_address(b, m.ptr_bytes, n);
            tr.keep_value(
                v,
                m.ptr_bytes,
                Ghost(t),
                Ghost(history(*b)),
                Ghost(Event::SlotAddr { width: m.ptr_bytes, slot: n, value: v }),
            );
            true
        },
        _ => false,
    }
}

fn variable_step(
    tr: &mut Tracker,
    b: &mut FunctionBuilder<'_>,
    ty: IrType,
    links: &Links,
    m: Machine,
) -> (r: bool)
    requires
        is_width(m.ptr_bytes),
        agrees(history(*old(b)), old(tr).progress(), old(tr).numbers@),
    ensures
        is_done(
            history(*old(b)),
            old(tr).numbers@,
            history(*final(b)),
            *final(tr),
            r,
            other_step(
                old(tr).progress(),
                StepV::DeclareVar(ty),
                plan_for(*links, m, history(*old(b)).shape),
            ),
            other_events(
                StepV::DeclareVar(ty),
                final(tr).numbers@,
                old(tr).progress(),
                plan_for(*links, m, history(*old(b)).shape),
            ),
        ),
{
    let ghost t = history(*b);
    let ghost p = tr.progress();
    let ghost ns = tr.numbers@;
    let w: u16 = width_of_type(ty, m);
    let x: u32 = declare_variable(b, w);
    proof {
        lemma_new_variable(t, history(*b), p, ns, w, x);
        lemma_grown(history(*b), p, ns, Made::Var(w), only(x));
        assert(history(*b).events =~= t.events + seq![Event::DeclareVar { width: w, var: x }]);
    }
    tr.grow(Made::Var(w), Numbers { made: x, name: 0, sig: 0, target: 0 });
    true
}

fn set_step(
    tr: &mut Tracker,
    b: &mut FunctionBuilder<'_>,
    x: usize,
    y: usize,
    links: &Links,
    m: Machine,
) -> (r: bool)
    requires
        is_width(m.ptr_bytes),
        agrees(history(*old(b)), old(tr).progress(), old(tr).numbers@),
    ensures
        is_done(
            history(*old(b)),
            old(tr).numbers@,
            history(*final(b)),
            *final(tr),
            r,
            other_step(
                old(tr).progress(),
                StepV::SetVar(x, y),
                plan_for(*links, m, history(*old(b)).shape),
            ),
            other_events(
                StepV::SetVar(x, y),
                final(tr).numbers@,
                old(tr).progress(),
                plan_for(*links, m, history(*old(b)).shape),
            ),
        ),
{
    let ghost t = history(*b);
    let ghost p = tr.progress();
    let ghost ns = tr.numbers@;
    if tr.at.is_none() || x >= tr.made.len() {
        return false;
    }
    assert(agrees_at(t, p, ns, x as int));
    match (tr.made[x], tr.value(y, Ghost(t))) {
        (Made::Var(w), Some(v)) => {
            if v.1 != w {
                return false;
            }
            let n: u32 = tr.numbers[x].made;
            let ghost e = Event::SetVar { var: n, x: v.0 };
            set_variable(b, n, v.0);
            proof {
                lemma_quiet(t, history(*b), e, p, ns);
            }
            tr.keep_nothing(Ghost(t), Ghost(history(*b)), Ghost(e));
            true
        },
        _ => false,
    }
}

fn get_step(
    tr: &mut Tracker,
    b: &mut FunctionBuilder<'_>,
    x: usize,
    links: &Links,
    m: Machine,
) -> (r: bool)
    requires
        is_width(m.ptr_bytes),
        agrees(history(*old(b)), old(tr).progress(), old(tr).numbers@),
        has_room(history(*old(b))),
    ensures
        is_done(
            history(*old(b)),
            old(tr).numbers@,
            history(*final(b)),
            *final(tr),
            r,
            other_step(
                old(tr).progress(),
                StepV::GetVar(x),
                plan_for(*links, m, history(*old(b)).shape),
            ),
            other_events(
                StepV::GetVar(x),
                final(tr).numbers@,
                old(tr).progress(),
                plan_for(*links, m, history(*old(b)).shape),
            ),
        ),
{
    let ghost t = history(*b);
    let ghost p = tr.progress();
    let ghost ns = tr.numbers@;
    if !tr.can_add(Ghost(t)) || x >= tr.made.len() {
        return false;
    }
    assert(agrees_at(t, p, ns, x as int));
    match tr.made[x] {
        Made::Var(w) => {
            let n: u32 = tr.numbers[x].made;
            let v: u32 = get_variable(b, n);
            tr.keep_value(
                v,
                w,
                Ghost(t),
                Ghost(history(*b)),
                Ghost(Event::GetVar { var: n, value: v, width: w }),
            );
            true
        },
        _ => false,
    }
}

fn symbol_step(
    tr: &mut Tracker,
    b: &mut FunctionBuilder<'_>,
    d: DataRef,
    links: &Links,
    m: Machine,
) -> (r: bool)
    requires
        is_width(m.ptr_bytes),
        agrees(history(*old(b)), old(tr).progress(), old(tr).numbers@),
    ensures
        is_done(
            history(*old(b)),
            old(tr).numbers@,
            history(*final(b)),
            *final(tr),
            r,
            other_step(
                old(tr).progress(),
                StepV::Symbol(d),
                plan_for(*links, m, history(*old(b)).shape),
            ),
            other_events(
                StepV::Symbol(d),
                final(tr).numbers@,
                old(tr).progress(),
                plan_for(*links, m, history(*old(b)).shape),
            ),
        ),
{
    let ghost t = history(*b);
    let ghost p = tr.progress();
    let ghost ns = tr.numbers@;
    if !tr.can_add(Ghost(t)) {
        return false;
    }
    match find_data(&links.data, d) {
        Some(l) => {
            let name: u32 = import_name(b, 1, l.index);
            let ghost t1 = history(*b);
            let ghost e1 = Event::ImportName { namespace: 1, index: l.index, name };
            proof {
                lemma_quiet(t, t1, e1, p, ns);
                lemma_grows(t, t1, e1);
            }
            let symbol: u32 = create_symbol(b, name, l.colocated);
            let ghost t2 = history(*b);
            let ghost e2 = Event::CreateSymbol { name, colocated: l.colocated, symbol };
            proof {
                lemma_quiet(t1, t2, e2, p, ns);
                lemma_grows(t1, t2, e2);
            }
            let v: u32 = symbol_address(b, m.ptr_bytes, symbol);
            let ghost t3 = history(*b);
            let ghost e3 = Event::SymbolAddr { width: m.ptr_bytes, symbol, value: v };
            let ghost n = Numbers { made: v, name, sig: 0, target: symbol };
            proof {
                lemma_quiet(t2, t3, e3, p, ns);
                lemma_grows(t2, t3, e3);
                lemma_grown(t3, p, ns, Made::Value(m.ptr_bytes), n);
                assert(t3.events =~= t.events + symbol_events(l, n, m));
            }
            tr.grow(Made::Value(m.ptr_bytes), Numbers { made: v, name, sig: 0, target: symbol });
            true
        },
        None => false,
    }
}

#[verifier::spinoff_prover]
fn call_by(
    tr: &mut Tracker,
    b: &mut FunctionBuilder<'_>,
    l: &FuncLink,
    signature: &Option<CodeSignature>,
    args: &Vec<usize>,
    callee: DefId,
    links: &Links,
    m: Machine,
) -> (r: bool)
    requires
        is_width(m.ptr_bytes),
        agrees(history(*old(b)), old(tr).progress(), old(tr).numbers@),
        can_add(old(tr).progress()),
        is_open(history(*old(b))),
        func_link(links.functions.deep_view(), callee, 0) == Some(l.deep_view()),
    ensures
        is_done(
            history(*old(b)),
            old(tr).numbers@,
            history(*final(b)),
            *final(tr),
            r,
            other_step(
                old(tr).progress(),
                (StepV::Call { callee, signature: signature.deep_view(), args: args@ }),
                plan_for(*links, m, history(*old(b)).shape),
            ),
            other_events(
                (StepV::Call { callee, signature: signature.deep_view(), args: args@ }),
                final(tr).numbers@,
                old(tr).progress(),
                plan_for(*links, m, history(*old(b)).shape),
            ),
        ),
{
    let ghost t = history(*b);
    let ghost p = tr.progress();
    let ghost ns = tr.numbers@;
    let vs = match tr.values(args, Ghost(t)) {
        Some(vs) => vs,
        None => {
            return false;
        },
    };
    let s: &CodeSignature = match signature {
        Some(s) => s,
        None => &l.signature,
    };
    let colocated: bool = signature.is_none() && l.colocated;
    let ghost shape = shape_for(s.deep_view(), m);
    let name: u32 = import_name(b, 0, l.index);
    let ghost t1 = history(*b);
    let ghost e1 = Event::ImportName { namespace: 0, index: l.index, name };
    proof {
        lemma_quiet(t, t1, e1, p, ns);
        lemma_grows(t, t1, e1);
    }
    let sig: u32 = import_signature(b, make_signature(s, m));
    let ghost t2 = history(*b);
    let ghost e2 = Event::ImportSignature { shape, sig };
    proof {
        lemma_quiet(t1, t2, e2, p, ns);
        lemma_grows(t1, t2, e2);
        assert(has_name(t1.events, name));
        assert(has_name(t2.events, name));
    }
    let func: u32 = import_function(b, name, sig, colocated);
    let ghost t3 = history(*b);
    let ghost e3 = Event::ImportFunction { name, sig, colocated, func };
    proof {
        lemma_quiet(t2, t3, e3, p, ns);
        lemma_grows(t2, t3, e3);
        assert(is_open(t3));
        assert(function_shape(t3.events, func) == Some(shape));
    }
    let result: Option<u32> = call(b, func, &vs);
    let ghost t4 = history(*b);
    let ghost e4 = Event::Call { func, args: vs@, value: result, width: shape.returns[0] };
    proof {
        lemma_quiet(t3, t4, e4, p, ns);
        lemma_grows(t3, t4, e4);
    }
    let v: u32 = match result {
        Some(v) => v,
        None => 0,
    };
    let made: Made = match &s.returns {
        Some(ty) => Made::Value(width_of_type(*ty, m)),
        None => Made::Nothing,
    };
    let ghost n = Numbers { made: v, name, sig, target: func };
    proof {
        lemma_grown(t4, p, ns, made, n);
        lemma_nums(ns, n, args@);
        assert(
            t4.events =~= t.events + call_events(l.deep_view(), signature.deep_view(), vs@, n, m)
        );
    }
    tr.grow(made, Numbers { made: v, name, sig, target: func });
    true
}

/// A step on blocks.
fn do_block_step(
    tr: &mut Tracker,
    b: &mut FunctionBuilder<'_>,
    st: &Step,
    entry: &Vec<u16>,
    links: &Links,
    m: Machine,
) -> (r: bool)
    requires
        is_width(m.ptr_bytes),
        entry@ == history(*old(b)).shape.params,
        agrees(history(*old(b)), old(tr).progress(), old(tr).numbers@),
        has_room_for(history(*old(b)), old(tr).progress(), st.deep_view()),
    ensures
        is_done(
            history(*old(b)),
            old(tr).numbers@,
            history(*final(b)),
            *final(tr),
            r,
            block_step(
                old(tr).progress(),
                st.deep_view(),
                plan_for(*links, m, history(*old(b)).shape),
            ),
            block_events(
                st.deep_view(),
                final(tr).numbers@,
                old(tr).progress(),
                plan_for(*links, m, history(*old(b)).shape),
            ),
        ),
{
    match st {
        Step::CreateBlock => create_block_step(tr, b, links, m),
        Step::EnterFunction(a) => enter_step(tr, b, *a, entry, links, m),
        Step::Param(a, i) => param_step(tr, b, *a, *i, links, m),
        Step::AddPointerParam(a) => add_param_step(tr, b, *a, links, m),
        Step::SwitchTo(a) => switch_step(tr, b, *a, links, m),
        Step::Seal(a) => seal_step(tr, b, *a, links, m),
        Step::Jump(a, v) => jump_step(tr, b, *a, *v, links, m),
        Step::Branch(v, x, y) => branch_step(tr, b, *v, *x, *y, links, m),
        Step::Return(v) => return_step(tr, b, *v, links, m),
        _ => false,
    }
}

/// Another step.
fn do_other_step(
    tr: &mut Tracker,
    b: &mut FunctionBuilder<'_>,
    st: &Step,
    links: &Links,
    m: Machine,
) -> (r: bool)
    requires
        is_width(m.ptr_bytes),
        agrees(history(*old(b)), old(tr).progress(), old(tr).numbers@),
        has_room_for(history(*old(b)), old(tr).progress(), st.deep_view()),
    ensures
        is_done(
            history(*old(b)),
            old(tr).numbers@,
            history(*final(b)),
            *final(tr),
            r,
            other_step(
                old(tr).progress(),
                st.deep_view(),
                plan_for(*links, m, history(*old(b)).shape),
            ),
            other_events(
                st.deep_view(),
                final(tr).numbers@,
                old(tr).progress(),
                plan_for(*links, m, history(*old(b)).shape),
            ),
        ),
{
    match st {
        Step::Const(ty, n) => const_step(tr, b, *ty, *n, links, m),
        Step::Symbol(d) => symbol_step(tr, b, *d, links, m),
        Step::Add(x, y) => add_step(tr, b, *x, *y, links, m),
        Step::Sub(x, y) => sub_step(tr, b, *x, *y, links, m),
        Step::Mul(x, y) => mul_step(tr, b, *x, *y, links, m),
        Step::Div(x, y) => div_step(tr, b, *x, *y, links, m),
        Step::Offset(x, n) => offset_step(tr, b, *x, *n, links, m),
        Step::Compare(c, x, y) => compare_step(tr, b, *c, *x, *y, links, m),
        Step::Extend(x) => extend_step(tr, b, *x, links, m),
        Step::Load(ty, x) => load_step(tr, b, *ty, *x, links, m),
        Step::Store(x, y) => store_step(tr, b, *x, *y, links, m),
        Step::CreateSlot(size, align) => slot_step(tr, b, *size, *align, links, m),
        Step::SlotAddr(s) => slot_addr_step(tr, b, *s, links, m),
        Step::DeclareVar(ty) => variable_step(tr, b, *ty, links, m),
        Step::SetVar(x, y) => set_step(tr, b, *x, *y, links, m),
        Step::GetVar(x) => get_step(tr, b, *x, links, m),
        Step::Call { callee, signature, args } => {
            assert(args.deep_view() =~= args@);
            match find_function(&links.functions, *callee) {
                Some(l) => if tr.can_add(Ghost(history(*b))) {
                    call_by(tr, b, l, signature, args, *callee, links, m)
                } else {
                    false
                },
                None => false,
            }
        },
        _ => false,
    }
}

/// A step.
fn do_step(
    tr: &mut Tracker,
    b: &mut FunctionBuilder<'_>,
    st: &Step,
    entry: &Vec<u16>,
    links: &Links,
    m: Machine,
) -> (r: bool)
    requires
        is_width(m.ptr_bytes),
        entry@ == history(*old(b)).shape.params,
        agrees(history(*old(b)), old(tr).progress(), old(tr).numbers@),
        has_room_for(history(*old(b)), old(tr).progress(), st.deep_view()),
    ensures
        is_done(
            history(*old(b)),
            old(tr).numbers@,
            history(*final(b)),
            *final(tr),
            r,
            next(old(tr).progress(), st.deep_view(), plan_for(*links, m, history(*old(b)).shape)),
            events_for(
                st.deep_view(),
                final(tr).numbers@,
                old(tr).progress(),
                plan_for(*links, m, history(*old(b)).shape),
            ),
        ),
{
    match st {
        Step::CreateBlock | Step::EnterFunction(_) | Step::Param(_, _) | Step::AddPointerParam(_) | Step::SwitchTo(_) | Step::Seal(_) | Step::Jump(_, _) | Step::Branch(_, _, _) | Step::Return(_) => do_block_step(tr, b, st, entry, links, m),
        _ => do_other_step(tr, b, st, links, m),
    }
}

/// Whether every block ends and is sealed.
fn is_finished(tr: &Tracker, Ghost(t): Ghost<Trace>) -> (r: bool)
    requires
        agrees(t, tr.progress(), tr.numbers@),
    ensures
        r == finished(tr.progress()),
{
    let ghost p = tr.progress();
    for i in 0..tr.made.len()
        invariant
            agrees(t, tr.progress(), tr.numbers@),
            p == tr.progress(),
            forall|a: int| 0 <= a < i && #[trigger] p.made[a] == Made::Block ==> p.filled[a] && p.sealed[a],
    {
        if let Made::Block = tr.made[i] {
            if !tr.filled[i] || !tr.sealed[i] {
                assert(p.made[i as int] == Made::Block);
                return false;
            }
        }
    }
    true
}

/// The calls of the first steps do not depend on later numbers.
proof fn lemma_events(steps: Seq<StepV>, ns: Seq<Numbers>, x: Numbers, n: int, e: Plan)
    requires
        n <= ns.len(),
    ensures
        all_events(steps, ns.push(x), n, e) == all_events(steps, ns, n, e),
    decreases n,
{
    if n > 0 {
        lemma_events(steps, ns, x, n - 1, e);
        assert(ns.push(x).take(n) =~= ns.take(n));
    }
}

/// Where the first steps are not allowed, all are not.
proof fn lemma_stuck(steps: Seq<StepV>, i: int, n: int, e: Plan)
    requires
        0 <= i <= n,
        run(steps, i, e) is None,
    ensures
        run(steps, n, e) is None,
    decreases n - i,
{
    if i < n {
        assert(run(steps, i + 1, e) is None);
        lemma_stuck(steps, i + 1, n, e);
    }
}

proof fn lemma_counts_grow(steps: Seq<StepV>, i: int, n: int, b: int, entry: nat)
    requires
        i <= n,
    ensures
        param_count(steps, i, b, entry) <= param_count(steps, n, b, entry),
        declared(steps, i) <= declared(steps, n),
    decreases n - i,
{
    if i < n {
        lemma_counts_grow(steps, i, n - 1, b, entry);
    }
}

/// The parameters of a block are those that the steps asked for.
proof fn lemma_asked(steps: Seq<StepV>, n: int, e: Plan)
    requires
        0 <= n <= steps.len(),
        run(steps, n, e) is Some,
    ensures
        run(steps, n, e)->0.made.len() == n,
        run(steps, n, e)->0.params.len() == n,
        forall|a: int| 0 <= a < n ==> (#[trigger] run(steps, n, e)->0.params[a]).len() == param_count(steps, n, a, e.shape.params.len()),
        forall|a: int| a >= n ==> #[trigger] param_count(steps, n, a, e.shape.params.len()) == 0,
    decreases n,
{
    if n > 0 {
        lemma_asked(steps, n - 1, e);
        let p = run(steps, n - 1, e)->0;
        let q = run(steps, n, e)->0;
        let entry = e.shape.params.len();
        assert(next(p, steps[n - 1], e) == Some(q));
        assert forall|a: int| 0 <= a < n implies (#[trigger] q.params[a]).len() == param_count(steps, n, a, entry) by {
            assert(param_count(steps, n - 1, a, entry) == if a < n - 1 { p.params[a].len() } else { 0 });
        }
        assert forall|a: int| a >= n implies #[trigger] param_count(steps, n, a, entry) == 0 by {
            assert(param_count(steps, n - 1, a, entry) == 0);
        }
    }
}

proof fn lemma_var_count(a: Seq<Event>, b: Seq<Event>)
    ensures
        var_count(a + b) == var_count(a) + var_count(b),
    decreases b.len(),
{
    if b.len() == 0 {
        assert(a + b =~= a);
    } else {
        lemma_var_count(a, b.drop_last());
        assert((a + b).drop_last() =~= a + b.drop_last());
        assert((a + b).last() == b.last());
    }
}

/// The variables are those that the steps declared.
#[verifier::spinoff_prover]
#[verifier::rlimit(60)]
proof fn lemma_declared(steps: Seq<StepV>, ns: Seq<Numbers>, n: int, e: Plan)
    requires
        0 <= n <= steps.len(),
        n <= ns.len(),
        run(steps, n, e) is Some,
    ensures
        var_count(all_events(steps, ns, n, e)) == declared(steps, n),
    decreases n,
{
    if n > 0 {
        lemma_declared(steps, ns, n - 1, e);
        let es = events_for(steps[n - 1], ns.take(n), run(steps, n - 1, e)->0, e);
        lemma_var_count(all_events(steps, ns, n - 1, e), es);
        reveal_with_fuel(var_count, 5);
        assert(var_count(es) == if steps[n - 1] is DeclareVar { 1nat } else { 0nat });
    }
}

/// The blocks have room for what the next step asks for.
proof fn lemma_room(steps: Seq<StepV>, ns: Seq<Numbers>, i: int, t: Trace, p: Progress, e: Plan)
    requires
        0 <= i < steps.len(),
        ns.len() == i,
        run(steps, i, e) == Some(p),
        roomy(steps, e.shape.params.len()),
        t.shape == e.shape,
        t.events == all_events(steps, ns, i, e),
        agrees(t, p, ns),
    ensures
        has_room_for(t, p, steps[i]),
{
    let n = steps.len() as int;
    let entry = e.shape.params.len();
    lemma_asked(steps, i, e);
    lemma_declared(steps, ns, i, e);
    assert forall|a: int| 0 <= a < n implies #[trigger] param_count(steps, i + 1, a, entry) + declared(steps, i + 1) <= most_params() by {
        lemma_counts_grow(steps, i + 1, n, a, entry);
        assert(param_count(steps, n, a, entry) + declared(steps, n) <= most_params());
    }
    assert forall|b: u32| #[trigger] has_block(t.events, b) implies params_of(t.events, b, t.shape.params).len() + var_count(t.events) <= most_params() by {
        assert(made_block(p, ns, b));
        let a = choose|a: int| 0 <= a < p.made.len() && #[trigger] p.made[a] == Made::Block && ns[a].made == b;
        assert(agrees_at(t, p, ns, a));
        lemma_counts_grow(steps, i, i + 1, a, entry);
        assert(param_count(steps, i + 1, a, entry) + declared(steps, i + 1) <= most_params());
    }
    match steps[i] {
        StepV::EnterFunction(a) => {
            if is_block(p, a) {
                assert(param_count(steps, i + 1, a as int, entry) + declared(steps, i + 1) <= most_params());
            }
        },
        StepV::AddPointerParam(a) => {
            if is_block(p, a) {
                assert(param_count(steps, i + 1, a as int, entry) + declared(steps, i + 1) <= most_params());
            }
        },
        _ => {},
    }
}

/// Whether every block has room for its parameters.
fn is_roomy(steps: &Vec<Step>, entry: usize) -> (r: bool)
    ensures
        r == roomy(steps.deep_view(), entry as nat),
{
    let ghost all = steps.deep_view();
    let n: usize = steps.len();
    assert(all.len() == n);
    let mut counts: Vec<usize> = Vec::new();
    let mut vars: usize = 0;
    for i in 0..n
        invariant
            counts@.len() == i,
            forall|b: int| 0 <= b < i ==> #[trigger] counts@[b] == 0,
    {
        counts.push(0);
    }
    for i in 0..n
        invariant
            n == steps@.len(),
            all == steps.deep_view(),
            all.len() == n,
            counts@.len() == n,
            vars <= i,
            vars == declared(all, i as int),
            forall|b: int| 0 <= b < n ==> #[trigger] counts@[b] == param_count(all, i as int, b, entry as nat) && counts@[b] <= most_params(),
    {
        assert(all[i as int] == steps@[i as int].deep_view());
        let (b, k): (usize, usize) = match &steps[i] {
            Step::EnterFunction(a) => (*a, entry),
            Step::AddPointerParam(a) => (*a, 1),
            _ => (n, 0),
        };
        if b < n {
            if k > 0x1_0000 || counts[b] + k > 0x1_0000 {
                proof {
                    lemma_counts_grow(all, i + 1, n as int, b as int, entry as nat);
                    assert(param_count(all, n as int, b as int, entry as nat) > most_params());
                }
                return false;
            }
            let c: usize = counts[b] + k;
            counts.set(b, c);
        }
        if let Step::DeclareVar(_) = &steps[i] {
            vars = vars + 1;
        }
    }
    for i in 0..n
        invariant
            all == steps.deep_view(),
            all.len() == n,
            counts@.len() == n,
            vars == declared(all, n as int),
            forall|b: int| 0 <= b < n ==> #[trigger] counts@[b] == param_count(all, n as int, b, entry as nat) && counts@[b] <= most_params(),
            forall|b: int| 0 <= b < i ==> #[trigger] param_count(all, n as int, b, entry as nat) + declared(all, n as int) <= most_params(),
    {
        if vars > 0x1_0000 - counts[i] {
            assert(param_count(all, n as int, i as int, entry as nat) + declared(all, n as int) > most_params());
            return false;
        }
        assert(counts@[i as int] == param_count(all, n as int, i as int, entry as nat));
    }
    true
}

/// Adds all steps to a function.
fn do_steps(
    tr: &mut Tracker,
    b: &mut FunctionBuilder<'_>,
    steps: &Vec<Step>,
    entry: &Vec<u16>,
    links: &Links,
    m: Machine,
) -> (r: bool)
    requires
        is_width(m.ptr_bytes),
        entry@ == history(*old(b)).shape.params,
        history(*old(b)).events.len() == 0,
        old(tr).progress() == no_progress(),
        old(tr).numbers@.len() == 0,
        roomy(steps.deep_view(), history(*old(b)).shape.params.len()),
    ensures
        r <==> run(steps.deep_view(), steps@.len() as int, plan_for(*links, m, history(*old(b)).shape)) is Some,
        r ==> {
            let e = plan_for(*links, m, history(*old(b)).shape);
            let all = steps.deep_view();
            &&& run(all, all.len() as int, e) == Some(final(tr).progress())
            &&& final(tr).numbers@.len() == all.len()
            &&& history(*final(b)) == Trace { events: all_events(all, final(tr).numbers@, all.len() as int, e), ..history(*old(b)) }
            &&& agrees(history(*final(b)), final(tr).progress(), final(tr).numbers@)
        },
{
    let ghost t0 = history(*b);
    let ghost e = plan_for(*links, m, t0.shape);
    let ghost all = steps.deep_view();
    proof {
        assert(t0.events =~= Seq::empty());
        assert(all_events(all, tr.numbers@, 0, e) =~= t0.events);
    }
    for i in 0..steps.len()
        invariant
            is_width(m.ptr_bytes),
            t0 == history(*old(b)),
            entry@ == t0.shape.params,
            e == plan_for(*links, m, t0.shape),
            all == steps.deep_view(),
            roomy(all, t0.shape.params.len()),
            run(all, i as int, e) == Some(tr.progress()),
            tr.numbers@.len() == i,
            history(*b) == (Trace { events: all_events(all, tr.numbers@, i as int, e), ..t0 }),
            agrees(history(*b), tr.progress(), tr.numbers@),
    {
        let ghost ns = tr.numbers@;
        let ghost p = tr.progress();
        assert(all[i as int] == steps@[i as int].deep_view());
        proof {
            lemma_room(all, ns, i as int, history(*b), p, e);
        }
        let ok = do_step(tr, b, &steps[i], entry, links, m);
        proof {
            assert(run(all, i + 1, e) == next(p, all[i as int], e));
        }
        if !ok {
            proof {
                assert(all.len() == steps@.len());
                lemma_stuck(all, i + 1, all.len() as int, e);
            }
            return false;
        }
        proof {
            let x = tr.numbers@.last();
            lemma_events(all, ns, x, i as int, e);
            assert(tr.numbers@.take(i + 1) =~= tr.numbers@);
        }
    }
    true
}

/// The Cranelift function that steps make, as number `index` of its module.
///
/// It was built by the calls that the steps stand for, in their order. Steps
/// that make no function are an error.
pub fn build_function(
    steps: &Vec<Step>,
    index: u32,
    signature: &CodeSignature,
    links: &Links,
    m: Machine,
) -> (r: Result<Function, MplangError>)
    ensures
        match r {
            Ok(f) => is_valid(steps.deep_view(), plan_for(*links, m, shape_for(signature.deep_view(), m))) && exists|ns: Seq<Numbers>| #[trigger] built_from(code_of(f), index, steps.deep_view(), ns, plan_for(*links, m, shape_for(signature.deep_view(), m))),
            Err(e) => !is_valid(steps.deep_view(), plan_for(*links, m, shape_for(signature.deep_view(), m))) && e.deep_view() == invalid_code(),
        },
{
    let ghost e = plan_for(*links, m, shape_for(signature.deep_view(), m));
    assert(e.shape.params.len() == signature.params@.len());
    if !known_width(m.ptr_bytes) || !is_roomy(steps, signature.params.len()) {
        return Err(MplangError::codegen("invalid code"));
    }
    let mut entry: Vec<u16> = Vec::new();
    assert(signature.deep_view().params =~= signature.params@);
    for i in 0..signature.params.len()
        invariant
            entry@ == widths(signature.params@.take(i as int), m),
    {
        entry.push(width_of_type(signature.params[i], m));
        assert(
            widths(signature.params@.take(i + 1), m) =~= widths(signature.params@.take(i as int), m).push(width(signature.params@[i as int], m))
        );
    }
    assert(signature.params@.take(signature.params@.len() as int) =~= signature.params@);
    let mut function = new_function(index, make_signature(signature, m));
    let mut context = new_context();
    let mut b = begin(&mut function, &mut context);
    let mut tr = Tracker::new();
    let ok = do_steps(&mut tr, &mut b, steps, &entry, links, m);
    if !ok || !is_finished(&tr, Ghost(history(b))) {
        return Err(MplangError::codegen("invalid code"));
    }
    proof {
        lemma_complete(history(b), tr.progress(), tr.numbers@);
        assert(built_from(history(b), index, steps.deep_view(), tr.numbers@, e));
    }
    Ok(finish(b))
}

} // verus!

