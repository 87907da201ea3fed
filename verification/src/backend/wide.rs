//! The values of well-typed expressions have the widths of their types, where
//! pointers have eight bytes.

use crate::ast::LiteralV;
use crate::backend::plan::{call_signature, func_link, value_width, variable_width, width, Plan};
use crate::backend::whole::{
    after, kept, lemma_chain, lemma_copy, lemma_emit, lemma_expr, lemma_place, lemma_placed,
    lemma_same, lemma_step, linked, prog, ready, slot, small, takes, val, variable,
};
use crate::compiler::address::takes_expr;
use crate::compiler::code::{DataRef, IrType, StepV};
use crate::compiler::laws::law_signature_shape;
use crate::compiler::rules::{
    emit, g_access_offset, g_access_type, g_args, g_array_room, g_callee, g_copy, g_element,
    g_expr, g_finish_call, g_literal, g_literal_size, g_owner, g_path, g_path_place, g_place,
    g_read, g_result_room, g_room, g_signature, g_size, g_target, g_text, g_type, is_aggregate,
    is_arithmetic, next_step, operand_type, types_from, GenEnv, GenState,
};
use crate::hir::{DefId, HirTypeV};
use crate::table::lookup;
use crate::tycheck::rules::char_ptr;
use crate::tycheck::typing::{ok_expr, ok_kind, Definitions};
use crate::tyhir::{TyHirExprKindV, TyHirExprV};
use vstd::prelude::*;

verus! {

/// The width of values of a type where pointers have eight bytes.
pub open spec fn wid(t: HirTypeV) -> u16 {
    if t is Char { 1 } else { 8 }
}

/// Whether the linked functions return values of the types of the program.
pub open spec fn typed_links(env: GenEnv, e: Plan) -> bool {
    forall|d: DefId| #[trigger] env.funcs.dom().contains(d) && !is_aggregate(env.funcs[d].ret_ty) ==> (func_link(e.links.functions, d, 0) matches Some(l) && (l.signature.returns matches Some(ir) && g_type(env, env.funcs[d].ret_ty) == Ok::<IrType, crate::error::MplangErrorV>(ir)))
}

/// A step made a value of this width.
#[verifier::opaque]
pub open spec fn wval(s: GenState, v: usize, w: u16, e: Plan) -> bool {
    prog(s, e) matches Some(p) && value_width(p, v) == Some(w)
}

/// A step made a variable of this width.
#[verifier::opaque]
pub open spec fn wvar(s: GenState, x: usize, w: u16, e: Plan) -> bool {
    prog(s, e) matches Some(p) && variable_width(p, x) == Some(w)
}

/// The variables in scope have the types that the checker knows, and are kept in
/// variables of the right width, or in memory where their address is needed.
#[verifier::opaque]
pub open spec fn wvars(
    s: GenState,
    vars: Map<DefId, HirTypeV>,
    taken: Set<DefId>,
    e: Plan,
) -> bool {
    forall|d: DefId| #[trigger] s.vars.dom().contains(d) ==> {
        &&& lookup(vars, d) == Some(s.vars[d].ty)
        &&& s.vars[d].var matches Some(x) ==> wvar(s, x, wid(s.vars[d].ty), e)
        &&& s.vars[d].slot is None ==> !taken.contains(d) || is_aggregate(s.vars[d].ty)
    }
}

/// What was made keeps its width.
pub proof fn lemma_wide(
    s: GenState,
    t: GenState,
    vars: Map<DefId, HirTypeV>,
    taken: Set<DefId>,
    e: Plan,
)
    ensures
        prog(s, e) is Some && prog(t, e) is Some && kept(prog(s, e)->0, prog(t, e)->0) ==> {
            &&& forall|v: usize, w: u16| wval(s, v, w, e) ==> #[trigger] wval(t, v, w, e)
            &&& forall|v: usize, w: u16| wvar(s, v, w, e) ==> #[trigger] wvar(t, v, w, e)
            &&& t.vars == s.vars && wvars(s, vars, taken, e) ==> wvars(t, vars, taken, e)
        },
{
    reveal(wval);
    reveal(wvar);
    reveal(wvars);
}

/// The same for code that was added to the same block.
pub proof fn lemma_wide_after(
    s: GenState,
    t: GenState,
    vars: Map<DefId, HirTypeV>,
    taken: Set<DefId>,
    e: Plan,
)
    ensures
        after(s, t, e) ==> {
            &&& forall|v: usize, w: u16| wval(s, v, w, e) ==> #[trigger] wval(t, v, w, e)
            &&& forall|v: usize, w: u16| wvar(s, v, w, e) ==> #[trigger] wvar(t, v, w, e)
            &&& wvars(s, vars, taken, e) ==> wvars(t, vars, taken, e)
        },
{
    reveal(after);
    reveal(ready);
    lemma_wide(s, t, vars, taken, e);
}

/// The width of what a step makes.
pub open spec fn makes_width(s: GenState, st: StepV, w: u16, e: Plan) -> bool {
    match st {
        StepV::Const(t, _) => width(t, e.machine) == w,
        StepV::Symbol(_) => e.machine.ptr_bytes == w,
        StepV::Add(l, _) => wval(s, l, w, e),
        StepV::Sub(l, _) => wval(s, l, w, e),
        StepV::Mul(l, _) => wval(s, l, w, e),
        StepV::Div(l, _) => wval(s, l, w, e),
        StepV::Offset(v, _) => wval(s, v, w, e),
        StepV::Extend(_) => e.machine.ptr_bytes == w,
        StepV::Load(t, _) => width(t, e.machine) == w,
        StepV::SlotAddr(_) => e.machine.ptr_bytes == w,
        StepV::GetVar(x) => wvar(s, x, w, e),
        _ => false,
    }
}

pub proof fn lemma_wstep(s: GenState, st: StepV, w: u16, e: Plan, n: nat)
    ensures
        ready(s, e) && small(emit(s, st), n) && takes(s, st, e) && makes_width(s, st, w, e) ==> wval(emit(s, st), next_step(s), w, e),
{
    if ready(s, e) && small(emit(s, st), n) && takes(s, st, e) && makes_width(s, st, w, e) {
        lemma_step(s, st, e, n);
        reveal(ready);
        reveal(val);
        reveal(slot);
        reveal(variable);
        reveal(wval);
        reveal(wvar);
        lemma_emit(s, st, e);
    }
}

proof fn lemma_wroom(s: GenState, size: u32, e: Plan, n: nat)
    requires
        e.machine.ptr_bytes == 8,
    ensures
        ready(s, e) && small(g_room(s, size).0, n) ==> wval(
            g_room(s, size).0,
            g_room(s, size).1,
            8,
            e,
        ),
{
    let s1 = emit(s, StepV::CreateSlot(size, 0));
    lemma_step(s, StepV::CreateSlot(size, 0), e, n);
    lemma_chain(s, s1, s1, e);
    lemma_wstep(s1, StepV::SlotAddr(next_step(s)), 8, e, n);
}

/// A copy has the width of the value.
pub proof fn lemma_wcopy(env: GenEnv, s: GenState, v: usize, t: HirTypeV, e: Plan, n: nat)
    requires
        e.machine.ptr_bytes == 8,
    ensures
        g_copy(env, s, v, t).1 is Ok && ready(s, e) && small(g_copy(env, s, v, t).0, n) && wval(s, v, wid(t), e) ==> wval(g_copy(env, s, v, t).0, g_copy(env, s, v, t).1->Ok_0, wid(t), e),
{
    let r = g_copy(env, s, v, t);
    if r.1 is Ok && ready(s, e) && small(r.0, n) && wval(s, v, wid(t), e) {
        if is_aggregate(t) {
            let size = g_size(env, t)->Ok_0;
            if size != 0 {
                let a = g_room(s, size);
                lemma_val(s, v, wid(t), e);
                crate::backend::whole::lemma_room(s, size, e, n);
                crate::backend::whole::lemma_write(env, a.0, v, t, a.1, e, n);
                lemma_wroom(s, size, e, n);
                lemma_chain(s, a.0, r.0, e);
                lemma_wide_after(a.0, r.0, Map::empty(), Set::empty(), e);
            }
        }
    }
}

/// A value of some width is a value.
pub proof fn lemma_val(s: GenState, v: usize, w: u16, e: Plan)
    ensures
        wval(s, v, w, e) ==> val(s, v, e),
        wvar(s, v, w, e) ==> variable(s, v, e),
{
    reveal(wval);
    reveal(wvar);
    reveal(val);
    reveal(variable);
}

/// What an address of a value of type `t` gives.
proof fn lemma_wread(env: GenEnv, s: GenState, addr: usize, t: HirTypeV, e: Plan, n: nat)
    requires
        e.machine.ptr_bytes == 8,
    ensures
        g_read(env, s, addr, t).1 is Ok && ready(s, e) && small(g_read(env, s, addr, t).0, n) && wval(s, addr, 8, e) ==> wval(g_read(env, s, addr, t).0, g_read(env, s, addr, t).1->Ok_0, wid(t), e),
{
    let r = g_read(env, s, addr, t);
    if r.1 is Ok && ready(s, e) && small(r.0, n) && wval(s, addr, 8, e) {
        if !(t is Named || t is Array) {
            let ir = g_type(env, t)->Ok_0;
            let s1 = emit(s, StepV::Load(ir, addr));
            lemma_val(s, addr, 8, e);
            lemma_copy(env, s1, next_step(s), t, e, n);
            lemma_step(s, StepV::Load(ir, addr), e, n);
            lemma_wstep(s, StepV::Load(ir, addr), wid(t), e, n);
            lemma_chain(s, s1, r.0, e);
            lemma_wcopy(env, s1, next_step(s), t, e, n);
        }
    }
}

/// A local variable of a name.
proof fn lemma_known(s: GenState, d: DefId, vars: Map<DefId, HirTypeV>, taken: Set<DefId>, e: Plan)
    requires
        wvars(s, vars, taken, e),
        lookup(s.vars, d) is Some,
    ensures
        ({
                let info = lookup(s.vars, d)->0;
                &&& lookup(vars, d) == Some(info.ty)
                &&& info.var matches Some(x) ==> wvar(s, x, wid(info.ty), e)
                &&& info.slot is None ==> !taken.contains(d) || is_aggregate(info.ty)
        }),
{
    reveal(wvars);
}

proof fn lemma_wpath(
    env: GenEnv,
    s: GenState,
    d: DefId,
    want: HirTypeV,
    vars: Map<DefId, HirTypeV>,
    taken: Set<DefId>,
    e: Plan,
    n: nat,
)
    requires
        e.machine.ptr_bytes == 8,
        linked(env, e, n),
    ensures
        g_path(env, s, d, want).1 is Ok && ready(s, e) && small(g_path(env, s, d, want).0, n) && wvars(s, vars, taken, e) ==> wval(g_path(env, s, d, want).0, g_path(env, s, d, want).1->Ok_0, wid(want), e),
{
    let r = g_path(env, s, d, want);
    if r.1 is Ok && ready(s, e) && small(r.0, n) && wvars(s, vars, taken, e) {
        reveal(g_path);
        match lookup(s.vars, d) {
            Some(info) => {
                lemma_known(s, d, vars, taken, e);
                lemma_placed(s, d, e);
                match info.slot {
                    Some(x) => {
                        let ir = g_type(env, info.ty)->Ok_0;
                        let s1 = emit(s, StepV::SlotAddr(x));
                        lemma_step(s, StepV::SlotAddr(x), e, n);
                        lemma_chain(s, s1, s1, e);
                        lemma_wstep(s1, StepV::Load(ir, next_step(s)), wid(want), e, n);
                    },
                    None => {
                        let x = info.var->0;
                        lemma_wstep(s, StepV::GetVar(x), wid(want), e, n);
                    },
                }
            },
            None => {
                let t = env.data[d];
                let st = StepV::Symbol(DataRef::Global(d));
                let s1 = emit(s, st);
                assert(env.data.dom().contains(d));
                lemma_step(s, st, e, n);
                lemma_wstep(s, st, 8, e, n);
                lemma_chain(s, s1, s1, e);
                lemma_wstep(s1, StepV::Const(IrType::I64, 0), 8, e, n);
                lemma_wstep(s1, StepV::Load(IrType::I64, next_step(s)), 8, e, n);
                lemma_wstep(s1, StepV::Load(IrType::I8, next_step(s)), 1, e, n);
            },
        }
    }
}

/// A name whose address can be taken is in memory, or is an address already.
spec fn place_ok(s: GenState, x: TyHirExprV) -> bool {
    x.kind matches TyHirExprKindV::Path(d) ==> (
        lookup(s.vars, d) matches Some(info) ==> info.slot is Some || !(info.ty is Char)
    )
}

proof fn lemma_wpath_place(
    env: GenEnv,
    s: GenState,
    d: DefId,
    vars: Map<DefId, HirTypeV>,
    taken: Set<DefId>,
    e: Plan,
    n: nat,
)
    requires
        e.machine.ptr_bytes == 8,
        linked(env, e, n),
    ensures
        g_path_place(env, s, d).1 is Ok && ready(s, e) && small(g_path_place(env, s, d).0, n) && wvars(s, vars, taken, e) && (lookup(s.vars, d) matches Some(info) ==> info.slot is Some || !(info.ty is Char)) ==> wval(g_path_place(env, s, d).0, g_path_place(env, s, d).1->Ok_0, 8, e),
{
    let r = g_path_place(env, s, d);
    if r.1 is Ok && ready(s, e) && small(r.0, n) && wvars(s, vars, taken, e) && (
        lookup(s.vars, d) matches Some(info) ==> info.slot is Some || !(info.ty is Char)
    ) {
        reveal(g_path_place);
        match lookup(s.vars, d) {
            Some(info) => {
                lemma_known(s, d, vars, taken, e);
                lemma_placed(s, d, e);
                if let Some(x) = info.slot {
                    lemma_wstep(s, StepV::SlotAddr(x), 8, e, n);
                } else {
                    let x = info.var->0;
                    lemma_wstep(s, StepV::GetVar(x), 8, e, n);
                }
            },
            None => {
                assert(env.data.dom().contains(d));
                lemma_wstep(s, StepV::Symbol(DataRef::Global(d)), 8, e, n);
            },
        }
    }
}

/// The width of the value of an expression that must have type `want`.
pub open spec fn expr_wid(x: TyHirExprV, want: HirTypeV) -> u16 {
    if x.kind is AddressOf { 8 } else { wid(want) }
}

/// What is needed to know the width of a value.
pub open spec fn known_types(
    g: Definitions,
    s: GenState,
    vars: Map<DefId, HirTypeV>,
    taken: Set<DefId>,
    x: TyHirExprV,
    e: Plan,
) -> bool {
    &&& ok_expr(g, vars, x)
    &&& wvars(s, vars, taken, e)
    &&& forall|d: DefId| #[trigger] takes_expr(x, d) ==> taken.contains(d)
}

#[verifier::spinoff_prover]
#[verifier::rlimit(40)]
pub proof fn lemma_wexpr(
    env: GenEnv,
    s: GenState,
    x: TyHirExprV,
    want: HirTypeV,
    g: Definitions,
    vars: Map<DefId, HirTypeV>,
    taken: Set<DefId>,
    e: Plan,
    n: nat,
)
    requires
        e.machine.ptr_bytes == 8,
        linked(env, e, n),
        typed_links(env, e),
        n <= usize::MAX,
        g_expr(env, s, x, want).1 is Ok,
        ready(s, e),
        small(g_expr(env, s, x, want).0, n),
        known_types(g, s, vars, taken, x, e),
    ensures
        wval(g_expr(env, s, x, want).0, g_expr(env, s, x, want).1->Ok_0, expr_wid(x, want), e),
    decreases x, 2int,
{
    let r = g_expr(env, s, x, want);
    match x.kind {
        TyHirExprKindV::Literal(l) => {
            lemma_wliteral(env, s, l, want, e, n);
        },
        TyHirExprKindV::Path(d) => {
            lemma_wpath(env, s, d, want, vars, taken, e, n);
        },
        TyHirExprKindV::Binary { op, lhs, rhs } => {
            lemma_expr(env, s, *lhs, operand_type(op, lhs.ty), e, n);
            let a = g_expr(env, s, *lhs, operand_type(op, lhs.ty));
            let l = a.1->Ok_0;
            lemma_expr(env, a.0, *rhs, operand_type(op, rhs.ty), e, n);
            let b = g_expr(env, a.0, *rhs, operand_type(op, rhs.ty));
            let q = b.1->Ok_0;
            crate::backend::whole::lemma_operator(b.0, op, l, q, e, n);
            lemma_chain(s, a.0, b.0, e);
            lemma_chain(a.0, b.0, b.0, e);
            if is_arithmetic(op) {
                assert forall|d: DefId| #[trigger] takes_expr(*lhs, d) implies taken.contains(d) by {
                    assert(takes_expr(x, d));
                }
                lemma_wexpr(env, s, *lhs, HirTypeV::Int, g, vars, taken, e, n);
                lemma_wide_after(a.0, b.0, vars, taken, e);
                lemma_wstep(b.0, StepV::Add(l, q), 8, e, n);
                lemma_wstep(b.0, StepV::Sub(l, q), 8, e, n);
                lemma_wstep(b.0, StepV::Mul(l, q), 8, e, n);
                lemma_wstep(b.0, StepV::Div(l, q), 8, e, n);
            } else {
                let st = StepV::Compare(crate::compiler::rules::condition_of(op), l, q);
                let s1 = emit(b.0, st);
                lemma_step(b.0, st, e, n);
                lemma_chain(b.0, s1, s1, e);
                lemma_wstep(s1, StepV::Extend(next_step(b.0)), 8, e, n);
            }
        },
        TyHirExprKindV::Call { .. } => {
            lemma_wcall(env, s, x, want, e, n);
        },
        TyHirExprKindV::FieldAccess { object, field } => {
            let t = g_access_type(env, object.ty, field, want)->Ok_0;
            assert(t == want) by {
                reveal(g_access_type);
            }
            lemma_place(env, s, x, e, n);
            let a = g_place(env, s, x);
            crate::backend::whole::lemma_read(env, a.0, a.1->Ok_0, t, e, n);
            lemma_wplace(env, s, x, g, vars, taken, e, n);
            lemma_chain(s, a.0, a.0, e);
            lemma_wread(env, a.0, a.1->Ok_0, t, e, n);
        },
        TyHirExprKindV::StructLiteral { def_id, fields, .. } => {
            let size = g_literal_size(env, def_id, want)->Ok_0;
            assert(want is Named) by {
                reveal(g_literal_size);
            }
            if size == 0 {
                lemma_wstep(s, StepV::Const(IrType::Ptr, 0), 8, e, n);
            } else {
                let a = g_room(s, size);
                crate::backend::whole::lemma_room(s, size, e, n);
                crate::backend::whole::lemma_inits(env, a.0, fields, def_id, a.1, 0, e, n);
                lemma_wroom(s, size, e, n);
                lemma_chain(s, a.0, a.0, e);
                lemma_wide_after(a.0, r.0, vars, taken, e);
            }
        },
        TyHirExprKindV::ArrayLiteral { .. } => {
            lemma_warray(env, s, x, want, e, n);
        },
        TyHirExprKindV::Index { .. } => {
            lemma_place(env, s, x, e, n);
            let a = g_place(env, s, x);
            crate::backend::whole::lemma_read(env, a.0, a.1->Ok_0, x.ty, e, n);
            lemma_wplace(env, s, x, g, vars, taken, e, n);
            lemma_chain(s, a.0, a.0, e);
            lemma_wread(env, a.0, a.1->Ok_0, x.ty, e, n);
        },
        TyHirExprKindV::Deref(inner) => {
            lemma_expr(env, s, *inner, inner.ty, e, n);
            let a = g_expr(env, s, *inner, inner.ty);
            let t = g_target(inner.ty)->Ok_0;
            let ir = g_type(env, t)->Ok_0;
            lemma_chain(s, a.0, a.0, e);
            lemma_wstep(a.0, StepV::Load(ir, a.1->Ok_0), wid(want), e, n);
        },
        TyHirExprKindV::AddressOf(inner) => {
            assert forall|d: DefId| #[trigger] takes_expr(*inner, d) implies taken.contains(d) by {
                assert(takes_expr(x, d));
            }
            assert(place_ok(s, *inner)) by {
                if let TyHirExprKindV::Path(d) = inner.kind {
                    assert(takes_expr(x, d));
                    if lookup(s.vars, d) is Some {
                        lemma_known(s, d, vars, taken, e);
                    }
                }
            }
            lemma_wplace(env, s, *inner, g, vars, taken, e, n);
        },
        _ => {},
    }
}

proof fn lemma_wliteral(env: GenEnv, s: GenState, l: LiteralV, want: HirTypeV, e: Plan, n: nat)
    requires
        e.machine.ptr_bytes == 8,
        linked(env, e, n),
        n <= usize::MAX,
        g_literal(s, l, want).1 is Ok,
        ready(s, e),
        small(g_literal(s, l, want).0, n),
    ensures
        wval(g_literal(s, l, want).0, g_literal(s, l, want).1->Ok_0, wid(want), e),
{
    crate::backend::whole::lemma_literal(env, s, l, want, e, n);
    reveal(g_literal);
    match l {
        LiteralV::Int(k) => {
            lemma_wstep(s, StepV::Const(IrType::I64, k), 8, e, n);
        },
        LiteralV::String(text) => {
            let t = g_text(s, text);
            let st = StepV::Symbol(DataRef::Text(t.1));
            assert(want == char_ptr());
            lemma_emit(t.0, st, e);
            reveal(after);
            reveal(ready);
            reveal(wval);
        },
    }
}

proof fn lemma_wcall(env: GenEnv, s: GenState, x: TyHirExprV, want: HirTypeV, e: Plan, n: nat)
    requires
        x.kind is Call,
        e.machine.ptr_bytes == 8,
        linked(env, e, n),
        typed_links(env, e),
        n <= usize::MAX,
        g_expr(env, s, x, want).1 is Ok,
        ready(s, e),
        small(g_expr(env, s, x, want).0, n),
    ensures
        wval(g_expr(env, s, x, want).0, g_expr(env, s, x, want).1->Ok_0, wid(want), e),
{
    if let TyHirExprKindV::Call { callee, args, turbofish } = x.kind {
        let f = g_callee(env, callee, args, want)->Ok_0;
        crate::backend::whole::lemma_call_expr(env, s, x, want, e, n);
        crate::backend::whole::lemma_callee(env, callee, args, want, e, n);
        lemma_same(s, e);
        let a = g_result_room(env, s, f.0.ret_ty);
        let first = a.1->Ok_0;
        let b = g_args(env, a.0, args, f.0.param_types, 0, first);
        let vs = b.1->Ok_0;
        let c = g_finish_call(b.0, callee, f.0, f.1, vs);
        crate::backend::whole::lemma_args(env, a.0, args, f.0.param_types, 0, first, e, n);
        crate::backend::whole::lemma_args_done(env, a.0, args, f.0.param_types, 0, first);
        crate::backend::whole::lemma_call(b.0, callee, f.0, f.1, vs, e, n);
        assert(f.0.ret_ty == want) by {
            reveal(g_callee);
        }
        crate::backend::whole::lemma_first(env, s, f.0.ret_ty, e, n);
        lemma_chain(s, a.0, b.0, e);
        lemma_chain(a.0, b.0, b.0, e);
        let st = StepV::Call { callee, signature: f.1, args: vs };
        let s1 = emit(b.0, st);
        if is_aggregate(want) {
            let size = g_size(env, want)->Ok_0;
            lemma_wroom(s, size, e, n);
            assert(vs[0] == first[0]);
            lemma_wide_after(a.0, b.0, Map::empty(), Set::empty(), e);
            lemma_wide_after(b.0, c.0, Map::empty(), Set::empty(), e);
        } else if want is Unit {
            crate::backend::whole::lemma_called(b.0, callee, f.0, f.1, vs, e, n);
            lemma_chain(b.0, s1, s1, e);
            lemma_wstep(s1, StepV::Const(IrType::I64, 0), 8, e, n);
        } else {
            crate::backend::whole::lemma_called(b.0, callee, f.0, f.1, vs, e, n);
            let l = func_link(e.links.functions, callee, 0)->0;
            let sig = call_signature(l, f.1);
            assert(sig.returns matches Some(ir) && width(ir, e.machine) == wid(want)) by {
                reveal(g_callee);
                let info = env.funcs[callee];
                assert(env.funcs.dom().contains(callee));
                if info.is_variadic {
                    let extra = types_from(args, info.param_types.len() as int);
                    law_signature_shape(
                        env,
                        info.param_types,
                        info.ret_ty,
                        extra,
                        g_signature(env, info.param_types, info.ret_ty, extra)->Ok_0,
                    );
                }
            }
            lemma_emit(b.0, st, e);
            reveal(ready);
            reveal(after);
            reveal(wval);
        }
    }
}

proof fn lemma_warray(env: GenEnv, s: GenState, x: TyHirExprV, want: HirTypeV, e: Plan, n: nat)
    requires
        x.kind is ArrayLiteral,
        e.machine.ptr_bytes == 8,
        linked(env, e, n),
        n <= usize::MAX,
        g_expr(env, s, x, want).1 is Ok,
        ready(s, e),
        small(g_expr(env, s, x, want).0, n),
    ensures
        wval(g_expr(env, s, x, want).0, g_expr(env, s, x, want).1->Ok_0, wid(want), e),
{
    if let TyHirExprKindV::ArrayLiteral { elements, repeat } = x.kind {
        let r = g_expr(env, s, x, want);
        let a = g_array_room(env, s, x.ty, want);
        let o = a.1->Ok_0;
        crate::backend::whole::lemma_array_room(env, s, x.ty, want, e, n);
        match repeat {
            Some(k) => {
                lemma_expr(env, a.0, elements[0], o.1, e, n);
                let b = g_expr(env, a.0, elements[0], o.1);
                crate::backend::whole::lemma_fill(env, b.0, b.1->Ok_0, o.1, o.0, o.2, k, 0, e, n);
                lemma_chain(s, a.0, b.0, e);
                lemma_chain(a.0, b.0, r.0, e);
                lemma_chain(b.0, r.0, r.0, e);
                lemma_wide_after(a.0, b.0, Map::empty(), Set::empty(), e);
                lemma_wide_after(b.0, r.0, Map::empty(), Set::empty(), e);
            },
            None => {
                crate::backend::whole::lemma_elements(env, a.0, elements, o.1, o.0, o.2, 0, e, n);
                lemma_chain(s, a.0, r.0, e);
                lemma_wide_after(a.0, r.0, Map::empty(), Set::empty(), e);
            },
        }
        assert(!(want is Char) && wval(a.0, o.0, 8, e)) by {
            reveal(g_array_room);
            let size = g_size(env, x.ty)->Ok_0;
            lemma_wstep(s, StepV::Const(IrType::Ptr, 0), 8, e, n);
            lemma_wroom(s, size, e, n);
        }
    }
}

#[verifier::spinoff_prover]
proof fn lemma_wplace(
    env: GenEnv,
    s: GenState,
    x: TyHirExprV,
    g: Definitions,
    vars: Map<DefId, HirTypeV>,
    taken: Set<DefId>,
    e: Plan,
    n: nat,
)
    requires
        e.machine.ptr_bytes == 8,
        linked(env, e, n),
        typed_links(env, e),
        n <= usize::MAX,
        g_place(env, s, x).1 is Ok,
        ready(s, e),
        small(g_place(env, s, x).0, n),
        known_types(g, s, vars, taken, x, e),
        place_ok(s, x),
    ensures
        wval(g_place(env, s, x).0, g_place(env, s, x).1->Ok_0, 8, e),
    decreases x, 1int,
{
    match x.kind {
        TyHirExprKindV::Path(d) => {
            lemma_wpath_place(env, s, d, vars, taken, e, n);
        },
        TyHirExprKindV::FieldAccess { object, field } => {
            lemma_place(env, s, *object, e, n);
            let a = g_place(env, s, *object);
            let off = g_access_offset(env, object.ty, field)->Ok_0;
            assert(ok_kind(g, vars, x.kind, x.ty));
            assert(ok_expr(g, vars, *object));
            assert(object.ty is Named) by {
                reveal(g_access_offset);
                reveal(g_owner);
            }
            assert forall|d: DefId| #[trigger] takes_expr(*object, d) implies taken.contains(d) by {
                assert(takes_expr(x, d));
            }
            assert(place_ok(s, *object)) by {
                if let TyHirExprKindV::Path(d) = object.kind {
                    assert(ok_kind(g, vars, object.kind, object.ty));
                    if lookup(s.vars, d) is Some {
                        lemma_known(s, d, vars, taken, e);
                    }
                }
            }
            lemma_wplace(env, s, *object, g, vars, taken, e, n);
            lemma_chain(s, a.0, a.0, e);
            lemma_wstep(a.0, StepV::Offset(a.1->Ok_0, off as i64), 8, e, n);
        },
        TyHirExprKindV::Deref(inner) => {
            assert forall|d: DefId| #[trigger] takes_expr(*inner, d) implies taken.contains(d) by {
                assert(takes_expr(x, d));
            }
            lemma_wexpr(env, s, *inner, inner.ty, g, vars, taken, e, n);
        },
        TyHirExprKindV::Index { array, index } => {
            lemma_expr(env, s, *array, array.ty, e, n);
            let a = g_expr(env, s, *array, array.ty);
            let base = a.1->Ok_0;
            lemma_expr(env, a.0, *index, HirTypeV::Int, e, n);
            let b = g_expr(env, a.0, *index, HirTypeV::Int);
            let i = b.1->Ok_0;
            let stride = g_size(env, g_element(array.ty)->Ok_0)->Ok_0;
            let s3 = emit(b.0, StepV::Const(IrType::I64, stride as i64));
            let s4 = emit(s3, StepV::Mul(i, next_step(b.0)));
            assert forall|d: DefId| #[trigger] takes_expr(*array, d) implies taken.contains(d) by {
                assert(takes_expr(x, d));
            }
            lemma_wexpr(env, s, *array, array.ty, g, vars, taken, e, n);
            lemma_step(b.0, StepV::Const(IrType::I64, stride as i64), e, n);
            lemma_step(s3, StepV::Mul(i, next_step(b.0)), e, n);
            lemma_chain(s, a.0, b.0, e);
            lemma_chain(a.0, b.0, s3, e);
            lemma_chain(b.0, s3, s4, e);
            lemma_chain(s3, s4, s4, e);
            lemma_wide_after(a.0, b.0, vars, taken, e);
            lemma_wide_after(b.0, s3, vars, taken, e);
            lemma_wide_after(s3, s4, vars, taken, e);
            lemma_wstep(s4, StepV::Add(base, next_step(s3)), 8, e, n);
        },
        TyHirExprKindV::AddressOf(inner) => {
            assert forall|d: DefId| #[trigger] takes_expr(*inner, d) implies taken.contains(d) by {
                assert(takes_expr(x, d));
            }
            assert(place_ok(s, *inner)) by {
                if let TyHirExprKindV::Path(d) = inner.kind {
                    assert(takes_expr(x, d));
                    if lookup(s.vars, d) is Some {
                        lemma_known(s, d, vars, taken, e);
                    }
                }
            }
            lemma_wplace(env, s, *inner, g, vars, taken, e, n);
        },
        _ => {},
    }
}

} // verus!

