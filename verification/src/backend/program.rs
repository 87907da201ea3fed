//! The code of a well-typed program makes functions.

use crate::backend::flow::{lemma_block, lemma_params};
use crate::backend::links::{function_link, function_links, links_of, Placement};
use crate::backend::plan::{
    data_link, func_link, is_valid, roomy, shape_for, DataLink, LinksV, Machine, Plan,
};
use crate::backend::typed::{fresh_stmts, law_typed_code_makes_a_function, param_scope};
use crate::backend::whole::linked;
use crate::backend::wide::typed_links;
use crate::compiler::code::{
    CodeSignatureV, DataRef, FuncDeclV, FuncInfoV, FunctionCodeV, GlobalDataV, IrType, Linkage,
    VTableDataV,
};
use crate::compiler::laws::law_signature_shape;
use crate::compiler::rules::{
    declared_result, empty_program, enum_layout, flat, g_add_function, g_add_global, g_entry,
    g_function, g_init, g_params, g_signature, g_sret, g_type, g_types, is_aggregate, lay_fields,
    lay_variants, linkage_of, no_fields, no_variants, p_code, p_enums, p_externs, p_functions,
    p_globals, p_layouts, p_structs, p_vtables, param_types_of, program_of, struct_layout,
    symbol_of, taken_stmts, translated, vtable_entries, vtable_name, FnScope, GenEnv, ProgramState,
};
use crate::error::MplangErrorV;
use crate::hir::{DefId, HirTypeV, VTableV};
use crate::tycheck::typing::{
    ok_item, ok_items, ok_stmts, vars_after_item, with_params, Definitions,
};
use crate::tyhir::{TyHirCompilationUnitV, TyHirItemV, TyHirParamV, TyHirStmtV};
use vstd::prelude::*;

verus! {

// What is declared

/// The declarations hold this function.
spec fn declares(fs: Seq<FuncDeclV>, d: DefId) -> bool {
    exists|i: int| 0 <= i < fs.len() && #[trigger] fs[i].def_id == d
}

/// The data holds this global variable.
spec fn holds(gs: Seq<GlobalDataV>, d: DefId) -> bool {
    exists|i: int| 0 <= i < gs.len() && #[trigger] gs[i].def_id == d
}

/// A declaration has the signature of the function that is known under its
/// definition.
spec fn agrees(env: GenEnv, f: FuncDeclV) -> bool {
    env.funcs.dom().contains(f.def_id) && g_signature(
        env,
        env.funcs[f.def_id].param_types,
        env.funcs[f.def_id].ret_ty,
        Seq::empty(),
    ) == Ok::<CodeSignatureV, MplangErrorV>(f.signature)
}

/// Every known function is declared, every declaration is known, and every known
/// global variable has data.
spec fn known(p: ProgramState) -> bool {
    &&& forall|d: DefId| #[trigger] p.env.funcs.dom().contains(d) ==> declares(p.functions, d)
    &&& forall|i: int| 0 <= i < p.functions.len() ==> agrees(p.env, #[trigger] p.functions[i])
    &&& forall|d: DefId| #[trigger] p.env.data.dom().contains(d) ==> holds(p.globals, d)
}

/// The definition of a function, from here or from outside.
pub open spec fn function_id(item: TyHirItemV) -> Option<DefId> {
    match item {
        TyHirItemV::Fn { def_id, .. } => Some(def_id),
        TyHirItemV::ExternFn { def_id, .. } => Some(def_id),
        _ => None,
    }
}

/// No two functions have the same definition.
pub open spec fn distinct_functions(items: Seq<TyHirItemV>) -> bool {
    forall|i: int, j: int| 0 <= i < j < items.len() && function_id(#[trigger] items[i]) is Some
        ==> function_id(items[i]) != function_id(#[trigger] items[j])
}

/// None of the functions among the items from `i` on is known.
spec fn unknown(env: GenEnv, items: Seq<TyHirItemV>, i: int) -> bool {
    forall|j: int| i <= j < items.len() && (#[trigger] items[j]) is Fn ==> !env.funcs.dom().contains(
        function_id(items[j])->0,
    )
}

/// A function is known with the types of its parameters and its result.
spec fn described(env: GenEnv, item: TyHirItemV) -> bool {
    match item {
        TyHirItemV::Fn { def_id, params, return_ty, .. } => {
            &&& env.funcs.dom().contains(def_id)
            &&& env.funcs[def_id].param_types == param_types_of(params)
            &&& env.funcs[def_id].ret_ty == return_ty
        },
        _ => true,
    }
}

/// The functions among the items from `i` on are described.
spec fn all_described(env: GenEnv, items: Seq<TyHirItemV>, i: int) -> bool {
    forall|j: int| i <= j < items.len() ==> described(env, #[trigger] items[j])
}

// Signatures

proof fn lemma_types(a: GenEnv, b: GenEnv, ts: Seq<HirTypeV>, i: int, done: Seq<IrType>)
    requires
        a.structs == b.structs,
    ensures
        g_types(a, ts, i, done) == g_types(b, ts, i, done),
    decreases ts.len() - i,
{
    if i < ts.len() {
        assert(g_type(a, ts[i]) == g_type(b, ts[i]));
        if let Ok(t) = g_type(a, ts[i]) {
            lemma_types(a, b, ts, i + 1, done.push(t));
        }
    }
}

proof fn lemma_signature(a: GenEnv, b: GenEnv, ps: Seq<HirTypeV>, ret: HirTypeV)
    requires
        a.structs == b.structs,
    ensures
        g_signature(a, ps, ret, Seq::empty()) == g_signature(b, ps, ret, Seq::empty()),
{
    let first = if is_aggregate(ret) { seq![IrType::Ptr] } else { Seq::empty() };
    lemma_types(a, b, ps, 0, first);
    if let Ok(x) = g_types(a, ps, 0, first) {
        lemma_types(a, b, Seq::empty(), 0, x);
    }
}

// The passes

proof fn lemma_globals(p: ProgramState, items: Seq<TyHirItemV>, i: int)
    requires
        known(p),
    ensures
        ({
            let q = p_globals(p, items, i).0;
            &&& known(q)
            &&& q.env.funcs == p.env.funcs
            &&& q.functions == p.functions
            &&& q.code == p.code
            &&& q.strings == p.strings
        }),
    decreases items.len() - i,
{
    if i < items.len() {
        match items[i] {
            TyHirItemV::Static { def_id, ty, init, .. } => {
                if let Ok(v) = g_init(init) {
                    let a = g_add_global(p, def_id, v.0, ty);
                    lemma_add_global(p, def_id, v.0, ty);
                    if v.1 == ty && a.1 is Ok {
                        lemma_globals(a.0, items, i + 1);
                    }
                }
            },
            _ => {
                lemma_globals(p, items, i + 1);
            },
        }
    }
}

proof fn lemma_add_global(p: ProgramState, d: DefId, bytes: Seq<u8>, ty: HirTypeV)
    requires
        known(p),
    ensures
        ({
            let q = g_add_global(p, d, bytes, ty).0;
            &&& known(q)
            &&& q.env.funcs == p.env.funcs
            &&& q.functions == p.functions
            &&& q.code == p.code
            &&& q.strings == p.strings
        }),
{
    let q = g_add_global(p, d, bytes, ty).0;
    assert forall|x: DefId| #[trigger] q.env.data.dom().contains(x) implies holds(q.globals, x) by {
        if q != p {
            if x == d {
                assert(q.globals[p.globals.len() as int].def_id == d);
            } else {
                assert(p.env.data.dom().contains(x));
                let i = choose|i: int| 0 <= i < p.globals.len() && #[trigger] p.globals[i].def_id == x;
                assert(q.globals[i].def_id == x);
            }
        }
    }
    assert forall|i: int| 0 <= i < q.functions.len() implies agrees(q.env, #[trigger] q.functions[i]) by {
        assert(agrees(p.env, p.functions[i]));
        let f = p.env.funcs[p.functions[i].def_id];
        lemma_signature(p.env, q.env, f.param_types, f.ret_ty);
    }
}

proof fn lemma_structs(env: GenEnv, items: Seq<TyHirItemV>, i: int)
    ensures
        p_structs(env, items, i).0.funcs == env.funcs,
        p_structs(env, items, i).0.data == env.data,
    decreases items.len() - i,
{
    if i < items.len() {
        match items[i] {
            TyHirItemV::Struct { def_id, fields, .. } => {
                if let Ok(run) = lay_fields(env, fields, 0, no_fields()) {
                    if env.depth != usize::MAX {
                        lemma_structs(
                            GenEnv {
                                structs: env.structs.insert(def_id, struct_layout(run)),
                                depth: (env.depth + 1) as usize,
                                ..env
                            },
                            items,
                            i + 1,
                        );
                    }
                }
            },
            _ => {
                lemma_structs(env, items, i + 1);
            },
        }
    }
}

proof fn lemma_enums(env: GenEnv, items: Seq<TyHirItemV>, i: int)
    ensures
        p_enums(env, items, i).0.funcs == env.funcs,
        p_enums(env, items, i).0.data == env.data,
    decreases items.len() - i,
{
    if i < items.len() {
        match items[i] {
            TyHirItemV::Enum { def_id, variants, .. } => {
                if let Ok(run) = lay_variants(env, variants, 0, no_variants()) {
                    if let Ok(layout) = enum_layout(run) {
                        lemma_enums(
                            GenEnv { enums: env.enums.insert(def_id, layout), ..env },
                            items,
                            i + 1,
                        );
                    }
                }
            },
            _ => {
                lemma_enums(env, items, i + 1);
            },
        }
    }
}

/// What is known of functions and global variables before and after a pass that
/// only adds functions.
spec fn adds(p: ProgramState, q: ProgramState) -> bool {
    &&& known(q)
    &&& q.env.structs == p.env.structs
    &&& q.code == p.code
    &&& q.strings == p.strings
    &&& forall|d: DefId| #[trigger] p.env.funcs.dom().contains(d) ==> q.env.funcs.dom().contains(d)
        && q.env.funcs[d] == p.env.funcs[d]
}

proof fn lemma_add_function(
    p: ProgramState,
    d: DefId,
    symbol: Seq<char>,
    linkage: Linkage,
    info: FuncInfoV,
)
    requires
        known(p),
    ensures
        adds(p, g_add_function(p, d, symbol, linkage, info).0),
{
    let q = g_add_function(p, d, symbol, linkage, info).0;
    if q != p {
        assert forall|x: DefId| #[trigger] q.env.funcs.dom().contains(x) implies declares(q.functions, x) by {
            if x == d {
                assert(q.functions[p.functions.len() as int].def_id == d);
            } else {
                assert(p.env.funcs.dom().contains(x));
                let i = choose|i: int| 0 <= i < p.functions.len() && #[trigger] p.functions[i].def_id == x;
                assert(q.functions[i].def_id == x);
            }
        }
        assert forall|i: int| 0 <= i < q.functions.len() implies agrees(q.env, #[trigger] q.functions[i]) by {
            if i == p.functions.len() {
                lemma_signature(p.env, q.env, info.param_types, info.ret_ty);
            } else {
                assert(agrees(p.env, p.functions[i]));
                assert(q.functions[i] == p.functions[i]);
                let f = p.env.funcs[p.functions[i].def_id];
                lemma_signature(p.env, q.env, f.param_types, f.ret_ty);
            }
        }
    }
}

proof fn lemma_externs(p: ProgramState, items: Seq<TyHirItemV>, i: int)
    requires
        known(p),
        0 <= i,
        distinct_functions(items),
        unknown(p.env, items, 0),
    ensures
        adds(p, p_externs(p, items, i).0),
        unknown(p_externs(p, items, i).0.env, items, 0),
    decreases items.len() - i,
{
    if i < items.len() {
        match items[i] {
            TyHirItemV::ExternFn { def_id, link_name, name, param_types, return_ty, is_variadic, .. } => {
                let symbol = match link_name {
                    Some(l) => l,
                    None => name,
                };
                let info = FuncInfoV { name, param_types, ret_ty: return_ty, is_variadic };
                let import = Linkage::Import;
                let a = g_add_function(p, def_id, symbol, import, info);
                lemma_add_function(p, def_id, symbol, import, info);
                assert(unknown(a.0.env, items, 0)) by {
                    assert forall|j: int| 0 <= j < items.len() && (#[trigger] items[j]) is Fn implies !a.0.env.funcs.dom().contains(
                        function_id(items[j])->0,
                    ) by {
                        assert(function_id(items[i]) == Some(def_id));
                        assert(function_id(items[j]) is Some);
                        assert(function_id(items[j]) != function_id(items[i]));
                    }
                }
                if a.1 is Ok {
                    lemma_externs(a.0, items, i + 1);
                }
            },
            _ => {
                lemma_externs(p, items, i + 1);
            },
        }
    }
}

proof fn lemma_functions(p: ProgramState, items: Seq<TyHirItemV>, i: int)
    requires
        known(p),
        0 <= i,
        distinct_functions(items),
        unknown(p.env, items, i),
    ensures
        adds(p, p_functions(p, items, i).0),
        p_functions(p, items, i).1 is Ok ==> all_described(p_functions(p, items, i).0.env, items, i),
    decreases items.len() - i,
{
    if i < items.len() {
        let q = p_functions(p, items, i);
        match items[i] {
            TyHirItemV::Fn { def_id, name, params, return_ty, impl_receiver, .. } => {
                assert(function_id(items[i]) == Some(def_id));
                let symbol = symbol_of(def_id, name, impl_receiver);
                let link = linkage_of(name);
                let info = FuncInfoV {
                    name: symbol,
                    param_types: param_types_of(params),
                    ret_ty: return_ty,
                    is_variadic: false,
                };
                let a = g_add_function(p, def_id, symbol, link, info);
                lemma_add_function(p, def_id, symbol, link, info);
                if a.1 is Ok {
                    assert(unknown(a.0.env, items, i + 1)) by {
                        assert forall|j: int| i + 1 <= j < items.len() && (#[trigger] items[j]) is Fn implies !a.0.env.funcs.dom().contains(
                            function_id(items[j])->0,
                        ) by {
                            assert(function_id(items[j]) is Some);
                            assert(function_id(items[i]) != function_id(items[j]));
                        }
                    }
                    lemma_functions(a.0, items, i + 1);
                    assert(a.0.env.funcs.dom().contains(def_id));
                    assert(described(q.0.env, items[i]));
                }
            },
            _ => {
                lemma_functions(p, items, i + 1);
            },
        }
    }
}

proof fn lemma_vtables(p: ProgramState, ts: Seq<VTableV>, i: int)
    ensures
        ({
            let q = p_vtables(p, ts, i).0;
            &&& q.env == p.env
            &&& q.globals == p.globals
            &&& q.functions == p.functions
            &&& q.code == p.code
            &&& q.strings == p.strings
        }),
    decreases ts.len() - i,
{
    if i < ts.len() && ts[i].methods.len() * p.env.ptr_bytes <= u32::MAX {
        if let Ok(entries) = vtable_entries(p.env, ts[i].methods, 0, Seq::empty()) {
            lemma_vtables(
                ProgramState {
                    vtables: p.vtables.push(
                        VTableDataV {
                            name: vtable_name(ts[i]),
                            size: (ts[i].methods.len() * p.env.ptr_bytes) as u32,
                            entries,
                        },
                    ),
                    ..p
                },
                ts,
                i + 1,
            );
        }
    }
}

// Links

proof fn lemma_function_link(fs: Seq<FuncDeclV>, at: Seq<Placement>, d: DefId, i: int, j: int)
    requires
        0 <= i <= j < fs.len(),
        fs[j].def_id == d,
    ensures
        func_link(function_links(fs, at), d, i) is Some,
        exists|k: int| 0 <= k < fs.len() && (#[trigger] fs[k]).def_id == d && func_link(
            function_links(fs, at),
            d,
            i,
        ) == Some(function_link(fs[k], at[k])),
    decreases fs.len() - i,
{
    if fs[i].def_id != d {
        lemma_function_link(fs, at, d, i + 1, j);
    } else {
        assert(function_links(fs, at)[i] == function_link(fs[i], at[i]));
    }
}

proof fn lemma_data_link(ds: Seq<DataLink>, target: DataRef, i: int, j: int)
    requires
        0 <= i <= j < ds.len(),
        ds[j].target == target,
    ensures
        data_link(ds, target, i) is Some,
    decreases ds.len() - i,
{
    if ds[i].target != target {
        lemma_data_link(ds, target, i + 1, j);
    }
}

/// What a program knows, its links lead to.
proof fn lemma_linked(
    p: ProgramState,
    at: Seq<Placement>,
    globals: Seq<u32>,
    texts: Seq<u32>,
    e: Plan,
)
    requires
        known(p),
        p.strings.len() <= usize::MAX,
        e.links == links_of(program_of(p), at, globals, texts),
    ensures
        linked(p.env, e, p.strings.len()),
        typed_links(p.env, e),
        forall|d: DefId| #[trigger] p.env.funcs.dom().contains(d) ==> (func_link(
            e.links.functions,
            d,
            0,
        ) matches Some(l) && g_signature(
            p.env,
            p.env.funcs[d].param_types,
            p.env.funcs[d].ret_ty,
            Seq::empty(),
        ) == Ok::<CodeSignatureV, MplangErrorV>(l.signature)),
{
    assert forall|d: DefId| #[trigger] p.env.funcs.dom().contains(d) implies (func_link(
        e.links.functions,
        d,
        0,
    ) matches Some(l) && g_signature(
        p.env,
        p.env.funcs[d].param_types,
        p.env.funcs[d].ret_ty,
        Seq::empty(),
    ) == Ok::<CodeSignatureV, MplangErrorV>(l.signature) && (is_aggregate(p.env.funcs[d].ret_ty)
        || (l.signature.returns matches Some(ir) && g_type(p.env, p.env.funcs[d].ret_ty) == Ok::<
        IrType,
        MplangErrorV,
    >(ir)))) by {
        let j = choose|j: int| 0 <= j < p.functions.len() && #[trigger] p.functions[j].def_id == d;
        lemma_function_link(p.functions, at, d, 0, j);
        let k = choose|k: int| 0 <= k < p.functions.len() && (#[trigger] p.functions[k]).def_id == d
            && func_link(function_links(p.functions, at), d, 0) == Some(
            function_link(p.functions[k], at[k]),
        );
        assert(agrees(p.env, p.functions[k]));
        let f = p.env.funcs[d];
        law_signature_shape(p.env, f.param_types, f.ret_ty, Seq::empty(), p.functions[k].signature);
    }
    assert forall|d: DefId| #[trigger] p.env.data.dom().contains(d) implies data_link(
        e.links.data,
        DataRef::Global(d),
        0,
    ) is Some by {
        let j = choose|j: int| 0 <= j < p.globals.len() && #[trigger] p.globals[j].def_id == d;
        assert(e.links.data[j].target == DataRef::Global(d));
        lemma_data_link(e.links.data, DataRef::Global(d), 0, j);
    }
    assert forall|i: usize| i < p.strings.len() implies #[trigger] data_link(
        e.links.data,
        DataRef::Text(i),
        0,
    ) is Some by {
        let j = p.globals.len() + i;
        assert(e.links.data[j].target == DataRef::Text(i));
        lemma_data_link(e.links.data, DataRef::Text(i), 0, j);
    }
}

// Code

proof fn lemma_function_grows(
    env: GenEnv,
    strings: Seq<Seq<char>>,
    ps: Seq<TyHirParamV>,
    ret: HirTypeV,
    stmts: Seq<TyHirStmtV>,
    e: Plan,
)
    requires
        g_function(env, strings, ps, ret, stmts).1 is Ok,
        linked(env, e, 0),
    ensures
        strings.len() <= g_function(env, strings, ps, ret, stmts).0.strings.len(),
{
    reveal(g_function);
    let taken = taken_stmts(stmts, 0, Set::empty());
    let r = g_sret(g_entry(strings), ret);
    let skip = if is_aggregate(ret) { 1usize } else { 0usize };
    lemma_params(env, r.0, ps, taken, skip, 0, e, 0);
    let a = g_params(env, r.0, ps, taken, 0, skip, 0);
    lemma_block(env, a.0, stmts, FnScope { ret, room: r.1, taken }, e, 0);
}

/// The code of functions only adds code and string literals.
proof fn lemma_code_grows(p: ProgramState, items: Seq<TyHirItemV>, i: int, e: Plan)
    requires
        p_code(p, items, i).1 is Ok,
        linked(p.env, e, 0),
    ensures
        ({
            let q = p_code(p, items, i).0;
            &&& q.env == p.env
            &&& q.globals == p.globals
            &&& q.functions == p.functions
            &&& p.strings.len() <= q.strings.len()
            &&& p.code.len() <= q.code.len()
            &&& forall|k: int| 0 <= k < p.code.len() ==> #[trigger] q.code[k] == p.code[k]
        }),
    decreases items.len() - i,
{
    if i < items.len() {
        match items[i] {
            TyHirItemV::Fn { def_id, name, params, body, .. } => {
                let ret = declared_result(p, def_id, name)->Ok_0;
                let f = g_function(p.env, p.strings, params, ret, body.stmts).0;
                lemma_function_grows(p.env, p.strings, params, ret, body.stmts, e);
                let p1 = ProgramState {
                    strings: f.strings,
                    code: p.code.push(FunctionCodeV { def_id, steps: f.steps }),
                    ..p
                };
                lemma_code_grows(p1, items, i + 1, e);
                let q = p_code(p, items, i).0;
                assert forall|k: int| 0 <= k < p.code.len() implies #[trigger] q.code[k] == p.code[k] by {
                    assert(p1.code[k] == p.code[k]);
                }
            },
            _ => {
                lemma_code_grows(p, items, i + 1, e);
            },
        }
    }
}

/// A function is well typed, given the types of some global variables.
pub open spec fn typed_function(g: Definitions, item: TyHirItemV) -> bool {
    match item {
        TyHirItemV::Fn { params, return_ty, body, .. } => exists|vars: Map<DefId, HirTypeV>|
            #[trigger] ok_stmts(g, with_params(vars, params, 0), body.stmts, return_ty, 0),
        _ => true,
    }
}

/// No variable of a function is bound again while it is in scope.
pub open spec fn fresh_function(item: TyHirItemV) -> bool {
    match item {
        TyHirItemV::Fn { params, body, .. } => fresh_stmts(param_scope(params), body.stmts, 0),
        _ => true,
    }
}

/// The code of a function of the program makes a function.
pub open spec fn makes_function(code: FunctionCodeV, links: LinksV, m: Machine) -> bool {
    func_link(links.functions, code.def_id, 0) matches Some(l) && is_valid(
        code.steps,
        Plan { machine: m, links, shape: shape_for(l.signature, m) },
    )
}

/// Every block in the code of a function of the program has room for its
/// parameters.
pub open spec fn roomy_code(code: FunctionCodeV, links: LinksV) -> bool {
    func_link(links.functions, code.def_id, 0) matches Some(l) ==> roomy(
        code.steps,
        l.signature.params.len(),
    )
}

/// The code of the functions from `i` on makes functions.
proof fn lemma_code(
    p: ProgramState,
    items: Seq<TyHirItemV>,
    i: int,
    g: Definitions,
    at: Seq<Placement>,
    globals: Seq<u32>,
    texts: Seq<u32>,
    m: Machine,
)
    requires
        0 <= i,
        known(p),
        p_code(p, items, i).1 is Ok,
        p_code(p, items, i).0.strings.len() <= usize::MAX,
        forall|k: int| 0 <= k < p_code(p, items, i).0.code.len() ==> (
        #[trigger] p_code(p, items, i).0.code[k]).steps.len() <= usize::MAX,
        all_described(p.env, items, i),
        forall|k: int| i <= k < items.len() ==> typed_function(g, #[trigger] items[k]),
        forall|k: int| i <= k < items.len() ==> fresh_function(#[trigger] items[k]),
        m.ptr_bytes == 8,
        forall|k: int| 0 <= k < p_code(p, items, i).0.code.len() ==> roomy_code(
            #[trigger] p_code(p, items, i).0.code[k],
            links_of(program_of(p_code(p, items, i).0), at, globals, texts),
        ),
        linked(
            p.env,
            Plan {
                machine: m,
                links: links_of(program_of(p_code(p, items, i).0), at, globals, texts),
                shape: shape_for(CodeSignatureV { params: Seq::empty(), returns: None }, m),
            },
            0,
        ),
        known(p_code(p, items, i).0),
    ensures
        forall|k: int| p.code.len() <= k < p_code(p, items, i).0.code.len() ==> makes_function(
            #[trigger] p_code(p, items, i).0.code[k],
            links_of(program_of(p_code(p, items, i).0), at, globals, texts),
            m,
        ),
    decreases items.len() - i,
{
    if i < items.len() {
        let q = p_code(p, items, i).0;
        let links = links_of(program_of(q), at, globals, texts);
        let shape = shape_for(CodeSignatureV { params: Seq::empty(), returns: None }, m);
        let e0 = Plan { machine: m, links, shape };
        match items[i] {
            TyHirItemV::Fn { def_id, name, params, return_ty, body, .. } => {
                assert(described(p.env, items[i]));
                let ret = declared_result(p, def_id, name)->Ok_0;
                assert(ret == return_ty);
                let r = g_function(p.env, p.strings, params, ret, body.stmts);
                let f = r.0;
                let c = FunctionCodeV { def_id, steps: f.steps };
                let p1 = ProgramState { strings: f.strings, code: p.code.push(c), ..p };
                assert(q == p_code(p1, items, i + 1).0);
                lemma_code_grows(p1, items, i + 1, e0);
                assert(q.code[p.code.len() as int] == c);
                lemma_linked(q, at, globals, texts, e0);
                let l = func_link(links.functions, def_id, 0)->0;
                assert(q.env.funcs.dom().contains(def_id));
                let e = Plan { machine: m, links, shape: shape_for(l.signature, m) };
                lemma_linked(q, at, globals, texts, e);
                assert(typed_function(g, items[i]));
                assert(fresh_function(items[i]));
                let vars = choose|vars: Map<DefId, HirTypeV>| #[trigger]
                    ok_stmts(g, with_params(vars, params, 0), body.stmts, return_ty, 0);
                assert(linked(p.env, e, f.strings.len()));
                assert(roomy_code(c, links));
                law_typed_code_makes_a_function(
                    p.env,
                    p.strings,
                    params,
                    ret,
                    body.stmts,
                    g,
                    vars,
                    l.signature,
                    e,
                );
                assert(makes_function(c, links, m));
                lemma_code(p1, items, i + 1, g, at, globals, texts, m);
            },
            _ => {
                lemma_code(p, items, i + 1, g, at, globals, texts, m);
            },
        }
    }
}

// Items

/// The functions of a well-typed program are well typed, also those of its
/// modules.
proof fn lemma_flat_typed(
    g: Definitions,
    vars: Map<DefId, HirTypeV>,
    items: Seq<TyHirItemV>,
    i: int,
    done: Seq<TyHirItemV>,
)
    requires
        ok_items(g, vars, items, i),
        forall|k: int| 0 <= k < done.len() ==> typed_function(g, #[trigger] done[k]),
    ensures
        forall|k: int| 0 <= k < flat(items, i, done).len() ==> typed_function(
            g,
            #[trigger] flat(items, i, done)[k],
        ),
    decreases items, items.len() - i,
{
    if 0 <= i < items.len() {
        let a = done.push(items[i]);
        let next = vars_after_item(vars, items[i]);
        assert(ok_item(g, vars, items[i]));
        assert(typed_function(g, items[i]));
        assert forall|k: int| 0 <= k < a.len() implies typed_function(g, #[trigger] a[k]) by {
            if k < done.len() {
                assert(a[k] == done[k]);
            }
        }
        match items[i] {
            TyHirItemV::Module(b) => {
                lemma_flat_typed(g, vars, b.items, 0, a);
                let c = flat(b.items, 0, a);
                lemma_flat_typed(g, next, items, i + 1, c);
                assert(flat(items, i, done) == flat(items, i + 1, c));
            },
            _ => {
                lemma_flat_typed(g, next, items, i + 1, a);
                assert(flat(items, i, done) == flat(items, i + 1, a));
            },
        }
    }
}

/// The items of a program, also those of its modules.
pub open spec fn all_items(unit: TyHirCompilationUnitV) -> Seq<TyHirItemV> {
    flat(unit.root_module.items, 0, Seq::empty())
}

/// The program of a translation.
pub open spec fn translation(unit: TyHirCompilationUnitV) -> ProgramState {
    translated(empty_program(8), unit).0
}

/// Every function of a well-typed program that is translated for pointers of
/// eight bytes has code that makes a function, wherever the parts of the program
/// stand in their module.
///
/// No two functions have the same definition, no variable is bound again while it
/// is in scope, and every block has room for its parameters.
pub proof fn law_typed_program_makes_functions(
    unit: TyHirCompilationUnitV,
    g: Definitions,
    vars: Map<DefId, HirTypeV>,
    at: Seq<Placement>,
    globals: Seq<u32>,
    texts: Seq<u32>,
    m: Machine,
)
    requires
        translated(empty_program(8), unit).1 is Ok,
        ok_items(g, vars, unit.root_module.items, 0),
        distinct_functions(all_items(unit)),
        forall|k: int| 0 <= k < all_items(unit).len() ==> fresh_function(
            #[trigger] all_items(unit)[k],
        ),
        translation(unit).strings.len() <= usize::MAX,
        forall|k: int| 0 <= k < translation(unit).code.len() ==> (
        #[trigger] translation(unit).code[k]).steps.len() <= usize::MAX,
        m.ptr_bytes == 8,
        forall|k: int| 0 <= k < translation(unit).code.len() ==> roomy_code(
            #[trigger] translation(unit).code[k],
            links_of(program_of(translation(unit)), at, globals, texts),
        ),
    ensures
        forall|k: int| 0 <= k < translation(unit).code.len() ==> makes_function(
            #[trigger] translation(unit).code[k],
            links_of(program_of(translation(unit)), at, globals, texts),
            m,
        ),
{
    let items = all_items(unit);
    lemma_flat_typed(g, vars, unit.root_module.items, 0, Seq::empty());
    let p = empty_program(8);
    lemma_globals(p, items, 0);
    let p1 = p_globals(p, items, 0).0;
    let a = p_structs(p1.env, items, 0).0;
    lemma_structs(p1.env, items, 0);
    lemma_enums(a, items, 0);
    let p2 = p_layouts(p1, items).0;
    assert(known(p2)) by {
        assert(p2.env.data == p1.env.data && p2.env.funcs == p1.env.funcs);
    }
    lemma_externs(p2, items, 0);
    let p3 = p_externs(p2, items, 0).0;
    lemma_functions(p3, items, 0);
    let p4 = p_functions(p3, items, 0).0;
    lemma_vtables(p4, unit.vtables, 0);
    let p5 = p_vtables(p4, unit.vtables, 0).0;
    assert(known(p5)) by {
        assert(p5.env == p4.env && p5.functions == p4.functions && p5.globals == p4.globals);
    }
    let shape = shape_for(CodeSignatureV { params: Seq::empty(), returns: None }, m);
    let none = ProgramState { strings: Seq::empty(), ..p5 };
    let e0 = Plan { machine: m, links: links_of(program_of(none), at, globals, texts), shape };
    lemma_linked(none, at, globals, texts, e0);
    lemma_code_grows(p5, items, 0, e0);
    let q = p_code(p5, items, 0).0;
    assert(known(q));
    let e = Plan { machine: m, links: links_of(program_of(q), at, globals, texts), shape };
    lemma_linked(q, at, globals, texts, e);
    lemma_code(p5, items, 0, g, at, globals, texts, m);
}

} // verus!
