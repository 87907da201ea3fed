//! What the code of a program can refer to.

use crate::backend::assemble::{build_function, find_function, plan_for};
use crate::backend::clif::code_of;
use crate::backend::plan::{
    built_from, func_link, invalid_code, is_valid, shape_for, DataLink, FuncLink, FuncLinkV, Links,
    LinksV, Machine, Numbers,
};
use crate::compiler::code::{DataRef, FuncDeclV, FunctionCode, GlobalDataV, Program, ProgramV};
use crate::error::MplangError;
use crate::list::{empty_list, push_item};
use crate::text::{cat2, decimal, usize_string};
use cranelift_codegen::ir::Function;
use vstd::prelude::*;

verus! {

/// The symbol of a string literal, by its place among the literals of a program.
pub fn text_symbol(i: usize) -> (r: String)
    ensures
        r@ == "__mplang_str_lit_"@ + decimal(i as nat),
{
    let number = usize_string(i);
    cat2("__mplang_str_lit_", number.as_str())
}

/// Where a function stands in its module: its number, and whether it is defined
/// in the same file.
#[derive(Debug, Clone, Copy, PartialEq, Eq, Structural)]
pub struct Placement {
    pub index: u32,
    pub colocated: bool,
}

impl DeepView for Placement {
    type V = Placement;

    open spec fn deep_view(&self) -> Placement {
        *self
    }
}

/// The link to a function that stands at `at`.
pub open spec fn function_link(f: FuncDeclV, at: Placement) -> FuncLinkV {
    FuncLinkV {
        def_id: f.def_id,
        index: at.index,
        colocated: at.colocated,
        signature: f.signature,
    }
}

/// The link to data of number `index`, which is always in the same file.
pub open spec fn link_to(target: DataRef, index: u32) -> DataLink {
    DataLink { target, index, colocated: true }
}

/// The links to functions.
pub open spec fn function_links(fs: Seq<FuncDeclV>, at: Seq<Placement>) -> Seq<FuncLinkV> {
    Seq::new(fs.len(), |i: int| function_link(fs[i], at[i]))
}

/// The links to global variables.
pub open spec fn global_links(gs: Seq<GlobalDataV>, at: Seq<u32>) -> Seq<DataLink> {
    Seq::new(gs.len(), |i: int| link_to(DataRef::Global(gs[i].def_id), at[i]))
}

/// The links to the first `n` string literals.
pub open spec fn text_links(n: nat, at: Seq<u32>) -> Seq<DataLink> {
    Seq::new(n, |i: int| link_to(DataRef::Text(i as usize), at[i]))
}

/// The links of a program whose parts stand at these places of a module.
pub open spec fn links_of(
    p: ProgramV,
    functions: Seq<Placement>,
    globals: Seq<u32>,
    texts: Seq<u32>,
) -> LinksV {
    LinksV {
        functions: function_links(p.functions, functions),
        data: global_links(p.globals, globals) + text_links(p.strings.len(), texts),
    }
}

/// The links of a program, given where its functions, its global variables and
/// its string literals stand in their module; none where a place is missing.
pub fn program_links(
    program: &Program,
    functions: &Vec<Placement>,
    globals: &Vec<u32>,
    texts: &Vec<u32>,
) -> (r: Option<Links>)
    ensures
        r is Some <==> functions@.len() == program.functions@.len() && globals@.len()
            == program.globals@.len() && texts@.len() == program.strings@.len(),
        r matches Some(l) ==> l.deep_view() == links_of(
            program.deep_view(),
            functions@,
            globals@,
            texts@,
        ),
{
    if functions.len() != program.functions.len() || globals.len() != program.globals.len()
        || texts.len() != program.strings.len() {
        return None;
    }
    let ghost p = program.deep_view();
    let mut fs: Vec<FuncLink> = empty_list();
    for i in 0..functions.len()
        invariant
            p == program.deep_view(),
            functions@.len() == program.functions@.len(),
            fs.deep_view() == function_links(p.functions, functions@).take(i as int),
    {
        let f = &program.functions[i];
        let link = FuncLink {
            def_id: f.def_id,
            index: functions[i].index,
            colocated: functions[i].colocated,
            signature: f.signature.clone(),
        };
        assert(p.functions[i as int] == program.functions@[i as int].deep_view());
        push_item(&mut fs, link);
        assert(fs.deep_view() =~= function_links(p.functions, functions@).take(i + 1));
    }
    let mut data: Vec<DataLink> = empty_list();
    let ghost all = global_links(p.globals, globals@) + text_links(p.strings.len(), texts@);
    for i in 0..globals.len()
        invariant
            p == program.deep_view(),
            globals@.len() == program.globals@.len(),
            all == global_links(p.globals, globals@) + text_links(p.strings.len(), texts@),
            data.deep_view() == all.take(i as int),
    {
        let target = DataRef::Global(program.globals[i].def_id);
        assert(p.globals[i as int] == program.globals@[i as int].deep_view());
        push_item(&mut data, DataLink { target, index: globals[i], colocated: true });
        assert(data.deep_view() =~= all.take(i + 1));
    }
    for i in 0..texts.len()
        invariant
            p == program.deep_view(),
            globals@.len() == program.globals@.len(),
            texts@.len() == program.strings@.len(),
            all == global_links(p.globals, globals@) + text_links(p.strings.len(), texts@),
            data.deep_view() == all.take(globals@.len() + i),
    {
        push_item(&mut data, DataLink { target: DataRef::Text(i), index: texts[i], colocated: true });
        assert(data.deep_view() =~= all.take(globals@.len() + i + 1));
    }
    let links = Links { functions: fs, data };
    assert(links.deep_view().functions =~= function_links(p.functions, functions@));
    assert(links.deep_view().data =~= all);
    Some(links)
}

/// The Cranelift function of a function of the program.
pub fn build_code(code: &FunctionCode, links: &Links, m: Machine) -> (r: Result<
    Function,
    MplangError,
>)
    ensures
        match func_link(links.deep_view().functions, code.def_id, 0) {
            None => r matches Err(e) && e.deep_view() == invalid_code(),
            Some(l) => {
                let steps = code.deep_view().steps;
                let plan = plan_for(*links, m, shape_for(l.signature, m));
                match r {
                    Ok(f) => is_valid(steps, plan) && exists|ns: Seq<Numbers>| #[trigger]
                        built_from(code_of(f), l.index, steps, ns, plan),
                    Err(e) => !is_valid(steps, plan) && e.deep_view() == invalid_code(),
                }
            },
        },
{
    match find_function(&links.functions, code.def_id) {
        Some(l) => {
            let r = build_function(&code.steps, l.index, &l.signature, links, m);
            proof {
                let w = func_link(links.deep_view().functions, code.def_id, 0)->0;
                let plan = plan_for(*links, m, shape_for(w.signature, m));
                if r is Ok {
                    let f = r->Ok_0;
                    let ns = choose|ns: Seq<Numbers>| #[trigger]
                        built_from(code_of(f), l.index, code.steps.deep_view(), ns, plan);
                    assert(built_from(code_of(f), w.index, code.deep_view().steps, ns, plan));
                }
            }
            r
        },
        None => Err(MplangError::codegen("invalid code")),
    }
}

} // verus!
