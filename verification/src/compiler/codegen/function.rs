//! Functions.

use crate::compiler::code::{FunctionCode, Linkage, Step};
use crate::compiler::codegen::addr_taken::collect_addr_taken;
use crate::compiler::codegen::stmt::Frame;
use crate::compiler::rules::{
    g_entry, g_function, g_params, g_sret, linkage_of, param_types_of, symbol_of,
};
use crate::compiler::{emits, CodeBuilder, Compiler};
use crate::error::{MplangError, MplangErrorV};
use crate::hir::{DefId, HirType};
use crate::list::{empty_list, push_item};
use crate::table::Table;
use crate::text::{cat3, copy_strings, decimal_string, same_text};
use crate::tyhir::{TyHirParam, TyHirStmt};
use vstd::prelude::*;

verus! {

/// The types of parameters.
pub(super) fn types_of_params(ps: &Vec<TyHirParam>) -> (r: Vec<HirType>)
    ensures
        r.deep_view() == param_types_of(ps.deep_view()),
{
    let mut out: Vec<HirType> = Vec::new();
    for i in 0..ps.len()
        invariant
            out@.len() == i,
            forall|j: int| 0 <= j < i ==> #[trigger] out@[j].deep_view() == ps@[j].deep_view().ty,
    {
        out.push(ps[i].ty.clone());
    }
    assert(out.deep_view() =~= param_types_of(ps.deep_view()));
    out
}

/// The symbol of a function.
pub(super) fn link_symbol(d: DefId, name: &String, recv: &Option<HirType>) -> (r: String)
    ensures
        r@ == symbol_of(d, name@, recv.deep_view()),
{
    if recv.is_some() {
        let n = decimal_string(d.0 as u64);
        cat3(name.as_str(), "_", n.as_str())
    } else {
        name.clone()
    }
}

/// Whether a function can be called from outside.
pub(super) fn linkage_for(name: &String) -> (r: Linkage)
    ensures
        r == linkage_of(name@),
{
    if same_text(name.as_str(), "main") {
        Linkage::Export
    } else {
        Linkage::Local
    }
}

impl CodeBuilder {
    /// The entry block of a function.
    fn enter(strings: Vec<String>) -> (r: CodeBuilder)
        ensures
            r.state() == g_entry(strings.deep_view()),
    {
        let mut b = CodeBuilder { steps: empty_list(), strings, vars: Table::new() };
        let entry: usize = b.push(Step::CreateBlock);
        b.push(Step::EnterFunction(entry));
        b.push(Step::SwitchTo(entry));
        b.push(Step::Seal(entry));
        b
    }

    /// Where an aggregate result goes.
    fn sret(&mut self, ret: &HirType) -> (r: Option<usize>)
        ensures
            g_sret(old(self).state(), ret.deep_view()) == (final(self).state(), r),
    {
        if Compiler::needs_sret(ret) {
            Some(self.push(Step::Param(0, 0)))
        } else {
            None
        }
    }
}

impl Compiler {
    fn bind_params(
        &self,
        b: &mut CodeBuilder,
        ps: &Vec<TyHirParam>,
        taken: &Table<DefId, ()>,
        skip: usize,
    ) -> (r: Result<(), MplangError>)
        requires
            skip <= 1,
        ensures
            emits(
                final(b),
                r,
                g_params(
                    self.env(),
                    old(b).state(),
                    ps.deep_view(),
                    taken@.dom(),
                    0,
                    skip,
                    0,
                ),
            ),
    {
        let ghost goal = g_params(
            self.env(),
            b.state(),
            ps.deep_view(),
            taken@.dom(),
            0,
            skip,
            0,
        );
        for i in 0..ps.len()
            invariant
                skip <= 1,
                goal == g_params(
                    self.env(),
                    old(b).state(),
                    ps.deep_view(),
                    taken@.dom(),
                    0,
                    skip,
                    0,
                ),
                goal == g_params(
                    self.env(),
                    b.state(),
                    ps.deep_view(),
                    taken@.dom(),
                    0,
                    skip,
                    i as int,
                ),
        {
            let v: usize = b.push(Step::Param(0, i + skip));
            let kept = taken.contains(&ps[i].def_id);
            self.bind_local(b, ps[i].def_id, &ps[i].ty, v, kept)?;
        }
        Ok(())
    }

    /// The code of a function.
    fn function_code(&self, ps: &Vec<TyHirParam>, ret: &HirType, stmts: &Vec<TyHirStmt>) -> (r: (
        CodeBuilder,
        Result<(), MplangError>,
    ))
        ensures
            emits(
                &r.0,
                r.1,
                g_function(
                    self.env(),
                    self.state().strings,
                    ps.deep_view(),
                    ret.deep_view(),
                    stmts.deep_view(),
                ),
            ),
    {
        proof {
            reveal(g_function);
        }
        let mut taken: Table<DefId, ()> = Table::new();
        assert(taken@.dom() =~= Set::empty());
        collect_addr_taken(stmts, &mut taken);
        let mut b = CodeBuilder::enter(copy_strings(&self.string_pool));
        let room = b.sret(ret);
        let skip: usize = if Self::needs_sret(ret) {
            1
        } else {
            0
        };
        if let Err(e) = self.bind_params(&mut b, ps, &taken, skip) {
            return (b, Err(e));
        }
        let frame = Frame::make(ret.clone(), room, taken);
        match self.translate_stmts(&mut b, stmts, &frame) {
            Err(e) => (b, Err(e)),
            Ok(last) => {
                if Self::needs_sret(ret) {
                    b.push(Step::Return(None));
                } else {
                    b.push(Step::Return(Some(last)));
                }
                (b, Ok(()))
            },
        }
    }

    /// Adds the code of a function.
    pub(super) fn define_function(
        &mut self,
        d: DefId,
        ps: &Vec<TyHirParam>,
        ret: &HirType,
        stmts: &Vec<TyHirStmt>,
    ) -> (r: Result<(), MplangError>)
        ensures
            ({
                let want = g_function(
                    old(self).state().env,
                    old(self).state().strings,
                    ps.deep_view(),
                    ret.deep_view(),
                    stmts.deep_view(),
                );
                &&& final(self).state().strings == want.0.strings
                &&& match r {
                    Ok(_) => {
                        &&& want.1 == Ok::<(), MplangErrorV>(())
                        &&& final(self).state() == (crate::compiler::rules::ProgramState {
                            strings: want.0.strings,
                            code: old(self).state().code.push(
                                crate::compiler::code::FunctionCodeV {
                                    def_id: d,
                                    steps: want.0.steps,
                                },
                            ),
                            ..old(self).state()
                        })
                    },
                    Err(e) => {
                        &&& want.1 == Err::<(), MplangErrorV>(e.deep_view())
                        &&& final(self).state() == (crate::compiler::rules::ProgramState {
                            strings: want.0.strings,
                            ..old(self).state()
                        })
                    },
                }
            }),
    {
        let (b, r) = self.function_code(ps, ret, stmts);
        self.string_pool = b.strings;
        match r {
            Err(e) => Err(e),
            Ok(_) => {
                push_item(&mut self.code, FunctionCode { def_id: d, steps: b.steps });
                Ok(())
            },
        }
    }
}

} // verus!
