//! Where a program begins.

use crate::compiler::code::FuncInfoV;
use crate::compiler::rules::{codegen_error, ProgramState};
use crate::compiler::Compiler;
use crate::error::{MplangError, MplangErrorV};
use crate::hir::{shown_type, shown_types, DefId, HirType, HirTypeV};
use crate::lowering::gives;
use crate::table::lookup;
use crate::text::{cat3, decimal, decimal_string};
use vstd::prelude::*;
use vstd::string::*;

verus! {

/// The first function from `i` on whose name is `main`.
pub open spec fn main_from(p: ProgramState, i: int) -> Option<(DefId, FuncInfoV)>
    decreases p.functions.len() - i,
{
    if i >= p.functions.len() {
        None
    } else {
        match lookup(p.env.funcs, p.functions[i].def_id) {
            Some(f) => if f.name == "main"@ {
                Some((p.functions[i].def_id, f))
            } else {
                main_from(p, i + 1)
            },
            None => main_from(p, i + 1),
        }
    }
}

/// The error for a `main` that takes or returns something else than asked for.
#[verifier::opaque]
pub open spec fn wrong_main(params: Seq<HirTypeV>, ret: HirTypeV) -> MplangErrorV {
    codegen_error(
        "JIT error: 'main' must have signature fn() -> int, got fn(["@ + shown_types(params, 0)
            + "]) -> "@ + shown_type(ret),
    )
}

/// The error for a machine whose pointers have `n` bytes.
#[verifier::opaque]
pub open spec fn wrong_machine(n: u32) -> MplangErrorV {
    codegen_error(
        "assertion `left == right` failed: JIT error: only 64-bit platforms are supported for JIT execution\n  left: "@
            + decimal(n as nat) + "\n right: 8"@,
    )
}

/// The function that a program begins with, which takes nothing and returns an
/// integer. It can only be run where pointers have eight bytes.
pub open spec fn entry(p: ProgramState) -> Result<DefId, MplangErrorV> {
    match main_from(p, 0) {
        None => Err(codegen_error("JIT error: no 'main' function defined in source"@)),
        Some(m) => if !(m.1.ret_ty is Int) || m.1.param_types.len() > 0 || m.1.is_variadic {
            Err(wrong_main(m.1.param_types, m.1.ret_ty))
        } else if p.env.ptr_bytes != 8 {
            Err(wrong_machine(p.env.ptr_bytes))
        } else {
            Ok(m.0)
        },
    }
}

fn wrong_main_error(params: &Vec<HirType>, ret: &HirType) -> (r: MplangError)
    ensures
        r.deep_view() == wrong_main(params.deep_view(), ret.deep_view()),
{
    proof {
        reveal(wrong_main);
    }
    let ps = HirType::list_text(params);
    let t = ret.to_text();
    let a = cat3(
        "JIT error: 'main' must have signature fn() -> int, got fn([",
        ps.as_str(),
        "]) -> ",
    );
    let m = cat3(a.as_str(), t.as_str(), "");
    proof {
        reveal_strlit("");
        assert(m@ =~= "JIT error: 'main' must have signature fn() -> int, got fn(["@ + shown_types(
            params.deep_view(),
            0,
        ) + "]) -> "@ + shown_type(ret.deep_view()));
    }
    MplangError::codegen(m.as_str())
}

fn wrong_machine_error(n: u32) -> (r: MplangError)
    ensures
        r.deep_view() == wrong_machine(n),
{
    proof {
        reveal(wrong_machine);
    }
    let d = decimal_string(n as u64);
    let m = cat3(
        "assertion `left == right` failed: JIT error: only 64-bit platforms are supported for JIT execution\n  left: ",
        d.as_str(),
        "\n right: 8",
    );
    MplangError::codegen(m.as_str())
}

impl Compiler {
    /// The function that the program begins with.
    pub fn entry_point(&self) -> (r: Result<DefId, MplangError>)
        ensures
            gives(r, entry(self.state())),
    {
        let ghost p = self.state();
        for i in 0..self.functions.len()
            invariant
                p == self.state(),
                main_from(p, 0) == main_from(p, i as int),
        {
            let d = self.functions[i].def_id;
            assert(p.functions[i as int] == self.functions@[i as int].deep_view());
            match self.func_map.get(&d) {
                Some(f) => {
                    if same_name(&f.name) {
                        let is_int = match f.ret_ty {
                            HirType::Int => true,
                            _ => false,
                        };
                        proof {
                            crate::hir::lemma_hir_type_view(f.ret_ty);
                            assert(f.param_types.deep_view().len() == f.param_types@.len());
                        }
                        if !is_int || f.param_types.len() > 0 || f.is_variadic {
                            return Err(wrong_main_error(&f.param_types, &f.ret_ty));
                        }
                        if self.ptr_bytes != 8 {
                            return Err(wrong_machine_error(self.ptr_bytes));
                        }
                        return Ok(d);
                    }
                },
                None => {},
            }
        }
        Err(MplangError::codegen("JIT error: no 'main' function defined in source"))
    }
}

fn same_name(s: &String) -> (r: bool)
    ensures
        r == (s@ == "main"@),
{
    crate::text::same_text(s.as_str(), "main")
}

} // verus!
