//! Code generation: from the typed program to steps that build machine code.
//!
//! A [`Compiler`] lays out the data of a program, declares its functions, and
//! turns every function into a list of [`code::Step`]s. What each construct
//! becomes is stated in [`rules`].

use crate::compiler::code::{
    EnumLayout, FuncDecl, FuncInfo, FunctionCode, GlobalData, LocalVar, Program, Step, StructLayout,
    VTableData,
};
use crate::compiler::rules::{
    emit, empty_program, g_text, next_step, program_of, text_index, GenEnv, GenState, ProgramState,
};
use crate::error::{MplangError, MplangErrorV};
use crate::hir::{DefId, HirType};
use crate::list::{empty_list, push_item};
use crate::lowering::gives;
use crate::table::Table;
use vstd::prelude::*;

mod abi;
pub mod address;
pub mod code;
mod codegen;
pub mod entry;
pub mod globals;
pub mod laws;
pub mod meaning;
pub mod rules;
mod types;
mod values;

verus! {

/// What is known of a program while code is generated for it.
pub struct Compiler {
    ptr_bytes: u32,
    struct_map: Table<DefId, StructLayout>,
    depth: usize,
    enum_map: Table<DefId, EnumLayout>,
    data_map: Table<DefId, HirType>,
    func_map: Table<DefId, FuncInfo>,
    globals: Vec<GlobalData>,
    functions: Vec<FuncDecl>,
    vtables: Vec<VTableData>,
    code: Vec<FunctionCode>,
    string_pool: Vec<String>,
}

/// A function under construction.
pub struct CodeBuilder {
    steps: Vec<Step>,
    strings: Vec<String>,
    vars: Table<DefId, LocalVar>,
}

/// Whether an executed step returns what the rules say and leaves the code that
/// they say.
pub open spec fn emits<T: DeepView>(
    after: &CodeBuilder,
    r: Result<T, MplangError>,
    want: (GenState, Result<T::V, MplangErrorV>),
) -> bool {
    &&& after.state() == want.0
    &&& gives(r, want.1)
}

impl CodeBuilder {
    /// The code so far.
    pub closed spec fn state(&self) -> GenState {
        GenState {
            steps: self.steps.deep_view(),
            strings: self.strings.deep_view(),
            vars: self.vars@,
        }
    }

    /// Appends a step and returns its name.
    fn push(&mut self, step: Step) -> (r: usize)
        ensures
            final(self).state() == emit(old(self).state(), step.deep_view()),
            r == next_step(old(self).state()),
            r == old(self).state().steps.len(),
    {
        let n: usize = self.steps.len();
        assert(self.steps.deep_view().len() == n);
        push_item(&mut self.steps, step);
        n
    }

    /// The number of a string literal.
    fn text(&mut self, text: &String) -> (r: usize)
        ensures
            g_text(old(self).state(), text@) == (final(self).state(), r),
    {
        let ghost strings = self.strings.deep_view();
        let n: usize = self.strings.len();
        for i in 0..n
            invariant
                n == self.strings@.len(),
                *self == *old(self),
                strings == self.strings.deep_view(),
                text_index(strings, text@, 0) == text_index(strings, text@, i as int),
        {
            if self.strings[i] == *text {
                return i;
            }
        }
        push_item(&mut self.strings, text.clone());
        n
    }
}

impl Compiler {
    /// What code generation knows of the program.
    pub closed spec fn env(&self) -> GenEnv {
        GenEnv {
            ptr_bytes: self.ptr_bytes,
            structs: self.struct_map@,
            depth: self.depth,
            enums: self.enum_map@,
            data: self.data_map@,
            funcs: self.func_map@,
        }
    }

    /// The program so far.
    pub closed spec fn state(&self) -> ProgramState {
        ProgramState {
            env: self.env(),
            globals: self.globals.deep_view(),
            functions: self.functions.deep_view(),
            vtables: self.vtables.deep_view(),
            code: self.code.deep_view(),
            strings: self.string_pool.deep_view(),
        }
    }

    /// A compiler for a machine whose pointers have this many bytes.
    pub fn new(ptr_bytes: u32) -> (r: Self)
        ensures
            r.state() == empty_program(ptr_bytes),
    {
        Compiler {
            ptr_bytes,
            struct_map: Table::new(),
            depth: 0,
            enum_map: Table::new(),
            data_map: Table::new(),
            func_map: Table::new(),
            globals: empty_list(),
            functions: empty_list(),
            vtables: empty_list(),
            code: empty_list(),
            string_pool: empty_list(),
        }
    }

    /// The finished program.
    pub fn into_program(self) -> (r: Program)
        ensures
            r.deep_view() == program_of(self.state()),
    {
        Program {
            globals: self.globals,
            functions: self.functions,
            vtables: self.vtables,
            code: self.code,
            strings: self.string_pool,
        }
    }
}

} // verus!
