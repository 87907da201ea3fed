//! Signatures.

use crate::compiler::code::{IrType, CodeSignature};
use crate::compiler::rules::{g_signature, g_types, is_aggregate};
use crate::compiler::Compiler;
use crate::error::MplangError;
use crate::hir::{lemma_hir_type_view, HirType};
use crate::list::{empty_list, list_of, push_item};
use crate::lowering::gives;
use vstd::prelude::*;

verus! {

impl Compiler {
    fn machine_types(&self, ts: &Vec<HirType>, done: Vec<IrType>) -> (r: Result<
        Vec<IrType>,
        MplangError,
    >)
        ensures
            gives(r, g_types(self.env(), ts.deep_view(), 0, done.deep_view())),
    {
        let ghost d0 = done.deep_view();
        let ghost goal = g_types(self.env(), ts.deep_view(), 0, d0);
        let mut out = done;
        for i in 0..ts.len()
            invariant
                d0 == done.deep_view(),
                goal == g_types(self.env(), ts.deep_view(), 0, d0),
                goal == g_types(self.env(), ts.deep_view(), i as int, out.deep_view()),
        {
            let t = self.var_type_to_cranelift(&ts[i])?;
            push_item(&mut out, t);
        }
        Ok(out)
    }

    /// The signature of a call with further arguments behind the parameters.
    pub fn build_signature(
        &self,
        param_types: &Vec<HirType>,
        ret_ty: &HirType,
        extra_variadic_args: &Vec<HirType>,
    ) -> (r: Result<CodeSignature, MplangError>)
        ensures
            gives(
                r,
                g_signature(
                    self.env(),
                    param_types.deep_view(),
                    ret_ty.deep_view(),
                    extra_variadic_args.deep_view(),
                ),
            ),
    {
        let sret = Self::needs_sret(ret_ty);
        let first: Vec<IrType> = if sret {
            list_of(IrType::Ptr)
        } else {
            empty_list()
        };
        let a = self.machine_types(param_types, first)?;
        let params = self.machine_types(extra_variadic_args, a)?;
        if sret {
            return Ok(CodeSignature { params, returns: None });
        }
        let t = self.var_type_to_cranelift(ret_ty)?;
        Ok(CodeSignature { params, returns: Some(t) })
    }

    /// Whether a function returns through an address that its caller gives.
    pub fn needs_sret(ret_ty: &HirType) -> (r: bool)
        ensures
            r == is_aggregate(ret_ty.deep_view()),
    {
        proof {
            lemma_hir_type_view(*ret_ty);
        }
        match ret_ty {
            HirType::Named(_) => true,
            HirType::Array(_, _) => true,
            HirType::Enum(_, _, _) => true,
            HirType::TraitObject(_) => true,
            _ => false,
        }
    }
}

} // verus!
