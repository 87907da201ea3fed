//! Copying values.

use crate::compiler::code::{IrType, LocalVar, Step, StructFieldLayout};
use crate::compiler::rules::{
    element_offset, g_bind, g_copy, g_copy_elements, g_copy_fields, g_copy_part, g_copy_pointer,
    g_copy_to, g_copy_words, g_move, g_read, g_room,
};
use crate::compiler::types::{length_of, open_type};
use crate::compiler::{emits, CodeBuilder, Compiler};
use crate::error::MplangError;
use crate::hir::{lemma_hir_type_view, DefId, HirType};
use crate::lowering::gives;
use vstd::prelude::*;

verus! {

/// The offset of element `i`.
pub(super) fn offset_of(stride: u32, i: usize) -> (r: Result<i64, MplangError>)
    ensures
        gives(r, element_offset(stride, i)),
{
    proof {
        assert(stride * i <= 0xffff_ffff * 0xffff_ffff_ffff_ffff) by (nonlinear_arith)
            requires
                0 <= stride <= 0xffff_ffff,
                0 <= i <= 0xffff_ffff_ffff_ffff,
        ;
    }
    let n: u128 = (stride as u128) * (i as u128);
    if n > i64::MAX as u128 {
        return Err(MplangError::codegen("attempt to multiply with overflow"));
    }
    Ok(n as i64)
}

impl CodeBuilder {
    /// Copies a value of a machine type between addresses.
    fn move_value(&mut self, t: IrType, from: usize, to: usize)
        ensures
            final(self).state() == g_move(old(self).state(), t, from, to),
    {
        let v: usize = self.push(Step::Load(t, from));
        self.push(Step::Store(v, to));
    }

    fn copy_words(&mut self, from: usize, to: usize, size: u32)
        ensures
            final(self).state() == g_copy_words(old(self).state(), from, to, size, 0),
    {
        let mut off: u64 = 0;
        let ghost goal = g_copy_words(self.state(), from, to, size, 0);
        while off < size as u64
            invariant
                off <= size + 7,
                goal == g_copy_words(old(self).state(), from, to, size, 0),
                goal == g_copy_words(self.state(), from, to, size, off as int),
            decreases size + 8 - off,
        {
            let a: usize = self.push(Step::Offset(from, off as i64));
            let b: usize = self.push(Step::Offset(to, off as i64));
            self.move_value(IrType::I64, a, b);
            off = off + 8;
        }
    }

    fn copy_pointer(&mut self, from: usize, to: usize, off: i64)
        ensures
            final(self).state() == g_copy_pointer(old(self).state(), from, to, off),
    {
        let a: usize = self.push(Step::Offset(from, off));
        let b: usize = self.push(Step::Offset(to, off));
        self.move_value(IrType::Ptr, a, b);
    }

    /// Room on the stack, and its address.
    pub(super) fn room(&mut self, size: u32) -> (r: usize)
        ensures
            g_room(old(self).state(), size) == (final(self).state(), r),
    {
        let slot: usize = self.push(Step::CreateSlot(size, 0));
        self.push(Step::SlotAddr(slot))
    }
}

impl Compiler {
    /// Writes a value to an address; `fuel` bounds how deeply structs nest.
    fn copy_into(
        &self,
        b: &mut CodeBuilder,
        val: usize,
        ty: &HirType,
        dst: usize,
        fuel: usize,
    ) -> (r: Result<(), MplangError>)
        ensures
            emits(
                final(b),
                r,
                g_copy_to(self.env(), old(b).state(), val, ty.deep_view(), dst, fuel),
            ),
        decreases fuel, 0int, ty, 0int,
    {
        proof {
            lemma_hir_type_view(*ty);
        }
        match ty {
            HirType::Int => {
                b.push(Step::Store(val, dst));
                Ok(())
            },
            HirType::Char => {
                b.push(Step::Store(val, dst));
                Ok(())
            },
            HirType::Unit => {
                b.push(Step::Store(val, dst));
                Ok(())
            },
            HirType::Pointer(_) => {
                b.push(Step::Store(val, dst));
                Ok(())
            },
            HirType::Array(e, n) => {
                let stride: u32 = self.var_type_size(&**e)?;
                let k: usize = length_of(*n)?;
                self.copy_elements(b, val, &**e, dst, stride, k, fuel)
            },
            HirType::Named(d) => match self.struct_map.get(d) {
                None => Err(
                    MplangError::codegen("called `Option::unwrap()` on a `None` value"),
                ),
                Some(l) => {
                    if fuel == 0 {
                        return Err(MplangError::codegen("struct contains itself"));
                    }
                    self.copy_fields(b, val, &l.fields, dst, fuel - 1)
                },
            },
            HirType::Var(_) => Err(open_type(ty)),
            HirType::Generic(_, _, _) => Err(open_type(ty)),
            HirType::Enum(d, _, _) => {
                let size: u32 = self.enum_size(d)?;
                b.copy_words(val, dst, size);
                Ok(())
            },
            HirType::TraitObject(_) => {
                b.copy_pointer(val, dst, 0);
                b.copy_pointer(val, dst, self.ptr_bytes as i64);
                Ok(())
            },
        }
    }

    fn copy_part(
        &self,
        b: &mut CodeBuilder,
        src: usize,
        ty: &HirType,
        dst: usize,
        fuel: usize,
    ) -> (r: Result<(), MplangError>)
        ensures
            emits(
                final(b),
                r,
                g_copy_part(self.env(), old(b).state(), src, ty.deep_view(), dst, fuel),
            ),
        decreases fuel, 0int, ty, 1int,
    {
        proof {
            lemma_hir_type_view(*ty);
        }
        let nested = match ty {
            HirType::Named(_) => true,
            HirType::Array(_, _) => true,
            _ => false,
        };
        if nested {
            return self.copy_into(b, src, ty, dst, fuel);
        }
        let t = self.var_type_to_cranelift(ty)?;
        b.move_value(t, src, dst);
        Ok(())
    }

    fn copy_elements(
        &self,
        b: &mut CodeBuilder,
        val: usize,
        e: &HirType,
        dst: usize,
        stride: u32,
        n: usize,
        fuel: usize,
    ) -> (r: Result<(), MplangError>)
        ensures
            emits(
                final(b),
                r,
                g_copy_elements(
                    self.env(),
                    old(b).state(),
                    val,
                    e.deep_view(),
                    dst,
                    stride,
                    n,
                    0,
                    fuel,
                ),
            ),
        decreases fuel, 0int, e, 2int,
    {
        let ghost goal = g_copy_elements(
            self.env(),
            b.state(),
            val,
            e.deep_view(),
            dst,
            stride,
            n,
            0,
            fuel,
        );
        for i in 0..n
            invariant
                goal == g_copy_elements(
                    self.env(),
                    old(b).state(),
                    val,
                    e.deep_view(),
                    dst,
                    stride,
                    n,
                    0,
                    fuel,
                ),
                goal == g_copy_elements(
                    self.env(),
                    b.state(),
                    val,
                    e.deep_view(),
                    dst,
                    stride,
                    n,
                    i,
                    fuel,
                ),
        {
            let off: i64 = offset_of(stride, i)?;
            let src: usize = b.push(Step::Offset(val, off));
            let to: usize = b.push(Step::Offset(dst, off));
            self.copy_part(b, src, e, to, fuel)?;
        }
        Ok(())
    }

    fn copy_fields(
        &self,
        b: &mut CodeBuilder,
        val: usize,
        fs: &Vec<StructFieldLayout>,
        dst: usize,
        fuel: usize,
    ) -> (r: Result<(), MplangError>)
        ensures
            emits(
                final(b),
                r,
                g_copy_fields(self.env(), old(b).state(), val, fs.deep_view(), dst, 0, fuel),
            ),
        decreases fuel, 1int, fs, 0int,
    {
        let ghost goal = g_copy_fields(
            self.env(),
            b.state(),
            val,
            fs.deep_view(),
            dst,
            0,
            fuel,
        );
        for i in 0..fs.len()
            invariant
                goal == g_copy_fields(
                    self.env(),
                    old(b).state(),
                    val,
                    fs.deep_view(),
                    dst,
                    0,
                    fuel,
                ),
                goal == g_copy_fields(
                    self.env(),
                    b.state(),
                    val,
                    fs.deep_view(),
                    dst,
                    i as int,
                    fuel,
                ),
        {
            let src: usize = b.push(Step::Offset(val, fs[i].offset as i64));
            let to: usize = b.push(Step::Offset(dst, fs[i].offset as i64));
            self.copy_part(b, src, &fs[i].field_type, to, fuel)?;
        }
        Ok(())
    }

    /// Writes a value of a type to an address.
    pub fn copy_value_to(
        &self,
        b: &mut CodeBuilder,
        val: usize,
        ty: &HirType,
        dst: usize,
    ) -> (r: Result<
        (),
        MplangError,
    >)
        ensures
            emits(
                final(b),
                r,
                g_copy_to(
                    self.env(),
                    old(b).state(),
                    val,
                    ty.deep_view(),
                    dst,
                    self.env().depth,
                ),
            ),
    {
        self.copy_into(b, val, ty, dst, self.depth)
    }

    /// A copy of a value: an aggregate gets room of its own.
    pub fn copy_value(&self, b: &mut CodeBuilder, val: usize, ty: &HirType) -> (r: Result<
        usize,
        MplangError,
    >)
        ensures
            emits(final(b), r, g_copy(self.env(), old(b).state(), val, ty.deep_view())),
    {
        if !Self::needs_sret(ty) {
            return Ok(val);
        }
        let size: u32 = self.var_type_size(ty)?;
        if size == 0 {
            return Ok(val);
        }
        let ptr: usize = b.room(size);
        self.copy_value_to(b, val, ty, ptr)?;
        Ok(ptr)
    }

    /// The value of a type at an address.
    pub(super) fn read_value_at(
        &self,
        b: &mut CodeBuilder,
        addr: usize,
        ty: &HirType,
    ) -> (r: Result<
        usize,
        MplangError,
    >)
        ensures
            emits(final(b), r, g_read(self.env(), old(b).state(), addr, ty.deep_view())),
    {
        proof {
            lemma_hir_type_view(*ty);
        }
        match ty {
            HirType::Named(_) => Ok(addr),
            HirType::Array(_, _) => Ok(addr),
            _ => {
                let t = self.var_type_to_cranelift(ty)?;
                let v: usize = b.push(Step::Load(t, addr));
                self.copy_value(b, v, ty)
            },
        }
    }

    /// Keeps a value as a local variable.
    pub(super) fn bind_local(
        &self,
        b: &mut CodeBuilder,
        d: DefId,
        ty: &HirType,
        val: usize,
        addr_taken: bool,
    ) -> (r: Result<(), MplangError>)
        ensures
            emits(
                final(b),
                r,
                g_bind(self.env(), old(b).state(), d, ty.deep_view(), val, addr_taken),
            ),
    {
        if addr_taken && !Self::needs_sret(ty) {
            let size: u32 = self.var_type_size(ty)?;
            let align: u32 = self.var_type_align(ty)?;
            let slot: usize = b.push(Step::CreateSlot(size, align as u8));
            let dst: usize = b.push(Step::SlotAddr(slot));
            b.push(Step::Store(val, dst));
            b.vars.insert(d, LocalVar { var: None, slot: Some(slot), ty: ty.clone() });
        } else {
            let t = self.var_type_to_cranelift(ty)?;
            let var: usize = b.push(Step::DeclareVar(t));
            b.push(Step::SetVar(var, val));
            b.vars.insert(d, LocalVar { var: Some(var), slot: None, ty: ty.clone() });
        }
        Ok(())
    }
}

} // verus!
