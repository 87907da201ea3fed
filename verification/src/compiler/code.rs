//! Code as a list of steps, and the memory layout of types.

use crate::hir::{DefId, HirType, HirTypeV};
use vstd::prelude::*;

verus! {

/// The type of a value in machine code.
#[derive(Debug, Clone, Copy, PartialEq, Eq, Structural)]
pub enum IrType {
    I8,
    I64,
    /// An integer of pointer width.
    Ptr,
}

impl DeepView for IrType {
    type V = IrType;

    open spec fn deep_view(&self) -> IrType {
        *self
    }
}

/// What a comparison tests; integers are signed.
#[derive(Debug, Clone, Copy, PartialEq, Eq, Structural)]
pub enum Condition {
    Equal,
    NotEqual,
    Less,
    LessEqual,
    Greater,
    GreaterEqual,
}

impl DeepView for Condition {
    type V = Condition;

    open spec fn deep_view(&self) -> Condition {
        *self
    }
}

/// Whether a symbol is defined elsewhere, here, or here for others.
#[derive(Debug, Clone, Copy, PartialEq, Eq, Structural)]
pub enum Linkage {
    Import,
    Local,
    Export,
}

impl DeepView for Linkage {
    type V = Linkage;

    open spec fn deep_view(&self) -> Linkage {
        *self
    }
}

/// Data that code refers to.
#[derive(Debug, Clone, Copy, PartialEq, Eq, Structural)]
pub enum DataRef {
    /// A string literal, by its number.
    Text(usize),
    Global(DefId),
}

impl DeepView for DataRef {
    type V = DataRef;

    open spec fn deep_view(&self) -> DataRef {
        *self
    }
}

/// The types of the parameters and of the result of a function in machine code.
#[derive(Debug, PartialEq, Eq)]
pub struct CodeSignature {
    pub params: Vec<IrType>,
    pub returns: Option<IrType>,
}

/// Model of [`CodeSignature`].
#[verifier::ext_equal]
pub struct CodeSignatureV {
    pub params: Seq<IrType>,
    pub returns: Option<IrType>,
}

/// The model of a [`CodeSignature`], component by component.
pub open spec fn code_signature_view(e: CodeSignature) -> CodeSignatureV {
    CodeSignatureV { params: e.params.deep_view(), returns: e.returns.deep_view() }
}

impl DeepView for CodeSignature {
    type V = CodeSignatureV;

    open spec fn deep_view(&self) -> CodeSignatureV {
        code_signature_view(*self)
    }
}

impl Clone for CodeSignature {
    fn clone(&self) -> (r: Self)
        ensures
            r.deep_view() == self.deep_view(),
    {
        let mut out1: Vec<IrType> = Vec::new();
        for i1 in 0..self.params.len()
            invariant
                out1@.len() == i1,
                forall|j: int| 0 <= j < i1 ==> #[trigger] out1@[j].deep_view() == self.params@[j].deep_view(),

        {

            let item = self.params[i1];
            out1.push(item);
        }
        proof { assert(out1.deep_view() =~= self.params.deep_view()); }
        let opt2: Option<IrType> = match &self.returns {
            Some(x2) => {

                Some(*x2)
            }
            None => None,
        };
        CodeSignature { params: out1, returns: opt2 }
    }
}

/// One step in building a function. A step is named by its position; where a step
/// takes a value, a block, a variable or a slot, it takes the position of the
/// step that made it.
#[derive(Debug, PartialEq, Eq)]
pub enum Step {
    CreateBlock,
    EnterFunction(usize),
    Param(usize, usize),
    AddPointerParam(usize),
    SwitchTo(usize),
    Seal(usize),
    Jump(usize, Option<usize>),
    Branch(usize, usize, usize),
    Return(Option<usize>),
    Const(IrType, i64),
    Symbol(DataRef),
    Add(usize, usize),
    Sub(usize, usize),
    Mul(usize, usize),
    Div(usize, usize),
    Offset(usize, i64),
    Compare(Condition, usize, usize),
    Extend(usize),
    Load(IrType, usize),
    Store(usize, usize),
    CreateSlot(u32, u8),
    SlotAddr(usize),
    DeclareVar(IrType),
    SetVar(usize, usize),
    GetVar(usize),
    Call {
        callee: DefId,
        signature: Option<CodeSignature>,
        args: Vec<usize>,
    },
}

/// Model of [`Step`].
#[verifier::ext_equal]
pub enum StepV {
    CreateBlock,
    EnterFunction(usize),
    Param(usize, usize),
    AddPointerParam(usize),
    SwitchTo(usize),
    Seal(usize),
    Jump(usize, Option<usize>),
    Branch(usize, usize, usize),
    Return(Option<usize>),
    Const(IrType, i64),
    Symbol(DataRef),
    Add(usize, usize),
    Sub(usize, usize),
    Mul(usize, usize),
    Div(usize, usize),
    Offset(usize, i64),
    Compare(Condition, usize, usize),
    Extend(usize),
    Load(IrType, usize),
    Store(usize, usize),
    CreateSlot(u32, u8),
    SlotAddr(usize),
    DeclareVar(IrType),
    SetVar(usize, usize),
    GetVar(usize),
    Call {
        callee: DefId,
        signature: Option<CodeSignatureV>,
        args: Seq<usize>,
    },
}

/// The model of a [`Step`], component by component.
pub open spec fn step_view(e: Step) -> StepV {
    match e {
        Step::CreateBlock => StepV::CreateBlock,
        Step::EnterFunction(f0) => StepV::EnterFunction(f0),
        Step::Param(f0, f1) => StepV::Param(f0, f1),
        Step::AddPointerParam(f0) => StepV::AddPointerParam(f0),
        Step::SwitchTo(f0) => StepV::SwitchTo(f0),
        Step::Seal(f0) => StepV::Seal(f0),
        Step::Jump(f0, f1) => StepV::Jump(f0, f1.deep_view()),
        Step::Branch(f0, f1, f2) => StepV::Branch(f0, f1, f2),
        Step::Return(f0) => StepV::Return(f0.deep_view()),
        Step::Const(f0, f1) => StepV::Const(f0, f1),
        Step::Symbol(f0) => StepV::Symbol(f0),
        Step::Add(f0, f1) => StepV::Add(f0, f1),
        Step::Sub(f0, f1) => StepV::Sub(f0, f1),
        Step::Mul(f0, f1) => StepV::Mul(f0, f1),
        Step::Div(f0, f1) => StepV::Div(f0, f1),
        Step::Offset(f0, f1) => StepV::Offset(f0, f1),
        Step::Compare(f0, f1, f2) => StepV::Compare(f0, f1, f2),
        Step::Extend(f0) => StepV::Extend(f0),
        Step::Load(f0, f1) => StepV::Load(f0, f1),
        Step::Store(f0, f1) => StepV::Store(f0, f1),
        Step::CreateSlot(f0, f1) => StepV::CreateSlot(f0, f1),
        Step::SlotAddr(f0) => StepV::SlotAddr(f0),
        Step::DeclareVar(f0) => StepV::DeclareVar(f0),
        Step::SetVar(f0, f1) => StepV::SetVar(f0, f1),
        Step::GetVar(f0) => StepV::GetVar(f0),
        Step::Call { callee, signature, args } => StepV::Call { callee, signature: signature.deep_view(), args: args.deep_view() },
    }
}

impl DeepView for Step {
    type V = StepV;

    open spec fn deep_view(&self) -> StepV {
        step_view(*self)
    }
}

impl Clone for Step {
    fn clone(&self) -> (r: Self)
        ensures
            r.deep_view() == self.deep_view(),
    {
        match self {
            Step::CreateBlock => {

                Step::CreateBlock
            }
            Step::EnterFunction(f0) => {

                Step::EnterFunction(*f0)
            }
            Step::Param(f0, f1) => {

                Step::Param(*f0, *f1)
            }
            Step::AddPointerParam(f0) => {

                Step::AddPointerParam(*f0)
            }
            Step::SwitchTo(f0) => {

                Step::SwitchTo(*f0)
            }
            Step::Seal(f0) => {

                Step::Seal(*f0)
            }
            Step::Jump(f0, f1) => {
                let opt1: Option<usize> = match f1 {
                    Some(x1) => {

                        Some(*x1)
                    }
                    None => None,
                };
                Step::Jump(*f0, opt1)
            }
            Step::Branch(f0, f1, f2) => {

                Step::Branch(*f0, *f1, *f2)
            }
            Step::Return(f0) => {
                let opt2: Option<usize> = match f0 {
                    Some(x2) => {

                        Some(*x2)
                    }
                    None => None,
                };
                Step::Return(opt2)
            }
            Step::Const(f0, f1) => {

                Step::Const(*f0, *f1)
            }
            Step::Symbol(f0) => {

                Step::Symbol(*f0)
            }
            Step::Add(f0, f1) => {

                Step::Add(*f0, *f1)
            }
            Step::Sub(f0, f1) => {

                Step::Sub(*f0, *f1)
            }
            Step::Mul(f0, f1) => {

                Step::Mul(*f0, *f1)
            }
            Step::Div(f0, f1) => {

                Step::Div(*f0, *f1)
            }
            Step::Offset(f0, f1) => {

                Step::Offset(*f0, *f1)
            }
            Step::Compare(f0, f1, f2) => {

                Step::Compare(*f0, *f1, *f2)
            }
            Step::Extend(f0) => {

                Step::Extend(*f0)
            }
            Step::Load(f0, f1) => {

                Step::Load(*f0, *f1)
            }
            Step::Store(f0, f1) => {

                Step::Store(*f0, *f1)
            }
            Step::CreateSlot(f0, f1) => {

                Step::CreateSlot(*f0, *f1)
            }
            Step::SlotAddr(f0) => {

                Step::SlotAddr(*f0)
            }
            Step::DeclareVar(f0) => {

                Step::DeclareVar(*f0)
            }
            Step::SetVar(f0, f1) => {

                Step::SetVar(*f0, *f1)
            }
            Step::GetVar(f0) => {

                Step::GetVar(*f0)
            }
            Step::Call { callee, signature, args } => {
                let opt3: Option<CodeSignature> = match signature {
                    Some(x3) => {

                        Some(x3.clone())
                    }
                    None => None,
                };
                let mut out4: Vec<usize> = Vec::new();
                for i4 in 0..args.len()
                    invariant
                        out4@.len() == i4,
                        forall|j: int| 0 <= j < i4 ==> #[trigger] out4@[j].deep_view() == args@[j].deep_view(),

                {

                    let item = args[i4];
                    out4.push(item);
                }
                proof { assert(out4.deep_view() =~= args.deep_view()); }
                Step::Call { callee: *callee, signature: opt3, args: out4 }
            }
        }
    }
}

/// What is known of a function.
#[derive(Debug, PartialEq, Eq)]
pub struct FuncInfo {
    pub name: String,
    pub param_types: Vec<HirType>,
    pub ret_ty: HirType,
    pub is_variadic: bool,
}

/// Model of [`FuncInfo`].
#[verifier::ext_equal]
pub struct FuncInfoV {
    pub name: Seq<char>,
    pub param_types: Seq<HirTypeV>,
    pub ret_ty: HirTypeV,
    pub is_variadic: bool,
}

/// The model of a [`FuncInfo`], component by component.
pub open spec fn func_info_view(e: FuncInfo) -> FuncInfoV {
    FuncInfoV { name: e.name@, param_types: e.param_types.deep_view(), ret_ty: e.ret_ty.deep_view(), is_variadic: e.is_variadic }
}

impl DeepView for FuncInfo {
    type V = FuncInfoV;

    open spec fn deep_view(&self) -> FuncInfoV {
        func_info_view(*self)
    }
}

impl Clone for FuncInfo {
    fn clone(&self) -> (r: Self)
        ensures
            r.deep_view() == self.deep_view(),
    {
        let mut out1: Vec<HirType> = Vec::new();
        for i1 in 0..self.param_types.len()
            invariant
                out1@.len() == i1,
                forall|j: int| 0 <= j < i1 ==> #[trigger] out1@[j].deep_view() == self.param_types@[j].deep_view(),

        {

            let item = self.param_types[i1].clone();
            out1.push(item);
        }
        proof { assert(out1.deep_view() =~= self.param_types.deep_view()); }
        FuncInfo { name: self.name.clone(), param_types: out1, ret_ty: self.ret_ty.clone(), is_variadic: self.is_variadic }
    }
}

/// Where a field lies in memory.
#[derive(Debug, PartialEq, Eq)]
pub struct StructFieldLayout {
    pub field_def_id: DefId,
    pub field_type: HirType,
    pub offset: u32,
}

/// Model of [`StructFieldLayout`].
#[verifier::ext_equal]
pub struct StructFieldLayoutV {
    pub field_def_id: DefId,
    pub field_type: HirTypeV,
    pub offset: u32,
}

/// The model of a [`StructFieldLayout`], component by component.
pub open spec fn struct_field_layout_view(e: StructFieldLayout) -> StructFieldLayoutV {
    StructFieldLayoutV { field_def_id: e.field_def_id, field_type: e.field_type.deep_view(), offset: e.offset }
}

impl DeepView for StructFieldLayout {
    type V = StructFieldLayoutV;

    open spec fn deep_view(&self) -> StructFieldLayoutV {
        struct_field_layout_view(*self)
    }
}

impl Clone for StructFieldLayout {
    fn clone(&self) -> (r: Self)
        ensures
            r.deep_view() == self.deep_view(),
    {

        StructFieldLayout { field_def_id: self.field_def_id, field_type: self.field_type.clone(), offset: self.offset }
    }
}

/// Where the fields of a struct lie in memory.
#[derive(Debug, PartialEq, Eq)]
pub struct StructLayout {
    pub fields: Vec<StructFieldLayout>,
    pub end: u32,
    pub align: u32,
}

/// Model of [`StructLayout`].
#[verifier::ext_equal]
pub struct StructLayoutV {
    pub fields: Seq<StructFieldLayoutV>,
    pub end: u32,
    pub align: u32,
}

/// The model of a [`StructLayout`], component by component.
pub open spec fn struct_layout_view(e: StructLayout) -> StructLayoutV {
    StructLayoutV { fields: e.fields.deep_view(), end: e.end, align: e.align }
}

impl DeepView for StructLayout {
    type V = StructLayoutV;

    open spec fn deep_view(&self) -> StructLayoutV {
        struct_layout_view(*self)
    }
}

impl Clone for StructLayout {
    fn clone(&self) -> (r: Self)
        ensures
            r.deep_view() == self.deep_view(),
    {
        let mut out1: Vec<StructFieldLayout> = Vec::new();
        for i1 in 0..self.fields.len()
            invariant
                out1@.len() == i1,
                forall|j: int| 0 <= j < i1 ==> #[trigger] out1@[j].deep_view() == self.fields@[j].deep_view(),

        {

            let item = self.fields[i1].clone();
            out1.push(item);
        }
        proof { assert(out1.deep_view() =~= self.fields.deep_view()); }
        StructLayout { fields: out1, end: self.end, align: self.align }
    }
}

/// Where the fields of a variant lie in memory.
#[derive(Debug, PartialEq, Eq)]
pub struct VariantLayout {
    pub name: String,
    pub tag: u32,
    pub payload_offset: u32,
    pub payload_size: u32,
    pub fields: Vec<StructFieldLayout>,
}

/// Model of [`VariantLayout`].
#[verifier::ext_equal]
pub struct VariantLayoutV {
    pub name: Seq<char>,
    pub tag: u32,
    pub payload_offset: u32,
    pub payload_size: u32,
    pub fields: Seq<StructFieldLayoutV>,
}

/// The model of a [`VariantLayout`], component by component.
pub open spec fn variant_layout_view(e: VariantLayout) -> VariantLayoutV {
    VariantLayoutV { name: e.name@, tag: e.tag, payload_offset: e.payload_offset, payload_size: e.payload_size, fields: e.fields.deep_view() }
}

impl DeepView for VariantLayout {
    type V = VariantLayoutV;

    open spec fn deep_view(&self) -> VariantLayoutV {
        variant_layout_view(*self)
    }
}

impl Clone for VariantLayout {
    fn clone(&self) -> (r: Self)
        ensures
            r.deep_view() == self.deep_view(),
    {
        let mut out1: Vec<StructFieldLayout> = Vec::new();
        for i1 in 0..self.fields.len()
            invariant
                out1@.len() == i1,
                forall|j: int| 0 <= j < i1 ==> #[trigger] out1@[j].deep_view() == self.fields@[j].deep_view(),

        {

            let item = self.fields[i1].clone();
            out1.push(item);
        }
        proof { assert(out1.deep_view() =~= self.fields.deep_view()); }
        VariantLayout { name: self.name.clone(), tag: self.tag, payload_offset: self.payload_offset, payload_size: self.payload_size, fields: out1 }
    }
}

/// The memory layout of an enumeration: a tag, then the payload.
#[derive(Debug, PartialEq, Eq)]
pub struct EnumLayout {
    pub variants: Vec<VariantLayout>,
    pub size: u32,
    pub align: u32,
    pub max_payload_align: u32,
}

/// Model of [`EnumLayout`].
#[verifier::ext_equal]
pub struct EnumLayoutV {
    pub variants: Seq<VariantLayoutV>,
    pub size: u32,
    pub align: u32,
    pub max_payload_align: u32,
}

/// The model of a [`EnumLayout`], component by component.
pub open spec fn enum_layout_view(e: EnumLayout) -> EnumLayoutV {
    EnumLayoutV { variants: e.variants.deep_view(), size: e.size, align: e.align, max_payload_align: e.max_payload_align }
}

impl DeepView for EnumLayout {
    type V = EnumLayoutV;

    open spec fn deep_view(&self) -> EnumLayoutV {
        enum_layout_view(*self)
    }
}

impl Clone for EnumLayout {
    fn clone(&self) -> (r: Self)
        ensures
            r.deep_view() == self.deep_view(),
    {
        let mut out1: Vec<VariantLayout> = Vec::new();
        for i1 in 0..self.variants.len()
            invariant
                out1@.len() == i1,
                forall|j: int| 0 <= j < i1 ==> #[trigger] out1@[j].deep_view() == self.variants@[j].deep_view(),

        {

            let item = self.variants[i1].clone();
            out1.push(item);
        }
        proof { assert(out1.deep_view() =~= self.variants.deep_view()); }
        EnumLayout { variants: out1, size: self.size, align: self.align, max_payload_align: self.max_payload_align }
    }
}

/// Where a local variable or a parameter is kept.
#[derive(Debug, PartialEq, Eq)]
pub struct LocalVar {
    pub var: Option<usize>,
    pub slot: Option<usize>,
    pub ty: HirType,
}

/// Model of [`LocalVar`].
#[verifier::ext_equal]
pub struct LocalVarV {
    pub var: Option<usize>,
    pub slot: Option<usize>,
    pub ty: HirTypeV,
}

/// The model of a [`LocalVar`], component by component.
pub open spec fn local_var_view(e: LocalVar) -> LocalVarV {
    LocalVarV { var: e.var.deep_view(), slot: e.slot.deep_view(), ty: e.ty.deep_view() }
}

impl DeepView for LocalVar {
    type V = LocalVarV;

    open spec fn deep_view(&self) -> LocalVarV {
        local_var_view(*self)
    }
}

impl Clone for LocalVar {
    fn clone(&self) -> (r: Self)
        ensures
            r.deep_view() == self.deep_view(),
    {
        let opt1: Option<usize> = match &self.var {
            Some(x1) => {

                Some(*x1)
            }
            None => None,
        };
        let opt2: Option<usize> = match &self.slot {
            Some(x2) => {

                Some(*x2)
            }
            None => None,
        };
        LocalVar { var: opt1, slot: opt2, ty: self.ty.clone() }
    }
}

/// A global variable with its initial bytes.
#[derive(Debug, PartialEq, Eq)]
pub struct GlobalData {
    pub def_id: DefId,
    pub name: String,
    pub bytes: Vec<u8>,
}

/// Model of [`GlobalData`].
#[verifier::ext_equal]
pub struct GlobalDataV {
    pub def_id: DefId,
    pub name: Seq<char>,
    pub bytes: Seq<u8>,
}

/// The model of a [`GlobalData`], component by component.
pub open spec fn global_data_view(e: GlobalData) -> GlobalDataV {
    GlobalDataV { def_id: e.def_id, name: e.name@, bytes: e.bytes.deep_view() }
}

impl DeepView for GlobalData {
    type V = GlobalDataV;

    open spec fn deep_view(&self) -> GlobalDataV {
        global_data_view(*self)
    }
}

impl Clone for GlobalData {
    fn clone(&self) -> (r: Self)
        ensures
            r.deep_view() == self.deep_view(),
    {
        let mut out1: Vec<u8> = Vec::new();
        for i1 in 0..self.bytes.len()
            invariant
                out1@.len() == i1,
                forall|j: int| 0 <= j < i1 ==> #[trigger] out1@[j].deep_view() == self.bytes@[j].deep_view(),

        {

            let item = self.bytes[i1];
            out1.push(item);
        }
        proof { assert(out1.deep_view() =~= self.bytes.deep_view()); }
        GlobalData { def_id: self.def_id, name: self.name.clone(), bytes: out1 }
    }
}

/// The declaration of a function.
#[derive(Debug, PartialEq, Eq)]
pub struct FuncDecl {
    pub def_id: DefId,
    pub symbol: String,
    pub linkage: Linkage,
    pub signature: CodeSignature,
}

/// Model of [`FuncDecl`].
#[verifier::ext_equal]
pub struct FuncDeclV {
    pub def_id: DefId,
    pub symbol: Seq<char>,
    pub linkage: Linkage,
    pub signature: CodeSignatureV,
}

/// The model of a [`FuncDecl`], component by component.
pub open spec fn func_decl_view(e: FuncDecl) -> FuncDeclV {
    FuncDeclV { def_id: e.def_id, symbol: e.symbol@, linkage: e.linkage, signature: e.signature.deep_view() }
}

impl DeepView for FuncDecl {
    type V = FuncDeclV;

    open spec fn deep_view(&self) -> FuncDeclV {
        func_decl_view(*self)
    }
}

impl Clone for FuncDecl {
    fn clone(&self) -> (r: Self)
        ensures
            r.deep_view() == self.deep_view(),
    {

        FuncDecl { def_id: self.def_id, symbol: self.symbol.clone(), linkage: self.linkage, signature: self.signature.clone() }
    }
}

/// The table of the methods with which a type implements a trait.
#[derive(Debug, PartialEq, Eq)]
pub struct VTableData {
    pub name: String,
    pub size: u32,
    pub entries: Vec<(u32, DefId)>,
}

/// Model of [`VTableData`].
#[verifier::ext_equal]
pub struct VTableDataV {
    pub name: Seq<char>,
    pub size: u32,
    pub entries: Seq<(u32, DefId)>,
}

/// The model of a [`VTableData`], component by component.
pub open spec fn v_table_data_view(e: VTableData) -> VTableDataV {
    VTableDataV { name: e.name@, size: e.size, entries: e.entries.deep_view() }
}

impl DeepView for VTableData {
    type V = VTableDataV;

    open spec fn deep_view(&self) -> VTableDataV {
        v_table_data_view(*self)
    }
}

impl Clone for VTableData {
    fn clone(&self) -> (r: Self)
        ensures
            r.deep_view() == self.deep_view(),
    {
        let mut out1: Vec<(u32, DefId)> = Vec::new();
        for i1 in 0..self.entries.len()
            invariant
                out1@.len() == i1,
                forall|j: int| 0 <= j < i1 ==> #[trigger] out1@[j].deep_view() == self.entries@[j].deep_view(),

        {

            let item = (self.entries[i1].0, self.entries[i1].1);
            out1.push(item);
        }
        proof { assert(out1.deep_view() =~= self.entries.deep_view()); }
        VTableData { name: self.name.clone(), size: self.size, entries: out1 }
    }
}

/// The code of a function.
#[derive(Debug, PartialEq, Eq)]
pub struct FunctionCode {
    pub def_id: DefId,
    pub steps: Vec<Step>,
}

/// Model of [`FunctionCode`].
#[verifier::ext_equal]
pub struct FunctionCodeV {
    pub def_id: DefId,
    pub steps: Seq<StepV>,
}

/// The model of a [`FunctionCode`], component by component.
pub open spec fn function_code_view(e: FunctionCode) -> FunctionCodeV {
    FunctionCodeV { def_id: e.def_id, steps: e.steps.deep_view() }
}

impl DeepView for FunctionCode {
    type V = FunctionCodeV;

    open spec fn deep_view(&self) -> FunctionCodeV {
        function_code_view(*self)
    }
}

impl Clone for FunctionCode {
    fn clone(&self) -> (r: Self)
        ensures
            r.deep_view() == self.deep_view(),
    {
        let mut out1: Vec<Step> = Vec::new();
        for i1 in 0..self.steps.len()
            invariant
                out1@.len() == i1,
                forall|j: int| 0 <= j < i1 ==> #[trigger] out1@[j].deep_view() == self.steps@[j].deep_view(),

        {

            let item = self.steps[i1].clone();
            out1.push(item);
        }
        proof { assert(out1.deep_view() =~= self.steps.deep_view()); }
        FunctionCode { def_id: self.def_id, steps: out1 }
    }
}

/// A program in machine-independent code.
#[derive(Debug, PartialEq, Eq)]
pub struct Program {
    pub globals: Vec<GlobalData>,
    pub functions: Vec<FuncDecl>,
    pub vtables: Vec<VTableData>,
    pub code: Vec<FunctionCode>,
    pub strings: Vec<String>,
}

/// Model of [`Program`].
#[verifier::ext_equal]
pub struct ProgramV {
    pub globals: Seq<GlobalDataV>,
    pub functions: Seq<FuncDeclV>,
    pub vtables: Seq<VTableDataV>,
    pub code: Seq<FunctionCodeV>,
    pub strings: Seq<Seq<char>>,
}

/// The model of a [`Program`], component by component.
pub open spec fn program_view(e: Program) -> ProgramV {
    ProgramV { globals: e.globals.deep_view(), functions: e.functions.deep_view(), vtables: e.vtables.deep_view(), code: e.code.deep_view(), strings: e.strings.deep_view() }
}

impl DeepView for Program {
    type V = ProgramV;

    open spec fn deep_view(&self) -> ProgramV {
        program_view(*self)
    }
}

impl Clone for Program {
    fn clone(&self) -> (r: Self)
        ensures
            r.deep_view() == self.deep_view(),
    {
        let mut out1: Vec<GlobalData> = Vec::new();
        for i1 in 0..self.globals.len()
            invariant
                out1@.len() == i1,
                forall|j: int| 0 <= j < i1 ==> #[trigger] out1@[j].deep_view() == self.globals@[j].deep_view(),

        {

            let item = self.globals[i1].clone();
            out1.push(item);
        }
        proof { assert(out1.deep_view() =~= self.globals.deep_view()); }
        let mut out2: Vec<FuncDecl> = Vec::new();
        for i2 in 0..self.functions.len()
            invariant
                out2@.len() == i2,
                forall|j: int| 0 <= j < i2 ==> #[trigger] out2@[j].deep_view() == self.functions@[j].deep_view(),

        {

            let item = self.functions[i2].clone();
            out2.push(item);
        }
        proof { assert(out2.deep_view() =~= self.functions.deep_view()); }
        let mut out3: Vec<VTableData> = Vec::new();
        for i3 in 0..self.vtables.len()
            invariant
                out3@.len() == i3,
                forall|j: int| 0 <= j < i3 ==> #[trigger] out3@[j].deep_view() == self.vtables@[j].deep_view(),

        {

            let item = self.vtables[i3].clone();
            out3.push(item);
        }
        proof { assert(out3.deep_view() =~= self.vtables.deep_view()); }
        let mut out4: Vec<FunctionCode> = Vec::new();
        for i4 in 0..self.code.len()
            invariant
                out4@.len() == i4,
                forall|j: int| 0 <= j < i4 ==> #[trigger] out4@[j].deep_view() == self.code@[j].deep_view(),

        {

            let item = self.code[i4].clone();
            out4.push(item);
        }
        proof { assert(out4.deep_view() =~= self.code.deep_view()); }
        let mut out5: Vec<String> = Vec::new();
        for i5 in 0..self.strings.len()
            invariant
                out5@.len() == i5,
                forall|j: int| 0 <= j < i5 ==> #[trigger] out5@[j].deep_view() == self.strings@[j].deep_view(),

        {

            let item = self.strings[i5].clone();
            out5.push(item);
        }
        proof { assert(out5.deep_view() =~= self.strings.deep_view()); }
        Program { globals: out1, functions: out2, vtables: out3, code: out4, strings: out5 }
    }
}


} // verus!
