//! The calls into Cranelift.
//!
//! Blocks, values, variables, slots and the other things that Cranelift makes
//! are held by their numbers, as `from_u32` and `as_u32` of its entities give
//! them. [`history`] is what a builder was asked so far; each function here says
//! which call it adds to it. Where a call is misplaced, Cranelift panics, some
//! of it in debug builds only; what must hold before each call rules that out.

use crate::backend::trace::{
    all_known, can_reach, function_shape, grows, has_block, has_name, has_room, has_slot,
    has_symbol, is_complete, is_open, is_width, known, most_params, params_of, shape_of, site,
    var_count, var_width, width_of, Convention, Event, Operation, Shape, Trace,
};
use crate::compiler::code::Condition;
use cranelift_codegen::ir;
use cranelift_codegen::ir::condcodes::IntCC;
use cranelift_codegen::ir::immediates::Imm64;
use cranelift_codegen::ir::{
    AbiParam, Block, BlockArg, ExtFuncData, ExternalName, FuncRef, Function, GlobalValue,
    GlobalValueData, InstBuilder, MemFlagsData, SigRef, StackSlot, StackSlotData, StackSlotKind,
    Type, UserExternalName, UserExternalNameRef, UserFuncName, Value,
};
use cranelift_codegen::isa::CallConv;
use cranelift_frontend::{FunctionBuilder, FunctionBuilderContext, Variable};
use vstd::prelude::*;

verus! {

/// Cranelift's builder of a function.
#[verifier::external_type_specification]
#[verifier::external_body]
pub struct ExFunctionBuilder<'a>(cranelift_frontend::FunctionBuilder<'a>);

/// The memory that a builder works with.
#[verifier::external_type_specification]
#[verifier::external_body]
pub struct ExFunctionBuilderContext(cranelift_frontend::FunctionBuilderContext);

/// Cranelift's function.
#[verifier::external_type_specification]
#[verifier::external_body]
pub struct ExFunction(cranelift_codegen::ir::Function);

/// Cranelift's signature.
#[verifier::external_type_specification]
#[verifier::external_body]
pub struct ExSignature(cranelift_codegen::ir::Signature);

/// What a builder was asked so far.
pub uninterp spec fn history(b: FunctionBuilder) -> Trace;

/// The calls that a function was built by.
pub uninterp spec fn code_of(f: Function) -> Trace;

/// What a signature holds.
pub uninterp spec fn contents(s: ir::Signature) -> Shape;

/// Whether no builder has left anything in this memory.
pub uninterp spec fn is_clear(c: FunctionBuilderContext) -> bool;

// Signatures and functions

/// `Signature::new`: a signature without parameters and results.
#[verifier::external_body]
pub(crate) fn new_signature(convention: Convention) -> (r: ir::Signature)
    ensures
        contents(r) == (Shape { convention, params: Seq::empty(), returns: Seq::empty() }),
{
    ir::Signature::new(match convention {
            Convention::SystemV => CallConv::SystemV,
            Convention::WindowsFastcall => CallConv::WindowsFastcall,
    })
}

/// `AbiParam::new`, put at the end of the parameters of a signature: an integer
/// parameter of `width` bytes. `Type::int_with_byte_size` knows the widths that
/// are allowed.
#[verifier::external_body]
pub(crate) fn add_signature_param(s: &mut ir::Signature, width: u16)
    requires
        is_width(width),
    ensures
        contents(*final(s)) == (
            Shape { params: contents(*old(s)).params.push(width), ..contents(*old(s)) }
        ),
{
    s.params.push(AbiParam::new(Type::int_with_byte_size(width).unwrap()));
}

/// `AbiParam::new`, put at the end of the results of a signature.
#[verifier::external_body]
pub(crate) fn add_signature_result(s: &mut ir::Signature, width: u16)
    requires
        is_width(width),
    ensures
        contents(*final(s)) == (
            Shape { returns: contents(*old(s)).returns.push(width), ..contents(*old(s)) }
        ),
{
    s.returns.push(AbiParam::new(Type::int_with_byte_size(width).unwrap()));
}

/// `Function::with_name_signature`: a function without code, named by namespace
/// 0 and its number.
#[verifier::external_body]
pub(crate) fn new_function(index: u32, s: ir::Signature) -> (r: Function)
    ensures
        code_of(r) == (Trace { index, shape: contents(s), events: Seq::empty() }),
{
    Function::with_name_signature(UserFuncName::user(0, index), s)
}

/// `FunctionBuilderContext::new`: memory that nothing was left in.
#[verifier::external_body]
pub(crate) fn new_context() -> (r: FunctionBuilderContext)
    ensures
        is_clear(r),
{
    FunctionBuilderContext::new()
}

/// `FunctionBuilder::new`: a builder for a function without code. It panics in
/// debug builds where its memory is not clear.
#[verifier::external_body]
pub(crate) fn begin<'a>(
    f: &'a mut Function,
    c: &'a mut FunctionBuilderContext,
) -> (r: FunctionBuilder<'a>)
    requires
        is_clear(*old(c)),
        code_of(*old(f)).events.len() == 0,
    ensures
        history(r) == code_of(*old(f)),
{
    FunctionBuilder::new(f, c)
}

/// `FunctionBuilder::finalize`: the function that was built. It panics in debug
/// builds where a block with instructions does not end or is not sealed. It
/// changes the function only for values that need a stack map, which are never
/// asked for here; so the function is taken before it.
#[verifier::external_body]
pub(crate) fn finish(b: FunctionBuilder<'_>) -> (r: Function)
    requires
        is_complete(history(b)),
    ensures
        code_of(r) == history(b),
{
    let function = b.func.clone();
    b.finalize();
    function
}

// Blocks

/// `FunctionBuilder::create_block`: a new block.
#[verifier::external_body]
pub(crate) fn create_block(b: &mut FunctionBuilder<'_>) -> (r: u32)
    ensures
        grows(history(*old(b)), history(*final(b)), Event::CreateBlock { block: r }),
        !has_block(history(*old(b)).events, r),
{
    b.create_block().as_u32()
}

/// `FunctionBuilder::append_block_params_for_function_params`: a block gets a
/// parameter for each parameter of the function. It panics in debug builds
/// where the block has predecessors or instructions, and where it gets more
/// parameters than a block can have, those for variables among them.
#[verifier::external_body]
pub(crate) fn enter_function(b: &mut FunctionBuilder<'_>, block: u32)
    requires
        has_block(history(*old(b)).events, block),
        !site(history(*old(b)).events).touched.contains(block),
        params_of(history(*old(b)).events, block, history(*old(b)).shape.params).len() + history(*old(b)).shape.params.len() + var_count(history(*old(b)).events) <= most_params(),
    ensures
        grows(history(*old(b)), history(*final(b)), Event::EnterFunction { block }),
{
    b.append_block_params_for_function_params(Block::from_u32(block))
}

/// `FunctionBuilder::block_params`: a parameter of a block. The parameters that
/// a variable needs come behind those that were asked for.
#[verifier::external_body]
pub(crate) fn block_param(b: &mut FunctionBuilder<'_>, block: u32, index: usize) -> (r: u32)
    requires
        has_block(history(*old(b)).events, block),
        index < params_of(history(*old(b)).events, block, history(*old(b)).shape.params).len(),
    ensures
        grows(
            history(*old(b)),
            history(*final(b)),
            Event::Param { block, index, value: r, width: params_of(history(*old(b)).events, block, history(*old(b)).shape.params)[index as int] },
        ),
{
    b.block_params(Block::from_u32(block))[index].as_u32()
}

/// `FunctionBuilder::append_block_param`: one parameter more for a block. It
/// panics in debug builds where the block has instructions, and where it has no
/// room for a parameter.
#[verifier::external_body]
pub(crate) fn add_block_param(b: &mut FunctionBuilder<'_>, block: u32, width: u16) -> (r: u32)
    requires
        has_block(history(*old(b)).events, block),
        !site(history(*old(b)).events).touched.contains(block),
        is_width(width),
        params_of(history(*old(b)).events, block, history(*old(b)).shape.params).len() + 1 + var_count(history(*old(b)).events) <= most_params(),
    ensures
        grows(history(*old(b)), history(*final(b)), Event::AddParam { block, width, value: r }),
{
    b.append_block_param(Block::from_u32(block), Type::int_with_byte_size(width).unwrap()).as_u32()
}

/// `FunctionBuilder::switch_to_block`: instructions go to this block from now
/// on. It panics in debug builds where the block before does not end, or where
/// this one does.
#[verifier::external_body]
pub(crate) fn switch_to(b: &mut FunctionBuilder<'_>, block: u32)
    requires
        has_block(history(*old(b)).events, block),
        !site(history(*old(b)).events).filled.contains(block),
        site(history(*old(b)).events).at matches Some(at) ==> site(history(*old(b)).events).filled.contains(at),
    ensures
        grows(history(*old(b)), history(*final(b)), Event::SwitchTo { block }),
{
    b.switch_to_block(Block::from_u32(block))
}

/// `FunctionBuilder::seal_block`: nothing jumps to this block from now on. It
/// panics in debug builds where the block is sealed. A block gets at most one
/// parameter for each variable here, which it must have room for.
#[verifier::external_body]
pub(crate) fn seal(b: &mut FunctionBuilder<'_>, block: u32)
    requires
        can_reach(history(*old(b)), block),
        has_room(history(*old(b))),
    ensures
        grows(history(*old(b)), history(*final(b)), Event::Seal { block }),
{
    b.seal_block(Block::from_u32(block))
}

/// `InstBuilder::jump`: the block ends and goes on at another. It panics in
/// debug builds where the block ends already or the other is sealed.
#[verifier::external_body]
pub(crate) fn jump(b: &mut FunctionBuilder<'_>, block: u32, args: &Vec<u32>)
    requires
        is_open(history(*old(b))),
        can_reach(history(*old(b)), block),
        all_known(history(*old(b)), args@),
    ensures
        grows(history(*old(b)), history(*final(b)), Event::Jump { block, args: args@ }),
{
    let args: Vec<BlockArg> = args.iter().map(|v| BlockArg::Value(Value::from_u32(*v))).collect();
    b.ins().jump(Block::from_u32(block), &args);
}

/// `InstBuilder::brif`: the block ends and goes on at one of two others, at the
/// first where the value is not zero.
#[verifier::external_body]
pub(crate) fn branch(b: &mut FunctionBuilder<'_>, test: u32, yes: u32, no: u32)
    requires
        is_open(history(*old(b))),
        can_reach(history(*old(b)), yes),
        can_reach(history(*old(b)), no),
        known(history(*old(b)), test),
    ensures
        grows(history(*old(b)), history(*final(b)), Event::Branch { test, yes, no }),
{
    b.ins().brif(Value::from_u32(test), Block::from_u32(yes), &[], Block::from_u32(no), &[]);
}

/// `InstBuilder::return_`: the block ends and the function returns.
#[verifier::external_body]
pub(crate) fn leave(b: &mut FunctionBuilder<'_>, args: &Vec<u32>)
    requires
        is_open(history(*old(b))),
        all_known(history(*old(b)), args@),
    ensures
        grows(history(*old(b)), history(*final(b)), Event::Return { args: args@ }),
{
    let args: Vec<Value> = args.iter().map(|v| Value::from_u32(*v)).collect();
    b.ins().return_(&args);
}

// Instructions

/// `InstBuilder::iconst`: an integer constant.
#[verifier::external_body]
pub(crate) fn constant(b: &mut FunctionBuilder<'_>, width: u16, n: i64) -> (r: u32)
    requires
        is_open(history(*old(b))),
        is_width(width),
    ensures
        grows(history(*old(b)), history(*final(b)), Event::Const { width, n, value: r }),
{
    b.ins().iconst(Type::int_with_byte_size(width).unwrap(), n).as_u32()
}

/// `InstBuilder::iadd`: the sum of two values.
#[verifier::external_body]
pub(crate) fn add_values(b: &mut FunctionBuilder<'_>, x: u32, y: u32) -> (r: u32)
    requires
        is_open(history(*old(b))),
        known(history(*old(b)), x),
        known(history(*old(b)), y),
    ensures
        grows(
            history(*old(b)),
            history(*final(b)),
            Event::Binary { op: Operation::Add, x, y, value: r, width: width_of(history(*old(b)).events, x)->0 },
        ),
{
    b.ins().iadd(Value::from_u32(x), Value::from_u32(y)).as_u32()
}

/// `InstBuilder::isub`: the difference of two values.
#[verifier::external_body]
pub(crate) fn subtract(b: &mut FunctionBuilder<'_>, x: u32, y: u32) -> (r: u32)
    requires
        is_open(history(*old(b))),
        known(history(*old(b)), x),
        known(history(*old(b)), y),
    ensures
        grows(
            history(*old(b)),
            history(*final(b)),
            Event::Binary { op: Operation::Sub, x, y, value: r, width: width_of(history(*old(b)).events, x)->0 },
        ),
{
    b.ins().isub(Value::from_u32(x), Value::from_u32(y)).as_u32()
}

/// `InstBuilder::imul`: the product of two values.
#[verifier::external_body]
pub(crate) fn multiply(b: &mut FunctionBuilder<'_>, x: u32, y: u32) -> (r: u32)
    requires
        is_open(history(*old(b))),
        known(history(*old(b)), x),
        known(history(*old(b)), y),
    ensures
        grows(
            history(*old(b)),
            history(*final(b)),
            Event::Binary { op: Operation::Mul, x, y, value: r, width: width_of(history(*old(b)).events, x)->0 },
        ),
{
    b.ins().imul(Value::from_u32(x), Value::from_u32(y)).as_u32()
}

/// `InstBuilder::sdiv`: the quotient of two signed values.
#[verifier::external_body]
pub(crate) fn divide(b: &mut FunctionBuilder<'_>, x: u32, y: u32) -> (r: u32)
    requires
        is_open(history(*old(b))),
        known(history(*old(b)), x),
        known(history(*old(b)), y),
    ensures
        grows(
            history(*old(b)),
            history(*final(b)),
            Event::Binary { op: Operation::Div, x, y, value: r, width: width_of(history(*old(b)).events, x)->0 },
        ),
{
    b.ins().sdiv(Value::from_u32(x), Value::from_u32(y)).as_u32()
}

/// `InstBuilder::iadd_imm`: the sum of a value and a constant.
#[verifier::external_body]
pub(crate) fn offset(b: &mut FunctionBuilder<'_>, x: u32, n: i64) -> (r: u32)
    requires
        is_open(history(*old(b))),
        known(history(*old(b)), x),
    ensures
        grows(
            history(*old(b)),
            history(*final(b)),
            Event::Offset { x, n, value: r, width: width_of(history(*old(b)).events, x)->0 },
        ),
{
    b.ins().iadd_imm(Value::from_u32(x), n).as_u32()
}

/// `InstBuilder::icmp`: a byte that says whether the comparison holds; integers
/// are signed.
#[verifier::external_body]
pub(crate) fn compare(b: &mut FunctionBuilder<'_>, condition: Condition, x: u32, y: u32) -> (r: u32)
    requires
        is_open(history(*old(b))),
        known(history(*old(b)), x),
        known(history(*old(b)), y),
    ensures
        grows(history(*old(b)), history(*final(b)), Event::Compare { condition, x, y, value: r }),
{
    let code = match condition {
        Condition::Equal => IntCC::Equal,
        Condition::NotEqual => IntCC::NotEqual,
        Condition::Less => IntCC::SignedLessThan,
        Condition::LessEqual => IntCC::SignedLessThanOrEqual,
        Condition::Greater => IntCC::SignedGreaterThan,
        Condition::GreaterEqual => IntCC::SignedGreaterThanOrEqual,
    };
    b.ins().icmp(code, Value::from_u32(x), Value::from_u32(y)).as_u32()
}

/// `InstBuilder::uextend`: a value with zero bits in front.
#[verifier::external_body]
pub(crate) fn extend(b: &mut FunctionBuilder<'_>, width: u16, x: u32) -> (r: u32)
    requires
        is_open(history(*old(b))),
        is_width(width),
        known(history(*old(b)), x),
    ensures
        grows(history(*old(b)), history(*final(b)), Event::Extend { width, x, value: r }),
{
    b.ins().uextend(Type::int_with_byte_size(width).unwrap(), Value::from_u32(x)).as_u32()
}

/// `InstBuilder::load`: the value at an address.
#[verifier::external_body]
pub(crate) fn load(b: &mut FunctionBuilder<'_>, width: u16, addr: u32) -> (r: u32)
    requires
        is_open(history(*old(b))),
        is_width(width),
        known(history(*old(b)), addr),
    ensures
        grows(history(*old(b)), history(*final(b)), Event::Load { width, addr, value: r }),
{
    let t = Type::int_with_byte_size(width).unwrap();
    b.ins().load(t, MemFlagsData::new(), Value::from_u32(addr), 0).as_u32()
}

/// `InstBuilder::store`: a value is written to an address.
#[verifier::external_body]
pub(crate) fn store(b: &mut FunctionBuilder<'_>, x: u32, addr: u32)
    requires
        is_open(history(*old(b))),
        known(history(*old(b)), x),
        known(history(*old(b)), addr),
    ensures
        grows(history(*old(b)), history(*final(b)), Event::Store { x, addr }),
{
    b.ins().store(MemFlagsData::new(), Value::from_u32(x), Value::from_u32(addr), 0);
}

// Slots and variables

/// `FunctionBuilder::create_sized_stack_slot`: room on the stack.
#[verifier::external_body]
pub(crate) fn create_slot(b: &mut FunctionBuilder<'_>, size: u32, align_shift: u8) -> (r: u32)
    ensures
        grows(
            history(*old(b)),
            history(*final(b)),
            Event::CreateSlot { size, align_shift, slot: r },
        ),
{
    b.create_sized_stack_slot(StackSlotData::new(StackSlotKind::ExplicitSlot, size, align_shift)).as_u32()
}

/// `InstBuilder::stack_addr`: the address of a slot.
#[verifier::external_body]
pub(crate) fn slot_address(b: &mut FunctionBuilder<'_>, width: u16, slot: u32) -> (r: u32)
    requires
        is_open(history(*old(b))),
        is_width(width),
        has_slot(history(*old(b)).events, slot),
    ensures
        grows(history(*old(b)), history(*final(b)), Event::SlotAddr { width, slot, value: r }),
{
    let t = Type::int_with_byte_size(width).unwrap();
    b.ins().stack_addr(t, StackSlot::from_u32(slot), 0).as_u32()
}

/// `FunctionBuilder::declare_var`: a new variable.
#[verifier::external_body]
pub(crate) fn declare_variable(b: &mut FunctionBuilder<'_>, width: u16) -> (r: u32)
    requires
        is_width(width),
    ensures
        grows(history(*old(b)), history(*final(b)), Event::DeclareVar { width, var: r }),
        var_width(history(*old(b)).events, r) is None,
{
    b.declare_var(Type::int_with_byte_size(width).unwrap()).as_u32()
}

/// `FunctionBuilder::def_var`: a variable gets a value. It panics where the
/// variable is not declared, where the types differ, or where there is no block
/// to add to.
#[verifier::external_body]
pub(crate) fn set_variable(b: &mut FunctionBuilder<'_>, var: u32, x: u32)
    requires
        site(history(*old(b)).events).at is Some,
        var_width(history(*old(b)).events, var) is Some,
        width_of(history(*old(b)).events, x) == var_width(history(*old(b)).events, var),
    ensures
        grows(history(*old(b)), history(*final(b)), Event::SetVar { var, x }),
{
    b.def_var(Variable::from_u32(var), Value::from_u32(x))
}

/// `FunctionBuilder::use_var`: the value of a variable, which may be one that
/// another call gave. It panics where the variable is not declared. Blocks on
/// the way to its values get a parameter for it, which they must have room for.
#[verifier::external_body]
pub(crate) fn get_variable(b: &mut FunctionBuilder<'_>, var: u32) -> (r: u32)
    requires
        is_open(history(*old(b))),
        var_width(history(*old(b)).events, var) is Some,
        has_room(history(*old(b))),
    ensures
        grows(
            history(*old(b)),
            history(*final(b)),
            Event::GetVar { var, value: r, width: var_width(history(*old(b)).events, var)->0 },
        ),
{
    b.use_var(Variable::from_u32(var)).as_u32()
}

// Other functions and data

/// `Function::declare_imported_user_function`: a name for a function or for
/// data of the module, by namespace and number.
#[verifier::external_body]
pub(crate) fn import_name(b: &mut FunctionBuilder<'_>, namespace: u32, index: u32) -> (r: u32)
    ensures
        grows(
            history(*old(b)),
            history(*final(b)),
            Event::ImportName { namespace, index, name: r },
        ),
{
    b.func.declare_imported_user_function(UserExternalName::new(namespace, index)).as_u32()
}

/// `FunctionBuilder::import_signature`: a signature for calls.
#[verifier::external_body]
pub(crate) fn import_signature(b: &mut FunctionBuilder<'_>, s: ir::Signature) -> (r: u32)
    ensures
        grows(
            history(*old(b)),
            history(*final(b)),
            Event::ImportSignature { shape: contents(s), sig: r },
        ),
{
    b.import_signature(s).as_u32()
}

/// `FunctionBuilder::import_function`: a function that can be called.
#[verifier::external_body]
pub(crate) fn import_function(
    b: &mut FunctionBuilder<'_>,
    name: u32,
    sig: u32,
    colocated: bool,
) -> (r: u32)
    requires
        has_name(history(*old(b)).events, name),
        shape_of(history(*old(b)).events, sig) is Some,
    ensures
        grows(
            history(*old(b)),
            history(*final(b)),
            Event::ImportFunction { name, sig, colocated, func: r },
        ),
{
    let name = ExternalName::user(UserExternalNameRef::from_u32(name));
    b.import_function(ExtFuncData { name, signature: SigRef::from_u32(sig), colocated, patchable: false }).as_u32()
}

/// `FunctionBuilder::create_global_value`: a symbol for data.
#[verifier::external_body]
pub(crate) fn create_symbol(b: &mut FunctionBuilder<'_>, name: u32, colocated: bool) -> (r: u32)
    requires
        has_name(history(*old(b)).events, name),
    ensures
        grows(
            history(*old(b)),
            history(*final(b)),
            Event::CreateSymbol { name, colocated, symbol: r },
        ),
{
    let name = ExternalName::user(UserExternalNameRef::from_u32(name));
    b.create_global_value(GlobalValueData::Symbol { name, offset: Imm64::new(0), colocated, tls: false }).as_u32()
}

/// `InstBuilder::symbol_value`: the address of a symbol.
#[verifier::external_body]
pub(crate) fn symbol_address(b: &mut FunctionBuilder<'_>, width: u16, symbol: u32) -> (r: u32)
    requires
        is_open(history(*old(b))),
        is_width(width),
        has_symbol(history(*old(b)).events, symbol),
    ensures
        grows(history(*old(b)), history(*final(b)), Event::SymbolAddr { width, symbol, value: r }),
{
    let t = Type::int_with_byte_size(width).unwrap();
    b.ins().symbol_value(t, GlobalValue::from_u32(symbol)).as_u32()
}

/// `InstBuilder::call`, with `FunctionBuilder::inst_results` for its first
/// result: a call, which has a result where the signature has one. It panics
/// where the signature has more results than can be numbered.
#[verifier::external_body]
pub(crate) fn call(b: &mut FunctionBuilder<'_>, func: u32, args: &Vec<u32>) -> (r: Option<u32>)
    requires
        is_open(history(*old(b))),
        function_shape(history(*old(b)).events, func) is Some,
        function_shape(history(*old(b)).events, func)->0.returns.len() <= most_params(),
        all_known(history(*old(b)), args@),
    ensures
        r is Some <==> function_shape(history(*old(b)).events, func)->0.returns.len() > 0,
        grows(
            history(*old(b)),
            history(*final(b)),
            Event::Call { func, args: args@, value: r, width: function_shape(history(*old(b)).events, func)->0.returns[0] },
        ),
{
    let args: Vec<Value> = args.iter().map(|v| Value::from_u32(*v)).collect();
    let call = b.ins().call(FuncRef::from_u32(func), &args);
    b.inst_results(call).first().map(|v| v.as_u32())
}

} // verus!

