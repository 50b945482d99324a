//! The native IR library's types, and each call made into it. Results that
//! the library hands back are opaque here; failures come back as the
//! library's own description of the error.
use crate::plan::{IntOp, IntPredicate};
use inkwell::basic_block::BasicBlock;
use inkwell::builder::Builder;
use inkwell::context::Context;
use inkwell::module::Module;
use inkwell::targets::{CodeModel, FileType, InitializationConfig, RelocMode, Target, TargetMachine, TargetTriple};
use inkwell::types::{BasicMetadataTypeEnum, BasicType, BasicTypeEnum, FunctionType, IntType, PointerType};
use inkwell::values::{BasicMetadataValueEnum, BasicValue, BasicValueEnum, CallSiteValue, FunctionValue, IntValue, PointerValue};
use inkwell::AddressSpace;
use inkwell::IntPredicate as LlvmPredicate;
use inkwell::OptimizationLevel;
use vstd::prelude::*;

verus! {

#[verifier::external_type_specification]
#[verifier::external_body]
pub struct ExContext(Context);

#[verifier::external_type_specification]
#[verifier::external_body]
pub struct ExModule<'ctx>(Module<'ctx>);

#[verifier::external_type_specification]
#[verifier::external_body]
pub struct ExBuilder<'ctx>(Builder<'ctx>);

#[verifier::external_type_specification]
#[verifier::external_body]
pub struct ExFunctionValue<'ctx>(FunctionValue<'ctx>);

#[verifier::external_type_specification]
#[verifier::external_body]
pub struct ExBasicBlock<'ctx>(BasicBlock<'ctx>);

#[verifier::external_type_specification]
#[verifier::external_body]
pub struct ExPointerValue<'ctx>(PointerValue<'ctx>);

#[verifier::external_type_specification]
#[verifier::external_body]
pub struct ExIntValue<'ctx>(IntValue<'ctx>);

#[verifier::external_type_specification]
#[verifier::external_body]
pub struct ExBasicValueEnum<'ctx>(BasicValueEnum<'ctx>);

#[verifier::external_type_specification]
#[verifier::external_body]
pub struct ExCallSiteValue<'ctx>(CallSiteValue<'ctx>);

#[verifier::external_type_specification]
#[verifier::external_body]
pub struct ExIntType<'ctx>(IntType<'ctx>);

#[verifier::external_type_specification]
#[verifier::external_body]
pub struct ExPointerType<'ctx>(PointerType<'ctx>);

#[verifier::external_type_specification]
#[verifier::external_body]
pub struct ExBasicTypeEnum<'ctx>(BasicTypeEnum<'ctx>);

#[verifier::external_type_specification]
#[verifier::external_body]
pub struct ExFunctionType<'ctx>(FunctionType<'ctx>);

#[verifier::external_type_specification]
#[verifier::external_body]
pub struct ExIntPredicate(LlvmPredicate);

#[verifier::external_type_specification]
#[verifier::external_body]
pub struct ExTarget(Target);

#[verifier::external_type_specification]
#[verifier::external_body]
pub struct ExTargetTriple(TargetTriple);

#[verifier::external_type_specification]
#[verifier::external_body]
pub struct ExTargetMachine(TargetMachine);

// ---------------------------------------------------------------------------
// Context and module.

/// Relies on `Context::create_module`: a new, empty module.
#[verifier::external_body]
pub(crate) fn create_module<'ctx>(ctx: &'ctx Context, name: &str) -> Module<'ctx> {
    ctx.create_module(name)
}

/// Relies on `Context::create_builder`: a builder with no position yet.
#[verifier::external_body]
pub(crate) fn create_builder<'ctx>(ctx: &'ctx Context) -> Builder<'ctx> {
    ctx.create_builder()
}

/// Relies on `Context::i64_type`.
#[verifier::external_body]
pub(crate) fn i64_type<'ctx>(ctx: &'ctx Context) -> IntType<'ctx> {
    ctx.i64_type()
}

/// Relies on `Context::custom_width_int_type`: the integer type of `bits` bits.
#[verifier::external_body]
pub(crate) fn int_type<'ctx>(ctx: &'ctx Context, bits: u32) -> BasicTypeEnum<'ctx>
    requires
        1 <= bits <= 64,
{
    ctx.custom_width_int_type(bits).into()
}

/// Relies on `Context::f64_type`.
#[verifier::external_body]
pub(crate) fn f64_type<'ctx>(ctx: &'ctx Context) -> BasicTypeEnum<'ctx> {
    ctx.f64_type().into()
}

/// Relies on `Context::f32_type`.
#[verifier::external_body]
pub(crate) fn f32_type<'ctx>(ctx: &'ctx Context) -> BasicTypeEnum<'ctx> {
    ctx.f32_type().into()
}

/// Relies on `BasicType::ptr_type`: a pointer to `t` in the default address space.
#[verifier::external_body]
pub(crate) fn pointer_type<'ctx>(t: BasicTypeEnum<'ctx>) -> PointerType<'ctx> {
    t.ptr_type(AddressSpace::default())
}

/// Relies on `BasicType::as_basic_type_enum` for pointer types.
#[verifier::external_body]
pub(crate) fn pointer_as_basic<'ctx>(t: PointerType<'ctx>) -> BasicTypeEnum<'ctx> {
    t.as_basic_type_enum()
}

/// Relies on `BasicType::fn_type`: a non-variadic function type.
#[verifier::external_body]
pub(crate) fn fn_type<'ctx>(ret: BasicTypeEnum<'ctx>, params: &Vec<BasicTypeEnum<'ctx>>) -> FunctionType<'ctx> {
    let params: Vec<BasicMetadataTypeEnum<'ctx>> = params.iter().map(|t| (*t).into()).collect();
    ret.fn_type(&params, false)
}

/// Relies on `Module::add_function`: declares a function of that name and type.
#[verifier::external_body]
pub(crate) fn add_function<'ctx>(module: &Module<'ctx>, name: &str, ty: FunctionType<'ctx>) -> FunctionValue<'ctx> {
    module.add_function(name, ty, None)
}

/// Relies on `Context::append_basic_block`: a new block at the end of `f`.
#[verifier::external_body]
pub(crate) fn append_basic_block<'ctx>(ctx: &'ctx Context, f: FunctionValue<'ctx>, name: &str) -> BasicBlock<'ctx> {
    ctx.append_basic_block(f, name)
}

/// Relies on `FunctionValue::get_nth_param`: `None` past the last parameter
/// (it adds one to `n`).
#[verifier::external_body]
pub(crate) fn nth_param<'ctx>(f: FunctionValue<'ctx>, n: u32) -> Option<BasicValueEnum<'ctx>>
    requires
        n < u32::MAX,
{
    f.get_nth_param(n)
}

/// Relies on `Module::print_to_string`: the module's textual IR.
#[verifier::external_body]
pub(crate) fn print_to_string<'ctx>(module: &Module<'ctx>) -> String {
    module.print_to_string().to_string()
}

/// Relies on `Module::print_to_file`: writes the textual IR to `path`.
#[verifier::external_body]
pub(crate) fn print_to_file<'ctx>(module: &Module<'ctx>, path: &str) -> Result<(), String> {
    module.print_to_file(path).map_err(|e| e.to_string())
}

// ---------------------------------------------------------------------------
// Values.

/// Relies on `IntType::const_int`, sign-extending: the constant `c`.
#[verifier::external_body]
pub(crate) fn const_int<'ctx>(t: IntType<'ctx>, c: i64) -> IntValue<'ctx> {
    t.const_int(c as u64, true)
}

/// Relies on `BasicValue::as_basic_value_enum` for integers.
#[verifier::external_body]
pub(crate) fn int_as_basic<'ctx>(v: IntValue<'ctx>) -> BasicValueEnum<'ctx> {
    v.as_basic_value_enum()
}

/// The integer inside `v`, if `v` is one.
#[verifier::external_body]
pub(crate) fn basic_as_int<'ctx>(v: BasicValueEnum<'ctx>) -> Option<IntValue<'ctx>> {
    match v {
        BasicValueEnum::IntValue(i) => Some(i),
        _ => None,
    }
}

/// Relies on `BasicValueEnum::get_type`.
#[verifier::external_body]
pub(crate) fn type_of<'ctx>(v: BasicValueEnum<'ctx>) -> BasicTypeEnum<'ctx> {
    v.get_type()
}

/// Relies on `CallSiteValue::try_as_basic_value`: `None` for a call that
/// returns nothing.
#[verifier::external_body]
pub(crate) fn call_result<'ctx>(c: CallSiteValue<'ctx>) -> Option<BasicValueEnum<'ctx>> {
    c.try_as_basic_value().left()
}

// ---------------------------------------------------------------------------
// The builder.

/// A builder that has been given an insertion position. Only
/// `position_at_end` makes one, and nothing in this library clears a
/// builder's position afterwards.
pub struct Positioned<'a, 'ctx> {
    builder: &'a Builder<'ctx>,
}

/// Relies on `Builder::position_at_end`: it marks the builder as positioned,
/// after which the `build_*` calls below fail on no input (their only
/// failure is an unset position).
#[verifier::external_body]
pub(crate) fn position_at_end<'a, 'ctx>(b: &'a Builder<'ctx>, bb: BasicBlock<'ctx>) -> Positioned<'a, 'ctx> {
    b.position_at_end(bb);
    Positioned { builder: b }
}

/// Relies on `Builder::build_alloca`.
#[verifier::external_body]
pub(crate) fn build_alloca<'a, 'ctx>(at: &Positioned<'a, 'ctx>, ty: BasicTypeEnum<'ctx>, name: &str) -> (r: Result<PointerValue<'ctx>, String>)
    ensures
        r is Ok,
{
    at.builder.build_alloca(ty, name).map_err(|e| format!("{:?}", e))
}

/// Relies on `Builder::build_store`.
#[verifier::external_body]
pub(crate) fn build_store<'a, 'ctx>(at: &Positioned<'a, 'ctx>, ptr: PointerValue<'ctx>, v: BasicValueEnum<'ctx>) -> (r: Result<(), String>)
    ensures
        r is Ok,
{
    at.builder.build_store(ptr, v).map(|_| ()).map_err(|e| format!("{:?}", e))
}

/// Relies on `Builder::build_pointer_cast`.
#[verifier::external_body]
pub(crate) fn build_pointer_cast<'a, 'ctx>(at: &Positioned<'a, 'ctx>, ptr: PointerValue<'ctx>, to: PointerType<'ctx>) -> (r: Result<PointerValue<'ctx>, String>)
    ensures
        r is Ok,
{
    at.builder.build_pointer_cast(ptr, to, "slot").map_err(|e| format!("{:?}", e))
}

/// Relies on `Builder::build_load`: a load of the pointer's element type.
#[verifier::external_body]
pub(crate) fn build_load<'a, 'ctx>(at: &Positioned<'a, 'ctx>, ptr: PointerValue<'ctx>) -> (r: Result<BasicValueEnum<'ctx>, String>)
    ensures
        r is Ok,
{
    at.builder.build_load(ptr, "load").map_err(|e| format!("{:?}", e))
}

/// The predicate of inkwell of the same name.
#[verifier::external_body]
pub(crate) fn int_predicate(pred: IntPredicate) -> LlvmPredicate {
    match pred {
        IntPredicate::Eq => LlvmPredicate::EQ,
        IntPredicate::Ne => LlvmPredicate::NE,
        IntPredicate::Slt => LlvmPredicate::SLT,
        IntPredicate::Sle => LlvmPredicate::SLE,
        IntPredicate::Sgt => LlvmPredicate::SGT,
        IntPredicate::Sge => LlvmPredicate::SGE,
    }
}

/// Relies on the builder call for each operation, one arm each:
/// `build_int_add`, `build_int_sub`, `build_int_mul`, `build_int_signed_div`,
/// `build_int_signed_rem`, `build_int_compare`, `build_and`, `build_or`.
#[verifier::external_body]
pub(crate) fn build_int_op<'a, 'ctx>(at: &Positioned<'a, 'ctx>, op: IntOp, x: IntValue<'ctx>, y: IntValue<'ctx>) -> (r: Result<IntValue<'ctx>, String>)
    ensures
        r is Ok,
{
    let b = at.builder;
    let r = match op {
        IntOp::Add => b.build_int_add(x, y, "add"),
        IntOp::Sub => b.build_int_sub(x, y, "sub"),
        IntOp::Mul => b.build_int_mul(x, y, "mul"),
        IntOp::SDiv => b.build_int_signed_div(x, y, "div"),
        IntOp::SRem => b.build_int_signed_rem(x, y, "mod"),
        IntOp::Compare(p) => b.build_int_compare(int_predicate(p), x, y, "cmp"),
        IntOp::And => b.build_and(x, y, "and"),
        IntOp::Or => b.build_or(x, y, "or"),
    };
    r.map_err(|e| format!("{:?}", e))
}

/// Relies on `Builder::build_int_neg`.
#[verifier::external_body]
pub(crate) fn build_int_neg<'a, 'ctx>(at: &Positioned<'a, 'ctx>, x: IntValue<'ctx>) -> (r: Result<IntValue<'ctx>, String>)
    ensures
        r is Ok,
{
    at.builder.build_int_neg(x, "neg").map_err(|e| format!("{:?}", e))
}

/// Relies on `Builder::build_not`.
#[verifier::external_body]
pub(crate) fn build_not<'a, 'ctx>(at: &Positioned<'a, 'ctx>, x: IntValue<'ctx>) -> (r: Result<IntValue<'ctx>, String>)
    ensures
        r is Ok,
{
    at.builder.build_not(x, "not").map_err(|e| format!("{:?}", e))
}

/// Relies on `Builder::build_call`, with the arguments in order.
#[verifier::external_body]
pub(crate) fn build_call<'a, 'ctx>(at: &Positioned<'a, 'ctx>, f: FunctionValue<'ctx>, args: &Vec<IntValue<'ctx>>) -> (r: Result<CallSiteValue<'ctx>, String>)
    ensures
        r is Ok,
{
    let args: Vec<BasicMetadataValueEnum<'ctx>> = args.iter().map(|a| (*a).into()).collect();
    at.builder.build_call(f, &args, "call").map_err(|e| format!("{:?}", e))
}

/// Relies on `Builder::build_return`: `ret void` for `None`.
#[verifier::external_body]
pub(crate) fn build_return<'a, 'ctx>(at: &Positioned<'a, 'ctx>, v: Option<IntValue<'ctx>>) -> (r: Result<(), String>)
    ensures
        r is Ok,
{
    let r = match &v {
        Some(x) => at.builder.build_return(Some(x as &dyn BasicValue<'ctx>)),
        None => at.builder.build_return(None),
    };
    r.map(|_| ()).map_err(|e| format!("{:?}", e))
}

/// Relies on `Builder::build_unconditional_branch`.
#[verifier::external_body]
pub(crate) fn build_branch<'a, 'ctx>(at: &Positioned<'a, 'ctx>, to: BasicBlock<'ctx>) -> (r: Result<(), String>)
    ensures
        r is Ok,
{
    at.builder.build_unconditional_branch(to).map(|_| ()).map_err(|e| format!("{:?}", e))
}

/// Relies on `Builder::build_conditional_branch`.
#[verifier::external_body]
pub(crate) fn build_conditional_branch<'a, 'ctx>(at: &Positioned<'a, 'ctx>, cond: IntValue<'ctx>, then_bb: BasicBlock<'ctx>, else_bb: BasicBlock<'ctx>) -> (r: Result<(), String>)
    ensures
        r is Ok,
{
    at.builder.build_conditional_branch(cond, then_bb, else_bb).map(|_| ()).map_err(|e| format!("{:?}", e))
}

/// Relies on `Builder::build_switch`: one case per pair, in order.
#[verifier::external_body]
pub(crate) fn build_switch<'a, 'ctx>(at: &Positioned<'a, 'ctx>, v: IntValue<'ctx>, default: BasicBlock<'ctx>, cases: &Vec<(IntValue<'ctx>, BasicBlock<'ctx>)>) -> (r: Result<(), String>)
    ensures
        r is Ok,
{
    at.builder.build_switch(v, default, cases.as_slice()).map(|_| ()).map_err(|e| format!("{:?}", e))
}

/// Relies on `Builder::build_unreachable`.
#[verifier::external_body]
pub(crate) fn build_unreachable<'a, 'ctx>(at: &Positioned<'a, 'ctx>) -> (r: Result<(), String>)
    ensures
        r is Ok,
{
    at.builder.build_unreachable().map(|_| ()).map_err(|e| format!("{:?}", e))
}

// ---------------------------------------------------------------------------
// Targets.

/// Relies on `Target::initialize_native` with the default configuration.
#[verifier::external_body]
pub(crate) fn initialize_native_target() -> Result<(), String> {
    Target::initialize_native(&InitializationConfig::default())
}

/// Relies on `TargetMachine::get_default_triple`: the host triple.
#[verifier::external_body]
pub(crate) fn default_triple() -> TargetTriple {
    TargetMachine::get_default_triple()
}

/// Relies on `Target::from_triple`.
#[verifier::external_body]
pub(crate) fn target_from_triple(triple: &TargetTriple) -> Result<Target, String> {
    Target::from_triple(triple).map_err(|e| e.to_string())
}

/// Optimization levels of a target machine.
#[derive(Clone, Copy, Debug, PartialEq, Eq, Structural)]
pub enum OptLevel {
    Off,
    Less,
    Default,
    Aggressive,
}

/// Relocation models of a target machine.
#[derive(Clone, Copy, Debug, PartialEq, Eq, Structural)]
pub enum Relocation {
    Default,
    Static,
    Pic,
    DynamicNoPic,
}

/// Code models of a target machine.
#[derive(Clone, Copy, Debug, PartialEq, Eq, Structural)]
pub enum CodeSize {
    Default,
    JitDefault,
    Small,
    Kernel,
    Medium,
    Large,
}

/// What a target machine writes.
#[derive(Clone, Copy, Debug, PartialEq, Eq, Structural)]
pub enum OutputKind {
    Assembly,
    Object,
}

#[verifier::external_type_specification]
#[verifier::external_body]
pub struct ExOptimizationLevel(OptimizationLevel);

#[verifier::external_type_specification]
#[verifier::external_body]
pub struct ExRelocMode(RelocMode);

#[verifier::external_type_specification]
#[verifier::external_body]
pub struct ExCodeModel(CodeModel);

/// inkwell's `OptimizationLevel` of the same name.
#[verifier::external_body]
pub(crate) fn optimization_level(level: OptLevel) -> OptimizationLevel {
    match level {
        OptLevel::Off => OptimizationLevel::None,
        OptLevel::Less => OptimizationLevel::Less,
        OptLevel::Default => OptimizationLevel::Default,
        OptLevel::Aggressive => OptimizationLevel::Aggressive,
    }
}

/// inkwell's `RelocMode` of the same name.
#[verifier::external_body]
pub(crate) fn reloc_mode(reloc: Relocation) -> RelocMode {
    match reloc {
        Relocation::Default => RelocMode::Default,
        Relocation::Static => RelocMode::Static,
        Relocation::Pic => RelocMode::PIC,
        Relocation::DynamicNoPic => RelocMode::DynamicNoPic,
    }
}

/// inkwell's `CodeModel` of the same name.
#[verifier::external_body]
pub(crate) fn code_model(code: CodeSize) -> CodeModel {
    match code {
        CodeSize::Default => CodeModel::Default,
        CodeSize::JitDefault => CodeModel::JITDefault,
        CodeSize::Small => CodeModel::Small,
        CodeSize::Kernel => CodeModel::Kernel,
        CodeSize::Medium => CodeModel::Medium,
        CodeSize::Large => CodeModel::Large,
    }
}

/// Relies on `Target::create_target_machine`: `None` where LLVM creates no
/// machine for these settings.
#[verifier::external_body]
pub(crate) fn create_target_machine(
    target: &Target,
    triple: &TargetTriple,
    cpu: &str,
    features: &str,
    level: OptimizationLevel,
    reloc: RelocMode,
    code: CodeModel,
) -> Option<TargetMachine> {
    target.create_target_machine(triple, cpu, features, level, reloc, code)
}

/// Relies on `TargetMachine::write_to_file`: writes `module` to `path` in
/// the given form.
#[verifier::external_body]
pub(crate) fn write_to_file<'ctx>(machine: &TargetMachine, module: &Module<'ctx>, kind: OutputKind, path: &str) -> Result<(), String> {
    let kind = match kind {
        OutputKind::Assembly => FileType::Assembly,
        OutputKind::Object => FileType::Object,
    };
    machine.write_to_file(module, kind, std::path::Path::new(path)).map_err(|e| e.to_string())
}

} // verus!
