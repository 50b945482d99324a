//! A code generation session: one module, filled from one MIR program.
use crate::error::{block_name, fault_message, local_name, CodegenError};
use crate::mir::{Function, Program, TypedLocal};
use crate::native;
use crate::native::{CodeSize, OptLevel, OutputKind, Positioned, Relocation};
use crate::plan::{
    program_plan_of,
    block_plan_fits, computation_fits, BlockPlan, entry_fits, exit_fits, function_plan_fits, plan_program,
    program_fault, step_fits, value_fits, Computation, EntryStep, Exit, FunctionPlan, IntOp, Step,
    Value,
};
use crate::types::{lower_type, lowered, NativeType};
use inkwell::basic_block::BasicBlock;
use inkwell::builder::Builder;
use inkwell::context::Context;
use inkwell::module::Module;
use inkwell::types::BasicTypeEnum;
use inkwell::values::{BasicValueEnum, FunctionValue, IntValue, PointerValue};
use vstd::prelude::*;

verus! {

/// `p` begins `s`.
pub open spec fn has_prefix(s: Seq<char>, p: Seq<char>) -> bool {
    p.len() <= s.len() && s.subrange(0, p.len() as int) == p
}

/// The settings of the target machine that writes object files.
pub struct TargetSettings {
    pub cpu: String,
    pub features: String,
    pub level: OptLevel,
    pub reloc: Relocation,
    pub code: CodeSize,
    pub kind: OutputKind,
}

/// Object files are written for the `generic` CPU, with no extra features,
/// the default optimization level, relocation model and code model, as
/// relocatable objects.
pub fn object_settings() -> (r: TargetSettings)
    ensures
        r.cpu@ == "generic"@,
        r.features@ == Seq::<char>::empty(),
        r.level == OptLevel::Default,
        r.reloc == Relocation::Default,
        r.code == CodeSize::Default,
        r.kind == OutputKind::Object,
{
    TargetSettings {
        cpu: String::from_str("generic"),
        features: String::new(),
        level: OptLevel::Default,
        reloc: Relocation::Default,
        code: CodeSize::Default,
        kind: OutputKind::Object,
    }
}

/// The stages of object emission, each of which can fail.
#[derive(Clone, Copy, Debug, PartialEq, Eq, Structural)]
pub enum EmitStage {
    /// Initializing the native target.
    Initialize,
    /// Looking up the target of the host triple.
    Target,
    /// Creating the target machine.
    Machine,
    /// Writing the object file.
    Write,
}

/// The message of a failure at `stage`, with the native library's `detail`.
pub open spec fn stage_message(stage: EmitStage, detail: Seq<char>) -> Seq<char> {
    match stage {
        EmitStage::Initialize => "Failed to initialize LLVM: "@ + detail,
        EmitStage::Target => "Failed to get target: "@ + detail,
        EmitStage::Machine => "Failed to create target machine"@,
        EmitStage::Write => "Failed to write object file: "@ + detail,
    }
}

/// The error of a failure at `stage`.
pub fn emit_failure(stage: EmitStage, detail: String) -> (r: CodegenError)
    ensures
        r.message@ == stage_message(stage, detail@),
{
    let message = match stage {
        EmitStage::Initialize => String::from_str("Failed to initialize LLVM: ").concat(
            detail.as_str(),
        ),
        EmitStage::Target => String::from_str("Failed to get target: ").concat(detail.as_str()),
        EmitStage::Machine => String::from_str("Failed to create target machine"),
        EmitStage::Write => String::from_str("Failed to write object file: ").concat(
            detail.as_str(),
        ),
    };
    CodegenError { message }
}

/// The errors that only the native IR library decides on a program without
/// fault: a load through a 64-bit slot pointer that yields no integer, a
/// call that yields no value, and a declared function without the parameter
/// that its signature lists.
pub open spec fn native_refusal(m: Seq<char>) -> bool {
    ||| m == "load failed: not an integer"@
    ||| m == "Function returned void"@
    ||| m == "Missing parameter"@
}

/// One item of a plan that the session has replayed. The session appends an
/// item to its record once the replay of that item has returned; that each
/// item is replayed as the builder calls of the function that handles it is
/// the code of those functions, not a proved fact about the module.
pub enum Emitted {
    /// An instruction of a function's `entry` block.
    Entry(EntryStep),
    /// The builder moves to the end of the native block of MIR block `k`.
    Enter(usize),
    Step(Step),
    Exit(Exit),
}

pub open spec fn entry_trace(entry: Seq<EntryStep>) -> Seq<Emitted> {
    entry.map_values(|e: EntryStep| Emitted::Entry(e))
}

pub open spec fn steps_trace(steps: Seq<Step>) -> Seq<Emitted> {
    steps.map_values(|s: Step| Emitted::Step(s))
}

/// Block `k`: the move to its native block, its steps in order, then its exit.
pub open spec fn block_trace(k: usize, bp: BlockPlan) -> Seq<Emitted> {
    seq![Emitted::Enter(k)] + steps_trace(bp.steps@) + match bp.exit {
        Some(e) => seq![Emitted::Exit(e)],
        None => Seq::empty(),
    }
}

/// The first `n` blocks, in order.
pub open spec fn blocks_trace(blocks: Seq<BlockPlan>, n: int) -> Seq<Emitted>
    decreases n,
{
    if n <= 0 {
        Seq::empty()
    } else {
        blocks_trace(blocks, n - 1) + block_trace((n - 1) as usize, blocks[n - 1])
    }
}

/// A function: its entry block, then its blocks in order.
pub open spec fn function_trace(fp: FunctionPlan) -> Seq<Emitted> {
    entry_trace(fp.entry@) + blocks_trace(fp.blocks@, fp.blocks@.len() as int)
}

/// The first `n` functions, in order.
pub open spec fn plans_trace(plans: Seq<FunctionPlan>, n: int) -> Seq<Emitted>
    decreases n,
{
    if n <= 0 {
        Seq::empty()
    } else {
        plans_trace(plans, n - 1) + function_trace(plans[n - 1])
    }
}

/// A function's name with its lowered return and parameter types.
pub struct Signature {
    pub name: Seq<char>,
    pub return_type: NativeType,
    pub param_types: Seq<NativeType>,
}

/// The signature under which `f` is declared.
pub open spec fn signature_of(f: Function) -> Signature {
    Signature {
        name: f.name@,
        return_type: lowered(f.return_ty),
        param_types: f.params@.map_values(|t: TypedLocal| lowered(t.ty)),
    }
}

/// A code generation session over one module of the native IR library.
pub struct LLVMCodegen<'ctx> {
    context: &'ctx Context,
    module: Module<'ctx>,
    builder: Builder<'ctx>,
    /// The declared functions, by their index in the program.
    functions: Vec<FunctionValue<'ctx>>,
    /// The stack slots of the function being compiled, by local index.
    locals: Vec<PointerValue<'ctx>>,
    /// The function being compiled.
    current_function: Option<FunctionValue<'ctx>>,
    /// The name, return type and parameter types handed to the native IR
    /// library for each declared function, in order.
    signatures: Ghost<Seq<Signature>>,
    /// The plan items replayed since `compile` began, in order.
    trace: Ghost<Seq<Emitted>>,
}

impl<'ctx> LLVMCodegen<'ctx> {
    /// The number of functions declared in the module.
    pub closed spec fn declared(&self) -> nat {
        self.functions@.len()
    }

    /// The signatures of the declared functions, in order of declaration.
    pub closed spec fn declared_signatures(&self) -> Seq<Signature> {
        self.signatures@
    }

    /// The plan items that the last `compile` replayed, in order.
    pub closed spec fn emitted(&self) -> Seq<Emitted> {
        self.trace@
    }

    /// A function body is being compiled.
    pub closed spec fn in_function(&self) -> bool {
        self.current_function is Some
    }

    /// A session with an empty module of the given name.
    pub fn new(context: &'ctx Context, module_name: &str) -> (r: Self)
        ensures
            r.declared() == 0,
            r.declared_signatures() == Seq::<Signature>::empty(),
            !r.in_function(),
    {
        let module = native::create_module(context, module_name);
        let builder = native::create_builder(context);
        LLVMCodegen {
            context,
            module,
            builder,
            functions: Vec::new(),
            locals: Vec::new(),
            current_function: None,
            signatures: Ghost(Seq::empty()),
            trace: Ghost(Seq::empty()),
        }
    }

    /// Lowers `program` into the module: first every function is declared,
    /// then every body is compiled. A program that cannot be lowered is
    /// rejected with the message of its first fault, before anything is
    /// added to the module.
    pub fn compile(&mut self, program: &Program) -> (r: Result<(), CodegenError>)
        ensures
            final(self).declared() == program.functions@.len(),
            final(self).declared_signatures() == program.functions@.map_values(
                |f: Function| signature_of(f),
            ),
            program_fault(*program) is Some ==> r is Err && r->Err_0.message@ == fault_message(
                program_fault(*program)->Some_0,
            ) && final(self).emitted() == Seq::<Emitted>::empty(),
            program_fault(*program) is None ==> r is Ok || native_refusal(r->Err_0.message@),
            r is Ok ==> program_fault(*program) is None,
            r is Ok ==> exists|plans: Seq<FunctionPlan>|
                program_plan_of(*program, plans) && final(self).emitted() == plans_trace(
                    plans,
                    plans.len() as int,
                ),
            !final(self).in_function(),
    {
        self.current_function = None;
        self.functions = Vec::new();
        self.signatures = Ghost(Seq::empty());
        self.trace = Ghost(Seq::empty());
        assert(program.functions@.take(0).map_values(|f: Function| signature_of(f)) =~= Seq::<
            Signature,
        >::empty());
        let mut j: usize = 0;
        while j < program.functions.len()
            invariant
                j <= program.functions@.len(),
                self.functions@.len() == j,
                self.signatures@ == program.functions@.take(j as int).map_values(
                    |f: Function| signature_of(f),
                ),
                self.trace@ == Seq::<Emitted>::empty(),
                self.current_function is None,
            decreases program.functions@.len() - j,
        {
            self.declare_function(&program.functions[j]);
            assert(program.functions@.take(j + 1).map_values(|f: Function| signature_of(f))
                =~= program.functions@.take(j as int).map_values(|f: Function| signature_of(f)).push(
                signature_of(program.functions@[j as int]),
            ));
            j = j + 1;
        }
        assert(program.functions@.take(j as int) =~= program.functions@);
        let plans = match plan_program(program) {
            Ok(plans) => plans,
            Err(f) => {
                return Err(CodegenError::from_fault(&f));
            },
        };
        let mut k: usize = 0;
        while k < program.functions.len()
            invariant
                plans@.len() == program.functions@.len(),
                program_fault(*program) is None,
                k <= program.functions@.len(),
                self.functions@.len() == program.functions@.len(),
                self.signatures@ == program.functions@.map_values(|f: Function| signature_of(f)),
                program_plan_of(*program, plans@),
                self.trace@ == plans_trace(plans@, k as int),
                self.current_function is None,
                forall|i: int|
                    0 <= i < plans@.len() ==> function_plan_fits(
                        #[trigger] plans@[i],
                        program.functions@[i].locals@.len(),
                        program.functions@.len(),
                        program.functions@[i].blocks@.len(),
                    ),
            decreases program.functions@.len() - k,
        {
            let r = self.compile_function(k, program.functions[k].locals.len(), &plans[k]);
            self.current_function = None;
            if let Err(e) = r {
                return Err(e);
            }
            k = k + 1;
        }
        assert(program_plan_of(*program, plans@) && self.trace@ == plans_trace(
            plans@,
            plans@.len() as int,
        ));
        Ok(())
    }

    fn native_type(&self, t: NativeType) -> BasicTypeEnum<'ctx> {
        match t {
            NativeType::I64 => native::int_type(self.context, 64),
            NativeType::I32 => native::int_type(self.context, 32),
            NativeType::I16 => native::int_type(self.context, 16),
            NativeType::I8 => native::int_type(self.context, 8),
            NativeType::I1 => native::int_type(self.context, 1),
            NativeType::F64 => native::f64_type(self.context),
            NativeType::F32 => native::f32_type(self.context),
            NativeType::Ptr => native::pointer_as_basic(
                native::pointer_type(native::int_type(self.context, 8)),
            ),
        }
    }

    /// Adds the signature of `f` to the module.
    /// Adds the signature of `f` to the module, its types lowered.
    fn declare_function(&mut self, f: &Function)
        ensures
            final(self).functions@.len() == old(self).functions@.len() + 1,
            final(self).signatures@ == old(self).signatures@.push(signature_of(*f)),
            final(self).trace@ == old(self).trace@,
            final(self).current_function == old(self).current_function,
    {
        let ret_type = lower_type(&f.return_ty);
        let ret = self.native_type(ret_type);
        let mut params: Vec<BasicTypeEnum<'ctx>> = Vec::new();
        let ghost mut param_types: Seq<NativeType> = Seq::empty();
        let mut i: usize = 0;
        while i < f.params.len()
            invariant
                i <= f.params@.len(),
                param_types == f.params@.take(i as int).map_values(|t: TypedLocal| lowered(t.ty)),
            decreases f.params@.len() - i,
        {
            let t = lower_type(&f.params[i].ty);
            params.push(self.native_type(t));
            proof {
                param_types = param_types.push(t);
                assert(f.params@.take(i + 1).map_values(|t: TypedLocal| lowered(t.ty))
                    =~= f.params@.take(i as int).map_values(|t: TypedLocal| lowered(t.ty)).push(t));
            }
            i = i + 1;
        }
        assert(f.params@.take(i as int) =~= f.params@);
        let ty = native::fn_type(ret, &params);
        let fv = native::add_function(&self.module, f.name.as_str(), ty);
        self.functions.push(fv);
        self.signatures = Ghost(
            self.signatures@.push(
                Signature { name: f.name@, return_type: ret_type, param_types: param_types },
            ),
        );
    }

    /// Compiles the body of the function declared at index `j`, which has
    /// `nl` locals.
    fn compile_function(&mut self, j: usize, nl: usize, fp: &FunctionPlan) -> (r: Result<
        (),
        CodegenError,
    >)
        requires
            j < old(self).functions@.len(),
            function_plan_fits(*fp, nl as nat, old(self).functions@.len(), fp.blocks@.len()),
        ensures
            final(self).functions@ == old(self).functions@,
            final(self).signatures@ == old(self).signatures@,
            r is Err ==> native_refusal(r->Err_0.message@),
            r is Ok ==> final(self).trace@ == old(self).trace@ + function_trace(*fp),
    {
        let fv = self.functions[j];
        self.current_function = Some(fv);
        self.locals = Vec::new();
        let ghost base = self.trace@;
        let entry = native::append_basic_block(self.context, fv, "entry");
        let mut blocks: Vec<BasicBlock<'ctx>> = Vec::new();
        let mut b: usize = 0;
        while b < fp.blocks.len()
            invariant
                b <= fp.blocks@.len(),
                blocks@.len() == b,
            decreases fp.blocks@.len() - b,
        {
            let name = block_name(b);
            blocks.push(native::append_basic_block(self.context, fv, name.as_str()));
            b = b + 1;
        }
        let at = native::position_at_end(&self.builder, entry);
        let mut i: usize = 0;
        while i < fp.entry.len()
            invariant
                i <= fp.entry@.len(),
                entry_fits(fp.entry@, nl as nat, fp.blocks@.len()),
                blocks@.len() == fp.blocks@.len(),
                self.functions@ == old(self).functions@,
                self.signatures@ == old(self).signatures@,
                self.locals@.len() == if i < nl {
                    i
                } else {
                    nl
                },
                self.trace@ == base + entry_trace(fp.entry@.take(i as int)),
            decreases fp.entry@.len() - i,
        {
            match fp.entry[i] {
                EntryStep::Alloca { slot, ty } => {
                    let name = local_name(slot);
                    let t = self.native_type(ty);
                    match native::build_alloca(&at, t, name.as_str()) {
                        Ok(p) => self.locals.push(p),
                        Err(e) => {
                            return Err(CodegenError::builder("alloca", e));
                        },
                    }
                },
                EntryStep::StoreParam { param, slot } => {
                    if param >= u32::MAX as usize {
                        return Err(CodegenError::new("Missing parameter"));
                    }
                    match native::nth_param(fv, param as u32) {
                        Some(v) => self.store(&at, slot, v)?,
                        None => {
                            return Err(CodegenError::new("Missing parameter"));
                        },
                    }
                },
                EntryStep::Branch(target) => {
                    self.branch(&at, blocks[target])?;
                },
            }
            self.trace = Ghost(self.trace@.push(Emitted::Entry(fp.entry@[i as int])));
            assert(entry_trace(fp.entry@.take(i + 1)) =~= entry_trace(fp.entry@.take(i as int)).push(
                Emitted::Entry(fp.entry@[i as int]),
            ));
            i = i + 1;
        }
        assert(fp.entry@.take(i as int) =~= fp.entry@);
        let mut k: usize = 0;
        while k < fp.blocks.len()
            invariant
                k <= fp.blocks@.len(),
                function_plan_fits(*fp, nl as nat, self.functions@.len(), fp.blocks@.len()),
                blocks@.len() == fp.blocks@.len(),
                self.functions@ == old(self).functions@,
                self.signatures@ == old(self).signatures@,
                self.locals@.len() == nl,
                self.trace@ == base + entry_trace(fp.entry@) + blocks_trace(fp.blocks@, k as int),
            decreases fp.blocks@.len() - k,
        {
            let at = native::position_at_end(&self.builder, blocks[k]);
            let bp = &fp.blocks[k];
            assert(block_plan_fits(*bp, nl as nat, self.functions@.len(), fp.blocks@.len()));
            let ghost start = self.trace@;
            self.trace = Ghost(self.trace@.push(Emitted::Enter(k)));
            let mut s: usize = 0;
            while s < bp.steps.len()
                invariant
                    s <= bp.steps@.len(),
                    block_plan_fits(*bp, nl as nat, self.functions@.len(), blocks@.len()),
                    self.functions@ == old(self).functions@,
                    self.signatures@ == old(self).signatures@,
                    self.locals@.len() == nl,
                    self.trace@ == start.push(Emitted::Enter(k)) + steps_trace(
                        bp.steps@.take(s as int),
                    ),
                decreases bp.steps@.len() - s,
            {
                self.compile_step(&at, &bp.steps[s])?;
                self.trace = Ghost(self.trace@.push(Emitted::Step(bp.steps@[s as int])));
                assert(steps_trace(bp.steps@.take(s + 1)) =~= steps_trace(bp.steps@.take(s as int)).push(
                    Emitted::Step(bp.steps@[s as int]),
                ));
                s = s + 1;
            }
            assert(bp.steps@.take(s as int) =~= bp.steps@);
            if let Some(exit) = &bp.exit {
                self.compile_exit(&at, exit, &blocks)?;
                self.trace = Ghost(self.trace@.push(Emitted::Exit(*exit)));
            }
            assert(self.trace@ =~= start + block_trace(k, *bp));
            assert(base + entry_trace(fp.entry@) + blocks_trace(fp.blocks@, k + 1) =~= start
                + block_trace(k, *bp));
            k = k + 1;
        }
        assert(self.trace@ =~= base + function_trace(*fp));
        Ok(())
    }

    /// The slot of local `l`, seen as a pointer to `t`.
    fn slot_as(&self, at: &Positioned<'_, 'ctx>, l: usize, t: BasicTypeEnum<'ctx>) -> (r: Result<
        PointerValue<'ctx>,
        CodegenError,
    >)
        requires
            l < self.locals@.len(),
        ensures
            r is Ok,
    {
        let to = native::pointer_type(t);
        match native::build_pointer_cast(at, self.locals[l], to) {
            Ok(p) => Ok(p),
            Err(e) => Err(CodegenError::builder("cast", e)),
        }
    }

    fn store(&self, at: &Positioned<'_, 'ctx>, l: usize, v: BasicValueEnum<'ctx>) -> (r: Result<
        (),
        CodegenError,
    >)
        requires
            l < self.locals@.len(),
        ensures
            r is Ok,
    {
        let ptr = self.slot_as(at, l, native::type_of(v))?;
        match native::build_store(at, ptr, v) {
            Ok(()) => Ok(()),
            Err(e) => Err(CodegenError::builder("store", e)),
        }
    }

    /// A 64-bit constant, or a 64-bit load from a slot.
    fn compile_value(&self, at: &Positioned<'_, 'ctx>, v: Value) -> (r: Result<IntValue<'ctx>, CodegenError>)
        requires
            value_fits(v, self.locals@.len()),
        ensures
            v is Const ==> r is Ok,
            r is Err ==> native_refusal(r->Err_0.message@),
    {
        match v {
            Value::Const(c) => Ok(native::const_int(native::i64_type(self.context), c)),
            Value::Load(l) => {
                let ptr = self.slot_as(at, l, native::int_type(self.context, 64))?;
                match native::build_load(at, ptr) {
                    Ok(x) => match native::basic_as_int(x) {
                        Some(i) => Ok(i),
                        None => Err(CodegenError::new("load failed: not an integer")),
                    },
                    Err(e) => Err(CodegenError::builder("load", e)),
                }
            },
        }
    }

    fn compile_binop(&self, at: &Positioned<'_, 'ctx>, op: IntOp, x: IntValue<'ctx>, y: IntValue<'ctx>) -> (r:
        Result<IntValue<'ctx>, CodegenError>)
        ensures
            r is Ok,
    {
        match native::build_int_op(at, op, x, y) {
            Ok(v) => Ok(v),
            Err(e) => Err(CodegenError::builder("binary operation", e)),
        }
    }

    fn compile_computation(&self, at: &Positioned<'_, 'ctx>, c: &Computation) -> (r: Result<
        BasicValueEnum<'ctx>,
        CodegenError,
    >)
        requires
            computation_fits(*c, self.locals@.len(), self.functions@.len()),
        ensures
            r is Err ==> native_refusal(r->Err_0.message@),
    {
        match c {
            Computation::Use(v) => Ok(native::int_as_basic(self.compile_value(at, *v)?)),
            Computation::Binary(op, a, b) => {
                let x = self.compile_value(at, *a)?;
                let y = self.compile_value(at, *b)?;
                Ok(native::int_as_basic(self.compile_binop(at, *op, x, y)?))
            },
            Computation::Neg(a) => {
                let x = self.compile_value(at, *a)?;
                match native::build_int_neg(at, x) {
                    Ok(v) => Ok(native::int_as_basic(v)),
                    Err(e) => Err(CodegenError::builder("neg", e)),
                }
            },
            Computation::Not(a) => {
                let x = self.compile_value(at, *a)?;
                match native::build_not(at, x) {
                    Ok(v) => Ok(native::int_as_basic(v)),
                    Err(e) => Err(CodegenError::builder("not", e)),
                }
            },
            Computation::Call(j, args) => {
                let mut vals: Vec<IntValue<'ctx>> = Vec::new();
                let mut i: usize = 0;
                while i < args.len()
                    invariant
                        i <= args@.len(),
                        forall|k: int|
                            0 <= k < args@.len() ==> value_fits(#[trigger] args@[k], self.locals@.len()),
                    decreases args@.len() - i,
                {
                    vals.push(self.compile_value(at, args[i])?);
                    i = i + 1;
                }
                match native::build_call(at, self.functions[*j], &vals) {
                    Ok(site) => match native::call_result(site) {
                        Some(v) => Ok(v),
                        None => Err(CodegenError::new("Function returned void")),
                    },
                    Err(e) => Err(CodegenError::builder("call", e)),
                }
            },
        }
    }

    fn compile_step(&self, at: &Positioned<'_, 'ctx>, s: &Step) -> (r: Result<(), CodegenError>)
        requires
            step_fits(*s, self.locals@.len(), self.functions@.len()),
        ensures
            *s is Nop ==> r is Ok,
            r is Err ==> native_refusal(r->Err_0.message@),
    {
        match s {
            Step::Nop => Ok(()),
            Step::Assign { compute, store_to } => {
                let v = self.compile_computation(at, compute)?;
                match store_to {
                    Some(l) => self.store(at, *l, v),
                    None => Ok(()),
                }
            },
        }
    }

    fn branch(&self, at: &Positioned<'_, 'ctx>, bb: BasicBlock<'ctx>) -> (r: Result<(), CodegenError>)
        ensures
            r is Ok,
    {
        match native::build_branch(at, bb) {
            Ok(()) => Ok(()),
            Err(e) => Err(CodegenError::builder("branch", e)),
        }
    }

    fn compile_exit(&self, at: &Positioned<'_, 'ctx>, e: &Exit, blocks: &Vec<BasicBlock<'ctx>>) -> (r:
        Result<(), CodegenError>)
        requires
            exit_fits(*e, self.locals@.len(), blocks@.len()),
        ensures
            *e is Branch || *e is Unreachable || *e is Return && e->Return_0 is None ==> r is Ok,
            r is Err ==> native_refusal(r->Err_0.message@),
    {
        match e {
            Exit::Return(v) => {
                let v = match v {
                    Some(x) => Some(self.compile_value(at, *x)?),
                    None => None,
                };
                match native::build_return(at, v) {
                    Ok(()) => Ok(()),
                    Err(e) => Err(CodegenError::builder("return", e)),
                }
            },
            Exit::Branch(t) => self.branch(at, blocks[*t]),
            Exit::BranchNonZero { cond, then_block, else_block } => {
                let x = self.compile_value(at, *cond)?;
                let zero = native::const_int(native::i64_type(self.context), 0);
                let c = match native::build_int_op(
                    at,
                    IntOp::Compare(crate::plan::IntPredicate::Ne),
                    x,
                    zero,
                ) {
                    Ok(c) => c,
                    Err(e) => {
                        return Err(CodegenError::builder("cmp", e));
                    },
                };
                match native::build_conditional_branch(at,
                    c,
                    blocks[*then_block],
                    blocks[*else_block],
                ) {
                    Ok(()) => Ok(()),
                    Err(e) => Err(CodegenError::builder("branch", e)),
                }
            },
            Exit::Switch { value, default, cases } => {
                let x = self.compile_value(at, *value)?;
                let mut arms: Vec<(IntValue<'ctx>, BasicBlock<'ctx>)> = Vec::new();
                let mut i: usize = 0;
                while i < cases.len()
                    invariant
                        i <= cases@.len(),
                        forall|k: int| 0 <= k < cases@.len() ==> (#[trigger] cases@[k]).1 < blocks@.len(),
                    decreases cases@.len() - i,
                {
                    let (key, target) = cases[i];
                    arms.push((native::const_int(native::i64_type(self.context), key), blocks[target]));
                    i = i + 1;
                }
                match native::build_switch(at, x, blocks[*default], &arms) {
                    Ok(()) => Ok(()),
                    Err(e) => Err(CodegenError::builder("switch", e)),
                }
            },
            Exit::Unreachable => match native::build_unreachable(at) {
                Ok(()) => Ok(()),
                Err(e) => Err(CodegenError::builder("unreachable", e)),
            },
        }
    }

    /// The module's textual IR as it stands.
    pub fn get_llvm_ir(&self) -> String {
        native::print_to_string(&self.module)
    }

    /// Writes the module's textual IR to `path`.
    pub fn write_llvm_ir(&self, path: &str) -> (r: Result<(), CodegenError>)
        ensures
            r is Err ==> has_prefix(r->Err_0.message@, "Failed to write IR: "@),
    {
        match native::print_to_file(&self.module, path) {
            Ok(()) => Ok(()),
            Err(e) => {
                let message = String::from_str("Failed to write IR: ").concat(e.as_str());
                proof {
                    assert(message@.subrange(0, "Failed to write IR: "@.len() as int)
                        =~= "Failed to write IR: "@);
                }
                Err(CodegenError { message })
            },
        }
    }

    /// Writes the module as an object for the host triple to `path`, through
    /// a target machine made with `object_settings`.
    pub fn write_object_file(&self, path: &str) -> (r: Result<(), CodegenError>)
        ensures
            r is Err ==> exists|stage: EmitStage, detail: Seq<char>|
                r->Err_0.message@ == stage_message(stage, detail),
    {
        if let Err(e) = native::initialize_native_target() {
            return Err(emit_failure(EmitStage::Initialize, e));
        }
        let triple = native::default_triple();
        let target = match native::target_from_triple(&triple) {
            Ok(t) => t,
            Err(e) => {
                return Err(emit_failure(EmitStage::Target, e));
            },
        };
        let settings = object_settings();
        let machine = match native::create_target_machine(
            &target,
            &triple,
            settings.cpu.as_str(),
            settings.features.as_str(),
            native::optimization_level(settings.level),
            native::reloc_mode(settings.reloc),
            native::code_model(settings.code),
        ) {
            Some(m) => m,
            None => {
                return Err(emit_failure(EmitStage::Machine, String::new()));
            },
        };
        match native::write_to_file(&machine, &self.module, settings.kind, path) {
            Ok(()) => Ok(()),
            Err(e) => Err(emit_failure(EmitStage::Write, e)),
        }
    }
}

} // verus!
