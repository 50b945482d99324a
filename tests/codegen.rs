use forma::codegen::{emit_failure, EmitStage, LLVMCodegen};
use forma::error::{block_name, local_name, CodegenError};
use forma::mir::{
    BinOp, Block, Function, Operand, Place, Program, Rvalue, Statement, Terminator, Ty,
    TypedLocal, UnaryOp,
};
use forma::plan::{plan_program, Computation, EntryStep, Exit, Fault, Step, Value};
use forma::types::{lower_type, NativeType};
use inkwell::context::Context;

fn local(name: &str, ty: Ty) -> TypedLocal {
    TypedLocal { name: name.to_string(), ty }
}

fn copy(l: usize) -> Operand {
    Operand::Copy(Place { local: l })
}

fn assign(l: usize, rv: Rvalue) -> Statement {
    Statement::Assign(Place { local: l }, rv)
}

fn block(statements: Vec<Statement>, terminator: Terminator) -> Block {
    Block { statements, terminator }
}

fn function(name: &str, params: Vec<TypedLocal>, return_ty: Ty, locals: Vec<TypedLocal>, blocks: Vec<Block>) -> Function {
    Function { name: name.to_string(), params, return_ty, locals, blocks }
}

fn const_main() -> Function {
    function(
        "main",
        vec![],
        Ty::I64,
        vec![local("x", Ty::I64)],
        vec![block(
            vec![assign(0, Rvalue::Use(Operand::Constant(42)))],
            Terminator::Return(Some(copy(0))),
        )],
    )
}

fn add_function() -> Function {
    function(
        "add",
        vec![local("a", Ty::I64), local("b", Ty::I64)],
        Ty::I64,
        vec![local("a", Ty::I64), local("b", Ty::I64), local("c", Ty::I64)],
        vec![block(
            vec![assign(2, Rvalue::BinaryOp(BinOp::Add, copy(0), copy(1)))],
            Terminator::Return(Some(copy(2))),
        )],
    )
}

fn ret_const(c: i64) -> Block {
    block(vec![], Terminator::Return(Some(Operand::Constant(c))))
}

fn choose_function() -> Function {
    function(
        "choose",
        vec![local("flag", Ty::I64)],
        Ty::I64,
        vec![local("flag", Ty::I64)],
        vec![
            block(
                vec![],
                Terminator::SwitchInt { discriminant: copy(0), targets: vec![(1, 1)], otherwise: 2 },
            ),
            ret_const(10),
            ret_const(20),
        ],
    )
}

fn route_function() -> Function {
    function(
        "route",
        vec![local("k", Ty::I64)],
        Ty::I64,
        vec![local("k", Ty::I64)],
        vec![
            block(
                vec![],
                Terminator::SwitchInt {
                    discriminant: copy(0),
                    targets: vec![(0, 1), (1, 2), (2, 3)],
                    otherwise: 4,
                },
            ),
            ret_const(100),
            ret_const(101),
            ret_const(102),
            ret_const(107),
        ],
    )
}

fn compile_ir(functions: Vec<Function>) -> String {
    let context = Context::create();
    let mut cg = LLVMCodegen::new(&context, "test");
    let program = Program { functions };
    cg.compile(&program).expect("compiles");
    cg.get_llvm_ir()
}

fn compile_err(functions: Vec<Function>) -> String {
    let context = Context::create();
    let mut cg = LLVMCodegen::new(&context, "test");
    let program = Program { functions };
    match cg.compile(&program) {
        Ok(()) => panic!("expected an error"),
        Err(e) => e.message,
    }
}

#[test]
fn constant_return() {
    let ir = compile_ir(vec![const_main()]);
    assert!(ir.contains("define i64 @main()"), "{}", ir);
    assert!(ir.contains("store i64 42"), "{}", ir);
    assert!(ir.contains("ret i64 %load"), "{}", ir);
}

#[test]
fn binary_op_add() {
    let ir = compile_ir(vec![add_function()]);
    assert!(ir.contains("define i64 @add(i64 %0, i64 %1)"), "{}", ir);
    assert!(ir.contains("add i64"), "{}", ir);
    assert!(!ir.contains("mul"), "{}", ir);
    assert!(ir.contains("ret i64"), "{}", ir);
}

#[test]
fn single_target_switch_is_conditional_branch() {
    let ir = compile_ir(vec![choose_function()]);
    assert!(ir.contains("icmp ne i64 %load, 0"), "{}", ir);
    assert!(ir.contains("br i1 %cmp, label %bb_1, label %bb_2"), "{}", ir);
    assert!(!ir.contains("switch"), "{}", ir);
}

#[test]
fn multi_way_switch() {
    let ir = compile_ir(vec![route_function()]);
    assert!(ir.contains("switch i64 %load, label %bb_4 ["), "{}", ir);
    assert!(ir.contains("i64 0, label %bb_1"), "{}", ir);
    assert!(ir.contains("i64 1, label %bb_2"), "{}", ir);
    assert!(ir.contains("i64 2, label %bb_3"), "{}", ir);
    // the default and three cases
    assert_eq!(ir.matches(", label %bb_").count(), 4, "{}", ir);
}

#[test]
fn unknown_call_is_rejected() {
    let f = function(
        "main",
        vec![],
        Ty::I64,
        vec![local("x", Ty::I64)],
        vec![block(
            vec![assign(0, Rvalue::Call("missing".to_string(), vec![]))],
            Terminator::Return(Some(copy(0))),
        )],
    );
    let m = compile_err(vec![f]);
    assert!(m.starts_with("Unknown function:"));
    assert_eq!(m, "Unknown function: missing");
}

#[test]
fn object_emission() {
    let context = Context::create();
    let mut cg = LLVMCodegen::new(&context, "object");
    cg.compile(&Program { functions: vec![const_main()] }).expect("compiles");
    let path = "/tmp/forma_object_out.o";
    if let Err(e) = cg.write_object_file(path) {
        panic!("{}", e.message);
    }
    assert!(std::path::Path::new(path).exists());
}

#[test]
fn textual_ir_is_idempotent() {
    let context = Context::create();
    let mut cg = LLVMCodegen::new(&context, "twice");
    cg.compile(&Program { functions: vec![add_function(), route_function()] }).expect("compiles");
    let a = cg.get_llvm_ir();
    let b = cg.get_llvm_ir();
    assert_eq!(a, b);
}

#[test]
fn forward_and_recursive_calls_resolve() {
    let caller = function(
        "caller",
        vec![],
        Ty::I64,
        vec![local("r", Ty::I64)],
        vec![block(
            vec![assign(0, Rvalue::Call("add".to_string(), vec![Operand::Constant(3), Operand::Constant(4)]))],
            Terminator::Return(Some(copy(0))),
        )],
    );
    let ir = compile_ir(vec![caller, add_function()]);
    assert!(ir.contains("call i64 @add(i64 3, i64 4)"), "{}", ir);
}

#[test]
fn entry_allocates_stores_and_branches() {
    let f = function(
        "f",
        vec![local("a", Ty::I64), local("b", Ty::I32)],
        Ty::Unit,
        vec![local("a", Ty::I64), local("b", Ty::I32), local("c", Ty::Bool)],
        vec![block(vec![Statement::Nop], Terminator::Return(None))],
    );
    let ir = compile_ir(vec![f]);
    assert!(ir.contains("define i8 @f(i64 %0, i32 %1)"), "{}", ir);
    assert!(ir.contains("%local_0 = alloca i64"), "{}", ir);
    assert!(ir.contains("%local_1 = alloca i32"), "{}", ir);
    assert!(ir.contains("%local_2 = alloca i1"), "{}", ir);
    assert_eq!(ir.matches("alloca").count(), 3, "{}", ir);
    assert!(ir.contains("store i64 %0, i64* %local_0"), "{}", ir);
    assert!(ir.contains("store i32 %1, i32* %local_1"), "{}", ir);
    assert!(ir.contains("br label %bb_0"), "{}", ir);
    assert!(ir.contains("ret void"), "{}", ir);
}

#[test]
fn entry_plan_layout() {
    let plans = match plan_program(&Program { functions: vec![add_function()] }) {
        Ok(p) => p,
        Err(_) => panic!("plans"),
    };
    let e = &plans[0].entry;
    assert_eq!(e.len(), 6);
    assert_eq!(e[0], EntryStep::Alloca { slot: 0, ty: NativeType::I64 });
    assert_eq!(e[2], EntryStep::Alloca { slot: 2, ty: NativeType::I64 });
    assert_eq!(e[3], EntryStep::StoreParam { param: 0, slot: 0 });
    assert_eq!(e[4], EntryStep::StoreParam { param: 1, slot: 1 });
    assert_eq!(e[5], EntryStep::Branch(0));
}

#[test]
fn function_without_blocks_has_no_entry_branch() {
    let f = function("empty", vec![], Ty::I64, vec![local("x", Ty::I64)], vec![]);
    let plans = match plan_program(&Program { functions: vec![f] }) {
        Ok(p) => p,
        Err(_) => panic!("plans"),
    };
    assert_eq!(plans[0].entry.len(), 1);
    assert!(plans[0].blocks.is_empty());
}

#[test]
fn unbound_targets_are_dropped() {
    let f = function(
        "f",
        vec![],
        Ty::I64,
        vec![local("x", Ty::I64)],
        vec![
            block(
                vec![assign(5, Rvalue::Use(Operand::Constant(1)))],
                Terminator::SwitchInt { discriminant: copy(0), targets: vec![(0, 1), (1, 9)], otherwise: 1 },
            ),
            block(vec![], Terminator::Goto(9)),
        ],
    );
    let plans = match plan_program(&Program { functions: vec![f] }) {
        Ok(p) => p,
        Err(_) => panic!("plans"),
    };
    match &plans[0].blocks[0].steps[0] {
        Step::Assign { store_to, .. } => assert_eq!(*store_to, None),
        Step::Nop => panic!("expected an assignment"),
    }
    match &plans[0].blocks[0].exit {
        Some(Exit::Switch { value, default, cases }) => {
            assert_eq!(*value, Value::Load(0));
            assert_eq!(*default, 1);
            assert_eq!(cases.clone(), vec![(0, 1)]);
        }
        _ => panic!("expected a switch"),
    }
    assert!(plans[0].blocks[1].exit.is_none());
}

#[test]
fn unknown_local_error() {
    let f = function(
        "f",
        vec![],
        Ty::I64,
        vec![local("x", Ty::I64)],
        vec![block(vec![], Terminator::Return(Some(copy(17))))],
    );
    assert_eq!(compile_err(vec![f]), "Unknown local: 17");
}

#[test]
fn missing_otherwise_error() {
    let f = function(
        "f",
        vec![],
        Ty::I64,
        vec![local("x", Ty::I64)],
        vec![block(vec![], Terminator::SwitchInt { discriminant: copy(0), targets: vec![], otherwise: 3 })],
    );
    assert_eq!(compile_err(vec![f]), "Missing otherwise block");
}

#[test]
fn missing_then_error() {
    let f = function(
        "f",
        vec![],
        Ty::I64,
        vec![local("x", Ty::I64)],
        vec![block(vec![], Terminator::SwitchInt { discriminant: copy(0), targets: vec![(1, 4)], otherwise: 0 })],
    );
    assert_eq!(compile_err(vec![f]), "Missing then block");
}

#[test]
fn unsupported_binary_operator_error() {
    let f = function(
        "f",
        vec![],
        Ty::I64,
        vec![local("x", Ty::I64)],
        vec![block(
            vec![assign(0, Rvalue::BinaryOp(BinOp::BitXor, copy(0), Operand::Constant(1)))],
            Terminator::Unreachable,
        )],
    );
    assert_eq!(compile_err(vec![f]), "Unsupported binary operator: BitXor");
}

#[test]
fn unsupported_rvalue_error() {
    let f = function(
        "f",
        vec![],
        Ty::I64,
        vec![local("x", Ty::I64)],
        vec![block(vec![assign(0, Rvalue::Ref(Place { local: 0 }))], Terminator::Unreachable)],
    );
    assert!(compile_err(vec![f]).starts_with("Unsupported rvalue: "));
}

#[test]
fn first_fault_wins() {
    let f = function(
        "f",
        vec![],
        Ty::I64,
        vec![local("x", Ty::I64)],
        vec![
            block(vec![assign(0, Rvalue::Use(copy(3)))], Terminator::Goto(1)),
            block(vec![assign(0, Rvalue::Call("nope".to_string(), vec![]))], Terminator::Unreachable),
        ],
    );
    assert_eq!(compile_err(vec![f]), "Unknown local: 3");
    match plan_program(&Program { functions: vec![const_main(), route_function()] }) {
        Ok(p) => assert_eq!(p.len(), 2),
        Err(_) => panic!("plans"),
    }
}

#[test]
fn unary_and_comparison_ops() {
    let f = function(
        "ops",
        vec![local("a", Ty::I64)],
        Ty::I64,
        vec![local("a", Ty::I64), local("b", Ty::I64)],
        vec![block(
            vec![
                assign(1, Rvalue::UnaryOp(UnaryOp::Neg, copy(0))),
                assign(1, Rvalue::UnaryOp(UnaryOp::Not, copy(1))),
                assign(1, Rvalue::BinaryOp(BinOp::Div, copy(1), Operand::Constant(3))),
                assign(1, Rvalue::BinaryOp(BinOp::Mod, copy(1), Operand::Constant(5))),
                assign(1, Rvalue::BinaryOp(BinOp::Lt, copy(1), copy(0))),
            ],
            Terminator::Return(Some(copy(1))),
        )],
    );
    let ir = compile_ir(vec![f]);
    assert!(ir.contains("sub i64 0, %load"), "{}", ir);
    assert!(ir.contains("xor i64"), "{}", ir);
    assert!(ir.contains("sdiv i64"), "{}", ir);
    assert!(ir.contains("srem i64"), "{}", ir);
    assert!(ir.contains("icmp slt i64"), "{}", ir);
}

#[test]
fn type_lowering_table() {
    assert_eq!(lower_type(&Ty::Int), NativeType::I64);
    assert_eq!(lower_type(&Ty::I64), NativeType::I64);
    assert_eq!(lower_type(&Ty::I32), NativeType::I32);
    assert_eq!(lower_type(&Ty::I16), NativeType::I16);
    assert_eq!(lower_type(&Ty::I8), NativeType::I8);
    assert_eq!(lower_type(&Ty::Unit), NativeType::I8);
    assert_eq!(lower_type(&Ty::Bool), NativeType::I1);
    assert_eq!(lower_type(&Ty::Float), NativeType::F64);
    assert_eq!(lower_type(&Ty::F64), NativeType::F64);
    assert_eq!(lower_type(&Ty::F32), NativeType::F32);
    assert_eq!(lower_type(&Ty::Str), NativeType::Ptr);
    assert_eq!(lower_type(&Ty::Char), NativeType::I64);
    assert_eq!(lower_type(&Ty::U8), NativeType::I64);
}

#[test]
fn native_types_in_signatures() {
    let f = function(
        "sig",
        vec![local("a", Ty::F64), local("b", Ty::F32), local("c", Ty::Str), local("d", Ty::I16)],
        Ty::Bool,
        vec![],
        vec![block(vec![], Terminator::Unreachable)],
    );
    let ir = compile_ir(vec![f]);
    assert!(ir.contains("define i1 @sig(double %0, float %1, i8* %2, i16 %3)"), "{}", ir);
}

#[test]
fn slot_and_block_names() {
    assert_eq!(local_name(0), "local_0");
    assert_eq!(local_name(12), "local_12");
    assert_eq!(block_name(305), "bb_305");
}

#[test]
fn error_display_and_fault_messages() {
    let e = CodegenError::from_fault(&Fault::UnknownLocal(40));
    assert_eq!(e.message, "Unknown local: 40");
    assert_eq!(e.to_string(), "codegen error: Unknown local: 40");
    let b = CodegenError::builder("store", "UnsetPosition".to_string());
    assert_eq!(b.message, "store failed: UnsetPosition");
}

#[test]
fn write_ir_to_unwritable_path_fails() {
    let context = Context::create();
    let mut cg = LLVMCodegen::new(&context, "io");
    cg.compile(&Program { functions: vec![const_main()] }).expect("compiles");
    let r = cg.write_llvm_ir("/nonexistent_dir_for_forma/out.ll");
    match r {
        Ok(()) => panic!("expected failure"),
        Err(e) => assert!(e.message.starts_with("Failed to write IR: ")),
    }
}

#[test]
fn well_formed_blocks_all_end_in_an_exit() {
    let plans = match plan_program(&Program { functions: vec![route_function(), choose_function(), add_function()] }) {
        Ok(p) => p,
        Err(_) => panic!("plans"),
    };
    for fp in &plans {
        assert!(!fp.blocks.is_empty());
        for bp in &fp.blocks {
            assert!(bp.exit.is_some());
        }
        assert_eq!(*fp.entry.last().unwrap(), EntryStep::Branch(0));
    }
}

#[test]
fn call_to_narrow_parameter_is_emitted() {
    let callee = function(
        "flag",
        vec![local("a", Ty::Bool)],
        Ty::I64,
        vec![local("a", Ty::Bool)],
        vec![ret_const(0)],
    );
    let caller = function(
        "caller",
        vec![],
        Ty::I64,
        vec![local("r", Ty::I64)],
        vec![block(
            vec![assign(0, Rvalue::Call("flag".to_string(), vec![Operand::Constant(1)]))],
            Terminator::Return(Some(copy(0))),
        )],
    );
    let plans = match plan_program(&Program { functions: vec![caller, callee] }) {
        Ok(p) => p,
        Err(_) => panic!("plans"),
    };
    match &plans[0].blocks[0].steps[0] {
        Step::Assign { compute: Computation::Call(j, args), .. } => {
            assert_eq!(*j, 1);
            assert_eq!(args.clone(), vec![Value::Const(1)]);
        }
        _ => panic!("expected a call"),
    }
}

#[test]
fn recursive_call_resolves() {
    let f = function(
        "down",
        vec![local("n", Ty::I64)],
        Ty::I64,
        vec![local("n", Ty::I64), local("r", Ty::I64)],
        vec![block(
            vec![assign(1, Rvalue::Call("down".to_string(), vec![copy(0)]))],
            Terminator::Return(Some(copy(1))),
        )],
    );
    let ir = compile_ir(vec![f]);
    assert!(ir.contains("call i64 @down(i64 %load)"), "{}", ir);
}

#[test]
fn emission_stage_messages() {
    let d = || "detail".to_string();
    assert_eq!(emit_failure(EmitStage::Initialize, d()).message, "Failed to initialize LLVM: detail");
    assert_eq!(emit_failure(EmitStage::Target, d()).message, "Failed to get target: detail");
    assert_eq!(emit_failure(EmitStage::Machine, d()).message, "Failed to create target machine");
    assert_eq!(emit_failure(EmitStage::Write, d()).message, "Failed to write object file: detail");
}

#[test]
fn object_settings_are_generic_defaults() {
    let s = forma::codegen::object_settings();
    assert_eq!(s.cpu, "generic");
    assert_eq!(s.features, "");
    assert_eq!(s.level, forma::native::OptLevel::Default);
    assert_eq!(s.reloc, forma::native::Relocation::Default);
    assert_eq!(s.code, forma::native::CodeSize::Default);
    assert_eq!(s.kind, forma::native::OutputKind::Object);
}

#[test]
fn functions_stay_declared_after_a_fault() {
    let bad = function(
        "bad",
        vec![],
        Ty::I64,
        vec![local("x", Ty::I64)],
        vec![block(vec![], Terminator::Return(Some(copy(9))))],
    );
    let context = Context::create();
    let mut cg = LLVMCodegen::new(&context, "fault");
    let r = cg.compile(&Program { functions: vec![add_function(), bad] });
    assert!(r.is_err());
    let ir = cg.get_llvm_ir();
    assert!(ir.contains("declare i64 @add(i64, i64)"), "{}", ir);
    assert!(ir.contains("declare i64 @bad()"), "{}", ir);
}
