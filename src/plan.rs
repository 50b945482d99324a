//! The lowering plan: what native code each MIR construct becomes, decided
//! before anything is handed to the native IR builder, and the first fault of
//! a program when it cannot be lowered.
use crate::mir::{BinOp, Block, Function, Operand, Program, Rvalue, Statement, Terminator, UnaryOp};
use crate::types::{lower_type, lowered, NativeType};
use vstd::prelude::*;

verus! {

/// Why a program cannot be lowered.
#[derive(Clone, Debug)]
pub enum Fault {
    UnknownFunction(String),
    UnknownLocal(usize),
    MissingOtherwise,
    MissingThen,
    UnsupportedRvalue,
    UnsupportedBinOp(BinOp),
}

/// Integer comparison predicates; orderings are signed.
#[derive(Clone, Copy, Debug, PartialEq, Eq, Structural)]
pub enum IntPredicate {
    Eq,
    Ne,
    Slt,
    Sle,
    Sgt,
    Sge,
}

/// Native integer instructions with two operands.
#[derive(Clone, Copy, Debug, PartialEq, Eq, Structural)]
pub enum IntOp {
    Add,
    Sub,
    Mul,
    SDiv,
    SRem,
    Compare(IntPredicate),
    And,
    Or,
}

/// An operand as native code sees it: a 64-bit constant, or a 64-bit load
/// from a local's slot.
#[derive(Clone, Copy, Debug, PartialEq, Eq, Structural)]
pub enum Value {
    Const(i64),
    Load(usize),
}

/// What an rvalue computes. Operands are loaded left to right, then the
/// instruction itself is emitted. A call names its callee by its index in
/// the program.
#[derive(Clone, Debug)]
pub enum Computation {
    Use(Value),
    Binary(IntOp, Value, Value),
    Neg(Value),
    Not(Value),
    Call(usize, Vec<Value>),
}

/// The native code of one statement; `store_to` is `None` when the
/// assigned local has no slot, and the result is then dropped.
#[derive(Clone, Debug)]
pub enum Step {
    Nop,
    Assign { compute: Computation, store_to: Option<usize> },
}

/// How a native block ends.
#[derive(Clone, Debug)]
pub enum Exit {
    Return(Option<Value>),
    Branch(usize),
    /// Branch to `then_block` when `cond` differs from zero, else to `else_block`.
    BranchNonZero { cond: Value, then_block: usize, else_block: usize },
    Switch { value: Value, default: usize, cases: Vec<(i64, usize)> },
    Unreachable,
}

#[derive(Clone, Debug)]
pub struct BlockPlan {
    pub steps: Vec<Step>,
    /// `None` where the block's `Goto` names no block.
    pub exit: Option<Exit>,
}

/// The instructions of a function's `entry` block.
#[derive(Clone, Copy, Debug, PartialEq, Eq, Structural)]
pub enum EntryStep {
    /// A stack slot for local `slot`, named after it.
    Alloca { slot: usize, ty: NativeType },
    /// Store of incoming parameter `param` into the slot of local `slot`.
    StoreParam { param: usize, slot: usize },
    Branch(usize),
}

#[derive(Clone, Debug)]
pub struct FunctionPlan {
    pub return_type: NativeType,
    pub param_types: Vec<NativeType>,
    pub entry: Vec<EntryStep>,
    pub blocks: Vec<BlockPlan>,
}

// ---------------------------------------------------------------------------
// The first fault of a sequence of checks, in order.

pub open spec fn first_of(faults: Seq<Option<Fault>>, n: int) -> Option<Fault>
    decreases n,
{
    if n <= 0 {
        None
    } else {
        match first_of(faults, n - 1) {
            Some(e) => Some(e),
            None => faults[n - 1],
        }
    }
}

pub open spec fn first_fault(faults: Seq<Option<Fault>>) -> Option<Fault> {
    first_of(faults, faults.len() as int)
}

proof fn lemma_first_of_stable(faults: Seq<Option<Fault>>, i: int, j: int)
    requires
        0 <= i <= j,
        first_of(faults, i) is Some,
    ensures
        first_of(faults, j) == first_of(faults, i),
    decreases j - i,
{
    if j > i {
        lemma_first_of_stable(faults, i, j - 1);
    }
}

pub proof fn lemma_first_of_none(faults: Seq<Option<Fault>>, n: int)
    requires
        0 <= n <= faults.len(),
    ensures
        first_of(faults, n) is None <==> forall|i: int| 0 <= i < n ==> faults[i] is None,
    decreases n,
{
    if n > 0 {
        lemma_first_of_none(faults, n - 1);
    }
}

// ---------------------------------------------------------------------------
// Faults.

pub open spec fn has_slot(f: Function, local: usize) -> bool {
    local < f.locals@.len()
}

pub open spec fn has_block(f: Function, b: usize) -> bool {
    b < f.blocks@.len()
}

pub open spec fn operand_fault(f: Function, op: Operand) -> Option<Fault> {
    match op {
        Operand::Copy(pl) | Operand::Move(pl) => if has_slot(f, pl.local) {
            None
        } else {
            Some(Fault::UnknownLocal(pl.local))
        },
        Operand::Constant(_) => None,
    }
}

pub open spec fn int_op(op: BinOp) -> Option<IntOp> {
    match op {
        BinOp::Add => Some(IntOp::Add),
        BinOp::Sub => Some(IntOp::Sub),
        BinOp::Mul => Some(IntOp::Mul),
        BinOp::Div => Some(IntOp::SDiv),
        BinOp::Mod => Some(IntOp::SRem),
        BinOp::Eq => Some(IntOp::Compare(IntPredicate::Eq)),
        BinOp::Ne => Some(IntOp::Compare(IntPredicate::Ne)),
        BinOp::Lt => Some(IntOp::Compare(IntPredicate::Slt)),
        BinOp::Le => Some(IntOp::Compare(IntPredicate::Sle)),
        BinOp::Gt => Some(IntOp::Compare(IntPredicate::Sgt)),
        BinOp::Ge => Some(IntOp::Compare(IntPredicate::Sge)),
        BinOp::And => Some(IntOp::And),
        BinOp::Or => Some(IntOp::Or),
        _ => None,
    }
}

/// Some function of `p` is named `name`.
pub open spec fn declares(p: Program, name: Seq<char>) -> bool {
    exists|j: int| 0 <= j < p.functions@.len() && #[trigger] p.functions@[j].name@ == name
}

/// `j` is the first function of `p` named `name`.
pub open spec fn resolves(p: Program, name: Seq<char>, j: usize) -> bool {
    &&& j < p.functions@.len()
    &&& p.functions@[j as int].name@ == name
    &&& forall|k: int| 0 <= k < j ==> #[trigger] p.functions@[k].name@ != name
}

pub open spec fn args_fault(f: Function, args: Seq<Operand>) -> Option<Fault> {
    first_fault(args.map_values(|a: Operand| operand_fault(f, a)))
}

pub open spec fn rvalue_fault(p: Program, f: Function, rv: Rvalue) -> Option<Fault> {
    match rv {
        Rvalue::Use(op) => operand_fault(f, op),
        Rvalue::BinaryOp(op, a, b) => if operand_fault(f, a) is Some {
            operand_fault(f, a)
        } else if operand_fault(f, b) is Some {
            operand_fault(f, b)
        } else if int_op(op) is None {
            Some(Fault::UnsupportedBinOp(op))
        } else {
            None
        },
        Rvalue::UnaryOp(_, a) => operand_fault(f, a),
        Rvalue::Call(name, args) => if !declares(p, name@) {
            Some(Fault::UnknownFunction(name))
        } else {
            args_fault(f, args@)
        },
        Rvalue::Ref(_) => Some(Fault::UnsupportedRvalue),
    }
}

pub open spec fn statement_fault(p: Program, f: Function, s: Statement) -> Option<Fault> {
    match s {
        Statement::Assign(_, rv) => rvalue_fault(p, f, rv),
        Statement::Nop => None,
    }
}

pub open spec fn terminator_fault(f: Function, t: Terminator) -> Option<Fault> {
    match t {
        Terminator::Return(Some(op)) => operand_fault(f, op),
        Terminator::SwitchInt { discriminant, targets, otherwise } => if operand_fault(
            f,
            discriminant,
        ) is Some {
            operand_fault(f, discriminant)
        } else if !has_block(f, otherwise) {
            Some(Fault::MissingOtherwise)
        } else if targets@.len() == 1 && !has_block(f, targets@[0].1) {
            Some(Fault::MissingThen)
        } else {
            None
        },
        _ => None,
    }
}

/// The checks of a block: its statements in order, then its terminator.
pub open spec fn block_faults(p: Program, f: Function, b: Block) -> Seq<Option<Fault>> {
    b.statements@.map_values(|s: Statement| statement_fault(p, f, s)).push(
        terminator_fault(f, b.terminator),
    )
}

pub open spec fn block_fault(p: Program, f: Function, b: Block) -> Option<Fault> {
    first_fault(block_faults(p, f, b))
}

pub open spec fn function_fault(p: Program, f: Function) -> Option<Fault> {
    first_fault(f.blocks@.map_values(|b: Block| block_fault(p, f, b)))
}

/// The fault that stops lowering of `p`, if any: functions, blocks and
/// statements are taken in order.
pub open spec fn program_fault(p: Program) -> Option<Fault> {
    first_fault(p.functions@.map_values(|f: Function| function_fault(p, f)))
}

// ---------------------------------------------------------------------------
// The plan of well-formed code.

pub open spec fn value_of(op: Operand) -> Value {
    match op {
        Operand::Copy(pl) | Operand::Move(pl) => Value::Load(pl.local),
        Operand::Constant(c) => Value::Const(c),
    }
}

pub open spec fn computation_of(p: Program, rv: Rvalue, c: Computation) -> bool {
    match rv {
        Rvalue::Use(op) => c == Computation::Use(value_of(op)),
        Rvalue::BinaryOp(op, a, b) => int_op(op) is Some && c == Computation::Binary(
            int_op(op)->Some_0,
            value_of(a),
            value_of(b),
        ),
        Rvalue::UnaryOp(UnaryOp::Neg, a) => c == Computation::Neg(value_of(a)),
        Rvalue::UnaryOp(UnaryOp::Not, a) => c == Computation::Not(value_of(a)),
        Rvalue::Call(name, args) => match c {
            Computation::Call(j, vals) => resolves(p, name@, j) && vals@ == args@.map_values(
                |a: Operand| value_of(a),
            ),
            _ => false,
        },
        Rvalue::Ref(_) => false,
    }
}

pub open spec fn step_of(p: Program, f: Function, s: Statement, st: Step) -> bool {
    match s {
        Statement::Assign(pl, rv) => match st {
            Step::Assign { compute, store_to } => computation_of(p, rv, compute) && store_to == (
            if has_slot(f, pl.local) {
                Some(pl.local)
            } else {
                None
            }),
            Step::Nop => false,
        },
        Statement::Nop => st is Nop,
    }
}

/// The switch cases whose target is a block of `f`, in their order.
pub open spec fn bound_cases(f: Function, targets: Seq<(i64, usize)>) -> Seq<(i64, usize)>
    decreases targets.len(),
{
    if targets.len() == 0 {
        targets
    } else {
        let rest = bound_cases(f, targets.drop_last());
        if has_block(f, targets.last().1) {
            rest.push(targets.last())
        } else {
            rest
        }
    }
}

pub open spec fn exit_of(f: Function, t: Terminator, e: Option<Exit>) -> bool {
    match t {
        Terminator::Return(None) => e == Some(Exit::Return(None)),
        Terminator::Return(Some(op)) => e == Some(Exit::Return(Some(value_of(op)))),
        Terminator::Goto(b) => e == if has_block(f, b) {
            Some(Exit::Branch(b))
        } else {
            None
        },
        Terminator::SwitchInt { discriminant, targets, otherwise } => if targets@.len() == 1 {
            e == Some(
                Exit::BranchNonZero {
                    cond: value_of(discriminant),
                    then_block: targets@[0].1,
                    else_block: otherwise,
                },
            )
        } else {
            match e {
                Some(Exit::Switch { value, default, cases }) => value == value_of(discriminant)
                    && default == otherwise && cases@ == bound_cases(f, targets@),
                _ => false,
            }
        },
        Terminator::Unreachable => e == Some(Exit::Unreachable),
    }
}

pub open spec fn block_plan_of(p: Program, f: Function, b: Block, bp: BlockPlan) -> bool {
    &&& bp.steps@.len() == b.statements@.len()
    &&& forall|i: int|
        0 <= i < b.statements@.len() ==> step_of(p, f, #[trigger] b.statements@[i], bp.steps@[i])
    &&& exit_of(f, b.terminator, bp.exit)
}

/// The number of parameters that are stored into slots on entry.
pub open spec fn stored_params(f: Function) -> int {
    if f.params@.len() <= f.locals@.len() {
        f.params@.len() as int
    } else {
        f.locals@.len() as int
    }
}

/// The entry block: one slot per local, then each parameter stored into the
/// slot of the same index, then a branch to the first block, if any.
pub open spec fn entry_of(f: Function, entry: Seq<EntryStep>) -> bool {
    let n = f.locals@.len() as int;
    let k = stored_params(f);
    &&& entry.len() == n + k + if f.blocks@.len() > 0 {
        1int
    } else {
        0int
    }
    &&& forall|i: int|
        0 <= i < n ==> #[trigger] entry[i] == EntryStep::Alloca {
            slot: i as usize,
            ty: lowered(f.locals@[i].ty),
        }
    &&& forall|i: int|
        0 <= i < k ==> #[trigger] entry[n + i] == EntryStep::StoreParam {
            param: i as usize,
            slot: i as usize,
        }
    &&& f.blocks@.len() > 0 ==> entry[n + k] == EntryStep::Branch(0)
}

pub open spec fn function_plan_of(p: Program, f: Function, fp: FunctionPlan) -> bool {
    &&& fp.return_type == lowered(f.return_ty)
    &&& fp.param_types@.len() == f.params@.len()
    &&& forall|i: int|
        0 <= i < f.params@.len() ==> #[trigger] fp.param_types@[i] == lowered(f.params@[i].ty)
    &&& entry_of(f, fp.entry@)
    &&& fp.blocks@.len() == f.blocks@.len()
    &&& forall|i: int|
        0 <= i < f.blocks@.len() ==> block_plan_of(p, f, #[trigger] f.blocks@[i], fp.blocks@[i])
}

pub open spec fn program_plan_of(p: Program, plans: Seq<FunctionPlan>) -> bool {
    &&& plans.len() == p.functions@.len()
    &&& forall|i: int|
        0 <= i < plans.len() ==> function_plan_of(p, #[trigger] p.functions@[i], plans[i])
}

// ---------------------------------------------------------------------------
// Indices that a plan refers to: `nl` locals, `nf` functions, `nb` blocks.

pub open spec fn value_fits(v: Value, nl: nat) -> bool {
    match v {
        Value::Load(l) => l < nl,
        Value::Const(_) => true,
    }
}

pub open spec fn computation_fits(c: Computation, nl: nat, nf: nat) -> bool {
    match c {
        Computation::Use(v) | Computation::Neg(v) | Computation::Not(v) => value_fits(v, nl),
        Computation::Binary(_, a, b) => value_fits(a, nl) && value_fits(b, nl),
        Computation::Call(j, args) => j < nf && forall|i: int|
            0 <= i < args@.len() ==> value_fits(#[trigger] args@[i], nl),
    }
}

pub open spec fn step_fits(s: Step, nl: nat, nf: nat) -> bool {
    match s {
        Step::Nop => true,
        Step::Assign { compute, store_to } => computation_fits(compute, nl, nf) && match store_to {
            Some(l) => l < nl,
            None => true,
        },
    }
}

pub open spec fn exit_fits(e: Exit, nl: nat, nb: nat) -> bool {
    match e {
        Exit::Return(Some(v)) => value_fits(v, nl),
        Exit::Return(None) | Exit::Unreachable => true,
        Exit::Branch(t) => t < nb,
        Exit::BranchNonZero { cond, then_block, else_block } => value_fits(cond, nl) && then_block
            < nb && else_block < nb,
        Exit::Switch { value, default, cases } => value_fits(value, nl) && default < nb && forall|
            i: int,
        |
            0 <= i < cases@.len() ==> (#[trigger] cases@[i]).1 < nb,
    }
}

pub open spec fn block_plan_fits(bp: BlockPlan, nl: nat, nf: nat, nb: nat) -> bool {
    &&& forall|i: int| 0 <= i < bp.steps@.len() ==> step_fits(#[trigger] bp.steps@[i], nl, nf)
    &&& match bp.exit {
        Some(e) => exit_fits(e, nl, nb),
        None => true,
    }
}

/// The entry block allocates the slots `0 .. nl` first, in order, and then
/// refers only to those slots and to blocks below `nb`.
pub open spec fn entry_fits(entry: Seq<EntryStep>, nl: nat, nb: nat) -> bool {
    &&& nl <= entry.len()
    &&& forall|i: int|
        0 <= i < entry.len() ==> match #[trigger] entry[i] {
            EntryStep::Alloca { slot, .. } => slot == i && i < nl,
            EntryStep::StoreParam { slot, .. } => slot < nl && i >= nl,
            EntryStep::Branch(t) => t < nb && i >= nl,
        }
}

pub open spec fn function_plan_fits(fp: FunctionPlan, nl: nat, nf: nat, nb: nat) -> bool {
    &&& entry_fits(fp.entry@, nl, nb)
    &&& fp.blocks@.len() == nb
    &&& forall|b: int| 0 <= b < nb ==> block_plan_fits(#[trigger] fp.blocks@[b], nl, nf, nb)
}

// ---------------------------------------------------------------------------
// Lowering.

pub fn plan_operand(f: &Function, op: &Operand) -> (r: Result<Value, Fault>)
    ensures
        r matches Ok(v) ==> value_fits(v, f.locals@.len()),
        match r {
            Ok(v) => operand_fault(*f, *op) is None && v == value_of(*op),
            Err(e) => operand_fault(*f, *op) == Some(e),
        },
{
    match op {
        Operand::Copy(pl) | Operand::Move(pl) => {
            if pl.local < f.locals.len() {
                Ok(Value::Load(pl.local))
            } else {
                Err(Fault::UnknownLocal(pl.local))
            }
        },
        Operand::Constant(c) => Ok(Value::Const(*c)),
    }
}

pub fn plan_int_op(op: BinOp) -> (r: Option<IntOp>)
    ensures
        r == int_op(op),
{
    match op {
        BinOp::Add => Some(IntOp::Add),
        BinOp::Sub => Some(IntOp::Sub),
        BinOp::Mul => Some(IntOp::Mul),
        BinOp::Div => Some(IntOp::SDiv),
        BinOp::Mod => Some(IntOp::SRem),
        BinOp::Eq => Some(IntOp::Compare(IntPredicate::Eq)),
        BinOp::Ne => Some(IntOp::Compare(IntPredicate::Ne)),
        BinOp::Lt => Some(IntOp::Compare(IntPredicate::Slt)),
        BinOp::Le => Some(IntOp::Compare(IntPredicate::Sle)),
        BinOp::Gt => Some(IntOp::Compare(IntPredicate::Sgt)),
        BinOp::Ge => Some(IntOp::Compare(IntPredicate::Sge)),
        BinOp::And => Some(IntOp::And),
        BinOp::Or => Some(IntOp::Or),
        _ => None,
    }
}

/// The index of the first function of `p` named `name`.
pub fn find_function(p: &Program, name: &String) -> (r: Option<usize>)
    ensures
        match r {
            Some(j) => resolves(*p, name@, j),
            None => !declares(*p, name@),
        },
{
    let mut j: usize = 0;
    while j < p.functions.len()
        invariant
            j <= p.functions@.len(),
            forall|k: int| 0 <= k < j ==> #[trigger] p.functions@[k].name@ != name@,
        decreases p.functions@.len() - j,
    {
        if p.functions[j].name == *name {
            return Some(j);
        }
        j = j + 1;
    }
    None
}

fn plan_args(f: &Function, args: &Vec<Operand>) -> (r: Result<Vec<Value>, Fault>)
    ensures
        r matches Ok(vals) ==> forall|i: int|
            0 <= i < vals@.len() ==> value_fits(#[trigger] vals@[i], f.locals@.len()),
        match r {
            Ok(vals) => args_fault(*f, args@) is None && vals@ == args@.map_values(
                |a: Operand| value_of(a),
            ),
            Err(e) => args_fault(*f, args@) == Some(e),
        },
{
    let ghost faults = args@.map_values(|a: Operand| operand_fault(*f, a));
    let mut vals: Vec<Value> = Vec::new();
    let mut i: usize = 0;
    while i < args.len()
        invariant
            i <= args@.len(),
            faults == args@.map_values(|a: Operand| operand_fault(*f, a)),
            first_of(faults, i as int) is None,
            vals@ == args@.take(i as int).map_values(|a: Operand| value_of(a)),
            forall|k: int| 0 <= k < vals@.len() ==> value_fits(#[trigger] vals@[k], f.locals@.len()),
        decreases args@.len() - i,
    {
        match plan_operand(f, &args[i]) {
            Ok(v) => {
                vals.push(v);
                assert(args@.take(i + 1).map_values(|a: Operand| value_of(a)) =~= args@.take(
                    i as int,
                ).map_values(|a: Operand| value_of(a)).push(v));
            },
            Err(e) => {
                proof {
                    lemma_first_of_stable(faults, i + 1, faults.len() as int);
                }
                return Err(e);
            },
        }
        i = i + 1;
    }
    assert(args@.take(i as int) =~= args@);
    Ok(vals)
}

pub fn plan_rvalue(p: &Program, f: &Function, rv: &Rvalue) -> (r: Result<Computation, Fault>)
    ensures
        r matches Ok(c) ==> computation_fits(c, f.locals@.len(), p.functions@.len()),
        match r {
            Ok(c) => rvalue_fault(*p, *f, *rv) is None && computation_of(*p, *rv, c),
            Err(e) => rvalue_fault(*p, *f, *rv) == Some(e),
        },
{
    match rv {
        Rvalue::Use(op) => {
            let v = plan_operand(f, op)?;
            Ok(Computation::Use(v))
        },
        Rvalue::BinaryOp(op, a, b) => {
            let x = plan_operand(f, a)?;
            let y = plan_operand(f, b)?;
            match plan_int_op(*op) {
                Some(io) => Ok(Computation::Binary(io, x, y)),
                None => Err(Fault::UnsupportedBinOp(*op)),
            }
        },
        Rvalue::UnaryOp(op, a) => {
            let x = plan_operand(f, a)?;
            match op {
                UnaryOp::Neg => Ok(Computation::Neg(x)),
                UnaryOp::Not => Ok(Computation::Not(x)),
            }
        },
        Rvalue::Call(name, args) => {
            match find_function(p, name) {
                Some(j) => {
                    proof {
                        assert(p.functions@[j as int].name@ == name@);
                    }
                    let vals = plan_args(f, args)?;
                    Ok(Computation::Call(j, vals))
                },
                None => Err(Fault::UnknownFunction(name.clone())),
            }
        },
        Rvalue::Ref(_) => Err(Fault::UnsupportedRvalue),
    }
}

pub fn plan_statement(p: &Program, f: &Function, s: &Statement) -> (r: Result<Step, Fault>)
    ensures
        r matches Ok(st) ==> step_fits(st, f.locals@.len(), p.functions@.len()),
        match r {
            Ok(st) => statement_fault(*p, *f, *s) is None && step_of(*p, *f, *s, st),
            Err(e) => statement_fault(*p, *f, *s) == Some(e),
        },
{
    match s {
        Statement::Assign(pl, rv) => {
            let compute = plan_rvalue(p, f, rv)?;
            let store_to = if pl.local < f.locals.len() {
                Some(pl.local)
            } else {
                None
            };
            Ok(Step::Assign { compute, store_to })
        },
        Statement::Nop => Ok(Step::Nop),
    }
}

fn plan_cases(f: &Function, targets: &Vec<(i64, usize)>) -> (r: Vec<(i64, usize)>)
    ensures
        forall|i: int| 0 <= i < r@.len() ==> (#[trigger] r@[i]).1 < f.blocks@.len(),
        r@ == bound_cases(*f, targets@),
{
    let mut cases: Vec<(i64, usize)> = Vec::new();
    let mut i: usize = 0;
    while i < targets.len()
        invariant
            i <= targets@.len(),
            cases@ == bound_cases(*f, targets@.take(i as int)),
            forall|k: int| 0 <= k < cases@.len() ==> (#[trigger] cases@[k]).1 < f.blocks@.len(),
        decreases targets@.len() - i,
    {
        assert(targets@.take(i + 1).drop_last() =~= targets@.take(i as int));
        let (value, target) = targets[i];
        if target < f.blocks.len() {
            cases.push((value, target));
        }
        i = i + 1;
    }
    assert(targets@.take(i as int) =~= targets@);
    cases
}

pub fn plan_terminator(f: &Function, t: &Terminator) -> (r: Result<Option<Exit>, Fault>)
    ensures
        r matches Ok(Some(e)) ==> exit_fits(e, f.locals@.len(), f.blocks@.len()),
        match r {
            Ok(e) => terminator_fault(*f, *t) is None && exit_of(*f, *t, e),
            Err(e) => terminator_fault(*f, *t) == Some(e),
        },
{
    match t {
        Terminator::Return(None) => Ok(Some(Exit::Return(None))),
        Terminator::Return(Some(op)) => {
            let v = plan_operand(f, op)?;
            Ok(Some(Exit::Return(Some(v))))
        },
        Terminator::Goto(b) => {
            if *b < f.blocks.len() {
                Ok(Some(Exit::Branch(*b)))
            } else {
                Ok(None)
            }
        },
        Terminator::SwitchInt { discriminant, targets, otherwise } => {
            let value = plan_operand(f, discriminant)?;
            if *otherwise >= f.blocks.len() {
                return Err(Fault::MissingOtherwise);
            }
            if targets.len() == 1 {
                let then_block = targets[0].1;
                if then_block >= f.blocks.len() {
                    return Err(Fault::MissingThen);
                }
                Ok(Some(Exit::BranchNonZero { cond: value, then_block, else_block: *otherwise }))
            } else {
                let cases = plan_cases(f, targets);
                Ok(Some(Exit::Switch { value, default: *otherwise, cases }))
            }
        },
        Terminator::Unreachable => Ok(Some(Exit::Unreachable)),
    }
}

pub fn plan_block(p: &Program, f: &Function, b: &Block) -> (r: Result<BlockPlan, Fault>)
    ensures
        r matches Ok(bp) ==> block_plan_fits(bp, f.locals@.len(), p.functions@.len(), f.blocks@.len()),
        match r {
            Ok(bp) => block_fault(*p, *f, *b) is None && block_plan_of(*p, *f, *b, bp),
            Err(e) => block_fault(*p, *f, *b) == Some(e),
        },
{
    let ghost faults = block_faults(*p, *f, *b);
    let n = b.statements.len();
    let mut steps: Vec<Step> = Vec::new();
    let mut i: usize = 0;
    while i < n
        invariant
            n == b.statements@.len(),
            i <= n,
            faults == block_faults(*p, *f, *b),
            first_of(faults, i as int) is None,
            steps@.len() == i,
            forall|k: int| 0 <= k < i ==> step_of(*p, *f, #[trigger] b.statements@[k], steps@[k]),
            forall|k: int|
                0 <= k < i ==> step_fits(#[trigger] steps@[k], f.locals@.len(), p.functions@.len()),
        decreases n - i,
    {
        match plan_statement(p, f, &b.statements[i]) {
            Ok(st) => {
                steps.push(st);
            },
            Err(e) => {
                proof {
                    lemma_first_of_stable(faults, i + 1, faults.len() as int);
                }
                return Err(e);
            },
        }
        i = i + 1;
    }
    let exit = plan_terminator(f, &b.terminator)?;
    Ok(BlockPlan { steps, exit })
}

/// The entry block of `f`.
pub fn plan_entry(f: &Function) -> (r: Vec<EntryStep>)
    ensures
        entry_fits(r@, f.locals@.len(), f.blocks@.len()),
        entry_of(*f, r@),
{
    let n = f.locals.len();
    let mut entry: Vec<EntryStep> = Vec::new();
    let mut i: usize = 0;
    while i < n
        invariant
            n == f.locals@.len(),
            i <= n,
            entry@.len() == i,
            forall|k: int|
                0 <= k < i ==> #[trigger] entry@[k] == (EntryStep::Alloca {
                    slot: k as usize,
                    ty: lowered(f.locals@[k].ty),
                }),
        decreases n - i,
    {
        let ty = lower_type(&f.locals[i].ty);
        entry.push(EntryStep::Alloca { slot: i, ty });
        i = i + 1;
    }
    let k = if f.params.len() <= n {
        f.params.len()
    } else {
        n
    };
    let mut j: usize = 0;
    while j < k
        invariant
            n == f.locals@.len(),
            k == stored_params(*f),
            j <= k,
            entry@.len() == n + j,
            forall|m: int|
                0 <= m < n ==> #[trigger] entry@[m] == (EntryStep::Alloca {
                    slot: m as usize,
                    ty: lowered(f.locals@[m].ty),
                }),
            forall|m: int|
                0 <= m < j ==> #[trigger] entry@[n + m] == (EntryStep::StoreParam {
                    param: m as usize,
                    slot: m as usize,
                }),
        decreases k - j,
    {
        entry.push(EntryStep::StoreParam { param: j, slot: j });
        j = j + 1;
    }
    if f.blocks.len() > 0 {
        entry.push(EntryStep::Branch(0));
    }
    proof {
        assert forall|i: int| 0 <= i < entry@.len() implies match #[trigger] entry@[i] {
            EntryStep::Alloca { slot, .. } => slot == i && i < n,
            EntryStep::StoreParam { slot, .. } => slot < n && i >= n,
            EntryStep::Branch(t) => t < f.blocks@.len() && i >= n,
        } by {
            if i >= n && i < n + k {
                assert(entry@[n + (i - n)] == (EntryStep::StoreParam {
                    param: (i - n) as usize,
                    slot: (i - n) as usize,
                }));
            }
        }
    }
    entry
}

pub fn plan_function(p: &Program, f: &Function) -> (r: Result<FunctionPlan, Fault>)
    ensures
        r matches Ok(fp) ==> function_plan_fits(fp, f.locals@.len(), p.functions@.len(), f.blocks@.len()),
        match r {
            Ok(fp) => function_fault(*p, *f) is None && function_plan_of(*p, *f, fp),
            Err(e) => function_fault(*p, *f) == Some(e),
        },
{
    let return_type = lower_type(&f.return_ty);
    let mut param_types: Vec<NativeType> = Vec::new();
    let mut i: usize = 0;
    while i < f.params.len()
        invariant
            i <= f.params@.len(),
            param_types@.len() == i,
            forall|k: int|
                0 <= k < i ==> #[trigger] param_types@[k] == lowered(f.params@[k].ty),
        decreases f.params@.len() - i,
    {
        param_types.push(lower_type(&f.params[i].ty));
        i = i + 1;
    }
    let entry = plan_entry(f);
    let ghost faults = f.blocks@.map_values(|b: Block| block_fault(*p, *f, b));
    let mut blocks: Vec<BlockPlan> = Vec::new();
    let mut j: usize = 0;
    while j < f.blocks.len()
        invariant
            j <= f.blocks@.len(),
            faults == f.blocks@.map_values(|b: Block| block_fault(*p, *f, b)),
            first_of(faults, j as int) is None,
            blocks@.len() == j,
            forall|k: int|
                0 <= k < j ==> block_plan_of(*p, *f, #[trigger] f.blocks@[k], blocks@[k]),
            forall|k: int|
                0 <= k < j ==> block_plan_fits(
                    #[trigger] blocks@[k],
                    f.locals@.len(),
                    p.functions@.len(),
                    f.blocks@.len(),
                ),
        decreases f.blocks@.len() - j,
    {
        match plan_block(p, f, &f.blocks[j]) {
            Ok(bp) => {
                blocks.push(bp);
            },
            Err(e) => {
                proof {
                    lemma_first_of_stable(faults, j + 1, faults.len() as int);
                }
                return Err(e);
            },
        }
        j = j + 1;
    }
    Ok(FunctionPlan { return_type, param_types, entry, blocks })
}

/// Lowers every function of `p`, in order, or reports the first fault.
pub fn plan_program(p: &Program) -> (r: Result<Vec<FunctionPlan>, Fault>)
    ensures
        r matches Ok(plans) ==> forall|i: int|
            0 <= i < plans@.len() ==> function_plan_fits(
                #[trigger] plans@[i],
                p.functions@[i].locals@.len(),
                p.functions@.len(),
                p.functions@[i].blocks@.len(),
            ),
        match r {
            Ok(plans) => program_fault(*p) is None && program_plan_of(*p, plans@),
            Err(e) => program_fault(*p) == Some(e),
        },
{
    let ghost faults = p.functions@.map_values(|f: Function| function_fault(*p, f));
    let mut plans: Vec<FunctionPlan> = Vec::new();
    let mut j: usize = 0;
    while j < p.functions.len()
        invariant
            j <= p.functions@.len(),
            faults == p.functions@.map_values(|f: Function| function_fault(*p, f)),
            first_of(faults, j as int) is None,
            plans@.len() == j,
            forall|k: int|
                0 <= k < j ==> function_plan_of(*p, #[trigger] p.functions@[k], plans@[k]),
            forall|k: int|
                0 <= k < j ==> function_plan_fits(
                    #[trigger] plans@[k],
                    p.functions@[k].locals@.len(),
                    p.functions@.len(),
                    p.functions@[k].blocks@.len(),
                ),
        decreases p.functions@.len() - j,
    {
        match plan_function(p, &p.functions[j]) {
            Ok(fp) => {
                plans.push(fp);
            },
            Err(e) => {
                proof {
                    lemma_first_of_stable(faults, j + 1, faults.len() as int);
                }
                return Err(e);
            },
        }
        j = j + 1;
    }
    Ok(plans)
}

} // verus!
