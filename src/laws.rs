//! Structural facts of every lowering plan.
use crate::mir::{gotos_in_range, Function, Program, Rvalue, Statement};
use crate::plan::{
    block_fault, block_faults, declares, function_fault, function_plan_of, lemma_first_of_none,
    program_fault, program_plan_of, resolves, statement_fault, stored_params, Computation,
    EntryStep, FunctionPlan, Step,
};
use crate::codegen::{blocks_trace, entry_trace, function_trace, plans_trace, signature_of, Signature};
use crate::types::lowered;
use vstd::prelude::*;

verus! {

/// A program that lowers without fault calls only functions that it declares:
/// every `Call(name, _)` in any of its bodies names a function of the program.
pub proof fn lemma_lowered_calls_are_declared(p: Program, i: int, b: int, s: int)
    requires
        program_fault(p) is None,
        0 <= i < p.functions@.len(),
        0 <= b < p.functions@[i].blocks@.len(),
        0 <= s < p.functions@[i].blocks@[b].statements@.len(),
    ensures
        match p.functions@[i].blocks@[b].statements@[s] {
            Statement::Assign(_, Rvalue::Call(name, _)) => declares(p, name@),
            _ => true,
        },
{
    let f = p.functions@[i];
    let blk = f.blocks@[b];
    let pf = p.functions@.map_values(|g: Function| function_fault(p, g));
    lemma_first_of_none(pf, pf.len() as int);
    assert(pf[i] is None);
    let bf = f.blocks@.map_values(|x: crate::mir::Block| block_fault(p, f, x));
    lemma_first_of_none(bf, bf.len() as int);
    assert(bf[b] is None);
    let sf = block_faults(p, f, blk);
    lemma_first_of_none(sf, sf.len() as int);
    assert(sf[s] is None);
    assert(statement_fault(p, f, blk.statements@[s]) is None);
}

/// After `compile` of a program without fault, every `Call(name, _)` in any of
/// its bodies names a function that the session declared: the declared
/// signatures are those of the program's functions, in order.
pub proof fn lemma_calls_name_declared_signatures(
    p: Program,
    sigs: Seq<Signature>,
    i: int,
    b: int,
    s: int,
)
    requires
        program_fault(p) is None,
        sigs == p.functions@.map_values(|f: Function| signature_of(f)),
        0 <= i < p.functions@.len(),
        0 <= b < p.functions@[i].blocks@.len(),
        0 <= s < p.functions@[i].blocks@[b].statements@.len(),
    ensures
        match p.functions@[i].blocks@[b].statements@[s] {
            Statement::Assign(_, Rvalue::Call(name, _)) => exists|j: int|
                0 <= j < sigs.len() && (#[trigger] sigs[j]).name == name@,
            _ => true,
        },
{
    lemma_lowered_calls_are_declared(p, i, b, s);
    match p.functions@[i].blocks@[b].statements@[s] {
        Statement::Assign(_, Rvalue::Call(name, _)) => {
            let j = choose|j: int| 0 <= j < p.functions@.len() && #[trigger] p.functions@[j].name@ == name@;
            assert(sigs[j].name == name@);
        },
        _ => {},
    }
}

/// In a plan, every call goes to a function of the program that bears the
/// callee's name, and the program has a plan for it; so the declaration pass,
/// which declares every function of the plan, has declared it before any
/// body refers to it.
pub proof fn lemma_calls_resolve(
    p: Program,
    plans: Seq<FunctionPlan>,
    i: int,
    b: int,
    s: int,
)
    requires
        program_plan_of(p, plans),
        0 <= i < plans.len(),
        0 <= b < plans[i].blocks@.len(),
        0 <= s < plans[i].blocks@[b].steps@.len(),
    ensures
        match plans[i].blocks@[b].steps@[s] {
            Step::Assign { compute: Computation::Call(j, _), .. } => {
                &&& j < plans.len()
                &&& p.functions@[i].blocks@[b].statements@[s] matches Statement::Assign(
                    _,
                    Rvalue::Call(name, _),
                )
                &&& resolves(p, name@, j)
            },
            _ => true,
        },
{
    let f = p.functions@[i];
    assert(function_plan_of(p, f, plans[i]));
    assert(crate::plan::block_plan_of(p, f, f.blocks@[b], plans[i].blocks@[b]));
    assert(crate::plan::step_of(p, f, f.blocks@[b].statements@[s], plans[i].blocks@[b].steps@[s]));
}

/// The entry block allocates exactly one slot per local, in order of the
/// locals, each of the local's lowered type, and allocates nothing else.
pub proof fn lemma_one_allocation_per_local(p: Program, f: Function, fp: FunctionPlan)
    requires
        function_plan_of(p, f, fp),
    ensures
        forall|i: int|
            0 <= i < f.locals@.len() ==> #[trigger] fp.entry@[i] == (EntryStep::Alloca {
                slot: i as usize,
                ty: lowered(f.locals@[i].ty),
            }),
        forall|k: int|
            f.locals@.len() <= k < fp.entry@.len() ==> !(#[trigger] fp.entry@[k] is Alloca),
{
    let n = f.locals@.len() as int;
    let kp = stored_params(f);
    assert forall|k: int| n <= k < fp.entry@.len() implies !(#[trigger] fp.entry@[k] is Alloca) by {
        if k < n + kp {
            assert(fp.entry@[n + (k - n)] == (EntryStep::StoreParam {
                param: (k - n) as usize,
                slot: (k - n) as usize,
            }));
        }
    }
}

/// The entry block stores the formal parameters, in order, each into the
/// slot of the local with its index, right after the allocations; it stores
/// nothing else. All parameters are stored when each has a local.
pub proof fn lemma_parameters_materialized(p: Program, f: Function, fp: FunctionPlan)
    requires
        function_plan_of(p, f, fp),
    ensures
        f.params@.len() <= f.locals@.len() ==> stored_params(f) == f.params@.len(),
        forall|i: int|
            0 <= i < stored_params(f) ==> #[trigger] fp.entry@[f.locals@.len() + i] == (
            EntryStep::StoreParam { param: i as usize, slot: i as usize }),
        forall|k: int|
            0 <= k < fp.entry@.len() && (#[trigger] fp.entry@[k] is StoreParam) ==> f.locals@.len()
                <= k < f.locals@.len() + stored_params(f),
{
    let n = f.locals@.len() as int;
    let kp = stored_params(f);
    assert forall|k: int| 0 <= k < fp.entry@.len() && (#[trigger] fp.entry@[k] is StoreParam) implies n
        <= k < n + kp by {
        if k < n {
            assert(fp.entry@[k] is Alloca);
        } else if k < n + kp {
        } else {
            assert(fp.entry@[k] == EntryStep::Branch(0));
        }
    }
}

/// A function with at least one block enters it from the `entry` block,
/// whose last instruction is the branch to block 0.
pub proof fn lemma_entry_branches_to_first_block(p: Program, f: Function, fp: FunctionPlan)
    requires
        function_plan_of(p, f, fp),
        f.blocks@.len() >= 1,
    ensures
        fp.entry@.len() >= 1,
        fp.entry@.last() == EntryStep::Branch(0),
{
}

/// When every `Goto` of `f` names one of its blocks, every block of the plan
/// ends in exactly one exit.
pub proof fn lemma_blocks_terminated(p: Program, f: Function, fp: FunctionPlan, b: int)
    requires
        function_plan_of(p, f, fp),
        gotos_in_range(f),
        0 <= b < fp.blocks@.len(),
    ensures
        fp.blocks@[b].exit is Some,
{
    assert(crate::plan::block_plan_of(p, f, f.blocks@[b], fp.blocks@[b]));
    if f.blocks@[b].terminator is Goto {
        assert(f.blocks@[b].terminator matches crate::mir::Terminator::Goto(t) ==> t
            < f.blocks@.len());
    }
}

/// The record of the first `i` functions begins the record of the first `n`.
proof fn lemma_plans_trace_prefix(plans: Seq<FunctionPlan>, i: int, n: int)
    requires
        0 <= i <= n <= plans.len(),
    ensures
        plans_trace(plans, i).len() <= plans_trace(plans, n).len(),
        plans_trace(plans, n).subrange(0, plans_trace(plans, i).len() as int) == plans_trace(
            plans,
            i,
        ),
    decreases n - i,
{
    if i < n {
        lemma_plans_trace_prefix(plans, i, n - 1);
        let a = plans_trace(plans, n - 1);
        let b = plans_trace(plans, n);
        assert(b == a + function_trace(plans[n - 1]));
        assert(b.subrange(0, plans_trace(plans, i).len() as int) =~= a.subrange(
            0,
            plans_trace(plans, i).len() as int,
        ));
    } else {
        assert(plans_trace(plans, n).subrange(0, plans_trace(plans, n).len() as int) =~= plans_trace(
            plans,
            n,
        ));
    }
}

/// In the record of a whole program, function `i` has its own segment: the
/// items of its entry block (one slot per local, then the parameter stores,
/// then the branch to block 0, as the plan laws above state), followed by
/// each of its blocks in order (a move to the block, its steps, its exit).
pub proof fn lemma_function_segment(plans: Seq<FunctionPlan>, i: int)
    requires
        0 <= i < plans.len(),
    ensures
        ({
            let all = plans_trace(plans, plans.len() as int);
            let start = plans_trace(plans, i).len() as int;
            let end = plans_trace(plans, i + 1).len() as int;
            &&& 0 <= start <= end <= all.len()
            &&& all.subrange(start, end) == entry_trace(plans[i].entry@) + blocks_trace(
                plans[i].blocks@,
                plans[i].blocks@.len() as int,
            )
        }),
{
    let n = plans.len() as int;
    lemma_plans_trace_prefix(plans, i + 1, n);
    let all = plans_trace(plans, n);
    let before = plans_trace(plans, i);
    let upto = plans_trace(plans, i + 1);
    assert(upto == before + function_trace(plans[i]));
    assert(all.subrange(before.len() as int, upto.len() as int) =~= upto.subrange(
        before.len() as int,
        upto.len() as int,
    ));
    assert(upto.subrange(before.len() as int, upto.len() as int) =~= function_trace(plans[i]));
}

} // verus!
