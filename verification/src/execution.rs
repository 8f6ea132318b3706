//! What compiled code does when it runs.
//!
//! Compiled code is followed instruction by instruction. Each call runs a helper on the
//! virtual machine. The laws here say that the code does what the interpreter does.

use vstd::prelude::*;

use crate::backend::{low_bits, Body, Inst, MAX_INSTRUCTIONS};
use crate::bytecode::{pc_bounds, pc_of, program_encoding};
use crate::engine::{instruction_step, Engine, Flow, Machine, Step};
use crate::helpers::call::compiled_code_returns_the_result;
use crate::instruction::Instruction;
use crate::ir::{jump_target_is_read_off_encoding, spec_jump_target};
use crate::jumps::{index_is_unique, index_of, is_at, jump_lands, jumps_land};
use crate::little_endian::le_value;
use crate::runtime::{
    branch_does_step, call_does_step, check_does_step, helper_outcome, is_coherent, operands_for,
    return_outcome, return_status, Outcome,
};
use crate::translate::{
    arguments, block_of, branch_insts, compiled, constants, decision_insts, decision_of,
    exception_block, first_refs, first_value, helper_call, helpers_are_in_order, insts_of,
    main_insts, operands_fit, return_helper_fits, status_insts, translated_size,
    translation_grows, translation_of, value_count, wide_constant, Helper, HelperFuncs,
    Translation, STATUS_EXCEPTION,
};
use crate::value::JsValue;
use crate::vm::VmState;

verus! {

/// What the interpreter does with a function from instruction number `k` on. It carries out
/// one instruction after the other, and follows jumps, until it comes to a return, an
/// exception or the end of the bytecode. `None` means that it jumps back more than `fuel`
/// times before that.
pub open spec fn interpreted<W>(
    program: Seq<Instruction>,
    engine: Engine<W>,
    fuel: nat,
    k: int,
    machine: Machine<W>,
) -> Option<Outcome<W>>
    decreases fuel, program.len() - k,
{
    if k < 0 || k >= program.len() {
        Some(Outcome { status: 0, machine })
    } else if program[k] is Return {
        Some(
            Outcome {
                status: return_status(machine.vm),
                machine: machine.with_vm(machine.vm.compiled_return()),
            },
        )
    } else {
        let done = instruction_step(engine, pc_of(program, k) as u32, program[k], machine);
        let target = index_of(program, spec_jump_target(program[k])->0);
        if done.flow is Next {
            interpreted(program, engine, fuel, k + 1, done.machine)
        } else if done.flow is Throw || spec_jump_target(program[k]) is None {
            Some(Outcome { status: 1, machine: done.machine })
        } else if k < target <= program.len() {
            interpreted(program, engine, fuel, target, done.machine)
        } else if 0 <= target <= k && fuel > 0 {
            interpreted(program, engine, (fuel - 1) as nat, target, done.machine)
        } else {
            None
        }
    }
}

/// The helper that a function of the module is.
pub open spec fn helper_with_id(ids: HelperFuncs, function: u32) -> Helper {
    choose|helper: Helper| #[trigger] ids.get(helper) == function
}

/// What compiled code runs in: its helpers, the engine behind them, and the address of the
/// virtual machine.
#[verifier::reject_recursive_types(W)]
pub struct Setting<W> {
    pub ids: HelperFuncs,
    pub engine: Engine<W>,
    pub address: u64,
}

/// Runs the code of a function from an instruction of a block on. `env` has the values
/// computed so far. Every call must be that of a helper on this virtual machine. `None` means
/// that control goes to an earlier block more than `fuel` times.
#[verifier::opaque]
pub open spec fn run<W>(
    body: Body,
    setting: Setting<W>,
    fuel: nat,
    block: int,
    at: int,
    env: Map<u32, u64>,
    machine: Machine<W>,
) -> Option<Outcome<W>>
    decreases fuel, body.blocks.len() - block, body.blocks[block].insts.len() - at,
{
    let insts = body.blocks[block].insts;
    if block < 0 || block >= body.blocks.len() || at < 0 || at >= insts.len() {
        None
    } else {
        match insts[at] {
            Inst::Iconst { result, value, .. } => run(
                body,
                setting,
                fuel,
                block,
                at + 1,
                env.insert(result, value),
                machine,
            ),
            Inst::Equal { result, left, right } => run(
                body,
                setting,
                fuel,
                block,
                at + 1,
                env.insert(
                    result,
                    if env[left] == env[right] {
                        1
                    } else {
                        0
                    },
                ),
                machine,
            ),
            Inst::Call { results, callee, args } => {
                let helper = helper_with_id(setting.ids, body.imports[callee as int].function);
                let operands = Seq::new((args.len() - 1) as nat, |i: int| env[args[i + 1]]);
                let done = helper_outcome(setting.engine, helper, operands, machine);
                if args.len() == helper.operands() + 1 && env[args[0]] == setting.address {
                    run(
                        body,
                        setting,
                        fuel,
                        block,
                        at + 1,
                        if results.len() == 1 {
                            env.insert(results[0], done.status)
                        } else {
                            env
                        },
                        done.machine,
                    )
                } else {
                    None
                }
            },
            Inst::Jump { target } => if target >= body.blocks.len() {
                None
            } else if block < target {
                run(body, setting, fuel, target as int, 0, env, machine)
            } else if fuel > 0 {
                run(body, setting, (fuel - 1) as nat, target as int, 0, env, machine)
            } else {
                None
            },
            Inst::Branch { condition, nonzero, zero } => {
                let target = if env[condition] != 0 {
                    nonzero
                } else {
                    zero
                };
                if target >= body.blocks.len() {
                    None
                } else if block < target {
                    run(body, setting, fuel, target as int, 0, env, machine)
                } else if fuel > 0 {
                    run(body, setting, (fuel - 1) as nat, target as int, 0, env, machine)
                } else {
                    None
                }
            },
            Inst::Return { args } => if args.len() == 1 {
                Some(Outcome { status: env[args[0]], machine })
            } else {
                None
            },
        }
    }
}

/// Runs a compiled function from where it starts. The block there has the address of the
/// virtual machine as its parameter.
pub open spec fn run_function<W>(
    body: Body,
    setting: Setting<W>,
    fuel: nat,
    machine: Machine<W>,
) -> Option<Outcome<W>> {
    let start = body.start->0 as int;
    run(
        body,
        setting,
        fuel,
        start,
        0,
        Map::empty().insert(body.blocks[start].params[0], setting.address),
        machine,
    )
}

/// Running a constant gives it its value.
proof fn run_iconst<W>(
    body: Body,
    setting: Setting<W>,
    fuel: nat,
    block: int,
    at: int,
    env: Map<u32, u64>,
    machine: Machine<W>,
)
    requires
        0 <= block < body.blocks.len(),
        0 <= at < body.blocks[block].insts.len(),
        body.blocks[block].insts[at] is Iconst,
    ensures
        run(body, setting, fuel, block, at, env, machine) == run(
            body,
            setting,
            fuel,
            block,
            at + 1,
            env.insert(
                body.blocks[block].insts[at]->Iconst_result,
                body.blocks[block].insts[at]->Iconst_value,
            ),
            machine,
        ),
{
    reveal(run);
}

/// Running a comparison gives it its value.
proof fn run_equal<W>(
    body: Body,
    setting: Setting<W>,
    fuel: nat,
    block: int,
    at: int,
    env: Map<u32, u64>,
    machine: Machine<W>,
)
    requires
        0 <= block < body.blocks.len(),
        0 <= at < body.blocks[block].insts.len(),
        body.blocks[block].insts[at] is Equal,
    ensures
        ({
            let inst = body.blocks[block].insts[at];
            let value: u64 = if env[inst->left] == env[inst->right] {
                1
            } else {
                0
            };
            run(body, setting, fuel, block, at, env, machine) == run(
                body,
                setting,
                fuel,
                block,
                at + 1,
                env.insert(inst->Equal_result, value),
                machine,
            )
        }),
{
    reveal(run);
}

/// Where a jump or a branch leads.
spec fn run_from<W>(
    body: Body,
    setting: Setting<W>,
    fuel: nat,
    block: int,
    target: int,
    env: Map<u32, u64>,
    machine: Machine<W>,
) -> Option<Outcome<W>> {
    if block < target {
        run(body, setting, fuel, target, 0, env, machine)
    } else if fuel > 0 {
        run(body, setting, (fuel - 1) as nat, target, 0, env, machine)
    } else {
        None
    }
}

/// Running a jump goes on with its target.
proof fn run_jump<W>(
    body: Body,
    setting: Setting<W>,
    fuel: nat,
    block: int,
    at: int,
    target: u32,
    env: Map<u32, u64>,
    machine: Machine<W>,
)
    requires
        0 <= block < body.blocks.len(),
        0 <= at < body.blocks[block].insts.len(),
        body.blocks[block].insts[at] == (Inst::Jump { target }),
        target < body.blocks.len(),
    ensures
        run(body, setting, fuel, block, at, env, machine) == run_from(
            body,
            setting,
            fuel,
            block,
            target as int,
            env,
            machine,
        ),
{
    reveal(run);
}

/// Running a branch goes on with the target that its condition picks.
proof fn run_branch<W>(
    body: Body,
    setting: Setting<W>,
    fuel: nat,
    block: int,
    at: int,
    target: u32,
    env: Map<u32, u64>,
    machine: Machine<W>,
)
    requires
        0 <= block < body.blocks.len(),
        0 <= at < body.blocks[block].insts.len(),
        body.blocks[block].insts[at] is Branch,
        target == if env[body.blocks[block].insts[at]->condition] != 0 {
            body.blocks[block].insts[at]->nonzero
        } else {
            body.blocks[block].insts[at]->zero
        },
        target < body.blocks.len(),
    ensures
        run(body, setting, fuel, block, at, env, machine) == run_from(
            body,
            setting,
            fuel,
            block,
            target as int,
            env,
            machine,
        ),
{
    reveal(run);
}

/// Running a return ends the function.
proof fn run_return<W>(
    body: Body,
    setting: Setting<W>,
    fuel: nat,
    block: int,
    at: int,
    value: u32,
    env: Map<u32, u64>,
    machine: Machine<W>,
)
    requires
        0 <= block < body.blocks.len(),
        0 <= at < body.blocks[block].insts.len(),
        body.blocks[block].insts[at] == (Inst::Return { args: seq![value] }),
    ensures
        run(body, setting, fuel, block, at, env, machine) == Some(
            Outcome { status: env[value], machine },
        ),
{
    reveal(run);
}

/// Running constants gives them their values, and goes on behind them.
proof fn run_constants<W>(
    body: Body,
    setting: Setting<W>,
    fuel: nat,
    block: int,
    first: nat,
    numbers: Seq<i64>,
    count: nat,
    env: Map<u32, u64>,
    machine: Machine<W>,
) -> (after: Map<u32, u64>)
    requires
        0 <= block < body.blocks.len(),
        constants(first, numbers).is_prefix_of(body.blocks[block].insts),
        count <= numbers.len(),
        0 < first,
        first + numbers.len() < u32::MAX,
    ensures
        run(body, setting, fuel, block, 0, env, machine) == run(
            body,
            setting,
            fuel,
            block,
            count as int,
            after,
            machine,
        ),
        after[0] == env[0],
        forall|i: int|
            0 <= i < count ==> after[#[trigger] ((first + i) as u32)] == low_bits(numbers[i], 32),
    decreases count,
{
    if count == 0 {
        env
    } else {
        let last = count - 1;
        let before = run_constants(
            body,
            setting,
            fuel,
            block,
            first,
            numbers,
            last as nat,
            env,
            machine,
        );
        assert(body.blocks[block].insts[last] == constants(first, numbers)[last]);
        run_iconst(body, setting, fuel, block, last, before, machine);
        before.insert((first + last) as u32, low_bits(numbers[last], 32))
    }
}

/// The compiled function calls the helpers of the module.
proof fn calls_reach_helpers(ptr: u16, ids: HelperFuncs, program: Seq<Instruction>, helper: Helper)
    requires
        ids.fits(),
    ensures
        helper_with_id(
            ids,
            compiled(ptr, ids, program).imports[first_refs().get(helper) as int].function,
        ) == helper,
{
    let function = compiled(ptr, ids, program).imports[first_refs().get(helper) as int].function;
    helpers_are_in_order(helper);
    assert(ids.get(helper) == function);
    let found = helper_with_id(ids, function);
    assert(ids.get(found) == function);
    helpers_are_in_order(found);
}

/// Running a call of a helper with constants for operands does what the helper does, and goes
/// on behind the call.
proof fn run_helper_call<W>(
    ptr: u16,
    program: Seq<Instruction>,
    setting: Setting<W>,
    fuel: nat,
    block: int,
    helper: Helper,
    numbers: Seq<i64>,
    first: nat,
    env: Map<u32, u64>,
    machine: Machine<W>,
) -> (after: Map<u32, u64>)
    requires
        setting.ids.fits(),
        0 <= block < 2 * program.len() + 3,
        numbers.len() < insts_of(program, first_refs(), block).len(),
        constants(first, numbers).is_prefix_of(insts_of(program, first_refs(), block)),
        insts_of(program, first_refs(), block)[numbers.len() as int] == helper_call(
            first_refs(),
            helper,
            first,
        ),
        0 < first,
        first + numbers.len() < u32::MAX,
        numbers.len() == helper.operands(),
        env[0] == setting.address,
    ensures
        ({
            let done = helper_outcome(setting.engine, helper, operands_for(numbers), machine);
            &&& run(compiled(ptr, setting.ids, program), setting, fuel, block, 0, env, machine)
                == run(
                compiled(ptr, setting.ids, program),
                setting,
                fuel,
                block,
                numbers.len() as int + 1,
                after,
                done.machine,
            )
            &&& helper.has_status() ==> after[(first + numbers.len()) as u32] == done.status
        }),
        after[0] == setting.address,
{
    let body = compiled(ptr, setting.ids, program);
    let at = numbers.len() as int;
    let operands = operands_for(numbers);
    let ready = run_constants(
        body,
        setting,
        fuel,
        block,
        first,
        numbers,
        numbers.len(),
        env,
        machine,
    );
    calls_reach_helpers(ptr, setting.ids, program, helper);
    let args = arguments(first, helper.operands());
    let passed = Seq::new((args.len() - 1) as nat, |i: int| ready[args[i + 1]]);
    assert forall|i: int| 0 <= i < passed.len() implies passed[i] == operands[i] by {
        assert(args[i + 1] == (first + i) as u32);
    }
    assert(passed =~= operands);
    assert(args[0] == 0);
    assert(body.blocks[block].insts[at] == helper_call(first_refs(), helper, first));
    let done = helper_outcome(setting.engine, helper, operands, machine);
    reveal(run);
    if helper.has_status() {
        ready.insert((first + numbers.len()) as u32, done.status)
    } else {
        ready
    }
}

/// Running the return of a fixed status returns it.
proof fn run_status<W>(
    body: Body,
    setting: Setting<W>,
    fuel: nat,
    block: int,
    first: nat,
    status: i64,
    env: Map<u32, u64>,
    machine: Machine<W>,
)
    requires
        0 <= block < body.blocks.len(),
        body.blocks[block].insts == status_insts(first, status),
        0 <= status,
    ensures
        run(body, setting, fuel, block, 0, env, machine) == Some(
            Outcome { status: status as u64, machine },
        ),
{
    let insts = body.blocks[block].insts;
    let after = env.insert(first as u32, low_bits(status, 64));
    assert(insts[0] == wide_constant(first, status));
    assert(insts[1] == (Inst::Return { args: seq![first as u32] }));
    run_iconst(body, setting, fuel, block, 0, env, machine);
    run_return(body, setting, fuel, block, 1, first as u32, after, machine);
    assert(low_bits(status, 64) == status);
}

/// What the laws ask of a program: its jumps lead somewhere, and it is not too long for the
/// machine.
pub open spec fn is_translatable(program: Seq<Instruction>) -> bool {
    &&& jumps_land(program)
    &&& program_encoding(program).len() <= u32::MAX
    &&& translated_size(program) < MAX_INSTRUCTIONS
}

/// The numbers of blocks and values fit, and blocks hold what they should.
pub proof fn block_contents(ptr: u16, ids: HelperFuncs, program: Seq<Instruction>, k: int)
    requires
        is_translatable(program),
        0 <= k <= program.len(),
    ensures
        1 <= first_value(program, k),
        first_value(program, k) + 4 < u32::MAX,
        2 * program.len() + 3 < u32::MAX,
        compiled(ptr, ids, program).blocks.len() == 2 * program.len() + 3,
        k < program.len() ==> {
            &&& insts_of(program, first_refs(), 2 * k + 1) == main_insts(program, first_refs(), k)
            &&& insts_of(program, first_refs(), 2 * k + 2) == decision_insts(program, k)
            &&& compiled(ptr, ids, program).blocks[2 * k + 1].insts == main_insts(
                program,
                first_refs(),
                k,
            )
            &&& compiled(ptr, ids, program).blocks[2 * k + 2].insts == decision_insts(program, k)
            &&& 0 <= pc_of(program, k) <= u32::MAX
        },
{
    let n = program.len() as int;
    value_count(ptr, program, k);
    translation_grows(program, 0, n);
    translation_grows(program, k, n);
    if k < n {
        pc_bounds(program, k);
        assert((2 * k + 1) % 2 == 1);
        assert((2 * k + 2) % 2 == 0);
    }
}

/// Running the block that ends a function with an exception does so.
proof fn run_exception<W>(
    ptr: u16,
    program: Seq<Instruction>,
    setting: Setting<W>,
    fuel: nat,
    env: Map<u32, u64>,
    machine: Machine<W>,
)
    requires
        is_translatable(program),
    ensures
        run(
            compiled(ptr, setting.ids, program),
            setting,
            fuel,
            2 * program.len() as int + 2,
            0,
            env,
            machine,
        ) == Some(Outcome { status: 1, machine }),
{
    let n = program.len() as int;
    block_contents(ptr, setting.ids, program, n);
    run_status(
        compiled(ptr, setting.ids, program),
        setting,
        fuel,
        2 * n + 2,
        first_value(program, n) + 1,
        1,
        env,
        machine,
    );
}

/// Running the block of an instruction that calls a helper which always succeeds goes on with
/// the next instruction.
proof fn run_call<W>(
    ptr: u16,
    program: Seq<Instruction>,
    setting: Setting<W>,
    fuel: nat,
    k: int,
    helper: Helper,
    numbers: Seq<i64>,
    env: Map<u32, u64>,
    machine: Machine<W>,
) -> (after: Map<u32, u64>)
    requires
        is_translatable(program),
        setting.ids.fits(),
        0 <= k < program.len(),
        translation_of(program, k) == Translation::Call(helper, numbers),
        env[0] == setting.address,
    ensures
        run(compiled(ptr, setting.ids, program), setting, fuel, 2 * k + 1, 0, env, machine) == run(
            compiled(ptr, setting.ids, program),
            setting,
            fuel,
            2 * k + 3,
            0,
            after,
            helper_outcome(setting.engine, helper, operands_for(numbers), machine).machine,
        ),
        after[0] == setting.address,
{
    let body = compiled(ptr, setting.ids, program);
    let first = first_value(program, k);
    let b = 2 * k + 1;
    let insts = main_insts(program, first_refs(), k);
    let at = numbers.len() as int;
    let done = helper_outcome(setting.engine, helper, operands_for(numbers), machine);
    block_contents(ptr, setting.ids, program, k);
    operands_fit(pc_of(program, k), program[k]);
    assert(constants(first, numbers).is_prefix_of(insts));
    assert(insts[at] == helper_call(first_refs(), helper, first));
    let after = run_helper_call(
        ptr,
        program,
        setting,
        fuel,
        b,
        helper,
        numbers,
        first,
        env,
        machine,
    );
    assert(insts[at + 1] == (Inst::Jump { target: block_of(k + 1) }));
    run_jump(body, setting, fuel, b, at + 1, block_of(k + 1), after, done.machine);
    after
}

/// Running the block of an instruction that calls a helper, and branches on its status,
/// either ends with an exception or goes on with the next instruction.
proof fn run_check<W>(
    ptr: u16,
    program: Seq<Instruction>,
    setting: Setting<W>,
    fuel: nat,
    k: int,
    helper: Helper,
    numbers: Seq<i64>,
    env: Map<u32, u64>,
    machine: Machine<W>,
) -> (after: Map<u32, u64>)
    requires
        is_translatable(program),
        setting.ids.fits(),
        0 <= k < program.len(),
        translation_of(program, k) == Translation::Check(helper, numbers),
        env[0] == setting.address,
    ensures
        ({
            let body = compiled(ptr, setting.ids, program);
            let done = helper_outcome(setting.engine, helper, operands_for(numbers), machine);
            run(body, setting, fuel, 2 * k + 1, 0, env, machine) == if done.status != 0 {
                Some(Outcome { status: 1, machine: done.machine })
            } else {
                run(body, setting, fuel, 2 * k + 3, 0, after, done.machine)
            }
        }),
        after[0] == setting.address,
{
    let body = compiled(ptr, setting.ids, program);
    let first = first_value(program, k);
    let b = 2 * k + 1;
    let insts = main_insts(program, first_refs(), k);
    let at = numbers.len() as int;
    let done = helper_outcome(setting.engine, helper, operands_for(numbers), machine);
    block_contents(ptr, setting.ids, program, k);
    operands_fit(pc_of(program, k), program[k]);
    assert(constants(first, numbers).is_prefix_of(insts));
    assert(insts[at] == helper_call(first_refs(), helper, first));
    let after = run_helper_call(
        ptr,
        program,
        setting,
        fuel,
        b,
        helper,
        numbers,
        first,
        env,
        machine,
    );
    let target = if done.status != 0 {
        exception_block(program.len() as int)
    } else {
        block_of(k + 1)
    };
    assert(insts[at + 1] == (Inst::Branch {
        condition: (first + numbers.len()) as u32,
        nonzero: exception_block(program.len() as int),
        zero: block_of(k + 1),
    }));
    run_branch(body, setting, fuel, b, at + 1, target, after, done.machine);
    if done.status != 0 {
        run_exception(ptr, program, setting, fuel, after, done.machine);
    }
    after
}

/// Running the block of an instruction that may jump goes one of three ways.
#[verifier::rlimit(40)]
proof fn run_decision<W>(
    ptr: u16,
    program: Seq<Instruction>,
    setting: Setting<W>,
    fuel: nat,
    k: int,
    helper: Helper,
    numbers: Seq<i64>,
    address: u32,
    env: Map<u32, u64>,
    machine: Machine<W>,
) -> (after: Map<u32, u64>)
    requires
        is_translatable(program),
        setting.ids.fits(),
        0 <= k < program.len(),
        translation_of(program, k) == Translation::Branch(helper, numbers, address),
        env[0] == setting.address,
    ensures
        ({
            let body = compiled(ptr, setting.ids, program);
            let done = helper_outcome(setting.engine, helper, operands_for(numbers), machine);
            let target = 2 * index_of(program, address) + 1;
            run(body, setting, fuel, 2 * k + 1, 0, env, machine) == if done.status == 2 {
                Some(Outcome { status: 1, machine: done.machine })
            } else if done.status == 0 {
                run(body, setting, fuel, 2 * k + 3, 0, after, done.machine)
            } else if 2 * k + 2 < target {
                run(body, setting, fuel, target, 0, after, done.machine)
            } else if fuel > 0 {
                run(body, setting, (fuel - 1) as nat, target, 0, after, done.machine)
            } else {
                None
            }
        }),
        after[0] == setting.address,
{
    let body = compiled(ptr, setting.ids, program);
    let first = first_value(program, k);
    let b = 2 * k + 1;
    let at = numbers.len() as int;
    let done = helper_outcome(setting.engine, helper, operands_for(numbers), machine);
    let exception = exception_block(program.len() as int);
    let insts = branch_insts(first_refs(), helper, numbers, first, exception, decision_of(k));
    block_contents(ptr, setting.ids, program, k);
    operands_fit(pc_of(program, k), program[k]);
    assert(body.blocks[b].insts == insts);
    assert(constants(first, numbers).is_prefix_of(insts));
    assert(insts[at] == helper_call(first_refs(), helper, first));
    let two = run_helper_call(
        ptr,
        program,
        setting,
        fuel,
        b,
        helper,
        numbers,
        first,
        env,
        machine,
    );
    let status = (first + numbers.len()) as u32;
    let expected = (first + numbers.len() + 1) as u32;
    let result = (first + numbers.len() + 2) as u32;
    let three = two.insert(expected, 2);
    assert(low_bits(STATUS_EXCEPTION, 64) == 2);
    assert(insts[at + 1] == wide_constant(first + numbers.len() + 1, STATUS_EXCEPTION));
    run_iconst(body, setting, fuel, b, at + 1, two, done.machine);
    let thrown: u64 = if done.status == 2 {
        1
    } else {
        0
    };
    let after = three.insert(result, thrown);
    assert(insts[at + 2] == (Inst::Equal { result, left: status, right: expected }));
    assert(three[status] == done.status);
    run_equal(body, setting, fuel, b, at + 2, three, done.machine);
    assert(insts[at + 3] == (Inst::Branch {
        condition: result,
        nonzero: exception,
        zero: decision_of(k),
    }));
    let way = if done.status == 2 {
        exception
    } else {
        decision_of(k)
    };
    run_branch(body, setting, fuel, b, at + 3, way, after, done.machine);
    if done.status == 2 {
        run_exception(ptr, program, setting, fuel, after, done.machine);
    } else {
        let target = index_of(program, address);
        assert(jump_lands(program, program[k]));
        assert(is_at(program, address, target));
        assert(body.blocks[b + 1].insts[0] == (Inst::Branch {
            condition: status,
            nonzero: block_of(target),
            zero: block_of(k + 1),
        }));
        assert(after[status] == done.status);
        let way = if done.status != 0 {
            block_of(target)
        } else {
            block_of(k + 1)
        };
        run_branch(body, setting, fuel, b + 1, 0, way, after, done.machine);
    }
    after
}

/// Running the block of a return ends the function.
proof fn run_finish<W>(
    ptr: u16,
    program: Seq<Instruction>,
    setting: Setting<W>,
    fuel: nat,
    k: int,
    env: Map<u32, u64>,
    machine: Machine<W>,
)
    requires
        is_translatable(program),
        setting.ids.fits(),
        0 <= k < program.len(),
        program[k] is Return,
        env[0] == setting.address,
    ensures
        run(compiled(ptr, setting.ids, program), setting, fuel, 2 * k + 1, 0, env, machine)
            == Some(
            Outcome {
                status: return_status(machine.vm),
                machine: machine.with_vm(machine.vm.compiled_return()),
            },
        ),
{
    let body = compiled(ptr, setting.ids, program);
    let first = first_value(program, k);
    let b = 2 * k + 1;
    let insts = main_insts(program, first_refs(), k);
    let helper = Helper::CheckReturnAndReturn;
    let value = first as u32;
    let numbers = Seq::<i64>::empty();
    block_contents(ptr, setting.ids, program, k);
    operands_fit(pc_of(program, k), program[k]);
    return_helper_fits();
    return_outcome(setting.engine, operands_for(numbers), machine);
    assert(constants(first, numbers).is_prefix_of(insts));
    assert(insts[0] == helper_call(first_refs(), helper, first));
    assert(insts[1] == (Inst::Return { args: seq![value] }));
    let after = run_helper_call(
        ptr,
        program,
        setting,
        fuel,
        b,
        helper,
        numbers,
        first,
        env,
        machine,
    );
    run_return(
        body,
        setting,
        fuel,
        b,
        1,
        value,
        after,
        machine.with_vm(machine.vm.compiled_return()),
    );
}

/// A jump only jumps.
proof fn jump_does_nothing_else<W>(
    engine: Engine<W>,
    position: u32,
    instruction: Instruction,
    machine: Machine<W>,
)
    requires
        instruction is Jump,
    ensures
        instruction_step(engine, position, instruction, machine) == (Step {
            flow: Flow::Jump,
            machine,
        }),
{
    reveal(instruction_step);
}

/// Running the block of an instruction goes on like the interpreter does.
#[verifier::rlimit(60)]
proof fn run_follows_interpreter<W>(
    ptr: u16,
    program: Seq<Instruction>,
    setting: Setting<W>,
    fuel: nat,
    k: int,
    env: Map<u32, u64>,
    machine: Machine<W>,
)
    requires
        is_translatable(program),
        is_coherent(setting.engine),
        setting.ids.fits(),
        0 <= k <= program.len(),
        env[0] == setting.address,
    ensures
        run(compiled(ptr, setting.ids, program), setting, fuel, 2 * k + 1, 0, env, machine)
            == interpreted(program, setting.engine, fuel, k, machine),
    decreases fuel, program.len() - k,
{
    let body = compiled(ptr, setting.ids, program);
    let n = program.len() as int;
    let b = 2 * k + 1;
    block_contents(ptr, setting.ids, program, k);
    if k == n {
        run_status(body, setting, fuel, b, first_value(program, n), 0, env, machine);
    } else {
        let position = pc_of(program, k) as u32;
        let engine = setting.engine;
        let done = instruction_step(engine, position, program[k], machine);
        operands_fit(pc_of(program, k), program[k]);
        assert(jump_lands(program, program[k]));
        match translation_of(program, k) {
            Translation::Call(helper, numbers) => {
                call_does_step(engine, position, program[k], helper, numbers, machine);
                let after = run_call(
                    ptr,
                    program,
                    setting,
                    fuel,
                    k,
                    helper,
                    numbers,
                    env,
                    machine,
                );
                run_follows_interpreter(ptr, program, setting, fuel, k + 1, after, done.machine);
            },
            Translation::Check(helper, numbers) => {
                check_does_step(engine, position, program[k], helper, numbers, machine);
                let after = run_check(
                    ptr,
                    program,
                    setting,
                    fuel,
                    k,
                    helper,
                    numbers,
                    env,
                    machine,
                );
                run_follows_interpreter(ptr, program, setting, fuel, k + 1, after, done.machine);
            },
            Translation::Branch(helper, numbers, address) => {
                branch_does_step(engine, position, program[k], helper, numbers, address, machine);
                let after = run_decision(
                    ptr,
                    program,
                    setting,
                    fuel,
                    k,
                    helper,
                    numbers,
                    address,
                    env,
                    machine,
                );
                let target = index_of(program, address);
                assert(is_at(program, address, target));
                let (at, left) = if done.flow is Next {
                    (k + 1, fuel)
                } else if k < target {
                    (target, fuel)
                } else {
                    (target, (fuel - 1) as nat)
                };
                if done.flow is Next || done.flow is Jump && (k < target || fuel > 0) {
                    run_follows_interpreter(ptr, program, setting, left, at, after, done.machine);
                }
            },
            Translation::Jump(address) => {
                jump_does_nothing_else(engine, position, program[k], machine);
                let target = index_of(program, address);
                assert(is_at(program, address, target));
                assert(main_insts(program, first_refs(), k)[0] == (Inst::Jump {
                    target: block_of(target),
                }));
                run_jump(body, setting, fuel, b, 0, block_of(target), env, machine);
                if k < target {
                    run_follows_interpreter(ptr, program, setting, fuel, target, env, machine);
                } else if fuel > 0 {
                    run_follows_interpreter(
                        ptr,
                        program,
                        setting,
                        (fuel - 1) as nat,
                        target,
                        env,
                        machine,
                    );
                }
            },
            Translation::Finish => {
                run_finish(ptr, program, setting, fuel, k, env, machine);
            },
        }
    }
}

/// A function does the same whether it was compiled or is interpreted, whatever it does and
/// whatever the engine does, as long as its fast paths give the right results: it ends with
/// the same status and leaves the same registers, stack, calls, return value and exception
/// behind, or else both go on forever.
pub proof fn compiled_code_agrees_with_interpreter<W>(
    ptr: u16,
    program: Seq<Instruction>,
    setting: Setting<W>,
    fuel: nat,
    machine: Machine<W>,
)
    requires
        setting.ids.fits(),
        is_coherent(setting.engine),
        is_translatable(program),
    ensures
        run_function(compiled(ptr, setting.ids, program), setting, fuel, machine) == interpreted(
            program,
            setting.engine,
            fuel,
            0,
            machine,
        ),
{
    let body = compiled(ptr, setting.ids, program);
    let env = Map::empty().insert(0u32, setting.address);
    block_contents(ptr, setting.ids, program, 0);
    assert(body.blocks[0].params[0] == 0);
    assert(body.blocks[0].insts[0] == (Inst::Jump { target: 1 }));
    run_jump(body, setting, fuel, 0, 0, 1, env, machine);
    run_follows_interpreter(ptr, program, setting, fuel, 0, env, machine);
}

/// The interpreter ends with status 0 or 1.
proof fn interpreter_status<W>(
    program: Seq<Instruction>,
    engine: Engine<W>,
    fuel: nat,
    k: int,
    machine: Machine<W>,
)
    ensures
        interpreted(program, engine, fuel, k, machine) matches Some(outcome) ==> outcome.status
            <= 1,
    decreases fuel, program.len() - k,
{
    if 0 <= k < program.len() && !(program[k] is Return) {
        let done = instruction_step(engine, pc_of(program, k) as u32, program[k], machine);
        let target = index_of(program, spec_jump_target(program[k])->0);
        if done.flow is Next {
            interpreter_status(program, engine, fuel, k + 1, done.machine);
        } else if done.flow is Throw || spec_jump_target(program[k]) is None {
        } else if k < target <= program.len() {
            interpreter_status(program, engine, fuel, target, done.machine);
        } else if 0 <= target <= k && fuel > 0 {
            interpreter_status(program, engine, (fuel - 1) as nat, target, done.machine);
        }
    }
}

/// Compiled code has no way out but those of the bytecode. Its status is 0 or 1, whichever
/// operations it is made of: no operation makes it give up.
pub proof fn compiled_code_never_gives_up<W>(
    ptr: u16,
    program: Seq<Instruction>,
    setting: Setting<W>,
    fuel: nat,
    machine: Machine<W>,
)
    requires
        setting.ids.fits(),
        is_coherent(setting.engine),
        is_translatable(program),
    ensures
        run_function(
            compiled(ptr, setting.ids, program),
            setting,
            fuel,
            machine,
        ) matches Some(outcome) ==> outcome.status <= 1,
{
    compiled_code_agrees_with_interpreter(ptr, program, setting, fuel, machine);
    interpreter_status(program, setting.engine, fuel, 0, machine);
}

/// A constructor that ends without an object as its result returns its `this`.
pub proof fn constructor_ends_with_this<W>(
    program: Seq<Instruction>,
    engine: Engine<W>,
    fuel: nat,
    k: int,
    machine: Machine<W>,
)
    requires
        0 <= k,
        k + 1 < program.len(),
        program[k] is CheckReturn,
        program[k + 1] is Return,
        machine.vm.frame().construct,
        !(machine.vm.return_value is Object),
        !(machine.vm.this() is Undefined),
    ensures
        interpreted(program, engine, fuel, k, machine) == Some(
            Outcome {
                status: return_status(machine.vm),
                machine: machine.with_vm(
                    machine.vm.set_return_value(machine.vm.this()).compiled_return(),
                ),
            },
        ),
{
    let checked = machine.with_vm(machine.vm.set_return_value(machine.vm.this()));
    reveal(instruction_step);
    assert(interpreted(program, engine, fuel, k, machine) == interpreted(
        program,
        engine,
        fuel,
        k + 1,
        checked,
    ));
}

/// Once the interpreter has come to an end, more fuel changes nothing.
pub proof fn outcome_is_final<W>(
    program: Seq<Instruction>,
    engine: Engine<W>,
    fuel: nat,
    more: nat,
    k: int,
    machine: Machine<W>,
)
    requires
        interpreted(program, engine, fuel, k, machine) is Some,
        fuel <= more,
    ensures
        interpreted(program, engine, more, k, machine) == interpreted(
            program,
            engine,
            fuel,
            k,
            machine,
        ),
    decreases fuel, program.len() - k,
{
    if 0 <= k < program.len() && !(program[k] is Return) {
        let done = instruction_step(engine, pc_of(program, k) as u32, program[k], machine);
        let target = index_of(program, spec_jump_target(program[k])->0);
        if done.flow is Next {
            outcome_is_final(program, engine, fuel, more, k + 1, done.machine);
        } else if done.flow is Throw || spec_jump_target(program[k]) is None {
        } else if k < target <= program.len() {
            outcome_is_final(program, engine, fuel, more, target, done.machine);
        } else if 0 <= target <= k && fuel > 0 {
            outcome_is_final(
                program,
                engine,
                (fuel - 1) as nat,
                (more - 1) as nat,
                target,
                done.machine,
            );
        }
    }
}

/// An instruction that jumps goes on at the address it names, and so never ends the function:
/// not with an exception, and not in any other way. The address is the first word of its
/// encoding, and an operation has one if its byte is from 50 to 64 and not 52. A jump back
/// takes one unit of fuel.
pub proof fn jumps_go_on_at_their_address<W>(
    program: Seq<Instruction>,
    engine: Engine<W>,
    fuel: nat,
    k: int,
    target: int,
    machine: Machine<W>,
)
    requires
        0 <= k < program.len(),
        0 <= target <= program.len(),
        program[k].wf(),
        ({
            let bytes = program[k].encoding();
            &&& 50 <= bytes[0] <= 64 && bytes[0] != 52
            &&& le_value(bytes.subrange(1, 5)) == program_encoding(program.take(target)).len()
        }),
        instruction_step(
            engine,
            program_encoding(program.take(k)).len() as u32,
            program[k],
            machine,
        ).flow is Jump,
    ensures
        ({
            let after = instruction_step(
                engine,
                program_encoding(program.take(k)).len() as u32,
                program[k],
                machine,
            ).machine;
            if target > k {
                interpreted(program, engine, fuel, k, machine) == interpreted(
                    program,
                    engine,
                    fuel,
                    target,
                    after,
                )
            } else {
                interpreted(program, engine, fuel + 1, k, machine) == interpreted(
                    program,
                    engine,
                    fuel,
                    target,
                    after,
                )
            }
        }),
{
    jump_target_is_read_off_encoding(program[k]);
    let address = spec_jump_target(program[k])->0;
    index_is_unique(program, address, target);
}

/// Where an instruction neither jumps nor fails, the next one follows. One that fails ends the
/// function with status 1, and the end of the bytecode ends it with status 0.
pub proof fn instructions_follow_each_other<W>(
    program: Seq<Instruction>,
    engine: Engine<W>,
    fuel: nat,
    k: int,
    machine: Machine<W>,
)
    requires
        0 <= k <= program.len(),
    ensures
        k == program.len() ==> interpreted(program, engine, fuel, k, machine) == Some(
            Outcome { status: 0, machine },
        ),
        k < program.len() && !(program[k] is Return) ==> {
            let done = instruction_step(
                engine,
                program_encoding(program.take(k)).len() as u32,
                program[k],
                machine,
            );
            &&& done.flow is Next ==> interpreted(program, engine, fuel, k, machine)
                == interpreted(program, engine, fuel, k + 1, done.machine)
            &&& done.flow is Throw ==> interpreted(program, engine, fuel, k, machine) == Some(
                Outcome { status: 1, machine: done.machine },
            )
        },
{
}

/// A return ends the function. What the call had on the stack is gone. An ordinary call leaves
/// its result on the caller's stack and ends with status 0; one that exits early keeps it for
/// its caller, and ends with status 1.
pub proof fn returns_end_the_function<W>(
    program: Seq<Instruction>,
    engine: Engine<W>,
    fuel: nat,
    k: int,
    machine: Machine<W>,
    below: Seq<JsValue>,
    this: JsValue,
    function: JsValue,
    arguments: Seq<JsValue>,
    registers: Seq<JsValue>,
)
    requires
        0 <= k < program.len(),
        program[k] is Return,
        machine.vm.stack == below + seq![this, function] + arguments + registers,
        machine.vm.frames.len() > 0,
        machine.vm.frames.last().argument_count == arguments.len(),
        machine.vm.frames.last().rp == below.len() + 2 + arguments.len(),
    ensures
        ({
            let vm = machine.vm;
            let after = if vm.frames.last().exit_early {
                VmState { stack: below, ..vm }
            } else {
                VmState {
                    stack: below.push(vm.return_value),
                    frames: vm.frames.drop_last(),
                    return_value: JsValue::Undefined,
                    ..vm
                }
            };
            interpreted(program, engine, fuel, k, machine) == Some(
                Outcome {
                    status: if vm.frames.last().exit_early {
                        1
                    } else {
                        0
                    },
                    machine: Machine { vm: after, world: machine.world },
                },
            )
        }),
{
    compiled_code_returns_the_result(
        machine.vm,
        below,
        this,
        function,
        arguments,
        registers,
    );
}

/// Native code goes from block to block as it says: a jump goes to its target, a branch to one
/// of two by whether its condition is zero, and a return ends the function with its value. Going
/// back takes one unit of fuel.
pub proof fn native_control_flow<W>(
    body: Body,
    setting: Setting<W>,
    fuel: nat,
    block: int,
    at: int,
    env: Map<u32, u64>,
    machine: Machine<W>,
)
    requires
        0 <= block < body.blocks.len(),
        0 <= at < body.blocks[block].insts.len(),
    ensures
        match body.blocks[block].insts[at] {
            Inst::Jump { target } => block < target < body.blocks.len() ==> run(
                body,
                setting,
                fuel,
                block,
                at,
                env,
                machine,
            ) == run(body, setting, fuel, target as int, 0, env, machine),
            Inst::Branch { condition, nonzero, zero } => {
                &&& env[condition] == 0 && block < zero < body.blocks.len() ==> run(
                    body,
                    setting,
                    fuel,
                    block,
                    at,
                    env,
                    machine,
                ) == run(body, setting, fuel, zero as int, 0, env, machine)
                &&& env[condition] != 0 && block < nonzero < body.blocks.len() ==> run(
                    body,
                    setting,
                    fuel,
                    block,
                    at,
                    env,
                    machine,
                ) == run(body, setting, fuel, nonzero as int, 0, env, machine)
            },
            Inst::Return { args } => args.len() == 1 ==> run(
                body,
                setting,
                fuel,
                block,
                at,
                env,
                machine,
            ) == Some(Outcome { status: env[args[0]], machine }),
            _ => true,
        },
{
    reveal(run);
}

} // verus!
