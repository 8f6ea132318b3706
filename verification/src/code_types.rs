//! That compiled code is complete and well typed.

use vstd::prelude::*;

use crate::backend::{Body, Inst};
use crate::bytecode::pc_of;
use crate::execution::{block_contents, is_translatable};
use crate::instruction::Instruction;
use crate::ir::spec_jump_target;
use crate::jumps::{index_of, is_at, jump_lands};
use crate::translate::{
    arguments, block_at_address, block_of, compiled, compiled_signature, constants, decision_insts,
    decision_of, exception_block, first_refs, first_value, helper_call, helpers_are_in_order,
    main_insts, new_values, operands_fit, return_helper_fits, status_insts, translation_grows,
    translation_of, value_count, values_before, wide_constant, Helper, HelperFuncs, Translation,
    STATUS_EXCEPTION,
};

verus! {

/// Every block of a compiled function that has instructions is sealed and filled, and so is
/// the one that it starts at.
pub proof fn compiled_blocks_are_done(ptr: u16, ids: HelperFuncs, program: Seq<Instruction>)
    ensures
        compiled(ptr, ids, program).starts_filled(),
        forall|b: int|
            0 <= b < compiled(ptr, ids, program).blocks.len() ==> {
                let block = #[trigger] compiled(ptr, ids, program).blocks[b];
                block.insts.len() == 0 || block.sealed && block.filled()
            },
{
    let n = program.len() as int;
    assert forall|b: int| 0 <= b < compiled(ptr, ids, program).blocks.len() implies {
        let block = #[trigger] compiled(ptr, ids, program).blocks[b];
        block.insts.len() == 0 || block.sealed && block.filled()
    } by {
        let block = compiled(ptr, ids, program).blocks[b];
        if 0 < b <= 2 * n && b % 2 == 1 {
            let insts = main_insts(program, first_refs(), (b - 1) / 2);
            assert(block.insts == insts);
            assert(insts.last().is_terminator());
        }
    }
}

/// The block of an instruction is filled, and so are the one for exceptions, and the one that
/// decides on a jump.
proof fn block_is_filled(ptr: u16, ids: HelperFuncs, program: Seq<Instruction>, k: int)
    requires
        is_translatable(program),
        0 <= k <= program.len(),
    ensures
        ({
            let blocks = compiled(ptr, ids, program).blocks;
            &&& 0 < block_of(k) < blocks.len()
            &&& blocks[block_of(k) as int].filled()
            &&& 0 < exception_block(program.len() as int) < blocks.len()
            &&& blocks[exception_block(program.len() as int) as int].filled()
            &&& k < program.len() && translation_of(program, k) is Branch ==> {
                &&& 0 < decision_of(k) < blocks.len()
                &&& blocks[decision_of(k) as int].filled()
            }
        }),
{
    let n = program.len() as int;
    let blocks = compiled(ptr, ids, program).blocks;
    block_contents(ptr, ids, program, k);
    if k < n {
        let insts = main_insts(program, first_refs(), k);
        assert(insts.last().is_terminator());
        assert(blocks[2 * k + 1].insts == insts);
    } else {
        assert(blocks[2 * n + 1].insts.last() is Return);
    }
    assert(blocks[2 * n + 2].insts.last() is Return);
}

/// Control goes to filled blocks only, and never back to the one that it starts at.
#[verifier::rlimit(40)]
pub proof fn compiled_targets_are_filled(ptr: u16, ids: HelperFuncs, program: Seq<Instruction>)
    requires
        is_translatable(program),
    ensures
        compiled(ptr, ids, program).targets_are_filled(),
{
    let body = compiled(ptr, ids, program);
    let n = program.len() as int;
    block_contents(ptr, ids, program, n);
    assert forall|b: int, i: int, target: u32|
        #![trigger body.blocks[b].insts[i].leads_to(target)]
        0 <= b < body.blocks.len() && 0 <= i < body.blocks[b].insts.len()
            && body.blocks[b].insts[i].leads_to(target) implies {
        &&& target < body.blocks.len()
        &&& body.start != Some(target)
        &&& body.blocks[target as int].filled()
    } by {
        if b == 0 {
            block_is_filled(ptr, ids, program, 0);
        } else if b <= 2 * n {
            let k = if b % 2 == 1 {
                (b - 1) / 2
            } else {
                (b - 2) / 2
            };
            block_contents(ptr, ids, program, k);
            block_is_filled(ptr, ids, program, k);
            block_is_filled(ptr, ids, program, k + 1);
            assert(jump_lands(program, program[k]));
            if let Some(address) = spec_jump_target(program[k]) {
                let j = index_of(program, address);
                assert(is_at(program, address, j));
                block_is_filled(ptr, ids, program, j);
            }
            operands_fit(pc_of(program, k), program[k]);
            where_control_goes(program, k, body.blocks[b].insts[i], target);
        }
    }
}

/// Where control may go from the blocks of an instruction.
#[verifier::rlimit(40)]
proof fn where_control_goes(program: Seq<Instruction>, k: int, inst: Inst, target: u32)
    requires
        main_insts(program, first_refs(), k).contains(inst) || decision_insts(
            program,
            k,
        ).contains(inst),
        inst.leads_to(target),
    ensures
        ({
            ||| target == block_of(k + 1)
            ||| target == exception_block(program.len() as int)
            ||| target == decision_of(k) && translation_of(program, k) is Branch
            ||| spec_jump_target(program[k]) matches Some(address) && target == block_at_address(
                program,
                address,
            )
        }),
{
    operands_fit(pc_of(program, k), program[k]);
}

/// Values have types.
pub open spec fn have_types(values: Seq<u16>, ids: Seq<u32>, types: Seq<u16>) -> bool {
    &&& ids.len() == types.len()
    &&& forall|i: int|
        0 <= i < ids.len() ==> (#[trigger] ids[i]) < values.len() && values[ids[i] as int]
            == types[i]
}

/// A block that control can go to without handing over values.
pub open spec fn takes_nothing(body: Body, block: u32) -> bool {
    block < body.blocks.len() && body.blocks[block as int].params.len() == 0
}

/// The values that an instruction works on have the types that it asks for, and the blocks
/// that it goes to are there.
pub open spec fn well_typed(body: Body, inst: Inst) -> bool {
    match inst {
        Inst::Iconst { result, bits, .. } => have_types(body.values, seq![result], seq![bits]),
        Inst::Call { results, callee, args } => {
            &&& callee < body.imports.len()
            &&& have_types(body.values, args, body.imports[callee as int].signature.params)
            &&& have_types(body.values, results, body.imports[callee as int].signature.returns)
        },
        Inst::Equal { result, left, right } => {
            &&& have_types(body.values, seq![result], seq![8u16])
            &&& body.same_type(left, right)
        },
        Inst::Jump { target } => takes_nothing(body, target),
        Inst::Branch { condition, nonzero, zero } => {
            &&& condition < body.values.len()
            &&& takes_nothing(body, nonzero)
            &&& takes_nothing(body, zero)
        },
        Inst::Return { args } => have_types(body.values, args, body.signature.returns),
    }
}

/// All instructions are well typed.
pub open spec fn all_well_typed(body: Body, insts: Seq<Inst>) -> bool {
    forall|i: int| 0 <= i < insts.len() ==> well_typed(body, #[trigger] insts[i])
}

/// The values of an instruction have the types that they should.
proof fn types_of_values(ptr: u16, ids: HelperFuncs, program: Seq<Instruction>, k: int, n: int)
    requires
        0 <= k < n,
    ensures
        ({
            let first = first_value(program, k) as int;
            let types = new_values(translation_of(program, k));
            let values = values_before(ptr, program, n);
            &&& first + types.len() <= values.len()
            &&& forall|i: int|
                first <= i < first + types.len() ==> #[trigger] values[i] == types[i - first]
        }),
    decreases n,
{
    value_count(ptr, program, k);
    if k < n - 1 {
        types_of_values(ptr, ids, program, k, n - 1);
    }
}

/// The call of a helper on values of the right types is well typed.
proof fn helper_call_is_well_typed(
    ptr: u16,
    ids: HelperFuncs,
    program: Seq<Instruction>,
    helper: Helper,
    first: nat,
)
    requires
        ({
            let values = compiled(ptr, ids, program).values;
            &&& first + helper.operands() + helper.return_types().len() <= values.len()
            &&& values.len() < u32::MAX
            &&& values[0] == ptr
            &&& first >= 1
            &&& forall|i: int|
                first <= i < first + helper.operands() ==> #[trigger] values[i] == 32
            &&& helper.has_status() ==> values[(first + helper.operands()) as int] == 64
        }),
    ensures
        well_typed(compiled(ptr, ids, program), helper_call(first_refs(), helper, first)),
{
    let body = compiled(ptr, ids, program);
    helpers_are_in_order(helper);
    let callee = first_refs().get(helper);
    let signature = body.imports[callee as int].signature;
    assert(signature == helper.signature(ptr));
    let args = arguments(first, helper.operands());
    assert forall|i: int| 0 <= i < args.len() implies (#[trigger] args[i]) < body.values.len()
        && body.values[args[i] as int] == signature.params[i] by {
        if i > 0 {
            assert(args[i] == (first + (i - 1)) as u32);
            assert(body.values[first + (i - 1)] == 32);
        }
    }
}

/// The return of a fixed status is well typed.
proof fn status_is_well_typed(body: Body, first: nat, status: i64)
    requires
        first < body.values.len() < u32::MAX,
        body.values[first as int] == 64,
        body.signature.returns == seq![64u16],
    ensures
        all_well_typed(body, status_insts(first, status)),
{
    let insts = status_insts(first, status);
    assert forall|i: int| 0 <= i < insts.len() implies well_typed(body, #[trigger] insts[i]) by {
        if i == 0 {
            assert(insts[0] == wide_constant(first, status));
        } else {
            assert(insts[1] == (Inst::Return { args: seq![first as u32] }));
        }
    }
}

/// What the translation of an instruction can rely on: its values have the types that they
/// should, and the blocks that it may go to are there.
proof fn surroundings(ptr: u16, ids: HelperFuncs, program: Seq<Instruction>, k: int)
    requires
        is_translatable(program),
        0 <= k < program.len(),
    ensures
        ({
            let body = compiled(ptr, ids, program);
            let first = first_value(program, k);
            let types = new_values(translation_of(program, k));
            &&& first >= 1
            &&& first + types.len() <= body.values.len()
            &&& body.values.len() < u32::MAX
            &&& body.values[0] == ptr
            &&& forall|i: int|
                first <= i < first + types.len() ==> #[trigger] body.values[i] == types[i - first]
            &&& takes_nothing(body, block_of(k + 1))
            &&& takes_nothing(body, decision_of(k))
            &&& takes_nothing(body, exception_block(program.len() as int))
            &&& spec_jump_target(program[k]) matches Some(address) ==> takes_nothing(
                body,
                block_at_address(program, address),
            )
        }),
{
    let body = compiled(ptr, ids, program);
    let n = program.len() as int;
    let first = first_value(program, k);
    let types = new_values(translation_of(program, k));
    let values = values_before(ptr, program, n);
    block_contents(ptr, ids, program, k);
    value_count(ptr, program, k);
    value_count(ptr, program, n);
    translation_grows(program, 0, n);
    types_of_values(ptr, ids, program, k, n);
    assert forall|i: int| first <= i < first + types.len() implies #[trigger] body.values[i]
        == types[i - first] by {
        assert(body.values[i] == values[i]);
    }
    assert(jump_lands(program, program[k]));
    if let Some(address) = spec_jump_target(program[k]) {
        assert(is_at(program, address, index_of(program, address)));
    }
}

/// The call of a helper with constants for operands is well typed.
proof fn call_is_well_typed(
    ptr: u16,
    ids: HelperFuncs,
    program: Seq<Instruction>,
    helper: Helper,
    numbers: Seq<i64>,
    first: nat,
)
    requires
        ({
            let values = compiled(ptr, ids, program).values;
            &&& numbers.len() == helper.operands()
            &&& first + numbers.len() + helper.return_types().len() <= values.len()
            &&& values.len() < u32::MAX
            &&& values[0] == ptr
            &&& first >= 1
            &&& forall|i: int| first <= i < first + numbers.len() ==> #[trigger] values[i] == 32
            &&& helper.has_status() ==> values[(first + numbers.len()) as int] == 64
        }),
    ensures
        all_well_typed(
            compiled(ptr, ids, program),
            constants(first, numbers).push(helper_call(first_refs(), helper, first)),
        ),
{
    let body = compiled(ptr, ids, program);
    let insts = constants(first, numbers).push(helper_call(first_refs(), helper, first));
    helper_call_is_well_typed(ptr, ids, program, helper, first);
    assert forall|i: int| 0 <= i < insts.len() implies well_typed(body, #[trigger] insts[i]) by {
        if i < numbers.len() {
            assert(insts[i] == constants(first, numbers)[i]);
            assert(body.values[first + i] == 32);
        }
    }
}

/// Instructions that are well typed on their own are well typed together.
proof fn typed_together(body: Body, first: Seq<Inst>, second: Seq<Inst>)
    requires
        all_well_typed(body, first),
        all_well_typed(body, second),
    ensures
        all_well_typed(body, first + second),
{
    let insts = first + second;
    assert forall|i: int| 0 <= i < insts.len() implies well_typed(body, #[trigger] insts[i]) by {
        if i < first.len() {
            assert(insts[i] == first[i]);
        } else {
            assert(insts[i] == second[i - first.len()]);
        }
    }
}

/// The instructions that tell an exception and a jump apart are well typed.
#[verifier::rlimit(30)]
proof fn branch_is_well_typed(ptr: u16, ids: HelperFuncs, program: Seq<Instruction>, k: int)
    requires
        is_translatable(program),
        0 <= k < program.len(),
        translation_of(program, k) is Branch,
    ensures
        all_well_typed(compiled(ptr, ids, program), main_insts(program, first_refs(), k)),
        all_well_typed(compiled(ptr, ids, program), decision_insts(program, k)),
{
    let body = compiled(ptr, ids, program);
    let n = program.len() as int;
    let first = first_value(program, k);
    surroundings(ptr, ids, program, k);
    operands_fit(pc_of(program, k), program[k]);
    if let Translation::Branch(helper, numbers, address) = translation_of(program, k) {
        let status = first + numbers.len();
        let types = new_values(translation_of(program, k));
        assert forall|i: int| first <= i < status implies #[trigger] body.values[i] == 32 by {
            assert(types[i - first] == 32);
        }
        assert(types[numbers.len() as int] == 64);
        assert(types[numbers.len() as int + 1] == 64);
        assert(types[numbers.len() as int + 2] == 8);
        assert(body.values[status as int] == 64);
        assert(body.values[status as int + 1] == 64);
        assert(body.values[status as int + 2] == 8);
        call_is_well_typed(ptr, ids, program, helper, numbers, first);
        let call = helper_call(first_refs(), helper, first);
        let constant = wide_constant(status + 1, STATUS_EXCEPTION);
        let equal = Inst::Equal {
            result: (status + 2) as u32,
            left: status as u32,
            right: (status + 1) as u32,
        };
        let last = Inst::Branch {
            condition: (status + 2) as u32,
            nonzero: exception_block(n),
            zero: decision_of(k),
        };
        let front = constants(first, numbers).push(call);
        let back = seq![constant, equal, last];
        assert(well_typed(body, constant));
        assert(well_typed(body, equal));
        assert(well_typed(body, last));
        assert(all_well_typed(body, back));
        typed_together(body, front, back);
        assert(main_insts(program, first_refs(), k) =~= front + back);
    }
}

/// The translation of an instruction is well typed.
proof fn instruction_is_well_typed(ptr: u16, ids: HelperFuncs, program: Seq<Instruction>, k: int)
    requires
        is_translatable(program),
        0 <= k < program.len(),
    ensures
        all_well_typed(compiled(ptr, ids, program), main_insts(program, first_refs(), k)),
        all_well_typed(compiled(ptr, ids, program), decision_insts(program, k)),
{
    let body = compiled(ptr, ids, program);
    let first = first_value(program, k);
    let insts = main_insts(program, first_refs(), k);
    let types = new_values(translation_of(program, k));
    surroundings(ptr, ids, program, k);
    operands_fit(pc_of(program, k), program[k]);
    match translation_of(program, k) {
        Translation::Call(helper, numbers) => {
            let status = first + numbers.len();
            assert forall|i: int| first <= i < status implies #[trigger] body.values[i] == 32 by {
                assert(types[i - first] == 32);
            }
            call_is_well_typed(ptr, ids, program, helper, numbers, first);
            let front = constants(first, numbers).push(helper_call(first_refs(), helper, first));
            let back = seq![Inst::Jump { target: block_of(k + 1) }];
            typed_together(body, front, back);
            assert(insts =~= front + back);
        },
        Translation::Check(helper, numbers) => {
            let status = first + numbers.len();
            assert forall|i: int| first <= i < status implies #[trigger] body.values[i] == 32 by {
                assert(types[i - first] == 32);
            }
            assert(types[numbers.len() as int] == 64);
            assert(body.values[status as int] == 64);
            call_is_well_typed(ptr, ids, program, helper, numbers, first);
            let front = constants(first, numbers).push(helper_call(first_refs(), helper, first));
            let last = Inst::Branch {
                condition: status as u32,
                nonzero: exception_block(program.len() as int),
                zero: block_of(k + 1),
            };
            assert(well_typed(body, last));
            let back = seq![last];
            typed_together(body, front, back);
            assert(insts =~= front + back);
        },
        Translation::Branch(_, _, _) => {
            branch_is_well_typed(ptr, ids, program, k);
        },
        Translation::Jump(address) => {},
        Translation::Finish => {
            let helper = Helper::CheckReturnAndReturn;
            let numbers = Seq::<i64>::empty();
            return_helper_fits();
            assert(body.values[first as int] == 64);
            call_is_well_typed(ptr, ids, program, helper, numbers, first);
            let front = constants(first, numbers).push(helper_call(first_refs(), helper, first));
            let last = Inst::Return { args: seq![first as u32] };
            assert(well_typed(body, last));
            let back = seq![last];
            typed_together(body, front, back);
            assert(insts =~= front + back);
        },
    }
}

/// Compiled code matches the types that it is declared with: helpers get a pointer and
/// 32-bit numbers, what is returned is one 64-bit status, and jumps lead to blocks that are
/// there.
pub proof fn compiled_code_is_well_typed(
    ptr: u16,
    ids: HelperFuncs,
    program: Seq<Instruction>,
    b: int,
)
    requires
        is_translatable(program),
        0 <= b < compiled(ptr, ids, program).blocks.len(),
    ensures
        compiled(ptr, ids, program).signature == compiled_signature(ptr),
        all_well_typed(
            compiled(ptr, ids, program),
            compiled(ptr, ids, program).blocks[b].insts,
        ),
{
    let body = compiled(ptr, ids, program);
    let n = program.len() as int;
    let first = first_value(program, n);
    block_contents(ptr, ids, program, n);
    value_count(ptr, program, n);
    translation_grows(program, 0, n);
    if b == 0 {
        assert(takes_nothing(body, block_of(0)));
    } else if b == 2 * n + 1 {
        assert(body.values[first as int] == 64);
        status_is_well_typed(body, first, 0);
    } else if b == 2 * n + 2 {
        assert(body.values[first as int + 1] == 64);
        status_is_well_typed(body, first + 1, 1);
    } else {
        let k = if b % 2 == 1 {
            (b - 1) / 2
        } else {
            (b - 2) / 2
        };
        instruction_is_well_typed(ptr, ids, program, k);
    }
}

} // verus!
