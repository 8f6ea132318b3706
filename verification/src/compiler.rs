//! The compiler from bytecode to native code.
//!
//! It translates a [`CodeBlock`] into a native function that operates on the same virtual
//! machine and stack that the interpreter uses. It goes from instruction to instruction on its
//! own, but still calls back into runtime helpers for all value operations.

use cranelift_codegen::ir::Signature;
use cranelift_frontend::FunctionBuilder;
use cranelift_jit::{JITBuilder, JITModule};
use vstd::prelude::*;

use crate::backend::{
    add_param, add_return, add_symbol, append_function_params, block_param, builder_body,
    built_function, clear_context, codegen_error_text, context_for_function, create_block,
    declare_func_in_func, declare_function, define_function, finalize, finalize_definitions,
    get_finalized_function, host_module_builder, ins_branch, ins_call, ins_equal, ins_iconst,
    ins_jump, ins_return, low_bits, make_signature, module_error_text, module_parts, module_state,
    new_builder, new_builder_context, new_function, new_module, pointer_bits, seal_all_blocks,
    set_opt_level, settings_builder, signature_types, switch_to_block, BlockBody, Body, Declaration,
    FunctionLinkage, HostError, Import, Inst, ModuleParts, ModuleState, MAX_INSTRUCTIONS,
};
use crate::bytecode::{located, pc_bounds, pc_of, program_encoding};
use crate::code_block::CodeBlock;
use crate::code_types::{compiled_blocks_are_done, compiled_targets_are_filled};
use crate::engine::Machine;
use crate::execution::{
    compiled_code_agrees_with_interpreter, interpreted, is_translatable, run_function, Setting,
};
use crate::instruction::Instruction;
use crate::jumps::{find_instruction, jump_lands, jumps_land};
use crate::names::{function_name, function_names_are_unique, jit_function_name};
use crate::runtime::is_coherent;
use crate::support::can_compile;
use crate::translate::{
    arguments, block_body, block_of, branch_insts, compiled, compiled_signature, constants,
    decision_insts, decision_of, entry, exception_block, first_refs, first_value, helper_at,
    helper_call, helper_imports, helper_symbols_are_no_function_names, helper_symbols_are_unique,
    helpers_are_in_order, helpers_declared, lower, main_insts, new_size, new_values, operands_fit,
    places_are_in_order, return_helper_fits, size_before, status_insts, translated_size,
    translation_grows, translation_of, value_count, values_before, wide_constant,
    with_declaration, with_helpers, words, Helper, HelperFuncs, Lowering, HELPER_COUNT,
    STATUS_BREAK, STATUS_CONTINUE, STATUS_EXCEPTION,
};

verus! {

/// A function with instructions added to the current block, and the values that they give.
spec fn extended(body: Body, insts: Seq<Inst>, types: Seq<u16>) -> Body {
    let block = body.current_block();
    Body {
        values: body.values + types,
        blocks: body.blocks.update(
            body.current->0 as int,
            BlockBody { insts: block.insts + insts, ..block },
        ),
        size: body.size + insts.len(),
        start: if body.start is Some || insts.len() == 0 {
            body.start
        } else {
            body.current
        },
        ..body
    }
}

/// A function that is at another block.
spec fn switched(body: Body, block: u32) -> Body {
    Body { current: Some(block), ..body }
}

/// A function has the helpers imported, with what they return.
spec fn returns_of_helpers(body: Body, refs: HelperFuncs) -> bool {
    forall|helper: Helper| #[trigger] returns_of_helper(body, refs, helper)
}

/// A function has a helper imported, with what it returns.
spec fn returns_of_helper(body: Body, refs: HelperFuncs, helper: Helper) -> bool {
    let callee = refs.get(helper);
    &&& callee < body.imports.len()
    &&& body.imports[callee as int].signature.returns == helper.return_types()
}

/// There is room for a number of instructions, and the current block is open.
spec fn has_room(body: Body, count: nat) -> bool {
    &&& body.current matches Some(block) && block < body.blocks.len()
        && !body.blocks[block as int].filled()
    &&& body.size + count < MAX_INSTRUCTIONS
    &&& body.values.len() <= body.size
    &&& body.values.len() >= 1
}

/// Adding instructions one after the other is adding them together.
proof fn extended_twice(
    body: Body,
    first: Seq<Inst>,
    first_types: Seq<u16>,
    second: Seq<Inst>,
    second_types: Seq<u16>,
)
    requires
        body.current matches Some(block) && block < body.blocks.len(),
    ensures
        extended(extended(body, first, first_types), second, second_types) == extended(
            body,
            first + second,
            first_types + second_types,
        ),
{
    let once = extended(body, first, first_types);
    let twice = extended(once, second, second_types);
    let whole = extended(body, first + second, first_types + second_types);
    assert(twice.values =~= whole.values);
    assert(once.current_block().insts + second =~= body.current_block().insts + (first + second));
    assert(twice.blocks =~= whole.blocks);
}

/// Adds the call of a helper. Returns the value that its status has, if it has one.
#[verifier::rlimit(40)]
fn call_helper(
    builder: &mut FunctionBuilder<'_>,
    refs: &HelperFuncs,
    ctx_ptr: u32,
    helper: Helper,
    numbers: &Vec<i64>,
) -> (results: Vec<u32>)
    requires
        has_room(builder_body(*old(builder)), numbers@.len() + 1),
        returns_of_helpers(builder_body(*old(builder)), *refs),
        refs.fits(),
        numbers@.len() == helper.operands(),
        ctx_ptr == 0,
    ensures
        builder_body(*final(builder)) == extended(
            builder_body(*old(builder)),
            constants(builder_body(*old(builder)).values.len(), numbers@).push(
                helper_call(*refs, helper, builder_body(*old(builder)).values.len()),
            ),
            words(numbers@.len()) + helper.return_types(),
        ),
        built_function(*final(builder)) == built_function(*old(builder)),
        results@.len() == helper.return_types().len(),
        helper.has_status() ==> results@[0] == builder_body(*old(builder)).values.len()
            + numbers@.len(),
{
    let ghost before = builder_body(*builder);
    let ghost first = before.values.len();
    let mut args: Vec<u32> = vec![ctx_ptr];
    let mut i: usize = 0;
    proof {
        assert(constants(first, numbers@.take(0)) =~= Seq::empty());
        let block = before.current_block();
        assert(block.insts + Seq::<Inst>::empty() =~= block.insts);
        assert(before.blocks.update(before.current->0 as int, block) =~= before.blocks);
        assert(before.values + words(0) =~= before.values);
        assert(builder_body(*builder) == extended(
            before,
            constants(first, numbers@.take(0)),
            words(0),
        ));
        assert(args@ =~= arguments(first, 0));
    }
    while i < numbers.len()
        invariant
            i <= numbers@.len(),
            has_room(before, numbers@.len() + 1),
            first == before.values.len(),
            builder_body(*builder) == extended(
                before,
                constants(first, numbers@.take(i as int)),
                words(i as nat),
            ),
            built_function(*builder) == built_function(*old(builder)),
            args@ == arguments(first, i as nat),
        decreases numbers@.len() - i,
    {
        let ghost so_far = constants(first, numbers@.take(i as int));
        let ghost inst = Inst::Iconst {
            result: (first + i) as u32,
            bits: 32,
            value: low_bits(numbers@[i as int], 32),
        };
        let ghost middle = builder_body(*builder);
        proof {
            assert(!middle.current_block().filled()) by {
                if i > 0 {
                    assert(middle.current_block().insts.last() == so_far.last());
                }
            }
        }
        let value: u32 = ins_iconst(builder, 32, numbers[i]);
        proof {
            assert(middle.current_block().insts.push(inst) =~= middle.current_block().insts
                + seq![inst]);
            assert(builder_body(*builder) == extended(middle, seq![inst], seq![32u16]));
            extended_twice(before, so_far, words(i as nat), seq![inst], seq![32u16]);
            assert(so_far + seq![inst] =~= constants(first, numbers@.take(i + 1)));
            assert(words(i as nat) + seq![32u16] =~= words((i + 1) as nat));
        }
        args.push(value);
        assert(args@ =~= arguments(first, (i + 1) as nat));
        i = i + 1;
    }
    let ghost middle = builder_body(*builder);
    let ghost all = constants(first, numbers@);
    let ghost inst = helper_call(*refs, helper, first);
    proof {
        assert(numbers@.take(i as int) =~= numbers@);
        assert(!middle.current_block().filled()) by {
            if i > 0 {
                assert(middle.current_block().insts.last() == all.last());
            }
        }
        assert(returns_of_helper(before, *refs, helper));
    }
    let callee: u32 = refs.number(helper);
    let results = ins_call(builder, callee, &args);
    proof {
        assert(results@ =~= if helper.has_status() {
            seq![(first + helper.operands()) as u32]
        } else {
            Seq::empty()
        });
        assert(middle.current_block().insts.push(inst) =~= middle.current_block().insts
            + seq![inst]);
        assert(builder_body(*builder) == extended(middle, seq![inst], helper.return_types()));
        extended_twice(before, all, words(numbers@.len()), seq![inst], helper.return_types());
        assert(all + seq![inst] =~= all.push(inst));
    }
    results
}

/// Adds the return of a fixed status.
fn return_status(builder: &mut FunctionBuilder<'_>, status: i64)
    requires
        has_room(builder_body(*old(builder)), 2),
    ensures
        builder_body(*final(builder)) == extended(
            builder_body(*old(builder)),
            status_insts(builder_body(*old(builder)).values.len(), status),
            seq![64u16],
        ),
        built_function(*final(builder)) == built_function(*old(builder)),
{
    let ghost before = builder_body(*builder);
    let value: u32 = ins_iconst(builder, 64, status);
    ins_return(builder, value);
    proof {
        let block = before.current_block();
        let insts = status_insts(before.values.len(), status);
        assert(block.insts.push(insts[0]).push(insts[1]) =~= block.insts + insts);
        assert(builder_body(*builder).blocks =~= extended(before, insts, seq![64u16]).blocks);
    }
}

/// A function with the translation of the first `k` instructions.
#[verifier::opaque]
spec fn is_translated_to(body: Body, ptr: u16, program: Seq<Instruction>, k: int) -> bool {
    &&& body.values == values_before(ptr, program, k)
    &&& body.size == size_before(program, k)
    &&& body.start == Some(0u32)
    &&& body.blocks == Seq::new(
        (2 * program.len() + 3) as nat,
        |b: int|
            if b <= 2 * k {
                block_body(program, first_refs(), b, false)
            } else {
                BlockBody::fresh()
            },
    )
    &&& body.current matches Some(current) && current < body.blocks.len()
        && body.blocks[current as int].filled()
}

/// Filling the blocks of one more instruction.
proof fn one_more_instruction(
    before: Body,
    after: Body,
    ptr: u16,
    program: Seq<Instruction>,
    k: int,
)
    requires
        0 <= k < program.len(),
        2 * program.len() + 3 < u32::MAX,
        is_translated_to(before, ptr, program, k),
        after.values == before.values + new_values(translation_of(program, k)),
        after.size == before.size + new_size(translation_of(program, k)),
        after.start == before.start,
        after.blocks == before.blocks.update(
            2 * k + 1,
            BlockBody { insts: main_insts(program, first_refs(), k), ..BlockBody::fresh() },
        ).update(
            2 * k + 2,
            BlockBody { insts: decision_insts(program, k), ..BlockBody::fresh() },
        ),
        after.current matches Some(current) && current < after.blocks.len()
            && after.blocks[current as int].filled(),
    ensures
        is_translated_to(after, ptr, program, k + 1),
{
    reveal(is_translated_to);
    let target = Seq::new(
        (2 * program.len() + 3) as nat,
        |b: int|
            if b <= 2 * (k + 1) {
                block_body(program, first_refs(), b, false)
            } else {
                BlockBody::fresh()
            },
    );
    assert((2 * k + 1) % 2 == 1);
    assert((2 * k + 2) % 2 == 0);
    assert forall|b: int| 0 <= b < target.len() implies after.blocks[b] == target[b] by {
        assert(before.blocks[b] == if b <= 2 * k {
            block_body(program, first_refs(), b, false)
        } else {
            BlockBody::fresh()
        });
    }
    assert(after.blocks =~= target);
}

/// The blocks of one more instruction have been filled.
#[verifier::rlimit(40)]
proof fn blocks_filled(before: Body, after: Body, ptr: u16, program: Seq<Instruction>, k: int)
    requires
        0 <= k < program.len(),
        2 * program.len() + 3 < u32::MAX,
        is_translated_to(before, ptr, program, k),
        ({
            let main = extended(
                switched(before, block_of(k)),
                main_insts(program, first_refs(), k),
                new_values(translation_of(program, k)),
            );
            after == if translation_of(program, k) is Branch {
                extended(
                    switched(main, decision_of(k)),
                    decision_insts(program, k),
                    Seq::empty(),
                )
            } else {
                main
            }
        }),
    ensures
        is_translated_to(after, ptr, program, k + 1),
{
    reveal(is_translated_to);
    let insts = main_insts(program, first_refs(), k);
    let types = new_values(translation_of(program, k));
    let decision = decision_insts(program, k);
    assert(before.blocks[2 * k + 1] == BlockBody::fresh());
    assert(before.blocks[2 * k + 2] == BlockBody::fresh());
    assert(Seq::<Inst>::empty() + insts =~= insts);
    assert(Seq::<Inst>::empty() + decision =~= decision);
    assert(insts.last().is_terminator());
    assert(types + Seq::<u16>::empty() =~= types);
    assert(before.values + types + Seq::<u16>::empty() =~= before.values + types);
    assert(insts.len() + decision.len() == new_size(translation_of(program, k)));
    let target = before.blocks.update(
        2 * k + 1,
        BlockBody { insts, ..BlockBody::fresh() },
    ).update(2 * k + 2, BlockBody { insts: decision, ..BlockBody::fresh() });
    assert(after.blocks =~= target);
    one_more_instruction(before, after, ptr, program, k);
}

/// Adds a jump.
fn jump(builder: &mut FunctionBuilder<'_>, target: u32)
    requires
        has_room(builder_body(*old(builder)), 1),
        builder_body(*old(builder)).is_target(target),
    ensures
        builder_body(*final(builder)) == extended(
            builder_body(*old(builder)),
            seq![Inst::Jump { target }],
            Seq::empty(),
        ),
        built_function(*final(builder)) == built_function(*old(builder)),
{
    let ghost before = builder_body(*builder);
    ins_jump(builder, target);
    proof {
        one_instruction(before, Inst::Jump { target });
    }
}

/// Adds a branch.
fn branch(builder: &mut FunctionBuilder<'_>, condition: u32, nonzero: u32, zero: u32)
    requires
        has_room(builder_body(*old(builder)), 1),
        condition < builder_body(*old(builder)).values.len(),
        builder_body(*old(builder)).is_target(nonzero),
        builder_body(*old(builder)).is_target(zero),
    ensures
        builder_body(*final(builder)) == extended(
            builder_body(*old(builder)),
            seq![Inst::Branch { condition, nonzero, zero }],
            Seq::empty(),
        ),
        built_function(*final(builder)) == built_function(*old(builder)),
{
    let ghost before = builder_body(*builder);
    ins_branch(builder, condition, nonzero, zero);
    proof {
        one_instruction(before, Inst::Branch { condition, nonzero, zero });
    }
}

/// Adding one instruction that gives no value.
proof fn one_instruction(body: Body, inst: Inst)
    requires
        body.current matches Some(block) && block < body.blocks.len(),
    ensures
        body.append(inst) == extended(body, seq![inst], Seq::empty()),
{
    let block = body.current_block();
    assert(block.insts.push(inst) =~= block.insts + seq![inst]);
    assert(body.values + Seq::<u16>::empty() =~= body.values);
}

/// Adding instructions that do not end a block leaves it open, with what else there is.
proof fn still_open(body: Body, insts: Seq<Inst>, types: Seq<u16>, count: nat)
    requires
        has_room(body, insts.len() + count),
        insts.len() > 0 ==> !insts.last().is_terminator(),
        types.len() <= insts.len(),
    ensures
        has_room(extended(body, insts, types), count),
        forall|block: u32| #[trigger]
            extended(body, insts, types).is_target(block) <==> body.is_target(block),
{
    let after = extended(body, insts, types);
    if insts.len() > 0 {
        assert(after.current_block().insts.last() == insts.last());
    } else {
        assert(after.current_block().insts =~= body.current_block().insts);
    }
}

/// Adds the call of a helper that always succeeds, and goes on with the next block.
fn lower_call(
    builder: &mut FunctionBuilder<'_>,
    refs: &HelperFuncs,
    ctx_ptr: u32,
    helper: Helper,
    numbers: &Vec<i64>,
    next: u32,
)
    requires
        has_room(builder_body(*old(builder)), numbers@.len() + 2),
        returns_of_helpers(builder_body(*old(builder)), *refs),
        refs.fits(),
        numbers@.len() == helper.operands(),
        !helper.has_status(),
        ctx_ptr == 0,
        builder_body(*old(builder)).is_target(next),
    ensures
        ({
            let first = builder_body(*old(builder)).values.len();
            builder_body(*final(builder)) == extended(
                builder_body(*old(builder)),
                constants(first, numbers@) + seq![
                    helper_call(*refs, helper, first),
                    Inst::Jump { target: next },
                ],
                words(numbers@.len()),
            )
        }),
        built_function(*final(builder)) == built_function(*old(builder)),
{
    let ghost before = builder_body(*builder);
    let ghost first = before.values.len();
    let ghost call = helper_call(*refs, helper, first);
    let ghost insts = constants(first, numbers@).push(call);
    let ghost types = words(numbers@.len()) + helper.return_types();
    call_helper(builder, refs, ctx_ptr, helper, numbers);
    proof {
        assert(types =~= words(numbers@.len()));
        still_open(before, insts, types, 1);
    }
    jump(builder, next);
    proof {
        let end = seq![Inst::Jump { target: next }];
        extended_twice(before, insts, types, end, Seq::empty());
        assert(insts + end =~= constants(first, numbers@) + seq![
            call,
            Inst::Jump { target: next },
        ]);
        assert(types + Seq::<u16>::empty() =~= types);
    }
}

/// Adds the call of a helper that may leave an exception pending. If it does, control goes to
/// the block for that, else to the next one.
fn lower_check(
    builder: &mut FunctionBuilder<'_>,
    refs: &HelperFuncs,
    ctx_ptr: u32,
    helper: Helper,
    numbers: &Vec<i64>,
    exception: u32,
    next: u32,
)
    requires
        has_room(builder_body(*old(builder)), numbers@.len() + 2),
        returns_of_helpers(builder_body(*old(builder)), *refs),
        refs.fits(),
        numbers@.len() == helper.operands(),
        helper.has_status(),
        ctx_ptr == 0,
        builder_body(*old(builder)).is_target(exception),
        builder_body(*old(builder)).is_target(next),
    ensures
        ({
            let first = builder_body(*old(builder)).values.len();
            builder_body(*final(builder)) == extended(
                builder_body(*old(builder)),
                constants(first, numbers@) + seq![
                    helper_call(*refs, helper, first),
                    Inst::Branch {
                        condition: (first + numbers@.len()) as u32,
                        nonzero: exception,
                        zero: next,
                    },
                ],
                words(numbers@.len()).push(64),
            )
        }),
        built_function(*final(builder)) == built_function(*old(builder)),
{
    let ghost before = builder_body(*builder);
    let ghost first = before.values.len();
    let ghost call = helper_call(*refs, helper, first);
    let ghost insts = constants(first, numbers@).push(call);
    let ghost types = words(numbers@.len()) + helper.return_types();
    let results = call_helper(builder, refs, ctx_ptr, helper, numbers);
    proof {
        assert(types =~= words(numbers@.len()).push(64));
        still_open(before, insts, types, 1);
    }
    branch(builder, results[0], exception, next);
    proof {
        let last = Inst::Branch {
            condition: (first + numbers@.len()) as u32,
            nonzero: exception,
            zero: next,
        };
        let end = seq![last];
        extended_twice(before, insts, types, end, Seq::empty());
        assert(insts + end =~= constants(first, numbers@) + seq![call, last]);
        assert(types + Seq::<u16>::empty() =~= types);
    }
}

/// Adds the call of a helper for an instruction that may jump. If it leaves an exception
/// pending, control goes to the block for that, else to the one that decides. Returns the
/// status.
#[verifier::rlimit(40)]
fn lower_branch(
    builder: &mut FunctionBuilder<'_>,
    refs: &HelperFuncs,
    ctx_ptr: u32,
    helper: Helper,
    numbers: &Vec<i64>,
    exception: u32,
    decision: u32,
) -> (status: u32)
    requires
        has_room(builder_body(*old(builder)), numbers@.len() + 4),
        returns_of_helpers(builder_body(*old(builder)), *refs),
        refs.fits(),
        numbers@.len() == helper.operands(),
        helper.has_status(),
        ctx_ptr == 0,
        builder_body(*old(builder)).is_target(exception),
        builder_body(*old(builder)).is_target(decision),
    ensures
        ({
            let first = builder_body(*old(builder)).values.len();
            &&& status == first + numbers@.len()
            &&& builder_body(*final(builder)) == extended(
                builder_body(*old(builder)),
                branch_insts(*refs, helper, numbers@, first, exception, decision),
                words(numbers@.len()) + seq![64u16, 64u16, 8u16],
            )
        }),
        built_function(*final(builder)) == built_function(*old(builder)),
{
    let ghost before = builder_body(*builder);
    let ghost first = before.values.len();
    let ghost len = numbers@.len();
    let ghost call = helper_call(*refs, helper, first);
    let ghost a = constants(first, numbers@).push(call);
    let ghost types = words(len) + helper.return_types();
    let results = call_helper(builder, refs, ctx_ptr, helper, numbers);
    let status: u32 = results[0];
    proof {
        assert(types =~= words(len).push(64));
        still_open(before, a, types, 3);
    }
    let ghost called = builder_body(*builder);
    let expected: u32 = ins_iconst(builder, 64, STATUS_EXCEPTION);
    let ghost constant = wide_constant(first + len + 1, STATUS_EXCEPTION);
    let ghost held = builder_body(*builder);
    proof {
        assert(called.current_block().insts.len() > 0);
        one_value(called, constant, 64);
        assert(held == extended(called, seq![constant], seq![64u16]));
        still_open(called, seq![constant], seq![64u16], 2);
        assert(called.values[status as int] == types[len as int]);
        assert(held.values[status as int] == 64);
        assert(held.values[expected as int] == 64);
    }
    let thrown: u32 = ins_equal(builder, status, expected);
    let ghost equal = Inst::Equal { result: thrown, left: status, right: expected };
    let ghost compared = builder_body(*builder);
    proof {
        one_value(held, equal, 8);
        assert(compared == extended(held, seq![equal], seq![8u16]));
        still_open(held, seq![equal], seq![8u16], 1);
        assert(compared.is_target(exception) && compared.is_target(decision)) by {
            assert(held.is_target(exception) && held.is_target(decision)) by {
                assert(called.is_target(exception) && called.is_target(decision));
            }
        }
    }
    branch(builder, thrown, exception, decision);
    proof {
        let last = Inst::Branch { condition: thrown, nonzero: exception, zero: decision };
        extended_twice(before, a, types, seq![constant], seq![64u16]);
        extended_twice(
            before,
            a + seq![constant],
            types + seq![64u16],
            seq![equal],
            seq![8u16],
        );
        let most = a + seq![constant] + seq![equal];
        let all_types = types + seq![64u16] + seq![8u16];
        extended_twice(before, most, all_types, seq![last], Seq::empty());
        assert(most + seq![last] =~= branch_insts(
            *refs,
            helper,
            numbers@,
            first,
            exception,
            decision,
        ));
        assert(all_types + Seq::<u16>::empty() =~= words(len) + seq![64u16, 64u16, 8u16]);
    }
    status
}

/// Adds the call of a helper for an instruction that may jump, and fills the block that
/// decides whether it does.
fn lower_decision(
    builder: &mut FunctionBuilder<'_>,
    refs: &HelperFuncs,
    ctx_ptr: u32,
    helper: Helper,
    numbers: &Vec<i64>,
    exception: u32,
    decision: u32,
    target: u32,
    next: u32,
)
    requires
        has_room(builder_body(*old(builder)), numbers@.len() + 5),
        returns_of_helpers(builder_body(*old(builder)), *refs),
        refs.fits(),
        numbers@.len() == helper.operands(),
        helper.has_status(),
        ctx_ptr == 0,
        builder_body(*old(builder)).is_target(exception),
        builder_body(*old(builder)).is_target(decision),
        builder_body(*old(builder)).is_target(target),
        builder_body(*old(builder)).is_target(next),
        builder_body(*old(builder)).current != Some(decision),
        !builder_body(*old(builder)).blocks[decision as int].filled(),
    ensures
        ({
            let first = builder_body(*old(builder)).values.len();
            let main = extended(
                builder_body(*old(builder)),
                branch_insts(*refs, helper, numbers@, first, exception, decision),
                words(numbers@.len()) + seq![64u16, 64u16, 8u16],
            );
            builder_body(*final(builder)) == extended(
                switched(main, decision),
                seq![
                    Inst::Branch {
                        condition: (first + numbers@.len()) as u32,
                        nonzero: target,
                        zero: next,
                    },
                ],
                Seq::empty(),
            )
        }),
        built_function(*final(builder)) == built_function(*old(builder)),
{
    let ghost before = builder_body(*builder);
    let ghost block = before.current->0 as int;
    let ghost insts = branch_insts(
        *refs,
        helper,
        numbers@,
        before.values.len(),
        exception,
        decision,
    );
    let status: u32 = lower_branch(builder, refs, ctx_ptr, helper, numbers, exception, decision);
    let ghost main = builder_body(*builder);
    proof {
        assert(insts.last().is_terminator());
        assert(main.blocks[block].insts.last() == insts.last());
        assert(main.blocks[decision as int] == before.blocks[decision as int]);
        assert(insts.len() == numbers@.len() + 4);
    }
    switch_to_block(builder, decision);
    let ghost deciding = builder_body(*builder);
    proof {
        assert(deciding == switched(main, decision));
        assert(deciding.is_target(target) && deciding.is_target(next));
    }
    branch(builder, status, target, next);
}

/// Adding one instruction that gives a value.
proof fn one_value(body: Body, inst: Inst, bits: u16)
    requires
        body.current matches Some(block) && block < body.blocks.len(),
    ensures
        (Body { values: body.values.push(bits), ..body }).append(inst) == extended(
            body,
            seq![inst],
            seq![bits],
        ),
{
    let block = body.current_block();
    assert(block.insts.push(inst) =~= block.insts + seq![inst]);
    assert(body.values.push(bits) =~= body.values + seq![bits]);
}

/// Adds the call of the helper that returns, and the return of its status.
fn lower_finish(builder: &mut FunctionBuilder<'_>, refs: &HelperFuncs, ctx_ptr: u32)
    requires
        has_room(builder_body(*old(builder)), 2),
        returns_of_helpers(builder_body(*old(builder)), *refs),
        refs.fits(),
        ctx_ptr == 0,
    ensures
        ({
            let first = builder_body(*old(builder)).values.len();
            builder_body(*final(builder)) == extended(
                builder_body(*old(builder)),
                seq![
                    helper_call(*refs, Helper::CheckReturnAndReturn, first),
                    Inst::Return { args: seq![first as u32] },
                ],
                seq![64u16],
            )
        }),
        built_function(*final(builder)) == built_function(*old(builder)),
{
    let ghost before = builder_body(*builder);
    let ghost first = before.values.len();
    let helper = Helper::CheckReturnAndReturn;
    proof {
        return_helper_fits();
    }
    let ghost call = helper_call(*refs, helper, first);
    let numbers: Vec<i64> = Vec::new();
    let ghost insts = constants(first, numbers@).push(call);
    let ghost types = words(0) + helper.return_types();
    let results = call_helper(builder, refs, ctx_ptr, helper, &numbers);
    let ghost called = builder_body(*builder);
    proof {
        still_open(before, insts, types, 1);
    }
    ins_return(builder, results[0]);
    proof {
        let last = Inst::Return { args: seq![first as u32] };
        one_instruction(called, last);
        extended_twice(before, insts, types, seq![last], Seq::empty());
        assert(insts + seq![last] =~= seq![call, last]);
        assert(types + Seq::<u16>::empty() =~= seq![64u16]);
    }
}

/// Before an instruction is translated, its blocks are empty, there is room for it, and
/// control can go to every block but the first.
proof fn blocks_are_ready(before: Body, ptr: u16, program: Seq<Instruction>, k: int)
    requires
        0 <= k < program.len(),
        is_translatable(program),
        is_translated_to(before, ptr, program, k),
    ensures
        2 * program.len() + 3 < u32::MAX,
        before.blocks.len() == 2 * program.len() + 3,
        before.blocks[2 * k + 1] == BlockBody::fresh(),
        before.blocks[2 * k + 2] == BlockBody::fresh(),
        before.current matches Some(current) && current < before.blocks.len()
            && before.blocks[current as int].filled(),
        has_room(switched(before, block_of(k)), new_size(translation_of(program, k))),
        before.values.len() == first_value(program, k),
        first_value(program, k) + 4 < u32::MAX,
        0 <= pc_of(program, k) <= u32::MAX,
        forall|b: u32| 0 < b < 2 * program.len() + 3 ==> #[trigger] before.is_target(b),
{
    reveal(is_translated_to);
    let n = program.len() as int;
    value_count(ptr, program, k);
    translation_grows(program, 0, k);
    translation_grows(program, k, k + 1);
    translation_grows(program, k + 1, n);
    translation_grows(program, 0, n);
    pc_bounds(program, k);
    assert forall|b: u32| 0 < b < 2 * n + 3 implies #[trigger] before.is_target(b) by {
        assert(before.blocks[b as int] == if b <= 2 * k {
            block_body(program, first_refs(), b as int, false)
        } else {
            BlockBody::fresh()
        });
    }
}

/// Adds the translation of one instruction, which is in the program at number `k`.
#[verifier::rlimit(40)]
fn translate_instruction(
    builder: &mut FunctionBuilder<'_>,
    refs: &HelperFuncs,
    ctx_ptr: u32,
    instructions: &Vec<(u32, Instruction)>,
    end: u32,
    k: usize,
    program: Ghost<Seq<Instruction>>,
    ptr: Ghost<u16>,
)
    requires
        k < instructions@.len(),
        instructions@ == located(program@),
        end == program_encoding(program@).len(),
        is_translatable(program@),
        *refs == first_refs(),
        ctx_ptr == 0,
        returns_of_helpers(builder_body(*old(builder)), *refs),
        is_translated_to(builder_body(*old(builder)), ptr@, program@, k as int),
    ensures
        is_translated_to(builder_body(*final(builder)), ptr@, program@, k + 1),
        builder_body(*final(builder)).signature == builder_body(*old(builder)).signature,
        builder_body(*final(builder)).imports == builder_body(*old(builder)).imports,
        built_function(*final(builder)) == built_function(*old(builder)),
{
    let ghost before = builder_body(*builder);
    let ghost n = program@.len() as int;
    let ghost kk = k as int;
    let ghost first = first_value(program@, kk);
    let ghost insts = main_insts(program@, first_refs(), kk);
    let ghost types = new_values(translation_of(program@, kk));
    proof {
        blocks_are_ready(before, ptr@, program@, kk);
        operands_fit(pc_of(program@, kk), program@[kk]);
        assert(jump_lands(program@, program@[kk]));
    }
    let (pc, instruction) = instructions[k];
    assert(instruction == program@[kk]);
    let block: u32 = 2 * k as u32 + 1;
    let decision: u32 = block + 1;
    let next: u32 = block + 2;
    let exception: u32 = 2 * instructions.len() as u32 + 2;

    switch_to_block(builder, block);
    let ghost start = builder_body(*builder);
    proof {
        assert(start == switched(before, block));
        assert forall|b: u32| 0 < b < 2 * n + 3 implies #[trigger] start.is_target(b) by {
            assert(before.is_target(b));
        }
        assert forall|helper: Helper| returns_of_helper(start, *refs, helper) by {
            assert(returns_of_helper(before, *refs, helper));
        }
    }
    match lower(pc, &instruction) {
        Lowering::Call(helper, numbers) => {
            lower_call(builder, refs, ctx_ptr, helper, &numbers, next);
        },
        Lowering::Check(helper, numbers) => {
            lower_check(builder, refs, ctx_ptr, helper, &numbers, exception, next);
        },
        Lowering::Branch(helper, numbers, address) => {
            let target: usize = find_instruction(instructions, end, address, program).unwrap();
            let target_block: u32 = 2 * target as u32 + 1;
            lower_decision(
                builder,
                refs,
                ctx_ptr,
                helper,
                &numbers,
                exception,
                decision,
                target_block,
                next,
            );
        },
        Lowering::Jump(address) => {
            let target: usize = find_instruction(instructions, end, address, program).unwrap();
            let target_block: u32 = 2 * target as u32 + 1;
            jump(builder, target_block);
        },
        Lowering::Finish => {
            lower_finish(builder, refs, ctx_ptr);
        },
    }
    proof {
        blocks_filled(before, builder_body(*builder), ptr@, program@, kk);
    }
}

/// At first there is one instruction, which leads to the block of the first instruction.
proof fn nothing_translated(body: Body, ptr: u16, program: Seq<Instruction>)
    requires
        2 * program.len() + 3 < u32::MAX,
        body.values == seq![ptr],
        body.size == 1,
        body.start == Some(0u32),
        body.current == Some(0u32),
        body.blocks == Seq::new(
            (2 * program.len() + 3) as nat,
            |b: int|
                if b == 0 {
                    BlockBody {
                        params: seq![0u32],
                        insts: seq![Inst::Jump { target: 1 }],
                        sealed: false,
                    }
                } else {
                    BlockBody::fresh()
                },
        ),
    ensures
        is_translated_to(body, ptr, program, 0),
{
    reveal(is_translated_to);
    assert(body.blocks[0].filled());
    assert(body.blocks =~= Seq::new(
        (2 * program.len() + 3) as nat,
        |b: int|
            if b <= 0 {
                block_body(program, first_refs(), b, false)
            } else {
                BlockBody::fresh()
            },
    ));
}

/// The function with its two last blocks filled.
spec fn with_ends(body: Body, n: int) -> Body {
    let first = extended(
        switched(body, block_of(n)),
        status_insts(body.values.len(), STATUS_CONTINUE),
        seq![64u16],
    );
    extended(
        switched(first, exception_block(n)),
        status_insts(first.values.len(), STATUS_BREAK),
        seq![64u16],
    )
}

/// When all instructions are translated, there are two blocks left to be filled.
proof fn ends_are_ready(before: Body, ptr: u16, program: Seq<Instruction>)
    requires
        is_translatable(program),
        is_translated_to(before, ptr, program, program.len() as int),
    ensures
        ({
            let n = program.len() as int;
            let first = extended(
                switched(before, block_of(n)),
                status_insts(before.values.len(), STATUS_CONTINUE),
                seq![64u16],
            );
            &&& 2 * program.len() + 3 < u32::MAX
            &&& before.blocks.len() == 2 * n + 3
            &&& before.current matches Some(current) && current < before.blocks.len()
                && before.blocks[current as int].filled()
            &&& !before.blocks[2 * n + 1].filled()
            &&& has_room(switched(before, block_of(n)), 2)
            &&& first.blocks.len() == 2 * n + 3
            &&& first.blocks[2 * n + 1].filled()
            &&& !first.blocks[2 * n + 2].filled()
            &&& has_room(switched(first, exception_block(n)), 2)
        }),
{
    reveal(is_translated_to);
    let n = program.len() as int;
    value_count(ptr, program, n);
    translation_grows(program, 0, n);
    let insts = status_insts(before.values.len(), STATUS_CONTINUE);
    let first = extended(switched(before, block_of(n)), insts, seq![64u16]);
    assert(before.blocks[2 * n + 1] == BlockBody::fresh());
    assert(before.blocks[2 * n + 2] == BlockBody::fresh());
    assert(first.blocks[2 * n + 1].insts.last() == insts.last());
}

/// With the last two blocks filled and all blocks sealed, the function is done.
proof fn translation_is_done(
    before: Body,
    after: Body,
    ptr: u16,
    ids: HelperFuncs,
    program: Seq<Instruction>,
)
    requires
        is_translatable(program),
        is_translated_to(before, ptr, program, program.len() as int),
        before.signature == compiled_signature(ptr),
        before.imports == helper_imports(ids, ptr),
        ({
            let ended = with_ends(before, program.len() as int);
            after == (Body {
                blocks: Seq::new(
                    ended.blocks.len(),
                    |i: int| BlockBody { sealed: true, ..ended.blocks[i] },
                ),
                ..ended
            })
        }),
    ensures
        after == (Body { current: after.current, ..compiled(ptr, ids, program) }),
{
    ends_are_ready(before, ptr, program);
    reveal(is_translated_to);
    let n = program.len() as int;
    let done = compiled(ptr, ids, program);
    value_count(ptr, program, n);
    translation_grows(program, 0, n);
    let first = first_value(program, n);
    assert(before.values + seq![64u16] + seq![64u16] =~= before.values + seq![64u16, 64u16]);
    let insts = status_insts(first, STATUS_CONTINUE);
    let others = status_insts(first + 1, STATUS_BREAK);
    assert(Seq::<Inst>::empty() + insts =~= insts);
    assert(Seq::<Inst>::empty() + others =~= others);
    assert forall|b: int| 0 <= b < done.blocks.len() implies after.blocks[b] == done.blocks[b] by {
        assert(before.blocks[b] == if b <= 2 * n {
            block_body(program, first_refs(), b, false)
        } else {
            BlockBody::fresh()
        });
    }
    assert(after.blocks =~= done.blocks);
}

/// The addresses of the runtime helpers that compiled code calls, in their order.
#[derive(Clone, Copy, Debug)]
pub struct HelperAddresses {
    pub addresses: [usize; 45],
}

impl HelperAddresses {
    /// The address of a helper.
    pub open spec fn get(self, helper: Helper) -> usize {
        self.addresses@[helper.index()]
    }
}

/// A symbol table with the first `count` helpers added.
pub open spec fn with_symbols(
    symbols: Map<Seq<char>, usize>,
    addresses: HelperAddresses,
    count: nat,
) -> Map<Seq<char>, usize>
    decreases count,
{
    if count == 0 {
        symbols
    } else {
        with_symbols(symbols, addresses, (count - 1) as nat).insert(
            helper_at(count - 1).symbol(),
            addresses.addresses@[count - 1],
        )
    }
}

/// Each helper has its address in the symbol table.
proof fn symbols_added(
    symbols: Map<Seq<char>, usize>,
    addresses: HelperAddresses,
    count: nat,
    helper: Helper,
)
    requires
        helper.index() < count <= HELPER_COUNT,
    ensures
        with_symbols(symbols, addresses, count).contains_pair(
            helper.symbol(),
            addresses.get(helper),
        ),
    decreases count,
{
    helpers_are_in_order(helper);
    places_are_in_order(count - 1);
    if helper.index() < count - 1 {
        symbols_added(symbols, addresses, (count - 1) as nat, helper);
        if helper_at(count - 1).symbol() == helper.symbol() {
            helper_symbols_are_unique(helper_at(count - 1), helper);
        }
    }
}

/// Makes the signature of a helper.
fn helper_signature(module: &JITModule, helper: Helper, ptr: u16) -> (signature: Signature)
    requires
        ptr == 16 || ptr == 32 || ptr == 64,
    ensures
        signature_types(signature) == helper.signature(ptr),
{
    let mut signature = make_signature(module);
    add_param(&mut signature, ptr);
    let count: u32 = helper.operand_count();
    let mut i: u32 = 0;
    assert(signature_types(signature).params =~= seq![ptr] + words(0));
    while i < count
        invariant
            i <= count,
            signature_types(signature).params == seq![ptr] + words(i as nat),
            signature_types(signature).returns == Seq::<u16>::empty(),
        decreases count - i,
    {
        add_param(&mut signature, 32);
        i = i + 1;
        assert(signature_types(signature).params =~= seq![ptr] + words(i as nat));
    }
    if helper.returns_status() {
        add_return(&mut signature, 64);
    }
    assert(signature_types(signature) =~= helper.signature(ptr));
    signature
}

/// Why a function that the compiler supports was not compiled.
#[derive(Debug)]
pub enum CompileError {
    /// No code could be generated, for a reason in words.
    Define(String),
    /// The generated code could not be made executable, for a reason in words.
    Finalize(String),
}

/// The compiler. Holds the module that owns the compiled functions.
pub struct JitCompiler {
    /// The module that owns the memory of the generated code.
    module: JITModule,
    /// The width of a pointer on the target (64 bits on x86-64).
    ptr_bits: u16,
    /// The helpers as functions of the module.
    helpers: HelperFuncs,
    /// Counter for unique function names.
    func_counter: u32,
}

/// A helper is declared in a module, and its address is known.
pub open spec fn knows_helper(
    state: ModuleState,
    ids: HelperFuncs,
    ptr: u16,
    helper: Helper,
) -> bool {
    &&& ids.get(helper) < state.functions.len()
    &&& state.functions[ids.get(helper) as int] == helper.declaration(ptr)
    &&& state.symbols.contains_key(helper.symbol())
}

/// See [`JitCompiler::wf`].
pub open spec fn well_formed(
    state: ModuleState,
    ids: HelperFuncs,
    ptr: u16,
    counter: u32,
) -> bool {
    &&& ptr == state.pointer_bits
    &&& ptr == 16 || ptr == 32 || ptr == 64
    &&& ids.fits()
    &&& forall|helper: Helper| #[trigger] knows_helper(state, ids, ptr, helper)
    &&& state.functions.len() == HELPER_COUNT + counter
    &&& forall|n: nat| n >= counter ==> !state.names.contains(#[trigger] function_name(n))
    &&& state.pending == Set::<u32>::empty()
    &&& forall|id: u32| #[trigger]
        state.definitions.contains_key(id) ==> id < state.functions.len()
    &&& state.code.dom() == state.definitions.dom()
}

impl JitCompiler {
    /// What the module holds.
    pub closed spec fn state(&self) -> ModuleState {
        module_state(self.module)
    }

    /// The width of a pointer on the target.
    pub closed spec fn ptr(&self) -> u16 {
        self.ptr_bits
    }

    /// The helpers as functions of the module.
    pub closed spec fn helper_ids(&self) -> HelperFuncs {
        self.helpers
    }

    /// How many functions were declared besides the helpers.
    pub closed spec fn counter(&self) -> u32 {
        self.func_counter
    }

    /// The helpers are declared and can be linked, the functions that were compiled are
    /// linked, and the names of the functions to come are not taken.
    pub open spec fn wf(&self) -> bool {
        well_formed(self.state(), self.helper_ids(), self.ptr(), self.counter())
    }

    /// Create a new compiler for the host architecture. Compiled code calls the helpers at
    /// the given addresses. The error tells in words why the host is not supported.
    pub fn new(addresses: HelperAddresses) -> (result: Result<JitCompiler, String>)
        ensures
            result matches Ok(compiler) ==> compiler.is_new(addresses)
                && compiler.state().opt_level == "speed"@,
    {
        let mut flags = settings_builder();
        proof {
            reveal_strlit("opt_level");
            reveal_strlit("is_pic");
            reveal_strlit("true");
            reveal_strlit("false");
            assert("opt_level"@.len() != "is_pic"@.len());
            assert("true"@.len() != "false"@.len());
        }
        set_opt_level(&mut flags, "speed").unwrap();
        JitCompiler::for_host(host_module_builder(flags), addresses)
    }

    /// A compiler that knows the helpers and has compiled nothing.
    pub open spec fn is_new(&self, addresses: HelperAddresses) -> bool {
        &&& self.wf()
        &&& self.counter() == 0
        &&& self.state().definitions == Map::<u32, Body>::empty()
        &&& self.state().code == Map::<u32, usize>::empty()
        &&& self.state().executable == Set::<u32>::empty()
        &&& forall|helper: Helper| #[trigger]
            self.state().symbols.contains_key(helper.symbol())
                && self.state().symbols[helper.symbol()] == addresses.get(helper)
    }

    /// Create a new compiler from the module builder for the host, or pass on why there is
    /// none.
    pub fn for_host(
        host: Result<JITBuilder, HostError>,
        addresses: HelperAddresses,
    ) -> (result: Result<JitCompiler, String>)
        requires
            host matches Ok(builder) ==> !module_parts(builder).is_pic,
        ensures
            result is Ok <==> host is Ok,
            result matches Ok(compiler) ==> compiler.is_new(addresses)
                && compiler.state().opt_level == module_parts(host->Ok_0).opt_level,
            host matches Err(HostError::Unsupported(reason)) ==> result matches Err(text)
                && text@ == "host ISA not supported: "@ + reason@,
    {
        match host {
            Ok(builder) => {
                // Register the symbols of the helpers so that calls to them can be linked.
                let ghost parts = module_parts(builder);
                let mut builder = builder;
                let mut i: u32 = 0;
                while i < HELPER_COUNT
                    invariant
                        i <= HELPER_COUNT,
                        module_parts(builder) == (ModuleParts {
                            symbols: with_symbols(parts.symbols, addresses, i as nat),
                            ..parts
                        }),
                    decreases HELPER_COUNT - i,
                {
                    let helper = Helper::at(i);
                    add_symbol(&mut builder, helper.name(), addresses.addresses[i as usize]);
                    i = i + 1;
                }
                let mut module = new_module(builder);
                let ghost empty = module_state(module);
                let ptr_bits: u16 = pointer_bits(&module);
                let helpers = JitCompiler::declare_helpers(&mut module, ptr_bits);
                let compiler = JitCompiler { module, ptr_bits, helpers, func_counter: 0 };
                proof {
                    helpers_declared(empty, ptr_bits, HELPER_COUNT as nat);
                    assert forall|helper: Helper| knows_helper(
                        compiler.state(),
                        compiler.helper_ids(),
                        compiler.ptr(),
                        helper,
                    ) && #[trigger] compiler.state().symbols.contains_key(helper.symbol())
                        && compiler.state().symbols[helper.symbol()] == addresses.get(helper) by {
                        helpers_are_in_order(helper);
                        symbols_added(parts.symbols, addresses, HELPER_COUNT as nat, helper);
                    }
                    assert forall|helper: Helper| #[trigger]
                        knows_helper(
                            compiler.state(),
                            compiler.helper_ids(),
                            compiler.ptr(),
                            helper,
                        ) by {
                        assert(compiler.state().symbols.contains_key(helper.symbol()));
                    }
                    assert forall|n: nat|
                        n >= compiler.counter() implies !compiler.state().names.contains(
                        #[trigger] function_name(n),
                    ) by {
                        if compiler.state().names.contains(function_name(n)) {
                            let i = choose|i: int|
                                0 <= i < HELPER_COUNT && (#[trigger] helper_at(i)).symbol()
                                    == function_name(n);
                            helper_symbols_are_no_function_names(helper_at(i), n);
                        }
                    }
                }
                Ok(compiler)
            },
            Err(HostError::Unsupported(reason)) => {
                Err("host ISA not supported: ".to_string().concat(reason))
            },
            Err(HostError::Settings(error)) => Err(codegen_error_text(&error)),
        }
    }

    /// Declare the runtime helpers in the module, which has no functions yet.
    fn declare_helpers(module: &mut JITModule, ptr: u16) -> (helpers: HelperFuncs)
        requires
            ptr == 16 || ptr == 32 || ptr == 64,
            module_state(*old(module)).functions.len() == 0,
            module_state(*old(module)).names == Set::<Seq<char>>::empty(),
        ensures
            helpers == first_refs(),
            module_state(*final(module)) == with_helpers(
                module_state(*old(module)),
                ptr,
                HELPER_COUNT as nat,
            ),
    {
        let ghost before = module_state(*module);
        let mut i: u32 = 0;
        while i < HELPER_COUNT
            invariant
                i <= HELPER_COUNT,
                ptr == 16 || ptr == 32 || ptr == 64,
                before.functions.len() == 0,
                before.names == Set::<Seq<char>>::empty(),
                module_state(*module) == with_helpers(before, ptr, i as nat),
            decreases HELPER_COUNT - i,
        {
            let helper = Helper::at(i);
            let signature = helper_signature(module, helper, ptr);
            proof {
                helpers_declared(before, ptr, i as nat);
                places_are_in_order(i as int);
                let names = module_state(*module).names;
                if names.contains(helper.symbol()) {
                    let j = choose|j: int|
                        0 <= j < i && (#[trigger] helper_at(j)).symbol() == helper.symbol();
                    places_are_in_order(j);
                    helper_symbols_are_unique(helper_at(j), helper);
                }
            }
            declare_function(
                module,
                helper.name(),
                FunctionLinkage::Import,
                &signature,
            ).unwrap();
            i = i + 1;
        }
        HelperFuncs { first: 0 }
    }

    /// Imports the helpers into a function that has imported nothing yet.
    fn import_helpers(&mut self, builder: &mut FunctionBuilder<'_>) -> (refs: HelperFuncs)
        requires
            old(self).wf(),
            builder_body(*old(builder)).imports.len() == 0,
        ensures
            refs == first_refs(),
            builder_body(*final(builder)) == (Body {
                imports: helper_imports(old(self).helper_ids(), old(self).ptr()),
                ..builder_body(*old(builder))
            }),
            built_function(*final(builder)) == built_function(*old(builder)),
            final(self).state() == old(self).state(),
            final(self).ptr() == old(self).ptr(),
            final(self).helper_ids() == old(self).helper_ids(),
            final(self).counter() == old(self).counter(),
    {
        let ghost all = helper_imports(self.helper_ids(), self.ptr());
        let mut i: u32 = 0;
        assert(builder_body(*builder).imports =~= all.take(0));
        while i < HELPER_COUNT
            invariant
                i <= HELPER_COUNT,
                old(self).wf(),
                self.state() == old(self).state(),
                self.ptr() == old(self).ptr(),
                self.helper_ids() == old(self).helper_ids(),
                self.counter() == old(self).counter(),
                all == helper_imports(old(self).helper_ids(), old(self).ptr()),
                builder_body(*builder) == (Body {
                    imports: all.take(i as int),
                    ..builder_body(*old(builder))
                }),
                built_function(*builder) == built_function(*old(builder)),
            decreases HELPER_COUNT - i,
        {
            let helper = Helper::at(i);
            proof {
                places_are_in_order(i as int);
                assert(knows_helper(self.state(), self.helper_ids(), self.ptr(), helper));
            }
            let id: u32 = self.helpers.number(helper);
            declare_func_in_func(&mut self.module, id, builder);
            i = i + 1;
            assert(builder_body(*builder).imports =~= all.take(i as int));
        }
        assert(all.take(i as int) =~= all);
        HelperFuncs { first: 0 }
    }

    /// Translate the body of some bytecode. The function is at its first block, which is
    /// empty and has the pointer to the virtual machine as its parameter.
    fn translate_body(
        &mut self,
        builder: &mut FunctionBuilder<'_>,
        ctx_ptr: u32,
        code: &CodeBlock,
    )
        requires
            old(self).wf(),
            ctx_ptr == 0,
            code.bytecode.wf(),
            is_translatable(code.bytecode.program()),
            builder_body(*old(builder)) == entry(old(self).ptr()),
        ensures
            builder_body(*final(builder)) == (Body {
                current: builder_body(*final(builder)).current,
                ..compiled(old(self).ptr(), old(self).helper_ids(), code.bytecode.program())
            }),
            built_function(*final(builder)) == built_function(*old(builder)),
            final(self).state() == old(self).state(),
            final(self).ptr() == old(self).ptr(),
            final(self).helper_ids() == old(self).helper_ids(),
            final(self).counter() == old(self).counter(),
    {
        let ghost ptr = self.ptr();
        let ghost ids = self.helper_ids();
        let ghost program = code.bytecode.program();
        let ghost n = program.len() as int;
        let refs = self.import_helpers(builder);
        let instructions = code.bytecode.instructions();
        let end: u32 = code.bytecode.bytes.len() as u32;
        proof {
            translation_grows(program, 0, n);
            value_count(ptr, program, n);
        }
        let exception: u32 = 2 * instructions.len() as u32 + 2;
        let ghost first_block = builder_body(*builder).blocks[0];

        let mut b: u32 = 0;
        while b < exception
            invariant
                b <= exception,
                exception == 2 * n + 2,
                exception < u32::MAX,
                builder_body(*builder) == (Body {
                    imports: helper_imports(ids, ptr),
                    blocks: Seq::new(
                        (b + 1) as nat,
                        |i: int|
                            if i == 0 {
                                first_block
                            } else {
                                BlockBody::fresh()
                            },
                    ),
                    ..entry(ptr)
                }),
                built_function(*builder) == built_function(*old(builder)),
            decreases exception - b,
        {
            create_block(builder);
            b = b + 1;
        }
        assert(builder_body(*builder).blocks[0].insts =~= Seq::empty());
        ins_jump(builder, 1);
        proof {
            let jump = Inst::Jump { target: 1 };
            assert(Seq::<Inst>::empty().push(jump) =~= seq![jump]);
            assert(builder_body(*builder).blocks =~= Seq::new(
                (2 * n + 3) as nat,
                |i: int|
                    if i == 0 {
                        BlockBody { params: seq![0u32], insts: seq![jump], sealed: false }
                    } else {
                        BlockBody::fresh()
                    },
            ));
            nothing_translated(builder_body(*builder), ptr, program);
        }

        let mut k: usize = 0;
        while k < instructions.len()
            invariant
                k <= instructions@.len(),
                instructions@ == located(program),
                end == program_encoding(program).len(),
                is_translatable(program),
                refs == first_refs(),
                ctx_ptr == 0,
                builder_body(*builder).signature == compiled_signature(ptr),
                builder_body(*builder).imports == helper_imports(ids, ptr),
                is_translated_to(builder_body(*builder), ptr, program, k as int),
                built_function(*builder) == built_function(*old(builder)),
            decreases instructions@.len() - k,
        {
            assert forall|helper: Helper|
                returns_of_helper(builder_body(*builder), refs, helper) by {
                helpers_are_in_order(helper);
            }
            translate_instruction(
                builder,
                &refs,
                ctx_ptr,
                &instructions,
                end,
                k,
                Ghost(program),
                Ghost(ptr),
            );
            k = k + 1;
        }

        let ghost before = builder_body(*builder);
        proof {
            ends_are_ready(before, ptr, program);
        }
        switch_to_block(builder, exception - 1);
        return_status(builder, STATUS_CONTINUE);
        switch_to_block(builder, exception);
        return_status(builder, STATUS_BREAK);
        assert(builder_body(*builder) == with_ends(before, n));
        seal_all_blocks(builder);
        proof {
            translation_is_done(before, builder_body(*builder), ptr, ids, program);
        }
    }

    /// Compile a [`CodeBlock`] into a native function, and return the address of its code.
    ///
    /// Returns `None` if the code block contains unsupported operations.
    pub fn compile(&mut self, code: &CodeBlock) -> (result: Result<Option<usize>, CompileError>)
        requires
            old(self).wf(),
            code.bytecode.wf(),
            code.compilable() ==> {
                &&& jumps_land(code.bytecode.program())
                &&& translated_size(code.bytecode.program()) < MAX_INSTRUCTIONS
                &&& old(self).counter() + HELPER_COUNT < u32::MAX
            },
        ensures
            final(self).wf(),
            final(self).ptr() == old(self).ptr(),
            final(self).helper_ids() == old(self).helper_ids(),
            old(self).state().definitions <= final(self).state().definitions,
            old(self).state().code <= final(self).state().code,
            old(self).state().executable <= final(self).state().executable,
            old(self).state().symbols <= final(self).state().symbols,
            result matches Ok(None) <==> !code.compilable(),
            !code.compilable() ==> {
                &&& final(self).state() == old(self).state()
                &&& final(self).counter() == old(self).counter()
            },
            code.compilable() ==> {
                &&& final(self).counter() == old(self).counter() + 1
                &&& final(self).state() == (ModuleState {
                    definitions: if result matches Err(CompileError::Define(_)) {
                        old(self).state().definitions
                    } else {
                        old(self).state().definitions.insert(
                            old(self).state().functions.len() as u32,
                            compiled(
                                old(self).ptr(),
                                old(self).helper_ids(),
                                code.bytecode.program(),
                            ),
                        )
                    },
                    code: if result matches Err(CompileError::Define(_)) {
                        old(self).state().code
                    } else {
                        old(self).state().code.insert(
                            old(self).state().functions.len() as u32,
                            final(self).state().code[old(self).state().functions.len() as u32],
                        )
                    },
                    executable: final(self).state().executable,
                    symbols: final(self).state().symbols,
                    ..with_declaration(old(self).state(), old(self).next_declaration())
                })
            },
            result matches Ok(Some(address)) ==> {
                let id = old(self).state().functions.len() as u32;
                &&& final(self).state().code.contains_pair(id, address)
                &&& final(self).state().executable.contains(id)
            },
            result matches Err(CompileError::Define(_)) ==> final(self).state().executable == old(
                self,
            ).state().executable,
    {
        if !can_compile(code) {
            return Ok(None);
        }

        // Each compiled function needs a unique name.
        let name = jit_function_name(self.func_counter);

        // (ctx: ptr) -> i64
        let mut sig = make_signature(&self.module);
        add_param(&mut sig, self.ptr_bits);
        add_return(&mut sig, 64);
        assert(signature_types(sig) =~= compiled_signature(self.ptr_bits));

        let ghost before = self.state();
        let func_id: u32 = declare_function(
            &mut self.module,
            name.as_str(),
            FunctionLinkage::Local,
            &sig,
        ).unwrap();
        self.func_counter = self.func_counter + 1;
        proof {
            assert forall|helper: Helper|
                knows_helper(self.state(), self.helper_ids(), self.ptr(), helper) by {
                assert(knows_helper(before, self.helper_ids(), self.ptr(), helper));
            }
            assert forall|n: nat| n >= self.counter() implies !self.state().names.contains(
                #[trigger] function_name(n),
            ) by {
                if function_name(n) == name@ {
                    function_names_are_unique(n, old(self).counter() as nat);
                }
            }
        }

        let ghost declared = self.state();
        assert(self.wf());

        let mut func = new_function(name.as_str(), &sig);
        let mut func_ctx = new_builder_context();
        let mut builder = new_builder(&mut func, &mut func_ctx);

        let entry_block: u32 = create_block(&mut builder);
        append_function_params(&mut builder, entry_block);
        switch_to_block(&mut builder, entry_block);

        let ctx_ptr: u32 = block_param(&builder, entry_block, 0);
        assert(builder_body(builder) =~~= entry(self.ptr_bits));
        self.translate_body(&mut builder, ctx_ptr, code);
        proof {
            compiled_blocks_are_done(self.ptr(), self.helper_ids(), code.bytecode.program());
            compiled_targets_are_filled(self.ptr(), self.helper_ids(), code.bytecode.program());
        }
        finalize(builder);

        let mut ctx = context_for_function(func);
        match define_function(&mut self.module, func_id, &mut ctx) {
            Ok(()) => {},
            Err(error) => {
                return Err(CompileError::Define(module_error_text(&error)));
            },
        }
        clear_context(&self.module, &mut ctx);
        let ghost defined = self.state();
        proof {
            let body = compiled(self.ptr(), self.helper_ids(), code.bytecode.program());
            assert(defined.definitions[func_id] == body);
            assert forall|i: int| 0 <= i < body.imports.len() implies {
                let function = (#[trigger] defined.definitions[func_id].imports[i]).function;
                &&& function < defined.functions.len()
                &&& defined.functions[function as int].linkage == FunctionLinkage::Import
                &&& defined.symbols.contains_key(defined.functions[function as int].name)
            } by {
                places_are_in_order(i);
                assert(knows_helper(declared, self.helper_ids(), self.ptr(), helper_at(i)));
            }
        }
        let finalized = finalize_definitions(&mut self.module);
        proof {
            assert forall|name: Seq<char>| #[trigger] before.symbols.contains_key(name) implies
                self.state().symbols.contains_pair(name, before.symbols[name]) by {
                assert(defined.symbols.contains_key(name));
            }
            assert forall|helper: Helper|
                knows_helper(self.state(), self.helper_ids(), self.ptr(), helper) by {
                assert(knows_helper(declared, self.helper_ids(), self.ptr(), helper));
            }
        }
        match finalized {
            Ok(()) => {},
            Err(error) => {
                return Err(CompileError::Finalize(module_error_text(&error)));
            },
        }
        Ok(Some(get_finalized_function(&self.module, func_id)))
    }

    /// Returns how many functions were declared besides the helpers.
    pub fn func_counter(&self) -> (count: u32)
        ensures
            count == self.counter(),
    {
        self.func_counter
    }

    /// How the next function that is compiled is declared.
    pub open spec fn next_declaration(&self) -> Declaration {
        Declaration {
            name: function_name(self.counter() as nat),
            linkage: FunctionLinkage::Local,
            signature: compiled_signature(self.ptr()),
        }
    }
}

/// The helpers of a compiler are different functions, so that compiled code calls the right
/// ones.
pub proof fn helper_ids_are_distinct(compiler: JitCompiler, a: Helper, b: Helper)
    requires
        compiler.wf(),
        compiler.helper_ids().get(a) == compiler.helper_ids().get(b),
    ensures
        a == b,
{
    helpers_are_in_order(a);
    helpers_are_in_order(b);
}

/// A function that the compiler defined does what the interpreter does with the bytecode that
/// it was compiled from, when it runs with the helpers of the compiler.
pub proof fn defined_function_agrees_with_interpreter<W>(
    compiler: JitCompiler,
    id: u32,
    program: Seq<Instruction>,
    setting: Setting<W>,
    fuel: nat,
    machine: Machine<W>,
)
    requires
        compiler.wf(),
        compiler.state().definitions.contains_pair(
            id,
            compiled(compiler.ptr(), compiler.helper_ids(), program),
        ),
        setting.ids == compiler.helper_ids(),
        is_coherent(setting.engine),
        is_translatable(program),
    ensures
        run_function(compiler.state().definitions[id], setting, fuel, machine) == interpreted(
            program,
            setting.engine,
            fuel,
            0,
            machine,
        ),
{
    compiled_code_agrees_with_interpreter(compiler.ptr(), program, setting, fuel, machine);
}

/// A new compiler links each helper to the address given for it, which is the one at its place
/// in the order of the helpers.
pub proof fn helpers_are_linked_to_their_addresses(
    compiler: JitCompiler,
    addresses: HelperAddresses,
    helper: Helper,
)
    requires
        compiler.is_new(addresses),
    ensures
        compiler.state().symbols.contains_pair(
            helper.symbol(),
            addresses.addresses@[helper.index()],
        ),
        0 <= helper.index() < 45,
{
    helpers_are_in_order(helper);
    assert(knows_helper(
        compiler.state(),
        compiler.helper_ids(),
        compiler.ptr(),
        helper,
    ));
    assert(compiler.state().symbols.contains_key(helper.symbol()));
}

/// The function that is compiled next has a name of its own, made of its number.
pub proof fn functions_are_named_by_number(compiler: JitCompiler)
    requires
        compiler.wf(),
    ensures
        compiler.next_declaration().name == function_name(compiler.counter() as nat),
        !compiler.state().names.contains(compiler.next_declaration().name),
        compiler.next_declaration().signature.params == seq![compiler.ptr()],
        compiler.next_declaration().signature.returns == seq![64u16],
        compiler.state().functions.len() == 45 + compiler.counter(),
{
}

} // verus!
