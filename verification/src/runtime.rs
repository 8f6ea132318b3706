//! What the runtime helpers do when compiled code calls them.
//!
//! A helper that asks the engine for something goes on with the answer until it is done. What
//! comes of it is put together here from what the helper and its requests are known to do, and
//! it is what the instruction does that the helper implements.

use vstd::prelude::*;

use crate::backend::low_bits;
use crate::engine::{
    binary_step, call_step, goes_on, instruction_step, is_plain, named_get_step, not_less_step,
    step, strict_step, value_get_step, value_set_step, Engine, Machine, Step,
};
use crate::helpers::arithmetic::{
    operation, strict_equality, unary_next, unary_state, BinaryOp, LessThan,
};
use crate::helpers::call::{
    call_next, call_state, check_return_next, check_return_state, completed_state,
    completed_status, resolved_next, resolved_state, this_stored,
};
use crate::helpers::data::{loop_counted, loop_limit_exceeded};
use crate::helpers::name::{read_state, read_status, Missing};
use crate::helpers::property::KeyView;
use crate::helpers::{failure_raised, result_stored, status, Next};
use crate::instruction::Instruction;
use crate::ir::spec_jump_target;
use crate::translate::{operands_fit, translation, Helper, Translation};
use crate::value::{JsError, JsValue};
use crate::vm::VmState;

verus! {

/// The status that a helper or a compiled function returns, and the machine that it leaves
/// behind.
pub struct Outcome<W> {
    pub status: u64,
    pub machine: Machine<W>,
}

/// The fast paths of the engine give what its full operations give, without any effect.
pub open spec fn is_coherent<W>(engine: Engine<W>) -> bool {
    &&& forall|op: BinaryOp, lhs: JsValue, rhs: JsValue, machine: Machine<W>| #[trigger]
        operator_is_coherent(engine, op, lhs, rhs, machine)
    &&& forall|lhs: JsValue, rhs: JsValue, machine: Machine<W>| #[trigger]
        less_is_coherent(engine, lhs, rhs, machine)
}

/// The fast path of an operator gives what the full operation gives.
pub open spec fn operator_is_coherent<W>(
    engine: Engine<W>,
    op: BinaryOp,
    lhs: JsValue,
    rhs: JsValue,
    machine: Machine<W>,
) -> bool {
    (engine.operate_fast)(op, lhs, rhs) matches Some(value) ==> {
        let answer = (engine.operate)(op, lhs, rhs, machine);
        answer.result == Ok::<JsValue, JsError>(value) && answer.machine == machine
    }
}

/// The fast path of the comparison gives what the full comparison gives.
pub open spec fn less_is_coherent<W>(
    engine: Engine<W>,
    lhs: JsValue,
    rhs: JsValue,
    machine: Machine<W>,
) -> bool {
    (engine.less_fast)(lhs, rhs) matches Some(less) ==> {
        let answer = (engine.less)(lhs, rhs, machine);
        answer.result == Ok::<bool, JsError>(less) && answer.machine == machine
    }
}

/// The signed number that the low bits of a value stand for. `modulus` is two to the number
/// of bits.
pub open spec fn signed_low(value: u64, modulus: int) -> int {
    let low = value as int % modulus;
    if low >= modulus / 2 {
        low - modulus
    } else {
        low
    }
}

/// What a helper on constants, registers and the stack does to the virtual machine. Its
/// operands are passed as 32-bit numbers, of which it takes the bits that its parameter has.
pub open spec fn helper_effect(helper: Helper, operands: Seq<u64>, vm: VmState) -> VmState {
    match helper {
        Helper::StoreZero => vm.set_register(operands[0] as u32, JsValue::Integer32(0)),
        Helper::StoreOne => vm.set_register(operands[0] as u32, JsValue::Integer32(1)),
        Helper::StoreInt8 => vm.set_register(
            operands[0] as u32,
            JsValue::Integer32(signed_low(operands[1], 0x100) as i32),
        ),
        Helper::StoreInt16 => vm.set_register(
            operands[0] as u32,
            JsValue::Integer32(signed_low(operands[1], 0x1_0000) as i32),
        ),
        Helper::StoreInt32 => vm.set_register(
            operands[0] as u32,
            JsValue::Integer32(signed_low(operands[1], 0x1_0000_0000) as i32),
        ),
        Helper::Move => vm.set_register(operands[0] as u32, vm.register(operands[1] as u32)),
        Helper::GetArgument => vm.set_register(
            operands[1] as u32,
            vm.argument(operands[0] as u32),
        ),
        Helper::SetAccumulator => vm.set_return_value(vm.register(operands[0] as u32)),
        Helper::PushFromRegister => vm.push(vm.register(operands[0] as u32)),
        Helper::PopIntoRegister => vm.pop().set_register(operands[0] as u32, vm.stack.last()),
        Helper::CheckReturnAndReturn => vm.compiled_return(),
        _ => vm,
    }
}

/// The status of a return: 1 if control goes back to the caller of the interpreter.
pub open spec fn return_status(vm: VmState) -> u64 {
    if vm.frame().exit_early {
        1
    } else {
        0
    }
}

/// A helper that is done.
pub open spec fn done<W>(status: u64, machine: Machine<W>, vm: VmState) -> Outcome<W> {
    Outcome { status, machine: machine.with_vm(vm) }
}

/// What a binary operator does: the fast path, and after it the full operation.
pub open spec fn binary_outcome<W>(
    engine: Engine<W>,
    op: BinaryOp,
    dst: u32,
    lhs: u32,
    rhs: u32,
    machine: Machine<W>,
) -> Outcome<W> {
    let request = operation(machine.vm, op, dst, lhs, rhs);
    let fast = (engine.operate_fast)(request.op, request.lhs, request.rhs);
    let tried = machine.with_vm(request.fast_state(machine.vm, fast));
    match request.fast_next(fast) {
        Next::Done(code) => Outcome { status: code, machine: tried },
        Next::Ask(full) => {
            let answer = (engine.operate)(full.op, full.lhs, full.rhs, tried);
            done(
                status(answer.result),
                answer.machine,
                result_stored(answer.machine.vm, full.dst, answer.result),
            )
        },
    }
}

/// What a strict comparison does.
pub open spec fn strict_outcome<W>(
    engine: Engine<W>,
    dst: u32,
    lhs: u32,
    rhs: u32,
    negated: bool,
    machine: Machine<W>,
) -> Outcome<W> {
    let request = strict_equality(machine.vm, dst, lhs, rhs, negated);
    let equal = (engine.strictly_equal)(request.lhs, request.rhs, machine);
    done(0, machine, request.stored(machine.vm, equal))
}

/// What stepping a number up or down does.
pub open spec fn unary_outcome<W>(
    engine: Engine<W>,
    dst: u32,
    src: u32,
    increment: bool,
    machine: Machine<W>,
) -> Outcome<W> {
    let tried = machine.with_vm(unary_state(machine.vm, dst, src, increment));
    match unary_next(machine.vm, dst, src, increment) {
        Next::Done(code) => Outcome { status: code, machine: tried },
        Next::Ask(request) => {
            let answer = (engine.to_numeric)(request.value, request.increment, tried);
            done(
                status(answer.result),
                answer.machine,
                request.stored(answer.machine.vm, answer.result),
            )
        },
    }
}

/// What the comparison of a jump does: the fast path, and after it the full comparison.
pub open spec fn not_less_outcome<W>(
    engine: Engine<W>,
    lhs: u32,
    rhs: u32,
    machine: Machine<W>,
) -> Outcome<W> {
    let request = LessThan { lhs: machine.vm.register(lhs), rhs: machine.vm.register(rhs) };
    match request.fast_next((engine.less_fast)(request.lhs, request.rhs)) {
        Next::Done(code) => Outcome { status: code, machine },
        Next::Ask(full) => {
            let answer = (engine.less)(full.lhs, full.rhs, machine);
            done(
                full.slow_status(answer.result),
                answer.machine,
                failure_raised(answer.machine.vm, answer.result),
            )
        },
    }
}

/// What reading a variable does: its binding is found, and then read.
pub open spec fn name_outcome<W>(
    engine: Engine<W>,
    dst: u32,
    binding_index: u32,
    missing: Missing,
    machine: Machine<W>,
) -> Outcome<W> {
    let locator = machine.vm.frame().code_block.bindings@[binding_index as int];
    let found = (engine.find_binding)(locator.name@, locator.location, machine);
    match found.result {
        Ok(binding) => {
            let read = (engine.read_binding)(binding.name@, binding.location, found.machine);
            done(
                read_status(missing, read.result),
                read.machine,
                read_state(read.machine.vm, dst, missing, binding.name@, read.result),
            )
        },
        Err(error) => done(1, found.machine, found.machine.vm.raise(error@)),
    }
}

/// What the read of a property of an object does.
pub open spec fn get_outcome<W>(
    engine: Engine<W>,
    dst: u32,
    object: u64,
    key: KeyView,
    receiver: JsValue,
    machine: Machine<W>,
) -> Outcome<W> {
    let answer = (engine.get)(object, key, receiver, machine);
    done(
        status(answer.result),
        answer.machine,
        result_stored(answer.machine.vm, dst, answer.result),
    )
}

/// What reading a property by name does, with the inline cache.
pub open spec fn named_get_outcome<W>(
    engine: Engine<W>,
    dst: u32,
    object: u32,
    ic_index: u32,
    machine: Machine<W>,
) -> Outcome<W> {
    let value = machine.vm.register(object);
    match value {
        JsValue::Object(o) => {
            let heap = (engine.heap)(machine);
            match machine.vm.ic_slot(heap, ic_index, o) {
                Some(slot) => {
                    let found = heap.slot_value(o, slot);
                    if slot.get && found is Object {
                        let answer = (engine.call_getter)(found->Object_0, value, machine);
                        done(
                            status(answer.result),
                            answer.machine,
                            result_stored(answer.machine.vm, dst, answer.result),
                        )
                    } else {
                        done(0, machine, machine.vm.set_register(dst, found))
                    }
                },
                None => {
                    let name = machine.vm.frame().code_block.ic@[ic_index as int].name@;
                    get_outcome(engine, dst, o, KeyView::Named(name), value, machine)
                },
            }
        },
        _ => {
            let converted = (engine.to_object)(value, machine);
            let after = converted.machine;
            match converted.result {
                Ok(o) => {
                    let name = after.vm.frame().code_block.ic@[ic_index as int].name@;
                    get_outcome(engine, dst, o, KeyView::Named(name), value, after)
                },
                Err(error) => done(1, after, after.vm.raise(error@)),
            }
        },
    }
}

/// What reading a length does.
pub open spec fn length_outcome<W>(
    engine: Engine<W>,
    dst: u32,
    object: u32,
    machine: Machine<W>,
) -> Outcome<W> {
    let value = machine.vm.register(object);
    let converted = (engine.to_object)(value, machine);
    let after = converted.machine;
    match converted.result {
        Ok(o) => get_outcome(engine, dst, o, KeyView::Named("length"@), value, after),
        Err(error) => done(1, after, after.vm.raise(error@)),
    }
}

/// What reading a property by value does.
pub open spec fn value_get_outcome<W>(
    engine: Engine<W>,
    dst: u32,
    key: u32,
    receiver: u32,
    object: u32,
    machine: Machine<W>,
) -> Outcome<W> {
    let vm = machine.vm;
    let converted = (engine.to_object)(vm.register(object), machine);
    match converted.result {
        Ok(o) => {
            let keyed = (engine.to_key)(vm.register(key), converted.machine);
            let after = keyed.machine;
            match keyed.result {
                Ok(k) => get_outcome(engine, dst, o, k@, vm.register(receiver), after),
                Err(error) => done(1, after, after.vm.raise(error@)),
            }
        },
        Err(error) => done(1, converted.machine, converted.machine.vm.raise(error@)),
    }
}

/// What writing a property by value does.
pub open spec fn value_set_outcome<W>(
    engine: Engine<W>,
    value: u32,
    key: u32,
    receiver: u32,
    object: u32,
    machine: Machine<W>,
) -> Outcome<W> {
    let vm = machine.vm;
    let converted = (engine.to_object)(vm.register(object), machine);
    match converted.result {
        Ok(o) => {
            let keyed = (engine.to_key)(vm.register(key), converted.machine);
            match keyed.result {
                Ok(k) => {
                    let written = (engine.set)(
                        o,
                        k@,
                        vm.register(value),
                        vm.register(receiver),
                        keyed.machine,
                    );
                    done(
                        status(written.result),
                        written.machine,
                        failure_raised(written.machine.vm, written.result),
                    )
                },
                Err(error) => done(1, keyed.machine, keyed.machine.vm.raise(error@)),
            }
        },
        Err(error) => done(1, converted.machine, converted.machine.vm.raise(error@)),
    }
}

/// What a call does: it is set up, and then run.
pub open spec fn call_outcome<W>(
    engine: Engine<W>,
    argument_count: u32,
    machine: Machine<W>,
) -> Outcome<W> {
    let asked = machine.with_vm(call_state(machine.vm, argument_count));
    match call_next(machine.vm, argument_count) {
        Next::Done(code) => Outcome { status: code, machine: asked },
        Next::Ask(resolve) => {
            let answer = (engine.resolve_call)(resolve.object, resolve.argument_count, asked);
            let ready = answer.machine.with_vm(
                resolved_state(answer.machine.vm, answer.result),
            );
            match resolved_next(answer.result) {
                Next::Done(code) => Outcome { status: code, machine: ready },
                Next::Ask(_) => {
                    let (completion, after) = (engine.run_callee)(ready);
                    done(
                        completed_status(completion),
                        after,
                        completed_state(after.vm, completion),
                    )
                },
            }
        },
    }
}

/// What counting an iteration of a loop does.
pub open spec fn count_outcome<W>(machine: Machine<W>) -> Outcome<W> {
    done(
        if loop_limit_exceeded(machine.vm) {
            1
        } else {
            0
        },
        machine,
        loop_counted(machine.vm),
    )
}

/// What checking a return value does.
pub open spec fn check_outcome<W>(engine: Engine<W>, machine: Machine<W>) -> Outcome<W> {
    let checked = machine.with_vm(check_return_state(machine.vm));
    match check_return_next(machine.vm) {
        Next::Done(code) => Outcome { status: code, machine: checked },
        Next::Ask(_) => {
            let answer = (engine.this_binding)(checked);
            let global_this = (engine.global_this)(answer.machine);
            done(
                status(answer.result),
                answer.machine,
                this_stored(answer.machine.vm, answer.result, global_this),
            )
        },
    }
}

/// What handing an instruction to the interpreter does.
pub open spec fn interpret_outcome<W>(
    engine: Engine<W>,
    position: u32,
    machine: Machine<W>,
) -> Outcome<W> {
    let step = (engine.interpret)(position, machine);
    Outcome { status: step.flow.status(), machine: step.machine }
}

/// What a helper returns, as far as it returns anything, and the machine that it leaves
/// behind.
#[verifier::opaque]
pub open spec fn helper_outcome<W>(
    engine: Engine<W>,
    helper: Helper,
    operands: Seq<u64>,
    machine: Machine<W>,
) -> Outcome<W> {
    let numbers = operands.map_values(|operand: u64| operand as u32);
    match helper {
        Helper::Add => binary_outcome(
            engine,
            BinaryOp::Add,
            numbers[0],
            numbers[1],
            numbers[2],
            machine,
        ),
        Helper::Sub => binary_outcome(
            engine,
            BinaryOp::Sub,
            numbers[0],
            numbers[1],
            numbers[2],
            machine,
        ),
        Helper::Mul => binary_outcome(
            engine,
            BinaryOp::Mul,
            numbers[0],
            numbers[1],
            numbers[2],
            machine,
        ),
        Helper::Div => binary_outcome(
            engine,
            BinaryOp::Div,
            numbers[0],
            numbers[1],
            numbers[2],
            machine,
        ),
        Helper::Mod => binary_outcome(
            engine,
            BinaryOp::Mod,
            numbers[0],
            numbers[1],
            numbers[2],
            machine,
        ),
        Helper::Pow => binary_outcome(
            engine,
            BinaryOp::Pow,
            numbers[0],
            numbers[1],
            numbers[2],
            machine,
        ),
        Helper::BitOr => binary_outcome(
            engine,
            BinaryOp::BitOr,
            numbers[0],
            numbers[1],
            numbers[2],
            machine,
        ),
        Helper::BitAnd => binary_outcome(
            engine,
            BinaryOp::BitAnd,
            numbers[0],
            numbers[1],
            numbers[2],
            machine,
        ),
        Helper::BitXor => binary_outcome(
            engine,
            BinaryOp::BitXor,
            numbers[0],
            numbers[1],
            numbers[2],
            machine,
        ),
        Helper::ShiftLeft => binary_outcome(
            engine,
            BinaryOp::ShiftLeft,
            numbers[0],
            numbers[1],
            numbers[2],
            machine,
        ),
        Helper::ShiftRight => binary_outcome(
            engine,
            BinaryOp::ShiftRight,
            numbers[0],
            numbers[1],
            numbers[2],
            machine,
        ),
        Helper::UnsignedShiftRight => binary_outcome(
            engine,
            BinaryOp::UnsignedShiftRight,
            numbers[0],
            numbers[1],
            numbers[2],
            machine,
        ),
        Helper::LessThan => binary_outcome(
            engine,
            BinaryOp::LessThan,
            numbers[0],
            numbers[1],
            numbers[2],
            machine,
        ),
        Helper::LessThanOrEq => binary_outcome(
            engine,
            BinaryOp::LessThanOrEq,
            numbers[0],
            numbers[1],
            numbers[2],
            machine,
        ),
        Helper::GreaterThan => binary_outcome(
            engine,
            BinaryOp::GreaterThan,
            numbers[0],
            numbers[1],
            numbers[2],
            machine,
        ),
        Helper::GreaterThanOrEq => binary_outcome(
            engine,
            BinaryOp::GreaterThanOrEq,
            numbers[0],
            numbers[1],
            numbers[2],
            machine,
        ),
        Helper::Eq => binary_outcome(
            engine,
            BinaryOp::Eq,
            numbers[0],
            numbers[1],
            numbers[2],
            machine,
        ),
        Helper::NotEq => binary_outcome(
            engine,
            BinaryOp::NotEq,
            numbers[0],
            numbers[1],
            numbers[2],
            machine,
        ),
        Helper::StrictEq => strict_outcome(
            engine,
            numbers[0],
            numbers[1],
            numbers[2],
            false,
            machine,
        ),
        Helper::StrictNotEq => strict_outcome(
            engine,
            numbers[0],
            numbers[1],
            numbers[2],
            true,
            machine,
        ),
        Helper::Inc => unary_outcome(engine, numbers[0], numbers[1], true, machine),
        Helper::Dec => unary_outcome(engine, numbers[0], numbers[1], false, machine),
        Helper::NotLessThan => not_less_outcome(engine, numbers[0], numbers[1], machine),
        Helper::GetName => name_outcome(engine, numbers[0], numbers[1], Missing::Raise, machine),
        Helper::GetNameGlobal => name_outcome(
            engine,
            numbers[0],
            numbers[1],
            Missing::Undefined,
            machine,
        ),
        Helper::GetPropertyByName => named_get_outcome(
            engine,
            numbers[0],
            numbers[1],
            numbers[2],
            machine,
        ),
        Helper::GetLengthProperty => length_outcome(engine, numbers[0], numbers[1], machine),
        Helper::GetPropertyByValue => value_get_outcome(
            engine,
            numbers[0],
            numbers[1],
            numbers[2],
            numbers[3],
            machine,
        ),
        Helper::GetPropertyByValuePush => value_get_outcome(
            engine,
            numbers[0],
            numbers[1],
            numbers[2],
            numbers[3],
            machine,
        ),
        Helper::SetPropertyByValue => value_set_outcome(
            engine,
            numbers[0],
            numbers[1],
            numbers[2],
            numbers[3],
            machine,
        ),
        Helper::Call => call_outcome(engine, numbers[0], machine),
        Helper::IncrementLoopIteration => count_outcome(machine),
        Helper::CheckReturn => check_outcome(engine, machine),
        Helper::Interpret => interpret_outcome(engine, numbers[0], machine),
        _ => done(
            return_status(machine.vm),
            machine,
            helper_effect(helper, operands, machine.vm),
        ),
    }
}

/// The operands that are passed for numbers.
pub open spec fn operands_for(numbers: Seq<i64>) -> Seq<u64> {
    Seq::new(numbers.len(), |i: int| low_bits(numbers[i], 32))
}

/// The outcome of a helper is that of the instruction that it is called for. The status tells
/// whether it ends with an exception.
pub open spec fn same_ending<W>(outcome: Outcome<W>, step: Step<W>) -> bool {
    &&& outcome.machine == step.machine
    &&& outcome.status == 0 <==> step.flow is Next
}

/// A binary operator does what the instruction does.
pub proof fn binary_is_step<W>(
    engine: Engine<W>,
    op: BinaryOp,
    dst: u32,
    lhs: u32,
    rhs: u32,
    machine: Machine<W>,
)
    requires
        is_coherent(engine),
    ensures
        same_ending(
            binary_outcome(engine, op, dst, lhs, rhs, machine),
            binary_step(engine, op, dst, lhs, rhs, machine),
        ),
{
    let (l, r) = (machine.vm.register(lhs), machine.vm.register(rhs));
    assert(operator_is_coherent(engine, op, l, r, machine));
}

/// The comparison of a jump does what the instruction does, and asks to jump where it jumps.
pub proof fn not_less_is_step<W>(engine: Engine<W>, lhs: u32, rhs: u32, machine: Machine<W>)
    requires
        is_coherent(engine),
    ensures
        not_less_outcome(engine, lhs, rhs, machine).machine == not_less_step(
            engine,
            lhs,
            rhs,
            machine,
        ).machine,
        not_less_outcome(engine, lhs, rhs, machine).status == not_less_step(
            engine,
            lhs,
            rhs,
            machine,
        ).flow.status(),
{
    let (l, r) = (machine.vm.register(lhs), machine.vm.register(rhs));
    assert(less_is_coherent(engine, l, r, machine));
}

/// Reading a property by name does what the instruction does.
pub proof fn named_get_is_step<W>(
    engine: Engine<W>,
    dst: u32,
    object: u32,
    ic_index: u32,
    machine: Machine<W>,
)
    ensures
        same_ending(
            named_get_outcome(engine, dst, object, ic_index, machine),
            named_get_step(engine, dst, object, ic_index, machine),
        ),
{
}

/// Reading and writing properties by value does what the instructions do.
pub proof fn by_value_is_step<W>(
    engine: Engine<W>,
    dst: u32,
    key: u32,
    receiver: u32,
    object: u32,
    machine: Machine<W>,
)
    ensures
        same_ending(
            value_get_outcome(engine, dst, key, receiver, object, machine),
            value_get_step(engine, dst, key, receiver, object, machine),
        ),
        same_ending(
            value_set_outcome(engine, dst, key, receiver, object, machine),
            value_set_step(engine, dst, key, receiver, object, machine),
        ),
{
}

/// A call does what the instruction does.
pub proof fn call_is_step<W>(engine: Engine<W>, argument_count: u32, machine: Machine<W>)
    ensures
        same_ending(
            call_outcome(engine, argument_count, machine),
            call_step(engine, argument_count, machine),
        ),
{
}

/// Signed numbers come back from the low bits that are passed for them.
proof fn signed_numbers_survive(number: i32)
    ensures
        signed_low(low_bits(number as i64, 32), 0x1_0000_0000) == number,
        i16::MIN <= number <= i16::MAX ==> signed_low(low_bits(number as i64, 32), 0x1_0000)
            == number,
        i8::MIN <= number <= i8::MAX ==> signed_low(low_bits(number as i64, 32), 0x100)
            == number,
{
    let low = number as int % 0x1_0000_0000;
    if number >= 0 {
        assert(low == number);
    } else {
        assert(low == number + 0x1_0000_0000);
    }
}

/// A call of a helper with constants for operands has the effect of the instruction that it
/// is for.
#[verifier::rlimit(40)]
proof fn effect_is_step(
    position: int,
    instruction: Instruction,
    helper: Helper,
    numbers: Seq<i64>,
    vm: VmState,
)
    requires
        is_plain(instruction),
        translation(position, instruction) == Translation::Call(helper, numbers),
    ensures
        helper_effect(helper, operands_for(numbers), vm) == step(instruction, vm),
{
    reveal(translation);
    let operands = operands_for(numbers);
    assert(operands[0] == low_bits(numbers[0], 32));
    if numbers.len() == 2 {
        assert(operands[1] == low_bits(numbers[1], 32));
    }
    match instruction {
        Instruction::StoreInt8 { dst, value } => {
            signed_numbers_survive(value as i32);
        },
        Instruction::StoreInt16 { dst, value } => {
            signed_numbers_survive(value as i32);
        },
        Instruction::StoreInt32 { dst, value } => {
            signed_numbers_survive(value);
        },
        _ => {},
    }
}

/// The numbers that a helper gets are those that it is called with.
proof fn numbers_arrive(numbers: Seq<i64>, i: int)
    requires
        0 <= i < numbers.len(),
        0 <= numbers[i] <= u32::MAX,
    ensures
        operands_for(numbers).map_values(|operand: u64| operand as u32)[i] == numbers[i],
{
}

/// The helper of a plain instruction does nothing but its effect.
proof fn plain_helper<W>(
    engine: Engine<W>,
    position: int,
    instruction: Instruction,
    helper: Helper,
    numbers: Seq<i64>,
    machine: Machine<W>,
)
    requires
        is_plain(instruction),
        translation(position, instruction) == Translation::Call(helper, numbers),
    ensures
        helper_outcome(engine, helper, operands_for(numbers), machine).machine == machine.with_vm(
            helper_effect(helper, operands_for(numbers), machine.vm),
        ),
{
    reveal(translation);
    reveal(helper_outcome);
}

/// A plain instruction does nothing but its step.
proof fn plain_instruction<W>(
    engine: Engine<W>,
    position: u32,
    instruction: Instruction,
    machine: Machine<W>,
)
    requires
        is_plain(instruction),
    ensures
        instruction_step(engine, position, instruction, machine) == goes_on(
            machine,
            step(instruction, machine.vm),
        ),
{
    reveal(instruction_step);
}

/// An instruction that may jump and has no helper of its own is the interpreter's.
proof fn jump_is_interpreted<W>(
    engine: Engine<W>,
    position: u32,
    instruction: Instruction,
    machine: Machine<W>,
)
    requires
        spec_jump_target(instruction) is Some,
        !(instruction is Jump),
        !(instruction is JumpIfNotLessThan),
    ensures
        instruction_step(engine, position, instruction, machine) == (engine.interpret)(
            position,
            machine,
        ),
{
    reveal(instruction_step);
}

/// The helper that returns does nothing else.
pub proof fn return_outcome<W>(engine: Engine<W>, operands: Seq<u64>, machine: Machine<W>)
    ensures
        helper_outcome(engine, Helper::CheckReturnAndReturn, operands, machine) == (Outcome {
            status: return_status(machine.vm),
            machine: machine.with_vm(machine.vm.compiled_return()),
        }),
{
    reveal(helper_outcome);
}

/// Strict comparisons do what the instructions do.
proof fn strict_is_step<W>(engine: Engine<W>, dst: u32, lhs: u32, rhs: u32, machine: Machine<W>)
    ensures
        ({
            let operands = operands_for(seq![dst as i64, lhs as i64, rhs as i64]);
            &&& helper_outcome(engine, Helper::StrictEq, operands, machine).machine == strict_step(
                engine,
                dst,
                lhs,
                rhs,
                false,
                machine,
            ).machine
            &&& helper_outcome(engine, Helper::StrictNotEq, operands, machine).machine
                == strict_step(engine, dst, lhs, rhs, true, machine).machine
        }),
{
    reveal(helper_outcome);
    let numbers = seq![dst as i64, lhs as i64, rhs as i64];
    numbers_arrive(numbers, 0);
    numbers_arrive(numbers, 1);
    numbers_arrive(numbers, 2);
}

/// A helper that always succeeds does what the instruction does that it is called for, and
/// control goes on.
#[verifier::rlimit(40)]
pub proof fn call_does_step<W>(
    engine: Engine<W>,
    position: u32,
    instruction: Instruction,
    helper: Helper,
    numbers: Seq<i64>,
    machine: Machine<W>,
)
    requires
        translation(position as int, instruction) == Translation::Call(helper, numbers),
    ensures
        instruction_step(engine, position, instruction, machine).flow is Next,
        helper_outcome(engine, helper, operands_for(numbers), machine).machine == instruction_step(
            engine,
            position,
            instruction,
            machine,
        ).machine,
{
    reveal(translation);
    reveal(instruction_step);
    if is_plain(instruction) {
        effect_is_step(position as int, instruction, helper, numbers, machine.vm);
        plain_helper(engine, position as int, instruction, helper, numbers, machine);
        plain_instruction(engine, position, instruction, machine);
    } else {
        match instruction {
            Instruction::StrictEq { dst, lhs, rhs } => {
                strict_is_step(engine, dst, lhs, rhs, machine);
            },
            Instruction::StrictNotEq { dst, lhs, rhs } => {
                strict_is_step(engine, dst, lhs, rhs, machine);
            },
            _ => {},
        }
    }
}

/// A helper that may leave an exception pending does what the instruction does that it is
/// called for, and its status tells whether control goes on.
#[verifier::rlimit(60)]
pub proof fn check_does_step<W>(
    engine: Engine<W>,
    position: u32,
    instruction: Instruction,
    helper: Helper,
    numbers: Seq<i64>,
    machine: Machine<W>,
)
    requires
        is_coherent(engine),
        translation(position as int, instruction) == Translation::Check(helper, numbers),
    ensures
        same_ending(
            helper_outcome(engine, helper, operands_for(numbers), machine),
            instruction_step(engine, position, instruction, machine),
        ),
{
    reveal(translation);
    reveal(instruction_step);
    reveal(helper_outcome);
    if numbers.len() > 0 {
        numbers_arrive(numbers, 0);
    }
    if numbers.len() > 1 {
        numbers_arrive(numbers, 1);
    }
    if numbers.len() > 2 {
        numbers_arrive(numbers, 2);
    }
    if numbers.len() > 3 {
        numbers_arrive(numbers, 3);
    }
    match instruction {
        Instruction::Add { dst, lhs, rhs } => {
            binary_is_step(engine, BinaryOp::Add, dst, lhs, rhs, machine);
        },
        Instruction::Sub { dst, lhs, rhs } => {
            binary_is_step(engine, BinaryOp::Sub, dst, lhs, rhs, machine);
        },
        Instruction::Mul { dst, lhs, rhs } => {
            binary_is_step(engine, BinaryOp::Mul, dst, lhs, rhs, machine);
        },
        Instruction::Div { dst, lhs, rhs } => {
            binary_is_step(engine, BinaryOp::Div, dst, lhs, rhs, machine);
        },
        Instruction::Mod { dst, lhs, rhs } => {
            binary_is_step(engine, BinaryOp::Mod, dst, lhs, rhs, machine);
        },
        Instruction::Pow { dst, lhs, rhs } => {
            binary_is_step(engine, BinaryOp::Pow, dst, lhs, rhs, machine);
        },
        Instruction::BitOr { dst, lhs, rhs } => {
            binary_is_step(engine, BinaryOp::BitOr, dst, lhs, rhs, machine);
        },
        Instruction::BitAnd { dst, lhs, rhs } => {
            binary_is_step(engine, BinaryOp::BitAnd, dst, lhs, rhs, machine);
        },
        Instruction::BitXor { dst, lhs, rhs } => {
            binary_is_step(engine, BinaryOp::BitXor, dst, lhs, rhs, machine);
        },
        Instruction::ShiftLeft { dst, lhs, rhs } => {
            binary_is_step(engine, BinaryOp::ShiftLeft, dst, lhs, rhs, machine);
        },
        Instruction::ShiftRight { dst, lhs, rhs } => {
            binary_is_step(engine, BinaryOp::ShiftRight, dst, lhs, rhs, machine);
        },
        Instruction::UnsignedShiftRight { dst, lhs, rhs } => {
            binary_is_step(engine, BinaryOp::UnsignedShiftRight, dst, lhs, rhs, machine);
        },
        Instruction::LessThan { dst, lhs, rhs } => {
            binary_is_step(engine, BinaryOp::LessThan, dst, lhs, rhs, machine);
        },
        Instruction::LessThanOrEq { dst, lhs, rhs } => {
            binary_is_step(engine, BinaryOp::LessThanOrEq, dst, lhs, rhs, machine);
        },
        Instruction::GreaterThan { dst, lhs, rhs } => {
            binary_is_step(engine, BinaryOp::GreaterThan, dst, lhs, rhs, machine);
        },
        Instruction::GreaterThanOrEq { dst, lhs, rhs } => {
            binary_is_step(engine, BinaryOp::GreaterThanOrEq, dst, lhs, rhs, machine);
        },
        Instruction::Eq { dst, lhs, rhs } => {
            binary_is_step(engine, BinaryOp::Eq, dst, lhs, rhs, machine);
        },
        Instruction::NotEq { dst, lhs, rhs } => {
            binary_is_step(engine, BinaryOp::NotEq, dst, lhs, rhs, machine);
        },
        Instruction::GetPropertyByName { dst, object, ic_index } => {
            named_get_is_step(engine, dst, object, ic_index, machine);
        },
        Instruction::GetPropertyByValue { dst, key, receiver, object } => {
            by_value_is_step(engine, dst, key, receiver, object, machine);
        },
        Instruction::GetPropertyByValuePush { dst, key, receiver, object } => {
            by_value_is_step(engine, dst, key, receiver, object, machine);
        },
        Instruction::SetPropertyByValue { value, key, receiver, object } => {
            by_value_is_step(engine, value, key, receiver, object, machine);
        },
        Instruction::Call { argument_count } => {
            call_is_step(engine, argument_count, machine);
        },
        _ => {},
    }
}

/// A helper that may also ask to jump does what the instruction does that it is called for,
/// and its status tells how control goes on.
#[verifier::rlimit(40)]
pub proof fn branch_does_step<W>(
    engine: Engine<W>,
    position: u32,
    instruction: Instruction,
    helper: Helper,
    numbers: Seq<i64>,
    address: u32,
    machine: Machine<W>,
)
    requires
        is_coherent(engine),
        translation(position as int, instruction) == Translation::Branch(helper, numbers, address),
    ensures
        ({
            let outcome = helper_outcome(engine, helper, operands_for(numbers), machine);
            let step = instruction_step(engine, position, instruction, machine);
            &&& outcome.machine == step.machine
            &&& outcome.status == step.flow.status()
        }),
{
    reveal(translation);
    reveal(instruction_step);
    reveal(helper_outcome);
    numbers_arrive(numbers, 0);
    match instruction {
        Instruction::JumpIfNotLessThan { lhs, rhs, .. } => {
            numbers_arrive(numbers, 1);
            not_less_is_step(engine, lhs, rhs, machine);
        },
        _ => {
            operands_fit(position as int, instruction);
            jump_is_interpreted(engine, position, instruction, machine);
        },
    }
}

} // verus!
