//! Constants, moves and the stack.

use vstd::prelude::*;

use crate::engine::step;
use crate::instruction::Instruction;
use crate::value::{ErrorView, JsError, JsValue};
use crate::vm::{CallFrame, Vm, VmState};

verus! {

/// Set register `dst` to integer 0.
///
/// Implements: `StoreZero { dst }`
pub fn jit_store_zero(vm: &mut Vm, dst: u32)
    requires
        old(vm)@.has_register(dst),
    ensures
        final(vm)@ == old(vm)@.set_register(dst, JsValue::Integer32(0)),
        final(vm)@ == step(Instruction::StoreZero { dst }, old(vm)@),
{
    vm.set_register(dst, JsValue::Integer32(0));
}

/// Set register `dst` to integer 1.
///
/// Implements: `StoreOne { dst }`
pub fn jit_store_one(vm: &mut Vm, dst: u32)
    requires
        old(vm)@.has_register(dst),
    ensures
        final(vm)@ == old(vm)@.set_register(dst, JsValue::Integer32(1)),
        final(vm)@ == step(Instruction::StoreOne { dst }, old(vm)@),
{
    vm.set_register(dst, JsValue::Integer32(1));
}

/// Set register `dst` to an i8 value.
///
/// Implements: `StoreInt8 { dst, value }`
pub fn jit_store_int8(vm: &mut Vm, dst: u32, value: i8)
    requires
        old(vm)@.has_register(dst),
    ensures
        final(vm)@ == old(vm)@.set_register(dst, JsValue::Integer32(value as i32)),
        final(vm)@ == step(Instruction::StoreInt8 { dst, value }, old(vm)@),
{
    vm.set_register(dst, JsValue::Integer32(value as i32));
}

/// Set register `dst` to an i16 value.
///
/// Implements: `StoreInt16 { dst, value }`
pub fn jit_store_int16(vm: &mut Vm, dst: u32, value: i16)
    requires
        old(vm)@.has_register(dst),
    ensures
        final(vm)@ == old(vm)@.set_register(dst, JsValue::Integer32(value as i32)),
        final(vm)@ == step(Instruction::StoreInt16 { dst, value }, old(vm)@),
{
    vm.set_register(dst, JsValue::Integer32(value as i32));
}

/// Set register `dst` to an i32 value.
///
/// Implements: `StoreInt32 { dst, value }`
pub fn jit_store_int32(vm: &mut Vm, dst: u32, value: i32)
    requires
        old(vm)@.has_register(dst),
    ensures
        final(vm)@ == old(vm)@.set_register(dst, JsValue::Integer32(value)),
        final(vm)@ == step(Instruction::StoreInt32 { dst, value }, old(vm)@),
{
    vm.set_register(dst, JsValue::Integer32(value));
}

/// Copy register `src` to register `dst`.
///
/// Implements: `Move { dst, src }`
pub fn jit_move(vm: &mut Vm, dst: u32, src: u32)
    requires
        old(vm)@.has_register(dst),
        old(vm)@.has_register(src),
    ensures
        final(vm)@ == old(vm)@.set_register(dst, old(vm)@.register(src)),
        final(vm)@ == step(Instruction::Move { dst, src }, old(vm)@),
{
    let value = vm.get_register(src);
    vm.set_register(dst, value);
}

/// Set the accumulator (implicit return value) from a register.
///
/// Implements: `SetAccumulator { src }`
pub fn jit_set_accumulator(vm: &mut Vm, src: u32)
    requires
        old(vm)@.has_register(src),
    ensures
        final(vm)@ == old(vm)@.set_return_value(old(vm)@.register(src)),
        final(vm)@ == step(Instruction::SetAccumulator { src }, old(vm)@),
{
    let value = vm.get_register(src);
    vm.set_return_value(value);
}

/// Push a register value onto the stack.
///
/// Implements: `PushFromRegister { src }`
pub fn jit_push_from_register(vm: &mut Vm, src: u32)
    requires
        old(vm)@.has_register(src),
    ensures
        final(vm)@ == old(vm)@.push(old(vm)@.register(src)),
        final(vm)@ == step(Instruction::PushFromRegister { src }, old(vm)@),
{
    let value = vm.get_register(src);
    vm.push(value);
}

/// Pop a value from the stack into a register.
///
/// Implements: `PopIntoRegister { dst }`
pub fn jit_pop_into_register(vm: &mut Vm, dst: u32)
    requires
        old(vm)@.stack.len() > 0,
        old(vm)@.pop().has_register(dst),
    ensures
        final(vm)@ == old(vm)@.pop().set_register(dst, old(vm)@.stack.last()),
        final(vm)@ == step(Instruction::PopIntoRegister { dst }, old(vm)@),
{
    let value = vm.pop();
    vm.set_register(dst, value);
}

/// Get the `index`-th function argument and store it in register `dst`.
///
/// Implements: `GetArgument { index, dst }`
pub fn jit_get_argument(vm: &mut Vm, index: u32, dst: u32)
    requires
        old(vm)@.has_register(dst),
    ensures
        final(vm)@ == old(vm)@.set_register(dst, old(vm)@.argument(index)),
        final(vm)@ == step(Instruction::GetArgument { index, dst }, old(vm)@),
{
    let value = vm.get_argument(index);
    vm.set_register(dst, value);
}

/// One more iteration of the loop is more than the limit allows.
pub open spec fn loop_limit_exceeded(before: VmState) -> bool {
    0 < before.loop_iteration_limit < before.frame().loop_iteration_count + 1
}

/// The state after [`jit_increment_loop_iteration`].
pub open spec fn loop_counted(before: VmState) -> VmState {
    let counted = before.set_frame(
        CallFrame {
            loop_iteration_count: (before.frame().loop_iteration_count + 1) as u64,
            ..before.frame()
        },
    );
    if loop_limit_exceeded(before) {
        counted.raise(JsError::LoopIterationLimit@)
    } else {
        counted
    }
}

/// Increment the loop iteration counter. Returns 0 on success, 1 on limit exceeded.
///
/// Implements: `IncrementLoopIteration`
pub fn jit_increment_loop_iteration(vm: &mut Vm) -> (code: u64)
    requires
        old(vm)@.frames.len() > 0,
        old(vm)@.frame().loop_iteration_count < u64::MAX,
    ensures
        code == (if loop_limit_exceeded(old(vm)@) { 1u64 } else { 0u64 }),
        final(vm)@ == loop_counted(old(vm)@),
{
    let last: usize = vm.frames.len() - 1;
    vm.frames[last].loop_iteration_count = vm.frames[last].loop_iteration_count + 1;
    let limit = vm.loop_iteration_limit;
    if limit > 0 && vm.frame().loop_iteration_count > limit {
        vm.raise(JsError::LoopIterationLimit);
        1
    } else {
        0
    }
}

/// A loop is stopped exactly by the iteration after the last one that the limit allows. A
/// limit of 0 stops none. Every iteration is counted, also the one that is stopped.
pub proof fn loop_limit_is_kept(before: VmState)
    requires
        before.frames.len() > 0,
        before.frames.last().loop_iteration_count < u64::MAX,
    ensures
        loop_limit_exceeded(before) <==> before.loop_iteration_limit > 0
            && before.frames.last().loop_iteration_count >= before.loop_iteration_limit,
        loop_counted(before).frames.len() == before.frames.len(),
        loop_counted(before).frames.last().loop_iteration_count
            == before.frames.last().loop_iteration_count + 1,
        loop_counted(before).frames.last() == (CallFrame {
            loop_iteration_count: loop_counted(before).frames.last().loop_iteration_count,
            ..before.frames.last()
        }),
        loop_counted(before).frames.drop_last() == before.frames.drop_last(),
        loop_counted(before).stack == before.stack,
        loop_counted(before).return_value == before.return_value,
        loop_counted(before).loop_iteration_limit == before.loop_iteration_limit,
        loop_counted(before).pending_exception == (if before.loop_iteration_limit > 0
            && before.frames.last().loop_iteration_count >= before.loop_iteration_limit {
            Some(ErrorView::LoopIterationLimit)
        } else {
            before.pending_exception
        }),
{
    assert(loop_counted(before).frames.drop_last() =~= before.frames.drop_last());
}

} // verus!
