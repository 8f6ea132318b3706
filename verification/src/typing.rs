//! What type annotations promise of the values in registers.

use vstd::prelude::*;

use crate::engine::{
    binary_step, instruction_step, is_plain, step, store_step, unary_step, Answer, Engine, Machine,
};
use crate::helpers::arithmetic::{next_integer, BinaryOp};
use crate::instruction::Instruction;
use crate::ir::{IrInst, ValueType};
use crate::optimize::{
    produced_type, register_type, spec_instruction_dst, types_after, types_before,
};
use crate::value::JsValue;
use crate::vm::VmState;

verus! {

/// A value is of a type. Nothing is known of a value of unknown type.
pub open spec fn has_type(value: JsValue, ty: ValueType) -> bool {
    match ty {
        ValueType::Unknown => true,
        ValueType::Int32 => value is Integer32,
        ValueType::Float64 => value is Float64,
        ValueType::Boolean => value is Boolean,
    }
}

/// Every register whose type is known holds a value of that type.
pub open spec fn registers_have_types(types: Map<u32, ValueType>, vm: VmState) -> bool {
    forall|register: u32| #[trigger]
        types.contains_key(register) ==> vm.has_register(register) && has_type(
            vm.register(register),
            types[register],
        )
}

/// Types stay right when an instruction writes a value of the type that was inferred for
/// it.
pub proof fn right_writes_keep_types(
    types: Map<u32, ValueType>,
    instruction: Instruction,
    vm: VmState,
    dst: u32,
    value: JsValue,
)
    requires
        spec_instruction_dst(instruction) == Some(dst),
        has_type(value, produced_type(instruction, types)),
        vm.has_register(dst),
        registers_have_types(types, vm),
    ensures
        registers_have_types(types_after(types, instruction), vm.set_register(dst, value)),
{
    let after = types_after(types, instruction);
    let next = vm.set_register(dst, value);
    assert forall|register: u32| #[trigger] after.contains_key(register) implies next.has_register(
        register,
    ) && has_type(next.register(register), after[register]) by {
        if register != dst {
            assert(types.contains_key(register));
        }
    }
}

/// A plain instruction writes into the registers of the running call, and what it
/// pops lies above the registers whose type is known.
pub open spec fn stays_in_frame(
    types: Map<u32, ValueType>,
    instruction: Instruction,
    vm: VmState,
) -> bool {
    match instruction {
        Instruction::PopIntoRegister { dst } => {
            &&& vm.stack.len() > 0
            &&& vm.pop().has_register(dst)
            &&& forall|register: u32| #[trigger]
                types.contains_key(register) ==> vm.pop().has_register(register)
        },
        _ => spec_instruction_dst(instruction) matches Some(dst) ==> vm.has_register(dst),
    }
}

/// Carrying out an instruction on constants, registers and the stack keeps the types right.
pub proof fn steps_keep_types(
    types: Map<u32, ValueType>,
    instruction: Instruction,
    vm: VmState,
)
    requires
        is_plain(instruction),
        stays_in_frame(types, instruction, vm),
        registers_have_types(types, vm),
    ensures
        registers_have_types(types_after(types, instruction), step(instruction, vm)),
{
    match instruction {
        Instruction::PopIntoRegister { dst } => {
            assert(registers_have_types(types, vm.pop()));
            right_writes_keep_types(types, instruction, vm.pop(), dst, vm.stack.last());
        },
        Instruction::StoreZero { dst } => {
            right_writes_keep_types(types, instruction, vm, dst, JsValue::Integer32(0));
        },
        Instruction::StoreOne { dst } => {
            right_writes_keep_types(types, instruction, vm, dst, JsValue::Integer32(1));
        },
        Instruction::StoreInt8 { dst, value } => {
            right_writes_keep_types(types, instruction, vm, dst, JsValue::Integer32(value as i32));
        },
        Instruction::StoreInt16 { dst, value } => {
            right_writes_keep_types(types, instruction, vm, dst, JsValue::Integer32(value as i32));
        },
        Instruction::StoreInt32 { dst, value } => {
            right_writes_keep_types(types, instruction, vm, dst, JsValue::Integer32(value));
        },
        Instruction::Move { dst, src } => {
            assert(has_type(vm.register(src), register_type(types, src)));
            right_writes_keep_types(types, instruction, vm, dst, vm.register(src));
        },
        Instruction::GetArgument { index, dst } => {
            right_writes_keep_types(types, instruction, vm, dst, vm.argument(index));
        },
        _ => {},
    }
}

/// The virtual machine before instruction number `k` of a block body, which starts at `vm`.
pub open spec fn vm_before(body: Seq<IrInst>, vm: VmState, k: int) -> VmState
    decreases k,
{
    if k <= 0 {
        vm
    } else {
        step(body[k - 1].instruction, vm_before(body, vm, k - 1))
    }
}

/// Where control runs through a block of such instructions, every register holds a value of
/// the type that type propagation knows for it.
pub proof fn propagated_types_are_right(body: Seq<IrInst>, vm: VmState, k: int)
    requires
        0 <= k <= body.len(),
        forall|i: int|
            0 <= i < k ==> is_plain((#[trigger] body[i]).instruction)
                && stays_in_frame(
                types_before(body, i),
                body[i].instruction,
                vm_before(body, vm, i),
            ),
    ensures
        registers_have_types(types_before(body, k), vm_before(body, vm, k)),
    decreases k,
{
    if k > 0 {
        propagated_types_are_right(body, vm, k - 1);
        assert(is_plain(body[k - 1].instruction));
        steps_keep_types(
            types_before(body, k - 1),
            body[k - 1].instruction,
            vm_before(body, vm, k - 1),
        );
    }
}

/// A result that was stored is the value of its register.
proof fn stored_result_is_in_register<W>(dst: u32, answer: Answer<W, JsValue>)
    requires
        store_step(dst, answer).flow is Next,
        answer.machine.vm.has_register(dst),
    ensures
        answer.result matches Ok(value) && store_step(dst, answer).machine.vm.register(dst)
            == value,
{
}

/// What an operator stores is what the engine answered.
proof fn operator_result_is_in_register<W>(
    engine: Engine<W>,
    op: BinaryOp,
    dst: u32,
    lhs: u32,
    rhs: u32,
    machine: Machine<W>,
)
    ensures
        ({
            let answer = (engine.operate)(
                op,
                machine.vm.register(lhs),
                machine.vm.register(rhs),
                machine,
            );
            let done = binary_step(engine, op, dst, lhs, rhs, machine);
            done.flow is Next && answer.machine.vm.has_register(dst) ==> (
            answer.result matches Ok(value) && done.machine.vm.register(dst) == value)
        }),
{
    let answer = (engine.operate)(
        op,
        machine.vm.register(lhs),
        machine.vm.register(rhs),
        machine,
    );
    let done = binary_step(engine, op, dst, lhs, rhs, machine);
    if done.flow is Next && answer.machine.vm.has_register(dst) {
        stored_result_is_in_register(dst, answer);
    }
}

/// What an increment or decrement stores is the next integer, or what the engine answered.
proof fn step_result_is_in_register<W>(
    engine: Engine<W>,
    dst: u32,
    src: u32,
    increment: bool,
    machine: Machine<W>,
)
    requires
        machine.vm.has_register(dst),
        machine.vm.register(src) is Integer32,
        forall|value: JsValue, m: Machine<W>|
            (#[trigger] (engine.to_numeric)(value, increment, m)).result matches Ok(numeric) ==> (
            value is Integer32 ==> numeric.stepped is Integer32) && (engine.to_numeric)(
                value,
                increment,
                m,
            ).machine.vm.has_register(dst) && (engine.to_numeric)(
                value,
                increment,
                m,
            ).machine.vm.has_register(src),
        unary_step(engine, dst, src, increment, machine).flow is Next,
    ensures
        unary_step(engine, dst, src, increment, machine).machine.vm.register(dst) is Integer32,
{
    let value = machine.vm.register(src);
    if next_integer(value, increment) is None {
        let taken = machine.with_vm(machine.vm.set_register(src, JsValue::Undefined));
        let answer = (engine.to_numeric)(value, increment, taken);
        assert(answer.result is Ok);
    }
}

/// The value that a comparison leaves behind has the type inferred for it, which is known to
/// be boolean, if the engine's comparison operators answer with booleans.
pub proof fn comparisons_leave_what_was_inferred<W>(
    engine: Engine<W>,
    position: u32,
    instruction: Instruction,
    machine: Machine<W>,
    types: Map<u32, ValueType>,
    dst: u32,
    lhs: u32,
    rhs: u32,
)
    requires
        ({
            ||| instruction == (Instruction::LessThan { dst, lhs, rhs })
            ||| instruction == (Instruction::LessThanOrEq { dst, lhs, rhs })
            ||| instruction == (Instruction::GreaterThan { dst, lhs, rhs })
            ||| instruction == (Instruction::GreaterThanOrEq { dst, lhs, rhs })
            ||| instruction == (Instruction::Eq { dst, lhs, rhs })
            ||| instruction == (Instruction::NotEq { dst, lhs, rhs })
            ||| instruction == (Instruction::StrictEq { dst, lhs, rhs })
            ||| instruction == (Instruction::StrictNotEq { dst, lhs, rhs })
            ||| instruction == (Instruction::In { dst, lhs, rhs })
            ||| instruction == (Instruction::InstanceOf { dst, lhs, rhs })
        }),
        forall|op: BinaryOp, l: JsValue, r: JsValue, m: Machine<W>|
            ({
                ||| op is LessThan
                ||| op is LessThanOrEq
                ||| op is GreaterThan
                ||| op is GreaterThanOrEq
                ||| op is Eq
                ||| op is NotEq
            }) ==> ((#[trigger] (engine.operate)(op, l, r, m)).result matches Ok(value)
                ==> value is Boolean && (engine.operate)(op, l, r, m).machine.vm.has_register(dst)),
        instruction is In || instruction is InstanceOf ==> (engine.interpret)(
            position,
            machine,
        ).machine.vm.register(dst) is Boolean,
        instruction_step(engine, position, instruction, machine).flow is Next,
        machine.vm.has_register(dst),
    ensures
        produced_type(instruction, types) == ValueType::Boolean,
        spec_instruction_dst(instruction) == Some(dst),
        instruction_step(engine, position, instruction, machine).machine.vm.register(
            dst,
        ) is Boolean,
{
    reveal(instruction_step);
    match instruction {
        Instruction::LessThan { dst, lhs, rhs } => {
            operator_result_is_in_register(engine, BinaryOp::LessThan, dst, lhs, rhs, machine);
        },
        Instruction::LessThanOrEq { dst, lhs, rhs } => {
            operator_result_is_in_register(engine, BinaryOp::LessThanOrEq, dst, lhs, rhs, machine);
        },
        Instruction::GreaterThan { dst, lhs, rhs } => {
            operator_result_is_in_register(engine, BinaryOp::GreaterThan, dst, lhs, rhs, machine);
        },
        Instruction::GreaterThanOrEq { dst, lhs, rhs } => {
            let op = BinaryOp::GreaterThanOrEq;
            operator_result_is_in_register(engine, op, dst, lhs, rhs, machine);
        },
        Instruction::Eq { dst, lhs, rhs } => {
            operator_result_is_in_register(engine, BinaryOp::Eq, dst, lhs, rhs, machine);
        },
        Instruction::NotEq { dst, lhs, rhs } => {
            operator_result_is_in_register(engine, BinaryOp::NotEq, dst, lhs, rhs, machine);
        },
        _ => {},
    }
}

/// The value that any instruction leaves in its destination has the type inferred for it. The
/// engine is taken to answer comparisons with booleans, bitwise operators with integers, sums,
/// differences and products of integers with integers, and steps of integers with integers, and
/// to carry out constants, `in` and `instanceof` as they are meant.
#[verifier::rlimit(40)]
pub proof fn results_have_inferred_types<W>(
    engine: Engine<W>,
    position: u32,
    instruction: Instruction,
    machine: Machine<W>,
    types: Map<u32, ValueType>,
    dst: u32,
)
    requires
        spec_instruction_dst(instruction) == Some(dst),
        registers_have_types(types, machine.vm),
        forall|op: BinaryOp, l: JsValue, r: JsValue, m: Machine<W>|
            (#[trigger] (engine.operate)(op, l, r, m)).result matches Ok(value) ==> (
            engine.operate)(op, l, r, m).machine.vm.has_register(dst) && match op {
                BinaryOp::LessThan
                | BinaryOp::LessThanOrEq
                | BinaryOp::GreaterThan
                | BinaryOp::GreaterThanOrEq
                | BinaryOp::Eq
                | BinaryOp::NotEq => value is Boolean,
                BinaryOp::BitOr
                | BinaryOp::BitAnd
                | BinaryOp::BitXor
                | BinaryOp::ShiftLeft
                | BinaryOp::ShiftRight
                | BinaryOp::UnsignedShiftRight => value is Integer32,
                BinaryOp::Add | BinaryOp::Sub | BinaryOp::Mul => l is Integer32 && r is Integer32
                    ==> value is Integer32,
                _ => true,
            },
        forall|value: JsValue, increment: bool, m: Machine<W>|
            (#[trigger] (engine.to_numeric)(value, increment, m)).result matches Ok(numeric) ==> {
                let vm = (engine.to_numeric)(value, increment, m).machine.vm;
                &&& value is Integer32 ==> numeric.stepped is Integer32
                &&& vm.has_register(dst)
                &&& instruction matches Instruction::Inc { src, .. } ==> vm.has_register(src)
                &&& instruction matches Instruction::Dec { src, .. } ==> vm.has_register(src)
            },
        ({
            let value = (engine.interpret)(position, machine).machine.vm.register(dst);
            match instruction {
                Instruction::StoreFloat { .. }
                | Instruction::StoreDouble { .. }
                | Instruction::StoreNan { .. }
                | Instruction::StorePositiveInfinity { .. }
                | Instruction::StoreNegativeInfinity { .. } => value is Float64,
                Instruction::StoreTrue { .. }
                | Instruction::StoreFalse { .. }
                | Instruction::In { .. }
                | Instruction::InstanceOf { .. } => value is Boolean,
                _ => true,
            }
        }),
        instruction_step(engine, position, instruction, machine).flow is Next,
        machine.vm.has_register(dst),
        instruction matches Instruction::PopIntoRegister { .. } ==> machine.vm.stack.len() > 0
            && machine.vm.pop().has_register(dst),
    ensures
        ({
            let value = instruction_step(
                engine,
                position,
                instruction,
                machine,
            ).machine.vm.register(dst);
            match produced_type(instruction, types) {
                ValueType::Unknown => true,
                ValueType::Int32 => value is Integer32,
                ValueType::Float64 => value is Float64,
                ValueType::Boolean => value is Boolean,
            }
        }),
{
    reveal(instruction_step);
    match instruction {
        Instruction::LessThan { dst, lhs, rhs } => {
            operator_result_is_in_register(engine, BinaryOp::LessThan, dst, lhs, rhs, machine);
        },
        Instruction::LessThanOrEq { dst, lhs, rhs } => {
            operator_result_is_in_register(engine, BinaryOp::LessThanOrEq, dst, lhs, rhs, machine);
        },
        Instruction::GreaterThan { dst, lhs, rhs } => {
            operator_result_is_in_register(engine, BinaryOp::GreaterThan, dst, lhs, rhs, machine);
        },
        Instruction::GreaterThanOrEq { dst, lhs, rhs } => {
            let op = BinaryOp::GreaterThanOrEq;
            operator_result_is_in_register(engine, op, dst, lhs, rhs, machine);
        },
        Instruction::Eq { dst, lhs, rhs } => {
            operator_result_is_in_register(engine, BinaryOp::Eq, dst, lhs, rhs, machine);
        },
        Instruction::NotEq { dst, lhs, rhs } => {
            operator_result_is_in_register(engine, BinaryOp::NotEq, dst, lhs, rhs, machine);
        },
        Instruction::BitOr { dst, lhs, rhs } => {
            operator_result_is_in_register(engine, BinaryOp::BitOr, dst, lhs, rhs, machine);
        },
        Instruction::BitAnd { dst, lhs, rhs } => {
            operator_result_is_in_register(engine, BinaryOp::BitAnd, dst, lhs, rhs, machine);
        },
        Instruction::BitXor { dst, lhs, rhs } => {
            operator_result_is_in_register(engine, BinaryOp::BitXor, dst, lhs, rhs, machine);
        },
        Instruction::ShiftLeft { dst, lhs, rhs } => {
            operator_result_is_in_register(engine, BinaryOp::ShiftLeft, dst, lhs, rhs, machine);
        },
        Instruction::ShiftRight { dst, lhs, rhs } => {
            operator_result_is_in_register(engine, BinaryOp::ShiftRight, dst, lhs, rhs, machine);
        },
        Instruction::UnsignedShiftRight { dst, lhs, rhs } => {
            let op = BinaryOp::UnsignedShiftRight;
            operator_result_is_in_register(engine, op, dst, lhs, rhs, machine);
        },
        Instruction::Add { dst, lhs, rhs } => {
            operator_result_is_in_register(engine, BinaryOp::Add, dst, lhs, rhs, machine);
            assert(types.contains_key(lhs) ==> has_type(machine.vm.register(lhs), types[lhs]));
            assert(types.contains_key(rhs) ==> has_type(machine.vm.register(rhs), types[rhs]));
        },
        Instruction::Sub { dst, lhs, rhs } => {
            operator_result_is_in_register(engine, BinaryOp::Sub, dst, lhs, rhs, machine);
            assert(types.contains_key(lhs) ==> has_type(machine.vm.register(lhs), types[lhs]));
            assert(types.contains_key(rhs) ==> has_type(machine.vm.register(rhs), types[rhs]));
        },
        Instruction::Mul { dst, lhs, rhs } => {
            operator_result_is_in_register(engine, BinaryOp::Mul, dst, lhs, rhs, machine);
            assert(types.contains_key(lhs) ==> has_type(machine.vm.register(lhs), types[lhs]));
            assert(types.contains_key(rhs) ==> has_type(machine.vm.register(rhs), types[rhs]));
        },
        Instruction::Inc { dst, src } => {
            assert(types.contains_key(src) ==> has_type(machine.vm.register(src), types[src]));
            if machine.vm.register(src) is Integer32 {
                step_result_is_in_register(engine, dst, src, true, machine);
            }
        },
        Instruction::Dec { dst, src } => {
            assert(types.contains_key(src) ==> has_type(machine.vm.register(src), types[src]));
            if machine.vm.register(src) is Integer32 {
                step_result_is_in_register(engine, dst, src, false, machine);
            }
        },
        Instruction::Move { src, .. } => {
            assert(types.contains_key(src) ==> has_type(machine.vm.register(src), types[src]));
        },
        _ => {},
    }
}

} // verus!
