//! What instructions do, in terms of what the engine does.
//!
//! The engine converts and compares values, looks up properties and variables, and calls
//! functions. Whatever it does there, what an instruction makes of it is fixed.

use vstd::prelude::*;

use crate::code_block::{cached_slot, first_entry_counts, BindingLocator};
use crate::helpers::arithmetic::{next_integer, BinaryOp, Numeric};
use crate::helpers::call::{check_return_next, check_return_state, this_stored};
use crate::helpers::data::{loop_counted, loop_limit_exceeded};
use crate::helpers::name::{read_state, read_status, Missing};
use crate::helpers::property::{Heap, KeyView, PropertyKey};
use crate::helpers::Next;
use crate::instruction::Instruction;
use crate::value::{CompletionRecord, ErrorKind, ErrorView, JsError, JsValue};
use crate::vm::{CallFrame, VmState};

verus! {

/// The virtual machine, and whatever else the engine works on: objects, environments, the
/// outside world.
pub struct Machine<W> {
    pub vm: VmState,
    pub world: W,
}

impl<W> Machine<W> {
    /// The machine with the virtual machine replaced.
    pub open spec fn with_vm(self, vm: VmState) -> Machine<W> {
        Machine { vm, ..self }
    }
}

/// How control goes on after an instruction.
pub enum Flow {
    /// With the next instruction.
    Next,
    /// With the instruction that it jumps to.
    Jump,
    /// With the exception that is pending.
    Throw,
}

impl Flow {
    /// The status of a helper for an instruction that goes on like this, where it may jump.
    pub open spec fn status(self) -> u64 {
        match self {
            Flow::Next => 0,
            Flow::Jump => 1,
            Flow::Throw => 2,
        }
    }
}

/// What carrying out one instruction comes to.
pub struct Step<W> {
    pub flow: Flow,
    pub machine: Machine<W>,
}

/// What the engine answers, and the machine that it leaves behind.
pub struct Answer<W, T> {
    pub result: Result<T, JsError>,
    pub machine: Machine<W>,
}

/// What the engine does, whatever that is.
#[verifier::reject_recursive_types(W)]
pub struct Engine<W> {
    /// Carries out the instruction at a position of the running code, up to the end of the
    /// calls that it makes.
    pub interpret: spec_fn(u32, Machine<W>) -> Step<W>,
    /// Applies a binary operator.
    pub operate: spec_fn(BinaryOp, JsValue, JsValue, Machine<W>) -> Answer<W, JsValue>,
    /// Applies a binary operator, if its result is plain from the two values.
    pub operate_fast: spec_fn(BinaryOp, JsValue, JsValue) -> Option<JsValue>,
    /// Compares for `<`.
    pub less: spec_fn(JsValue, JsValue, Machine<W>) -> Answer<W, bool>,
    /// Compares for `<`, if the result is plain from the two values.
    pub less_fast: spec_fn(JsValue, JsValue) -> Option<bool>,
    /// Compares for `===`.
    pub strictly_equal: spec_fn(JsValue, JsValue, Machine<W>) -> bool,
    /// Converts a value to a number, and steps that number up or down.
    pub to_numeric: spec_fn(JsValue, bool, Machine<W>) -> Answer<W, Numeric>,
    /// Converts a value to an object.
    pub to_object: spec_fn(JsValue, Machine<W>) -> Answer<W, u64>,
    /// Converts a value to a property key.
    pub to_key: spec_fn(JsValue, Machine<W>) -> Answer<W, PropertyKey>,
    /// Reads a property of an object, for a receiver.
    pub get: spec_fn(u64, KeyView, JsValue, Machine<W>) -> Answer<W, JsValue>,
    /// Writes a property of an object, for a receiver.
    pub set: spec_fn(u64, KeyView, JsValue, JsValue, Machine<W>) -> Answer<W, bool>,
    /// Calls a getter on `this`.
    pub call_getter: spec_fn(u64, JsValue, Machine<W>) -> Answer<W, JsValue>,
    /// The objects.
    pub heap: spec_fn(Machine<W>) -> Heap,
    /// Finds the binding of a variable, given by its name and where it was last.
    pub find_binding: spec_fn(Seq<char>, u64, Machine<W>) -> Answer<W, BindingLocator>,
    /// Reads a binding, given by its name and where it is.
    pub read_binding: spec_fn(Seq<char>, u64, Machine<W>) -> Answer<W, Option<JsValue>>,
    /// Sets up the call of an object. If that is a native function, it is complete.
    pub resolve_call: spec_fn(u64, u32, Machine<W>) -> Answer<W, bool>,
    /// Runs the call that was set up until it is complete.
    pub run_callee: spec_fn(Machine<W>) -> (CompletionRecord, Machine<W>),
    /// Looks up `this` in the environments.
    pub this_binding: spec_fn(Machine<W>) -> Answer<W, Option<JsValue>>,
    /// `this` of the realm.
    pub global_this: spec_fn(Machine<W>) -> JsValue,
}

/// The instruction goes on with the next one.
pub open spec fn goes_on<W>(machine: Machine<W>, vm: VmState) -> Step<W> {
    Step { flow: Flow::Next, machine: machine.with_vm(vm) }
}

/// The instruction ends with an exception.
pub open spec fn throws<W>(machine: Machine<W>, error: ErrorView) -> Step<W> {
    Step { flow: Flow::Throw, machine: machine.with_vm(machine.vm.raise(error)) }
}

/// The answer is stored in a register.
pub open spec fn store_step<W>(dst: u32, answer: Answer<W, JsValue>) -> Step<W> {
    match answer.result {
        Ok(value) => goes_on(answer.machine, answer.machine.vm.set_register(dst, value)),
        Err(error) => throws(answer.machine, error@),
    }
}

/// What an instruction on constants, registers and the stack does.
pub open spec fn step(instruction: Instruction, vm: VmState) -> VmState {
    match instruction {
        Instruction::StoreZero { dst } => vm.set_register(dst, JsValue::Integer32(0)),
        Instruction::StoreOne { dst } => vm.set_register(dst, JsValue::Integer32(1)),
        Instruction::StoreInt8 { dst, value } => vm.set_register(
            dst,
            JsValue::Integer32(value as i32),
        ),
        Instruction::StoreInt16 { dst, value } => vm.set_register(
            dst,
            JsValue::Integer32(value as i32),
        ),
        Instruction::StoreInt32 { dst, value } => vm.set_register(dst, JsValue::Integer32(value)),
        Instruction::Move { dst, src } => vm.set_register(dst, vm.register(src)),
        Instruction::GetArgument { index, dst } => vm.set_register(dst, vm.argument(index)),
        Instruction::SetAccumulator { src } => vm.set_return_value(vm.register(src)),
        Instruction::PushFromRegister { src } => vm.push(vm.register(src)),
        Instruction::PopIntoRegister { dst } => vm.pop().set_register(dst, vm.stack.last()),
        _ => vm,
    }
}

/// An instruction works on constants, registers and the stack only.
pub open spec fn is_plain(instruction: Instruction) -> bool {
    match instruction {
        Instruction::StoreZero { .. }
        | Instruction::StoreOne { .. }
        | Instruction::StoreInt8 { .. }
        | Instruction::StoreInt16 { .. }
        | Instruction::StoreInt32 { .. }
        | Instruction::Move { .. }
        | Instruction::GetArgument { .. }
        | Instruction::SetAccumulator { .. }
        | Instruction::PushFromRegister { .. }
        | Instruction::PopIntoRegister { .. } => true,
        _ => false,
    }
}

/// Applies a binary operator to two registers.
pub open spec fn binary_step<W>(
    engine: Engine<W>,
    op: BinaryOp,
    dst: u32,
    lhs: u32,
    rhs: u32,
    machine: Machine<W>,
) -> Step<W> {
    let vm = machine.vm;
    store_step(dst, (engine.operate)(op, vm.register(lhs), vm.register(rhs), machine))
}

/// Compares two registers strictly.
pub open spec fn strict_step<W>(
    engine: Engine<W>,
    dst: u32,
    lhs: u32,
    rhs: u32,
    negated: bool,
    machine: Machine<W>,
) -> Step<W> {
    let vm = machine.vm;
    let equal = (engine.strictly_equal)(vm.register(lhs), vm.register(rhs), machine);
    goes_on(machine, vm.set_register(dst, JsValue::Boolean(equal != negated)))
}

/// Steps the number in `src` up or down. The number stays in `src`, and the stepped one goes
/// to `dst`. While the engine converts another value than a small integer, `src` is undefined.
pub open spec fn unary_step<W>(
    engine: Engine<W>,
    dst: u32,
    src: u32,
    increment: bool,
    machine: Machine<W>,
) -> Step<W> {
    let value = machine.vm.register(src);
    match next_integer(value, increment) {
        Some(number) => goes_on(
            machine,
            machine.vm.set_register(dst, JsValue::Integer32(number)),
        ),
        None => {
            let taken = machine.with_vm(machine.vm.set_register(src, JsValue::Undefined));
            let answer = (engine.to_numeric)(value, increment, taken);
            match answer.result {
                Ok(numeric) => goes_on(
                    answer.machine,
                    answer.machine.vm.set_register(src, numeric.value).set_register(
                        dst,
                        numeric.stepped,
                    ),
                ),
                Err(error) => throws(answer.machine, error@),
            }
        },
    }
}

/// Jumps unless one register is less than another.
pub open spec fn not_less_step<W>(
    engine: Engine<W>,
    lhs: u32,
    rhs: u32,
    machine: Machine<W>,
) -> Step<W> {
    let answer = (engine.less)(machine.vm.register(lhs), machine.vm.register(rhs), machine);
    match answer.result {
        Ok(true) => Step { flow: Flow::Next, machine: answer.machine },
        Ok(false) => Step { flow: Flow::Jump, machine: answer.machine },
        Err(error) => throws(answer.machine, error@),
    }
}

/// Reads a variable.
pub open spec fn name_step<W>(
    engine: Engine<W>,
    dst: u32,
    binding_index: u32,
    missing: Missing,
    machine: Machine<W>,
) -> Step<W> {
    let locator = machine.vm.frame().code_block.bindings@[binding_index as int];
    let found = (engine.find_binding)(locator.name@, locator.location, machine);
    match found.result {
        Ok(locator) => {
            let read = (engine.read_binding)(locator.name@, locator.location, found.machine);
            Step {
                flow: if read_status(missing, read.result) == 0 {
                    Flow::Next
                } else {
                    Flow::Throw
                },
                machine: read.machine.with_vm(
                    read_state(read.machine.vm, dst, missing, locator.name@, read.result),
                ),
            }
        },
        Err(error) => throws(found.machine, error@),
    }
}

/// Reads a property by name. For an object whose shape is in the inline cache, the cached slot
/// holds the value or the getter. A value that is no object is converted first, and is itself
/// the receiver.
pub open spec fn named_get_step<W>(
    engine: Engine<W>,
    dst: u32,
    object: u32,
    ic_index: u32,
    machine: Machine<W>,
) -> Step<W> {
    let value = machine.vm.register(object);
    match value {
        JsValue::Object(handle) => {
            let heap = (engine.heap)(machine);
            match machine.vm.ic_slot(heap, ic_index, handle) {
                Some(slot) => match heap.slot_value(handle, slot) {
                    JsValue::Object(getter) => if slot.get {
                        store_step(dst, (engine.call_getter)(getter, value, machine))
                    } else {
                        goes_on(machine, machine.vm.set_register(dst, JsValue::Object(getter)))
                    },
                    found => goes_on(machine, machine.vm.set_register(dst, found)),
                },
                None => {
                    let name = machine.vm.frame().code_block.ic@[ic_index as int].name@;
                    store_step(dst, (engine.get)(handle, KeyView::Named(name), value, machine))
                },
            }
        },
        _ => {
            let converted = (engine.to_object)(value, machine);
            match converted.result {
                Ok(handle) => {
                    let code = converted.machine.vm.frame().code_block;
                    let key = KeyView::Named(code.ic@[ic_index as int].name@);
                    store_step(dst, (engine.get)(handle, key, value, converted.machine))
                },
                Err(error) => throws(converted.machine, error@),
            }
        },
    }
}

/// Reads the length of a value, converted to an object.
pub open spec fn length_step<W>(
    engine: Engine<W>,
    dst: u32,
    object: u32,
    machine: Machine<W>,
) -> Step<W> {
    let value = machine.vm.register(object);
    let converted = (engine.to_object)(value, machine);
    match converted.result {
        Ok(handle) => store_step(
            dst,
            (engine.get)(handle, KeyView::Named("length"@), value, converted.machine),
        ),
        Err(error) => throws(converted.machine, error@),
    }
}

/// Reads a property by value. The object is converted before the key.
pub open spec fn value_get_step<W>(
    engine: Engine<W>,
    dst: u32,
    key: u32,
    receiver: u32,
    object: u32,
    machine: Machine<W>,
) -> Step<W> {
    let vm = machine.vm;
    let converted = (engine.to_object)(vm.register(object), machine);
    match converted.result {
        Ok(handle) => {
            let keyed = (engine.to_key)(vm.register(key), converted.machine);
            match keyed.result {
                Ok(property) => store_step(
                    dst,
                    (engine.get)(handle, property@, vm.register(receiver), keyed.machine),
                ),
                Err(error) => throws(keyed.machine, error@),
            }
        },
        Err(error) => throws(converted.machine, error@),
    }
}

/// Writes a property by value. The object is converted before the key. Whether the object
/// took the value does not matter.
pub open spec fn value_set_step<W>(
    engine: Engine<W>,
    value: u32,
    key: u32,
    receiver: u32,
    object: u32,
    machine: Machine<W>,
) -> Step<W> {
    let vm = machine.vm;
    let converted = (engine.to_object)(vm.register(object), machine);
    match converted.result {
        Ok(handle) => {
            let keyed = (engine.to_key)(vm.register(key), converted.machine);
            match keyed.result {
                Ok(property) => {
                    let written = (engine.set)(
                        handle,
                        property@,
                        vm.register(value),
                        vm.register(receiver),
                        keyed.machine,
                    );
                    match written.result {
                        Ok(_) => Step { flow: Flow::Next, machine: written.machine },
                        Err(error) => throws(written.machine, error@),
                    }
                },
                Err(error) => throws(keyed.machine, error@),
            }
        },
        Err(error) => throws(converted.machine, error@),
    }
}

/// Calls the object that lies on the stack below its arguments, and runs the call until it
/// is complete. The result is on the stack afterwards.
pub open spec fn call_step<W>(
    engine: Engine<W>,
    argument_count: u32,
    machine: Machine<W>,
) -> Step<W> {
    match machine.vm.stack[machine.vm.stack.len() - 1 - argument_count] {
        JsValue::Object(object) => {
            let resolved = (engine.resolve_call)(object, argument_count, machine);
            match resolved.result {
                Ok(true) => Step { flow: Flow::Next, machine: resolved.machine },
                Ok(false) => {
                    let vm = resolved.machine.vm;
                    let callee = vm.set_frame(CallFrame { exit_early: true, ..vm.frame() });
                    let (completion, after) = (engine.run_callee)(
                        resolved.machine.with_vm(callee),
                    );
                    match completion {
                        CompletionRecord::Return(result) => goes_on(
                            after,
                            after.vm.callee_removed().push(result),
                        ),
                        CompletionRecord::Throw(error) => throws(after, error@),
                        CompletionRecord::Normal(_) => Step { flow: Flow::Next, machine: after },
                    }
                },
                Err(error) => throws(resolved.machine, error@),
            }
        },
        _ => throws(
            machine,
            ErrorView::Native { kind: ErrorKind::Type, message: "not a callable function"@ },
        ),
    }
}

/// Counts an iteration of a loop.
pub open spec fn count_step<W>(machine: Machine<W>) -> Step<W> {
    Step {
        flow: if loop_limit_exceeded(machine.vm) {
            Flow::Throw
        } else {
            Flow::Next
        },
        machine: machine.with_vm(loop_counted(machine.vm)),
    }
}

/// Checks the return value. The engine helps where `this` of a constructor is to be found in
/// the environments.
pub open spec fn check_step<W>(engine: Engine<W>, machine: Machine<W>) -> Step<W> {
    let checked = machine.with_vm(check_return_state(machine.vm));
    match check_return_next(machine.vm) {
        Next::Done(code) => Step {
            flow: if code == 0 {
                Flow::Next
            } else {
                Flow::Throw
            },
            machine: checked,
        },
        Next::Ask(_) => {
            let answer = (engine.this_binding)(checked);
            let global_this = (engine.global_this)(answer.machine);
            Step {
                flow: if answer.result is Ok {
                    Flow::Next
                } else {
                    Flow::Throw
                },
                machine: answer.machine.with_vm(
                    this_stored(answer.machine.vm, answer.result, global_this),
                ),
            }
        },
    }
}

/// What an instruction that does not return does. The engine knows what those do that are
/// not listed here.
#[verifier::opaque]
pub open spec fn instruction_step<W>(
    engine: Engine<W>,
    position: u32,
    instruction: Instruction,
    machine: Machine<W>,
) -> Step<W> {
    match instruction {
        Instruction::Add { dst, lhs, rhs } => binary_step(
            engine,
            BinaryOp::Add,
            dst,
            lhs,
            rhs,
            machine,
        ),
        Instruction::Sub { dst, lhs, rhs } => binary_step(
            engine,
            BinaryOp::Sub,
            dst,
            lhs,
            rhs,
            machine,
        ),
        Instruction::Mul { dst, lhs, rhs } => binary_step(
            engine,
            BinaryOp::Mul,
            dst,
            lhs,
            rhs,
            machine,
        ),
        Instruction::Div { dst, lhs, rhs } => binary_step(
            engine,
            BinaryOp::Div,
            dst,
            lhs,
            rhs,
            machine,
        ),
        Instruction::Mod { dst, lhs, rhs } => binary_step(
            engine,
            BinaryOp::Mod,
            dst,
            lhs,
            rhs,
            machine,
        ),
        Instruction::Pow { dst, lhs, rhs } => binary_step(
            engine,
            BinaryOp::Pow,
            dst,
            lhs,
            rhs,
            machine,
        ),
        Instruction::BitOr { dst, lhs, rhs } => binary_step(
            engine,
            BinaryOp::BitOr,
            dst,
            lhs,
            rhs,
            machine,
        ),
        Instruction::BitAnd { dst, lhs, rhs } => binary_step(
            engine,
            BinaryOp::BitAnd,
            dst,
            lhs,
            rhs,
            machine,
        ),
        Instruction::BitXor { dst, lhs, rhs } => binary_step(
            engine,
            BinaryOp::BitXor,
            dst,
            lhs,
            rhs,
            machine,
        ),
        Instruction::ShiftLeft { dst, lhs, rhs } => binary_step(
            engine,
            BinaryOp::ShiftLeft,
            dst,
            lhs,
            rhs,
            machine,
        ),
        Instruction::ShiftRight { dst, lhs, rhs } => binary_step(
            engine,
            BinaryOp::ShiftRight,
            dst,
            lhs,
            rhs,
            machine,
        ),
        Instruction::UnsignedShiftRight { dst, lhs, rhs } => binary_step(
            engine,
            BinaryOp::UnsignedShiftRight,
            dst,
            lhs,
            rhs,
            machine,
        ),
        Instruction::LessThan { dst, lhs, rhs } => binary_step(
            engine,
            BinaryOp::LessThan,
            dst,
            lhs,
            rhs,
            machine,
        ),
        Instruction::LessThanOrEq { dst, lhs, rhs } => binary_step(
            engine,
            BinaryOp::LessThanOrEq,
            dst,
            lhs,
            rhs,
            machine,
        ),
        Instruction::GreaterThan { dst, lhs, rhs } => binary_step(
            engine,
            BinaryOp::GreaterThan,
            dst,
            lhs,
            rhs,
            machine,
        ),
        Instruction::GreaterThanOrEq { dst, lhs, rhs } => binary_step(
            engine,
            BinaryOp::GreaterThanOrEq,
            dst,
            lhs,
            rhs,
            machine,
        ),
        Instruction::Eq { dst, lhs, rhs } => binary_step(
            engine,
            BinaryOp::Eq,
            dst,
            lhs,
            rhs,
            machine,
        ),
        Instruction::NotEq { dst, lhs, rhs } => binary_step(
            engine,
            BinaryOp::NotEq,
            dst,
            lhs,
            rhs,
            machine,
        ),
        Instruction::StrictEq { dst, lhs, rhs } => strict_step(
            engine,
            dst,
            lhs,
            rhs,
            false,
            machine,
        ),
        Instruction::StrictNotEq { dst, lhs, rhs } => strict_step(
            engine,
            dst,
            lhs,
            rhs,
            true,
            machine,
        ),
        Instruction::Inc { dst, src } => unary_step(engine, dst, src, true, machine),
        Instruction::Dec { dst, src } => unary_step(engine, dst, src, false, machine),
        Instruction::JumpIfNotLessThan { lhs, rhs, .. } => not_less_step(
            engine,
            lhs,
            rhs,
            machine,
        ),
        Instruction::GetName { dst, binding_index } => name_step(
            engine,
            dst,
            binding_index,
            Missing::Raise,
            machine,
        ),
        Instruction::GetNameGlobal { dst, binding_index, .. } => name_step(
            engine,
            dst,
            binding_index,
            Missing::Undefined,
            machine,
        ),
        Instruction::GetPropertyByName { dst, object, ic_index } => named_get_step(
            engine,
            dst,
            object,
            ic_index,
            machine,
        ),
        Instruction::GetLengthProperty { dst, object, .. } => length_step(
            engine,
            dst,
            object,
            machine,
        ),
        Instruction::GetPropertyByValue { dst, key, receiver, object } => value_get_step(
            engine,
            dst,
            key,
            receiver,
            object,
            machine,
        ),
        Instruction::GetPropertyByValuePush { dst, key, receiver, object } => value_get_step(
            engine,
            dst,
            key,
            receiver,
            object,
            machine,
        ),
        Instruction::SetPropertyByValue { value, key, receiver, object } => value_set_step(
            engine,
            value,
            key,
            receiver,
            object,
            machine,
        ),
        Instruction::Call { argument_count } => call_step(engine, argument_count, machine),
        Instruction::IncrementLoopIteration => count_step(machine),
        Instruction::CheckReturn => check_step(engine, machine),
        Instruction::Jump { .. } => Step { flow: Flow::Jump, machine },
        _ => if is_plain(instruction) {
            goes_on(machine, step(instruction, machine.vm))
        } else {
            (engine.interpret)(position, machine)
        },
    }
}

/// Constants and copies change one register, and control goes on. Constants keep their value.
pub proof fn constants_and_copies<W>(
    engine: Engine<W>,
    position: u32,
    machine: Machine<W>,
    dst: u32,
    src: u32,
    small: i8,
    medium: i16,
    large: i32,
)
    ensures
        ({
            let vm = machine.vm;
            let rp = vm.frames.last().rp;
            let step = |instruction: Instruction|
                instruction_step(engine, position, instruction, machine);
            let stored = |register: u32, value: JsValue|
                Step {
                    flow: Flow::Next,
                    machine: Machine {
                        vm: VmState { stack: vm.stack.update(rp + register, value), ..vm },
                        world: machine.world,
                    },
                };
            &&& small as i32 == small as int
            &&& medium as i32 == medium as int
            &&& step(Instruction::StoreZero { dst }) == stored(dst, JsValue::Integer32(0))
            &&& step(Instruction::StoreOne { dst }) == stored(dst, JsValue::Integer32(1))
            &&& step(Instruction::StoreInt8 { dst, value: small }) == stored(
                dst,
                JsValue::Integer32(small as i32),
            )
            &&& step(Instruction::StoreInt16 { dst, value: medium }) == stored(
                dst,
                JsValue::Integer32(medium as i32),
            )
            &&& step(Instruction::StoreInt32 { dst, value: large }) == stored(
                dst,
                JsValue::Integer32(large),
            )
            &&& step(Instruction::Move { dst, src }) == stored(dst, vm.stack[rp + src])
        }),
{
    reveal(instruction_step);
}

/// Values move between registers, arguments, the return value and the stack, and control goes
/// on.
pub proof fn moves_of_values<W>(
    engine: Engine<W>,
    position: u32,
    machine: Machine<W>,
    dst: u32,
    src: u32,
    index: u32,
)
    requires
        machine.vm.frames.len() > 0,
        machine.vm.frames.last().argument_count <= machine.vm.frames.last().rp,
        machine.vm.stack.len() > 0,
    ensures
        ({
            let vm = machine.vm;
            let frame = vm.frames.last();
            let n = vm.stack.len();
            let step = |instruction: Instruction|
                instruction_step(engine, position, instruction, machine);
            let argument = if index < frame.argument_count {
                vm.stack[frame.rp - frame.argument_count + index]
            } else {
                JsValue::Undefined
            };
            let left = |after: VmState|
                Step { flow: Flow::Next, machine: Machine { vm: after, world: machine.world } };
            &&& step(Instruction::GetArgument { index, dst }) == left(
                VmState { stack: vm.stack.update(frame.rp + dst, argument), ..vm },
            )
            &&& step(Instruction::SetAccumulator { src }) == left(
                VmState { return_value: vm.stack[frame.rp + src], ..vm },
            )
            &&& step(Instruction::PushFromRegister { src }) == left(
                VmState { stack: vm.stack.push(vm.stack[frame.rp + src]), ..vm },
            )
            &&& step(Instruction::PopIntoRegister { dst }) == left(
                VmState {
                    stack: vm.stack.take(n - 1).update(frame.rp + dst, vm.stack[n - 1]),
                    ..vm
                },
            )
        }),
{
    reveal(instruction_step);
    let vm = machine.vm;
    assert(vm.stack.drop_last() =~= vm.stack.take(vm.stack.len() - 1));
}

/// An operator is applied to the values of its left and right register, in this order, and
/// its result goes to its destination. An exception writes no register.
#[verifier::rlimit(40)]
pub proof fn operators_apply_to_their_registers<W>(
    engine: Engine<W>,
    position: u32,
    machine: Machine<W>,
    dst: u32,
    lhs: u32,
    rhs: u32,
)
    ensures
        ({
            let rp = machine.vm.frames.last().rp;
            let left = machine.vm.stack[rp + lhs];
            let right = machine.vm.stack[rp + rhs];
            let step = |instruction: Instruction|
                instruction_step(engine, position, instruction, machine);
            let applied = |op: BinaryOp|
                {
                    let answer = (engine.operate)(op, left, right, machine);
                    let vm = answer.machine.vm;
                    match answer.result {
                        Ok(value) => Step {
                            flow: Flow::Next,
                            machine: Machine {
                                vm: VmState {
                                    stack: vm.stack.update(vm.frames.last().rp + dst, value),
                                    ..vm
                                },
                                world: answer.machine.world,
                            },
                        },
                        Err(error) => Step {
                            flow: Flow::Throw,
                            machine: Machine {
                                vm: VmState { pending_exception: Some(error@), ..vm },
                                world: answer.machine.world,
                            },
                        },
                    }
                };
            &&& step(Instruction::Add { dst, lhs, rhs }) == applied(BinaryOp::Add)
            &&& step(Instruction::Sub { dst, lhs, rhs }) == applied(BinaryOp::Sub)
            &&& step(Instruction::Mul { dst, lhs, rhs }) == applied(BinaryOp::Mul)
            &&& step(Instruction::Div { dst, lhs, rhs }) == applied(BinaryOp::Div)
            &&& step(Instruction::Mod { dst, lhs, rhs }) == applied(BinaryOp::Mod)
            &&& step(Instruction::Pow { dst, lhs, rhs }) == applied(BinaryOp::Pow)
            &&& step(Instruction::BitOr { dst, lhs, rhs }) == applied(BinaryOp::BitOr)
            &&& step(Instruction::BitAnd { dst, lhs, rhs }) == applied(BinaryOp::BitAnd)
            &&& step(Instruction::BitXor { dst, lhs, rhs }) == applied(BinaryOp::BitXor)
            &&& step(Instruction::ShiftLeft { dst, lhs, rhs }) == applied(BinaryOp::ShiftLeft)
            &&& step(Instruction::ShiftRight { dst, lhs, rhs }) == applied(BinaryOp::ShiftRight)
            &&& step(Instruction::UnsignedShiftRight { dst, lhs, rhs }) == applied(
                BinaryOp::UnsignedShiftRight,
            )
            &&& step(Instruction::LessThan { dst, lhs, rhs }) == applied(BinaryOp::LessThan)
            &&& step(Instruction::LessThanOrEq { dst, lhs, rhs }) == applied(
                BinaryOp::LessThanOrEq,
            )
            &&& step(Instruction::GreaterThan { dst, lhs, rhs }) == applied(BinaryOp::GreaterThan)
            &&& step(Instruction::GreaterThanOrEq { dst, lhs, rhs }) == applied(
                BinaryOp::GreaterThanOrEq,
            )
            &&& step(Instruction::Eq { dst, lhs, rhs }) == applied(BinaryOp::Eq)
            &&& step(Instruction::NotEq { dst, lhs, rhs }) == applied(BinaryOp::NotEq)
        }),
{
    reveal(instruction_step);
}

/// Strict comparisons give a boolean, and of the two exactly one is true.
pub proof fn strict_comparisons<W>(
    engine: Engine<W>,
    position: u32,
    machine: Machine<W>,
    dst: u32,
    lhs: u32,
    rhs: u32,
)
    ensures
        ({
            let vm = machine.vm;
            let rp = vm.frames.last().rp;
            let equal = (engine.strictly_equal)(
                vm.stack[rp + lhs],
                vm.stack[rp + rhs],
                machine,
            );
            let stored = |value: bool|
                Step {
                    flow: Flow::Next,
                    machine: Machine {
                        vm: VmState {
                            stack: vm.stack.update(rp + dst, JsValue::Boolean(value)),
                            ..vm
                        },
                        world: machine.world,
                    },
                };
            &&& instruction_step(
                engine,
                position,
                Instruction::StrictEq { dst, lhs, rhs },
                machine,
            ) == stored(equal)
            &&& instruction_step(
                engine,
                position,
                Instruction::StrictNotEq { dst, lhs, rhs },
                machine,
            ) == stored(!equal)
        }),
{
    reveal(instruction_step);
}

/// Incrementing a small integer adds one, and decrementing subtracts one, without the engine.
pub proof fn steps_of_small_integers<W>(
    engine: Engine<W>,
    position: u32,
    machine: Machine<W>,
    dst: u32,
    src: u32,
    number: i32,
)
    requires
        machine.vm.stack[machine.vm.frames.last().rp + src] == JsValue::Integer32(number),
    ensures
        ({
            let vm = machine.vm;
            let stored = |stepped: i32|
                Step {
                    flow: Flow::Next,
                    machine: Machine {
                        vm: VmState {
                            stack: vm.stack.update(
                                vm.frames.last().rp + dst,
                                JsValue::Integer32(stepped),
                            ),
                            ..vm
                        },
                        world: machine.world,
                    },
                };
            &&& number < 0x7FFF_FFFF ==> exists|stepped: i32|
                stepped == number + 1 && instruction_step(
                    engine,
                    position,
                    Instruction::Inc { dst, src },
                    machine,
                ) == #[trigger] stored(stepped)
            &&& number > -0x8000_0000 ==> exists|stepped: i32|
                stepped == number - 1 && instruction_step(
                    engine,
                    position,
                    Instruction::Dec { dst, src },
                    machine,
                ) == #[trigger] stored(stepped)
        }),
{
    reveal(instruction_step);
    let vm = machine.vm;
    let stored = |stepped: i32|
        Step {
            flow: Flow::Next,
            machine: Machine {
                vm: VmState {
                    stack: vm.stack.update(
                        vm.frames.last().rp + dst,
                        JsValue::Integer32(stepped),
                    ),
                    ..vm
                },
                world: machine.world,
            },
        };
    if number < 0x7FFF_FFFF {
        let stepped = (number + 1) as i32;
        assert(instruction_step(engine, position, Instruction::Inc { dst, src }, machine)
            == stored(stepped));
    }
    if number > -0x8000_0000 {
        let stepped = (number - 1) as i32;
        assert(instruction_step(engine, position, Instruction::Dec { dst, src }, machine)
            == stored(stepped));
    }
}

/// `JumpIfNotLessThan` jumps exactly if the engine says that its left register is not less
/// than its right one. No register changes by it.
pub proof fn jump_if_not_less_than<W>(
    engine: Engine<W>,
    position: u32,
    machine: Machine<W>,
    address: u32,
    lhs: u32,
    rhs: u32,
)
    ensures
        ({
            let rp = machine.vm.frames.last().rp;
            let answer = (engine.less)(
                machine.vm.stack[rp + lhs],
                machine.vm.stack[rp + rhs],
                machine,
            );
            let done = instruction_step(
                engine,
                position,
                Instruction::JumpIfNotLessThan { address, lhs, rhs },
                machine,
            );
            match answer.result {
                Ok(less) => {
                    &&& done.flow is Jump <==> !less
                    &&& done.flow is Next <==> less
                    &&& done.machine == answer.machine
                },
                Err(error) => {
                    &&& done.flow is Throw
                    &&& done.machine.vm == (VmState {
                        pending_exception: Some(error@),
                        ..answer.machine.vm
                    })
                    &&& done.machine.world == answer.machine.world
                },
            }
        }),
{
    reveal(instruction_step);
}

/// A variable is found by the name and place that the code has for it, and read where it was
/// found. If it is there, its value goes to the register, whatever it is. If it is not,
/// `GetName` raises a reference error with its name, and `GetNameGlobal` reads undefined.
pub proof fn reads_of_variables<W>(
    engine: Engine<W>,
    position: u32,
    machine: Machine<W>,
    dst: u32,
    binding_index: u32,
    ic_index: u32,
)
    ensures
        ({
            let code = machine.vm.frames.last().code_block;
            let locator = code.bindings@[binding_index as int];
            let found = (engine.find_binding)(locator.name@, locator.location, machine);
            let strict = instruction_step(
                engine,
                position,
                Instruction::GetName { dst, binding_index },
                machine,
            );
            let lenient = instruction_step(
                engine,
                position,
                Instruction::GetNameGlobal { dst, binding_index, ic_index },
                machine,
            );
            match found.result {
                Ok(place) => {
                    let read = (engine.read_binding)(place.name@, place.location, found.machine);
                    let vm = read.machine.vm;
                    let stored = |value: JsValue|
                        Step {
                            flow: Flow::Next,
                            machine: Machine {
                                vm: VmState {
                                    stack: vm.stack.update(vm.frames.last().rp + dst, value),
                                    ..vm
                                },
                                world: read.machine.world,
                            },
                        };
                    let raised = |error: ErrorView|
                        Step {
                            flow: Flow::Throw,
                            machine: Machine {
                                vm: VmState { pending_exception: Some(error), ..vm },
                                world: read.machine.world,
                            },
                        };
                    match read.result {
                        Ok(Some(value)) => strict == stored(value) && lenient == stored(value),
                        Ok(None) => {
                            &&& strict == raised(
                                ErrorView::Native {
                                    kind: ErrorKind::Reference,
                                    message: place.name@ + " is not defined"@,
                                },
                            )
                            &&& lenient == stored(JsValue::Undefined)
                        },
                        Err(error) => strict == raised(error@) && lenient == raised(error@),
                    }
                },
                Err(error) => {
                    &&& strict == lenient
                    &&& strict.flow is Throw
                    &&& strict.machine.vm == (VmState {
                        pending_exception: Some(error@),
                        ..found.machine.vm
                    })
                    &&& strict.machine.world == found.machine.world
                },
            }
        }),
{
    reveal(instruction_step);
}

/// Where the inline cache has a slot for the shape of an object, and the slot is no getter, a
/// read by name gives the element of the storage with the number of the slot: of the object's
/// storage, or of its prototype's, if the slot belongs to that.
pub proof fn cached_reads_give_the_slot<W>(
    engine: Engine<W>,
    position: u32,
    machine: Machine<W>,
    dst: u32,
    object: u32,
    ic_index: u32,
    handle: u64,
    entry: int,
)
    requires
        machine.vm.stack[machine.vm.frames.last().rp + object] == JsValue::Object(handle),
        ({
            let heap = (engine.heap)(machine);
            let entries = machine.vm.frames.last().code_block.ic@[ic_index as int].entries@;
            let shape = heap.objects@[handle as int].shape;
            &&& 0 <= entry < entries.len()
            &&& entries[entry].shape == shape
            &&& forall|i: int| 0 <= i < entry ==> (#[trigger] entries[i]).shape != shape
            &&& !entries[entry].slot.get
            &&& entries[entry].slot.prototype ==> heap.objects@[handle as int].prototype is Some
        }),
    ensures
        ({
            let vm = machine.vm;
            let heap = (engine.heap)(machine);
            let slot = vm.frames.last().code_block.ic@[ic_index as int].entries@[entry].slot;
            let holder = if slot.prototype {
                heap.objects@[handle as int].prototype->0
            } else {
                handle
            };
            let value = heap.objects@[holder as int].storage@[slot.index as int];
            instruction_step(
                engine,
                position,
                Instruction::GetPropertyByName { dst, object, ic_index },
                machine,
            ) == (Step {
                flow: Flow::Next,
                machine: Machine {
                    vm: VmState {
                        stack: vm.stack.update(vm.frames.last().rp + dst, value),
                        ..vm
                    },
                    world: machine.world,
                },
            })
        }),
{
    reveal(instruction_step);
    let heap = (engine.heap)(machine);
    let entries = machine.vm.frames.last().code_block.ic@[ic_index as int].entries@;
    let shape = heap.objects@[handle as int].shape;
    first_entry_counts(entries, shape);
    if let Some(slot) = cached_slot(entries, shape) {
        let i = choose|i: int|
            0 <= i < entries.len() && #[trigger] entries[i].slot == slot && entries[i].shape
                == shape && forall|j: int| 0 <= j < i ==> (#[trigger] entries[j]).shape != shape;
        assert(i == entry) by {
            if i < entry {
                assert(entries[i].shape != shape);
            }
            if entry < i {
                assert(entries[entry].shape != shape);
            }
        }
    }
}

/// If the cached slot is where the engine keeps the property, the read by name that uses the
/// inline cache gives what the engine's own lookup gives.
pub proof fn cached_reads_agree_with_lookup<W>(
    engine: Engine<W>,
    position: u32,
    machine: Machine<W>,
    dst: u32,
    object: u32,
    ic_index: u32,
    handle: u64,
    entry: int,
)
    requires
        machine.vm.stack[machine.vm.frames.last().rp + object] == JsValue::Object(handle),
        ({
            let heap = (engine.heap)(machine);
            let entries = machine.vm.frames.last().code_block.ic@[ic_index as int].entries@;
            let name = machine.vm.frames.last().code_block.ic@[ic_index as int].name@;
            let shape = heap.objects@[handle as int].shape;
            let slot = entries[entry].slot;
            let holder = if slot.prototype {
                heap.objects@[handle as int].prototype->0
            } else {
                handle
            };
            let looked_up = (engine.get)(
                handle,
                KeyView::Named(name),
                JsValue::Object(handle),
                machine,
            );
            &&& 0 <= entry < entries.len()
            &&& entries[entry].shape == shape
            &&& forall|i: int| 0 <= i < entry ==> (#[trigger] entries[i]).shape != shape
            &&& !slot.get
            &&& slot.prototype ==> heap.objects@[handle as int].prototype is Some
            &&& looked_up.result == Ok::<JsValue, JsError>(
                heap.objects@[holder as int].storage@[slot.index as int],
            )
            &&& looked_up.machine == machine
        }),
    ensures
        ({
            let name = machine.vm.frames.last().code_block.ic@[ic_index as int].name@;
            let looked_up = (engine.get)(
                handle,
                KeyView::Named(name),
                JsValue::Object(handle),
                machine,
            );
            let done = instruction_step(
                engine,
                position,
                Instruction::GetPropertyByName { dst, object, ic_index },
                machine,
            );
            looked_up.result matches Ok(value) && done == (Step {
                flow: Flow::Next,
                machine: Machine {
                    vm: VmState {
                        stack: machine.vm.stack.update(
                            machine.vm.frames.last().rp + dst,
                            value,
                        ),
                        ..machine.vm
                    },
                    world: machine.world,
                },
            })
        }),
{
    cached_reads_give_the_slot(
        engine,
        position,
        machine,
        dst,
        object,
        ic_index,
        handle,
        entry,
    );
}

/// Where the inline cache has no slot for the shape of an object, a read by name is a full
/// lookup, with the object for the receiver.
pub proof fn uncached_reads_are_lookups<W>(
    engine: Engine<W>,
    position: u32,
    machine: Machine<W>,
    dst: u32,
    object: u32,
    ic_index: u32,
    handle: u64,
)
    requires
        machine.vm.stack[machine.vm.frames.last().rp + object] == JsValue::Object(handle),
        ({
            let heap = (engine.heap)(machine);
            let entries = machine.vm.frames.last().code_block.ic@[ic_index as int].entries@;
            forall|i: int|
                0 <= i < entries.len() ==> (#[trigger] entries[i]).shape
                    != heap.objects@[handle as int].shape
        }),
    ensures
        ({
            let name = machine.vm.frames.last().code_block.ic@[ic_index as int].name@;
            let answer = (engine.get)(
                handle,
                KeyView::Named(name),
                JsValue::Object(handle),
                machine,
            );
            let vm = answer.machine.vm;
            let done = instruction_step(
                engine,
                position,
                Instruction::GetPropertyByName { dst, object, ic_index },
                machine,
            );
            &&& done.machine.world == answer.machine.world
            &&& match answer.result {
                Ok(value) => done.flow is Next && done.machine.vm == (VmState {
                    stack: vm.stack.update(vm.frames.last().rp + dst, value),
                    ..vm
                }),
                Err(error) => done.flow is Throw && done.machine.vm == (VmState {
                    pending_exception: Some(error@),
                    ..vm
                }),
            }
        }),
{
    reveal(instruction_step);
    let heap = (engine.heap)(machine);
    let entries = machine.vm.frames.last().code_block.ic@[ic_index as int].entries@;
    first_entry_counts(entries, heap.objects@[handle as int].shape);
}

/// Reading the length of a value looks up `length` in the object it is converted to, with the
/// value itself for the receiver.
pub proof fn reads_of_length<W>(
    engine: Engine<W>,
    position: u32,
    machine: Machine<W>,
    dst: u32,
    object: u32,
    ic_index: u32,
)
    ensures
        ({
            let value = machine.vm.stack[machine.vm.frames.last().rp + object];
            let converted = (engine.to_object)(value, machine);
            let done = instruction_step(
                engine,
                position,
                Instruction::GetLengthProperty { dst, object, ic_index },
                machine,
            );
            match converted.result {
                Ok(handle) => {
                    let key = KeyView::Named("length"@);
                    let answer = (engine.get)(handle, key, value, converted.machine);
                    let vm = answer.machine.vm;
                    &&& done.machine.world == answer.machine.world
                    &&& match answer.result {
                        Ok(length) => done.flow is Next && done.machine.vm == (VmState {
                            stack: vm.stack.update(vm.frames.last().rp + dst, length),
                            ..vm
                        }),
                        Err(error) => done.flow is Throw && done.machine.vm == (VmState {
                            pending_exception: Some(error@),
                            ..vm
                        }),
                    }
                },
                Err(error) => done.flow is Throw && done.machine.vm == (VmState {
                    pending_exception: Some(error@),
                    ..converted.machine.vm
                }),
            }
        }),
{
    reveal(instruction_step);
}

/// A property by value is read and written in the object that one register is converted to,
/// under the key that another is converted to, for the receiver in a third. The object is
/// converted first, then the key. A conversion that fails is the end of it.
pub proof fn properties_by_value<W>(
    engine: Engine<W>,
    position: u32,
    machine: Machine<W>,
    first: u32,
    key: u32,
    receiver: u32,
    object: u32,
)
    ensures
        ({
            let rp = machine.vm.frames.last().rp;
            let stack = machine.vm.stack;
            let read = instruction_step(
                engine,
                position,
                Instruction::GetPropertyByValue { dst: first, key, receiver, object },
                machine,
            );
            let write = instruction_step(
                engine,
                position,
                Instruction::SetPropertyByValue { value: first, key, receiver, object },
                machine,
            );
            let failed = |error: JsError, after: Machine<W>|
                Step {
                    flow: Flow::Throw,
                    machine: Machine {
                        vm: VmState { pending_exception: Some(error@), ..after.vm },
                        world: after.world,
                    },
                };
            let converted = (engine.to_object)(stack[rp + object], machine);
            &&& instruction_step(
                engine,
                position,
                Instruction::GetPropertyByValuePush { dst: first, key, receiver, object },
                machine,
            ) == read
            &&& match converted.result {
                Ok(handle) => {
                    let keyed = (engine.to_key)(stack[rp + key], converted.machine);
                    match keyed.result {
                        Ok(property) => {
                            let found = (engine.get)(
                                handle,
                                property@,
                                stack[rp + receiver],
                                keyed.machine,
                            );
                            let written = (engine.set)(
                                handle,
                                property@,
                                stack[rp + first],
                                stack[rp + receiver],
                                keyed.machine,
                            );
                            &&& match found.result {
                                Ok(value) => {
                                    let vm = found.machine.vm;
                                    &&& read.flow is Next
                                    &&& read.machine.vm == (VmState {
                                        stack: vm.stack.update(
                                            vm.frames.last().rp + first,
                                            value,
                                        ),
                                        ..vm
                                    })
                                    &&& read.machine.world == found.machine.world
                                },
                                Err(error) => read == failed(error, found.machine),
                            }
                            &&& match written.result {
                                Ok(_) => write.flow is Next && write.machine == written.machine,
                                Err(error) => write == failed(error, written.machine),
                            }
                        },
                        Err(error) => read == failed(error, keyed.machine) && write == read,
                    }
                },
                Err(error) => read == failed(error, converted.machine) && write == read,
            }
        }),
{
    reveal(instruction_step);
}

/// What is called is the value below the arguments. A call that has to be run leaves its
/// result on the caller's stack, in place of everything that it had there.
pub proof fn calls_of_functions<W>(
    engine: Engine<W>,
    position: u32,
    machine: Machine<W>,
    argument_count: u32,
)
    requires
        argument_count < machine.vm.stack.len(),
    ensures
        ({
            let stack = machine.vm.stack;
            let done = instruction_step(
                engine,
                position,
                Instruction::Call { argument_count },
                machine,
            );
            match stack[stack.len() - 1 - argument_count] {
                JsValue::Object(object) => {
                    let resolved = (engine.resolve_call)(object, argument_count, machine);
                    match resolved.result {
                        Ok(true) => done.flow is Next && done.machine == resolved.machine,
                        Ok(false) => {
                            let callee = resolved.machine.vm;
                            let marked = CallFrame { exit_early: true, ..callee.frames.last() };
                            let (completion, after) = (engine.run_callee)(
                                Machine {
                                    vm: VmState {
                                        frames: callee.frames.update(
                                            callee.frames.len() - 1,
                                            marked,
                                        ),
                                        ..callee
                                    },
                                    world: resolved.machine.world,
                                },
                            );
                            &&& done.machine.world == after.world
                            &&& match completion {
                                CompletionRecord::Return(result) => {
                                    let frame = after.vm.frames.last();
                                    let base = frame.rp - frame.argument_count - 2;
                                    &&& done.flow is Next
                                    &&& base <= after.vm.stack.len() ==> done.machine.vm == (
                                    VmState {
                                        stack: after.vm.stack.take(base).push(result),
                                        frames: after.vm.frames.drop_last(),
                                        ..after.vm
                                    })
                                },
                                CompletionRecord::Throw(error) => {
                                    &&& done.flow is Throw
                                    &&& done.machine.vm == (VmState {
                                        pending_exception: Some(error@),
                                        ..after.vm
                                    })
                                },
                                CompletionRecord::Normal(_) => done.flow is Next
                                    && done.machine.vm == after.vm,
                            }
                        },
                        Err(error) => {
                            &&& done.flow is Throw
                            &&& done.machine.vm == (VmState {
                                pending_exception: Some(error@),
                                ..resolved.machine.vm
                            })
                            &&& done.machine.world == resolved.machine.world
                        },
                    }
                },
                _ => {
                    &&& done.flow is Throw
                    &&& done.machine.vm == (VmState {
                        pending_exception: Some(
                            ErrorView::Native {
                                kind: ErrorKind::Type,
                                message: "not a callable function"@,
                            },
                        ),
                        ..machine.vm
                    })
                    &&& done.machine.world == machine.world
                },
            }
        }),
{
    reveal(instruction_step);
}

/// A jump without a condition always jumps, and does nothing else.
pub proof fn plain_jumps_always_jump<W>(
    engine: Engine<W>,
    position: u32,
    machine: Machine<W>,
    address: u32,
)
    ensures
        instruction_step(engine, position, Instruction::Jump { address }, machine).flow is Jump,
        instruction_step(engine, position, Instruction::Jump { address }, machine).machine
            == machine,
{
    reveal(instruction_step);
}

/// A loop goes on until its limit is exceeded, and a check of the return value goes on unless
/// it fails.
pub proof fn loops_and_checks<W>(engine: Engine<W>, position: u32, machine: Machine<W>)
    ensures
        ({
            let vm = machine.vm;
            let done = instruction_step(
                engine,
                position,
                Instruction::IncrementLoopIteration,
                machine,
            );
            &&& done.flow is Throw <==> 0 < vm.loop_iteration_limit
                < vm.frames.last().loop_iteration_count + 1
            &&& done.flow is Next <==> !(done.flow is Throw)
            &&& done.machine == (Machine { vm: loop_counted(vm), world: machine.world })
        }),
        !machine.vm.frames.last().construct ==> {
            let done = instruction_step(engine, position, Instruction::CheckReturn, machine);
            done.flow is Next && done.machine == machine
        },
        machine.vm.frames.last().construct && machine.vm.return_value is Object ==> {
            let done = instruction_step(engine, position, Instruction::CheckReturn, machine);
            done.flow is Next && done.machine == machine
        },
{
    reveal(instruction_step);
}

/// Every other operation is what the engine makes of it.
pub proof fn other_operations_are_the_engines<W>(
    engine: Engine<W>,
    position: u32,
    machine: Machine<W>,
    instruction: Instruction,
)
    requires
        !({
            ||| instruction is Add
            ||| instruction is Sub
            ||| instruction is Mul
            ||| instruction is Div
            ||| instruction is Mod
            ||| instruction is Pow
            ||| instruction is BitOr
            ||| instruction is BitAnd
            ||| instruction is BitXor
            ||| instruction is ShiftLeft
            ||| instruction is ShiftRight
            ||| instruction is UnsignedShiftRight
            ||| instruction is LessThan
            ||| instruction is LessThanOrEq
            ||| instruction is GreaterThan
            ||| instruction is GreaterThanOrEq
            ||| instruction is Eq
            ||| instruction is NotEq
            ||| instruction is StrictEq
            ||| instruction is StrictNotEq
            ||| instruction is Inc
            ||| instruction is Dec
            ||| instruction is JumpIfNotLessThan
            ||| instruction is GetName
            ||| instruction is GetNameGlobal
            ||| instruction is GetPropertyByName
            ||| instruction is GetLengthProperty
            ||| instruction is GetPropertyByValue
            ||| instruction is GetPropertyByValuePush
            ||| instruction is SetPropertyByValue
            ||| instruction is Call
            ||| instruction is IncrementLoopIteration
            ||| instruction is CheckReturn
            ||| instruction is Jump
            ||| instruction is StoreZero
            ||| instruction is StoreOne
            ||| instruction is StoreInt8
            ||| instruction is StoreInt16
            ||| instruction is StoreInt32
            ||| instruction is Move
            ||| instruction is GetArgument
            ||| instruction is SetAccumulator
            ||| instruction is PushFromRegister
            ||| instruction is PopIntoRegister
        }),
    ensures
        instruction_step(engine, position, instruction, machine) == (engine.interpret)(
            position,
            machine,
        ),
{
    reveal(instruction_step);
}

/// Where the cached slot holds a getter, a read by name calls it on the object itself. Where
/// the slot is for a getter but holds no object, what it holds is the result.
pub proof fn cached_getters_are_called<W>(
    engine: Engine<W>,
    position: u32,
    machine: Machine<W>,
    dst: u32,
    object: u32,
    ic_index: u32,
    handle: u64,
)
    requires
        machine.vm.stack[machine.vm.frames.last().rp + object] == JsValue::Object(handle),
        ({
            let heap = (engine.heap)(machine);
            let entries = machine.vm.frames.last().code_block.ic@[ic_index as int].entries@;
            &&& entries.len() > 0
            &&& entries[0].shape == heap.objects@[handle as int].shape
            &&& entries[0].slot.get
            &&& entries[0].slot.prototype ==> heap.objects@[handle as int].prototype is Some
        }),
    ensures
        ({
            let vm = machine.vm;
            let heap = (engine.heap)(machine);
            let slot = vm.frames.last().code_block.ic@[ic_index as int].entries@[0].slot;
            let holder = if slot.prototype {
                heap.objects@[handle as int].prototype->0
            } else {
                handle
            };
            let done = instruction_step(
                engine,
                position,
                Instruction::GetPropertyByName { dst, object, ic_index },
                machine,
            );
            match heap.objects@[holder as int].storage@[slot.index as int] {
                JsValue::Object(getter) => {
                    let answer = (engine.call_getter)(getter, JsValue::Object(handle), machine);
                    let after = answer.machine.vm;
                    &&& done.machine.world == answer.machine.world
                    &&& match answer.result {
                        Ok(value) => done.flow is Next && done.machine.vm == (VmState {
                            stack: after.stack.update(after.frames.last().rp + dst, value),
                            ..after
                        }),
                        Err(error) => done.flow is Throw && done.machine.vm == (VmState {
                            pending_exception: Some(error@),
                            ..after
                        }),
                    }
                },
                value => {
                    &&& done.flow is Next
                    &&& done.machine.vm == (VmState {
                        stack: vm.stack.update(vm.frames.last().rp + dst, value),
                        ..vm
                    })
                    &&& done.machine.world == machine.world
                },
            }
        }),
{
    reveal(instruction_step);
}

/// A property of a value that is no object is looked up in the object it is converted to, under
/// the name that the inline cache has, and with the value itself for the receiver.
pub proof fn reads_of_other_values<W>(
    engine: Engine<W>,
    position: u32,
    machine: Machine<W>,
    dst: u32,
    object: u32,
    ic_index: u32,
)
    requires
        !(machine.vm.stack[machine.vm.frames.last().rp + object] is Object),
    ensures
        ({
            let value = machine.vm.stack[machine.vm.frames.last().rp + object];
            let converted = (engine.to_object)(value, machine);
            let done = instruction_step(
                engine,
                position,
                Instruction::GetPropertyByName { dst, object, ic_index },
                machine,
            );
            match converted.result {
                Ok(handle) => {
                    let code = converted.machine.vm.frames.last().code_block;
                    let key = KeyView::Named(code.ic@[ic_index as int].name@);
                    let answer = (engine.get)(handle, key, value, converted.machine);
                    let after = answer.machine.vm;
                    &&& done.machine.world == answer.machine.world
                    &&& match answer.result {
                        Ok(found) => done.flow is Next && done.machine.vm == (VmState {
                            stack: after.stack.update(after.frames.last().rp + dst, found),
                            ..after
                        }),
                        Err(error) => done.flow is Throw && done.machine.vm == (VmState {
                            pending_exception: Some(error@),
                            ..after
                        }),
                    }
                },
                Err(error) => done.flow is Throw && done.machine.vm == (VmState {
                    pending_exception: Some(error@),
                    ..converted.machine.vm
                }),
            }
        }),
{
    reveal(instruction_step);
}

} // verus!
