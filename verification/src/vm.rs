//! The virtual machine state that compiled code works on.
//!
//! Compiled code uses the same stack and registers as the interpreter. The stack
//! holds, for each call, `this`, the called function, the arguments and then the
//! registers of the callee.

use std::ops::ControlFlow;
use std::rc::Rc;

use vstd::prelude::*;

use crate::code_block::CodeBlock;
use crate::value::{CompletionRecord, ErrorView, JsError, JsValue};

verus! {

/// How many values lie on the stack in front of the arguments of a call: `this`
/// and the called function.
pub const FUNCTION_PROLOGUE: usize = 2;

/// One call in progress.
pub struct CallFrame {
    pub code_block: Rc<CodeBlock>,
    /// Where on the stack the registers start.
    pub rp: usize,
    pub argument_count: usize,
    pub loop_iteration_count: u64,
    /// The call is a `new` expression.
    pub construct: bool,
    /// Control goes back to the caller of the interpreter when this call returns.
    pub exit_early: bool,
    /// `this` has been looked up already.
    pub this_value_cached: bool,
}

impl CallFrame {
    /// What the call has on the stack lies below its registers.
    pub open spec fn wf(self) -> bool {
        self.argument_count + FUNCTION_PROLOGUE <= self.rp
    }

    /// Where on the stack the frame starts. `this` is there.
    pub open spec fn fp(self) -> int {
        self.rp - self.argument_count - FUNCTION_PROLOGUE
    }
}

/// The state of the virtual machine.
pub struct Vm {
    pub stack: Vec<JsValue>,
    pub frames: Vec<CallFrame>,
    pub return_value: JsValue,
    pub pending_exception: Option<JsError>,
    /// The most iterations that a loop may run for, or 0 if there is no limit.
    pub loop_iteration_limit: u64,
}

/// [`Vm`] as a mathematical value.
#[verifier::ext_equal]
pub struct VmState {
    pub stack: Seq<JsValue>,
    pub frames: Seq<CallFrame>,
    pub return_value: JsValue,
    pub pending_exception: Option<ErrorView>,
    pub loop_iteration_limit: u64,
}

impl View for Vm {
    type V = VmState;

    open spec fn view(&self) -> VmState {
        VmState {
            stack: self.stack@,
            frames: self.frames@,
            return_value: self.return_value,
            pending_exception: match self.pending_exception {
                Some(error) => Some(error@),
                None => None,
            },
            loop_iteration_limit: self.loop_iteration_limit,
        }
    }
}

impl VmState {
    /// The call that is running.
    pub open spec fn frame(self) -> CallFrame {
        self.frames.last()
    }

    /// A call is running, and its registers are on the stack.
    pub open spec fn running(self) -> bool {
        &&& self.frames.len() > 0
        &&& self.frame().wf()
        &&& self.frame().rp <= self.stack.len()
    }

    /// The running call has a register with this number.
    pub open spec fn has_register(self, register: u32) -> bool {
        &&& self.running()
        &&& self.frame().rp + register < self.stack.len()
    }

    /// The value of a register.
    pub open spec fn register(self, register: u32) -> JsValue {
        self.stack[self.frame().rp + register]
    }

    /// The state with another value in a register.
    pub open spec fn set_register(self, register: u32, value: JsValue) -> VmState {
        VmState { stack: self.stack.update(self.frame().rp + register, value), ..self }
    }

    /// The state with another return value.
    pub open spec fn set_return_value(self, value: JsValue) -> VmState {
        VmState { return_value: value, ..self }
    }

    /// The state with a value pushed on the stack.
    pub open spec fn push(self, value: JsValue) -> VmState {
        VmState { stack: self.stack.push(value), ..self }
    }

    /// The state with the top of the stack removed.
    pub open spec fn pop(self) -> VmState {
        VmState { stack: self.stack.drop_last(), ..self }
    }

    /// The state with an exception waiting to be handled.
    pub open spec fn raise(self, error: ErrorView) -> VmState {
        VmState { pending_exception: Some(error), ..self }
    }

    /// An argument of the running call. What was not passed is undefined.
    pub open spec fn argument(self, index: u32) -> JsValue {
        if index < self.frame().argument_count {
            self.stack[self.frame().rp - self.frame().argument_count + index]
        } else {
            JsValue::Undefined
        }
    }

    /// `this` of the running call.
    pub open spec fn this(self) -> JsValue {
        self.stack[self.frame().fp()]
    }

    /// The state with everything that the running call has on the stack removed, if it
    /// has anything there.
    pub open spec fn truncate_to_frame(self) -> VmState {
        if self.frame().fp() <= self.stack.len() {
            VmState { stack: self.stack.take(self.frame().fp()), ..self }
        } else {
            self
        }
    }

    /// The state without the running call.
    pub open spec fn pop_frame(self) -> VmState {
        VmState { frames: self.frames.drop_last(), ..self }
    }

    /// The state with the running call replaced.
    pub open spec fn set_frame(self, frame: CallFrame) -> VmState {
        VmState { frames: self.frames.update(self.frames.len() - 1, frame), ..self }
    }

    /// The state after the running call has returned. If it exits early, its frame
    /// stays and the result is handed over; else the result is pushed for the caller.
    pub open spec fn returned(self) -> VmState {
        let cleared = self.truncate_to_frame().set_return_value(JsValue::Undefined);
        if self.frame().exit_early {
            cleared
        } else {
            cleared.push(self.return_value).pop_frame()
        }
    }
}

impl Vm {
    /// Returns the call that is running.
    pub fn frame(&self) -> (frame: &CallFrame)
        requires
            self@.frames.len() > 0,
        ensures
            *frame == self@.frame(),
    {
        &self.frames[self.frames.len() - 1]
    }

    /// Returns the value of a register.
    pub fn get_register(&self, register: u32) -> (value: JsValue)
        requires
            self@.has_register(register),
        ensures
            value == self@.register(register),
    {
        assert(self.stack.len() == self.stack@.len());
        self.stack[self.frame().rp + register as usize]
    }

    /// Puts a value in a register.
    pub fn set_register(&mut self, register: u32, value: JsValue)
        requires
            old(self)@.has_register(register),
        ensures
            final(self)@ == old(self)@.set_register(register, value),
    {
        assert(self.stack.len() == self.stack@.len());
        let index: usize = self.frame().rp + register as usize;
        self.stack[index] = value;
    }

    /// Moves the value of a register out, which leaves it undefined.
    pub fn take_register(&mut self, register: u32) -> (value: JsValue)
        requires
            old(self)@.has_register(register),
        ensures
            value == old(self)@.register(register),
            final(self)@ == old(self)@.set_register(register, JsValue::Undefined),
    {
        let value = self.get_register(register);
        self.set_register(register, JsValue::Undefined);
        value
    }

    /// Sets the return value of the running call.
    pub fn set_return_value(&mut self, value: JsValue)
        ensures
            final(self)@ == old(self)@.set_return_value(value),
    {
        self.return_value = value;
    }

    /// Moves the return value out, which leaves it undefined.
    pub fn take_return_value(&mut self) -> (value: JsValue)
        ensures
            value == old(self)@.return_value,
            final(self)@ == old(self)@.set_return_value(JsValue::Undefined),
    {
        let value = self.return_value;
        self.return_value = JsValue::Undefined;
        value
    }

    /// Leaves an exception to be handled.
    pub fn raise(&mut self, error: JsError)
        ensures
            final(self)@ == old(self)@.raise(error@),
    {
        self.pending_exception = Some(error);
    }

    /// Pushes a value on the stack.
    pub fn push(&mut self, value: JsValue)
        ensures
            final(self)@ == old(self)@.push(value),
    {
        self.stack.push(value);
    }

    /// Pops the top of the stack.
    pub fn pop(&mut self) -> (value: JsValue)
        requires
            old(self)@.stack.len() > 0,
        ensures
            value == old(self)@.stack.last(),
            final(self)@ == old(self)@.pop(),
    {
        self.stack.pop().unwrap()
    }

    /// Returns an argument of the running call, undefined if it was not passed.
    pub fn get_argument(&self, index: u32) -> (value: JsValue)
        requires
            self@.running(),
        ensures
            value == self@.argument(index),
    {
        let frame = self.frame();
        if (index as usize) < frame.argument_count {
            self.stack[frame.rp - frame.argument_count + index as usize]
        } else {
            JsValue::Undefined
        }
    }

    /// Returns `this` of the running call.
    pub fn get_this(&self) -> (value: JsValue)
        requires
            self@.running(),
        ensures
            value == self@.this(),
    {
        let frame = self.frame();
        self.stack[frame.rp - frame.argument_count - FUNCTION_PROLOGUE]
    }

    /// Returns the function that is about to be called with arguments that are on
    /// the stack already.
    pub fn calling_convention_get_function(&self, argument_count: u32) -> (function: JsValue)
        requires
            argument_count < self@.stack.len(),
        ensures
            function == self@.stack[self@.stack.len() - 1 - argument_count],
    {
        self.stack[self.stack.len() - 1 - argument_count as usize]
    }

    /// Removes everything that the running call has on the stack.
    pub fn truncate_to_frame(&mut self)
        requires
            old(self)@.frames.len() > 0,
            old(self)@.frame().wf(),
        ensures
            final(self)@ == old(self)@.truncate_to_frame(),
    {
        let frame = self.frame();
        let fp: usize = frame.rp - frame.argument_count - FUNCTION_PROLOGUE;
        self.stack.truncate(fp);
    }

    /// Ends the running call.
    pub fn pop_frame(&mut self)
        requires
            old(self)@.frames.len() > 0,
        ensures
            final(self)@ == old(self)@.pop_frame(),
    {
        self.frames.pop();
    }

    /// Returns from the running call. The result is handed over if the call exits
    /// early; else it is pushed for the caller, which goes on.
    pub fn handle_return(&mut self) -> (flow: ControlFlow<CompletionRecord, ()>)
        requires
            old(self)@.running(),
        ensures
            final(self)@ == old(self)@.returned(),
            old(self)@.frame().exit_early ==> flow == ControlFlow::<CompletionRecord, ()>::Break(
                CompletionRecord::Return(old(self)@.return_value),
            ),
            !old(self)@.frame().exit_early ==> flow == ControlFlow::<
                CompletionRecord,
                (),
            >::Continue(()),
    {
        let exit_early = self.frame().exit_early;
        self.truncate_to_frame();
        let result = self.take_return_value();
        if exit_early {
            return ControlFlow::Break(CompletionRecord::Return(result));
        }
        self.push(result);
        self.pop_frame();
        ControlFlow::Continue(())
    }
}

/// Writing a register changes the one value on the stack that lies as far above the base of
/// the registers as its number says, and nothing else.
pub proof fn register_is_one_place_on_the_stack(vm: VmState, register: u32, value: JsValue)
    requires
        vm.frames.len() > 0,
        vm.frames.last().argument_count + 2 <= vm.frames.last().rp,
        vm.frames.last().rp + register < vm.stack.len(),
    ensures
        ({
            let place = vm.frames.last().rp + register;
            let after = vm.set_register(register, value);
            &&& vm.has_register(register)
            &&& vm.register(register) == vm.stack[place]
            &&& after.stack.len() == vm.stack.len()
            &&& after.stack[place] == value
            &&& forall|i: int|
                0 <= i < vm.stack.len() && i != place ==> #[trigger] after.stack[i] == vm.stack[i]
            &&& after.frames == vm.frames
            &&& after.return_value == vm.return_value
            &&& after.pending_exception == vm.pending_exception
            &&& after.loop_iteration_limit == vm.loop_iteration_limit
        }),
{
}

/// A register holds what was written last, and writing one leaves the others alone.
pub proof fn registers_are_independent(vm: VmState, written: u32, read: u32, value: JsValue)
    requires
        vm.has_register(written),
        vm.has_register(read),
    ensures
        vm.set_register(written, value).has_register(read),
        vm.set_register(written, value).register(read) == (if read == written {
            value
        } else {
            vm.register(read)
        }),
{
}

/// The values of a call lie on the stack in this order: `this`, the function, the arguments
/// and the registers. Below them is what the caller has there.
pub proof fn call_layout(
    vm: VmState,
    below: Seq<JsValue>,
    this: JsValue,
    function: JsValue,
    arguments: Seq<JsValue>,
    registers: Seq<JsValue>,
    number: u32,
)
    requires
        vm.stack == below + seq![this, function] + arguments + registers,
        vm.frames.len() > 0,
        vm.frames.last().argument_count == arguments.len(),
        vm.frames.last().rp == below.len() + 2 + arguments.len(),
    ensures
        vm.running(),
        vm.this() == this,
        number < arguments.len() ==> vm.argument(number) == arguments[number as int],
        number >= arguments.len() ==> vm.argument(number) == JsValue::Undefined,
        vm.has_register(number) <==> number < registers.len(),
        number < registers.len() ==> vm.register(number) == registers[number as int],
        vm.truncate_to_frame() == (VmState { stack: below, ..vm }),
{
    assert(vm.stack.take(below.len() as int) =~= below);
}

/// When a call returns, everything that it had on the stack is gone. An ordinary call ends,
/// and its result is on top of the caller's stack. One that exits early stays in place.
pub proof fn return_leaves_the_result(
    vm: VmState,
    below: Seq<JsValue>,
    this: JsValue,
    function: JsValue,
    arguments: Seq<JsValue>,
    registers: Seq<JsValue>,
)
    requires
        vm.stack == below + seq![this, function] + arguments + registers,
        vm.frames.len() > 0,
        vm.frames.last().argument_count == arguments.len(),
        vm.frames.last().rp == below.len() + 2 + arguments.len(),
    ensures
        vm.frames.last().exit_early ==> vm.returned().stack == below && vm.returned().frames
            == vm.frames,
        !vm.frames.last().exit_early ==> vm.returned().stack == below.push(vm.return_value)
            && vm.returned().frames == vm.frames.drop_last(),
        vm.returned().return_value == JsValue::Undefined,
        vm.returned().pending_exception == vm.pending_exception,
        vm.returned().loop_iteration_limit == vm.loop_iteration_limit,
{
    call_layout(vm, below, this, function, arguments, registers, 0);
}

/// What was pushed is on top of the stack, and popping it gives the stack back.
pub proof fn pop_undoes_push(vm: VmState, value: JsValue)
    ensures
        vm.push(value).stack.len() == vm.stack.len() + 1,
        vm.push(value).stack[vm.stack.len() as int] == value,
        vm.push(value).pop() == vm,
{
    assert(vm.push(value).pop().stack =~= vm.stack);
}

/// Each of these changes a single part of the machine.
pub proof fn parts_are_independent(
    vm: VmState,
    value: JsValue,
    error: ErrorView,
    frame: CallFrame,
)
    ensures
        vm.set_return_value(value) == (VmState { return_value: value, ..vm }),
        vm.raise(error) == (VmState { pending_exception: Some(error), ..vm }),
        vm.push(value) == (VmState { stack: vm.stack + seq![value], ..vm }),
        vm.frames.len() > 0 ==> vm.pop_frame() == (VmState {
            frames: vm.frames.take(vm.frames.len() - 1),
            ..vm
        }),
        vm.frames.len() > 0 ==> vm.set_frame(frame) == (VmState {
            frames: vm.frames.take(vm.frames.len() - 1).push(frame),
            ..vm
        }),
{
    assert(vm.stack.push(value) =~= vm.stack + seq![value]);
    if vm.frames.len() > 0 {
        let last = vm.frames.len() - 1;
        assert(vm.frames.drop_last() =~= vm.frames.take(last));
        assert(vm.frames.update(last, frame) =~= vm.frames.take(last).push(frame));
    }
}

/// The machine as a mathematical value has all that the machine has.
pub proof fn view_has_every_part(vm: Vm)
    ensures
        vm@.stack == vm.stack@,
        vm@.frames == vm.frames@,
        vm@.return_value == vm.return_value,
        vm@.loop_iteration_limit == vm.loop_iteration_limit,
        vm.pending_exception is None <==> vm@.pending_exception is None,
        vm.pending_exception matches Some(error) ==> vm@.pending_exception == Some(error@),
{
}

/// A stack on which the running call has nothing any more stays as it is.
pub proof fn short_stacks_stay(vm: VmState)
    requires
        vm.frames.len() > 0,
        vm.stack.len() + vm.frames.last().argument_count + 2 <= vm.frames.last().rp,
    ensures
        vm.truncate_to_frame() == vm,
{
    assert(vm.stack.len() == vm.frame().fp() ==> vm.stack.take(vm.frame().fp()) =~= vm.stack);
}

} // verus!
