//! Calls and returns.

use std::ops::ControlFlow;

use vstd::prelude::*;

use crate::helpers::{status, Next};
use crate::value::{CompletionRecord, ErrorKind, ErrorView, JsError, JsValue};
use crate::vm::{CallFrame, Vm, VmState};

verus! {

/// Asks to set up the call of an object.
#[derive(Clone, Copy, Debug, PartialEq, Eq, Structural)]
pub struct ResolveCall {
    pub object: u64,
    pub argument_count: u32,
}

/// Asks to run the call that was set up until it is complete.
#[derive(Clone, Copy, Debug, PartialEq, Eq, Structural)]
pub struct RunCallee;

/// What [`jit_call_inner`] does next. It calls the object that lies below the arguments.
pub open spec fn call_next(before: VmState, argument_count: u32) -> Next<ResolveCall> {
    match before.stack[before.stack.len() - 1 - argument_count] {
        JsValue::Object(object) => Next::Ask(ResolveCall { object, argument_count }),
        _ => Next::Done(1),
    }
}

/// The state that [`jit_call_inner`] leaves behind. What is no object raises a type error.
pub open spec fn call_state(before: VmState, argument_count: u32) -> VmState {
    match before.stack[before.stack.len() - 1 - argument_count] {
        JsValue::Object(_) => before,
        _ => before.raise(
            ErrorView::Native { kind: ErrorKind::Type, message: "not a callable function"@ },
        ),
    }
}

/// What [`ResolveCall::resume`] does next.
pub open spec fn resolved_next(complete: Result<bool, JsError>) -> Next<RunCallee> {
    match complete {
        Ok(true) => Next::Done(0),
        Ok(false) => Next::Ask(RunCallee),
        Err(_) => Next::Done(1),
    }
}

/// The state that [`ResolveCall::resume`] leaves behind.
pub open spec fn resolved_state(before: VmState, complete: Result<bool, JsError>) -> VmState {
    match complete {
        Ok(true) => before,
        Ok(false) => before.set_frame(CallFrame { exit_early: true, ..before.frame() }),
        Err(error) => before.raise(error@),
    }
}

/// The status of [`RunCallee::resume`].
pub open spec fn completed_status(completion: CompletionRecord) -> u64 {
    match completion {
        CompletionRecord::Throw(_) => 1,
        _ => 0,
    }
}

/// The state that [`RunCallee::resume`] leaves behind.
pub open spec fn completed_state(before: VmState, completion: CompletionRecord) -> VmState {
    match completion {
        CompletionRecord::Return(result) => before.callee_removed().push(result),
        CompletionRecord::Throw(error) => before.raise(error@),
        CompletionRecord::Normal(_) => before,
    }
}

/// Call a function and run it to completion. The status is 0 on success, 1 on
/// exception. The arguments are on the stack, and so is the result afterwards.
///
/// Implements: `Call { argument_count }`
pub fn jit_call_inner(vm: &mut Vm, argument_count: u32) -> (next: Next<ResolveCall>)
    requires
        argument_count < old(vm)@.stack.len(),
    ensures
        next == call_next(old(vm)@, argument_count),
        final(vm)@ == call_state(old(vm)@, argument_count),
{
    let func = vm.calling_convention_get_function(argument_count);
    match func.as_object() {
        Some(object) => Next::Ask(ResolveCall { object, argument_count }),
        None => {
            vm.raise(
                JsError::Native {
                    kind: ErrorKind::Type,
                    message: "not a callable function".to_string(),
                },
            );
            Next::Done(1)
        },
    }
}

impl ResolveCall {
    /// Goes on when the call has been set up. A native function has run already, and
    /// its result is on the stack. Else the frame of the callee was pushed: it is
    /// marked to exit early, and then run.
    pub fn resume(self, vm: &mut Vm, complete: Result<bool, JsError>) -> (next: Next<RunCallee>)
        requires
            complete == Ok::<bool, JsError>(false) ==> old(vm)@.frames.len() > 0,
        ensures
            next == resolved_next(complete),
            final(vm)@ == resolved_state(old(vm)@, complete),
    {
        match complete {
            Ok(true) => Next::Done(0),
            Ok(false) => {
                let last: usize = vm.frames.len() - 1;
                vm.frames[last].exit_early = true;
                Next::Ask(RunCallee)
            },
            Err(error) => {
                vm.raise(error);
                Next::Done(1)
            },
        }
    }
}

impl RunCallee {
    /// Goes on when the callee has completed. On return its frame, which stayed
    /// because it exits early, is removed, and the result is pushed for the caller.
    /// Returns 0 on success, 1 on exception.
    pub fn resume(self, vm: &mut Vm, completion: CompletionRecord) -> (code: u64)
        requires
            completion is Return ==> old(vm)@.frames.len() > 0 && old(vm)@.frame().wf(),
        ensures
            code == completed_status(completion),
            final(vm)@ == completed_state(old(vm)@, completion),
    {
        match completion {
            CompletionRecord::Return(result) => {
                vm.truncate_to_frame();
                vm.pop_frame();
                vm.push(result);
                0
            },
            CompletionRecord::Throw(error) => {
                vm.raise(error);
                1
            },
            CompletionRecord::Normal(_) => 0,
        }
    }
}

/// The base of the caller's registers is taken up anew when the call is over.
pub open spec fn base_refreshed<Request>(
    next: Next<Request>,
    after: VmState,
    old_base: usize,
    new_base: usize,
) -> bool {
    new_base == (if next is Done {
        after.frame().rp
    } else {
        old_base
    })
}

/// Takes up the base of the caller's registers anew. The stack may have been
/// reallocated while the callee ran.
fn refresh_base(vm: &Vm, reg_base: &mut usize)
    requires
        vm@.running(),
    ensures
        *final(reg_base) == vm@.frame().rp,
{
    *reg_base = vm.frame().rp;
}

/// [`jit_call_inner`] for a caller that keeps the base of its registers in
/// `reg_base`. The base is renewed as soon as the call is over, whatever its status.
pub fn jit_call(vm: &mut Vm, argument_count: u32, reg_base: &mut usize) -> (next: Next<
    ResolveCall,
>)
    requires
        old(vm)@.running(),
        argument_count < old(vm)@.stack.len(),
    ensures
        next == call_next(old(vm)@, argument_count),
        final(vm)@ == call_state(old(vm)@, argument_count),
        base_refreshed(next, final(vm)@, *old(reg_base), *final(reg_base)),
{
    let next = jit_call_inner(vm, argument_count);
    if let Next::Done(_) = next {
        refresh_base(vm, reg_base);
    }
    next
}

impl ResolveCall {
    /// [`ResolveCall::resume`] for [`jit_call`].
    pub fn resume_call(
        self,
        vm: &mut Vm,
        complete: Result<bool, JsError>,
        reg_base: &mut usize,
    ) -> (next: Next<RunCallee>)
        requires
            old(vm)@.running(),
        ensures
            next == resolved_next(complete),
            final(vm)@ == resolved_state(old(vm)@, complete),
            base_refreshed(next, final(vm)@, *old(reg_base), *final(reg_base)),
    {
        let next = self.resume(vm, complete);
        if let Next::Done(_) = next {
            refresh_base(vm, reg_base);
        }
        next
    }
}

impl RunCallee {
    /// [`RunCallee::resume`] for [`jit_call`].
    pub fn resume_call(
        self,
        vm: &mut Vm,
        completion: CompletionRecord,
        reg_base: &mut usize,
    ) -> (code: u64)
        requires
            completion is Return ==> {
                &&& old(vm)@.frames.len() > 0
                &&& old(vm)@.frame().wf()
                &&& old(vm)@.callee_removed().running()
            },
            !(completion is Return) ==> old(vm)@.running(),
        ensures
            code == completed_status(completion),
            final(vm)@ == completed_state(old(vm)@, completion),
            *final(reg_base) == final(vm)@.frame().rp,
    {
        let code: u64 = self.resume(vm, completion);
        refresh_base(vm, reg_base);
        code
    }
}

/// Asks for `this` from the environments.
#[derive(Clone, Copy, Debug, PartialEq, Eq, Structural)]
pub struct ThisBinding;

/// What [`jit_check_return`] does next.
pub open spec fn check_return_next(before: VmState) -> Next<ThisBinding> {
    let result = before.return_value;
    if !before.frame().construct || result is Object || !(before.this() is Undefined) {
        Next::Done(0)
    } else if !(result is Undefined) {
        Next::Done(1)
    } else if before.frame().this_value_cached {
        Next::Done(0)
    } else {
        Next::Ask(ThisBinding)
    }
}

/// The state that [`jit_check_return`] leaves behind.
pub open spec fn check_return_state(before: VmState) -> VmState {
    let result = before.return_value;
    if !before.frame().construct || result is Object {
        before
    } else if !(before.this() is Undefined) {
        before.set_return_value(before.this())
    } else if !(result is Undefined) {
        before.set_return_value(JsValue::Undefined).raise(
            ErrorView::Native {
                kind: ErrorKind::Type,
                message: "derived constructor can only return an Object or undefined"@,
            },
        )
    } else {
        before
    }
}

/// A constructor whose return value passes the check returns an object or its `this`.
pub proof fn constructor_returns_object_or_this(before: VmState)
    requires
        before.frame().construct,
        check_return_next(before) == Next::<ThisBinding>::Done(0),
    ensures
        check_return_state(before).return_value is Object || check_return_state(
            before,
        ).return_value == before.this(),
{
}

/// A call that does not construct keeps its return value.
pub proof fn call_keeps_result(before: VmState)
    requires
        !before.frame().construct,
    ensures
        check_return_next(before) == Next::<ThisBinding>::Done(0),
        check_return_state(before) == before,
{
}

/// Checking a return value never touches the stack or the calls in progress.
pub proof fn check_return_keeps_stack(before: VmState)
    ensures
        check_return_state(before).stack == before.stack,
        check_return_state(before).frames == before.frames,
{
}

/// Handles the constructor return value. The status is 0 on success, 1 on exception.
///
/// For calls that do not construct this is a no-op. For constructors,
/// it checks if the return value is an object (keep it) or not
/// (return `this` instead), as the interpreter does.
///
/// Implements: `CheckReturn`
pub fn jit_check_return(vm: &mut Vm) -> (next: Next<ThisBinding>)
    requires
        old(vm)@.frames.len() > 0,
        old(vm)@.frame().construct ==> old(vm)@.running(),
    ensures
        next == check_return_next(old(vm)@),
        final(vm)@ == check_return_state(old(vm)@),
{
    if !vm.frame().construct {
        return Next::Done(0);
    }
    let this = vm.get_this();
    let result = vm.take_return_value();

    if result.is_object() {
        vm.set_return_value(result);
        return Next::Done(0);
    }
    if !this.is_undefined() {
        vm.set_return_value(this);
        return Next::Done(0);
    }
    if !result.is_undefined() {
        vm.raise(
            JsError::Native {
                kind: ErrorKind::Type,
                message: "derived constructor can only return an Object or undefined".to_string(),
            },
        );
        return Next::Done(1);
    }
    // `this` of a derived constructor comes from the environment.

    if vm.frame().this_value_cached {
        vm.set_return_value(this);
        return Next::Done(0);
    }
    Next::Ask(ThisBinding)
}

/// The state that [`ThisBinding::resume`] leaves behind.
pub open spec fn this_stored(
    before: VmState,
    binding: Result<Option<JsValue>, JsError>,
    global_this: JsValue,
) -> VmState {
    match binding {
        Ok(Some(this)) => before.set_return_value(this),
        Ok(None) => before.set_return_value(global_this),
        Err(error) => before.raise(error@),
    }
}

impl ThisBinding {
    /// Goes on with `this` from the environments, or with that of the realm where they
    /// have none. Returns 0 on success, 1 on exception.
    pub fn resume(
        self,
        vm: &mut Vm,
        binding: Result<Option<JsValue>, JsError>,
        global_this: JsValue,
    ) -> (code: u64)
        ensures
            code == status(binding),
            final(vm)@ == this_stored(old(vm)@, binding, global_this),
    {
        match binding {
            Ok(Some(this)) => {
                vm.set_return_value(this);
                0
            },
            Ok(None) => {
                vm.set_return_value(global_this);
                0
            },
            Err(error) => {
                vm.raise(error);
                1
            },
        }
    }
}

impl VmState {
    /// The state without the callee, whose frame is on top.
    pub open spec fn callee_removed(self) -> VmState {
        self.truncate_to_frame().pop_frame()
    }

    /// The state after [`jit_check_return_and_return`]. A call that exits early gets
    /// its return value back, for its caller to find.
    pub open spec fn compiled_return(self) -> VmState {
        if self.frame().exit_early {
            self.returned().set_return_value(self.return_value)
        } else {
            self.returned()
        }
    }
}

/// Return from the running call, whose return value [`jit_check_return`] has checked.
///
/// Returns 0 if the caller goes on, 1 if control goes back to the caller of the
/// interpreter. In that case the return value stays in place for it to find.
///
/// Implements: `Return`
pub fn jit_check_return_and_return(vm: &mut Vm) -> (code: u64)
    requires
        old(vm)@.running(),
    ensures
        code == (if old(vm)@.frame().exit_early { 1u64 } else { 0u64 }),
        final(vm)@ == old(vm)@.compiled_return(),
{
    match vm.handle_return() {
        ControlFlow::Continue(()) => 0,
        ControlFlow::Break(CompletionRecord::Return(val)) => {
            vm.set_return_value(val);
            1
        },
        ControlFlow::Break(_) => 1,
    }
}

/// A call that compiled code makes comes back with the stack and the calls in progress
/// as an ordinary return leaves them. `callee` is the state at the end of the called
/// function, which was set to exit early.
pub proof fn compiled_call_is_balanced(callee: VmState)
    requires
        callee.running(),
        callee.frame().exit_early,
    ensures
        ({
            let result = callee.return_value;
            let ordinary = callee.set_frame(CallFrame { exit_early: false, ..callee.frame() });
            let after = callee.compiled_return().callee_removed().push(result);
            &&& after.stack == ordinary.returned().stack
            &&& after.frames == ordinary.returned().frames
            &&& after.stack == callee.stack.take(callee.frame().fp()).push(result)
            &&& after.frames == callee.frames.drop_last()
        }),
{
    let ordinary = callee.set_frame(CallFrame { exit_early: false, ..callee.frame() });
    assert(ordinary.frames.drop_last() =~= callee.frames.drop_last());
    let back = callee.compiled_return();
    assert(back.stack.take(back.frame().fp()) =~= back.stack);
}

/// What is called is the value that lies below the arguments. If it is no object, that is a
/// type error; else nothing has happened yet.
pub proof fn only_objects_are_called(
    before: VmState,
    below: Seq<JsValue>,
    function: JsValue,
    arguments: Seq<JsValue>,
    argument_count: u32,
)
    requires
        before.stack == below + seq![function] + arguments,
        argument_count == arguments.len(),
    ensures
        match function {
            JsValue::Object(object) => {
                &&& call_next(before, argument_count) == Next::Ask(
                    ResolveCall { object, argument_count },
                )
                &&& call_state(before, argument_count) == before
            },
            _ => {
                &&& call_next(before, argument_count) == Next::<ResolveCall>::Done(1)
                &&& call_state(before, argument_count) == (VmState {
                    pending_exception: Some(
                        ErrorView::Native {
                            kind: ErrorKind::Type,
                            message: "not a callable function"@,
                        },
                    ),
                    ..before
                })
            },
        },
{
    assert(before.stack[before.stack.len() - 1 - argument_count] == function);
}

/// A call that is complete once it is set up has left its result on the stack already. Any
/// other call is marked to exit early, and then run.
pub proof fn calls_exit_early(before: VmState, complete: Result<bool, JsError>)
    requires
        before.frames.len() > 0,
    ensures
        match complete {
            Ok(true) => resolved_next(complete) == Next::<RunCallee>::Done(0)
                && resolved_state(before, complete) == before,
            Ok(false) => {
                let after = resolved_state(before, complete);
                &&& resolved_next(complete) == Next::Ask(RunCallee)
                &&& after.frames.len() == before.frames.len()
                &&& after.frames.last() == (CallFrame { exit_early: true, ..before.frames.last() })
                &&& after.frames.drop_last() == before.frames.drop_last()
                &&& after == (VmState { frames: after.frames, ..before })
            },
            Err(error) => resolved_next(complete) == Next::<RunCallee>::Done(1)
                && resolved_state(before, complete) == (VmState {
                pending_exception: Some(error@),
                ..before
            }),
        },
{
    assert(resolved_state(before, complete).frames.drop_last() =~= before.frames.drop_last());
}

/// When the callee has returned, its call is over and its result lies on the caller's stack,
/// in place of everything that the call had there. An exception is left pending.
pub proof fn result_replaces_the_call(
    before: VmState,
    below: Seq<JsValue>,
    this: JsValue,
    function: JsValue,
    arguments: Seq<JsValue>,
    rest: Seq<JsValue>,
    completion: CompletionRecord,
)
    requires
        before.stack == below + seq![this, function] + arguments + rest || before.stack == below,
        before.frames.len() > 0,
        before.frames.last().argument_count == arguments.len(),
        before.frames.last().rp == below.len() + 2 + arguments.len(),
    ensures
        match completion {
            CompletionRecord::Return(result) => {
                &&& completed_status(completion) == 0
                &&& completed_state(before, completion) == (VmState {
                    stack: below.push(result),
                    frames: before.frames.drop_last(),
                    ..before
                })
            },
            CompletionRecord::Throw(error) => {
                &&& completed_status(completion) == 1
                &&& completed_state(before, completion) == (VmState {
                    pending_exception: Some(error@),
                    ..before
                })
            },
            CompletionRecord::Normal(_) => {
                &&& completed_status(completion) == 0
                &&& completed_state(before, completion) == before
            },
        },
{
    assert(before.stack.take(below.len() as int) =~= below);
}

/// What becomes of the return value of a constructor: an object stays; else `this` takes its
/// place, if there is one; else nothing but undefined will do, and then `this` is looked up
/// in the environments unless that was done before.
pub proof fn constructor_results(
    before: VmState,
    below: Seq<JsValue>,
    this: JsValue,
    above: Seq<JsValue>,
)
    requires
        before.frames.len() > 0,
        before.frames.last().construct,
        before.stack == below + seq![this] + above,
        before.frames.last().rp - before.frames.last().argument_count - 2 == below.len(),
    ensures
        before.return_value is Object ==> {
            &&& check_return_next(before) == Next::<ThisBinding>::Done(0)
            &&& check_return_state(before) == before
        },
        !(before.return_value is Object) && this != JsValue::Undefined ==> {
            &&& check_return_next(before) == Next::<ThisBinding>::Done(0)
            &&& check_return_state(before) == (VmState { return_value: this, ..before })
        },
        !(before.return_value is Object) && this == JsValue::Undefined && before.return_value
            != JsValue::Undefined ==> {
            &&& check_return_next(before) == Next::<ThisBinding>::Done(1)
            &&& check_return_state(before) == (VmState {
                return_value: JsValue::Undefined,
                pending_exception: Some(
                    ErrorView::Native {
                        kind: ErrorKind::Type,
                        message: "derived constructor can only return an Object or undefined"@,
                    },
                ),
                ..before
            })
        },
        this == JsValue::Undefined && before.return_value == JsValue::Undefined ==> {
            &&& check_return_next(before) == (if before.frames.last().this_value_cached {
                Next::<ThisBinding>::Done(0)
            } else {
                Next::Ask(ThisBinding)
            })
            &&& check_return_state(before) == before
        },
{
    assert(before.stack[below.len() as int] == this);
}

/// `this` comes from the environments, or from the realm where they have none.
pub proof fn this_becomes_the_result(
    before: VmState,
    binding: Result<Option<JsValue>, JsError>,
    global_this: JsValue,
)
    ensures
        match binding {
            Ok(Some(this)) => this_stored(before, binding, global_this) == (VmState {
                return_value: this,
                ..before
            }),
            Ok(None) => this_stored(before, binding, global_this) == (VmState {
                return_value: global_this,
                ..before
            }),
            Err(error) => this_stored(before, binding, global_this) == (VmState {
                pending_exception: Some(error@),
                ..before
            }),
        },
{
}

/// The return of compiled code is that of the interpreter, but that a call which exits early
/// keeps its return value.
pub proof fn compiled_code_returns_the_result(
    vm: VmState,
    below: Seq<JsValue>,
    this: JsValue,
    function: JsValue,
    arguments: Seq<JsValue>,
    registers: Seq<JsValue>,
)
    requires
        vm.stack == below + seq![this, function] + arguments + registers,
        vm.frames.len() > 0,
        vm.frames.last().argument_count == arguments.len(),
        vm.frames.last().rp == below.len() + 2 + arguments.len(),
    ensures
        vm.frames.last().exit_early ==> vm.compiled_return() == (VmState { stack: below, ..vm }),
        !vm.frames.last().exit_early ==> vm.compiled_return() == (VmState {
            stack: below.push(vm.return_value),
            frames: vm.frames.drop_last(),
            return_value: JsValue::Undefined,
            ..vm
        }),
{
    assert(vm.stack.take(below.len() as int) =~= below);
}

/// The base of the caller's registers is taken up anew when the call is over, and not before.
pub proof fn base_follows_the_caller(
    request: RunCallee,
    code: u64,
    after: VmState,
    old_base: usize,
    new_base: usize,
)
    ensures
        base_refreshed(Next::<RunCallee>::Done(code), after, old_base, new_base) <==> new_base
            == after.frames.last().rp,
        base_refreshed(Next::Ask(request), after, old_base, new_base) <==> new_base == old_base,
{
}

} // verus!
