//! Runtime helpers that compiled code calls.
//!
//! They bridge between native code and the runtime, and operate on the virtual
//! machine and its register file. Each helper corresponds to one or more bytecode
//! operations. Most return a status: 0 on success, 1 when an exception is pending. Where the
//! operation may jump, 1 tells that it does, and 2 that an exception is pending.
//!
//! Some helpers need the engine midway, to convert a value, look up a property or
//! run a function. Such a helper stops there with a request, which tells what is
//! asked for and holds what the helper needs to go on. Its methods take the
//! engine's answer and carry on.

use vstd::prelude::*;

use crate::value::{JsError, JsValue};
use crate::vm::{Vm, VmState};

pub mod arithmetic;
pub mod call;
pub mod data;
pub mod inline_cache;
pub mod interpret;
pub mod name;
pub mod property;
pub mod refcount;

verus! {

/// What a helper does next.
pub enum Next<Request> {
    /// It is done, with this status.
    Done(u64),
    /// It asks the engine for something.
    Ask(Request),
}

/// What [`store_result`] leaves behind: the value in `dst`, or the exception pending.
pub open spec fn result_stored(
    before: VmState,
    dst: u32,
    result: Result<JsValue, JsError>,
) -> VmState {
    match result {
        Ok(value) => before.set_register(dst, value),
        Err(error) => before.raise(error@),
    }
}

/// What a helper leaves behind that ends with a result: the exception pending, if there is one.
pub open spec fn failure_raised<T>(before: VmState, result: Result<T, JsError>) -> VmState {
    match result {
        Ok(_) => before,
        Err(error) => before.raise(error@),
    }
}

/// The status of a helper that ends with a result: 0 for a value, 1 for an exception.
pub open spec fn status<T>(result: Result<T, JsError>) -> u64 {
    if result is Ok {
        0
    } else {
        1
    }
}

/// Puts the value that the engine computed in register `dst`, or leaves the
/// exception pending that it came back with.
pub fn store_result(vm: &mut Vm, dst: u32, result: Result<JsValue, JsError>) -> (code: u64)
    requires
        result is Ok ==> old(vm)@.has_register(dst),
    ensures
        code == status(result),
        final(vm)@ == result_stored(old(vm)@, dst, result),
{
    match result {
        Ok(value) => {
            vm.set_register(dst, value);
            0
        },
        Err(error) => {
            vm.raise(error);
            1
        },
    }
}

/// A result goes to the register asked for, with status 0. An exception is left pending, with
/// status 1, and no register changes.
pub proof fn results_go_to_the_register(
    before: VmState,
    dst: u32,
    result: Result<JsValue, JsError>,
)
    requires
        before.has_register(dst),
    ensures
        match result {
            Ok(value) => {
                &&& status(result) == 0
                &&& result_stored(before, dst, result) == (VmState {
                    stack: before.stack.update(before.frames.last().rp + dst, value),
                    ..before
                })
            },
            Err(error) => {
                &&& status(result) == 1
                &&& result_stored(before, dst, result) == (VmState {
                    pending_exception: Some(error@),
                    ..before
                })
            },
        },
{
}

/// Where there is nothing to store, only an exception changes the machine.
pub proof fn only_failures_change_the_machine<T>(before: VmState, result: Result<T, JsError>)
    ensures
        match result {
            Ok(_) => status(result) == 0 && failure_raised(before, result) == before,
            Err(error) => status(result) == 1 && failure_raised(before, result) == (VmState {
                pending_exception: Some(error@),
                ..before
            }),
        },
{
}

} // verus!
