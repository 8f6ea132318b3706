//! Variables.

use vstd::prelude::*;

use crate::code_block::BindingLocator;
use crate::helpers::Next;
use crate::value::{ErrorKind, ErrorView, JsError, JsValue};
use crate::vm::{Vm, VmState};

verus! {

/// What to do about a variable that does not exist.
#[derive(Clone, Copy, Debug, PartialEq, Eq, Structural)]
pub enum Missing {
    /// Raise a reference error.
    Raise,
    /// Read undefined.
    Undefined,
}

/// Asks to find the binding of a variable in the environments.
#[derive(Debug)]
pub struct FindBinding {
    pub dst: u32,
    pub locator: BindingLocator,
    pub missing: Missing,
}

/// Asks to read a binding that was found.
#[derive(Debug)]
pub struct ReadBinding {
    pub dst: u32,
    pub locator: BindingLocator,
    pub missing: Missing,
}

impl FindBinding {
    /// Goes on with the locator that the engine brought up to date. The binding is
    /// read next.
    pub fn on_found(self, vm: &mut Vm, found: Result<BindingLocator, JsError>) -> (next: Next<
        ReadBinding,
    >)
        ensures
            match found {
                Ok(locator) => next == Next::Ask(
                    ReadBinding { dst: self.dst, locator, missing: self.missing },
                ) && final(vm)@ == old(vm)@,
                Err(error) => next == Next::<ReadBinding>::Done(1) && final(vm)@ == old(
                    vm,
                )@.raise(error@),
            },
    {
        match found {
            Ok(locator) => Next::Ask(
                ReadBinding { dst: self.dst, locator, missing: self.missing },
            ),
            Err(error) => {
                vm.raise(error);
                Next::Done(1)
            },
        }
    }
}

/// The status of [`ReadBinding::resume`].
pub open spec fn read_status(missing: Missing, result: Result<Option<JsValue>, JsError>) -> u64 {
    match result {
        Ok(Some(_)) => 0,
        Ok(None) => match missing {
            Missing::Undefined => 0,
            Missing::Raise => 1,
        },
        Err(_) => 1,
    }
}

/// The state that [`ReadBinding::resume`] leaves behind.
pub open spec fn read_state(
    before: VmState,
    dst: u32,
    missing: Missing,
    name: Seq<char>,
    result: Result<Option<JsValue>, JsError>,
) -> VmState {
    match result {
        Ok(Some(value)) => before.set_register(dst, value),
        Ok(None) => match missing {
            Missing::Undefined => before.set_register(dst, JsValue::Undefined),
            Missing::Raise => before.raise(
                ErrorView::Native {
                    kind: ErrorKind::Reference,
                    message: name + " is not defined"@,
                },
            ),
        },
        Err(error) => before.raise(error@),
    }
}

impl ReadBinding {
    /// Stores the value of the variable. Returns 0 on success, 1 on exception.
    pub fn resume(self, vm: &mut Vm, result: Result<Option<JsValue>, JsError>) -> (code: u64)
        requires
            result is Ok ==> old(vm)@.has_register(self.dst),
        ensures
            code == read_status(self.missing, result),
            final(vm)@ == read_state(old(vm)@, self.dst, self.missing, self.locator.name@, result),
            result matches Ok(Some(value)) ==> {
                &&& code == 0
                &&& final(vm).stack@ == old(vm).stack@.update(
                    old(vm).frames@.last().rp + self.dst,
                    value,
                )
                &&& final(vm)@.pending_exception == old(vm)@.pending_exception
            },
            code == 1 <==> result is Err || (result == Ok::<Option<JsValue>, JsError>(None)
                && self.missing == Missing::Raise),
    {
        match result {
            Ok(Some(value)) => {
                vm.set_register(self.dst, value);
                0
            },
            Ok(None) => match self.missing {
                Missing::Undefined => {
                    vm.set_register(self.dst, JsValue::Undefined);
                    0
                },
                Missing::Raise => {
                    let message = self.locator.name.concat(" is not defined");
                    vm.raise(JsError::Native { kind: ErrorKind::Reference, message });
                    1
                },
            },
            Err(error) => {
                vm.raise(error);
                1
            },
        }
    }
}

/// Look up a binding in the environment chain. The status is 0 on success, 1 on
/// exception. A variable that does not exist is an exception.
///
/// Implements: `GetName { dst, binding_index }`
pub fn jit_get_name(vm: &Vm, dst: u32, binding_index: u32) -> (request: FindBinding)
    requires
        vm@.frames.len() > 0,
        binding_index < vm@.frame().code_block.bindings@.len(),
    ensures
        request.dst == dst,
        request.locator.name@ == vm@.frame().code_block.bindings@[binding_index as int].name@,
        request.locator.location == vm@.frame().code_block.bindings@[binding_index as int].location,
        request.missing == Missing::Raise,
{
    FindBinding {
        dst,
        locator: vm.frame().code_block.bindings[binding_index as usize].clone(),
        missing: Missing::Raise,
    }
}

/// Look up a global binding. The status is 0 on success, 1 on exception. A variable
/// that does not exist is undefined. The inline cache is not used.
///
/// Implements: `GetNameGlobal { dst, binding_index, ic_index }`
pub fn jit_get_name_global(vm: &Vm, dst: u32, binding_index: u32, _ic_index: u32) -> (request:
    FindBinding)
    requires
        vm@.frames.len() > 0,
        binding_index < vm@.frame().code_block.bindings@.len(),
    ensures
        request.dst == dst,
        request.locator.name@ == vm@.frame().code_block.bindings@[binding_index as int].name@,
        request.locator.location == vm@.frame().code_block.bindings@[binding_index as int].location,
        request.missing == Missing::Undefined,
{
    FindBinding {
        dst,
        locator: vm.frame().code_block.bindings[binding_index as usize].clone(),
        missing: Missing::Undefined,
    }
}

/// A variable that is there is read, whatever its value is: the status is 0, and the one
/// change is that the register holds the value.
pub proof fn existing_variables_are_read(
    before: VmState,
    dst: u32,
    missing: Missing,
    name: Seq<char>,
    value: JsValue,
)
    requires
        before.has_register(dst),
    ensures
        read_status(missing, Ok(Some(value))) == 0,
        read_state(before, dst, missing, name, Ok(Some(value))) == (VmState {
            stack: before.stack.update(before.frames.last().rp + dst, value),
            ..before
        }),
{
}

/// A reference error is raised exactly where there is no variable and a missing one is not
/// to be read as undefined. Then no register changes.
pub proof fn missing_variables_raise(
    before: VmState,
    dst: u32,
    missing: Missing,
    name: Seq<char>,
    result: Result<Option<JsValue>, JsError>,
)
    requires
        before.has_register(dst),
    ensures
        result == Ok::<Option<JsValue>, JsError>(None) && missing == Missing::Raise ==> {
            &&& read_status(missing, result) == 1
            &&& read_state(before, dst, missing, name, result) == (VmState {
                pending_exception: Some(
                    ErrorView::Native {
                        kind: ErrorKind::Reference,
                        message: name + " is not defined"@,
                    },
                ),
                ..before
            })
        },
        result == Ok::<Option<JsValue>, JsError>(None) && missing == Missing::Undefined ==> {
            &&& read_status(missing, result) == 0
            &&& read_state(before, dst, missing, name, result) == (VmState {
                stack: before.stack.update(before.frames.last().rp + dst, JsValue::Undefined),
                ..before
            })
        },
        result matches Err(error) ==> {
            &&& read_status(missing, result) == 1
            &&& read_state(before, dst, missing, name, result) == (VmState {
                pending_exception: Some(error@),
                ..before
            })
        },
        read_status(missing, result) == 1 <==> result is Err || (result
            == Ok::<Option<JsValue>, JsError>(None) && missing == Missing::Raise),
{
}

} // verus!
