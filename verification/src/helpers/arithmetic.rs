//! Operators on values.
//!
//! A binary operator first tries a fast path, which the engine answers from the
//! two values alone, and falls back to the full operation, which may run code.

use vstd::prelude::*;

use crate::helpers::{failure_raised, result_stored, status, store_result, Next};
use crate::value::{JsError, JsValue};
use crate::vm::{Vm, VmState};

verus! {

/// A binary operator.
#[derive(Clone, Copy, Debug, PartialEq, Eq, Structural)]
pub enum BinaryOp {
    Add,
    Sub,
    Mul,
    Div,
    Mod,
    Pow,
    BitOr,
    BitAnd,
    BitXor,
    ShiftLeft,
    ShiftRight,
    UnsignedShiftRight,
    LessThan,
    LessThanOrEq,
    GreaterThan,
    GreaterThanOrEq,
    Eq,
    NotEq,
}

/// Asks for the fast path of a binary operator, and after it for the full operation.
#[derive(Clone, Copy, Debug, PartialEq, Eq, Structural)]
pub struct BinaryOperation {
    pub op: BinaryOp,
    pub dst: u32,
    pub lhs: JsValue,
    pub rhs: JsValue,
}

/// Reads the operands of a binary operator.
fn binary_operation(vm: &Vm, op: BinaryOp, dst: u32, lhs: u32, rhs: u32) -> (request:
    BinaryOperation)
    requires
        vm@.has_register(lhs),
        vm@.has_register(rhs),
    ensures
        request == operation(vm@, op, dst, lhs, rhs),
{
    BinaryOperation { op, dst, lhs: vm.get_register(lhs), rhs: vm.get_register(rhs) }
}

/// The request of a binary operator on two registers.
pub open spec fn operation(
    vm: VmState,
    op: BinaryOp,
    dst: u32,
    lhs: u32,
    rhs: u32,
) -> BinaryOperation {
    BinaryOperation { op, dst, lhs: vm.register(lhs), rhs: vm.register(rhs) }
}

impl BinaryOperation {
    /// What [`BinaryOperation::fast`] does next.
    pub open spec fn fast_next(self, result: Option<JsValue>) -> Next<BinaryOperation> {
        match result {
            Some(_) => Next::Done(0),
            None => Next::Ask(self),
        }
    }

    /// The state that [`BinaryOperation::fast`] leaves behind.
    pub open spec fn fast_state(self, before: VmState, result: Option<JsValue>) -> VmState {
        match result {
            Some(value) => before.set_register(self.dst, value),
            None => before,
        }
    }

    /// Goes on with the answer of the fast path. Without one, the full operation is
    /// asked for.
    pub fn fast(self, vm: &mut Vm, result: Option<JsValue>) -> (next: Next<BinaryOperation>)
        requires
            result is Some ==> old(vm)@.has_register(self.dst),
        ensures
            next == self.fast_next(result),
            final(vm)@ == self.fast_state(old(vm)@, result),
    {
        match result {
            Some(value) => {
                vm.set_register(self.dst, value);
                Next::Done(0)
            },
            None => Next::Ask(self),
        }
    }

    /// Goes on with the result of the full operation. Returns 0 on success, 1 on exception.
    pub fn slow(self, vm: &mut Vm, result: Result<JsValue, JsError>) -> (code: u64)
        requires
            result is Ok ==> old(vm)@.has_register(self.dst),
        ensures
            code == status(result),
            final(vm)@ == result_stored(old(vm)@, self.dst, result),
    {
        store_result(vm, self.dst, result)
    }
}

/// Binary `+` operator.
///
/// Implements: `Add { dst, lhs, rhs }`
pub fn jit_add(vm: &Vm, dst: u32, lhs: u32, rhs: u32) -> (request: BinaryOperation)
    requires
        vm@.has_register(lhs),
        vm@.has_register(rhs),
    ensures
        request == operation(vm@, BinaryOp::Add, dst, lhs, rhs),
{
    binary_operation(vm, BinaryOp::Add, dst, lhs, rhs)
}

/// Binary `-` operator.
///
/// Implements: `Sub { dst, lhs, rhs }`
pub fn jit_sub(vm: &Vm, dst: u32, lhs: u32, rhs: u32) -> (request: BinaryOperation)
    requires
        vm@.has_register(lhs),
        vm@.has_register(rhs),
    ensures
        request == operation(vm@, BinaryOp::Sub, dst, lhs, rhs),
{
    binary_operation(vm, BinaryOp::Sub, dst, lhs, rhs)
}

/// Binary `*` operator.
///
/// Implements: `Mul { dst, lhs, rhs }`
pub fn jit_mul(vm: &Vm, dst: u32, lhs: u32, rhs: u32) -> (request: BinaryOperation)
    requires
        vm@.has_register(lhs),
        vm@.has_register(rhs),
    ensures
        request == operation(vm@, BinaryOp::Mul, dst, lhs, rhs),
{
    binary_operation(vm, BinaryOp::Mul, dst, lhs, rhs)
}

/// Binary `/` operator.
///
/// Implements: `Div { dst, lhs, rhs }`
pub fn jit_div(vm: &Vm, dst: u32, lhs: u32, rhs: u32) -> (request: BinaryOperation)
    requires
        vm@.has_register(lhs),
        vm@.has_register(rhs),
    ensures
        request == operation(vm@, BinaryOp::Div, dst, lhs, rhs),
{
    binary_operation(vm, BinaryOp::Div, dst, lhs, rhs)
}

/// Binary `%` operator.
///
/// Implements: `Mod { dst, lhs, rhs }`
pub fn jit_mod(vm: &Vm, dst: u32, lhs: u32, rhs: u32) -> (request: BinaryOperation)
    requires
        vm@.has_register(lhs),
        vm@.has_register(rhs),
    ensures
        request == operation(vm@, BinaryOp::Mod, dst, lhs, rhs),
{
    binary_operation(vm, BinaryOp::Mod, dst, lhs, rhs)
}

/// Binary `**` operator.
///
/// Implements: `Pow { dst, lhs, rhs }`
pub fn jit_pow(vm: &Vm, dst: u32, lhs: u32, rhs: u32) -> (request: BinaryOperation)
    requires
        vm@.has_register(lhs),
        vm@.has_register(rhs),
    ensures
        request == operation(vm@, BinaryOp::Pow, dst, lhs, rhs),
{
    binary_operation(vm, BinaryOp::Pow, dst, lhs, rhs)
}

/// Binary `|` operator.
///
/// Implements: `BitOr { dst, lhs, rhs }`
pub fn jit_bit_or(vm: &Vm, dst: u32, lhs: u32, rhs: u32) -> (request: BinaryOperation)
    requires
        vm@.has_register(lhs),
        vm@.has_register(rhs),
    ensures
        request == operation(vm@, BinaryOp::BitOr, dst, lhs, rhs),
{
    binary_operation(vm, BinaryOp::BitOr, dst, lhs, rhs)
}

/// Binary `&` operator.
///
/// Implements: `BitAnd { dst, lhs, rhs }`
pub fn jit_bit_and(vm: &Vm, dst: u32, lhs: u32, rhs: u32) -> (request: BinaryOperation)
    requires
        vm@.has_register(lhs),
        vm@.has_register(rhs),
    ensures
        request == operation(vm@, BinaryOp::BitAnd, dst, lhs, rhs),
{
    binary_operation(vm, BinaryOp::BitAnd, dst, lhs, rhs)
}

/// Binary `^` operator.
///
/// Implements: `BitXor { dst, lhs, rhs }`
pub fn jit_bit_xor(vm: &Vm, dst: u32, lhs: u32, rhs: u32) -> (request: BinaryOperation)
    requires
        vm@.has_register(lhs),
        vm@.has_register(rhs),
    ensures
        request == operation(vm@, BinaryOp::BitXor, dst, lhs, rhs),
{
    binary_operation(vm, BinaryOp::BitXor, dst, lhs, rhs)
}

/// Binary `<<` operator.
///
/// Implements: `ShiftLeft { dst, lhs, rhs }`
pub fn jit_shl(vm: &Vm, dst: u32, lhs: u32, rhs: u32) -> (request: BinaryOperation)
    requires
        vm@.has_register(lhs),
        vm@.has_register(rhs),
    ensures
        request == operation(vm@, BinaryOp::ShiftLeft, dst, lhs, rhs),
{
    binary_operation(vm, BinaryOp::ShiftLeft, dst, lhs, rhs)
}

/// Binary `>>` operator.
///
/// Implements: `ShiftRight { dst, lhs, rhs }`
pub fn jit_shr(vm: &Vm, dst: u32, lhs: u32, rhs: u32) -> (request: BinaryOperation)
    requires
        vm@.has_register(lhs),
        vm@.has_register(rhs),
    ensures
        request == operation(vm@, BinaryOp::ShiftRight, dst, lhs, rhs),
{
    binary_operation(vm, BinaryOp::ShiftRight, dst, lhs, rhs)
}

/// Binary `>>>` operator.
///
/// Implements: `UnsignedShiftRight { dst, lhs, rhs }`
pub fn jit_ushr(vm: &Vm, dst: u32, lhs: u32, rhs: u32) -> (request: BinaryOperation)
    requires
        vm@.has_register(lhs),
        vm@.has_register(rhs),
    ensures
        request == operation(vm@, BinaryOp::UnsignedShiftRight, dst, lhs, rhs),
{
    binary_operation(vm, BinaryOp::UnsignedShiftRight, dst, lhs, rhs)
}

/// Binary `<` operator.
///
/// Implements: `LessThan { dst, lhs, rhs }`
pub fn jit_lt(vm: &Vm, dst: u32, lhs: u32, rhs: u32) -> (request: BinaryOperation)
    requires
        vm@.has_register(lhs),
        vm@.has_register(rhs),
    ensures
        request == operation(vm@, BinaryOp::LessThan, dst, lhs, rhs),
{
    binary_operation(vm, BinaryOp::LessThan, dst, lhs, rhs)
}

/// Binary `<=` operator.
///
/// Implements: `LessThanOrEq { dst, lhs, rhs }`
pub fn jit_le(vm: &Vm, dst: u32, lhs: u32, rhs: u32) -> (request: BinaryOperation)
    requires
        vm@.has_register(lhs),
        vm@.has_register(rhs),
    ensures
        request == operation(vm@, BinaryOp::LessThanOrEq, dst, lhs, rhs),
{
    binary_operation(vm, BinaryOp::LessThanOrEq, dst, lhs, rhs)
}

/// Binary `>` operator.
///
/// Implements: `GreaterThan { dst, lhs, rhs }`
pub fn jit_gt(vm: &Vm, dst: u32, lhs: u32, rhs: u32) -> (request: BinaryOperation)
    requires
        vm@.has_register(lhs),
        vm@.has_register(rhs),
    ensures
        request == operation(vm@, BinaryOp::GreaterThan, dst, lhs, rhs),
{
    binary_operation(vm, BinaryOp::GreaterThan, dst, lhs, rhs)
}

/// Binary `>=` operator.
///
/// Implements: `GreaterThanOrEq { dst, lhs, rhs }`
pub fn jit_ge(vm: &Vm, dst: u32, lhs: u32, rhs: u32) -> (request: BinaryOperation)
    requires
        vm@.has_register(lhs),
        vm@.has_register(rhs),
    ensures
        request == operation(vm@, BinaryOp::GreaterThanOrEq, dst, lhs, rhs),
{
    binary_operation(vm, BinaryOp::GreaterThanOrEq, dst, lhs, rhs)
}

/// Binary `==` operator.
///
/// Implements: `Eq { dst, lhs, rhs }`
pub fn jit_eq(vm: &Vm, dst: u32, lhs: u32, rhs: u32) -> (request: BinaryOperation)
    requires
        vm@.has_register(lhs),
        vm@.has_register(rhs),
    ensures
        request == operation(vm@, BinaryOp::Eq, dst, lhs, rhs),
{
    binary_operation(vm, BinaryOp::Eq, dst, lhs, rhs)
}

/// Binary `!=` operator.
///
/// Implements: `NotEq { dst, lhs, rhs }`
pub fn jit_ne(vm: &Vm, dst: u32, lhs: u32, rhs: u32) -> (request: BinaryOperation)
    requires
        vm@.has_register(lhs),
        vm@.has_register(rhs),
    ensures
        request == operation(vm@, BinaryOp::NotEq, dst, lhs, rhs),
{
    binary_operation(vm, BinaryOp::NotEq, dst, lhs, rhs)
}

/// Asks whether two values are strictly equal.
#[derive(Clone, Copy, Debug, PartialEq, Eq, Structural)]
pub struct StrictEquality {
    pub dst: u32,
    pub lhs: JsValue,
    pub rhs: JsValue,
    /// The helper stores the opposite of the answer.
    pub negated: bool,
}

/// The request of a strict comparison of two registers.
pub open spec fn strict_equality(
    vm: VmState,
    dst: u32,
    lhs: u32,
    rhs: u32,
    negated: bool,
) -> StrictEquality {
    StrictEquality { dst, lhs: vm.register(lhs), rhs: vm.register(rhs), negated }
}

impl StrictEquality {
    /// The state that [`StrictEquality::resume`] leaves behind.
    pub open spec fn stored(self, before: VmState, equal: bool) -> VmState {
        before.set_register(self.dst, JsValue::Boolean(equal != self.negated))
    }

    /// Stores the outcome. This cannot fail.
    pub fn resume(self, vm: &mut Vm, equal: bool)
        requires
            old(vm)@.has_register(self.dst),
        ensures
            final(vm)@ == self.stored(old(vm)@, equal),
    {
        vm.set_register(self.dst, JsValue::Boolean(equal != self.negated));
    }
}

/// Strict `===`: infallible, no slow path needed.
///
/// Implements: `StrictEq { dst, lhs, rhs }`
pub fn jit_strict_eq(vm: &Vm, dst: u32, lhs: u32, rhs: u32) -> (request: StrictEquality)
    requires
        vm@.has_register(lhs),
        vm@.has_register(rhs),
    ensures
        request == strict_equality(vm@, dst, lhs, rhs, false),
{
    StrictEquality { dst, lhs: vm.get_register(lhs), rhs: vm.get_register(rhs), negated: false }
}

/// Strict `!==`: infallible.
///
/// Implements: `StrictNotEq { dst, lhs, rhs }`
pub fn jit_strict_ne(vm: &Vm, dst: u32, lhs: u32, rhs: u32) -> (request: StrictEquality)
    requires
        vm@.has_register(lhs),
        vm@.has_register(rhs),
    ensures
        request == strict_equality(vm@, dst, lhs, rhs, true),
{
    StrictEquality { dst, lhs: vm.get_register(lhs), rhs: vm.get_register(rhs), negated: true }
}

/// Asks to convert a value to a number and to step that number by one.
#[derive(Clone, Copy, Debug, PartialEq, Eq, Structural)]
pub struct ToNumeric {
    pub dst: u32,
    pub src: u32,
    pub value: JsValue,
    /// The number is to be incremented; else it is to be decremented.
    pub increment: bool,
}

/// The answer to [`ToNumeric`], whether a number or a big integer.
#[derive(Clone, Copy, Debug, PartialEq, Eq, Structural)]
pub struct Numeric {
    /// The value as a number.
    pub value: JsValue,
    /// That number stepped by one.
    pub stepped: JsValue,
}

/// The small integer next to a value, if both are small integers.
pub open spec fn next_integer(value: JsValue, increment: bool) -> Option<i32> {
    match value {
        JsValue::Integer32(number) => if increment && number < i32::MAX {
            Some((number + 1) as i32)
        } else if !increment && number > i32::MIN {
            Some((number - 1) as i32)
        } else {
            None
        },
        _ => None,
    }
}

/// What [`jit_inc`] and [`jit_dec`] do next.
pub open spec fn unary_next(
    before: VmState,
    dst: u32,
    src: u32,
    increment: bool,
) -> Next<ToNumeric> {
    let value = before.register(src);
    match next_integer(value, increment) {
        Some(_) => Next::Done(0),
        None => Next::Ask(ToNumeric { dst, src, value, increment }),
    }
}

/// The state that [`jit_inc`] and [`jit_dec`] leave behind.
pub open spec fn unary_state(before: VmState, dst: u32, src: u32, increment: bool) -> VmState {
    match next_integer(before.register(src), increment) {
        Some(number) => before.set_register(dst, JsValue::Integer32(number)),
        None => before.set_register(src, JsValue::Undefined),
    }
}

impl ToNumeric {
    /// The state that [`ToNumeric::resume`] leaves behind.
    pub open spec fn stored(self, before: VmState, result: Result<Numeric, JsError>) -> VmState {
        match result {
            Ok(numeric) => before.set_register(self.src, numeric.value).set_register(
                self.dst,
                numeric.stepped,
            ),
            Err(error) => before.raise(error@),
        }
    }

    /// Goes on with the conversion. The number goes to `src` and the stepped one to
    /// `dst`. Returns 0 on success, 1 on exception.
    pub fn resume(self, vm: &mut Vm, result: Result<Numeric, JsError>) -> (code: u64)
        requires
            result is Ok ==> old(vm)@.has_register(self.src) && old(vm)@.has_register(self.dst),
        ensures
            code == status(result),
            final(vm)@ == self.stored(old(vm)@, result),
    {
        match result {
            Ok(numeric) => {
                vm.set_register(self.src, numeric.value);
                vm.set_register(self.dst, numeric.stepped);
                0
            },
            Err(error) => {
                vm.raise(error);
                1
            },
        }
    }
}

/// Unary `--` operator. The status is 0 on success, 1 on exception.
///
/// Implements: `Dec { dst, src }`
/// Writes the original value back to `src` and the decremented value to `dst`. While
/// the engine converts another value than a small integer, `src` is undefined.
pub fn jit_dec(vm: &mut Vm, dst: u32, src: u32) -> (next: Next<ToNumeric>)
    requires
        old(vm)@.has_register(src),
        next_integer(old(vm)@.register(src), false) is Some ==> old(vm)@.has_register(dst),
    ensures
        next == unary_next(old(vm)@, dst, src, false),
        final(vm)@ == unary_state(old(vm)@, dst, src, false),
        old(vm)@.register(src) matches JsValue::Integer32(number) ==> number
            > -0x8000_0000 ==> {
            &&& next is Done
            &&& final(vm)@.register(dst) matches JsValue::Integer32(stepped) && stepped == number
                - 1
            &&& dst != src ==> final(vm)@.register(src) == JsValue::Integer32(number)
        },
{
    let value = vm.take_register(src);
    if let JsValue::Integer32(number) = value {
        if number > i32::MIN {
            vm.set_register(src, JsValue::Integer32(number));
            vm.set_register(dst, JsValue::Integer32(number - 1));
            assert(vm@ =~= old(vm)@.set_register(dst, JsValue::Integer32((number - 1) as i32)));
            return Next::Done(0);
        }
    }
    Next::Ask(ToNumeric { dst, src, value, increment: false })
}

/// Unary `++` operator. The status is 0 on success, 1 on exception.
///
/// Implements: `Inc { dst, src }`
/// Writes the original value back to `src` and the incremented value to `dst`. While
/// the engine converts another value than a small integer, `src` is undefined.
pub fn jit_inc(vm: &mut Vm, dst: u32, src: u32) -> (next: Next<ToNumeric>)
    requires
        old(vm)@.has_register(src),
        next_integer(old(vm)@.register(src), true) is Some ==> old(vm)@.has_register(dst),
    ensures
        next == unary_next(old(vm)@, dst, src, true),
        final(vm)@ == unary_state(old(vm)@, dst, src, true),
        old(vm)@.register(src) matches JsValue::Integer32(number) ==> number
            < 0x7FFF_FFFF ==> {
            &&& next is Done
            &&& final(vm)@.register(dst) matches JsValue::Integer32(stepped) && stepped == number
                + 1
            &&& dst != src ==> final(vm)@.register(src) == JsValue::Integer32(number)
        },
{
    let value = vm.take_register(src);
    if let JsValue::Integer32(number) = value {
        if number < i32::MAX {
            vm.set_register(src, JsValue::Integer32(number));
            vm.set_register(dst, JsValue::Integer32(number + 1));
            assert(vm@ =~= old(vm)@.set_register(dst, JsValue::Integer32((number + 1) as i32)));
            return Next::Done(0);
        }
    }
    Next::Ask(ToNumeric { dst, src, value, increment: true })
}

/// Asks whether one value is less than another, first by the fast path and then by
/// the full comparison.
#[derive(Clone, Copy, Debug, PartialEq, Eq, Structural)]
pub struct LessThan {
    pub lhs: JsValue,
    pub rhs: JsValue,
}

impl LessThan {
    /// What [`LessThan::fast`] does next.
    pub open spec fn fast_next(self, result: Option<bool>) -> Next<LessThan> {
        match result {
            Some(less) => Next::Done(
                if less {
                    0
                } else {
                    1
                },
            ),
            None => Next::Ask(self),
        }
    }

    /// The status of [`LessThan::slow`].
    pub open spec fn slow_status(self, result: Result<bool, JsError>) -> u64 {
        match result {
            Ok(less) => if less {
                0
            } else {
                1
            },
            Err(_) => 2,
        }
    }

    /// Goes on with the answer of the fast path. Without one, the full comparison is
    /// asked for.
    pub fn fast(self, result: Option<bool>) -> (next: Next<LessThan>)
        ensures
            next == self.fast_next(result),
    {
        match result {
            Some(less) => Next::Done(if less { 0 } else { 1 }),
            None => Next::Ask(self),
        }
    }

    /// Goes on with the result of the full comparison. Returns 0 if it holds, 1 if it
    /// does not, 2 on exception.
    pub fn slow(self, vm: &mut Vm, result: Result<bool, JsError>) -> (code: u64)
        ensures
            code == self.slow_status(result),
            final(vm)@ == failure_raised(old(vm)@, result),
    {
        match result {
            Ok(less) => if less {
                0
            } else {
                1
            },
            Err(error) => {
                vm.raise(error);
                2
            },
        }
    }
}

/// Compare `lhs < rhs` for `JumpIfNotLessThan`. The status is 1 if the comparison does
/// not hold (should jump), 0 if it does, 2 on error.
///
/// Implements the condition check for: `JumpIfNotLessThan { lhs, rhs, address }`
pub fn jit_not_less_than(vm: &Vm, lhs: u32, rhs: u32) -> (request: LessThan)
    requires
        vm@.has_register(lhs),
        vm@.has_register(rhs),
    ensures
        request == (LessThan { lhs: vm@.register(lhs), rhs: vm@.register(rhs) }),
{
    LessThan { lhs: vm.get_register(lhs), rhs: vm.get_register(rhs) }
}

/// Stepping a small integer is adding or subtracting one, as long as the result is a small
/// integer. The value in `src` stays, and no other register than `dst` changes.
pub proof fn stepping_is_by_one(before: VmState, dst: u32, src: u32, number: i32)
    requires
        before.has_register(src),
        before.has_register(dst),
        before.register(src) == JsValue::Integer32(number),
    ensures
        number < 0x7FFF_FFFF ==> {
            let after = unary_state(before, dst, src, true);
            &&& unary_next(before, dst, src, true) == Next::<ToNumeric>::Done(0)
            &&& after.register(dst) matches JsValue::Integer32(stepped) && stepped == number + 1
            &&& dst != src ==> after.register(src) == JsValue::Integer32(number)
            &&& after.stack == before.stack.update(
                before.frames.last().rp + dst,
                after.register(dst),
            )
        },
        number > -0x8000_0000 ==> {
            let after = unary_state(before, dst, src, false);
            &&& unary_next(before, dst, src, false) == Next::<ToNumeric>::Done(0)
            &&& after.register(dst) matches JsValue::Integer32(stepped) && stepped == number - 1
            &&& dst != src ==> after.register(src) == JsValue::Integer32(number)
            &&& after.stack == before.stack.update(
                before.frames.last().rp + dst,
                after.register(dst),
            )
        },
{
}

/// A decrement undoes an increment, and the other way round.
pub proof fn decrement_undoes_increment(before: VmState, register: u32)
    requires
        before.has_register(register),
        before.register(register) is Integer32,
    ensures
        unary_next(before, register, register, true) is Done ==> unary_state(
            unary_state(before, register, register, true),
            register,
            register,
            false,
        ) == before,
        unary_next(before, register, register, false) is Done ==> unary_state(
            unary_state(before, register, register, false),
            register,
            register,
            true,
        ) == before,
{
    let up = unary_state(before, register, register, true);
    let down = unary_state(before, register, register, false);
    assert(unary_next(before, register, register, true) is Done ==> unary_state(
        up,
        register,
        register,
        false,
    ).stack =~= before.stack);
    assert(unary_next(before, register, register, false) is Done ==> unary_state(
        down,
        register,
        register,
        true,
    ).stack =~= before.stack);
}

/// Any other value is left to the engine: the largest small integer when it is incremented,
/// the smallest when it is decremented, and what is no small integer. Meanwhile `src` is
/// undefined.
pub proof fn other_values_are_converted(before: VmState, dst: u32, src: u32, increment: bool)
    requires
        before.has_register(src),
        before.register(src) matches JsValue::Integer32(number) ==> if increment {
            number == 0x7FFF_FFFF
        } else {
            number == -0x8000_0000
        },
    ensures
        unary_next(before, dst, src, increment) == Next::Ask(
            ToNumeric { dst, src, value: before.register(src), increment },
        ),
        unary_state(before, dst, src, increment) == (VmState {
            stack: before.stack.update(before.frames.last().rp + src, JsValue::Undefined),
            ..before
        }),
{
}

/// The number that the engine answers with goes to `src`, and the stepped one to `dst`, which
/// wins where both are the same register. A failed conversion writes neither.
pub proof fn converted_numbers_are_stored(
    request: ToNumeric,
    before: VmState,
    result: Result<Numeric, JsError>,
)
    requires
        before.has_register(request.src),
        before.has_register(request.dst),
    ensures
        match result {
            Ok(numeric) => {
                let after = request.stored(before, result);
                &&& after.register(request.dst) == numeric.stepped
                &&& request.dst != request.src ==> after.register(request.src) == numeric.value
                &&& forall|other: u32|
                    other != request.src && other != request.dst && before.has_register(other)
                        ==> #[trigger] after.register(other) == before.register(other)
                &&& after.pending_exception == before.pending_exception
                &&& after.frames == before.frames
                &&& after.stack.len() == before.stack.len()
                &&& after.return_value == before.return_value
            },
            Err(error) => request.stored(before, result) == (VmState {
                pending_exception: Some(error@),
                ..before
            }),
        },
{
}

/// An operator asks about the values of its two registers, left and right, and for its own
/// destination.
pub proof fn operands_are_read_in_order(
    vm: VmState,
    op: BinaryOp,
    dst: u32,
    lhs: u32,
    rhs: u32,
    negated: bool,
)
    ensures
        operation(vm, op, dst, lhs, rhs).op == op,
        operation(vm, op, dst, lhs, rhs).dst == dst,
        operation(vm, op, dst, lhs, rhs).lhs == vm.stack[vm.frames.last().rp + lhs],
        operation(vm, op, dst, lhs, rhs).rhs == vm.stack[vm.frames.last().rp + rhs],
        strict_equality(vm, dst, lhs, rhs, negated).dst == dst,
        strict_equality(vm, dst, lhs, rhs, negated).lhs == vm.stack[vm.frames.last().rp + lhs],
        strict_equality(vm, dst, lhs, rhs, negated).rhs == vm.stack[vm.frames.last().rp + rhs],
{
}

/// Where the fast path has an answer, that is the result, and nothing else is asked for.
/// Where it has none, nothing has happened yet.
pub proof fn fast_answers_are_final(
    request: BinaryOperation,
    before: VmState,
    result: Option<JsValue>,
)
    requires
        before.has_register(request.dst),
    ensures
        match result {
            Some(value) => {
                &&& request.fast_next(result) == Next::<BinaryOperation>::Done(0)
                &&& request.fast_state(before, result) == (VmState {
                    stack: before.stack.update(before.frames.last().rp + request.dst, value),
                    ..before
                })
            },
            None => {
                &&& request.fast_next(result) == Next::Ask(request)
                &&& request.fast_state(before, result) == before
            },
        },
{
}

/// Of the two strict comparisons exactly one holds.
pub proof fn strict_comparisons_are_opposite(
    vm: VmState,
    dst: u32,
    lhs: u32,
    rhs: u32,
    equal: bool,
)
    requires
        vm.has_register(dst),
    ensures
        ({
            let same = strict_equality(vm, dst, lhs, rhs, false).stored(vm, equal);
            let differ = strict_equality(vm, dst, lhs, rhs, true).stored(vm, equal);
            &&& same.register(dst) == JsValue::Boolean(equal)
            &&& differ.register(dst) == JsValue::Boolean(!equal)
            &&& same.stack == vm.stack.update(vm.frames.last().rp + dst, same.register(dst))
            &&& differ.stack == vm.stack.update(vm.frames.last().rp + dst, differ.register(dst))
            &&& same.pending_exception == vm.pending_exception
            &&& differ.pending_exception == vm.pending_exception
        }),
{
}

/// The comparison of a jump tells 0 where it holds, 1 where it does not, and 2 where it
/// failed, by the fast path as by the full comparison.
pub proof fn comparison_statuses(request: LessThan, result: Result<bool, JsError>)
    ensures
        request.fast_next(Some(true)) == Next::<LessThan>::Done(0),
        request.fast_next(Some(false)) == Next::<LessThan>::Done(1),
        request.fast_next(None) == Next::Ask(request),
        request.slow_status(result) == 0 <==> result == Ok::<bool, JsError>(true),
        request.slow_status(result) == 1 <==> result == Ok::<bool, JsError>(false),
        request.slow_status(result) == 2 <==> result is Err,
{
}

} // verus!
