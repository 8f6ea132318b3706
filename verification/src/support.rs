//! Which code the compiler takes.
//!
//! Compilation works at function granularity: a function is either compiled as a
//! whole or interpreted. If a [`CodeBlock`] holds an operation that the compiler
//! does not support, the function is left to the interpreter.

use vstd::prelude::*;

use crate::bytecode::located;
use crate::code_block::CodeBlock;
use crate::instruction::encoding_starts_with_opcode;
use crate::opcode::Opcode;

verus! {

/// The compiler supports every operation that has a name, but for `Pop` and `TypeOf`.
pub open spec fn supported(opcode: Opcode) -> bool {
    !(opcode is Pop || opcode is TypeOf || opcode is Other)
}

impl CodeBlock {
    /// The code uses only operations that the compiler supports.
    pub open spec fn compilable(self) -> bool {
        forall|k: int|
            0 <= k < self.bytecode.program().len() ==> supported(
                (#[trigger] self.bytecode.program()[k]).spec_opcode(),
            )
    }
}

/// Check whether a [`CodeBlock`] uses only operations that the compiler supports.
pub fn can_compile(code: &CodeBlock) -> (yes: bool)
    requires
        code.bytecode.wf(),
    ensures
        yes == code.compilable(),
{
    let instructions = code.bytecode.instructions();
    let ghost program = code.bytecode.program();
    let mut k: usize = 0;
    while k < instructions.len()
        invariant
            k <= instructions@.len(),
            program == code.bytecode.program(),
            instructions@ == located(program),
            forall|j: int| 0 <= j < k ==> supported((#[trigger] program[j]).spec_opcode()),
        decreases instructions@.len() - k,
    {
        let opcode = instructions[k].1.opcode();
        if !is_supported_opcode(opcode) {
            assert(!supported(program[k as int].spec_opcode()));
            return false;
        }
        k = k + 1;
    }
    true
}

/// The set of operations that the compiler supports.
pub fn is_supported_opcode(opcode: Opcode) -> (yes: bool)
    ensures
        yes == supported(opcode),
{
    matches!(
        opcode,
        // Data movement / constants.
        Opcode::Move
            | Opcode::StoreZero
            | Opcode::StoreOne
            | Opcode::StoreInt8
            | Opcode::StoreInt16
            | Opcode::StoreInt32
            | Opcode::StoreFloat
            | Opcode::StoreDouble
            | Opcode::StoreNan
            | Opcode::StorePositiveInfinity
            | Opcode::StoreNegativeInfinity
            | Opcode::StoreNull
            | Opcode::StoreTrue
            | Opcode::StoreFalse
            | Opcode::StoreUndefined
            | Opcode::GetArgument
            | Opcode::This
            // Stack / accumulator.
            | Opcode::SetAccumulator
            | Opcode::PushFromRegister
            | Opcode::PopIntoRegister
            // Arithmetic.
            | Opcode::Add
            | Opcode::Sub
            | Opcode::Mul
            | Opcode::Div
            | Opcode::Mod
            | Opcode::Pow
            | Opcode::Neg
            | Opcode::Pos
            | Opcode::Inc
            | Opcode::Dec
            // Bitwise.
            | Opcode::BitOr
            | Opcode::BitAnd
            | Opcode::BitXor
            | Opcode::BitNot
            | Opcode::ShiftLeft
            | Opcode::ShiftRight
            | Opcode::UnsignedShiftRight
            // Comparison.
            | Opcode::StrictEq
            | Opcode::StrictNotEq
            | Opcode::Eq
            | Opcode::NotEq
            | Opcode::GreaterThan
            | Opcode::GreaterThanOrEq
            | Opcode::LessThan
            | Opcode::LessThanOrEq
            | Opcode::InstanceOf
            // Type checks.
            | Opcode::IsObject
            | Opcode::ValueNotNullOrUndefined
            // Logical.
            | Opcode::LogicalAnd
            | Opcode::LogicalOr
            | Opcode::LogicalNot
            | Opcode::Coalesce
            // Control flow / jumps.
            | Opcode::Jump
            | Opcode::JumpIfTrue
            | Opcode::JumpIfFalse
            | Opcode::JumpIfNotLessThan
            | Opcode::JumpIfNotLessThanOrEqual
            | Opcode::JumpIfNotGreaterThan
            | Opcode::JumpIfNotGreaterThanOrEqual
            | Opcode::JumpIfNotEqual
            | Opcode::JumpIfNullOrUndefined
            | Opcode::JumpIfNotUndefined
            | Opcode::Case
            | Opcode::IncrementLoopIteration
            // Variable / binding access.
            | Opcode::GetName
            | Opcode::GetNameGlobal
            | Opcode::GetNameOrUndefined
            | Opcode::GetNameAndLocator
            | Opcode::GetLocator
            | Opcode::SetName
            | Opcode::SetNameByLocator
            | Opcode::PutLexicalValue
            | Opcode::DefInitVar
            | Opcode::DeleteName
            | Opcode::In
            | Opcode::ToPropertyKey
            // Property access.
            | Opcode::GetPropertyByName
            | Opcode::GetPropertyByNameWithThis
            | Opcode::GetLengthProperty
            | Opcode::GetPropertyByValue
            | Opcode::GetPropertyByValuePush
            | Opcode::SetPropertyByValue
            | Opcode::SetPropertyByName
            | Opcode::DefineOwnPropertyByName
            | Opcode::DefineOwnPropertyByValue
            | Opcode::DeletePropertyByName
            | Opcode::DeletePropertyByValue
            | Opcode::GetPrototype
            | Opcode::SetPrototype
            // Object / array creation.
            | Opcode::StoreLiteral
            | Opcode::StoreEmptyObject
            | Opcode::StoreNewArray
            | Opcode::StoreRegexp
            | Opcode::PushValueToArray
            | Opcode::PushElisionToArray
            // Function.
            | Opcode::GetFunction
            | Opcode::Call
            | Opcode::New
            // Scope.
            | Opcode::PushScope
            | Opcode::CreateUnmappedArgumentsObject
            | Opcode::RestParameterInit
            | Opcode::SetRegisterFromAccumulator
            // Error.
            | Opcode::Throw
            | Opcode::ThrowNewTypeError
            | Opcode::ThrowNewReferenceError
            | Opcode::ThrowMutateImmutable
            // Return.
            | Opcode::CheckReturn
            | Opcode::Return
    )
}

/// The compiler takes every operation with a name, whose bytes are those below 110, but for
/// `Pop` and `TypeOf`.
pub proof fn supported_operations_by_byte(opcode: Opcode)
    requires
        opcode.wf(),
    ensures
        supported(opcode) <==> opcode.byte() < 110 && opcode.byte() != 20 && opcode.byte() != 47,
        supported(opcode) <==> opcode != Opcode::Pop && opcode != Opcode::TypeOf && !(
        opcode is Other),
{
}

/// A function is compiled as a whole: one operation that is not supported is enough to leave
/// all of it to the interpreter.
pub proof fn one_unsupported_operation_is_enough(code: CodeBlock)
    requires
        code.bytecode.wf(),
    ensures
        code.compilable() <==> !exists|k: int|
            0 <= k < code.bytecode.program().len() && ({
                let first = (#[trigger] code.bytecode.program()[k]).encoding()[0];
                first == 20 || first == 47 || first >= 110
            }),
{
    let program = code.bytecode.program();
    assert(code.bytecode.encodes(program));
    assert forall|k: int| 0 <= k < program.len() implies (supported(
        (#[trigger] program[k]).spec_opcode(),
    ) <==> !({
        let first = program[k].encoding()[0];
        first == 20 || first == 47 || first >= 110
    })) by {
        assert(program[k].wf());
        encoding_starts_with_opcode(program[k]);
        supported_operations_by_byte(program[k].spec_opcode());
    }
    if !code.compilable() {
        let k = choose|k: int|
            0 <= k < program.len() && !supported((#[trigger] program[k]).spec_opcode());
        assert(program[k].encoding()[0] == program[k].encoding()[0]);
    }
}

} // verus!
